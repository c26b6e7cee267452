//! Small pictures: which ones are kept apart, and the ids that the renderer knows them by.
use crate::color::Rgb;
use crate::tabs::AiLogo;
use crate::text::texts;
use vstd::prelude::*;

verus! {

/// The first id of a picture.
pub const AI_LOGO_ID_BASE: u64 = 0x4000_0000_0000_0000;

/// How far above the first id those of shells begin.
pub const SHELL_ICON_OFFSET: u64 = 1000;

/// How many pictures of a sort there can be, so that every id is a 64-bit number.
pub const PICTURES_MAX: u64 = 0x1000_0000_0000_0000;

/// What a logo is drawn with.
#[derive(Clone, Copy, Debug, PartialEq, Eq, Structural)]
pub struct LogoKey {
    pub logo: AiLogo,
    pub ink: Rgb,
    pub size: u32,
}

/// A picture that is asked for: it is prepared under an id, was prepared now under one, or
/// there is none.
#[derive(Clone, Copy, Debug, PartialEq, Eq, Structural)]
pub enum Picture {
    Known(u64),
    New(u64),
    Missing,
}

/// The pictures that were prepared so far, in the order of their ids.
#[derive(Debug)]
pub struct LogoCache {
    pub logos: Vec<LogoKey>,
    pub shells: Vec<String>,
}

/// Whether an ink is light: its brightness in thousandths is half of the brightest.
pub open spec fn is_light_ink(ink: Rgb) -> bool {
    ink.r * 299 + ink.g * 587 + ink.b * 114 >= 128_000
}

fn light_ink(ink: Rgb) -> (r: bool)
    ensures
        r == is_light_ink(ink),
{
    let sum: u32 = ink.r as u32 * 299 + ink.g as u32 * 587 + ink.b as u32 * 114;
    sum >= 128_000
}

/// What tells one prepared logo from another. Logos in color are the same for every ink;
/// one comes in a dark and a light form, and some are drawn in the ink itself.
pub open spec fn logo_key(logo: AiLogo, ink: Rgb, size: u32) -> LogoKey {
    let shown = match logo {
        AiLogo::Grok => if is_light_ink(ink) {
            Rgb { r: 255, g: 255, b: 255 }
        } else {
            Rgb { r: 0, g: 0, b: 0 }
        },
        AiLogo::OpenAi | AiLogo::OpenCode | AiLogo::Pi => ink,
        _ => Rgb { r: 0, g: 0, b: 0 },
    };
    LogoKey { logo, ink: shown, size }
}

/// The key of a logo.
pub fn logo_key_for(logo: AiLogo, ink: Rgb, size: u32) -> (k: LogoKey)
    ensures
        k == logo_key(logo, ink, size),
{
    let shown: Rgb = match logo {
        AiLogo::Grok => if light_ink(ink) {
            Rgb { r: 255, g: 255, b: 255 }
        } else {
            Rgb { r: 0, g: 0, b: 0 }
        },
        AiLogo::OpenAi | AiLogo::OpenCode | AiLogo::Pi => ink,
        _ => Rgb { r: 0, g: 0, b: 0 },
    };
    LogoKey { logo, ink: shown, size }
}

/// The place of a key among prepared logos.
pub open spec fn logo_place(logos: Seq<LogoKey>, key: LogoKey) -> Option<int>
    decreases logos.len(),
{
    if logos.len() == 0 {
        None
    } else {
        match logo_place(logos.drop_last(), key) {
            Some(i) => Some(i),
            None => if logos.last() == key {
                Some(logos.len() - 1)
            } else {
                None
            },
        }
    }
}

proof fn lemma_logo_place_prefix(logos: Seq<LogoKey>, key: LogoKey, n: int)
    requires
        0 <= n <= logos.len(),
        logo_place(logos.take(n), key) is Some,
    ensures
        logo_place(logos, key) == logo_place(logos.take(n), key),
    decreases logos.len() - n,
{
    if n == logos.len() {
        assert(logos.take(n) =~= logos);
    } else {
        assert(logos.take(n + 1).drop_last() =~= logos.take(n));
        lemma_logo_place_prefix(logos, key, n + 1);
    }
}

impl LogoCache {
    /// No picture is prepared twice.
    pub open spec fn wf(self) -> bool {
        &&& forall|i: int, j: int|
            0 <= i < j < self.logos@.len() ==> #[trigger] self.logos@[i] != #[trigger] self.logos@[j]
        &&& forall|i: int, j: int|
            0 <= i < j < self.shells@.len() ==> #[trigger] self.shells@[i]@
                != #[trigger] self.shells@[j]@
        &&& self.logos@.len() <= PICTURES_MAX
        &&& self.shells@.len() <= PICTURES_MAX
    }

    /// The id of a prepared logo.
    fn ai_logo_id(&self, key: LogoKey) -> (r: Option<u64>)
        requires
            self.wf(),
        ensures
            match logo_place(self.logos@, key) {
                Some(i) => r == Some((AI_LOGO_ID_BASE + i) as u64),
                None => r is None,
            },
            r is Some <==> self.logos@.contains(key),
            r matches Some(id) ==> AI_LOGO_ID_BASE <= id < AI_LOGO_ID_BASE + self.logos@.len(),
    {
        let mut i: usize = 0;
        proof {
            assert(self.logos@.take(0).len() == 0);
        }
        while i < self.logos.len()
            invariant
                i <= self.logos@.len(),
                self.logos@.len() <= PICTURES_MAX,
                logo_place(self.logos@.take(i as int), key) is None,
                forall|k: int| 0 <= k < i ==> #[trigger] self.logos@[k] != key,
            decreases self.logos@.len() - i,
        {
            proof {
                assert(self.logos@.take(i + 1).drop_last() =~= self.logos@.take(i as int));
            }
            if self.logos[i] == key {
                proof {
                    lemma_logo_place_prefix(self.logos@, key, i + 1);
                    assert(self.logos@.contains(self.logos@[i as int]));
                }
                return Some(AI_LOGO_ID_BASE + i as u64);
            }
            i += 1;
        }
        proof {
            assert(self.logos@.take(i as int) =~= self.logos@);
        }
        None
    }

    /// Gives a newly prepared logo its id: the next one.
    fn add_ai_logo(&mut self, key: LogoKey) -> (id: u64)
        requires
            old(self).wf(),
            !old(self).logos@.contains(key),
            old(self).logos@.len() < PICTURES_MAX,
        ensures
            final(self).wf(),
            *final(self) == (LogoCache { logos: final(self).logos, ..*old(self) }),
            final(self).logos@ == old(self).logos@.push(key),
            id == AI_LOGO_ID_BASE + old(self).logos@.len(),
    {
        let id: u64 = AI_LOGO_ID_BASE + self.logos.len() as u64;
        let ghost before = self.logos@;
        self.logos.push(key);
        proof {
            assert forall|i: int, j: int| 0 <= i < j < self.logos@.len() implies
                #[trigger] self.logos@[i] != #[trigger] self.logos@[j] by {
                assert(before.contains(before[i]));
            }
        }
        id
    }

    /// The id of the prepared icon of a shell.
    fn shell_icon_id(&self, shell: &str) -> (r: Option<u64>)
        requires
            self.wf(),
        ensures
            match crate::hosts::first_index(texts(self.shells@), shell@) {
                Some(i) => r == Some((AI_LOGO_ID_BASE + SHELL_ICON_OFFSET + i) as u64),
                None => r is None,
            },
    {
        proof {
            crate::hosts::lemma_first_index(texts(self.shells@), shell@);
        }
        match crate::hosts::host_position(&self.shells, shell) {
            Some(i) => Some(AI_LOGO_ID_BASE + SHELL_ICON_OFFSET + i as u64),
            None => None,
        }
    }

    /// Gives the newly prepared icon of a shell its id: the next one.
    fn add_shell_icon(&mut self, shell: String) -> (id: u64)
        requires
            old(self).wf(),
            !texts(old(self).shells@).contains(shell@),
            old(self).shells@.len() < PICTURES_MAX,
        ensures
            final(self).wf(),
            *final(self) == (LogoCache { shells: final(self).shells, ..*old(self) }),
            final(self).shells@ == old(self).shells@.push(shell),
            id == AI_LOGO_ID_BASE + SHELL_ICON_OFFSET + old(self).shells@.len(),
    {
        let id: u64 = AI_LOGO_ID_BASE + SHELL_ICON_OFFSET + self.shells.len() as u64;
        let ghost before = self.shells@;
        self.shells.push(shell);
        proof {
            assert forall|i: int, j: int| 0 <= i < j < self.shells@.len() implies
                #[trigger] self.shells@[i]@ != #[trigger] self.shells@[j]@ by {
                assert(texts(before)[i] == before[i]@);
                assert(texts(before).contains(texts(before)[i]));
            }
        }
        id
    }
}

impl LogoCache {
    /// Looks a logo up, or prepares it: `decodes` tells whether that works.
    pub fn ai_logo_pixels(&mut self, logo: AiLogo, ink: Rgb, size: u32, decodes: bool) -> (r:
        Picture)
        requires
            old(self).wf(),
            old(self).logos@.len() < PICTURES_MAX,
        ensures
            final(self).wf(),
            ({
                let key = logo_key(logo, ink, size);
                match logo_place(old(self).logos@, key) {
                    Some(i) => r == Picture::Known((AI_LOGO_ID_BASE + i) as u64) && *final(self)
                        == *old(self),
                    None => if decodes {
                        &&& r == Picture::New((AI_LOGO_ID_BASE + old(self).logos@.len()) as u64)
                        &&& *final(self) == (LogoCache { logos: final(self).logos, ..*old(self) })
                        &&& final(self).logos@ == old(self).logos@.push(key)
                    } else {
                        r is Missing && *final(self) == *old(self)
                    },
                }
            }),
    {
        let key = logo_key_for(logo, ink, size);
        if let Some(id) = self.ai_logo_id(key) {
            return Picture::Known(id);
        }
        if !decodes {
            return Picture::Missing;
        }
        Picture::New(self.add_ai_logo(key))
    }

    /// Looks the icon of a shell up, or prepares it: `decodes` tells whether there is one
    /// and that works.
    pub fn shell_icon_pixels(&mut self, shell: &str, decodes: bool) -> (r: Picture)
        requires
            old(self).wf(),
            old(self).shells@.len() < PICTURES_MAX,
        ensures
            final(self).wf(),
            match crate::hosts::first_index(texts(old(self).shells@), shell@) {
                Some(i) => r == Picture::Known((AI_LOGO_ID_BASE + SHELL_ICON_OFFSET + i) as u64)
                    && *final(self) == *old(self),
                None => if decodes {
                    &&& r == Picture::New(
                        (AI_LOGO_ID_BASE + SHELL_ICON_OFFSET + old(self).shells@.len()) as u64,
                    )
                    &&& *final(self) == (LogoCache { shells: final(self).shells, ..*old(self) })
                    &&& texts(final(self).shells@) == texts(old(self).shells@).push(shell@)
                } else {
                    r is Missing && *final(self) == *old(self)
                },
            },
    {
        proof {
            crate::hosts::lemma_first_index(texts(self.shells@), shell@);
        }
        if let Some(id) = self.shell_icon_id(shell) {
            return Picture::Known(id);
        }
        if !decodes {
            return Picture::Missing;
        }
        let ghost before = self.shells@;
        let id: u64 = self.add_shell_icon(shell.to_owned());
        proof {
            assert(texts(self.shells@) =~= texts(before).push(shell@));
        }
        Picture::New(id)
    }
}

proof fn lemma_logo_place_holds(logos: Seq<LogoKey>, key: LogoKey)
    ensures
        logo_place(logos, key) matches Some(i) ==> 0 <= i < logos.len() && logos[i] == key,
    decreases logos.len(),
{
    if logos.len() > 0 {
        lemma_logo_place_holds(logos.drop_last(), key);
    }
}

/// Two pictures never share an id: not two logos, and not a logo and the icon of a shell
/// as long as the logos stay below the ids of shells.
pub proof fn picture_ids_differ(c: LogoCache, a: LogoKey, b: LogoKey, shell: Seq<char>)
    requires
        c.wf(),
        a != b,
        logo_place(c.logos@, a) is Some,
        logo_place(c.logos@, b) is Some,
        c.logos@.len() <= SHELL_ICON_OFFSET,
        crate::hosts::first_index(texts(c.shells@), shell) is Some,
    ensures
        AI_LOGO_ID_BASE + logo_place(c.logos@, a)->0 != AI_LOGO_ID_BASE + logo_place(
            c.logos@,
            b,
        )->0,
        AI_LOGO_ID_BASE + logo_place(c.logos@, a)->0 != AI_LOGO_ID_BASE + SHELL_ICON_OFFSET
            + crate::hosts::first_index(texts(c.shells@), shell)->0,
{
    lemma_logo_place_holds(c.logos@, a);
    lemma_logo_place_holds(c.logos@, b);
    crate::hosts::lemma_first_index(texts(c.shells@), shell);
}

/// Inks are light from the middle of their brightness on: brightening never makes one dark,
/// white is light and black is not, and green weighs more than red, red more than blue.
pub proof fn light_inks_are_bright(a: Rgb, b: Rgb)
    ensures
        is_light_ink(a) && a.r <= b.r && a.g <= b.g && a.b <= b.b ==> is_light_ink(b),
        is_light_ink(Rgb { r: 255, g: 255, b: 255 }),
        !is_light_ink(Rgb { r: 0, g: 0, b: 0 }),
        a.r == a.g && a.g == a.b ==> (is_light_ink(a) <==> a.r >= 128),
        is_light_ink(Rgb { r: 0, g: 255, b: 0 }),
        !is_light_ink(Rgb { r: 255, g: 0, b: 0 }),
        is_light_ink(Rgb { r: 255, g: 0, b: 255 }) == (255 * 299 + 255 * 114 >= 128_000int),
{
}

/// A logo keeps what it is and its size. The logos of one color are drawn in the ink of the
/// text, one is drawn in black or white, and the colored ones are the same for every ink.
pub proof fn logos_of_one_color_take_the_ink(logo: AiLogo, ink: Rgb, other: Rgb, size: u32)
    ensures
        logo_key(logo, ink, size).logo == logo,
        logo_key(logo, ink, size).size == size,
        logo is OpenAi || logo is OpenCode || logo is Pi ==> logo_key(logo, ink, size).ink == ink,
        logo is Grok && is_light_ink(ink) ==> logo_key(logo, ink, size).ink == (Rgb {
            r: 255,
            g: 255,
            b: 255,
        }),
        logo is Grok && !is_light_ink(ink) ==> logo_key(logo, ink, size).ink == (Rgb {
            r: 0,
            g: 0,
            b: 0,
        }),
        !(logo is OpenAi || logo is OpenCode || logo is Pi || logo is Grok) ==> logo_key(
            logo,
            ink,
            size,
        ) == logo_key(logo, other, size),
{
}

/// A picture is found where it stands first, and is missing only where it stands nowhere.
pub proof fn pictures_are_found_where_they_stand(logos: Seq<LogoKey>, key: LogoKey)
    ensures
        match logo_place(logos, key) {
            Some(i) => 0 <= i < logos.len() && logos[i] == key && forall|j: int|
                0 <= j < i ==> #[trigger] logos[j] != key,
            None => !logos.contains(key),
        },
    decreases logos.len(),
{
    if logos.len() > 0 {
        let front = logos.drop_last();
        pictures_are_found_where_they_stand(front, key);
        assert forall|j: int| 0 <= j < front.len() implies front[j] == #[trigger] logos[j] by {}
        if logo_place(logos, key) is None {
            assert forall|j: int| 0 <= j < logos.len() implies #[trigger] logos[j] != key by {
                if j < front.len() {
                    assert(front.contains(front[j]));
                }
            }
        }
    }
}

/// A logo has one picture for what it looks like: the first use makes it, under the next
/// number, and every later use gets the same.
pub proof fn logo_keeps_its_picture(
    s: &mut LogoCache,
    logo: AiLogo,
    ink: Rgb,
    size: u32,
    decodes: bool,
    r: Picture,
    t: &mut LogoCache,
    again: bool,
    q: Picture,
)
    requires
        call_ensures(LogoCache::ai_logo_pixels, (s, logo, ink, size, decodes), r),
        call_ensures(LogoCache::ai_logo_pixels, (t, logo, ink, size, again), q),
        *t == *final(s),
        old(s).logos@.len() < PICTURES_MAX,
    ensures
        r matches Picture::New(id) ==> q == Picture::Known(id) && decodes && id == AI_LOGO_ID_BASE
            + old(s).logos@.len() && final(s).logos@.len() == old(s).logos@.len() + 1,
        r matches Picture::Known(id) ==> q == Picture::Known(id) && *final(s) == *old(s),
        r is Missing ==> !decodes && *final(s) == *old(s),
        old(s).logos@.contains(logo_key(logo, ink, size)) <==> r is Known,
        final(s).shells == old(s).shells,
{
    let key = logo_key(logo, ink, size);
    pictures_are_found_where_they_stand(old(s).logos@, key);
    pictures_are_found_where_they_stand(final(s).logos@, key);
    if logo_place(old(s).logos@, key) is Some {
        let i = logo_place(old(s).logos@, key)->0;
        assert(old(s).logos@[i] == key);
    } else if decodes {
        let n = old(s).logos@.len() as int;
        assert(final(s).logos@[n] == key);
        assert forall|j: int| 0 <= j < n implies #[trigger] final(s).logos@[j] != key by {
            assert(old(s).logos@.contains(old(s).logos@[j]));
        }
    }
}

/// The icon of a shell has one picture, made with its first use.
pub proof fn shell_icon_keeps_its_picture(
    s: &mut LogoCache,
    shell: &str,
    decodes: bool,
    r: Picture,
)
    requires
        call_ensures(LogoCache::shell_icon_pixels, (s, shell, decodes), r),
        old(s).shells@.len() < PICTURES_MAX,
    ensures
        r is Known <==> texts(old(s).shells@).contains(shell@),
        r is Missing ==> !decodes && *final(s) == *old(s),
        r is New ==> texts(final(s).shells@).contains(shell@) && final(s).shells@.len()
            == old(s).shells@.len() + 1,
        r is Known ==> *final(s) == *old(s),
        final(s).logos == old(s).logos,
{
    crate::hosts::lemma_first_index(texts(old(s).shells@), shell@);
    if r is New {
        let t = texts(final(s).shells@);
        assert(t.len() == final(s).shells@.len());
        assert(t[t.len() - 1] == shell@);
    }
}

} // verus!
