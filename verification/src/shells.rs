//! Shells: which one new tabs start, the list to choose it from, and where they start.
use crate::config::Profile;
use crate::fx::Fx;
use crate::page::PageState;
use crate::text::{concat2, concat3, decimal, decimal_text, same_text};
use vstd::prelude::*;

verus! {

/// A shell that was found on this machine; `family` is the kind whose prompt is set up.
#[derive(Debug)]
pub struct DetectedShell {
    pub id: String,
    pub name: String,
    pub program: String,
    pub family: Option<u8>,
}

/// The default shell and what it can be chosen from.
#[derive(Debug)]
pub struct ShellState {
    pub family: u8,
    pub shell_id: Option<String>,
    pub startup_directory: Option<String>,
    pub detected: Option<Vec<DetectedShell>>,
    pub profiles: Vec<Profile>,
}

/// A row of the list: the id, the name and the program.
#[derive(Debug)]
pub struct ShellRow {
    pub id: String,
    pub name: String,
    pub program: String,
}

/// The profiles that can be a default: those that were imported.
pub open spec fn imported(profiles: Seq<Profile>) -> Seq<Profile>
    decreases profiles.len(),
{
    if profiles.len() == 0 {
        Seq::empty()
    } else if profiles.last().settings_key() is Some {
        imported(profiles.drop_last()).push(profiles.last())
    } else {
        imported(profiles.drop_last())
    }
}

proof fn lemma_imported_prefix(profiles: Seq<Profile>, n: int)
    requires
        0 <= n <= profiles.len(),
    ensures
        imported(profiles.take(n)).len() <= imported(profiles).len(),
        forall|i: int|
            0 <= i < imported(profiles.take(n)).len() ==> #[trigger] imported(profiles)[i]
                == imported(profiles.take(n))[i],
    decreases profiles.len() - n,
{
    if n == profiles.len() {
        assert(profiles.take(n) =~= profiles);
    } else {
        assert(profiles.take(n + 1).drop_last() =~= profiles.take(n));
        lemma_imported_prefix(profiles, n + 1);
        let a = imported(profiles.take(n));
        let b = imported(profiles.take(n + 1));
        assert forall|i: int| 0 <= i < a.len() implies #[trigger] imported(profiles)[i] == a[i] by {
            assert(b[i] == a[i]);
        }
    }
}

/// The imported profile with this settings key.
pub open spec fn profile_with_key(profiles: Seq<Profile>, key: Seq<char>) -> Option<int>
    decreases profiles.len(),
{
    if profiles.len() == 0 {
        None
    } else {
        match profile_with_key(profiles.drop_last(), key) {
            Some(i) => Some(i),
            None => if profiles.last().settings_key() == Some(key) {
                Some(profiles.len() - 1)
            } else {
                None
            },
        }
    }
}

proof fn lemma_key_in_prefix(profiles: Seq<Profile>, key: Seq<char>, n: int)
    requires
        0 <= n <= profiles.len(),
        profile_with_key(profiles.take(n), key) is Some,
    ensures
        profile_with_key(profiles, key) == profile_with_key(profiles.take(n), key),
    decreases profiles.len() - n,
{
    if n == profiles.len() {
        assert(profiles.take(n) =~= profiles);
    } else {
        assert(profiles.take(n + 1).drop_last() =~= profiles.take(n));
        lemma_key_in_prefix(profiles, key, n + 1);
    }
}

/// Whether a row shows this shell.
pub open spec fn shows_shell(row: ShellRow, shell: DetectedShell) -> bool {
    row.id == shell.id && row.name == shell.name && row.program == shell.program
}

/// Whether a row shows this profile.
pub open spec fn shows_profile(row: ShellRow, profile: Profile) -> bool {
    profile.settings_key() == Some(row.id@) && row.name == profile.name && row.program
        == profile.command
}

/// How importing a directory of terminals went.
#[derive(Debug)]
pub enum TerminalImport {
    Cancelled,
    ScanFailed(String),
    NothingFound,
    LoadFailed(String),
    UpsertFailed(String),
    SaveFailed(String),
    Done(usize),
}

/// Ends an import of a directory of terminals: whether it worked, and what to tell about it.
/// The flag of the message tells a success from a warning.
pub fn import_terminal_directory(outcome: &TerminalImport) -> (r: (bool, Option<(String, bool)>))
    ensures
        r.0 == (outcome is Done),
        match *outcome {
            TerminalImport::Cancelled => r.1 is None,
            TerminalImport::ScanFailed(e) => r.1 matches Some((m, ok)) && m@
                == "无法扫描终端目录: "@ + e@ && !ok,
            TerminalImport::NothingFound => r.1 matches Some((m, ok)) && m@
                == "目录中未找到受支持的终端程序"@ && !ok,
            TerminalImport::LoadFailed(e) => r.1 matches Some((m, ok)) && m@
                == "无法读取终端配置: "@ + e@ && !ok,
            TerminalImport::UpsertFailed(e) => r.1 matches Some((m, ok)) && m@
                == "无法导入终端: "@ + e@ && !ok,
            TerminalImport::SaveFailed(e) => r.1 matches Some((m, ok)) && m@
                == "无法保存终端配置: "@ + e@ && !ok,
            TerminalImport::Done(n) => r.1 matches Some((m, ok)) && m@ == "已导入 "@ + decimal_text(
                n as nat,
            ) + " 个终端，立即可用"@ && ok,
        },
{
    match outcome {
        TerminalImport::Cancelled => (false, None),
        TerminalImport::ScanFailed(e) => (
            false,
            Some((concat2("无法扫描终端目录: ", e.as_str()), false)),
        ),
        TerminalImport::NothingFound => (
            false,
            Some(("目录中未找到受支持的终端程序".to_owned(), false)),
        ),
        TerminalImport::LoadFailed(e) => (
            false,
            Some((concat2("无法读取终端配置: ", e.as_str()), false)),
        ),
        TerminalImport::UpsertFailed(e) => (
            false,
            Some((concat2("无法导入终端: ", e.as_str()), false)),
        ),
        TerminalImport::SaveFailed(e) => (
            false,
            Some((concat2("无法保存终端配置: ", e.as_str()), false)),
        ),
        TerminalImport::Done(n) => (
            true,
            Some((concat3("已导入 ", decimal(*n as u64).as_str(), " 个终端，立即可用"), true)),
        ),
    }
}

impl ShellState {
    /// The shells that were found.
    pub open spec fn found(self) -> Seq<DetectedShell> {
        match self.detected {
            Some(v) => v@,
            None => Seq::empty(),
        }
    }

    fn found_count(&self) -> (n: usize)
        ensures
            n == self.found().len(),
    {
        match &self.detected {
            Some(v) => v.len(),
            None => 0,
        }
    }

    fn imported_count(&self) -> (n: usize)
        ensures
            n == imported(self.profiles@).len(),
            n <= self.profiles@.len(),
    {
        let mut n: usize = 0;
        let mut i: usize = 0;
        proof {
            assert(self.profiles@.take(0) =~= Seq::<Profile>::empty());
        }
        while i < self.profiles.len()
            invariant
                i <= self.profiles@.len(),
                n <= i,
                n == imported(self.profiles@.take(i as int)).len(),
            decreases self.profiles@.len() - i,
        {
            proof {
                assert(self.profiles@.take(i + 1).drop_last() =~= self.profiles@.take(i as int));
            }
            if self.profiles[i].settings_id().is_some() {
                n += 1;
            }
            i += 1;
        }
        proof {
            assert(self.profiles@.take(i as int) =~= self.profiles@);
        }
        n
    }

    /// Rows in the list of default shells: as many as it shows.
    pub fn shell_picker_count(&self) -> (n: usize)
        requires
            self.found().len() + self.profiles@.len() <= usize::MAX,
        ensures
            n == self.found().len() + imported(self.profiles@).len(),
    {
        let imported: usize = self.imported_count();
        self.found_count() + imported
    }

    /// The rows of the list: the shells that were found, then the imported profiles.
    pub fn shell_rows(&self) -> (rows: Vec<ShellRow>)
        ensures
            rows@.len() == self.found().len() + imported(self.profiles@).len(),
            forall|i: int|
                0 <= i < self.found().len() ==> shows_shell(#[trigger] rows@[i], self.found()[i]),
            forall|i: int|
                self.found().len() <= i < rows@.len() ==> shows_profile(
                    #[trigger] rows@[i],
                    imported(self.profiles@)[i - self.found().len()],
                ),
    {
        let mut rows: Vec<ShellRow> = Vec::new();
        if let Some(shells) = &self.detected {
            let mut i: usize = 0;
            while i < shells.len()
                invariant
                    self.detected == Some(*shells),
                    i <= shells@.len(),
                    rows@.len() == i,
                    forall|k: int|
                        0 <= k < i ==> shows_shell(#[trigger] rows@[k], self.found()[k]),
                decreases shells@.len() - i,
            {
                rows.push(
                    ShellRow {
                        id: shells[i].id.clone(),
                        name: shells[i].name.clone(),
                        program: shells[i].program.clone(),
                    },
                );
                i += 1;
            }
        }
        let mut i: usize = 0;
        proof {
            assert(self.profiles@.take(0) =~= Seq::<Profile>::empty());
        }
        while i < self.profiles.len()
            invariant
                i <= self.profiles@.len(),
                rows@.len() == self.found().len() + imported(
                    self.profiles@.take(i as int),
                ).len(),
                forall|k: int|
                    0 <= k < self.found().len() ==> shows_shell(
                        #[trigger] rows@[k],
                        self.found()[k],
                    ),
                forall|k: int|
                    self.found().len() <= k < rows@.len() ==> shows_profile(
                        #[trigger] rows@[k],
                        imported(self.profiles@.take(i as int))[k - self.found().len()],
                    ),
            decreases self.profiles@.len() - i,
        {
            proof {
                assert(self.profiles@.take(i + 1).drop_last() =~= self.profiles@.take(i as int));
            }
            if let Some(id) = self.profiles[i].settings_id() {
                rows.push(
                    ShellRow {
                        id,
                        name: self.profiles[i].name.clone(),
                        program: self.profiles[i].command.clone(),
                    },
                );
            }
            i += 1;
        }
        proof {
            assert(self.profiles@.take(i as int) =~= self.profiles@);
        }
        rows
    }

    /// `now` is this state with another default.
    pub open spec fn defaulted(
        self,
        now: ShellState,
        id: Seq<char>,
        family: Option<u8>,
    ) -> bool {
        &&& now == (ShellState { family: now.family, shell_id: now.shell_id, ..self })
        &&& now.shell_id matches Some(s) && s@ == id
        &&& now.family == match family {
            Some(f) => f,
            None => self.family,
        }
    }

    /// Makes a shell that was found the default.
    pub fn set_default_shell(&mut self, shell: &DetectedShell, fx: &mut Fx)
        ensures
            old(self).defaulted(*final(self), shell.id@, shell.family),
            *final(fx) == old(fx).saved().marked(),
    {
        if let Some(f) = shell.family {
            self.family = f;
        }
        self.shell_id = Some(shell.id.clone());
        fx.save();
        fx.mark();
    }

    /// Makes an imported profile the default; `family` is the kind of its shell.
    pub fn set_default_profile(&mut self, profile: &Profile, family: Option<u8>, fx: &mut Fx)
        ensures
            match profile.settings_key() {
                Some(key) => old(self).defaulted(*final(self), key, family)
                    && *final(fx) == old(fx).saved().marked(),
                None => *final(self) == *old(self) && *final(fx) == *old(fx),
            },
    {
        if let Some(id) = profile.settings_id() {
            if let Some(f) = family {
                self.family = f;
            }
            self.shell_id = Some(id);
            fx.save();
            fx.mark();
        }
    }

    /// The imported profile at a place among the imported ones.
    fn imported_at(&self, n: usize) -> (r: Option<usize>)
        ensures
            r is Some <==> n < imported(self.profiles@).len(),
            r matches Some(i) ==> i < self.profiles@.len() && self.profiles@[i as int] == imported(
                self.profiles@,
            )[n as int],
    {
        let mut seen: usize = 0;
        let mut i: usize = 0;
        proof {
            assert(self.profiles@.take(0) =~= Seq::<Profile>::empty());
        }
        while i < self.profiles.len()
            invariant
                i <= self.profiles@.len(),
                seen <= i,
                seen <= n,
                seen == imported(self.profiles@.take(i as int)).len(),
            decreases self.profiles@.len() - i,
        {
            proof {
                assert(self.profiles@.take(i + 1).drop_last() =~= self.profiles@.take(i as int));
            }
            if self.profiles[i].settings_id().is_some() {
                if seen == n {
                    proof {
                        lemma_imported_prefix(self.profiles@, i + 1);
                    }
                    return Some(i);
                }
                seen += 1;
            }
            i += 1;
        }
        proof {
            assert(self.profiles@.take(i as int) =~= self.profiles@);
        }
        None
    }

    /// Makes a row of the list the default; the list closes. `family` is the kind of the
    /// shell of the profile at that row.
    pub fn set_default_shell_by_index(
        &mut self,
        index: usize,
        family: Option<u8>,
        page: &mut PageState,
        fx: &mut Fx,
    )
        ensures
            *final(page) == (PageState { dropdown: None, ..*old(page) }),
            ({
                let found = old(self).found();
                let rest = imported(old(self).profiles@);
                let at = index - found.len();
                if index < found.len() {
                    let shell = found[index as int];
                    old(self).defaulted(*final(self), shell.id@, shell.family)
                        && *final(fx) == old(fx).saved().marked()
                } else if at < rest.len() {
                    old(self).defaulted(*final(self), rest[at].settings_key()->0, family)
                        && *final(fx) == old(fx).saved().marked()
                } else {
                    *final(self) == *old(self) && *final(fx) == old(fx).marked()
                }
            }),
    {
        let count: usize = self.found_count();
        page.dropdown = None;
        fx.mark();
        if index < count {
            let mut id: Option<String> = None;
            let mut kind: Option<u8> = None;
            if let Some(shells) = &self.detected {
                id = Some(shells[index].id.clone());
                kind = shells[index].family;
            }
            if let Some(f) = kind {
                self.family = f;
            }
            self.shell_id = id;
            fx.save();
        } else if let Some(i) = self.imported_at(index - count) {
            let id = self.profiles[i].settings_id();
            proof {
                lemma_imported_has_key(self.profiles@, (index - count) as int);
            }
            if let Some(f) = family {
                self.family = f;
            }
            self.shell_id = id;
            fx.save();
        }
    }

    /// The name of the default: that of the profile it stands for, else the name of its
    /// id, else that of the shell family.
    pub fn default_name(&self, name_of_id: &str, family_name: &str) -> (s: String)
        ensures
            s@ == match self.shell_id {
                Some(id) => match profile_with_key(self.profiles@, id@) {
                    Some(i) => self.profiles@[i].name@,
                    None => name_of_id@,
                },
                None => family_name@,
            },
    {
        match &self.shell_id {
            Some(id) => match self.profile_at_key(id.as_str()) {
                Some(i) => self.profiles[i].name.clone(),
                None => name_of_id.to_owned(),
            },
            None => family_name.to_owned(),
        }
    }

    /// The id that the icon of the default is looked up by: the shell of the profile it
    /// stands for, else its own id, else that of the shell family.
    pub fn default_icon_id(&self, family_id: &str) -> (s: String)
        ensures
            s@ == match self.shell_id {
                Some(id) => match profile_with_key(self.profiles@, id@) {
                    Some(i) => match self.profiles@[i].shell_id {
                        Some(shell) => shell@,
                        None => id@,
                    },
                    None => id@,
                },
                None => family_id@,
            },
    {
        match &self.shell_id {
            Some(id) => {
                if let Some(i) = self.profile_at_key(id.as_str()) {
                    if let Some(shell) = &self.profiles[i].shell_id {
                        return shell.clone();
                    }
                }
                id.clone()
            },
            None => family_id.to_owned(),
        }
    }

    /// The id of the default: the one that was picked, else that of the shell family.
    pub fn default_shell_id(&self, family_id: &str) -> (s: String)
        ensures
            s@ == match self.shell_id {
                Some(id) => id@,
                None => family_id@,
            },
    {
        match &self.shell_id {
            Some(id) => id.clone(),
            None => family_id.to_owned(),
        }
    }

    fn profile_at_key(&self, key: &str) -> (r: Option<usize>)
        ensures
            match r {
                Some(i) => profile_with_key(self.profiles@, key@) == Some(i as int) && i
                    < self.profiles@.len(),
                None => profile_with_key(self.profiles@, key@) is None,
            },
    {
        let mut i: usize = 0;
        proof {
            assert(self.profiles@.take(0) =~= Seq::<Profile>::empty());
        }
        while i < self.profiles.len()
            invariant
                i <= self.profiles@.len(),
                profile_with_key(self.profiles@.take(i as int), key@) is None,
            decreases self.profiles@.len() - i,
        {
            proof {
                assert(self.profiles@.take(i + 1).drop_last() =~= self.profiles@.take(i as int));
            }
            if let Some(id) = self.profiles[i].settings_id() {
                if same_text(id.as_str(), key) {
                    proof {
                        lemma_key_in_prefix(self.profiles@, key@, i + 1);
                    }
                    return Some(i);
                }
            }
            i += 1;
        }
        proof {
            assert(self.profiles@.take(i as int) =~= self.profiles@);
        }
        None
    }

    /// Takes a directory that new tabs start in. `None` is a cancelled dialog, and what is
    /// no directory is not taken.
    pub fn pick_startup_directory(&mut self, path: Option<String>, is_dir: bool, fx: &mut Fx)
        ensures
            path is Some && is_dir ==> *final(self) == (ShellState {
                startup_directory: path,
                ..*old(self)
            }) && *final(fx) == old(fx).saved().touched(),
            path is None || !is_dir ==> *final(self) == *old(self) && *final(fx) == *old(fx),
    {
        if path.is_none() || !is_dir {
            return;
        }
        self.startup_directory = path;
        fx.save();
        fx.touch();
    }

    pub fn clear_startup_directory(&mut self, fx: &mut Fx)
        ensures
            *final(self) == (ShellState { startup_directory: None, ..*old(self) }),
            *final(fx) == (if old(self).startup_directory is Some {
                old(fx).saved().touched()
            } else {
                *old(fx)
            }),
    {
        if self.startup_directory.is_none() {
            return;
        }
        self.startup_directory = None;
        fx.save();
        fx.touch();
    }

    /// The directory that new tabs start in, as long as it still is one.
    pub fn startup_directory(&self, is_dir: bool) -> (r: Option<String>)
        ensures
            r == (if is_dir {
                self.startup_directory
            } else {
                None
            }),
    {
        match &self.startup_directory {
            Some(p) => if is_dir {
                Some(p.clone())
            } else {
                None
            },
            None => None,
        }
    }
}

proof fn lemma_imported_has_key(profiles: Seq<Profile>, n: int)
    requires
        0 <= n < imported(profiles).len(),
    ensures
        imported(profiles)[n].settings_key() is Some,
    decreases profiles.len(),
{
    if profiles.len() > 0 {
        if n < imported(profiles.drop_last()).len() {
            lemma_imported_has_key(profiles.drop_last(), n);
            if profiles.last().settings_key() is Some {
                assert(imported(profiles)[n] == imported(profiles.drop_last())[n]);
            }
        }
    }
}

/// Every row of the list of default shells can be picked: the row counts for the list and
/// for the choice agree.
pub proof fn every_row_can_be_picked(s: ShellState, index: int)
    requires
        0 <= index < s.found().len() + imported(s.profiles@).len(),
    ensures
        index < s.found().len() || imported(
            s.profiles@,
        )[index - s.found().len()].settings_key() is Some,
{
    if index >= s.found().len() {
        lemma_imported_has_key(s.profiles@, index - s.found().len());
    }
}

/// Exactly the profiles that were imported can be a default, all of them and in their order.
pub proof fn imported_profiles_are_listed(profiles: Seq<Profile>)
    ensures
        imported(profiles) == profiles.filter(
            |p: Profile| p.shell_id is Some && p.terminal_profile_id is Some,
        ),
    decreases profiles.len(),
{
    reveal(Seq::filter);
    let pred = |p: Profile| p.shell_id is Some && p.terminal_profile_id is Some;
    if profiles.len() > 0 {
        imported_profiles_are_listed(profiles.drop_last());
        assert(pred(profiles.last()) == profiles.last().settings_key() is Some);
    } else {
        assert(imported(profiles) =~= profiles);
    }
    assert(imported(profiles) == profiles.filter(pred));
}

/// A key stands for the first profile that has it, and for none where none has it.
pub proof fn key_stands_for_the_first_profile(profiles: Seq<Profile>, key: Seq<char>)
    ensures
        match profile_with_key(profiles, key) {
            Some(i) => {
                &&& 0 <= i < profiles.len()
                &&& profiles[i].settings_key() == Some(key)
                &&& forall|j: int| 0 <= j < i ==> (#[trigger] profiles[j]).settings_key() != Some(key)
            },
            None => forall|j: int|
                0 <= j < profiles.len() ==> (#[trigger] profiles[j]).settings_key() != Some(key),
        },
    decreases profiles.len(),
{
    if profiles.len() > 0 {
        let front = profiles.drop_last();
        key_stands_for_the_first_profile(front, key);
        assert forall|j: int| 0 <= j < front.len() implies front[j] == #[trigger] profiles[j] by {}
    }
}

/// A new default keeps everything but itself: its own family where it has one, else the
/// family that was set.
pub proof fn new_default_keeps_the_rest(
    s: ShellState,
    now: ShellState,
    id: Seq<char>,
    family: Option<u8>,
)
    requires
        s.defaulted(now, id, family),
    ensures
        now.shell_id is Some && (now.shell_id->0)@ == id,
        family is Some ==> now.family == family->0,
        family is None ==> now.family == s.family,
        now.startup_directory == s.startup_directory,
        now.detected == s.detected,
        now.profiles == s.profiles,
{
}

/// A row of the list is the default that it shows: a shell that was found, or an imported
/// profile; a row that is not there changes nothing. The list closes.
pub proof fn picked_row_is_the_default(
    s: &mut ShellState,
    index: usize,
    family: Option<u8>,
    page: &mut PageState,
    fx: &mut Fx,
)
    requires
        call_ensures(ShellState::set_default_shell_by_index, (s, index, family, page, fx), ()),
    ensures
        index < old(s).found().len() ==> final(s).shell_id is Some && (final(s).shell_id->0)@
            == old(s).found()[index as int].id@,
        old(s).found().len() <= index < old(s).found().len() + imported(old(s).profiles@).len()
            ==> final(s).shell_id is Some && imported(old(s).profiles@)[index
            - old(s).found().len()].settings_key() == Some((final(s).shell_id->0)@),
        index >= old(s).found().len() + imported(old(s).profiles@).len() ==> *final(s) == *old(s),
        *final(s) != *old(s) ==> final(fx).persist,
        final(page).dropdown is None,
        final(s).profiles == old(s).profiles && final(s).startup_directory
            == old(s).startup_directory,
{
    let rest = imported(old(s).profiles@);
    let at = index - old(s).found().len();
    if 0 <= at < rest.len() {
        lemma_imported_has_key(old(s).profiles@, at);
    }
}

/// The default is named after its profile where it is one, and else as its id or its family
/// is.
pub proof fn default_is_named_after_its_profile(
    s: ShellState,
    name_of_id: &str,
    family_name: &str,
    r: String,
    id: String,
    family_id: &str,
)
    requires
        call_ensures(ShellState::default_name, (&s, name_of_id, family_name), r),
        call_ensures(ShellState::default_shell_id, (&s, family_id), id),
    ensures
        s.shell_id is None ==> r@ == family_name@ && id@ == family_id@,
        s.shell_id matches Some(x) ==> id@ == x@,
        s.shell_id matches Some(x) ==> (forall|j: int|
            0 <= j < s.profiles@.len() ==> (#[trigger] s.profiles@[j]).settings_key() != Some(x@))
            ==> r@ == name_of_id@,
        s.shell_id matches Some(x) ==> (forall|j: int|
            0 <= j < s.profiles@.len() && (#[trigger] s.profiles@[j]).settings_key() == Some(x@)
                && (forall|k: int|
                0 <= k < j ==> (#[trigger] s.profiles@[k]).settings_key() != Some(x@))
                ==> r@ == s.profiles@[j].name@),
{
    if s.shell_id is Some {
        key_stands_for_the_first_profile(s.profiles@, (s.shell_id->0)@);
    }
}

/// New tabs start in the directory that was picked, as long as it is one; only a directory
/// is picked, and clearing it takes it back.
pub proof fn picked_directory_is_used(
    s: &mut ShellState,
    path: Option<String>,
    is_dir: bool,
    fx: &mut Fx,
    t: &mut ShellState,
    fx2: &mut Fx,
    u: ShellState,
    still: bool,
    r: Option<String>,
)
    requires
        call_ensures(ShellState::pick_startup_directory, (s, path, is_dir, fx), ()),
        call_ensures(ShellState::clear_startup_directory, (t, fx2), ()),
        call_ensures(ShellState::startup_directory, (&u, still), r),
    ensures
        path is Some && is_dir ==> final(s).startup_directory == path && final(fx).persist,
        path is None || !is_dir ==> *final(s) == *old(s) && *final(fx) == *old(fx),
        final(t).startup_directory is None && final(t).shell_id == old(t).shell_id,
        old(t).startup_directory is Some ==> final(fx2).persist,
        still ==> r == u.startup_directory,
        !still ==> r is None,
{
}

/// The list shows the shells that were found and then the imported profiles, as many rows as
/// it counts.
pub proof fn list_shows_shells_and_profiles(
    s: ShellState,
    rows: Vec<ShellRow>,
    n: usize,
    i: int,
)
    requires
        call_ensures(ShellState::shell_rows, (&s,), rows),
        call_ensures(ShellState::shell_picker_count, (&s,), n),
    ensures
        rows@.len() == n,
        n == s.found().len() + s.profiles@.filter(
            |p: Profile| p.shell_id is Some && p.terminal_profile_id is Some,
        ).len(),
        0 <= i < s.found().len() ==> rows@[i].id == s.found()[i].id && rows@[i].name
            == s.found()[i].name && rows@[i].program == s.found()[i].program,
        s.found().len() <= i < rows@.len() ==> rows@[i].name == imported(s.profiles@)[i
            - s.found().len()].name && rows@[i].program == imported(s.profiles@)[i
            - s.found().len()].command,
{
    imported_profiles_are_listed(s.profiles@);
    if 0 <= i < s.found().len() {
        assert(shows_shell(rows@[i], s.found()[i]));
    } else if s.found().len() <= i < rows@.len() {
        assert(shows_profile(rows@[i], imported(s.profiles@)[i - s.found().len()]));
    }
}

/// An import worked exactly where it is done, and tells of everything but a cancelled dialog,
/// with the error that there was.
pub proof fn import_tells_how_it_went(outcome: TerminalImport, r: (bool, Option<(String, bool)>))
    requires
        call_ensures(import_terminal_directory, (&outcome,), r),
    ensures
        r.0 <==> outcome is Done,
        r.1 is None <==> outcome is Cancelled,
        r.1 matches Some((_, ok)) ==> ok == r.0,
        outcome matches TerminalImport::ScanFailed(e) ==> ((r.1->0).0)@.skip(
            (((r.1->0).0)@.len() - e@.len()) as int,
        ) == e@,
        outcome matches TerminalImport::SaveFailed(e) ==> ((r.1->0).0)@.skip(
            (((r.1->0).0)@.len() - e@.len()) as int,
        ) == e@,
        outcome matches TerminalImport::LoadFailed(e) ==> ((r.1->0).0)@.skip(
            (((r.1->0).0)@.len() - e@.len()) as int,
        ) == e@,
        outcome matches TerminalImport::UpsertFailed(e) ==> ((r.1->0).0)@.skip(
            (((r.1->0).0)@.len() - e@.len()) as int,
        ) == e@,
{
    match outcome {
        TerminalImport::ScanFailed(e) => {
            let m = ((r.1->0).0)@;
            assert(m.skip((m.len() - e@.len()) as int) =~= e@);
        },
        TerminalImport::SaveFailed(e) => {
            let m = ((r.1->0).0)@;
            assert(m.skip((m.len() - e@.len()) as int) =~= e@);
        },
        TerminalImport::LoadFailed(e) => {
            let m = ((r.1->0).0)@;
            assert(m.skip((m.len() - e@.len()) as int) =~= e@);
        },
        TerminalImport::UpsertFailed(e) => {
            let m = ((r.1->0).0)@;
            assert(m.skip((m.len() - e@.len()) as int) =~= e@);
        },
        _ => {},
    }
}

} // verus!
