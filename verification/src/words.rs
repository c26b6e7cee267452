//! Splitting and comparing text: settings lines, command words, trimming.
use crate::text::{chars_of, is_white_space, same_text, text_of, text_range};
use vstd::prelude::*;

verus! {

/// A letter of ASCII in lower case; every other character as it is.
pub open spec fn ascii_lower(c: char) -> char {
    if 'A' <= c <= 'Z' {
        ((c as u8) + 32) as u8 as char
    } else {
        c
    }
}

/// A text with its ASCII letters in lower case.
pub open spec fn lowered(s: Seq<char>) -> Seq<char> {
    s.map_values(|c: char| ascii_lower(c))
}

pub open spec fn trimmed_end(s: Seq<char>) -> Seq<char>
    decreases s.len(),
{
    if s.len() > 0 && is_white_space(s.last()) {
        trimmed_end(s.drop_last())
    } else {
        s
    }
}

pub open spec fn trimmed_start(s: Seq<char>) -> Seq<char>
    decreases s.len(),
{
    if s.len() > 0 && is_white_space(s[0]) {
        trimmed_start(s.skip(1))
    } else {
        s
    }
}

/// A text without white space at its ends.
pub open spec fn trimmed(s: Seq<char>) -> Seq<char> {
    trimmed_start(trimmed_end(s))
}

pub open spec fn is_quote(c: char) -> bool {
    c == '"' || c == '\''
}

pub open spec fn unquoted_end(s: Seq<char>) -> Seq<char>
    decreases s.len(),
{
    if s.len() > 0 && is_quote(s.last()) {
        unquoted_end(s.drop_last())
    } else {
        s
    }
}

pub open spec fn unquoted_start(s: Seq<char>) -> Seq<char>
    decreases s.len(),
{
    if s.len() > 0 && is_quote(s[0]) {
        unquoted_start(s.skip(1))
    } else {
        s
    }
}

/// A text without quotation marks at its ends.
pub open spec fn unquoted(s: Seq<char>) -> Seq<char> {
    unquoted_start(unquoted_end(s))
}

/// The index of the first `c`, or the length.
pub open spec fn find_char(s: Seq<char>, c: char) -> int
    decreases s.len(),
{
    if s.len() == 0 || s[0] == c {
        0
    } else {
        1 + find_char(s.skip(1), c)
    }
}

pub proof fn lemma_find_char(s: Seq<char>, c: char, i: int)
    requires
        0 <= i <= s.len(),
        forall|j: int| 0 <= j < i ==> s[j] != c,
        i < s.len() ==> s[i] == c,
    ensures
        find_char(s, c) == i,
    decreases s.len(),
{
    if i > 0 {
        assert forall|j: int| 0 <= j < i - 1 implies s.skip(1)[j] != c by {
            assert(s[j + 1] != c);
        }
        lemma_find_char(s.skip(1), c, i - 1);
    }
}

/// The words of a text so far and the one that is being read.
pub open spec fn words_read(s: Seq<char>) -> (Seq<Seq<char>>, Seq<char>)
    decreases s.len(),
{
    if s.len() == 0 {
        (Seq::empty(), Seq::empty())
    } else {
        let (done, word) = words_read(s.drop_last());
        if !is_white_space(s.last()) {
            (done, word.push(s.last()))
        } else if word.len() > 0 {
            (done.push(word), Seq::empty())
        } else {
            (done, word)
        }
    }
}

/// The words of a text: what stands between white space.
pub open spec fn words_of(s: Seq<char>) -> Seq<Seq<char>> {
    let (done, word) = words_read(s);
    if word.len() > 0 {
        done.push(word)
    } else {
        done
    }
}

/// The ASCII letter in lower case.
pub fn ascii_lower_of(c: char) -> (r: char)
    ensures
        r == ascii_lower(c),
{
    if 'A' <= c && c <= 'Z' {
        ((c as u8) + 32) as char
    } else {
        c
    }
}

/// A text with its ASCII letters in lower case.
pub fn to_ascii_lowercase(s: &str) -> (r: String)
    ensures
        r@ == lowered(s@),
{
    let v = chars_of(s);
    let mut r = String::new();
    let mut i: usize = 0;
    proof {
        assert(r@ =~= lowered(s@.take(0)));
    }
    while i < v.len()
        invariant
            i <= v@.len(),
            v@ == s@,
            r@ == lowered(s@.take(i as int)),
        decreases v@.len() - i,
    {
        r.push(ascii_lower_of(v[i]));
        proof {
            assert(r@ =~= lowered(s@.take(i + 1)));
        }
        i += 1;
    }
    proof {
        assert(s@.take(i as int) =~= s@);
    }
    r
}

/// Whether two texts are the same but for the case of ASCII letters.
pub fn eq_ignore_ascii_case(a: &str, b: &str) -> (r: bool)
    ensures
        r == (lowered(a@) == lowered(b@)),
{
    let x = to_ascii_lowercase(a);
    let y = to_ascii_lowercase(b);
    same_text(x.as_str(), y.as_str())
}

fn trim_bounds(v: &Vec<char>) -> (r: (usize, usize))
    ensures
        r.0 <= r.1 <= v@.len(),
        v@.subrange(r.0 as int, r.1 as int) == trimmed(v@),
{
    let mut hi: usize = v.len();
    proof {
        assert(v@.take(hi as int) =~= v@);
    }
    while hi > 0 && v[hi - 1].is_whitespace()
        invariant
            hi <= v@.len(),
            trimmed_end(v@.take(hi as int)) == trimmed_end(v@),
        decreases hi,
    {
        proof {
            assert(v@.take(hi as int).drop_last() =~= v@.take(hi - 1));
        }
        hi -= 1;
    }
    let ghost cut = v@.take(hi as int);
    let mut lo: usize = 0;
    proof {
        assert(cut == trimmed_end(v@));
        assert(cut.skip(0) =~= cut);
    }
    while lo < hi && v[lo].is_whitespace()
        invariant
            lo <= hi <= v@.len(),
            cut == v@.take(hi as int),
            trimmed_start(cut.skip(lo as int)) == trimmed_start(cut),
        decreases hi - lo,
    {
        proof {
            assert(cut.skip(lo as int).skip(1) =~= cut.skip(lo + 1));
        }
        lo += 1;
    }
    proof {
        assert(cut.skip(lo as int) =~= v@.subrange(lo as int, hi as int));
    }
    (lo, hi)
}

/// A text without white space at its ends.
pub fn trim(s: &str) -> (r: String)
    ensures
        r@ == trimmed(s@),
{
    let v = chars_of(s);
    let (lo, hi): (usize, usize) = trim_bounds(&v);
    text_range(&v, lo, hi)
}

/// The characters of a field without white space at its ends.
pub fn trim_chars(v: &Vec<char>) -> (r: String)
    ensures
        r@ == trimmed(v@),
{
    let (lo, hi): (usize, usize) = trim_bounds(v);
    text_range(v, lo, hi)
}

/// A text without quotation marks at its ends.
pub fn trim_quotes(s: &str) -> (r: String)
    ensures
        r@ == unquoted(s@),
{
    let v = chars_of(s);
    let mut hi: usize = v.len();
    proof {
        assert(v@.take(hi as int) =~= v@);
    }
    while hi > 0 && (v[hi - 1] == '"' || v[hi - 1] == '\'')
        invariant
            hi <= v@.len(),
            unquoted_end(v@.take(hi as int)) == unquoted_end(v@),
        decreases hi,
    {
        proof {
            assert(v@.take(hi as int).drop_last() =~= v@.take(hi - 1));
        }
        hi -= 1;
    }
    let ghost cut = v@.take(hi as int);
    let mut lo: usize = 0;
    proof {
        assert(cut == unquoted_end(v@));
        assert(cut.skip(0) =~= cut);
    }
    while lo < hi && (v[lo] == '"' || v[lo] == '\'')
        invariant
            lo <= hi <= v@.len(),
            cut == v@.take(hi as int),
            unquoted_start(cut.skip(lo as int)) == unquoted_start(cut),
        decreases hi - lo,
    {
        proof {
            assert(cut.skip(lo as int).skip(1) =~= cut.skip(lo + 1));
        }
        lo += 1;
    }
    proof {
        assert(cut.skip(lo as int) =~= v@.subrange(lo as int, hi as int));
    }
    text_range(&v, lo, hi)
}

/// A command word as it is compared: without quotation marks, in lower case.
pub open spec fn command_word(s: Seq<char>) -> Seq<char> {
    lowered(unquoted(s))
}

pub open spec fn command_words(s: Seq<char>) -> Seq<Seq<char>> {
    words_of(s).map_values(|w: Seq<char>| command_word(w))
}

fn read_words(s: &str) -> (r: Vec<String>)
    ensures
        crate::text::texts(r@) == words_of(s@),
{
    let v = chars_of(s);
    let mut done: Vec<String> = Vec::new();
    let mut word: Vec<char> = Vec::new();
    let mut i: usize = 0;
    proof {
        assert(s@.take(0) =~= Seq::<char>::empty());
        assert(crate::text::texts(done@) =~= Seq::<Seq<char>>::empty());
    }
    while i < v.len()
        invariant
            i <= v@.len(),
            v@ == s@,
            (crate::text::texts(done@), word@) == words_read(s@.take(i as int)),
        decreases v@.len() - i,
    {
        proof {
            assert(s@.take(i + 1).drop_last() =~= s@.take(i as int));
        }
        let c: char = v[i];
        if !c.is_whitespace() {
            word.push(c);
        } else if word.len() > 0 {
            let ghost before = crate::text::texts(done@);
            let text = text_of(&word);
            done.push(text);
            proof {
                assert(crate::text::texts(done@) =~= before.push(word@));
            }
            word = Vec::new();
        }
        i += 1;
    }
    proof {
        assert(s@.take(i as int) =~= s@);
    }
    if word.len() > 0 {
        let ghost before = crate::text::texts(done@);
        let text = text_of(&word);
        done.push(text);
        proof {
            assert(crate::text::texts(done@) =~= before.push(word@));
        }
    }
    done
}

/// Whether a command line replays output that another process wrote: container and
/// service logs.
pub open spec fn replays_logs(w: Seq<Seq<char>>) -> bool {
    ||| w.len() >= 2 && w[0] == "docker"@ && w[1] == "logs"@
    ||| w.len() >= 3 && w[0] == "docker"@ && w[1] == "compose"@ && w[2] == "logs"@
    ||| w.len() >= 2 && w[0] == "podman"@ && w[1] == "logs"@
    ||| w.len() >= 2 && w[0] == "kubectl"@ && w[1] == "logs"@
    ||| w.len() >= 1 && w[0] == "journalctl"@
}

fn word_is(words: &Vec<String>, i: usize, name: &str) -> (r: bool)
    ensures
        r == (i < words@.len() && command_word(words@[i as int]@) == name@),
{
    if i >= words.len() {
        return false;
    }
    let bare = trim_quotes(words[i].as_str());
    let low = to_ascii_lowercase(bare.as_str());
    same_text(low.as_str(), name)
}

/// Whether a command line can print terminal queries that were captured elsewhere, so
/// that they must not be answered.
pub fn replays_untrusted_terminal_output(line: &str) -> (r: bool)
    ensures
        r == replays_logs(command_words(line@)),
{
    let words = read_words(line);
    proof {
        let w = command_words(line@);
        assert(w.len() == words@.len());
        assert forall|i: int| 0 <= i < words@.len() implies w[i] == command_word(words@[i]@) by {
            assert(crate::text::texts(words@)[i] == words@[i]@);
        }
    }
    (word_is(&words, 0, "docker") && word_is(&words, 1, "logs")) || (word_is(&words, 0, "docker")
        && word_is(&words, 1, "compose") && word_is(&words, 2, "logs")) || (word_is(
        &words,
        0,
        "podman",
    ) && word_is(&words, 1, "logs")) || (word_is(&words, 0, "kubectl") && word_is(
        &words,
        1,
        "logs",
    )) || word_is(&words, 0, "journalctl")
}

/// The value of a settings line `key = value`, where the key is the wanted one.
pub open spec fn line_value(line: Seq<char>, key: Seq<char>) -> Option<Seq<char>> {
    let i = find_char(line, '=');
    if i < line.len() && lowered(trimmed(line.take(i))) == lowered(key) {
        Some(trimmed(line.skip(i + 1)))
    } else {
        None
    }
}

/// The value of the first line that has the key.
pub open spec fn settings_value(data: Seq<char>, key: Seq<char>) -> Option<Seq<char>>
    decreases data.len(),
{
    let end = find_char(data, '\n');
    if 0 <= end < data.len() {
        match line_value(data.take(end), key) {
            Some(v) => Some(v),
            None => settings_value(data.skip(end + 1), key),
        }
    } else {
        line_value(data, key)
    }
}

fn find_in(v: &Vec<char>, from: usize, to: usize, c: char) -> (i: usize)
    requires
        from <= to <= v@.len(),
    ensures
        from <= i <= to,
        find_char(v@.subrange(from as int, to as int), c) == i - from,
{
    let mut i: usize = from;
    while i < to && v[i] != c
        invariant
            from <= i <= to <= v@.len(),
            forall|j: int| from <= j < i ==> v@[j] != c,
        decreases to - i,
    {
        i += 1;
    }
    proof {
        lemma_find_char(v@.subrange(from as int, to as int), c, i - from);
    }
    i
}

/// Reads the raw value of a key from the text of the settings file. Keys are compared
/// without regard to case, and the first line wins.
pub fn nebula_settings_value(data: &str, key: &str) -> (r: Option<String>)
    ensures
        r is Some <==> settings_value(data@, key@) is Some,
        r matches Some(s) ==> settings_value(data@, key@) == Some(s@),
{
    let v = chars_of(data);
    let mut from: usize = 0;
    let mut more: bool = true;
    proof {
        assert(v@.skip(0) =~= v@);
    }
    while more
        invariant
            from <= v@.len(),
            more ==> settings_value(v@.skip(from as int), key@) == settings_value(data@, key@),
            !more ==> settings_value(data@, key@) is None,
        decreases v@.len() - from + (if more { 1int } else { 0int }),
    {
        let ghost rest = v@.skip(from as int);
        let end: usize = find_in(&v, from, v.len(), '\n');
        proof {
            assert(v@.subrange(from as int, v@.len() as int) =~= rest);
            assert(rest.take(end - from) =~= v@.subrange(from as int, end as int));
            assert(end == v@.len() ==> rest.take(end - from) =~= rest);
        }
        let eq: usize = find_in(&v, from, end, '=');
        let ghost line = v@.subrange(from as int, end as int);
        if eq < end {
            let name = text_range(&v, from, eq);
            let value = text_range(&v, eq + 1, end);
            proof {
                assert(line.take(eq - from) =~= v@.subrange(from as int, eq as int));
                assert(line.skip(eq - from + 1) =~= v@.subrange(eq + 1, end as int));
            }
            let name = trim(name.as_str());
            if eq_ignore_ascii_case(name.as_str(), key) {
                return Some(trim(value.as_str()));
            }
        }
        if end < v.len() {
            proof {
                assert(rest.skip(end - from + 1) =~= v@.skip(end + 1));
            }
            from = end + 1;
        } else {
            more = false;
        }
    }
    None
}

/// A value that switches something off.
pub open spec fn is_off(v: Seq<char>) -> bool {
    let w = lowered(trimmed(v));
    w == "0"@ || w == "false"@ || w == "no"@ || w == "off"@
}

/// A switch is on unless the settings say otherwise.
pub open spec fn switch_on(data: Option<Seq<char>>, key: Seq<char>) -> bool {
    match data {
        Some(d) => match settings_value(d, key) {
            Some(v) => !is_off(v),
            None => true,
        },
        None => true,
    }
}

/// Whether a value of the settings switches something off.
pub fn reads_as_off(v: &str) -> (r: bool)
    ensures
        r == is_off(v@),
{
    let t = trim(v);
    let low = to_ascii_lowercase(t.as_str());
    same_text(low.as_str(), "0") || same_text(low.as_str(), "false") || same_text(
        low.as_str(),
        "no",
    ) || same_text(low.as_str(), "off")
}

fn setting_enabled(data: Option<&str>, key: &str) -> (r: bool)
    ensures
        r == switch_on(
            match data {
                Some(d) => Some(d@),
                None => None,
            },
            key@,
        ),
{
    match data {
        Some(d) => match nebula_settings_value(d, key) {
            Some(v) => !reads_as_off(v.as_str()),
            None => true,
        },
        None => true,
    }
}

/// Whether the last session is opened again at the start. `data` is the text of the
/// settings file, `None` where it cannot be read.
pub fn restore_session_enabled(data: Option<&str>) -> (r: bool)
    ensures
        r == switch_on(
            match data {
                Some(d) => Some(d@),
                None => None,
            },
            "restore_session"@,
        ),
{
    setting_enabled(data, "restore_session")
}

/// Whether the tray icon is wanted.
pub fn tray_enabled(data: Option<&str>) -> (r: bool)
    ensures
        r == switch_on(
            match data {
                Some(d) => Some(d@),
                None => None,
            },
            "tray"@,
        ),
{
    setting_enabled(data, "tray")
}

/// A text without double quotation marks at its ends.
pub open spec fn without_double_quotes(s: Seq<char>) -> Seq<char>
    decreases s.len(),
{
    if s.len() > 0 && s.last() == '"' {
        without_double_quotes(s.drop_last())
    } else if s.len() > 0 && s[0] == '"' {
        without_double_quotes(s.skip(1))
    } else {
        s
    }
}

/// A text without double quotation marks at its ends.
pub fn trim_double_quotes(s: &str) -> (r: String)
    ensures
        r@ == without_double_quotes(s@),
{
    let v = chars_of(s);
    let mut lo: usize = 0;
    let mut hi: usize = v.len();
    proof {
        assert(v@.subrange(0, v@.len() as int) =~= v@);
    }
    while hi > 0 && v[hi - 1] == '"'
        invariant
            hi <= v@.len(),
            v@ == s@,
            without_double_quotes(v@.subrange(0, hi as int)) == without_double_quotes(s@),
        decreases hi,
    {
        proof {
            assert(v@.subrange(0, hi as int).drop_last() =~= v@.subrange(0, hi - 1));
        }
        hi -= 1;
    }
    while lo < hi && v[lo] == '"'
        invariant
            lo <= hi <= v@.len(),
            hi > 0 ==> v@[hi - 1] != '"',
            without_double_quotes(v@.subrange(lo as int, hi as int)) == without_double_quotes(s@),
        decreases hi - lo,
    {
        proof {
            assert(v@.subrange(lo as int, hi as int).skip(1) =~= v@.subrange(
                lo + 1,
                hi as int,
            ));
        }
        lo += 1;
    }
    text_range(&v, lo, hi)
}

/// The path of a configured background image: what stands between white space and
/// quotation marks.
pub open spec fn image_path(path: Option<Seq<char>>) -> Option<Seq<char>> {
    match path {
        Some(p) if without_double_quotes(trimmed(p)).len() > 0 => Some(
            without_double_quotes(trimmed(p)),
        ),
        _ => None,
    }
}

/// The path of the background image, where one is configured.
pub fn background_image_path(path: Option<&str>) -> (r: Option<String>)
    ensures
        ({
            let wanted = image_path(
                match path {
                    Some(p) => Some(p@),
                    None => None,
                },
            );
            match r {
                Some(s) => wanted == Some(s@),
                None => wanted is None,
            }
        }),
{
    match path {
        Some(p) => {
            let t = trim(p);
            let bare = trim_double_quotes(t.as_str());
            if bare.as_str().is_empty() {
                None
            } else {
                Some(bare)
            }
        },
        None => None,
    }
}

/// Whether a background image is configured.
pub fn has_background_image(path: Option<&str>) -> (r: bool)
    ensures
        r == (image_path(
            match path {
                Some(p) => Some(p@),
                None => None,
            },
        ) is Some),
{
    background_image_path(path).is_some()
}

/// Lower case changes the capital letters of ASCII, each to its small one, and no other
/// character.
pub proof fn lower_case_changes_capitals_only(s: Seq<char>)
    ensures
        lowered(s).len() == s.len(),
        forall|i: int|
            0 <= i < s.len() ==> if 'A' <= s[i] <= 'Z' {
                (#[trigger] lowered(s)[i]) as int == s[i] as int + 32
            } else {
                lowered(s)[i] == s[i]
            },
        lowered(lowered(s)) == lowered(s),
{
    assert(lowered(lowered(s)) =~= lowered(s));
}

proof fn lemma_trimmed_end(s: Seq<char>)
    ensures
        exists|b: Seq<char>| s == trimmed_end(s) + b && #[trigger] all_white(b),
        trimmed_end(s).len() > 0 ==> !is_white_space(trimmed_end(s).last()),
    decreases s.len(),
{
    if s.len() > 0 && is_white_space(s.last()) {
        lemma_trimmed_end(s.drop_last());
        let b = choose|b: Seq<char>|
            s.drop_last() == trimmed_end(s.drop_last()) + b && #[trigger] all_white(b);
        let c = b.push(s.last());
        assert forall|i: int| 0 <= i < c.len() implies is_white_space(#[trigger] c[i]) by {
            if i < b.len() {
                assert(is_white_space(b[i]));
            }
        }
        assert(all_white(c));
        assert(trimmed_end(s) + c =~= (trimmed_end(s) + b).push(s.last()));
        assert(s =~= s.drop_last().push(s.last()));
    } else {
        assert(all_white(Seq::empty()));
        assert(s =~= trimmed_end(s) + Seq::<char>::empty());
    }
}

proof fn lemma_trimmed_start(s: Seq<char>)
    ensures
        exists|a: Seq<char>| s == a + trimmed_start(s) && #[trigger] all_white(a),
        trimmed_start(s).len() > 0 ==> !is_white_space(trimmed_start(s)[0]),
        trimmed_start(s).len() > 0 ==> trimmed_start(s).last() == s.last(),
    decreases s.len(),
{
    if s.len() > 0 && is_white_space(s[0]) {
        lemma_trimmed_start(s.skip(1));
        let a = choose|a: Seq<char>|
            s.skip(1) == a + trimmed_start(s.skip(1)) && #[trigger] all_white(a);
        let c = seq![s[0]] + a;
        assert forall|i: int| 0 <= i < c.len() implies is_white_space(#[trigger] c[i]) by {
            if i > 0 {
                assert(c[i] == a[i - 1]);
            }
        }
        assert(all_white(c));
        assert(c + trimmed_start(s) =~= seq![s[0]] + (a + trimmed_start(s)));
        assert(s =~= seq![s[0]] + s.skip(1));
    } else {
        assert(all_white(Seq::empty()));
        assert(s =~= Seq::<char>::empty() + trimmed_start(s));
    }
}

/// Nothing but white space.
pub open spec fn all_white(s: Seq<char>) -> bool {
    forall|i: int| 0 <= i < s.len() ==> is_white_space(#[trigger] s[i])
}

/// Trimming takes white space from both ends, all of it and nothing else.
pub proof fn trimming_takes_white_ends(s: Seq<char>)
    ensures
        exists|a: Seq<char>, b: Seq<char>|
            s == a + trimmed(s) + b && #[trigger] all_white(a) && #[trigger] all_white(b),
        trimmed(s).len() > 0 ==> !is_white_space(trimmed(s)[0]) && !is_white_space(
            trimmed(s).last(),
        ),
{
    lemma_trimmed_end(s);
    lemma_trimmed_start(trimmed_end(s));
    let b = choose|b: Seq<char>| s == trimmed_end(s) + b && #[trigger] all_white(b);
    let a = choose|a: Seq<char>|
        trimmed_end(s) == a + trimmed_start(trimmed_end(s)) && #[trigger] all_white(a);
    assert(s =~= a + trimmed(s) + b);
    assert(all_white(a) && all_white(b));
}

proof fn lemma_unquoted_end(s: Seq<char>)
    ensures
        exists|b: Seq<char>| s == unquoted_end(s) + b && #[trigger] all_quotes(b),
        unquoted_end(s).len() > 0 ==> !is_quote(unquoted_end(s).last()),
    decreases s.len(),
{
    if s.len() > 0 && is_quote(s.last()) {
        lemma_unquoted_end(s.drop_last());
        let b = choose|b: Seq<char>|
            s.drop_last() == unquoted_end(s.drop_last()) + b && #[trigger] all_quotes(b);
        let c = b.push(s.last());
        assert forall|i: int| 0 <= i < c.len() implies #[trigger] c[i] == '"' || c[i] == '\'' by {
            if i < b.len() {
                assert(b[i] == '"' || b[i] == '\'');
            }
        }
        assert(all_quotes(c));
        assert(unquoted_end(s) + c =~= (unquoted_end(s) + b).push(s.last()));
        assert(s =~= s.drop_last().push(s.last()));
    } else {
        assert(all_quotes(Seq::empty()));
        assert(s =~= unquoted_end(s) + Seq::<char>::empty());
    }
}

proof fn lemma_unquoted_start(s: Seq<char>)
    ensures
        exists|a: Seq<char>| s == a + unquoted_start(s) && #[trigger] all_quotes(a),
        unquoted_start(s).len() > 0 ==> !is_quote(unquoted_start(s)[0]),
        unquoted_start(s).len() > 0 ==> unquoted_start(s).last() == s.last(),
    decreases s.len(),
{
    if s.len() > 0 && is_quote(s[0]) {
        lemma_unquoted_start(s.skip(1));
        let a = choose|a: Seq<char>|
            s.skip(1) == a + unquoted_start(s.skip(1)) && #[trigger] all_quotes(a);
        let c = seq![s[0]] + a;
        assert forall|i: int| 0 <= i < c.len() implies #[trigger] c[i] == '"' || c[i] == '\'' by {
            if i > 0 {
                assert(c[i] == a[i - 1]);
            }
        }
        assert(all_quotes(c));
        assert(c + unquoted_start(s) =~= seq![s[0]] + (a + unquoted_start(s)));
        assert(s =~= seq![s[0]] + s.skip(1));
    } else {
        assert(all_quotes(Seq::empty()));
        assert(s =~= Seq::<char>::empty() + unquoted_start(s));
    }
}

/// Nothing but quotation marks, single or double.
pub open spec fn all_quotes(s: Seq<char>) -> bool {
    forall|i: int| 0 <= i < s.len() ==> (#[trigger] s[i] == '"' || s[i] == '\'')
}

/// A word without its quotation marks: they go at both ends, all of them, and nothing else.
pub proof fn unquoting_takes_quotes_at_the_ends(s: Seq<char>)
    ensures
        exists|a: Seq<char>, b: Seq<char>|
            s == a + unquoted(s) + b && #[trigger] all_quotes(a) && #[trigger] all_quotes(b),
        unquoted(s).len() > 0 ==> unquoted(s)[0] != '"' && unquoted(s)[0] != '\''
            && unquoted(s).last() != '"' && unquoted(s).last() != '\'',
{
    lemma_unquoted_end(s);
    lemma_unquoted_start(unquoted_end(s));
    let b = choose|b: Seq<char>| s == unquoted_end(s) + b && #[trigger] all_quotes(b);
    let a = choose|a: Seq<char>|
        unquoted_end(s) == a + unquoted_start(unquoted_end(s)) && #[trigger] all_quotes(a);
    assert(s =~= a + unquoted(s) + b);
    assert(all_quotes(a) && all_quotes(b));
}

/// Whether a text is another one with double quotation marks around it, `k` of them in front.
pub open spec fn quoted_at(s: Seq<char>, p: Seq<char>, k: int) -> bool {
    &&& 0 <= k <= s.len() - p.len()
    &&& forall|i: int| 0 <= i < p.len() ==> #[trigger] p[i] == s[k + i]
    &&& forall|i: int| 0 <= i < k || k + p.len() <= i < s.len() ==> #[trigger] s[i] == '"'
}

/// Double quotation marks at the ends of a path go, all of them; what stands between them
/// stays.
pub proof fn path_loses_double_quotes_at_its_ends(s: Seq<char>)
    ensures
        ({
            let p = without_double_quotes(s);
            &&& p.len() > 0 ==> p[0] != '"' && p.last() != '"'
            &&& exists|k: int| quoted_at(s, p, k)
        }),
    decreases s.len(),
{
    let p = without_double_quotes(s);
    if s.len() > 0 && s.last() == '"' {
        let t = s.drop_last();
        path_loses_double_quotes_at_its_ends(t);
        let k = choose|k: int| quoted_at(t, p, k);
        assert forall|i: int| 0 <= i < k || k + p.len() <= i < s.len() implies #[trigger] s[i]
            == '"' by {
            if i < t.len() {
                assert(t[i] == '"');
            }
        }
        assert(quoted_at(s, p, k));
    } else if s.len() > 0 && s[0] == '"' {
        let t = s.skip(1);
        path_loses_double_quotes_at_its_ends(t);
        let k = choose|k: int| quoted_at(t, p, k);
        assert forall|i: int|
            0 <= i < k + 1 || k + 1 + p.len() <= i < s.len() implies #[trigger] s[i] == '"' by {
            if i > 0 {
                assert(t[i - 1] == '"');
            }
        }
        assert(quoted_at(s, p, k + 1));
    } else {
        assert(quoted_at(s, p, 0));
    }
}

proof fn lemma_words_prefix(a: Seq<char>, b: Seq<char>)
    requires
        words_read(a).1.len() == 0,
    ensures
        words_read(a + b).0 == words_read(a).0 + words_read(b).0,
        words_read(a + b).1 == words_read(b).1,
    decreases b.len(),
{
    if b.len() == 0 {
        assert(a + b =~= a);
        assert(words_read(a).0 + words_read(b).0 =~= words_read(a).0);
        assert(words_read(a).1 =~= words_read(b).1);
    } else {
        lemma_words_prefix(a, b.drop_last());
        assert((a + b).drop_last() =~= a + b.drop_last());
        let (done, word) = words_read(b.drop_last());
        assert(words_read(a).0 + done.push(word) =~= (words_read(a).0 + done).push(word));
    }
}

proof fn lemma_one_word(s: Seq<char>)
    requires
        forall|i: int| 0 <= i < s.len() ==> !is_white_space(#[trigger] s[i]),
    ensures
        words_read(s) == (Seq::<Seq<char>>::empty(), s),
    decreases s.len(),
{
    if s.len() > 0 {
        assert forall|i: int| 0 <= i < s.drop_last().len() implies !is_white_space(
            #[trigger] s.drop_last()[i],
        ) by {
            assert(s.drop_last()[i] == s[i]);
        }
        lemma_one_word(s.drop_last());
        assert(s.drop_last().push(s.last()) =~= s);
    } else {
        assert(s =~= Seq::<char>::empty());
    }
}

/// White space separates words and is part of none: what stands before it and what stands
/// behind it are read apart. Text without white space is one word, and nothing is none.
pub proof fn white_space_separates_words(a: Seq<char>, c: char, b: Seq<char>)
    requires
        is_white_space(c),
    ensures
        words_of(a.push(c) + b) == words_of(a) + words_of(b),
        (forall|i: int| 0 <= i < a.len() ==> !is_white_space(#[trigger] a[i])) && a.len() > 0
            ==> words_of(a) == seq![a],
        words_of(Seq::empty()) == Seq::<Seq<char>>::empty(),
{
    let head = a.push(c);
    assert(head.drop_last() =~= a);
    lemma_words_prefix(head, b);
    assert(words_read(head).0 =~= words_of(a));
    let (done, word) = words_read(b);
    assert(words_of(a) + done.push(word) =~= (words_of(a) + done).push(word));
    if (forall|i: int| 0 <= i < a.len() ==> !is_white_space(#[trigger] a[i])) && a.len() > 0 {
        lemma_one_word(a);
        assert(words_of(a) =~= seq![a]);
    }
}

/// Whether a command replays logs is told by its first words: what comes behind them does not
/// matter, and neither do case and quotation marks. Nothing replays nothing.
pub proof fn log_commands_are_told_by_their_first_words(w: Seq<Seq<char>>, more: Seq<Seq<char>>)
    ensures
        replays_logs(w) ==> replays_logs(w + more),
        w.len() >= 3 ==> replays_logs(w) == replays_logs(w.take(3)),
        replays_logs(w) ==> w.len() > 0,
        replays_logs(w) && w[0] != "journalctl"@ ==> w.len() >= 2 && (w[1] == "logs"@ || w[1]
            == "compose"@),
        replays_logs(w) && w.len() >= 2 && w[1] == "compose"@ && w[0] != "journalctl"@ ==> w[0]
            == "docker"@ && w.len() >= 3 && w[2] == "logs"@,
        w.len() >= 2 && w[1] == "logs"@ ==> (replays_logs(w) <==> w[0] == "docker"@ || w[0]
            == "podman"@ || w[0] == "kubectl"@ || w[0] == "journalctl"@),
        w.len() >= 1 && w[0] == "journalctl"@ ==> replays_logs(w),
        w.len() >= 3 && w[0] == "docker"@ && w[1] == "compose"@ && w[2] == "logs"@
            ==> replays_logs(w),
{
    reveal_strlit("logs");
    reveal_strlit("compose");
    reveal_strlit("journalctl");
    reveal_strlit("docker");
    assert("logs"@.len() != "compose"@.len());
    assert("docker"@.len() != "journalctl"@.len());
    if w.len() > 0 {
        assert((w + more)[0] == w[0]);
    }
    if w.len() > 1 {
        assert((w + more)[1] == w[1]);
    }
    if w.len() > 2 {
        assert((w + more)[2] == w[2]);
    }
}

/// The first equals sign of a line parts its key from its value.
pub proof fn line_is_parted_at_the_first_equals_sign(
    before: Seq<char>,
    after: Seq<char>,
    key: Seq<char>,
)
    requires
        !before.contains('='),
    ensures
        line_value(before.push('=') + after, key) == (if lowered(trimmed(before)) == lowered(key) {
            Some(trimmed(after))
        } else {
            None
        }),
        line_value(before, key) is None,
{
    let line = before.push('=') + after;
    let i = before.len() as int;
    assert forall|j: int| 0 <= j < i implies line[j] != '=' by {
        assert(before[j] != '=');
    }
    lemma_find_char(line, '=', i);
    assert(line.take(i) =~= before);
    assert(line.skip(i + 1) =~= after);
    lemma_find_char(before, '=', i);
}

/// The first line with the key tells its value: a line in front of a text counts where it
/// has the key, and else the rest of the text does.
pub proof fn first_line_with_the_key_counts(line: Seq<char>, rest: Seq<char>, key: Seq<char>)
    requires
        !line.contains('\n'),
    ensures
        settings_value(line.push('\n') + rest, key) == (if line_value(line, key) is Some {
            line_value(line, key)
        } else {
            settings_value(rest, key)
        }),
        settings_value(line, key) == line_value(line, key),
{
    let data = line.push('\n') + rest;
    let i = line.len() as int;
    assert forall|j: int| 0 <= j < i implies data[j] != '\n' by {
        assert(line[j] != '\n');
    }
    lemma_find_char(data, '\n', i);
    assert(data.take(i) =~= line);
    assert(data.skip(i + 1) =~= rest);
    lemma_find_char(line, '\n', i);
}

/// A switch is on without a settings file, without its key there, and with any value but the
/// four that say no; case and white space around the value do not matter.
pub proof fn switches_are_on_unless_told(d: Seq<char>, key: Seq<char>, v: Seq<char>, w: Seq<char>)
    ensures
        switch_on(None, key),
        settings_value(d, key) is None ==> switch_on(Some(d), key),
        settings_value(d, key) == Some(v) ==> switch_on(Some(d), key) == !is_off(v),
        lowered(trimmed(v)) == lowered(trimmed(w)) ==> is_off(v) == is_off(w),
        is_off(v) ==> lowered(trimmed(v)).len() <= 5 && lowered(trimmed(v)).len() > 0,
        lowered(trimmed(v)) == "0"@ || lowered(trimmed(v)) == "false"@ || lowered(trimmed(v))
            == "no"@ || lowered(trimmed(v)) == "off"@ <==> is_off(v),
{
    reveal_strlit("0");
    reveal_strlit("false");
    reveal_strlit("no");
    reveal_strlit("off");
}

/// A line replays what others wrote exactly where its first words say so, whatever their
/// case and the quotation marks around them.
pub proof fn words_of_a_command_are_plain(line: Seq<char>, i: int)
    requires
        0 <= i < words_of(line).len(),
    ensures
        command_words(line).len() == words_of(line).len(),
        command_words(line)[i] == lowered(unquoted(words_of(line)[i])),
        command_words(line)[i].len() == unquoted(words_of(line)[i]).len(),
{
    lower_case_changes_capitals_only(unquoted(words_of(line)[i]));
}

/// A picture has the path that is written for it, without white space and double quotation
/// marks at its ends; nothing but those is no path.
pub proof fn written_path_is_the_path(p: Seq<char>)
    ensures
        image_path(None) is None,
        image_path(Some(p)) is Some <==> without_double_quotes(trimmed(p)).len() > 0,
        image_path(Some(p)) matches Some(q) ==> q == without_double_quotes(trimmed(p)) && q.len()
            > 0 && q[0] != '"' && q.last() != '"',
{
    path_loses_double_quotes_at_its_ends(trimmed(p));
}

/// Texts that differ in the case of letters alone are taken for the same, and no others.
pub proof fn case_does_not_tell_texts_apart(a: &str, b: &str, r: bool)
    requires
        call_ensures(eq_ignore_ascii_case, (a, b), r),
    ensures
        a@ == b@ ==> r,
        r ==> a@.len() == b@.len() && forall|i: int|
            0 <= i < a@.len() ==> (#[trigger] a@[i] == b@[i] || a@[i] as int - b@[i] as int == 32
                || b@[i] as int - a@[i] as int == 32),
{
    lower_case_changes_capitals_only(a@);
    lower_case_changes_capitals_only(b@);
    if r {
        assert forall|i: int| 0 <= i < a@.len() implies (#[trigger] a@[i] == b@[i] || a@[i] as int
            - b@[i] as int == 32 || b@[i] as int - a@[i] as int == 32) by {
            assert(lowered(a@)[i] == lowered(b@)[i]);
        }
    }
}

/// The session is restored and the tray shown unless the settings say no, each under its own
/// key.
pub proof fn restored_session_and_tray_have_their_keys(
    data: &str,
    restore: bool,
    tray: bool,
    bare_restore: bool,
    bare_tray: bool,
)
    requires
        call_ensures(restore_session_enabled, (Some(data),), restore),
        call_ensures(tray_enabled, (Some(data),), tray),
        call_ensures(restore_session_enabled, (None,), bare_restore),
        call_ensures(tray_enabled, (None,), bare_tray),
    ensures
        bare_restore && bare_tray,
        settings_value(data@, "restore_session"@) is None ==> restore,
        settings_value(data@, "restore_session"@) matches Some(v) ==> restore == !is_off(v),
        settings_value(data@, "tray"@) is None ==> tray,
        settings_value(data@, "tray"@) matches Some(v) ==> tray == !is_off(v),
{
}

/// A command replays what others wrote where its first words, in lower case and without
/// quotation marks, are those of a log; what comes behind them does not matter.
pub proof fn log_commands_are_recognized(line: &str, r: bool)
    requires
        call_ensures(replays_untrusted_terminal_output, (line,), r),
    ensures
        ({
            let w = command_words(line@);
            &&& w.len() == 0 ==> !r
            &&& w.len() >= 1 && w[0] == "journalctl"@ ==> r
            &&& w.len() >= 2 && w[1] == "logs"@ ==> (r <==> w[0] == "docker"@ || w[0] == "podman"@
                || w[0] == "kubectl"@ || w[0] == "journalctl"@)
            &&& w.len() >= 3 && w[0] == "docker"@ && w[1] == "compose"@ && w[2] == "logs"@ ==> r
            &&& w.len() == 1 && w[0] != "journalctl"@ ==> !r
        }),
{
    log_commands_are_told_by_their_first_words(command_words(line@), Seq::empty());
}

/// What is trimmed has no white space at its ends, and no quotation marks where those are
/// taken.
pub proof fn trimmed_texts_have_clean_ends(s: &str, a: String, b: String, c: String)
    requires
        call_ensures(trim, (s,), a),
        call_ensures(trim_quotes, (s,), b),
        call_ensures(trim_double_quotes, (s,), c),
    ensures
        a@.len() > 0 ==> !is_white_space(a@[0]) && !is_white_space(a@.last()),
        exists|x: Seq<char>, y: Seq<char>|
            s@ == x + a@ + y && #[trigger] all_white(x) && #[trigger] all_white(y),
        b@.len() > 0 ==> b@[0] != '"' && b@[0] != '\'' && b@.last() != '"' && b@.last() != '\'',
        exists|x: Seq<char>, y: Seq<char>|
            s@ == x + b@ + y && #[trigger] all_quotes(x) && #[trigger] all_quotes(y),
        exists|k: int| quoted_at(s@, c@, k),
        c@.len() > 0 ==> c@[0] != '"' && c@.last() != '"',
{
    trimming_takes_white_ends(s@);
    unquoting_takes_quotes_at_the_ends(s@);
    path_loses_double_quotes_at_its_ends(s@);
}

/// A picture is there exactly where its path is.
pub proof fn picture_is_there_with_its_path(path: Option<&str>, r: Option<String>, there: bool)
    requires
        call_ensures(background_image_path, (path,), r),
        call_ensures(has_background_image, (path,), there),
    ensures
        there <==> r is Some,
        path is None ==> !there,
        r matches Some(p) ==> p@.len() > 0 && p@[0] != '"',
{
    if path is Some {
        written_path_is_the_path((path->0)@);
    }
}

} // verus!
