//! Configuration values: programs, profiles, hints, bindings and what a terminal is
//! started with.
use crate::text::{
    char_width, char_width_of, chars_of, concat3, lowercase, lowercase_of, same_text, texts,
};
use vstd::prelude::*;

verus! {

/// Regex used for the default URL hint.
pub const URL_REGEX: &'static str = "(ipfs:|ipns:|magnet:|mailto:|gemini://|gopher://|https://|http://|news:|file:|git://|ssh:|ftp://)[^\u{0000}-\u{001F}\u{007F}-\u{009F}<>\"\\s{-}\\^⟨⟩`\\\\]+";

/// Regex used for the default hint on local paths: absolute, home, relative and drive
/// paths.
pub const PATH_REGEX: &'static str = r#"(?:(?:/(?:[^\u{0000}-\u{001F}\u{007F}-\u{009F}<>"'\s(){}\[\]/]+/)+|~/(?:[^\u{0000}-\u{001F}\u{007F}-\u{009F}<>"'\s(){}\[\]/]+/)*|(?:\./|\.\./)(?:[^\u{0000}-\u{001F}\u{007F}-\u{009F}<>"'\s(){}\[\]/]+/)*)[^\u{0000}-\u{001F}\u{007F}-\u{009F}<>"'\s(){}\[\]/:]+(?::\d+(?::\d+)?)?|[a-zA-Z]:[\\/][^\u{0000}-\u{001F}\u{007F}-\u{009F}<>"'\s(){}\[\]]+)"#;

/// A change of a point in the plane.
#[derive(Clone, Copy, Debug, Default, PartialEq, Eq)]
pub struct Delta<T: Default> {
    /// Horizontal change.
    pub x: T,
    /// Vertical change.
    pub y: T,
}

/// A program, with arguments or without.
#[derive(Debug)]
pub enum Program {
    Just(String),
    WithArgs { program: String, args: Vec<String> },
}

/// A program and the arguments that a terminal starts it with.
#[derive(Debug)]
pub struct Shell {
    pub program: String,
    pub args: Vec<String>,
}

/// A copy of a list of texts.
pub fn clone_texts(v: &Vec<String>) -> (r: Vec<String>)
    ensures
        r@ == v@,
{
    let mut r: Vec<String> = Vec::new();
    let mut i: usize = 0;
    while i < v.len()
        invariant
            i <= v@.len(),
            r@ == v@.take(i as int),
        decreases v@.len() - i,
    {
        r.push(v[i].clone());
        proof {
            assert(r@ =~= v@.take(i + 1));
        }
        i += 1;
    }
    proof {
        assert(v@.take(i as int) =~= v@);
    }
    r
}

impl Program {
    pub open spec fn name(self) -> String {
        match self {
            Program::Just(program) => program,
            Program::WithArgs { program, .. } => program,
        }
    }

    pub open spec fn arguments(self) -> Seq<String> {
        match self {
            Program::Just(_) => Seq::empty(),
            Program::WithArgs { args, .. } => args@,
        }
    }

    pub fn program(&self) -> (s: &str)
        ensures
            s@ == self.name()@,
    {
        match self {
            Program::Just(program) => program.as_str(),
            Program::WithArgs { program, .. } => program.as_str(),
        }
    }

    pub fn args(&self) -> (a: Vec<String>)
        ensures
            a@ == self.arguments(),
    {
        match self {
            Program::Just(_) => Vec::new(),
            Program::WithArgs { args, .. } => clone_texts(args),
        }
    }

    /// The program as a terminal starts it.
    pub fn to_shell(&self) -> (s: Shell)
        ensures
            s.program == self.name(),
            s.args@ == self.arguments(),
    {
        let program: String = match self {
            Program::Just(program) => program.clone(),
            Program::WithArgs { program, .. } => program.clone(),
        };
        Shell { program, args: self.args() }
    }
}

/// A named command that opens as a tab.
#[derive(Debug)]
pub struct Profile {
    pub name: String,
    pub command: String,
    pub args: Vec<String>,
    pub cwd: Option<String>,
    pub shell_id: Option<String>,
    pub terminal_profile_id: Option<String>,
}

/// The prompt integration that a shell gets.
#[derive(Clone, Copy, Debug, PartialEq, Eq, Structural)]
pub enum ShellIntegration {
    PowerShell,
    Bash,
    Plain,
}

impl Profile {
    /// The settings key of an imported profile.
    pub open spec fn settings_key(self) -> Option<Seq<char>> {
        match (self.shell_id, self.terminal_profile_id) {
            (Some(shell), Some(id)) => Some("profile:"@ + shell@ + "|"@ + id@),
            _ => None,
        }
    }

    /// The settings key of an imported profile: its shell family and its id. Profiles
    /// from the configuration have none.
    pub fn settings_id(&self) -> (r: Option<String>)
        ensures
            r is Some <==> self.settings_key() is Some,
            r matches Some(s) ==> self.settings_key() == Some(s@),
    {
        match (&self.shell_id, &self.terminal_profile_id) {
            (Some(shell), Some(id)) => {
                let mut s = concat3("profile:", shell.as_str(), "|");
                s.append(id.as_str());
                Some(s)
            },
            _ => None,
        }
    }

    /// The integration for the profile's shell family, where the platform offers it.
    pub fn integration(&self, offered: bool) -> (i: ShellIntegration)
        ensures
            i == (match self.shell_id {
                Some(id) if offered && (id@ == "pwsh"@ || id@ == "powershell"@) =>
                    ShellIntegration::PowerShell,
                Some(id) if offered && (id@ == "bash"@ || id@ == "git-bash"@) =>
                    ShellIntegration::Bash,
                _ => ShellIntegration::Plain,
            }),
    {
        proof {
            reveal_strlit("pwsh");
            reveal_strlit("powershell");
            reveal_strlit("bash");
            reveal_strlit("git-bash");
        }
        match &self.shell_id {
            Some(id) => {
                if !offered {
                    ShellIntegration::Plain
                } else if same_text(id.as_str(), "pwsh") || same_text(id.as_str(), "powershell") {
                    ShellIntegration::PowerShell
                } else if same_text(id.as_str(), "bash") || same_text(id.as_str(), "git-bash") {
                    ShellIntegration::Bash
                } else {
                    ShellIntegration::Plain
                }
            },
            None => ShellIntegration::Plain,
        }
    }

    /// The command of the profile as a terminal starts it.
    pub fn shell(&self) -> (s: Shell)
        ensures
            s.program == self.command,
            s.args@ == self.args@,
    {
        Shell { program: self.command.clone(), args: clone_texts(&self.args) }
    }
}

/// Two imported profiles have the same settings key only where shell family and id are
/// the same, as long as the families hold no separator.
pub proof fn settings_key_is_unique(a: Profile, b: Profile)
    requires
        a.settings_key() is Some,
        a.settings_key() == b.settings_key(),
        !a.shell_id->0@.contains('|'),
        !b.shell_id->0@.contains('|'),
    ensures
        a.shell_id->0@ == b.shell_id->0@,
        a.terminal_profile_id->0@ == b.terminal_profile_id->0@,
{
    reveal_strlit("profile:");
    reveal_strlit("|");
    let x = a.shell_id->0@;
    let y = b.shell_id->0@;
    let p = a.terminal_profile_id->0@;
    let q = b.terminal_profile_id->0@;
    let n = "profile:"@.len() as int;
    let s = "profile:"@ + x + "|"@ + p;
    let t = "profile:"@ + y + "|"@ + q;
    assert(s == t);
    assert(s[n + x.len()] == '|');
    assert(t[n + y.len()] == '|');
    if x.len() < y.len() {
        assert(t[n + x.len()] == y[x.len() as int]);
        assert(y.contains('|'));
    } else if y.len() < x.len() {
        assert(s[n + y.len()] == x[y.len() as int]);
        assert(x.contains('|'));
    }
    assert(x =~= s.subrange(n, n + x.len()));
    assert(y =~= t.subrange(n, n + y.len()));
    assert(p =~= s.subrange(n + x.len() + 1, s.len() as int));
    assert(q =~= t.subrange(n + y.len() + 1, t.len() as int));
}

/// Modifier keys as bits.
#[derive(Clone, Copy, Debug, PartialEq, Eq, Structural)]
pub struct ModsWrapper {
    pub bits: u32,
}

/// Shift and control together.
pub const SHIFT_CONTROL: u32 = 0b100_100;

/// A key: the character that it types, or the code of a key that types none.
#[derive(Debug)]
pub enum Key {
    Character(String),
    Named(u32),
}

/// The part of the keyboard that a key lies in; parts besides the main one are codes.
#[derive(Clone, Copy, Debug, PartialEq, Eq, Structural)]
pub enum KeyLocation {
    Standard,
    Other(u8),
}

/// A key of the keyboard.
#[derive(Debug)]
pub enum BindingKey {
    Keycode { key: Key, location: KeyLocation },
}

/// Terminal modes that a binding needs and those that forbid it, as bits.
#[derive(Clone, Copy, Debug, PartialEq, Eq, Structural)]
pub struct ModeWrapper {
    pub mode: u32,
    pub not_mode: u32,
}

/// Built-in actions of hint mode.
#[derive(Clone, Copy, Debug, PartialEq, Eq, Structural)]
pub enum HintInternalAction {
    /// Copy the text to the clipboard.
    Copy,
    /// Write the text to the terminal or the search.
    Paste,
    /// Select the text of the hint.
    Select,
    /// Move the vi mode cursor to the start of the hint.
    MoveViModeCursor,
}

/// What a hint does.
#[derive(Debug)]
pub enum HintAction {
    /// A built-in action.
    Action(HintInternalAction),
    /// A command that gets the text.
    Command(Program),
}

/// What a hint looks for.
#[derive(Debug)]
pub struct HintContent {
    pub regex: Option<String>,
    pub hyperlinks: bool,
}

/// The keys that start the search for a hint. `cache` holds the key binding that was made
/// of them.
#[derive(Debug)]
pub struct HintBinding {
    pub key: BindingKey,
    pub mods: ModsWrapper,
    pub mode: ModeWrapper,
    pub cache: Option<KeyBinding>,
}

/// Whether the mouse highlights a hint, and with which modifiers.
#[derive(Clone, Copy, Debug, PartialEq, Eq, Structural)]
pub struct HintMouse {
    pub enabled: bool,
    pub mods: ModsWrapper,
}

/// One hint.
#[derive(Debug)]
pub struct Hint {
    pub content: HintContent,
    pub action: HintAction,
    pub post_processing: bool,
    pub persist: bool,
    pub mouse: Option<HintMouse>,
    pub binding: Option<HintBinding>,
}

/// The characters that label hints.
#[derive(Debug)]
pub struct HintsAlphabet {
    pub characters: String,
}

/// Why an alphabet is refused.
#[derive(Clone, Copy, Debug, PartialEq, Eq, Structural)]
pub enum AlphabetError {
    /// A character takes no column or more than one.
    Width,
    /// There are fewer than two characters.
    TooShort,
}

impl AlphabetError {
    pub fn message(&self) -> (s: &'static str)
        ensures
            s@ == (match self {
                AlphabetError::Width => "characters must be of width 1"@,
                AlphabetError::TooShort => "must include at last 2 characters"@,
            }),
    {
        match self {
            AlphabetError::Width => "characters must be of width 1",
            AlphabetError::TooShort => "must include at last 2 characters",
        }
    }
}

/// Every character takes exactly one column.
pub open spec fn all_narrow(s: Seq<char>) -> bool {
    forall|i: int| 0 <= i < s.len() ==> char_width(#[trigger] s[i]) == Some(1usize)
}

impl HintsAlphabet {
    /// Takes over an alphabet: at least two characters of one column each. A bad width
    /// is reported before a bad length.
    pub fn parse(value: String) -> (r: Result<HintsAlphabet, AlphabetError>)
        ensures
            match r {
                Ok(a) => all_narrow(value@) && value@.len() >= 2 && a.characters == value,
                Err(AlphabetError::Width) => !all_narrow(value@),
                Err(AlphabetError::TooShort) => all_narrow(value@) && value@.len() < 2,
            },
    {
        let chars = chars_of(value.as_str());
        let mut i: usize = 0;
        while i < chars.len()
            invariant
                i <= chars@.len(),
                chars@ == value@,
                forall|j: int| 0 <= j < i ==> char_width(#[trigger] value@[j]) == Some(1usize),
            decreases chars@.len() - i,
        {
            let narrow: bool = match char_width_of(chars[i]) {
                Some(w) => w == 1,
                None => false,
            };
            if !narrow {
                proof {
                    assert(char_width(value@[i as int]) != Some(1usize));
                }
                return Err(AlphabetError::Width);
            }
            i += 1;
        }
        if chars.len() < 2 {
            return Err(AlphabetError::TooShort);
        }
        Ok(HintsAlphabet { characters: value })
    }
}

impl Default for HintsAlphabet {
    fn default() -> (a: Self)
        ensures
            a.characters@ == "jfkdls;ahgurieowpq"@,
    {
        HintsAlphabet { characters: "jfkdls;ahgurieowpq".to_owned() }
    }
}

/// All hints and the alphabet that labels them.
#[derive(Debug)]
pub struct Hints {
    pub alphabet: HintsAlphabet,
    pub enabled: Vec<Hint>,
}

/// The program that opens a link on this platform.
#[derive(Clone, Copy, Debug, PartialEq, Eq, Structural)]
pub enum Platform {
    Unix,
    MacOs,
    Windows,
}

/// `a` opens a link on the platform.
pub open spec fn opens_links(a: HintAction, platform: Platform) -> bool {
    match (a, platform) {
        (HintAction::Command(p), Platform::Unix) => p is Just && p.name()@ == "xdg-open"@,
        (HintAction::Command(p), Platform::MacOs) => p is Just && p.name()@ == "open"@,
        (HintAction::Command(p), Platform::Windows) => p is WithArgs && p.name()@ == "cmd"@ && texts(
            p.arguments(),
        ) == seq!["/c"@, "start"@, ""@],
        _ => false,
    }
}

fn link_action(platform: Platform) -> (a: HintAction)
    ensures
        opens_links(a, platform),
{
    match platform {
        Platform::Unix => HintAction::Command(Program::Just("xdg-open".to_owned())),
        Platform::MacOs => HintAction::Command(Program::Just("open".to_owned())),
        Platform::Windows => {
            let mut args: Vec<String> = Vec::new();
            args.push("/c".to_owned());
            args.push("start".to_owned());
            args.push("".to_owned());
            proof {
                assert(texts(args@) =~= seq!["/c"@, "start"@, ""@]);
            }
            HintAction::Command(Program::WithArgs { program: "cmd".to_owned(), args })
        },
    }
}

impl Hints {
    /// The hints without a configuration: links, which can also be started from the
    /// keyboard, and local paths.
    pub fn default_for(platform: Platform) -> (h: Hints)
        ensures
            h.alphabet.characters@ == "jfkdls;ahgurieowpq"@,
            h.enabled@.len() == 2,
            ({
                let url = h.enabled@[0];
                let path = h.enabled@[1];
                &&& url.content.regex matches Some(r) && r@ == URL_REGEX@
                &&& url.content.hyperlinks
                &&& url.post_processing && !url.persist
                &&& url.mouse == Some(HintMouse { enabled: true, mods: ModsWrapper { bits: 0 } })
                &&& url.binding matches Some(b) && b.mods.bits == SHIFT_CONTROL && b.mode == (
                ModeWrapper { mode: 0, not_mode: 0 }) && b.cache is None && (b.key
                    matches BindingKey::Keycode { key: Key::Character(k), location } && k@ == "o"@
                    && location == KeyLocation::Standard)
                &&& opens_links(url.action, platform)
                &&& path.content.regex matches Some(r) && r@ == PATH_REGEX@
                &&& !path.content.hyperlinks
                &&& !path.post_processing && !path.persist
                &&& path.mouse == Some(HintMouse { enabled: true, mods: ModsWrapper { bits: 0 } })
                &&& path.binding is None
                &&& opens_links(path.action, platform)
            }),
    {
        let url = Hint {
            content: HintContent { regex: Some(URL_REGEX.to_owned()), hyperlinks: true },
            action: link_action(platform),
            persist: false,
            post_processing: true,
            mouse: Some(HintMouse { enabled: true, mods: ModsWrapper { bits: 0 } }),
            binding: Some(
                HintBinding {
                    key: BindingKey::Keycode {
                        key: Key::Character("o".to_owned()),
                        location: KeyLocation::Standard,
                    },
                    cache: None,
                    mods: ModsWrapper { bits: SHIFT_CONTROL },
                    mode: ModeWrapper { mode: 0, not_mode: 0 },
                },
            ),
        };
        let path = Hint {
            content: HintContent { regex: Some(PATH_REGEX.to_owned()), hyperlinks: false },
            action: link_action(platform),
            persist: false,
            post_processing: false,
            mouse: Some(HintMouse { enabled: true, mods: ModsWrapper { bits: 0 } }),
            binding: None,
        };
        let mut enabled: Vec<Hint> = Vec::new();
        enabled.push(url);
        enabled.push(path);
        Hints { alphabet: HintsAlphabet::default(), enabled }
    }

    /// The characters that label hints.
    pub fn alphabet(&self) -> (s: &str)
        ensures
            s@ == self.alphabet.characters@,
    {
        self.alphabet.characters.as_str()
    }
}

/// One entry of a hint's table: its key, and its value as a pattern and as a flag, `None`
/// where it is neither. A pattern may be left out explicitly.
#[derive(Debug)]
pub struct HintEntry {
    pub key: String,
    pub pattern: Option<Option<String>>,
    pub flag: Option<bool>,
}

/// The pattern that the first `k` entries set: the last readable one counts.
pub open spec fn pattern_set(entries: Seq<HintEntry>, k: int) -> Option<Seq<char>>
    decreases k,
{
    if k <= 0 {
        None
    } else {
        let e = entries[k - 1];
        match e.pattern {
            Some(Some(p)) if e.key@ == "regex"@ => Some(p@),
            Some(None) if e.key@ == "regex"@ => None,
            _ => pattern_set(entries, k - 1),
        }
    }
}

/// The flag that the first `k` entries set.
pub open spec fn hyperlinks_set(entries: Seq<HintEntry>, k: int) -> bool
    decreases k,
{
    if k <= 0 {
        false
    } else {
        let e = entries[k - 1];
        match e.flag {
            Some(b) if e.key@ == "hyperlinks"@ => b,
            _ => hyperlinks_set(entries, k - 1),
        }
    }
}

impl HintContent {
    pub fn new(regex: Option<String>, hyperlinks: bool) -> (c: HintContent)
        ensures
            c == (HintContent { regex, hyperlinks }),
    {
        HintContent { regex, hyperlinks }
    }

    /// Reads what a hint looks for from the entries of its table. Unreadable values are
    /// skipped; a hint that looks for nothing is refused.
    pub fn from_entries(entries: &Vec<HintEntry>) -> (r: Result<HintContent, &'static str>)
        ensures
            ({
                let n = entries@.len() as int;
                let pattern = pattern_set(entries@, n);
                let links = hyperlinks_set(entries@, n);
                match r {
                    Ok(c) => {
                        &&& pattern is Some || links
                        &&& c.hyperlinks == links
                        &&& c.regex is Some <==> pattern is Some
                        &&& c.regex matches Some(p) ==> pattern == Some(p@)
                    },
                    Err(m) => pattern is None && !links && m@
                        == "Config error: At least one of the hint's regex or hint's hyperlinks must be set"@,
                }
            }),
    {
        let mut regex: Option<String> = None;
        let mut hyperlinks: bool = false;
        let mut i: usize = 0;
        while i < entries.len()
            invariant
                i <= entries@.len(),
                hyperlinks == hyperlinks_set(entries@, i as int),
                regex is Some <==> pattern_set(entries@, i as int) is Some,
                regex matches Some(p) ==> pattern_set(entries@, i as int) == Some(p@),
            decreases entries@.len() - i,
        {
            let e = &entries[i];
            proof {
                reveal_strlit("regex");
                reveal_strlit("hyperlinks");
                assert("regex"@.len() != "hyperlinks"@.len());
            }
            if same_text(e.key.as_str(), "regex") {
                match &e.pattern {
                    Some(Some(p)) => {
                        regex = Some(p.clone());
                    },
                    Some(None) => {
                        regex = None;
                    },
                    None => {},
                }
            } else if same_text(e.key.as_str(), "hyperlinks") {
                if let Some(b) = e.flag {
                    hyperlinks = b;
                }
            }
            i += 1;
        }
        if regex.is_none() && !hyperlinks {
            return Err(
                "Config error: At least one of the hint's regex or hint's hyperlinks must be set",
            );
        }
        Ok(HintContent { regex, hyperlinks })
    }
}

/// The key binding that starts the hint of an index.
#[derive(Debug)]
pub struct KeyBinding {
    pub trigger: BindingKey,
    pub mods: u32,
    pub mode: u32,
    pub notmode: u32,
    pub hint: usize,
}

impl BindingKey {
    fn copy(&self) -> (k: BindingKey)
        ensures
            k == *self,
    {
        match self {
            BindingKey::Keycode { key: Key::Character(c), location } => BindingKey::Keycode {
                key: Key::Character(c.clone()),
                location: *location,
            },
            BindingKey::Keycode { key: Key::Named(n), location } => BindingKey::Keycode {
                key: Key::Named(*n),
                location: *location,
            },
        }
    }
}

impl KeyBinding {
    fn copy(&self) -> (b: KeyBinding)
        ensures
            b == *self,
    {
        KeyBinding {
            trigger: self.trigger.copy(),
            mods: self.mods,
            mode: self.mode,
            notmode: self.notmode,
            hint: self.hint,
        }
    }
}

impl HintBinding {
    /// The key binding that these keys make for the hint of an index.
    pub open spec fn bound_to(self, hint: usize) -> KeyBinding {
        KeyBinding {
            trigger: self.key,
            mods: self.mods.bits,
            mode: self.mode.mode,
            notmode: self.mode.not_mode,
            hint,
        }
    }

    /// The key binding that a call for the hint of an index gives.
    pub open spec fn given(self, hint: usize) -> KeyBinding {
        match self.cache {
            Some(b) => b,
            None => self.bound_to(hint),
        }
    }

    /// The key binding for the hint of this index. The first call makes it; later ones
    /// give the same binding, whatever hint they name.
    pub fn key_binding(&mut self, hint: usize) -> (b: KeyBinding)
        ensures
            b == old(self).given(hint),
            *final(self) == (HintBinding { cache: Some(b), ..*old(self) }),
    {
        if let Some(b) = &self.cache {
            return b.copy();
        }
        let b = KeyBinding {
            trigger: self.key.copy(),
            mods: self.mods.bits,
            mode: self.mode.mode,
            notmode: self.mode.not_mode,
            hint,
        };
        self.cache = Some(b.copy());
        b
    }
}

/// Keys that were never asked before make one binding: that for the hint of the first
/// call, whatever hint a later call names.
pub proof fn first_binding_is_kept(keys: HintBinding, later: HintBinding, a: usize, b: usize)
    requires
        keys.cache is None,
        later == (HintBinding { cache: Some(keys.given(a)), ..keys }),
    ensures
        keys.given(a) == keys.bound_to(a),
        later.given(b) == keys.bound_to(a),
        later == (HintBinding { cache: Some(later.given(b)), ..later }),
{
}

/// A pattern that is compiled when it is first needed.
#[derive(Debug)]
pub enum LazyRegexVariant<R> {
    Compiled(String, Box<R>),
    Pattern(String),
    Uncompilable(String),
}

impl<R> LazyRegexVariant<R> {
    /// The text of the pattern, whatever became of it.
    pub open spec fn pattern_text(self) -> Seq<char> {
        match self {
            LazyRegexVariant::Compiled(p, _) => p@,
            LazyRegexVariant::Pattern(p) => p@,
            LazyRegexVariant::Uncompilable(p) => p@,
        }
    }

    pub fn pattern(&self) -> (s: &str)
        ensures
            s@ == self.pattern_text(),
    {
        match self {
            LazyRegexVariant::Compiled(p, _) => p.as_str(),
            LazyRegexVariant::Pattern(p) => p.as_str(),
            LazyRegexVariant::Uncompilable(p) => p.as_str(),
        }
    }

    /// Compiles a pattern that was not tried yet. A pattern is tried once; the result is
    /// kept, and so is the text. The answer tells whether there is a compiled form.
    pub fn compiled<F: FnOnce(&String) -> Option<R>>(&mut self, compile: F) -> (r: bool)
        requires
            *old(self) matches LazyRegexVariant::Pattern(p) ==> call_requires(compile, (&p,)),
        ensures
            r == (*final(self) is Compiled),
            !(*final(self) is Pattern),
            final(self).pattern_text() == old(self).pattern_text(),
            !(*old(self) is Pattern) ==> *final(self) == *old(self),
            *old(self) matches LazyRegexVariant::Pattern(p) ==> match *final(self) {
                LazyRegexVariant::Compiled(q, x) => q == p && call_ensures(
                    compile,
                    (&p,),
                    Some(*x),
                ),
                LazyRegexVariant::Uncompilable(q) => q == p && call_ensures(compile, (&p,), None),
                LazyRegexVariant::Pattern(_) => false,
            },
    {
        let pattern: String = match self {
            LazyRegexVariant::Compiled(_, _) => {
                return true;
            },
            LazyRegexVariant::Uncompilable(_) => {
                return false;
            },
            LazyRegexVariant::Pattern(p) => p.clone(),
        };
        match compile(&pattern) {
            Some(x) => {
                *self = LazyRegexVariant::Compiled(pattern, Box::new(x));
                true
            },
            None => {
                *self = LazyRegexVariant::Uncompilable(pattern);
                false
            },
        }
    }

    /// Two patterns are the same only while neither was tried.
    pub fn same_pattern(&self, other: &LazyRegexVariant<R>) -> (r: bool)
        ensures
            r == (*self is Pattern && *other is Pattern && self.pattern_text()
                == other.pattern_text()),
    {
        match (self, other) {
            (LazyRegexVariant::Pattern(a), LazyRegexVariant::Pattern(b)) => *a == *b,
            _ => false,
        }
    }
}

/// A pattern of the table: its number. Copies of it share what became of the pattern.
#[derive(Clone, Copy, Debug, PartialEq, Eq, Structural)]
pub struct LazyRegex {
    pub cell: usize,
}

/// The patterns of all hints.
#[derive(Debug)]
pub struct LazyRegexes<R> {
    pub cells: Vec<LazyRegexVariant<R>>,
}

impl<R> LazyRegexes<R> {
    /// Whether the table holds the pattern.
    pub open spec fn holds(self, regex: LazyRegex) -> bool {
        regex.cell < self.cells@.len()
    }

    /// What became of a pattern.
    pub open spec fn variant(self, regex: LazyRegex) -> LazyRegexVariant<R> {
        self.cells@[regex.cell as int]
    }

    /// Whether two patterns are equal: they share one place, or neither was tried and
    /// their texts are the same.
    pub open spec fn equal(self, a: LazyRegex, b: LazyRegex) -> bool {
        a.cell == b.cell || (self.variant(a) is Pattern && self.variant(b) is Pattern
            && self.variant(a).pattern_text() == self.variant(b).pattern_text())
    }

    pub fn new() -> (t: LazyRegexes<R>)
        ensures
            t.cells@.len() == 0,
    {
        LazyRegexes { cells: Vec::new() }
    }

    /// Takes up a pattern, which is not tried yet.
    pub fn add_pattern(&mut self, pattern: String) -> (regex: LazyRegex)
        ensures
            regex.cell == old(self).cells@.len(),
            final(self).cells@ == old(self).cells@.push(LazyRegexVariant::Pattern(pattern)),
    {
        let regex = LazyRegex { cell: self.cells.len() };
        self.cells.push(LazyRegexVariant::Pattern(pattern));
        regex
    }

    /// Compiles a pattern where that was not tried yet, and gives out its compiled form,
    /// which may be changed.
    pub fn with_compiled<F: FnOnce(&String) -> Option<R>>(
        &mut self,
        regex: LazyRegex,
        compile: F,
    ) -> (r: Option<&mut R>)
        requires
            old(self).holds(regex),
            old(self).variant(regex) matches LazyRegexVariant::Pattern(p) ==> call_requires(
                compile,
                (&p,),
            ),
        ensures
            final(self).cells@ == old(self).cells@.update(
                regex.cell as int,
                final(self).variant(regex),
            ),
            final(self).variant(regex).pattern_text() == old(self).variant(regex).pattern_text(),
            match r {
                Some(x) => {
                    &&& final(self).variant(regex) matches LazyRegexVariant::Compiled(_, y)
                    &&& *y == *final(x)
                    &&& match old(self).variant(regex) {
                        LazyRegexVariant::Compiled(_, was) => *x == *was,
                        LazyRegexVariant::Pattern(p) => call_ensures(compile, (&p,), Some(*x)),
                        LazyRegexVariant::Uncompilable(_) => false,
                    }
                },
                None => {
                    &&& final(self).variant(regex) is Uncompilable
                    &&& match old(self).variant(regex) {
                        LazyRegexVariant::Compiled(_, _) => false,
                        LazyRegexVariant::Pattern(p) => call_ensures(compile, (&p,), None),
                        LazyRegexVariant::Uncompilable(_) => true,
                    }
                },
            },
    {
        self.cells[regex.cell].compiled(compile);
        match &mut self.cells[regex.cell] {
            LazyRegexVariant::Compiled(_, x) => Some(&mut **x),
            _ => None,
        }
    }

    /// Whether two patterns are equal.
    pub fn eq(&self, a: LazyRegex, b: LazyRegex) -> (r: bool)
        requires
            self.holds(a),
            self.holds(b),
        ensures
            r == self.equal(a, b),
    {
        a.cell == b.cell || self.cells[a.cell].same_pattern(&self.cells[b.cell])
    }
}

/// A pattern and its copies are equal, whatever became of the pattern. Two patterns that
/// share nothing are equal exactly while neither was tried and their texts are the same.
pub proof fn shared_patterns_are_equal<R>(t: LazyRegexes<R>, a: LazyRegex, b: LazyRegex)
    ensures
        a == b ==> t.equal(a, b),
        a != b ==> (t.equal(a, b) <==> t.variant(a) is Pattern && t.variant(b) is Pattern
            && t.variant(a).pattern_text() == t.variant(b).pattern_text()),
        t.equal(a, b) == t.equal(b, a),
{
}

/// The entries of `items` that `keep` marks, in their order.
pub open spec fn kept_items<B>(items: Seq<B>, keep: Seq<bool>) -> Seq<B>
    decreases items.len(),
{
    if items.len() == 0 || keep.len() == 0 {
        Seq::empty()
    } else if keep.last() {
        kept_items(items.drop_last(), keep.drop_last()).push(items.last())
    } else {
        kept_items(items.drop_last(), keep.drop_last())
    }
}

/// `keep` marks the default bindings that no binding of the user matches.
pub open spec fn unmatched<B, F: Fn(&B, &B) -> bool>(
    matches_trigger: F,
    bindings: Seq<B>,
    default: Seq<B>,
    keep: Seq<bool>,
) -> bool {
    &&& keep.len() == default.len()
    &&& forall|i: int|
        0 <= i < default.len() && #[trigger] keep[i] ==> forall|j: int|
            0 <= j < bindings.len() ==> call_ensures(
                matches_trigger,
                (&default[i], &#[trigger] bindings[j]),
                false,
            )
    &&& forall|i: int|
        0 <= i < default.len() && !#[trigger] keep[i] ==> exists|j: int|
            0 <= j < bindings.len() && call_ensures(
                matches_trigger,
                (&default[i], &#[trigger] bindings[j]),
                true,
            )
}

/// The marks that are set.
pub open spec fn marks_set(keep: Seq<bool>) -> nat {
    keep.filter(|k: bool| k).len()
}

/// What is kept are the marked entries and no other, each once and in their order: an entry
/// stands behind as many others as marks are set before it.
pub proof fn kept_items_are_the_marked_ones<B>(items: Seq<B>, keep: Seq<bool>)
    requires
        items.len() == keep.len(),
    ensures
        kept_items(items, keep).len() == marks_set(keep),
        forall|i: int|
            #![trigger keep[i]]
            0 <= i < items.len() && keep[i] ==> marks_set(keep.take(i)) < marks_set(keep)
                && kept_items(items, keep)[marks_set(keep.take(i)) as int] == items[i],
        forall|b: B| #[trigger]
            kept_items(items, keep).contains(b) ==> exists|i: int|
                0 <= i < items.len() && #[trigger] keep[i] && items[i] == b,
    decreases items.len(),
{
    reveal(Seq::filter);
    if items.len() > 0 {
        let (front, marks) = (items.drop_last(), keep.drop_last());
        let all = kept_items(items, keep);
        let n = items.len() - 1;
        kept_items_are_the_marked_ones(front, marks);
        assert(keep.take(n) =~= marks);
        assert forall|i: int| #![trigger keep[i]] 0 <= i < items.len() && keep[i] implies marks_set(
            keep.take(i),
        ) < marks_set(keep) && all[marks_set(keep.take(i)) as int] == items[i] by {
            if i < n {
                assert(marks[i] && keep.take(i) =~= marks.take(i));
            }
        }
        assert forall|b: B| #[trigger] all.contains(b) implies exists|i: int|
            0 <= i < items.len() && #[trigger] keep[i] && items[i] == b by {
            if kept_items(front, marks).contains(b) {
                let i = choose|i: int|
                    0 <= i < front.len() && #[trigger] marks[i] && front[i] == b;
                assert(keep[i] && items[i] == b);
            } else {
                let k = choose|k: int| 0 <= k < all.len() && all[k] == b;
                if k < kept_items(front, marks).len() {
                    assert(kept_items(front, marks)[k] == b);
                }
                assert(keep[n] && items[n] == b);
            }
        }
    }
}

/// A binding of the user matches a default one.
pub open spec fn overridden<B, F: Fn(&B, &B) -> bool>(
    matches_trigger: F,
    bindings: Seq<B>,
    d: B,
) -> bool {
    exists|j: int|
        0 <= j < bindings.len() && call_ensures(
            matches_trigger,
            (&d, &#[trigger] bindings[j]),
            true,
        )
}

/// The bindings in force are all of the user's, unchanged and first, and behind them all
/// default ones that none of those matches, and no other.
pub proof fn only_matched_defaults_are_lost<B, F: Fn(&B, &B) -> bool>(
    matches_trigger: F,
    bindings: Seq<B>,
    default: Seq<B>,
    keep: Seq<bool>,
)
    requires
        unmatched(matches_trigger, bindings, default, keep),
        forall|a: &B, b: &B|
            !(#[trigger] call_ensures(matches_trigger, (a, b), true) && call_ensures(
                matches_trigger,
                (a, b),
                false,
            )),
    ensures
        ({
            let r = bindings + kept_items(default, keep);
            &&& r.take(bindings.len() as int) == bindings
            &&& forall|i: int|
                #![trigger default[i]]
                0 <= i < default.len() && !overridden(matches_trigger, bindings, default[i])
                    ==> r.skip(bindings.len() as int).contains(default[i])
            &&& forall|b: B| #[trigger]
                r.skip(bindings.len() as int).contains(b) ==> default.contains(b) && !overridden(
                    matches_trigger,
                    bindings,
                    b,
                )
        }),
{
    let kept = kept_items(default, keep);
    let r = bindings + kept;
    kept_items_are_the_marked_ones(default, keep);
    assert(r.take(bindings.len() as int) =~= bindings);
    assert(r.skip(bindings.len() as int) =~= kept);
    assert forall|i: int|
        #![trigger default[i]]
        0 <= i < default.len() && !overridden(matches_trigger, bindings, default[i]) implies r.skip(
        bindings.len() as int,
    ).contains(default[i]) by {
        assert(keep[i]);
        assert(kept[marks_set(keep.take(i)) as int] == default[i]);
    }
    assert forall|b: B| #[trigger] r.skip(bindings.len() as int).contains(b) implies default.contains(
        b,
    ) && !overridden(matches_trigger, bindings, b) by {
        assert(kept.contains(b));
        let i = choose|i: int| 0 <= i < default.len() && #[trigger] keep[i] && default[i] == b;
        if overridden(matches_trigger, bindings, b) {
            let j = choose|j: int|
                0 <= j < bindings.len() && call_ensures(
                    matches_trigger,
                    (&b, &#[trigger] bindings[j]),
                    true,
                );
            assert(call_ensures(matches_trigger, (&default[i], &bindings[j]), false));
        }
    }
}

/// Puts the user's bindings before the default ones and drops every default that one of
/// them matches.
pub fn merge_bindings<B, F: Fn(&B, &B) -> bool>(
    bindings: Vec<B>,
    default: Vec<B>,
    matches_trigger: F,
) -> (r: Vec<B>)
    requires
        forall|a: &B, b: &B| call_requires(matches_trigger, (a, b)),
    ensures
        exists|keep: Seq<bool>| #[trigger]
            unmatched(matches_trigger, bindings@, default@, keep) && r@ == bindings@ + kept_items(
                default@,
                keep,
            ),
{
    let ghost user = bindings@;
    let ghost all = default@;
    let mut rest = default;
    let mut kept: Vec<B> = Vec::new();
    let ghost mut keep: Seq<bool> = Seq::empty();
    let ghost mut n: int = 0;
    proof {
        assert(rest@ =~= all.skip(0));
        assert(kept@ =~= kept_items(all.take(0), keep));
    }
    while rest.len() > 0
        invariant
            forall|a: &B, b: &B| call_requires(matches_trigger, (a, b)),
            bindings@ == user,
            0 <= n <= all.len(),
            keep.len() == n,
            rest@ == all.skip(n),
            kept@ == kept_items(all.take(n), keep),
            unmatched(matches_trigger, user, all.take(n), keep),
        decreases rest@.len(),
    {
        let item = rest.remove(0);
        let mut hit: bool = false;
        let mut j: usize = 0;
        while j < bindings.len() && !hit
            invariant
                forall|a: &B, b: &B| call_requires(matches_trigger, (a, b)),
                j <= bindings@.len(),
                bindings@ == user,
                !hit ==> forall|k: int|
                    0 <= k < j ==> call_ensures(
                        matches_trigger,
                        (&item, &#[trigger] user[k]),
                        false,
                    ),
                hit ==> exists|k: int|
                    0 <= k < j && call_ensures(matches_trigger, (&item, &#[trigger] user[k]), true),
            decreases bindings@.len() - j,
        {
            if matches_trigger(&item, &bindings[j]) {
                hit = true;
            }
            j += 1;
        }
        let ghost before = keep;
        proof {
            keep = keep.push(!hit);
            assert(all.take(n + 1).drop_last() =~= all.take(n));
            assert(keep.drop_last() =~= before);
            assert(rest@ =~= all.skip(n + 1));
            assert(item == all[n]);
            assert forall|i: int| 0 <= i < n + 1 && #[trigger] keep[i] implies forall|k: int|
                0 <= k < user.len() ==> call_ensures(
                    matches_trigger,
                    (&all.take(n + 1)[i], &#[trigger] user[k]),
                    false,
                ) by {
                if i < n {
                    assert(before[i]);
                    assert(all.take(n)[i] == all.take(n + 1)[i]);
                }
            }
            assert forall|i: int| 0 <= i < n + 1 && !#[trigger] keep[i] implies exists|k: int|
                0 <= k < user.len() && call_ensures(
                    matches_trigger,
                    (&all.take(n + 1)[i], &#[trigger] user[k]),
                    true,
                ) by {
                if i < n {
                    assert(!before[i]);
                    assert(all.take(n)[i] == all.take(n + 1)[i]);
                }
            }
        }
        if !hit {
            kept.push(item);
        }
        proof {
            n = n + 1;
        }
    }
    proof {
        assert(n == all.len());
        assert(all.take(n) =~= all);
        assert(unmatched(matches_trigger, user, all, keep));
    }
    let mut r = bindings;
    r.append(&mut kept);
    r
}

/// The bindings that could be read, in their order.
pub open spec fn readable<B>(values: Seq<Option<B>>) -> Seq<B>
    decreases values.len(),
{
    if values.len() == 0 {
        Seq::empty()
    } else {
        match values.last() {
            Some(b) => readable(values.drop_last()).push(b),
            None => readable(values.drop_last()),
        }
    }
}

/// Every binding that could be read is there, in its order, and nothing else.
pub proof fn readable_bindings_all_count<B>(values: Seq<Option<B>>)
    ensures
        readable(values) == values.filter(|v: Option<B>| v is Some).map_values(
            |v: Option<B>| v->0,
        ),
        forall|i: int|
            0 <= i < values.len() && (#[trigger] values[i]) is Some ==> readable(values).contains(
                values[i]->0,
            ),
    decreases values.len(),
{
    let pred = |v: Option<B>| v is Some;
    let get = |v: Option<B>| v->0;
    reveal(Seq::filter);
    if values.len() > 0 {
        readable_bindings_all_count(values.drop_last());
        let before = values.drop_last().filter(pred);
        if values.last() is Some {
            assert(before.push(values.last()).map_values(get) =~= before.map_values(get).push(
                values.last()->0,
            ));
        }
    } else {
        assert(readable(values) =~= values.filter(pred).map_values(get));
    }
    assert forall|i: int| 0 <= i < values.len() && (#[trigger] values[i]) is Some implies readable(
        values,
    ).contains(values[i]->0) by {
        values.lemma_filter_contains(pred, i);
        let kept = values.filter(pred);
        let k = choose|k: int| 0 <= k < kept.len() && kept[k] == values[i];
        assert(kept.map_values(get)[k] == values[i]->0);
    }
}

/// The bindings in force: those of the user that could be read, and the default ones that
/// none of them matches. `values` holds the bindings of the user, `None` where one could not
/// be read.
pub fn deserialize_bindings<B, F: Fn(&B, &B) -> bool>(
    values: Vec<Option<B>>,
    default: Vec<B>,
    matches_trigger: F,
) -> (r: Vec<B>)
    requires
        forall|a: &B, b: &B| call_requires(matches_trigger, (a, b)),
    ensures
        exists|keep: Seq<bool>| #[trigger]
            unmatched(matches_trigger, readable(values@), default@, keep) && r@ == readable(
                values@,
            ) + kept_items(default@, keep),
{
    let ghost all = values@;
    let mut rest = values;
    let mut bindings: Vec<B> = Vec::new();
    let ghost mut n: int = 0;
    proof {
        assert(rest@ =~= all.skip(0));
        assert(bindings@ =~= readable(all.take(0)));
    }
    while rest.len() > 0
        invariant
            0 <= n <= all.len(),
            rest@ == all.skip(n),
            bindings@ == readable(all.take(n)),
        decreases rest@.len(),
    {
        let value = rest.remove(0);
        proof {
            assert(all.take(n + 1).drop_last() =~= all.take(n));
            assert(all.take(n + 1).last() == value);
            assert(rest@ =~= all.skip(n + 1));
        }
        if let Some(binding) = value {
            bindings.push(binding);
        }
        proof {
            n = n + 1;
        }
    }
    proof {
        assert(all.take(n) =~= all);
    }
    merge_bindings(bindings, default, matches_trigger)
}

/// Settings of the terminal emulator itself. Cursor styles are a shape and whether it
/// blinks.
#[derive(Debug)]
pub struct TermConfig {
    pub semantic_escape_chars: String,
    pub scrolling_history: usize,
    pub vi_mode_cursor_style: Option<(u8, bool)>,
    pub default_cursor_style: (u8, bool),
    pub osc52: u8,
    pub kitty_keyboard: bool,
    pub suppress_bringup_da1: bool,
    pub conpty_resize: bool,
}

/// What a terminal process is started with.
#[derive(Debug)]
pub struct PtyOptions {
    pub working_directory: Option<String>,
    pub shell: Option<Shell>,
    pub drain_on_exit: bool,
    pub env: Vec<(String, String)>,
}

/// The configuration, as far as terminals and bindings are made from it. The options at
/// the top level are the older places of those under `general` and `terminal`.
#[derive(Debug)]
pub struct UiConfig {
    pub semantic_escape_chars: String,
    pub scrolling_history: u32,
    pub vi_mode_cursor_style: Option<(u8, bool)>,
    pub cursor_style: (u8, bool),
    pub osc52: u8,
    pub terminal_shell: Option<Program>,
    pub general_working_directory: Option<String>,
    pub general_live_config_reload: bool,
    pub general_ipc_socket: bool,
    pub shell: Option<Program>,
    pub working_directory: Option<String>,
    pub live_config_reload: Option<bool>,
    pub ipc_socket: Option<bool>,
}

impl UiConfig {
    /// The settings of a terminal. `conpty` is `None` away from Windows; there it tells
    /// whether the bundled console host is used.
    pub fn term_options(&self, conpty: Option<bool>) -> (t: TermConfig)
        ensures
            t == (TermConfig {
                semantic_escape_chars: self.semantic_escape_chars,
                scrolling_history: self.scrolling_history as usize,
                vi_mode_cursor_style: self.vi_mode_cursor_style,
                default_cursor_style: self.cursor_style,
                osc52: self.osc52,
                kitty_keyboard: true,
                suppress_bringup_da1: conpty == Some(true),
                conpty_resize: conpty is Some,
            }),
    {
        TermConfig {
            semantic_escape_chars: self.semantic_escape_chars.clone(),
            scrolling_history: self.scrolling_history as usize,
            vi_mode_cursor_style: self.vi_mode_cursor_style,
            default_cursor_style: self.cursor_style,
            osc52: self.osc52,
            kitty_keyboard: true,
            suppress_bringup_da1: match conpty {
                Some(sideload) => sideload,
                None => false,
            },
            conpty_resize: conpty.is_some(),
        }
    }

    /// What a terminal process is started with: the shell under `terminal` before the
    /// older option, but the older working directory before the one under `general`.
    pub fn pty_config(&self) -> (p: PtyOptions)
        ensures
            !p.drain_on_exit,
            p.env@.len() == 0,
            p.working_directory == (if self.working_directory is Some {
                self.working_directory
            } else {
                self.general_working_directory
            }),
            ({
                let shell = if self.terminal_shell is Some {
                    self.terminal_shell
                } else {
                    self.shell
                };
                &&& p.shell is Some <==> shell is Some
                &&& p.shell matches Some(s) ==> s.program == shell->0.name() && s.args@
                    == shell->0.arguments()
            }),
    {
        let shell: Option<Shell> = match &self.terminal_shell {
            Some(p) => Some(p.to_shell()),
            None => match &self.shell {
                Some(p) => Some(p.to_shell()),
                None => None,
            },
        };
        let working_directory: Option<String> = match &self.working_directory {
            Some(d) => Some(d.clone()),
            None => match &self.general_working_directory {
                Some(d) => Some(d.clone()),
                None => None,
            },
        };
        PtyOptions { working_directory, shell, drain_on_exit: false, env: Vec::new() }
    }

    pub fn live_config_reload(&self) -> (r: bool)
        ensures
            r == (match self.live_config_reload {
                Some(b) => b,
                None => self.general_live_config_reload,
            }),
    {
        self.live_config_reload.unwrap_or(self.general_live_config_reload)
    }

    pub fn ipc_socket(&self) -> (r: bool)
        ensures
            r == (match self.ipc_socket {
                Some(b) => b,
                None => self.general_ipc_socket,
            }),
    {
        self.ipc_socket.unwrap_or(self.general_ipc_socket)
    }
}

/// Reads the texts of the configuration whose case does not matter.
#[derive(Clone, Copy, Debug)]
pub struct StringVisitor;

impl StringVisitor {
    /// The text in lower case.
    pub fn visit_str(self, s: &str) -> (r: String)
        ensures
            r@ == lowercase(s@),
    {
        lowercase_of(s)
    }
}

/// The last entry of a hint that sets a pattern decides on it, and entries with other keys
/// do not count; so for whether it looks for links.
pub proof fn last_entry_decides(entries: Seq<HintEntry>, i: int, p: String, b: bool)
    requires
        0 <= i < entries.len(),
    ensures
        entries[i].key@ == "regex"@ && entries[i].pattern == Some(Some(p)) && (forall|j: int|
            i < j < entries.len() ==> (#[trigger] entries[j]).key@ != "regex"@
                || entries[j].pattern is None) ==> pattern_set(entries, entries.len() as int)
            == Some(p@),
        (forall|j: int|
            0 <= j < entries.len() ==> (#[trigger] entries[j]).key@ != "regex"@) ==> pattern_set(
            entries,
            entries.len() as int,
        ) is None,
        entries[i].key@ == "hyperlinks"@ && entries[i].flag == Some(b) && (forall|j: int|
            i < j < entries.len() ==> (#[trigger] entries[j]).key@ != "hyperlinks"@
                || entries[j].flag is None) ==> hyperlinks_set(entries, entries.len() as int) == b,
        (forall|j: int|
            0 <= j < entries.len() ==> (#[trigger] entries[j]).key@ != "hyperlinks"@)
            ==> !hyperlinks_set(entries, entries.len() as int),
{
    lemma_entries_decide(entries, i, p, b, entries.len() as int);
}

proof fn lemma_entries_decide(entries: Seq<HintEntry>, i: int, p: String, b: bool, k: int)
    requires
        0 <= i < entries.len(),
        0 <= k <= entries.len(),
    ensures
        i < k && entries[i].key@ == "regex"@ && entries[i].pattern == Some(Some(p)) && (forall|
            j: int,
        |
            i < j < k ==> (#[trigger] entries[j]).key@ != "regex"@ || entries[j].pattern is None)
            ==> pattern_set(entries, k) == Some(p@),
        (forall|j: int| 0 <= j < k ==> (#[trigger] entries[j]).key@ != "regex"@) ==> pattern_set(
            entries,
            k,
        ) is None,
        i < k && entries[i].key@ == "hyperlinks"@ && entries[i].flag == Some(b) && (forall|j: int|
            i < j < k ==> (#[trigger] entries[j]).key@ != "hyperlinks"@ || entries[j].flag is None)
            ==> hyperlinks_set(entries, k) == b,
        (forall|j: int| 0 <= j < k ==> (#[trigger] entries[j]).key@ != "hyperlinks"@)
            ==> !hyperlinks_set(entries, k),
    decreases k,
{
    if k > 0 {
        lemma_entries_decide(entries, i, p, b, k - 1);
        let e = entries[k - 1];
        assert(e == entries[k - 1]);
    }
}

/// A profile that was imported has a key of its family and its id; one from the
/// configuration has none.
pub proof fn imported_profiles_have_keys(p: Profile)
    ensures
        p.settings_key() is Some <==> p.shell_id is Some && p.terminal_profile_id is Some,
        p.settings_key() matches Some(key) ==> {
            let n = 8 + (p.shell_id->0)@.len();
            &&& key.take(8) == "profile:"@
            &&& key.subrange(8, n as int) == (p.shell_id->0)@
            &&& key[n as int] == '|'
            &&& key.skip(n as int + 1) == (p.terminal_profile_id->0)@
        },
{
    reveal_strlit("profile:");
    reveal_strlit("|");
    if p.settings_key() is Some {
        let key = p.settings_key()->0;
        let n = 8 + (p.shell_id->0)@.len() as int;
        assert(key.take(8) =~= "profile:"@);
        assert(key.subrange(8, n) =~= (p.shell_id->0)@);
        assert(key.skip(n + 1) =~= (p.terminal_profile_id->0)@);
    }
}

/// A program has the arguments that it was written with, and none where it is a name alone.
pub proof fn programs_keep_their_arguments(name: String, args: Vec<String>)
    ensures
        Program::Just(name).name() == name && Program::Just(name).arguments().len() == 0,
        (Program::WithArgs { program: name, args }).name() == name,
        (Program::WithArgs { program: name, args }).arguments() == args@,
{
}

/// A hint is bound to the keys and the modes that were written for it.
pub proof fn bound_hint_keeps_its_keys(keys: HintBinding, hint: usize)
    ensures
        keys.bound_to(hint).trigger == keys.key,
        keys.bound_to(hint).mods == keys.mods.bits,
        keys.bound_to(hint).mode == keys.mode.mode,
        keys.bound_to(hint).notmode == keys.mode.not_mode,
        keys.bound_to(hint).hint == hint,
        keys.cache is Some ==> Some(keys.given(hint)) == keys.cache,
{
}

/// Merged bindings are those of the user, in front and as they are, and every default that
/// none of them overrides.
pub proof fn merging_keeps_what_is_not_overridden<B, F: Fn(&B, &B) -> bool>(
    bindings: Vec<B>,
    default: Vec<B>,
    matches_trigger: F,
    r: Vec<B>,
)
    requires
        call_ensures(merge_bindings::<B, F>, (bindings, default, matches_trigger), r),
        forall|a: &B, b: &B|
            !(#[trigger] call_ensures(matches_trigger, (a, b), true) && call_ensures(
                matches_trigger,
                (a, b),
                false,
            )),
    ensures
        r@.len() >= bindings@.len(),
        r@.take(bindings@.len() as int) == bindings@,
        forall|i: int|
            #![trigger default@[i]]
            0 <= i < default@.len() && !overridden(matches_trigger, bindings@, default@[i])
                ==> r@.skip(bindings@.len() as int).contains(default@[i]),
        forall|b: B| #[trigger]
            r@.skip(bindings@.len() as int).contains(b) ==> default@.contains(b) && !overridden(
                matches_trigger,
                bindings@,
                b,
            ),
{
    let keep = choose|keep: Seq<bool>| #[trigger]
        unmatched(matches_trigger, bindings@, default@, keep) && r@ == bindings@ + kept_items(
            default@,
            keep,
        );
    only_matched_defaults_are_lost(matches_trigger, bindings@, default@, keep);
}

/// Bindings that are read are those that could be read, all of them and in their order, and
/// every default that none of them overrides.
pub proof fn reading_keeps_what_is_not_overridden<B, F: Fn(&B, &B) -> bool>(
    values: Vec<Option<B>>,
    default: Vec<B>,
    matches_trigger: F,
    r: Vec<B>,
)
    requires
        call_ensures(deserialize_bindings::<B, F>, (values, default, matches_trigger), r),
        forall|a: &B, b: &B|
            !(#[trigger] call_ensures(matches_trigger, (a, b), true) && call_ensures(
                matches_trigger,
                (a, b),
                false,
            )),
    ensures
        ({
            let read = values@.filter(|v: Option<B>| v is Some).map_values(|v: Option<B>| v->0);
            &&& r@.len() >= read.len()
            &&& r@.take(read.len() as int) == read
            &&& forall|i: int|
                #![trigger default@[i]]
                0 <= i < default@.len() && !overridden(matches_trigger, read, default@[i])
                    ==> r@.skip(read.len() as int).contains(default@[i])
            &&& forall|b: B| #[trigger]
                r@.skip(read.len() as int).contains(b) ==> default@.contains(b) && !overridden(
                    matches_trigger,
                    read,
                    b,
                )
        }),
{
    readable_bindings_all_count(values@);
    let read = readable(values@);
    let keep = choose|keep: Seq<bool>| #[trigger]
        unmatched(matches_trigger, read, default@, keep) && r@ == read + kept_items(default@, keep);
    only_matched_defaults_are_lost(matches_trigger, read, default@, keep);
}

/// The prompt is set up in the two families that have it, where that is offered.
pub proof fn prompt_is_set_up_where_offered(p: Profile, offered: bool, i: ShellIntegration)
    requires
        call_ensures(Profile::integration, (&p, offered), i),
    ensures
        !offered || p.shell_id is None ==> i is Plain,
        i is PowerShell <==> offered && (p.shell_id matches Some(s) && (s@ == "pwsh"@ || s@
            == "powershell"@)),
        i is Bash <==> offered && (p.shell_id matches Some(s) && (s@ == "bash"@ || s@
            == "git-bash"@)),
{
    reveal_strlit("pwsh");
    reveal_strlit("powershell");
    reveal_strlit("bash");
    reveal_strlit("git-bash");
    assert("pwsh"@[0] == 'p' && "powershell"@[0] == 'p' && "bash"@[0] == 'b' && "git-bash"@[0]
        == 'g');
}

/// An alphabet is taken exactly where it has two characters at least and each of them takes
/// one column; then it is the alphabet.
pub proof fn alphabet_is_taken_whole(value: String, r: Result<HintsAlphabet, AlphabetError>)
    requires
        call_ensures(HintsAlphabet::parse, (value,), r),
    ensures
        r is Ok <==> value@.len() >= 2 && forall|i: int|
            0 <= i < value@.len() ==> char_width(#[trigger] value@[i]) == Some(1usize),
        r matches Ok(a) ==> a.characters@ == value@,
        r matches Err(e) ==> (e is TooShort ==> value@.len() < 2),
{
}

/// What a configuration says of the terminal reaches it; the rest follows from the console
/// that it runs in.
pub proof fn configured_options_reach_the_terminal(
    c: UiConfig,
    conpty: Option<bool>,
    t: TermConfig,
)
    requires
        call_ensures(UiConfig::term_options, (&c, conpty), t),
    ensures
        t.semantic_escape_chars == c.semantic_escape_chars,
        t.scrolling_history == c.scrolling_history,
        t.default_cursor_style == c.cursor_style,
        t.vi_mode_cursor_style == c.vi_mode_cursor_style,
        t.osc52 == c.osc52,
        t.kitty_keyboard,
        conpty is None ==> !t.conpty_resize && !t.suppress_bringup_da1,
        conpty is Some ==> t.conpty_resize && t.suppress_bringup_da1 == conpty->0,
{
}

/// The directory and the shell of a session are those of their own settings; the older ones
/// count where these are missing.
pub proof fn session_starts_as_configured(c: UiConfig, p: PtyOptions, live: bool, ipc: bool)
    requires
        call_ensures(UiConfig::pty_config, (&c,), p),
        call_ensures(UiConfig::live_config_reload, (&c,), live),
        call_ensures(UiConfig::ipc_socket, (&c,), ipc),
    ensures
        c.working_directory is Some ==> p.working_directory == c.working_directory,
        c.working_directory is None ==> p.working_directory == c.general_working_directory,
        c.terminal_shell matches Some(s) ==> p.shell is Some && p.shell->0.program == s.name()
            && p.shell->0.args@ == s.arguments(),
        c.terminal_shell is None && c.shell is None ==> p.shell is None,
        c.terminal_shell is None ==> (c.shell matches Some(s) ==> p.shell is Some
            && p.shell->0.program == s.name() && p.shell->0.args@ == s.arguments()),
        !p.drain_on_exit && p.env@.len() == 0,
        c.live_config_reload == Some(true) ==> live,
        c.live_config_reload == Some(false) ==> !live,
        c.live_config_reload is None ==> live == c.general_live_config_reload,
        c.ipc_socket == Some(true) ==> ipc,
        c.ipc_socket == Some(false) ==> !ipc,
        c.ipc_socket is None ==> ipc == c.general_ipc_socket,
{
}

/// A hint needs a pattern or links to look for, and has what its entries set.
pub proof fn hint_needs_something_to_look_for(
    entries: Vec<HintEntry>,
    r: Result<HintContent, &'static str>,
)
    requires
        call_ensures(HintContent::from_entries, (&entries,), r),
    ensures
        (forall|i: int|
            0 <= i < entries@.len() ==> (#[trigger] entries@[i]).key@ != "regex"@
                && entries@[i].key@ != "hyperlinks"@) ==> r is Err,
        r matches Ok(c) ==> c.regex is Some || c.hyperlinks,
        forall|i: int, p: String|
            #![trigger entries@[i], p@]
            0 <= i < entries@.len() && entries@[i].key@ == "regex"@ && entries@[i].pattern == Some(
                Some(p),
            ) && i == entries@.len() - 1 ==> (r matches Ok(c) && (c.regex matches Some(q) && q@
                == p@)),
{
    if entries@.len() > 0 {
        let e = entries@[entries@.len() - 1];
        assert forall|i: int, p: String|
            #![trigger entries@[i], p@]
            0 <= i < entries@.len() && entries@[i].key@ == "regex"@ && entries@[i].pattern == Some(
                Some(p),
            ) && i == entries@.len() - 1 implies (r matches Ok(c) && (c.regex matches Some(q) && q@
            == p@)) by {
            last_entry_decides(entries@, i, p, true);
        }
        if forall|i: int|
            0 <= i < entries@.len() ==> (#[trigger] entries@[i]).key@ != "regex"@
                && entries@[i].key@ != "hyperlinks"@ {
            last_entry_decides(entries@, 0, e.key, true);
        }
    }
}

/// The keys of a hint are made once: every later question gets the first answer.
pub proof fn keys_of_a_hint_stay(
    s: &mut HintBinding,
    again: &mut HintBinding,
    a: usize,
    b: usize,
    first: KeyBinding,
    second: KeyBinding,
)
    requires
        call_ensures(HintBinding::key_binding, (s, a), first),
        call_ensures(HintBinding::key_binding, (again, b), second),
        *again == *final(s),
    ensures
        second == first,
        final(s).cache == Some(first),
        old(s).cache is None ==> first.hint == a && first.trigger == old(s).key && first.mods
            == old(s).mods.bits && first.mode == old(s).mode.mode && first.notmode
            == old(s).mode.not_mode,
        old(s).cache is Some ==> Some(first) == old(s).cache,
        final(s).key == old(s).key && final(s).mods == old(s).mods && final(s).mode == old(s).mode,
{
}

/// A pattern that is added is the last one and is its own; the others stay.
pub proof fn added_pattern_is_its_own<R>(
    t: &mut LazyRegexes<R>,
    pattern: String,
    regex: LazyRegex,
    other: LazyRegex,
)
    requires
        call_ensures(LazyRegexes::<R>::add_pattern, (t, pattern), regex),
    ensures
        final(t).holds(regex),
        !old(t).holds(regex),
        final(t).variant(regex) is Pattern && final(t).variant(regex).pattern_text() == pattern@,
        old(t).holds(other) ==> final(t).holds(other) && final(t).variant(other) == old(t).variant(
            other,
        ),
{
}

/// Links and paths are hints from the start: both can be clicked, links have keys, and both
/// are opened by the command of the system.
pub proof fn links_and_paths_are_hints(platform: Platform, h: Hints)
    requires
        call_ensures(Hints::default_for, (platform,), h),
    ensures
        h.enabled@.len() == 2,
        h.enabled@[0].content.hyperlinks && !h.enabled@[1].content.hyperlinks,
        h.enabled@[0].content.regex is Some && h.enabled@[1].content.regex is Some,
        h.enabled@[0].binding is Some && h.enabled@[1].binding is None,
        forall|i: int|
            0 <= i < 2 ==> (#[trigger] h.enabled@[i]).mouse is Some && h.enabled@[i].mouse->0.enabled
                && opens_links(h.enabled@[i].action, platform) && !h.enabled@[i].persist,
        h.alphabet.characters@.len() == 18,
{
    reveal_strlit("jfkdls;ahgurieowpq");
}

/// Links are opened with the program of the system: one name on Unix and on macOS, and the
/// shell with its three arguments on Windows.
pub proof fn links_are_opened_by_the_system(p: Program, platform: Platform)
    ensures
        opens_links(HintAction::Command(p), Platform::Unix) <==> p is Just && p.name()@
            == "xdg-open"@,
        opens_links(HintAction::Command(p), Platform::MacOs) <==> p is Just && p.name()@ == "open"@,
        opens_links(HintAction::Command(p), Platform::Windows) ==> p.name()@ == "cmd"@
            && p.arguments().len() == 3,
        forall|a: HintInternalAction| !#[trigger] opens_links(HintAction::Action(a), platform),
{
    let s = seq!["/c"@, "start"@, ""@];
    assert(s.len() == 3);
    assert(texts(p.arguments()).len() == p.arguments().len());
}

/// A shell of a profile is its command with its arguments, and a program is its own.
pub proof fn shells_run_what_they_are_told(p: Profile, s: Shell, q: Program, t: Shell)
    requires
        call_ensures(Profile::shell, (&p,), s),
        call_ensures(Program::to_shell, (&q,), t),
    ensures
        s.program == p.command && s.args@ == p.args@,
        t.program == q.name() && t.args@ == q.arguments(),
{
}

/// A pattern is compiled once and keeps its text; one that failed is not tried again.
pub proof fn pattern_is_compiled_once<R, F: FnOnce(&String) -> Option<R>>(
    s: &mut LazyRegexVariant<R>,
    compile: F,
    r: bool,
)
    requires
        call_ensures(LazyRegexVariant::<R>::compiled::<F>, (s, compile), r),
    ensures
        final(s).pattern_text() == old(s).pattern_text(),
        !(*final(s) is Pattern),
        !(*old(s) is Pattern) ==> *final(s) == *old(s),
        r <==> *final(s) is Compiled,
        *old(s) is Uncompilable ==> !r,
        *old(s) is Compiled ==> r,
{
}

} // verus!
