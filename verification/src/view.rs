//! What the settings page draws: a picture of the state, taken once for a frame.
use crate::backup::{BackupProtocol, BackupSelection, BackupState};
use crate::color::{Px, Rgb};
use crate::config::clone_texts;
use crate::display::Display;
use crate::fields::TextField;
use crate::fonts::FontState;
use crate::hosts::{lists_host, HostState};
use crate::keymap::{
    clash_note, clashes, first_clash, in_clash, keymap_clash_info, shown_rows, KeymapRow, KeymapState,
};
use crate::lang::UiLanguage;
use crate::look::{LookState, SettingsOpacityTarget};
use crate::page::PageState;
use crate::prefs::{Choices, Switches};
use crate::providers::{AiProvider, ProviderState};
use crate::proxy::{
    ManualProxyProtocol, ProxyChoice, ProxyMode, ProxyState, ProxyTestStatus,
};
use crate::settings::clone_optional;
use crate::shells::{imported, profile_with_key, shows_profile, shows_shell, ShellRow, ShellState};
use crate::slots::{copy_chars, slot_texts};
use crate::sync::SyncState;
use crate::text::{concat3, same_text, texts};
use crate::theme::NebulaTheme;
use vstd::prelude::*;

verus! {

/// A name or an icon that was given to a host.
#[derive(Debug)]
pub struct HostMark {
    pub host: String,
    pub mark: String,
}

/// The mark of a host, or a default where it has none.
pub open spec fn mark_of(marks: Seq<HostMark>, host: Seq<char>, default: Seq<char>) -> Seq<char>
    decreases marks.len(),
{
    if marks.len() == 0 {
        default
    } else if marks.last().host@ == host {
        marks.last().mark@
    } else {
        mark_of(marks.drop_last(), host, default)
    }
}

/// The mark of a host, or a default where it has none.
pub fn mark_for(marks: &Vec<HostMark>, host: &str, default: &str) -> (s: String)
    ensures
        s@ == mark_of(marks@, host@, default@),
{
    let mut n: usize = marks.len();
    proof {
        assert(marks@.take(n as int) =~= marks@);
    }
    while n > 0
        invariant
            n <= marks@.len(),
            mark_of(marks@, host@, default@) == mark_of(marks@.take(n as int), host@, default@),
        decreases n,
    {
        proof {
            assert(marks@.take(n as int).drop_last() =~= marks@.take(n - 1));
            assert(marks@.take(n as int).last() == marks@[n - 1]);
        }
        if same_text(marks[n - 1].host.as_str(), host) {
            return marks[n - 1].mark.clone();
        }
        n -= 1;
    }
    default.to_owned()
}

/// A host as the settings list it.
#[derive(Debug)]
pub struct SshSettingsHost {
    pub destination: String,
    pub label: String,
    pub icon: String,
    pub pinned: bool,
}

/// Whether a row shows the host: its name, else the host itself; its icon, else the
/// default one; and whether it is pinned.
pub open spec fn shows_host(
    row: SshSettingsHost,
    host: String,
    labels: Seq<HostMark>,
    icons: Seq<HostMark>,
    default_icon: Seq<char>,
    pinned: Seq<String>,
) -> bool {
    &&& row.destination == host
    &&& row.label@ == mark_of(labels, host@, host@)
    &&& row.icon@ == mark_of(icons, host@, default_icon)
    &&& row.pinned == texts(pinned).contains(host@)
}

impl HostState {
    /// The hosts as the settings and the launcher list them.
    pub fn host_rows(
        &self,
        labels: &Vec<HostMark>,
        icons: &Vec<HostMark>,
        default_icon: &str,
    ) -> (rows: Vec<SshSettingsHost>)
        ensures
            rows@.len() == self.listed@.len(),
            forall|i: int|
                0 <= i < rows@.len() ==> shows_host(
                    #[trigger] rows@[i],
                    self.listed@[i],
                    labels@,
                    icons@,
                    default_icon@,
                    self.pinned@,
                ),
    {
        let mut rows: Vec<SshSettingsHost> = Vec::new();
        let mut i: usize = 0;
        while i < self.listed.len()
            invariant
                i <= self.listed@.len(),
                rows@.len() == i,
                forall|k: int|
                    0 <= k < i ==> shows_host(
                        #[trigger] rows@[k],
                        self.listed@[k],
                        labels@,
                        icons@,
                        default_icon@,
                        self.pinned@,
                    ),
            decreases self.listed@.len() - i,
        {
            let host: &String = &self.listed[i];
            rows.push(
                SshSettingsHost {
                    destination: host.clone(),
                    label: mark_for(labels, host.as_str(), host.as_str()),
                    icon: mark_for(icons, host.as_str(), default_icon),
                    pinned: lists_host(&self.pinned, host.as_str()),
                },
            );
            i += 1;
        }
        rows
    }
}

/// A copy of a message with its error flag.
pub fn clone_status(s: &Option<(String, bool)>) -> (r: Option<(String, bool)>)
    ensures
        r == *s,
{
    match s {
        Some((text, error)) => Some((text.clone(), *error)),
        None => None,
    }
}

/// Two fields that show and select the same.
pub open spec fn same_field(a: TextField, b: TextField) -> bool {
    a.text@ == b.text@ && a.caret == b.caret && a.anchor == b.anchor
}

/// A copy of a field.
pub fn clone_field(f: &TextField) -> (r: TextField)
    ensures
        same_field(r, *f),
{
    TextField { text: copy_chars(&f.text), caret: f.caret, anchor: f.anchor }
}

/// Two lists of fields that show and select the same.
pub open spec fn same_fields(a: Seq<TextField>, b: Seq<TextField>) -> bool {
    a.len() == b.len() && forall|i: int| 0 <= i < a.len() ==> same_field(#[trigger] a[i], b[i])
}

/// A copy of some fields.
pub fn clone_fields(v: &Vec<TextField>) -> (r: Vec<TextField>)
    ensures
        same_fields(r@, v@),
{
    let mut r: Vec<TextField> = Vec::new();
    let mut i: usize = 0;
    while i < v.len()
        invariant
            i <= v@.len(),
            r@.len() == i,
            forall|k: int| 0 <= k < i ==> same_field(#[trigger] r@[k], v@[k]),
        decreases v@.len() - i,
    {
        r.push(clone_field(&v[i]));
        i += 1;
    }
    r
}

/// A copy of some slots.
pub fn clone_slots(v: &Vec<Vec<char>>) -> (r: Vec<Vec<char>>)
    ensures
        slot_texts(r@) == slot_texts(v@),
{
    let mut r: Vec<Vec<char>> = Vec::new();
    let mut i: usize = 0;
    while i < v.len()
        invariant
            i <= v@.len(),
            r@.len() == i,
            forall|k: int| 0 <= k < i ==> (#[trigger] r@[k])@ == v@[k]@,
        decreases v@.len() - i,
    {
        r.push(copy_chars(&v[i]));
        i += 1;
    }
    proof {
        assert(slot_texts(r@) =~= slot_texts(v@));
    }
    r
}

/// A copy of some providers.
pub fn clone_providers(v: &Vec<AiProvider>) -> (r: Vec<AiProvider>)
    ensures
        r@ == v@,
{
    let mut r: Vec<AiProvider> = Vec::new();
    let mut i: usize = 0;
    while i < v.len()
        invariant
            i <= v@.len(),
            r@ == v@.take(i as int),
        decreases v@.len() - i,
    {
        r.push(v[i].duplicate());
        proof {
            assert(r@ =~= v@.take(i + 1));
        }
        i += 1;
    }
    proof {
        assert(v@.take(i as int) =~= v@);
    }
    r
}

/// The default shell as the page shows it.
#[derive(Debug)]
pub struct ShellView {
    pub label: String,
    pub rows: Vec<ShellRow>,
    pub shell_id: Option<String>,
    pub startup_directory: Option<String>,
}

/// What is known of shell ids and families elsewhere: the icon of the default, the name
/// of its id and the name of its family.
#[derive(Debug)]
pub struct ShellNames {
    pub icon: String,
    pub name_of_id: String,
    pub family_name: String,
}

impl ShellState {
    /// The name that the default is shown with.
    pub open spec fn shown_name(self, names: ShellNames) -> Seq<char> {
        match self.shell_id {
            Some(id) => match profile_with_key(self.profiles@, id@) {
                Some(i) => self.profiles@[i].name@,
                None => names.name_of_id@,
            },
            None => names.family_name@,
        }
    }

    pub open spec fn seen(self, v: ShellView, names: ShellNames) -> bool {
        let found = self.found();
        &&& v.label@ == names.icon@ + "  "@ + self.shown_name(names)
        &&& v.rows@.len() == found.len() + imported(self.profiles@).len()
        &&& forall|i: int| 0 <= i < found.len() ==> shows_shell(#[trigger] v.rows@[i], found[i])
        &&& forall|i: int|
            found.len() <= i < v.rows@.len() ==> shows_profile(
                #[trigger] v.rows@[i],
                imported(self.profiles@)[i - found.len()],
            )
        &&& v.shell_id == self.shell_id
        &&& v.startup_directory == self.startup_directory
    }

    pub fn view(&self, names: &ShellNames) -> (v: ShellView)
        ensures
            self.seen(v, *names),
    {
        let name = self.default_name(names.name_of_id.as_str(), names.family_name.as_str());
        ShellView {
            label: concat3(names.icon.as_str(), "  ", name.as_str()),
            rows: self.shell_rows(),
            shell_id: clone_optional(&self.shell_id),
            startup_directory: clone_optional(&self.startup_directory),
        }
    }
}

/// The providers as the page shows them.
#[derive(Debug)]
pub struct ProviderView {
    pub list: Vec<AiProvider>,
    pub active_id: String,
    pub inputs: Vec<TextField>,
    pub focus: Option<usize>,
    pub status: Option<(String, bool)>,
}

impl ProviderState {
    pub open spec fn seen(self, v: ProviderView) -> bool {
        &&& v.list@ == self.list@
        &&& v.active_id == self.active_id
        &&& same_fields(v.inputs@, self.inputs@)
        &&& v.focus == self.focus
        &&& v.status == self.status
    }

    pub fn view(&self) -> (v: ProviderView)
        ensures
            self.seen(v),
    {
        ProviderView {
            list: clone_providers(&self.list),
            active_id: self.active_id.clone(),
            inputs: clone_fields(&self.inputs),
            focus: self.focus,
            status: clone_status(&self.status),
        }
    }
}

/// The fonts as the page shows them.
#[derive(Debug)]
pub struct FontView {
    pub family: String,
    pub families: Vec<String>,
    pub notice: Option<String>,
    pub show_all: bool,
    pub query: TextField,
    pub popup_scroll: usize,
    pub popup_dragging: bool,
    pub proportional: Vec<String>,
}

impl FontState {
    pub open spec fn seen(self, v: FontView) -> bool {
        &&& v.family == self.family
        &&& v.families@ == self.families@
        &&& v.notice == self.notice
        &&& v.show_all == self.show_all
        &&& same_field(v.query, self.query)
        &&& v.popup_scroll == self.popup_scroll
        &&& v.popup_dragging == (self.popup_drag is Some)
        &&& v.proportional@ == self.proportional@
    }

    pub fn view(&self) -> (v: FontView)
        ensures
            self.seen(v),
    {
        FontView {
            family: self.family.clone(),
            families: clone_texts(&self.families),
            notice: clone_optional(&self.notice),
            show_all: self.show_all,
            query: clone_field(&self.query),
            popup_scroll: self.popup_scroll,
            popup_dragging: self.popup_drag.is_some(),
            proportional: clone_texts(&self.proportional),
        }
    }
}

/// The key bindings as the page shows them: the keys in force of every row, and what is
/// being searched, captured or in conflict.
#[derive(Debug)]
pub struct KeymapView {
    pub combos: Vec<Option<String>>,
    pub quick_hotkey: String,
    pub quick_error: Option<String>,
    pub capture: Option<usize>,
    pub preview: String,
    pub query: TextField,
    pub search_focus: bool,
    pub visible: Vec<usize>,
    pub readonly_visible: Vec<usize>,
    pub clash_rows: Vec<bool>,
    pub clash_note: Option<String>,
}

impl KeymapState {
    pub open spec fn seen(
        self,
        v: KeymapView,
        rows: Seq<KeymapRow>,
        readonly: Seq<KeymapRow>,
        language: UiLanguage,
    ) -> bool {
        &&& v.combos@.len() == rows.len()
        &&& forall|i: int| 0 <= i < rows.len() ==> #[trigger] v.combos@[i] == rows[i].combo
        &&& v.quick_hotkey == self.quick_hotkey
        &&& v.quick_error == self.quick_error
        &&& v.capture == self.capture
        &&& v.preview == self.preview
        &&& same_field(v.query, self.query)
        &&& v.search_focus == self.search_focus
        &&& v.visible@ == shown_rows(rows, self.query.text@, rows.len() as int)
        &&& v.readonly_visible@ == shown_rows(readonly, self.query.text@, readonly.len() as int)
        &&& v.clash_rows@.len() == rows.len()
        &&& forall|i: int|
            0 <= i < rows.len() ==> #[trigger] v.clash_rows@[i] == in_clash(rows, i)
        &&& match v.clash_note {
            Some(note) => exists|a: int, b: int| #[trigger]
                first_clash(rows, a, b) && note@ == clash_note(rows, a, b, language),
            None => forall|a: int, b: int| !#[trigger] clashes(rows, a, b),
        }
    }

    pub fn view(
        &self,
        rows: &Vec<KeymapRow>,
        readonly: &Vec<KeymapRow>,
        language: UiLanguage,
    ) -> (v: KeymapView)
        ensures
            self.seen(v, rows@, readonly@, language),
    {
        let (clash_rows, clash_note): (Vec<bool>, Option<String>) = keymap_clash_info(
            rows,
            language,
        );
        let mut combos: Vec<Option<String>> = Vec::new();
        let mut i: usize = 0;
        while i < rows.len()
            invariant
                i <= rows@.len(),
                combos@.len() == i,
                forall|k: int| 0 <= k < i ==> #[trigger] combos@[k] == rows@[k].combo,
            decreases rows@.len() - i,
        {
            combos.push(clone_optional(&rows[i].combo));
            i += 1;
        }
        KeymapView {
            combos,
            quick_hotkey: self.quick_hotkey.clone(),
            quick_error: clone_optional(&self.quick_error),
            capture: self.capture,
            preview: self.preview.clone(),
            query: clone_field(&self.query),
            search_focus: self.search_focus,
            visible: self.keymap_visible_editable(rows),
            readonly_visible: self.keymap_visible_readonly(readonly),
            clash_rows,
            clash_note,
        }
    }
}

/// The sync form as the page shows it.
#[derive(Debug)]
pub struct SyncView {
    pub inputs: Vec<Vec<char>>,
    pub focus: Option<usize>,
    pub auto_pull: bool,
    pub password_set: bool,
    pub passphrase_set: bool,
    pub status: Option<(String, bool)>,
    pub busy: bool,
}

impl SyncState {
    pub open spec fn seen(self, v: SyncView) -> bool {
        &&& slot_texts(v.inputs@) == slot_texts(self.inputs@)
        &&& v.focus == self.focus
        &&& v.auto_pull == self.auto_pull
        &&& v.password_set == self.password_set
        &&& v.passphrase_set == self.passphrase_set
        &&& v.status == self.status
        &&& v.busy == self.busy
    }

    pub fn view(&self) -> (v: SyncView)
        ensures
            self.seen(v),
    {
        SyncView {
            inputs: clone_slots(&self.inputs),
            focus: self.focus,
            auto_pull: self.auto_pull,
            password_set: self.password_set,
            passphrase_set: self.passphrase_set,
            status: clone_status(&self.status),
            busy: self.busy,
        }
    }
}

/// The network page as it is shown.
#[derive(Debug)]
pub struct ProxyView {
    pub mode: ProxyMode,
    pub choice: ProxyChoice,
    pub protocol: ManualProxyProtocol,
    pub address: String,
    pub no_proxy: String,
    pub command: String,
    pub fields: Vec<TextField>,
    pub focus: Option<usize>,
    pub found: Vec<String>,
    pub scanning: bool,
    pub test_status: ProxyTestStatus,
    pub system: Option<(String, bool)>,
}

impl ProxyState {
    /// An address is shown for a manual proxy only: what stands for a jump or a command
    /// is no address.
    pub open spec fn seen(self, v: ProxyView, address: Seq<char>, command: Seq<char>) -> bool {
        &&& v.mode == self.mode
        &&& v.choice == self.choice
        &&& v.protocol == self.protocol
        &&& v.address@ == (if self.choice is Manual {
            address
        } else {
            Seq::<char>::empty()
        })
        &&& v.no_proxy == self.no_proxy
        &&& v.command@ == command
        &&& same_fields(v.fields@, self.fields@)
        &&& v.focus == self.focus
        &&& v.found@ == self.found@
        &&& v.scanning == self.scanning
        &&& v.test_status == self.test_status
        &&& v.system == self.system
    }

    /// `address` and `command` are what the stored address holds of either.
    pub fn view(&self, address: &str, command: &str) -> (v: ProxyView)
        ensures
            self.seen(v, address@, command@),
    {
        ProxyView {
            mode: self.mode,
            choice: self.choice,
            protocol: self.protocol,
            address: self.manual_address(address),
            no_proxy: self.no_proxy.clone(),
            command: command.to_owned(),
            fields: clone_fields(&self.fields),
            focus: self.focus,
            found: clone_texts(&self.found),
            scanning: self.scanning,
            test_status: self.test_status,
            system: clone_status(&self.system),
        }
    }
}

/// The backup form as the page shows it.
#[derive(Debug)]
pub struct BackupView {
    pub selection: BackupSelection,
    pub status: Option<(String, bool)>,
    pub status_remote: bool,
    pub protocol: BackupProtocol,
    pub inputs: Vec<Vec<char>>,
    pub focus: Option<usize>,
    pub secret_set: bool,
    pub busy: bool,
}

impl BackupState {
    pub open spec fn seen(self, v: BackupView) -> bool {
        &&& v.selection == self.selection
        &&& v.status == self.status
        &&& v.status_remote == self.status_remote
        &&& v.protocol == self.target.protocol
        &&& slot_texts(v.inputs@) == slot_texts(self.inputs@)
        &&& v.focus == self.focus
        &&& v.secret_set == self.secret_set
        &&& v.busy == self.busy
    }

    pub fn view(&self) -> (v: BackupView)
        ensures
            self.seen(v),
    {
        BackupView {
            selection: self.selection,
            status: clone_status(&self.status),
            status_remote: self.status_remote,
            protocol: self.target.protocol,
            inputs: clone_slots(&self.inputs),
            focus: self.focus,
            secret_set: self.secret_set,
            busy: self.busy,
        }
    }
}

/// The text color of the live preview: dark on a light background, light on a dark one.
pub open spec fn preview_ink(light: bool) -> Rgb {
    if light {
        Rgb { r: 40, g: 44, b: 52 }
    } else {
        Rgb { r: 225, g: 228, b: 240 }
    }
}

fn preview_fg(light: bool) -> (c: Rgb)
    ensures
        c == preview_ink(light),
{
    if light {
        Rgb { r: 40, g: 44, b: 52 }
    } else {
        Rgb { r: 225, g: 228, b: 240 }
    }
}

/// Everything that the settings page draws.
#[derive(Debug)]
pub struct SettingsView {
    pub language_preference: u8,
    pub language: UiLanguage,
    pub page: PageState,
    pub theme: NebulaTheme,
    pub follow_system_theme: bool,
    pub background: Option<Rgb>,
    pub preview_bg: Rgb,
    pub preview_fg: Rgb,
    pub switches: Switches,
    pub choices: Choices,
    pub shell: ShellView,
    pub providers: ProviderView,
    pub font: FontView,
    pub hidden_hosts: Vec<String>,
    pub hosts: Vec<SshSettingsHost>,
    pub opacity: Px,
    pub dragging_opacity: Option<SettingsOpacityTarget>,
    pub background_image: Option<String>,
    pub background_image_opacity: Px,
    pub hex_input: Vec<char>,
    pub hex_active: bool,
    pub keymap: KeymapView,
    pub sync: SyncView,
    pub proxy: ProxyView,
    pub backup: BackupView,
}

/// What only the surroundings know for the picture: names of shells, marks of hosts, the
/// rows of the key bindings, what the proxy address holds, and whether the preview stands
/// on a light background.
#[derive(Debug)]
pub struct ViewInput {
    pub shell: ShellNames,
    pub labels: Vec<HostMark>,
    pub icons: Vec<HostMark>,
    pub default_icon: String,
    pub rows: Vec<KeymapRow>,
    pub readonly: Vec<KeymapRow>,
    pub proxy_address: String,
    pub proxy_command: String,
    pub light_preview: bool,
}

impl LookState {
    /// Whether the picture shows this look.
    pub open spec fn seen(self, v: SettingsView) -> bool {
        &&& v.opacity == self.opacity
        &&& v.dragging_opacity == match self.drag {
            Some(d) => Some(d.target),
            None => None,
        }
        &&& v.background_image == self.image
        &&& v.background_image_opacity == self.image_opacity
    }
}

impl Display {
    /// Whether `v` is the picture of this window's settings.
    pub open spec fn settings_seen(self, v: SettingsView, input: ViewInput) -> bool {
        &&& v.language_preference == self.language_preference
        &&& v.language == self.language
        &&& v.page == self.ui.page
        &&& v.theme == self.theme.theme
        &&& v.follow_system_theme == self.theme.follow_system
        &&& v.background == self.theme.background
        &&& v.preview_bg == match self.theme.background {
            Some(c) => c,
            None => self.theme.theme.term_bg,
        }
        &&& v.preview_fg == preview_ink(input.light_preview)
        &&& v.switches == self.switches
        &&& v.choices == self.choices
        &&& self.shells.seen(v.shell, input.shell)
        &&& self.providers.seen(v.providers)
        &&& self.ui.font.seen(v.font)
        &&& v.hidden_hosts@ == self.hosts.hidden@
        &&& v.hosts@.len() == self.hosts.listed@.len()
        &&& forall|i: int|
            0 <= i < v.hosts@.len() ==> shows_host(
                #[trigger] v.hosts@[i],
                self.hosts.listed@[i],
                input.labels@,
                input.icons@,
                input.default_icon@,
                self.hosts.pinned@,
            )
        &&& self.look.seen(v)
        &&& v.hex_input@ == self.ui.color.hex@
        &&& v.hex_active == self.ui.color.hex_active
        &&& self.keymap.seen(v.keymap, input.rows@, input.readonly@, self.language)
        &&& self.sync.seen(v.sync)
        &&& self.proxy.seen(v.proxy, input.proxy_address@, input.proxy_command@)
        &&& self.backup.seen(v.backup)
    }

    /// Takes the picture that the settings page draws.
    pub fn settings_view(&self, input: &ViewInput) -> (v: SettingsView)
        ensures
            self.settings_seen(v, *input),
    {
        let dragging_opacity: Option<SettingsOpacityTarget> = match self.look.drag {
            Some(d) => Some(d.target),
            None => None,
        };
        let shell = self.shells.view(&input.shell);
        let providers = self.providers.view();
        let font = self.ui.font.view();
        let hosts = self.hosts.host_rows(&input.labels, &input.icons, input.default_icon.as_str());
        let keymap = self.keymap.view(&input.rows, &input.readonly, self.language);
        let sync = self.sync.view();
        let proxy = self.proxy.view(input.proxy_address.as_str(), input.proxy_command.as_str());
        let backup = self.backup.view();
        SettingsView {
            language_preference: self.language_preference,
            language: self.language,
            page: self.ui.page,
            theme: self.theme.theme,
            follow_system_theme: self.theme.follow_system,
            background: self.theme.background,
            preview_bg: self.theme.preview_terminal_bg(),
            preview_fg: preview_fg(input.light_preview),
            switches: self.switches,
            choices: self.choices,
            shell,
            providers,
            font,
            hidden_hosts: clone_texts(&self.hosts.hidden),
            hosts,
            opacity: self.look.opacity,
            dragging_opacity,
            background_image: clone_optional(&self.look.image),
            background_image_opacity: self.look.image_opacity,
            hex_input: copy_chars(&self.ui.color.hex),
            hex_active: self.ui.color.hex_active,
            keymap,
            sync,
            proxy,
            backup,
        }
    }
}

/// The last mark of a host is the one that counts; a host without one has the default.
pub proof fn last_mark_counts(marks: Seq<HostMark>, host: Seq<char>, default: Seq<char>)
    ensures
        (forall|j: int| 0 <= j < marks.len() ==> (#[trigger] marks[j]).host@ != host) ==> mark_of(
            marks,
            host,
            default,
        ) == default,
        forall|i: int|
            0 <= i < marks.len() && (#[trigger] marks[i]).host@ == host && (forall|j: int|
                i < j < marks.len() ==> (#[trigger] marks[j]).host@ != host) ==> mark_of(
                marks,
                host,
                default,
            ) == marks[i].mark@,
    decreases marks.len(),
{
    if marks.len() > 0 {
        let front = marks.drop_last();
        last_mark_counts(front, host, default);
        assert forall|j: int| 0 <= j < front.len() implies front[j] == #[trigger] marks[j] by {}
        if marks.last().host@ != host {
            assert forall|i: int|
                0 <= i < marks.len() && (#[trigger] marks[i]).host@ == host && (forall|j: int|
                    i < j < marks.len() ==> (#[trigger] marks[j]).host@ != host) implies mark_of(
                marks,
                host,
                default,
            ) == marks[i].mark@ by {
                assert(front[i].host@ == host);
            }
        }
    }
}

/// The sample text is dark on light and light on dark.
pub proof fn sample_text_can_be_read()
    ensures
        !crate::logos::is_light_ink(preview_ink(true)),
        crate::logos::is_light_ink(preview_ink(false)),
        preview_ink(true) == (Rgb { r: 40, g: 44, b: 52 }),
        preview_ink(false) == (Rgb { r: 225, g: 228, b: 240 }),
{
}

/// A row for a host shows its own name where it has no label, and is pinned exactly where
/// the host is.
pub proof fn host_rows_show_their_host(
    row: SshSettingsHost,
    host: String,
    labels: Seq<HostMark>,
    icons: Seq<HostMark>,
    default_icon: Seq<char>,
    pinned: Seq<String>,
)
    requires
        shows_host(row, host, labels, icons, default_icon, pinned),
    ensures
        row.destination == host,
        (forall|j: int| 0 <= j < labels.len() ==> (#[trigger] labels[j]).host@ != host@)
            ==> row.label@ == host@,
        (forall|j: int| 0 <= j < icons.len() ==> (#[trigger] icons[j]).host@ != host@)
            ==> row.icon@ == default_icon,
        row.pinned <==> exists|j: int| 0 <= j < pinned.len() && (#[trigger] pinned[j])@ == host@,
{
    last_mark_counts(labels, host@, host@);
    last_mark_counts(icons, host@, default_icon);
    let t = texts(pinned);
    if t.contains(host@) {
        let j = choose|j: int| 0 <= j < t.len() && t[j] == host@;
        assert(pinned[j]@ == host@);
    }
    if exists|j: int| 0 <= j < pinned.len() && (#[trigger] pinned[j])@ == host@ {
        let j = choose|j: int| 0 <= j < pinned.len() && (#[trigger] pinned[j])@ == host@;
        assert(t[j] == host@);
    }
}

/// The settings show what the window has: its theme, background, switches, hosts, fields and
/// fonts, each as it is.
pub proof fn settings_show_the_window(d: Display, v: SettingsView, input: ViewInput)
    requires
        d.settings_seen(v, input),
    ensures
        v.theme == d.theme.theme && v.follow_system_theme == d.theme.follow_system,
        d.theme.background is Some ==> Some(v.preview_bg) == d.theme.background,
        d.theme.background is None ==> v.preview_bg == d.theme.theme.term_bg,
        v.switches == d.switches && v.choices == d.choices && v.page == d.ui.page,
        v.opacity == d.look.opacity && v.background_image == d.look.image,
        v.dragging_opacity is Some <==> d.look.drag is Some,
        v.hidden_hosts@ == d.hosts.hidden@ && v.hosts@.len() == d.hosts.listed@.len(),
        forall|i: int| 0 <= i < v.hosts@.len() ==> (#[trigger] v.hosts@[i]).destination
            == d.hosts.listed@[i],
        v.font.family == d.ui.font.family && v.font.query.text@ == d.ui.font.query.text@
            && v.font.query.caret == d.ui.font.query.caret && v.font.families@
            == d.ui.font.families@,
        v.proxy.mode == d.proxy.mode && v.proxy.no_proxy == d.proxy.no_proxy && v.proxy.found@
            == d.proxy.found@ && v.proxy.command@ == input.proxy_command@,
        d.proxy.choice is Manual ==> v.proxy.address@ == input.proxy_address@,
        !(d.proxy.choice is Manual) ==> v.proxy.address@.len() == 0,
        v.backup.selection == d.backup.selection && v.backup.protocol == d.backup.target.protocol,
        v.sync.auto_pull == d.sync.auto_pull && v.sync.busy == d.sync.busy,
        v.keymap.quick_hotkey == d.keymap.quick_hotkey && v.keymap.capture == d.keymap.capture,
        v.hex_input@ == d.ui.color.hex@,
        v.providers.list@ == d.providers.list@ && v.providers.active_id == d.providers.active_id,
{
}

} // verus!
