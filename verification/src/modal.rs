//! What the confirmation card and the bars at the bottom of the window say.
use crate::backup::BackupState;
use crate::cells::{wrap_display_cols, wrapped};
use crate::lang::UiLanguage;
use crate::text::{
    concat2, concat3, decimal, decimal_text, ink_cells, ink_cols, repeat_char, repeated, slot_cells,
    slot_cols, text_of, texts,
};
use vstd::prelude::*;

verus! {

/// A question that the user has to answer before something happens.
#[derive(Debug)]
pub enum NebulaConfirm {
    EnableBackgroundImageCoverChrome,
    EnablePanelResize,
    InstallRequiredFont { directory: String },
    ClosePane { process: String },
    CloseTab { process: String },
    CloseWindow { process: String },
    Paste { lines: usize },
    DeleteSsh { host: String, from_config: bool },
    DeleteSftp { name: String, is_dir: bool },
    DeleteFileTreePath { path: String, is_dir: bool },
    BackupPassphrase { restoring: bool },
}

/// Title and body of a card, and whether its primary button warns.
#[derive(Debug)]
pub struct ConfirmText {
    pub title: String,
    pub body: String,
    pub danger: bool,
}

/// The length that a name on a card or in the undo bar is cut to at most.
pub const LABEL_MAX: usize = 28;

impl NebulaConfirm {
    /// The name that the title holds once it was cut to `LABEL_MAX`: the host, the
    /// remote entry, or the last part of the path, `file_name`, and the whole path where it
    /// has none.
    pub open spec fn named(self, file_name: Option<Seq<char>>) -> Option<Seq<char>> {
        match self {
            NebulaConfirm::DeleteSsh { host, .. } => Some(host@),
            NebulaConfirm::DeleteSftp { name, .. } => Some(name@),
            NebulaConfirm::DeleteFileTreePath { path, .. } => match file_name {
                Some(n) => Some(n),
                None => Some(path@),
            },
            _ => None,
        }
    }

    /// The name that has to be cut to `LABEL_MAX` for the title; none where the
    /// title holds no name.
    pub fn label_source(&self, file_name: Option<&str>) -> (r: Option<String>)
        ensures
            ({
                let named = self.named(
                    match file_name {
                        Some(n) => Some(n@),
                        None => None,
                    },
                );
                &&& r is Some <==> named is Some
                &&& r matches Some(s) ==> named == Some(s@)
            }),
    {
        match self {
            NebulaConfirm::DeleteSsh { host, .. } => Some(host.clone()),
            NebulaConfirm::DeleteSftp { name, .. } => Some(name.clone()),
            NebulaConfirm::DeleteFileTreePath { path, .. } => match file_name {
                Some(n) => Some(n.to_owned()),
                None => Some(path.clone()),
            },
            _ => None,
        }
    }

    /// Whether this is the card with the passphrase field.
    pub open spec fn asks_passphrase(self) -> bool {
        self is BackupPassphrase
    }

    /// The title. `label` is the name of the thing to delete, cut for display.
    pub open spec fn title_text(self, label: Seq<char>) -> Seq<char> {
        match self {
            NebulaConfirm::EnableBackgroundImageCoverChrome => "让背景图覆盖窗口控件区域？"@,
            NebulaConfirm::EnablePanelResize => "开启侧栏拖拽调节？"@,
            NebulaConfirm::InstallRequiredFont { .. } => "建议安装终端字体"@,
            NebulaConfirm::ClosePane { .. } => "关闭此分栏？"@,
            NebulaConfirm::CloseTab { .. } => "关闭此标签页？"@,
            NebulaConfirm::CloseWindow { .. } => "关闭整个窗口？"@,
            NebulaConfirm::Paste { lines } => "粘贴 "@ + decimal_text(lines as nat) + " 行文本？"@,
            NebulaConfirm::DeleteSsh { from_config, .. } => if from_config {
                "隐藏 SSH 主机 "@ + label + "？"@
            } else {
                "删除 SSH 主机 "@ + label + "？"@
            },
            NebulaConfirm::DeleteSftp { .. } => "删除远端项目 "@ + label + "？"@,
            NebulaConfirm::DeleteFileTreePath { .. } => "删除 "@ + label + "？"@,
            NebulaConfirm::BackupPassphrase { restoring } => if restoring {
                "输入恢复口令"@
            } else {
                "设置备份口令"@
            },
        }
    }

    /// The body before any error is added.
    pub open spec fn body_text(self) -> Seq<char> {
        match self {
            NebulaConfirm::EnableBackgroundImageCoverChrome => "背景图会延伸到标题栏、窗口按钮、Tab 与 SSH 侧栏下方，低对比度图片可能影响操作可见性；界面仍会保留最低不透明度保护。"@,
            NebulaConfirm::EnablePanelResize => "拖动左侧栏或右侧抽屉的宽度时，终端内容会跟随实时重排；在低性能设备或超大回滚缓冲下可能出现掉帧。拖动已按帧率与列宽双重节流，把左侧栏一路拖到最左即可收起。宽度会保存，此功能可随时关闭。"@,
            NebulaConfirm::InstallRequiredFont { .. } => "未检测到 Maple Mono Nerd Font；缺少图标时可安装后重启 Nebula。"@,
            NebulaConfirm::ClosePane { process } => process@ + " 仍在运行，关闭会中止它。"@,
            NebulaConfirm::CloseTab { process } => process@ + " 仍在运行，关闭会中止它。"@,
            NebulaConfirm::CloseWindow { process } => process@ + " 仍在运行，关闭会中止它。"@,
            NebulaConfirm::Paste { .. } => "多行粘贴会被 shell 逐行执行，请确认来源可信。"@,
            NebulaConfirm::DeleteSsh { from_config, .. } => if from_config {
                "只从 Nebula 隐藏；~/.ssh/config 不会修改，保存的密码将在撤销期后清除。"@
            } else {
                "会从主机列表移除，保存的 Windows 密码将在撤销期后清除。"@
            },
            NebulaConfirm::DeleteSftp { is_dir, .. } => if is_dir {
                "文件夹及其全部远端内容会被递归删除，此操作无法撤销。"@
            } else {
                "远端文件会被永久删除，此操作无法撤销。"@
            },
            NebulaConfirm::DeleteFileTreePath { is_dir, .. } => if is_dir {
                "文件夹及其全部内容会移入回收站。"@
            } else {
                "文件会移入回收站。"@
            },
            NebulaConfirm::BackupPassphrase { restoring } => if restoring {
                "输入导出时使用的口令；认证通过后才会写入任何文件。"@
            } else {
                "口令至少 8 个字符。Nebula 不会保存口令，丢失后无法恢复此备份。"@
            },
        }
    }

    /// Whether the answer destroys something.
    pub open spec fn is_danger(self) -> bool {
        match self {
            NebulaConfirm::ClosePane { .. } => true,
            NebulaConfirm::CloseTab { .. } => true,
            NebulaConfirm::CloseWindow { .. } => true,
            NebulaConfirm::DeleteSsh { .. } => true,
            NebulaConfirm::DeleteSftp { .. } => true,
            NebulaConfirm::DeleteFileTreePath { .. } => true,
            _ => false,
        }
    }

    /// Every question can be answered with a refusal.
    pub fn can_dismiss(&self) -> (r: bool)
        ensures
            r,
    {
        true
    }

    fn title(&self, label: &str) -> (s: String)
        ensures
            s@ == self.title_text(label@),
    {
        match self {
            NebulaConfirm::EnableBackgroundImageCoverChrome => "让背景图覆盖窗口控件区域？".to_owned(),
            NebulaConfirm::EnablePanelResize => "开启侧栏拖拽调节？".to_owned(),
            NebulaConfirm::InstallRequiredFont { .. } => "建议安装终端字体".to_owned(),
            NebulaConfirm::ClosePane { .. } => "关闭此分栏？".to_owned(),
            NebulaConfirm::CloseTab { .. } => "关闭此标签页？".to_owned(),
            NebulaConfirm::CloseWindow { .. } => "关闭整个窗口？".to_owned(),
            NebulaConfirm::Paste { lines } => concat3("粘贴 ", decimal(*lines as u64).as_str(), " 行文本？"),
            NebulaConfirm::DeleteSsh { from_config, .. } => if *from_config {
                concat3("隐藏 SSH 主机 ", label, "？")
            } else {
                concat3("删除 SSH 主机 ", label, "？")
            },
            NebulaConfirm::DeleteSftp { .. } => concat3("删除远端项目 ", label, "？"),
            NebulaConfirm::DeleteFileTreePath { .. } => concat3("删除 ", label, "？"),
            NebulaConfirm::BackupPassphrase { restoring } => if *restoring {
                "输入恢复口令".to_owned()
            } else {
                "设置备份口令".to_owned()
            },
        }
    }

    fn body(&self) -> (s: String)
        ensures
            s@ == self.body_text(),
    {
        match self {
            NebulaConfirm::EnableBackgroundImageCoverChrome => "背景图会延伸到标题栏、窗口按钮、Tab 与 SSH 侧栏下方，低对比度图片可能影响操作可见性；界面仍会保留最低不透明度保护。".to_owned(),
            NebulaConfirm::EnablePanelResize => "拖动左侧栏或右侧抽屉的宽度时，终端内容会跟随实时重排；在低性能设备或超大回滚缓冲下可能出现掉帧。拖动已按帧率与列宽双重节流，把左侧栏一路拖到最左即可收起。宽度会保存，此功能可随时关闭。".to_owned(),
            NebulaConfirm::InstallRequiredFont { .. } => "未检测到 Maple Mono Nerd Font；缺少图标时可安装后重启 Nebula。".to_owned(),
            NebulaConfirm::ClosePane { process } => concat2(process.as_str(), " 仍在运行，关闭会中止它。"),
            NebulaConfirm::CloseTab { process } => concat2(process.as_str(), " 仍在运行，关闭会中止它。"),
            NebulaConfirm::CloseWindow { process } => concat2(process.as_str(), " 仍在运行，关闭会中止它。"),
            NebulaConfirm::Paste { .. } => "多行粘贴会被 shell 逐行执行，请确认来源可信。".to_owned(),
            NebulaConfirm::DeleteSsh { from_config, .. } => if *from_config {
                "只从 Nebula 隐藏；~/.ssh/config 不会修改，保存的密码将在撤销期后清除。".to_owned()
            } else {
                "会从主机列表移除，保存的 Windows 密码将在撤销期后清除。".to_owned()
            },
            NebulaConfirm::DeleteSftp { is_dir, .. } => if *is_dir {
                "文件夹及其全部远端内容会被递归删除，此操作无法撤销。".to_owned()
            } else {
                "远端文件会被永久删除，此操作无法撤销。".to_owned()
            },
            NebulaConfirm::DeleteFileTreePath { is_dir, .. } => if *is_dir {
                "文件夹及其全部内容会移入回收站。".to_owned()
            } else {
                "文件会移入回收站。".to_owned()
            },
            NebulaConfirm::BackupPassphrase { restoring } => if *restoring {
                "输入导出时使用的口令；认证通过后才会写入任何文件。".to_owned()
            } else {
                "口令至少 8 个字符。Nebula 不会保存口令，丢失后无法恢复此备份。".to_owned()
            },
        }
    }

    /// What the card says. The passphrase card adds the message of a failed attempt.
    pub fn text(&self, label: &str, backup_status: &Option<(String, bool)>) -> (t: ConfirmText)
        ensures
            t.title@ == self.title_text(label@),
            t.danger == self.is_danger(),
            t.body@ == (match backup_status {
                Some((message, true)) if self.asks_passphrase() => self.body_text() + " "@
                    + message@,
                _ => self.body_text(),
            }),
    {
        let title = self.title(label);
        let danger: bool = match self {
            NebulaConfirm::ClosePane { .. } => true,
            NebulaConfirm::CloseTab { .. } => true,
            NebulaConfirm::CloseWindow { .. } => true,
            NebulaConfirm::DeleteSsh { .. } => true,
            NebulaConfirm::DeleteSftp { .. } => true,
            NebulaConfirm::DeleteFileTreePath { .. } => true,
            _ => false,
        };
        let body = self.body();
        let passphrase: bool = match self {
            NebulaConfirm::BackupPassphrase { .. } => true,
            _ => false,
        };
        let body = match backup_status {
            Some((message, failed)) => if passphrase && *failed {
                concat3(body.as_str(), " ", message.as_str())
            } else {
                body
            },
            None => body,
        };
        ConfirmText { title, body, danger }
    }
}

/// The body of a card over lines of `inner_cols` columns, but no fewer than eight.
pub fn confirm_body_lines(body: &str, inner_cols: usize) -> (lines: Vec<String>)
    ensures
        texts(lines@) == wrapped(body@, if inner_cols < 8 {
            8
        } else {
            inner_cols as nat
        }),
{
    wrap_display_cols(
        body,
        if inner_cols < 8 {
            8
        } else {
            inner_cols
        },
    )
}

/// The text in the passphrase field and whether it is only the placeholder.
pub open spec fn masked_text(count: nat, max_cols: nat, language: UiLanguage) -> (Seq<char>, bool) {
    if count == 0 {
        (language.picked("输入口令"@, "Passphrase"@), true)
    } else if count > max_cols {
        (seq!['…'] + repeated('•', (max_cols - 1) as nat), false)
    } else {
        (repeated('•', count), false)
    }
}

/// What the passphrase field shows: one dot for each character, cut at the left edge
/// by an ellipsis where the field has fewer columns.
pub fn masked_passphrase(passphrase: &str, field_cols: usize, language: UiLanguage) -> (r: (
    String,
    bool,
))
    ensures
        (r.0@, r.1) == masked_text(
            passphrase@.len(),
            if field_cols < 1 {
                1
            } else {
                field_cols as nat
            },
            language,
        ),
{
    let max_cols: usize = if field_cols < 1 {
        1
    } else {
        field_cols
    };
    let count: usize = passphrase.unicode_len();
    if count == 0 {
        (language.pick("输入口令", "Passphrase").to_owned(), true)
    } else if count > max_cols {
        let mut s = String::new();
        s.push('…');
        let dots = repeat_char('•', max_cols - 1);
        s.append(dots.as_str());
        proof {
            assert(s@ =~= seq!['…'] + repeated('•', (max_cols - 1) as nat));
        }
        (s, false)
    } else {
        (repeat_char('•', count), false)
    }
}

/// A field that shows a passphrase never takes more columns than it has, and never
/// shows a character of the passphrase.
pub proof fn masked_text_hides(count: nat, max_cols: nat, language: UiLanguage)
    requires
        count > 0,
        max_cols >= 1,
    ensures
        masked_text(count, max_cols, language).0.len() <= max_cols,
        forall|i: int|
            0 <= i < masked_text(count, max_cols, language).0.len() ==> #[trigger] masked_text(
                count,
                max_cols,
                language,
            ).0[i] == '•' || masked_text(count, max_cols, language).0[i] == '…',
{
}

/// The keys that answer a card, as its buttons show them.
pub const CONFIRM_KEY: &'static str = "Enter";

pub const DISMISS_KEY: &'static str = "Esc";

/// The label of the button that agrees.
pub open spec fn agree_label(language: UiLanguage) -> Seq<char> {
    language.picked("是"@, "Yes"@)
}

/// The label of the button that refuses.
pub open spec fn refuse_label(language: UiLanguage) -> Seq<char> {
    language.picked("否"@, "No"@)
}

/// Columns of the head of a card: its title, and label and key of either button.
#[derive(Clone, Copy, Debug, PartialEq, Eq, Structural)]
pub struct ConfirmHead {
    pub title_cols: usize,
    pub primary_cols: usize,
    pub cancel_cols: usize,
}

/// Measures what a card is at least as wide as.
pub fn confirm_head(title: &str, language: UiLanguage) -> (h: ConfirmHead)
    requires
        3 * title@.len() <= usize::MAX,
    ensures
        h.title_cols == ink_cells(title@),
        h.primary_cols == ink_cells(agree_label(language)) + ink_cells(CONFIRM_KEY@),
        h.cancel_cols == ink_cells(refuse_label(language)) + ink_cells(DISMISS_KEY@),
{
    proof {
        reveal_strlit("是");
        reveal_strlit("Yes");
        reveal_strlit("否");
        reveal_strlit("No");
        reveal_strlit("Enter");
        reveal_strlit("Esc");
    }
    ConfirmHead {
        title_cols: ink_cols(title),
        primary_cols: ink_cols(language.pick("是", "Yes")) + ink_cols(CONFIRM_KEY),
        cancel_cols: ink_cols(language.pick("否", "No")) + ink_cols(DISMISS_KEY),
    }
}

/// The passphrase field of a card: what it shows, whether that is only the placeholder,
/// and how many columns of it are selected.
#[derive(Debug)]
pub struct ConfirmField {
    pub shown: String,
    pub placeholder: bool,
    pub selected_cols: Option<usize>,
}

/// A card as it is drawn.
#[derive(Debug)]
pub struct ConfirmPlan {
    pub title: String,
    pub lines: Vec<String>,
    pub danger: bool,
    pub primary_label: String,
    pub cancel_label: String,
    pub field: Option<ConfirmField>,
}

/// The number, or the least one where it is below that.
pub open spec fn at_least(n: usize, least: nat) -> nat {
    if n < least {
        least
    } else {
        n as nat
    }
}

impl ConfirmField {
    /// Whether this is the field for the passphrase typed so far.
    pub open spec fn shows(self, backup: BackupState, cols: usize, language: UiLanguage) -> bool {
        let count = backup.passphrase@.len();
        &&& (self.shown@, self.placeholder) == masked_text(count, at_least(cols, 1), language)
        &&& self.selected_cols == (if backup.passphrase_selected && count > 0 {
            Some(count as usize)
        } else {
            None
        })
    }
}

impl ConfirmPlan {
    /// Whether this is how the question is put.
    pub open spec fn asks(
        self,
        confirm: NebulaConfirm,
        label: Seq<char>,
        backup: BackupState,
        language: UiLanguage,
        inner_cols: usize,
        field_cols: usize,
    ) -> bool {
        let body = match backup.status {
            Some((message, true)) if confirm.asks_passphrase() => confirm.body_text() + " "@
                + message@,
            _ => confirm.body_text(),
        };
        &&& self.title@ == confirm.title_text(label)
        &&& texts(self.lines@) == wrapped(body, at_least(inner_cols, 8))
        &&& self.danger == confirm.is_danger()
        &&& self.primary_label@ == agree_label(language)
        &&& self.cancel_label@ == refuse_label(language)
        &&& self.field is Some <==> confirm.asks_passphrase()
        &&& self.field matches Some(f) ==> f.shows(backup, field_cols, language)
    }
}

/// Puts a question onto its card, with lines of `inner_cols` columns and a field of
/// `field_cols`; nothing where there is no question. `label` is what `label_source`
/// gives, cut to `LABEL_MAX`.
pub fn draw_confirm_modal(
    confirm: &Option<NebulaConfirm>,
    label: &str,
    backup: &BackupState,
    language: UiLanguage,
    inner_cols: usize,
    field_cols: usize,
) -> (r: Option<ConfirmPlan>)
    ensures
        r is Some <==> confirm is Some,
        r matches Some(p) ==> p.asks(
            confirm->0,
            label@,
            *backup,
            language,
            inner_cols,
            field_cols,
        ),
{
    match confirm {
        None => None,
        Some(c) => {
            let text = c.text(label, &backup.status);
            let field = match c {
                NebulaConfirm::BackupPassphrase { .. } => {
                    let typed = text_of(&backup.passphrase);
                    let (shown, placeholder) = masked_passphrase(
                        typed.as_str(),
                        field_cols,
                        language,
                    );
                    let count: usize = backup.passphrase.len();
                    Some(
                        ConfirmField {
                            shown,
                            placeholder,
                            selected_cols: if backup.passphrase_selected && count > 0 {
                                Some(count)
                            } else {
                                None
                            },
                        },
                    )
                },
                _ => None,
            };
            Some(
                ConfirmPlan {
                    title: text.title,
                    lines: confirm_body_lines(text.body.as_str(), inner_cols),
                    danger: text.danger,
                    primary_label: language.pick("是", "Yes").to_owned(),
                    cancel_label: language.pick("否", "No").to_owned(),
                    field,
                },
            )
        },
    }
}

/// A proposed command for the one that failed.
#[derive(Debug)]
pub enum AiFixState {
    Pending,
    Ready { command: String, explain: String, danger: bool },
}

/// The parts of the suggestion bar before they are cut to the window.
#[derive(Debug)]
pub struct AiFixParts {
    pub icon: char,
    pub danger: bool,
    pub command: String,
    pub explain: String,
    pub hint: String,
}

/// The suggestion bar as it is drawn.
#[derive(Debug)]
pub struct AiFixBar {
    pub explain: String,
    pub explain_label: String,
    pub content_cols: usize,
}

/// What the suggestion bar says, or nothing while the undo bar is up or there is no
/// suggestion.
pub fn ai_fix_parts(undo_shown: bool, state: &Option<AiFixState>, language: UiLanguage) -> (r:
    Option<AiFixParts>)
    ensures
        r is Some <==> !undo_shown && state is Some,
        r matches Some(p) ==> match state->0 {
            AiFixState::Pending => {
                &&& p.icon == '✦'
                &&& !p.danger
                &&& p.command@ == language.picked("正在分析失败原因…"@, "Analyzing failure…"@)
                &&& p.explain@.len() == 0
                &&& p.hint@.len() == 0
            },
            AiFixState::Ready { command, explain, danger } => {
                &&& p.icon == (if danger {
                    '⚠'
                } else {
                    '✦'
                })
                &&& p.danger == danger
                &&& p.command@ == command@
                &&& p.explain@ == explain@
                &&& p.hint@ == language.picked(
                    "Ctrl+. 贴入 · Esc 关闭"@,
                    "Ctrl+. paste · Esc dismiss"@,
                )
            },
        },
{
    if undo_shown {
        return None;
    }
    match state {
        None => None,
        Some(AiFixState::Pending) => Some(
            AiFixParts {
                icon: '✦',
                danger: false,
                command: language.pick("正在分析失败原因…", "Analyzing failure…").to_owned(),
                explain: String::new(),
                hint: String::new(),
            },
        ),
        Some(AiFixState::Ready { command, explain, danger }) => Some(
            AiFixParts {
                icon: if *danger {
                    '⚠'
                } else {
                    '✦'
                },
                danger: *danger,
                command: command.clone(),
                explain: explain.clone(),
                hint: language.pick(
                    "Ctrl+. 贴入 · Esc 关闭",
                    "Ctrl+. paste · Esc dismiss",
                ).to_owned(),
            },
        ),
    }
}

/// Columns for the command: what the window leaves, at least twelve; and the length
/// that it is cut to, at most ninety-six.
pub fn ai_fix_command_budget(free_cols: usize) -> (r: (usize, usize))
    ensures
        r.0 == (if free_cols < 12 {
            12
        } else {
            free_cols
        }),
        r.1 == (if r.0 > 96 {
            96
        } else {
            r.0
        }),
{
    let budget: usize = if free_cols < 12 {
        12
    } else {
        free_cols
    };
    (
        budget,
        if budget > 96 {
            96
        } else {
            budget
        },
    )
}

pub open spec fn less(a: int, b: int) -> int {
    if a > b {
        a - b
    } else {
        0
    }
}

/// Columns left for the explanation beside a command of `command_cols` columns.
pub open spec fn explain_budget(budget: int, command_cols: int) -> int {
    let free = less(less(budget, command_cols), 3);
    if free > 60 {
        60
    } else {
        free
    }
}

/// Whether the explanation is kept.
pub open spec fn explain_kept(budget: int, command: Seq<char>, explain: Seq<char>) -> bool {
    slot_cells(explain) + 8 <= explain_budget(budget, slot_cells(command) as int)
}

/// The columns of the bar's content, paddings left out.
pub open spec fn bar_cols(command: Seq<char>, explain: Seq<char>, hint: Seq<char>) -> nat {
    2 + slot_cells(command) + (if explain.len() > 0 {
        3 + slot_cells(explain)
    } else {
        0
    }) + (if hint.len() > 0 {
        2 + slot_cells(hint)
    } else {
        0
    })
}

/// Fits the suggestion into `budget` columns: the explanation is what goes first.
pub fn draw_ai_fix_bar(budget: usize, command: &str, explain: &str, hint: &str) -> (bar: AiFixBar)
    requires
        3 * (command@.len() + explain@.len() + hint@.len()) + 16 <= usize::MAX,
    ensures
        bar.explain@ == (if explain_kept(budget as int, command@, explain@) {
            explain@
        } else {
            Seq::empty()
        }),
        bar.explain_label@ == (if bar.explain@.len() > 0 {
            "— "@ + bar.explain@
        } else {
            Seq::empty()
        }),
        bar.content_cols == bar_cols(command@, bar.explain@, hint@),
{
    let command_cols: usize = slot_cols(command);
    let free: usize = budget.saturating_sub(command_cols).saturating_sub(3);
    let explain_cols: usize = slot_cols(explain);
    let limit: usize = if free > 60 {
        60
    } else {
        free
    };
    let kept: String = if explain_cols + 8 > limit {
        String::new()
    } else {
        explain.to_owned()
    };
    let mut content_cols: usize = 2 + command_cols;
    let mut explain_label = String::new();
    if !kept.as_str().is_empty() {
        content_cols += 3 + explain_cols;
        explain_label = concat2("— ", kept.as_str());
    }
    if !hint.is_empty() {
        content_cols += 2 + slot_cols(hint);
    }
    AiFixBar { explain: kept, explain_label, content_cols }
}

/// An explanation that is kept never pushes the bar past the columns of the command.
pub proof fn kept_explain_fits(budget: int, command: Seq<char>, explain: Seq<char>)
    requires
        explain_kept(budget, command, explain),
    ensures
        slot_cells(command) + 3 + slot_cells(explain) + 8 <= budget,
{
}

/// The length that a host name in the undo bar is cut to.
pub fn undo_host_budget(free_cols: usize) -> (n: usize)
    ensures
        n == (if free_cols <= 28 {
            8
        } else if free_cols >= 20 + LABEL_MAX {
            LABEL_MAX as int
        } else {
            free_cols - 20
        }),
{
    let budget: usize = free_cols.saturating_sub(20);
    let budget: usize = if budget < 8 {
        8
    } else {
        budget
    };
    if budget > LABEL_MAX {
        LABEL_MAX
    } else {
        budget
    }
}

/// The key that undoes a deletion, as the undo bar names it.
pub const UNDO_KEY: &'static str = "Ctrl+Z";

/// The label of the button that undoes a deletion.
pub const UNDO_ACTION: &'static str = "撤销";

/// The bar that offers to undo a deletion: its message, the key and the button beside it,
/// the columns of message and key, and whether the pointer is over the button.
#[derive(Debug)]
pub struct UndoBar {
    pub message: String,
    pub hint: &'static str,
    pub action: &'static str,
    pub content_cols: usize,
    pub hovered: bool,
}

/// What the undo bar says: a host of the user's configuration is hidden, any other gone.
pub open spec fn undo_text(host: Seq<char>, from_config: bool) -> Seq<char> {
    if from_config {
        "已隐藏 "@ + host + "（SSH config 未修改）"@
    } else {
        "已移除 "@ + host
    }
}

/// The message of the undo bar and the columns of it and of the key beside it.
pub fn undo_message(host: &str, from_config: bool) -> (r: (String, usize))
    requires
        3 * host@.len() + 128 <= usize::MAX,
    ensures
        r.0@ == undo_text(host@, from_config),
        r.1 == slot_cells(r.0@) + slot_cells(UNDO_KEY@) + 2,
{
    proof {
        reveal_strlit("已隐藏 ");
        reveal_strlit("（SSH config 未修改）");
        reveal_strlit("已移除 ");
        reveal_strlit("Ctrl+Z");
        assert(UNDO_KEY@ == "Ctrl+Z"@);
    }
    let message = if from_config {
        concat3("已隐藏 ", host, "（SSH config 未修改）")
    } else {
        concat2("已移除 ", host)
    };
    let cols: usize = slot_cols(message.as_str()) + slot_cols(UNDO_KEY) + 2;
    (message, cols)
}

/// A question names what it is about: the host, the remote file, or the file by its name
/// where the path has one. No other question names anything.
pub proof fn question_names_its_subject(
    host: String,
    from_config: bool,
    name: String,
    path: String,
    is_dir: bool,
    file: Seq<char>,
    q: NebulaConfirm,
)
    ensures
        (NebulaConfirm::DeleteSsh { host, from_config }).named(None) == Some(host@),
        (NebulaConfirm::DeleteSftp { name, is_dir }).named(None) == Some(name@),
        (NebulaConfirm::DeleteFileTreePath { path, is_dir }).named(Some(file)) == Some(file),
        (NebulaConfirm::DeleteFileTreePath { path, is_dir }).named(None) == Some(path@),
        q.named(None) is Some <==> q is DeleteSsh || q is DeleteSftp || q is DeleteFileTreePath,
        q.is_danger() <==> q is ClosePane || q is CloseTab || q is CloseWindow || q.named(
            None,
        ) is Some,
        q.asks_passphrase() <==> q is BackupPassphrase,
{
}

/// Whether one text stands inside another.
pub open spec fn stands_in(part: Seq<char>, s: Seq<char>) -> bool {
    exists|a: Seq<char>, b: Seq<char>| s == #[trigger] (a + part + b)
}

/// The title of a question to delete something shows its label, and that of a paste the
/// number of lines; the text of a question to close something begins with what still runs.
pub proof fn question_shows_its_subject(q: NebulaConfirm, label: Seq<char>)
    ensures
        q.named(None) is Some ==> stands_in(label, q.title_text(label)),
        q matches NebulaConfirm::Paste { lines } ==> stands_in(
            decimal_text(lines as nat),
            q.title_text(label),
        ),
        q matches NebulaConfirm::ClosePane { process } ==> q.body_text().take(
            process@.len() as int,
        ) == process@,
        q matches NebulaConfirm::CloseTab { process } ==> q.body_text().take(process@.len() as int)
            == process@,
        q matches NebulaConfirm::CloseWindow { process } ==> q.body_text().take(
            process@.len() as int,
        ) == process@,
{
    match q {
        NebulaConfirm::DeleteSsh { from_config, .. } => {
            if from_config {
                assert(q.title_text(label) == "隐藏 SSH 主机 "@ + label + "？"@);
            } else {
                assert(q.title_text(label) == "删除 SSH 主机 "@ + label + "？"@);
            }
        },
        NebulaConfirm::DeleteSftp { .. } => {
            assert(q.title_text(label) == "删除远端项目 "@ + label + "？"@);
        },
        NebulaConfirm::DeleteFileTreePath { .. } => {
            assert(q.title_text(label) == "删除 "@ + label + "？"@);
        },
        NebulaConfirm::Paste { lines } => {
            assert(q.title_text(label) == "粘贴 "@ + decimal_text(lines as nat) + " 行文本？"@);
        },
        NebulaConfirm::ClosePane { process } => {
            assert(q.body_text().take(process@.len() as int) =~= process@);
        },
        NebulaConfirm::CloseTab { process } => {
            assert(q.body_text().take(process@.len() as int) =~= process@);
        },
        NebulaConfirm::CloseWindow { process } => {
            assert(q.body_text().take(process@.len() as int) =~= process@);
        },
        _ => {},
    }
}

/// A passphrase shows a dot for each character as long as they fit, then an ellipsis in
/// place of what does not; nothing typed shows what to type.
pub proof fn passphrase_shows_dots(count: nat, max_cols: nat, language: UiLanguage)
    requires
        max_cols >= 1,
    ensures
        ({
            let (shown, placeholder) = masked_text(count, max_cols, language);
            &&& placeholder <==> count == 0
            &&& 0 < count <= max_cols ==> shown.len() == count && forall|i: int|
                0 <= i < count ==> #[trigger] shown[i] == '•'
            &&& count > max_cols ==> shown.len() == max_cols && shown[0] == '…' && forall|i: int|
                1 <= i < max_cols ==> #[trigger] shown[i] == '•'
            &&& count == 0 && language is English ==> shown == "Passphrase"@
        }),
{
}

/// The explanation of a fix gets what the command leaves of the room, less the gap of three
/// between them, and sixty columns at most.
pub proof fn explanation_gets_the_rest(budget: int, command_cols: int)
    requires
        budget >= 0,
        command_cols >= 0,
    ensures
        ({
            let e = explain_budget(budget, command_cols);
            &&& 0 <= e <= 60
            &&& 0 <= budget - command_cols - 3 <= 60 ==> e == budget - command_cols - 3
            &&& budget - command_cols - 3 > 60 ==> e == 60
            &&& budget - command_cols - 3 < 0 ==> e == 0
        }),
        forall|n: usize, least: nat| #[trigger]
            at_least(n, least) >= least && at_least(n, least) >= n && (at_least(n, least) == n
                || at_least(n, least) == least),
{
}

/// The bar is as wide as its parts: the icon, the command, and the explanation and the hint
/// with their gaps where there are any.
pub proof fn bar_is_as_wide_as_its_parts(
    command: Seq<char>,
    explain: Seq<char>,
    hint: Seq<char>,
)
    ensures
        bar_cols(command, Seq::empty(), Seq::empty()) == slot_cells(command) + 2,
        explain.len() > 0 ==> bar_cols(command, explain, hint) == bar_cols(
            command,
            Seq::empty(),
            hint,
        ) + slot_cells(explain) + 3,
        hint.len() > 0 ==> bar_cols(command, explain, hint) == bar_cols(
            command,
            explain,
            Seq::empty(),
        ) + slot_cells(hint) + 2,
{
}

/// The bar to undo names the host, and tells hiding from removing.
pub proof fn undo_bar_names_the_host(host: Seq<char>)
    ensures
        stands_in(host, undo_text(host, true)),
        stands_in(host, undo_text(host, false)),
        undo_text(host, true) != undo_text(host, false),
        agree_label(UiLanguage::English) == "Yes"@ && refuse_label(UiLanguage::English) == "No"@,
        agree_label(UiLanguage::Chinese) == "是"@ && refuse_label(UiLanguage::Chinese) == "否"@,
{
    reveal_strlit("已隐藏 ");
    reveal_strlit("已移除 ");
    assert(undo_text(host, true) == "已隐藏 "@ + host + "（SSH config 未修改）"@);
    assert(undo_text(host, false) =~= "已移除 "@ + host + Seq::<char>::empty());
    assert(undo_text(host, true)[1] == '隐');
    assert(undo_text(host, false)[1] == '移');
}

/// A question is drawn where there is one: with its own title and text, the danger that it
/// is, and a field exactly where a passphrase is asked for.
pub proof fn question_is_drawn(
    confirm: Option<NebulaConfirm>,
    label: &str,
    backup: BackupState,
    language: UiLanguage,
    inner_cols: usize,
    field_cols: usize,
    r: Option<ConfirmPlan>,
)
    requires
        call_ensures(
            draw_confirm_modal,
            (&confirm, label, &backup, language, inner_cols, field_cols),
            r,
        ),
    ensures
        r is Some <==> confirm is Some,
        r matches Some(p) ==> {
            let q = confirm->0;
            &&& p.title@ == q.title_text(label@)
            &&& p.field is Some <==> q is BackupPassphrase
            &&& p.danger <==> q is ClosePane || q is CloseTab || q is CloseWindow || q is DeleteSsh
                || q is DeleteSftp || q is DeleteFileTreePath
            &&& crate::cells::unspaced(crate::cells::joined(texts(p.lines@)))
                == crate::cells::unspaced(
                if q is BackupPassphrase && (backup.status matches Some((_, error)) && error) {
                    q.body_text() + " "@ + (backup.status->0).0@
                } else {
                    q.body_text()
                },
            )
            &&& language is English ==> p.primary_label@ == "Yes"@ && p.cancel_label@ == "No"@
            &&& language is Chinese ==> p.primary_label@ == "是"@ && p.cancel_label@ == "否"@
        },
        (r matches Some(p) && p.field is Some) ==> {
            let f = (r->0).field->0;
            let n = backup.passphrase@.len();
            &&& f.placeholder <==> n == 0
            &&& 0 < n <= field_cols ==> f.shown@.len() == n
            &&& f.selected_cols is Some <==> backup.passphrase_selected && n > 0
        },
{
    if confirm is Some {
        let q = confirm->0;
        let body = if q is BackupPassphrase && (backup.status matches Some((_, error)) && error) {
            q.body_text() + " "@ + (backup.status->0).0@
        } else {
            q.body_text()
        };
        crate::cells::wrapped_lines_keep_text(body, at_least(inner_cols, 8));
        passphrase_shows_dots(backup.passphrase@.len(), at_least(field_cols, 1), language);
    }
}

/// A fix is shown unless the bar to undo is: while it is looked for, and then with its
/// command, its explanation and a warning where it is dangerous.
pub proof fn fix_is_shown_with_its_danger(
    undo_shown: bool,
    state: Option<AiFixState>,
    language: UiLanguage,
    r: Option<AiFixParts>,
)
    requires
        call_ensures(ai_fix_parts, (undo_shown, &state, language), r),
    ensures
        r is Some <==> !undo_shown && state is Some,
        r is Some ==> (state->0 matches AiFixState::Ready { command, explain, danger } ==> {
            let p = r->0;
            &&& p.command@ == command@ && p.explain@ == explain@ && p.danger == danger
            &&& p.icon == '⚠' <==> danger
            &&& p.hint@.len() > 0
        }),
        r is Some && state->0 is Pending ==> !(r->0).danger && (r->0).explain@.len() == 0 && (
        r->0).hint@.len() == 0,
{
    reveal_strlit("Ctrl+. 贴入 · Esc 关闭");
    reveal_strlit("Ctrl+. paste · Esc dismiss");
}

/// The bar of a fix shows the explanation whole or not at all, and has the width of what it
/// shows.
pub proof fn explanation_is_shown_whole_or_not(
    budget: usize,
    command: &str,
    explain: &str,
    hint: &str,
    bar: AiFixBar,
)
    requires
        call_ensures(draw_ai_fix_bar, (budget, command, explain, hint), bar),
    ensures
        bar.explain@ == explain@ || bar.explain@.len() == 0,
        explain@.len() > 0 ==> (bar.explain@.len() > 0 ==> slot_cells(command@) + 3 + slot_cells(
            explain@,
        ) + 8 <= budget),
        bar.content_cols >= slot_cells(command@) + 2,
        bar.explain@.len() > 0 ==> bar.explain_label@.len() == bar.explain@.len() + 2,
        bar.explain@.len() == 0 ==> bar.explain_label@.len() == 0,
        explain@.len() > 0 && slot_cells(explain@) + 8 <= 60 && slot_cells(command@) + 3
            + slot_cells(explain@) + 8 <= budget ==> bar.explain@ == explain@,
{
    reveal_strlit("— ");
    if explain_kept(budget as int, command@, explain@) {
        kept_explain_fits(budget as int, command@, explain@);
    }
    explanation_gets_the_rest(budget as int, slot_cells(command@) as int);
}

/// Room for a command is twelve columns at least and 96 at most; room for a host eight and
/// twenty-eight.
pub proof fn budgets_stay_in_bounds(
    free_cols: usize,
    r: (usize, usize),
    n: usize,
)
    requires
        call_ensures(ai_fix_command_budget, (free_cols,), r),
        call_ensures(undo_host_budget, (free_cols,), n),
    ensures
        12 <= r.1 <= 96 && r.1 <= r.0 && 12 <= r.0,
        free_cols >= 12 ==> r.0 == free_cols,
        12 <= free_cols <= 96 ==> r.1 == free_cols,
        8 <= n <= 28,
        28 <= free_cols <= 48 ==> n == free_cols - 20,
{
}

/// The buttons are as wide as their words and keys, and the bar to undo as its text and key.
pub proof fn buttons_are_as_wide_as_their_words(
    title: &str,
    language: UiLanguage,
    h: ConfirmHead,
    host: &str,
    from_config: bool,
    r: (String, usize),
)
    requires
        call_ensures(confirm_head, (title, language), h),
        call_ensures(undo_message, (host, from_config), r),
    ensures
        h.title_cols == ink_cells(title@),
        language is English ==> h.primary_cols == ink_cells("Yes"@) + ink_cells("Enter"@)
            && h.cancel_cols == ink_cells("No"@) + ink_cells("Esc"@),
        stands_in(host@, r.0@),
        r.1 == slot_cells(r.0@) + slot_cells("Ctrl+Z"@) + 2,
{
    undo_bar_names_the_host(host@);
}

/// A question shows its own text; where a passphrase was refused it tells why.
pub proof fn question_tells_why_it_was_refused(
    q: NebulaConfirm,
    label: &str,
    status: Option<(String, bool)>,
    t: ConfirmText,
)
    requires
        call_ensures(NebulaConfirm::text, (&q, label, &status), t),
    ensures
        t.title@ == q.title_text(label@),
        t.body@.len() >= q.body_text().len() && t.body@.take(q.body_text().len() as int)
            == q.body_text(),
        (q is BackupPassphrase && (status matches Some((_, error)) && error)) ==> t.body@.skip(
            q.body_text().len() as int + 1,
        ) == ((status->0).0)@,
        !(q is BackupPassphrase) || status is None || !(status->0).1 ==> t.body@ == q.body_text(),
{
    reveal_strlit(" ");
    let n = q.body_text().len() as int;
    assert(t.body@.take(n) =~= q.body_text());
    if q is BackupPassphrase && (status matches Some((_, error)) && error) {
        assert(t.body@.skip(n + 1) =~= ((status->0).0)@);
    }
}

} // verus!
