//! What each action is called in the command palette and the menubar,
//! which default keys trigger it, and where it is valid.
use vstd::prelude::*;
use crate::assignment::{
    actions_view, lemma_actions_view_index, ActionView, ClipboardCopyDestination, ClipboardPasteSource, DomainView, KeyAssignment,
    PaneDirection, Pattern, PatternView, ScrollbackEraseMode, SpawnCommand, SpawnCommandView,
    SpawnTabDomain,
};
use crate::modifiers::{Modifiers, ALT_BIT, CTRL_BIT, SHIFT_BIT, SUPER_BIT};
use crate::render::{
    copy_destination_name, copy_destination_text, key_no_action_name, key_no_action_text,
    modifiers_name, modifiers_text, pane_direction_name, pane_direction_text, rotation_name, rotation_text, selection_mode_name,
    selection_mode_text, spawn_command_name, spawn_command_text, unnamed_action_name,
    unnamed_action_text,
};
use crate::text::{
    cat2, cat3, cat4, cat5, debug_quoted, decimal, english_ordinal, english_ordinal_text, int_text,
    isize_text, join, joined, str_debug_text, strings_view, text_is, usize_text,
};

verus! {

/// Describes an argument/parameter/context that is required in order for
/// the command to have meaning. The intent is for this to be used when
/// filtering the items that should be shown in eg: a context menu.
#[derive(Clone, Copy, Debug, PartialEq, Eq, Structural)]
pub enum ArgType {
    /// Operates on the active pane
    ActivePane,
    /// Operates on the active tab
    ActiveTab,
    /// Operates on the active window
    ActiveWindow,
}

/// `CommandDef` defines a command in the UI.
pub struct CommandDef {
    /// Brief description
    pub brief: String,
    /// A longer, more detailed, description
    pub doc: String,
    /// The key assignments associated with this command.
    pub keys: Vec<(Modifiers, String)>,
    /// The argument types/context in which this command is valid.
    pub args: &'static [ArgType],
    /// Where to place the command in a menubar
    pub menubar: &'static [&'static str],
}

/// The view of a [`CommandDef`].
#[verifier::ext_equal]
pub struct CommandView {
    pub brief: Seq<char>,
    pub doc: Seq<char>,
    pub keys: Seq<(Modifiers, Seq<char>)>,
    pub args: Seq<ArgType>,
    pub menubar: Seq<Seq<char>>,
}

/// The view of a list of key labels.
pub open spec fn keys_view(v: Seq<(Modifiers, String)>) -> Seq<(Modifiers, Seq<char>)> {
    v.map_values(|p: (Modifiers, String)| (p.0, p.1@))
}

/// The view of a menubar path.
pub open spec fn menubar_view(m: Seq<&'static str>) -> Seq<Seq<char>> {
    m.map_values(|s: &'static str| s@)
}

impl View for CommandDef {
    type V = CommandView;

    open spec fn view(&self) -> CommandView {
        CommandView {
            brief: self.brief@,
            doc: self.doc@,
            keys: keys_view(self.keys@),
            args: self.args@,
            menubar: menubar_view(self.menubar@),
        }
    }
}

/// The view of a command that may be absent.
pub open spec fn command_option_view(c: Option<CommandDef>) -> Option<CommandView> {
    match c {
        Some(d) => Some(d@),
        None => None,
    }
}

pub open spec fn cmd(
    brief: Seq<char>,
    doc: Seq<char>,
    keys: Seq<(Modifiers, Seq<char>)>,
    args: Seq<ArgType>,
    menubar: Seq<Seq<char>>,
) -> CommandView {
    CommandView { brief, doc, keys, args, menubar }
}

pub open spec fn no_keys() -> Seq<(Modifiers, Seq<char>)> {
    Seq::empty()
}

pub open spec fn args_none() -> Seq<ArgType> {
    Seq::empty()
}

fn arg_slice_none() -> (r: &'static [ArgType])
    ensures
        r@ == args_none(),
{
    &[]
}

pub open spec fn args_pane() -> Seq<ArgType> {
    seq![ArgType::ActivePane]
}

fn arg_slice_pane() -> (r: &'static [ArgType])
    ensures
        r@ == args_pane(),
{
    &[ArgType::ActivePane]
}

pub open spec fn args_tab() -> Seq<ArgType> {
    seq![ArgType::ActiveTab]
}

fn arg_slice_tab() -> (r: &'static [ArgType])
    ensures
        r@ == args_tab(),
{
    &[ArgType::ActiveTab]
}

pub open spec fn args_window() -> Seq<ArgType> {
    seq![ArgType::ActiveWindow]
}

fn arg_slice_window() -> (r: &'static [ArgType])
    ensures
        r@ == args_window(),
{
    &[ArgType::ActiveWindow]
}

pub open spec fn menu_none() -> Seq<Seq<char>> {
    Seq::empty()
}

pub(crate) fn menu_slice_none() -> (r: &'static [&'static str])
    ensures
        menubar_view(r@) == menu_none(),
{
    &[]
}

pub open spec fn menu_edit() -> Seq<Seq<char>> {
    seq!["Edit"@]
}

pub(crate) fn menu_slice_edit() -> (r: &'static [&'static str])
    ensures
        menubar_view(r@) == menu_edit(),
{
    &["Edit"]
}

pub open spec fn menu_view() -> Seq<Seq<char>> {
    seq!["View"@]
}

pub(crate) fn menu_slice_view() -> (r: &'static [&'static str])
    ensures
        menubar_view(r@) == menu_view(),
{
    &["View"]
}

pub open spec fn menu_window() -> Seq<Seq<char>> {
    seq!["Window"@]
}

pub(crate) fn menu_slice_window() -> (r: &'static [&'static str])
    ensures
        menubar_view(r@) == menu_window(),
{
    &["Window"]
}

pub open spec fn menu_wezterm() -> Seq<Seq<char>> {
    seq!["WezTerm"@]
}

pub(crate) fn menu_slice_wezterm() -> (r: &'static [&'static str])
    ensures
        menubar_view(r@) == menu_wezterm(),
{
    &["WezTerm"]
}

pub open spec fn menu_shell() -> Seq<Seq<char>> {
    seq!["Shell"@]
}

pub(crate) fn menu_slice_shell() -> (r: &'static [&'static str])
    ensures
        menubar_view(r@) == menu_shell(),
{
    &["Shell"]
}

pub open spec fn menu_help() -> Seq<Seq<char>> {
    seq!["Help"@]
}

pub(crate) fn menu_slice_help() -> (r: &'static [&'static str])
    ensures
        menubar_view(r@) == menu_help(),
{
    &["Help"]
}

pub open spec fn menu_view_font() -> Seq<Seq<char>> {
    seq!["View"@, "Font Size"@]
}

pub(crate) fn menu_slice_view_font() -> (r: &'static [&'static str])
    ensures
        menubar_view(r@) == menu_view_font(),
{
    &["View", "Font Size"]
}

pub open spec fn menu_window_tab() -> Seq<Seq<char>> {
    seq!["Window"@, "Select Tab"@]
}

pub(crate) fn menu_slice_window_tab() -> (r: &'static [&'static str])
    ensures
        menubar_view(r@) == menu_window_tab(),
{
    &["Window", "Select Tab"]
}

pub open spec fn menu_window_move() -> Seq<Seq<char>> {
    seq!["Window"@, "Move Tab"@]
}

pub(crate) fn menu_slice_window_move() -> (r: &'static [&'static str])
    ensures
        menubar_view(r@) == menu_window_move(),
{
    &["Window", "Move Tab"]
}

pub open spec fn menu_window_resize() -> Seq<Seq<char>> {
    seq!["Window"@, "Resize Pane"@]
}

pub(crate) fn menu_slice_window_resize() -> (r: &'static [&'static str])
    ensures
        menubar_view(r@) == menu_window_resize(),
{
    &["Window", "Resize Pane"]
}

pub open spec fn menu_window_pane() -> Seq<Seq<char>> {
    seq!["Window"@, "Select Pane"@]
}

pub(crate) fn menu_slice_window_pane() -> (r: &'static [&'static str])
    ensures
        menubar_view(r@) == menu_window_pane(),
{
    &["Window", "Select Pane"]
}

pub open spec fn menu_shell_detach() -> Seq<Seq<char>> {
    seq!["Shell"@, "Detach"@]
}

pub(crate) fn menu_slice_shell_detach() -> (r: &'static [&'static str])
    ensures
        menubar_view(r@) == menu_shell_detach(),
{
    &["Shell", "Detach"]
}

pub open spec fn menu_window_workspace() -> Seq<Seq<char>> {
    seq!["Window"@, "Workspace"@]
}

pub(crate) fn menu_slice_window_workspace() -> (r: &'static [&'static str])
    ensures
        menubar_view(r@) == menu_window_workspace(),
{
    &["Window", "Workspace"]
}

pub open spec fn menu_window_rotate() -> Seq<Seq<char>> {
    seq!["Window"@, "Rotate Pane"@]
}

pub(crate) fn menu_slice_window_rotate() -> (r: &'static [&'static str])
    ensures
        menubar_view(r@) == menu_window_rotate(),
{
    &["Window", "Rotate Pane"]
}

fn keys0() -> (r: Vec<(Modifiers, String)>)
    ensures
        keys_view(r@) == no_keys(),
{
    let r: Vec<(Modifiers, String)> = Vec::new();
    assert(keys_view(r@) =~= no_keys());
    r
}

fn keys1(m: Modifiers, a: &str) -> (r: Vec<(Modifiers, String)>)
    ensures
        keys_view(r@) == seq![(m, a@)],
{
    keys1_owned(m, String::from_str(a))
}

fn keys1_owned(m: Modifiers, a: String) -> (r: Vec<(Modifiers, String)>)
    ensures
        keys_view(r@) == seq![(m, a@)],
{
    let ghost av = a@;
    let mut r: Vec<(Modifiers, String)> = Vec::new();
    r.push((m, a));
    assert(keys_view(r@) =~= seq![(m, av)]);
    r
}

fn keys2(m1: Modifiers, a: &str, m2: Modifiers, b: &str) -> (r: Vec<(Modifiers, String)>)
    ensures
        keys_view(r@) == seq![(m1, a@), (m2, b@)],
{
    let mut r: Vec<(Modifiers, String)> = Vec::new();
    r.push((m1, String::from_str(a)));
    r.push((m2, String::from_str(b)));
    assert(keys_view(r@) =~= seq![(m1, a@), (m2, b@)]);
    r
}

fn keys3(m1: Modifiers, a: &str, m2: Modifiers, b: &str, m3: Modifiers, c: &str) -> (r: Vec<
    (Modifiers, String),
>)
    ensures
        keys_view(r@) == seq![(m1, a@), (m2, b@), (m3, c@)],
{
    let mut r: Vec<(Modifiers, String)> = Vec::new();
    r.push((m1, String::from_str(a)));
    r.push((m2, String::from_str(b)));
    r.push((m3, String::from_str(c)));
    assert(keys_view(r@) =~= seq![(m1, a@), (m2, b@), (m3, c@)]);
    r
}

fn mk_owned(
    brief: String,
    doc: String,
    keys: Vec<(Modifiers, String)>,
    args: &'static [ArgType],
    menubar: &'static [&'static str],
) -> (d: CommandDef)
    ensures
        d@ == cmd(brief@, doc@, keys_view(keys@), args@, menubar_view(menubar@)),
{
    CommandDef { brief, doc, keys, args, menubar }
}

fn mk(
    brief: &str,
    doc: &str,
    keys: Vec<(Modifiers, String)>,
    args: &'static [ArgType],
    menubar: &'static [&'static str],
) -> (d: CommandDef)
    ensures
        d@ == cmd(brief@, doc@, keys_view(keys@), args@, menubar_view(menubar@)),
{
    mk_owned(String::from_str(brief), String::from_str(doc), keys, args, menubar)
}

fn starts_with_minus(s: &String) -> (b: bool)
    ensures
        b == (s@.len() > 0 && s@[0] == '-'),
{
    let n = s.as_str().unicode_len();
    n > 0 && s.as_str().get_char(0) == '-'
}

/// The size of a count, whatever its sign.
pub open spec fn magnitude(n: isize) -> int {
    if n < 0 {
        -n
    } else {
        n as int
    }
}

pub open spec fn left_right(n: isize) -> Seq<char> {
    if n < 0 {
        "left"@
    } else {
        "right"@
    }
}

pub open spec fn up_down(n: isize) -> Seq<char> {
    if n < 0 {
        "up"@
    } else {
        "down"@
    }
}

pub open spec fn previous_next(n: isize) -> Seq<char> {
    if n < 0 {
        "previous"@
    } else {
        "next"@
    }
}

/// Whether the text of a page count stands for a number below zero: it
/// starts with a minus sign and is not negative zero.
pub open spec fn is_negative_text(t: Seq<char>) -> bool {
    t.len() > 0 && t[0] == '-' && t != "-0"@
}

/// Whether describing the action stays clear of overflow: no count that
/// is negated is the least `isize`, and no tab index that is counted from
/// one is the greatest `usize`.
pub open spec fn action_in_range(a: ActionView) -> bool
    decreases a,
{
    match a {
        ActionView::ActivateTabRelative(n) => n != isize::MIN,
        ActionView::ActivateTabRelativeNoWrap(n) => n != isize::MIN,
        ActionView::MoveTabRelative(n) => n != isize::MIN,
        ActionView::ScrollByLine(n) => n != isize::MIN,
        ActionView::ScrollToPrompt(n) => n != isize::MIN,
        ActionView::SwitchWorkspaceRelative(n) => n != isize::MIN,
        ActionView::MoveTab(n) => n < usize::MAX,
        ActionView::Multiple(v) => actions_in_range(v),
        _ => true,
    }
}

/// Whether every action of the list stays clear of overflow.
pub open spec fn actions_in_range(v: Seq<ActionView>) -> bool
    decreases v,
{
    if v.len() == 0 {
        true
    } else {
        actions_in_range(v.drop_last()) && action_in_range(v.last())
    }
}

/// The brief of a list of actions: the brief of each one (or, for one
/// without a command, its written-out form), separated by ", " from what
/// comes before it once that is not empty.
pub open spec fn multiple_brief(actions: Seq<ActionView>) -> Seq<char>
    decreases actions,
{
    if actions.len() == 0 {
        Seq::empty()
    } else {
        let before = multiple_brief(actions.drop_last());
        let part = match command_spec(actions.last()) {
            Some(c) => c.brief,
            None => unnamed_action_text(actions.last()),
        };
        if before.len() == 0 {
            part
        } else {
            before + ", "@ + part
        }
    }
}

/// The command that describes an action, if it has one.
pub open spec fn command_spec(a: ActionView) -> Option<CommandView>
    decreases a,
{
    match a {
        ActionView::PasteFrom(ClipboardPasteSource::PrimarySelection) => Some(cmd(
            "Paste primary selection"@,
            "Pastes text from the primary selection"@,
            seq![(Modifiers { bits: SHIFT_BIT }, "Insert"@)],
            args_pane(),
            menu_edit(),
        )),
        ActionView::CopyTo(ClipboardCopyDestination::PrimarySelection) => Some(cmd(
            "Copy to primary selection"@,
            "Copies text to the primary selection"@,
            seq![(Modifiers { bits: CTRL_BIT }, "Insert"@)],
            args_pane(),
            menu_edit(),
        )),
        ActionView::CopyTo(ClipboardCopyDestination::Clipboard) => Some(cmd(
            "Copy to clipboard"@,
            "Copies text to the clipboard"@,
            seq![(Modifiers { bits: SUPER_BIT }, "c"@), (Modifiers { bits: 0 }, "Copy"@)],
            args_pane(),
            menu_edit(),
        )),
        ActionView::CopyTo(ClipboardCopyDestination::ClipboardAndPrimarySelection) => Some(cmd(
            "Copy to clipboard and primary selection"@,
            "Copies text to the clipboard and the primary selection"@,
            seq![(Modifiers { bits: CTRL_BIT }, "Insert"@)],
            args_pane(),
            menu_edit(),
        )),
        ActionView::PasteFrom(ClipboardPasteSource::Clipboard) => Some(cmd(
            "Paste from clipboard"@,
            "Pastes text from the clipboard"@,
            seq![(Modifiers { bits: SUPER_BIT }, "v"@), (Modifiers { bits: 0 }, "Paste"@)],
            args_pane(),
            menu_edit(),
        )),
        ActionView::ToggleFullScreen => Some(cmd(
            "Toggle full screen mode"@,
            "Switch between normal and full screen mode"@,
            seq![(Modifiers { bits: ALT_BIT }, "Return"@)],
            args_window(),
            menu_view(),
        )),
        ActionView::Hide => Some(cmd(
            "Hide/Minimize Window"@,
            "Hides/Mimimizes the current window"@,
            seq![(Modifiers { bits: SUPER_BIT }, "m"@)],
            args_window(),
            menu_window(),
        )),
        ActionView::Show => Some(cmd(
            "Show/Restore Window"@,
            "Show/Restore the current window"@,
            no_keys(),
            args_window(),
            menu_none(),
        )),
        ActionView::HideApplication => Some(cmd(
            "Hide Application"@,
            "Hides all of the windows of the application. This is macOS specific."@,
            seq![(Modifiers { bits: SUPER_BIT }, "h"@)],
            args_none(),
            menu_wezterm(),
        )),
        ActionView::SpawnWindow => Some(cmd(
            "New Window"@,
            "Launches the default program into a new window"@,
            seq![(Modifiers { bits: SUPER_BIT }, "n"@)],
            args_none(),
            menu_shell(),
        )),
        ActionView::ClearScrollback(ScrollbackEraseMode::ScrollbackOnly) => Some(cmd(
            "Clear scrollback"@,
            "Clears any text that has scrolled out of the viewport of the current pane"@,
            seq![(Modifiers { bits: SUPER_BIT }, "k"@)],
            args_pane(),
            menu_edit(),
        )),
        ActionView::ClearScrollback(ScrollbackEraseMode::ScrollbackAndViewport) => Some(cmd(
            "Clear the scrollback and viewport"@,
            "Removes all content from the screen and scrollback"@,
            no_keys(),
            args_pane(),
            menu_edit(),
        )),
        ActionView::Search(PatternView::CurrentSelectionOrEmptyString) => Some(cmd(
            "Search pane output"@,
            "Enters the search mode UI for the current pane"@,
            seq![(Modifiers { bits: SUPER_BIT }, "f"@)],
            args_pane(),
            menu_edit(),
        )),
        ActionView::Search(_) => Some(cmd(
            "Search pane output"@,
            "Enters the search mode UI for the current pane"@,
            no_keys(),
            args_pane(),
            menu_none(),
        )),
        ActionView::ShowDebugOverlay => Some(cmd(
            "Show debug overlay"@,
            "Activates the debug overlay and Lua REPL"@,
            seq![(Modifiers { bits: CTRL_BIT | SHIFT_BIT }, "l"@)],
            args_window(),
            menu_help(),
        )),
        ActionView::QuickSelect => Some(cmd(
            "Enter QuickSelect mode"@,
            "Activates the quick selection UI for the current pane"@,
            seq![(Modifiers { bits: CTRL_BIT | SHIFT_BIT }, "Space"@)],
            args_pane(),
            menu_edit(),
        )),
        ActionView::QuickSelectArgs(_) => Some(cmd(
            "Enter QuickSelect mode"@,
            "Activates the quick selection UI for the current pane"@,
            no_keys(),
            args_pane(),
            menu_none(),
        )),
        ActionView::CharSelect(_) => Some(cmd(
            "Enter Emoji / Character selection mode"@,
            "Activates the character selection UI for the current pane"@,
            seq![(Modifiers { bits: CTRL_BIT | SHIFT_BIT }, "u"@)],
            args_pane(),
            menu_edit(),
        )),
        ActionView::PaneSelect(_) => Some(cmd(
            "Enter Pane selection mode"@,
            "Activates the pane selection UI"@,
            no_keys(),
            args_pane(),
            menu_window(),
        )),
        ActionView::DecreaseFontSize => Some(cmd(
            "Decrease font size"@,
            "Scales the font size smaller by 10%"@,
            seq![(Modifiers { bits: SUPER_BIT }, "-"@), (Modifiers { bits: CTRL_BIT }, "-"@)],
            args_window(),
            menu_view_font(),
        )),
        ActionView::IncreaseFontSize => Some(cmd(
            "Increase font size"@,
            "Scales the font size larger by 10%"@,
            seq![(Modifiers { bits: SUPER_BIT }, "="@), (Modifiers { bits: CTRL_BIT }, "="@)],
            args_window(),
            menu_view_font(),
        )),
        ActionView::ResetFontSize => Some(cmd(
            "Reset font size"@,
            "Restores the font size to match your configuration file"@,
            seq![(Modifiers { bits: SUPER_BIT }, "0"@), (Modifiers { bits: CTRL_BIT }, "0"@)],
            args_window(),
            menu_view_font(),
        )),
        ActionView::ResetFontAndWindowSize => Some(cmd(
            "Reset the window and font size"@,
            "Restores the original window and font size"@,
            no_keys(),
            args_window(),
            menu_view_font(),
        )),
        ActionView::SpawnTab(DomainView::CurrentPaneDomain) => Some(cmd(
            "New Tab"@,
            "Create a new tab in the same domain as the current pane"@,
            seq![(Modifiers { bits: SUPER_BIT }, "t"@)],
            args_window(),
            menu_shell(),
        )),
        ActionView::SpawnTab(DomainView::DefaultDomain) => Some(cmd(
            "New Tab (Default Domain)"@,
            "Create a new tab in the default domain"@,
            no_keys(),
            args_window(),
            menu_shell(),
        )),
        ActionView::SpawnTab(DomainView::DomainName(name)) => Some(cmd(
            "New Tab (`"@ + name + "` Domain)"@,
            "Create a new tab in the domain named "@ + name,
            no_keys(),
            args_window(),
            menu_shell(),
        )),
        ActionView::SpawnTab(DomainView::DomainId(id)) => Some(cmd(
            "New Tab (Domain with id "@ + decimal(id as nat) + ")"@,
            "Create a new tab in the domain with id "@ + decimal(id as nat),
            no_keys(),
            args_window(),
            menu_shell(),
        )),
        ActionView::SpawnCommandInNewTab(c) => Some(cmd(
            "Spawn a new Tab with "@ + spawn_command_text(c),
            "Spawn a new Tab with "@ + spawn_command_text(c),
            no_keys(),
            args_none(),
            menu_none(),
        )),
        ActionView::SpawnCommandInNewWindow(c) => Some(cmd(
            "Spawn a new Window with "@ + spawn_command_text(c),
            "Spawn a new Window with "@ + spawn_command_text(c),
            no_keys(),
            args_none(),
            menu_none(),
        )),
        ActionView::ActivateTab(n) => if n == -1 {
            Some(cmd(
            "Activate right-most tab"@,
            "Activates the tab on the far right"@,
            seq![(Modifiers { bits: SUPER_BIT }, "9"@)],
            args_window(),
            menu_window_tab(),
        ))
        } else {
            Some(cmd(
            "Activate "@ + english_ordinal_text(n as int) + " Tab"@,
            "Activates the "@ + english_ordinal_text(n as int) + " tab"@,
            if 0 <= n <= 7 {
                seq![(Modifiers { bits: SUPER_BIT }, int_text(n + 1))]
            } else {
                no_keys()
            },
            args_window(),
            menu_window_tab(),
        ))
        },
        ActionView::ActivatePaneByIndex(n) => Some(cmd(
            "Activate "@ + english_ordinal_text((n as isize) as int) + " Pane"@,
            "Activates the "@ + english_ordinal_text((n as isize) as int) + " Pane"@,
            no_keys(),
            args_window(),
            menu_none(),
        )),
        ActionView::SetPaneZoomState(true) => Some(cmd(
            "Zooms the current Pane"@,
            "Places the current pane into the zoomed state, filling all of the space in the tab"@,
            no_keys(),
            args_window(),
            menu_none(),
        )),
        ActionView::SetPaneZoomState(false) => Some(cmd(
            "Un-Zooms the current Pane"@,
            "Takes the current pane out of the zoomed state"@,
            no_keys(),
            args_window(),
            menu_none(),
        )),
        ActionView::EmitEvent(name) => Some(cmd(
            "Emit event `"@ + name + "`"@,
            "Emits the named event, causing any associated event handler(s) to trigger"@,
            no_keys(),
            args_window(),
            menu_none(),
        )),
        ActionView::CloseCurrentTab { confirm: true } => Some(cmd(
            "Close current Tab"@,
            "Closes the current tab, terminating all the processes that are running in its panes."@,
            seq![(Modifiers { bits: SUPER_BIT }, "w"@)],
            args_tab(),
            menu_shell(),
        )),
        ActionView::CloseCurrentTab { confirm: false } => Some(cmd(
            "Close current Tab"@,
            "Closes the current tab, terminating all the processes that are running in its panes."@,
            no_keys(),
            args_tab(),
            menu_none(),
        )),
        ActionView::CloseCurrentPane { confirm: true } => Some(cmd(
            "Close current Pane"@,
            "Closes the current pane, terminating the processes that are running inside it."@,
            no_keys(),
            args_pane(),
            menu_shell(),
        )),
        ActionView::CloseCurrentPane { confirm: false } => Some(cmd(
            "Close current Pane"@,
            "Closes the current pane, terminating the processes that are running inside it."@,
            no_keys(),
            args_pane(),
            menu_none(),
        )),
        ActionView::ActivateTabRelative(n) => if n == -1 {
            Some(cmd(
            "Activate the tab to the left"@,
            "Activates the tab to the left. If this is the left-most tab then cycles around and activates the right-most tab"@,
            seq![(Modifiers { bits: SUPER_BIT | SHIFT_BIT }, "["@), (Modifiers { bits: CTRL_BIT | SHIFT_BIT }, "Tab"@), (Modifiers { bits: CTRL_BIT }, "PageUp"@)],
            args_window(),
            menu_window_tab(),
        ))
        } else if n == 1 {
            Some(cmd(
            "Activate the tab to the right"@,
            "Activates the tab to the right. If this is the right-most tab then cycles around and activates the left-most tab"@,
            seq![(Modifiers { bits: SUPER_BIT | SHIFT_BIT }, "]"@), (Modifiers { bits: CTRL_BIT }, "Tab"@), (Modifiers { bits: CTRL_BIT }, "PageDown"@)],
            args_window(),
            menu_window_tab(),
        ))
        } else {
            Some(cmd(
            "Activate the "@ + english_ordinal_text(magnitude(n)) + " tab to the "@ + left_right(n),
            "Activates the "@ + english_ordinal_text(magnitude(n)) + " tab to the "@ + left_right(n) + ". Wraps around to the other end"@,
            no_keys(),
            args_window(),
            menu_none(),
        ))
        },
        ActionView::ActivateTabRelativeNoWrap(n) => if n == -1 {
            Some(cmd(
            "Activate the tab to the left (no wrapping)"@,
            "Activates the tab to the left. Stopping at the left-most tab"@,
            no_keys(),
            args_window(),
            menu_none(),
        ))
        } else if n == 1 {
            Some(cmd(
            "Activate the tab to the right (no wrapping)"@,
            "Activates the tab to the right. Stopping at the right-most tab"@,
            no_keys(),
            args_window(),
            menu_none(),
        ))
        } else {
            Some(cmd(
            "Activate the "@ + english_ordinal_text(magnitude(n)) + " tab to the "@ + left_right(n),
            "Activates the "@ + english_ordinal_text(magnitude(n)) + " tab to the "@ + left_right(n),
            no_keys(),
            args_window(),
            menu_none(),
        ))
        },
        ActionView::ReloadConfiguration => Some(cmd(
            "Reload configuration"@,
            "Reloads the configuration file"@,
            seq![(Modifiers { bits: SUPER_BIT }, "r"@)],
            args_none(),
            menu_wezterm(),
        )),
        ActionView::QuitApplication => Some(cmd(
            "Quit WezTerm"@,
            "Quits WezTerm"@,
            seq![(Modifiers { bits: SUPER_BIT }, "q"@)],
            args_none(),
            menu_wezterm(),
        )),
        ActionView::MoveTabRelative(n) => if n == -1 {
            Some(cmd(
            "Move tab one place to the left"@,
            "Rearranges the tabs so that the current tab moves one place to the left"@,
            seq![(Modifiers { bits: CTRL_BIT | SHIFT_BIT }, "PageUp"@)],
            args_tab(),
            menu_window_move(),
        ))
        } else if n == 1 {
            Some(cmd(
            "Move tab one place to the right"@,
            "Rearranges the tabs so that the current tab moves one place to the right"@,
            seq![(Modifiers { bits: CTRL_BIT | SHIFT_BIT }, "PageDown"@)],
            args_tab(),
            menu_window_move(),
        ))
        } else {
            Some(cmd(
            "Move tab "@ + int_text(magnitude(n)) + " place(s) to the "@ + left_right(n),
            "Rearranges the tabs so that the current tab moves "@ + int_text(magnitude(n)) + " place(s) to the "@ + left_right(n),
            no_keys(),
            args_tab(),
            menu_none(),
        ))
        },
        ActionView::MoveTab(n) => Some(cmd(
            "Move tab to index "@ + decimal((n + 1) as nat),
            "Rearranges the tabs so that the current tab moves to position "@ + decimal((n + 1) as nat),
            no_keys(),
            args_tab(),
            menu_none(),
        )),
        ActionView::ScrollByPage(t) => if t == "-1"@ {
            Some(cmd(
            "Scroll Up One Page"@,
            "Scrolls the viewport up by 1 page"@,
            seq![(Modifiers { bits: SHIFT_BIT }, "PageUp"@)],
            args_pane(),
            menu_view(),
        ))
        } else if t == "1"@ {
            Some(cmd(
            "Scroll Down One Page"@,
            "Scrolls the viewport down by 1 page"@,
            seq![(Modifiers { bits: SHIFT_BIT }, "PageDown"@)],
            args_pane(),
            menu_view(),
        ))
        } else if is_negative_text(t) {
            Some(cmd(
            "Scroll Up "@ + t.subrange(1, t.len() as int) + " Page(s)"@,
            "Scrolls the viewport up by "@ + t.subrange(1, t.len() as int) + " pages"@,
            no_keys(),
            args_pane(),
            menu_view(),
        ))
        } else {
            Some(cmd(
            "Scroll Down "@ + t + " Page(s)"@,
            "Scrolls the viewport down by "@ + t + " pages"@,
            no_keys(),
            args_pane(),
            menu_view(),
        ))
        },
        ActionView::ScrollByLine(n) => Some(cmd(
            "Scroll "@ + up_down(n) + " "@ + int_text(magnitude(n)) + " line(s)"@,
            "Scrolls the viewport "@ + up_down(n) + " by "@ + int_text(magnitude(n)) + " line(s)"@,
            no_keys(),
            args_pane(),
            menu_none(),
        )),
        ActionView::ScrollToPrompt(n) => Some(cmd(
            "Scroll "@ + up_down(n) + " "@ + int_text(magnitude(n)) + " prompt(s)"@,
            "Scrolls the viewport "@ + up_down(n) + " to the "@ + english_ordinal_text(magnitude(n)) + " semantic prompt zone in that direction"@,
            no_keys(),
            args_pane(),
            menu_none(),
        )),
        ActionView::ScrollByCurrentEventWheelDelta => Some(cmd(
            "Scrolls based on the mouse wheel position in the current mouse event"@,
            "Scrolls based on the mouse wheel position in the current mouse event"@,
            no_keys(),
            args_pane(),
            menu_none(),
        )),
        ActionView::ScrollToBottom => Some(cmd(
            "Scroll to the bottom"@,
            "Scrolls to the bottom of the viewport"@,
            no_keys(),
            args_pane(),
            menu_view(),
        )),
        ActionView::ScrollToTop => Some(cmd(
            "Scroll to the top"@,
            "Scrolls to the top of the viewport"@,
            no_keys(),
            args_pane(),
            menu_view(),
        )),
        ActionView::ActivateCopyMode => Some(cmd(
            "Activate Copy Mode"@,
            "Enter mouse-less copy mode to select text using only the keyboard"@,
            seq![(Modifiers { bits: CTRL_BIT | SHIFT_BIT }, "x"@)],
            args_pane(),
            menu_edit(),
        )),
        ActionView::SplitVertical(SpawnCommandView { domain: DomainView::CurrentPaneDomain, .. }) => Some(cmd(
            "Split Vertically (Top/Bottom)"@,
            "Split the current pane vertically into two panes, by spawning the default program into the bottom half"@,
            seq![(Modifiers { bits: CTRL_BIT | ALT_BIT | SHIFT_BIT }, "'"@)],
            args_pane(),
            menu_shell(),
        )),
        ActionView::SplitHorizontal(SpawnCommandView { domain: DomainView::CurrentPaneDomain, .. }) => Some(cmd(
            "Split Horizontally (Left/Right)"@,
            "Split the current pane horizontally into two panes, by spawning the default program into the right hand side"@,
            seq![(Modifiers { bits: CTRL_BIT | ALT_BIT | SHIFT_BIT }, "5"@)],
            args_pane(),
            menu_shell(),
        )),
        ActionView::SplitHorizontal(_) => Some(cmd(
            "Split Horizontally (Left/Right)"@,
            "Split the current pane horizontally into two panes, by spawning the default program into the right hand side"@,
            no_keys(),
            args_pane(),
            menu_none(),
        )),
        ActionView::SplitVertical(_) => Some(cmd(
            "Split Vertically (Top/Bottom)"@,
            "Split the current pane veritically into two panes, by spawning the default program into the bottom"@,
            no_keys(),
            args_pane(),
            menu_none(),
        )),
        ActionView::AdjustPaneSize(d, amount) => match d {
            PaneDirection::Left => Some(cmd(
            "Resize Pane "@ + decimal(amount as nat) + " cells to the Left"@,
            "Adjusts the closest split divider to the left"@,
            seq![(Modifiers { bits: CTRL_BIT | ALT_BIT | SHIFT_BIT }, "LeftArrow"@)],
            args_pane(),
            menu_window_resize(),
        )),
            PaneDirection::Right => Some(cmd(
            "Resize Pane "@ + decimal(amount as nat) + " cells to the Right"@,
            "Adjusts the closest split divider to the right"@,
            seq![(Modifiers { bits: CTRL_BIT | ALT_BIT | SHIFT_BIT }, "RightArrow"@)],
            args_pane(),
            menu_window_resize(),
        )),
            PaneDirection::Up => Some(cmd(
            "Resize Pane "@ + decimal(amount as nat) + " cells Upwards"@,
            "Adjusts the closest split divider towards the top"@,
            seq![(Modifiers { bits: CTRL_BIT | ALT_BIT | SHIFT_BIT }, "UpArrow"@)],
            args_pane(),
            menu_window_resize(),
        )),
            PaneDirection::Down => Some(cmd(
            "Resize Pane "@ + decimal(amount as nat) + " cells Downwards"@,
            "Adjusts the closest split divider towards the bottom"@,
            seq![(Modifiers { bits: CTRL_BIT | ALT_BIT | SHIFT_BIT }, "DownArrow"@)],
            args_pane(),
            menu_window_resize(),
        )),
            _ => None,
        },
        ActionView::ActivatePaneDirection(PaneDirection::Next) | ActionView::ActivatePaneDirection(PaneDirection::Prev) => None,
        ActionView::ActivatePaneDirection(PaneDirection::Left) => Some(cmd(
            "Activate Pane Left"@,
            "Activates the pane to the left of the current pane"@,
            seq![(Modifiers { bits: CTRL_BIT | SHIFT_BIT }, "LeftArrow"@)],
            args_pane(),
            menu_window_pane(),
        )),
        ActionView::ActivatePaneDirection(PaneDirection::Right) => Some(cmd(
            "Activate Pane Right"@,
            "Activates the pane to the right of the current pane"@,
            seq![(Modifiers { bits: CTRL_BIT | SHIFT_BIT }, "RightArrow"@)],
            args_pane(),
            menu_window_pane(),
        )),
        ActionView::ActivatePaneDirection(PaneDirection::Up) => Some(cmd(
            "Activate Pane Up"@,
            "Activates the pane to the top of the current pane"@,
            seq![(Modifiers { bits: CTRL_BIT | SHIFT_BIT }, "UpArrow"@)],
            args_pane(),
            menu_window_pane(),
        )),
        ActionView::ActivatePaneDirection(PaneDirection::Down) => Some(cmd(
            "Activate Pane Down"@,
            "Activates the pane to the bottom of the current pane"@,
            seq![(Modifiers { bits: CTRL_BIT | SHIFT_BIT }, "DownArrow"@)],
            args_pane(),
            menu_window_pane(),
        )),
        ActionView::TogglePaneZoomState => Some(cmd(
            "Toggle Pane Zoom"@,
            "Toggles the zoom state for the current pane"@,
            seq![(Modifiers { bits: CTRL_BIT | SHIFT_BIT }, "z"@)],
            args_pane(),
            menu_window(),
        )),
        ActionView::ActivateLastTab => Some(cmd(
            "Activate the last active tab"@,
            "If there was no prior active tab, has no effect."@,
            no_keys(),
            args_window(),
            menu_window_tab(),
        )),
        ActionView::ClearKeyTableStack => Some(cmd(
            "Clear the key table stack"@,
            "Removes all entries from the stack"@,
            no_keys(),
            args_window(),
            menu_edit(),
        )),
        ActionView::OpenLinkAtMouseCursor => Some(cmd(
            "Open link at mouse cursor"@,
            "If there is no link under the mouse cursor, has no effect."@,
            no_keys(),
            args_pane(),
            menu_shell(),
        )),
        ActionView::ShowLauncherArgs(_) | ActionView::ShowLauncher => Some(cmd(
            "Show the launcher"@,
            "Shows the launcher menu"@,
            no_keys(),
            args_window(),
            menu_shell(),
        )),
        ActionView::ShowTabNavigator => Some(cmd(
            "Navigate tabs"@,
            "Shows the tab navigator"@,
            no_keys(),
            args_window(),
            menu_window_tab(),
        )),
        ActionView::DetachDomain(DomainView::CurrentPaneDomain) => Some(cmd(
            "Detach the domain of the active pane"@,
            "Detaches (disconnects from) the domain of the active pane"@,
            no_keys(),
            args_pane(),
            menu_shell_detach(),
        )),
        ActionView::DetachDomain(DomainView::DefaultDomain) => Some(cmd(
            "Detach the default domain"@,
            "Detaches (disconnects from) the default domain"@,
            no_keys(),
            args_pane(),
            menu_shell_detach(),
        )),
        ActionView::DetachDomain(DomainView::DomainName(name)) => Some(cmd(
            "Detach the `"@ + name + "` domain"@,
            "Detaches (disconnects from) the domain named `"@ + name + "`"@,
            no_keys(),
            args_pane(),
            menu_shell_detach(),
        )),
        ActionView::DetachDomain(DomainView::DomainId(id)) => Some(cmd(
            "Detach the domain with id "@ + decimal(id as nat),
            "Detaches (disconnects from) the domain with id "@ + decimal(id as nat),
            no_keys(),
            args_pane(),
            menu_shell_detach(),
        )),
        ActionView::OpenUri(uri) => if uri == "https://wezfurlong.org/wezterm/"@ {
            Some(cmd(
            "Documentation"@,
            "Visit the wezterm documentation website"@,
            no_keys(),
            args_none(),
            menu_help(),
        ))
        } else if uri == "https://github.com/wez/wezterm/discussions/"@ {
            Some(cmd(
            "Discuss on GitHub"@,
            "Visit wezterm's GitHub discussion"@,
            no_keys(),
            args_none(),
            menu_help(),
        ))
        } else if uri == "https://github.com/wez/wezterm/issues/"@ {
            Some(cmd(
            "Search or report issue on GitHub"@,
            "Visit wezterm's GitHub issues"@,
            no_keys(),
            args_none(),
            menu_help(),
        ))
        } else {
            Some(cmd(
            "Open "@ + uri + " in your browser"@,
            "Open "@ + uri + " in your browser"@,
            no_keys(),
            args_none(),
            menu_none(),
        ))
        },
        ActionView::SendString(text) => Some(cmd(
            "Sends `"@ + text + "` to the active pane, as though you typed it"@,
            "Sends `"@ + text + "` to the active pane, as though you typed it"@,
            no_keys(),
            args_none(),
            menu_none(),
        )),
        ActionView::SendKey(key) => Some(cmd(
            "Sends "@ + key_no_action_text(key) + " to the active pane, as though you typed it"@,
            "Sends "@ + key_no_action_text(key) + " to the active pane, as though you typed it"@,
            no_keys(),
            args_none(),
            menu_none(),
        )),
        ActionView::Nop => Some(cmd(
            "Does nothing"@,
            "Has no effect"@,
            no_keys(),
            args_none(),
            menu_none(),
        )),
        ActionView::DisableDefaultAssignment => None,
        ActionView::SelectTextAtMouseCursor(x) => Some(cmd(
            "Selects text at the mouse cursor location using "@ + selection_mode_text(x),
            "Selects text at the mouse cursor location using "@ + selection_mode_text(x),
            no_keys(),
            args_none(),
            menu_none(),
        )),
        ActionView::ExtendSelectionToMouseCursor(x) => Some(cmd(
            "Extends the selection text to the mouse cursor location using "@ + selection_mode_text(x),
            "Extends the selection text to the mouse cursor location using "@ + selection_mode_text(x),
            no_keys(),
            args_none(),
            menu_none(),
        )),
        ActionView::ClearSelection => Some(cmd(
            "Clears the selection in the current pane"@,
            "Clears the selection in the current pane"@,
            no_keys(),
            args_none(),
            menu_none(),
        )),
        ActionView::CompleteSelection(x) => Some(cmd(
            "Completes selection, and copy "@ + copy_destination_text(x),
            "Completes text selection using the mouse, and copies to "@ + copy_destination_text(x),
            no_keys(),
            args_none(),
            menu_none(),
        )),
        ActionView::CompleteSelectionOrOpenLinkAtMouseCursor(x) => Some(cmd(
            "Open a URL or Completes selection by copying to "@ + copy_destination_text(x),
            "If the mouse is over a link, open it, otherwise, completes text selection using the mouse, and copies to "@ + copy_destination_text(x),
            no_keys(),
            args_none(),
            menu_none(),
        )),
        ActionView::StartWindowDrag => Some(cmd(
            "Requests a window drag operation from the window environment"@,
            "Requests a window drag operation from the window environment"@,
            no_keys(),
            args_none(),
            menu_none(),
        )),
        ActionView::Multiple(actions) => Some(cmd(
            multiple_brief(actions),
            "Performs multiple nested actions"@,
            no_keys(),
            args_pane(),
            menu_none(),
        )),
        ActionView::SwitchToWorkspace { name: None, spawn: None } => Some(cmd(
            "Spawn the default program into a new workspace and switch to it"@,
            "Spawn the default program into a new workspace and switch to it"@,
            no_keys(),
            args_none(),
            menu_window_workspace(),
        )),
        ActionView::SwitchToWorkspace { name: Some(name), spawn: None } => Some(cmd(
            "Switch to workspace `"@ + name + "`, spawn the default program if that workspace doesn't already exist"@,
            "Switch to workspace `"@ + name + "`, spawn the default program if that workspace doesn't already exist"@,
            no_keys(),
            args_none(),
            menu_window_workspace(),
        )),
        ActionView::SwitchToWorkspace { name: Some(name), spawn: Some(prog) } => Some(cmd(
            "Switch to workspace `"@ + name + "`, spawn "@ + spawn_command_text(prog) + " if that workspace doesn't already exist"@,
            "Switch to workspace `"@ + name + "`, spawn "@ + spawn_command_text(prog) + " if that workspace doesn't already exist"@,
            no_keys(),
            args_none(),
            menu_window_workspace(),
        )),
        ActionView::SwitchToWorkspace { name: None, spawn: Some(prog) } => Some(cmd(
            "Spawn the "@ + spawn_command_text(prog) + " into a new workspace and switch to it"@,
            "Spawn the "@ + spawn_command_text(prog) + " into a new workspace and switch to it"@,
            no_keys(),
            args_none(),
            menu_window_workspace(),
        )),
        ActionView::SwitchWorkspaceRelative(n) => Some(cmd(
            "Switch to "@ + english_ordinal_text(magnitude(n)) + " "@ + previous_next(n) + " workspace"@,
            "Switch to the "@ + english_ordinal_text(magnitude(n)) + " "@ + previous_next(n) + " workspace, ordered lexicographically by workspace name"@,
            no_keys(),
            args_pane(),
            menu_window_workspace(),
        )),
        ActionView::ActivateKeyTable { name, .. } => Some(cmd(
            "Activate key table `"@ + name + "`"@,
            "Activate key table `"@ + name + "`"@,
            no_keys(),
            args_pane(),
            menu_none(),
        )),
        ActionView::PopKeyTable => Some(cmd(
            "Pop the current key table"@,
            "Pop the current key table"@,
            no_keys(),
            args_pane(),
            menu_none(),
        )),
        ActionView::AttachDomain(name) => Some(cmd(
            "Attach domain `"@ + name + "`"@,
            "Attach domain `"@ + name + "`"@,
            no_keys(),
            args_pane(),
            menu_none(),
        )),
        ActionView::CopyMode(_) => Some(cmd(
            "Activate Copy Mode"@,
            "Activate Copy Mode"@,
            no_keys(),
            args_pane(),
            menu_edit(),
        )),
        ActionView::RotatePanes(x) => Some(cmd(
            "Rotate panes "@ + rotation_text(x),
            "Rotate panes "@ + rotation_text(x),
            no_keys(),
            args_pane(),
            menu_window_rotate(),
        )),
        ActionView::SplitPane(split) => Some(cmd(
            "Split the current pane "@ + pane_direction_text(split.direction),
            "Split the current pane "@ + pane_direction_text(split.direction),
            no_keys(),
            args_pane(),
            menu_none(),
        )),
        ActionView::ResetTerminal => Some(cmd(
            "Reset the terminal emulation state in the current pane"@,
            "Reset the terminal emulation state in the current pane"@,
            no_keys(),
            args_pane(),
            menu_shell(),
        )),
        ActionView::ActivateCommandPalette => Some(cmd(
            "Activate Command Palette"@,
            "Shows the command palette modal"@,
            seq![(Modifiers { bits: CTRL_BIT | SHIFT_BIT }, "p"@)],
            args_pane(),
            menu_edit(),
        )),
    }
}

/// The name of an argument type.
pub open spec fn arg_type_text(a: ArgType) -> Seq<char> {
    match a {
        ArgType::ActivePane => "ActivePane"@,
        ArgType::ActiveTab => "ActiveTab"@,
        ArgType::ActiveWindow => "ActiveWindow"@,
    }
}

fn arg_type_name(a: ArgType) -> (r: &'static str)
    ensures
        r@ == arg_type_text(a),
{
    match a {
        ArgType::ActivePane => "ActivePane",
        ArgType::ActiveTab => "ActiveTab",
        ArgType::ActiveWindow => "ActiveWindow",
    }
}

/// A key assignment written out: its modifiers and its quoted label.
pub open spec fn key_text(k: (Modifiers, Seq<char>)) -> Seq<char> {
    "("@ + modifiers_text(k.0) + ", "@ + str_debug_text(k.1) + ")"@
}

/// How a command reads when it is written out for debugging: its brief,
/// doc, keys and argument types, as a struct literal.
pub open spec fn command_def_text(c: CommandView) -> Seq<char> {
    "CommandDef { brief: "@ + str_debug_text(c.brief) + ", doc: "@ + str_debug_text(c.doc)
        + ", keys: ["@ + joined(c.keys.map_values(|k: (Modifiers, Seq<char>)| key_text(k)), ", "@)
        + "], args: ["@ + joined(c.args.map_values(|a: ArgType| arg_type_text(a)), ", "@)
        + "] }"@
}

impl CommandDef {
    /// The command written out for debugging, as [`command_def_text`] says.
    pub fn debug_text(&self) -> (r: String)
        ensures
            r@ == command_def_text(self@),
    {
        let ghost kv = keys_view(self.keys@);
        let ghost want_keys = kv.map_values(|k: (Modifiers, Seq<char>)| key_text(k));
        let mut keys: Vec<String> = Vec::new();
        let n = self.keys.len();
        for i in 0..n
            invariant
                n == self.keys.len(),
                kv == keys_view(self.keys@),
                want_keys == kv.map_values(|k: (Modifiers, Seq<char>)| key_text(k)),
                strings_view(keys@) =~= want_keys.take(i as int),
        {
            let mods = modifiers_name(self.keys[i].0);
            let label = debug_quoted(self.keys[i].1.as_str());
            let k = cat5("(", mods.as_str(), ", ", label.as_str(), ")");
            assert(k@ == want_keys[i as int]);
            let ghost before = strings_view(keys@);
            keys.push(k);
            assert(strings_view(keys@) =~= before.push(want_keys[i as int]));
        }
        assert(want_keys.take(n as int) =~= want_keys);
        let ghost want_args = self.args@.map_values(|a: ArgType| arg_type_text(a));
        let mut args: Vec<String> = Vec::new();
        let m = self.args.len();
        for i in 0..m
            invariant
                m == self.args.len(),
                want_args == self.args@.map_values(|a: ArgType| arg_type_text(a)),
                strings_view(args@) =~= want_args.take(i as int),
        {
            let ghost before = strings_view(args@);
            args.push(String::from_str(arg_type_name(self.args[i])));
            assert(strings_view(args@) =~= before.push(want_args[i as int]));
        }
        assert(want_args.take(m as int) =~= want_args);
        let brief = debug_quoted(self.brief.as_str());
        let doc = debug_quoted(self.doc.as_str());
        let keys_joined = join(&keys, ", ");
        let args_joined = join(&args, ", ");
        let mut r = cat4("CommandDef { brief: ", brief.as_str(), ", doc: ", doc.as_str());
        r.append(", keys: [");
        r.append(keys_joined.as_str());
        r.append("], args: [");
        r.append(args_joined.as_str());
        r.append("] }");
        r
    }
}

/// Describes a key assignment action; returns a bunch of metadata that is
/// useful in the command palette/menubar context. This function will be
/// called for each of the default actions, but can also be used to
/// describe user-provided commands; [`action_in_range_check`] tells whether
/// such an action's numbers can be described.
pub fn derive_command_from_key_assignment(action: &KeyAssignment) -> (r: Option<CommandDef>)
    requires
        action_in_range(action@),
    ensures
        command_option_view(r) == command_spec(action@),
    decreases action, 2nat,
{
    match action {
        KeyAssignment::PasteFrom(..)
        | KeyAssignment::CopyTo(..)
        | KeyAssignment::CompleteSelection(..)
        | KeyAssignment::CompleteSelectionOrOpenLinkAtMouseCursor(..) => {
            describe_clipboard(action)
        },
        KeyAssignment::ToggleFullScreen
        | KeyAssignment::Hide
        | KeyAssignment::Show
        | KeyAssignment::HideApplication
        | KeyAssignment::SpawnWindow
        | KeyAssignment::ReloadConfiguration
        | KeyAssignment::QuitApplication
        | KeyAssignment::StartWindowDrag => {
            describe_window(action)
        },
        KeyAssignment::ScrollByPage(..)
        | KeyAssignment::ScrollByLine(..)
        | KeyAssignment::ScrollToPrompt(..) => {
            describe_scroll_amount(action)
        },
        KeyAssignment::ClearScrollback(..)
        | KeyAssignment::ScrollByCurrentEventWheelDelta
        | KeyAssignment::ScrollToBottom
        | KeyAssignment::ScrollToTop => {
            describe_scroll_position(action)
        },
        KeyAssignment::Search(..)
        | KeyAssignment::ShowDebugOverlay
        | KeyAssignment::QuickSelect
        | KeyAssignment::QuickSelectArgs(..)
        | KeyAssignment::CharSelect(..)
        | KeyAssignment::PaneSelect(..)
        | KeyAssignment::ActivateCopyMode
        | KeyAssignment::CopyMode(..)
        | KeyAssignment::ActivateCommandPalette => {
            describe_mode(action)
        },
        KeyAssignment::DecreaseFontSize
        | KeyAssignment::IncreaseFontSize
        | KeyAssignment::ResetFontSize
        | KeyAssignment::ResetFontAndWindowSize => {
            describe_font(action)
        },
        KeyAssignment::SpawnTab(..)
        | KeyAssignment::SpawnCommandInNewTab(..)
        | KeyAssignment::SpawnCommandInNewWindow(..)
        | KeyAssignment::SplitVertical(..)
        | KeyAssignment::SplitHorizontal(..)
        | KeyAssignment::SplitPane(..) => {
            describe_spawn(action)
        },
        KeyAssignment::ActivateTab(..)
        | KeyAssignment::CloseCurrentTab { .. }
        | KeyAssignment::ActivateLastTab
        | KeyAssignment::ShowTabNavigator
        | KeyAssignment::MoveTab(..) => {
            describe_tab(action)
        },
        KeyAssignment::ActivateTabRelative(..)
        | KeyAssignment::ActivateTabRelativeNoWrap(..)
        | KeyAssignment::MoveTabRelative(..) => {
            describe_tab_move(action)
        },
        KeyAssignment::ActivatePaneByIndex(..)
        | KeyAssignment::SetPaneZoomState(..)
        | KeyAssignment::CloseCurrentPane { .. }
        | KeyAssignment::AdjustPaneSize(..)
        | KeyAssignment::ActivatePaneDirection(..)
        | KeyAssignment::TogglePaneZoomState
        | KeyAssignment::RotatePanes(..) => {
            describe_pane(action)
        },
        KeyAssignment::DetachDomain(..)
        | KeyAssignment::AttachDomain(..)
        | KeyAssignment::ShowLauncher
        | KeyAssignment::ShowLauncherArgs(..) => {
            describe_domain(action)
        },
        KeyAssignment::EmitEvent(..)
        | KeyAssignment::SendString(..)
        | KeyAssignment::SendKey(..)
        | KeyAssignment::Nop
        | KeyAssignment::DisableDefaultAssignment
        | KeyAssignment::ActivateKeyTable { .. }
        | KeyAssignment::PopKeyTable
        | KeyAssignment::ClearKeyTableStack
        | KeyAssignment::ResetTerminal => {
            describe_input(action)
        },
        KeyAssignment::SelectTextAtMouseCursor(..)
        | KeyAssignment::ExtendSelectionToMouseCursor(..)
        | KeyAssignment::ClearSelection
        | KeyAssignment::OpenLinkAtMouseCursor
        | KeyAssignment::OpenUri(..) => {
            describe_selection(action)
        },
        KeyAssignment::Multiple(..)
        | KeyAssignment::SwitchToWorkspace { .. }
        | KeyAssignment::SwitchWorkspaceRelative(..) => {
            describe_workspace(action)
        },
    }
}

/// Whether the action is about copying and pasting.
pub open spec fn is_clipboard_action(a: ActionView) -> bool {
    ||| a is PasteFrom
    ||| a is CopyTo
    ||| a is CompleteSelection
    ||| a is CompleteSelectionOrOpenLinkAtMouseCursor
}

/// Describes the actions about copying and pasting.
fn describe_clipboard(action: &KeyAssignment) -> (r: Option<CommandDef>)
    requires
        action_in_range(action@),
        is_clipboard_action(action@),
    ensures
        command_option_view(r) == command_spec(action@),
    decreases action, 1nat,
{
    match action {
        KeyAssignment::PasteFrom(ClipboardPasteSource::PrimarySelection) => Some(mk(
            "Paste primary selection",
            "Pastes text from the primary selection",
            keys1(Modifiers::shift(), "Insert"),
            arg_slice_pane(),
            menu_slice_edit(),
        )),
        KeyAssignment::CopyTo(ClipboardCopyDestination::PrimarySelection) => Some(mk(
            "Copy to primary selection",
            "Copies text to the primary selection",
            keys1(Modifiers::ctrl(), "Insert"),
            arg_slice_pane(),
            menu_slice_edit(),
        )),
        KeyAssignment::CopyTo(ClipboardCopyDestination::Clipboard) => Some(mk(
            "Copy to clipboard",
            "Copies text to the clipboard",
            keys2(Modifiers::super_key(), "c", Modifiers::none(), "Copy"),
            arg_slice_pane(),
            menu_slice_edit(),
        )),
        KeyAssignment::CopyTo(ClipboardCopyDestination::ClipboardAndPrimarySelection) => Some(mk(
            "Copy to clipboard and primary selection",
            "Copies text to the clipboard and the primary selection",
            keys1(Modifiers::ctrl(), "Insert"),
            arg_slice_pane(),
            menu_slice_edit(),
        )),
        KeyAssignment::PasteFrom(ClipboardPasteSource::Clipboard) => Some(mk(
            "Paste from clipboard",
            "Pastes text from the clipboard",
            keys2(Modifiers::super_key(), "v", Modifiers::none(), "Paste"),
            arg_slice_pane(),
            menu_slice_edit(),
        )),
        KeyAssignment::CompleteSelection(x) => {
            let t = copy_destination_name(*x);
            Some(mk_owned(
                cat2("Completes selection, and copy ", t),
                cat2("Completes text selection using the mouse, and copies to ", t),
                keys0(),
                arg_slice_none(),
                menu_slice_none(),
            ))
        },
        KeyAssignment::CompleteSelectionOrOpenLinkAtMouseCursor(x) => {
            let t = copy_destination_name(*x);
            Some(mk_owned(
                cat2("Open a URL or Completes selection by copying to ", t),
                cat2("If the mouse is over a link, open it, otherwise, completes text selection using the mouse, and copies to ", t),
                keys0(),
                arg_slice_none(),
                menu_slice_none(),
            ))
        },
        _ => None,
    }
}

/// Whether the action is about the window and the application.
pub open spec fn is_window_action(a: ActionView) -> bool {
    ||| a is ToggleFullScreen
    ||| a is Hide
    ||| a is Show
    ||| a is HideApplication
    ||| a is SpawnWindow
    ||| a is ReloadConfiguration
    ||| a is QuitApplication
    ||| a is StartWindowDrag
}

/// Describes the actions about the window and the application.
fn describe_window(action: &KeyAssignment) -> (r: Option<CommandDef>)
    requires
        action_in_range(action@),
        is_window_action(action@),
    ensures
        command_option_view(r) == command_spec(action@),
    decreases action, 1nat,
{
    match action {
        KeyAssignment::ToggleFullScreen => Some(mk(
            "Toggle full screen mode",
            "Switch between normal and full screen mode",
            keys1(Modifiers::alt(), "Return"),
            arg_slice_window(),
            menu_slice_view(),
        )),
        KeyAssignment::Hide => Some(mk(
            "Hide/Minimize Window",
            "Hides/Mimimizes the current window",
            keys1(Modifiers::super_key(), "m"),
            arg_slice_window(),
            menu_slice_window(),
        )),
        KeyAssignment::Show => Some(mk(
            "Show/Restore Window",
            "Show/Restore the current window",
            keys0(),
            arg_slice_window(),
            menu_slice_none(),
        )),
        KeyAssignment::HideApplication => Some(mk(
            "Hide Application",
            "Hides all of the windows of the application. This is macOS specific.",
            keys1(Modifiers::super_key(), "h"),
            arg_slice_none(),
            menu_slice_wezterm(),
        )),
        KeyAssignment::SpawnWindow => Some(mk(
            "New Window",
            "Launches the default program into a new window",
            keys1(Modifiers::super_key(), "n"),
            arg_slice_none(),
            menu_slice_shell(),
        )),
        KeyAssignment::ReloadConfiguration => Some(mk(
            "Reload configuration",
            "Reloads the configuration file",
            keys1(Modifiers::super_key(), "r"),
            arg_slice_none(),
            menu_slice_wezterm(),
        )),
        KeyAssignment::QuitApplication => Some(mk(
            "Quit WezTerm",
            "Quits WezTerm",
            keys1(Modifiers::super_key(), "q"),
            arg_slice_none(),
            menu_slice_wezterm(),
        )),
        KeyAssignment::StartWindowDrag => Some(mk(
            "Requests a window drag operation from the window environment",
            "Requests a window drag operation from the window environment",
            keys0(),
            arg_slice_none(),
            menu_slice_none(),
        )),
        _ => None,
    }
}

/// Whether the action is about scrolling by an amount.
pub open spec fn is_scroll_amount_action(a: ActionView) -> bool {
    ||| a is ScrollByPage
    ||| a is ScrollByLine
    ||| a is ScrollToPrompt
}

/// Describes the actions about scrolling by an amount.
fn describe_scroll_amount(action: &KeyAssignment) -> (r: Option<CommandDef>)
    requires
        action_in_range(action@),
        is_scroll_amount_action(action@),
    ensures
        command_option_view(r) == command_spec(action@),
    decreases action, 1nat,
{
    match action {
        KeyAssignment::ScrollByPage(amount) => {
            let text = &amount.text;
            if text_is(text, "-1") {
                Some(mk(
                "Scroll Up One Page",
                "Scrolls the viewport up by 1 page",
                keys1(Modifiers::shift(), "PageUp"),
                arg_slice_pane(),
                menu_slice_view(),
            ))
            } else if text_is(text, "1") {
                Some(mk(
                "Scroll Down One Page",
                "Scrolls the viewport down by 1 page",
                keys1(Modifiers::shift(), "PageDown"),
                arg_slice_pane(),
                menu_slice_view(),
            ))
            } else if starts_with_minus(text) && !text_is(text, "-0") {
                let len = text.as_str().unicode_len();
                let magnitude = text.as_str().substring_char(1, len);
                Some(mk_owned(
                cat3("Scroll Up ", magnitude, " Page(s)"),
                cat3("Scrolls the viewport up by ", magnitude, " pages"),
                keys0(),
                arg_slice_pane(),
                menu_slice_view(),
            ))
            } else {
                Some(mk_owned(
                cat3("Scroll Down ", text.as_str(), " Page(s)"),
                cat3("Scrolls the viewport down by ", text.as_str(), " pages"),
                keys0(),
                arg_slice_pane(),
                menu_slice_view(),
            ))
            }
        },
        KeyAssignment::ScrollByLine(n) => {
            let (direction, amount) = if *n < 0 {
                ("up", isize_text(-*n))
            } else {
                ("down", isize_text(*n))
            };
            Some(mk_owned(
                cat5("Scroll ", direction, " ", amount.as_str(), " line(s)"),
                cat5("Scrolls the viewport ", direction, " by ", amount.as_str(), " line(s)"),
                keys0(),
                arg_slice_pane(),
                menu_slice_none(),
            ))
        },
        KeyAssignment::ScrollToPrompt(n) => {
            let (direction, amount) = if *n < 0 {
                ("up", -*n)
            } else {
                ("down", *n)
            };
            let ordinal = english_ordinal(amount);
            let amount_text = isize_text(amount);
            Some(mk_owned(
                cat5("Scroll ", direction, " ", amount_text.as_str(), " prompt(s)"),
                cat5("Scrolls the viewport ", direction, " to the ", ordinal.as_str(), " semantic prompt zone in that direction"),
                keys0(),
                arg_slice_pane(),
                menu_slice_none(),
            ))
        },
        _ => None,
    }
}

/// Whether the action is about scrolling to a place and clearing.
pub open spec fn is_scroll_position_action(a: ActionView) -> bool {
    ||| a is ClearScrollback
    ||| a is ScrollByCurrentEventWheelDelta
    ||| a is ScrollToBottom
    ||| a is ScrollToTop
}

/// Describes the actions about scrolling to a place and clearing.
fn describe_scroll_position(action: &KeyAssignment) -> (r: Option<CommandDef>)
    requires
        action_in_range(action@),
        is_scroll_position_action(action@),
    ensures
        command_option_view(r) == command_spec(action@),
    decreases action, 1nat,
{
    match action {
        KeyAssignment::ClearScrollback(ScrollbackEraseMode::ScrollbackOnly) => Some(mk(
            "Clear scrollback",
            "Clears any text that has scrolled out of the viewport of the current pane",
            keys1(Modifiers::super_key(), "k"),
            arg_slice_pane(),
            menu_slice_edit(),
        )),
        KeyAssignment::ClearScrollback(ScrollbackEraseMode::ScrollbackAndViewport) => Some(mk(
            "Clear the scrollback and viewport",
            "Removes all content from the screen and scrollback",
            keys0(),
            arg_slice_pane(),
            menu_slice_edit(),
        )),
        KeyAssignment::ScrollByCurrentEventWheelDelta => Some(mk(
            "Scrolls based on the mouse wheel position in the current mouse event",
            "Scrolls based on the mouse wheel position in the current mouse event",
            keys0(),
            arg_slice_pane(),
            menu_slice_none(),
        )),
        KeyAssignment::ScrollToBottom => Some(mk(
            "Scroll to the bottom",
            "Scrolls to the bottom of the viewport",
            keys0(),
            arg_slice_pane(),
            menu_slice_view(),
        )),
        KeyAssignment::ScrollToTop => Some(mk(
            "Scroll to the top",
            "Scrolls to the top of the viewport",
            keys0(),
            arg_slice_pane(),
            menu_slice_view(),
        )),
        _ => None,
    }
}

/// Whether the action is about the modes and overlays.
pub open spec fn is_mode_action(a: ActionView) -> bool {
    ||| a is Search
    ||| a is ShowDebugOverlay
    ||| a is QuickSelect
    ||| a is QuickSelectArgs
    ||| a is CharSelect
    ||| a is PaneSelect
    ||| a is ActivateCopyMode
    ||| a is CopyMode
    ||| a is ActivateCommandPalette
}

/// Describes the actions about the modes and overlays.
fn describe_mode(action: &KeyAssignment) -> (r: Option<CommandDef>)
    requires
        action_in_range(action@),
        is_mode_action(action@),
    ensures
        command_option_view(r) == command_spec(action@),
    decreases action, 1nat,
{
    match action {
        KeyAssignment::Search(Pattern::CurrentSelectionOrEmptyString) => Some(mk(
            "Search pane output",
            "Enters the search mode UI for the current pane",
            keys1(Modifiers::super_key(), "f"),
            arg_slice_pane(),
            menu_slice_edit(),
        )),
        KeyAssignment::Search(_) => Some(mk(
            "Search pane output",
            "Enters the search mode UI for the current pane",
            keys0(),
            arg_slice_pane(),
            menu_slice_none(),
        )),
        KeyAssignment::ShowDebugOverlay => Some(mk(
            "Show debug overlay",
            "Activates the debug overlay and Lua REPL",
            keys1(Modifiers::ctrl().union(Modifiers::shift()), "l"),
            arg_slice_window(),
            menu_slice_help(),
        )),
        KeyAssignment::QuickSelect => Some(mk(
            "Enter QuickSelect mode",
            "Activates the quick selection UI for the current pane",
            keys1(Modifiers::ctrl().union(Modifiers::shift()), "Space"),
            arg_slice_pane(),
            menu_slice_edit(),
        )),
        KeyAssignment::QuickSelectArgs(_) => Some(mk(
            "Enter QuickSelect mode",
            "Activates the quick selection UI for the current pane",
            keys0(),
            arg_slice_pane(),
            menu_slice_none(),
        )),
        KeyAssignment::CharSelect(_) => Some(mk(
            "Enter Emoji / Character selection mode",
            "Activates the character selection UI for the current pane",
            keys1(Modifiers::ctrl().union(Modifiers::shift()), "u"),
            arg_slice_pane(),
            menu_slice_edit(),
        )),
        KeyAssignment::PaneSelect(_) => Some(mk(
            "Enter Pane selection mode",
            "Activates the pane selection UI",
            keys0(),
            arg_slice_pane(),
            menu_slice_window(),
        )),
        KeyAssignment::ActivateCopyMode => Some(mk(
            "Activate Copy Mode",
            "Enter mouse-less copy mode to select text using only the keyboard",
            keys1(Modifiers::ctrl().union(Modifiers::shift()), "x"),
            arg_slice_pane(),
            menu_slice_edit(),
        )),
        KeyAssignment::CopyMode(_) => Some(mk(
            "Activate Copy Mode",
            "Activate Copy Mode",
            keys0(),
            arg_slice_pane(),
            menu_slice_edit(),
        )),
        KeyAssignment::ActivateCommandPalette => Some(mk(
            "Activate Command Palette",
            "Shows the command palette modal",
            keys1(Modifiers::ctrl().union(Modifiers::shift()), "p"),
            arg_slice_pane(),
            menu_slice_edit(),
        )),
        _ => None,
    }
}

/// Whether the action is about the font size.
pub open spec fn is_font_action(a: ActionView) -> bool {
    ||| a is DecreaseFontSize
    ||| a is IncreaseFontSize
    ||| a is ResetFontSize
    ||| a is ResetFontAndWindowSize
}

/// Describes the actions about the font size.
fn describe_font(action: &KeyAssignment) -> (r: Option<CommandDef>)
    requires
        action_in_range(action@),
        is_font_action(action@),
    ensures
        command_option_view(r) == command_spec(action@),
    decreases action, 1nat,
{
    match action {
        KeyAssignment::DecreaseFontSize => Some(mk(
            "Decrease font size",
            "Scales the font size smaller by 10%",
            keys2(Modifiers::super_key(), "-", Modifiers::ctrl(), "-"),
            arg_slice_window(),
            menu_slice_view_font(),
        )),
        KeyAssignment::IncreaseFontSize => Some(mk(
            "Increase font size",
            "Scales the font size larger by 10%",
            keys2(Modifiers::super_key(), "=", Modifiers::ctrl(), "="),
            arg_slice_window(),
            menu_slice_view_font(),
        )),
        KeyAssignment::ResetFontSize => Some(mk(
            "Reset font size",
            "Restores the font size to match your configuration file",
            keys2(Modifiers::super_key(), "0", Modifiers::ctrl(), "0"),
            arg_slice_window(),
            menu_slice_view_font(),
        )),
        KeyAssignment::ResetFontAndWindowSize => Some(mk(
            "Reset the window and font size",
            "Restores the original window and font size",
            keys0(),
            arg_slice_window(),
            menu_slice_view_font(),
        )),
        _ => None,
    }
}

/// Whether the action is about spawning programs.
pub open spec fn is_spawn_action(a: ActionView) -> bool {
    ||| a is SpawnTab
    ||| a is SpawnCommandInNewTab
    ||| a is SpawnCommandInNewWindow
    ||| a is SplitVertical
    ||| a is SplitHorizontal
    ||| a is SplitPane
}

/// Describes the actions about spawning programs.
fn describe_spawn(action: &KeyAssignment) -> (r: Option<CommandDef>)
    requires
        action_in_range(action@),
        is_spawn_action(action@),
    ensures
        command_option_view(r) == command_spec(action@),
    decreases action, 1nat,
{
    match action {
        KeyAssignment::SpawnTab(SpawnTabDomain::CurrentPaneDomain) => Some(mk(
            "New Tab",
            "Create a new tab in the same domain as the current pane",
            keys1(Modifiers::super_key(), "t"),
            arg_slice_window(),
            menu_slice_shell(),
        )),
        KeyAssignment::SpawnTab(SpawnTabDomain::DefaultDomain) => Some(mk(
            "New Tab (Default Domain)",
            "Create a new tab in the default domain",
            keys0(),
            arg_slice_window(),
            menu_slice_shell(),
        )),
        KeyAssignment::SpawnTab(SpawnTabDomain::DomainName(name)) => {
            Some(mk_owned(
                cat3("New Tab (`", name.as_str(), "` Domain)"),
                cat2("Create a new tab in the domain named ", name.as_str()),
                keys0(),
                arg_slice_window(),
                menu_slice_shell(),
            ))
        },
        KeyAssignment::SpawnTab(SpawnTabDomain::DomainId(id)) => {
            let t = usize_text(*id);
            Some(mk_owned(
                cat3("New Tab (Domain with id ", t.as_str(), ")"),
                cat2("Create a new tab in the domain with id ", t.as_str()),
                keys0(),
                arg_slice_window(),
                menu_slice_shell(),
            ))
        },
        KeyAssignment::SpawnCommandInNewTab(c) => {
            let t = spawn_command_name(c);
            Some(mk_owned(
                cat2("Spawn a new Tab with ", t.as_str()),
                cat2("Spawn a new Tab with ", t.as_str()),
                keys0(),
                arg_slice_none(),
                menu_slice_none(),
            ))
        },
        KeyAssignment::SpawnCommandInNewWindow(c) => {
            let t = spawn_command_name(c);
            Some(mk_owned(
                cat2("Spawn a new Window with ", t.as_str()),
                cat2("Spawn a new Window with ", t.as_str()),
                keys0(),
                arg_slice_none(),
                menu_slice_none(),
            ))
        },
        KeyAssignment::SplitVertical(SpawnCommand { domain: SpawnTabDomain::CurrentPaneDomain, .. }) => Some(mk(
            "Split Vertically (Top/Bottom)",
            "Split the current pane vertically into two panes, by spawning the default program into the bottom half",
            keys1(Modifiers::ctrl().union(Modifiers::alt()).union(Modifiers::shift()), "'"),
            arg_slice_pane(),
            menu_slice_shell(),
        )),
        KeyAssignment::SplitHorizontal(SpawnCommand { domain: SpawnTabDomain::CurrentPaneDomain, .. }) => Some(mk(
            "Split Horizontally (Left/Right)",
            "Split the current pane horizontally into two panes, by spawning the default program into the right hand side",
            keys1(Modifiers::ctrl().union(Modifiers::alt()).union(Modifiers::shift()), "5"),
            arg_slice_pane(),
            menu_slice_shell(),
        )),
        KeyAssignment::SplitHorizontal(_) => Some(mk(
            "Split Horizontally (Left/Right)",
            "Split the current pane horizontally into two panes, by spawning the default program into the right hand side",
            keys0(),
            arg_slice_pane(),
            menu_slice_none(),
        )),
        KeyAssignment::SplitVertical(_) => Some(mk(
            "Split Vertically (Top/Bottom)",
            "Split the current pane veritically into two panes, by spawning the default program into the bottom",
            keys0(),
            arg_slice_pane(),
            menu_slice_none(),
        )),
        KeyAssignment::SplitPane(split) => {
            let t = pane_direction_name(split.direction);
            Some(mk_owned(
                cat2("Split the current pane ", t),
                cat2("Split the current pane ", t),
                keys0(),
                arg_slice_pane(),
                menu_slice_none(),
            ))
        },
        _ => None,
    }
}

/// Whether the action is about tabs.
pub open spec fn is_tab_action(a: ActionView) -> bool {
    ||| a is ActivateTab
    ||| a is CloseCurrentTab
    ||| a is ActivateLastTab
    ||| a is ShowTabNavigator
    ||| a is MoveTab
}

/// Describes the actions about tabs.
fn describe_tab(action: &KeyAssignment) -> (r: Option<CommandDef>)
    requires
        action_in_range(action@),
        is_tab_action(action@),
    ensures
        command_option_view(r) == command_spec(action@),
    decreases action, 1nat,
{
    match action {
        KeyAssignment::ActivateTab(-1) => Some(mk(
                "Activate right-most tab",
                "Activates the tab on the far right",
                keys1(Modifiers::super_key(), "9"),
                arg_slice_window(),
                menu_slice_window_tab(),
            )),
        KeyAssignment::ActivateTab(n) => {
            let n = *n;
            let ordinal = english_ordinal(n);
            let keys = if n >= 0 && n <= 7 {
                keys1_owned(Modifiers::super_key(), isize_text(n + 1))
            } else {
                keys0()
            };
            Some(mk_owned(
                cat3("Activate ", ordinal.as_str(), " Tab"),
                cat3("Activates the ", ordinal.as_str(), " tab"),
                keys,
                arg_slice_window(),
                menu_slice_window_tab(),
            ))
        },
        KeyAssignment::CloseCurrentTab { confirm: true } => Some(mk(
            "Close current Tab",
            "Closes the current tab, terminating all the processes that are running in its panes.",
            keys1(Modifiers::super_key(), "w"),
            arg_slice_tab(),
            menu_slice_shell(),
        )),
        KeyAssignment::CloseCurrentTab { confirm: false } => Some(mk(
            "Close current Tab",
            "Closes the current tab, terminating all the processes that are running in its panes.",
            keys0(),
            arg_slice_tab(),
            menu_slice_none(),
        )),
        KeyAssignment::MoveTab(n) => {
            let t = usize_text(*n + 1);
            Some(mk_owned(
                cat2("Move tab to index ", t.as_str()),
                cat2("Rearranges the tabs so that the current tab moves to position ", t.as_str()),
                keys0(),
                arg_slice_tab(),
                menu_slice_none(),
            ))
        },
        KeyAssignment::ActivateLastTab => Some(mk(
            "Activate the last active tab",
            "If there was no prior active tab, has no effect.",
            keys0(),
            arg_slice_window(),
            menu_slice_window_tab(),
        )),
        KeyAssignment::ShowTabNavigator => Some(mk(
            "Navigate tabs",
            "Shows the tab navigator",
            keys0(),
            arg_slice_window(),
            menu_slice_window_tab(),
        )),
        _ => None,
    }
}

/// Whether the action is about moving between tabs.
pub open spec fn is_tab_move_action(a: ActionView) -> bool {
    ||| a is ActivateTabRelative
    ||| a is ActivateTabRelativeNoWrap
    ||| a is MoveTabRelative
}

/// Describes the actions about moving between tabs.
fn describe_tab_move(action: &KeyAssignment) -> (r: Option<CommandDef>)
    requires
        action_in_range(action@),
        is_tab_move_action(action@),
    ensures
        command_option_view(r) == command_spec(action@),
    decreases action, 1nat,
{
    match action {
        KeyAssignment::ActivateTabRelative(-1) => Some(mk(
                "Activate the tab to the left",
                "Activates the tab to the left. If this is the left-most tab then cycles around and activates the right-most tab",
                keys3(Modifiers::super_key().union(Modifiers::shift()), "[", Modifiers::ctrl().union(Modifiers::shift()), "Tab", Modifiers::ctrl(), "PageUp"),
                arg_slice_window(),
                menu_slice_window_tab(),
            )),
        KeyAssignment::ActivateTabRelative(1) => Some(mk(
                "Activate the tab to the right",
                "Activates the tab to the right. If this is the right-most tab then cycles around and activates the left-most tab",
                keys3(Modifiers::super_key().union(Modifiers::shift()), "]", Modifiers::ctrl(), "Tab", Modifiers::ctrl(), "PageDown"),
                arg_slice_window(),
                menu_slice_window_tab(),
            )),
        KeyAssignment::ActivateTabRelative(n) => {
            let (direction, amount) = if *n < 0 {
                ("left", -*n)
            } else {
                ("right", *n)
            };
            let ordinal = english_ordinal(amount);
            Some(mk_owned(
                cat4("Activate the ", ordinal.as_str(), " tab to the ", direction),
                cat5("Activates the ", ordinal.as_str(), " tab to the ", direction, ". Wraps around to the other end"),
                keys0(),
                arg_slice_window(),
                menu_slice_none(),
            ))
        },
        KeyAssignment::ActivateTabRelativeNoWrap(-1) => Some(mk(
                "Activate the tab to the left (no wrapping)",
                "Activates the tab to the left. Stopping at the left-most tab",
                keys0(),
                arg_slice_window(),
                menu_slice_none(),
            )),
        KeyAssignment::ActivateTabRelativeNoWrap(1) => Some(mk(
                "Activate the tab to the right (no wrapping)",
                "Activates the tab to the right. Stopping at the right-most tab",
                keys0(),
                arg_slice_window(),
                menu_slice_none(),
            )),
        KeyAssignment::ActivateTabRelativeNoWrap(n) => {
            let (direction, amount) = if *n < 0 {
                ("left", -*n)
            } else {
                ("right", *n)
            };
            let ordinal = english_ordinal(amount);
            Some(mk_owned(
                cat4("Activate the ", ordinal.as_str(), " tab to the ", direction),
                cat4("Activates the ", ordinal.as_str(), " tab to the ", direction),
                keys0(),
                arg_slice_window(),
                menu_slice_none(),
            ))
        },
        KeyAssignment::MoveTabRelative(-1) => Some(mk(
                "Move tab one place to the left",
                "Rearranges the tabs so that the current tab moves one place to the left",
                keys1(Modifiers::ctrl().union(Modifiers::shift()), "PageUp"),
                arg_slice_tab(),
                menu_slice_window_move(),
            )),
        KeyAssignment::MoveTabRelative(1) => Some(mk(
                "Move tab one place to the right",
                "Rearranges the tabs so that the current tab moves one place to the right",
                keys1(Modifiers::ctrl().union(Modifiers::shift()), "PageDown"),
                arg_slice_tab(),
                menu_slice_window_move(),
            )),
        KeyAssignment::MoveTabRelative(n) => {
            let (direction, amount) = if *n < 0 {
                ("left", isize_text(-*n))
            } else {
                ("right", isize_text(*n))
            };
            Some(mk_owned(
                cat4("Move tab ", amount.as_str(), " place(s) to the ", direction),
                cat4("Rearranges the tabs so that the current tab moves ", amount.as_str(), " place(s) to the ", direction),
                keys0(),
                arg_slice_tab(),
                menu_slice_none(),
            ))
        },
        _ => None,
    }
}

/// Whether the action is about panes.
pub open spec fn is_pane_action(a: ActionView) -> bool {
    ||| a is ActivatePaneByIndex
    ||| a is SetPaneZoomState
    ||| a is CloseCurrentPane
    ||| a is AdjustPaneSize
    ||| a is ActivatePaneDirection
    ||| a is TogglePaneZoomState
    ||| a is RotatePanes
}

/// Describes the actions about panes.
fn describe_pane(action: &KeyAssignment) -> (r: Option<CommandDef>)
    requires
        action_in_range(action@),
        is_pane_action(action@),
    ensures
        command_option_view(r) == command_spec(action@),
    decreases action, 1nat,
{
    match action {
        KeyAssignment::ActivatePaneByIndex(n) => {
            let ordinal = english_ordinal(*n as isize);
            Some(mk_owned(
                cat3("Activate ", ordinal.as_str(), " Pane"),
                cat3("Activates the ", ordinal.as_str(), " Pane"),
                keys0(),
                arg_slice_window(),
                menu_slice_none(),
            ))
        },
        KeyAssignment::SetPaneZoomState(true) => Some(mk(
            "Zooms the current Pane",
            "Places the current pane into the zoomed state, filling all of the space in the tab",
            keys0(),
            arg_slice_window(),
            menu_slice_none(),
        )),
        KeyAssignment::SetPaneZoomState(false) => Some(mk(
            "Un-Zooms the current Pane",
            "Takes the current pane out of the zoomed state",
            keys0(),
            arg_slice_window(),
            menu_slice_none(),
        )),
        KeyAssignment::CloseCurrentPane { confirm: true } => Some(mk(
            "Close current Pane",
            "Closes the current pane, terminating the processes that are running inside it.",
            keys0(),
            arg_slice_pane(),
            menu_slice_shell(),
        )),
        KeyAssignment::CloseCurrentPane { confirm: false } => Some(mk(
            "Close current Pane",
            "Closes the current pane, terminating the processes that are running inside it.",
            keys0(),
            arg_slice_pane(),
            menu_slice_none(),
        )),
        KeyAssignment::AdjustPaneSize(PaneDirection::Left, amount) => {
            let t = usize_text(*amount);
            Some(mk_owned(
                cat3("Resize Pane ", t.as_str(), " cells to the Left"),
                String::from_str("Adjusts the closest split divider to the left"),
                keys1(Modifiers::ctrl().union(Modifiers::alt()).union(Modifiers::shift()), "LeftArrow"),
                arg_slice_pane(),
                menu_slice_window_resize(),
            ))
        },
        KeyAssignment::AdjustPaneSize(PaneDirection::Right, amount) => {
            let t = usize_text(*amount);
            Some(mk_owned(
                cat3("Resize Pane ", t.as_str(), " cells to the Right"),
                String::from_str("Adjusts the closest split divider to the right"),
                keys1(Modifiers::ctrl().union(Modifiers::alt()).union(Modifiers::shift()), "RightArrow"),
                arg_slice_pane(),
                menu_slice_window_resize(),
            ))
        },
        KeyAssignment::AdjustPaneSize(PaneDirection::Up, amount) => {
            let t = usize_text(*amount);
            Some(mk_owned(
                cat3("Resize Pane ", t.as_str(), " cells Upwards"),
                String::from_str("Adjusts the closest split divider towards the top"),
                keys1(Modifiers::ctrl().union(Modifiers::alt()).union(Modifiers::shift()), "UpArrow"),
                arg_slice_pane(),
                menu_slice_window_resize(),
            ))
        },
        KeyAssignment::AdjustPaneSize(PaneDirection::Down, amount) => {
            let t = usize_text(*amount);
            Some(mk_owned(
                cat3("Resize Pane ", t.as_str(), " cells Downwards"),
                String::from_str("Adjusts the closest split divider towards the bottom"),
                keys1(Modifiers::ctrl().union(Modifiers::alt()).union(Modifiers::shift()), "DownArrow"),
                arg_slice_pane(),
                menu_slice_window_resize(),
            ))
        },
        KeyAssignment::AdjustPaneSize(PaneDirection::Next, _) | KeyAssignment::AdjustPaneSize(PaneDirection::Prev, _) => None,
        KeyAssignment::ActivatePaneDirection(PaneDirection::Next) | KeyAssignment::ActivatePaneDirection(PaneDirection::Prev) => None,
        KeyAssignment::ActivatePaneDirection(PaneDirection::Left) => Some(mk(
            "Activate Pane Left",
            "Activates the pane to the left of the current pane",
            keys1(Modifiers::ctrl().union(Modifiers::shift()), "LeftArrow"),
            arg_slice_pane(),
            menu_slice_window_pane(),
        )),
        KeyAssignment::ActivatePaneDirection(PaneDirection::Right) => Some(mk(
            "Activate Pane Right",
            "Activates the pane to the right of the current pane",
            keys1(Modifiers::ctrl().union(Modifiers::shift()), "RightArrow"),
            arg_slice_pane(),
            menu_slice_window_pane(),
        )),
        KeyAssignment::ActivatePaneDirection(PaneDirection::Up) => Some(mk(
            "Activate Pane Up",
            "Activates the pane to the top of the current pane",
            keys1(Modifiers::ctrl().union(Modifiers::shift()), "UpArrow"),
            arg_slice_pane(),
            menu_slice_window_pane(),
        )),
        KeyAssignment::ActivatePaneDirection(PaneDirection::Down) => Some(mk(
            "Activate Pane Down",
            "Activates the pane to the bottom of the current pane",
            keys1(Modifiers::ctrl().union(Modifiers::shift()), "DownArrow"),
            arg_slice_pane(),
            menu_slice_window_pane(),
        )),
        KeyAssignment::TogglePaneZoomState => Some(mk(
            "Toggle Pane Zoom",
            "Toggles the zoom state for the current pane",
            keys1(Modifiers::ctrl().union(Modifiers::shift()), "z"),
            arg_slice_pane(),
            menu_slice_window(),
        )),
        KeyAssignment::RotatePanes(x) => {
            let t = rotation_name(*x);
            Some(mk_owned(
                cat2("Rotate panes ", t),
                cat2("Rotate panes ", t),
                keys0(),
                arg_slice_pane(),
                menu_slice_window_rotate(),
            ))
        },
        _ => None,
    }
}

/// Whether the action is about domains and the launcher.
pub open spec fn is_domain_action(a: ActionView) -> bool {
    ||| a is DetachDomain
    ||| a is AttachDomain
    ||| a is ShowLauncher
    ||| a is ShowLauncherArgs
}

/// Describes the actions about domains and the launcher.
fn describe_domain(action: &KeyAssignment) -> (r: Option<CommandDef>)
    requires
        action_in_range(action@),
        is_domain_action(action@),
    ensures
        command_option_view(r) == command_spec(action@),
    decreases action, 1nat,
{
    match action {
        KeyAssignment::ShowLauncherArgs(_) | KeyAssignment::ShowLauncher => Some(mk(
            "Show the launcher",
            "Shows the launcher menu",
            keys0(),
            arg_slice_window(),
            menu_slice_shell(),
        )),
        KeyAssignment::DetachDomain(SpawnTabDomain::CurrentPaneDomain) => Some(mk(
            "Detach the domain of the active pane",
            "Detaches (disconnects from) the domain of the active pane",
            keys0(),
            arg_slice_pane(),
            menu_slice_shell_detach(),
        )),
        KeyAssignment::DetachDomain(SpawnTabDomain::DefaultDomain) => Some(mk(
            "Detach the default domain",
            "Detaches (disconnects from) the default domain",
            keys0(),
            arg_slice_pane(),
            menu_slice_shell_detach(),
        )),
        KeyAssignment::DetachDomain(SpawnTabDomain::DomainName(name)) => {
            Some(mk_owned(
                cat3("Detach the `", name.as_str(), "` domain"),
                cat3("Detaches (disconnects from) the domain named `", name.as_str(), "`"),
                keys0(),
                arg_slice_pane(),
                menu_slice_shell_detach(),
            ))
        },
        KeyAssignment::DetachDomain(SpawnTabDomain::DomainId(id)) => {
            let t = usize_text(*id);
            Some(mk_owned(
                cat2("Detach the domain with id ", t.as_str()),
                cat2("Detaches (disconnects from) the domain with id ", t.as_str()),
                keys0(),
                arg_slice_pane(),
                menu_slice_shell_detach(),
            ))
        },
        KeyAssignment::AttachDomain(name) => {
            Some(mk_owned(
                cat3("Attach domain `", name.as_str(), "`"),
                cat3("Attach domain `", name.as_str(), "`"),
                keys0(),
                arg_slice_pane(),
                menu_slice_none(),
            ))
        },
        _ => None,
    }
}

/// Whether the action is about input, events and key tables.
pub open spec fn is_input_action(a: ActionView) -> bool {
    ||| a is EmitEvent
    ||| a is SendString
    ||| a is SendKey
    ||| a is Nop
    ||| a is DisableDefaultAssignment
    ||| a is ActivateKeyTable
    ||| a is PopKeyTable
    ||| a is ClearKeyTableStack
    ||| a is ResetTerminal
}

/// Describes the actions about input, events and key tables.
fn describe_input(action: &KeyAssignment) -> (r: Option<CommandDef>)
    requires
        action_in_range(action@),
        is_input_action(action@),
    ensures
        command_option_view(r) == command_spec(action@),
    decreases action, 1nat,
{
    match action {
        KeyAssignment::EmitEvent(name) => {
            Some(mk_owned(
                cat3("Emit event `", name.as_str(), "`"),
                String::from_str("Emits the named event, causing any associated event handler(s) to trigger"),
                keys0(),
                arg_slice_window(),
                menu_slice_none(),
            ))
        },
        KeyAssignment::ClearKeyTableStack => Some(mk(
            "Clear the key table stack",
            "Removes all entries from the stack",
            keys0(),
            arg_slice_window(),
            menu_slice_edit(),
        )),
        KeyAssignment::SendString(text) => {
            Some(mk_owned(
                cat3("Sends `", text.as_str(), "` to the active pane, as though you typed it"),
                cat3("Sends `", text.as_str(), "` to the active pane, as though you typed it"),
                keys0(),
                arg_slice_none(),
                menu_slice_none(),
            ))
        },
        KeyAssignment::SendKey(key) => {
            let t = key_no_action_name(key);
            Some(mk_owned(
                cat3("Sends ", t.as_str(), " to the active pane, as though you typed it"),
                cat3("Sends ", t.as_str(), " to the active pane, as though you typed it"),
                keys0(),
                arg_slice_none(),
                menu_slice_none(),
            ))
        },
        KeyAssignment::Nop => Some(mk(
            "Does nothing",
            "Has no effect",
            keys0(),
            arg_slice_none(),
            menu_slice_none(),
        )),
        KeyAssignment::DisableDefaultAssignment => None,
        KeyAssignment::ActivateKeyTable { name, .. } => {
            Some(mk_owned(
                cat3("Activate key table `", name.as_str(), "`"),
                cat3("Activate key table `", name.as_str(), "`"),
                keys0(),
                arg_slice_pane(),
                menu_slice_none(),
            ))
        },
        KeyAssignment::PopKeyTable => Some(mk(
            "Pop the current key table",
            "Pop the current key table",
            keys0(),
            arg_slice_pane(),
            menu_slice_none(),
        )),
        KeyAssignment::ResetTerminal => Some(mk(
            "Reset the terminal emulation state in the current pane",
            "Reset the terminal emulation state in the current pane",
            keys0(),
            arg_slice_pane(),
            menu_slice_shell(),
        )),
        _ => None,
    }
}

/// Whether the action is about the selection and links.
pub open spec fn is_selection_action(a: ActionView) -> bool {
    ||| a is SelectTextAtMouseCursor
    ||| a is ExtendSelectionToMouseCursor
    ||| a is ClearSelection
    ||| a is OpenLinkAtMouseCursor
    ||| a is OpenUri
}

/// Describes the actions about the selection and links.
fn describe_selection(action: &KeyAssignment) -> (r: Option<CommandDef>)
    requires
        action_in_range(action@),
        is_selection_action(action@),
    ensures
        command_option_view(r) == command_spec(action@),
    decreases action, 1nat,
{
    match action {
        KeyAssignment::OpenLinkAtMouseCursor => Some(mk(
            "Open link at mouse cursor",
            "If there is no link under the mouse cursor, has no effect.",
            keys0(),
            arg_slice_pane(),
            menu_slice_shell(),
        )),
        KeyAssignment::OpenUri(uri) => {
            if text_is(uri, "https://wezfurlong.org/wezterm/") {
                Some(mk(
                "Documentation",
                "Visit the wezterm documentation website",
                keys0(),
                arg_slice_none(),
                menu_slice_help(),
            ))
            } else if text_is(uri, "https://github.com/wez/wezterm/discussions/") {
                Some(mk(
                "Discuss on GitHub",
                "Visit wezterm's GitHub discussion",
                keys0(),
                arg_slice_none(),
                menu_slice_help(),
            ))
            } else if text_is(uri, "https://github.com/wez/wezterm/issues/") {
                Some(mk(
                "Search or report issue on GitHub",
                "Visit wezterm's GitHub issues",
                keys0(),
                arg_slice_none(),
                menu_slice_help(),
            ))
            } else {
                Some(mk_owned(
                cat3("Open ", uri.as_str(), " in your browser"),
                cat3("Open ", uri.as_str(), " in your browser"),
                keys0(),
                arg_slice_none(),
                menu_slice_none(),
            ))
            }
        },
        KeyAssignment::SelectTextAtMouseCursor(x) => {
            let t = selection_mode_name(*x);
            Some(mk_owned(
                cat2("Selects text at the mouse cursor location using ", t),
                cat2("Selects text at the mouse cursor location using ", t),
                keys0(),
                arg_slice_none(),
                menu_slice_none(),
            ))
        },
        KeyAssignment::ExtendSelectionToMouseCursor(x) => {
            let t = selection_mode_name(*x);
            Some(mk_owned(
                cat2("Extends the selection text to the mouse cursor location using ", t),
                cat2("Extends the selection text to the mouse cursor location using ", t),
                keys0(),
                arg_slice_none(),
                menu_slice_none(),
            ))
        },
        KeyAssignment::ClearSelection => Some(mk(
            "Clears the selection in the current pane",
            "Clears the selection in the current pane",
            keys0(),
            arg_slice_none(),
            menu_slice_none(),
        )),
        _ => None,
    }
}

/// Whether the action is about workspaces and sequences of actions.
pub open spec fn is_workspace_action(a: ActionView) -> bool {
    ||| a is Multiple
    ||| a is SwitchToWorkspace
    ||| a is SwitchWorkspaceRelative
}

/// Describes the actions about workspaces and sequences of actions.
fn describe_workspace(action: &KeyAssignment) -> (r: Option<CommandDef>)
    requires
        action_in_range(action@),
        is_workspace_action(action@),
    ensures
        command_option_view(r) == command_spec(action@),
    decreases action, 1nat,
{
    match action {
        KeyAssignment::Multiple(actions) => {
            let brief = describe_all(actions);
            Some(mk_owned(
                brief,
                String::from_str("Performs multiple nested actions"),
                keys0(),
                arg_slice_pane(),
                menu_slice_none(),
            ))
        },
        KeyAssignment::SwitchToWorkspace { name: None, spawn: None } => Some(mk(
            "Spawn the default program into a new workspace and switch to it",
            "Spawn the default program into a new workspace and switch to it",
            keys0(),
            arg_slice_none(),
            menu_slice_window_workspace(),
        )),
        KeyAssignment::SwitchToWorkspace { name: Some(name), spawn: None } => {
            Some(mk_owned(
                cat3("Switch to workspace `", name.as_str(), "`, spawn the default program if that workspace doesn't already exist"),
                cat3("Switch to workspace `", name.as_str(), "`, spawn the default program if that workspace doesn't already exist"),
                keys0(),
                arg_slice_none(),
                menu_slice_window_workspace(),
            ))
        },
        KeyAssignment::SwitchToWorkspace { name: Some(name), spawn: Some(prog) } => {
            let p = spawn_command_name(prog);
            Some(mk_owned(
                cat5("Switch to workspace `", name.as_str(), "`, spawn ", p.as_str(), " if that workspace doesn't already exist"),
                cat5("Switch to workspace `", name.as_str(), "`, spawn ", p.as_str(), " if that workspace doesn't already exist"),
                keys0(),
                arg_slice_none(),
                menu_slice_window_workspace(),
            ))
        },
        KeyAssignment::SwitchToWorkspace { name: None, spawn: Some(prog) } => {
            let p = spawn_command_name(prog);
            Some(mk_owned(
                cat3("Spawn the ", p.as_str(), " into a new workspace and switch to it"),
                cat3("Spawn the ", p.as_str(), " into a new workspace and switch to it"),
                keys0(),
                arg_slice_none(),
                menu_slice_window_workspace(),
            ))
        },
        KeyAssignment::SwitchWorkspaceRelative(n) => {
            let (direction, amount) = if *n < 0 {
                ("previous", -*n)
            } else {
                ("next", *n)
            };
            let ordinal = english_ordinal(amount);
            Some(mk_owned(
                cat5("Switch to ", ordinal.as_str(), " ", direction, " workspace"),
                cat5("Switch to the ", ordinal.as_str(), " ", direction, " workspace, ordered lexicographically by workspace name"),
                keys0(),
                arg_slice_pane(),
                menu_slice_window_workspace(),
            ))
        },
        _ => None,
    }
}

/// Every action of a list that stays clear of overflow does so.
pub proof fn lemma_actions_in_range_index(v: Seq<ActionView>, i: int)
    requires
        actions_in_range(v),
        0 <= i < v.len(),
    ensures
        action_in_range(v[i]),
    decreases v.len(),
{
    if i < v.len() - 1 {
        lemma_actions_in_range_index(v.drop_last(), i);
    }
}

/// Whether an action can be described without overflow, as
/// [`action_in_range`] says: the test to make before describing an action
/// that a user wrote.
pub fn action_in_range_check(action: &KeyAssignment) -> (b: bool)
    ensures
        b == action_in_range(action@),
    decreases action, 1nat,
{
    match action {
        KeyAssignment::ActivateTabRelative(n) => *n != isize::MIN,
        KeyAssignment::ActivateTabRelativeNoWrap(n) => *n != isize::MIN,
        KeyAssignment::MoveTabRelative(n) => *n != isize::MIN,
        KeyAssignment::ScrollByLine(n) => *n != isize::MIN,
        KeyAssignment::ScrollToPrompt(n) => *n != isize::MIN,
        KeyAssignment::SwitchWorkspaceRelative(n) => *n != isize::MIN,
        KeyAssignment::MoveTab(n) => *n < usize::MAX,
        KeyAssignment::Multiple(v) => actions_in_range_check(v),
        _ => true,
    }
}

/// Whether every action of the list can be described without overflow.
fn actions_in_range_check(actions: &Vec<KeyAssignment>) -> (b: bool)
    ensures
        b == actions_in_range(actions_view(actions@)),
    decreases actions, 0nat,
{
    let n = actions.len();
    let ghost views = actions_view(actions@);
    let mut ok = true;
    assert(views.take(0) =~= Seq::<ActionView>::empty());
    for i in 0..n
        invariant
            n == actions.len(),
            views == actions_view(actions@),
            ok == actions_in_range(views.take(i as int)),
    {
        proof {
            lemma_actions_view_index(actions@, i as int);
            assert(views.take(i + 1).drop_last() =~= views.take(i as int));
            assert(views.take(i + 1).last() == views[i as int]);
        }
        let this = action_in_range_check(&actions[i]);
        ok = ok && this;
    }
    proof {
        crate::assignment::lemma_actions_view_len(actions@);
    }
    assert(views.take(n as int) =~= views);
    ok
}

/// The brief of a list of actions, as [`multiple_brief`] says.
fn describe_all(actions: &Vec<KeyAssignment>) -> (r: String)
    requires
        actions_in_range(actions_view(actions@)),
    ensures
        r@ == multiple_brief(actions_view(actions@)),
    decreases actions, 0nat,
{
    let mut brief = String::new();
    let n = actions.len();
    let ghost views = actions_view(actions@);
    for i in 0..n
        invariant
            n == actions.len(),
            views == actions_view(actions@),
            actions_in_range(views),
            brief@ == multiple_brief(views.take(i as int)),
    {
        proof {
            lemma_actions_view_index(actions@, i as int);
            lemma_actions_in_range_index(views, i as int);
            assert(views.take(i + 1).drop_last() =~= views.take(i as int));
            assert(views.take(i + 1).last() == views[i as int]);
        }
        if !brief.as_str().is_empty() {
            brief.append(", ");
        }
        match derive_command_from_key_assignment(&actions[i]) {
            Some(c) => brief.append(c.brief.as_str()),
            None => {
                let t = unnamed_action_name(&actions[i]);
                brief.append(t.as_str());
            },
        }
    }
    proof {
        crate::assignment::lemma_actions_view_len(actions@);
    }
    assert(views.take(n as int) =~= views);
    brief
}

} // verus!
