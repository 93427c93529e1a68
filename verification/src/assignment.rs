//! The key assignment actions, with the arguments that describe them, and
//! their mathematical views.
use vstd::prelude::*;
use crate::modifiers::Modifiers;

verus! {

/// Where a paste takes its text from.
#[derive(Clone, Copy, Debug, PartialEq, Eq, Structural)]
pub enum ClipboardPasteSource {
    Clipboard,
    PrimarySelection,
}

/// Where a copy puts its text.
#[derive(Clone, Copy, Debug, PartialEq, Eq, Structural)]
pub enum ClipboardCopyDestination {
    Clipboard,
    PrimarySelection,
    ClipboardAndPrimarySelection,
}

/// How much of a pane a clear erases.
#[derive(Clone, Copy, Debug, PartialEq, Eq, Structural)]
pub enum ScrollbackEraseMode {
    ScrollbackOnly,
    ScrollbackAndViewport,
}

/// What a search looks for.
#[derive(Debug)]
pub enum Pattern {
    CaseSensitiveString(String),
    CaseInSensitiveString(String),
    Regex(String),
    CurrentSelectionOrEmptyString,
}

/// The options of the quick selection mode. Describing the action does not
/// read them, so the model carries none.
#[derive(Clone, Copy, Debug, PartialEq, Eq, Structural)]
pub struct QuickSelectArguments;

/// The options of the character selection mode (none are read here).
#[derive(Clone, Copy, Debug, PartialEq, Eq, Structural)]
pub struct CharSelectArguments;

/// The options of the pane selection mode (none are read here).
#[derive(Clone, Copy, Debug, PartialEq, Eq, Structural)]
pub struct PaneSelectArguments;

/// The options of the launcher (none are read here).
#[derive(Clone, Copy, Debug, PartialEq, Eq, Structural)]
pub struct LauncherActionArgs;

/// An action of copy mode (none of its detail is read here).
#[derive(Clone, Copy, Debug, PartialEq, Eq, Structural)]
pub struct CopyModeAssignment;

/// The domain that a new tab or pane is spawned into.
#[derive(Debug)]
pub enum SpawnTabDomain {
    DefaultDomain,
    CurrentPaneDomain,
    DomainId(usize),
    DomainName(String),
}

/// A length along one side of the screen: its unit, and its number held as
/// the decimal text that `Display` writes for it.
#[derive(Debug)]
pub enum Dimension {
    Points(String),
    Pixels(String),
    Percent(String),
    Cells(String),
}

/// What the position of a new window is measured from.
#[derive(Debug)]
pub enum GeometryOrigin {
    ScreenCoordinateSystem,
    MainScreen,
    ActiveScreen,
    Named(String),
}

/// Where a new window is placed.
#[derive(Debug)]
pub struct GuiPosition {
    pub x: Dimension,
    pub y: Dimension,
    pub origin: GeometryOrigin,
}

/// A program to spawn.
#[derive(Debug)]
pub struct SpawnCommand {
    /// The label to show for it in menus.
    pub label: Option<String>,
    /// The program and its arguments; the default program when absent.
    pub args: Option<Vec<String>>,
    /// The working directory.
    pub cwd: Option<String>,
    /// The environment variables to set for it, each as its name and its
    /// value, in the order in which they are listed.
    pub set_environment_variables: Vec<(String, String)>,
    /// Where to spawn it.
    pub domain: SpawnTabDomain,
    /// Where to place a new window for it; the default place when absent.
    pub position: Option<GuiPosition>,
}

/// A direction among panes.
#[derive(Clone, Copy, Debug, PartialEq, Eq, Structural)]
pub enum PaneDirection {
    Up,
    Down,
    Left,
    Right,
    Next,
    Prev,
}

/// The unit of a mouse selection.
#[derive(Clone, Copy, Debug, PartialEq, Eq, Structural)]
pub enum SelectionMode {
    Cell,
    Word,
    Line,
    SemanticZone,
    Block,
}

/// Which way panes rotate.
#[derive(Clone, Copy, Debug, PartialEq, Eq, Structural)]
pub enum RotationDirection {
    Clockwise,
    CounterClockwise,
}

/// The size of a new split.
#[derive(Clone, Copy, Debug, PartialEq, Eq, Structural)]
pub enum SplitSize {
    Cells(usize),
    Percent(u8),
}

/// How to split a pane.
#[derive(Debug)]
pub struct SplitPane {
    pub direction: PaneDirection,
    pub size: SplitSize,
    pub command: SpawnCommand,
    pub top_level: bool,
}

/// A key code, by the text that names it: the key's variant, with its
/// argument where it has one, as a description writes it out, such as
/// `Char('a')`, `LeftArrow`, `Function(1)` or `Physical(A)`.
#[derive(Clone, Debug)]
pub struct KeyCode {
    pub name: String,
}

impl View for KeyCode {
    type V = Seq<char>;

    open spec fn view(&self) -> Seq<char> {
        self.name@
    }
}

impl KeyCode {
    /// A copy of the key code.
    pub fn duplicate(&self) -> (r: KeyCode)
        ensures
            r@ == self@,
    {
        KeyCode { name: self.name.clone() }
    }
}

/// A key press sent to a pane: its key code and its modifiers.
#[derive(Debug)]
pub struct KeyNoAction {
    pub key: KeyCode,
    pub mods: Modifiers,
}

/// A number of pages to scroll, held as the decimal text of the number
/// ("-1", "0.5", "3", ...), a minus sign first when it is negative.
#[derive(Debug)]
pub struct PageAmount {
    pub text: String,
}

/// The actions that a key, a mouse event or a menu can trigger.
#[derive(Debug)]
pub enum KeyAssignment {
    SpawnTab(SpawnTabDomain),
    SpawnWindow,
    ToggleFullScreen,
    CopyTo(ClipboardCopyDestination),
    PasteFrom(ClipboardPasteSource),
    ActivateTabRelative(isize),
    ActivateTabRelativeNoWrap(isize),
    IncreaseFontSize,
    DecreaseFontSize,
    ResetFontSize,
    ResetFontAndWindowSize,
    ActivateTab(isize),
    ActivateLastTab,
    SendString(String),
    SendKey(KeyNoAction),
    Nop,
    DisableDefaultAssignment,
    Hide,
    Show,
    CloseCurrentTab { confirm: bool },
    ReloadConfiguration,
    MoveTabRelative(isize),
    MoveTab(usize),
    ScrollByPage(PageAmount),
    ScrollByLine(isize),
    ScrollByCurrentEventWheelDelta,
    ScrollToPrompt(isize),
    ScrollToTop,
    ScrollToBottom,
    ShowTabNavigator,
    ShowDebugOverlay,
    HideApplication,
    QuitApplication,
    SpawnCommandInNewTab(SpawnCommand),
    SpawnCommandInNewWindow(SpawnCommand),
    SplitHorizontal(SpawnCommand),
    SplitVertical(SpawnCommand),
    ShowLauncher,
    ShowLauncherArgs(LauncherActionArgs),
    ClearScrollback(ScrollbackEraseMode),
    Search(Pattern),
    ActivateCopyMode,
    SelectTextAtMouseCursor(SelectionMode),
    ExtendSelectionToMouseCursor(SelectionMode),
    OpenLinkAtMouseCursor,
    ClearSelection,
    CompleteSelection(ClipboardCopyDestination),
    CompleteSelectionOrOpenLinkAtMouseCursor(ClipboardCopyDestination),
    StartWindowDrag,
    AdjustPaneSize(PaneDirection, usize),
    ActivatePaneDirection(PaneDirection),
    ActivatePaneByIndex(usize),
    TogglePaneZoomState,
    SetPaneZoomState(bool),
    CloseCurrentPane { confirm: bool },
    EmitEvent(String),
    QuickSelect,
    QuickSelectArgs(QuickSelectArguments),
    Multiple(Vec<KeyAssignment>),
    SwitchToWorkspace { name: Option<String>, spawn: Option<SpawnCommand> },
    SwitchWorkspaceRelative(isize),
    ActivateKeyTable {
        name: String,
        timeout_milliseconds: Option<u64>,
        replace_current: bool,
        one_shot: bool,
        until_unknown: bool,
        prevent_fallback: bool,
    },
    PopKeyTable,
    ClearKeyTableStack,
    DetachDomain(SpawnTabDomain),
    AttachDomain(String),
    CopyMode(CopyModeAssignment),
    RotatePanes(RotationDirection),
    SplitPane(SplitPane),
    PaneSelect(PaneSelectArguments),
    CharSelect(CharSelectArguments),
    ResetTerminal,
    OpenUri(String),
    ActivateCommandPalette,
}

// ---------------------------------------------------------------------
// Views
// ---------------------------------------------------------------------

/// The view of a [`Dimension`].
pub enum DimensionView {
    Points(Seq<char>),
    Pixels(Seq<char>),
    Percent(Seq<char>),
    Cells(Seq<char>),
}

/// The view of a [`GeometryOrigin`].
pub enum OriginView {
    ScreenCoordinateSystem,
    MainScreen,
    ActiveScreen,
    Named(Seq<char>),
}

/// The view of a [`GuiPosition`].
pub struct PositionView {
    pub x: DimensionView,
    pub y: DimensionView,
    pub origin: OriginView,
}

/// The view of a [`SpawnTabDomain`].
pub enum DomainView {
    DefaultDomain,
    CurrentPaneDomain,
    DomainId(usize),
    DomainName(Seq<char>),
}

/// The view of a [`SpawnCommand`].
pub struct SpawnCommandView {
    pub label: Option<Seq<char>>,
    pub args: Option<Seq<Seq<char>>>,
    pub cwd: Option<Seq<char>>,
    pub set_environment_variables: Seq<(Seq<char>, Seq<char>)>,
    pub domain: DomainView,
    pub position: Option<PositionView>,
}

/// The view of a [`Pattern`].
pub enum PatternView {
    CaseSensitiveString(Seq<char>),
    CaseInSensitiveString(Seq<char>),
    Regex(Seq<char>),
    CurrentSelectionOrEmptyString,
}

/// The view of a [`SplitPane`].
pub struct SplitPaneView {
    pub direction: PaneDirection,
    pub size: SplitSize,
    pub command: SpawnCommandView,
    pub top_level: bool,
}

/// The view of a [`KeyNoAction`].
pub struct KeyNoActionView {
    pub key: Seq<char>,
    pub mods: Modifiers,
}

/// The view of a [`KeyAssignment`]: every string by its characters, every
/// list by its sequence.
pub enum ActionView {
    SpawnTab(DomainView),
    SpawnWindow,
    ToggleFullScreen,
    CopyTo(ClipboardCopyDestination),
    PasteFrom(ClipboardPasteSource),
    ActivateTabRelative(isize),
    ActivateTabRelativeNoWrap(isize),
    IncreaseFontSize,
    DecreaseFontSize,
    ResetFontSize,
    ResetFontAndWindowSize,
    ActivateTab(isize),
    ActivateLastTab,
    SendString(Seq<char>),
    SendKey(KeyNoActionView),
    Nop,
    DisableDefaultAssignment,
    Hide,
    Show,
    CloseCurrentTab { confirm: bool },
    ReloadConfiguration,
    MoveTabRelative(isize),
    MoveTab(usize),
    ScrollByPage(Seq<char>),
    ScrollByLine(isize),
    ScrollByCurrentEventWheelDelta,
    ScrollToPrompt(isize),
    ScrollToTop,
    ScrollToBottom,
    ShowTabNavigator,
    ShowDebugOverlay,
    HideApplication,
    QuitApplication,
    SpawnCommandInNewTab(SpawnCommandView),
    SpawnCommandInNewWindow(SpawnCommandView),
    SplitHorizontal(SpawnCommandView),
    SplitVertical(SpawnCommandView),
    ShowLauncher,
    ShowLauncherArgs(LauncherActionArgs),
    ClearScrollback(ScrollbackEraseMode),
    Search(PatternView),
    ActivateCopyMode,
    SelectTextAtMouseCursor(SelectionMode),
    ExtendSelectionToMouseCursor(SelectionMode),
    OpenLinkAtMouseCursor,
    ClearSelection,
    CompleteSelection(ClipboardCopyDestination),
    CompleteSelectionOrOpenLinkAtMouseCursor(ClipboardCopyDestination),
    StartWindowDrag,
    AdjustPaneSize(PaneDirection, usize),
    ActivatePaneDirection(PaneDirection),
    ActivatePaneByIndex(usize),
    TogglePaneZoomState,
    SetPaneZoomState(bool),
    CloseCurrentPane { confirm: bool },
    EmitEvent(Seq<char>),
    QuickSelect,
    QuickSelectArgs(QuickSelectArguments),
    Multiple(Seq<ActionView>),
    SwitchToWorkspace { name: Option<Seq<char>>, spawn: Option<SpawnCommandView> },
    SwitchWorkspaceRelative(isize),
    ActivateKeyTable {
        name: Seq<char>,
        timeout_milliseconds: Option<u64>,
        replace_current: bool,
        one_shot: bool,
        until_unknown: bool,
        prevent_fallback: bool,
    },
    PopKeyTable,
    ClearKeyTableStack,
    DetachDomain(DomainView),
    AttachDomain(Seq<char>),
    CopyMode(CopyModeAssignment),
    RotatePanes(RotationDirection),
    SplitPane(SplitPaneView),
    PaneSelect(PaneSelectArguments),
    CharSelect(CharSelectArguments),
    ResetTerminal,
    OpenUri(Seq<char>),
    ActivateCommandPalette,
}

pub open spec fn string_option_view(o: Option<String>) -> Option<Seq<char>> {
    match o {
        Some(s) => Some(s@),
        None => None,
    }
}

pub open spec fn string_list_view(v: Seq<String>) -> Seq<Seq<char>> {
    v.map_values(|s: String| s@)
}

impl View for SpawnTabDomain {
    type V = DomainView;

    open spec fn view(&self) -> DomainView {
        match self {
            SpawnTabDomain::DefaultDomain => DomainView::DefaultDomain,
            SpawnTabDomain::CurrentPaneDomain => DomainView::CurrentPaneDomain,
            SpawnTabDomain::DomainId(id) => DomainView::DomainId(*id),
            SpawnTabDomain::DomainName(n) => DomainView::DomainName(n@),
        }
    }
}

impl View for SpawnCommand {
    type V = SpawnCommandView;

    open spec fn view(&self) -> SpawnCommandView {
        SpawnCommandView {
            label: string_option_view(self.label),
            args: match self.args {
                Some(v) => Some(string_list_view(v@)),
                None => None,
            },
            cwd: string_option_view(self.cwd),
            set_environment_variables: string_pairs_view(self.set_environment_variables@),
            domain: self.domain@,
            position: match self.position {
                Some(p) => Some(p@),
                None => None,
            },
        }
    }
}

/// The view of a list of pairs of strings.
pub open spec fn string_pairs_view(v: Seq<(String, String)>) -> Seq<(Seq<char>, Seq<char>)> {
    v.map_values(|p: (String, String)| (p.0@, p.1@))
}

impl View for Dimension {
    type V = DimensionView;

    open spec fn view(&self) -> DimensionView {
        match self {
            Dimension::Points(t) => DimensionView::Points(t@),
            Dimension::Pixels(t) => DimensionView::Pixels(t@),
            Dimension::Percent(t) => DimensionView::Percent(t@),
            Dimension::Cells(t) => DimensionView::Cells(t@),
        }
    }
}

impl View for GeometryOrigin {
    type V = OriginView;

    open spec fn view(&self) -> OriginView {
        match self {
            GeometryOrigin::ScreenCoordinateSystem => OriginView::ScreenCoordinateSystem,
            GeometryOrigin::MainScreen => OriginView::MainScreen,
            GeometryOrigin::ActiveScreen => OriginView::ActiveScreen,
            GeometryOrigin::Named(n) => OriginView::Named(n@),
        }
    }
}

impl View for GuiPosition {
    type V = PositionView;

    open spec fn view(&self) -> PositionView {
        PositionView { x: self.x@, y: self.y@, origin: self.origin@ }
    }
}

impl View for Pattern {
    type V = PatternView;

    open spec fn view(&self) -> PatternView {
        match self {
            Pattern::CaseSensitiveString(s) => PatternView::CaseSensitiveString(s@),
            Pattern::CaseInSensitiveString(s) => PatternView::CaseInSensitiveString(s@),
            Pattern::Regex(s) => PatternView::Regex(s@),
            Pattern::CurrentSelectionOrEmptyString => PatternView::CurrentSelectionOrEmptyString,
        }
    }
}

impl View for SplitPane {
    type V = SplitPaneView;

    open spec fn view(&self) -> SplitPaneView {
        SplitPaneView {
            direction: self.direction,
            size: self.size,
            command: self.command@,
            top_level: self.top_level,
        }
    }
}

impl View for KeyNoAction {
    type V = KeyNoActionView;

    open spec fn view(&self) -> KeyNoActionView {
        KeyNoActionView { key: self.key@, mods: self.mods }
    }
}

/// The views of a list of actions.
pub open spec fn actions_view(v: Seq<KeyAssignment>) -> Seq<ActionView>
    decreases v,
{
    if v.len() == 0 {
        Seq::empty()
    } else {
        actions_view(v.drop_last()).push(action_view(v.last()))
    }
}

/// The view of an action.
pub open spec fn action_view(a: KeyAssignment) -> ActionView
    decreases a,
{
    match a {
        KeyAssignment::SpawnTab(d) => ActionView::SpawnTab(d@),
        KeyAssignment::SpawnWindow => ActionView::SpawnWindow,
        KeyAssignment::ToggleFullScreen => ActionView::ToggleFullScreen,
        KeyAssignment::CopyTo(d) => ActionView::CopyTo(d),
        KeyAssignment::PasteFrom(s) => ActionView::PasteFrom(s),
        KeyAssignment::ActivateTabRelative(n) => ActionView::ActivateTabRelative(n),
        KeyAssignment::ActivateTabRelativeNoWrap(n) => ActionView::ActivateTabRelativeNoWrap(n),
        KeyAssignment::IncreaseFontSize => ActionView::IncreaseFontSize,
        KeyAssignment::DecreaseFontSize => ActionView::DecreaseFontSize,
        KeyAssignment::ResetFontSize => ActionView::ResetFontSize,
        KeyAssignment::ResetFontAndWindowSize => ActionView::ResetFontAndWindowSize,
        KeyAssignment::ActivateTab(n) => ActionView::ActivateTab(n),
        KeyAssignment::ActivateLastTab => ActionView::ActivateLastTab,
        KeyAssignment::SendString(s) => ActionView::SendString(s@),
        KeyAssignment::SendKey(k) => ActionView::SendKey(k@),
        KeyAssignment::Nop => ActionView::Nop,
        KeyAssignment::DisableDefaultAssignment => ActionView::DisableDefaultAssignment,
        KeyAssignment::Hide => ActionView::Hide,
        KeyAssignment::Show => ActionView::Show,
        KeyAssignment::CloseCurrentTab { confirm } => ActionView::CloseCurrentTab { confirm },
        KeyAssignment::ReloadConfiguration => ActionView::ReloadConfiguration,
        KeyAssignment::MoveTabRelative(n) => ActionView::MoveTabRelative(n),
        KeyAssignment::MoveTab(n) => ActionView::MoveTab(n),
        KeyAssignment::ScrollByPage(p) => ActionView::ScrollByPage(p.text@),
        KeyAssignment::ScrollByLine(n) => ActionView::ScrollByLine(n),
        KeyAssignment::ScrollByCurrentEventWheelDelta => ActionView::ScrollByCurrentEventWheelDelta,
        KeyAssignment::ScrollToPrompt(n) => ActionView::ScrollToPrompt(n),
        KeyAssignment::ScrollToTop => ActionView::ScrollToTop,
        KeyAssignment::ScrollToBottom => ActionView::ScrollToBottom,
        KeyAssignment::ShowTabNavigator => ActionView::ShowTabNavigator,
        KeyAssignment::ShowDebugOverlay => ActionView::ShowDebugOverlay,
        KeyAssignment::HideApplication => ActionView::HideApplication,
        KeyAssignment::QuitApplication => ActionView::QuitApplication,
        KeyAssignment::SpawnCommandInNewTab(c) => ActionView::SpawnCommandInNewTab(c@),
        KeyAssignment::SpawnCommandInNewWindow(c) => ActionView::SpawnCommandInNewWindow(c@),
        KeyAssignment::SplitHorizontal(c) => ActionView::SplitHorizontal(c@),
        KeyAssignment::SplitVertical(c) => ActionView::SplitVertical(c@),
        KeyAssignment::ShowLauncher => ActionView::ShowLauncher,
        KeyAssignment::ShowLauncherArgs(a) => ActionView::ShowLauncherArgs(a),
        KeyAssignment::ClearScrollback(m) => ActionView::ClearScrollback(m),
        KeyAssignment::Search(p) => ActionView::Search(p@),
        KeyAssignment::ActivateCopyMode => ActionView::ActivateCopyMode,
        KeyAssignment::SelectTextAtMouseCursor(m) => ActionView::SelectTextAtMouseCursor(m),
        KeyAssignment::ExtendSelectionToMouseCursor(m) => ActionView::ExtendSelectionToMouseCursor(m),
        KeyAssignment::OpenLinkAtMouseCursor => ActionView::OpenLinkAtMouseCursor,
        KeyAssignment::ClearSelection => ActionView::ClearSelection,
        KeyAssignment::CompleteSelection(d) => ActionView::CompleteSelection(d),
        KeyAssignment::CompleteSelectionOrOpenLinkAtMouseCursor(d) =>
            ActionView::CompleteSelectionOrOpenLinkAtMouseCursor(d),
        KeyAssignment::StartWindowDrag => ActionView::StartWindowDrag,
        KeyAssignment::AdjustPaneSize(d, n) => ActionView::AdjustPaneSize(d, n),
        KeyAssignment::ActivatePaneDirection(d) => ActionView::ActivatePaneDirection(d),
        KeyAssignment::ActivatePaneByIndex(n) => ActionView::ActivatePaneByIndex(n),
        KeyAssignment::TogglePaneZoomState => ActionView::TogglePaneZoomState,
        KeyAssignment::SetPaneZoomState(b) => ActionView::SetPaneZoomState(b),
        KeyAssignment::CloseCurrentPane { confirm } => ActionView::CloseCurrentPane { confirm },
        KeyAssignment::EmitEvent(s) => ActionView::EmitEvent(s@),
        KeyAssignment::QuickSelect => ActionView::QuickSelect,
        KeyAssignment::QuickSelectArgs(a) => ActionView::QuickSelectArgs(a),
        KeyAssignment::Multiple(v) => ActionView::Multiple(actions_view(v@)),
        KeyAssignment::SwitchToWorkspace { name, spawn } => ActionView::SwitchToWorkspace {
            name: string_option_view(name),
            spawn: match spawn {
                Some(c) => Some(c@),
                None => None,
            },
        },
        KeyAssignment::SwitchWorkspaceRelative(n) => ActionView::SwitchWorkspaceRelative(n),
        KeyAssignment::ActivateKeyTable {
            name,
            timeout_milliseconds,
            replace_current,
            one_shot,
            until_unknown,
            prevent_fallback,
        } => ActionView::ActivateKeyTable {
            name: name@,
            timeout_milliseconds,
            replace_current,
            one_shot,
            until_unknown,
            prevent_fallback,
        },
        KeyAssignment::PopKeyTable => ActionView::PopKeyTable,
        KeyAssignment::ClearKeyTableStack => ActionView::ClearKeyTableStack,
        KeyAssignment::DetachDomain(d) => ActionView::DetachDomain(d@),
        KeyAssignment::AttachDomain(s) => ActionView::AttachDomain(s@),
        KeyAssignment::CopyMode(c) => ActionView::CopyMode(c),
        KeyAssignment::RotatePanes(r) => ActionView::RotatePanes(r),
        KeyAssignment::SplitPane(s) => ActionView::SplitPane(s@),
        KeyAssignment::PaneSelect(a) => ActionView::PaneSelect(a),
        KeyAssignment::CharSelect(a) => ActionView::CharSelect(a),
        KeyAssignment::ResetTerminal => ActionView::ResetTerminal,
        KeyAssignment::OpenUri(s) => ActionView::OpenUri(s@),
        KeyAssignment::ActivateCommandPalette => ActionView::ActivateCommandPalette,
    }
}

/// The view of a list of actions is the list of their views.
pub proof fn lemma_actions_view_index(v: Seq<KeyAssignment>, i: int)
    requires
        0 <= i < v.len(),
    ensures
        actions_view(v).len() == v.len(),
        actions_view(v)[i] == action_view(v[i]),
    decreases v.len(),
{
    lemma_actions_view_len(v);
    if i < v.len() - 1 {
        lemma_actions_view_index(v.drop_last(), i);
    }
}

/// A list and its view have the same length.
pub proof fn lemma_actions_view_len(v: Seq<KeyAssignment>)
    ensures
        actions_view(v).len() == v.len(),
    decreases v.len(),
{
    if v.len() > 0 {
        lemma_actions_view_len(v.drop_last());
    }
}

// ---------------------------------------------------------------------
// Copies
// ---------------------------------------------------------------------

/// A copy of an optional string.
pub fn copy_string_option(o: &Option<String>) -> (r: Option<String>)
    ensures
        string_option_view(r) == string_option_view(*o),
{
    match o {
        Some(s) => Some(s.clone()),
        None => None,
    }
}

/// A copy of a list of strings.
pub fn copy_strings(v: &Vec<String>) -> (r: Vec<String>)
    ensures
        string_list_view(r@) == string_list_view(v@),
{
    let mut r: Vec<String> = Vec::new();
    let n = v.len();
    for i in 0..n
        invariant
            n == v.len(),
            string_list_view(r@) =~= string_list_view(v@).take(i as int),
    {
        let ghost before = string_list_view(r@);
        r.push(v[i].clone());
        assert(string_list_view(r@) =~= before.push(v@[i as int]@));
    }
    assert(string_list_view(v@).take(n as int) =~= string_list_view(v@));
    r
}

impl Clone for SpawnTabDomain {
    fn clone(&self) -> (r: Self)
        ensures
            r@ == self@,
    {
        match self {
            SpawnTabDomain::DefaultDomain => SpawnTabDomain::DefaultDomain,
            SpawnTabDomain::CurrentPaneDomain => SpawnTabDomain::CurrentPaneDomain,
            SpawnTabDomain::DomainId(id) => SpawnTabDomain::DomainId(*id),
            SpawnTabDomain::DomainName(n) => SpawnTabDomain::DomainName(n.clone()),
        }
    }
}

/// An empty list of environment variables.
pub fn no_environment() -> (r: Vec<(String, String)>)
    ensures
        string_pairs_view(r@) == Seq::<(Seq<char>, Seq<char>)>::empty(),
{
    let r: Vec<(String, String)> = Vec::new();
    assert(string_pairs_view(r@) =~= Seq::<(Seq<char>, Seq<char>)>::empty());
    r
}

/// A copy of a list of pairs of strings.
pub fn copy_string_pairs(v: &Vec<(String, String)>) -> (r: Vec<(String, String)>)
    ensures
        string_pairs_view(r@) == string_pairs_view(v@),
{
    let mut r: Vec<(String, String)> = Vec::new();
    let n = v.len();
    for i in 0..n
        invariant
            n == v.len(),
            string_pairs_view(r@) =~= string_pairs_view(v@).take(i as int),
    {
        let ghost before = string_pairs_view(r@);
        r.push((v[i].0.clone(), v[i].1.clone()));
        assert(string_pairs_view(r@) =~= before.push((v@[i as int].0@, v@[i as int].1@)));
    }
    assert(string_pairs_view(v@).take(n as int) =~= string_pairs_view(v@));
    r
}

impl Clone for Dimension {
    fn clone(&self) -> (r: Self)
        ensures
            r@ == self@,
    {
        match self {
            Dimension::Points(t) => Dimension::Points(t.clone()),
            Dimension::Pixels(t) => Dimension::Pixels(t.clone()),
            Dimension::Percent(t) => Dimension::Percent(t.clone()),
            Dimension::Cells(t) => Dimension::Cells(t.clone()),
        }
    }
}

impl Clone for GeometryOrigin {
    fn clone(&self) -> (r: Self)
        ensures
            r@ == self@,
    {
        match self {
            GeometryOrigin::ScreenCoordinateSystem => GeometryOrigin::ScreenCoordinateSystem,
            GeometryOrigin::MainScreen => GeometryOrigin::MainScreen,
            GeometryOrigin::ActiveScreen => GeometryOrigin::ActiveScreen,
            GeometryOrigin::Named(n) => GeometryOrigin::Named(n.clone()),
        }
    }
}

impl Clone for GuiPosition {
    fn clone(&self) -> (r: Self)
        ensures
            r@ == self@,
    {
        GuiPosition { x: self.x.clone(), y: self.y.clone(), origin: self.origin.clone() }
    }
}

impl Clone for SpawnCommand {
    fn clone(&self) -> (r: Self)
        ensures
            r@ == self@,
    {
        let args = match &self.args {
            Some(a) => Some(copy_strings(a)),
            None => None,
        };
        SpawnCommand {
            label: copy_string_option(&self.label),
            args,
            cwd: copy_string_option(&self.cwd),
            set_environment_variables: copy_string_pairs(&self.set_environment_variables),
            domain: self.domain.clone(),
            position: match &self.position {
                Some(p) => Some(p.clone()),
                None => None,
            },
        }
    }
}

impl Clone for Pattern {
    fn clone(&self) -> (r: Self)
        ensures
            r@ == self@,
    {
        match self {
            Pattern::CaseSensitiveString(s) => Pattern::CaseSensitiveString(s.clone()),
            Pattern::CaseInSensitiveString(s) => Pattern::CaseInSensitiveString(s.clone()),
            Pattern::Regex(s) => Pattern::Regex(s.clone()),
            Pattern::CurrentSelectionOrEmptyString => Pattern::CurrentSelectionOrEmptyString,
        }
    }
}

impl Clone for SplitPane {
    fn clone(&self) -> (r: Self)
        ensures
            r@ == self@,
    {
        SplitPane {
            direction: self.direction,
            size: self.size,
            command: self.command.clone(),
            top_level: self.top_level,
        }
    }
}

impl Clone for KeyNoAction {
    fn clone(&self) -> (r: Self)
        ensures
            r@ == self@,
    {
        KeyNoAction { key: self.key.duplicate(), mods: self.mods }
    }
}

impl Clone for PageAmount {
    fn clone(&self) -> (r: Self)
        ensures
            r.text@ == self.text@,
    {
        PageAmount { text: self.text.clone() }
    }
}

impl View for KeyAssignment {
    type V = ActionView;

    open spec fn view(&self) -> ActionView {
        action_view(*self)
    }
}

} // verus!
