//! The default actions, and the commands that the palette, the menubar and
//! the default key map are made of.
use vstd::prelude::*;
use crate::assignment::{
    action_view, actions_view, ActionView, CharSelectArguments, ClipboardCopyDestination,
    ClipboardPasteSource, DomainView, KeyAssignment, PageAmount, PaneDirection,
    PaneSelectArguments, Pattern, PatternView, RotationDirection, ScrollbackEraseMode,
    SpawnCommand, SpawnCommandView, SpawnTabDomain,
};
pub use crate::assignment::KeyCode;
use crate::assignment::{copy_string_option, no_environment, lemma_actions_view_index, string_list_view};
use crate::command::{
    action_in_range, command_spec, derive_command_from_key_assignment, keys_view, menu_shell,
    menu_shell_detach, menu_slice_shell, menu_slice_shell_detach, menu_slice_window_workspace,
    menu_window_workspace, menubar_view, CommandDef,
};
use crate::modifiers::{Modifiers, CTRL_BIT, SHIFT_BIT, SUPER_BIT};
use crate::text::{cat2, cat3, join, joined, text_is, us_layout_shift, us_shifted_label};

verus! {

/// A program spawned into the domain of the current pane, with every other
/// setting left at its default.
pub open spec fn current_pane_spawn_view() -> SpawnCommandView {
    SpawnCommandView {
        label: None,
        args: None,
        cwd: None,
        set_environment_variables: Seq::empty(),
        domain: DomainView::CurrentPaneDomain,
        position: None,
    }
}

fn current_pane_spawn() -> (c: SpawnCommand)
    ensures
        c@ == current_pane_spawn_view(),
{
    SpawnCommand {
        label: None,
        args: None,
        cwd: None,
        set_environment_variables: no_environment(),
        domain: SpawnTabDomain::CurrentPaneDomain,
        position: None,
    }
}

/// Dropping the first action of a list drops the first of its views.
pub proof fn lemma_actions_view_drop_first(v: Seq<KeyAssignment>)
    requires
        v.len() > 0,
    ensures
        actions_view(v.drop_first()) == actions_view(v).drop_first(),
    decreases v.len(),
{
    crate::assignment::lemma_actions_view_len(v);
    crate::assignment::lemma_actions_view_len(v.drop_first());
    assert forall|k: int| 0 <= k < v.len() - 1 implies actions_view(v.drop_first())[k]
        == actions_view(v).drop_first()[k] by {
        lemma_actions_view_index(v.drop_first(), k);
        lemma_actions_view_index(v, k + 1);
    }
    assert(actions_view(v.drop_first()) =~= actions_view(v).drop_first());
}

/// Every default action stays clear of overflow when it is described.
pub proof fn lemma_default_actions_in_range(macos: bool)
    ensures
        forall|k: int|
            0 <= k < default_actions(macos).len() ==> action_in_range(
                #[trigger] default_actions(macos)[k],
            ),
{
}

/// Appends an action to a list.
fn add_action(v: &mut Vec<KeyAssignment>, a: KeyAssignment)
    ensures
        actions_view(final(v)@) == actions_view(old(v)@).push(a@),
{
    let ghost before = v@;
    v.push(a);
    assert(v@.drop_last() =~= before);
}

pub open spec fn wezterm_actions(macos: bool) -> Seq<ActionView> {
    seq![ActionView::ReloadConfiguration]
        + (if macos {
        seq![ActionView::HideApplication]
    } else {
        Seq::empty()
    })
        + (if macos {
        seq![ActionView::QuitApplication]
    } else {
        Seq::empty()
    })
}

fn push_wezterm_actions(v: &mut Vec<KeyAssignment>, macos: bool)
    ensures
        actions_view(final(v)@) == actions_view(old(v)@) + wezterm_actions(macos),
{
    let ghost start = actions_view(v@);
    add_action(v, KeyAssignment::ReloadConfiguration);
    if macos {
        add_action(v, KeyAssignment::HideApplication);
    }
    if macos {
        add_action(v, KeyAssignment::QuitApplication);
    }
    assert(actions_view(v@) =~= start + wezterm_actions(macos));
}

pub open spec fn shell_actions() -> Seq<ActionView> {
    seq![ActionView::SpawnTab(DomainView::CurrentPaneDomain), ActionView::SpawnWindow, ActionView::SplitVertical(current_pane_spawn_view()), ActionView::SplitHorizontal(current_pane_spawn_view()), ActionView::CloseCurrentTab { confirm: true }, ActionView::CloseCurrentPane { confirm: true }, ActionView::DetachDomain(DomainView::CurrentPaneDomain), ActionView::ResetTerminal]
}

fn push_shell_actions(v: &mut Vec<KeyAssignment>)
    ensures
        actions_view(final(v)@) == actions_view(old(v)@) + shell_actions(),
{
    let ghost start = actions_view(v@);
    add_action(v, KeyAssignment::SpawnTab(SpawnTabDomain::CurrentPaneDomain));
    add_action(v, KeyAssignment::SpawnWindow);
    add_action(v, KeyAssignment::SplitVertical(current_pane_spawn()));
    add_action(v, KeyAssignment::SplitHorizontal(current_pane_spawn()));
    add_action(v, KeyAssignment::CloseCurrentTab { confirm: true });
    add_action(v, KeyAssignment::CloseCurrentPane { confirm: true });
    add_action(v, KeyAssignment::DetachDomain(SpawnTabDomain::CurrentPaneDomain));
    add_action(v, KeyAssignment::ResetTerminal);
    assert(actions_view(v@) =~= start + shell_actions());
}

pub open spec fn edit_actions(macos: bool) -> Seq<ActionView> {
    (if !macos {
        seq![ActionView::PasteFrom(ClipboardPasteSource::PrimarySelection)]
    } else {
        Seq::empty()
    })
        + (if !macos {
        seq![ActionView::CopyTo(ClipboardCopyDestination::PrimarySelection)]
    } else {
        Seq::empty()
    })
        + seq![ActionView::CopyTo(ClipboardCopyDestination::Clipboard), ActionView::PasteFrom(ClipboardPasteSource::Clipboard), ActionView::ClearScrollback(ScrollbackEraseMode::ScrollbackOnly), ActionView::ClearScrollback(ScrollbackEraseMode::ScrollbackAndViewport), ActionView::QuickSelect, ActionView::CharSelect(CharSelectArguments), ActionView::ActivateCopyMode, ActionView::ClearKeyTableStack, ActionView::ActivateCommandPalette]
}

fn push_edit_actions(v: &mut Vec<KeyAssignment>, macos: bool)
    ensures
        actions_view(final(v)@) == actions_view(old(v)@) + edit_actions(macos),
{
    let ghost start = actions_view(v@);
    if !macos {
        add_action(v, KeyAssignment::PasteFrom(ClipboardPasteSource::PrimarySelection));
    }
    if !macos {
        add_action(v, KeyAssignment::CopyTo(ClipboardCopyDestination::PrimarySelection));
    }
    add_action(v, KeyAssignment::CopyTo(ClipboardCopyDestination::Clipboard));
    add_action(v, KeyAssignment::PasteFrom(ClipboardPasteSource::Clipboard));
    add_action(v, KeyAssignment::ClearScrollback(ScrollbackEraseMode::ScrollbackOnly));
    add_action(v, KeyAssignment::ClearScrollback(ScrollbackEraseMode::ScrollbackAndViewport));
    add_action(v, KeyAssignment::QuickSelect);
    add_action(v, KeyAssignment::CharSelect(CharSelectArguments));
    add_action(v, KeyAssignment::ActivateCopyMode);
    add_action(v, KeyAssignment::ClearKeyTableStack);
    add_action(v, KeyAssignment::ActivateCommandPalette);
    assert(actions_view(v@) =~= start + edit_actions(macos));
}

pub open spec fn view_actions() -> Seq<ActionView> {
    seq![ActionView::DecreaseFontSize, ActionView::IncreaseFontSize, ActionView::ResetFontSize, ActionView::ResetFontAndWindowSize, ActionView::ScrollByPage("-1"@), ActionView::ScrollByPage("1"@), ActionView::ScrollToTop, ActionView::ScrollToBottom]
}

fn push_view_actions(v: &mut Vec<KeyAssignment>)
    ensures
        actions_view(final(v)@) == actions_view(old(v)@) + view_actions(),
{
    let ghost start = actions_view(v@);
    add_action(v, KeyAssignment::DecreaseFontSize);
    add_action(v, KeyAssignment::IncreaseFontSize);
    add_action(v, KeyAssignment::ResetFontSize);
    add_action(v, KeyAssignment::ResetFontAndWindowSize);
    add_action(v, KeyAssignment::ScrollByPage(PageAmount { text: String::from_str("-1") }));
    add_action(v, KeyAssignment::ScrollByPage(PageAmount { text: String::from_str("1") }));
    add_action(v, KeyAssignment::ScrollToTop);
    add_action(v, KeyAssignment::ScrollToBottom);
    assert(actions_view(v@) =~= start + view_actions());
}

pub open spec fn window_actions() -> Seq<ActionView> {
    seq![ActionView::ToggleFullScreen, ActionView::Hide, ActionView::Search(PatternView::CurrentSelectionOrEmptyString), ActionView::PaneSelect(PaneSelectArguments), ActionView::RotatePanes(RotationDirection::Clockwise), ActionView::RotatePanes(RotationDirection::CounterClockwise), ActionView::ActivateTab(0), ActionView::ActivateTab(1), ActionView::ActivateTab(2), ActionView::ActivateTab(3), ActionView::ActivateTab(4), ActionView::ActivateTab(5), ActionView::ActivateTab(6), ActionView::ActivateTab(7), ActionView::ActivateTab(-1isize)]
}

fn push_window_actions(v: &mut Vec<KeyAssignment>)
    ensures
        actions_view(final(v)@) == actions_view(old(v)@) + window_actions(),
{
    let ghost start = actions_view(v@);
    add_action(v, KeyAssignment::ToggleFullScreen);
    add_action(v, KeyAssignment::Hide);
    add_action(v, KeyAssignment::Search(Pattern::CurrentSelectionOrEmptyString));
    add_action(v, KeyAssignment::PaneSelect(PaneSelectArguments));
    add_action(v, KeyAssignment::RotatePanes(RotationDirection::Clockwise));
    add_action(v, KeyAssignment::RotatePanes(RotationDirection::CounterClockwise));
    add_action(v, KeyAssignment::ActivateTab(0));
    add_action(v, KeyAssignment::ActivateTab(1));
    add_action(v, KeyAssignment::ActivateTab(2));
    add_action(v, KeyAssignment::ActivateTab(3));
    add_action(v, KeyAssignment::ActivateTab(4));
    add_action(v, KeyAssignment::ActivateTab(5));
    add_action(v, KeyAssignment::ActivateTab(6));
    add_action(v, KeyAssignment::ActivateTab(7));
    add_action(v, KeyAssignment::ActivateTab(-1));
    assert(actions_view(v@) =~= start + window_actions());
}

pub open spec fn window_moves_actions() -> Seq<ActionView> {
    seq![ActionView::ActivateTabRelative(-1isize), ActionView::ActivateTabRelative(1), ActionView::MoveTabRelative(-1isize), ActionView::MoveTabRelative(1), ActionView::AdjustPaneSize(PaneDirection::Left, 1), ActionView::AdjustPaneSize(PaneDirection::Right, 1), ActionView::AdjustPaneSize(PaneDirection::Up, 1), ActionView::AdjustPaneSize(PaneDirection::Down, 1), ActionView::ActivatePaneDirection(PaneDirection::Left), ActionView::ActivatePaneDirection(PaneDirection::Right), ActionView::ActivatePaneDirection(PaneDirection::Up), ActionView::ActivatePaneDirection(PaneDirection::Down), ActionView::TogglePaneZoomState, ActionView::ActivateLastTab, ActionView::ShowLauncher, ActionView::ShowTabNavigator]
}

fn push_window_moves_actions(v: &mut Vec<KeyAssignment>)
    ensures
        actions_view(final(v)@) == actions_view(old(v)@) + window_moves_actions(),
{
    let ghost start = actions_view(v@);
    add_action(v, KeyAssignment::ActivateTabRelative(-1));
    add_action(v, KeyAssignment::ActivateTabRelative(1));
    add_action(v, KeyAssignment::MoveTabRelative(-1));
    add_action(v, KeyAssignment::MoveTabRelative(1));
    add_action(v, KeyAssignment::AdjustPaneSize(PaneDirection::Left, 1));
    add_action(v, KeyAssignment::AdjustPaneSize(PaneDirection::Right, 1));
    add_action(v, KeyAssignment::AdjustPaneSize(PaneDirection::Up, 1));
    add_action(v, KeyAssignment::AdjustPaneSize(PaneDirection::Down, 1));
    add_action(v, KeyAssignment::ActivatePaneDirection(PaneDirection::Left));
    add_action(v, KeyAssignment::ActivatePaneDirection(PaneDirection::Right));
    add_action(v, KeyAssignment::ActivatePaneDirection(PaneDirection::Up));
    add_action(v, KeyAssignment::ActivatePaneDirection(PaneDirection::Down));
    add_action(v, KeyAssignment::TogglePaneZoomState);
    add_action(v, KeyAssignment::ActivateLastTab);
    add_action(v, KeyAssignment::ShowLauncher);
    add_action(v, KeyAssignment::ShowTabNavigator);
    assert(actions_view(v@) =~= start + window_moves_actions());
}

pub open spec fn help_actions() -> Seq<ActionView> {
    seq![ActionView::OpenUri("https://wezfurlong.org/wezterm/"@), ActionView::OpenUri("https://github.com/wez/wezterm/discussions/"@), ActionView::OpenUri("https://github.com/wez/wezterm/issues/"@), ActionView::ShowDebugOverlay, ActionView::OpenLinkAtMouseCursor]
}

fn push_help_actions(v: &mut Vec<KeyAssignment>)
    ensures
        actions_view(final(v)@) == actions_view(old(v)@) + help_actions(),
{
    let ghost start = actions_view(v@);
    add_action(v, KeyAssignment::OpenUri(String::from_str("https://wezfurlong.org/wezterm/")));
    add_action(v, KeyAssignment::OpenUri(String::from_str("https://github.com/wez/wezterm/discussions/")));
    add_action(v, KeyAssignment::OpenUri(String::from_str("https://github.com/wez/wezterm/issues/")));
    add_action(v, KeyAssignment::ShowDebugOverlay);
    add_action(v, KeyAssignment::OpenLinkAtMouseCursor);
    assert(actions_view(v@) =~= start + help_actions());
}

/// The actions included in the default key assignments and in the command
/// palette, ordered by their position within the various menus; `macos`
/// says whether the program runs on macOS.
pub open spec fn default_actions(macos: bool) -> Seq<ActionView> {
    wezterm_actions(macos) + shell_actions() + edit_actions(macos) + view_actions() + window_actions() + window_moves_actions() + help_actions()
}

/// Returns a list of key assignment actions that should be included in the
/// default key assignments and command palette.
pub fn compute_default_actions(macos: bool) -> (r: Vec<KeyAssignment>)
    ensures
        actions_view(r@) == default_actions(macos),
{
    let mut v: Vec<KeyAssignment> = Vec::new();
    assert(actions_view(v@) =~= Seq::<ActionView>::empty());
    push_wezterm_actions(&mut v, macos);
    push_shell_actions(&mut v);
    push_edit_actions(&mut v, macos);
    push_view_actions(&mut v);
    push_window_actions(&mut v);
    push_window_moves_actions(&mut v);
    push_help_actions(&mut v);
    assert(actions_view(v@) =~= default_actions(macos));
    v
}

// ---------------------------------------------------------------------
// Key codes and their permutations
// ---------------------------------------------------------------------

/// The view of a table that resolves key labels to key codes.
pub open spec fn table_view(t: Seq<(String, KeyCode)>) -> Seq<(Seq<char>, Seq<char>)> {
    t.map_values(|e: (String, KeyCode)| (e.0@, e.1@))
}

/// Whether the table has an entry for the label.
pub open spec fn resolves(t: Seq<(Seq<char>, Seq<char>)>, label: Seq<char>) -> bool {
    exists|i: int| 0 <= i < t.len() && t[i].0 == label
}

/// The key code of the first entry for the label at or after index `i`.
pub open spec fn resolved_from(t: Seq<(Seq<char>, Seq<char>)>, label: Seq<char>, i: int) -> Seq<
    char,
>
    decreases t.len() - i,
{
    if i < 0 || i >= t.len() {
        Seq::empty()
    } else if t[i].0 == label {
        t[i].1
    } else {
        resolved_from(t, label, i + 1)
    }
}

/// The key code that the table gives the label: that of its first entry.
pub open spec fn resolved(t: Seq<(Seq<char>, Seq<char>)>, label: Seq<char>) -> Seq<char> {
    resolved_from(t, label, 0)
}

/// Looks a label up in the table.
pub fn resolve_label(table: &Vec<(String, KeyCode)>, label: &String) -> (r: Option<KeyCode>)
    ensures
        r is Some <==> resolves(table_view(table@), label@),
        r matches Some(k) ==> k@ == resolved(table_view(table@), label@),
{
    let ghost t = table_view(table@);
    let n = table.len();
    let mut i: usize = 0;
    while i < n
        invariant
            n == table.len(),
            t == table_view(table@),
            i <= n,
            forall|j: int| 0 <= j < i ==> t[j].0 != label@,
            resolved_from(t, label@, i as int) == resolved(t, label@),
        decreases n - i,
    {
        if table[i].0 == *label {
            assert(t[i as int].0 == label@);
            return Some(table[i].1.duplicate());
        }
        i = i + 1;
    }
    assert(!resolves(t, label@));
    None
}

/// Whether the table resolves every label of the list, both as it is and
/// in its US-layout shifted form.
pub open spec fn labels_resolve(
    keys: Seq<(Modifiers, Seq<char>)>,
    t: Seq<(Seq<char>, Seq<char>)>,
) -> bool {
    forall|i: int|
        0 <= i < keys.len() ==> resolves(t, #[trigger] keys[i].1) && resolves(
            t,
            us_shifted_label(keys[i].1),
        )
}

/// The key combinations that one key assignment of a command stands for.
/// A SUPER combination also gets CTRL+SHIFT versions, for environments
/// where SUPER is reserved for the window manager; a shifted combination
/// also gets the shifted key, with and without SHIFT.
pub open spec fn key_permutations(
    mods: Modifiers,
    label: Seq<char>,
    t: Seq<(Seq<char>, Seq<char>)>,
) -> Seq<(Modifiers, Seq<char>)> {
    let key = resolved(t, label);
    let ukey = resolved(t, us_shifted_label(label));
    let ctrl_shift = Modifiers { bits: CTRL_BIT | SHIFT_BIT };
    if mods == (Modifiers { bits: SUPER_BIT }) {
        seq![(mods, key), (ctrl_shift, key)] + if ukey != key {
            seq![(ctrl_shift, ukey), (Modifiers { bits: CTRL_BIT }, ukey)]
        } else {
            Seq::empty()
        }
    } else if mods.bits & SHIFT_BIT == SHIFT_BIT && ukey != key {
        seq![(mods, key), (mods, ukey), (Modifiers { bits: mods.bits & !SHIFT_BIT }, ukey)]
    } else {
        seq![(mods, key)]
    }
}

/// The key combinations of all the key assignments of a command, in order.
pub open spec fn permuted(
    keys: Seq<(Modifiers, Seq<char>)>,
    t: Seq<(Seq<char>, Seq<char>)>,
) -> Seq<(Modifiers, Seq<char>)>
    decreases keys.len(),
{
    if keys.len() == 0 {
        Seq::empty()
    } else {
        permuted(keys.drop_last(), t) + key_permutations(keys.last().0, keys.last().1, t)
    }
}

/// The view of a list of key combinations.
pub open spec fn combos_view(v: Seq<(Modifiers, KeyCode)>) -> Seq<(Modifiers, Seq<char>)> {
    v.map_values(|p: (Modifiers, KeyCode)| (p.0, p.1@))
}

fn push_combo(v: &mut Vec<(Modifiers, KeyCode)>, m: Modifiers, k: &KeyCode)
    ensures
        combos_view(final(v)@) == combos_view(old(v)@).push((m, k@)),
{
    let ghost before = combos_view(v@);
    v.push((m, k.duplicate()));
    assert(combos_view(v@) =~= before.push((m, k@)));
}

impl CommandDef {
    /// Depending on the OS, a shifted key combination such as CTRL-SHIFT-L
    /// may present as either CTRL+SHIFT + mapped lowercase l, CTRL+SHIFT +
    /// mapped uppercase l, or CTRL + mapped uppercase l. This synthesizes
    /// the different combinations so that it isn't such a headache to
    /// maintain the mapping and prevents missing cases. `table` gives the
    /// key code that each label resolves to under the configured key map
    /// preference.
    pub fn permute_keys(&self, table: &Vec<(String, KeyCode)>) -> (r: Vec<(Modifiers, KeyCode)>)
        requires
            labels_resolve(keys_view(self.keys@), table_view(table@)),
        ensures
            combos_view(r@) == permuted(keys_view(self.keys@), table_view(table@)),
    {
        let ghost t = table_view(table@);
        let ghost ks = keys_view(self.keys@);
        let mut keys: Vec<(Modifiers, KeyCode)> = Vec::new();
        let n = self.keys.len();
        for i in 0..n
            invariant
                n == self.keys.len(),
                t == table_view(table@),
                ks == keys_view(self.keys@),
                labels_resolve(ks, t),
                combos_view(keys@) == permuted(ks.take(i as int), t),
        {
            let mods = self.keys[i].0;
            let label = &self.keys[i].1;
            assert(ks[i as int] == (mods, label@));
            assert(resolves(t, ks[i as int].1));
            let key = resolve_label(table, label).unwrap();
            let shifted = us_layout_shift(label.as_str());
            let ukey = resolve_label(table, &shifted).unwrap();
            assert(ks.take(i + 1).drop_last() =~= ks.take(i as int));
            let ghost before = combos_view(keys@);
            let different = ukey.name != key.name;
            if mods == Modifiers::super_key() {
                push_combo(&mut keys, mods, &key);
                push_combo(&mut keys, Modifiers::ctrl().union(Modifiers::shift()), &key);
                if different {
                    push_combo(&mut keys, Modifiers::ctrl().union(Modifiers::shift()), &ukey);
                    push_combo(&mut keys, Modifiers::ctrl(), &ukey);
                }
            } else if mods.contains(Modifiers::shift()) && different {
                push_combo(&mut keys, mods, &key);
                push_combo(&mut keys, mods, &ukey);
                push_combo(&mut keys, mods.difference(Modifiers::shift()), &ukey);
            } else {
                push_combo(&mut keys, mods, &key);
            }
            assert(combos_view(keys@) =~= before + key_permutations(mods, label@, t));
        }
        assert(ks.take(n as int) =~= ks);
        keys
    }
}

// ---------------------------------------------------------------------
// Expanded commands
// ---------------------------------------------------------------------

/// A command as the palette and the menubar show it: its description, the
/// action it performs, the key combinations that trigger it, and where it
/// goes in the menubar.
#[derive(Clone, Debug)]
pub struct ExpandedCommand {
    pub brief: String,
    pub doc: String,
    pub action: KeyAssignment,
    pub keys: Vec<(Modifiers, KeyCode)>,
    pub menubar: &'static [&'static str],
}

/// The view of an [`ExpandedCommand`].
#[verifier::ext_equal]
pub struct ExpandedView {
    pub brief: Seq<char>,
    pub doc: Seq<char>,
    pub action: ActionView,
    pub keys: Seq<(Modifiers, Seq<char>)>,
    pub menubar: Seq<Seq<char>>,
}

impl View for ExpandedCommand {
    type V = ExpandedView;

    open spec fn view(&self) -> ExpandedView {
        ExpandedView {
            brief: self.brief@,
            doc: self.doc@,
            action: self.action@,
            keys: combos_view(self.keys@),
            menubar: menubar_view(self.menubar@),
        }
    }
}

/// The views of a list of expanded commands.
pub open spec fn expanded_view(v: Seq<ExpandedCommand>) -> Seq<ExpandedView> {
    v.map_values(|c: ExpandedCommand| c@)
}

fn push_expanded(v: &mut Vec<ExpandedCommand>, c: ExpandedCommand)
    ensures
        expanded_view(final(v)@) == expanded_view(old(v)@).push(c@),
{
    let ghost before = expanded_view(v@);
    let ghost cv = c@;
    v.push(c);
    assert(expanded_view(v@) =~= before.push(cv));
}

/// A command with no keys and no further description.
pub open spec fn plain_command(
    brief: Seq<char>,
    action: ActionView,
    menubar: Seq<Seq<char>>,
) -> ExpandedView {
    ExpandedView { brief, doc: Seq::empty(), action, keys: Seq::empty(), menubar }
}

fn plain_expanded(brief: String, action: KeyAssignment, menubar: &'static [&'static str]) -> (c:
    ExpandedCommand)
    ensures
        c@ == plain_command(brief@, action@, menubar_view(menubar@)),
{
    let keys: Vec<(Modifiers, KeyCode)> = Vec::new();
    assert(combos_view(keys@) =~= Seq::<(Modifiers, Seq<char>)>::empty());
    ExpandedCommand { brief, doc: String::new(), action, keys, menubar }
}

/// The commands of a list of actions: one for each action that has one,
/// in order, its keys permuted through the table.
pub open spec fn commands_for(
    actions: Seq<ActionView>,
    t: Seq<(Seq<char>, Seq<char>)>,
) -> Seq<ExpandedView>
    decreases actions.len(),
{
    if actions.len() == 0 {
        Seq::empty()
    } else {
        let before = commands_for(actions.drop_last(), t);
        match command_spec(actions.last()) {
            Some(c) => before.push(
                ExpandedView {
                    brief: c.brief,
                    doc: c.doc,
                    action: actions.last(),
                    keys: permuted(c.keys, t),
                    menubar: c.menubar,
                },
            ),
            None => before,
        }
    }
}

/// Whether the table resolves every key label of the commands of the
/// actions, as they are and shifted.
pub open spec fn command_labels_resolve(
    actions: Seq<ActionView>,
    t: Seq<(Seq<char>, Seq<char>)>,
) -> bool {
    forall|i: int|
        0 <= i < actions.len() ==> match command_spec(#[trigger] actions[i]) {
            Some(c) => labels_resolve(c.keys, t),
            None => true,
        }
}

// ---------------------------------------------------------------------
// The launch menu
// ---------------------------------------------------------------------

/// The label of an entry of the launch menu: its own label, else its
/// arguments joined by spaces, else "(default shell)".
pub open spec fn launch_label(c: SpawnCommandView) -> Seq<char> {
    match c.label {
        Some(l) => l,
        None => match c.args {
            Some(a) => joined(a, " "@),
            None => "(default shell)"@,
        },
    }
}

/// The commands that the launch menu adds, one per entry.
pub open spec fn launch_commands(cmds: Seq<SpawnCommandView>) -> Seq<ExpandedView> {
    cmds.map_values(
        |c: SpawnCommandView|
            plain_command(
                launch_label(c) + " (New Tab)"@,
                ActionView::SpawnCommandInNewTab(c),
                menu_shell(),
            ),
    )
}

/// The views of a list of programs.
pub open spec fn spawn_commands_view(v: Seq<SpawnCommand>) -> Seq<SpawnCommandView> {
    v.map_values(|c: SpawnCommand| c@)
}

fn launch_entry_label(c: &SpawnCommand) -> (r: String)
    ensures
        r@ == launch_label(c@),
{
    match &c.label {
        Some(l) => l.clone(),
        None => match &c.args {
            Some(a) => join(a, " "),
            None => String::from_str("(default shell)"),
        },
    }
}

fn push_launch_commands(result: &mut Vec<ExpandedCommand>, launch_menu: &Vec<SpawnCommand>)
    ensures
        expanded_view(final(result)@) == expanded_view(old(result)@) + launch_commands(
            spawn_commands_view(launch_menu@),
        ),
{
    let ghost start = expanded_view(result@);
    let ghost all = launch_commands(spawn_commands_view(launch_menu@));
    let n = launch_menu.len();
    for i in 0..n
        invariant
            n == launch_menu.len(),
            all == launch_commands(spawn_commands_view(launch_menu@)),
            expanded_view(result@) =~= start + all.take(i as int),
    {
        let cmd = &launch_menu[i];
        let label = launch_entry_label(cmd);
        let brief = cat2(label.as_str(), " (New Tab)");
        let c = plain_expanded(
            brief,
            KeyAssignment::SpawnCommandInNewTab(cmd.clone()),
            menu_slice_shell(),
        );
        assert(c@ == all[i as int]);
        push_expanded(result, c);
        assert(all.take(i + 1) =~= all.take(i as int).push(all[i as int]));
    }
    assert(all.take(n as int) =~= all);
}

// ---------------------------------------------------------------------
// The domains and workspaces of the multiplexer
// ---------------------------------------------------------------------

/// Whether a domain is attached.
#[derive(Clone, Copy, Debug, PartialEq, Eq, Structural)]
pub enum DomainState {
    Detached,
    Attached,
}

/// What the commands read of a domain of the multiplexer.
pub struct DomainInfo {
    pub domain_id: usize,
    pub name: String,
    pub state: DomainState,
    pub spawnable: bool,
}

/// The view of a [`DomainInfo`].
pub struct DomainInfoView {
    pub domain_id: usize,
    pub name: Seq<char>,
    pub state: DomainState,
    pub spawnable: bool,
}

impl View for DomainInfo {
    type V = DomainInfoView;

    open spec fn view(&self) -> DomainInfoView {
        DomainInfoView {
            domain_id: self.domain_id,
            name: self.name@,
            state: self.state,
            spawnable: self.spawnable,
        }
    }
}

/// What the commands read of the multiplexer: its domains, its workspaces
/// and the active workspace.
pub struct MuxState {
    pub domains: Vec<DomainInfo>,
    pub workspaces: Vec<String>,
    pub active_workspace: String,
}

/// The view of a [`MuxState`].
pub struct MuxView {
    pub domains: Seq<DomainInfoView>,
    pub workspaces: Seq<Seq<char>>,
    pub active_workspace: Seq<char>,
}

/// The views of a list of domains.
pub open spec fn domains_view(v: Seq<DomainInfo>) -> Seq<DomainInfoView> {
    v.map_values(|d: DomainInfo| d@)
}

impl View for MuxState {
    type V = MuxView;

    open spec fn view(&self) -> MuxView {
        MuxView {
            domains: domains_view(self.domains@),
            workspaces: string_list_view(self.workspaces@),
            active_workspace: self.active_workspace@,
        }
    }
}

/// The order of domains in the menus: attached domains come before the
/// others, and among domains of one state a lower id comes first.
pub open spec fn domain_before(a: DomainInfoView, b: DomainInfoView) -> bool {
    if a.state != b.state {
        a.state == DomainState::Attached
    } else {
        a.domain_id < b.domain_id
    }
}

/// `d` put into the ordered list after every domain that it does not come
/// before.
pub open spec fn insert_domain(s: Seq<DomainInfoView>, d: DomainInfoView) -> Seq<DomainInfoView>
    decreases s.len(),
{
    if s.len() == 0 {
        seq![d]
    } else if domain_before(d, s.last()) {
        insert_domain(s.drop_last(), d).push(s.last())
    } else {
        s.push(d)
    }
}

/// The domains in the order of [`domain_before`], domains that neither
/// comes before the other keeping their order.
pub open spec fn sorted_domains(ds: Seq<DomainInfoView>) -> Seq<DomainInfoView>
    decreases ds.len(),
{
    if ds.len() == 0 {
        Seq::empty()
    } else {
        insert_domain(sorted_domains(ds.drop_last()), ds.last())
    }
}

fn copy_domain_info(d: &DomainInfo) -> (r: DomainInfo)
    ensures
        r@ == d@,
{
    DomainInfo {
        domain_id: d.domain_id,
        name: d.name.clone(),
        state: d.state,
        spawnable: d.spawnable,
    }
}

fn comes_before(a: &DomainInfo, b: &DomainInfo) -> (r: bool)
    ensures
        r == domain_before(a@, b@),
{
    if a.state != b.state {
        a.state == DomainState::Attached
    } else {
        a.domain_id < b.domain_id
    }
}

fn insert_sorted(s: &mut Vec<DomainInfo>, d: DomainInfo)
    ensures
        domains_view(final(s)@) == insert_domain(domains_view(old(s)@), d@),
{
    let ghost sv = domains_view(s@);
    let mut j = s.len();
    assert(sv.take(j as int) =~= sv);
    assert(sv.skip(j as int) =~= Seq::<DomainInfoView>::empty());
    while j > 0 && comes_before(&d, &s[j - 1])
        invariant
            j <= s.len(),
            sv == domains_view(s@),
            insert_domain(sv, d@) =~= insert_domain(sv.take(j as int), d@) + sv.skip(j as int),
        decreases j,
    {
        proof {
            let p = sv.take(j as int);
            assert(p.drop_last() =~= sv.take(j - 1));
            assert(p.last() == sv[j - 1]);
            assert(sv.skip(j - 1) =~= seq![sv[j - 1]] + sv.skip(j as int));
        }
        j = j - 1;
    }
    proof {
        if j == 0 {
            assert(sv.take(0) =~= Seq::<DomainInfoView>::empty());
        } else {
            let p = sv.take(j as int);
            assert(p.last() == sv[j - 1]);
        }
    }
    let ghost dv = d@;
    s.insert(j, d);
    assert(domains_view(s@) =~= sv.take(j as int).push(dv) + sv.skip(j as int));
}

/// The domains ordered as [`sorted_domains`] says.
pub fn sort_domains(ds: &Vec<DomainInfo>) -> (r: Vec<DomainInfo>)
    ensures
        domains_view(r@) == sorted_domains(domains_view(ds@)),
{
    let mut r: Vec<DomainInfo> = Vec::new();
    let n = ds.len();
    let ghost all = domains_view(ds@);
    for i in 0..n
        invariant
            n == ds.len(),
            all == domains_view(ds@),
            domains_view(r@) == sorted_domains(all.take(i as int)),
    {
        assert(all.take(i + 1).drop_last() =~= all.take(i as int));
        assert(all.take(i + 1).last() == ds@[i as int]@);
        insert_sorted(&mut r, copy_domain_info(&ds[i]));
    }
    assert(all.take(n as int) =~= all);
    r
}

/// The command that opens a new tab in the named domain.
pub open spec fn new_tab_in_domain(name: Seq<char>) -> ExpandedView {
    plain_command(
        "New Tab (Domain "@ + name + ")"@,
        ActionView::SpawnCommandInNewTab(
            SpawnCommandView {
                label: None,
                args: None,
                cwd: None,
                set_environment_variables: Seq::empty(),
                domain: DomainView::DomainName(name),
                position: None,
            },
        ),
        menu_shell(),
    )
}

/// The command that attaches the named domain.
pub open spec fn attach_domain(name: Seq<char>) -> ExpandedView {
    plain_command("Attach Domain "@ + name, ActionView::AttachDomain(name), menu_shell())
}

/// The command that detaches the named domain.
pub open spec fn detach_domain(name: Seq<char>) -> ExpandedView {
    plain_command(
        "Detach Domain "@ + name,
        ActionView::DetachDomain(DomainView::DomainName(name)),
        menu_shell_detach(),
    )
}

/// For each domain that can spawn, in order: a new tab in it when it is
/// attached, else attaching it.
pub open spec fn spawn_domain_commands(ds: Seq<DomainInfoView>) -> Seq<ExpandedView>
    decreases ds.len(),
{
    if ds.len() == 0 {
        Seq::empty()
    } else {
        let before = spawn_domain_commands(ds.drop_last());
        let d = ds.last();
        if !d.spawnable {
            before
        } else if d.state == DomainState::Attached {
            before.push(new_tab_in_domain(d.name))
        } else {
            before.push(attach_domain(d.name))
        }
    }
}

/// For each attached domain other than "local", in order: detaching it.
pub open spec fn detach_domain_commands(ds: Seq<DomainInfoView>) -> Seq<ExpandedView>
    decreases ds.len(),
{
    if ds.len() == 0 {
        Seq::empty()
    } else {
        let before = detach_domain_commands(ds.drop_last());
        let d = ds.last();
        if d.state == DomainState::Attached && d.name != "local"@ {
            before.push(detach_domain(d.name))
        } else {
            before
        }
    }
}

/// The command that switches to the named workspace.
pub open spec fn switch_to_workspace(name: Seq<char>) -> ExpandedView {
    plain_command(
        "Switch to workspace "@ + name,
        ActionView::SwitchToWorkspace { name: Some(name), spawn: None },
        menu_window_workspace(),
    )
}

/// For each workspace other than the active one, in order: switching to it.
pub open spec fn workspace_commands(ws: Seq<Seq<char>>, active: Seq<char>) -> Seq<ExpandedView>
    decreases ws.len(),
{
    if ws.len() == 0 {
        Seq::empty()
    } else {
        let before = workspace_commands(ws.drop_last(), active);
        if ws.last() != active {
            before.push(switch_to_workspace(ws.last()))
        } else {
            before
        }
    }
}

/// The command that creates a new workspace.
pub open spec fn create_workspace() -> ExpandedView {
    plain_command(
        "Create new Workspace"@,
        ActionView::SwitchToWorkspace { name: None, spawn: None },
        menu_window_workspace(),
    )
}

/// The commands that the state of the multiplexer adds.
pub open spec fn mux_commands(m: MuxView) -> Seq<ExpandedView> {
    let ds = sorted_domains(m.domains);
    spawn_domain_commands(ds) + detach_domain_commands(ds) + workspace_commands(
        m.workspaces,
        m.active_workspace,
    ) + seq![create_workspace()]
}

fn push_spawn_domain_commands(result: &mut Vec<ExpandedCommand>, ds: &Vec<DomainInfo>)
    ensures
        expanded_view(final(result)@) == expanded_view(old(result)@) + spawn_domain_commands(
            domains_view(ds@),
        ),
{
    let ghost start = expanded_view(result@);
    let ghost all = domains_view(ds@);
    let n = ds.len();
    for i in 0..n
        invariant
            n == ds.len(),
            all == domains_view(ds@),
            expanded_view(result@) =~= start + spawn_domain_commands(all.take(i as int)),
    {
        let d = &ds[i];
        assert(all.take(i + 1).drop_last() =~= all.take(i as int));
        assert(all.take(i + 1).last() == d@);
        if d.spawnable {
            if d.state == DomainState::Attached {
                let action = KeyAssignment::SpawnCommandInNewTab(
                    SpawnCommand {
                        label: None,
                        args: None,
                        cwd: None,
                        set_environment_variables: no_environment(),
                        domain: SpawnTabDomain::DomainName(d.name.clone()),
                        position: None,
                    },
                );
                let c = plain_expanded(
                    cat3("New Tab (Domain ", d.name.as_str(), ")"),
                    action,
                    menu_slice_shell(),
                );
                push_expanded(result, c);
            } else {
                let c = plain_expanded(
                    cat2("Attach Domain ", d.name.as_str()),
                    KeyAssignment::AttachDomain(d.name.clone()),
                    menu_slice_shell(),
                );
                push_expanded(result, c);
            }
        }
    }
    assert(all.take(n as int) =~= all);
}

fn push_detach_domain_commands(result: &mut Vec<ExpandedCommand>, ds: &Vec<DomainInfo>)
    ensures
        expanded_view(final(result)@) == expanded_view(old(result)@) + detach_domain_commands(
            domains_view(ds@),
        ),
{
    let ghost start = expanded_view(result@);
    let ghost all = domains_view(ds@);
    let n = ds.len();
    for i in 0..n
        invariant
            n == ds.len(),
            all == domains_view(ds@),
            expanded_view(result@) =~= start + detach_domain_commands(all.take(i as int)),
    {
        let d = &ds[i];
        assert(all.take(i + 1).drop_last() =~= all.take(i as int));
        assert(all.take(i + 1).last() == d@);
        if d.state == DomainState::Attached && !text_is(&d.name, "local") {
            let c = plain_expanded(
                cat2("Detach Domain ", d.name.as_str()),
                KeyAssignment::DetachDomain(SpawnTabDomain::DomainName(d.name.clone())),
                menu_slice_shell_detach(),
            );
            push_expanded(result, c);
        }
    }
    assert(all.take(n as int) =~= all);
}

fn push_workspace_commands(result: &mut Vec<ExpandedCommand>, m: &MuxState)
    ensures
        expanded_view(final(result)@) == expanded_view(old(result)@) + workspace_commands(
            m@.workspaces,
            m@.active_workspace,
        ),
{
    let ghost start = expanded_view(result@);
    let ghost all = string_list_view(m.workspaces@);
    let n = m.workspaces.len();
    for i in 0..n
        invariant
            n == m.workspaces.len(),
            all == string_list_view(m.workspaces@),
            expanded_view(result@) =~= start + workspace_commands(
                all.take(i as int),
                m.active_workspace@,
            ),
    {
        let w = &m.workspaces[i];
        assert(all.take(i + 1).drop_last() =~= all.take(i as int));
        assert(all.take(i + 1).last() == w@);
        if *w != m.active_workspace {
            let c = plain_expanded(
                cat2("Switch to workspace ", w.as_str()),
                KeyAssignment::SwitchToWorkspace { name: Some(w.clone()), spawn: None },
                menu_slice_window_workspace(),
            );
            push_expanded(result, c);
        }
    }
    assert(all.take(n as int) =~= all);
}

fn push_mux_commands(result: &mut Vec<ExpandedCommand>, m: &MuxState)
    ensures
        expanded_view(final(result)@) == expanded_view(old(result)@) + mux_commands(m@),
{
    let ghost start = expanded_view(result@);
    let domains = sort_domains(&m.domains);
    push_spawn_domain_commands(result, &domains);
    push_detach_domain_commands(result, &domains);
    push_workspace_commands(result, m);
    let c = plain_expanded(
        String::from_str("Create new Workspace"),
        KeyAssignment::SwitchToWorkspace { name: None, spawn: None },
        menu_slice_window_workspace(),
    );
    push_expanded(result, c);
    assert(expanded_view(result@) =~= start + mux_commands(m@));
}

// ---------------------------------------------------------------------
// All the commands
// ---------------------------------------------------------------------

/// The complete set of expanded commands: those of the default actions,
/// then those of the launch menu, then those of the multiplexer's state
/// when there is a multiplexer.
pub open spec fn all_commands(
    macos: bool,
    t: Seq<(Seq<char>, Seq<char>)>,
    launch_menu: Seq<SpawnCommandView>,
    mux: Option<MuxView>,
) -> Seq<ExpandedView> {
    commands_for(default_actions(macos), t) + launch_commands(launch_menu) + match mux {
        Some(m) => mux_commands(m),
        None => Seq::empty(),
    }
}

/// The view of the multiplexer's state, if there is one.
pub open spec fn mux_option_view(m: Option<&MuxState>) -> Option<MuxView> {
    match m {
        Some(s) => Some(s@),
        None => None,
    }
}

fn push_default_commands(
    result: &mut Vec<ExpandedCommand>,
    macos: bool,
    table: &Vec<(String, KeyCode)>,
)
    requires
        command_labels_resolve(default_actions(macos), table_view(table@)),
    ensures
        expanded_view(final(result)@) == expanded_view(old(result)@) + commands_for(
            default_actions(macos),
            table_view(table@),
        ),
{
    let ghost start = expanded_view(result@);
    let ghost all = default_actions(macos);
    let ghost t = table_view(table@);
    let mut actions = compute_default_actions(macos);
    let n = actions.len();
    proof {
        crate::assignment::lemma_actions_view_len(actions@);
        lemma_default_actions_in_range(macos);
    }
    let mut i: usize = 0;
    while i < n
        invariant
            i <= n,
            all == default_actions(macos),
            t == table_view(table@),
            n == all.len(),
            actions@.len() == n - i,
            actions_view(actions@) == all.skip(i as int),
            command_labels_resolve(all, t),
            forall|k: int| 0 <= k < all.len() ==> action_in_range(#[trigger] all[k]),
            expanded_view(result@) =~= start + commands_for(all.take(i as int), t),
        decreases n - i,
    {
        let ghost rest = actions@;
        let action = actions.remove(0);
        proof {
            lemma_actions_view_index(rest, 0);
            lemma_actions_view_drop_first(rest);
            assert(all.skip(i as int)[0] == all[i as int]);
            assert(all.skip(i as int).drop_first() =~= all.skip(i + 1));
            assert(actions@ =~= rest.drop_first());
            assert(all.take(i + 1).drop_last() =~= all.take(i as int));
            assert(all.take(i + 1).last() == all[i as int]);
        }
        match derive_command_from_key_assignment(&action) {
            Some(def) => {
                proof {
                    assert(command_spec(all[i as int]) == Some(def@));
                }
                let keys = def.permute_keys(table);
                let c = ExpandedCommand {
                    brief: def.brief,
                    doc: def.doc,
                    action,
                    keys,
                    menubar: def.menubar,
                };
                push_expanded(result, c);
            },
            None => {},
        }
        i = i + 1;
    }
    assert(all.take(n as int) =~= all);
}

impl CommandDef {
    /// Produces the complete set of expanded commands. `macos` says whether the
    /// program runs on macOS, `table` resolves the key labels of the default
    /// commands, `launch_menu` is the configured launch menu, and `mux` the
    /// state of the multiplexer, if there is one.
    pub fn expanded_commands(
        macos: bool,
        table: &Vec<(String, KeyCode)>,
        launch_menu: &Vec<SpawnCommand>,
        mux: Option<&MuxState>,
    ) -> (r: Vec<ExpandedCommand>)
        requires
            command_labels_resolve(default_actions(macos), table_view(table@)),
        ensures
            expanded_view(r@) == all_commands(
                macos,
                table_view(table@),
                spawn_commands_view(launch_menu@),
                mux_option_view(mux),
            ),
    {
        let mut result: Vec<ExpandedCommand> = Vec::new();
        assert(expanded_view(result@) =~= Seq::<ExpandedView>::empty());
        push_default_commands(&mut result, macos, table);
        push_launch_commands(&mut result, launch_menu);
        match mux {
            Some(m) => push_mux_commands(&mut result, m),
            None => {},
        }
        assert(expanded_view(result@) =~= all_commands(
            macos,
            table_view(table@),
            spawn_commands_view(launch_menu@),
            mux_option_view(mux),
        ));
        result
    }
}

// ---------------------------------------------------------------------
// Copies of actions
// ---------------------------------------------------------------------

/// A copy of a list of actions.
fn copy_actions(v: &Vec<KeyAssignment>) -> (r: Vec<KeyAssignment>)
    ensures
        actions_view(r@) == actions_view(v@),
    decreases v, 0nat,
{
    let mut r: Vec<KeyAssignment> = Vec::new();
    let n = v.len();
    let ghost all = actions_view(v@);
    proof {
        crate::assignment::lemma_actions_view_len(v@);
    }
    assert(actions_view(r@) =~= all.take(0));
    for i in 0..n
        invariant
            n == v.len(),
            all == actions_view(v@),
            all.len() == n,
            actions_view(r@) == all.take(i as int),
    {
        proof {
            lemma_actions_view_index(v@, i as int);
        }
        let a = copy_action(&v[i]);
        add_action(&mut r, a);
        assert(all.take(i + 1) =~= all.take(i as int).push(all[i as int]));
    }
    assert(all.take(n as int) =~= all);
    r
}

/// A copy of an action.
pub fn copy_action(a: &KeyAssignment) -> (r: KeyAssignment)
    ensures
        r@ == a@,
    decreases a, 1nat,
{
    match a {
        KeyAssignment::SpawnTab(d) => KeyAssignment::SpawnTab(d.clone()),
        KeyAssignment::SpawnWindow => KeyAssignment::SpawnWindow,
        KeyAssignment::ToggleFullScreen => KeyAssignment::ToggleFullScreen,
        KeyAssignment::CopyTo(x) => KeyAssignment::CopyTo(*x),
        KeyAssignment::PasteFrom(x) => KeyAssignment::PasteFrom(*x),
        KeyAssignment::ActivateTabRelative(x) => KeyAssignment::ActivateTabRelative(*x),
        KeyAssignment::ActivateTabRelativeNoWrap(x) => KeyAssignment::ActivateTabRelativeNoWrap(*x),
        KeyAssignment::IncreaseFontSize => KeyAssignment::IncreaseFontSize,
        KeyAssignment::DecreaseFontSize => KeyAssignment::DecreaseFontSize,
        KeyAssignment::ResetFontSize => KeyAssignment::ResetFontSize,
        KeyAssignment::ResetFontAndWindowSize => KeyAssignment::ResetFontAndWindowSize,
        KeyAssignment::ActivateTab(x) => KeyAssignment::ActivateTab(*x),
        KeyAssignment::ActivateLastTab => KeyAssignment::ActivateLastTab,
        KeyAssignment::SendString(s) => KeyAssignment::SendString(s.clone()),
        KeyAssignment::SendKey(k) => KeyAssignment::SendKey(k.clone()),
        KeyAssignment::Nop => KeyAssignment::Nop,
        KeyAssignment::DisableDefaultAssignment => KeyAssignment::DisableDefaultAssignment,
        KeyAssignment::Hide => KeyAssignment::Hide,
        KeyAssignment::Show => KeyAssignment::Show,
        KeyAssignment::CloseCurrentTab { confirm } => KeyAssignment::CloseCurrentTab { confirm: *confirm },
        KeyAssignment::ReloadConfiguration => KeyAssignment::ReloadConfiguration,
        KeyAssignment::MoveTabRelative(x) => KeyAssignment::MoveTabRelative(*x),
        KeyAssignment::MoveTab(x) => KeyAssignment::MoveTab(*x),
        KeyAssignment::ScrollByPage(p) => KeyAssignment::ScrollByPage(p.clone()),
        KeyAssignment::ScrollByLine(x) => KeyAssignment::ScrollByLine(*x),
        KeyAssignment::ScrollByCurrentEventWheelDelta => KeyAssignment::ScrollByCurrentEventWheelDelta,
        KeyAssignment::ScrollToPrompt(x) => KeyAssignment::ScrollToPrompt(*x),
        KeyAssignment::ScrollToTop => KeyAssignment::ScrollToTop,
        KeyAssignment::ScrollToBottom => KeyAssignment::ScrollToBottom,
        KeyAssignment::ShowTabNavigator => KeyAssignment::ShowTabNavigator,
        KeyAssignment::ShowDebugOverlay => KeyAssignment::ShowDebugOverlay,
        KeyAssignment::HideApplication => KeyAssignment::HideApplication,
        KeyAssignment::QuitApplication => KeyAssignment::QuitApplication,
        KeyAssignment::SpawnCommandInNewTab(c) => KeyAssignment::SpawnCommandInNewTab(c.clone()),
        KeyAssignment::SpawnCommandInNewWindow(c) => KeyAssignment::SpawnCommandInNewWindow(c.clone()),
        KeyAssignment::SplitHorizontal(c) => KeyAssignment::SplitHorizontal(c.clone()),
        KeyAssignment::SplitVertical(c) => KeyAssignment::SplitVertical(c.clone()),
        KeyAssignment::ShowLauncher => KeyAssignment::ShowLauncher,
        KeyAssignment::ShowLauncherArgs(x) => KeyAssignment::ShowLauncherArgs(*x),
        KeyAssignment::ClearScrollback(x) => KeyAssignment::ClearScrollback(*x),
        KeyAssignment::Search(p) => KeyAssignment::Search(p.clone()),
        KeyAssignment::ActivateCopyMode => KeyAssignment::ActivateCopyMode,
        KeyAssignment::SelectTextAtMouseCursor(x) => KeyAssignment::SelectTextAtMouseCursor(*x),
        KeyAssignment::ExtendSelectionToMouseCursor(x) => KeyAssignment::ExtendSelectionToMouseCursor(*x),
        KeyAssignment::OpenLinkAtMouseCursor => KeyAssignment::OpenLinkAtMouseCursor,
        KeyAssignment::ClearSelection => KeyAssignment::ClearSelection,
        KeyAssignment::CompleteSelection(x) => KeyAssignment::CompleteSelection(*x),
        KeyAssignment::CompleteSelectionOrOpenLinkAtMouseCursor(x) => KeyAssignment::CompleteSelectionOrOpenLinkAtMouseCursor(*x),
        KeyAssignment::StartWindowDrag => KeyAssignment::StartWindowDrag,
        KeyAssignment::AdjustPaneSize(d, n) => KeyAssignment::AdjustPaneSize(*d, *n),
        KeyAssignment::ActivatePaneDirection(x) => KeyAssignment::ActivatePaneDirection(*x),
        KeyAssignment::ActivatePaneByIndex(x) => KeyAssignment::ActivatePaneByIndex(*x),
        KeyAssignment::TogglePaneZoomState => KeyAssignment::TogglePaneZoomState,
        KeyAssignment::SetPaneZoomState(x) => KeyAssignment::SetPaneZoomState(*x),
        KeyAssignment::CloseCurrentPane { confirm } => KeyAssignment::CloseCurrentPane { confirm: *confirm },
        KeyAssignment::EmitEvent(s) => KeyAssignment::EmitEvent(s.clone()),
        KeyAssignment::QuickSelect => KeyAssignment::QuickSelect,
        KeyAssignment::QuickSelectArgs(x) => KeyAssignment::QuickSelectArgs(*x),
        KeyAssignment::Multiple(v) => KeyAssignment::Multiple(copy_actions(v)),
        KeyAssignment::SwitchToWorkspace { name, spawn } => KeyAssignment::SwitchToWorkspace {
            name: copy_string_option(name),
            spawn: match spawn {
                Some(c) => Some(c.clone()),
                None => None,
            },
        },
        KeyAssignment::SwitchWorkspaceRelative(x) => KeyAssignment::SwitchWorkspaceRelative(*x),
        KeyAssignment::ActivateKeyTable {
            name,
            timeout_milliseconds,
            replace_current,
            one_shot,
            until_unknown,
            prevent_fallback,
        } => KeyAssignment::ActivateKeyTable {
            name: name.clone(),
            timeout_milliseconds: *timeout_milliseconds,
            replace_current: *replace_current,
            one_shot: *one_shot,
            until_unknown: *until_unknown,
            prevent_fallback: *prevent_fallback,
        },
        KeyAssignment::PopKeyTable => KeyAssignment::PopKeyTable,
        KeyAssignment::ClearKeyTableStack => KeyAssignment::ClearKeyTableStack,
        KeyAssignment::DetachDomain(d) => KeyAssignment::DetachDomain(d.clone()),
        KeyAssignment::AttachDomain(s) => KeyAssignment::AttachDomain(s.clone()),
        KeyAssignment::CopyMode(x) => KeyAssignment::CopyMode(*x),
        KeyAssignment::RotatePanes(x) => KeyAssignment::RotatePanes(*x),
        KeyAssignment::SplitPane(s) => KeyAssignment::SplitPane(s.clone()),
        KeyAssignment::PaneSelect(x) => KeyAssignment::PaneSelect(*x),
        KeyAssignment::CharSelect(x) => KeyAssignment::CharSelect(*x),
        KeyAssignment::ResetTerminal => KeyAssignment::ResetTerminal,
        KeyAssignment::OpenUri(s) => KeyAssignment::OpenUri(s.clone()),
        KeyAssignment::ActivateCommandPalette => KeyAssignment::ActivateCommandPalette,
    }
}

impl Clone for KeyAssignment {
    fn clone(&self) -> (r: Self)
        ensures
            r@ == self@,
    {
        copy_action(self)
    }
}

// ---------------------------------------------------------------------
// The default key assignments
// ---------------------------------------------------------------------

/// The key assignments of a list of commands: for each command in order,
/// each of its key combinations with the command's action.
pub open spec fn key_assignments_of(cmds: Seq<ExpandedView>) -> Seq<
    (Modifiers, Seq<char>, ActionView),
>
    decreases cmds.len(),
{
    if cmds.len() == 0 {
        Seq::empty()
    } else {
        let c = cmds.last();
        key_assignments_of(cmds.drop_last()) + c.keys.map_values(
            |k: (Modifiers, Seq<char>)| (k.0, k.1, c.action),
        )
    }
}

/// The view of a list of key assignments.
pub open spec fn assignments_view(v: Seq<(Modifiers, KeyCode, KeyAssignment)>) -> Seq<
    (Modifiers, Seq<char>, ActionView),
> {
    v.map_values(|t: (Modifiers, KeyCode, KeyAssignment)| (t.0, t.1@, t.2@))
}

impl CommandDef {
    /// Produces the list of default key assignments and actions, as the input
    /// map uses them. The arguments are those of [`CommandDef::expanded_commands`].
    #[verifier::spinoff_prover]
    pub fn default_key_assignments(
        macos: bool,
        table: &Vec<(String, KeyCode)>,
        launch_menu: &Vec<SpawnCommand>,
        mux: Option<&MuxState>,
    ) -> (r: Vec<(Modifiers, KeyCode, KeyAssignment)>)
        requires
            command_labels_resolve(default_actions(macos), table_view(table@)),
        ensures
            assignments_view(r@) == key_assignments_of(
                all_commands(
                    macos,
                    table_view(table@),
                    spawn_commands_view(launch_menu@),
                    mux_option_view(mux),
                ),
            ),
    {
        let cmds = CommandDef::expanded_commands(macos, table, launch_menu, mux);
        let ghost all = expanded_view(cmds@);
        let mut result: Vec<(Modifiers, KeyCode, KeyAssignment)> = Vec::new();
        let n = cmds.len();
        assert(assignments_view(result@) =~= key_assignments_of(all.take(0)));
        for i in 0..n
            invariant
                n == cmds.len(),
                all == expanded_view(cmds@),
                assignments_view(result@) == key_assignments_of(all.take(i as int)),
        {
            let cmd = &cmds[i];
            let ghost cv = cmd@;
            let ghost start = assignments_view(result@);
            let ghost add = cv.keys.map_values(|k: (Modifiers, Seq<char>)| (k.0, k.1, cv.action));
            let m = cmd.keys.len();
            for j in 0..m
                invariant
                    m == cmd.keys.len(),
                    cv == cmd@,
                    add == cv.keys.map_values(|k: (Modifiers, Seq<char>)| (k.0, k.1, cv.action)),
                    assignments_view(result@) =~= start + add.take(j as int),
            {
                let (mods, code) = (cmd.keys[j].0, &cmd.keys[j].1);
                let ghost before = assignments_view(result@);
                let entry = (mods, code.duplicate(), copy_action(&cmd.action));
                let ghost ev = (entry.0, entry.1@, entry.2@);
                result.push(entry);
                assert(assignments_view(result@) =~= before.push(ev));
                assert(add.take(j + 1) =~= add.take(j as int).push(add[j as int]));
            }
            assert(add.take(m as int) =~= add);
            assert(all.take(i + 1).drop_last() =~= all.take(i as int));
            assert(all.take(i + 1).last() == cv);
        }
        assert(all.take(n as int) =~= all);
        result
    }
}

// ---------------------------------------------------------------------
// The labels that the default commands need resolved
// ---------------------------------------------------------------------

/// Each key label of the list followed by its shifted form.
pub open spec fn labels_of(keys: Seq<(Modifiers, Seq<char>)>) -> Seq<Seq<char>>
    decreases keys.len(),
{
    if keys.len() == 0 {
        Seq::empty()
    } else {
        labels_of(keys.drop_last()) + seq![keys.last().1, us_shifted_label(keys.last().1)]
    }
}

/// The key labels, and their shifted forms, of the commands of the
/// actions, in order.
pub open spec fn command_labels(actions: Seq<ActionView>) -> Seq<Seq<char>>
    decreases actions.len(),
{
    if actions.len() == 0 {
        Seq::empty()
    } else {
        command_labels(actions.drop_last()) + match command_spec(actions.last()) {
            Some(c) => labels_of(c.keys),
            None => Seq::empty(),
        }
    }
}

/// Lists the key labels that the default commands use, each followed by its
/// US-layout shifted form: the labels that the table given to
/// [`CommandDef::expanded_commands`] has to resolve.
pub fn default_key_labels(macos: bool) -> (r: Vec<String>)
    ensures
        string_list_view(r@) == command_labels(default_actions(macos)),
{
    let actions = compute_default_actions(macos);
    let ghost all = default_actions(macos);
    let n = actions.len();
    proof {
        crate::assignment::lemma_actions_view_len(actions@);
        lemma_default_actions_in_range(macos);
    }
    let mut labels: Vec<String> = Vec::new();
    assert(string_list_view(labels@) =~= command_labels(all.take(0)));
    for i in 0..n
        invariant
            n == actions.len(),
            all == default_actions(macos),
            all == actions_view(actions@),
            n == all.len(),
            forall|k: int| 0 <= k < all.len() ==> action_in_range(#[trigger] all[k]),
            string_list_view(labels@) == command_labels(all.take(i as int)),
    {
        proof {
            lemma_actions_view_index(actions@, i as int);
        }
        assert(all.take(i + 1).drop_last() =~= all.take(i as int));
        assert(all.take(i + 1).last() == all[i as int]);
        let ghost start = string_list_view(labels@);
        match derive_command_from_key_assignment(&actions[i]) {
            Some(def) => {
                let ghost ks = keys_view(def.keys@);
                let m = def.keys.len();
                for j in 0..m
                    invariant
                        m == def.keys.len(),
                        ks == keys_view(def.keys@),
                        string_list_view(labels@) == start + labels_of(ks.take(j as int)),
                {
                    let label = &def.keys[j].1;
                    let ghost before = string_list_view(labels@);
                    labels.push(label.clone());
                    labels.push(us_layout_shift(label.as_str()));
                    assert(ks.take(j + 1).drop_last() =~= ks.take(j as int));
                    assert(ks.take(j + 1).last().1 == label@);
                    assert(string_list_view(labels@) =~= before + seq![
                        label@,
                        us_shifted_label(label@),
                    ]);
                }
                assert(ks.take(m as int) =~= ks);
            },
            None => {
                assert(string_list_view(labels@) =~= start + Seq::<Seq<char>>::empty());
            },
        }
    }
    assert(all.take(n as int) =~= all);
    labels
}

/// Whether the table resolves every label of the list.
pub open spec fn resolves_all(t: Seq<(Seq<char>, Seq<char>)>, labels: Seq<Seq<char>>) -> bool {
    forall|i: int| 0 <= i < labels.len() ==> resolves(t, #[trigger] labels[i])
}

/// Resolving every listed label of a command resolves its key labels, as
/// they are and shifted.
pub proof fn lemma_labels_of_resolve(keys: Seq<(Modifiers, Seq<char>)>, t: Seq<(Seq<char>, Seq<char>)>)
    requires
        resolves_all(t, labels_of(keys)),
    ensures
        labels_resolve(keys, t),
    decreases keys.len(),
{
    if keys.len() > 0 {
        let before = labels_of(keys.drop_last());
        let l = keys.last().1;
        assert(labels_of(keys) == before + seq![l, us_shifted_label(l)]);
        assert forall|i: int| 0 <= i < before.len() implies resolves(t, #[trigger] before[i]) by {
            assert(labels_of(keys)[i] == before[i]);
        }
        lemma_labels_of_resolve(keys.drop_last(), t);
        assert(labels_of(keys)[before.len() as int] == l);
        assert(labels_of(keys)[before.len() as int + 1] == us_shifted_label(l));
        assert forall|i: int| 0 <= i < keys.len() implies resolves(t, #[trigger] keys[i].1)
            && resolves(t, us_shifted_label(keys[i].1)) by {
            if i < keys.len() - 1 {
                assert(keys.drop_last()[i] == keys[i]);
            }
        }
    }
}

/// A table that resolves every label that [`default_key_labels`] lists
/// meets the requirement of [`CommandDef::expanded_commands`].
pub proof fn lemma_command_labels_resolve(actions: Seq<ActionView>, t: Seq<(Seq<char>, Seq<char>)>)
    requires
        resolves_all(t, command_labels(actions)),
    ensures
        command_labels_resolve(actions, t),
    decreases actions.len(),
{
    if actions.len() > 0 {
        let before = command_labels(actions.drop_last());
        let last = match command_spec(actions.last()) {
            Some(c) => labels_of(c.keys),
            None => Seq::empty(),
        };
        assert(command_labels(actions) == before + last);
        assert forall|i: int| 0 <= i < before.len() implies resolves(t, #[trigger] before[i]) by {
            assert(command_labels(actions)[i] == before[i]);
        }
        lemma_command_labels_resolve(actions.drop_last(), t);
        match command_spec(actions.last()) {
            Some(c) => {
                assert forall|i: int| 0 <= i < last.len() implies resolves(t, #[trigger] last[i]) by {
                    assert(command_labels(actions)[before.len() + i] == last[i]);
                }
                lemma_labels_of_resolve(c.keys, t);
            },
            None => {},
        }
        assert forall|i: int| 0 <= i < actions.len() implies match command_spec(
            #[trigger] actions[i],
        ) {
            Some(c) => labels_resolve(c.keys, t),
            None => true,
        } by {
            if i < actions.len() - 1 {
                assert(actions.drop_last()[i] == actions[i]);
            }
        }
    }
}

/// Whether the table resolves every label of the list.
pub fn table_resolves(table: &Vec<(String, KeyCode)>, labels: &Vec<String>) -> (b: bool)
    ensures
        b == resolves_all(table_view(table@), string_list_view(labels@)),
{
    let n = labels.len();
    let ghost ls = string_list_view(labels@);
    for i in 0..n
        invariant
            n == labels.len(),
            ls == string_list_view(labels@),
            forall|k: int| 0 <= k < i ==> resolves(table_view(table@), #[trigger] ls[k]),
    {
        if resolve_label(table, &labels[i]).is_none() {
            assert(!resolves(table_view(table@), ls[i as int]));
            return false;
        }
    }
    true
}

impl CommandDef {
    /// Produces the complete set of expanded commands, as
    /// [`CommandDef::expanded_commands`] does, when the table resolves every label of the
    /// default commands; `None` when it does not.
    pub fn try_expanded_commands(
        macos: bool,
        table: &Vec<(String, KeyCode)>,
        launch_menu: &Vec<SpawnCommand>,
        mux: Option<&MuxState>,
    ) -> (r: Option<Vec<ExpandedCommand>>)
        ensures
            r is Some <==> resolves_all(table_view(table@), command_labels(default_actions(macos))),
            r matches Some(v) ==> expanded_view(v@) == all_commands(
                macos,
                table_view(table@),
                spawn_commands_view(launch_menu@),
                mux_option_view(mux),
            ),
    {
        let labels = default_key_labels(macos);
        if table_resolves(table, &labels) {
            proof {
                lemma_command_labels_resolve(default_actions(macos), table_view(table@));
            }
            Some(CommandDef::expanded_commands(macos, table, launch_menu, mux))
        } else {
            None
        }
    }
}

} // verus!
