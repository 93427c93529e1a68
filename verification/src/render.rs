//! How the arguments of an action are rendered inside a description.
use vstd::prelude::*;
use crate::assignment::{
    string_list_view, string_pairs_view, ActionView, ClipboardCopyDestination, KeyAssignment, KeyNoAction,
    KeyNoActionView, PaneDirection, RotationDirection, SelectionMode, SpawnCommand,
    SpawnCommandView,
};
use crate::modifiers::{
    Modifiers, ALT_BIT, CTRL_BIT, ENHANCED_KEY_BIT, LEADER_BIT, LEFT_ALT_BIT, LEFT_CTRL_BIT,
    LEFT_SHIFT_BIT, RIGHT_ALT_BIT, RIGHT_CTRL_BIT, RIGHT_SHIFT_BIT, SHIFT_BIT, SUPER_BIT,
};
use crate::text::{
    cat3, cat5, debug_quoted, decimal, join, joined, str_debug_text, strings_view, usize_text,
};

verus! {

/// The name of a pane direction.
pub open spec fn pane_direction_text(d: PaneDirection) -> Seq<char> {
    match d {
        PaneDirection::Up => "Up"@,
        PaneDirection::Down => "Down"@,
        PaneDirection::Left => "Left"@,
        PaneDirection::Right => "Right"@,
        PaneDirection::Next => "Next"@,
        PaneDirection::Prev => "Prev"@,
    }
}

pub fn pane_direction_name(d: PaneDirection) -> (r: &'static str)
    ensures
        r@ == pane_direction_text(d),
{
    match d {
        PaneDirection::Up => "Up",
        PaneDirection::Down => "Down",
        PaneDirection::Left => "Left",
        PaneDirection::Right => "Right",
        PaneDirection::Next => "Next",
        PaneDirection::Prev => "Prev",
    }
}

/// The name of a selection mode.
pub open spec fn selection_mode_text(m: SelectionMode) -> Seq<char> {
    match m {
        SelectionMode::Cell => "Cell"@,
        SelectionMode::Word => "Word"@,
        SelectionMode::Line => "Line"@,
        SelectionMode::SemanticZone => "SemanticZone"@,
        SelectionMode::Block => "Block"@,
    }
}

pub fn selection_mode_name(m: SelectionMode) -> (r: &'static str)
    ensures
        r@ == selection_mode_text(m),
{
    match m {
        SelectionMode::Cell => "Cell",
        SelectionMode::Word => "Word",
        SelectionMode::Line => "Line",
        SelectionMode::SemanticZone => "SemanticZone",
        SelectionMode::Block => "Block",
    }
}

/// The name of a copy destination.
pub open spec fn copy_destination_text(d: ClipboardCopyDestination) -> Seq<char> {
    match d {
        ClipboardCopyDestination::Clipboard => "Clipboard"@,
        ClipboardCopyDestination::PrimarySelection => "PrimarySelection"@,
        ClipboardCopyDestination::ClipboardAndPrimarySelection => "ClipboardAndPrimarySelection"@,
    }
}

pub fn copy_destination_name(d: ClipboardCopyDestination) -> (r: &'static str)
    ensures
        r@ == copy_destination_text(d),
{
    match d {
        ClipboardCopyDestination::Clipboard => "Clipboard",
        ClipboardCopyDestination::PrimarySelection => "PrimarySelection",
        ClipboardCopyDestination::ClipboardAndPrimarySelection => "ClipboardAndPrimarySelection",
    }
}

/// The name of a rotation direction.
pub open spec fn rotation_text(r: RotationDirection) -> Seq<char> {
    match r {
        RotationDirection::Clockwise => "Clockwise"@,
        RotationDirection::CounterClockwise => "CounterClockwise"@,
    }
}

pub fn rotation_name(r: RotationDirection) -> (s: &'static str)
    ensures
        s@ == rotation_text(r),
{
    match r {
        RotationDirection::Clockwise => "Clockwise",
        RotationDirection::CounterClockwise => "CounterClockwise",
    }
}

// ---------------------------------------------------------------------
// Modifiers
// ---------------------------------------------------------------------

/// The number of named modifier flags.
pub const FLAG_COUNT: usize = 12;

/// The bit of the `k`th named flag.
pub open spec fn flag_bit(k: int) -> u16 {
    if k == 0 {
        SHIFT_BIT
    } else if k == 1 {
        ALT_BIT
    } else if k == 2 {
        CTRL_BIT
    } else if k == 3 {
        SUPER_BIT
    } else if k == 4 {
        LEFT_ALT_BIT
    } else if k == 5 {
        RIGHT_ALT_BIT
    } else if k == 6 {
        LEADER_BIT
    } else if k == 7 {
        LEFT_CTRL_BIT
    } else if k == 8 {
        RIGHT_CTRL_BIT
    } else if k == 9 {
        LEFT_SHIFT_BIT
    } else if k == 10 {
        RIGHT_SHIFT_BIT
    } else {
        ENHANCED_KEY_BIT
    }
}

/// The name of the `k`th named flag.
pub open spec fn flag_name(k: int) -> Seq<char> {
    if k == 0 {
        "SHIFT"@
    } else if k == 1 {
        "ALT"@
    } else if k == 2 {
        "CTRL"@
    } else if k == 3 {
        "SUPER"@
    } else if k == 4 {
        "LEFT_ALT"@
    } else if k == 5 {
        "RIGHT_ALT"@
    } else if k == 6 {
        "LEADER"@
    } else if k == 7 {
        "LEFT_CTRL"@
    } else if k == 8 {
        "RIGHT_CTRL"@
    } else if k == 9 {
        "LEFT_SHIFT"@
    } else if k == 10 {
        "RIGHT_SHIFT"@
    } else {
        "ENHANCED_KEY"@
    }
}

fn flag_at(k: usize) -> (r: (u16, &'static str))
    requires
        k < FLAG_COUNT,
    ensures
        r.0 == flag_bit(k as int),
        r.1@ == flag_name(k as int),
{
    match k {
        0 => (SHIFT_BIT, "SHIFT"),
        1 => (ALT_BIT, "ALT"),
        2 => (CTRL_BIT, "CTRL"),
        3 => (SUPER_BIT, "SUPER"),
        4 => (LEFT_ALT_BIT, "LEFT_ALT"),
        5 => (RIGHT_ALT_BIT, "RIGHT_ALT"),
        6 => (LEADER_BIT, "LEADER"),
        7 => (LEFT_CTRL_BIT, "LEFT_CTRL"),
        8 => (RIGHT_CTRL_BIT, "RIGHT_CTRL"),
        9 => (LEFT_SHIFT_BIT, "LEFT_SHIFT"),
        10 => (RIGHT_SHIFT_BIT, "RIGHT_SHIFT"),
        _ => (ENHANCED_KEY_BIT, "ENHANCED_KEY"),
    }
}

/// The names of the named flags set in `bits`, from the `k`th flag on, in
/// the order of their bits.
pub open spec fn set_flag_names(bits: u16, k: int) -> Seq<Seq<char>>
    decreases FLAG_COUNT - k,
{
    if k < 0 || k >= FLAG_COUNT {
        Seq::empty()
    } else if bits & flag_bit(k) != 0 {
        seq![flag_name(k)] + set_flag_names(bits, k + 1)
    } else {
        set_flag_names(bits, k + 1)
    }
}

/// How a set of modifiers reads: the names of its flags joined by " | ",
/// or "NONE" when no named flag is set.
pub open spec fn modifiers_text(m: Modifiers) -> Seq<char> {
    let names = set_flag_names(m.bits, 0);
    if names.len() == 0 {
        "NONE"@
    } else {
        joined(names, " | "@)
    }
}

/// The text of a set of modifiers, as [`modifiers_text`] says.
pub fn modifiers_name(m: Modifiers) -> (r: String)
    ensures
        r@ == modifiers_text(m),
{
    let mut names: Vec<String> = Vec::new();
    let mut k: usize = 0;
    while k < FLAG_COUNT
        invariant
            k <= FLAG_COUNT,
            strings_view(names@) + set_flag_names(m.bits, k as int) == set_flag_names(m.bits, 0),
        decreases FLAG_COUNT - k,
    {
        let (bit, name) = flag_at(k);
        let ghost before = strings_view(names@);
        if m.bits & bit != 0 {
            names.push(String::from_str(name));
            assert(strings_view(names@) =~= before.push(name@));
            assert(before + set_flag_names(m.bits, k as int) == before + (seq![flag_name(k as int)]
                + set_flag_names(m.bits, k + 1)));
            assert(before.push(name@) + set_flag_names(m.bits, k + 1) =~= before + (seq![
                flag_name(k as int),
            ] + set_flag_names(m.bits, k + 1)));
        } else {
            assert(strings_view(names@) == before);
        }
        k = k + 1;
    }
    assert(set_flag_names(m.bits, FLAG_COUNT as int) == Seq::<Seq<char>>::empty());
    assert(strings_view(names@) =~= set_flag_names(m.bits, 0));
    if names.len() == 0 {
        String::from_str("NONE")
    } else {
        join(&names, " | ")
    }
}

// ---------------------------------------------------------------------
// Argument texts
// ---------------------------------------------------------------------

/// A list of strings as `[` each one quoted, separated by ", " `]`.
pub open spec fn string_list_text(v: Seq<Seq<char>>) -> Seq<char> {
    "["@ + joined(v.map_values(|s: Seq<char>| str_debug_text(s)), ", "@) + "]"@
}

pub fn string_list_name(v: &Vec<String>) -> (r: String)
    ensures
        r@ == string_list_text(string_list_view(v@)),
{
    let mut quoted: Vec<String> = Vec::new();
    let n = v.len();
    let ghost want = string_list_view(v@).map_values(|s: Seq<char>| str_debug_text(s));
    for i in 0..n
        invariant
            n == v.len(),
            want == string_list_view(v@).map_values(|s: Seq<char>| str_debug_text(s)),
            strings_view(quoted@) =~= want.take(i as int),
    {
        let q = debug_quoted(v[i].as_str());
        assert(want[i as int] == q@);
        let ghost before = strings_view(quoted@);
        quoted.push(q);
        assert(strings_view(quoted@) =~= before.push(q@));
        assert(strings_view(quoted@) =~= want.take(i + 1));
    }
    assert(want.take(n as int) =~= want);
    let inner = join(&quoted, ", ");
    cat3("[", inner.as_str(), "]")
}

/// How a program to spawn is described: "SpawnCommand", then its label in
/// single quotes, its arguments as a quoted list, and its working
/// directory, each only where it is set.
pub open spec fn spawn_command_text(c: SpawnCommandView) -> Seq<char> {
    "SpawnCommand"@ + match c.label {
        Some(l) => " label='"@ + l + "'"@,
        None => Seq::empty(),
    } + match c.args {
        Some(a) => " args="@ + string_list_text(a),
        None => Seq::empty(),
    } + match c.cwd {
        Some(d) => " cwd="@ + d,
        None => Seq::empty(),
    } + environment_text(c.set_environment_variables)
}

/// How environment variables are described: " name=value" for each, in
/// order.
pub open spec fn environment_text(vars: Seq<(Seq<char>, Seq<char>)>) -> Seq<char>
    decreases vars.len(),
{
    if vars.len() == 0 {
        Seq::empty()
    } else {
        environment_text(vars.drop_last()) + " "@ + vars.last().0 + "="@ + vars.last().1
    }
}

/// Appends the description of the environment variables.
fn append_environment(r: &mut String, vars: &Vec<(String, String)>)
    ensures
        final(r)@ == old(r)@ + environment_text(string_pairs_view(vars@)),
{
    let ghost head = r@;
    let ghost vv = string_pairs_view(vars@);
    let n = vars.len();
    assert(vv.take(0) =~= Seq::<(Seq<char>, Seq<char>)>::empty());
    assert(head =~= head + environment_text(vv.take(0)));
    for i in 0..n
        invariant
            n == vars.len(),
            vv == string_pairs_view(vars@),
            r@ == head + environment_text(vv.take(i as int)),
    {
        r.append(" ");
        r.append(vars[i].0.as_str());
        r.append("=");
        r.append(vars[i].1.as_str());
        assert(vv.take(i + 1).drop_last() =~= vv.take(i as int));
        assert(vv.take(i + 1).last() == vv[i as int]);
        assert(r@ =~= head + environment_text(vv.take(i + 1)));
    }
    assert(vv.take(n as int) =~= vv);
}

pub fn spawn_command_name(c: &SpawnCommand) -> (r: String)
    ensures
        r@ == spawn_command_text(c@),
{
    let mut r = String::from_str("SpawnCommand");
    match &c.label {
        Some(l) => {
            r.append(" label='");
            r.append(l.as_str());
            r.append("'");
        },
        None => {},
    }
    match &c.args {
        Some(a) => {
            r.append(" args=");
            let list = string_list_name(a);
            r.append(list.as_str());
        },
        None => {},
    }
    match &c.cwd {
        Some(d) => {
            r.append(" cwd=");
            r.append(d.as_str());
        },
        None => {},
    }
    append_environment(&mut r, &c.set_environment_variables);
    assert(r@ =~= spawn_command_text(c@));
    r
}

/// How a key press is described: the name of its key code and its
/// modifiers.
pub open spec fn key_no_action_text(k: KeyNoActionView) -> Seq<char> {
    "KeyNoAction { key: "@ + k.key + ", mods: "@ + modifiers_text(k.mods) + " }"@
}

pub fn key_no_action_name(k: &KeyNoAction) -> (r: String)
    ensures
        r@ == key_no_action_text(k@),
{
    let mods = modifiers_name(k.mods);
    cat5("KeyNoAction { key: ", k.key.name.as_str(), ", mods: ", mods.as_str(), " }")
}

/// How the actions that have no command of their own are written out:
/// the variant with its arguments, as in `AdjustPaneSize(Next, 3)`.
pub open spec fn unnamed_action_text(a: ActionView) -> Seq<char> {
    match a {
        ActionView::AdjustPaneSize(d, n) => "AdjustPaneSize("@ + pane_direction_text(d) + ", "@
            + decimal(n as nat) + ")"@,
        ActionView::ActivatePaneDirection(d) => "ActivatePaneDirection("@ + pane_direction_text(d)
            + ")"@,
        ActionView::DisableDefaultAssignment => "DisableDefaultAssignment"@,
        _ => Seq::empty(),
    }
}

pub fn unnamed_action_name(a: &KeyAssignment) -> (r: String)
    ensures
        r@ == unnamed_action_text(a@),
{
    match a {
        KeyAssignment::AdjustPaneSize(d, n) => {
            let amount = usize_text(*n);
            cat5("AdjustPaneSize(", pane_direction_name(*d), ", ", amount.as_str(), ")")
        },
        KeyAssignment::ActivatePaneDirection(d) => {
            cat3("ActivatePaneDirection(", pane_direction_name(*d), ")")
        },
        KeyAssignment::DisableDefaultAssignment => String::from_str("DisableDefaultAssignment"),
        _ => String::new(),
    }
}

} // verus!
