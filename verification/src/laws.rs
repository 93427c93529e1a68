//! Properties of the command catalogue as a whole.
use vstd::prelude::*;
use crate::assignment::{ActionView, PaneDirection};
use crate::command::{command_spec, multiple_brief, ArgType, CommandView};
use crate::render::unnamed_action_text;
use crate::text::{decimal, digit_char, int_text, joined};
use crate::defaults::{
    window_actions, wezterm_actions, shell_actions, edit_actions, view_actions,
    all_commands, commands_for, default_actions, detach_domain_commands, key_assignments_of,
    key_permutations, launch_commands, mux_commands, permuted, resolved, spawn_domain_commands,
    workspace_commands, DomainInfoView, ExpandedView, MuxView, domain_before, insert_domain,
    sorted_domains, DomainState,
};
use crate::assignment::{DomainView, SpawnCommandView};
use crate::menubar::{in_menu, menu_titles, placement, preferred_menus};
use crate::modifiers::{Modifiers, CTRL_BIT, SHIFT_BIT, SUPER_BIT};
use crate::text::us_shifted_label;

verus! {

/// Whether an action is one of those that have no command: resizing or
/// activating towards the next or previous pane, and disabling a default
/// assignment.
pub open spec fn has_no_command(a: ActionView) -> bool {
    ||| a matches ActionView::AdjustPaneSize(PaneDirection::Next, _)
    ||| a matches ActionView::AdjustPaneSize(PaneDirection::Prev, _)
    ||| a matches ActionView::ActivatePaneDirection(PaneDirection::Next)
    ||| a matches ActionView::ActivatePaneDirection(PaneDirection::Prev)
    ||| a is DisableDefaultAssignment
}

/// Every action has a command except resizing or activating towards the
/// next or previous pane and disabling a default assignment.
pub proof fn lemma_command_absent(a: ActionView)
    ensures
        command_spec(a) is None <==> has_no_command(a),
{
}

/// Every default action can be described: each has a command.
pub proof fn lemma_default_actions_described(macos: bool)
    ensures
        forall|k: int|
            0 <= k < default_actions(macos).len() ==> command_spec(
                #[trigger] default_actions(macos)[k],
            ) is Some,
{
}

/// What an action contributes to the brief of a list of actions: the
/// brief of its command, or its written-out form where it has none.
pub open spec fn brief_part(a: ActionView) -> Seq<char> {
    match command_spec(a) {
        Some(c) => c.brief,
        None => unnamed_action_text(a),
    }
}

/// The contributions of a list of actions, in order.
pub open spec fn brief_parts(actions: Seq<ActionView>) -> Seq<Seq<char>> {
    actions.map_values(|a: ActionView| brief_part(a))
}

/// The parts from the first one that is not empty on.
pub open spec fn skip_leading_empty(parts: Seq<Seq<char>>) -> Seq<Seq<char>>
    decreases parts.len(),
{
    if parts.len() == 0 || parts[0].len() > 0 {
        parts
    } else {
        skip_leading_empty(parts.drop_first())
    }
}

proof fn lemma_skip_push(xs: Seq<Seq<char>>, p: Seq<char>)
    ensures
        skip_leading_empty(xs.push(p)) == if skip_leading_empty(xs).len() == 0 {
            if p.len() == 0 {
                Seq::<Seq<char>>::empty()
            } else {
                seq![p]
            }
        } else {
            skip_leading_empty(xs).push(p)
        },
    decreases xs.len(),
{
    if xs.len() == 0 {
        assert(xs.push(p) =~= seq![p]);
        assert(skip_leading_empty(xs) == xs);
        if p.len() == 0 {
            assert(seq![p].drop_first() =~= Seq::<Seq<char>>::empty());
            assert(skip_leading_empty(seq![p]) == skip_leading_empty(seq![p].drop_first()));
        } else {
            assert(skip_leading_empty(seq![p]) == seq![p]);
        }
    } else if xs[0].len() > 0 {
        assert(xs.push(p)[0] == xs[0]);
        assert(skip_leading_empty(xs) == xs);
        assert(skip_leading_empty(xs.push(p)) == xs.push(p));
    } else {
        assert(xs.push(p)[0] == xs[0]);
        assert(xs.push(p).drop_first() =~= xs.drop_first().push(p));
        assert(skip_leading_empty(xs) == skip_leading_empty(xs.drop_first()));
        assert(skip_leading_empty(xs.push(p)) == skip_leading_empty(xs.push(p).drop_first()));
        lemma_skip_push(xs.drop_first(), p);
    }
}

proof fn lemma_skip_first_nonempty(xs: Seq<Seq<char>>)
    ensures
        skip_leading_empty(xs).len() > 0 ==> skip_leading_empty(xs)[0].len() > 0,
    decreases xs.len(),
{
    if xs.len() > 0 && xs[0].len() == 0 {
        lemma_skip_first_nonempty(xs.drop_first());
    }
}

proof fn lemma_joined_len(parts: Seq<Seq<char>>, sep: Seq<char>)
    requires
        parts.len() > 0,
    ensures
        joined(parts, sep).len() >= parts[0].len(),
    decreases parts.len(),
{
    if parts.len() > 1 {
        lemma_joined_len(parts.drop_last(), sep);
        assert(parts.drop_last()[0] == parts[0]);
    }
}

proof fn lemma_joined_push(parts: Seq<Seq<char>>, sep: Seq<char>, p: Seq<char>)
    requires
        parts.len() > 0,
    ensures
        joined(parts.push(p), sep) == joined(parts, sep) + sep + p,
{
    assert(parts.push(p).drop_last() =~= parts);
    assert(parts.push(p).last() == p);
}

proof fn lemma_multiple_brief_skip_join(actions: Seq<ActionView>)
    ensures
        multiple_brief(actions) == joined(skip_leading_empty(brief_parts(actions)), ", "@),
    decreases actions.len(),
{
    if actions.len() == 0 {
        assert(brief_parts(actions) =~= Seq::<Seq<char>>::empty());
    } else {
        let front = actions.drop_last();
        let p = brief_part(actions.last());
        lemma_multiple_brief_skip_join(front);
        assert(brief_parts(actions) =~= brief_parts(front).push(p));
        let sf = skip_leading_empty(brief_parts(front));
        lemma_skip_push(brief_parts(front), p);
        if sf.len() == 0 {
            assert(multiple_brief(front) =~= Seq::<char>::empty());
        } else {
            lemma_skip_first_nonempty(brief_parts(front));
            lemma_joined_len(sf, ", "@);
            lemma_joined_push(sf, ", "@, p);
        }
    }
}

/// The command of several actions in one: its brief is the briefs of the
/// actions (the written-out form of one without a command) joined by
/// ", ", once the empty ones at the front are left out; it performs
/// multiple nested actions on the active pane, with no keys and no place
/// in the menubar.
pub proof fn lemma_multiple_command(actions: Seq<ActionView>)
    ensures
        command_spec(ActionView::Multiple(actions)) == Some(
            CommandView {
                brief: joined(skip_leading_empty(brief_parts(actions)), ", "@),
                doc: "Performs multiple nested actions"@,
                keys: Seq::empty(),
                args: seq![ArgType::ActivePane],
                menubar: Seq::empty(),
            },
        ),
{
    lemma_multiple_brief_skip_join(actions);
}

/// Whether a key label is not a single uppercase ASCII letter.
pub open spec fn lowercase_label(l: Seq<char>) -> bool {
    !(l.len() == 1 && 'A' <= l[0] && l[0] <= 'Z')
}

/// Whether no key label of the action's command is a single uppercase
/// letter.
pub open spec fn labels_lowercase(a: ActionView) -> bool {
    match command_spec(a) {
        Some(c) => forall|j: int| 0 <= j < c.keys.len() ==> lowercase_label(#[trigger] c.keys[j].1),
        None => true,
    }
}

/// The key synthesis relies on the default key assignments naming a single
/// letter by its lowercase form: no key label of a default command is a
/// single uppercase letter.
pub proof fn lemma_default_labels_lowercase(macos: bool)
    ensures
        forall|k: int|
            0 <= k < default_actions(macos).len() ==> labels_lowercase(
                #[trigger] default_actions(macos)[k],
            ),
{
    reveal_strlit("Insert");
    reveal_strlit("c");
    reveal_strlit("Copy");
    reveal_strlit("v");
    reveal_strlit("Paste");
    reveal_strlit("Return");
    reveal_strlit("m");
    reveal_strlit("h");
    reveal_strlit("n");
    reveal_strlit("k");
    reveal_strlit("f");
    reveal_strlit("l");
    reveal_strlit("Space");
    reveal_strlit("u");
    reveal_strlit("-");
    reveal_strlit("=");
    reveal_strlit("0");
    reveal_strlit("t");
    reveal_strlit("9");
    reveal_strlit("w");
    reveal_strlit("[");
    reveal_strlit("Tab");
    reveal_strlit("PageUp");
    reveal_strlit("]");
    reveal_strlit("PageDown");
    reveal_strlit("r");
    reveal_strlit("q");
    reveal_strlit("'");
    reveal_strlit("5");
    reveal_strlit("LeftArrow");
    reveal_strlit("RightArrow");
    reveal_strlit("UpArrow");
    reveal_strlit("DownArrow");
    reveal_strlit("z");
    reveal_strlit("x");
    reveal_strlit("p");
}

/// Whether every key label of the action's command names a key in the form
/// that the key synthesis expects: not empty, and not a single uppercase
/// letter.
pub open spec fn labels_well_formed(a: ActionView) -> bool {
    match command_spec(a) {
        Some(c) => forall|j: int|
            0 <= j < c.keys.len() ==> (#[trigger] c.keys[j].1).len() > 0 && lowercase_label(
                c.keys[j].1,
            ),
        None => true,
    }
}

/// Every action, not only a default one, binds its command's keys by
/// labels that are not empty and name a single letter by its lowercase
/// form.
pub proof fn lemma_command_labels_well_formed(a: ActionView)
    ensures
        labels_well_formed(a),
{
    reveal_strlit("'");
    reveal_strlit("-");
    reveal_strlit("0");
    reveal_strlit("5");
    reveal_strlit("9");
    reveal_strlit("=");
    reveal_strlit("Copy");
    reveal_strlit("DownArrow");
    reveal_strlit("Insert");
    reveal_strlit("LeftArrow");
    reveal_strlit("PageDown");
    reveal_strlit("PageUp");
    reveal_strlit("Paste");
    reveal_strlit("Return");
    reveal_strlit("RightArrow");
    reveal_strlit("Space");
    reveal_strlit("Tab");
    reveal_strlit("UpArrow");
    reveal_strlit("[");
    reveal_strlit("]");
    reveal_strlit("c");
    reveal_strlit("f");
    reveal_strlit("h");
    reveal_strlit("k");
    reveal_strlit("l");
    reveal_strlit("m");
    reveal_strlit("n");
    reveal_strlit("p");
    reveal_strlit("q");
    reveal_strlit("r");
    reveal_strlit("t");
    reveal_strlit("u");
    reveal_strlit("v");
    reveal_strlit("w");
    reveal_strlit("x");
    reveal_strlit("z");
}

proof fn lemma_contains_concat<A>(p: Seq<A>, q: Seq<A>, x: A)
    requires
        p.contains(x) || q.contains(x),
    ensures
        (p + q).contains(x),
{
    if p.contains(x) {
        let k = choose|k: int| 0 <= k < p.len() && p[k] == x;
        assert((p + q)[k] == x);
    } else {
        let k = choose|k: int| 0 <= k < q.len() && q[k] == x;
        assert((p + q)[p.len() + k] == x);
    }
}

/// What the key synthesis guarantees for one key assignment `(m, l)`: its
/// own combination stays; a SUPER combination gains CTRL+SHIFT with the
/// same key and, when the shifted key differs, CTRL+SHIFT and CTRL with the
/// shifted key; any other combination with SHIFT whose shifted key differs
/// gains the shifted key with and without SHIFT.
pub open spec fn synthesis_covers(
    out: Seq<(Modifiers, Seq<char>)>,
    m: Modifiers,
    l: Seq<char>,
    t: Seq<(Seq<char>, Seq<char>)>,
) -> bool {
    let key = resolved(t, l);
    let ukey = resolved(t, us_shifted_label(l));
    let ctrl_shift = Modifiers { bits: CTRL_BIT | SHIFT_BIT };
    &&& out.contains((m, key))
    &&& m == (Modifiers { bits: SUPER_BIT }) ==> out.contains((ctrl_shift, key))
    &&& m == (Modifiers { bits: SUPER_BIT }) && ukey != key ==> out.contains((ctrl_shift, ukey))
        && out.contains((Modifiers { bits: CTRL_BIT }, ukey))
    &&& m != (Modifiers { bits: SUPER_BIT }) && m.bits & SHIFT_BIT == SHIFT_BIT && ukey != key
        ==> out.contains((m, ukey)) && out.contains((Modifiers { bits: m.bits & !SHIFT_BIT }, ukey))
}

/// Each key assignment of a command is covered by the permuted keys as
/// [`synthesis_covers`] says: the SUPER bindings also get CTRL+SHIFT
/// versions, and shifted bindings appear in every form that the operating
/// system may present.
pub proof fn lemma_permuted_covers(
    keys: Seq<(Modifiers, Seq<char>)>,
    t: Seq<(Seq<char>, Seq<char>)>,
    i: int,
)
    requires
        0 <= i < keys.len(),
    ensures
        synthesis_covers(permuted(keys, t), keys[i].0, keys[i].1, t),
    decreases keys.len(),
{
    let p = permuted(keys.drop_last(), t);
    let (m, l) = keys.last();
    let q = key_permutations(m, l, t);
    assert(permuted(keys, t) == p + q);
    if i == keys.len() - 1 {
        let key = resolved(t, l);
        let ukey = resolved(t, us_shifted_label(l));
        let ctrl_shift = Modifiers { bits: CTRL_BIT | SHIFT_BIT };
        assert(q[0] == (m, key));
        lemma_contains_concat(p, q, (m, key));
        if m == (Modifiers { bits: SUPER_BIT }) {
            assert(q[1] == (ctrl_shift, key));
            lemma_contains_concat(p, q, (ctrl_shift, key));
            if ukey != key {
                assert(q[2] == (ctrl_shift, ukey));
                assert(q[3] == (Modifiers { bits: CTRL_BIT }, ukey));
                lemma_contains_concat(p, q, (ctrl_shift, ukey));
                lemma_contains_concat(p, q, (Modifiers { bits: CTRL_BIT }, ukey));
            }
        } else if m.bits & SHIFT_BIT == SHIFT_BIT && ukey != key {
            assert(q[1] == (m, ukey));
            assert(q[2] == (Modifiers { bits: m.bits & !SHIFT_BIT }, ukey));
            lemma_contains_concat(p, q, (m, ukey));
            lemma_contains_concat(p, q, (Modifiers { bits: m.bits & !SHIFT_BIT }, ukey));
        }
    } else {
        lemma_permuted_covers(keys.drop_last(), t, i);
        assert(keys.drop_last()[i] == keys[i]);
        let (mi, li) = keys[i];
        let key = resolved(t, li);
        let ukey = resolved(t, us_shifted_label(li));
        let ctrl_shift = Modifiers { bits: CTRL_BIT | SHIFT_BIT };
        lemma_contains_concat(p, q, (mi, key));
        if p.contains((ctrl_shift, key)) {
            lemma_contains_concat(p, q, (ctrl_shift, key));
        }
        if p.contains((ctrl_shift, ukey)) {
            lemma_contains_concat(p, q, (ctrl_shift, ukey));
        }
        if p.contains((Modifiers { bits: CTRL_BIT }, ukey)) {
            lemma_contains_concat(p, q, (Modifiers { bits: CTRL_BIT }, ukey));
        }
        if p.contains((mi, ukey)) {
            lemma_contains_concat(p, q, (mi, ukey));
        }
        if p.contains((Modifiers { bits: mi.bits & !SHIFT_BIT }, ukey)) {
            lemma_contains_concat(p, q, (Modifiers { bits: mi.bits & !SHIFT_BIT }, ukey));
        }
    }
}

/// Whether no command of the list has keys.
pub open spec fn keyless(s: Seq<ExpandedView>) -> bool {
    forall|i: int| 0 <= i < s.len() ==> (#[trigger] s[i]).keys.len() == 0
}

proof fn lemma_key_assignments_concat(a: Seq<ExpandedView>, b: Seq<ExpandedView>)
    ensures
        key_assignments_of(a + b) == key_assignments_of(a) + key_assignments_of(b),
    decreases b.len(),
{
    if b.len() == 0 {
        assert(a + b =~= a);
        assert(key_assignments_of(a) + key_assignments_of(b) =~= key_assignments_of(a));
    } else {
        assert((a + b).drop_last() =~= a + b.drop_last());
        assert((a + b).last() == b.last());
        lemma_key_assignments_concat(a, b.drop_last());
        let c = b.last();
        let extra = c.keys.map_values(|k: (Modifiers, Seq<char>)| (k.0, k.1, c.action));
        assert(key_assignments_of(a) + key_assignments_of(b.drop_last()) + extra
            =~= key_assignments_of(a) + (key_assignments_of(b.drop_last()) + extra));
    }
}

proof fn lemma_keyless_no_assignments(s: Seq<ExpandedView>)
    requires
        keyless(s),
    ensures
        key_assignments_of(s) == Seq::<(Modifiers, Seq<char>, ActionView)>::empty(),
    decreases s.len(),
{
    if s.len() > 0 {
        assert(keyless(s.drop_last())) by {
            assert forall|i: int| 0 <= i < s.drop_last().len() implies (
            #[trigger] s.drop_last()[i]).keys.len() == 0 by {
                assert(s.drop_last()[i] == s[i]);
            }
        }
        lemma_keyless_no_assignments(s.drop_last());
        let c = s.last();
        assert(c.keys.len() == 0);
        assert(key_assignments_of(s) =~= Seq::<(Modifiers, Seq<char>, ActionView)>::empty());
    }
}

proof fn lemma_keyless_concat(a: Seq<ExpandedView>, b: Seq<ExpandedView>)
    requires
        keyless(a),
        keyless(b),
    ensures
        keyless(a + b),
{
    assert forall|i: int| 0 <= i < (a + b).len() implies (#[trigger] (a + b)[i]).keys.len() == 0 by {
        if i < a.len() {
            assert((a + b)[i] == a[i]);
        } else {
            assert((a + b)[i] == b[i - a.len()]);
        }
    }
}

proof fn lemma_spawn_domain_keyless(ds: Seq<DomainInfoView>)
    ensures
        keyless(spawn_domain_commands(ds)),
    decreases ds.len(),
{
    if ds.len() > 0 {
        lemma_spawn_domain_keyless(ds.drop_last());
    }
}

proof fn lemma_detach_domain_keyless(ds: Seq<DomainInfoView>)
    ensures
        keyless(detach_domain_commands(ds)),
    decreases ds.len(),
{
    if ds.len() > 0 {
        lemma_detach_domain_keyless(ds.drop_last());
    }
}

proof fn lemma_workspace_keyless(ws: Seq<Seq<char>>, active: Seq<char>)
    ensures
        keyless(workspace_commands(ws, active)),
    decreases ws.len(),
{
    if ws.len() > 0 {
        lemma_workspace_keyless(ws.drop_last(), active);
    }
}

proof fn lemma_mux_keyless(m: MuxView)
    ensures
        keyless(mux_commands(m)),
{
    let ds = crate::defaults::sorted_domains(m.domains);
    lemma_spawn_domain_keyless(ds);
    lemma_detach_domain_keyless(ds);
    lemma_workspace_keyless(m.workspaces, m.active_workspace);
    let last = seq![crate::defaults::create_workspace()];
    assert(keyless(last));
    lemma_keyless_concat(spawn_domain_commands(ds), detach_domain_commands(ds));
    lemma_keyless_concat(
        spawn_domain_commands(ds) + detach_domain_commands(ds),
        workspace_commands(m.workspaces, m.active_workspace),
    );
    lemma_keyless_concat(
        spawn_domain_commands(ds) + detach_domain_commands(ds) + workspace_commands(
            m.workspaces,
            m.active_workspace,
        ),
        last,
    );
}

/// The default key assignments come from the default actions alone: the
/// commands of the launch menu and of the multiplexer add none.
pub proof fn lemma_key_assignments_from_defaults(
    macos: bool,
    t: Seq<(Seq<char>, Seq<char>)>,
    launch_menu: Seq<SpawnCommandView>,
    mux: Option<MuxView>,
)
    ensures
        key_assignments_of(all_commands(macos, t, launch_menu, mux)) == key_assignments_of(
            commands_for(default_actions(macos), t),
        ),
{
    let d = commands_for(default_actions(macos), t);
    let l = launch_commands(launch_menu);
    let x = match mux {
        Some(m) => mux_commands(m),
        None => Seq::empty(),
    };
    assert(keyless(l));
    match mux {
        Some(m) => lemma_mux_keyless(m),
        None => {},
    }
    lemma_keyless_concat(l, x);
    lemma_keyless_no_assignments(l + x);
    assert(all_commands(macos, t, launch_menu, mux) == d + (l + x)) by {
        assert(d + l + x =~= d + (l + x));
    }
    lemma_key_assignments_concat(d, l + x);
    assert(key_assignments_of(d) + key_assignments_of(l + x) =~= key_assignments_of(d));
}

proof fn lemma_key_assignments_push(s: Seq<ExpandedView>, e: ExpandedView)
    ensures
        key_assignments_of(s.push(e)) == key_assignments_of(s) + e.keys.map_values(
            |k: (Modifiers, Seq<char>)| (k.0, k.1, e.action),
        ),
{
    assert(s.push(e).drop_last() =~= s);
    assert(s.push(e).last() == e);
}

proof fn lemma_assignments_carry_actions(actions: Seq<ActionView>, t: Seq<(Seq<char>, Seq<char>)>)
    ensures
        forall|i: int|
            0 <= i < key_assignments_of(commands_for(actions, t)).len() ==> actions.contains(
                (#[trigger] key_assignments_of(commands_for(actions, t))[i]).2,
            ),
    decreases actions.len(),
{
    if actions.len() > 0 {
        let front = actions.drop_last();
        lemma_assignments_carry_actions(front, t);
        let before = commands_for(front, t);
        let kb = key_assignments_of(before);
        let r = key_assignments_of(commands_for(actions, t));
        match command_spec(actions.last()) {
            Some(c) => {
                let e = ExpandedView {
                    brief: c.brief,
                    doc: c.doc,
                    action: actions.last(),
                    keys: permuted(c.keys, t),
                    menubar: c.menubar,
                };
                assert(commands_for(actions, t) == before.push(e));
                lemma_key_assignments_push(before, e);
                assert forall|i: int| 0 <= i < r.len() implies actions.contains(
                    (#[trigger] r[i]).2,
                ) by {
                    if i < kb.len() {
                        assert(r[i] == kb[i]);
                        assert(front.contains(kb[i].2));
                        let k = choose|k: int| 0 <= k < front.len() && front[k] == kb[i].2;
                        assert(actions[k] == front[k]);
                    } else {
                        assert(r[i].2 == actions.last());
                        assert(actions[actions.len() - 1] == actions.last());
                    }
                }
            },
            None => {
                assert(commands_for(actions, t) == before);
                assert forall|i: int| 0 <= i < r.len() implies actions.contains(
                    (#[trigger] r[i]).2,
                ) by {
                    assert(front.contains(r[i].2));
                    let k = choose|k: int| 0 <= k < front.len() && front[k] == r[i].2;
                    assert(actions[k] == front[k]);
                }
            },
        }
    }
}

proof fn lemma_assignments_cover_keys(
    actions: Seq<ActionView>,
    t: Seq<(Seq<char>, Seq<char>)>,
    k: int,
    j: int,
)
    requires
        0 <= k < actions.len(),
        command_spec(actions[k]) is Some,
        0 <= j < command_spec(actions[k])->0.keys.len(),
    ensures
        key_assignments_of(commands_for(actions, t)).contains(
            (
                command_spec(actions[k])->0.keys[j].0,
                resolved(t, command_spec(actions[k])->0.keys[j].1),
                actions[k],
            ),
        ),
    decreases actions.len(),
{
    let front = actions.drop_last();
    let before = commands_for(front, t);
    let kb = key_assignments_of(before);
    let c = command_spec(actions[k])->0;
    let target = (c.keys[j].0, resolved(t, c.keys[j].1), actions[k]);
    if k == actions.len() - 1 {
        assert(actions.last() == actions[k]);
        let e = ExpandedView {
            brief: c.brief,
            doc: c.doc,
            action: actions.last(),
            keys: permuted(c.keys, t),
            menubar: c.menubar,
        };
        assert(commands_for(actions, t) == before.push(e));
        lemma_key_assignments_push(before, e);
        lemma_permuted_covers(c.keys, t, j);
        let p = choose|p: int|
            0 <= p < e.keys.len() && e.keys[p] == (c.keys[j].0, resolved(t, c.keys[j].1));
        let extra = e.keys.map_values(|q: (Modifiers, Seq<char>)| (q.0, q.1, e.action));
        assert(extra[p] == target);
        let r = key_assignments_of(commands_for(actions, t));
        assert(r[kb.len() + p] == target);
    } else {
        assert(front[k] == actions[k]);
        lemma_assignments_cover_keys(front, t, k, j);
        let q = choose|q: int| 0 <= q < kb.len() && kb[q] == target;
        match command_spec(actions.last()) {
            Some(c2) => {
                let e = ExpandedView {
                    brief: c2.brief,
                    doc: c2.doc,
                    action: actions.last(),
                    keys: permuted(c2.keys, t),
                    menubar: c2.menubar,
                };
                assert(commands_for(actions, t) == before.push(e));
                lemma_key_assignments_push(before, e);
                assert(key_assignments_of(commands_for(actions, t))[q] == target);
            },
            None => {
                assert(commands_for(actions, t) == before);
            },
        }
    }
}

/// What the default key assignments hold: every one of them performs a
/// default action, and every key of every default action's command is
/// among them, with the key code that the table gives its label and with
/// that action.
pub proof fn lemma_default_key_assignments_contents(
    macos: bool,
    t: Seq<(Seq<char>, Seq<char>)>,
    launch_menu: Seq<SpawnCommandView>,
    mux: Option<MuxView>,
)
    ensures
        forall|i: int|
            0 <= i < key_assignments_of(all_commands(macos, t, launch_menu, mux)).len()
                ==> default_actions(macos).contains(
                (#[trigger] key_assignments_of(all_commands(macos, t, launch_menu, mux))[i]).2,
            ),
        forall|k: int, j: int|
            0 <= k < default_actions(macos).len() && 0 <= j < command_spec(
                default_actions(macos)[k],
            )->0.keys.len() ==> key_assignments_of(
                all_commands(macos, t, launch_menu, mux),
            ).contains(
                (
                    (#[trigger] command_spec(default_actions(macos)[k])->0.keys[j]).0,
                    resolved(t, command_spec(default_actions(macos)[k])->0.keys[j].1),
                    default_actions(macos)[k],
                ),
            ),
{
    let d = default_actions(macos);
    lemma_key_assignments_from_defaults(macos, t, launch_menu, mux);
    lemma_assignments_carry_actions(d, t);
    lemma_default_actions_described(macos);
    assert forall|k: int, j: int|
        0 <= k < d.len() && 0 <= j < command_spec(d[k])->0.keys.len() implies key_assignments_of(
        all_commands(macos, t, launch_menu, mux),
    ).contains(
        (
            (#[trigger] command_spec(d[k])->0.keys[j]).0,
            resolved(t, command_spec(d[k])->0.keys[j].1),
            d[k],
        ),
    ) by {
        lemma_assignments_cover_keys(d, t, k, j);
    }
}

proof fn lemma_titles_grow(ms: Seq<Seq<Seq<char>>>, k: int, x: Seq<char>)
    requires
        0 <= k <= ms.len(),
        menu_titles(ms.take(k)).contains(x),
    ensures
        menu_titles(ms).contains(x),
    decreases ms.len() - k,
{
    if k < ms.len() {
        let next = ms.take(k + 1);
        assert(next.drop_last() =~= ms.take(k));
        let before = menu_titles(ms.take(k));
        let j = choose|j: int| 0 <= j < before.len() && before[j] == x;
        assert(menu_titles(next)[j] == x);
        lemma_titles_grow(ms, k + 1, x);
    } else {
        assert(ms.take(k) =~= ms);
    }
}

/// The menus of the menubar: no menu twice, and every command with a
/// menubar path has the first menu of its path among them.
pub proof fn lemma_menu_titles(ms: Seq<Seq<Seq<char>>>)
    ensures
        menu_titles(ms).no_duplicates(),
        forall|i: int|
            0 <= i < ms.len() && (#[trigger] ms[i]).len() > 0 ==> menu_titles(ms).contains(ms[i][0]),
    decreases ms.len(),
{
    if ms.len() == 0 {
        reveal_strlit("WezTerm");
        reveal_strlit("Shell");
        reveal_strlit("Edit");
        reveal_strlit("View");
        reveal_strlit("Window");
        let p = preferred_menus();
        assert(p[0].len() == 7 && p[1].len() == 5 && p[2].len() == 4 && p[3].len() == 4
            && p[4].len() == 6);
        assert(p[2][0] == 'E' && p[3][0] == 'V');
        assert(p[0] != p[1] && p[0] != p[2] && p[0] != p[3] && p[0] != p[4]);
        assert(p[1] != p[2] && p[1] != p[3] && p[1] != p[4]);
        assert(p[2] != p[3] && p[2] != p[4] && p[3] != p[4]);
    } else {
        let front = ms.drop_last();
        lemma_menu_titles(front);
        let before = menu_titles(front);
        let m = ms.last();
        assert(menu_titles(ms) == if m.len() > 0 && !before.contains(m[0]) {
            before.push(m[0])
        } else {
            before
        });
        assert forall|i: int| 0 <= i < ms.len() && (#[trigger] ms[i]).len() > 0 implies menu_titles(
            ms,
        ).contains(ms[i][0]) by {
            if i < ms.len() - 1 {
                assert(front[i] == ms[i]);
                assert(ms.take(ms.len() - 1) =~= front);
                lemma_titles_grow(ms, ms.len() - 1, ms[i][0]);
            } else if before.contains(m[0]) {
                assert(ms.take(ms.len() - 1) =~= front);
                lemma_titles_grow(ms, ms.len() - 1, m[0]);
            } else {
                assert(menu_titles(ms)[before.len() as int] == m[0]);
            }
        }
    }
}

proof fn lemma_in_menu(ms: Seq<Seq<Seq<char>>>, title: Seq<char>, n: int)
    requires
        0 <= n <= ms.len(),
    ensures
        in_menu(ms, title, n).no_duplicates(),
        forall|k: int| 0 <= k < in_menu(ms, title, n).len() ==> 0 <= #[trigger] in_menu(ms, title, n)[k] < n,
        forall|j: int|
            #![trigger in_menu(ms, title, n).contains(j)]
            in_menu(ms, title, n).contains(j) <==> 0 <= j < n && ms[j].len() > 0 && ms[j][0] == title,
    decreases n,
{
    if n > 0 {
        lemma_in_menu(ms, title, n - 1);
        let before = in_menu(ms, title, n - 1);
        if ms[n - 1].len() > 0 && ms[n - 1][0] == title {
            let now = before.push(n - 1);
            assert(in_menu(ms, title, n) == now);
            assert forall|j: int| #![trigger now.contains(j)] now.contains(j) <==> 0 <= j < n
                && ms[j].len() > 0 && ms[j][0] == title by {
                if now.contains(j) {
                    let k = choose|k: int| 0 <= k < now.len() && now[k] == j;
                    if k < before.len() {
                        assert(before.contains(j));
                    }
                }
                if 0 <= j < n - 1 && ms[j].len() > 0 && ms[j][0] == title {
                    assert(before.contains(j));
                    let k = choose|k: int| 0 <= k < before.len() && before[k] == j;
                    assert(now[k] == j);
                }
                if j == n - 1 {
                    assert(now[before.len() as int] == j);
                }
            }
            assert forall|a: int, b: int| 0 <= a < now.len() && 0 <= b < now.len() && a != b implies now[a]
                != now[b] by {
                if a < before.len() && b < before.len() {
                } else if a < before.len() {
                    assert(before[a] < n - 1);
                } else if b < before.len() {
                    assert(before[b] < n - 1);
                }
            }
        } else {
            assert(in_menu(ms, title, n) == before);
            assert forall|j: int| #![trigger before.contains(j)] before.contains(j) <==> 0 <= j < n
                && ms[j].len() > 0 && ms[j][0] == title by {
                if before.contains(j) {
                }
            }
        }
    }
}

/// Which commands the placement holds: exactly those whose path starts with
/// one of the menus, and none twice when no menu is listed twice.
proof fn lemma_placement(ms: Seq<Seq<Seq<char>>>, titles: Seq<Seq<char>>)
    requires
        titles.no_duplicates(),
    ensures
        placement(ms, titles).no_duplicates(),
        forall|j: int|
            #![trigger placement(ms, titles).contains(j)]
            placement(ms, titles).contains(j) <==> 0 <= j < ms.len() && ms[j].len() > 0
                && titles.contains(ms[j][0]),
    decreases titles.len(),
{
    if titles.len() > 0 {
        let front = titles.drop_last();
        let t = titles.last();
        assert(front.no_duplicates());
        lemma_placement(ms, front);
        lemma_in_menu(ms, t, ms.len() as int);
        let p = placement(ms, front);
        let q = in_menu(ms, t, ms.len() as int);
        assert(placement(ms, titles) == p + q);
        assert(!front.contains(t)) by {
            if front.contains(t) {
                let k = choose|k: int| 0 <= k < front.len() && front[k] == t;
                assert(titles[k] == titles[titles.len() - 1]);
            }
        }
        assert forall|j: int| #![trigger (p + q).contains(j)] (p + q).contains(j) <==> 0 <= j < ms.len()
            && ms[j].len() > 0 && titles.contains(ms[j][0]) by {
            if (p + q).contains(j) {
                let k = choose|k: int| 0 <= k < (p + q).len() && (p + q)[k] == j;
                if k < p.len() {
                    assert(p.contains(j));
                    let u = choose|u: int| 0 <= u < front.len() && front[u] == ms[j][0];
                    assert(titles[u] == ms[j][0]);
                } else {
                    assert(q[k - p.len()] == j);
                    assert(q.contains(j));
                    assert(titles[titles.len() - 1] == ms[j][0]);
                }
            }
            if 0 <= j < ms.len() && ms[j].len() > 0 && titles.contains(ms[j][0]) {
                let u = choose|u: int| 0 <= u < titles.len() && titles[u] == ms[j][0];
                if u < titles.len() - 1 {
                    assert(front[u] == ms[j][0]);
                    assert(p.contains(j));
                    lemma_contains_concat(p, q, j);
                } else {
                    assert(q.contains(j));
                    lemma_contains_concat(p, q, j);
                }
            }
        }
        assert forall|a: int, b: int| 0 <= a < (p + q).len() && 0 <= b < (p + q).len() && a != b implies (p
            + q)[a] != (p + q)[b] by {
            if a < p.len() && b >= p.len() {
                let j = p[a];
                assert(p.contains(j));
                if (p + q)[b] == j {
                    assert(q.contains(j));
                    let u = choose|u: int| 0 <= u < front.len() && front[u] == ms[j][0];
                }
            } else if b < p.len() && a >= p.len() {
                let j = p[b];
                assert(p.contains(j));
                if (p + q)[a] == j {
                    assert(q.contains(j));
                    let u = choose|u: int| 0 <= u < front.len() && front[u] == ms[j][0];
                }
            }
        }
    }
}

/// The menubar shows every command that has a menubar path exactly once,
/// and no command without one.
pub proof fn lemma_menubar_places_each_once(ms: Seq<Seq<Seq<char>>>)
    ensures
        placement(ms, menu_titles(ms)).no_duplicates(),
        forall|j: int|
            #![trigger placement(ms, menu_titles(ms)).contains(j)]
            placement(ms, menu_titles(ms)).contains(j) <==> 0 <= j < ms.len() && ms[j].len() > 0,
{
    lemma_menu_titles(ms);
    lemma_placement(ms, menu_titles(ms));
}

/// Whether no domain of the list comes before one that precedes it.
pub open spec fn domains_ordered(s: Seq<DomainInfoView>) -> bool {
    forall|i: int, j: int| 0 <= i < j < s.len() ==> !domain_before(#[trigger] s[j], #[trigger] s[i])
}

proof fn lemma_insert_domain(s: Seq<DomainInfoView>, d: DomainInfoView)
    requires
        domains_ordered(s),
    ensures
        domains_ordered(insert_domain(s, d)),
        insert_domain(s, d).to_multiset() =~= s.to_multiset().insert(d),
    decreases s.len(),
{
    broadcast use vstd::seq_lib::group_to_multiset_ensures;

    if s.len() == 0 {
        assert(insert_domain(s, d) == seq![d]);
        assert(seq![d] =~= Seq::<DomainInfoView>::empty().push(d));
    } else if domain_before(d, s.last()) {
        let front = s.drop_last();
        let last = s.last();
        assert(domains_ordered(front)) by {
            assert forall|i: int, j: int| 0 <= i < j < front.len() implies !domain_before(
                #[trigger] front[j],
                #[trigger] front[i],
            ) by {
                assert(front[i] == s[i] && front[j] == s[j]);
            }
        }
        lemma_insert_domain(front, d);
        let r = insert_domain(front, d);
        assert(s =~= front.push(last));
        assert forall|k: int| 0 <= k < r.len() implies !domain_before(last, #[trigger] r[k]) by {
            let x = r[k];
            assert(r.to_multiset().count(x) > 0);
            if x != d {
                assert(front.to_multiset().count(x) > 0);
                let u = choose|u: int| 0 <= u < front.len() && front[u] == x;
                assert(s[u] == x && s[s.len() - 1] == last);
            }
        }
        let out = r.push(last);
        assert(insert_domain(s, d) == out);
        assert forall|i: int, j: int| 0 <= i < j < out.len() implies !domain_before(
            #[trigger] out[j],
            #[trigger] out[i],
        ) by {
            if j < r.len() {
                assert(out[i] == r[i] && out[j] == r[j]);
            } else {
                assert(out[j] == last && out[i] == r[i]);
            }
        }
    } else {
        let out = s.push(d);
        assert(insert_domain(s, d) == out);
        assert forall|i: int, j: int| 0 <= i < j < out.len() implies !domain_before(
            #[trigger] out[j],
            #[trigger] out[i],
        ) by {
            if j < s.len() {
                assert(out[i] == s[i] && out[j] == s[j]);
            } else {
                assert(out[j] == d && out[i] == s[i]);
                if i < s.len() - 1 {
                    assert(!domain_before(s[s.len() - 1], s[i]));
                }
            }
        }
    }
}

/// The domains in menu order are the same domains, attached ones first and
/// each state's domains by increasing id.
pub proof fn lemma_sorted_domains(ds: Seq<DomainInfoView>)
    ensures
        domains_ordered(sorted_domains(ds)),
        sorted_domains(ds).to_multiset() =~= ds.to_multiset(),
    decreases ds.len(),
{
    broadcast use vstd::seq_lib::group_to_multiset_ensures;

    if ds.len() == 0 {
        assert(sorted_domains(ds) =~= Seq::<DomainInfoView>::empty());
    } else {
        lemma_sorted_domains(ds.drop_last());
        lemma_insert_domain(sorted_domains(ds.drop_last()), ds.last());
        assert(ds =~= ds.drop_last().push(ds.last()));
    }
}

proof fn lemma_commands_for_all_described(actions: Seq<ActionView>, t: Seq<(Seq<char>, Seq<char>)>)
    requires
        forall|k: int| 0 <= k < actions.len() ==> command_spec(#[trigger] actions[k]) is Some,
    ensures
        commands_for(actions, t).len() == actions.len(),
        forall|k: int|
            0 <= k < actions.len() ==> (#[trigger] commands_for(actions, t)[k]).action == actions[k],
    decreases actions.len(),
{
    if actions.len() > 0 {
        let front = actions.drop_last();
        assert forall|k: int| 0 <= k < front.len() implies command_spec(#[trigger] front[k]) is Some by {
            assert(front[k] == actions[k]);
        }
        lemma_commands_for_all_described(front, t);
        assert(command_spec(actions[actions.len() - 1]) is Some);
        assert forall|k: int| 0 <= k < actions.len() implies (#[trigger] commands_for(
            actions,
            t,
        )[k]).action == actions[k] by {
            if k < actions.len() - 1 {
                assert(commands_for(actions, t)[k] == commands_for(front, t)[k]);
                assert(front[k] == actions[k]);
            }
        }
    }
}

/// The palette holds one command per default action, in the order of the
/// default actions, each performing its action.
pub proof fn lemma_one_command_per_default_action(macos: bool, t: Seq<(Seq<char>, Seq<char>)>)
    ensures
        commands_for(default_actions(macos), t).len() == default_actions(macos).len(),
        forall|k: int|
            0 <= k < default_actions(macos).len() ==> (#[trigger] commands_for(
                default_actions(macos),
                t,
            )[k]).action == default_actions(macos)[k],
{
    lemma_default_actions_described(macos);
    lemma_commands_for_all_described(default_actions(macos), t);
}

/// The domains in menu order, read on their fields: an attached domain is
/// never preceded by a detached one, domains of the same state come by
/// increasing id, and no domain is gained or lost.
pub proof fn lemma_sorted_domains_by_state_then_id(ds: Seq<DomainInfoView>)
    ensures
        forall|i: int, j: int|
            0 <= i < j < sorted_domains(ds).len() && (#[trigger] sorted_domains(ds)[j]).state
                == DomainState::Attached ==> (#[trigger] sorted_domains(ds)[i]).state
                == DomainState::Attached,
        forall|i: int, j: int|
            0 <= i < j < sorted_domains(ds).len() && (#[trigger] sorted_domains(ds)[i]).state
                == (#[trigger] sorted_domains(ds)[j]).state ==> sorted_domains(ds)[i].domain_id
                <= sorted_domains(ds)[j].domain_id,
        sorted_domains(ds).to_multiset() == ds.to_multiset(),
{
    lemma_sorted_domains(ds);
    let s = sorted_domains(ds);
    assert forall|i: int, j: int|
        0 <= i < j < s.len() && (#[trigger] s[j]).state == DomainState::Attached implies (
        #[trigger] s[i]).state == DomainState::Attached by {
        assert(!domain_before(s[j], s[i]));
    }
    assert forall|i: int, j: int|
        0 <= i < j < s.len() && (#[trigger] s[i]).state == (#[trigger] s[j]).state implies s[i].domain_id
        <= s[j].domain_id by {
        assert(!domain_before(s[j], s[i]));
    }
}

/// Whether `x` is one of the combinations that key synthesis may make of the
/// key assignment `(m, l)`: the assignment itself; for exactly SUPER, the
/// same key with CTRL+SHIFT, and the shifted key with CTRL+SHIFT and with
/// CTRL where it differs; for other modifiers with SHIFT, the shifted key
/// with and without SHIFT where it differs.
pub open spec fn synthesized_from(
    x: (Modifiers, Seq<char>),
    m: Modifiers,
    l: Seq<char>,
    t: Seq<(Seq<char>, Seq<char>)>,
) -> bool {
    let key = resolved(t, l);
    let ukey = resolved(t, us_shifted_label(l));
    let ctrl_shift = Modifiers { bits: CTRL_BIT | SHIFT_BIT };
    let is_super = m == Modifiers { bits: SUPER_BIT };
    ||| x == (m, key)
    ||| is_super && x == (ctrl_shift, key)
    ||| is_super && ukey != key && (x == (ctrl_shift, ukey) || x == (Modifiers { bits: CTRL_BIT }, ukey))
    ||| !is_super && m.bits & SHIFT_BIT == SHIFT_BIT && ukey != key && (x == (m, ukey) || x == (
        Modifiers { bits: m.bits & !SHIFT_BIT },
        ukey,
    ))
}

/// Key synthesis makes nothing else: every combination among the permuted
/// keys comes from one of the command's key assignments as
/// [`synthesized_from`] says. In particular CTRL+SHIFT and CTRL versions
/// appear only for an assignment to exactly SUPER. With
/// [`lemma_permuted_covers`], the permuted keys are exactly those forms.
pub proof fn lemma_permuted_only_synthesized(
    keys: Seq<(Modifiers, Seq<char>)>,
    t: Seq<(Seq<char>, Seq<char>)>,
)
    ensures
        forall|p: int|
            0 <= p < permuted(keys, t).len() ==> exists|i: int|
                0 <= i < keys.len() && synthesized_from(
                    #[trigger] permuted(keys, t)[p],
                    keys[i].0,
                    keys[i].1,
                    t,
                ),
    decreases keys.len(),
{
    if keys.len() > 0 {
        let front = keys.drop_last();
        lemma_permuted_only_synthesized(front, t);
        let pf = permuted(front, t);
        let (m, l) = keys.last();
        let q = key_permutations(m, l, t);
        let all = permuted(keys, t);
        assert(all == pf + q);
        let last = keys.len() - 1;
        assert(keys[last] == (m, l));
        assert forall|p: int| 0 <= p < all.len() implies exists|i: int|
            0 <= i < keys.len() && synthesized_from(#[trigger] all[p], keys[i].0, keys[i].1, t) by {
            if p < pf.len() {
                assert(all[p] == pf[p]);
                let i = choose|i: int|
                    0 <= i < front.len() && synthesized_from(pf[p], front[i].0, front[i].1, t);
                assert(front[i] == keys[i]);
            } else {
                assert(all[p] == q[p - pf.len()]);
                assert(synthesized_from(q[p - pf.len()], m, l, t));
            }
        }
    }
}

/// Every tab-activation command of the window group is a default action:
/// activating each of the first eight tabs, and the right-most one.
pub proof fn lemma_default_tab_activations(macos: bool, n: isize)
    requires
        -1 <= n <= 7,
    ensures
        default_actions(macos).contains(ActionView::ActivateTab(n)),
{
    let w = window_actions();
    let k: int = if n == -1 {
        14
    } else {
        6 + n
    };
    if n == -1 {
        assert(w[14] == ActionView::ActivateTab(-1isize));
    } else if n == 0 {
        assert(w[6] == ActionView::ActivateTab(0));
    } else if n == 1 {
        assert(w[7] == ActionView::ActivateTab(1));
    } else if n == 2 {
        assert(w[8] == ActionView::ActivateTab(2));
    } else if n == 3 {
        assert(w[9] == ActionView::ActivateTab(3));
    } else if n == 4 {
        assert(w[10] == ActionView::ActivateTab(4));
    } else if n == 5 {
        assert(w[11] == ActionView::ActivateTab(5));
    } else if n == 6 {
        assert(w[12] == ActionView::ActivateTab(6));
    } else {
        assert(w[13] == ActionView::ActivateTab(7));
    }
    let before = wezterm_actions(macos) + shell_actions() + edit_actions(macos) + view_actions();
    let d = default_actions(macos);
    assert(d[before.len() + k] == w[k]);
}

/// Every SUPER+digit from 1 to 9 is bound by the command of a default
/// action: SUPER+1 to SUPER+8 activate the first eight tabs and SUPER+9 the
/// right-most one.
pub proof fn lemma_super_digits_bound(macos: bool, d: nat)
    requires
        1 <= d <= 9,
    ensures
        exists|k: int|
            0 <= k < default_actions(macos).len() && (#[trigger] command_spec(
                default_actions(macos)[k],
            )) is Some && command_spec(default_actions(macos)[k])->0.keys.contains(
                (Modifiers { bits: SUPER_BIT }, decimal(d)),
            ),
{
    let n: isize = if d == 9 {
        -1isize
    } else {
        (d - 1) as isize
    };
    lemma_default_tab_activations(macos, n);
    let all = default_actions(macos);
    let k = choose|k: int| 0 <= k < all.len() && all[k] == ActionView::ActivateTab(n);
    reveal_strlit("9");
    let c = command_spec(all[k])->0;
    assert(c.keys[0] == (Modifiers { bits: SUPER_BIT }, decimal(d)));
}

/// Whether the commands of two actions bind no key combination in common.
pub open spec fn no_shared_key(a: ActionView, b: ActionView) -> bool {
    match (command_spec(a), command_spec(b)) {
        (Some(x), Some(y)) => forall|p: int, q: int|
            0 <= p < x.keys.len() && 0 <= q < y.keys.len() ==> #[trigger] x.keys[p]
                != #[trigger] y.keys[q],
        _ => true,
    }
}

/// Tab navigation never binds one key to two destinations: the commands
/// that activate different relative tabs, move a tab by different amounts,
/// or activate different tabs share no key combination. So the next and
/// the previous tab, or SUPER+1 to SUPER+9, are told apart.
pub proof fn lemma_tab_navigation_keys_distinct(n: isize, k: isize)
    requires
        n != k,
    ensures
        no_shared_key(ActionView::ActivateTabRelative(n), ActionView::ActivateTabRelative(k)),
        no_shared_key(ActionView::MoveTabRelative(n), ActionView::MoveTabRelative(k)),
        no_shared_key(ActionView::ActivateTab(n), ActionView::ActivateTab(k)),
{
    reveal_strlit("[");
    reveal_strlit("]");
    reveal_strlit("Tab");
    reveal_strlit("PageUp");
    reveal_strlit("PageDown");
    reveal_strlit("9");
    assert((SUPER_BIT | SHIFT_BIT) == 18u16) by (bit_vector);
    assert((CTRL_BIT | SHIFT_BIT) == 10u16) by (bit_vector);
    assert("["@[0] != "]"@[0]);
    assert("Tab"@.len() != "PageUp"@.len());
    assert("Tab"@.len() != "PageDown"@.len());
    assert("PageUp"@.len() != "PageDown"@.len());
    assert("["@.len() != "Tab"@.len());
    assert("]"@.len() != "Tab"@.len());
    assert("["@.len() != "PageUp"@.len());
    assert("]"@.len() != "PageDown"@.len());
    assert("["@.len() != "PageDown"@.len());
    assert("]"@.len() != "PageUp"@.len());
    if 0 <= n <= 7 {
        assert(int_text(n + 1) == seq![digit_char(n + 1)]);
        assert(digit_char(n + 1) as int == n + 49);
        assert(int_text(n + 1)[0] != "9"@[0]);
    }
    if 0 <= k <= 7 {
        assert(int_text(k + 1) == seq![digit_char(k + 1)]);
        assert(digit_char(k + 1) as int == k + 49);
        assert(int_text(k + 1)[0] != "9"@[0]);
    }
    if 0 <= n <= 7 && 0 <= k <= 7 {
        assert(int_text(n + 1)[0] != int_text(k + 1)[0]);
    }
}

proof fn lemma_workspace_switch_present(ws: Seq<Seq<char>>, active: Seq<char>, j: int)
    requires
        0 <= j < ws.len(),
        ws[j] != active,
    ensures
        exists|i: int|
            0 <= i < workspace_commands(ws, active).len() && (#[trigger] workspace_commands(
                ws,
                active,
            )[i]).brief == "Switch to workspace "@ + ws[j] && workspace_commands(ws, active)[i].action
                == (ActionView::SwitchToWorkspace { name: Some(ws[j]), spawn: None }),
    decreases ws.len(),
{
    let before = workspace_commands(ws.drop_last(), active);
    if j == ws.len() - 1 {
        assert(workspace_commands(ws, active)[before.len() as int].brief == "Switch to workspace "@
            + ws[j]);
    } else {
        assert(ws.drop_last()[j] == ws[j]);
        lemma_workspace_switch_present(ws.drop_last(), active, j);
        let i = choose|i: int|
            0 <= i < before.len() && (#[trigger] before[i]).brief == "Switch to workspace "@ + ws[j]
                && before[i].action == (ActionView::SwitchToWorkspace {
                name: Some(ws[j]),
                spawn: None,
            });
        assert(workspace_commands(ws, active)[i] == before[i]);
    }
}

/// The palette offers to switch to every workspace of the multiplexer other
/// than the active one: for each such workspace `w` there is a command
/// "Switch to workspace w" that switches to it.
pub proof fn lemma_switch_to_every_other_workspace(
    macos: bool,
    t: Seq<(Seq<char>, Seq<char>)>,
    launch_menu: Seq<SpawnCommandView>,
    m: MuxView,
    w: Seq<char>,
)
    requires
        m.workspaces.contains(w),
        w != m.active_workspace,
    ensures
        exists|i: int|
            0 <= i < all_commands(macos, t, launch_menu, Some(m)).len() && (#[trigger] all_commands(
                macos,
                t,
                launch_menu,
                Some(m),
            )[i]).brief == "Switch to workspace "@ + w && all_commands(
                macos,
                t,
                launch_menu,
                Some(m),
            )[i].action == (ActionView::SwitchToWorkspace { name: Some(w), spawn: None }),
{
    let j = choose|j: int| 0 <= j < m.workspaces.len() && m.workspaces[j] == w;
    lemma_workspace_switch_present(m.workspaces, m.active_workspace, j);
    let wc = workspace_commands(m.workspaces, m.active_workspace);
    let i = choose|i: int|
        0 <= i < wc.len() && (#[trigger] wc[i]).brief == "Switch to workspace "@ + w
            && wc[i].action == (ActionView::SwitchToWorkspace { name: Some(w), spawn: None });
    let ds = sorted_domains(m.domains);
    let pre = commands_for(default_actions(macos), t) + launch_commands(launch_menu)
        + spawn_domain_commands(ds) + detach_domain_commands(ds);
    let all = all_commands(macos, t, launch_menu, Some(m));
    assert(all == pre + wc + seq![crate::defaults::create_workspace()]);
    assert(all[pre.len() + i] == wc[i]);
}

/// Whether the list holds a command with this brief that performs this
/// action.
pub open spec fn offers(cmds: Seq<ExpandedView>, brief: Seq<char>, action: ActionView) -> bool {
    exists|i: int| 0 <= i < cmds.len() && (#[trigger] cmds[i]).brief == brief && cmds[i].action == action
}

/// The action that opens a new tab in the named domain with the default
/// program.
pub open spec fn new_tab_in_named_domain(name: Seq<char>) -> ActionView {
    ActionView::SpawnCommandInNewTab(
        SpawnCommandView {
            label: None,
            args: None,
            cwd: None,
            set_environment_variables: Seq::empty(),
            domain: DomainView::DomainName(name),
            position: None,
        },
    )
}

proof fn lemma_offers_grow(a: Seq<ExpandedView>, b: Seq<ExpandedView>, brief: Seq<char>, action: ActionView)
    ensures
        offers(a, brief, action) ==> offers(a + b, brief, action),
        offers(b, brief, action) ==> offers(a + b, brief, action),
{
    if offers(a, brief, action) {
        let i = choose|i: int| 0 <= i < a.len() && (#[trigger] a[i]).brief == brief && a[i].action == action;
        assert((a + b)[i] == a[i]);
    }
    if offers(b, brief, action) {
        let i = choose|i: int| 0 <= i < b.len() && (#[trigger] b[i]).brief == brief && b[i].action == action;
        assert((a + b)[a.len() + i] == b[i]);
    }
}

proof fn lemma_spawn_domain_offered(ds: Seq<DomainInfoView>, j: int)
    requires
        0 <= j < ds.len(),
        ds[j].spawnable,
    ensures
        ds[j].state == DomainState::Attached ==> offers(
            spawn_domain_commands(ds),
            "New Tab (Domain "@ + ds[j].name + ")"@,
            new_tab_in_named_domain(ds[j].name),
        ),
        ds[j].state != DomainState::Attached ==> offers(
            spawn_domain_commands(ds),
            "Attach Domain "@ + ds[j].name,
            ActionView::AttachDomain(ds[j].name),
        ),
    decreases ds.len(),
{
    let front = ds.drop_last();
    let before = spawn_domain_commands(front);
    let d = ds[j];
    if j == ds.len() - 1 {
        let c = spawn_domain_commands(ds)[before.len() as int];
        if d.state == DomainState::Attached {
            assert(c.brief == "New Tab (Domain "@ + d.name + ")"@);
            assert(c.action == new_tab_in_named_domain(d.name));
        } else {
            assert(c.brief == "Attach Domain "@ + d.name);
        }
    } else {
        assert(front[j] == d);
        lemma_spawn_domain_offered(front, j);
        let all = spawn_domain_commands(ds);
        assert(all == before || all == before.push(all.last()));
        if all != before {
            assert(before + seq![all.last()] =~= all);
            lemma_offers_grow(before, seq![all.last()], "New Tab (Domain "@ + d.name + ")"@, new_tab_in_named_domain(d.name));
            lemma_offers_grow(before, seq![all.last()], "Attach Domain "@ + d.name, ActionView::AttachDomain(d.name));
        }
    }
}

proof fn lemma_detach_domain_offered(ds: Seq<DomainInfoView>, j: int)
    requires
        0 <= j < ds.len(),
        ds[j].state == DomainState::Attached,
        ds[j].name != "local"@,
    ensures
        offers(
            detach_domain_commands(ds),
            "Detach Domain "@ + ds[j].name,
            ActionView::DetachDomain(DomainView::DomainName(ds[j].name)),
        ),
    decreases ds.len(),
{
    let front = ds.drop_last();
    let before = detach_domain_commands(front);
    let d = ds[j];
    if j == ds.len() - 1 {
        let c = detach_domain_commands(ds)[before.len() as int];
        assert(c.brief == "Detach Domain "@ + d.name);
    } else {
        assert(front[j] == d);
        lemma_detach_domain_offered(front, j);
        let all = detach_domain_commands(ds);
        if all != before {
            assert(before + seq![all.last()] =~= all);
            lemma_offers_grow(before, seq![all.last()], "Detach Domain "@ + d.name, ActionView::DetachDomain(DomainView::DomainName(d.name)));
        }
    }
}

/// The palette offers what each domain of the multiplexer allows: a domain
/// that can spawn gets "New Tab (Domain name)" when it is attached and
/// "Attach Domain name" when it is not; every attached domain other than
/// "local" gets "Detach Domain name"; and "Create new Workspace" is always
/// there.
pub proof fn lemma_domain_commands_offered(
    macos: bool,
    t: Seq<(Seq<char>, Seq<char>)>,
    launch_menu: Seq<SpawnCommandView>,
    m: MuxView,
    d: DomainInfoView,
)
    requires
        m.domains.contains(d),
    ensures
        d.spawnable && d.state == DomainState::Attached ==> offers(
            all_commands(macos, t, launch_menu, Some(m)),
            "New Tab (Domain "@ + d.name + ")"@,
            new_tab_in_named_domain(d.name),
        ),
        d.spawnable && d.state != DomainState::Attached ==> offers(
            all_commands(macos, t, launch_menu, Some(m)),
            "Attach Domain "@ + d.name,
            ActionView::AttachDomain(d.name),
        ),
        d.state == DomainState::Attached && d.name != "local"@ ==> offers(
            all_commands(macos, t, launch_menu, Some(m)),
            "Detach Domain "@ + d.name,
            ActionView::DetachDomain(DomainView::DomainName(d.name)),
        ),
        offers(
            all_commands(macos, t, launch_menu, Some(m)),
            "Create new Workspace"@,
            ActionView::SwitchToWorkspace { name: None, spawn: None },
        ),
{
    broadcast use vstd::seq_lib::group_to_multiset_ensures;

    let ds = sorted_domains(m.domains);
    lemma_sorted_domains(m.domains);
    assert(ds.to_multiset().count(d) > 0);
    let j = choose|j: int| 0 <= j < ds.len() && ds[j] == d;
    let head = commands_for(default_actions(macos), t) + launch_commands(launch_menu);
    let sc = spawn_domain_commands(ds);
    let dc = detach_domain_commands(ds);
    let wc = workspace_commands(m.workspaces, m.active_workspace);
    let last = seq![crate::defaults::create_workspace()];
    let all = all_commands(macos, t, launch_menu, Some(m));
    assert(all == head + sc + dc + wc + last);
    if d.spawnable {
        lemma_spawn_domain_offered(ds, j);
        let b1 = "New Tab (Domain "@ + d.name + ")"@;
        let b2 = "Attach Domain "@ + d.name;
        lemma_offers_grow(head, sc, b1, new_tab_in_named_domain(d.name));
        lemma_offers_grow(head + sc, dc, b1, new_tab_in_named_domain(d.name));
        lemma_offers_grow(head + sc + dc, wc, b1, new_tab_in_named_domain(d.name));
        lemma_offers_grow(head + sc + dc + wc, last, b1, new_tab_in_named_domain(d.name));
        lemma_offers_grow(head, sc, b2, ActionView::AttachDomain(d.name));
        lemma_offers_grow(head + sc, dc, b2, ActionView::AttachDomain(d.name));
        lemma_offers_grow(head + sc + dc, wc, b2, ActionView::AttachDomain(d.name));
        lemma_offers_grow(head + sc + dc + wc, last, b2, ActionView::AttachDomain(d.name));
    }
    if d.state == DomainState::Attached && d.name != "local"@ {
        lemma_detach_domain_offered(ds, j);
        let b = "Detach Domain "@ + d.name;
        let a = ActionView::DetachDomain(DomainView::DomainName(d.name));
        lemma_offers_grow(head + sc, dc, b, a);
        lemma_offers_grow(head + sc + dc, wc, b, a);
        lemma_offers_grow(head + sc + dc + wc, last, b, a);
    }
    let cw = ActionView::SwitchToWorkspace { name: None, spawn: None };
    assert(last[0].brief == "Create new Workspace"@ && last[0].action == cw);
    lemma_offers_grow(head + sc + dc + wc, last, "Create new Workspace"@, cw);
}

/// Whether no action of the list switches to a workspace.
pub open spec fn switches_nowhere(s: Seq<ActionView>) -> bool {
    forall|k: int| 0 <= k < s.len() ==> !((#[trigger] s[k]) is SwitchToWorkspace)
}

proof fn lemma_switches_nowhere_concat(a: Seq<ActionView>, b: Seq<ActionView>)
    requires
        switches_nowhere(a),
        switches_nowhere(b),
    ensures
        switches_nowhere(a + b),
{
    assert forall|k: int| 0 <= k < (a + b).len() implies !((#[trigger] (a + b)[k]) is SwitchToWorkspace) by {
        if k < a.len() {
            assert((a + b)[k] == a[k]);
        } else {
            assert((a + b)[k] == b[k - a.len()]);
        }
    }
}

proof fn lemma_defaults_switch_nowhere(macos: bool)
    ensures
        switches_nowhere(default_actions(macos)),
{
    assert(switches_nowhere(wezterm_actions(macos)));
    assert(switches_nowhere(shell_actions()));
    assert(switches_nowhere(edit_actions(macos)));
    assert(switches_nowhere(view_actions()));
    assert(switches_nowhere(window_actions()));
    assert(switches_nowhere(crate::defaults::window_moves_actions()));
    assert(switches_nowhere(crate::defaults::help_actions()));
    lemma_switches_nowhere_concat(wezterm_actions(macos), shell_actions());
    lemma_switches_nowhere_concat(wezterm_actions(macos) + shell_actions(), edit_actions(macos));
    lemma_switches_nowhere_concat(
        wezterm_actions(macos) + shell_actions() + edit_actions(macos),
        view_actions(),
    );
    lemma_switches_nowhere_concat(
        wezterm_actions(macos) + shell_actions() + edit_actions(macos) + view_actions(),
        window_actions(),
    );
    lemma_switches_nowhere_concat(
        wezterm_actions(macos) + shell_actions() + edit_actions(macos) + view_actions()
            + window_actions(),
        crate::defaults::window_moves_actions(),
    );
    lemma_switches_nowhere_concat(
        wezterm_actions(macos) + shell_actions() + edit_actions(macos) + view_actions()
            + window_actions() + crate::defaults::window_moves_actions(),
        crate::defaults::help_actions(),
    );
}

proof fn lemma_spawn_domain_switch_nowhere(ds: Seq<DomainInfoView>)
    ensures
        forall|k: int|
            0 <= k < spawn_domain_commands(ds).len() ==> !((#[trigger] spawn_domain_commands(
                ds,
            )[k]).action is SwitchToWorkspace),
    decreases ds.len(),
{
    if ds.len() > 0 {
        lemma_spawn_domain_switch_nowhere(ds.drop_last());
        let before = spawn_domain_commands(ds.drop_last());
        assert forall|k: int| 0 <= k < spawn_domain_commands(ds).len() implies !((
        #[trigger] spawn_domain_commands(ds)[k]).action is SwitchToWorkspace) by {
            if k < before.len() {
                assert(spawn_domain_commands(ds)[k] == before[k]);
            }
        }
    }
}

proof fn lemma_detach_domain_switch_nowhere(ds: Seq<DomainInfoView>)
    ensures
        forall|k: int|
            0 <= k < detach_domain_commands(ds).len() ==> !((#[trigger] detach_domain_commands(
                ds,
            )[k]).action is SwitchToWorkspace),
    decreases ds.len(),
{
    if ds.len() > 0 {
        lemma_detach_domain_switch_nowhere(ds.drop_last());
        let before = detach_domain_commands(ds.drop_last());
        assert forall|k: int| 0 <= k < detach_domain_commands(ds).len() implies !((
        #[trigger] detach_domain_commands(ds)[k]).action is SwitchToWorkspace) by {
            if k < before.len() {
                assert(detach_domain_commands(ds)[k] == before[k]);
            }
        }
    }
}

proof fn lemma_workspace_switch_targets(ws: Seq<Seq<char>>, active: Seq<char>)
    ensures
        forall|k: int|
            0 <= k < workspace_commands(ws, active).len() ==> exists|j: int|
                0 <= j < ws.len() && ws[j] != active && (#[trigger] workspace_commands(
                    ws,
                    active,
                )[k]).action == (ActionView::SwitchToWorkspace { name: Some(ws[j]), spawn: None }),
    decreases ws.len(),
{
    if ws.len() > 0 {
        let front = ws.drop_last();
        lemma_workspace_switch_targets(front, active);
        let before = workspace_commands(front, active);
        let all = workspace_commands(ws, active);
        assert forall|k: int| 0 <= k < all.len() implies exists|j: int|
            0 <= j < ws.len() && ws[j] != active && (#[trigger] all[k]).action == (
            ActionView::SwitchToWorkspace { name: Some(ws[j]), spawn: None }) by {
            if k < before.len() {
                assert(all[k] == before[k]);
                let j = choose|j: int|
                    0 <= j < front.len() && front[j] != active && (#[trigger] before[k]).action == (
                    ActionView::SwitchToWorkspace { name: Some(front[j]), spawn: None });
                assert(front[j] == ws[j]);
            } else {
                assert(ws[ws.len() - 1] == ws.last());
                assert(all[k].action == (ActionView::SwitchToWorkspace {
                    name: Some(ws[ws.len() - 1]),
                    spawn: None,
                }));
            }
        }
    }
}

/// A switch to a named workspace is offered only where the multiplexer has
/// that workspace and it is not the active one: the palette never offers
/// to switch to the workspace the user is already in.
pub proof fn lemma_switch_only_to_other_workspaces(
    macos: bool,
    t: Seq<(Seq<char>, Seq<char>)>,
    launch_menu: Seq<SpawnCommandView>,
    mux: Option<MuxView>,
    i: int,
    w: Seq<char>,
    spawn: Option<SpawnCommandView>,
)
    requires
        0 <= i < all_commands(macos, t, launch_menu, mux).len(),
        all_commands(macos, t, launch_menu, mux)[i].action == (ActionView::SwitchToWorkspace {
            name: Some(w),
            spawn,
        }),
    ensures
        mux is Some,
        mux->0.workspaces.contains(w),
        w != mux->0.active_workspace,
{
    let d = default_actions(macos);
    let cf = commands_for(d, t);
    let lc = launch_commands(launch_menu);
    let all = all_commands(macos, t, launch_menu, mux);
    lemma_default_actions_described(macos);
    lemma_commands_for_all_described(d, t);
    lemma_defaults_switch_nowhere(macos);
    if i < cf.len() {
        assert(all[i] == cf[i]);
        assert(cf[i].action == d[i]);
        assert(false);
    } else if i < cf.len() + lc.len() {
        assert(all[i] == lc[i - cf.len()]);
        assert(false);
    } else {
        match mux {
            Some(m) => {
                let ds = sorted_domains(m.domains);
                let sc = spawn_domain_commands(ds);
                let dc = detach_domain_commands(ds);
                let wc = workspace_commands(m.workspaces, m.active_workspace);
                let last = seq![crate::defaults::create_workspace()];
                let head = cf + lc;
                assert(all == head + (sc + dc + wc + last));
                let r = i - head.len();
                assert(all[i] == (sc + dc + wc + last)[r]);
                lemma_spawn_domain_switch_nowhere(ds);
                lemma_detach_domain_switch_nowhere(ds);
                lemma_workspace_switch_targets(m.workspaces, m.active_workspace);
                if r < sc.len() {
                    assert((sc + dc + wc + last)[r] == sc[r]);
                    assert(false);
                } else if r < sc.len() + dc.len() {
                    assert((sc + dc + wc + last)[r] == dc[r - sc.len()]);
                    assert(false);
                } else if r < sc.len() + dc.len() + wc.len() {
                    let q = r - sc.len() - dc.len();
                    assert((sc + dc + wc + last)[r] == wc[q]);
                    let j = choose|j: int|
                        0 <= j < m.workspaces.len() && m.workspaces[j] != m.active_workspace && (
                        #[trigger] wc[q]).action == (ActionView::SwitchToWorkspace {
                            name: Some(m.workspaces[j]),
                            spawn: None,
                        });
                    assert(m.workspaces[j] == w);
                } else {
                    assert((sc + dc + wc + last)[r] == last[r - sc.len() - dc.len() - wc.len()]);
                    assert(false);
                }
            },
            None => {
                assert(all == cf + lc);
                assert(false);
            },
        }
    }
}

} // verus!
