//! Where the commands go in the application's menubar.
use vstd::prelude::*;
use crate::command::menubar_view;
use crate::defaults::{expanded_view, ExpandedCommand, ExpandedView};

verus! {

/// The menus that come first, in this order.
pub open spec fn preferred_menus() -> Seq<Seq<char>> {
    seq!["WezTerm"@, "Shell"@, "Edit"@, "View"@, "Window"@]
}

/// The menubar paths of a list of commands.
pub open spec fn menubars_of(cmds: Seq<ExpandedView>) -> Seq<Seq<Seq<char>>> {
    cmds.map_values(|c: ExpandedView| c.menubar)
}

/// The top-level menus in their order: the preferred ones, then each other
/// menu that a command names first, in the order of the commands.
pub open spec fn menu_titles(ms: Seq<Seq<Seq<char>>>) -> Seq<Seq<char>>
    decreases ms.len(),
{
    if ms.len() == 0 {
        preferred_menus()
    } else {
        let before = menu_titles(ms.drop_last());
        let m = ms.last();
        if m.len() > 0 && !before.contains(m[0]) {
            before.push(m[0])
        } else {
            before
        }
    }
}

/// The indices, below `n` and in increasing order, of the commands whose
/// path starts with the menu `title`.
pub open spec fn in_menu(ms: Seq<Seq<Seq<char>>>, title: Seq<char>, n: int) -> Seq<int>
    decreases n,
{
    if n <= 0 {
        Seq::empty()
    } else if ms[n - 1].len() > 0 && ms[n - 1][0] == title {
        in_menu(ms, title, n - 1).push(n - 1)
    } else {
        in_menu(ms, title, n - 1)
    }
}

/// The order in which the commands are added to the menus: menu by menu in
/// the order of `titles`, the commands of each menu in their own order.
pub open spec fn placement(ms: Seq<Seq<Seq<char>>>, titles: Seq<Seq<char>>) -> Seq<int>
    decreases titles.len(),
{
    if titles.len() == 0 {
        Seq::empty()
    } else {
        placement(ms, titles.drop_last()) + in_menu(ms, titles.last(), ms.len() as int)
    }
}

/// The menus of the menubar, and the order in which commands are placed
/// into them (as indices into the list of commands).
pub struct MenubarLayout {
    pub titles: Vec<&'static str>,
    pub order: Vec<usize>,
}

/// The view of a list of indices.
pub open spec fn indices_view(v: Seq<usize>) -> Seq<int> {
    v.map_values(|i: usize| i as int)
}

fn same_str(a: &str, b: &str) -> (r: bool)
    ensures
        r == (a@ == b@),
{
    String::from_str(a) == String::from_str(b)
}

fn has_title(titles: &Vec<&'static str>, t: &str) -> (r: bool)
    ensures
        r == menubar_view(titles@).contains(t@),
{
    let n = titles.len();
    let ghost tv = menubar_view(titles@);
    for i in 0..n
        invariant
            n == titles.len(),
            tv == menubar_view(titles@),
            forall|k: int| 0 <= k < i ==> tv[k] != t@,
    {
        if same_str(titles[i], t) {
            assert(tv[i as int] == t@);
            return true;
        }
    }
    false
}

/// Lays out the menubar: which top-level menus it has, in which order,
/// and in which order the commands are added to them. Commands with an
/// empty menubar path are left out.
pub fn menubar_layout(commands: &Vec<ExpandedCommand>) -> (r: MenubarLayout)
    ensures
        menubar_view(r.titles@) == menu_titles(menubars_of(expanded_view(commands@))),
        indices_view(r.order@) == placement(
            menubars_of(expanded_view(commands@)),
            menu_titles(menubars_of(expanded_view(commands@))),
        ),
{
    let ghost ms = menubars_of(expanded_view(commands@));
    let n = commands.len();
    let mut titles: Vec<&'static str> = Vec::new();
    titles.push("WezTerm");
    titles.push("Shell");
    titles.push("Edit");
    titles.push("View");
    titles.push("Window");
    assert(menubar_view(titles@) =~= menu_titles(ms.take(0)));
    for i in 0..n
        invariant
            n == commands.len(),
            ms == menubars_of(expanded_view(commands@)),
            menubar_view(titles@) == menu_titles(ms.take(i as int)),
    {
        let m = commands[i].menubar;
        assert(ms[i as int] == menubar_view(m@));
        assert(ms.take(i + 1).drop_last() =~= ms.take(i as int));
        assert(ms.take(i + 1).last() == ms[i as int]);
        if m.len() > 0 && !has_title(&titles, m[0]) {
            let ghost before = menubar_view(titles@);
            titles.push(m[0]);
            assert(menubar_view(titles@) =~= before.push(m@[0]@));
        }
    }
    assert(ms.take(n as int) =~= ms);
    let ghost tv = menubar_view(titles@);
    let mut order: Vec<usize> = Vec::new();
    let k = titles.len();
    assert(indices_view(order@) =~= placement(ms, tv.take(0)));
    for j in 0..k
        invariant
            n == commands.len(),
            k == titles.len(),
            ms == menubars_of(expanded_view(commands@)),
            tv == menubar_view(titles@),
            indices_view(order@) == placement(ms, tv.take(j as int)),
    {
        let title = titles[j];
        let ghost start = indices_view(order@);
        for i in 0..n
            invariant
                n == commands.len(),
                ms == menubars_of(expanded_view(commands@)),
                tv == menubar_view(titles@),
                title@ == tv[j as int],
                indices_view(order@) == start + in_menu(ms, title@, i as int),
        {
            let m = commands[i].menubar;
            assert(ms[i as int] == menubar_view(m@));
            let ghost before = indices_view(order@);
            if m.len() > 0 && same_str(m[0], title) {
                order.push(i);
                assert(indices_view(order@) =~= before.push(i as int));
            }
        }
        assert(tv.take(j + 1).drop_last() =~= tv.take(j as int));
        assert(tv.take(j + 1).last() == title@);
    }
    assert(tv.take(k as int) =~= tv);
    MenubarLayout { titles, order }
}

} // verus!
