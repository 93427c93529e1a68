use wezterm_commands::assignment::{KeyAssignment, SpawnCommand, SpawnTabDomain};
use wezterm_commands::command::{derive_command_from_key_assignment, CommandDef};
use wezterm_commands::defaults::{
    compute_default_actions, copy_action, default_key_labels, resolve_label, sort_domains,
    table_resolves, DomainInfo, DomainState, ExpandedCommand, KeyCode, MuxState,
};
use wezterm_commands::menubar::menubar_layout;
use wezterm_commands::modifiers::Modifiers;

/// A table that resolves every label that the defaults use to a key code of
/// the same name.
fn identity_table(macos: bool) -> Vec<(String, KeyCode)> {
    default_key_labels(macos)
        .into_iter()
        .map(|l| (l.clone(), KeyCode { name: l }))
        .collect()
}

fn combos(c: &ExpandedCommand) -> Vec<(Modifiers, String)> {
    c.keys.iter().map(|(m, k)| (*m, k.name.clone())).collect()
}

fn find<'a>(cmds: &'a [ExpandedCommand], brief: &str) -> &'a ExpandedCommand {
    cmds.iter().find(|c| c.brief == brief).expect(brief)
}

fn domain(id: usize, name: &str, attached: bool, spawnable: bool) -> DomainInfo {
    DomainInfo {
        domain_id: id,
        name: name.to_string(),
        state: if attached { DomainState::Attached } else { DomainState::Detached },
        spawnable,
    }
}

#[test]
fn default_actions_per_platform() {
    let other = compute_default_actions(false);
    let mac = compute_default_actions(true);
    assert_eq!(other.len(), 64);
    assert_eq!(mac.len(), 64);
    assert!(matches!(other[0], KeyAssignment::ReloadConfiguration));
    assert!(matches!(mac[1], KeyAssignment::HideApplication));
    assert!(matches!(mac[2], KeyAssignment::QuitApplication));
    assert!(matches!(other[1], KeyAssignment::SpawnTab(SpawnTabDomain::CurrentPaneDomain)));
    assert!(matches!(other.last(), Some(KeyAssignment::OpenLinkAtMouseCursor)));
    assert!(!mac.iter().any(|a| matches!(a, KeyAssignment::PasteFrom(
        wezterm_commands::assignment::ClipboardPasteSource::PrimarySelection
    ))));
}

#[test]
fn every_default_action_has_a_command() {
    for macos in [false, true] {
        for a in compute_default_actions(macos) {
            assert!(derive_command_from_key_assignment(&a).is_some(), "{a:?}");
        }
    }
}

#[test]
fn default_labels_are_lowercase() {
    for macos in [false, true] {
        for a in compute_default_actions(macos) {
            let d = derive_command_from_key_assignment(&a).unwrap();
            for (_, label) in &d.keys {
                let single_upper = label.len() == 1 && label.chars().all(|c| c.is_ascii_uppercase());
                assert!(!single_upper, "{label}");
            }
        }
    }
}

#[test]
fn labels_and_table() {
    let labels = default_key_labels(false);
    // each label is followed by its shifted form
    let c = labels.iter().position(|l| l == "c").unwrap();
    assert_eq!(labels[c + 1], "C");
    let table = identity_table(false);
    assert!(table_resolves(&table, &labels));
    assert!(!table_resolves(&vec![], &labels));
    let found = resolve_label(&table, &"Insert".to_string()).unwrap();
    assert_eq!(found.name, "Insert");
    assert!(resolve_label(&table, &"NoSuchKey".to_string()).is_none());
    // the first entry for a label wins
    let table = vec![
        ("x".to_string(), KeyCode { name: "first".to_string() }),
        ("x".to_string(), KeyCode { name: "second".to_string() }),
    ];
    assert_eq!(resolve_label(&table, &"x".to_string()).unwrap().name, "first");
}

#[test]
fn super_keys_gain_ctrl_shift() {
    let table = identity_table(false);
    let cmds = CommandDef::expanded_commands(false, &table, &vec![], None);
    let copy = find(&cmds, "Copy to clipboard");
    let cs = Modifiers::ctrl().union(Modifiers::shift());
    assert_eq!(
        combos(copy),
        vec![
            (Modifiers::super_key(), "c".to_string()),
            (cs, "c".to_string()),
            (cs, "C".to_string()),
            (Modifiers::ctrl(), "C".to_string()),
            (Modifiers::none(), "Copy".to_string()),
        ]
    );
    // a SUPER key whose shifted form is the same key gets no shifted combinations
    let new_tab = find(&cmds, "New Window");
    assert_eq!(combos(new_tab).len(), 4);
}

#[test]
fn shifted_keys_get_every_form() {
    let table = identity_table(false);
    let cmds = CommandDef::expanded_commands(false, &table, &vec![], None);
    let debug = find(&cmds, "Show debug overlay");
    let cs = Modifiers::ctrl().union(Modifiers::shift());
    assert_eq!(
        combos(debug),
        vec![
            (cs, "l".to_string()),
            (cs, "L".to_string()),
            (Modifiers::ctrl(), "L".to_string()),
        ]
    );
    // a shifted key whose label does not change keeps one combination
    let paste = find(&cmds, "Paste primary selection");
    assert_eq!(combos(paste), vec![(Modifiers::shift(), "Insert".to_string())]);
}

#[test]
fn permute_keys_with_a_mapping_table() {
    // a table where shifting changes nothing: every key keeps one combination
    let labels = default_key_labels(false);
    let table: Vec<(String, KeyCode)> =
        labels.iter().map(|l| (l.clone(), KeyCode { name: "same".to_string() })).collect();
    let d = derive_command_from_key_assignment(&KeyAssignment::DecreaseFontSize).unwrap();
    let keys = d.permute_keys(&table);
    let got: Vec<(Modifiers, String)> = keys.iter().map(|(m, k)| (*m, k.name.clone())).collect();
    assert_eq!(
        got,
        vec![
            (Modifiers::super_key(), "same".to_string()),
            (Modifiers::ctrl().union(Modifiers::shift()), "same".to_string()),
            (Modifiers::ctrl(), "same".to_string()),
        ]
    );
}

#[test]
fn expanded_commands_follow_the_defaults() {
    let table = identity_table(false);
    let cmds = CommandDef::expanded_commands(false, &table, &vec![], None);
    let actions = compute_default_actions(false);
    assert_eq!(cmds.len(), actions.len());
    assert_eq!(cmds[0].brief, "Reload configuration");
    assert_eq!(cmds[0].menubar, &["WezTerm"]);
    assert!(matches!(cmds[cmds.len() - 1].action, KeyAssignment::OpenLinkAtMouseCursor));
}

#[test]
fn launch_menu_entries() {
    let table = identity_table(false);
    let launch = vec![
        SpawnCommand {
            label: Some("Top".to_string()),
            args: Some(vec!["htop".to_string()]),
            cwd: None,
            set_environment_variables: vec![],
            domain: SpawnTabDomain::CurrentPaneDomain,
            position: None,
        },
        SpawnCommand {
            label: None,
            args: Some(vec!["bash".to_string(), "-l".to_string()]),
            cwd: None,
            set_environment_variables: vec![],
            domain: SpawnTabDomain::CurrentPaneDomain,
            position: None,
        },
        SpawnCommand { label: None, args: None, cwd: None, set_environment_variables: vec![], domain: SpawnTabDomain::DefaultDomain, position: None },
    ];
    let cmds = CommandDef::expanded_commands(false, &table, &launch, None);
    let n = compute_default_actions(false).len();
    assert_eq!(cmds.len(), n + 3);
    assert_eq!(cmds[n].brief, "Top (New Tab)");
    assert_eq!(cmds[n + 1].brief, "bash -l (New Tab)");
    assert_eq!(cmds[n + 2].brief, "(default shell) (New Tab)");
    assert_eq!(cmds[n].doc, "");
    assert!(cmds[n].keys.is_empty());
    assert_eq!(cmds[n].menubar, &["Shell"]);
    match &cmds[n + 1].action {
        KeyAssignment::SpawnCommandInNewTab(c) => {
            assert_eq!(c.args.as_ref().unwrap(), &vec!["bash".to_string(), "-l".to_string()])
        },
        other => panic!("{other:?}"),
    }
}

#[test]
fn mux_domains_and_workspaces() {
    let table = identity_table(false);
    let mux = MuxState {
        domains: vec![
            domain(3, "ssh", false, true),
            domain(0, "local", true, true),
            domain(2, "unix", true, true),
            domain(1, "serial", false, false),
        ],
        workspaces: vec!["default".to_string(), "work".to_string()],
        active_workspace: "default".to_string(),
    };
    let cmds = CommandDef::expanded_commands(false, &table, &vec![], Some(&mux));
    let n = compute_default_actions(false).len();
    let briefs: Vec<&str> = cmds[n..].iter().map(|c| c.brief.as_str()).collect();
    assert_eq!(
        briefs,
        vec![
            "New Tab (Domain local)",
            "New Tab (Domain unix)",
            "Attach Domain ssh",
            "Detach Domain unix",
            "Switch to workspace work",
            "Create new Workspace",
        ]
    );
    assert_eq!(cmds[n + 3].menubar, &["Shell", "Detach"]);
    assert_eq!(cmds[n + 4].menubar, &["Window", "Workspace"]);
    match &cmds[n].action {
        KeyAssignment::SpawnCommandInNewTab(c) => {
            assert!(matches!(&c.domain, SpawnTabDomain::DomainName(name) if name == "local"))
        },
        other => panic!("{other:?}"),
    }
}

#[test]
fn domain_order() {
    let ds = vec![
        domain(5, "e", false, true),
        domain(4, "d", true, true),
        domain(1, "a", false, true),
        domain(9, "i", true, false),
        domain(2, "b", true, true),
    ];
    let sorted: Vec<usize> = sort_domains(&ds).iter().map(|d| d.domain_id).collect();
    assert_eq!(sorted, vec![2, 4, 9, 1, 5]);
}

#[test]
fn key_assignments_come_from_the_defaults() {
    let table = identity_table(false);
    let plain = CommandDef::default_key_assignments(false, &table, &vec![], None);
    let mux = MuxState {
        domains: vec![domain(0, "local", true, true)],
        workspaces: vec!["a".to_string(), "b".to_string()],
        active_workspace: "b".to_string(),
    };
    let launch = vec![SpawnCommand { label: None, args: None, cwd: None, set_environment_variables: vec![], domain: SpawnTabDomain::DefaultDomain, position: None }];
    let with_more = CommandDef::default_key_assignments(false, &table, &launch, Some(&mux));
    assert_eq!(plain.len(), with_more.len());
    let cmds = CommandDef::expanded_commands(false, &table, &vec![], None);
    let total: usize = cmds.iter().map(|c| c.keys.len()).sum();
    assert_eq!(plain.len(), total);
    assert_eq!(plain[0].0, Modifiers::super_key());
    assert_eq!(plain[0].1.name, "r");
    assert!(matches!(plain[0].2, KeyAssignment::ReloadConfiguration));
}

#[test]
fn try_requires_a_complete_table() {
    assert!(CommandDef::try_expanded_commands(false, &vec![], &vec![], None).is_none());
    let table = identity_table(true);
    let cmds = CommandDef::try_expanded_commands(true, &table, &vec![], None).unwrap();
    assert_eq!(cmds.len(), compute_default_actions(true).len());
}

#[test]
fn copies_are_equal() {
    for a in compute_default_actions(false) {
        let b = copy_action(&a);
        assert_eq!(format!("{a:?}"), format!("{b:?}"));
    }
}

#[test]
fn menubar_order_and_placement() {
    let table = identity_table(false);
    let mux = MuxState {
        domains: vec![domain(0, "local", true, true)],
        workspaces: vec!["a".to_string()],
        active_workspace: "b".to_string(),
    };
    let cmds = CommandDef::expanded_commands(false, &table, &vec![], Some(&mux));
    let layout = menubar_layout(&cmds);
    assert_eq!(layout.titles, vec!["WezTerm", "Shell", "Edit", "View", "Window", "Help"]);
    // each command with a menubar path is placed once, the others not at all
    let mut seen = vec![0; cmds.len()];
    for &i in &layout.order {
        seen[i] += 1;
    }
    for (i, c) in cmds.iter().enumerate() {
        assert_eq!(seen[i], if c.menubar.is_empty() { 0 } else { 1 }, "{}", c.brief);
    }
    // commands come menu by menu
    let titles: Vec<&str> = layout.order.iter().map(|&i| cmds[i].menubar[0]).collect();
    let mut last = 0;
    for t in titles {
        let pos = layout.titles.iter().position(|x| *x == t).unwrap();
        assert!(pos >= last);
        last = pos;
    }
    assert_eq!(cmds[layout.order[0]].brief, "Reload configuration");
}

#[test]
fn key_assignments_hold_every_default_key() {
    let table = identity_table(false);
    let assignments = CommandDef::default_key_assignments(false, &table, &vec![], None);
    let defaults: Vec<String> =
        compute_default_actions(false).iter().map(|a| format!("{a:?}")).collect();
    for (_, _, action) in &assignments {
        assert!(defaults.contains(&format!("{action:?}")));
    }
    for action in compute_default_actions(false) {
        let def = derive_command_from_key_assignment(&action).unwrap();
        let shown = format!("{action:?}");
        for (mods, label) in &def.keys {
            assert!(assignments
                .iter()
                .any(|(m, k, a)| m == mods && &k.name == label && format!("{a:?}") == shown));
        }
    }
}
