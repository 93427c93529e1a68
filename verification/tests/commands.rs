use wezterm_commands::assignment::{
    ClipboardCopyDestination, KeyAssignment, KeyNoAction, PageAmount, PaneDirection, Pattern,
    RotationDirection, SelectionMode, SpawnCommand, SpawnTabDomain, SplitPane, SplitSize,
};
use wezterm_commands::assignment::{Dimension, GeometryOrigin, GuiPosition};
use wezterm_commands::command::{
    action_in_range_check, derive_command_from_key_assignment, ArgType, CommandDef,
};
use wezterm_commands::defaults::KeyCode;
use wezterm_commands::modifiers::Modifiers;

fn describe(a: &KeyAssignment) -> CommandDef {
    derive_command_from_key_assignment(a).expect("a command")
}

fn keys(d: &CommandDef) -> Vec<(Modifiers, &str)> {
    d.keys.iter().map(|(m, l)| (*m, l.as_str())).collect()
}

fn spawn(domain: SpawnTabDomain) -> SpawnCommand {
    SpawnCommand {
        label: None,
        args: None,
        cwd: None,
        set_environment_variables: vec![],
        domain,
        position: None,
    }
}

#[test]
fn hide_window() {
    let d = describe(&KeyAssignment::Hide);
    assert_eq!(d.brief, "Hide/Minimize Window");
    assert_eq!(d.doc, "Hides/Mimimizes the current window");
    assert_eq!(keys(&d), vec![(Modifiers::super_key(), "m")]);
    assert_eq!(d.args, &[ArgType::ActiveWindow]);
    assert_eq!(d.menubar, &["Window"]);
}

#[test]
fn copy_to_clipboard() {
    let d = describe(&KeyAssignment::CopyTo(ClipboardCopyDestination::Clipboard));
    assert_eq!(d.brief, "Copy to clipboard");
    assert_eq!(keys(&d), vec![(Modifiers::super_key(), "c"), (Modifiers::none(), "Copy")]);
    assert_eq!(d.menubar, &["Edit"]);
}

#[test]
fn hide_application_doc_is_one_line() {
    let d = describe(&KeyAssignment::HideApplication);
    assert_eq!(d.doc, "Hides all of the windows of the application. This is macOS specific.");
    assert!(d.args.is_empty());
    assert_eq!(d.menubar, &["WezTerm"]);
}

#[test]
fn activate_tab_numbers() {
    let d = describe(&KeyAssignment::ActivateTab(2));
    assert_eq!(d.brief, "Activate 2nd Tab");
    assert_eq!(d.doc, "Activates the 2nd tab");
    assert_eq!(keys(&d), vec![(Modifiers::super_key(), "3")]);
    assert_eq!(d.menubar, &["Window", "Select Tab"]);
    let d = describe(&KeyAssignment::ActivateTab(0));
    assert_eq!(d.brief, "Activate 0th Tab");
    assert_eq!(keys(&d), vec![(Modifiers::super_key(), "1")]);
    let d = describe(&KeyAssignment::ActivateTab(7));
    assert_eq!(keys(&d), vec![(Modifiers::super_key(), "8")]);
    let d = describe(&KeyAssignment::ActivateTab(8));
    assert_eq!(d.brief, "Activate 8th Tab");
    assert!(d.keys.is_empty());
    let d = describe(&KeyAssignment::ActivateTab(-1));
    assert_eq!(d.brief, "Activate right-most tab");
    assert_eq!(keys(&d), vec![(Modifiers::super_key(), "9")]);
    let d = describe(&KeyAssignment::ActivateTab(-2));
    assert_eq!(d.brief, "Activate -2nd Tab");
    assert!(d.keys.is_empty());
}

#[test]
fn relative_tab_moves() {
    let d = describe(&KeyAssignment::ActivateTabRelative(-1));
    assert_eq!(d.brief, "Activate the tab to the left");
    assert_eq!(
        keys(&d),
        vec![
            (Modifiers::super_key().union(Modifiers::shift()), "["),
            (Modifiers::ctrl().union(Modifiers::shift()), "Tab"),
            (Modifiers::ctrl(), "PageUp"),
        ]
    );
    let d = describe(&KeyAssignment::ActivateTabRelative(-3));
    assert_eq!(d.brief, "Activate the 3rd tab to the left");
    assert_eq!(d.doc, "Activates the 3rd tab to the left. Wraps around to the other end");
    assert!(d.menubar.is_empty());
    let d = describe(&KeyAssignment::ActivateTabRelative(2));
    assert_eq!(d.brief, "Activate the 2nd tab to the right");
    let d = describe(&KeyAssignment::ActivateTabRelativeNoWrap(1));
    assert_eq!(d.brief, "Activate the tab to the right (no wrapping)");
    let d = describe(&KeyAssignment::ActivateTabRelativeNoWrap(-11));
    assert_eq!(d.doc, "Activates the 11th tab to the left");
    let d = describe(&KeyAssignment::MoveTabRelative(-2));
    assert_eq!(d.brief, "Move tab 2 place(s) to the left");
    assert_eq!(d.args, &[ArgType::ActiveTab]);
    let d = describe(&KeyAssignment::MoveTabRelative(1));
    assert_eq!(d.brief, "Move tab one place to the right");
    assert_eq!(keys(&d), vec![(Modifiers::ctrl().union(Modifiers::shift()), "PageDown")]);
    let d = describe(&KeyAssignment::MoveTab(4));
    assert_eq!(d.brief, "Move tab to index 5");
    assert_eq!(d.doc, "Rearranges the tabs so that the current tab moves to position 5");
}

fn pages(t: &str) -> KeyAssignment {
    KeyAssignment::ScrollByPage(PageAmount { text: t.to_string() })
}

#[test]
fn scroll_by_pages() {
    let d = describe(&pages("-1"));
    assert_eq!(d.brief, "Scroll Up One Page");
    assert_eq!(keys(&d), vec![(Modifiers::shift(), "PageUp")]);
    let d = describe(&pages("1"));
    assert_eq!(d.brief, "Scroll Down One Page");
    let d = describe(&pages("-2.5"));
    assert_eq!(d.brief, "Scroll Up 2.5 Page(s)");
    assert_eq!(d.doc, "Scrolls the viewport up by 2.5 pages");
    assert!(d.keys.is_empty());
    let d = describe(&pages("0.5"));
    assert_eq!(d.brief, "Scroll Down 0.5 Page(s)");
    let d = describe(&pages("-0"));
    assert_eq!(d.brief, "Scroll Down -0 Page(s)");
    assert_eq!(d.menubar, &["View"]);
}

#[test]
fn scroll_lines_and_prompts() {
    let d = describe(&KeyAssignment::ScrollByLine(-3));
    assert_eq!(d.brief, "Scroll up 3 line(s)");
    assert_eq!(d.doc, "Scrolls the viewport up by 3 line(s)");
    let d = describe(&KeyAssignment::ScrollByLine(0));
    assert_eq!(d.brief, "Scroll down 0 line(s)");
    let d = describe(&KeyAssignment::ScrollToPrompt(-1));
    assert_eq!(d.brief, "Scroll up 1 prompt(s)");
    assert_eq!(d.doc, "Scrolls the viewport up to the 1st semantic prompt zone in that direction");
    let d = describe(&KeyAssignment::SwitchWorkspaceRelative(-2));
    assert_eq!(d.brief, "Switch to 2nd previous workspace");
    let d = describe(&KeyAssignment::SwitchWorkspaceRelative(1));
    assert_eq!(d.doc, "Switch to the 1st next workspace, ordered lexicographically by workspace name");
}

#[test]
fn actions_without_command() {
    assert!(derive_command_from_key_assignment(&KeyAssignment::DisableDefaultAssignment).is_none());
    assert!(derive_command_from_key_assignment(&KeyAssignment::AdjustPaneSize(PaneDirection::Next, 2)).is_none());
    assert!(derive_command_from_key_assignment(&KeyAssignment::AdjustPaneSize(PaneDirection::Prev, 2)).is_none());
    assert!(derive_command_from_key_assignment(&KeyAssignment::ActivatePaneDirection(PaneDirection::Next)).is_none());
    assert!(derive_command_from_key_assignment(&KeyAssignment::ActivatePaneDirection(PaneDirection::Prev)).is_none());
    assert!(derive_command_from_key_assignment(&KeyAssignment::Multiple(vec![])).is_some());
}

#[test]
fn panes() {
    let d = describe(&KeyAssignment::AdjustPaneSize(PaneDirection::Left, 5));
    assert_eq!(d.brief, "Resize Pane 5 cells to the Left");
    assert_eq!(
        keys(&d),
        vec![(Modifiers::ctrl().union(Modifiers::alt()).union(Modifiers::shift()), "LeftArrow")]
    );
    assert_eq!(d.menubar, &["Window", "Resize Pane"]);
    let d = describe(&KeyAssignment::AdjustPaneSize(PaneDirection::Down, 1));
    assert_eq!(d.brief, "Resize Pane 1 cells Downwards");
    let d = describe(&KeyAssignment::ActivatePaneDirection(PaneDirection::Up));
    assert_eq!(d.brief, "Activate Pane Up");
    assert_eq!(d.menubar, &["Window", "Select Pane"]);
    let d = describe(&KeyAssignment::ActivatePaneByIndex(0));
    assert_eq!(d.brief, "Activate 0th Pane");
    let d = describe(&KeyAssignment::SetPaneZoomState(true));
    assert_eq!(d.brief, "Zooms the current Pane");
    let d = describe(&KeyAssignment::SplitPane(SplitPane {
        direction: PaneDirection::Right,
        size: SplitSize::Percent(50),
        command: spawn(SpawnTabDomain::CurrentPaneDomain),
        top_level: false,
    }));
    assert_eq!(d.brief, "Split the current pane Right");
    let d = describe(&KeyAssignment::RotatePanes(RotationDirection::CounterClockwise));
    assert_eq!(d.brief, "Rotate panes CounterClockwise");
    assert_eq!(d.menubar, &["Window", "Rotate Pane"]);
}

#[test]
fn splits_depend_on_domain() {
    let d = describe(&KeyAssignment::SplitVertical(spawn(SpawnTabDomain::CurrentPaneDomain)));
    assert_eq!(d.brief, "Split Vertically (Top/Bottom)");
    assert_eq!(keys(&d).len(), 1);
    assert_eq!(d.menubar, &["Shell"]);
    let d = describe(&KeyAssignment::SplitVertical(spawn(SpawnTabDomain::DefaultDomain)));
    assert_eq!(
        d.doc,
        "Split the current pane veritically into two panes, by spawning the default program into the bottom"
    );
    assert!(d.keys.is_empty());
    assert!(d.menubar.is_empty());
    let d = describe(&KeyAssignment::SplitHorizontal(spawn(SpawnTabDomain::DomainId(3))));
    assert_eq!(d.brief, "Split Horizontally (Left/Right)");
    assert!(d.keys.is_empty());
}

#[test]
fn domains_and_tabs() {
    let d = describe(&KeyAssignment::SpawnTab(SpawnTabDomain::DomainName("ssh".to_string())));
    assert_eq!(d.brief, "New Tab (`ssh` Domain)");
    assert_eq!(d.doc, "Create a new tab in the domain named ssh");
    let d = describe(&KeyAssignment::SpawnTab(SpawnTabDomain::DomainId(7)));
    assert_eq!(d.brief, "New Tab (Domain with id 7)");
    let d = describe(&KeyAssignment::DetachDomain(SpawnTabDomain::DomainName("x".to_string())));
    assert_eq!(d.brief, "Detach the `x` domain");
    assert_eq!(d.doc, "Detaches (disconnects from) the domain named `x`");
    let d = describe(&KeyAssignment::DetachDomain(SpawnTabDomain::DomainId(12)));
    assert_eq!(d.doc, "Detaches (disconnects from) the domain with id 12");
    let d = describe(&KeyAssignment::AttachDomain("unix".to_string()));
    assert_eq!(d.brief, "Attach domain `unix`");
}

#[test]
fn uris() {
    let d = describe(&KeyAssignment::OpenUri("https://wezfurlong.org/wezterm/".to_string()));
    assert_eq!(d.brief, "Documentation");
    assert_eq!(d.menubar, &["Help"]);
    let d = describe(&KeyAssignment::OpenUri("https://github.com/wez/wezterm/issues/".to_string()));
    assert_eq!(d.brief, "Search or report issue on GitHub");
    let d = describe(&KeyAssignment::OpenUri("https://example.com".to_string()));
    assert_eq!(d.brief, "Open https://example.com in your browser");
    assert!(d.menubar.is_empty());
}

#[test]
fn texts_with_arguments() {
    let d = describe(&KeyAssignment::SendString("ls".to_string()));
    assert_eq!(d.brief, "Sends `ls` to the active pane, as though you typed it");
    let d = describe(&KeyAssignment::EmitEvent("my-event".to_string()));
    assert_eq!(d.brief, "Emit event `my-event`");
    let d = describe(&KeyAssignment::SelectTextAtMouseCursor(SelectionMode::SemanticZone));
    assert_eq!(d.brief, "Selects text at the mouse cursor location using SemanticZone");
    let d = describe(&KeyAssignment::CompleteSelection(ClipboardCopyDestination::PrimarySelection));
    assert_eq!(d.brief, "Completes selection, and copy PrimarySelection");
    assert_eq!(d.doc, "Completes text selection using the mouse, and copies to PrimarySelection");
    let d = describe(&KeyAssignment::SendKey(KeyNoAction {
        key: KeyCode { name: "Char('a')".to_string() },
        mods: Modifiers::ctrl(),
    }));
    assert_eq!(d.brief, "Sends KeyNoAction { key: Char('a'), mods: CTRL } to the active pane, as though you typed it");
    let d = describe(&KeyAssignment::ActivateKeyTable {
        name: "resize".to_string(),
        timeout_milliseconds: None,
        replace_current: false,
        one_shot: true,
        until_unknown: false,
        prevent_fallback: false,
    });
    assert_eq!(d.brief, "Activate key table `resize`");
}

#[test]
fn spawned_programs() {
    let cmd = SpawnCommand {
        label: Some("top".to_string()),
        args: Some(vec!["htop".to_string(), "-d".to_string()]),
        cwd: None,
        set_environment_variables: vec![],
        domain: SpawnTabDomain::CurrentPaneDomain,
        position: None,
    };
    let d = describe(&KeyAssignment::SpawnCommandInNewTab(cmd));
    assert_eq!(d.brief, "Spawn a new Tab with SpawnCommand label='top' args=[\"htop\", \"-d\"]");
    let d = describe(&KeyAssignment::SpawnCommandInNewWindow(spawn(SpawnTabDomain::DefaultDomain)));
    assert_eq!(d.brief, "Spawn a new Window with SpawnCommand");
    let d = describe(&KeyAssignment::SwitchToWorkspace {
        name: Some("work".to_string()),
        spawn: None,
    });
    assert_eq!(
        d.brief,
        "Switch to workspace `work`, spawn the default program if that workspace doesn't already exist"
    );
    let d = describe(&KeyAssignment::SwitchToWorkspace { name: None, spawn: None });
    assert_eq!(d.brief, "Spawn the default program into a new workspace and switch to it");
    assert_eq!(d.menubar, &["Window", "Workspace"]);
    let d = describe(&KeyAssignment::SwitchToWorkspace {
        name: None,
        spawn: Some(SpawnCommand {
            label: None,
            args: None,
            cwd: Some("/tmp".to_string()),
            set_environment_variables: vec![],
            domain: SpawnTabDomain::DefaultDomain,
            position: None,
        }),
    });
    assert_eq!(d.brief, "Spawn the SpawnCommand cwd=/tmp into a new workspace and switch to it");
}

#[test]
fn multiple_actions() {
    let d = describe(&KeyAssignment::Multiple(vec![
        KeyAssignment::Hide,
        KeyAssignment::AdjustPaneSize(PaneDirection::Next, 3),
        KeyAssignment::DisableDefaultAssignment,
        KeyAssignment::ActivatePaneDirection(PaneDirection::Prev),
    ]));
    assert_eq!(
        d.brief,
        "Hide/Minimize Window, AdjustPaneSize(Next, 3), DisableDefaultAssignment, ActivatePaneDirection(Prev)"
    );
    assert_eq!(d.doc, "Performs multiple nested actions");
    assert_eq!(d.args, &[ArgType::ActivePane]);
    // an empty brief gets no separator after it
    let d = describe(&KeyAssignment::Multiple(vec![
        KeyAssignment::Multiple(vec![]),
        KeyAssignment::Nop,
    ]));
    assert_eq!(d.brief, "Does nothing");
    let d = describe(&KeyAssignment::Multiple(vec![]));
    assert_eq!(d.brief, "");
}

#[test]
fn searches() {
    let d = describe(&KeyAssignment::Search(Pattern::CurrentSelectionOrEmptyString));
    assert_eq!(keys(&d), vec![(Modifiers::super_key(), "f")]);
    assert_eq!(d.menubar, &["Edit"]);
    let d = describe(&KeyAssignment::Search(Pattern::Regex("x+".to_string())));
    assert_eq!(d.brief, "Search pane output");
    assert!(d.keys.is_empty());
    assert!(d.menubar.is_empty());
}

#[test]
fn command_debug_text() {
    let d = describe(&KeyAssignment::CopyTo(ClipboardCopyDestination::Clipboard));
    assert_eq!(
        d.debug_text(),
        "CommandDef { brief: \"Copy to clipboard\", doc: \"Copies text to the clipboard\", keys: [(SUPER, \"c\"), (NONE, \"Copy\")], args: [ActivePane] }"
    );
    let d = describe(&KeyAssignment::Nop);
    assert_eq!(
        d.debug_text(),
        "CommandDef { brief: \"Does nothing\", doc: \"Has no effect\", keys: [], args: [] }"
    );
}

#[test]
fn spawn_command_environment() {
    let cmd = SpawnCommand {
        label: None,
        args: Some(vec!["make".to_string()]),
        cwd: Some("/src".to_string()),
        set_environment_variables: vec![
            ("TERM".to_string(), "xterm".to_string()),
            ("LANG".to_string(), "C".to_string()),
        ],
        domain: SpawnTabDomain::DefaultDomain,
        position: None,
    };
    let d = describe(&KeyAssignment::SpawnCommandInNewWindow(cmd));
    assert_eq!(
        d.brief,
        "Spawn a new Window with SpawnCommand args=[\"make\"] cwd=/src TERM=xterm LANG=C"
    );
    assert_eq!(d.doc, d.brief);
}

#[test]
fn spawn_command_keeps_position() {
    let cmd = SpawnCommand {
        label: None,
        args: None,
        cwd: None,
        set_environment_variables: vec![("A".to_string(), "1".to_string())],
        domain: SpawnTabDomain::DefaultDomain,
        position: Some(GuiPosition {
            x: Dimension::Pixels("10".to_string()),
            y: Dimension::Percent("50".to_string()),
            origin: GeometryOrigin::Named("HDMI-1".to_string()),
        }),
    };
    let copy = cmd.clone();
    assert_eq!(format!("{:?}", copy), format!("{:?}", cmd));
    let d = describe(&KeyAssignment::SpawnCommandInNewTab(cmd));
    assert_eq!(d.brief, "Spawn a new Tab with SpawnCommand A=1");
}

#[test]
fn send_key_names_the_key_code() {
    let d = describe(&KeyAssignment::SendKey(KeyNoAction {
        key: KeyCode { name: "LeftArrow".to_string() },
        mods: Modifiers::none(),
    }));
    assert_eq!(d.doc, "Sends KeyNoAction { key: LeftArrow, mods: NONE } to the active pane, as though you typed it");
}

#[test]
fn multiple_skips_leading_empty_briefs() {
    let d = describe(&KeyAssignment::Multiple(vec![
        KeyAssignment::Multiple(vec![]),
        KeyAssignment::Hide,
        KeyAssignment::Multiple(vec![]),
    ]));
    assert_eq!(d.brief, "Hide/Minimize Window, ");
    assert_eq!(d.args, &[ArgType::ActivePane]);
    assert!(d.keys.is_empty());
    assert!(d.menubar.is_empty());
}

#[test]
fn range_check_of_actions() {
    assert!(action_in_range_check(&KeyAssignment::ActivateTabRelative(-1)));
    assert!(!action_in_range_check(&KeyAssignment::ActivateTabRelative(isize::MIN)));
    assert!(!action_in_range_check(&KeyAssignment::ScrollByLine(isize::MIN)));
    assert!(action_in_range_check(&KeyAssignment::MoveTab(3)));
    assert!(!action_in_range_check(&KeyAssignment::MoveTab(usize::MAX)));
    assert!(action_in_range_check(&KeyAssignment::Hide));
    assert!(!action_in_range_check(&KeyAssignment::Multiple(vec![
        KeyAssignment::Hide,
        KeyAssignment::Multiple(vec![KeyAssignment::MoveTabRelative(isize::MIN)]),
    ])));
    assert!(action_in_range_check(&KeyAssignment::Multiple(vec![
        KeyAssignment::Hide,
        KeyAssignment::MoveTabRelative(2),
    ])));
}
