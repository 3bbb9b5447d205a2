use runbook::config::{
    DaemonConfig, DialConfig, KeypadConfig, KeypadPageConfig, KeypadSlotConfig, PolicyConfig,
    PromptConfig, RunbookConfig, ToolingConfig,
};
use runbook::protocol::{
    AdjustmentKind, AgentState, ArmStyle, CommandPayload, DialpadButton, HooksMode,
    PageDirection, TerminalInfo, TerminalScrollUnit, TerminalTarget, TerminalsSnapshot,
    VscodeCommandKind,
};
use runbook::reducer::{hook_target_state, reduce, ClientKindTag, Event, SideEffect};
use runbook::state::DaemonState;
use runbook::strmap::StrMap;

fn page(name: &str, ids: &[&str]) -> KeypadPageConfig {
    let mut slots = Vec::new();
    for id in ids {
        slots.push(KeypadSlotConfig { prompt_id: Some(id.to_string()), gate: None });
    }
    while slots.len() < 9 {
        slots.push(KeypadSlotConfig { prompt_id: None, gate: None });
    }
    KeypadPageConfig { name: name.to_string(), slots }
}

fn config_with_pages(pages: Vec<KeypadPageConfig>) -> RunbookConfig {
    let mut prompts = StrMap::new();
    prompts.insert(
        "prep_pr".to_string(),
        PromptConfig {
            label: "PREP PR".to_string(),
            sublabel: None,
            claude_command: Some("/runbook:prep-pr".to_string()),
            fallback_text: Some("Prep a PR.".to_string()),
            arm_style: ArmStyle::Queue,
        },
    );
    prompts.insert(
        "break_task".to_string(),
        PromptConfig {
            label: "BREAK TASK".to_string(),
            sublabel: None,
            claude_command: Some("/runbook:break-task".to_string()),
            fallback_text: Some("Break task.".to_string()),
            arm_style: ArmStyle::Queue,
        },
    );
    RunbookConfig {
        version: 1,
        daemon: DaemonConfig::default(),
        tooling: ToolingConfig::default(),
        dial: DialConfig::default(),
        keypad: KeypadConfig { pages, initial_page: 0 },
        prompts,
        gates: StrMap::new(),
        policy: PolicyConfig::default(),
    }
}

fn sample_config() -> RunbookConfig {
    config_with_pages(vec![page("core", &["prep_pr", "break_task"])])
}

fn hook(name: &str, matcher: Option<&str>, session: &str) -> Event {
    Event::HookEvent {
        hook: name.to_string(),
        matcher: matcher.map(|m| m.to_string()),
        session_id: Some(session.to_string()),
        session_tag: None,
    }
}

/// The text and newline flag of every send-text command among `effects`.
fn sent_texts(effects: &[SideEffect]) -> Vec<(String, bool)> {
    let mut out = Vec::new();
    for e in effects {
        if let SideEffect::SendVscodeCommand(cmd) = e {
            if let CommandPayload::SendText { text, add_newline } = &cmd.payload {
                assert_eq!(cmd.kind, VscodeCommandKind::SendText);
                assert_eq!(cmd.target, TerminalTarget::ActiveClaude);
                out.push((text.clone(), *add_newline));
            }
        }
    }
    out
}

fn command_count(effects: &[SideEffect]) -> usize {
    effects.iter().filter(|e| matches!(e, SideEffect::SendVscodeCommand(_))).count()
}

fn session_state(state: &DaemonState, id: &str) -> AgentState {
    state.sessions.get(id).unwrap().agent_state
}

#[test]
fn arm_and_dispatch() {
    let config = sample_config();
    let mut state = DaemonState::new(0);

    let effects = reduce(
        &mut state,
        &config,
        Event::KeypadPress { prompt_id: "prep_pr".to_string() },
    );
    assert!(state.armed.as_deref() == Some("prep_pr"));
    assert!(matches!(effects[0], SideEffect::BroadcastRender));

    let effects = reduce(&mut state, &config, Event::DialpadButton { button: DialpadButton::Enter });
    assert!(state.armed.is_none());
    assert!(state.last_dispatched.as_deref() == Some("prep_pr"));
    assert!(effects.iter().any(|e| matches!(e, SideEffect::SendVscodeCommand(_))));
}

#[test]
fn cancel_arm() {
    let config = sample_config();
    let mut state = DaemonState::new(0);

    reduce(&mut state, &config, Event::KeypadPress { prompt_id: "prep_pr".to_string() });
    assert!(state.armed.is_some());

    let effects = reduce(&mut state, &config, Event::DialpadButton { button: DialpadButton::Esc });
    assert!(state.armed.is_none());
    assert!(effects.iter().all(|e| matches!(e, SideEffect::BroadcastRender)));
}

#[test]
fn esc_when_not_armed_sends_to_terminal() {
    let config = sample_config();
    let mut state = DaemonState::new(0);
    let effects = reduce(&mut state, &config, Event::DialpadButton { button: DialpadButton::Esc });
    assert!(effects.iter().any(|e| matches!(e, SideEffect::SendVscodeCommand(_))));
}

#[test]
fn enter_when_not_armed_sends_enter() {
    let config = sample_config();
    let mut state = DaemonState::new(0);
    let effects =
        reduce(&mut state, &config, Event::DialpadButton { button: DialpadButton::Enter });
    assert!(effects.iter().any(|e| matches!(e, SideEffect::SendVscodeCommand(_))));
}

#[test]
fn page_nav_wraps() {
    let config = sample_config();
    let mut state = DaemonState::new(0);

    reduce(&mut state, &config, Event::PageNav { direction: PageDirection::Prev });
    assert_eq!(state.page, 0);

    reduce(&mut state, &config, Event::PageNav { direction: PageDirection::Next });
    assert_eq!(state.page, 0);
}

#[test]
fn hook_event_sets_session_state() {
    let config = sample_config();
    let mut state = DaemonState::new(0);
    assert_eq!(state.current_agent_state(), AgentState::Unknown);

    reduce(&mut state, &config, hook("Notification", Some("idle_prompt"), "sess1"));
    assert_eq!(state.hooks_mode, HooksMode::Active);
    assert_eq!(state.current_agent_state(), AgentState::Idle);

    reduce(&mut state, &config, hook("UserPromptSubmit", None, "sess1"));
    assert_eq!(state.current_agent_state(), AgentState::Running);
}

#[test]
fn no_hooks_means_unknown() {
    let state = DaemonState::new(0);
    assert_eq!(state.hooks_mode, HooksMode::Absent);
    assert_eq!(state.current_agent_state(), AgentState::Unknown);
}

#[test]
fn every_hook_row_wins_over_any_prior_state() {
    let config = sample_config();
    let rows: Vec<(&str, Option<&str>, AgentState)> = vec![
        ("SessionStart", None, AgentState::Idle),
        ("Notification", Some("idle_prompt"), AgentState::Idle),
        ("Notification", Some("permission_prompt"), AgentState::WaitingPermission),
        ("Notification", Some("elicitation_dialog"), AgentState::WaitingInput),
        ("UserPromptSubmit", None, AgentState::Running),
        ("PreToolUse", None, AgentState::Running),
        ("PermissionRequest", None, AgentState::WaitingPermission),
        ("PostToolUse", None, AgentState::Running),
        ("PostToolUseFailure", None, AgentState::Running),
        ("TaskCompleted", None, AgentState::Complete),
        ("Stop", None, AgentState::Settled),
    ];
    for (prior_hook, prior_matcher, _) in &rows {
        for (name, matcher, expected) in &rows {
            let mut state = DaemonState::new(0);
            reduce(&mut state, &config, hook(prior_hook, *prior_matcher, "s"));
            reduce(&mut state, &config, hook(name, *matcher, "s"));
            assert_eq!(session_state(&state, "s"), *expected, "{prior_hook} then {name}");
            assert_eq!(state.current_agent_state(), *expected);
        }
    }
}

#[test]
fn unknown_hook_or_matcher_changes_nothing() {
    let config = sample_config();
    let mut state = DaemonState::new(0);
    reduce(&mut state, &config, hook("Stop", None, "s"));
    reduce(&mut state, &config, hook("SomethingNew", None, "s"));
    assert_eq!(session_state(&state, "s"), AgentState::Settled);
    reduce(&mut state, &config, hook("Notification", Some("auth_success"), "s"));
    assert_eq!(session_state(&state, "s"), AgentState::Settled);
    assert_eq!(hook_target_state("SomethingNew", None), None);
    assert_eq!(hook_target_state("Notification", None), None);
    assert_eq!(hook_target_state("TaskCompleted", None), Some(AgentState::Complete));
}

#[test]
fn same_hook_twice_gives_same_state() {
    let config = sample_config();
    for (name, matcher) in [
        ("TaskCompleted", None),
        ("Notification", Some("permission_prompt")),
        ("SessionEnd", None),
    ] {
        let mut once = DaemonState::new(0);
        reduce(&mut once, &config, hook("UserPromptSubmit", None, "s"));
        reduce(&mut once, &config, hook(name, matcher, "s"));
        let mut twice = DaemonState::new(0);
        reduce(&mut twice, &config, hook("UserPromptSubmit", None, "s"));
        reduce(&mut twice, &config, hook(name, matcher, "s"));
        reduce(&mut twice, &config, hook(name, matcher, "s"));
        assert_eq!(once.sessions.len(), twice.sessions.len());
        assert_eq!(once.current_agent_state(), twice.current_agent_state());
        assert_eq!(once.last_ended_state, twice.last_ended_state);
    }
}

#[test]
fn arm_then_esc_sends_nothing() {
    let config = sample_config();
    let mut state = DaemonState::new(0);
    let first = reduce(&mut state, &config, Event::KeypadPress { prompt_id: "prep_pr".to_string() });
    let second = reduce(&mut state, &config, Event::DialpadButton { button: DialpadButton::Esc });
    assert!(state.armed.is_none());
    assert_eq!(command_count(&first) + command_count(&second), 0);
}

#[test]
fn arm_then_enter_sends_resolved_text() {
    let config = sample_config();
    let mut state = DaemonState::new(0);
    reduce(&mut state, &config, Event::KeypadPress { prompt_id: "prep_pr".to_string() });
    let effects = reduce(&mut state, &config, Event::DialpadButton { button: DialpadButton::Enter });
    assert!(state.armed.is_none());
    assert_eq!(state.last_dispatched.as_deref(), Some("prep_pr"));
    assert_eq!(command_count(&effects), 1);
    assert_eq!(sent_texts(&effects), vec![("/runbook:prep-pr".to_string(), true)]);
    assert!(matches!(effects[1], SideEffect::BroadcastRender));
}

#[test]
fn arm_then_enter_in_degraded_mode_sends_fallback() {
    let mut config = sample_config();
    config.tooling.primary = "other".to_string();
    let mut state = DaemonState::new(0);
    reduce(&mut state, &config, Event::KeypadPress { prompt_id: "prep_pr".to_string() });
    let effects = reduce(&mut state, &config, Event::DialpadButton { button: DialpadButton::Enter });
    assert_eq!(sent_texts(&effects), vec![("Prep a PR.".to_string(), true)]);
}

#[test]
fn unknown_prompt_does_not_arm() {
    let config = sample_config();
    let mut state = DaemonState::new(0);
    let effects =
        reduce(&mut state, &config, Event::KeypadPress { prompt_id: "nope".to_string() });
    assert!(state.armed.is_none());
    assert_eq!(effects.len(), 1);
    assert!(matches!(effects[0], SideEffect::BroadcastRender));
}

#[test]
fn page_cycling_three_pages() {
    let config = config_with_pages(vec![
        page("a", &["prep_pr"]),
        page("b", &["break_task"]),
        page("c", &[]),
    ]);
    let mut state = DaemonState::new(0);
    reduce(&mut state, &config, Event::KeypadPress { prompt_id: "prep_pr".to_string() });
    reduce(&mut state, &config, Event::PageNav { direction: PageDirection::Prev });
    assert_eq!(state.page, 2);
    assert!(state.armed.is_none());

    reduce(&mut state, &config, Event::KeypadPress { prompt_id: "prep_pr".to_string() });
    let effects = reduce(&mut state, &config, Event::PageNav { direction: PageDirection::Next });
    assert_eq!(state.page, 0);
    assert!(state.armed.is_none());
    assert!(matches!(effects[0], SideEffect::BroadcastRender));

    reduce(&mut state, &config, Event::PageNav { direction: PageDirection::Next });
    assert_eq!(state.page, 1);
}

#[test]
fn page_nav_without_pages_does_nothing() {
    let config = config_with_pages(vec![]);
    let mut state = DaemonState::new(0);
    let effects = reduce(&mut state, &config, Event::PageNav { direction: PageDirection::Next });
    assert!(effects.is_empty());
    assert_eq!(state.page, 0);
}

#[test]
fn multi_session_needs_correlation() {
    let config = sample_config();
    let mut state = DaemonState::new(0);
    reduce(&mut state, &config, hook("TaskCompleted", None, "sessA"));
    reduce(&mut state, &config, hook("UserPromptSubmit", None, "sessB"));
    assert_eq!(state.sessions.len(), 2);
    assert_eq!(state.current_agent_state(), AgentState::Unknown);

    state.learn_session_tag("t1", "sessA");
    state.terminal_tag_map.insert(0, "t1".to_string());
    state.selected_terminal_index = 0;
    assert_eq!(state.selected_session_id(), Some("sessA".to_string()));
    assert_eq!(state.current_agent_state(), AgentState::Complete);
}

#[test]
fn hook_tag_and_terminal_snapshot_correlate() {
    let config = sample_config();
    let mut state = DaemonState::new(0);
    reduce(
        &mut state,
        &config,
        Event::HookEvent {
            hook: "Stop".to_string(),
            matcher: None,
            session_id: Some("sessA".to_string()),
            session_tag: Some("t1".to_string()),
        },
    );
    reduce(&mut state, &config, hook("UserPromptSubmit", None, "sessB"));
    assert_eq!(state.session_tag_map.get("t1"), Some(&"sessA".to_string()));
    assert_eq!(state.current_agent_state(), AgentState::Unknown);

    state.apply_terminals_snapshot(TerminalsSnapshot {
        terminals: vec![
            TerminalInfo { index: 0, name: "shell".to_string(), session_tag: None },
            TerminalInfo { index: 1, name: "assistant".to_string(), session_tag: Some("t1".to_string()) },
        ],
        active_index: 1,
    });
    assert_eq!(state.terminals.len(), 2);
    assert_eq!(state.selected_terminal_index, 1);
    assert_eq!(state.terminal_tag_map.get(&1), Some(&"t1".to_string()));
    assert_eq!(state.terminal_tag_map.get(&0), None);
    assert_eq!(state.current_agent_state(), AgentState::Settled);
}

#[test]
fn session_end_latches_last_state() {
    let config = sample_config();
    let mut state = DaemonState::new(0);
    reduce(&mut state, &config, hook("TaskCompleted", None, "s1"));
    assert_eq!(session_state(&state, "s1"), AgentState::Complete);

    reduce(&mut state, &config, Event::KeypadPress { prompt_id: "prep_pr".to_string() });
    reduce(&mut state, &config, hook("SessionEnd", None, "s1"));
    assert!(state.sessions.get("s1").is_none());
    assert_eq!(state.sessions.len(), 0);
    assert!(state.armed.is_none());
    assert_eq!(state.last_ended_state, Some(AgentState::Complete));
    assert_eq!(state.current_agent_state(), AgentState::Complete);

    // Other events, and a repeated end, keep the latched state.
    reduce(&mut state, &config, Event::PageNav { direction: PageDirection::Next });
    reduce(&mut state, &config, Event::ClientConnected { kind: ClientKindTag::Logi });
    reduce(&mut state, &config, hook("SessionEnd", None, "s1"));
    assert_eq!(state.current_agent_state(), AgentState::Complete);

    // A new session takes over.
    reduce(&mut state, &config, hook("SessionStart", None, "s2"));
    assert_eq!(state.current_agent_state(), AgentState::Idle);
    assert_eq!(state.last_ended_state, Some(AgentState::Complete));
}

#[test]
fn session_end_forgets_its_tags() {
    let config = sample_config();
    let mut state = DaemonState::new(0);
    state.learn_session_tag("t1", "s1");
    state.learn_session_tag("t2", "s2");
    reduce(&mut state, &config, hook("Stop", None, "s1"));
    reduce(&mut state, &config, hook("SessionEnd", None, "s1"));
    assert_eq!(state.session_tag_map.get("t1"), None);
    assert_eq!(state.session_tag_map.get("t2"), Some(&"s2".to_string()));
}

#[test]
fn missing_session_id_uses_placeholder() {
    let config = sample_config();
    let mut state = DaemonState::new(0);
    reduce(
        &mut state,
        &config,
        Event::HookEvent { hook: "Stop".to_string(), matcher: None, session_id: None, session_tag: None },
    );
    assert_eq!(session_state(&state, "_default"), AgentState::Settled);
    assert_eq!(state.active_session.as_deref(), Some("_default"));
}

#[test]
fn first_hook_session_is_auto_selected() {
    let config = sample_config();
    let mut state = DaemonState::new(0);
    reduce(&mut state, &config, hook("Stop", None, "first"));
    reduce(&mut state, &config, hook("Stop", None, "second"));
    assert_eq!(state.active_session.as_deref(), Some("first"));
}

#[test]
fn unarmed_enter_sends_bare_newline() {
    let config = sample_config();
    let mut state = DaemonState::new(0);
    let effects = reduce(&mut state, &config, Event::DialpadButton { button: DialpadButton::Enter });
    assert_eq!(effects.len(), 1);
    assert_eq!(sent_texts(&effects), vec![(String::new(), true)]);
    assert!(state.last_dispatched.is_none());
}

#[test]
fn unarmed_esc_sends_escape() {
    let config = sample_config();
    let mut state = DaemonState::new(0);
    let effects = reduce(&mut state, &config, Event::DialpadButton { button: DialpadButton::Esc });
    assert_eq!(effects.len(), 1);
    assert_eq!(sent_texts(&effects), vec![("\x1b".to_string(), false)]);
}

#[test]
fn ctrl_c_is_forwarded_even_when_armed() {
    let config = sample_config();
    let mut state = DaemonState::new(0);
    reduce(&mut state, &config, Event::KeypadPress { prompt_id: "prep_pr".to_string() });
    let effects = reduce(&mut state, &config, Event::DialpadButton { button: DialpadButton::CtrlC });
    assert_eq!(sent_texts(&effects), vec![("\x03".to_string(), false)]);
    assert_eq!(state.armed.as_deref(), Some("prep_pr"));
}

#[test]
fn export_sends_command_without_newline() {
    let config = sample_config();
    let mut state = DaemonState::new(0);
    let effects =
        reduce(&mut state, &config, Event::DialpadButton { button: DialpadButton::Export });
    assert_eq!(sent_texts(&effects), vec![("/export".to_string(), false)]);
}

#[test]
fn dial_scrolls_and_roller_focuses() {
    let config = sample_config();
    let mut state = DaemonState::new(0);
    let effects =
        reduce(&mut state, &config, Event::Adjustment { kind: AdjustmentKind::Dial, delta: -3 });
    match &effects[..] {
        [SideEffect::SendVscodeCommand(cmd)] => {
            assert_eq!(cmd.kind, VscodeCommandKind::ScrollTerminal);
            assert_eq!(cmd.target, TerminalTarget::ActiveClaude);
            assert!(matches!(
                cmd.payload,
                CommandPayload::ScrollTerminal { delta: -3, unit: TerminalScrollUnit::Lines }
            ));
        }
        _ => panic!("expected one scroll command"),
    }
    for (delta, direction) in [(5, 1), (-2, -1), (0, 0)] {
        let effects =
            reduce(&mut state, &config, Event::Adjustment { kind: AdjustmentKind::Roller, delta });
        match &effects[..] {
            [SideEffect::SendVscodeCommand(cmd)] => {
                assert_eq!(cmd.kind, VscodeCommandKind::FocusTerminal);
                assert_eq!(cmd.target, TerminalTarget::Active);
                match cmd.payload {
                    CommandPayload::FocusTerminal { direction: d } => assert_eq!(d, direction),
                    _ => panic!("expected a focus payload"),
                }
            }
            _ => panic!("expected one focus command"),
        }
    }
}

#[test]
fn connections_toggle_liveness() {
    let config = sample_config();
    let mut state = DaemonState::new(0);
    let effects = reduce(&mut state, &config, Event::ClientConnected { kind: ClientKindTag::Vscode });
    assert!(state.vscode_connected);
    assert!(!state.logi_connected);
    assert!(matches!(effects[0], SideEffect::BroadcastRender));
    reduce(&mut state, &config, Event::ClientConnected { kind: ClientKindTag::Logi });
    assert!(state.logi_connected);
    reduce(&mut state, &config, Event::ClientDisconnected { kind: ClientKindTag::Vscode });
    assert!(!state.vscode_connected);
    assert!(state.logi_connected);
}
