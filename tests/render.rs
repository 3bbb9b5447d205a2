use runbook::config::{
    DaemonConfig, DialConfig, GateConfig, KeypadConfig, KeypadPageConfig, KeypadSlotConfig,
    PolicyConfig, PromptConfig, RunbookConfig, ToolingConfig,
};
use runbook::protocol::{AgentState, ArmStyle, HooksMode};
use runbook::reducer::{reduce, Event};
use runbook::render::build_render_model;
use runbook::state::DaemonState;
use runbook::strmap::StrMap;

fn slot(prompt_id: Option<&str>, gate: Option<&str>) -> KeypadSlotConfig {
    KeypadSlotConfig {
        prompt_id: prompt_id.map(|s| s.to_string()),
        gate: gate.map(|s| s.to_string()),
    }
}

fn sample_config() -> RunbookConfig {
    let mut slots = vec![slot(Some("prep_pr"), None)];
    for _ in 0..7 {
        slots.push(slot(None, None));
    }
    slots.push(slot(None, Some("pr")));
    let mut prompts = StrMap::new();
    prompts.insert(
        "prep_pr".to_string(),
        PromptConfig {
            label: "PREP PR".to_string(),
            sublabel: Some("receipts".to_string()),
            claude_command: Some("/runbook:prep-pr".to_string()),
            fallback_text: None,
            arm_style: ArmStyle::Queue,
        },
    );
    let mut gates = StrMap::new();
    gates.insert(
        "pr".to_string(),
        GateConfig {
            label: "PR".to_string(),
            sublabel: Some("jump".to_string()),
            action: "open_pr".to_string(),
        },
    );
    RunbookConfig {
        version: 1,
        daemon: DaemonConfig::default(),
        tooling: ToolingConfig::default(),
        dial: DialConfig::default(),
        keypad: KeypadConfig {
            pages: vec![KeypadPageConfig { name: "core".to_string(), slots }],
            initial_page: 0,
        },
        prompts,
        gates,
        policy: PolicyConfig::default(),
    }
}

#[test]
fn render_model_shows_labels() {
    let config = sample_config();
    let state = DaemonState::new(0);
    let model = build_render_model(&state, &config);

    assert_eq!(model.keypad.slots.len(), 9);
    assert_eq!(model.keypad.slots[0].label, "PREP PR");
    assert_eq!(model.keypad.slots[0].sublabel.as_deref(), Some("receipts"));
    assert_eq!(model.keypad.slots[8].label, "PR");
}

#[test]
fn render_model_shows_armed() {
    let config = sample_config();
    let mut state = DaemonState::new(0);
    state.armed = Some("prep_pr".to_string());

    let model = build_render_model(&state, &config);
    assert!(model.keypad.slots[0].armed);
    assert!(model.armed.is_some());
    assert_eq!(model.armed.as_ref().unwrap().prompt_id, "prep_pr");
}

#[test]
fn render_model_page_metadata() {
    let config = sample_config();
    let state = DaemonState::new(0);
    let model = build_render_model(&state, &config);

    assert_eq!(model.page_index, 0);
    assert_eq!(model.page_count, 1);
    assert_eq!(model.hooks_mode, HooksMode::Absent);
}

#[test]
fn render_model_faces_of_every_kind_of_key() {
    let mut config = sample_config();
    config.keypad.pages[0].slots[1] = slot(Some("missing_prompt"), None);
    config.keypad.pages[0].slots[2] = slot(None, Some("missing_gate"));
    let state = DaemonState::new(0);
    let model = build_render_model(&state, &config);
    for (i, s) in model.keypad.slots.iter().enumerate() {
        assert_eq!(s.slot as usize, i);
        assert!(!s.armed);
    }
    assert_eq!(model.keypad.slots[1].prompt_id, "missing_prompt");
    assert_eq!(model.keypad.slots[1].label, "???");
    assert_eq!(model.keypad.slots[1].sublabel, None);
    assert_eq!(model.keypad.slots[2].prompt_id, "missing_gate");
    assert_eq!(model.keypad.slots[2].label, "???");
    assert_eq!(model.keypad.slots[3].prompt_id, "_empty");
    assert_eq!(model.keypad.slots[3].label, "—");
    assert_eq!(model.keypad.slots[8].prompt_id, "pr");
    assert_eq!(model.keypad.slots[8].sublabel.as_deref(), Some("jump"));
    assert!(model.armed.is_none());
}

#[test]
fn render_model_armed_projection_carries_command_and_style() {
    let mut config = sample_config();
    let mut state = DaemonState::new(0);
    reduce(&mut state, &config, Event::KeypadPress { prompt_id: "prep_pr".to_string() });
    let model = build_render_model(&state, &config);
    let armed = model.armed.unwrap();
    assert_eq!(armed.label, "PREP PR");
    assert_eq!(armed.command, "/runbook:prep-pr");
    assert_eq!(armed.style, ArmStyle::Queue);

    // Without a native path and no fallback, the command is empty.
    config.tooling.primary = "other".to_string();
    let model = build_render_model(&state, &config);
    assert_eq!(model.armed.unwrap().command, "/runbook:prep-pr");
    config.prompts.insert(
        "prep_pr".to_string(),
        PromptConfig {
            label: "PREP PR".to_string(),
            sublabel: None,
            claude_command: None,
            fallback_text: None,
            arm_style: ArmStyle::Prefill,
        },
    );
    let model = build_render_model(&state, &config);
    let armed = model.armed.unwrap();
    assert_eq!(armed.command, "");
    assert_eq!(armed.style, ArmStyle::Prefill);
}

#[test]
fn render_model_clamps_drifted_page() {
    let config = sample_config();
    let state = DaemonState::new(5);
    let model = build_render_model(&state, &config);
    assert_eq!(model.page_index, 0);
    assert_eq!(model.page_count, 1);
}

#[test]
fn render_model_passes_agent_state_and_hooks_mode() {
    let config = sample_config();
    let mut state = DaemonState::new(0);
    reduce(
        &mut state,
        &config,
        Event::HookEvent {
            hook: "PermissionRequest".to_string(),
            matcher: None,
            session_id: Some("s".to_string()),
            session_tag: None,
        },
    );
    let model = build_render_model(&state, &config);
    assert_eq!(model.agent_state, AgentState::WaitingPermission);
    assert_eq!(model.hooks_mode, HooksMode::Active);
}
