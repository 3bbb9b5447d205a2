//! The render projection: what every device shows, derived from state and config.

use vstd::prelude::*;

use crate::config::{KeypadSlotConfig, RunbookConfig};
use crate::protocol::{opt_chars, ArmedPrompt, KeypadRender, KeypadSlotRender, RenderModel};
use crate::reducer::claude_primary;
use crate::state::DaemonState;

verus! {

/// What a key shows: its id, label and sublabel. A reference that does not
/// resolve shows a placeholder label; an empty key shows a dash.
pub open spec fn slot_face(config: RunbookConfig, slot: KeypadSlotConfig) -> (
    Seq<char>,
    Seq<char>,
    Option<Seq<char>>,
) {
    match slot.prompt_id {
        Some(pid) => if config.prompts@.contains_key(pid@) {
            (
                pid@,
                config.prompts@[pid@].label@,
                opt_chars(config.prompts@[pid@].sublabel),
            )
        } else {
            (pid@, "???"@, None)
        },
        None => match slot.gate {
            Some(gid) => if config.gates@.contains_key(gid@) {
                (gid@, config.gates@[gid@].label@, opt_chars(config.gates@[gid@].sublabel))
            } else {
                (gid@, "???"@, None)
            },
            None => ("_empty"@, "—"@, None),
        },
    }
}

/// `r` renders `slot` as key number `i`, armed iff its id is the armed one.
pub open spec fn renders_slot(
    r: KeypadSlotRender,
    i: int,
    config: RunbookConfig,
    slot: KeypadSlotConfig,
    armed: Option<Seq<char>>,
) -> bool {
    let (id, label, sublabel) = slot_face(config, slot);
    &&& r.slot == i as u8
    &&& r.prompt_id@ == id
    &&& r.label@ == label
    &&& opt_chars(r.sublabel) == sublabel
    &&& r.armed == (armed == Some(id))
}

/// The page shown: the current one, clamped into the configured pages.
pub open spec fn shown_page(page: usize, count: usize) -> usize {
    if page < count {
        page
    } else {
        (count - 1) as usize
    }
}

/// `a` projects the armed prompt `pid`: its label, style and dispatch text.
pub open spec fn renders_armed(a: ArmedPrompt, config: RunbookConfig, pid: Seq<char>) -> bool {
    let p = config.prompts@[pid];
    &&& a.prompt_id@ == pid
    &&& a.label@ == p.label@
    &&& a.style == p.arm_style
    &&& a.command@ == match p.command_for(claude_primary(config)) {
        Some(text) => text,
        None => Seq::<char>::empty(),
    }
}

fn render_slot(state: &DaemonState, config: &RunbookConfig, i: usize, slot: &KeypadSlotConfig) -> (r:
    KeypadSlotRender)
    requires
        config.wf(),
    ensures
        renders_slot(r, i as int, *config, *slot, opt_chars(state.armed)),
{
    let (prompt_id, label, sublabel) = match &slot.prompt_id {
        Some(pid) => match config.prompts.get(pid.as_str()) {
            Some(p) => (pid.clone(), p.label.clone(), p.sublabel.clone()),
            None => (pid.clone(), "???".to_owned(), None),
        },
        None => match &slot.gate {
            Some(gid) => match config.gates.get(gid.as_str()) {
                Some(g) => (gid.clone(), g.label.clone(), g.sublabel.clone()),
                None => (gid.clone(), "???".to_owned(), None),
            },
            None => ("_empty".to_owned(), "—".to_owned(), None),
        },
    };
    let armed = match &state.armed {
        Some(a) => *a == prompt_id,
        None => false,
    };
    KeypadSlotRender { slot: i as u8, prompt_id, label, sublabel, armed }
}

/// The snapshot every device is sent.
pub fn build_render_model(state: &DaemonState, config: &RunbookConfig) -> (r: RenderModel)
    requires
        state.wf(),
        config.wf(),
        config.keypad.pages.len() > 0,
    ensures
        r.agent_state == state.agent_state(),
        r.page_count == config.keypad.pages.len(),
        r.page_index == shown_page(state.page, config.keypad.pages.len()),
        r.hooks_mode == state.hooks_mode,
        r.keypad.slots.len() == config.keypad.pages@[r.page_index as int].slots.len(),
        forall|i: int|
            0 <= i < r.keypad.slots.len() ==> renders_slot(
                #[trigger] r.keypad.slots@[i],
                i,
                *config,
                config.keypad.pages@[r.page_index as int].slots@[i],
                opt_chars(state.armed),
            ),
        match state.armed {
            Some(pid) => if config.prompts@.contains_key(pid@) {
                r.armed matches Some(a) && renders_armed(a, *config, pid@)
            } else {
                r.armed is None
            },
            None => r.armed is None,
        },
{
    let page_count = config.keypad.pages.len();
    let page_index = if state.page < page_count {
        state.page
    } else {
        page_count - 1
    };
    let page_cfg = &config.keypad.pages[page_index];
    let mut slots: Vec<KeypadSlotRender> = Vec::new();
    let mut i: usize = 0;
    while i < page_cfg.slots.len()
        invariant
            config.wf(),
            i <= page_cfg.slots.len(),
            slots.len() == i,
            forall|j: int|
                0 <= j < i ==> renders_slot(
                    #[trigger] slots@[j],
                    j,
                    *config,
                    page_cfg.slots@[j],
                    opt_chars(state.armed),
                ),
        decreases page_cfg.slots.len() - i,
    {
        let s = render_slot(state, config, i, &page_cfg.slots[i]);
        slots.push(s);
        i = i + 1;
    }
    let armed = match &state.armed {
        Some(pid) => match config.prompts.get(pid.as_str()) {
            Some(p) => {
                let command = match p.effective_command(config.is_claude_primary()) {
                    Some(text) => text.to_owned(),
                    None => String::new(),
                };
                Some(
                    ArmedPrompt {
                        prompt_id: pid.clone(),
                        label: p.label.clone(),
                        style: config.arm_style_for(pid.as_str()),
                        command,
                    },
                )
            },
            None => None,
        },
        None => None,
    };
    RenderModel {
        agent_state: state.current_agent_state(),
        armed,
        keypad: KeypadRender { slots },
        page_index,
        page_count,
        hooks_mode: state.hooks_mode,
    }
}

} // verus!
