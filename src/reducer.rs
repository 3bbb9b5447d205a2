//! The reducer: one event applied to the state, the side effects returned as data.

use vstd::prelude::*;

use crate::config::RunbookConfig;
use crate::protocol::{
    opt_chars, AdjustmentKind, AgentState, CommandPayload, DialpadButton, HooksMode,
    PageDirection, TerminalScrollUnit, TerminalTarget, VscodeCommand, VscodeCommandKind,
};
use crate::state::{drop_target, lemma_single_key, DaemonState, SessionState};
use crate::strmap::same_text;

verus! {

/// Events the reducer consumes.
#[derive(Debug)]
pub enum Event {
    KeypadPress { prompt_id: String },
    DialpadButton { button: DialpadButton },
    Adjustment { kind: AdjustmentKind, delta: i32 },
    PageNav { direction: PageDirection },
    HookEvent {
        hook: String,
        matcher: Option<String>,
        session_id: Option<String>,
        session_tag: Option<String>,
    },
    ClientConnected { kind: ClientKindTag },
    ClientDisconnected { kind: ClientKindTag },
}

#[derive(Debug, Clone, Copy, PartialEq, Eq, Structural)]
pub enum ClientKindTag {
    Logi,
    Vscode,
}

/// Side effects for the I/O layer to carry out.
#[derive(Debug)]
pub enum SideEffect {
    /// Publish a new render model to every connected device.
    BroadcastRender,
    /// Send a command to the editor extension.
    SendVscodeCommand(VscodeCommand),
}

// ---------------------------------------------------------------------------
// What each event does
// ---------------------------------------------------------------------------

/// `e` sends `text` to the assistant's terminal, with or without a newline.
pub open spec fn sends(e: SideEffect, text: Seq<char>, newline: bool) -> bool {
    e matches SideEffect::SendVscodeCommand(c) && c.target == TerminalTarget::ActiveClaude
        && c.sent_text() == Some((text, newline))
}

/// The effects are a single render broadcast.
pub open spec fn only_render(effects: Seq<SideEffect>) -> bool {
    effects.len() == 1 && effects[0] == SideEffect::BroadcastRender
}

/// `e` is a command to the editor.
pub open spec fn is_command(e: SideEffect) -> bool {
    e is SendVscodeCommand
}

/// The session id a hook event is filed under.
pub open spec fn hook_session_id(session_id: Option<String>) -> Seq<char> {
    match session_id {
        Some(s) => s@,
        None => "_default"@,
    }
}

/// The agent state a hook sets, by hook name and matcher; `None` leaves it as it is.
pub open spec fn hook_state(hook: Seq<char>, matcher: Option<Seq<char>>) -> Option<AgentState> {
    if hook == "SessionStart"@ {
        Some(AgentState::Idle)
    } else if hook == "Notification"@ {
        if matcher == Some("idle_prompt"@) {
            Some(AgentState::Idle)
        } else if matcher == Some("permission_prompt"@) {
            Some(AgentState::WaitingPermission)
        } else if matcher == Some("elicitation_dialog"@) {
            Some(AgentState::WaitingInput)
        } else {
            None
        }
    } else if hook == "UserPromptSubmit"@ || hook == "PreToolUse"@ {
        Some(AgentState::Running)
    } else if hook == "PermissionRequest"@ {
        Some(AgentState::WaitingPermission)
    } else if hook == "PostToolUse"@ || hook == "PostToolUseFailure"@ {
        Some(AgentState::Running)
    } else if hook == "TaskCompleted"@ {
        Some(AgentState::Complete)
    } else if hook == "Stop"@ {
        Some(AgentState::Settled)
    } else if hook == "SessionEnd"@ {
        Some(AgentState::Ended)
    } else {
        None
    }
}

/// The hook that ends a session.
pub open spec fn ends_session(hook: Seq<char>) -> bool {
    hook == "SessionEnd"@
}

/// The state after a hook event for session `sid`. Hooks are latched as
/// active; the session is auto-selected when none is; a tag is learned; the
/// session is created if new and takes the state of the hook table. A
/// session end removes the session instead, latching the state it had; it
/// creates no session.
pub open spec fn hook_post(
    pre: DaemonState,
    post: DaemonState,
    hook: Seq<char>,
    matcher: Option<Seq<char>>,
    sid: Seq<char>,
    tag: Option<Seq<char>>,
) -> bool {
    let tags = match tag {
        Some(t) => pre.session_tags().insert(t, sid),
        None => pre.session_tags(),
    };
    let prior = if pre.sessions@.contains_key(sid) {
        pre.sessions@[sid].agent_state
    } else {
        AgentState::Unknown
    };
    let active = if pre.active_session is None {
        Some(sid)
    } else {
        opt_chars(pre.active_session)
    };
    &&& post.hooks_mode == HooksMode::Active
    &&& if ends_session(hook) {
        &&& post.sessions@ == pre.sessions@.remove(sid)
        &&& post.last_ended_state == if pre.sessions@.contains_key(sid) {
            Some(prior)
        } else {
            pre.last_ended_state
        }
        &&& post.session_tags() == drop_target(tags, sid)
        &&& opt_chars(post.active_session) == (if active == Some(sid) {
            None
        } else {
            active
        })
        &&& post.armed is None
        &&& post.last_dispatched is None
    } else {
        &&& post.sessions@.contains_key(sid)
        &&& post.sessions@.remove(sid) == pre.sessions@.remove(sid)
        &&& post.sessions@[sid].agent_state == match hook_state(hook, matcher) {
            Some(s) => s,
            None => prior,
        }
        &&& pre.sessions@.contains_key(sid) ==> post.sessions@[sid] == (SessionState {
            agent_state: post.sessions@[sid].agent_state,
            ..pre.sessions@[sid]
        })
        &&& !pre.sessions@.contains_key(sid) ==> post.sessions@[sid].last_tool is None
        &&& post.last_ended_state == pre.last_ended_state
        &&& post.session_tags() == tags
        &&& opt_chars(post.active_session) == active
        &&& post.armed == pre.armed
        &&& post.last_dispatched == pre.last_dispatched
    }
    &&& post.page == pre.page
    &&& post.terminals == pre.terminals
    &&& post.selected_terminal_index == pre.selected_terminal_index
    &&& post.terminal_tag_map == pre.terminal_tag_map
    &&& post.last_hook_ts == pre.last_hook_ts
    &&& post.vscode_connected == pre.vscode_connected
    &&& post.logi_connected == pre.logi_connected
}

/// Whether the assistant is the primary tooling of `config`.
pub open spec fn claude_primary(config: RunbookConfig) -> bool {
    config.tooling.primary@ == "claude_code"@
}

/// The text that dispatching prompt `id` sends, if any.
pub open spec fn dispatch_text(config: RunbookConfig, id: Seq<char>) -> Option<Seq<char>> {
    if config.prompts@.contains_key(id) {
        config.prompts@[id].command_for(claude_primary(config))
    } else {
        None
    }
}

/// A dial-pad button press: Enter dispatches the armed prompt or sends a
/// bare Enter; Esc cancels the arm or is forwarded; Ctrl+C and Export are
/// always forwarded.
pub open spec fn dialpad_post(
    pre: DaemonState,
    post: DaemonState,
    config: RunbookConfig,
    button: DialpadButton,
    effects: Seq<SideEffect>,
) -> bool {
    match button {
        DialpadButton::Enter => match pre.armed {
            Some(id) => {
                &&& post == (DaemonState { armed: None, last_dispatched: Some(id), ..pre })
                &&& match dispatch_text(config, id@) {
                    Some(text) => {
                        &&& effects.len() == 2
                        &&& sends(effects[0], text, true)
                        &&& effects[1] == SideEffect::BroadcastRender
                    },
                    None => only_render(effects),
                }
            },
            None => post == pre && effects.len() == 1 && sends(effects[0], ""@, true),
        },
        DialpadButton::Esc => if pre.armed is Some {
            post == (DaemonState { armed: None, ..pre }) && only_render(effects)
        } else {
            post == pre && effects.len() == 1 && sends(effects[0], "\u{1b}"@, false)
        },
        DialpadButton::CtrlC => post == pre && effects.len() == 1 && sends(
            effects[0],
            "\u{3}"@,
            false,
        ),
        DialpadButton::Export => post == pre && effects.len() == 1 && sends(
            effects[0],
            "/export"@,
            false,
        ),
    }
}

/// The sign of `x`.
pub open spec fn sign(x: i32) -> i32 {
    if x > 0 {
        1
    } else if x < 0 {
        -1i32
    } else {
        0
    }
}

/// The command an adjustment sends: the dial scrolls the assistant's terminal
/// by lines, the roller moves the focus one terminal in its direction.
pub open spec fn adjustment_command(kind: AdjustmentKind, delta: i32) -> VscodeCommand {
    match kind {
        AdjustmentKind::Dial => VscodeCommand {
            kind: VscodeCommandKind::ScrollTerminal,
            target: TerminalTarget::ActiveClaude,
            payload: CommandPayload::ScrollTerminal { delta, unit: TerminalScrollUnit::Lines },
        },
        AdjustmentKind::Roller => VscodeCommand {
            kind: VscodeCommandKind::FocusTerminal,
            target: TerminalTarget::Active,
            payload: CommandPayload::FocusTerminal { direction: sign(delta) },
        },
    }
}

/// The page that `direction` leads to from `page`, among `count` pages.
pub open spec fn next_page(page: usize, count: usize, direction: PageDirection) -> usize
    recommends
        count > 0,
{
    match direction {
        PageDirection::Next => ((page + 1) % (count as int)) as usize,
        PageDirection::Prev => if page == 0 {
            (count - 1) as usize
        } else {
            (page - 1) as usize
        },
    }
}

/// The state after a client of `kind` connects (`up`) or disconnects.
pub open spec fn with_connection(pre: DaemonState, kind: ClientKindTag, up: bool) -> DaemonState {
    match kind {
        ClientKindTag::Logi => DaemonState { logi_connected: up, ..pre },
        ClientKindTag::Vscode => DaemonState { vscode_connected: up, ..pre },
    }
}

/// What `reduce` does with `event`: the state after it and the effects.
pub open spec fn reduce_post(
    pre: DaemonState,
    post: DaemonState,
    config: RunbookConfig,
    event: Event,
    effects: Seq<SideEffect>,
) -> bool {
    match event {
        Event::KeypadPress { prompt_id } => {
            &&& post == (DaemonState {
                armed: if config.prompts@.contains_key(prompt_id@) {
                    Some(prompt_id)
                } else {
                    pre.armed
                },
                ..pre
            })
            &&& only_render(effects)
        },
        Event::DialpadButton { button } => dialpad_post(pre, post, config, button, effects),
        Event::Adjustment { kind, delta } => {
            &&& post == pre
            &&& effects.len() == 1
            &&& effects[0] == SideEffect::SendVscodeCommand(adjustment_command(kind, delta))
        },
        Event::PageNav { direction } => {
            let count = config.keypad.pages.len();
            if count == 0 {
                post == pre && effects.len() == 0
            } else {
                &&& post == (DaemonState {
                    page: next_page(pre.page, count, direction),
                    armed: None,
                    ..pre
                })
                &&& only_render(effects)
            }
        },
        Event::HookEvent { hook, matcher, session_id, session_tag } => {
            &&& hook_post(
                pre,
                post,
                hook@,
                opt_chars(matcher),
                hook_session_id(session_id),
                opt_chars(session_tag),
            )
            &&& only_render(effects)
        },
        Event::ClientConnected { kind } => {
            &&& post == with_connection(pre, kind, true)
            &&& only_render(effects)
        },
        Event::ClientDisconnected { kind } => {
            &&& post == with_connection(pre, kind, false)
            &&& only_render(effects)
        },
    }
}

// ---------------------------------------------------------------------------
// Executable reducer
// ---------------------------------------------------------------------------

/// Applies `event` to `state` and returns the side effects to carry out.
pub fn reduce(state: &mut DaemonState, config: &RunbookConfig, event: Event) -> (r: Vec<
    SideEffect,
>)
    requires
        old(state).wf(),
        config.wf(),
    ensures
        final(state).wf(),
        reduce_post(*old(state), *final(state), *config, event, r@),
{
    match event {
        Event::KeypadPress { prompt_id } => {
            // Gates are dispatched before an event is made; only prompts arm.
            if config.prompts.contains_key(prompt_id.as_str()) {
                state.armed = Some(prompt_id);
            }
            vec![SideEffect::BroadcastRender]
        },
        Event::DialpadButton { button } => reduce_dialpad(state, config, button),
        Event::Adjustment { kind, delta } => reduce_adjustment(kind, delta),
        Event::PageNav { direction } => {
            let count = config.keypad.pages.len();
            if count == 0 {
                return vec![];
            }
            match direction {
                PageDirection::Next => {
                    // Reducing first keeps `+ 1` from overflowing.
                    state.page = (state.page % count + 1) % count;
                    proof {
                        let p = old(state).page as int;
                        let n = count as int;
                        vstd::arithmetic::div_mod::lemma_add_mod_noop(p, 1, n);
                        if n > 1 {
                            vstd::arithmetic::div_mod::lemma_small_mod(1, n as nat);
                        }
                        assert((p % n + 1) % n == (p + 1) % n);
                    }
                },
                PageDirection::Prev => {
                    state.page = if state.page == 0 {
                        count - 1
                    } else {
                        state.page - 1
                    };
                },
            }
            // A prompt of the old page may not exist on the new one.
            state.armed = None;
            vec![SideEffect::BroadcastRender]
        },
        Event::HookEvent { hook, matcher, session_id, session_tag } => reduce_hook(
            state,
            hook,
            matcher,
            session_id,
            session_tag,
        ),
        Event::ClientConnected { kind } => {
            match kind {
                ClientKindTag::Logi => state.logi_connected = true,
                ClientKindTag::Vscode => state.vscode_connected = true,
            }
            vec![SideEffect::BroadcastRender]
        },
        Event::ClientDisconnected { kind } => {
            match kind {
                ClientKindTag::Logi => state.logi_connected = false,
                ClientKindTag::Vscode => state.vscode_connected = false,
            }
            vec![SideEffect::BroadcastRender]
        },
    }
}

fn send_to_assistant(text: &str, newline: bool) -> (r: SideEffect)
    ensures
        sends(r, text@, newline),
{
    SideEffect::SendVscodeCommand(
        VscodeCommand::send_text(TerminalTarget::ActiveClaude, text, newline),
    )
}

fn reduce_dialpad(state: &mut DaemonState, config: &RunbookConfig, button: DialpadButton) -> (r:
    Vec<SideEffect>)
    requires
        old(state).wf(),
        config.wf(),
    ensures
        final(state).wf(),
        dialpad_post(*old(state), *final(state), *config, button, r@),
{
    match button {
        DialpadButton::Enter => {
            match state.armed.take() {
                Some(prompt_id) => {
                    state.last_dispatched = Some(prompt_id.clone());
                    if let Some(prompt) = config.prompts.get(prompt_id.as_str()) {
                        let is_claude = config.is_claude_primary();
                        if let Some(text) = prompt.effective_command(is_claude) {
                            return vec![send_to_assistant(text, true), SideEffect::BroadcastRender];
                        }
                    }
                    vec![SideEffect::BroadcastRender]
                },
                None => {
                    // Nothing armed: a bare Enter, e.g. to confirm an export.
                    vec![send_to_assistant("", true)]
                },
            }
        },
        DialpadButton::Esc => {
            if state.armed.is_some() {
                // Cancels the arm locally; the escape is not forwarded.
                state.armed = None;
                vec![SideEffect::BroadcastRender]
            } else {
                vec![send_to_assistant("\u{1b}", false)]
            }
        },
        DialpadButton::CtrlC => {
            // Always forwarded, armed or not.
            vec![send_to_assistant("\u{3}", false)]
        },
        DialpadButton::Export => {
            // Needs a later Enter to confirm.
            vec![send_to_assistant("/export", false)]
        },
    }
}

fn reduce_adjustment(kind: AdjustmentKind, delta: i32) -> (r: Vec<SideEffect>)
    ensures
        r@.len() == 1,
        r@[0] == SideEffect::SendVscodeCommand(adjustment_command(kind, delta)),
{
    match kind {
        AdjustmentKind::Dial => {
            let cmd = VscodeCommand::scroll_terminal(
                TerminalTarget::ActiveClaude,
                delta,
                TerminalScrollUnit::Lines,
            );
            vec![SideEffect::SendVscodeCommand(cmd)]
        },
        AdjustmentKind::Roller => {
            let direction: i32 = if delta > 0 {
                1
            } else if delta < 0 {
                -1
            } else {
                0
            };
            let cmd = VscodeCommand::focus_terminal(TerminalTarget::Active, direction);
            vec![SideEffect::SendVscodeCommand(cmd)]
        },
    }
}

/// The agent state a hook sets, computed; see `hook_state`.
pub fn hook_target_state(hook: &str, matcher: Option<&str>) -> (r: Option<AgentState>)
    ensures
        r == hook_state(
            hook@,
            match matcher {
                Some(m) => Some(m@),
                None => None,
            },
        ),
{
    let is_matcher = |name: &str| -> (b: bool)
        ensures
            b == (match matcher {
                Some(m) => m@ == name@,
                None => false,
            }),
        {
            match matcher {
                Some(m) => same_text(m, name),
                None => false,
            }
        };
    if same_text(hook, "SessionStart") {
        Some(AgentState::Idle)
    } else if same_text(hook, "Notification") {
        if is_matcher("idle_prompt") {
            Some(AgentState::Idle)
        } else if is_matcher("permission_prompt") {
            Some(AgentState::WaitingPermission)
        } else if is_matcher("elicitation_dialog") {
            Some(AgentState::WaitingInput)
        } else {
            None
        }
    } else if same_text(hook, "UserPromptSubmit") || same_text(hook, "PreToolUse") {
        Some(AgentState::Running)
    } else if same_text(hook, "PermissionRequest") {
        Some(AgentState::WaitingPermission)
    } else if same_text(hook, "PostToolUse") || same_text(hook, "PostToolUseFailure") {
        Some(AgentState::Running)
    } else if same_text(hook, "TaskCompleted") {
        Some(AgentState::Complete)
    } else if same_text(hook, "Stop") {
        Some(AgentState::Settled)
    } else if same_text(hook, "SessionEnd") {
        Some(AgentState::Ended)
    } else {
        None
    }
}

fn reduce_hook(
    state: &mut DaemonState,
    hook: String,
    matcher: Option<String>,
    session_id: Option<String>,
    session_tag: Option<String>,
) -> (r: Vec<SideEffect>)
    requires
        old(state).wf(),
    ensures
        final(state).wf(),
        hook_post(
            *old(state),
            *final(state),
            hook@,
            opt_chars(matcher),
            hook_session_id(session_id),
            opt_chars(session_tag),
        ),
        only_render(r@),
{
    state.hooks_mode = HooksMode::Active;
    let sid = match session_id {
        Some(s) => s,
        None => "_default".to_owned(),
    };
    if state.active_session.is_none() {
        state.active_session = Some(sid.clone());
    }
    if let Some(tag) = &session_tag {
        state.learn_session_tag(tag.as_str(), sid.as_str());
    }
    let matcher_text = match &matcher {
        Some(m) => Some(m.as_str()),
        None => None,
    };
    if same_text(hook.as_str(), "SessionEnd") {
        // The session's state before the end is what gets latched.
        state.remove_session(sid.as_str());
    } else {
        let target = hook_target_state(hook.as_str(), matcher_text);
        let session = state.ensure_session(sid.as_str());
        if let Some(s) = target {
            session.agent_state = s;
        }
        proof {
            assert(final(state).sessions@.remove(sid@) =~= old(state).sessions@.remove(sid@));
        }
    }
    vec![SideEffect::BroadcastRender]
}

// ---------------------------------------------------------------------------
// Laws of the reducer
// ---------------------------------------------------------------------------

/// The invariants of the state model: the armed prompt, when there is one,
/// names a configured prompt, and the page is one of the configured pages.
pub open spec fn state_invariant(state: DaemonState, config: RunbookConfig) -> bool {
    &&& match state.armed {
        Some(id) => config.prompts@.contains_key(id@),
        None => true,
    }
    &&& state.page < config.keypad.pages.len()
}

/// Every event keeps the state model's invariants, and once a hook event has
/// been seen the hooks mode stays active.
pub proof fn lemma_reduce_keeps_invariants(
    pre: DaemonState,
    post: DaemonState,
    config: RunbookConfig,
    event: Event,
    effects: Seq<SideEffect>,
)
    requires
        reduce_post(pre, post, config, event, effects),
    ensures
        state_invariant(pre, config) ==> state_invariant(post, config),
        pre.hooks_mode == HooksMode::Active ==> post.hooks_mode == HooksMode::Active,
{
}

/// A hook event other than a session end leaves its session in the state that
/// the hook table gives, whatever state the session was in before; when that
/// session is the only one, it is also the agent state shown.
pub proof fn lemma_hook_sets_table_state(
    pre: DaemonState,
    post: DaemonState,
    config: RunbookConfig,
    hook: String,
    matcher: Option<String>,
    session_id: Option<String>,
    session_tag: Option<String>,
    effects: Seq<SideEffect>,
    target: AgentState,
)
    requires
        post.wf(),
        reduce_post(
            pre,
            post,
            config,
            Event::HookEvent { hook, matcher, session_id, session_tag },
            effects,
        ),
        hook_state(hook@, opt_chars(matcher)) == Some(target),
        !ends_session(hook@),
    ensures
        post.sessions@.contains_key(hook_session_id(session_id)),
        post.sessions@[hook_session_id(session_id)].agent_state == target,
        post.sessions@.len() == 1 ==> post.agent_state() == target,
{
    let sid = hook_session_id(session_id);
    if post.sessions@.len() == 1 {
        post.sessions.lemma_finite();
        let k = choose|k: Seq<char>| post.sessions@.contains_key(k);
        lemma_single_key(post.sessions@.dom(), k, sid);
    }
}

/// Applying the same hook event twice leaves the sessions, the tag table and
/// the agent state shown as applying it once did.
pub proof fn lemma_hook_idempotent(
    s0: DaemonState,
    s1: DaemonState,
    s2: DaemonState,
    config: RunbookConfig,
    hook: String,
    matcher: Option<String>,
    session_id: Option<String>,
    session_tag: Option<String>,
    e1: Seq<SideEffect>,
    e2: Seq<SideEffect>,
)
    requires
        reduce_post(
            s0,
            s1,
            config,
            Event::HookEvent { hook, matcher, session_id, session_tag },
            e1,
        ),
        reduce_post(
            s1,
            s2,
            config,
            Event::HookEvent { hook, matcher, session_id, session_tag },
            e2,
        ),
    ensures
        s2.sessions@ == s1.sessions@,
        s2.session_tags() == s1.session_tags(),
        s2.last_ended_state == s1.last_ended_state,
        s2.agent_state() == s1.agent_state(),
{
    let sid = hook_session_id(session_id);
    let t = opt_chars(session_tag);
    if ends_session(hook@) {
        assert(s2.sessions@ =~= s1.sessions@);
        let learned = match t {
            Some(tag) => s1.session_tags().insert(tag, sid),
            None => s1.session_tags(),
        };
        assert(drop_target(learned, sid) =~= s1.session_tags());
    } else {
        assert(s1.sessions@.contains_key(sid));
        assert(s2.sessions@[sid].agent_state == s1.sessions@[sid].agent_state);
        assert(s2.sessions@[sid] == s1.sessions@[sid]);
        assert forall|k: Seq<char>| k != sid && #[trigger] s1.sessions@.contains_key(k) implies s2.sessions@.contains_key(k) && s2.sessions@[k] == s1.sessions@[k] by {
            assert(s1.sessions@.remove(sid).contains_key(k));
            assert(s2.sessions@.remove(sid)[k] == s1.sessions@.remove(sid)[k]);
        }
        assert forall|k: Seq<char>| k != sid && #[trigger] s2.sessions@.contains_key(k) implies s1.sessions@.contains_key(k) by {
            assert(s2.sessions@.remove(sid).contains_key(k));
        }
        assert(s2.sessions@ =~= s1.sessions@);
        if let Some(tag) = t {
            assert(s1.session_tags().insert(tag, sid) =~= s1.session_tags());
        }
    }
}

/// Arming a prompt and then pressing Esc leaves nothing armed, and neither
/// step sends anything to the terminal.
pub proof fn lemma_arm_then_cancel(
    s0: DaemonState,
    s1: DaemonState,
    s2: DaemonState,
    config: RunbookConfig,
    prompt_id: String,
    e1: Seq<SideEffect>,
    e2: Seq<SideEffect>,
)
    requires
        config.prompts@.contains_key(prompt_id@),
        reduce_post(s0, s1, config, Event::KeypadPress { prompt_id }, e1),
        reduce_post(s1, s2, config, Event::DialpadButton { button: DialpadButton::Esc }, e2),
    ensures
        s2.armed is None,
        forall|i: int| 0 <= i < e1.len() ==> !is_command(#[trigger] e1[i]),
        forall|i: int| 0 <= i < e2.len() ==> !is_command(#[trigger] e2[i]),
{
}

/// Arming a prompt and then pressing Enter clears the arm, records the prompt
/// as dispatched, and sends its dispatch text, followed by a newline, as the
/// one command.
pub proof fn lemma_arm_then_dispatch(
    s0: DaemonState,
    s1: DaemonState,
    s2: DaemonState,
    config: RunbookConfig,
    prompt_id: String,
    e1: Seq<SideEffect>,
    e2: Seq<SideEffect>,
)
    requires
        config.prompts@.contains_key(prompt_id@),
        reduce_post(s0, s1, config, Event::KeypadPress { prompt_id }, e1),
        reduce_post(s1, s2, config, Event::DialpadButton { button: DialpadButton::Enter }, e2),
    ensures
        s2.armed is None,
        opt_chars(s2.last_dispatched) == Some(prompt_id@),
        match dispatch_text(config, prompt_id@) {
            Some(text) => {
                &&& sends(e2[0], text, true)
                &&& forall|i: int| 1 <= i < e2.len() ==> !is_command(#[trigger] e2[i])
            },
            None => forall|i: int| 0 <= i < e2.len() ==> !is_command(#[trigger] e2[i]),
        },
{
}

/// When the only session ends, its last state is latched and shown.
pub proof fn lemma_session_end_latches(
    pre: DaemonState,
    post: DaemonState,
    config: RunbookConfig,
    hook: String,
    matcher: Option<String>,
    session_id: Option<String>,
    session_tag: Option<String>,
    effects: Seq<SideEffect>,
)
    requires
        pre.wf(),
        pre.hooks_mode == HooksMode::Active,
        pre.sessions@.len() == 1,
        pre.sessions@.contains_key(hook_session_id(session_id)),
        ends_session(hook@),
        reduce_post(
            pre,
            post,
            config,
            Event::HookEvent { hook, matcher, session_id, session_tag },
            effects,
        ),
    ensures
        post.sessions@.len() == 0,
        post.agent_state() == pre.sessions@[hook_session_id(session_id)].agent_state,
{
    pre.sessions.lemma_finite();
}

/// With no live session, the agent state shown stays as it is under every
/// event but a hook event that starts tracking a session.
pub proof fn lemma_latched_state_stays(
    pre: DaemonState,
    post: DaemonState,
    config: RunbookConfig,
    event: Event,
    effects: Seq<SideEffect>,
)
    requires
        pre.wf(),
        pre.hooks_mode == HooksMode::Active,
        pre.sessions@.len() == 0,
        reduce_post(pre, post, config, event, effects),
        event matches Event::HookEvent { hook, .. } ==> ends_session(hook@),
    ensures
        post.sessions@.len() == 0,
        post.agent_state() == pre.agent_state(),
{
    pre.sessions.lemma_finite();
    if let Event::HookEvent { hook, matcher, session_id, session_tag } = event {
        let sid = hook_session_id(session_id);
        assert(!pre.sessions@.contains_key(sid));
        assert(post.sessions@ =~= pre.sessions@);
    }
}

} // verus!
