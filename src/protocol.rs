//! Wire-level vocabulary shared by the daemon and its clients.

use vstd::prelude::*;

verus! {

/// Bump only on breaking changes.
pub const PROTOCOL_VERSION: u32 = 1;

#[derive(Debug, Clone, Copy, PartialEq, Eq, Structural)]
pub enum ClientKind {
    Logi,
    Vscode,
    Hooks,
}

#[derive(Debug, Clone, Copy, PartialEq, Eq, Structural)]
pub enum AgentState {
    /// No telemetry (hooks not installed, or the session is ambiguous).
    Unknown,
    /// Ready for the next prompt.
    Idle,
    /// A prompt was submitted and the assistant is working.
    Running,
    /// Blocked on a permission prompt.
    WaitingPermission,
    /// Blocked on an elicitation dialog.
    WaitingInput,
    /// A bounded task completed.
    Complete,
    /// The assistant stopped responding but the session still exists.
    Settled,
    /// The session ended.
    Ended,
    /// A tool call was blocked by policy.
    Blocked,
    /// A prompt was dispatched without hook confirmation.
    Sent,
}

impl Default for AgentState {
    fn default() -> (r: Self)
        ensures
            r == AgentState::Unknown,
    {
        AgentState::Unknown
    }
}

#[derive(Debug, Clone, Copy, PartialEq, Eq, Structural)]
pub enum DialpadButton {
    CtrlC,
    Export,
    Esc,
    Enter,
}

#[derive(Debug, Clone, Copy, PartialEq, Eq, Structural)]
pub enum AdjustmentKind {
    Dial,
    Roller,
}

#[derive(Debug, Clone, Copy, PartialEq, Eq, Structural)]
pub enum PageDirection {
    Prev,
    Next,
}

#[derive(Debug, Clone, Copy, PartialEq, Eq, Structural)]
pub enum VscodeCommandKind {
    /// Send text to the target terminal.
    SendText,
    /// Focus or select a terminal.
    FocusTerminal,
    /// Scroll terminal output.
    ScrollTerminal,
    /// Open a URI in the default browser or editor.
    OpenUri,
}

#[derive(Debug, Clone, Copy, PartialEq, Eq, Structural)]
pub enum TerminalScrollUnit {
    Lines,
}

#[derive(Debug, Clone, PartialEq, Eq, Structural)]
pub enum TerminalTarget {
    /// The terminal that runs the assistant.
    ActiveClaude,
    /// Whatever the editor reports as its active terminal.
    Active,
    /// The terminal at this index of the terminal list.
    ByIndex(usize),
}

#[derive(Debug, Clone, Copy, PartialEq, Eq, Structural)]
pub enum HooksMode {
    /// No hook event was ever received.
    Absent,
    /// Hook events have arrived.
    Active,
}

impl Default for HooksMode {
    fn default() -> (r: Self)
        ensures
            r == HooksMode::Absent,
    {
        HooksMode::Absent
    }
}

#[derive(Debug, Clone, Copy, PartialEq, Eq, Structural)]
pub enum DialMode {
    /// The device scrolls on its own; the daemon is not involved.
    OsScroll,
    /// The dial is routed through the daemon to the editor's terminal.
    VscodeTerminalScroll,
}

impl Default for DialMode {
    fn default() -> (r: Self)
        ensures
            r == DialMode::OsScroll,
    {
        DialMode::OsScroll
    }
}

#[derive(Debug, Clone, Copy, PartialEq, Eq, Structural)]
pub enum ArmStyle {
    Queue,
    Prefill,
}

impl Default for ArmStyle {
    fn default() -> (r: Self)
        ensures
            r == ArmStyle::Queue,
    {
        ArmStyle::Queue
    }
}

// ---------------------------------------------------------------------------
// Messages
// ---------------------------------------------------------------------------

/// A raw JSON document, carried through untouched.
#[verifier::external_type_specification]
#[verifier::external_body]
pub struct ExJsonValue(serde_json::Value);

/// Relies on serde_json's `Clone` for `Value`, which the derived `Clone` of
/// `HookEvent` calls; nothing is claimed of the copy.
pub assume_specification[ <serde_json::Value as Clone>::clone ](v: &serde_json::Value) -> serde_json::Value;

#[derive(Debug, Clone)]
pub enum ClientToDaemon {
    Hello(Hello),
    KeypadPress(KeypadPress),
    DialpadButtonPress(DialpadButtonPress),
    Adjustment(Adjustment),
    PageNav(PageNav),
    HookEvent(HookEvent),
    TerminalsSnapshot(TerminalsSnapshot),
}

#[derive(Debug, Clone)]
pub enum DaemonToClient {
    Hello(HelloAck),
    /// A new snapshot of what the devices show.
    Render(RenderModel),
    /// A command for the editor extension.
    VscodeCommand(VscodeCommand),
    /// A human-readable notification.
    Notice(Notice),
}

#[derive(Debug, Clone)]
pub struct Hello {
    pub client: ClientKind,
    pub protocol: u32,
    pub version: String,
    /// Capability hints from the client.
    pub capabilities: Vec<String>,
}

#[derive(Debug, Clone)]
pub struct HelloAck {
    pub protocol: u32,
    pub daemon_version: String,
}

#[derive(Debug, Clone)]
pub struct KeypadPress {
    /// Prompt id bound to the pressed slot.
    pub prompt_id: String,
}

#[derive(Debug, Clone)]
pub struct DialpadButtonPress {
    pub button: DialpadButton,
}

#[derive(Debug, Clone)]
pub struct Adjustment {
    pub kind: AdjustmentKind,
    /// Signed number of detents.
    pub delta: i32,
}

#[derive(Debug, Clone)]
pub struct PageNav {
    pub direction: PageDirection,
}

#[derive(Debug, Clone)]
pub struct HookEvent {
    /// Hook name, e.g. "UserPromptSubmit".
    pub hook: String,
    /// Optional matcher, e.g. "permission_prompt".
    pub matcher: Option<String>,
    /// Session id reported by the assistant.
    pub session_id: Option<String>,
    /// Launcher-assigned session tag.
    pub session_tag: Option<String>,
    /// The hook's raw payload; the daemon does not look inside.
    pub payload: serde_json::Value,
}

#[derive(Debug, Clone)]
pub struct Notice {
    pub message: String,
}

// ---------------------------------------------------------------------------
// Render model
// ---------------------------------------------------------------------------

#[derive(Debug, Clone)]
pub struct RenderModel {
    pub agent_state: AgentState,
    pub armed: Option<ArmedPrompt>,
    pub keypad: KeypadRender,
    pub page_index: usize,
    pub page_count: usize,
    pub hooks_mode: HooksMode,
}

#[derive(Debug, Clone)]
pub struct ArmedPrompt {
    pub prompt_id: String,
    pub label: String,
    pub style: ArmStyle,
    /// The text that Enter will dispatch.
    pub command: String,
}

#[derive(Debug, Clone)]
pub struct KeypadRender {
    /// What each key of the keypad shows.
    pub slots: Vec<KeypadSlotRender>,
}

#[derive(Debug, Clone)]
pub struct KeypadSlotRender {
    pub slot: u8,
    pub prompt_id: String,
    pub label: String,
    pub sublabel: Option<String>,
    pub armed: bool,
}

// ---------------------------------------------------------------------------
// Editor commands
// ---------------------------------------------------------------------------

/// What a command carries, one shape per command kind.
#[derive(Debug, Clone)]
pub enum CommandPayload {
    SendText { text: String, add_newline: bool },
    FocusTerminal { direction: i32 },
    ScrollTerminal { delta: i32, unit: TerminalScrollUnit },
    OpenUri { uri: String },
}

#[derive(Debug, Clone)]
pub struct VscodeCommand {
    pub kind: VscodeCommandKind,
    pub target: TerminalTarget,
    pub payload: CommandPayload,
}

impl VscodeCommand {
    /// The text and newline flag of a send-text command, if it is one.
    pub open spec fn sent_text(self) -> Option<(Seq<char>, bool)> {
        if self.kind == VscodeCommandKind::SendText {
            match self.payload {
                CommandPayload::SendText { text, add_newline } => Some((text@, add_newline)),
                _ => None,
            }
        } else {
            None
        }
    }

    pub fn send_text(target: TerminalTarget, text: &str, add_newline: bool) -> (r: Self)
        ensures
            r.kind == VscodeCommandKind::SendText,
            r.target == target,
            r.sent_text() == Some((text@, add_newline)),
    {
        VscodeCommand {
            kind: VscodeCommandKind::SendText,
            target,
            payload: CommandPayload::SendText { text: text.to_owned(), add_newline },
        }
    }

    pub fn focus_terminal(target: TerminalTarget, direction: i32) -> (r: Self)
        ensures
            r.kind == VscodeCommandKind::FocusTerminal,
            r.target == target,
            r.payload == (CommandPayload::FocusTerminal { direction }),
    {
        VscodeCommand {
            kind: VscodeCommandKind::FocusTerminal,
            target,
            payload: CommandPayload::FocusTerminal { direction },
        }
    }

    pub fn scroll_terminal(target: TerminalTarget, delta: i32, unit: TerminalScrollUnit) -> (r:
        Self)
        ensures
            r.kind == VscodeCommandKind::ScrollTerminal,
            r.target == target,
            r.payload == (CommandPayload::ScrollTerminal { delta, unit }),
    {
        VscodeCommand {
            kind: VscodeCommandKind::ScrollTerminal,
            target,
            payload: CommandPayload::ScrollTerminal { delta, unit },
        }
    }

    pub fn open_uri(uri: &str) -> (r: Self)
        ensures
            r.kind == VscodeCommandKind::OpenUri,
            r.target == TerminalTarget::Active,
            r.payload matches CommandPayload::OpenUri { uri: u } && u@ == uri@,
    {
        VscodeCommand {
            kind: VscodeCommandKind::OpenUri,
            target: TerminalTarget::Active,
            payload: CommandPayload::OpenUri { uri: uri.to_owned() },
        }
    }
}

// ---------------------------------------------------------------------------
// Hook decision output
// ---------------------------------------------------------------------------

/// Output of a pre-tool-use hook: allow or deny, with an optional reason.
#[derive(Debug, Clone)]
pub struct PreToolUseDecisionOutput {
    pub hook_specific_output: PreToolUseHookOutput,
}

#[derive(Debug, Clone)]
pub struct PreToolUseHookOutput {
    pub hook_event_name: String,
    pub permission_decision: String,
    pub permission_decision_reason: Option<String>,
    pub additional_context: Option<String>,
}

/// The view of an optional string.
pub open spec fn opt_chars(o: Option<String>) -> Option<Seq<char>> {
    match o {
        Some(s) => Some(s@),
        None => None,
    }
}

impl PreToolUseDecisionOutput {
    pub fn deny(reason: &str) -> (r: Self)
        ensures
            r.hook_specific_output.hook_event_name@ == "PreToolUse"@,
            r.hook_specific_output.permission_decision@ == "deny"@,
            opt_chars(r.hook_specific_output.permission_decision_reason) == Some(reason@),
            r.hook_specific_output.additional_context is None,
    {
        PreToolUseDecisionOutput {
            hook_specific_output: PreToolUseHookOutput {
                hook_event_name: "PreToolUse".to_owned(),
                permission_decision: "deny".to_owned(),
                permission_decision_reason: Some(reason.to_owned()),
                additional_context: None,
            },
        }
    }

    pub fn allow(reason: Option<&str>) -> (r: Self)
        ensures
            r.hook_specific_output.hook_event_name@ == "PreToolUse"@,
            r.hook_specific_output.permission_decision@ == "allow"@,
            opt_chars(r.hook_specific_output.permission_decision_reason) == (match reason {
                Some(s) => Some(s@),
                None => None,
            }),
            r.hook_specific_output.additional_context is None,
    {
        let reason_text = match reason {
            Some(s) => Some(s.to_owned()),
            None => None,
        };
        PreToolUseDecisionOutput {
            hook_specific_output: PreToolUseHookOutput {
                hook_event_name: "PreToolUse".to_owned(),
                permission_decision: "allow".to_owned(),
                permission_decision_reason: reason_text,
                additional_context: None,
            },
        }
    }
}

/// Output of a prompt-submission hook: extra context for the assistant.
#[derive(Debug, Clone)]
pub struct UserPromptSubmitOutput {
    pub hook_specific_output: UserPromptSubmitHookOutput,
}

#[derive(Debug, Clone)]
pub struct UserPromptSubmitHookOutput {
    pub hook_event_name: String,
    pub additional_context: Option<String>,
}

impl UserPromptSubmitOutput {
    pub fn with_context(context: &str) -> (r: Self)
        ensures
            r.hook_specific_output.hook_event_name@ == "UserPromptSubmit"@,
            opt_chars(r.hook_specific_output.additional_context) == Some(context@),
    {
        UserPromptSubmitOutput {
            hook_specific_output: UserPromptSubmitHookOutput {
                hook_event_name: "UserPromptSubmit".to_owned(),
                additional_context: Some(context.to_owned()),
            },
        }
    }
}

// ---------------------------------------------------------------------------
// Editor terminal telemetry
// ---------------------------------------------------------------------------

#[derive(Debug, Clone)]
pub struct TerminalsSnapshot {
    /// Terminals in the order the editor lists them.
    pub terminals: Vec<TerminalInfo>,
    /// Index of the active terminal.
    pub active_index: usize,
}

#[derive(Debug, Clone)]
pub struct TerminalInfo {
    pub index: usize,
    pub name: String,
    /// Session tag of a terminal that was launched for an assistant session.
    pub session_tag: Option<String>,
}

} // verus!
