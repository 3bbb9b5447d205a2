//! The validated configuration: keypad pages, named prompts and gates, policy.

use vstd::prelude::*;

use crate::protocol::{opt_chars, ArmStyle, DialMode};
use crate::strmap::StrMap;

verus! {

/// Number of keys on a keypad page (a 3x3 grid).
pub const SLOTS_PER_PAGE: usize = 9;

/// Top-level configuration.
#[derive(Debug, Clone)]
pub struct RunbookConfig {
    /// Schema version.
    pub version: u32,
    pub daemon: DaemonConfig,
    pub tooling: ToolingConfig,
    pub dial: DialConfig,
    pub keypad: KeypadConfig,
    /// Named prompt templates, keyed by prompt id.
    pub prompts: StrMap<PromptConfig>,
    /// Named jump gates, keyed by gate id.
    pub gates: StrMap<GateConfig>,
    pub policy: PolicyConfig,
}

pub fn default_version() -> (r: u32)
    ensures
        r == 1,
{
    1
}

#[derive(Debug, Clone)]
pub struct DaemonConfig {
    pub listen: String,
}

pub fn default_listen() -> (r: String)
    ensures
        r@ == "127.0.0.1:29381"@,
{
    "127.0.0.1:29381".to_owned()
}

impl Default for DaemonConfig {
    fn default() -> (r: Self)
        ensures
            r.listen@ == "127.0.0.1:29381"@,
    {
        DaemonConfig { listen: default_listen() }
    }
}

#[derive(Debug, Clone)]
pub struct ToolingConfig {
    /// Which tool integration is primary: "claude_code" or another name.
    pub primary: String,
    /// Label shown on the device when no hook telemetry is available.
    pub degraded_mode_label: String,
}

pub fn default_primary() -> (r: String)
    ensures
        r@ == "claude_code"@,
{
    "claude_code".to_owned()
}

pub fn default_degraded_label() -> (r: String)
    ensures
        r@ == "KEYSTROKE MODE"@,
{
    "KEYSTROKE MODE".to_owned()
}

impl Default for ToolingConfig {
    fn default() -> (r: Self)
        ensures
            r.primary@ == "claude_code"@,
            r.degraded_mode_label@ == "KEYSTROKE MODE"@,
    {
        ToolingConfig { primary: default_primary(), degraded_mode_label: default_degraded_label() }
    }
}

#[derive(Debug, Clone)]
pub struct DialConfig {
    pub mode: DialMode,
}

impl Default for DialConfig {
    fn default() -> (r: Self)
        ensures
            r.mode == DialMode::OsScroll,
    {
        DialConfig { mode: DialMode::default() }
    }
}

#[derive(Debug, Clone)]
pub struct KeypadConfig {
    pub pages: Vec<KeypadPageConfig>,
    pub initial_page: usize,
}

#[derive(Debug, Clone)]
pub struct KeypadPageConfig {
    pub name: String,
    pub slots: Vec<KeypadSlotConfig>,
}

/// A key of the keypad: it arms a prompt, opens a gate, or does nothing.
#[derive(Debug, Clone)]
pub struct KeypadSlotConfig {
    /// The prompt this key arms.
    pub prompt_id: Option<String>,
    /// Id of a jump gate bound to this key.
    pub gate: Option<String>,
}

#[derive(Debug, Clone)]
pub struct PromptConfig {
    /// What the key shows.
    pub label: String,
    /// Optional second line.
    pub sublabel: Option<String>,
    /// The assistant's own command, used when the assistant is the primary tooling.
    pub claude_command: Option<String>,
    /// Plain text dispatched otherwise.
    pub fallback_text: Option<String>,
    /// How clients present the prompt while it is armed.
    pub arm_style: ArmStyle,
}

impl PromptConfig {
    /// The text to dispatch: the native command first when the assistant is
    /// primary, the fallback text first otherwise, the other one as last resort.
    pub open spec fn command_for(self, is_claude: bool) -> Option<Seq<char>> {
        let native = opt_chars(self.claude_command);
        let fallback = opt_chars(self.fallback_text);
        if is_claude {
            if native is Some {
                native
            } else {
                fallback
            }
        } else {
            if fallback is Some {
                fallback
            } else {
                native
            }
        }
    }

    pub fn effective_command(&self, is_claude: bool) -> (r: Option<&str>)
        ensures
            match r {
                Some(s) => self.command_for(is_claude) == Some(s@),
                None => self.command_for(is_claude) is None,
            },
    {
        let (first, second) = if is_claude {
            (&self.claude_command, &self.fallback_text)
        } else {
            (&self.fallback_text, &self.claude_command)
        };
        match first {
            Some(s) => Some(s.as_str()),
            None => match second {
                Some(s) => Some(s.as_str()),
                None => None,
            },
        }
    }
}

#[derive(Debug, Clone)]
pub struct GateConfig {
    pub label: String,
    pub sublabel: Option<String>,
    /// The action to invoke, e.g. "open_pr".
    pub action: String,
}

#[derive(Debug, Clone, Default)]
pub struct PolicyConfig {
    pub pre_tool_use: PreToolUsePolicy,
}

#[derive(Debug, Clone, Default)]
pub struct PreToolUsePolicy {
    pub enabled: bool,
    pub bash: BashPolicy,
}

#[derive(Debug, Clone, Default)]
pub struct BashPolicy {
    /// Patterns that deny a shell tool call.
    pub deny: Vec<String>,
    /// Patterns that allow a shell tool call.
    pub allow: Vec<String>,
}

/// Why a configuration was refused.
#[derive(Debug, Clone, PartialEq, Eq)]
pub enum ConfigError {
    /// The keypad has no page.
    NoPages,
    /// A page does not have exactly nine keys.
    SlotCount { page: usize, name: String, count: usize },
    /// A key names a prompt that is not configured.
    UnknownPrompt { page: usize, slot: usize, prompt_id: String },
    /// A key names a gate that is not configured.
    UnknownGate { page: usize, slot: usize, gate: String },
}

impl RunbookConfig {
    /// The prompt and gate tables are well formed.
    pub open spec fn wf(&self) -> bool {
        self.prompts.wf() && self.gates.wf()
    }

    pub open spec fn prompt_ref_ok(&self, slot: KeypadSlotConfig) -> bool {
        match slot.prompt_id {
            Some(p) => self.prompts@.contains_key(p@),
            None => true,
        }
    }

    pub open spec fn gate_ref_ok(&self, slot: KeypadSlotConfig) -> bool {
        match slot.gate {
            Some(g) => self.gates@.contains_key(g@),
            None => true,
        }
    }

    pub open spec fn slot_ok(&self, slot: KeypadSlotConfig) -> bool {
        self.prompt_ref_ok(slot) && self.gate_ref_ok(slot)
    }

    /// The slots of page `p` before `n` all resolve.
    pub open spec fn slots_ok_before(&self, p: int, n: int) -> bool {
        forall|j: int| 0 <= j < n ==> self.slot_ok(#[trigger] self.keypad.pages@[p].slots@[j])
    }

    /// Page `p` has nine keys and each of them resolves.
    pub open spec fn page_ok(&self, p: int) -> bool {
        &&& self.keypad.pages@[p].slots.len() == SLOTS_PER_PAGE
        &&& self.slots_ok_before(p, SLOTS_PER_PAGE as int)
    }

    /// The pages before `n` are all valid.
    pub open spec fn pages_ok_before(&self, n: int) -> bool {
        forall|i: int| 0 <= i < n ==> #[trigger] self.page_ok(i)
    }

    /// At least one page, and every page valid.
    pub open spec fn is_valid(&self) -> bool {
        self.keypad.pages.len() > 0 && self.pages_ok_before(self.keypad.pages.len() as int)
    }

    /// Checks the keypad's structure, reporting the first fault in page order,
    /// then key order, the prompt reference of a key before its gate.
    pub fn validate(&self) -> (r: Result<(), ConfigError>)
        requires
            self.wf(),
        ensures
            r is Ok <==> self.is_valid(),
            match r {
                Ok(()) => true,
                Err(ConfigError::NoPages) => self.keypad.pages.len() == 0,
                Err(ConfigError::SlotCount { page, name, count }) => {
                    &&& page < self.keypad.pages.len()
                    &&& self.pages_ok_before(page as int)
                    &&& count == self.keypad.pages@[page as int].slots.len()
                    &&& count != SLOTS_PER_PAGE
                    &&& name@ == self.keypad.pages@[page as int].name@
                },
                Err(ConfigError::UnknownPrompt { page, slot, prompt_id }) => {
                    &&& page < self.keypad.pages.len()
                    &&& self.pages_ok_before(page as int)
                    &&& self.keypad.pages@[page as int].slots.len() == SLOTS_PER_PAGE
                    &&& slot < SLOTS_PER_PAGE
                    &&& self.slots_ok_before(page as int, slot as int)
                    &&& opt_chars(self.keypad.pages@[page as int].slots@[slot as int].prompt_id)
                        == Some(prompt_id@)
                    &&& !self.prompts@.contains_key(prompt_id@)
                },
                Err(ConfigError::UnknownGate { page, slot, gate }) => {
                    &&& page < self.keypad.pages.len()
                    &&& self.pages_ok_before(page as int)
                    &&& self.keypad.pages@[page as int].slots.len() == SLOTS_PER_PAGE
                    &&& slot < SLOTS_PER_PAGE
                    &&& self.slots_ok_before(page as int, slot as int)
                    &&& self.prompt_ref_ok(self.keypad.pages@[page as int].slots@[slot as int])
                    &&& opt_chars(self.keypad.pages@[page as int].slots@[slot as int].gate)
                        == Some(gate@)
                    &&& !self.gates@.contains_key(gate@)
                },
            },
    {
        let pages = &self.keypad.pages;
        if pages.len() == 0 {
            return Err(ConfigError::NoPages);
        }
        let mut pi: usize = 0;
        while pi < pages.len()
            invariant
                self.wf(),
                pages == &self.keypad.pages,
                pi <= pages.len(),
                self.pages_ok_before(pi as int),
            decreases pages.len() - pi,
        {
            let page = &pages[pi];
            if page.slots.len() != SLOTS_PER_PAGE {
                proof {
                    assert(!self.page_ok(pi as int));
                }
                return Err(
                    ConfigError::SlotCount {
                        page: pi,
                        name: page.name.clone(),
                        count: page.slots.len(),
                    },
                );
            }
            let mut si: usize = 0;
            while si < SLOTS_PER_PAGE
                invariant
                    self.wf(),
                    pages == &self.keypad.pages,
                    pi < pages.len(),
                    page == &pages@[pi as int],
                    page.slots.len() == SLOTS_PER_PAGE,
                    si <= SLOTS_PER_PAGE,
                    self.pages_ok_before(pi as int),
                    self.slots_ok_before(pi as int, si as int),
                decreases SLOTS_PER_PAGE - si,
            {
                let slot = &page.slots[si];
                if let Some(pid) = &slot.prompt_id {
                    if !self.prompts.contains_key(pid.as_str()) {
                        proof {
                            assert(!self.slot_ok(self.keypad.pages@[pi as int].slots@[si as int]));
                            assert(!self.page_ok(pi as int));
                        }
                        return Err(
                            ConfigError::UnknownPrompt { page: pi, slot: si, prompt_id: pid.clone() },
                        );
                    }
                }
                if let Some(gid) = &slot.gate {
                    if !self.gates.contains_key(gid.as_str()) {
                        proof {
                            assert(!self.slot_ok(self.keypad.pages@[pi as int].slots@[si as int]));
                            assert(!self.page_ok(pi as int));
                        }
                        return Err(ConfigError::UnknownGate { page: pi, slot: si, gate: gid.clone() });
                    }
                }
                proof {
                    assert forall|j: int| 0 <= j < si + 1 implies self.slot_ok(
                        #[trigger] self.keypad.pages@[pi as int].slots@[j],
                    ) by {
                        if j < si {
                            assert(self.slots_ok_before(pi as int, si as int));
                        }
                    }
                }
                si = si + 1;
            }
            proof {
                assert forall|i: int| 0 <= i < pi + 1 implies #[trigger] self.page_ok(i) by {
                    if i < pi {
                        assert(self.pages_ok_before(pi as int));
                    }
                }
            }
            pi = pi + 1;
        }
        Ok(())
    }

    /// Whether the assistant is the primary tooling.
    pub fn is_claude_primary(&self) -> (r: bool)
        ensures
            r == (self.tooling.primary@ == "claude_code"@),
    {
        self.tooling.primary == default_primary()
    }

    /// The arm style of a prompt; `Queue` for an id that names no prompt.
    pub fn arm_style_for(&self, prompt_id: &str) -> (r: ArmStyle)
        requires
            self.wf(),
        ensures
            r == (if self.prompts@.contains_key(prompt_id@) {
                self.prompts@[prompt_id@].arm_style
            } else {
                ArmStyle::Queue
            }),
    {
        match self.prompts.get(prompt_id) {
            Some(p) => p.arm_style,
            None => ArmStyle::Queue,
        }
    }
}

} // verus!
