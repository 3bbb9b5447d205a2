//! The session store: per-session agent state and the learned correlation tables.

use std::collections::HashMap;
use std::time::Instant;

use vstd::prelude::*;

use crate::protocol::{opt_chars, AgentState, HooksMode, TerminalInfo, TerminalsSnapshot};
use crate::strmap::StrMap;

verus! {

broadcast use vstd::std_specs::hash::group_hash_axioms;

#[verifier::external_type_specification]
#[verifier::external_body]
pub struct ExInstant(Instant);

/// Relies on std's `Instant::now`: a reading of the monotonic clock, of which
/// nothing is claimed.
pub assume_specification[ Instant::now ]() -> Instant;

/// Relies on std's `Clone` for `Instant`, which the derived `Clone` of
/// `SessionState` calls; nothing is claimed of the copy.
pub assume_specification[ <Instant as Clone>::clone ](t: &Instant) -> Instant;

/// Per-session state derived from hook events.
#[derive(Debug, Clone)]
pub struct SessionState {
    pub agent_state: AgentState,
    pub last_tool: Option<String>,
    pub started_at: Instant,
}

impl SessionState {
    pub fn new() -> (r: Self)
        ensures
            r.agent_state == AgentState::Unknown,
            r.last_tool is None,
    {
        SessionState { agent_state: AgentState::Unknown, last_tool: None, started_at: Instant::now() }
    }
}

/// The daemon's whole state; one instance lives as long as the process.
#[derive(Debug)]
pub struct DaemonState {
    /// The armed prompt id: set by a keypad press, cleared by Esc, Enter or a page change.
    pub armed: Option<String>,
    /// The prompt id dispatched last, for display.
    pub last_dispatched: Option<String>,
    /// Index of the current keypad page.
    pub page: usize,
    /// Live sessions, keyed by session id.
    pub sessions: StrMap<SessionState>,
    /// Learned correlation: session tag to session id.
    pub session_tag_map: StrMap<String>,
    /// The editor's terminals, as it last reported them.
    pub terminals: Vec<TerminalInfo>,
    /// The terminal the operator has selected.
    pub selected_terminal_index: usize,
    /// Learned correlation: terminal index to session tag.
    pub terminal_tag_map: HashMap<usize, String>,
    /// The session that hook events first named, until it ends.
    pub active_session: Option<String>,
    /// Whether any hook event was ever received; never goes back to `Absent`.
    pub hooks_mode: HooksMode,
    /// When the last hook event arrived.
    pub last_hook_ts: Option<Instant>,
    /// The editor extension is connected.
    pub vscode_connected: bool,
    /// The keypad plugin is connected.
    pub logi_connected: bool,
    /// The state of the last session to end.
    pub last_ended_state: Option<AgentState>,
}

/// The terminal-to-tag table that a list of terminals denotes; a later
/// terminal with the same index wins.
pub open spec fn terminal_tags(s: Seq<TerminalInfo>) -> Map<usize, String>
    decreases s.len(),
{
    if s.len() == 0 {
        Map::empty()
    } else {
        let m = terminal_tags(s.drop_last());
        match s.last().session_tag {
            Some(tag) => m.insert(s.last().index, tag),
            None => m,
        }
    }
}

/// The entries of `m` that do not lead to `target`.
pub open spec fn drop_target(m: Map<Seq<char>, Seq<char>>, target: Seq<char>) -> Map<
    Seq<char>,
    Seq<char>,
> {
    Map::new(|k: Seq<char>| m.contains_key(k) && m[k] != target, |k: Seq<char>| m[k])
}

impl DaemonState {
    /// The tag-to-session table, over the ids' characters.
    pub open spec fn session_tags(&self) -> Map<Seq<char>, Seq<char>> {
        self.session_tag_map@.map_values(|s: String| s@)
    }

    /// The correlation tables are well formed.
    pub open spec fn wf(&self) -> bool {
        self.sessions.wf() && self.session_tag_map.wf()
    }

    /// The session id that the selected terminal leads to, through its tag.
    pub open spec fn selected_session(&self) -> Option<Seq<char>> {
        let t = self.selected_terminal_index;
        if self.terminal_tag_map@.contains_key(t) && self.session_tags().contains_key(
            self.terminal_tag_map@[t]@,
        ) {
            Some(self.session_tags()[self.terminal_tag_map@[t]@])
        } else {
            None
        }
    }

    /// The agent state to show: unknown without hooks; the latched state of
    /// the last ended session when none is live; the only session's state;
    /// among several, the selected one's, or unknown when it cannot be told.
    pub open spec fn agent_state(&self) -> AgentState {
        if self.hooks_mode == HooksMode::Absent {
            AgentState::Unknown
        } else if self.sessions@.len() == 0 {
            match self.last_ended_state {
                Some(s) => s,
                None => AgentState::Unknown,
            }
        } else if self.sessions@.len() == 1 {
            self.sessions@[choose|k: Seq<char>| self.sessions@.contains_key(k)].agent_state
        } else {
            match self.selected_session() {
                Some(sid) => if self.sessions@.contains_key(sid) {
                    self.sessions@[sid].agent_state
                } else {
                    AgentState::Unknown
                },
                None => AgentState::Unknown,
            }
        }
    }

    pub fn new(initial_page: usize) -> (r: Self)
        ensures
            r.wf(),
            r.armed is None,
            r.last_dispatched is None,
            r.page == initial_page,
            r.sessions@ == Map::<Seq<char>, SessionState>::empty(),
            r.session_tag_map@ == Map::<Seq<char>, String>::empty(),
            r.terminals@ == Seq::<TerminalInfo>::empty(),
            r.selected_terminal_index == 0,
            r.terminal_tag_map@ == Map::<usize, String>::empty(),
            r.active_session is None,
            r.hooks_mode == HooksMode::Absent,
            r.last_hook_ts is None,
            !r.vscode_connected,
            !r.logi_connected,
            r.last_ended_state is None,
    {
        DaemonState {
            armed: None,
            last_dispatched: None,
            page: initial_page,
            sessions: StrMap::new(),
            session_tag_map: StrMap::new(),
            terminals: Vec::new(),
            selected_terminal_index: 0,
            terminal_tag_map: HashMap::new(),
            active_session: None,
            hooks_mode: HooksMode::Absent,
            last_hook_ts: None,
            vscode_connected: false,
            logi_connected: false,
            last_ended_state: None,
        }
    }

    /// Follows the selected terminal to its tag, and the tag to a session id.
    pub fn selected_session_id(&self) -> (r: Option<String>)
        requires
            self.wf(),
        ensures
            opt_chars(r) == self.selected_session(),
    {
        let tag = match self.terminal_tag_map.get(&self.selected_terminal_index) {
            Some(t) => t,
            None => return None,
        };
        match self.session_tag_map.get(tag.as_str()) {
            Some(sid) => Some(sid.clone()),
            None => None,
        }
    }

    /// The agent state to render.
    pub fn current_agent_state(&self) -> (r: AgentState)
        requires
            self.wf(),
        ensures
            r == self.agent_state(),
    {
        if self.hooks_mode == HooksMode::Absent {
            return AgentState::Unknown;
        }
        let n = self.sessions.len();
        if n == 0 {
            match self.last_ended_state {
                Some(s) => s,
                None => AgentState::Unknown,
            }
        } else if n == 1 {
            match self.sessions.any_value() {
                Some(s) => {
                    proof {
                        let k = choose|k: Seq<char>|
                            self.sessions@.contains_key(k) && self.sessions@[k] == *s;
                        let c = choose|k: Seq<char>| self.sessions@.contains_key(k);
                        lemma_single_key(self.sessions@.dom(), k, c);
                    }
                    s.agent_state
                },
                None => AgentState::Unknown,
            }
        } else {
            match self.selected_session_id() {
                Some(sid) => match self.sessions.get(sid.as_str()) {
                    Some(s) => s.agent_state,
                    None => AgentState::Unknown,
                },
                None => AgentState::Unknown,
            }
        }
    }

    /// A handle on the session `session_id`, which is added in state
    /// `Unknown` if it is new.
    pub fn ensure_session(&mut self, session_id: &str) -> (r: &mut SessionState)
        requires
            old(self).wf(),
        ensures
            old(self).sessions@.contains_key(session_id@) ==> *r == old(
                self,
            ).sessions@[session_id@],
            !old(self).sessions@.contains_key(session_id@) ==> r.agent_state
                == AgentState::Unknown && r.last_tool is None,
            final(self).wf(),
            final(self).sessions@ == old(self).sessions@.insert(session_id@, *final(r)),
            *final(self) == (DaemonState { sessions: final(self).sessions, ..*old(self) }),
    {
        self.sessions.get_or_insert(session_id, SessionState::new())
    }

    /// Ends session `session_id`: its state is latched as the last ended
    /// one, the tags that led to it are forgotten, and the armed and last
    /// dispatched prompts are cleared.
    pub fn remove_session(&mut self, session_id: &str)
        requires
            old(self).wf(),
        ensures
            final(self).wf(),
            final(self).sessions@ == old(self).sessions@.remove(session_id@),
            final(self).last_ended_state == (if old(self).sessions@.contains_key(session_id@) {
                Some(old(self).sessions@[session_id@].agent_state)
            } else {
                old(self).last_ended_state
            }),
            final(self).session_tags() == drop_target(old(self).session_tags(), session_id@),
            final(self).active_session == (if opt_chars(old(self).active_session) == Some(
                session_id@,
            ) {
                None
            } else {
                old(self).active_session
            }),
            *final(self) == (DaemonState {
                sessions: final(self).sessions,
                last_ended_state: final(self).last_ended_state,
                session_tag_map: final(self).session_tag_map,
                active_session: final(self).active_session,
                armed: None,
                last_dispatched: None,
                ..*old(self)
            }),
    {
        if let Some(session) = self.sessions.remove(session_id) {
            self.last_ended_state = Some(session.agent_state);
        }
        self.session_tag_map.remove_value(session_id);
        proof {
            assert(self.session_tags() =~= drop_target(old(self).session_tags(), session_id@));
        }
        let clear_active = match &self.active_session {
            Some(a) => *a == session_id.to_owned(),
            None => false,
        };
        if clear_active {
            self.active_session = None;
        }
        self.armed = None;
        self.last_dispatched = None;
    }

    /// Learns that `session_tag` names session `session_id`; a later call for
    /// the same tag wins.
    pub fn learn_session_tag(&mut self, session_tag: &str, session_id: &str)
        requires
            old(self).wf(),
        ensures
            final(self).wf(),
            final(self).session_tags() == old(self).session_tags().insert(session_tag@, session_id@),
            *final(self) == (DaemonState {
                session_tag_map: final(self).session_tag_map,
                ..*old(self)
            }),
    {
        self.session_tag_map.insert(session_tag.to_owned(), session_id.to_owned());
        proof {
            assert(self.session_tags() =~= old(self).session_tags().insert(
                session_tag@,
                session_id@,
            ));
        }
    }

    /// Takes in the editor's terminal list: the terminals, the tags they
    /// carry, and the active one as the selected terminal.
    pub fn apply_terminals_snapshot(&mut self, snapshot: TerminalsSnapshot)
        ensures
            final(self).terminals == snapshot.terminals,
            final(self).terminal_tag_map@ == terminal_tags(snapshot.terminals@),
            final(self).selected_terminal_index == snapshot.active_index,
            *final(self) == (DaemonState {
                terminals: final(self).terminals,
                terminal_tag_map: final(self).terminal_tag_map,
                selected_terminal_index: final(self).selected_terminal_index,
                ..*old(self)
            }),
    {
        let mut tags: HashMap<usize, String> = HashMap::new();
        let mut j: usize = 0;
        while j < snapshot.terminals.len()
            invariant
                j <= snapshot.terminals.len(),
                tags@ == terminal_tags(snapshot.terminals@.take(j as int)),
            decreases snapshot.terminals.len() - j,
        {
            proof {
                assert(snapshot.terminals@.take(j + 1).drop_last() =~= snapshot.terminals@.take(
                    j as int,
                ));
            }
            let info = &snapshot.terminals[j];
            if let Some(tag) = &info.session_tag {
                tags.insert(info.index, tag.clone());
            }
            j = j + 1;
        }
        proof {
            assert(snapshot.terminals@.take(snapshot.terminals.len() as int)
                =~= snapshot.terminals@);
        }
        self.terminal_tag_map = tags;
        self.selected_terminal_index = snapshot.active_index;
        self.terminals = snapshot.terminals;
    }
}

/// In a set of one element, any two members are equal.
pub proof fn lemma_single_key(s: Set<Seq<char>>, a: Seq<char>, b: Seq<char>)
    requires
        s.finite(),
        s.len() == 1,
        s.contains(a),
        s.contains(b),
    ensures
        a == b,
{
    if a != b {
        assert(s.remove(a).contains(b));
        assert(s.remove(a).len() == 0);
    }
}

} // verus!
