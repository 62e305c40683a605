//! Provider lifecycle states and the canonical machine state each one collapses to.

use crate::vmapi::text::same_text;
use vstd::prelude::*;

verus! {

/// A lifecycle state in the provider's vocabulary.
#[derive(Clone, Copy, PartialEq, Eq, Debug, Structural)]
pub enum State {
    Active,
    Configured,
    Deleted,
    Destroyed,
    Down,
    Failed,
    Halt,
    Halting,
    Incomplete,
    Installed,
    Off,
    Offline,
    Provisioning,
    Ready,
    Running,
    ShuttingDown,
    Stopped,
    Stopping,
    Unavailable,
    Unknown,
    Unreachable,
}

/// The canonical machine state.
#[derive(Clone, Copy, PartialEq, Eq, Debug, Structural)]
pub enum MachineState {
    Provisioning,
    Ready,
    Running,
    Stopping,
    Stopped,
    Offline,
    Deleted,
    Failed,
    Unknown,
}

impl MachineState {
    /// The name of this canonical state.
    pub open spec fn spec_as_str(self) -> Seq<char> {
        match self {
            MachineState::Provisioning => "provisioning"@,
            MachineState::Ready => "ready"@,
            MachineState::Running => "running"@,
            MachineState::Stopping => "stopping"@,
            MachineState::Stopped => "stopped"@,
            MachineState::Offline => "offline"@,
            MachineState::Deleted => "deleted"@,
            MachineState::Failed => "failed"@,
            MachineState::Unknown => "unknown"@,
        }
    }

    /// The name of this canonical state.
    pub fn as_str(&self) -> (r: &'static str)
        ensures
            r@ == self.spec_as_str(),
    {
        match *self {
            MachineState::Provisioning => "provisioning",
            MachineState::Ready => "ready",
            MachineState::Running => "running",
            MachineState::Stopping => "stopping",
            MachineState::Stopped => "stopped",
            MachineState::Offline => "offline",
            MachineState::Deleted => "deleted",
            MachineState::Failed => "failed",
            MachineState::Unknown => "unknown",
        }
    }
}

impl State {
    /// The provider's tag for this state.
    pub open spec fn spec_as_str(self) -> Seq<char> {
        match self {
            State::Active => "active"@,
            State::Configured => "configured"@,
            State::Deleted => "deleted"@,
            State::Destroyed => "destroyed"@,
            State::Down => "down"@,
            State::Failed => "failed"@,
            State::Halt => "halt"@,
            State::Halting => "halting"@,
            State::Incomplete => "incomplete"@,
            State::Installed => "installed"@,
            State::Off => "off"@,
            State::Offline => "offline"@,
            State::Provisioning => "provisioning"@,
            State::Ready => "ready"@,
            State::Running => "running"@,
            State::ShuttingDown => "shutting_down"@,
            State::Stopped => "stopped"@,
            State::Stopping => "stopping"@,
            State::Unavailable => "unavailable"@,
            State::Unknown => "unknown"@,
            State::Unreachable => "unreachable"@,
        }
    }

    /// The state a tag names; a tag outside the vocabulary names `State::Unknown`.
    pub open spec fn spec_parse(tag: Seq<char>) -> State {
        if tag == "active"@ {
            State::Active
        } else if tag == "configured"@ {
            State::Configured
        } else if tag == "deleted"@ {
            State::Deleted
        } else if tag == "destroyed"@ {
            State::Destroyed
        } else if tag == "down"@ {
            State::Down
        } else if tag == "failed"@ {
            State::Failed
        } else if tag == "halt"@ {
            State::Halt
        } else if tag == "halting"@ {
            State::Halting
        } else if tag == "incomplete"@ {
            State::Incomplete
        } else if tag == "installed"@ {
            State::Installed
        } else if tag == "off"@ {
            State::Off
        } else if tag == "offline"@ {
            State::Offline
        } else if tag == "provisioning"@ {
            State::Provisioning
        } else if tag == "ready"@ {
            State::Ready
        } else if tag == "running"@ {
            State::Running
        } else if tag == "shutting_down"@ {
            State::ShuttingDown
        } else if tag == "stopped"@ {
            State::Stopped
        } else if tag == "stopping"@ {
            State::Stopping
        } else if tag == "unavailable"@ {
            State::Unavailable
        } else if tag == "unreachable"@ {
            State::Unreachable
        } else {
            State::Unknown
        }
    }

    /// The canonical state this provider state collapses to.
    ///
    /// The provider's own `deleted` is not among the states that collapse to
    /// `MachineState::Deleted`: only `destroyed` does. Like `active`, `halt` and
    /// `offline` it has no canonical counterpart and collapses to
    /// `MachineState::Unknown`.
    pub open spec fn spec_canonical(self) -> MachineState {
        match self {
            State::Configured | State::Incomplete | State::Unavailable | State::Provisioning =>
                MachineState::Provisioning,
            State::Ready => MachineState::Ready,
            State::Running => MachineState::Running,
            State::Halting | State::Stopping | State::ShuttingDown => MachineState::Stopping,
            State::Off | State::Down | State::Installed | State::Stopped => MachineState::Stopped,
            State::Unreachable => MachineState::Offline,
            State::Destroyed => MachineState::Deleted,
            State::Failed => MachineState::Failed,
            State::Active | State::Deleted | State::Halt | State::Offline | State::Unknown =>
                MachineState::Unknown,
        }
    }

    /// The provider's tag for this state.
    pub fn as_str(&self) -> (r: &'static str)
        ensures
            r@ == self.spec_as_str(),
    {
        match *self {
            State::Active => "active",
            State::Configured => "configured",
            State::Deleted => "deleted",
            State::Destroyed => "destroyed",
            State::Down => "down",
            State::Failed => "failed",
            State::Halt => "halt",
            State::Halting => "halting",
            State::Incomplete => "incomplete",
            State::Installed => "installed",
            State::Off => "off",
            State::Offline => "offline",
            State::Provisioning => "provisioning",
            State::Ready => "ready",
            State::Running => "running",
            State::ShuttingDown => "shutting_down",
            State::Stopped => "stopped",
            State::Stopping => "stopping",
            State::Unavailable => "unavailable",
            State::Unknown => "unknown",
            State::Unreachable => "unreachable",
        }
    }

    /// Reads a state tag. A tag that is not recognized gives `State::Unknown`
    /// and never an error.
    pub fn parse(tag: &str) -> (r: State)
        ensures
            r == State::spec_parse(tag@),
    {
        if same_text(tag, "active") {
            State::Active
        } else if same_text(tag, "configured") {
            State::Configured
        } else if same_text(tag, "deleted") {
            State::Deleted
        } else if same_text(tag, "destroyed") {
            State::Destroyed
        } else if same_text(tag, "down") {
            State::Down
        } else if same_text(tag, "failed") {
            State::Failed
        } else if same_text(tag, "halt") {
            State::Halt
        } else if same_text(tag, "halting") {
            State::Halting
        } else if same_text(tag, "incomplete") {
            State::Incomplete
        } else if same_text(tag, "installed") {
            State::Installed
        } else if same_text(tag, "off") {
            State::Off
        } else if same_text(tag, "offline") {
            State::Offline
        } else if same_text(tag, "provisioning") {
            State::Provisioning
        } else if same_text(tag, "ready") {
            State::Ready
        } else if same_text(tag, "running") {
            State::Running
        } else if same_text(tag, "shutting_down") {
            State::ShuttingDown
        } else if same_text(tag, "stopped") {
            State::Stopped
        } else if same_text(tag, "stopping") {
            State::Stopping
        } else if same_text(tag, "unavailable") {
            State::Unavailable
        } else if same_text(tag, "unreachable") {
            State::Unreachable
        } else {
            State::Unknown
        }
    }

    /// The canonical state of this provider state.
    pub fn canonical(&self) -> (r: MachineState)
        ensures
            r == self.spec_canonical(),
    {
        match *self {
            State::Configured | State::Incomplete | State::Unavailable | State::Provisioning => {
                MachineState::Provisioning
            },
            State::Ready => MachineState::Ready,
            State::Running => MachineState::Running,
            State::Halting | State::Stopping | State::ShuttingDown => MachineState::Stopping,
            State::Off | State::Down | State::Installed | State::Stopped => MachineState::Stopped,
            State::Unreachable => MachineState::Offline,
            State::Destroyed => MachineState::Deleted,
            State::Failed => MachineState::Failed,
            State::Active | State::Deleted | State::Halt | State::Offline | State::Unknown => {
                MachineState::Unknown
            },
        }
    }

    /// The name of the canonical state of this provider state.
    pub fn to_machine_state(&self) -> (r: &'static str)
        ensures
            r@ == self.spec_canonical().spec_as_str(),
    {
        self.canonical().as_str()
    }
}

/// Whether `tag` is one of `configured`, `incomplete`, `unavailable`, `provisioning`.
pub open spec fn tag_is_provisioning(tag: Seq<char>) -> bool {
    tag == "configured"@ || tag == "incomplete"@ || tag == "unavailable"@ || tag
        == "provisioning"@
}

/// Whether `tag` is one of `halting`, `stopping`, `shutting_down`.
pub open spec fn tag_is_stopping(tag: Seq<char>) -> bool {
    tag == "halting"@ || tag == "stopping"@ || tag == "shutting_down"@
}

/// Whether `tag` is one of `off`, `down`, `installed`, `stopped`.
pub open spec fn tag_is_stopped(tag: Seq<char>) -> bool {
    tag == "off"@ || tag == "down"@ || tag == "installed"@ || tag == "stopped"@
}

/// The canonical state of an optional state tag. An absent tag, and any tag
/// that the table does not list, is `MachineState::Unknown`.
pub open spec fn spec_classify_state(tag: Option<Seq<char>>) -> MachineState {
    match tag {
        None => MachineState::Unknown,
        Some(t) => if tag_is_provisioning(t) {
            MachineState::Provisioning
        } else if t == "ready"@ {
            MachineState::Ready
        } else if t == "running"@ {
            MachineState::Running
        } else if tag_is_stopping(t) {
            MachineState::Stopping
        } else if tag_is_stopped(t) {
            MachineState::Stopped
        } else if t == "unreachable"@ {
            MachineState::Offline
        } else if t == "destroyed"@ {
            MachineState::Deleted
        } else if t == "failed"@ {
            MachineState::Failed
        } else {
            MachineState::Unknown
        },
    }
}

/// What is known of each tag of the vocabulary: its length, its first letter,
/// and for the one pair that agrees on both, the letter that tells them apart.
pub proof fn lemma_state_tags()
    ensures
        "active"@.len() == 6 && "active"@[0] == 'a',
        "configured"@.len() == 10 && "configured"@[0] == 'c',
        "deleted"@.len() == 7 && "deleted"@[0] == 'd',
        "destroyed"@.len() == 9 && "destroyed"@[0] == 'd',
        "down"@.len() == 4 && "down"@[0] == 'd',
        "failed"@.len() == 6 && "failed"@[0] == 'f',
        "halt"@.len() == 4 && "halt"@[0] == 'h',
        "halting"@.len() == 7 && "halting"@[0] == 'h',
        "incomplete"@.len() == 10 && "incomplete"@[0] == 'i',
        "installed"@.len() == 9 && "installed"@[0] == 'i',
        "off"@.len() == 3 && "off"@[0] == 'o',
        "offline"@.len() == 7 && "offline"@[0] == 'o',
        "provisioning"@.len() == 12 && "provisioning"@[0] == 'p',
        "ready"@.len() == 5 && "ready"@[0] == 'r',
        "running"@.len() == 7 && "running"@[0] == 'r',
        "shutting_down"@.len() == 13 && "shutting_down"@[0] == 's',
        "stopped"@.len() == 7 && "stopped"@[0] == 's',
        "stopping"@.len() == 8 && "stopping"@[0] == 's',
        "unavailable"@.len() == 11 && "unavailable"@[0] == 'u',
        "unknown"@.len() == 7 && "unknown"@[0] == 'u',
        "unreachable"@.len() == 11 && "unreachable"@[0] == 'u',
        "unavailable"@[2] == 'a',
        "unreachable"@[2] == 'r',
{
    reveal_strlit("active");
    reveal_strlit("configured");
    reveal_strlit("deleted");
    reveal_strlit("destroyed");
    reveal_strlit("down");
    reveal_strlit("failed");
    reveal_strlit("halt");
    reveal_strlit("halting");
    reveal_strlit("incomplete");
    reveal_strlit("installed");
    reveal_strlit("off");
    reveal_strlit("offline");
    reveal_strlit("provisioning");
    reveal_strlit("ready");
    reveal_strlit("running");
    reveal_strlit("shutting_down");
    reveal_strlit("stopped");
    reveal_strlit("stopping");
    reveal_strlit("unavailable");
    reveal_strlit("unknown");
    reveal_strlit("unreachable");
}

/// Reading the tag of a state gives that state back, so no two states share a tag.
pub proof fn lemma_state_tag_round_trip(state: State)
    ensures
        State::spec_parse(state.spec_as_str()) == state,
{
    lemma_state_tags();
}

/// Classifying a tag is reading it as a state and collapsing that state.
pub proof fn lemma_classify_state_reads_the_tag(tag: Seq<char>)
    ensures
        spec_classify_state(Some(tag)) == State::spec_parse(tag).spec_canonical(),
{
    lemma_state_tags();
}

/// Classifies an optional state tag. Total: there is no tag it fails on.
pub fn classify_state(tag: Option<&str>) -> (r: MachineState)
    ensures
        r == spec_classify_state(tag.deep_view()),
{
    match tag {
        None => MachineState::Unknown,
        Some(t) => {
            proof {
                lemma_classify_state_reads_the_tag(t@);
            }
            State::parse(t).canonical()
        },
    }
}

} // verus!
