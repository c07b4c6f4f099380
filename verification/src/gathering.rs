//! Gathering: what each simulation step does to an open gather channel.
use vstd::prelude::*;

verus! {

/// What a player is told when the node they gather from has nothing left.
pub const DEPLETED_MESSAGE: &'static str = "Questa risorsa è già stata completamente raccolta";

/// What the simulation step measured about one open gather.
#[derive(Debug, Clone, Copy, PartialEq, Eq, Structural)]
pub struct GatherTickFacts {
    /// The gatherer still exists.
    pub gatherer_present: bool,
    pub gatherer_dead: bool,
    /// Crowd control stops the gatherer acting.
    pub gatherer_blocked: bool,
    /// The gatherer has a cast in progress.
    pub gatherer_casting: bool,
    /// The gatherer has a move target or has left the point where the
    /// channel started.
    pub gatherer_moving: bool,
    /// The node's entity, its resource row and its catalogue definition all
    /// exist.
    pub node_found: bool,
    /// The gatherer stands within the node's interaction range.
    pub in_range: bool,
    /// Pieces left on the node.
    pub current_pieces: u32,
    /// The elapsed time, this step included, has reached the channel time.
    pub due: bool,
}

/// What one simulation step does to an open gather.
#[derive(Debug, Clone, Copy, PartialEq, Eq, Structural)]
pub enum GatherStep {
    /// The session ends; `notify_depleted` says whether the gatherer is told
    /// that the node is empty.
    Cancel { notify_depleted: bool },
    /// The channel keeps its new elapsed time.
    Wait,
    /// The channel is complete: resolve the yield.
    Complete,
}

/// One step of a gather, in the order of its checks: a missing, dead,
/// crowd-controlled or casting gatherer, a moving one, a vanished node, a
/// gatherer out of range all cancel; an empty node cancels and tells the
/// gatherer; otherwise the channel waits until it is due, then completes.
pub open spec fn gather_step(facts: GatherTickFacts) -> GatherStep {
    if !facts.gatherer_present || facts.gatherer_dead || facts.gatherer_blocked
        || facts.gatherer_casting {
        GatherStep::Cancel { notify_depleted: false }
    } else if facts.gatherer_moving || !facts.node_found || !facts.in_range {
        GatherStep::Cancel { notify_depleted: false }
    } else if facts.current_pieces == 0 {
        GatherStep::Cancel { notify_depleted: true }
    } else if !facts.due {
        GatherStep::Wait
    } else {
        GatherStep::Complete
    }
}

/// Decides what one simulation step does to an open gather.
pub fn advance_gather(facts: GatherTickFacts) -> (step: GatherStep)
    ensures
        step == gather_step(facts),
{
    if !facts.gatherer_present || facts.gatherer_dead || facts.gatherer_blocked
        || facts.gatherer_casting {
        return GatherStep::Cancel { notify_depleted: false };
    }
    if facts.gatherer_moving || !facts.node_found || !facts.in_range {
        return GatherStep::Cancel { notify_depleted: false };
    }
    if facts.current_pieces == 0 {
        return GatherStep::Cancel { notify_depleted: true };
    }
    if !facts.due {
        return GatherStep::Wait;
    }
    GatherStep::Complete
}

/// What a completed channel does once its yield is resolved.
#[derive(Debug, Clone, Copy, PartialEq, Eq, Structural)]
pub enum GatherFinish {
    /// Nothing is granted and the session ends; `notify_depleted` as above.
    Stop { notify_depleted: bool },
    /// The pieces are granted; the session then ends or restarts its channel.
    Grant { session_ends: bool },
}

/// After a completed channel: nothing granted ends the session (telling the
/// gatherer when the node ran dry); otherwise the yield is granted and the
/// session ends or starts another channel as the resolution says.
pub fn finish_gather(granted: u32, node_depleted: bool, session_ends: bool) -> (f: GatherFinish)
    ensures
        granted == 0 ==> f == (GatherFinish::Stop { notify_depleted: node_depleted }),
        granted != 0 ==> f == (GatherFinish::Grant { session_ends }),
{
    if granted == 0 {
        GatherFinish::Stop { notify_depleted: node_depleted }
    } else {
        GatherFinish::Grant { session_ends }
    }
}

/// A gatherer who is not standing still next to a node with pieces left
/// never completes a channel.
pub proof fn law_only_still_gatherers_complete(facts: GatherTickFacts)
    requires
        gather_step(facts) == GatherStep::Complete,
    ensures
        facts.gatherer_present && !facts.gatherer_dead && !facts.gatherer_moving && facts.in_range
            && facts.current_pieces > 0 && facts.due,
{
}

} // verus!
