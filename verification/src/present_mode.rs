//! Present modes and the preference among them.

use vstd::prelude::*;

verus! {

/// How and when a presented image becomes visible.
#[derive(Clone, Copy, Debug, PartialEq, Eq, Structural)]
pub enum PresentMode {
    /// Never wait for the vertical blank.
    Immediate,
    /// Wait for the vertical blank; a newer frame replaces a waiting one.
    Mailbox,
    /// Wait for the vertical blank; frames are shown in the order rendered.
    Fifo,
    /// Wait for the vertical blank unless it was just missed.
    Relaxed,
}

/// How desirable a present mode is: the higher the better.
pub open spec fn rank(mode: PresentMode) -> nat {
    match mode {
        PresentMode::Immediate => 0,
        PresentMode::Relaxed => 1,
        PresentMode::Fifo => 2,
        PresentMode::Mailbox => 3,
    }
}

/// `chosen` is a mode of `modes` that no mode of `modes` outranks.
pub open spec fn is_top_mode(modes: Seq<PresentMode>, chosen: PresentMode) -> bool {
    &&& modes.contains(chosen)
    &&& forall|j: int| 0 <= j < modes.len() ==> rank(#[trigger] modes[j]) <= rank(chosen)
}

impl PresentMode {
    /// The rank of the mode.
    pub fn desirability(self) -> (r: u8)
        ensures
            r == rank(self),
    {
        match self {
            PresentMode::Immediate => 0,
            PresentMode::Relaxed => 1,
            PresentMode::Fifo => 2,
            PresentMode::Mailbox => 3,
        }
    }
}

/// Picks the most desirable of the supported present modes:
/// mailbox, then fifo, then relaxed, then immediate.
pub fn select_present_mode(modes: &Vec<PresentMode>) -> (chosen: PresentMode)
    requires
        modes.len() > 0,
    ensures
        is_top_mode(modes@, chosen),
{
    let mut best: PresentMode = modes[0];
    let mut j: usize = 1;
    while j < modes.len()
        invariant
            1 <= j <= modes.len(),
            modes@.contains(best),
            forall|k: int| 0 <= k < j ==> rank(#[trigger] modes@[k]) <= rank(best),
        decreases modes.len() - j,
    {
        if modes[j].desirability() > best.desirability() {
            best = modes[j];
        }
        j += 1;
    }
    best
}

/// Two modes of equal rank are the same mode.
pub proof fn rank_is_distinct(a: PresentMode, b: PresentMode)
    requires
        rank(a) == rank(b),
    ensures
        a == b,
{
}

/// A list of modes has one top mode at most.
pub proof fn top_mode_is_unique(modes: Seq<PresentMode>, a: PresentMode, b: PresentMode)
    requires
        is_top_mode(modes, a),
        is_top_mode(modes, b),
    ensures
        a == b,
{
    let i = choose|i: int| 0 <= i < modes.len() && modes[i] == a;
    let j = choose|j: int| 0 <= j < modes.len() && modes[j] == b;
    assert(rank(modes[i]) <= rank(b));
    assert(rank(modes[j]) <= rank(a));
    rank_is_distinct(a, b);
}

/// Where both fifo and immediate are supported, the top mode is not
/// immediate; where no mailbox is supported besides, it is fifo.
pub proof fn fifo_beats_immediate(modes: Seq<PresentMode>, chosen: PresentMode)
    requires
        is_top_mode(modes, chosen),
        modes.contains(PresentMode::Fifo),
        modes.contains(PresentMode::Immediate),
    ensures
        chosen != PresentMode::Immediate,
        !modes.contains(PresentMode::Mailbox) ==> chosen == PresentMode::Fifo,
{
    let i = choose|i: int| 0 <= i < modes.len() && modes[i] == PresentMode::Fifo;
    assert(rank(modes[i]) <= rank(chosen));
}

/// Where mailbox is supported, the top mode is mailbox, whatever else is
/// supported beside it.
pub proof fn mailbox_beats_all(modes: Seq<PresentMode>, chosen: PresentMode)
    requires
        is_top_mode(modes, chosen),
        modes.contains(PresentMode::Mailbox),
    ensures
        chosen == PresentMode::Mailbox,
{
    let i = choose|i: int| 0 <= i < modes.len() && modes[i] == PresentMode::Mailbox;
    assert(rank(modes[i]) <= rank(chosen));
}

} // verus!
