use vstd::prelude::*;
use crate::path::{join_path, join_spec};

verus! {

/// The phases of a mount's life.
#[derive(Clone, Copy, Debug, PartialEq, Eq, Structural)]
pub enum Phase {
    Uninitialized,
    Walking,
    Ready,
    Mounted,
    ShuttingDown,
    Unmounted,
}

/// What the surrounding process observes.
#[derive(Clone, Copy, Debug, PartialEq, Eq, Structural)]
pub enum LifeEvent {
    /// The mount has been started.
    MountStarted,
    /// The initial walk has filled the table.
    TablePopulated,
    /// The readiness marker exists.
    MarkerCreated,
    /// The operating system delivered an interrupt.
    Interrupted,
    /// The engine's teardown hook ran.
    TeardownNotified,
    /// The mount has been released.
    Released,
}

/// What the surrounding process does next.
#[derive(Clone, Copy, Debug, PartialEq, Eq, Structural)]
pub enum LifeAction {
    Nothing,
    WalkTree,
    CreateMarker,
    RemoveMarkerAndRelease,
}

/// Whether a shutdown request still has an effect in `p`.
pub open spec fn live(p: Phase) -> bool {
    p != Phase::ShuttingDown && p != Phase::Unmounted
}

/// The coordinator's transitions; an event that does not apply leaves the
/// phase as it is and asks for nothing.
pub open spec fn step_spec(p: Phase, e: LifeEvent) -> (Phase, LifeAction) {
    if (e == LifeEvent::Interrupted || e == LifeEvent::TeardownNotified) && live(p) {
        (Phase::ShuttingDown, LifeAction::RemoveMarkerAndRelease)
    } else if p == Phase::Uninitialized && e == LifeEvent::MountStarted {
        (Phase::Walking, LifeAction::WalkTree)
    } else if p == Phase::Walking && e == LifeEvent::TablePopulated {
        (Phase::Ready, LifeAction::CreateMarker)
    } else if p == Phase::Ready && e == LifeEvent::MarkerCreated {
        (Phase::Mounted, LifeAction::Nothing)
    } else if p == Phase::ShuttingDown && e == LifeEvent::Released {
        (Phase::Unmounted, LifeAction::Nothing)
    } else {
        (p, LifeAction::Nothing)
    }
}

/// One transition of the lifecycle coordinator.
pub fn step(p: Phase, e: LifeEvent) -> (r: (Phase, LifeAction))
    ensures
        r == step_spec(p, e),
{
    let shutdown = e == LifeEvent::Interrupted || e == LifeEvent::TeardownNotified;
    if shutdown && p != Phase::ShuttingDown && p != Phase::Unmounted {
        (Phase::ShuttingDown, LifeAction::RemoveMarkerAndRelease)
    } else if p == Phase::Uninitialized && e == LifeEvent::MountStarted {
        (Phase::Walking, LifeAction::WalkTree)
    } else if p == Phase::Walking && e == LifeEvent::TablePopulated {
        (Phase::Ready, LifeAction::CreateMarker)
    } else if p == Phase::Ready && e == LifeEvent::MarkerCreated {
        (Phase::Mounted, LifeAction::Nothing)
    } else if p == Phase::ShuttingDown && e == LifeEvent::Released {
        (Phase::Unmounted, LifeAction::Nothing)
    } else {
        (p, LifeAction::Nothing)
    }
}

/// How many times the events, arriving in order from phase `p`, make the
/// coordinator ask for `a`.
pub open spec fn times_asked(p: Phase, events: Seq<LifeEvent>, a: LifeAction) -> nat
    decreases events.len(),
{
    if events.len() == 0 {
        0
    } else {
        let (q, b) = step_spec(p, events[0]);
        (if b == a {
            1nat
        } else {
            0nat
        }) + times_asked(q, events.drop_first(), a)
    }
}

proof fn lemma_no_marker_after_walk(p: Phase, events: Seq<LifeEvent>)
    requires
        p != Phase::Uninitialized && p != Phase::Walking,
    ensures
        times_asked(p, events, LifeAction::CreateMarker) == 0,
    decreases events.len(),
{
    if events.len() > 0 {
        let (q, b) = step_spec(p, events[0]);
        lemma_no_marker_after_walk(q, events.drop_first());
    }
}

proof fn lemma_no_release_after_shutdown(p: Phase, events: Seq<LifeEvent>)
    requires
        !live(p),
    ensures
        times_asked(p, events, LifeAction::RemoveMarkerAndRelease) == 0,
    decreases events.len(),
{
    if events.len() > 0 {
        let (q, b) = step_spec(p, events[0]);
        lemma_no_release_after_shutdown(q, events.drop_first());
    }
}

/// Whichever events arrive, the readiness marker is asked for at most once,
/// and the teardown (marker removal and release of the mount) at most once.
pub proof fn lemma_signals_once(p: Phase, events: Seq<LifeEvent>)
    ensures
        times_asked(p, events, LifeAction::CreateMarker) <= 1,
        times_asked(p, events, LifeAction::RemoveMarkerAndRelease) <= 1,
    decreases events.len(),
{
    if events.len() > 0 {
        let (q, b) = step_spec(p, events[0]);
        lemma_signals_once(q, events.drop_first());
        if b == LifeAction::CreateMarker {
            lemma_no_marker_after_walk(q, events.drop_first());
        }
        if b == LifeAction::RemoveMarkerAndRelease {
            lemma_no_release_after_shutdown(q, events.drop_first());
        }
    }
}

/// The readiness marker's path inside the mirrored tree.
pub fn marker_path(root: &str) -> (r: String)
    ensures
        r@ == join_spec(root@, ".ready-marker"@),
{
    join_path(root, ".ready-marker")
}

} // verus!
