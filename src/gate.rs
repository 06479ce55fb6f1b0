//! A non-blocking, non-reentrant admission slot with an admission counter.
use vstd::prelude::*;

verus! {

/// The abstract state of the admission slot: whether it is taken, and how many
/// admissions it has granted (saturating at `u64::MAX`).
pub struct GateView {
    pub held: bool,
    pub admitted: u64,
}

/// Whether an entry attempt on a slot in state `g` is admitted.
pub open spec fn admits(g: GateView) -> bool {
    !g.held
}

/// The counter after one more admission.
pub open spec fn bump(n: u64) -> u64 {
    if n < u64::MAX {
        (n + 1) as u64
    } else {
        n
    }
}

/// The state after an entry attempt: a free slot becomes held and counts the
/// admission; a held slot is left as it is.
pub open spec fn after_enter(g: GateView) -> GateView {
    if admits(g) {
        GateView { held: true, admitted: bump(g.admitted) }
    } else {
        g
    }
}

/// The state after the holder gives the slot back.
pub open spec fn after_release(g: GateView) -> GateView {
    GateView { held: false, admitted: g.admitted }
}

/// The one admission slot. It never queues: an attempt on a held slot is
/// turned away at once.
pub struct Gate {
    held: bool,
    admitted: u64,
}

/// Proof of admission. It can be neither copied nor cloned, so each one is
/// handed back to its slot at most once.
pub struct GateHandle {
    ticket: u64,
}

impl View for Gate {
    type V = GateView;

    open spec fn view(&self) -> GateView {
        GateView { held: self.spec_held(), admitted: self.spec_admitted() }
    }
}

impl Gate {
    pub closed spec fn spec_held(&self) -> bool {
        self.held
    }

    pub closed spec fn spec_admitted(&self) -> u64 {
        self.admitted
    }

    /// A free slot that has admitted nothing.
    pub fn new() -> (r: Gate)
        ensures
            r@ == (GateView { held: false, admitted: 0 }),
    {
        Gate { held: false, admitted: 0 }
    }

    /// Tries to take the slot without waiting. On a held slot the result is
    /// `None` and nothing changes; on a free one the slot becomes held and
    /// counts one admission.
    pub fn try_enter(&mut self) -> (r: Option<GateHandle>)
        ensures
            r is Some <==> admits(old(self)@),
            final(self)@ == after_enter(old(self)@),
            r is Some ==> r->0.ticket() == final(self)@.admitted,
    {
        if self.held {
            None
        } else {
            self.held = true;
            if self.admitted < u64::MAX {
                self.admitted = self.admitted + 1;
            }
            Some(GateHandle { ticket: self.admitted })
        }
    }

    /// Gives the slot back, consuming the handle. The counter is unchanged.
    pub fn release(&mut self, handle: GateHandle)
        ensures
            final(self)@ == after_release(old(self)@),
    {
        let _ = handle;
        self.held = false;
    }

    /// Whether the slot is taken.
    pub fn is_held(&self) -> (r: bool)
        ensures
            r == self@.held,
    {
        self.held
    }

    /// How many admissions the slot has granted.
    pub fn admitted(&self) -> (r: u64)
        ensures
            r == self@.admitted,
    {
        self.admitted
    }
}

impl GateHandle {
    pub closed spec fn ticket(&self) -> u64 {
        self.ticket
    }

    /// The value of the slot's counter when this handle was granted.
    pub fn number(&self) -> (r: u64)
        ensures
            r == self.ticket(),
    {
        self.ticket
    }
}

/// One step of use of a slot: an entry attempt, or the release of a handle
/// that an earlier attempt obtained.
pub enum GateEvent {
    Attempt,
    Release,
}

/// The slot state and the number of live handles after `events`, starting
/// from state `g` with `live` handles outstanding.
pub open spec fn run(g: GateView, live: nat, events: Seq<GateEvent>) -> (GateView, nat)
    decreases events.len(),
{
    if events.len() == 0 {
        (g, live)
    } else {
        let (h, n) = run(g, live, events.drop_last());
        match events.last() {
            GateEvent::Attempt => (after_enter(h), if admits(h) { n + 1 } else { n }),
            GateEvent::Release => (after_release(h), (n - 1) as nat),
        }
    }
}

/// Every release in `events` hands back a handle that is live at that point.
pub open spec fn releases_held(g: GateView, live: nat, events: Seq<GateEvent>) -> bool {
    forall|i: int| 0 <= i < events.len() && #[trigger] events[i] is Release
        ==> run(g, live, events.take(i)).1 > 0
}

/// The state after `n` entry attempts in a row, with no release among them.
pub open spec fn attempts(g: GateView, n: nat) -> GateView
    decreases n,
{
    if n == 0 {
        g
    } else {
        after_enter(attempts(g, (n - 1) as nat))
    }
}

/// How many of `n` entry attempts in a row are admitted.
pub open spec fn admissions(g: GateView, n: nat) -> nat
    decreases n,
{
    if n == 0 {
        0
    } else {
        admissions(g, (n - 1) as nat) + if admits(attempts(g, (n - 1) as nat)) { 1nat } else { 0nat }
    }
}

proof fn lemma_run_invariant(g: GateView, events: Seq<GateEvent>)
    requires
        !g.held,
        releases_held(g, 0, events),
    ensures
        run(g, 0, events).1 <= 1,
        run(g, 0, events).1 == 1 <==> run(g, 0, events).0.held,
    decreases events.len(),
{
    if events.len() > 0 {
        let pre = events.drop_last();
        assert forall|i: int| 0 <= i < pre.len() && #[trigger] pre[i] is Release implies run(
            g,
            0,
            pre.take(i),
        ).1 > 0 by {
            assert(pre.take(i) =~= events.take(i));
            assert(events[i] is Release);
        }
        lemma_run_invariant(g, pre);
        let last = (events.len() - 1) as int;
        assert(events.take(last) =~= pre);
    }
}

/// Single flight: however entry attempts and releases interleave on a slot
/// that starts free, at most one handle is live at any point, and one is live
/// exactly when the slot is held.
pub proof fn lemma_single_flight(g: GateView, events: Seq<GateEvent>)
    requires
        !g.held,
        releases_held(g, 0, events),
    ensures
        forall|k: int|
            0 <= k <= events.len() ==> {
                let (h, live) = #[trigger] run(g, 0, events.take(k));
                live <= 1 && (live == 1 <==> h.held)
            },
{
    assert forall|k: int| 0 <= k <= events.len() implies {
        let (h, live) = #[trigger] run(g, 0, events.take(k));
        live <= 1 && (live == 1 <==> h.held)
    } by {
        let pre = events.take(k);
        assert forall|i: int| 0 <= i < pre.len() && #[trigger] pre[i] is Release implies run(
            g,
            0,
            pre.take(i),
        ).1 > 0 by {
            assert(pre.take(i) =~= events.take(i));
            assert(events[i] is Release);
        }
        lemma_run_invariant(g, pre);
    }
}

/// Of `n` simultaneous entry attempts on a free slot exactly one is admitted
/// (the first); on a held slot none is.
pub proof fn lemma_one_admitted(g: GateView, n: nat)
    ensures
        !g.held && n >= 1 ==> admissions(g, n) == 1,
        g.held ==> admissions(g, n) == 0,
        n >= 1 ==> attempts(g, n).held,
    decreases n,
{
    if n > 0 {
        lemma_one_admitted(g, (n - 1) as nat);
        assert(attempts(g, 0) == g);
        assert(admissions(g, 0) == 0);
    }
}

} // verus!
