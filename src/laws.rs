//! Properties of whole requests, from arrival at the slot to the answer.
use vstd::prelude::*;
use crate::gate::{GateView, bump};
use crate::handler::{
    RequestView, ReplyView, StepView, advance_spec, begin_spec, status,
};
use crate::response::{Failure, OutcomeView, format_spec};

verus! {

/// Feeds the replies to the commands of a step in turn, until the request is
/// answered or the replies run out.
pub open spec fn drive(g: GateView, s: StepView, replies: Seq<ReplyView>) -> (GateView, StepView)
    decreases replies.len(),
{
    match s {
        StepView::Run(session, _) => if replies.len() > 0 {
            let (h, t) = advance_spec(g, session, replies[0]);
            drive(h, t, replies.drop_first())
        } else {
            (g, s)
        },
        StepView::Respond(_) => (g, s),
    }
}

/// A request arriving at slot `g` whose commands come back with `replies`.
pub open spec fn serve(g: GateView, req: RequestView, replies: Seq<ReplyView>) -> (
    GateView,
    StepView,
) {
    let (h, s) = begin_spec(g, req);
    drive(h, s, replies)
}

/// No leaked admission: a request admitted by a free slot is answered after at
/// most two command replies, whatever they are (failures included), and by
/// then the slot has been given back once and counted the admission once.
pub proof fn lemma_handle_released(g: GateView, req: RequestView, replies: Seq<ReplyView>)
    requires
        !g.held,
        replies.len() >= 2,
    ensures
        serve(g, req, replies).1 is Respond,
        !serve(g, req, replies).0.held,
        serve(g, req, replies).0.admitted == bump(g.admitted),
{
    reveal_with_fuel(drive, 3);
    let (h, s) = begin_spec(g, req);
    if let StepView::Run(session, _) = s {
        let rest = replies.drop_first();
        let (h2, t) = advance_spec(h, session, replies[0]);
        assert(drive(h, s, replies) == drive(h2, t, rest));
        if let StepView::Run(session2, _) = t {
            assert(session2.joining);
            let (h3, u) = advance_spec(h2, session2, rest[0]);
            assert(u is Respond);
            assert(drive(h2, t, rest) == drive(h3, u, rest.drop_first()));
        }
    }
}

/// Switching the radio off twice in a row, the second after the first has
/// been answered, reports `off` both times and leaves the slot free.
pub proof fn lemma_radio_off_twice(g: GateView)
    requires
        !g.held,
    ensures
        ({
            let (g1, s1) = serve(g, RequestView::RadioOff, seq![ReplyView::Finished]);
            let (g2, s2) = serve(g1, RequestView::RadioOff, seq![ReplyView::Finished]);
            &&& s1 == StepView::Respond(status("off"@, true))
            &&& s2 == s1
            &&& !g2.held
        }),
{
    reveal_with_fuel(drive, 2);
    let one = seq![ReplyView::Finished];
    assert(one.drop_first() =~= Seq::<ReplyView>::empty());
    assert(one[0] == ReplyView::Finished);
}

/// A connection request with an empty network name or an empty password that
/// reaches a free slot is answered with a failure, never with `busy`, and
/// without any command being run.
pub proof fn lemma_connect_validation(
    g: GateView,
    ssid: Seq<char>,
    password: Seq<char>,
    replies: Seq<ReplyView>,
)
    requires
        !g.held,
        ssid.len() == 0 || password.len() == 0,
    ensures
        ({
            let (h, s) = serve(g, RequestView::Connect { ssid, password }, replies);
            &&& s == StepView::Respond(OutcomeView::DomainFailure(Failure::InvalidInput))
            &&& format_spec(OutcomeView::DomainFailure(Failure::InvalidInput)).message == "error"@
            &&& !h.held
        }),
{
}

} // verus!
