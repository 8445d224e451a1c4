//! The laws of the session state machine, proved once and for all over the
//! transition function `step_spec` and its iterated form `run`: how often the
//! gather timer is armed, how often POST and DELETE are attempted, which event
//! each action answers, and the exact shape of the submitted document.

use vstd::prelude::*;

use crate::events::EventView;
use crate::sdp::{candidate_lines, end_marker, lemma_candidate_lines_push, AccView};
use crate::session::{run, step_spec, ActionView, SessionView};

verus! {

/// How many POST actions a run emitted.
pub open spec fn post_count(actions: Seq<ActionView>) -> nat
    decreases actions.len(),
{
    if actions.len() == 0 {
        0
    } else {
        (if actions.first() is Post {
            1nat
        } else {
            0nat
        }) + post_count(actions.drop_first())
    }
}

/// How many DELETE actions a run emitted.
pub open spec fn delete_count(actions: Seq<ActionView>) -> nat
    decreases actions.len(),
{
    if actions.len() == 0 {
        0
    } else {
        (if actions.first() is Delete {
            1nat
        } else {
            0nat
        }) + delete_count(actions.drop_first())
    }
}

/// How many timer-arming actions a run emitted.
pub open spec fn arm_count(actions: Seq<ActionView>) -> nat
    decreases actions.len(),
{
    if actions.len() == 0 {
        0
    } else {
        (if actions.first() is ArmTimer {
            1nat
        } else {
            0nat
        }) + arm_count(actions.drop_first())
    }
}

proof fn lemma_counts_cons(a: ActionView, rest: Seq<ActionView>)
    ensures
        post_count(seq![a] + rest) == (if a is Post {
            1nat
        } else {
            0nat
        }) + post_count(rest),
        delete_count(seq![a] + rest) == (if a is Delete {
            1nat
        } else {
            0nat
        }) + delete_count(rest),
        arm_count(seq![a] + rest) == (if a is ArmTimer {
            1nat
        } else {
            0nat
        }) + arm_count(rest),
{
    assert((seq![a] + rest).first() == a);
    assert((seq![a] + rest).drop_first() =~= rest);
}

proof fn lemma_post_count_append(a: Seq<ActionView>, b: Seq<ActionView>)
    ensures
        post_count(a + b) == post_count(a) + post_count(b),
    decreases a.len(),
{
    if a.len() == 0 {
        assert(a + b =~= b);
    } else {
        assert((a + b).first() == a.first());
        assert((a + b).drop_first() =~= a.drop_first() + b);
        lemma_post_count_append(a.drop_first(), b);
    }
}

/// Once a session has left `Gathering` it never returns there, and no further
/// POST is emitted and the timer is never armed again.
pub proof fn lemma_left_gathering_stays(s: SessionView, evs: Seq<EventView>)
    requires
        !(s.phase is Gathering),
    ensures
        !(run(s, evs).0.phase is Gathering),
        post_count(run(s, evs).1) == 0,
        arm_count(run(s, evs).1) == 0,
    decreases evs.len(),
{
    if evs.len() > 0 {
        let a = step_spec(s, evs.first()).1;
        let s1 = step_spec(s, evs.first()).0;
        lemma_left_gathering_stays(s1, evs.drop_first());
        lemma_counts_cons(a, run(s1, evs.drop_first()).1);
    }
}

/// Once the offer has been folded it stays folded, and the timer is never
/// armed again: re-arming is not supported.
pub proof fn lemma_offer_stays(s: SessionView, evs: Seq<EventView>)
    requires
        s.acc.offer is Some,
    ensures
        run(s, evs).0.acc.offer is Some,
        arm_count(run(s, evs).1) == 0,
    decreases evs.len(),
{
    if evs.len() > 0 {
        let a = step_spec(s, evs.first()).1;
        let s1 = step_spec(s, evs.first()).0;
        lemma_offer_stays(s1, evs.drop_first());
        lemma_counts_cons(a, run(s1, evs.drop_first()).1);
    }
}

/// Once the DELETE has been handed out the session stays torn down and no
/// further DELETE is emitted.
pub proof fn lemma_deleted_stays(s: SessionView, evs: Seq<EventView>)
    requires
        s.deleted,
    ensures
        run(s, evs).0.deleted,
        delete_count(run(s, evs).1) == 0,
    decreases evs.len(),
{
    if evs.len() > 0 {
        let a = step_spec(s, evs.first()).1;
        let s1 = step_spec(s, evs.first()).0;
        lemma_deleted_stays(s1, evs.drop_first());
        lemma_counts_cons(a, run(s1, evs.drop_first()).1);
    }
}

/// However the events arrive, the POST is attempted at most once per session.
pub proof fn lemma_post_at_most_once(s: SessionView, evs: Seq<EventView>)
    ensures
        post_count(run(s, evs).1) <= 1,
    decreases evs.len(),
{
    if evs.len() > 0 {
        let a = step_spec(s, evs.first()).1;
        let s1 = step_spec(s, evs.first()).0;
        lemma_counts_cons(a, run(s1, evs.drop_first()).1);
        if a is Post {
            lemma_left_gathering_stays(s1, evs.drop_first());
        } else {
            lemma_post_at_most_once(s1, evs.drop_first());
        }
    }
}

/// However the events arrive, the gather timer is armed at most once per
/// session.
pub proof fn lemma_timer_armed_at_most_once(s: SessionView, evs: Seq<EventView>)
    ensures
        arm_count(run(s, evs).1) <= 1,
    decreases evs.len(),
{
    if evs.len() > 0 {
        let a = step_spec(s, evs.first()).1;
        let s1 = step_spec(s, evs.first()).0;
        lemma_counts_cons(a, run(s1, evs.drop_first()).1);
        if a is ArmTimer {
            lemma_offer_stays(s1, evs.drop_first());
        } else {
            lemma_timer_armed_at_most_once(s1, evs.drop_first());
        }
    }
}

/// However the events arrive, the DELETE is attempted at most once per
/// session.
pub proof fn lemma_delete_at_most_once(s: SessionView, evs: Seq<EventView>)
    ensures
        delete_count(run(s, evs).1) <= 1,
    decreases evs.len(),
{
    if evs.len() > 0 {
        let a = step_spec(s, evs.first()).1;
        let s1 = step_spec(s, evs.first()).0;
        lemma_counts_cons(a, run(s1, evs.drop_first()).1);
        if a is Delete {
            lemma_deleted_stays(s1, evs.drop_first());
        } else {
            lemma_delete_at_most_once(s1, evs.drop_first());
        }
    }
}

/// As soon as a peer-removal event arrives at a session that has not yet torn
/// down, the DELETE is attempted exactly once — whatever the POST's outcome
/// was, and whether or not a POST happened at all.
pub proof fn lemma_delete_exactly_once(s: SessionView, evs: Seq<EventView>)
    requires
        !s.deleted,
        exists|i: int| 0 <= i < evs.len() && evs[i] is ConsumerRemoved,
    ensures
        delete_count(run(s, evs).1) == 1,
    decreases evs.len(),
{
    let a = step_spec(s, evs.first()).1;
    let s1 = step_spec(s, evs.first()).0;
    lemma_counts_cons(a, run(s1, evs.drop_first()).1);
    if a is Delete {
        lemma_deleted_stays(s1, evs.drop_first());
    } else {
        let i = choose|i: int| 0 <= i < evs.len() && evs[i] is ConsumerRemoved;
        assert(i != 0);
        assert(evs.drop_first()[i - 1] is ConsumerRemoved);
        lemma_delete_exactly_once(s1, evs.drop_first());
    }
}

/// A gather timeout that arrives while the session is still gathering, with
/// the offer folded, yields the POST at once — and then never again.
pub proof fn lemma_timeout_posts(s: SessionView, evs: Seq<EventView>)
    requires
        s.phase is Gathering,
        s.acc.offer is Some,
        evs.len() > 0,
        evs.first() is GatherTimeout,
    ensures
        post_count(run(s, evs).1) == 1,
{
    let s1 = step_spec(s, evs.first()).0;
    lemma_counts_cons(step_spec(s, evs.first()).1, run(s1, evs.drop_first()).1);
    lemma_left_gathering_stays(s1, evs.drop_first());
}

/// Actions answer events pointwise: one action per event, a POST only to a
/// gather timeout, the timer arming only to an SDP offer — so the timer is
/// never armed before the offer is processed — and a DELETE only to a peer
/// removal.
pub proof fn lemma_action_causes(s: SessionView, evs: Seq<EventView>)
    ensures
        run(s, evs).1.len() == evs.len(),
        forall|i: int|
            0 <= i < evs.len() && (#[trigger] run(s, evs).1[i]) is Post
                ==> evs[i] is GatherTimeout,
        forall|i: int|
            0 <= i < evs.len() && (#[trigger] run(s, evs).1[i]) is ArmTimer ==> evs[i] is Sdp,
        forall|i: int|
            0 <= i < evs.len() && (#[trigger] run(s, evs).1[i]) is Delete
                ==> evs[i] is ConsumerRemoved,
    decreases evs.len(),
{
    if evs.len() > 0 {
        let s1 = step_spec(s, evs.first()).0;
        lemma_action_causes(s1, evs.drop_first());
        assert forall|i: int|
            0 <= i < evs.len() && (#[trigger] run(s, evs).1[i]) is Post implies evs[i]
            is GatherTimeout by {
            if i > 0 {
                assert(run(s, evs).1[i] == run(s1, evs.drop_first()).1[i - 1]);
                assert(evs[i] == evs.drop_first()[i - 1]);
            }
        }
        assert forall|i: int|
            0 <= i < evs.len() && (#[trigger] run(s, evs).1[i]) is ArmTimer implies evs[i]
            is Sdp by {
            if i > 0 {
                assert(run(s, evs).1[i] == run(s1, evs.drop_first()).1[i - 1]);
                assert(evs[i] == evs.drop_first()[i - 1]);
            }
        }
        assert forall|i: int|
            0 <= i < evs.len() && (#[trigger] run(s, evs).1[i]) is Delete implies evs[i]
            is ConsumerRemoved by {
            if i > 0 {
                assert(run(s, evs).1[i] == run(s1, evs.drop_first()).1[i - 1]);
                assert(evs[i] == evs.drop_first()[i - 1]);
            }
        }
    }
}

/// Consuming events never touches the stored remote location: it is set only
/// when a successful POST response is folded in, which happens at most once,
/// since that is possible only while posting and leaves that phase at once.
pub proof fn lemma_location_set_only_by_post(s: SessionView, evs: Seq<EventView>)
    ensures
        run(s, evs).0.location == s.location,
    decreases evs.len(),
{
    if evs.len() > 0 {
        lemma_location_set_only_by_post(step_spec(s, evs.first()).0, evs.drop_first());
    }
}

/// One event can only append to the accumulated document: nothing is removed
/// or reordered, and candidates after the offer only concatenate behind it.
pub proof fn lemma_step_appends_only(s: SessionView, ev: EventView)
    requires
        s.acc.wf(),
    ensures
        step_spec(s, ev).0.acc.wf(),
        s.acc.text().is_prefix_of(step_spec(s, ev).0.acc.text()),
{
    let t = step_spec(s, ev).0;
    match ev {
        EventView::Ice { candidate, .. } => {
            if s.phase is Gathering {
                if s.acc.offer is None {
                    lemma_candidate_lines_push(s.acc.pre, candidate);
                    assert(s.acc.text() =~= t.acc.text().subrange(0, s.acc.text().len() as int));
                } else {
                    lemma_candidate_lines_push(s.acc.post, candidate);
                    assert(s.acc.text() =~= t.acc.text().subrange(0, s.acc.text().len() as int));
                }
            }
        },
        EventView::Sdp { sdp, .. } => {
            if s.phase is Gathering && s.acc.offer is None {
                assert(s.acc.text() =~= t.acc.text().subrange(0, s.acc.text().len() as int));
            }
        },
        EventView::GatherTimeout { .. } => {},
        EventView::ConsumerRemoved { .. } => {},
    }
}

/// The document is append-only over any whole run of events.
pub proof fn lemma_run_appends_only(s: SessionView, evs: Seq<EventView>)
    requires
        s.acc.wf(),
    ensures
        run(s, evs).0.acc.wf(),
        s.acc.text().is_prefix_of(run(s, evs).0.acc.text()),
    decreases evs.len(),
{
    if evs.len() > 0 {
        let s1 = step_spec(s, evs.first()).0;
        lemma_step_appends_only(s, evs.first());
        lemma_run_appends_only(s1, evs.drop_first());
        assert(s.acc.text() =~= run(s, evs).0.acc.text().subrange(
            0,
            s.acc.text().len() as int,
        ));
    }
}

/// Running over concatenated event sequences is running over the first, then
/// over the second from where the first left off.
pub proof fn lemma_run_append(s: SessionView, evs1: Seq<EventView>, evs2: Seq<EventView>)
    ensures
        run(s, evs1 + evs2).0 == run(run(s, evs1).0, evs2).0,
        run(s, evs1 + evs2).1 == run(s, evs1).1 + run(run(s, evs1).0, evs2).1,
    decreases evs1.len(),
{
    if evs1.len() == 0 {
        assert(evs1 + evs2 =~= evs2);
        assert(run(s, evs1).1 + run(run(s, evs1).0, evs2).1 =~= run(s, evs2).1);
    } else {
        let s1 = step_spec(s, evs1.first()).0;
        let a = step_spec(s, evs1.first()).1;
        assert((evs1 + evs2).first() == evs1.first());
        assert((evs1 + evs2).drop_first() =~= evs1.drop_first() + evs2);
        lemma_run_append(s1, evs1.drop_first(), evs2);
        assert((seq![a] + run(s1, evs1.drop_first()).1) + run(run(s, evs1).0, evs2).1 =~= seq![a]
            + (run(s1, evs1.drop_first()).1 + run(run(s, evs1).0, evs2).1));
    }
}

/// The candidate text carried by one ICE event.
pub open spec fn ice_candidate_of(e: EventView) -> Seq<char> {
    match e {
        EventView::Ice { candidate, .. } => candidate,
        _ => Seq::empty(),
    }
}

/// The candidate texts of a sequence of ICE events, in arrival order.
pub open spec fn ice_candidates(evs: Seq<EventView>) -> Seq<Seq<char>> {
    evs.map_values(|e: EventView| ice_candidate_of(e))
}

/// While gathering without an offer, ICE events fold their candidates into
/// the document in arrival order and change nothing else.
pub proof fn lemma_fold_candidates(s: SessionView, evs: Seq<EventView>)
    requires
        s.phase is Gathering,
        s.acc.offer is None,
        forall|i: int| 0 <= i < evs.len() ==> (#[trigger] evs[i]) is Ice,
    ensures
        run(s, evs).0 == (SessionView {
            acc: AccView { pre: s.acc.pre + ice_candidates(evs), ..s.acc },
            ..s
        }),
        post_count(run(s, evs).1) == 0,
    decreases evs.len(),
{
    if evs.len() == 0 {
        assert(s.acc.pre + ice_candidates(evs) =~= s.acc.pre);
        assert(run(s, evs).0 =~= (SessionView {
            acc: AccView { pre: s.acc.pre + ice_candidates(evs), ..s.acc },
            ..s
        }));
    } else {
        let s1 = step_spec(s, evs.first()).0;
        let a = step_spec(s, evs.first()).1;
        lemma_fold_candidates(s1, evs.drop_first());
        lemma_counts_cons(a, run(s1, evs.drop_first()).1);
        assert(ice_candidates(evs).first() == ice_candidate_of(evs.first()));
        assert(s.acc.pre.push(ice_candidate_of(evs.first())) + ice_candidates(evs.drop_first())
            =~= s.acc.pre + ice_candidates(evs));
        assert(run(s, evs).0 =~= (SessionView {
            acc: AccView { pre: s.acc.pre + ice_candidates(evs), ..s.acc },
            ..s
        }));
    }
}

/// For a fresh session fed any number of ICE candidates, then one SDP offer,
/// then the gather timeout: exactly one POST is emitted, as the final action,
/// and its document is every candidate line in arrival order, followed by the
/// offer body verbatim, followed by exactly one terminal marker line.
pub proof fn lemma_gathered_document(
    endpoint: Seq<char>,
    ices: Seq<EventView>,
    offer_id: Seq<char>,
    offer_sdp: Seq<char>,
    timeout_id: Seq<char>,
)
    requires
        forall|i: int| 0 <= i < ices.len() ==> (#[trigger] ices[i]) is Ice,
    ensures
        ({
            let evs = ices + seq![
                EventView::Sdp { id: offer_id, sdp: offer_sdp },
                EventView::GatherTimeout { id: timeout_id },
            ];
            let r = run(SessionView::initial(endpoint), evs);
            &&& r.1.len() == ices.len() + 2
            &&& r.1.last() == (ActionView::Post {
                peer_id: timeout_id,
                body: candidate_lines(ice_candidates(ices)) + offer_sdp + end_marker(),
            })
            &&& post_count(r.1) == 1
            &&& r.0.phase is Posting
        }),
{
    let s0 = SessionView::initial(endpoint);
    let sdp_ev = EventView::Sdp { id: offer_id, sdp: offer_sdp };
    let gt_ev = EventView::GatherTimeout { id: timeout_id };
    let tail = seq![sdp_ev, gt_ev];
    let evs = ices + tail;
    lemma_run_append(s0, ices, tail);
    lemma_fold_candidates(s0, ices);
    let s1 = run(s0, ices).0;
    let s2 = step_spec(s1, sdp_ev).0;
    let a1 = step_spec(s1, sdp_ev).1;
    let a2 = step_spec(s2, gt_ev).1;
    assert(tail.first() == sdp_ev);
    assert(tail.drop_first() =~= seq![gt_ev]);
    assert(seq![gt_ev].first() == gt_ev);
    assert(seq![gt_ev].drop_first() =~= Seq::<EventView>::empty());
    assert(run(s2, seq![gt_ev]).1 == seq![a2] + run(step_spec(s2, gt_ev).0, Seq::empty()).1);
    assert(run(s1, tail).1 =~= seq![a1, a2]);
    // the body handed to the POST
    assert(s2.acc.post =~= Seq::<Seq<char>>::empty());
    assert(candidate_lines(s2.acc.post) == Seq::<char>::empty());
    assert(s2.acc.text() =~= candidate_lines(ice_candidates(ices)) + offer_sdp);
    assert(a2 == (ActionView::Post {
        peer_id: timeout_id,
        body: s2.acc.text() + end_marker(),
    }));
    // position and count of the POST
    assert(run(s0, evs).1 =~= run(s0, ices).1 + seq![a1, a2]);
    lemma_action_causes(s0, ices);
    assert(run(s0, evs).1.last() == a2);
    lemma_post_count_append(run(s0, ices).1, seq![a1, a2]);
    assert(seq![a1, a2] =~= seq![a1] + seq![a2]);
    lemma_counts_cons(a1, seq![a2]);
    assert(seq![a2] =~= seq![a2] + Seq::<ActionView>::empty());
    lemma_counts_cons(a2, Seq::<ActionView>::empty());
    assert(post_count(Seq::<ActionView>::empty()) == 0);
    assert(post_count(seq![a1, a2]) == 1);
    assert(run(s0, evs).0 == run(s2, seq![gt_ev]).0);
}

} // verus!
