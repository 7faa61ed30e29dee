//! Laws of the correlation engine, proved over runs of its transition
//! relation: ids are assigned in strictly increasing order starting at 1;
//! a call is resolved with the request submitted under its id, and at most
//! once; stream items are forwarded one per params-carrying notification, in
//! arrival order, until the sentinel; and after the sentinel every further
//! notification for that id is ignored.

use vstd::prelude::*;

use crate::correlation::{
    step_allowed, step_effect, step_state, wf_model, ClientEffect, ClientEvent, CorrelationModel,
};

verus! {

/// The state after running a sequence of events.
pub open spec fn run_state<Req>(
    s: CorrelationModel<Req>,
    evs: Seq<ClientEvent<Req>>,
) -> CorrelationModel<Req>
    decreases evs.len(),
{
    if evs.len() == 0 {
        s
    } else {
        run_state(step_state(s, evs[0]), evs.drop_first())
    }
}

/// The effects a run of events produces, one per event, in order.
pub open spec fn run_effects<Req>(
    s: CorrelationModel<Req>,
    evs: Seq<ClientEvent<Req>>,
) -> Seq<ClientEffect<Req>>
    decreases evs.len(),
{
    if evs.len() == 0 {
        Seq::empty()
    } else {
        seq![step_effect(s, evs[0])] + run_effects(step_state(s, evs[0]), evs.drop_first())
    }
}

/// Whether a run never exhausts the id space.
pub open spec fn run_allowed<Req>(
    s: CorrelationModel<Req>,
    evs: Seq<ClientEvent<Req>>,
) -> bool
    decreases evs.len(),
{
    evs.len() == 0 || (step_allowed(s, evs[0]) && run_allowed(
        step_state(s, evs[0]),
        evs.drop_first(),
    ))
}

proof fn lemma_run_effects_len<Req>(s: CorrelationModel<Req>, evs: Seq<ClientEvent<Req>>)
    ensures
        run_effects(s, evs).len() == evs.len(),
    decreases evs.len(),
{
    if evs.len() > 0 {
        lemma_run_effects_len(step_state(s, evs[0]), evs.drop_first());
    }
}

/// One step keeps the state well formed and never lowers the last id.
proof fn lemma_step_wf<Req>(s: CorrelationModel<Req>, e: ClientEvent<Req>)
    requires
        wf_model(s),
        step_allowed(s, e),
    ensures
        wf_model(step_state(s, e)),
        s.last <= step_state(s, e).last,
{
}

proof fn lemma_run_wf<Req>(s: CorrelationModel<Req>, evs: Seq<ClientEvent<Req>>)
    requires
        wf_model(s),
        run_allowed(s, evs),
    ensures
        wf_model(run_state(s, evs)),
        s.last <= run_state(s, evs).last,
    decreases evs.len(),
{
    if evs.len() > 0 {
        lemma_step_wf(s, evs[0]);
        lemma_run_wf(step_state(s, evs[0]), evs.drop_first());
    }
}

proof fn lemma_run_allowed_prefix<Req>(
    s: CorrelationModel<Req>,
    evs: Seq<ClientEvent<Req>>,
    k: int,
)
    requires
        run_allowed(s, evs),
        0 <= k <= evs.len(),
    ensures
        run_allowed(s, evs.take(k)),
    decreases k,
{
    if k > 0 {
        assert(evs.take(k)[0] == evs[0]);
        assert(evs.take(k).drop_first() =~= evs.drop_first().take(k - 1));
        lemma_run_allowed_prefix(step_state(s, evs[0]), evs.drop_first(), k - 1);
    }
}

/// The k-th effect of a run is the effect of the k-th event, taken from the
/// state the preceding events lead to.
proof fn lemma_run_effect_at<Req>(s: CorrelationModel<Req>, evs: Seq<ClientEvent<Req>>, k: int)
    requires
        0 <= k < evs.len(),
    ensures
        run_effects(s, evs)[k] == step_effect(run_state(s, evs.take(k)), evs[k]),
    decreases k,
{
    lemma_run_effects_len(step_state(s, evs[0]), evs.drop_first());
    if k == 0 {
        assert(evs.take(0).len() == 0);
    } else {
        lemma_run_effect_at(step_state(s, evs[0]), evs.drop_first(), k - 1);
        assert(evs.drop_first()[k - 1] == evs[k]);
        assert(evs.take(k)[0] == evs[0]);
        assert(evs.take(k).drop_first() =~= evs.drop_first().take(k - 1));
    }
}

/// The number of effects in a sequence that satisfy `f`.
pub open spec fn count_matching<Req>(
    effs: Seq<ClientEffect<Req>>,
    f: spec_fn(ClientEffect<Req>) -> bool,
) -> int
    decreases effs.len(),
{
    if effs.len() == 0 {
        0
    } else {
        (if f(effs[0]) {
            1int
        } else {
            0int
        }) + count_matching(effs.drop_first(), f)
    }
}

proof fn lemma_count_matching_nonneg<Req>(
    effs: Seq<ClientEffect<Req>>,
    f: spec_fn(ClientEffect<Req>) -> bool,
)
    ensures
        count_matching(effs, f) >= 0,
    decreases effs.len(),
{
    if effs.len() > 0 {
        lemma_count_matching_nonneg(effs.drop_first(), f);
    }
}

proof fn lemma_count_matching_take_succ<Req>(
    effs: Seq<ClientEffect<Req>>,
    f: spec_fn(ClientEffect<Req>) -> bool,
    i: int,
)
    requires
        0 <= i < effs.len(),
    ensures
        count_matching(effs.take(i + 1), f) == count_matching(effs.take(i), f) + (if f(effs[i]) {
            1int
        } else {
            0int
        }),
    decreases i,
{
    if i == 0 {
        assert(effs.take(1).len() == 1);
        assert(effs.take(1)[0] == effs[0]);
        assert(effs.take(1).drop_first() =~= Seq::<ClientEffect<Req>>::empty());
        assert(effs.take(0).len() == 0);
        assert(count_matching(effs.take(1), f) == (if f(effs[0]) {
            1int
        } else {
            0int
        }) + count_matching(Seq::<ClientEffect<Req>>::empty(), f));
    } else {
        lemma_count_matching_take_succ(effs.drop_first(), f, i - 1);
        assert(effs.take(i + 1).len() == i + 1);
        assert(effs.take(i).len() == i);
        assert(effs.take(i + 1)[0] == effs[0]);
        assert(effs.take(i)[0] == effs[0]);
        assert(effs.take(i + 1).drop_first() =~= effs.drop_first().take(i));
        assert(effs.take(i).drop_first() =~= effs.drop_first().take(i - 1));
        assert(effs.drop_first()[i - 1] == effs[i]);
        assert(count_matching(effs.take(i + 1), f) == (if f(effs[0]) {
            1int
        } else {
            0int
        }) + count_matching(effs.drop_first().take(i), f));
        assert(count_matching(effs.take(i), f) == (if f(effs[0]) {
            1int
        } else {
            0int
        }) + count_matching(effs.drop_first().take(i - 1), f));
    }
}

proof fn lemma_count_matching_take_mono<Req>(
    effs: Seq<ClientEffect<Req>>,
    f: spec_fn(ClientEffect<Req>) -> bool,
    i: int,
    j: int,
)
    requires
        0 <= i <= j <= effs.len(),
    ensures
        count_matching(effs.take(i), f) <= count_matching(effs.take(j), f),
    decreases j - i,
{
    if i < j {
        lemma_count_matching_take_succ(effs, f, j - 1);
        lemma_count_matching_take_mono(effs, f, i, j - 1);
    }
}

/// Whether an effect assigns an id to a submission.
pub open spec fn is_assignment<Req>() -> spec_fn(ClientEffect<Req>) -> bool {
    |e: ClientEffect<Req>| e is Assigned
}

/// Law (id monotonicity): the id an assignment effect carries is the
/// state's last assigned id, plus the assignments the run has made so far,
/// plus one — so from a fresh client, ids read 1, 2, 3, … in submission
/// order.
pub proof fn lemma_id_assignment<Req>(
    s: CorrelationModel<Req>,
    evs: Seq<ClientEvent<Req>>,
    k: int,
)
    requires
        run_allowed(s, evs),
        0 <= k < evs.len(),
        run_effects(s, evs)[k] is Assigned,
    ensures
        run_effects(s, evs)[k]->Assigned_id == s.last + count_matching(
            run_effects(s, evs).take(k),
            is_assignment::<Req>(),
        ) + 1,
    decreases evs.len(),
{
    let effs = run_effects(s, evs);
    lemma_run_effects_len(s, evs);
    let s1 = step_state(s, evs[0]);
    let rest = run_effects(s1, evs.drop_first());
    lemma_run_effects_len(s1, evs.drop_first());
    if k == 0 {
        assert(effs.take(0).len() == 0);
    } else {
        lemma_id_assignment(s1, evs.drop_first(), k - 1);
        assert(effs[k] == rest[k - 1]);
        assert(effs.take(k)[0] == effs[0]);
        assert(effs.take(k).drop_first() =~= rest.take(k - 1));
        if evs[0] is Submit {
            assert(s1.last == s.last + 1);
            assert(is_assignment::<Req>()(effs[0]));
        } else {
            assert(s1.last == s.last);
            assert(!is_assignment::<Req>()(effs[0]));
        }
    }
}

/// Law (id monotonicity, pairwise): of two assignments along one run, the
/// later one carries the strictly larger id.
pub proof fn lemma_id_monotonic<Req>(
    s: CorrelationModel<Req>,
    evs: Seq<ClientEvent<Req>>,
    i: int,
    j: int,
)
    requires
        run_allowed(s, evs),
        0 <= i < j < evs.len(),
        run_effects(s, evs)[i] is Assigned,
        run_effects(s, evs)[j] is Assigned,
    ensures
        run_effects(s, evs)[i]->Assigned_id < run_effects(s, evs)[j]->Assigned_id,
{
    let effs = run_effects(s, evs);
    let f = is_assignment::<Req>();
    lemma_run_effects_len(s, evs);
    lemma_id_assignment(s, evs, i);
    lemma_id_assignment(s, evs, j);
    lemma_count_matching_take_succ(effs, f, i);
    lemma_count_matching_take_mono(effs, f, i + 1, j);
}

/// Whether an effect delivers the one value a single-response call gets:
/// its single reply, or the stream it migrates to.
pub open spec fn is_resolution<Req>(id: u64) -> spec_fn(ClientEffect<Req>) -> bool {
    |e: ClientEffect<Req>|
        {
            ||| e matches ClientEffect::Resolved { id: i, .. } && i == id
            ||| e matches ClientEffect::StreamOpened { id: i, .. } && i == id
        }
}

/// Law (at-most-once delivery): along any run from a well-formed state, a
/// call is resolved at most once; an id that is not pending and was already
/// assigned is never resolved again.
pub proof fn lemma_at_most_once_delivery<Req>(
    s: CorrelationModel<Req>,
    evs: Seq<ClientEvent<Req>>,
    id: u64,
)
    requires
        wf_model(s),
        run_allowed(s, evs),
    ensures
        count_matching(run_effects(s, evs), is_resolution::<Req>(id)) <= 1,
        !s.pending.contains_key(id) && id <= s.last ==> count_matching(
            run_effects(s, evs),
            is_resolution::<Req>(id),
        ) == 0,
    decreases evs.len(),
{
    let f = is_resolution::<Req>(id);
    if evs.len() > 0 {
        let s1 = step_state(s, evs[0]);
        let eff0 = step_effect(s, evs[0]);
        let rest = run_effects(s1, evs.drop_first());
        lemma_step_wf(s, evs[0]);
        lemma_at_most_once_delivery(s1, evs.drop_first(), id);
        lemma_count_matching_nonneg(rest, f);
        assert(run_effects(s, evs)[0] == eff0);
        assert(run_effects(s, evs).drop_first() =~= rest);
        if f(eff0) {
            assert(s.pending.contains_key(id));
            assert(!s1.pending.contains_key(id) && id <= s1.last);
        } else {
            if !s.pending.contains_key(id) && id <= s.last {
                assert(!s1.pending.contains_key(id) && id <= s1.last);
            }
        }
    }
}

/// Law (at-most-once delivery, pairwise): once a call is resolved, no later
/// effect of the run resolves the same id again.
pub proof fn lemma_no_double_delivery<Req>(
    s: CorrelationModel<Req>,
    evs: Seq<ClientEvent<Req>>,
    id: u64,
    i: int,
    j: int,
)
    requires
        wf_model(s),
        run_allowed(s, evs),
        0 <= i < j < evs.len(),
        is_resolution::<Req>(id)(run_effects(s, evs)[i]),
    ensures
        !is_resolution::<Req>(id)(run_effects(s, evs)[j]),
{
    let effs = run_effects(s, evs);
    let f = is_resolution::<Req>(id);
    lemma_run_effects_len(s, evs);
    lemma_at_most_once_delivery(s, evs, id);
    lemma_count_matching_take_succ(effs, f, i);
    lemma_count_matching_take_succ(effs, f, j);
    lemma_count_matching_take_mono(effs, f, i + 1, j);
    lemma_count_matching_take_mono(effs, f, 0, i);
    lemma_count_matching_nonneg(effs.take(i), f);
    lemma_count_matching_take_mono(effs, f, j + 1, effs.len() as int);
    assert(effs.take(effs.len() as int) =~= effs);
    lemma_count_matching_nonneg(effs.drop_first(), f);
}

/// A pending call, left untouched by a stretch of events, stays pending and
/// keeps its request: nothing in the run mentions its id.
proof fn lemma_pending_preserved<Req>(
    s: CorrelationModel<Req>,
    evs: Seq<ClientEvent<Req>>,
    id: u64,
)
    requires
        wf_model(s),
        run_allowed(s, evs),
        s.pending.contains_key(id),
        forall|j: int|
            0 <= j < evs.len() ==> !(#[trigger] evs[j] matches ClientEvent::Response { id: i }
                && i == id),
        forall|j: int|
            0 <= j < evs.len() ==> !(#[trigger] evs[j] matches ClientEvent::Notification {
                id: i,
                ..
            } && i == id),
    ensures
        run_state(s, evs).pending.contains_key(id),
        run_state(s, evs).pending[id] == s.pending[id],
    decreases evs.len(),
{
    if evs.len() > 0 {
        let s1 = step_state(s, evs[0]);
        lemma_step_wf(s, evs[0]);
        assert(s1.pending.contains_key(id) && s1.pending[id] == s.pending[id]);
        assert(forall|j: int|
            0 <= j < evs.drop_first().len() ==> evs.drop_first()[j] == evs[j + 1]);
        lemma_pending_preserved(s1, evs.drop_first(), id);
    }
}

/// Law (correlation): a response correlates by id — if a request is
/// submitted and, with no other event naming its id in between, a response
/// for that id arrives, the effect is to resolve exactly that request.
pub proof fn lemma_correlation<Req>(
    s: CorrelationModel<Req>,
    evs: Seq<ClientEvent<Req>>,
    request: Req,
    k: int,
    l: int,
)
    requires
        wf_model(s),
        run_allowed(s, evs),
        0 <= k < l < evs.len(),
        evs[k] == ClientEvent::Submit(request),
        ({
            let id = run_effects(s, evs)[k]->Assigned_id;
            &&& evs[l] == (ClientEvent::Response::<Req> { id })
            &&& forall|j: int|
                k < j < l ==> !(#[trigger] evs[j] matches ClientEvent::Response { id: i } && i
                    == id)
            &&& forall|j: int|
                k < j < l ==> !(#[trigger] evs[j] matches ClientEvent::Notification { id: i, .. }
                    && i == id)
        }),
    ensures
        ({
            let id = run_effects(s, evs)[k]->Assigned_id;
            run_effects(s, evs)[l] == (ClientEffect::Resolved::<Req> { id, request })
        }),
{
    let id = run_effects(s, evs)[k]->Assigned_id;
    lemma_run_effects_len(s, evs);
    lemma_run_effect_at(s, evs, k);
    lemma_run_effect_at(s, evs, l);
    lemma_run_allowed_prefix(s, evs, k);
    lemma_run_wf(s, evs.take(k));
    let sk = run_state(s, evs.take(k));
    let sk1 = step_state(sk, evs[k]);
    // the state after the submission holds the request under the fresh id
    assert(run_state(s, evs.take(k + 1)) == sk1) by {
        lemma_run_state_snoc(s, evs, k);
    }
    assert(step_allowed(sk, evs[k])) by {
        lemma_run_allowed_at(s, evs, k);
    }
    assert(id == sk.last + 1);
    assert(sk1.pending.contains_key(id) && sk1.pending[id] == request);
    lemma_step_wf(sk, evs[k]);
    // ... and keeps it until the response arrives
    let mid = evs.subrange(k + 1, l);
    assert(run_allowed(sk1, mid)) by {
        lemma_run_allowed_prefix(s, evs, l);
        lemma_run_allowed_concat(s, evs.take(l), k + 1);
        assert(evs.take(l).subrange(k + 1, l) =~= mid);
        assert(evs.take(l).take(k + 1) =~= evs.take(k + 1));
        assert(run_state(s, evs.take(k + 1)) == sk1);
    }
    assert(forall|j: int| 0 <= j < mid.len() ==> mid[j] == evs[j + k + 1]);
    lemma_pending_preserved(sk1, mid, id);
    assert(run_state(s, evs.take(l)) == run_state(sk1, mid)) by {
        lemma_run_state_concat(s, evs.take(l), k + 1);
        assert(evs.take(l).take(k + 1) =~= evs.take(k + 1));
        assert(evs.take(l).subrange(k + 1, l) =~= mid);
    }
}

/// Splitting a run: the state after all events equals the state reached by
/// the first `k` events, then the rest.
proof fn lemma_run_state_concat<Req>(
    s: CorrelationModel<Req>,
    evs: Seq<ClientEvent<Req>>,
    k: int,
)
    requires
        0 <= k <= evs.len(),
    ensures
        run_state(s, evs) == run_state(
            run_state(s, evs.take(k)),
            evs.subrange(k, evs.len() as int),
        ),
    decreases k,
{
    if k == 0 {
        assert(evs.take(0).len() == 0);
        assert(evs.subrange(0, evs.len() as int) =~= evs);
    } else {
        assert(evs.take(k)[0] == evs[0]);
        assert(evs.take(k).drop_first() =~= evs.drop_first().take(k - 1));
        assert(evs.subrange(k, evs.len() as int) =~= evs.drop_first().subrange(
            k - 1,
            evs.drop_first().len() as int,
        ));
        lemma_run_state_concat(step_state(s, evs[0]), evs.drop_first(), k - 1);
    }
}

/// The state after `k + 1` events is one step past the state after `k`.
proof fn lemma_run_state_snoc<Req>(s: CorrelationModel<Req>, evs: Seq<ClientEvent<Req>>, k: int)
    requires
        0 <= k < evs.len(),
    ensures
        run_state(s, evs.take(k + 1)) == step_state(run_state(s, evs.take(k)), evs[k]),
    decreases k,
{
    if k == 0 {
        assert(evs.take(1).len() == 1);
        assert(evs.take(1)[0] == evs[0]);
        assert(evs.take(1).drop_first() =~= Seq::<ClientEvent<Req>>::empty());
        assert(evs.take(0).len() == 0);
        assert(run_state(s, evs.take(1)) == run_state(
            step_state(s, evs[0]),
            Seq::<ClientEvent<Req>>::empty(),
        ));
    } else {
        assert(evs.take(k + 1).len() == k + 1);
        assert(evs.take(k).len() == k);
        assert(evs.take(k + 1)[0] == evs[0]);
        assert(evs.take(k)[0] == evs[0]);
        assert(evs.take(k + 1).drop_first() =~= evs.drop_first().take(k));
        assert(evs.take(k).drop_first() =~= evs.drop_first().take(k - 1));
        assert(evs.drop_first()[k - 1] == evs[k]);
        lemma_run_state_snoc(step_state(s, evs[0]), evs.drop_first(), k - 1);
        assert(run_state(s, evs.take(k + 1)) == run_state(
            step_state(s, evs[0]),
            evs.drop_first().take(k),
        ));
        assert(run_state(s, evs.take(k)) == run_state(
            step_state(s, evs[0]),
            evs.drop_first().take(k - 1),
        ));
    }
}

/// An allowed run allows each of its steps, from the state its prefix leads
/// to.
proof fn lemma_run_allowed_at<Req>(s: CorrelationModel<Req>, evs: Seq<ClientEvent<Req>>, k: int)
    requires
        run_allowed(s, evs),
        0 <= k < evs.len(),
    ensures
        step_allowed(run_state(s, evs.take(k)), evs[k]),
    decreases k,
{
    if k == 0 {
        assert(evs.take(0).len() == 0);
    } else {
        assert(evs.take(k)[0] == evs[0]);
        assert(evs.take(k).drop_first() =~= evs.drop_first().take(k - 1));
        assert(evs.drop_first()[k - 1] == evs[k]);
        lemma_run_allowed_at(step_state(s, evs[0]), evs.drop_first(), k - 1);
    }
}

/// Splitting an allowed run: the rest of the run is allowed from the state
/// the first `k` events lead to.
proof fn lemma_run_allowed_concat<Req>(
    s: CorrelationModel<Req>,
    evs: Seq<ClientEvent<Req>>,
    k: int,
)
    requires
        run_allowed(s, evs),
        0 <= k <= evs.len(),
    ensures
        run_allowed(run_state(s, evs.take(k)), evs.subrange(k, evs.len() as int)),
    decreases k,
{
    if k == 0 {
        assert(evs.take(0).len() == 0);
        assert(evs.subrange(0, evs.len() as int) =~= evs);
    } else {
        assert(evs.take(k)[0] == evs[0]);
        assert(evs.take(k).drop_first() =~= evs.drop_first().take(k - 1));
        assert(evs.subrange(k, evs.len() as int) =~= evs.drop_first().subrange(
            k - 1,
            evs.drop_first().len() as int,
        ));
        lemma_run_allowed_concat(step_state(s, evs[0]), evs.drop_first(), k - 1);
    }
}

/// An open stream, seeing no sentinel, stays open and keeps its request.
proof fn lemma_streaming_preserved<Req>(
    s: CorrelationModel<Req>,
    evs: Seq<ClientEvent<Req>>,
    id: u64,
)
    requires
        wf_model(s),
        run_allowed(s, evs),
        s.streams.contains_key(id),
        forall|j: int|
            0 <= j < evs.len() ==> !(#[trigger] evs[j] matches ClientEvent::Notification {
                id: i,
                has_params,
            } && i == id && !has_params),
    ensures
        run_state(s, evs).streams.contains_key(id),
        run_state(s, evs).streams[id] == s.streams[id],
        !run_state(s, evs).pending.contains_key(id),
    decreases evs.len(),
{
    lemma_run_wf(s, evs);
    if evs.len() > 0 {
        let s1 = step_state(s, evs[0]);
        lemma_step_wf(s, evs[0]);
        assert(s1.streams.contains_key(id) && s1.streams[id] == s.streams[id]);
        assert(forall|j: int|
            0 <= j < evs.drop_first().len() ==> evs.drop_first()[j] == evs[j + 1]);
        lemma_streaming_preserved(s1, evs.drop_first(), id);
    }
}

/// Law (stream ordering): while a stream is open and its sentinel has not
/// arrived, every notification for its id that carries params is forwarded —
/// one forwarded item per notification, in arrival order — and the stream
/// still holds the request its items are converted against.
pub proof fn lemma_stream_forwarding<Req>(
    s: CorrelationModel<Req>,
    evs: Seq<ClientEvent<Req>>,
    id: u64,
    k: int,
)
    requires
        wf_model(s),
        run_allowed(s, evs),
        s.streams.contains_key(id),
        0 <= k < evs.len(),
        evs[k] == (ClientEvent::Notification::<Req> { id, has_params: true }),
        forall|j: int|
            0 <= j < k ==> !(#[trigger] evs[j] matches ClientEvent::Notification {
                id: i,
                has_params,
            } && i == id && !has_params),
    ensures
        run_effects(s, evs)[k] == (ClientEffect::Forwarded::<Req> { id }),
        run_state(s, evs.take(k)).streams[id] == s.streams[id],
{
    lemma_run_effect_at(s, evs, k);
    lemma_run_allowed_prefix(s, evs, k);
    assert(forall|j: int| 0 <= j < evs.take(k).len() ==> evs.take(k)[j] == evs[j]);
    lemma_streaming_preserved(s, evs.take(k), id);
}

/// An id correlated to nothing stays that way: no later event can revive it,
/// because fresh assignments only ever use larger ids.
proof fn lemma_gone_preserved<Req>(
    s: CorrelationModel<Req>,
    evs: Seq<ClientEvent<Req>>,
    id: u64,
)
    requires
        wf_model(s),
        run_allowed(s, evs),
        !s.pending.contains_key(id),
        !s.streams.contains_key(id),
        id <= s.last,
    ensures
        !run_state(s, evs).pending.contains_key(id),
        !run_state(s, evs).streams.contains_key(id),
        id <= run_state(s, evs).last,
    decreases evs.len(),
{
    if evs.len() > 0 {
        let s1 = step_state(s, evs[0]);
        lemma_step_wf(s, evs[0]);
        lemma_gone_preserved(s1, evs.drop_first(), id);
    }
}

/// Law (stream termination): the first sentinel for an open stream closes
/// it, and every later notification for that id is ignored.
pub proof fn lemma_stream_termination<Req>(
    s: CorrelationModel<Req>,
    evs: Seq<ClientEvent<Req>>,
    id: u64,
    k: int,
    l: int,
)
    requires
        wf_model(s),
        run_allowed(s, evs),
        s.streams.contains_key(id),
        0 <= k < l < evs.len(),
        evs[k] == (ClientEvent::Notification::<Req> { id, has_params: false }),
        forall|j: int|
            0 <= j < k ==> !(#[trigger] evs[j] matches ClientEvent::Notification {
                id: i,
                has_params,
            } && i == id && !has_params),
        evs[l] matches ClientEvent::Notification { id: i, .. } && i == id,
    ensures
        run_effects(s, evs)[k] == (ClientEffect::StreamClosed::<Req> { id }),
        run_effects(s, evs)[l] == (ClientEffect::NotificationIgnored::<Req> { id }),
{
    lemma_run_effect_at(s, evs, k);
    lemma_run_effect_at(s, evs, l);
    lemma_run_allowed_prefix(s, evs, k);
    assert(forall|j: int| 0 <= j < evs.take(k).len() ==> evs.take(k)[j] == evs[j]);
    lemma_streaming_preserved(s, evs.take(k), id);
    let sk = run_state(s, evs.take(k));
    lemma_run_wf(s, evs.take(k));
    let sk1 = step_state(sk, evs[k]);
    assert(run_state(s, evs.take(k + 1)) == sk1) by {
        lemma_run_state_snoc(s, evs, k);
    }
    lemma_step_wf(sk, evs[k]);
    assert(!sk1.pending.contains_key(id) && !sk1.streams.contains_key(id) && id <= sk1.last);
    let mid = evs.take(l).subrange(k + 1, l);
    assert(run_allowed(sk1, mid)) by {
        lemma_run_allowed_prefix(s, evs, l);
        lemma_run_allowed_concat(s, evs.take(l), k + 1);
        assert(evs.take(l).take(k + 1) =~= evs.take(k + 1));
    }
    lemma_gone_preserved(sk1, mid, id);
    assert(run_state(s, evs.take(l)) == run_state(sk1, mid)) by {
        lemma_run_state_concat(s, evs.take(l), k + 1);
        assert(evs.take(l).take(k + 1) =~= evs.take(k + 1));
    }
}

} // verus!
