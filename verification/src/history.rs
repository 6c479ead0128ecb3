//! The per-instance event protocol.
//!
//! Every container instance emits a stream of events: one creation event
//! first, then zero or more capacity-change events, and — when the instance
//! is destroyed or consumed — one destruction event last. `live_wf` describes
//! the stream of a live instance; `closed_wf` the complete stream of a
//! destroyed one. The lemmas below state the protocol's guarantees: exactly
//! one creation and one destruction event per instance, capacity-change
//! events strictly between them, each one a genuine change whose old value is
//! the capacity the previous event left behind.

use vstd::prelude::*;

use crate::event::{ArrayInfo, Message};

verus! {

/// The event stream of a live instance with metadata `info` whose realized
/// capacity is now `cap`: a creation event first, then only capacity-change
/// events, each chained to the capacity left by the event before it, each a
/// genuine change, the last one leaving `cap`.
pub open spec fn live_wf(h: Seq<Message>, info: ArrayInfo, cap: usize) -> bool {
    &&& h.len() >= 1
    &&& h[0] is New
    &&& h[0].info() == info
    &&& forall|k: int| 1 <= k < h.len() ==> (#[trigger] h[k]) is Resize
    &&& forall|k: int| 1 <= k < h.len() ==> (#[trigger] h[k]).info() == info
    &&& forall|k: int| 1 <= k < h.len() ==> (#[trigger] h[k])->Resize_1 == h[k - 1].cap_after()
    &&& forall|k: int| 1 <= k < h.len() ==> (#[trigger] h[k])->Resize_1 != h[k]->Resize_2
    &&& h.last().cap_after() == cap
}

/// The complete event stream of an instance that was destroyed while holding
/// capacity `cap`: a live stream followed by the one destruction event.
pub open spec fn closed_wf(h: Seq<Message>, info: ArrayInfo, cap: usize) -> bool {
    &&& h.len() >= 2
    &&& live_wf(h.drop_last(), info, cap)
    &&& h.last() == Message::Drop(info, cap)
}

/// How many creation events a stream holds.
pub open spec fn count_new(h: Seq<Message>) -> nat
    decreases h.len(),
{
    if h.len() == 0 {
        0
    } else {
        count_new(h.drop_last()) + if h.last() is New {
            1nat
        } else {
            0nat
        }
    }
}

/// How many destruction events a stream holds.
pub open spec fn count_drop(h: Seq<Message>) -> nat
    decreases h.len(),
{
    if h.len() == 0 {
        0
    } else {
        count_drop(h.drop_last()) + if h.last() is Drop {
            1nat
        } else {
            0nat
        }
    }
}

/// A live stream holds exactly one creation event and no destruction event.
pub proof fn lemma_live_counts(h: Seq<Message>, info: ArrayInfo, cap: usize)
    requires
        live_wf(h, info, cap),
    ensures
        count_new(h) == 1,
        count_drop(h) == 0,
    decreases h.len(),
{
    assert(h.last() == h[h.len() - 1]);
    if h.len() == 1 {
        assert(h[0] is New);
        assert(h.drop_last().len() == 0);
        assert(count_new(h.drop_last()) == 0);
        assert(count_drop(h.drop_last()) == 0);
    } else {
        let prefix = h.drop_last();
        assert(h[h.len() - 1] is Resize);
        assert(prefix[0] == h[0]);
        assert forall|k: int| 1 <= k < prefix.len() implies {
            &&& (#[trigger] prefix[k]) is Resize
            &&& prefix[k].info() == info
            &&& prefix[k]->Resize_1 == prefix[k - 1].cap_after()
            &&& prefix[k]->Resize_1 != prefix[k]->Resize_2
        } by {
            assert(prefix[k] == h[k]);
            assert(prefix[k - 1] == h[k - 1]);
            assert(h[k] is Resize);
            assert(h[k]->Resize_1 == h[k - 1].cap_after());
            assert(h[k]->Resize_1 != h[k]->Resize_2);
        }
        assert(prefix.last() == h[h.len() - 2]);
        lemma_live_counts(prefix, info, prefix.last().cap_after());
    }
}

/// The full stream of a destroyed instance holds exactly one creation event
/// — the first — and exactly one destruction event — the last; every other
/// event is a capacity change, so all capacity changes lie strictly between
/// creation and destruction, in emission order.
pub proof fn lemma_lifecycle(h: Seq<Message>, info: ArrayInfo, cap: usize)
    requires
        closed_wf(h, info, cap),
    ensures
        count_new(h) == 1,
        count_drop(h) == 1,
        h[0] is New,
        h.last() is Drop,
        forall|k: int| 0 < k < h.len() - 1 ==> (#[trigger] h[k]) is Resize,
        forall|k: int| 0 <= k < h.len() ==> (#[trigger] h[k]).info() == info,
{
    lemma_live_counts(h.drop_last(), info, cap);
    assert(h.last() == h[h.len() - 1]);
    assert forall|k: int| 0 < k < h.len() - 1 implies (#[trigger] h[k]) is Resize by {
        assert(h.drop_last()[k] == h[k]);
        assert(h.drop_last()[k] is Resize);
    }
    assert forall|k: int| 0 <= k < h.len() implies (#[trigger] h[k]).info() == info by {
        if k < h.len() - 1 {
            assert(h.drop_last()[k] == h[k]);
            if k >= 1 {
                assert(h.drop_last()[k].info() == info);
            }
        }
    }
}

/// A live stream stays well-formed under a genuine capacity transition: the
/// capacity-change event from the stream's current capacity to a different
/// one extends it into a live stream at the new capacity.
pub proof fn lemma_live_extend(h: Seq<Message>, info: ArrayInfo, cap: usize, new_cap: usize)
    requires
        live_wf(h, info, cap),
        new_cap != cap,
    ensures
        live_wf(h.push(Message::Resize(info, cap, new_cap)), info, new_cap),
{
    let e = Message::Resize(info, cap, new_cap);
    let h2 = h.push(e);
    assert(h2[0] == h[0]);
    assert(h2.last() == e);
    assert(h.last() == h[h.len() - 1]);
    assert forall|k: int| 1 <= k < h2.len() implies {
        &&& (#[trigger] h2[k]) is Resize
        &&& h2[k].info() == info
        &&& h2[k]->Resize_1 == h2[k - 1].cap_after()
        &&& h2[k]->Resize_1 != h2[k]->Resize_2
    } by {
        if k < h.len() {
            assert(h2[k] == h[k]);
            assert(h2[k - 1] == h[k - 1]);
            assert(h[k] is Resize);
            assert(h[k]->Resize_1 == h[k - 1].cap_after());
            assert(h[k]->Resize_1 != h[k]->Resize_2);
        } else {
            assert(h2[k] == e);
            assert(h2[k - 1] == h[k - 1]);
        }
    }
}

/// No event records a no-op resize: in a well-formed stream every
/// capacity-change event moves from the capacity the previous event left to
/// a genuinely different one.
pub proof fn lemma_no_noop_resize(h: Seq<Message>, info: ArrayInfo, cap: usize, k: int)
    requires
        live_wf(h, info, cap),
        1 <= k < h.len(),
    ensures
        h[k] is Resize,
        h[k]->Resize_1 != h[k]->Resize_2,
        h[k]->Resize_1 == h[k - 1].cap_after(),
{
}

} // verus!
