use vstd::prelude::*;

use crate::baud::acceptable;
use crate::state::{drained, with_received, SerialStateView};

verus! {

/// A zero baud, on either side, is never acceptable.
pub proof fn lemma_zero_never_acceptable(b: int)
    ensures
        !acceptable(0, b),
        !acceptable(b, 0),
{
}

/// Acceptance survives swapping the two bauds when the reported one is not
/// above the expected one: the tolerance is measured against the smaller.
pub proof fn lemma_acceptable_swap(baud: int, expected: int)
    requires
        acceptable(baud, expected),
        0 < baud <= expected,
    ensures
        acceptable(expected, baud),
{
}

/// The receive buffer is first in, first out, and draining empties it:
/// from an empty buffer, receiving `a` then `b` and draining yields `a + b`,
/// and a second drain right after yields nothing.
pub proof fn lemma_receive_fifo(v: SerialStateView, a: Seq<u8>, b: Seq<u8>)
    requires
        v.buffer.len() == 0,
    ensures
        with_received(with_received(v, a), b).buffer == a + b,
        drained(with_received(with_received(v, a), b)).buffer.len() == 0,
        drained(drained(with_received(with_received(v, a), b))).buffer.len() == 0,
{
    assert(v.buffer + a =~= a);
}

/// How one supervisor step may move the presence of the device name: it
/// appears exactly when Connect is emitted and goes exactly when Disconnect is.
pub open spec fn name_step(before: bool, after: bool, connect: bool, disconnect: bool) -> bool {
    &&& connect <==> (!before && after)
    &&& disconnect <==> (before && !after)
}

/// A run of steps: `present[k]` is whether the name is known before step `k`,
/// `connect[k]` and `disconnect[k]` what step `k` emitted.
pub open spec fn name_trace(present: Seq<bool>, connect: Seq<bool>, disconnect: Seq<bool>) -> bool {
    &&& present.len() == connect.len() + 1
    &&& connect.len() == disconnect.len()
    &&& forall|k: int|
        0 <= k < connect.len() ==> #[trigger] name_step(present[k], present[k + 1], connect[k], disconnect[k])
}

/// Where the name is present at `lo` and absent at `hi`, some step in
/// between emitted Disconnect; where it is absent and then present, some
/// step emitted Connect.
pub proof fn lemma_change_has_event(
    present: Seq<bool>,
    connect: Seq<bool>,
    disconnect: Seq<bool>,
    lo: int,
    hi: int,
)
    requires
        name_trace(present, connect, disconnect),
        0 <= lo <= hi < present.len(),
    ensures
        present[lo] && !present[hi] ==> exists|k: int| lo <= k < hi && #[trigger] disconnect[k],
        !present[lo] && present[hi] ==> exists|k: int| lo <= k < hi && #[trigger] connect[k],
    decreases hi - lo,
{
    if lo < hi {
        lemma_change_has_event(present, connect, disconnect, lo + 1, hi);
        assert(name_step(present[lo], present[lo + 1], connect[lo], disconnect[lo]));
    }
}

/// Between a Connect and the next Connect exactly one Disconnect is emitted.
pub proof fn lemma_one_disconnect_between_connects(
    present: Seq<bool>,
    connect: Seq<bool>,
    disconnect: Seq<bool>,
    i: int,
    j: int,
)
    requires
        name_trace(present, connect, disconnect),
        0 <= i < j < connect.len(),
        connect[i],
        connect[j],
        forall|c: int| i < c < j ==> !#[trigger] connect[c],
    ensures
        exists|k: int| i < k < j && #[trigger] disconnect[k],
        forall|k1: int, k2: int|
            i < k1 < j && i < k2 < j && #[trigger] disconnect[k1] && #[trigger] disconnect[k2] ==> k1 == k2,
{
    assert(name_step(present[i], present[i + 1], connect[i], disconnect[i]));
    assert(name_step(present[j], present[j + 1], connect[j], disconnect[j]));
    lemma_change_has_event(present, connect, disconnect, i + 1, j);
    assert forall|k1: int, k2: int|
        i < k1 < j && i < k2 < j && #[trigger] disconnect[k1] && #[trigger] disconnect[k2] implies k1 == k2 by {
        if k1 != k2 {
            let (a, b) = if k1 < k2 { (k1, k2) } else { (k2, k1) };
            assert(name_step(present[a], present[a + 1], connect[a], disconnect[a]));
            assert(name_step(present[b], present[b + 1], connect[b], disconnect[b]));
            lemma_change_has_event(present, connect, disconnect, a + 1, b);
        }
    }
}

/// Connect and Disconnect alternate: between two Connects lies a
/// Disconnect, between two Disconnects a Connect, and the first of them is
/// Connect when the name was absent at the start (Disconnect when present).
pub open spec fn alternating(present0: bool, connect: Seq<bool>, disconnect: Seq<bool>) -> bool {
    &&& forall|i: int, j: int|
        0 <= i < j < connect.len() && #[trigger] connect[i] && #[trigger] connect[j] ==> exists|k: int|
            i < k < j && #[trigger] disconnect[k]
    &&& forall|i: int, j: int|
        0 <= i < j < disconnect.len() && #[trigger] disconnect[i] && #[trigger] disconnect[j] ==> exists|
            k: int,
        | i < k < j && #[trigger] connect[k]
    &&& !present0 ==> forall|k: int|
        0 <= k < disconnect.len() && #[trigger] disconnect[k] ==> exists|c: int|
            0 <= c < k && #[trigger] connect[c]
    &&& present0 ==> forall|k: int|
        0 <= k < connect.len() && #[trigger] connect[k] ==> exists|d: int|
            0 <= d < k && #[trigger] disconnect[d]
}

/// Every run of steps that obey the name rule emits Connect and Disconnect
/// alternately.
pub proof fn lemma_trace_alternates(present: Seq<bool>, connect: Seq<bool>, disconnect: Seq<bool>)
    requires
        name_trace(present, connect, disconnect),
    ensures
        alternating(present[0], connect, disconnect),
{
    assert forall|i: int, j: int|
        0 <= i < j < connect.len() && #[trigger] connect[i] && #[trigger] connect[j] implies exists|k: int|
            i < k < j && #[trigger] disconnect[k] by {
        assert(name_step(present[i], present[i + 1], connect[i], disconnect[i]));
        assert(name_step(present[j], present[j + 1], connect[j], disconnect[j]));
        lemma_change_has_event(present, connect, disconnect, i + 1, j);
    }
    assert forall|i: int, j: int|
        0 <= i < j < disconnect.len() && #[trigger] disconnect[i] && #[trigger] disconnect[j] implies exists|
            k: int,
        | i < k < j && #[trigger] connect[k] by {
        assert(name_step(present[i], present[i + 1], connect[i], disconnect[i]));
        assert(name_step(present[j], present[j + 1], connect[j], disconnect[j]));
        lemma_change_has_event(present, connect, disconnect, i + 1, j);
    }
    if !present[0] {
        assert forall|k: int| 0 <= k < disconnect.len() && #[trigger] disconnect[k] implies exists|c: int|
            0 <= c < k && #[trigger] connect[c] by {
            assert(name_step(present[k], present[k + 1], connect[k], disconnect[k]));
            lemma_change_has_event(present, connect, disconnect, 0, k);
        }
    } else {
        assert forall|k: int| 0 <= k < connect.len() && #[trigger] connect[k] implies exists|d: int|
            0 <= d < k && #[trigger] disconnect[d] by {
            assert(name_step(present[k], present[k + 1], connect[k], disconnect[k]));
            lemma_change_has_event(present, connect, disconnect, 0, k);
        }
    }
}

/// Without a Connect, a name that was absent stays absent: no session is
/// active, so writes are refused.
pub proof fn lemma_no_connect_no_name(present: Seq<bool>, connect: Seq<bool>, disconnect: Seq<bool>)
    requires
        name_trace(present, connect, disconnect),
        !present[0],
        forall|c: int| 0 <= c < connect.len() ==> !#[trigger] connect[c],
    ensures
        forall|k: int| 0 <= k < present.len() ==> !#[trigger] present[k],
{
    assert forall|k: int| 0 <= k < present.len() implies !#[trigger] present[k] by {
        lemma_change_has_event(present, connect, disconnect, 0, k);
    }
}

} // verus!
