//! Properties of the exchange protocol, stated over the abstract states that
//! the operations' contracts use.

use vstd::prelude::*;

use crate::buffer::BufferView;
use crate::exchange::ExchangeView;

verus! {

/// The buffer after the requests `reqs`, made in order.
pub open spec fn ensured_all(v: BufferView, reqs: Seq<nat>) -> BufferView
    decreases reqs.len(),
{
    if reqs.len() == 0 {
        v
    } else {
        ensured_all(v, reqs.drop_last()).ensured(reqs.last())
    }
}

/// One inbound exchange of the message `p`: the host asks for a region of
/// `p.len()` bytes, writes `p` there, then calls `accept` with `p.len()`.
pub open spec fn inbound_round(v: ExchangeView, p: Seq<u8>) -> ExchangeView {
    let w = v.requested(p.len()).host_wrote(p);
    match w.accepted(p.len()) {
        Some(a) => a,
        None => w,
    }
}

/// The inbound exchanges of the messages `ps`, in order.
pub open spec fn inbound_rounds(v: ExchangeView, ps: Seq<Seq<u8>>) -> ExchangeView
    decreases ps.len(),
{
    if ps.len() == 0 {
        v
    } else {
        inbound_round(inbound_rounds(v, ps.drop_last()), ps.last())
    }
}

/// After a send, the region holds at least the message's length, and its
/// first `m.len()` bytes (what the host reads at the reported base address
/// and length) are exactly `m`.
pub proof fn lemma_sent_message_readable(v: ExchangeView, m: Seq<u8>)
    ensures
        v.sent(m).buffer.capacity() >= m.len(),
        v.sent(m).inbound(m.len()) == m,
{
    let g = v.buffer.ensured(m.len());
    assert(g.capacity() >= m.len());
    assert(v.sent(m).inbound(m.len()) =~= m);
}

/// A request never lowers the capacity, and a second request for no more
/// than the capacity the first one left changes nothing: same capacity, same
/// region, same base address.
pub proof fn lemma_request_within_capacity_keeps_region(v: BufferView, n: nat, m: nat)
    ensures
        v.ensured(n).capacity() >= v.capacity(),
        v.ensured(n).capacity() >= n,
        m <= v.ensured(n).capacity() ==> v.ensured(n).ensured(m) == v.ensured(n),
{
}

/// Across any sequence of requests, capacity and region number never
/// decrease: the state after a prefix of the requests has no more capacity,
/// and no later region number, than the state after a longer prefix.
pub proof fn lemma_capacity_monotone(v: BufferView, reqs: Seq<nat>, i: int, j: int)
    requires
        0 <= i <= j <= reqs.len(),
    ensures
        ensured_all(v, reqs.take(i)).capacity() <= ensured_all(v, reqs.take(j)).capacity(),
        ensured_all(v, reqs.take(i)).region <= ensured_all(v, reqs.take(j)).region,
    decreases j - i,
{
    if i < j {
        lemma_capacity_monotone(v, reqs, i, j - 1);
        assert(reqs.take(j).drop_last() =~= reqs.take(j - 1));
    }
}

/// A request beyond the capacity gives a region of exactly the requested
/// size, under a number that no earlier region had.
pub proof fn lemma_growth_replaces_region(v: BufferView, n: nat)
    requires
        n > v.capacity(),
    ensures
        v.ensured(n).capacity() == n,
        v.ensured(n).region > v.region,
{
}

/// `accept` with length zero gives the processor one empty message and
/// leaves the region as it was.
pub proof fn lemma_accept_empty(v: ExchangeView)
    requires
        v.received is Some,
    ensures
        v.accepted(0) == Some(ExchangeView { received: Some(v.received->Some_0.push(Seq::<u8>::empty())), ..v }),
{
    assert(v.inbound(0) =~= Seq::<u8>::empty());
}

/// With no processor registered, `accept` for a message that the region
/// holds succeeds and delivers nothing.
pub proof fn lemma_accept_without_processor(v: ExchangeView, len: nat)
    requires
        v.received is None,
        len <= v.buffer.capacity(),
    ensures
        v.accepted(len) == Some(v),
{
}

/// Inbound exchanges with a processor registered deliver exactly the
/// messages the host wrote, in call order.
pub proof fn lemma_inbound_rounds_deliver_in_order(v: ExchangeView, ps: Seq<Seq<u8>>)
    requires
        v.received is Some,
    ensures
        inbound_rounds(v, ps).received is Some,
        inbound_rounds(v, ps).received->Some_0 == v.received->Some_0 + ps,
    decreases ps.len(),
{
    if ps.len() == 0 {
        assert(v.received->Some_0 + ps =~= v.received->Some_0);
    } else {
        let prev = inbound_rounds(v, ps.drop_last());
        lemma_inbound_rounds_deliver_in_order(v, ps.drop_last());
        let p = ps.last();
        let r = prev.requested(p.len());
        assert(r.buffer.capacity() >= p.len());
        let w = r.host_wrote(p);
        assert(w.buffer.capacity() == r.buffer.capacity());
        assert(w.inbound(p.len()) =~= p);
        assert(v.received->Some_0 + ps =~= (v.received->Some_0 + ps.drop_last()).push(p));
    }
}

} // verus!
