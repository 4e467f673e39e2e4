//! The order in which decoded events are handed to registered handlers.

use vstd::prelude::*;

verus! {

/// The handler calls for `events` events and `handlers` handlers, as pairs
/// (event index, handler index): each event in arrival order, and for each
/// event every handler in registration order.
pub open spec fn fan_out(events: nat, handlers: nat) -> Seq<(usize, usize)>
    decreases events,
{
    if events == 0 {
        Seq::empty()
    } else {
        fan_out((events - 1) as nat, handlers) + Seq::new(
            handlers,
            |h: int| ((events - 1) as usize, h as usize),
        )
    }
}

/// Call `e * handlers + h` of a fan-out hands event `e` to handler `h`: every
/// handler sees every event, handlers are called in registration order for
/// each event, and no call for a later event comes before one for an
/// earlier event.
pub proof fn lemma_fan_out_order(events: nat, handlers: nat, e: nat, h: nat)
    requires
        e < events,
        h < handlers,
    ensures
        fan_out(events, handlers).len() == events * handlers,
        fan_out(events, handlers)[(e * handlers + h) as int] == (e as usize, h as usize),
    decreases events,
{
    lemma_fan_out_len(events, handlers);
    let prev = (events - 1) as nat;
    lemma_fan_out_len(prev, handlers);
    assert(prev * handlers + handlers == events * handlers) by (nonlinear_arith)
        requires
            prev == events - 1,
    ;
    if e < prev {
        lemma_fan_out_order(prev, handlers, e, h);
        assert(e * handlers + h < prev * handlers) by (nonlinear_arith)
            requires
                e < prev,
                h < handlers,
        ;
    } else {
        assert(e * handlers == prev * handlers);
    }
}

/// A fan-out makes one call per event and handler.
proof fn lemma_fan_out_len(events: nat, handlers: nat)
    ensures
        fan_out(events, handlers).len() == events * handlers,
    decreases events,
{
    if events > 0 {
        let prev = (events - 1) as nat;
        lemma_fan_out_len(prev, handlers);
        assert(prev * handlers + handlers == events * handlers) by (nonlinear_arith)
            requires
                prev == events - 1,
        ;
    }
}

/// The handler calls to make for a batch of decoded events, in order.
pub fn dispatch_order(event_count: usize, handler_count: usize) -> (calls: Vec<(usize, usize)>)
    ensures
        calls@ == fan_out(event_count as nat, handler_count as nat),
{
    let mut calls: Vec<(usize, usize)> = Vec::new();
    let mut e: usize = 0;
    while e < event_count
        invariant
            e <= event_count,
            calls@ == fan_out(e as nat, handler_count as nat),
        decreases event_count - e,
    {
        let ghost start = calls@;
        let mut h: usize = 0;
        while h < handler_count
            invariant
                h <= handler_count,
                e < event_count,
                calls@ == start + Seq::new(h as nat, |j: int| (e, j as usize)),
            decreases handler_count - h,
        {
            calls.push((e, h));
            assert(calls@ =~= start + Seq::new((h + 1) as nat, |j: int| (e, j as usize)));
            h = h + 1;
        }
        assert(calls@ =~= fan_out((e + 1) as nat, handler_count as nat));
        e = e + 1;
    }
    calls
}

} // verus!
