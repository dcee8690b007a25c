use vstd::prelude::*;

use crate::libusb::{libusb_transfer, libusb_transfer_status, libusb_transfer_type};
use crate::usb::{fresh_transfer, zeros, DeviceHandle};

verus! {

/// Where one slot of a stream stands.
#[derive(Clone, Copy, Debug, PartialEq, Eq, Structural)]
pub enum SlotState {
    /// Submitted, or about to be resubmitted: the transport owns its buffer.
    InFlight,
    /// Stopped for good; its transfer and buffer may be freed.
    Retired,
}

/// Number of slots of `s` that are in flight.
pub open spec fn in_flight_count(s: Seq<SlotState>) -> nat
    decreases s.len(),
{
    if s.len() == 0 {
        0
    } else {
        in_flight_count(s.drop_last()) + if s.last() == SlotState::InFlight {
            1nat
        } else {
            0nat
        }
    }
}

/// The slots after slot `slot` completed, resubmitted or not.
pub open spec fn after_completion(s: Seq<SlotState>, slot: int, resubmit: bool) -> Seq<SlotState> {
    s.update(slot, if resubmit { SlotState::InFlight } else { SlotState::Retired })
}

/// Whether a completed slot goes round again: only when the transfer
/// completed and the consumer asked to keep going.
pub open spec fn resubmits(status: libusb_transfer_status, keep_going: bool) -> bool {
    status == libusb_transfer_status::LIBUSB_TRANSFER_COMPLETED && keep_going
}

proof fn lemma_count_update(s: Seq<SlotState>, i: int, v: SlotState)
    requires
        0 <= i < s.len(),
    ensures
        in_flight_count(s.update(i, v)) + (if s[i] == SlotState::InFlight {
            1int
        } else {
            0int
        }) == in_flight_count(s) + (if v == SlotState::InFlight {
            1int
        } else {
            0int
        }),
    decreases s.len(),
{
    let u = s.update(i, v);
    if i == s.len() - 1 {
        assert(u.drop_last() =~= s.drop_last());
    } else {
        assert(u.drop_last() =~= s.drop_last().update(i, v));
        lemma_count_update(s.drop_last(), i, v);
    }
}

proof fn lemma_count_push(s: Seq<SlotState>, v: SlotState)
    ensures
        in_flight_count(s.push(v)) == in_flight_count(s) + if v == SlotState::InFlight {
            1nat
        } else {
            0nat
        },
{
    assert(s.push(v).drop_last() =~= s);
}

proof fn lemma_count_bound(s: Seq<SlotState>)
    ensures
        in_flight_count(s) <= s.len(),
    decreases s.len(),
{
    if s.len() > 0 {
        lemma_count_bound(s.drop_last());
    }
}

/// No slot is in flight exactly when every slot is retired.
pub proof fn lemma_count_zero_iff_all_retired(s: Seq<SlotState>)
    ensures
        in_flight_count(s) == 0 <==> forall|i: int|
            0 <= i < s.len() ==> #[trigger] s[i] == SlotState::Retired,
    decreases s.len(),
{
    if s.len() > 0 {
        lemma_count_zero_iff_all_retired(s.drop_last());
        if in_flight_count(s) == 0 {
            assert forall|i: int| 0 <= i < s.len() implies #[trigger] s[i] == SlotState::Retired by {
                if i < s.len() - 1 {
                    assert(s[i] == s.drop_last()[i]);
                }
            }
        }
        if forall|i: int| 0 <= i < s.len() ==> #[trigger] s[i] == SlotState::Retired {
            assert forall|i: int| 0 <= i < s.drop_last().len() implies #[trigger] s.drop_last()[i]
                == SlotState::Retired by {
                assert(s.drop_last()[i] == s[i]);
            }
            assert(s[s.len() - 1] == SlotState::Retired);
        }
    }
}

/// The slots after the slots of `order` have completed, one after another,
/// each with a stop.
pub open spec fn retire_in_order(s: Seq<SlotState>, order: Seq<int>) -> Seq<SlotState>
    decreases order.len(),
{
    if order.len() == 0 {
        s
    } else {
        after_completion(retire_in_order(s, order.drop_last()), order.last(), false)
    }
}

/// `n` slots, all in flight.
pub open spec fn all_in_flight(n: nat) -> Seq<SlotState> {
    Seq::new(n, |i: int| SlotState::InFlight)
}

/// A completion that resubmits its slot leaves the stream as it was.
pub proof fn lemma_resubmit_keeps_stream(s: Seq<SlotState>, slot: int)
    requires
        0 <= slot < s.len(),
        s[slot] == SlotState::InFlight,
    ensures
        after_completion(s, slot, true) == s,
{
    assert(after_completion(s, slot, true) =~= s);
}

/// From any state of a stream, when slots in flight complete one after
/// another in `order`, each once and each with a stop, every stop retires
/// exactly one slot; the stream ends exactly when every slot that was in
/// flight has stopped.
pub proof fn lemma_stream_ends_after_every_slot_stops(s: Seq<SlotState>, order: Seq<int>, k: nat)
    requires
        forall|i: int| 0 <= i < order.len() ==> 0 <= #[trigger] order[i] < s.len(),
        forall|i: int| 0 <= i < order.len() ==> s[#[trigger] order[i]] == SlotState::InFlight,
        forall|i: int, j: int| 0 <= i < j < order.len() ==> order[i] != order[j],
        order.len() == in_flight_count(s),
        k <= order.len(),
    ensures
        in_flight_count(retire_in_order(s, order.take(k as int))) == in_flight_count(s) - k,
        in_flight_count(retire_in_order(s, order.take(k as int))) == 0 <==> k == order.len(),
{
    lemma_retire_prefix(s, order, k);
}

/// A stream of `n` slots all in flight ends exactly after the `n`-th of `n`
/// stops, one on each slot.
pub proof fn lemma_fresh_stream_ends_after_every_slot_stops(n: nat, order: Seq<int>, k: nat)
    requires
        order.len() == n,
        forall|i: int| 0 <= i < n ==> 0 <= #[trigger] order[i] < n,
        forall|i: int, j: int| 0 <= i < j < n ==> order[i] != order[j],
        k <= n,
    ensures
        in_flight_count(retire_in_order(all_in_flight(n), order.take(k as int))) == n - k,
        in_flight_count(retire_in_order(all_in_flight(n), order.take(k as int))) == 0 <==> k == n,
{
    lemma_all_in_flight_count(n);
    lemma_stream_ends_after_every_slot_stops(all_in_flight(n), order, k);
}

proof fn lemma_retire_prefix(s: Seq<SlotState>, order: Seq<int>, k: nat)
    requires
        forall|i: int| 0 <= i < order.len() ==> 0 <= #[trigger] order[i] < s.len(),
        forall|i: int| 0 <= i < order.len() ==> s[#[trigger] order[i]] == SlotState::InFlight,
        forall|i: int, j: int| 0 <= i < j < order.len() ==> order[i] != order[j],
        k <= order.len(),
    ensures
        retire_in_order(s, order.take(k as int)).len() == s.len(),
        in_flight_count(retire_in_order(s, order.take(k as int))) == in_flight_count(s) - k,
        in_flight_count(s) >= k,
        forall|j: int|
            k <= j < order.len() ==> retire_in_order(s, order.take(k as int))[#[trigger] order[j]]
                == SlotState::InFlight,
    decreases k,
{
    if k == 0 {
        assert(order.take(0) =~= Seq::<int>::empty());
    } else {
        lemma_retire_prefix(s, order, (k - 1) as nat);
        let prev = retire_in_order(s, order.take(k - 1));
        assert(order.take(k as int).drop_last() =~= order.take(k - 1));
        assert(order.take(k as int).last() == order[k - 1]);
        let slot = order[k - 1];
        assert(prev[slot] == SlotState::InFlight);
        lemma_count_update(prev, slot, SlotState::Retired);
        let cur = retire_in_order(s, order.take(k as int));
        assert(cur == prev.update(slot, SlotState::Retired));
        assert forall|j: int| k <= j < order.len() implies cur[#[trigger] order[j]]
            == SlotState::InFlight by {
            assert(order[j] != order[k - 1]);
            assert(prev[order[j]] == SlotState::InFlight);
        }
    }
}

/// In any state, a completion that retires a slot in flight lowers the
/// number of slots in flight by exactly one; one that resubmits leaves it.
pub proof fn lemma_completion_count(s: Seq<SlotState>, slot: int, resubmit: bool)
    requires
        0 <= slot < s.len(),
        s[slot] == SlotState::InFlight,
    ensures
        in_flight_count(after_completion(s, slot, resubmit)) == in_flight_count(s) - (if resubmit {
            0int
        } else {
            1int
        }),
{
    if resubmit {
        lemma_resubmit_keeps_stream(s, slot);
    } else {
        lemma_count_update(s, slot, SlotState::Retired);
    }
}

/// In any state, a completion with any other status than
/// `LIBUSB_TRANSFER_COMPLETED` retires its slot, whatever the consumer answered.
pub proof fn lemma_failed_completion_retires(
    s: Seq<SlotState>,
    slot: int,
    status: libusb_transfer_status,
    keep_going: bool,
)
    requires
        0 <= slot < s.len(),
        s[slot] == SlotState::InFlight,
        status != libusb_transfer_status::LIBUSB_TRANSFER_COMPLETED,
    ensures
        !resubmits(status, keep_going),
        after_completion(s, slot, resubmits(status, keep_going))[slot] == SlotState::Retired,
        in_flight_count(after_completion(s, slot, resubmits(status, keep_going))) == in_flight_count(s) - 1,
{
    lemma_completion_count(s, slot, false);
}

proof fn lemma_all_in_flight_count(n: nat)
    ensures
        in_flight_count(all_in_flight(n)) == n,
    decreases n,
{
    if n > 0 {
        assert(all_in_flight(n).drop_last() =~= all_in_flight((n - 1) as nat));
        lemma_all_in_flight_count((n - 1) as nat);
    }
}

/// The decisions of a stream: a fixed pool of slots kept in rotation on one
/// endpoint. Each completion goes to the consumer; the slot then goes round
/// again or retires, and the stream ends when no slot is left in flight.
pub struct Stream {
    slots: Vec<SlotState>,
    active: usize,
}

impl View for Stream {
    type V = Seq<SlotState>;

    closed spec fn view(&self) -> Seq<SlotState> {
        self.slots@
    }
}

impl Stream {
    /// The counter of active slots counts the slots in flight.
    pub closed spec fn wf(&self) -> bool {
        self.active == in_flight_count(self.slots@)
    }

    /// A read stream of `num_slots` slots, all submitted at once.
    pub fn read_stream(num_slots: usize) -> (r: Stream)
        ensures
            r.wf(),
            r@ == all_in_flight(num_slots as nat),
    {
        let mut slots: Vec<SlotState> = Vec::with_capacity(num_slots);
        let mut i: usize = 0;
        while i < num_slots
            invariant
                i <= num_slots,
                slots@ == all_in_flight(i as nat),
            decreases num_slots - i,
        {
            slots.push(SlotState::InFlight);
            i = i + 1;
            assert(slots@ =~= all_in_flight(i as nat));
        }
        proof {
            lemma_all_in_flight_count(num_slots as nat);
        }
        Stream { slots, active: num_slots }
    }

    /// A write stream whose slots the consumer has filled first: slot `i` is
    /// submitted when the consumer asked to go on (`primed[i]`), and never
    /// submitted when it asked to stop.
    pub fn write_stream(primed: &Vec<bool>) -> (r: Stream)
        ensures
            r.wf(),
            r@.len() == primed@.len(),
            forall|i: int|
                0 <= i < primed@.len() ==> (#[trigger] r@[i] == SlotState::InFlight <==> primed@[i]),
    {
        let n = primed.len();
        let mut slots: Vec<SlotState> = Vec::with_capacity(n);
        let mut active: usize = 0;
        let mut i: usize = 0;
        while i < n
            invariant
                n == primed@.len(),
                i <= n,
                slots@.len() == i,
                forall|j: int| 0 <= j < i ==> (#[trigger] slots@[j] == SlotState::InFlight <==> primed@[j]),
                active == in_flight_count(slots@),
            decreases n - i,
        {
            let v = if primed[i] {
                SlotState::InFlight
            } else {
                SlotState::Retired
            };
            proof {
                lemma_count_push(slots@, v);
                lemma_count_bound(slots@);
            }
            slots.push(v);
            if primed[i] {
                active = active + 1;
            }
            i = i + 1;
        }
        Stream { slots, active }
    }

    /// Number of slots.
    pub fn num_slots(&self) -> (r: usize)
        ensures
            r == self@.len(),
    {
        self.slots.len()
    }

    /// Whether slot `slot` is in flight.
    pub fn is_in_flight(&self, slot: usize) -> (r: bool)
        requires
            slot < self@.len(),
        ensures
            r == (self@[slot as int] == SlotState::InFlight),
    {
        self.slots[slot] == SlotState::InFlight
    }

    /// Number of slots in flight.
    pub fn active(&self) -> (r: usize)
        requires
            self.wf(),
        ensures
            r == in_flight_count(self@),
    {
        self.active
    }

    /// Whether the stream has ended: no slot is left in flight.
    pub fn finished(&self) -> (r: bool)
        requires
            self.wf(),
        ensures
            r == (in_flight_count(self@) == 0),
    {
        self.active == 0
    }

    /// Slot `slot` completed with `status`, and the consumer answered
    /// `keep_going`. Returns whether to resubmit the slot's transfer: only on
    /// a completed transfer that the consumer wants to go on with. Any other
    /// status retires the slot, whatever the consumer answered.
    pub fn completed(&mut self, slot: usize, status: libusb_transfer_status, keep_going: bool) -> (resubmit: bool)
        requires
            old(self).wf(),
            slot < old(self)@.len(),
            old(self)@[slot as int] == SlotState::InFlight,
        ensures
            final(self).wf(),
            resubmit == resubmits(status, keep_going),
            final(self)@ == after_completion(old(self)@, slot as int, resubmit),
            in_flight_count(final(self)@) == in_flight_count(old(self)@) - (if resubmit {
                0int
            } else {
                1int
            }),
    {
        let resubmit = status == libusb_transfer_status::LIBUSB_TRANSFER_COMPLETED && keep_going;
        proof {
            lemma_completion_count(self.slots@, slot as int, resubmit);
        }
        if !resubmit {
            proof {
                lemma_count_update(self.slots@, slot as int, SlotState::Retired);
            }
            self.slots.set(slot, SlotState::Retired);
            self.active = self.active - 1;
        } else {
            proof {
                lemma_resubmit_keeps_stream(self.slots@, slot as int);
            }
        }
        resubmit
    }
}

impl DeviceHandle {
    /// The `num_slots` transfers of a stream on `endpoint`: each with a
    /// buffer of its own of `size` bytes, none submitted yet.
    pub fn stream_transfers(
        &self,
        endpoint: u8,
        transfer_type: libusb_transfer_type,
        size: usize,
        num_slots: usize,
    ) -> (r: Vec<libusb_transfer>)
        ensures
            r@.len() == num_slots,
            forall|i: int|
                0 <= i < num_slots ==> fresh_transfer(
                    #[trigger] r@[i],
                    self.dev,
                    endpoint,
                    transfer_type,
                    0,
                ) && r@[i].buffer@ == zeros(size as nat),
    {
        let mut r: Vec<libusb_transfer> = Vec::with_capacity(num_slots);
        let mut i: usize = 0;
        while i < num_slots
            invariant
                i <= num_slots,
                r@.len() == i,
                forall|j: int|
                    0 <= j < i ==> fresh_transfer(
                        #[trigger] r@[j],
                        self.dev,
                        endpoint,
                        transfer_type,
                        0,
                    ) && r@[j].buffer@ == zeros(size as nat),
            decreases num_slots - i,
        {
            let t = self.read(endpoint, transfer_type, size, 0);
            r.push(t);
            i = i + 1;
        }
        r
    }
}

} // verus!
