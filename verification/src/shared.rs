//! What threads hand to each other: window close requests, the parameters of a
//! want, and the position of the cursor.
use vstd::prelude::*;

verus! {

/// A value behind a lock. The lock is poisoned once a thread has panicked while
/// holding it, and stays so.
pub struct Shared<T> {
    pub value: T,
    pub poisoned: bool,
}

impl<T> Shared<T> {
    /// A value behind a lock that nobody has held yet.
    pub fn new(value: T) -> (r: Shared<T>)
        ensures
            r.value == value,
            !r.poisoned,
    {
        Shared { value, poisoned: false }
    }

    /// Takes note that a thread panicked while it held the lock.
    pub fn poison(&mut self)
        ensures
            final(self).value == old(self).value,
            final(self).poisoned,
    {
        self.poisoned = true;
    }
}

/// What is in a queue after one more request. A poisoned lock is no obstacle.
pub open spec fn after_notify(queue: Seq<i32>, window_id: i32) -> Seq<i32> {
    queue.push(window_id)
}

/// What draining a queue hands out.
pub open spec fn drained(queue: Seq<i32>, poisoned: bool) -> Seq<i32> {
    if poisoned {
        Seq::empty()
    } else {
        queue
    }
}

/// What is left in a queue after draining it.
pub open spec fn after_drain(queue: Seq<i32>, poisoned: bool) -> Seq<i32> {
    if poisoned {
        queue
    } else {
        Seq::empty()
    }
}

/// Queues a request to close a window. It is queued even if the lock is poisoned.
pub fn notify_window_close(queue: &mut Shared<Vec<i32>>, window_id: i32)
    ensures
        final(queue).value@ == after_notify(old(queue).value@, window_id),
        final(queue).poisoned == old(queue).poisoned,
{
    queue.value.push(window_id);
}

/// Takes all queued requests, oldest first. Behind a poisoned lock they stay where
/// they are, and none is handed out.
pub fn drain_pending_window_closes(queue: &mut Shared<Vec<i32>>) -> (r: Vec<i32>)
    ensures
        r@ == drained(old(queue).value@, old(queue).poisoned),
        final(queue).value@ == after_drain(old(queue).value@, old(queue).poisoned),
        final(queue).poisoned == old(queue).poisoned,
{
    let mut taken: Vec<i32> = Vec::new();
    if !queue.poisoned {
        core::mem::swap(&mut taken, &mut queue.value);
    }
    taken
}

/// Something that is done to the queue of close requests.
pub ghost enum QueueUse {
    Notify(i32),
    Drain,
}

/// The windows that a history asks to close, in order.
pub open spec fn requested(history: Seq<QueueUse>) -> Seq<i32>
    decreases history.len(),
{
    if history.len() == 0 {
        Seq::empty()
    } else {
        match history[0] {
            QueueUse::Notify(window_id) => seq![window_id] + requested(history.skip(1)),
            QueueUse::Drain => requested(history.skip(1)),
        }
    }
}

/// What all the drains of a history hand out, one after the other.
pub open spec fn handed_out(queue: Seq<i32>, history: Seq<QueueUse>) -> Seq<i32>
    decreases history.len(),
{
    if history.len() == 0 {
        Seq::empty()
    } else {
        match history[0] {
            QueueUse::Notify(window_id) => handed_out(
                after_notify(queue, window_id),
                history.skip(1),
            ),
            QueueUse::Drain => drained(queue, false) + handed_out(
                after_drain(queue, false),
                history.skip(1),
            ),
        }
    }
}

/// What is queued after a history.
pub open spec fn queued_after(queue: Seq<i32>, history: Seq<QueueUse>) -> Seq<i32>
    decreases history.len(),
{
    if history.len() == 0 {
        queue
    } else {
        match history[0] {
            QueueUse::Notify(window_id) => queued_after(
                after_notify(queue, window_id),
                history.skip(1),
            ),
            QueueUse::Drain => queued_after(after_drain(queue, false), history.skip(1)),
        }
    }
}

/// Whatever the order of requests and drains, each request is handed out exactly
/// once, in the order of the requests, or is still queued behind those that were.
pub proof fn close_requests_are_first_in_first_out(queue: Seq<i32>, history: Seq<QueueUse>)
    ensures
        handed_out(queue, history) + queued_after(queue, history) == queue + requested(history),
    decreases history.len(),
{
    if history.len() == 0 {
        assert(handed_out(queue, history) + queue =~= queue + requested(history));
    } else {
        let rest = history.skip(1);
        match history[0] {
            QueueUse::Notify(window_id) => {
                close_requests_are_first_in_first_out(after_notify(queue, window_id), rest);
                assert(queue.push(window_id) + requested(rest) =~= queue + (seq![window_id]
                    + requested(rest)));
            },
            QueueUse::Drain => {
                let none = Seq::<i32>::empty();
                close_requests_are_first_in_first_out(none, rest);
                assert(none + requested(rest) =~= requested(rest));
                assert((queue + handed_out(none, rest)) + queued_after(none, rest) =~= queue + (
                handed_out(none, rest) + queued_after(none, rest)));
            },
        }
    }
}

/// A poisoned lock loses no request: draining leaves the queue as it is.
pub proof fn poisoned_queue_keeps_requests(queue: Seq<i32>, window_id: i32)
    ensures
        after_drain(after_notify(queue, window_id), true) == queue.push(window_id),
        drained(after_notify(queue, window_id), true) == Seq::<i32>::empty(),
{
}

/// The pending parameters after storing `json`. Behind a poisoned lock nothing is
/// stored.
pub open spec fn after_store(pending: Seq<char>, poisoned: bool, json: Seq<char>) -> Seq<char> {
    if poisoned {
        pending
    } else {
        json
    }
}

/// What taking the parameters hands out.
pub open spec fn taken(pending: Seq<char>, poisoned: bool) -> Seq<char> {
    if poisoned {
        Seq::empty()
    } else {
        pending
    }
}

/// The pending parameters after they were taken.
pub open spec fn after_take(pending: Seq<char>, poisoned: bool) -> Seq<char> {
    if poisoned {
        pending
    } else {
        Seq::empty()
    }
}

/// Stores the parameters of a want, in place of any that were not taken yet.
pub fn store_want_parameters(slot: &mut Shared<String>, json: &str)
    ensures
        final(slot).value@ == after_store(old(slot).value@, old(slot).poisoned, json@),
        final(slot).poisoned == old(slot).poisoned,
{
    if !slot.poisoned {
        slot.value = json.to_owned();
    }
}

/// Takes the parameters that were stored last and leaves none. They are empty where
/// none are pending, and where the lock is poisoned.
pub fn take_want_parameters(slot: &mut Shared<String>) -> (r: String)
    ensures
        r@ == taken(old(slot).value@, old(slot).poisoned),
        final(slot).value@ == after_take(old(slot).value@, old(slot).poisoned),
        final(slot).poisoned == old(slot).poisoned,
{
    let mut json: String = String::new();
    if !slot.poisoned {
        core::mem::swap(&mut json, &mut slot.value);
    }
    json
}

/// What is stored is what the next take hands out, whatever was pending before, and
/// a second take hands out nothing.
pub proof fn take_gives_last_store_once(pending: Seq<char>, earlier: Seq<char>, json: Seq<char>)
    ensures
        ({
            let stored = after_store(after_store(pending, false, earlier), false, json);
            &&& taken(stored, false) == json
            &&& taken(after_take(stored, false), false) == Seq::<char>::empty()
        }),
{
}

/// The last known position of the cursor: two double-precision numbers, as their
/// bits.
#[derive(Clone, Copy, Debug, PartialEq, Eq, Structural)]
pub struct CursorPosition {
    pub x: u64,
    pub y: u64,
}

impl CursorPosition {
    /// The origin, where the cursor is taken to be until it has moved.
    pub fn new() -> (r: CursorPosition)
        ensures
            r == (CursorPosition { x: 0, y: 0 }),
    {
        CursorPosition { x: 0, y: 0 }
    }
}

/// Takes note of where the cursor is, given the bits of its coordinates.
pub fn update_cursor_position(position: &mut CursorPosition, x: u64, y: u64)
    ensures
        *final(position) == (CursorPosition { x, y }),
{
    position.x = x;
    position.y = y;
}

/// Behind a sound lock a request goes to the end of the queue, and a drain hands out the
/// whole queue and empties it; behind a poisoned one a drain does nothing.
pub proof fn drain_takes_all_or_nothing(queue: Seq<i32>, window_id: i32)
    ensures
        after_notify(queue, window_id) == queue + seq![window_id],
        drained(queue, false) == queue,
        after_drain(queue, false).len() == 0,
        drained(queue, true).len() == 0,
        after_drain(queue, true) == queue,
        drained(queue, false) + after_drain(queue, false) == queue,
        drained(queue, true) + after_drain(queue, true) == queue,
{
    assert(after_notify(queue, window_id) =~= queue + seq![window_id]);
    assert(drained(queue, false) + after_drain(queue, false) =~= queue);
    assert(drained(queue, true) + after_drain(queue, true) =~= queue);
}

/// A poisoned lock keeps the parameters that were pending: nothing is stored, nothing is
/// handed out, and nothing is lost.
pub proof fn poisoned_slot_keeps_parameters(pending: Seq<char>, json: Seq<char>)
    ensures
        after_store(pending, true, json) == pending,
        taken(pending, true).len() == 0,
        after_take(pending, true) == pending,
{
}

/// Behind a sound lock what is pending is what is handed out, and then it is gone.
pub proof fn take_hands_over_pending(pending: Seq<char>)
    ensures
        taken(pending, false) == pending,
        after_take(pending, false).len() == 0,
{
}

} // verus!
