//! What all the apps of a process share.
use vstd::prelude::*;
use crate::platform::Platform;

verus! {

/// The number that comes after `id`, starting over at the smallest one.
pub open spec fn next_id(id: i64) -> i64 {
    if id == i64::MAX {
        i64::MIN
    } else {
        (id + 1) as i64
    }
}

/// The number that is handed out `n` numbers after `first`.
pub open spec fn nth_id(first: i64, n: nat) -> i64
    decreases n,
{
    if n == 0 {
        first
    } else {
        next_id(nth_id(first, (n - 1) as nat))
    }
}

/// What all the apps of a process share.
#[verifier::reject_recursive_types(P)]
pub struct Process<P: Platform> {
    /// The number of the next app.
    pub next_app_id: i64,
    /// Whether some app has an event handler.
    pub has_event: bool,
    pub resource_manager: Option<P::ResourceManager>,
    pub waker: P::Waker,
}

impl<P: Platform> Process<P> {
    /// A process without apps.
    pub fn new(waker: P::Waker) -> (r: Process<P>)
        ensures
            r == (Process::<P> {
                next_app_id: 0,
                has_event: false,
                resource_manager: None,
                waker,
            }),
    {
        Process { next_app_id: 0, has_event: false, resource_manager: None, waker }
    }

    /// Hands out the number of a new app.
    pub fn allocate_id(&mut self) -> (r: i64)
        ensures
            r == old(self).next_app_id,
            *final(self) == (Process { next_app_id: next_id(old(self).next_app_id), ..*old(self) }),
    {
        let id: i64 = self.next_app_id;
        self.next_app_id = if id == i64::MAX {
            i64::MIN
        } else {
            id + 1
        };
        id
    }
}

/// How many numbers lie between `first` and `id`, going up and around.
pub open spec fn id_distance(first: i64, id: i64) -> int {
    if id >= first {
        id - first
    } else {
        id - first + 0x1_0000_0000_0000_0000
    }
}

proof fn nth_id_distance(first: i64, n: nat)
    requires
        n < 0x1_0000_0000_0000_0000,
    ensures
        id_distance(first, nth_id(first, n)) == n,
    decreases n,
{
    if n > 0 {
        nth_id_distance(first, (n - 1) as nat);
    }
}

/// No two apps of a process get the same number, up to the point where all 64-bit
/// numbers are used up.
pub proof fn app_ids_are_distinct(first: i64, m: nat, n: nat)
    requires
        m < n < 0x1_0000_0000_0000_0000,
    ensures
        nth_id(first, m) != nth_id(first, n),
{
    nth_id_distance(first, m);
    nth_id_distance(first, n);
}

/// Numbers go up one by one, and start over at the smallest after the largest.
pub proof fn ids_go_up_by_one(id: i64)
    ensures
        id < i64::MAX ==> next_id(id) == id + 1,
        id == i64::MAX ==> next_id(id) == i64::MIN,
        next_id(id) != id,
        nth_id(id, 0) == id,
        nth_id(id, 1) == next_id(id),
{
    reveal_with_fuel(nth_id, 2);
}

} // verus!
