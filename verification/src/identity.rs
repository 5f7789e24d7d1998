//! Apps are told apart, and ordered, by their numbers.
use core::cmp::Ordering;
use vstd::prelude::*;
use vstd::std_specs::cmp::{PartialEqSpecImpl, PartialOrdSpecImpl};
use crate::app::OpenHarmonyApp;
use crate::inner::{AppState, OpenHarmonyAppInner};
use crate::platform::Platform;

verus! {

impl<P: Platform> AppState<P> {
    /// Whether two states are those of the same app.
    pub open spec fn same_app(self, other: AppState<P>) -> bool {
        self.id == other.id
    }

    /// How two apps compare.
    pub open spec fn compared(self, other: AppState<P>) -> Ordering {
        if self.id < other.id {
            Ordering::Less
        } else if self.id == other.id {
            Ordering::Equal
        } else {
            Ordering::Greater
        }
    }
}

impl<P: Platform> PartialEq for OpenHarmonyAppInner<P> {
    fn eq(&self, other: &OpenHarmonyAppInner<P>) -> (r: bool) {
        self.id() == other.id()
    }
}

impl<P: Platform> PartialEqSpecImpl for OpenHarmonyAppInner<P> {
    open spec fn obeys_eq_spec() -> bool {
        true
    }

    open spec fn eq_spec(&self, other: &OpenHarmonyAppInner<P>) -> bool {
        self@.same_app(other@)
    }
}

impl<P: Platform> Eq for OpenHarmonyAppInner<P> {

}

impl<P: Platform> PartialOrd for OpenHarmonyAppInner<P> {
    fn partial_cmp(&self, other: &OpenHarmonyAppInner<P>) -> (r: Option<Ordering>) {
        Some(self.cmp(other))
    }
}

impl<P: Platform> PartialOrdSpecImpl for OpenHarmonyAppInner<P> {
    open spec fn obeys_partial_cmp_spec() -> bool {
        true
    }

    open spec fn partial_cmp_spec(&self, other: &OpenHarmonyAppInner<P>) -> Option<Ordering> {
        Some(self@.compared(other@))
    }
}

impl<P: Platform> OpenHarmonyAppInner<P> {
    /// How two apps compare.
    pub fn cmp(&self, other: &OpenHarmonyAppInner<P>) -> (r: Ordering)
        ensures
            r == self@.compared(other@),
    {
        if self.id() < other.id() {
            Ordering::Less
        } else if self.id() == other.id() {
            Ordering::Equal
        } else {
            Ordering::Greater
        }
    }
}

impl<P: Platform> OpenHarmonyApp<P> {
    /// How two apps compare.
    pub fn cmp(&self, other: &OpenHarmonyApp<P>) -> (r: Ordering)
        ensures
            r == self@.inner.compared(other@.inner),
    {
        self.inner().cmp(other.inner())
    }
}

/// Apps compare as their numbers do, so comparing them agrees with their equality, turns around when the apps are
/// swapped, and carries over from one pair to the next.
pub proof fn apps_are_totally_ordered<P: Platform>(
    a: AppState<P>,
    b: AppState<P>,
    c: AppState<P>,
)
    ensures
        a.same_app(b) <==> a.id == b.id,
        a.compared(b) is Less <==> a.id < b.id,
        a.compared(b) is Greater <==> a.id > b.id,
        a.compared(b) is Equal <==> a.same_app(b),
        a.compared(b) is Less <==> b.compared(a) is Greater,
        a.compared(b) is Less && b.compared(c) is Less ==> a.compared(c) is Less,
{
}

} // verus!
