//! Fetching the avoid areas that are not known yet.
use vstd::prelude::*;
use crate::app::OpenHarmonyApp;
use crate::geometry::{AvoidArea, AvoidAreaType};
use crate::platform::Platform;

verus! {

/// The types whose areas are handed out together.
pub open spec fn default_types() -> Seq<AvoidAreaType> {
    seq![
        AvoidAreaType::System,
        AvoidAreaType::Cutout,
        AvoidAreaType::SystemGesture,
        AvoidAreaType::Keyboard,
        AvoidAreaType::NavigationIndicator,
    ]
}

fn default_type(i: usize) -> (r: AvoidAreaType)
    requires
        i < default_types().len(),
    ensures
        r == default_types()[i as int],
{
    match i {
        0 => AvoidAreaType::System,
        1 => AvoidAreaType::Cutout,
        2 => AvoidAreaType::SystemGesture,
        3 => AvoidAreaType::Keyboard,
        _ => AvoidAreaType::NavigationIndicator,
    }
}

/// The known areas once a fetched one, if any, is added.
pub open spec fn stored(
    areas: Map<i32, AvoidArea>,
    fetched: Option<(AvoidAreaType, AvoidArea)>,
) -> Map<i32, AvoidArea> {
    match fetched {
        Some((area_type, area)) => areas.insert(area_type.code_of(), area),
        None => areas,
    }
}

/// Whether the area of the `i`-th default type is known.
pub open spec fn knows(areas: Map<i32, AvoidArea>, i: int) -> bool {
    areas.contains_key(default_types()[i].code_of())
}

/// The place of the first default type from `from` on whose area is not known; past
/// the end where there is none.
pub open spec fn first_missing(areas: Map<i32, AvoidArea>, from: int) -> int
    decreases default_types().len() - from,
{
    if from >= default_types().len() {
        default_types().len() as int
    } else if knows(areas, from) {
        first_missing(areas, from + 1)
    } else {
        from
    }
}

/// The known areas after a sweep from `from` on, where `replies[i]` is what asking
/// for the `i`-th default type brings, if it is asked for.
pub open spec fn swept(
    areas: Map<i32, AvoidArea>,
    from: int,
    replies: Seq<Option<(AvoidAreaType, AvoidArea)>>,
) -> Map<i32, AvoidArea>
    decreases default_types().len() - from,
{
    if from >= default_types().len() {
        areas
    } else if knows(areas, from) {
        swept(areas, from + 1, replies)
    } else {
        swept(stored(areas, replies[from]), from + 1, replies)
    }
}

/// Goes through the default types and finds those whose areas have to be fetched.
pub struct AvoidAreaSweep {
    next: usize,
}

impl AvoidAreaSweep {
    /// How many types have been dealt with.
    pub closed spec fn position(self) -> int {
        self.next as int
    }

    /// No type has been dealt with.
    pub open spec fn is_start(self) -> bool {
        self.position() == 0
    }

    /// All types have been dealt with.
    pub open spec fn is_over(self) -> bool {
        self.position() >= default_types().len()
    }

    /// A sweep of all types.
    pub fn start() -> (r: AvoidAreaSweep)
        ensures
            r.is_start(),
    {
        AvoidAreaSweep { next: 0 }
    }

    /// A sweep with nothing to do.
    pub fn over() -> (r: AvoidAreaSweep)
        ensures
            r.is_over(),
    {
        AvoidAreaSweep { next: 5 }
    }

    /// The next type whose area has to be fetched, given what the app knows by now;
    /// `None` once there is none left.
    pub fn next<P: Platform>(&mut self, app: &OpenHarmonyApp<P>) -> (r: Option<AvoidAreaType>)
        ensures
            ({
                let missing = first_missing(app@.inner.avoid_areas, old(self).position());
                if missing < default_types().len() {
                    &&& r == Some(default_types()[missing])
                    &&& final(self).position() == missing + 1
                } else {
                    r is None && final(self).is_over()
                }
            }),
    {
        let ghost areas = app@.inner.avoid_areas;
        let ghost missing = first_missing(areas, self.position());
        while self.next < 5
            invariant
                areas == app@.inner.avoid_areas,
                missing == first_missing(areas, old(self).position()),
                first_missing(areas, self.position()) == missing,
            decreases 5 - self.next,
        {
            let area_type: AvoidAreaType = default_type(self.next);
            self.next = self.next + 1;
            if app.needs_avoid_area(area_type) {
                return Some(area_type);
            }
        }
        None
    }
}

proof fn default_types_are_in_code_order(i: int)
    requires
        0 <= i < default_types().len(),
    ensures
        default_types()[i].code_of() == i,
{
}

/// A sweep fetches for the first type that is missing, stores what came, and goes on
/// from there with what is known by then.
pub proof fn sweep_goes_step_by_step(
    areas: Map<i32, AvoidArea>,
    from: int,
    replies: Seq<Option<(AvoidAreaType, AvoidArea)>>,
)
    requires
        0 <= from,
    ensures
        ({
            let missing = first_missing(areas, from);
            swept(areas, from, replies) == if missing < default_types().len() {
                swept(stored(areas, replies[missing]), missing + 1, replies)
            } else {
                areas
            }
        }),
    decreases default_types().len() - from,
{
    if from < default_types().len() && knows(areas, from) {
        sweep_goes_step_by_step(areas, from + 1, replies);
    }
}

/// Where each reply is about the type that was asked for, a sweep leaves what was
/// known alone, and comes to know exactly the areas of the default types that were
/// missing and could be fetched.
pub proof fn sweep_fills_in_what_is_missing(
    areas: Map<i32, AvoidArea>,
    from: int,
    replies: Seq<Option<(AvoidAreaType, AvoidArea)>>,
)
    requires
        0 <= from <= default_types().len(),
        replies.len() == default_types().len(),
        forall|i: int|
            0 <= i < replies.len() && (#[trigger] replies[i]) is Some ==> replies[i]->Some_0.0
                == default_types()[i],
    ensures
        ({
            let after = swept(areas, from, replies);
            &&& forall|code: i32| #[trigger]
                areas.contains_key(code) ==> after.contains_key(code) && after[code] == areas[code]
            &&& forall|i: int|
                from <= i < default_types().len() && !(#[trigger] knows(areas, i)) ==> {
                    let code = default_types()[i].code_of();
                    &&& after.contains_key(code) <==> replies[i] is Some
                    &&& replies[i] is Some ==> after[code] == replies[i]->Some_0.1
                }
            &&& forall|code: i32| #[trigger]
                after.contains_key(code) && !areas.contains_key(code) ==> from <= code
                    < default_types().len()
        }),
    decreases default_types().len() - from,
{
    if from < default_types().len() {
        let next = if knows(areas, from) {
            areas
        } else {
            stored(areas, replies[from])
        };
        sweep_fills_in_what_is_missing(next, from + 1, replies);
        default_types_are_in_code_order(from);
        let after = swept(areas, from, replies);
        assert(after == swept(next, from + 1, replies));
        assert forall|code: i32| #[trigger] areas.contains_key(code) implies after.contains_key(code)
            && after[code] == areas[code] by {
            assert(next.contains_key(code) && next[code] == areas[code]);
        }
        assert forall|i: int|
            from <= i < default_types().len() && !(#[trigger] knows(areas, i)) implies ({
            let code = default_types()[i].code_of();
            &&& after.contains_key(code) <==> replies[i] is Some
            &&& replies[i] is Some ==> after[code] == replies[i]->Some_0.1
        }) by {
            default_types_are_in_code_order(i);
            if i > from {
                assert(!knows(next, i));
            } else if replies[i] is Some {
                assert(next.contains_key(i as i32));
            }
        }
        assert forall|code: i32| #[trigger]
            after.contains_key(code) && !areas.contains_key(code) implies from <= code
            < default_types().len() by {
            if next.contains_key(code) {
                assert(code == from);
            }
        }
    }
}

/// The default types are the named ones, each once, in the order of their numbers.
pub proof fn default_types_are_the_named_ones(area_type: AvoidAreaType, i: int)
    ensures
        default_types().len() == 5,
        0 <= i < 5 ==> default_types()[i].code_of() == i && !(default_types()[i] is Unknown),
        default_types().contains(area_type) <==> !(area_type is Unknown),
        default_types().no_duplicates(),
{
    if 0 <= i < 5 {
        default_types_are_in_code_order(i);
    }
    let types = default_types();
    match area_type {
        AvoidAreaType::System => assert(types[0] == area_type),
        AvoidAreaType::Cutout => assert(types[1] == area_type),
        AvoidAreaType::SystemGesture => assert(types[2] == area_type),
        AvoidAreaType::Keyboard => assert(types[3] == area_type),
        AvoidAreaType::NavigationIndicator => assert(types[4] == area_type),
        AvoidAreaType::Unknown(_) => {},
    }
}

/// The type that is asked for next is the first one from `from` on that has no area: all
/// before it have one.
pub proof fn first_missing_is_first(areas: Map<i32, AvoidArea>, from: int, i: int)
    requires
        0 <= from <= default_types().len(),
    ensures
        ({
            let missing = first_missing(areas, from);
            &&& from <= missing <= default_types().len()
            &&& from <= i < missing ==> areas.contains_key(default_types()[i].code_of())
            &&& missing < default_types().len() ==> !areas.contains_key(
                default_types()[missing].code_of(),
            )
        }),
    decreases default_types().len() - from,
{
    if from < default_types().len() && knows(areas, from) {
        first_missing_is_first(areas, from + 1, i);
    }
}

/// What was fetched is stored under the number of the type that came with it, and leaves
/// every other area as it was; where nothing was fetched, nothing changes.
pub proof fn fetched_area_is_stored(
    areas: Map<i32, AvoidArea>,
    area_type: AvoidAreaType,
    area: AvoidArea,
    other: i32,
)
    ensures
        stored(areas, None) == areas,
        stored(areas, Some((area_type, area))).contains_pair(area_type.code_of(), area),
        other != area_type.code_of() ==> {
            let after = stored(areas, Some((area_type, area)));
            &&& after.contains_key(other) <==> areas.contains_key(other)
            &&& after[other] == areas[other]
        },
{
}

} // verus!
