//! Movement, looking and taking, resolved against the zone graph.
use vstd::prelude::*;
use crate::commands::{Direction, DirectionView};
use crate::zones::{InventoryEntry, Location, ZoneAsset, ZoneId, Zones};

verus! {

#[derive(Clone, Copy, Debug, PartialEq, Eq, Structural, Hash)]
pub enum NavError {
    /// The player's own zone is not in the graph.
    UnknownLocation,
    /// The current zone has no connection in that direction.
    NoPathThatWay,
    /// The connection leads to a zone that is not in the graph.
    DanglingConnection,
}

/// What moving from `current` towards `d` gives: the identifier of the zone reached.
pub open spec fn move_spec(zones: Map<Seq<char>, ZoneAsset>, current: Seq<char>, d: DirectionView)
    -> Result<Seq<char>, NavError> {
    if !zones.contains_key(current) {
        Err(NavError::UnknownLocation)
    } else if !zones[current].connections@.contains_key(d) {
        Err(NavError::NoPathThatWay)
    } else if !zones.contains_key(zones[current].connections@[d]) {
        Err(NavError::DanglingConnection)
    } else {
        Ok(zones[current].connections@[d])
    }
}

pub open spec fn fallback_look_text() -> Seq<char> {
    "You looked around and saw nothing else of interest..."@
}

/// What looking around in `current` shows.
pub open spec fn look_spec(zones: Map<Seq<char>, ZoneAsset>, current: Seq<char>) -> Result<
    Seq<char>,
    NavError,
> {
    if !zones.contains_key(current) {
        Err(NavError::UnknownLocation)
    } else {
        match zones[current].examine {
            Some(t) => Ok(t@),
            None => Ok(fallback_look_text()),
        }
    }
}

/// The items that taking in `current` yields, one identifier for each.
pub open spec fn take_spec(zones: Map<Seq<char>, ZoneAsset>, current: Seq<char>) -> Result<
    Seq<Seq<char>>,
    NavError,
> {
    if !zones.contains_key(current) {
        Err(NavError::UnknownLocation)
    } else {
        Ok(zones[current].items@.map_values(|i: ZoneId| i@))
    }
}

/// The order in which the compass shows the ten fixed directions.
pub open spec fn compass_order() -> Seq<DirectionView> {
    seq![
        DirectionView::Up,
        DirectionView::Down,
        DirectionView::North,
        DirectionView::South,
        DirectionView::East,
        DirectionView::West,
        DirectionView::NorthEast,
        DirectionView::NorthWest,
        DirectionView::SouthEast,
        DirectionView::SouthWest,
    ]
}

pub open spec fn entries_view(es: Seq<InventoryEntry>) -> Seq<Seq<char>> {
    es.map_values(|e: InventoryEntry| e.asset_path@)
}

/// The zone that moving from `current` towards `direction` reaches.
pub fn move_target(zones: &Zones, current: &str, direction: &Direction) -> (r: Result<
    ZoneId,
    NavError,
>)
    ensures
        match r {
            Ok(t) => move_spec(zones@, current@, direction@) == Ok::<Seq<char>, NavError>(t@),
            Err(e) => move_spec(zones@, current@, direction@) == Err::<Seq<char>, NavError>(e),
        },
{
    let from = match zones.get(current) {
        Some(z) => z,
        None => return Err(NavError::UnknownLocation),
    };
    let target = match from.connections.get(direction) {
        Some(t) => t,
        None => return Err(NavError::NoPathThatWay),
    };
    if zones.contains_key(target.as_str()) {
        Ok(target.clone())
    } else {
        Err(NavError::DanglingConnection)
    }
}

/// Moves the player towards `direction`; on failure the location stays as it was.
pub fn handle_player_movement(zones: &Zones, location: &mut Location, direction: &Direction) -> (r:
    Result<(), NavError>)
    ensures
        match move_spec(zones@, old(location).0@, direction@) {
            Ok(t) => r is Ok && final(location).0@ == t,
            Err(e) => r == Err::<(), NavError>(e) && *final(location) == *old(location),
        },
{
    match move_target(zones, location.0.as_str(), direction) {
        Ok(t) => {
            location.0 = t;
            Ok(())
        },
        Err(e) => Err(e),
    }
}

/// The zone's closer description, or a fixed remark where it has none.
pub fn handle_player_look(zones: &Zones, location: &Location) -> (r: Result<String, NavError>)
    ensures
        match r {
            Ok(t) => look_spec(zones@, location.0@) == Ok::<Seq<char>, NavError>(t@),
            Err(e) => look_spec(zones@, location.0@) == Err::<Seq<char>, NavError>(e),
        },
{
    match zones.get(location.0.as_str()) {
        Some(z) => match &z.examine {
            Some(t) => Ok(t.clone()),
            None => Ok("You looked around and saw nothing else of interest...".to_owned()),
        },
        None => Err(NavError::UnknownLocation),
    }
}

/// One inventory entry for each item lying in the player's zone, in order; the zone
/// keeps its items.
pub fn handle_player_take(zones: &Zones, location: &Location) -> (r: Result<
    Vec<InventoryEntry>,
    NavError,
>)
    ensures
        match r {
            Ok(es) => take_spec(zones@, location.0@) == Ok::<Seq<Seq<char>>, NavError>(
                entries_view(es@),
            ),
            Err(e) => take_spec(zones@, location.0@) == Err::<Seq<Seq<char>>, NavError>(e),
        },
{
    let z = match zones.get(location.0.as_str()) {
        Some(z) => z,
        None => return Err(NavError::UnknownLocation),
    };
    let ghost items = z.items@.map_values(|i: ZoneId| i@);
    let mut out: Vec<InventoryEntry> = Vec::new();
    let mut k: usize = 0;
    while k < z.items.len()
        invariant
            k <= z.items@.len(),
            items == z.items@.map_values(|i: ZoneId| i@),
            entries_view(out@) =~= items.take(k as int),
        decreases z.items@.len() - k,
    {
        out.push(InventoryEntry { asset_path: z.items[k].clone() });
        assert(items.take(k + 1) =~= items.take(k as int).push(items[k as int]));
        k = k + 1;
    }
    assert(items.take(k as int) =~= items);
    Ok(out)
}

/// The text shown on entering the player's zone.
pub fn set_main_body(zones: &Zones, location: &Location) -> (r: Result<String, NavError>)
    ensures
        match r {
            Ok(t) => zones@.contains_key(location.0@) && t@ == zones@[location.0@].description@,
            Err(e) => !zones@.contains_key(location.0@) && e == NavError::UnknownLocation,
        },
{
    match zones.get(location.0.as_str()) {
        Some(z) => Ok(z.description.clone()),
        None => Err(NavError::UnknownLocation),
    }
}

fn compass_direction(k: usize) -> (r: Direction)
    requires
        k < 10,
    ensures
        r@ == compass_order()[k as int],
{
    if k == 0 {
        Direction::Up
    } else if k == 1 {
        Direction::Down
    } else if k == 2 {
        Direction::North
    } else if k == 3 {
        Direction::South
    } else if k == 4 {
        Direction::East
    } else if k == 5 {
        Direction::West
    } else if k == 6 {
        Direction::NorthEast
    } else if k == 7 {
        Direction::NorthWest
    } else if k == 8 {
        Direction::SouthEast
    } else {
        Direction::SouthWest
    }
}

/// For each of the ten fixed directions, in compass order, whether the player's zone
/// connects that way.
pub fn compass_update(zones: &Zones, location: &Location) -> (r: Result<
    Vec<(Direction, bool)>,
    NavError,
>)
    ensures
        match r {
            Ok(v) => zones@.contains_key(location.0@) && v@.len() == 10 && forall|k: int|
                0 <= k < 10 ==> (#[trigger] v@[k]).0@ == compass_order()[k] && v@[k].1
                    == zones@[location.0@].connections@.contains_key(compass_order()[k]),
            Err(e) => !zones@.contains_key(location.0@) && e == NavError::UnknownLocation,
        },
{
    let z = match zones.get(location.0.as_str()) {
        Some(z) => z,
        None => return Err(NavError::UnknownLocation),
    };
    let mut out: Vec<(Direction, bool)> = Vec::new();
    let mut k: usize = 0;
    while k < 10
        invariant
            k <= 10,
            zones@.contains_key(location.0@),
            zones@[location.0@] == *z,
            out@.len() == k,
            forall|j: int|
                0 <= j < k ==> (#[trigger] out@[j]).0@ == compass_order()[j] && out@[j].1
                    == z.connections@.contains_key(compass_order()[j]),
        decreases 10 - k,
    {
        let d = compass_direction(k);
        let open = z.connections.contains_key(&d);
        out.push((d, open));
        k = k + 1;
    }
    Ok(out)
}

/// Where zone `a` connects north to `b` and nowhere else, and `b` is a zone, moving
/// north from `a` reaches `b` and moving south is refused as no path that way.
pub proof fn lemma_move_determinism(zones: &Zones, a: Seq<char>, b: Seq<char>)
    requires
        zones@.contains_key(a),
        zones@[a].connections@ == map![DirectionView::North => b],
        zones@.contains_key(b),
    ensures
        move_spec(zones@, a, DirectionView::North) == Ok::<Seq<char>, NavError>(b),
        move_spec(zones@, a, DirectionView::South) == Err::<Seq<char>, NavError>(
            NavError::NoPathThatWay,
        ),
{
}

/// A connection to a zone that is not in the graph refuses the move as dangling; the
/// player's location then stays as it was (see `handle_player_movement`).
pub proof fn lemma_dangling_connection(zones: &Zones, a: Seq<char>, d: DirectionView)
    requires
        zones@.contains_key(a),
        zones@[a].connections@.contains_key(d),
        !zones@.contains_key(zones@[a].connections@[d]),
    ensures
        move_spec(zones@, a, d) == Err::<Seq<char>, NavError>(NavError::DanglingConnection),
{
}

/// Looking in a zone without a closer description shows the fixed remark; in one
/// with a description, that description.
pub proof fn lemma_look_fallback(zones: &Zones, a: Seq<char>)
    requires
        zones@.contains_key(a),
    ensures
        zones@[a].examine is None ==> look_spec(zones@, a) == Ok::<Seq<char>, NavError>(
            fallback_look_text(),
        ),
        zones@[a].examine is Some ==> look_spec(zones@, a) == Ok::<Seq<char>, NavError>(
            zones@[a].examine.unwrap()@,
        ),
{
}

/// Taking gives one entry for each item of the zone, in order, and leaves the graph as
/// it is; so a second take at the same zone gives the same entries, and an inventory
/// that gained both holds the zone's items twice over.
pub proof fn lemma_take_twice(
    zones: &Zones,
    a: Seq<char>,
    first: Seq<Seq<char>>,
    second: Seq<Seq<char>>,
    inv: Seq<Seq<char>>,
)
    requires
        zones@.contains_key(a),
        take_spec(zones@, a) == Ok::<Seq<Seq<char>>, NavError>(first),
        take_spec(zones@, a) == Ok::<Seq<Seq<char>>, NavError>(second),
    ensures
        first == second,
        first.len() == zones@[a].items@.len(),
        forall|k: int| 0 <= k < first.len() ==> #[trigger] first[k] == zones@[a].items@[k]@,
        (inv + first) + second == inv + first + first,
{
}

} // verus!
