//! The route: the fixed, ordered sequence of locations a player must clear.

use vstd::prelude::*;

verus! {

/// One stage of the route: a clue to display and the answers it accepts.
#[derive(Debug)]
pub struct Location {
    /// Identifier, unique within the lookup table a route is resolved from.
    pub id: usize,
    /// Human-readable name, used in notices to the admin observer.
    pub title: String,
    /// The clue shown to the player when this location is reached.
    pub clue: String,
    /// The accepted answers; matching against them is case-insensitive.
    pub answers: Vec<String>,
}

/// The mathematical model of a [`Location`]: the same fields, over sequences
/// of characters.
pub struct LocationView {
    pub id: usize,
    pub title: Seq<char>,
    pub clue: Seq<char>,
    pub answers: Seq<Seq<char>>,
}

impl View for Location {
    type V = LocationView;

    open spec fn view(&self) -> LocationView {
        LocationView {
            id: self.id,
            title: self.title@,
            clue: self.clue@,
            answers: self.answers@.map_values(|a: String| a@),
        }
    }
}

impl Clone for Location {
    fn clone(&self) -> (res: Self)
        ensures
            res@ == self@,
    {
        Location {
            id: self.id,
            title: self.title.clone(),
            clue: self.clue.clone(),
            answers: clone_strings(&self.answers),
        }
    }
}

/// Clones a vector of strings, keeping every element.
fn clone_strings(v: &Vec<String>) -> (res: Vec<String>)
    ensures
        res@ == v@,
{
    let mut res: Vec<String> = Vec::new();
    let mut i: usize = 0;
    while i < v.len()
        invariant
            i <= v@.len(),
            res@ == v@.take(i as int),
        decreases v@.len() - i,
    {
        res.push(v[i].clone());
        assert(res@ =~= v@.take(i as int + 1));
        i = i + 1;
    }
    assert(res@ =~= v@);
    res
}

/// The ordered sequence of locations; play proceeds from index 0 upward.
#[derive(Debug)]
pub struct Route {
    /// The locations in play order.
    pub route: Vec<Location>,
}

impl View for Route {
    type V = Seq<LocationView>;

    open spec fn view(&self) -> Seq<LocationView> {
        locations_view(self.route@)
    }
}

/// The models of a sequence of locations, in order.
pub open spec fn locations_view(s: Seq<Location>) -> Seq<LocationView> {
    s.map_values(|l: Location| l@)
}

/// Why a route could not be built.
#[derive(Clone, Copy, PartialEq, Eq, Structural, Debug)]
pub enum LoadError {
    /// The play order names an id that the location table does not define.
    UnknownId { id: usize },
}

/// Whether some location in the table carries this id.
pub open spec fn id_known(locs: Seq<LocationView>, id: usize) -> bool {
    exists|j: int| 0 <= j < locs.len() && locs[j].id == id
}

/// The index of the last location carrying this id, or `-1` if there is
/// none. The last definition wins when the table repeats an id.
pub open spec fn find_last(locs: Seq<LocationView>, id: usize) -> int
    decreases locs.len(),
{
    if locs.len() == 0 {
        -1
    } else if locs.last().id == id {
        locs.len() - 1
    } else {
        find_last(locs.drop_last(), id)
    }
}

/// Whether position `k` of the play order is the first to name an unknown
/// id.
pub open spec fn first_unknown_at(locs: Seq<LocationView>, ids: Seq<usize>, k: int) -> bool {
    &&& 0 <= k < ids.len()
    &&& !id_known(locs, ids[k])
    &&& forall|t: int| 0 <= t < k ==> id_known(locs, ids[t])
}

proof fn lemma_find_last_found(locs: Seq<LocationView>, id: usize)
    requires
        find_last(locs, id) >= 0,
    ensures
        0 <= find_last(locs, id) < locs.len(),
        locs[find_last(locs, id)].id == id,
        id_known(locs, id),
    decreases locs.len(),
{
    if locs.len() == 0 {
    } else if locs.last().id == id {
        assert(locs[locs.len() - 1].id == id);
    } else {
        lemma_find_last_found(locs.drop_last(), id);
        let j = find_last(locs.drop_last(), id);
        assert(locs.drop_last()[j] == locs[j]);
    }
}

/// The index of the last location carrying `id`, scanning from the back.
fn find_location(locations: &Vec<Location>, id: usize) -> (r: Option<usize>)
    ensures
        match r {
            Some(j) => j < locations@.len() && find_last(locations_view(locations@), id) == j,
            None => !id_known(locations_view(locations@), id),
        },
{
    let ghost locs = locations_view(locations@);
    let mut j = locations.len();
    assert(locs.take(j as int) =~= locs);
    while j > 0
        invariant
            j <= locations@.len(),
            locs == locations_view(locations@),
            find_last(locs, id) == find_last(locs.take(j as int), id),
            forall|t: int| j <= t < locs.len() ==> locs[t].id != id,
        decreases j,
    {
        j = j - 1;
        proof {
            assert(locs.take(j as int + 1).drop_last() =~= locs.take(j as int));
            assert(locs.take(j as int + 1).last() == locs[j as int]);
        }
        if locations[j].id == id {
            assert(find_last(locs, id) == j);
            return Some(j);
        }
    }
    proof {
        assert(locs.take(0) =~= Seq::<LocationView>::empty());
        assert(forall|t: int| 0 <= t < locs.len() ==> locs[t].id != id);
    }
    None
}

/// Builds the route by resolving the play order against the location table:
/// entry `k` of the route is the table's (last) definition of the `k`-th
/// ordered id. Fails with the first id the table does not define; the
/// table's own order does not matter, only the play order does.
pub fn resolve(locations: &Vec<Location>, ordered_ids: &Vec<usize>) -> (r: Result<
    Route,
    LoadError,
>)
    ensures
        match r {
            Ok(route) => {
                &&& forall|k: int|
                    0 <= k < ordered_ids@.len() ==> id_known(
                        locations_view(locations@),
                        #[trigger] ordered_ids@[k],
                    )
                &&& route@.len() == ordered_ids@.len()
                &&& forall|k: int|
                    0 <= k < ordered_ids@.len() ==> #[trigger] route@[k] == locations_view(
                        locations@,
                    )[find_last(locations_view(locations@), ordered_ids@[k])]
            },
            Err(e) => {
                &&& exists|k: int|
                    first_unknown_at(locations_view(locations@), ordered_ids@, k) && e == (
                    LoadError::UnknownId { id: ordered_ids@[k] })
            },
        },
        r is Ok <==> forall|k: int|
            0 <= k < ordered_ids@.len() ==> id_known(
                locations_view(locations@),
                #[trigger] ordered_ids@[k],
            ),
{
    let ghost locs = locations_view(locations@);
    let mut route: Vec<Location> = Vec::new();
    let mut k: usize = 0;
    while k < ordered_ids.len()
        invariant
            k <= ordered_ids@.len(),
            locs == locations_view(locations@),
            route@.len() == k,
            forall|t: int| 0 <= t < k ==> id_known(locs, #[trigger] ordered_ids@[t]),
            forall|t: int|
                0 <= t < k ==> #[trigger] locations_view(route@)[t] == locs[find_last(
                    locs,
                    ordered_ids@[t],
                )],
        decreases ordered_ids@.len() - k,
    {
        let id = ordered_ids[k];
        match find_location(locations, id) {
            Some(j) => {
                proof {
                    lemma_find_last_found(locs, id);
                }
                let ghost route_prev = route@;
                route.push(locations[j].clone());
                proof {
                    assert forall|t: int|
                        0 <= t < k + 1 implies #[trigger] locations_view(route@)[t] == locs[
                    find_last(locs, ordered_ids@[t])] by {
                        assert(locations_view(route@)[t] == route@[t]@);
                        if t < k {
                            assert(route@[t] == route_prev[t]);
                            assert(locations_view(route_prev)[t] == route_prev[t]@);
                        } else {
                            assert(route@[t]@ == locations@[j as int]@);
                            assert(locs[j as int] == locations@[j as int]@);
                        }
                    }
                }
            },
            None => {
                assert(first_unknown_at(locs, ordered_ids@, k as int));
                return Err(LoadError::UnknownId { id });
            },
        }
        k = k + 1;
    }
    Ok(Route { route })
}

} // verus!
