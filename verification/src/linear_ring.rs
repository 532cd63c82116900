use crate::error::{Error, GResult};
use vstd::prelude::*;
use vstd::string::*;

verus! {

/// Whether a ring of `nb_points` points, whose first and last points are
/// equal exactly when `first_equals_last`, gets its first point appended
/// again before it is handed to GEOS. A three-point ring that is already
/// closed (two distinct points) is closed once more, so that GEOS gets the
/// four points that a linear ring needs.
pub open spec fn needs_closing(nb_points: nat, first_equals_last: bool) -> bool {
    nb_points > 0 && (!first_equals_last || nb_points == 3)
}

/// The indices, into the input points, of the points of the ring handed to
/// GEOS: every input point in order, then the first one again when the
/// ring needs closing.
pub open spec fn ring_plan(nb_points: nat, first_equals_last: bool) -> Seq<usize> {
    let all = Seq::new(nb_points, |i: int| i as usize);
    if needs_closing(nb_points, first_equals_last) {
        all.push(0usize)
    } else {
        all
    }
}

/// The points, as indices into the input, of the linear ring built from a
/// GeoJSON ring of `nb_points` points (GeoJSON rings are not required to be
/// closed, so they are closed here).
pub fn closed_ring_indices(nb_points: usize, first_equals_last: bool) -> (res: Vec<usize>)
    requires
        nb_points < usize::MAX,
    ensures
        res@ == ring_plan(nb_points as nat, first_equals_last),
{
    let mut res: Vec<usize> = Vec::new();
    let mut i: usize = 0;
    while i < nb_points
        invariant
            i <= nb_points,
            res@ == Seq::new(i as nat, |k: int| k as usize),
        decreases nb_points - i,
    {
        res.push(i);
        i = i + 1;
        assert(res@ =~= Seq::new(i as nat, |k: int| k as usize));
    }
    if nb_points > 0 && (!first_equals_last || nb_points == 3) {
        res.push(0);
    }
    res
}

/// The points, as indices into the input, of the linear ring built from a
/// geo-types line string of `nb_points` points: a ring of one or two points
/// is refused; otherwise the ring is closed as GeoJSON rings are.
pub fn linear_ring_indices(nb_points: usize, first_equals_last: bool) -> (res: GResult<Vec<usize>>)
    requires
        nb_points < usize::MAX,
    ensures
        0 < nb_points < 3 ==> (res matches Err(Error::ConversionError(s)) && s@
            == "a LinearRing must have at least 3 coordinates"@),
        !(0 < nb_points < 3) ==> (res matches Ok(v) && v@ == ring_plan(
            nb_points as nat,
            first_equals_last,
        )),
{
    if nb_points > 0 && nb_points < 3 {
        return Err(
            Error::ConversionError(String::from_str("a LinearRing must have at least 3 coordinates")),
        );
    }
    Ok(closed_ring_indices(nb_points, first_equals_last))
}

/// A ring of three or more points comes out with at least four points; a
/// ring that is closed here ends with its first point again; a ring that is
/// left as it is was closed already (its first and last points are equal) or
/// empty; and every index names an input point.
pub proof fn ring_plan_is_a_ring(nb_points: nat, first_equals_last: bool)
    ensures
        nb_points >= 3 ==> ring_plan(nb_points, first_equals_last).len() >= 4,
        nb_points >= 1 ==> ring_plan(nb_points, first_equals_last)[0] == 0,
        needs_closing(nb_points, first_equals_last) ==> ring_plan(nb_points, first_equals_last).len()
            == nb_points + 1 && ring_plan(nb_points, first_equals_last).last() == 0,
        !needs_closing(nb_points, first_equals_last) ==> (nb_points == 0 || first_equals_last)
            && ring_plan(nb_points, first_equals_last).len() == nb_points,
        forall|i: int|
            0 <= i < ring_plan(nb_points, first_equals_last).len() ==> ring_plan(
                nb_points,
                first_equals_last,
            )[i] < nb_points,
{
    let plan = ring_plan(nb_points, first_equals_last);
    let all = Seq::new(nb_points, |i: int| i as usize);
    if nb_points >= 1 {
        assert(all[0] == 0);
    }
    assert forall|i: int| 0 <= i < plan.len() implies plan[i] < nb_points by {
        if i < nb_points {
            assert(plan[i] == all[i]);
        }
    }
}

} // verus!
