use crate::context_handle::{after_taking_error, ContextHandle};
use crate::enums::{GeometryTypes, Orientation};
use crate::error::{is_generic_error, is_geos_error, Error, GResult};
use vstd::prelude::*;

verus! {

/// Checks the value returned by the GEOS function `func` against its error
/// value `errval`: `Ok(result)` when they differ; otherwise a `GeosError`
/// that names the function and carries the context's last error, which is
/// taken from the context.
pub fn errcheck(result: i32, errval: i32, func: &'static str, ctx: &mut ContextHandle) -> (res:
    GResult<i32>)
    ensures
        result == errval ==> is_geos_error(res, func@, old(ctx)@.last_error) && final(ctx)@
            == after_taking_error(old(ctx)@),
        result != errval ==> res == Ok::<i32, Error>(result) && final(ctx)@ == old(ctx)@,
{
    if result == errval {
        Err(Error::GeosError((func, ctx.get_last_error())))
    } else {
        Ok(result)
    }
}

/// Checks the value returned by a GEOS predicate: 2 is an error, 1 is true,
/// any other value is false.
pub fn predicate(result: i32, func: &'static str, ctx: &mut ContextHandle) -> (res: GResult<bool>)
    ensures
        result == 2 ==> is_geos_error(res, func@, old(ctx)@.last_error) && final(ctx)@
            == after_taking_error(old(ctx)@),
        result != 2 ==> res == Ok::<bool, Error>(result == 1) && final(ctx)@ == old(ctx)@,
{
    let r = errcheck(result, 2, func, ctx)?;
    Ok(r == 1)
}

/// Checks a value that GEOS returns as a pointer that is null on failure;
/// `ptr` is `None` for a null pointer.
pub fn nullcheck<T>(ptr: Option<T>, func: &'static str, ctx: &mut ContextHandle) -> (res: GResult<
    T,
>)
    ensures
        match ptr {
            Some(p) => res == Ok::<T, Error>(p) && final(ctx)@ == old(ctx)@,
            None => is_geos_error(res, func@, old(ctx)@.last_error) && final(ctx)@
                == after_taking_error(old(ctx)@),
        },
{
    match ptr {
        Some(p) => Ok(p),
        None => Err(Error::GeosError((func, ctx.get_last_error()))),
    }
}

/// Whether every geometry type in `types` is `geom_type`.
pub fn check_same_geometry_type(types: &[GeometryTypes], geom_type: GeometryTypes) -> (res: bool)
    ensures
        res == forall|i: int| 0 <= i < types@.len() ==> types@[i] == geom_type,
{
    let mut i: usize = 0;
    while i < types.len()
        invariant
            0 <= i <= types@.len(),
            forall|j: int| 0 <= j < i ==> types@[j] == geom_type,
        decreases types@.len() - i,
    {
        if types[i] != geom_type {
            return false;
        }
        i = i + 1;
    }
    true
}

/// The orientation that `GEOSOrientationIndex_r` reports by `ret`
/// (2 is its error value).
pub fn orientation_index(ret: i32, ctx: &mut ContextHandle) -> (res: GResult<Orientation>)
    ensures
        ret == 2 ==> is_geos_error(res, "GEOSOrientationIndex_r"@, old(ctx)@.last_error)
            && final(ctx)@ == after_taking_error(old(ctx)@),
        ret != 2 ==> final(ctx)@ == old(ctx)@ && match Orientation::from_code(ret as int) {
            Some(o) => res == Ok::<Orientation, Error>(o),
            None => is_generic_error(res, "value must be -1, 0 or 1"@),
        },
{
    let ret = errcheck(ret, 2, "GEOSOrientationIndex_r", ctx)?;
    Orientation::try_from(ret)
}

/// The result of `GEOSSegmentIntersection_r`, which returned `ret` and wrote
/// `point`: 0 is its error value, -1 means that the segments do not meet.
pub fn segment_intersection<P>(ret: i32, point: P, ctx: &mut ContextHandle) -> (res: GResult<
    Option<P>,
>)
    ensures
        ret == 0 ==> is_geos_error(res, "GEOSSegmentIntersection_r"@, old(ctx)@.last_error)
            && final(ctx)@ == after_taking_error(old(ctx)@),
        ret == -1 ==> res == Ok::<Option<P>, Error>(None) && final(ctx)@ == old(ctx)@,
        ret != 0 && ret != -1 ==> res == Ok::<Option<P>, Error>(Some(point)) && final(ctx)@
            == old(ctx)@,
{
    let ret = errcheck(ret, 0, "GEOSSegmentIntersection_r", ctx)?;
    if ret != -1 {
        Ok(Some(point))
    } else {
        Ok(None)
    }
}

} // verus!
