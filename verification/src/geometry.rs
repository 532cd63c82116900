use crate::enums::GeometryTypes;
use crate::error::{is_generic_error, Error, GResult};
use crate::functions::check_same_geometry_type;
use vstd::prelude::*;
use vstd::string::*;

verus! {

/// The text of an `ImpossibleOperation` error with message `text`.
pub open spec fn is_impossible_operation<T>(res: GResult<T>, text: Seq<char>) -> bool {
    match res {
        Err(Error::ImpossibleOperation(s)) => s@ == text,
        _ => false,
    }
}

/// The name of a member type of a multi-geometry, as error messages spell it.
pub open spec fn member_type_name(t: GeometryTypes) -> Seq<char> {
    match t {
        GeometryTypes::Point => "Point"@,
        GeometryTypes::LineString => "LineString"@,
        _ => "Polygon"@,
    }
}

/// The type of the members of a multi point, multi line string or multi
/// polygon.
pub open spec fn member_of_multi(multi: GeometryTypes) -> GeometryTypes {
    match multi {
        GeometryTypes::MultiPoint => GeometryTypes::Point,
        GeometryTypes::MultiLineString => GeometryTypes::LineString,
        _ => GeometryTypes::Polygon,
    }
}

/// The kind of multi-geometry whose members have type `member`.
pub open spec fn multi_type_of(member: GeometryTypes) -> GeometryTypes {
    match member {
        GeometryTypes::Point => GeometryTypes::MultiPoint,
        GeometryTypes::LineString => GeometryTypes::MultiLineString,
        _ => GeometryTypes::MultiPolygon,
    }
}

/// The check that `create_multipoint`, `create_multiline_string` and
/// `create_multipolygon` make on the types of the geometries they are given
/// (`member` is Point, LineString or Polygon respectively). On success it
/// returns the type of the collection to build.
pub fn check_multi_geometry_members(types: &[GeometryTypes], member: GeometryTypes) -> (res:
    GResult<GeometryTypes>)
    requires
        member is Point || member is LineString || member is Polygon,
    ensures
        (forall|i: int| 0 <= i < types@.len() ==> types@[i] == member) ==> res
            == Ok::<GeometryTypes, Error>(multi_type_of(member)),
        !(forall|i: int| 0 <= i < types@.len() ==> types@[i] == member) ==> is_impossible_operation(
            res,
            "all the provided geometry have to be of type "@ + member_type_name(member),
        ),
{
    if check_same_geometry_type(types, member) {
        match member {
            GeometryTypes::Point => Ok(GeometryTypes::MultiPoint),
            GeometryTypes::LineString => Ok(GeometryTypes::MultiLineString),
            _ => Ok(GeometryTypes::MultiPolygon),
        }
    } else {
        let mut msg = String::from_str("all the provided geometry have to be of type ");
        match member {
            GeometryTypes::Point => msg.append("Point"),
            GeometryTypes::LineString => msg.append("LineString"),
            _ => msg.append("Polygon"),
        }
        Err(Error::ImpossibleOperation(msg))
    }
}

/// The check that `create_polygon` makes on the type of its exterior ring.
pub fn check_polygon_exterior(exterior: GeometryTypes) -> (res: GResult<()>)
    ensures
        exterior is LinearRing ==> res == Ok::<(), Error>(()),
        !(exterior is LinearRing) ==> is_generic_error(res, "exterior must be a LinearRing"@),
{
    if exterior == GeometryTypes::LinearRing {
        Ok(())
    } else {
        Err(Error::GenericError(String::from_str("exterior must be a LinearRing")))
    }
}

/// The types of which `create_empty_collection` builds an empty collection.
pub open spec fn is_empty_collection_type(t: GeometryTypes) -> bool {
    ||| t is GeometryCollection
    ||| t is MultiPoint
    ||| t is MultiLineString
    ||| t is MultiPolygon
}

/// The check that `create_empty_collection` makes on the requested type.
pub fn check_empty_collection_type(t: GeometryTypes) -> (res: GResult<()>)
    ensures
        is_empty_collection_type(t) ==> res == Ok::<(), Error>(()),
        !is_empty_collection_type(t) ==> is_generic_error(res, "Invalid geometry type"@),
{
    match t {
        GeometryTypes::GeometryCollection
        | GeometryTypes::MultiPoint
        | GeometryTypes::MultiLineString
        | GeometryTypes::MultiPolygon => Ok(()),
        _ => Err(Error::GenericError(String::from_str("Invalid geometry type"))),
    }
}

/// The geometries whose coordinate sequence `get_coord_seq` extracts.
pub open spec fn has_coord_seq(t: GeometryTypes) -> bool {
    t is Point || t is LineString || t is LinearRing
}

/// The check that `get_coord_seq` makes on the type of the geometry.
pub fn check_coord_seq_source(t: GeometryTypes) -> (res: GResult<()>)
    ensures
        has_coord_seq(t) ==> res == Ok::<(), Error>(()),
        !has_coord_seq(t) ==> is_impossible_operation(
            res,
            "Geometry must be a Point, LineString or LinearRing to extract its coordinates"@,
        ),
{
    match t {
        GeometryTypes::Point | GeometryTypes::LineString | GeometryTypes::LinearRing => Ok(()),
        _ => Err(
            Error::ImpossibleOperation(
                String::from_str(
                    "Geometry must be a Point, LineString or LinearRing to extract its coordinates",
                ),
            ),
        ),
    }
}

/// The check that `get_x`, `get_y` and `get_z` make: only a point has a
/// single X, Y and Z.
pub fn check_point_accessor(t: GeometryTypes) -> (res: GResult<()>)
    ensures
        t is Point ==> res == Ok::<(), Error>(()),
        !(t is Point) ==> is_generic_error(res, "Geometry must be a point"@),
{
    if t == GeometryTypes::Point {
        Ok(())
    } else {
        Err(Error::GenericError(String::from_str("Geometry must be a point")))
    }
}

/// The check that `get_point_n`, `get_start_point`, `get_end_point` and
/// `get_num_points` make: the geometry must be a single curve (a line
/// string, a linear ring or a circular string), whose points GEOS numbers.
pub fn check_vertex_accessor(t: GeometryTypes) -> (res: GResult<()>)
    ensures
        t.is_curve() ==> res == Ok::<(), Error>(()),
        !t.is_curve() ==> is_generic_error(res, "Geometry must be a LineString"@),
{
    if t.is_curve() {
        Ok(())
    } else {
        Err(Error::GenericError(String::from_str("Geometry must be a LineString")))
    }
}

/// The types along which `interpolate` (`normalized` false) and
/// `interpolate_normalized` (`normalized` true) measure a distance: line
/// strings, linear rings and multi line strings, and, by absolute distance
/// only, multi curves.
pub open spec fn interpolation_accepts(t: GeometryTypes, normalized: bool) -> bool {
    ||| t is LineString
    ||| t is LinearRing
    ||| t is MultiLineString
    ||| (t is MultiCurve && !normalized)
}

/// The check that `interpolate` and `interpolate_normalized` make on the
/// geometry they measure along.
pub fn check_interpolation_source(t: GeometryTypes, normalized: bool) -> (res: GResult<()>)
    ensures
        interpolation_accepts(t, normalized) ==> res == Ok::<(), Error>(()),
        !interpolation_accepts(t, normalized) ==> is_generic_error(
            res,
            "Geometry must be a LineString"@,
        ),
{
    let accepted = match t {
        GeometryTypes::LineString | GeometryTypes::LinearRing | GeometryTypes::MultiLineString => true,
        GeometryTypes::MultiCurve => !normalized,
        _ => false,
    };
    if accepted {
        Ok(())
    } else {
        Err(Error::GenericError(String::from_str("Geometry must be a LineString")))
    }
}

/// The check that `project` and `project_normalized` make on the geometry
/// they project: it must be a point.
pub fn check_projected_point(t: GeometryTypes) -> (res: GResult<()>)
    ensures
        t is Point ==> res == Ok::<(), Error>(()),
        !(t is Point) ==> is_generic_error(res, "Second geometry must be a Point"@),
{
    if t == GeometryTypes::Point {
        Ok(())
    } else {
        Err(Error::GenericError(String::from_str("Second geometry must be a Point")))
    }
}

/// The types of which `offset_curve` builds an offset curve: line strings
/// and linear rings, and, as GEOS offsets every part of them, points,
/// polygons, multi line strings and multi polygons.
pub open spec fn offset_curve_accepts(t: GeometryTypes) -> bool {
    ||| t is LineString
    ||| t is LinearRing
    ||| t is Point
    ||| t is Polygon
    ||| t is MultiLineString
    ||| t is MultiPolygon
}

/// The check that `offset_curve` makes on the type of the geometry.
pub fn check_offset_curve_source(t: GeometryTypes) -> (res: GResult<()>)
    ensures
        offset_curve_accepts(t) ==> res == Ok::<(), Error>(()),
        !offset_curve_accepts(t) ==> is_generic_error(res, "Geometry must be a LineString"@),
{
    match t {
        GeometryTypes::LineString
        | GeometryTypes::LinearRing
        | GeometryTypes::Point
        | GeometryTypes::Polygon
        | GeometryTypes::MultiLineString
        | GeometryTypes::MultiPolygon => Ok(()),
        _ => Err(Error::GenericError(String::from_str("Geometry must be a LineString"))),
    }
}

/// The types of which `is_closed` tells whether they are closed: single
/// curves (line strings, linear rings, circular strings) and collections of
/// them (multi line strings, multi curves).
pub open spec fn closedness_defined(t: GeometryTypes) -> bool {
    t.is_curve() || t is MultiLineString || t is MultiCurve
}

/// The check that `is_closed` makes on the type of the geometry.
pub fn check_closedness_source(t: GeometryTypes) -> (res: GResult<()>)
    ensures
        closedness_defined(t) ==> res == Ok::<(), Error>(()),
        !closedness_defined(t) ==> is_generic_error(
            res,
            "Geometry must be a LineString or a MultiLineString"@,
        ),
{
    if t.is_curve() || t == GeometryTypes::MultiLineString || t == GeometryTypes::MultiCurve {
        Ok(())
    } else {
        Err(
            Error::GenericError(
                String::from_str("Geometry must be a LineString or a MultiLineString"),
            ),
        )
    }
}

/// An empty collection can be created of exactly the collection types whose
/// members are not curved: geometry collections and multi points, multi line
/// strings and multi polygons; in particular of the type of every multi
/// geometry that `create_multipoint`, `create_multiline_string` and
/// `create_multipolygon` build.
pub proof fn empty_collections_are_the_linear_collections(t: GeometryTypes, member: GeometryTypes)
    ensures
        is_empty_collection_type(t) <==> (t.is_collection() && !(t is MultiCurve
            || t is MultiSurface)),
        (member is Point || member is LineString || member is Polygon) ==> is_empty_collection_type(
            multi_type_of(member),
        ),
        is_empty_collection_type(t) && !(t is GeometryCollection) ==> t.geos_name() == "Multi"@
            + member_type_name(member_of_multi(t)),
{
    if is_empty_collection_type(t) && !(t is GeometryCollection) {
        reveal_strlit("Multi");
        reveal_strlit("Point");
        reveal_strlit("LineString");
        reveal_strlit("Polygon");
        reveal_strlit("MultiPoint");
        reveal_strlit("MultiLineString");
        reveal_strlit("MultiPolygon");
        assert(t.geos_name() =~= "Multi"@ + member_type_name(member_of_multi(t)));
    }
}

/// The coordinate sequence of a geometry can be extracted exactly when it is
/// a point or a single curve without curved segments (a line string or a
/// linear ring); whatever has one is a point or has its points numbered.
pub proof fn coord_seq_sources_are_points_and_linear_curves(t: GeometryTypes)
    ensures
        has_coord_seq(t) <==> (t is Point || (t.is_curve() && !(t is CircularString))),
        has_coord_seq(t) ==> t is Point || t.is_curve(),
{
}

} // verus!
