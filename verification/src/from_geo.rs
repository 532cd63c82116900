use crate::enums::GeometryTypes;
use crate::error::{Error, GResult};
use vstd::prelude::*;
use vstd::string::*;

verus! {

/// The kinds of geometry that geo-types offers.
#[derive(Debug, Clone, Copy, PartialEq, Eq, Structural)]
pub enum GeoGeometryKind {
    Point,
    Line,
    LineString,
    Polygon,
    MultiPoint,
    MultiLineString,
    MultiPolygon,
    GeometryCollection,
    Rect,
    Triangle,
}

impl GeoGeometryKind {
    /// The name geo-types gives this kind of geometry.
    pub open spec fn kind_name(self) -> Seq<char> {
        match self {
            GeoGeometryKind::Point => "Point"@,
            GeoGeometryKind::Line => "Line"@,
            GeoGeometryKind::LineString => "LineString"@,
            GeoGeometryKind::Polygon => "Polygon"@,
            GeoGeometryKind::MultiPoint => "MultiPoint"@,
            GeoGeometryKind::MultiLineString => "MultiLineString"@,
            GeoGeometryKind::MultiPolygon => "MultiPolygon"@,
            GeoGeometryKind::GeometryCollection => "GeometryCollection"@,
            GeoGeometryKind::Rect => "Rect"@,
            GeoGeometryKind::Triangle => "Triangle"@,
        }
    }
}

/// The GEOS geometry type that a geo-types geometry of kind `k` becomes, if
/// any: GEOS has equivalents of lines, rectangles and triangles, but they
/// are no GEOS geometries, so those kinds are not converted.
pub open spec fn spec_geos_type_for(k: GeoGeometryKind) -> Option<GeometryTypes> {
    match k {
        GeoGeometryKind::Point => Some(GeometryTypes::Point),
        GeoGeometryKind::MultiPoint => Some(GeometryTypes::MultiPoint),
        GeoGeometryKind::LineString => Some(GeometryTypes::LineString),
        GeoGeometryKind::MultiLineString => Some(GeometryTypes::MultiLineString),
        GeoGeometryKind::Polygon => Some(GeometryTypes::Polygon),
        GeoGeometryKind::MultiPolygon => Some(GeometryTypes::MultiPolygon),
        GeoGeometryKind::GeometryCollection => Some(GeometryTypes::GeometryCollection),
        _ => None,
    }
}

/// The message of the conversion error for a kind that is not converted.
pub open spec fn refused_kind_message(k: GeoGeometryKind) -> Seq<char> {
    match k {
        GeoGeometryKind::Triangle => "Cannot convert Triangle to GEOS Geometry"@,
        GeoGeometryKind::Rect => "Cannot convert Rect to GEOS Geometry"@,
        _ => "Cannot convert Line to GEOS Geometry"@,
    }
}

/// The GEOS geometry type that the conversion of a geo-types geometry of
/// kind `kind` builds, or the conversion error for a kind without one.
pub fn geos_type_for(kind: GeoGeometryKind) -> (res: GResult<GeometryTypes>)
    ensures
        match spec_geos_type_for(kind) {
            Some(t) => res == Ok::<GeometryTypes, Error>(t),
            None => res matches Err(Error::ConversionError(s)) && s@ == refused_kind_message(kind),
        },
{
    match kind {
        GeoGeometryKind::Point => Ok(GeometryTypes::Point),
        GeoGeometryKind::MultiPoint => Ok(GeometryTypes::MultiPoint),
        GeoGeometryKind::LineString => Ok(GeometryTypes::LineString),
        GeoGeometryKind::MultiLineString => Ok(GeometryTypes::MultiLineString),
        GeoGeometryKind::Polygon => Ok(GeometryTypes::Polygon),
        GeoGeometryKind::MultiPolygon => Ok(GeometryTypes::MultiPolygon),
        GeoGeometryKind::GeometryCollection => Ok(GeometryTypes::GeometryCollection),
        GeoGeometryKind::Triangle => Err(
            Error::ConversionError(String::from_str("Cannot convert Triangle to GEOS Geometry")),
        ),
        GeoGeometryKind::Rect => Err(
            Error::ConversionError(String::from_str("Cannot convert Rect to GEOS Geometry")),
        ),
        GeoGeometryKind::Line => Err(
            Error::ConversionError(String::from_str("Cannot convert Line to GEOS Geometry")),
        ),
    }
}

/// A geo-types geometry that is converted becomes the GEOS geometry type of
/// the same name; exactly lines, rectangles and triangles are not converted,
/// and the error names the refused kind.
pub proof fn geos_type_keeps_the_kind_name(k: GeoGeometryKind)
    ensures
        spec_geos_type_for(k) matches Some(t) ==> t.geos_name() == k.kind_name(),
        spec_geos_type_for(k) is None <==> (k is Line || k is Rect || k is Triangle),
        spec_geos_type_for(k) is None ==> refused_kind_message(k) == "Cannot convert "@
            + k.kind_name() + " to GEOS Geometry"@,
{
    if spec_geos_type_for(k) is None {
        reveal_strlit("Cannot convert ");
        reveal_strlit(" to GEOS Geometry");
        reveal_strlit("Line");
        reveal_strlit("Rect");
        reveal_strlit("Triangle");
        reveal_strlit("Cannot convert Line to GEOS Geometry");
        reveal_strlit("Cannot convert Rect to GEOS Geometry");
        reveal_strlit("Cannot convert Triangle to GEOS Geometry");
        assert(refused_kind_message(k) =~= "Cannot convert "@ + k.kind_name()
            + " to GEOS Geometry"@);
    }
}

} // verus!
