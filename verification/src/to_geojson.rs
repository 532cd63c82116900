use crate::enums::GeometryTypes;
use crate::error::{is_generic_error, Error, GResult};
use vstd::prelude::*;
use vstd::string::*;

verus! {

/// The kind of GeoJSON geometry value that a GEOS geometry is written as.
#[derive(Debug, Clone, Copy, PartialEq, Eq, Structural)]
pub enum GeoJsonKind {
    Point,
    MultiPoint,
    LineString,
    MultiLineString,
    Polygon,
    MultiPolygon,
    GeometryCollection,
}

impl GeoJsonKind {
    /// The name GeoJSON gives this kind of geometry (its `type` member).
    pub open spec fn kind_name(self) -> Seq<char> {
        match self {
            GeoJsonKind::Point => "Point"@,
            GeoJsonKind::MultiPoint => "MultiPoint"@,
            GeoJsonKind::LineString => "LineString"@,
            GeoJsonKind::MultiLineString => "MultiLineString"@,
            GeoJsonKind::Polygon => "Polygon"@,
            GeoJsonKind::MultiPolygon => "MultiPolygon"@,
            GeoJsonKind::GeometryCollection => "GeometryCollection"@,
        }
    }
}

/// The GeoJSON kind of each geometry type that GeoJSON can hold: a linear
/// ring is written as a line string; curved types have no GeoJSON kind.
pub open spec fn spec_geojson_kind(t: GeometryTypes) -> Option<GeoJsonKind> {
    match t {
        GeometryTypes::Point => Some(GeoJsonKind::Point),
        GeometryTypes::MultiPoint => Some(GeoJsonKind::MultiPoint),
        GeometryTypes::LineString => Some(GeoJsonKind::LineString),
        GeometryTypes::LinearRing => Some(GeoJsonKind::LineString),
        GeometryTypes::MultiLineString => Some(GeoJsonKind::MultiLineString),
        GeometryTypes::Polygon => Some(GeoJsonKind::Polygon),
        GeometryTypes::MultiPolygon => Some(GeoJsonKind::MultiPolygon),
        GeometryTypes::GeometryCollection => Some(GeoJsonKind::GeometryCollection),
        _ => None,
    }
}

/// The GeoJSON kind that a geometry of type `t` is converted to.
pub fn geojson_kind(t: GeometryTypes) -> (res: GResult<GeoJsonKind>)
    ensures
        match spec_geojson_kind(t) {
            Some(k) => res == Ok::<GeoJsonKind, Error>(k),
            None => is_generic_error(res, "invalid type for GeoJSON"@),
        },
{
    match t {
        GeometryTypes::Point => Ok(GeoJsonKind::Point),
        GeometryTypes::MultiPoint => Ok(GeoJsonKind::MultiPoint),
        GeometryTypes::LineString | GeometryTypes::LinearRing => Ok(GeoJsonKind::LineString),
        GeometryTypes::MultiLineString => Ok(GeoJsonKind::MultiLineString),
        GeometryTypes::Polygon => Ok(GeoJsonKind::Polygon),
        GeometryTypes::MultiPolygon => Ok(GeoJsonKind::MultiPolygon),
        GeometryTypes::GeometryCollection => Ok(GeoJsonKind::GeometryCollection),
        _ => Err(Error::GenericError(String::from_str("invalid type for GeoJSON"))),
    }
}

/// Exactly the curved geometry types have no GeoJSON kind, and the kind of
/// a type that is no curve, surface or collection of them is a point or a
/// line string.
pub proof fn geojson_kind_covers_linear_types(t: GeometryTypes)
    ensures
        spec_geojson_kind(t) is None <==> (t is CircularString || t is CompoundCurve
            || t is CurvePolygon || t is MultiCurve || t is MultiSurface),
        t.is_curve() && !(t is CircularString) ==> spec_geojson_kind(t) == Some(
            GeoJsonKind::LineString,
        ),
{
}

/// A geometry is written as the GeoJSON kind of the same name as its GEOS
/// type, except a linear ring, which GeoJSON writes as a line string; every
/// type that is not curved has a GeoJSON kind.
pub proof fn geojson_kind_keeps_the_name(t: GeometryTypes)
    ensures
        spec_geojson_kind(t) matches Some(k) ==> k.kind_name() == (if t is LinearRing {
            "LineString"@
        } else {
            t.geos_name()
        }),
        !(t is CircularString || t is CompoundCurve || t is CurvePolygon || t is MultiCurve
            || t is MultiSurface) ==> spec_geojson_kind(t) is Some,
{
}

} // verus!
