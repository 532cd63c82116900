use geos::geometry::{
    check_closedness_source, check_coord_seq_source, check_empty_collection_type,
    check_interpolation_source, check_multi_geometry_members, check_offset_curve_source,
    check_point_accessor, check_polygon_exterior, check_projected_point, check_vertex_accessor,
};
use geos::from_geo::geos_type_for;
use geos::to_geojson::geojson_kind;
use geos::GeoGeometryKind;
use geos::{Error, GeoJsonKind, GeometryTypes};

#[test]
fn test_error_multi_from_vec_single() {
    // a point and a line string given to create_multipoint
    let types = [GeometryTypes::Point, GeometryTypes::LineString];
    let err = check_multi_geometry_members(&types, GeometryTypes::Point).unwrap_err();
    assert_eq!(
        err.to_string(),
        "impossible operation: all the provided geometry have to be of type Point"
    );
}

#[test]
fn multi_geometry_members_accepted() {
    assert_eq!(
        check_multi_geometry_members(&[GeometryTypes::Point; 4], GeometryTypes::Point),
        Ok(GeometryTypes::MultiPoint)
    );
    assert_eq!(
        check_multi_geometry_members(&[GeometryTypes::LineString; 2], GeometryTypes::LineString),
        Ok(GeometryTypes::MultiLineString)
    );
    assert_eq!(
        check_multi_geometry_members(&[], GeometryTypes::Polygon),
        Ok(GeometryTypes::MultiPolygon)
    );
    assert_eq!(
        check_multi_geometry_members(
            &[GeometryTypes::Polygon, GeometryTypes::MultiPolygon],
            GeometryTypes::Polygon
        ),
        Err(Error::ImpossibleOperation(
            "all the provided geometry have to be of type Polygon".to_string()
        ))
    );
}

#[test]
fn polygon_exterior_must_be_a_ring() {
    assert_eq!(check_polygon_exterior(GeometryTypes::LinearRing), Ok(()));
    assert_eq!(
        check_polygon_exterior(GeometryTypes::LineString),
        Err(Error::GenericError("exterior must be a LinearRing".to_string()))
    );
}

#[test]
fn empty_collection_types() {
    assert_eq!(check_empty_collection_type(GeometryTypes::MultiPolygon), Ok(()));
    assert_eq!(check_empty_collection_type(GeometryTypes::GeometryCollection), Ok(()));
    assert_eq!(
        check_empty_collection_type(GeometryTypes::Polygon),
        Err(Error::GenericError("Invalid geometry type".to_string()))
    );
    assert_eq!(
        check_empty_collection_type(GeometryTypes::MultiCurve),
        Err(Error::GenericError("Invalid geometry type".to_string()))
    );
}

#[test]
fn coord_seq_sources() {
    assert_eq!(check_coord_seq_source(GeometryTypes::LinearRing), Ok(()));
    assert_eq!(
        check_coord_seq_source(GeometryTypes::Polygon),
        Err(Error::ImpossibleOperation(
            "Geometry must be a Point, LineString or LinearRing to extract its coordinates"
                .to_string()
        ))
    );
}

#[test]
fn geojson_kinds() {
    assert_eq!(geojson_kind(GeometryTypes::LinearRing), Ok(GeoJsonKind::LineString));
    assert_eq!(geojson_kind(GeometryTypes::MultiPolygon), Ok(GeoJsonKind::MultiPolygon));
    assert_eq!(
        geojson_kind(GeometryTypes::CircularString),
        Err(Error::GenericError("invalid type for GeoJSON".to_string()))
    );
}

#[test]
fn geo_kinds_to_geos_types() {
    assert_eq!(geos_type_for(GeoGeometryKind::Polygon), Ok(GeometryTypes::Polygon));
    assert_eq!(
        geos_type_for(GeoGeometryKind::GeometryCollection),
        Ok(GeometryTypes::GeometryCollection)
    );
    assert_eq!(
        geos_type_for(GeoGeometryKind::Triangle).unwrap_err().to_string(),
        "impossible to convert geometry: Cannot convert Triangle to GEOS Geometry"
    );
    assert_eq!(
        geos_type_for(GeoGeometryKind::Rect),
        Err(Error::ConversionError("Cannot convert Rect to GEOS Geometry".to_string()))
    );
    assert_eq!(
        geos_type_for(GeoGeometryKind::Line),
        Err(Error::ConversionError("Cannot convert Line to GEOS Geometry".to_string()))
    );
}

fn generic(text: &str) -> Result<(), Error> {
    Err(Error::GenericError(text.to_string()))
}

#[test]
fn point_accessors_need_a_point() {
    assert_eq!(check_point_accessor(GeometryTypes::Point), Ok(()));
    for t in [
        GeometryTypes::LineString,
        GeometryTypes::LinearRing,
        GeometryTypes::Polygon,
        GeometryTypes::MultiLineString,
        GeometryTypes::MultiPolygon,
        GeometryTypes::CircularString,
        GeometryTypes::MultiCurve,
    ] {
        assert_eq!(check_point_accessor(t), generic("Geometry must be a point"));
    }
}

#[test]
fn vertex_accessors_need_a_single_curve() {
    assert_eq!(check_vertex_accessor(GeometryTypes::LineString), Ok(()));
    assert_eq!(check_vertex_accessor(GeometryTypes::LinearRing), Ok(()));
    assert_eq!(check_vertex_accessor(GeometryTypes::CircularString), Ok(()));
    for t in [
        GeometryTypes::Point,
        GeometryTypes::Polygon,
        GeometryTypes::MultiLineString,
        GeometryTypes::MultiPolygon,
        GeometryTypes::MultiCurve,
    ] {
        assert_eq!(check_vertex_accessor(t), generic("Geometry must be a LineString"));
    }
}

#[test]
fn interpolation_sources() {
    for normalized in [false, true] {
        assert_eq!(check_interpolation_source(GeometryTypes::LineString, normalized), Ok(()));
        assert_eq!(check_interpolation_source(GeometryTypes::LinearRing, normalized), Ok(()));
        assert_eq!(check_interpolation_source(GeometryTypes::MultiLineString, normalized), Ok(()));
        for t in [
            GeometryTypes::Point,
            GeometryTypes::Polygon,
            GeometryTypes::MultiPolygon,
            GeometryTypes::CircularString,
        ] {
            assert_eq!(
                check_interpolation_source(t, normalized),
                generic("Geometry must be a LineString")
            );
        }
    }
    assert_eq!(check_interpolation_source(GeometryTypes::MultiCurve, false), Ok(()));
    assert_eq!(
        check_interpolation_source(GeometryTypes::MultiCurve, true),
        generic("Geometry must be a LineString")
    );
}

#[test]
fn projection_needs_a_point() {
    assert_eq!(check_projected_point(GeometryTypes::Point), Ok(()));
    assert_eq!(
        check_projected_point(GeometryTypes::Polygon),
        generic("Second geometry must be a Point")
    );
    assert_eq!(
        check_projected_point(GeometryTypes::LineString),
        generic("Second geometry must be a Point")
    );
}

#[test]
fn offset_curve_sources() {
    for t in [
        GeometryTypes::LineString,
        GeometryTypes::LinearRing,
        GeometryTypes::Point,
        GeometryTypes::Polygon,
        GeometryTypes::MultiLineString,
        GeometryTypes::MultiPolygon,
    ] {
        assert_eq!(check_offset_curve_source(t), Ok(()));
    }
    assert_eq!(
        check_offset_curve_source(GeometryTypes::CircularString),
        generic("Geometry must be a LineString")
    );
    assert_eq!(
        check_offset_curve_source(GeometryTypes::MultiCurve),
        generic("Geometry must be a LineString")
    );
}

#[test]
fn closedness_sources() {
    for t in [
        GeometryTypes::LineString,
        GeometryTypes::LinearRing,
        GeometryTypes::MultiLineString,
        GeometryTypes::CircularString,
        GeometryTypes::MultiCurve,
    ] {
        assert_eq!(check_closedness_source(t), Ok(()));
    }
    for t in [GeometryTypes::Point, GeometryTypes::Polygon, GeometryTypes::MultiPolygon] {
        assert_eq!(
            check_closedness_source(t),
            generic("Geometry must be a LineString or a MultiLineString")
        );
    }
}
