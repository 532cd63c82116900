use geos::context_handle::InnerContext;
use geos::functions::{check_same_geometry_type, errcheck, nullcheck, predicate};
use geos::{
    orientation_index, segment_intersection, ByteOrder, ContextHandle, CoordDimensions, Error,
    GeometryTypes, Orientation,
};

#[test]
fn inner_context_take_removes_the_message() {
    let mut c = InnerContext::new();
    assert_eq!(c.take(), None);
    c.record("first".to_string());
    c.record("second".to_string());
    assert_eq!(c.take(), Some("second".to_string()));
    assert_eq!(c.take(), None);
}

#[test]
fn context_keeps_errors_and_notices_apart() {
    let mut ctx = ContextHandle::init(true).unwrap();
    ctx.report_error("boom".to_string());
    ctx.report_notice("fyi".to_string());
    assert_eq!(ctx.get_last_error(), Some("boom".to_string()));
    assert_eq!(ctx.get_last_error(), None);
    assert_eq!(ctx.get_last_notification(), Some("fyi".to_string()));
    assert_eq!(ctx.get_last_notification(), None);
}

#[test]
fn errcheck_takes_the_last_error_on_failure() {
    let mut ctx = ContextHandle::init(true).unwrap();
    assert_eq!(errcheck(5, 0, "GEOSArea_r", &mut ctx), Ok(5));
    ctx.report_error("IllegalArgumentException".to_string());
    assert_eq!(errcheck(7, 0, "GEOSArea_r", &mut ctx), Ok(7));
    assert_eq!(
        errcheck(0, 0, "GEOSArea_r", &mut ctx),
        Err(Error::GeosError((
            "GEOSArea_r",
            Some("IllegalArgumentException".to_string())
        )))
    );
    assert_eq!(
        errcheck(0, 0, "GEOSArea_r", &mut ctx),
        Err(Error::GeosError(("GEOSArea_r", None)))
    );
}

#[test]
fn predicate_results() {
    let mut ctx = ContextHandle::init(true).unwrap();
    assert_eq!(predicate(1, "GEOSIntersects_r", &mut ctx), Ok(true));
    assert_eq!(predicate(0, "GEOSIntersects_r", &mut ctx), Ok(false));
    assert_eq!(
        predicate(2, "GEOSIntersects_r", &mut ctx).unwrap_err().to_string(),
        "GEOSIntersects_r failed"
    );
}

#[test]
fn nullcheck_results() {
    let mut ctx = ContextHandle::init(true).unwrap();
    assert_eq!(nullcheck(Some(42u8), "GEOSGeom_clone_r", &mut ctx), Ok(42u8));
    ctx.report_error("out of memory".to_string());
    assert_eq!(
        nullcheck(None::<u8>, "GEOSGeom_clone_r", &mut ctx),
        Err(Error::GeosError((
            "GEOSGeom_clone_r",
            Some("out of memory".to_string())
        )))
    );
}

#[test]
fn same_geometry_type_check() {
    assert!(check_same_geometry_type(&[], GeometryTypes::Point));
    assert!(check_same_geometry_type(
        &[GeometryTypes::Point, GeometryTypes::Point],
        GeometryTypes::Point
    ));
    assert!(!check_same_geometry_type(
        &[GeometryTypes::Point, GeometryTypes::LineString],
        GeometryTypes::Point
    ));
}

#[test]
fn orientation_index_results() {
    let mut ctx = ContextHandle::init(true).unwrap();
    assert_eq!(
        orientation_index(-1, &mut ctx),
        Ok(Orientation::CounterClockwise)
    );
    assert_eq!(orientation_index(0, &mut ctx), Ok(Orientation::Colinear));
    assert_eq!(orientation_index(1, &mut ctx), Ok(Orientation::Clockwise));
    assert_eq!(
        orientation_index(2, &mut ctx),
        Err(Error::GeosError(("GEOSOrientationIndex_r", None)))
    );
    assert_eq!(
        orientation_index(5, &mut ctx),
        Err(Error::GenericError("value must be -1, 0 or 1".to_string()))
    );
}

#[test]
fn segment_intersection_results() {
    let mut ctx = ContextHandle::init(true).unwrap();
    assert_eq!(
        segment_intersection(1, (0.5f64, 0.5f64), &mut ctx),
        Ok(Some((0.5, 0.5)))
    );
    assert_eq!(segment_intersection(-1, (0.0f64, 0.0f64), &mut ctx), Ok(None));
    assert_eq!(
        segment_intersection(0, (0.0f64, 0.0f64), &mut ctx),
        Err(Error::GeosError(("GEOSSegmentIntersection_r", None)))
    );
}

#[test]
fn wkb_settings_read_back() {
    let mut ctx = ContextHandle::init(true).unwrap();
    assert_eq!(
        ctx.wkb_output_dimensions(2, "GEOS_getWKBOutputDims_r"),
        Ok(CoordDimensions::TwoD)
    );
    assert_eq!(
        ctx.wkb_output_dimensions(-1, "GEOS_getWKBOutputDims_r"),
        Err(Error::GeosError(("GEOS_getWKBOutputDims_r", None)))
    );
    assert_eq!(
        ctx.wkb_byte_order(1, "GEOS_getWKBByteOrder_r"),
        Ok(ByteOrder::LittleEndian)
    );
    assert_eq!(
        ctx.wkb_byte_order(0, "GEOS_setWKBByteOrder_r"),
        Ok(ByteOrder::BigEndian)
    );
}

#[test]
fn context_init_without_geos_context_fails() {
    assert_eq!(
        ContextHandle::init(false).err(),
        Some(Error::GeosError(("GEOS_init_r", None)))
    );
    let mut ctx = ContextHandle::init(true).unwrap();
    assert_eq!(ctx.get_last_error(), None);
    assert_eq!(ctx.get_last_notification(), None);
}
