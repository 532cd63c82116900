use geos::{
    ByteOrder, CapStyle, CoordDimensions, CoordType, DimensionType, Error, GeometryTypes, JoinStyle,
    MakeValidMethod, Ordinate, Orientation, Precision,
};
use std::convert::TryFrom;

fn generic(msg: &str) -> Error {
    Error::GenericError(msg.to_string())
}

#[test]
fn coord_dimensions_from_and_to_int() {
    assert_eq!(CoordDimensions::try_from(2), Ok(CoordDimensions::TwoD));
    assert_eq!(CoordDimensions::try_from(3), Ok(CoordDimensions::ThreeD));
    assert_eq!(CoordDimensions::try_from(4), Ok(CoordDimensions::FourD));
    assert_eq!(
        CoordDimensions::try_from(1),
        Err(generic("dimensions must be 2, 3 or 4"))
    );
    assert_eq!(
        CoordDimensions::try_from(5),
        Err(generic("dimensions must be 2, 3 or 4"))
    );
    let n: i32 = CoordDimensions::ThreeD.into();
    assert_eq!(n, 3);
    for d in [CoordDimensions::TwoD, CoordDimensions::ThreeD, CoordDimensions::FourD] {
        let n: i32 = d.into();
        assert_eq!(CoordDimensions::try_from(n), Ok(d));
    }
}

#[test]
fn coord_type_flags() {
    assert!(!CoordType::XY.has_z() && !CoordType::XY.has_m());
    assert!(CoordType::XYZ.has_z() && !CoordType::XYZ.has_m());
    assert!(!CoordType::XYM.has_z() && CoordType::XYM.has_m());
    assert!(CoordType::XYZM.has_z() && CoordType::XYZM.has_m());
    for c in [CoordType::XY, CoordType::XYZ, CoordType::XYM, CoordType::XYZM] {
        assert_eq!(CoordType::try_from((c.has_z(), c.has_m())), Ok(c));
        let dims: u32 = c.into();
        assert_eq!(dims, 2 + c.has_z() as u32 + c.has_m() as u32);
    }
}

#[test]
fn coord_type_from_dimensions() {
    assert_eq!(CoordType::try_from(2u32), Ok(CoordType::XY));
    assert_eq!(CoordType::try_from(3u32), Ok(CoordType::XYZ));
    assert_eq!(CoordType::try_from(4u32), Ok(CoordType::XYZM));
    assert_eq!(
        CoordType::try_from(1u32),
        Err(generic("dimensions must be >=2 and <= 4"))
    );
    // XYM has three ordinates, which read back as XYZ.
    let dims: u32 = CoordType::XYM.into();
    assert_eq!(dims, 3);
    assert_eq!(CoordType::try_from(dims), Ok(CoordType::XYZ));
}

#[test]
fn byte_order_from_int() {
    assert_eq!(ByteOrder::try_from(0), Ok(ByteOrder::BigEndian));
    assert_eq!(ByteOrder::try_from(1), Ok(ByteOrder::LittleEndian));
    assert_eq!(ByteOrder::try_from(-7), Ok(ByteOrder::LittleEndian));
    let b: i32 = ByteOrder::BigEndian.into();
    let l: i32 = ByteOrder::LittleEndian.into();
    assert_eq!((b, l), (0, 1));
}

#[test]
fn geometry_types_codes() {
    let all = [
        GeometryTypes::Point,
        GeometryTypes::LineString,
        GeometryTypes::LinearRing,
        GeometryTypes::Polygon,
        GeometryTypes::MultiPoint,
        GeometryTypes::MultiLineString,
        GeometryTypes::MultiPolygon,
        GeometryTypes::GeometryCollection,
        GeometryTypes::CircularString,
        GeometryTypes::CompoundCurve,
        GeometryTypes::CurvePolygon,
        GeometryTypes::MultiCurve,
        GeometryTypes::MultiSurface,
    ];
    for (i, t) in all.iter().enumerate() {
        let n: i32 = (*t).into();
        assert_eq!(n, i as i32);
        assert_eq!(GeometryTypes::try_from(i as i32), Ok(*t));
    }
    assert_eq!(
        GeometryTypes::try_from(13),
        Err(generic("invalid geometry type id"))
    );
    assert_eq!(
        GeometryTypes::try_from(-1),
        Err(generic("invalid geometry type id"))
    );
}

#[test]
fn geometry_types_categories() {
    assert!(GeometryTypes::Polygon.is_surface());
    assert!(GeometryTypes::CurvePolygon.is_surface());
    assert!(!GeometryTypes::MultiPolygon.is_surface());
    assert!(GeometryTypes::LineString.is_curve());
    assert!(GeometryTypes::LinearRing.is_curve());
    assert!(GeometryTypes::CircularString.is_curve());
    assert!(!GeometryTypes::CompoundCurve.is_curve());
    assert!(GeometryTypes::GeometryCollection.is_collection());
    assert!(GeometryTypes::MultiSurface.is_collection());
    assert!(!GeometryTypes::Point.is_collection());
    assert!(!GeometryTypes::Point.is_curve() && !GeometryTypes::Point.is_surface());
}

#[test]
fn orientation_codes() {
    assert_eq!(Orientation::try_from(-1), Ok(Orientation::CounterClockwise));
    assert_eq!(Orientation::try_from(0), Ok(Orientation::Colinear));
    assert_eq!(Orientation::try_from(1), Ok(Orientation::Clockwise));
    assert_eq!(
        Orientation::try_from(2),
        Err(generic("value must be -1, 0 or 1"))
    );
    let n: i32 = Orientation::CounterClockwise.into();
    assert_eq!(n, -1);
    let c: i32 = Orientation::Colinear.into();
    assert_eq!(c, 0);
}

#[test]
fn ordinate_codes() {
    assert_eq!(Ordinate::try_from(0usize), Ok(Ordinate::X));
    assert_eq!(Ordinate::try_from(3usize), Ok(Ordinate::M));
    assert_eq!(
        Ordinate::try_from(4usize),
        Err(generic("ordinate value must be >= 0 and <= 3"))
    );
    let z: u32 = Ordinate::Z.into();
    assert_eq!(z, 2);
}

#[test]
fn precision_codes() {
    assert_eq!(Precision::try_from(1), Ok(Precision::NoTopo));
    assert_eq!(Precision::try_from(3), Err(generic("Unknown precision type")));
    let k: i32 = Precision::KeepCollapsed.into();
    assert_eq!(k, 2);
}

#[test]
fn join_and_cap_styles() {
    assert_eq!(JoinStyle::default(), JoinStyle::Round);
    assert_eq!(CapStyle::default(), CapStyle::Round);
    assert_eq!(JoinStyle::try_from(2), Ok(JoinStyle::Mitre));
    assert_eq!(JoinStyle::try_from(0), Err(generic("Unknown join style")));
    assert_eq!(CapStyle::try_from(3), Ok(CapStyle::Square));
    assert_eq!(CapStyle::try_from(4), Err(generic("Unknown cap style")));
    let b: i32 = JoinStyle::Bevel.into();
    let f: i32 = CapStyle::Flat.into();
    assert_eq!((b, f), (3, 2));
}

#[test]
fn make_valid_method_and_dimension_type() {
    assert_eq!(MakeValidMethod::default(), MakeValidMethod::Linework);
    assert_eq!(MakeValidMethod::try_from(1u32), Ok(MakeValidMethod::Structure));
    assert_eq!(
        MakeValidMethod::try_from(2u32),
        Err(generic("Unknown make valid method"))
    );
    let s: u32 = MakeValidMethod::Structure.into();
    assert_eq!(s, 1);
    assert_eq!(DimensionType::try_from(2), Ok(DimensionType::Surface));
    assert_eq!(
        DimensionType::try_from(3),
        Err(generic("Unknown dimension type"))
    );
}
