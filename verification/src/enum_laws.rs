use crate::enums::{
    ByteOrder, CapStyle, CoordDimensions, CoordType, DimensionType, GeometryTypes, JoinStyle,
    MakeValidMethod, Ordinate, Orientation, Precision,
};
use vstd::prelude::*;

verus! {

/// Decoding the integer that GEOS uses for a `CoordDimensions` gives that value back,
/// and every integer that decodes to a value is that value's integer: the
/// conversion to an integer and `try_from` undo each other.
pub proof fn coord_dimensions_code_round_trip(v: CoordDimensions, n: int)
    ensures
        CoordDimensions::from_code(v.code()) == Some(v),
        CoordDimensions::from_code(n) == Some(v) ==> v.code() == n,
{
}

/// Decoding the integer that GEOS uses for a `GeometryTypes` gives that value back,
/// and every integer that decodes to a value is that value's integer: the
/// conversion to an integer and `try_from` undo each other.
pub proof fn geometry_types_code_round_trip(v: GeometryTypes, n: int)
    ensures
        GeometryTypes::from_code(v.code()) == Some(v),
        GeometryTypes::from_code(n) == Some(v) ==> v.code() == n,
{
}

/// Decoding the integer that GEOS uses for a `Orientation` gives that value back,
/// and every integer that decodes to a value is that value's integer: the
/// conversion to an integer and `try_from` undo each other.
pub proof fn orientation_code_round_trip(v: Orientation, n: int)
    ensures
        Orientation::from_code(v.code()) == Some(v),
        Orientation::from_code(n) == Some(v) ==> v.code() == n,
{
}

/// Decoding the integer that GEOS uses for a `Ordinate` gives that value back,
/// and every integer that decodes to a value is that value's integer: the
/// conversion to an integer and `try_from` undo each other.
pub proof fn ordinate_code_round_trip(v: Ordinate, n: int)
    ensures
        Ordinate::from_code(v.code()) == Some(v),
        Ordinate::from_code(n) == Some(v) ==> v.code() == n,
{
}

/// Decoding the integer that GEOS uses for a `Precision` gives that value back,
/// and every integer that decodes to a value is that value's integer: the
/// conversion to an integer and `try_from` undo each other.
pub proof fn precision_code_round_trip(v: Precision, n: int)
    ensures
        Precision::from_code(v.code()) == Some(v),
        Precision::from_code(n) == Some(v) ==> v.code() == n,
{
}

/// Decoding the integer that GEOS uses for a `JoinStyle` gives that value back,
/// and every integer that decodes to a value is that value's integer: the
/// conversion to an integer and `try_from` undo each other.
pub proof fn join_style_code_round_trip(v: JoinStyle, n: int)
    ensures
        JoinStyle::from_code(v.code()) == Some(v),
        JoinStyle::from_code(n) == Some(v) ==> v.code() == n,
{
}

/// Decoding the integer that GEOS uses for a `CapStyle` gives that value back,
/// and every integer that decodes to a value is that value's integer: the
/// conversion to an integer and `try_from` undo each other.
pub proof fn cap_style_code_round_trip(v: CapStyle, n: int)
    ensures
        CapStyle::from_code(v.code()) == Some(v),
        CapStyle::from_code(n) == Some(v) ==> v.code() == n,
{
}

/// Decoding the integer that GEOS uses for a `MakeValidMethod` gives that value back,
/// and every integer that decodes to a value is that value's integer: the
/// conversion to an integer and `try_from` undo each other.
pub proof fn make_valid_method_code_round_trip(v: MakeValidMethod, n: int)
    ensures
        MakeValidMethod::from_code(v.code()) == Some(v),
        MakeValidMethod::from_code(n) == Some(v) ==> v.code() == n,
{
}

/// Decoding the integer that GEOS uses for a `DimensionType` gives that value back,
/// and every integer that decodes to a value is that value's integer: the
/// conversion to an integer and `try_from` undo each other.
pub proof fn dimension_type_code_round_trip(v: DimensionType, n: int)
    ensures
        DimensionType::from_code(v.code()) == Some(v),
        DimensionType::from_code(n) == Some(v) ==> v.code() == n,
{
}

/// A byte order survives the conversion to an integer and back.
pub proof fn byte_order_code_round_trip(b: ByteOrder)
    ensures
        b == (if b.code() == 0 { ByteOrder::BigEndian } else { ByteOrder::LittleEndian }),
{
}

/// The Z and M flags of a coordinate type name that type again, and its
/// number of ordinates is two plus one for each flag that is set.
pub proof fn coord_type_flags_determine_type(c: CoordType)
    ensures
        CoordType::from_flags(c.has_z(), c.has_m()) == c,
        c.dims() == 2 + (if c.has_z() { 1int } else { 0 }) + (if c.has_m() { 1int } else { 0 }),
{
}

/// Converting a coordinate type to its number of ordinates and back gives
/// the same type, for every type but XYM: XYM has three ordinates, and
/// three ordinates are read back as XYZ.
pub proof fn coord_type_dims_round_trip(c: CoordType, n: int)
    ensures
        c != CoordType::XYM ==> CoordType::from_dims(c.dims()) == Some(c),
        CoordType::from_dims(CoordType::XYM.dims()) == Some(CoordType::XYZ),
        CoordType::from_dims(n) == Some(c) ==> c.dims() == n,
{
}

/// No geometry type is at once a surface, a curve and a collection: the
/// three categories are pairwise disjoint.
pub proof fn geometry_type_categories_disjoint(t: GeometryTypes)
    ensures
        !(t.is_surface() && t.is_curve()),
        !(t.is_surface() && t.is_collection()),
        !(t.is_curve() && t.is_collection()),
{
}

} // verus!
