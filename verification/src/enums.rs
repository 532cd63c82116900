use crate::error::Error;
use vstd::prelude::*;
use vstd::string::*;

verus! {

/// Number of dimensions of a coordinate, as GEOS counts them.
#[derive(Debug, Clone, Copy, Ord, PartialOrd, Eq, PartialEq, Structural)]
pub enum CoordDimensions {
    TwoD,
    ThreeD,
    FourD,
}

impl CoordDimensions {
    /// The integer GEOS uses for this value.
    pub open spec fn code(self) -> int {
        match self {
            CoordDimensions::TwoD => 2,
            CoordDimensions::ThreeD => 3,
            CoordDimensions::FourD => 4,
        }
    }

    /// The value GEOS means by `n`, if any.
    pub open spec fn from_code(n: int) -> Option<Self> {
        if n == 2 {
            Some(CoordDimensions::TwoD)
        } else if n == 3 {
            Some(CoordDimensions::ThreeD)
        } else if n == 4 {
            Some(CoordDimensions::FourD)
        } else {
            None
        }
    }
}

impl TryFrom<i32> for CoordDimensions {
    type Error = Error;

    fn try_from(value: i32) -> (res: Result<Self, Error>)
        ensures
            match Self::from_code(value as int) {
                Some(v) => res == Ok::<Self, Error>(v),
                None => res matches Err(Error::GenericError(s)) && s@ == "dimensions must be 2, 3 or 4"@,
            },
    {
        match value {
            2 => Ok(Self::TwoD),
            3 => Ok(Self::ThreeD),
            4 => Ok(Self::FourD),
            _ => Err(Error::GenericError(String::from_str("dimensions must be 2, 3 or 4"))),
        }
    }
}

impl vstd::std_specs::convert::TryFromSpecImpl<i32> for CoordDimensions {
    open spec fn obeys_try_from_spec() -> bool {
        false
    }

    open spec fn try_from_spec(v: i32) -> Result<Self, Error> {
        arbitrary()
    }
}

impl From<CoordDimensions> for i32 {
    fn from(value: CoordDimensions) -> (res: i32)
        ensures
            res == value.code(),
    {
        match value {
            CoordDimensions::TwoD => 2,
            CoordDimensions::ThreeD => 3,
            CoordDimensions::FourD => 4,
        }
    }
}

impl vstd::std_specs::convert::FromSpecImpl<CoordDimensions> for i32 {
    open spec fn obeys_from_spec() -> bool {
        true
    }

    open spec fn from_spec(v: CoordDimensions) -> i32 {
        v.code() as i32
    }
}

/// Ordinates that the coordinates of a sequence carry.
#[derive(Debug, Clone, Copy, Ord, PartialOrd, Eq, PartialEq, Structural)]
pub enum CoordType {
    XY,
    XYZ,
    XYZM,
    XYM,
}

impl CoordType {
    /// Whether the coordinates carry a Z ordinate.
    pub open spec fn spec_has_z(&self) -> bool {
        self is XYZ || self is XYZM
    }

    /// Whether the coordinates carry an M ordinate.
    pub open spec fn spec_has_m(&self) -> bool {
        self is XYM || self is XYZM
    }

    /// Number of ordinates per coordinate.
    pub open spec fn dims(self) -> int {
        match self {
            CoordType::XY => 2,
            CoordType::XYZ => 3,
            CoordType::XYM => 3,
            CoordType::XYZM => 4,
        }
    }

    /// The coordinate type of `n` ordinates, if GEOS has one.
    pub open spec fn from_dims(n: int) -> Option<Self> {
        if n == 2 {
            Some(CoordType::XY)
        } else if n == 3 {
            Some(CoordType::XYZ)
        } else if n == 4 {
            Some(CoordType::XYZM)
        } else {
            None
        }
    }

    /// The coordinate type with the given optional ordinates.
    pub open spec fn from_flags(has_z: bool, has_m: bool) -> Self {
        if has_z {
            if has_m { CoordType::XYZM } else { CoordType::XYZ }
        } else {
            if has_m { CoordType::XYM } else { CoordType::XY }
        }
    }

    #[verifier::when_used_as_spec(spec_has_z)]
    pub fn has_z(&self) -> (res: bool)
        ensures
            res == self.spec_has_z(),
    {
        matches!(self, Self::XYZ | Self::XYZM)
    }

    #[verifier::when_used_as_spec(spec_has_m)]
    pub fn has_m(&self) -> (res: bool)
        ensures
            res == self.spec_has_m(),
    {
        matches!(self, Self::XYM | Self::XYZM)
    }
}

impl TryFrom<(bool, bool)> for CoordType {
    type Error = Error;

    /// Coordinate type from `(has_z, has_m)`; every pair names one.
    fn try_from(flags: (bool, bool)) -> (res: Result<Self, Error>)
        ensures
            res == Ok::<Self, Error>(Self::from_flags(flags.0, flags.1)),
    {
        match flags {
            (false, false) => Ok(Self::XY),
            (true, false) => Ok(Self::XYZ),
            (false, true) => Ok(Self::XYM),
            (true, true) => Ok(Self::XYZM),
        }
    }
}

impl vstd::std_specs::convert::TryFromSpecImpl<(bool, bool)> for CoordType {
    open spec fn obeys_try_from_spec() -> bool {
        false
    }

    open spec fn try_from_spec(v: (bool, bool)) -> Result<Self, Error> {
        arbitrary()
    }
}

impl TryFrom<u32> for CoordType {
    type Error = Error;

    fn try_from(dimensions: u32) -> (res: Result<Self, Error>)
        ensures
            match Self::from_dims(dimensions as int) {
                Some(v) => res == Ok::<Self, Error>(v),
                None => res matches Err(Error::GenericError(s)) && s@
                    == "dimensions must be >=2 and <= 4"@,
            },
    {
        match dimensions {
            2 => Ok(Self::XY),
            3 => Ok(Self::XYZ),
            4 => Ok(Self::XYZM),
            _ => Err(Error::GenericError(String::from_str("dimensions must be >=2 and <= 4"))),
        }
    }
}

impl vstd::std_specs::convert::TryFromSpecImpl<u32> for CoordType {
    open spec fn obeys_try_from_spec() -> bool {
        false
    }

    open spec fn try_from_spec(v: u32) -> Result<Self, Error> {
        arbitrary()
    }
}

impl From<CoordType> for u32 {
    fn from(c: CoordType) -> (res: u32)
        ensures
            res == c.dims(),
    {
        match c {
            CoordType::XY => 2,
            CoordType::XYZ => 3,
            CoordType::XYM => 3,
            CoordType::XYZM => 4,
        }
    }
}

impl vstd::std_specs::convert::FromSpecImpl<CoordType> for u32 {
    open spec fn obeys_from_spec() -> bool {
        true
    }

    open spec fn from_spec(v: CoordType) -> u32 {
        v.dims() as u32
    }
}

/// Byte order of WKB output.
#[derive(Debug, Clone, Copy, Ord, PartialOrd, Eq, PartialEq, Structural)]
pub enum ByteOrder {
    BigEndian,
    LittleEndian,
}

impl ByteOrder {
    /// The integer GEOS uses for this value.
    pub open spec fn code(self) -> int {
        match self {
            ByteOrder::BigEndian => 0,
            ByteOrder::LittleEndian => 1,
        }
    }

    /// The value GEOS means by `n`, if any.
    pub open spec fn from_code(n: int) -> Option<Self> {
        if n == 0 {
            Some(ByteOrder::BigEndian)
        } else if n == 1 {
            Some(ByteOrder::LittleEndian)
        } else {
            None
        }
    }
}

impl TryFrom<i32> for ByteOrder {
    type Error = Error;

    /// Zero is big endian; every other value is little endian.
    fn try_from(order: i32) -> (res: Result<Self, Error>)
        ensures
            res == Ok::<Self, Error>(if order == 0 { ByteOrder::BigEndian } else { ByteOrder::LittleEndian }),
    {
        match order {
            0 => Ok(Self::BigEndian),
            _ => Ok(Self::LittleEndian),
        }
    }
}

impl vstd::std_specs::convert::TryFromSpecImpl<i32> for ByteOrder {
    open spec fn obeys_try_from_spec() -> bool {
        false
    }

    open spec fn try_from_spec(v: i32) -> Result<Self, Error> {
        arbitrary()
    }
}

impl From<ByteOrder> for i32 {
    fn from(value: ByteOrder) -> (res: i32)
        ensures
            res == value.code(),
    {
        match value {
            ByteOrder::BigEndian => 0,
            ByteOrder::LittleEndian => 1,
        }
    }
}

impl vstd::std_specs::convert::FromSpecImpl<ByteOrder> for i32 {
    open spec fn obeys_from_spec() -> bool {
        true
    }

    open spec fn from_spec(v: ByteOrder) -> i32 {
        v.code() as i32
    }
}

/// Type of a GEOS geometry.
#[derive(Debug, Clone, Copy, Ord, PartialOrd, Eq, PartialEq, Structural)]
pub enum GeometryTypes {
    Point,
    LineString,
    LinearRing,
    Polygon,
    MultiPoint,
    MultiLineString,
    MultiPolygon,
    GeometryCollection,
    CircularString,
    CompoundCurve,
    CurvePolygon,
    MultiCurve,
    MultiSurface,
}

impl GeometryTypes {
    /// The integer GEOS uses for this value.
    pub open spec fn code(self) -> int {
        match self {
            GeometryTypes::Point => 0,
            GeometryTypes::LineString => 1,
            GeometryTypes::LinearRing => 2,
            GeometryTypes::Polygon => 3,
            GeometryTypes::MultiPoint => 4,
            GeometryTypes::MultiLineString => 5,
            GeometryTypes::MultiPolygon => 6,
            GeometryTypes::GeometryCollection => 7,
            GeometryTypes::CircularString => 8,
            GeometryTypes::CompoundCurve => 9,
            GeometryTypes::CurvePolygon => 10,
            GeometryTypes::MultiCurve => 11,
            GeometryTypes::MultiSurface => 12,
        }
    }

    /// The value GEOS means by `n`, if any.
    pub open spec fn from_code(n: int) -> Option<Self> {
        if n == 0 {
            Some(GeometryTypes::Point)
        } else if n == 1 {
            Some(GeometryTypes::LineString)
        } else if n == 2 {
            Some(GeometryTypes::LinearRing)
        } else if n == 3 {
            Some(GeometryTypes::Polygon)
        } else if n == 4 {
            Some(GeometryTypes::MultiPoint)
        } else if n == 5 {
            Some(GeometryTypes::MultiLineString)
        } else if n == 6 {
            Some(GeometryTypes::MultiPolygon)
        } else if n == 7 {
            Some(GeometryTypes::GeometryCollection)
        } else if n == 8 {
            Some(GeometryTypes::CircularString)
        } else if n == 9 {
            Some(GeometryTypes::CompoundCurve)
        } else if n == 10 {
            Some(GeometryTypes::CurvePolygon)
        } else if n == 11 {
            Some(GeometryTypes::MultiCurve)
        } else if n == 12 {
            Some(GeometryTypes::MultiSurface)
        } else {
            None
        }
    }
}

impl TryFrom<i32> for GeometryTypes {
    type Error = Error;

    fn try_from(value: i32) -> (res: Result<Self, Error>)
        ensures
            match Self::from_code(value as int) {
                Some(v) => res == Ok::<Self, Error>(v),
                None => res matches Err(Error::GenericError(s)) && s@ == "invalid geometry type id"@,
            },
    {
        match value {
            0 => Ok(Self::Point),
            1 => Ok(Self::LineString),
            2 => Ok(Self::LinearRing),
            3 => Ok(Self::Polygon),
            4 => Ok(Self::MultiPoint),
            5 => Ok(Self::MultiLineString),
            6 => Ok(Self::MultiPolygon),
            7 => Ok(Self::GeometryCollection),
            8 => Ok(Self::CircularString),
            9 => Ok(Self::CompoundCurve),
            10 => Ok(Self::CurvePolygon),
            11 => Ok(Self::MultiCurve),
            12 => Ok(Self::MultiSurface),
            _ => Err(Error::GenericError(String::from_str("invalid geometry type id"))),
        }
    }
}

impl vstd::std_specs::convert::TryFromSpecImpl<i32> for GeometryTypes {
    open spec fn obeys_try_from_spec() -> bool {
        false
    }

    open spec fn try_from_spec(v: i32) -> Result<Self, Error> {
        arbitrary()
    }
}

impl From<GeometryTypes> for i32 {
    fn from(value: GeometryTypes) -> (res: i32)
        ensures
            res == value.code(),
    {
        match value {
            GeometryTypes::Point => 0,
            GeometryTypes::LineString => 1,
            GeometryTypes::LinearRing => 2,
            GeometryTypes::Polygon => 3,
            GeometryTypes::MultiPoint => 4,
            GeometryTypes::MultiLineString => 5,
            GeometryTypes::MultiPolygon => 6,
            GeometryTypes::GeometryCollection => 7,
            GeometryTypes::CircularString => 8,
            GeometryTypes::CompoundCurve => 9,
            GeometryTypes::CurvePolygon => 10,
            GeometryTypes::MultiCurve => 11,
            GeometryTypes::MultiSurface => 12,
        }
    }
}

impl vstd::std_specs::convert::FromSpecImpl<GeometryTypes> for i32 {
    open spec fn obeys_from_spec() -> bool {
        true
    }

    open spec fn from_spec(v: GeometryTypes) -> i32 {
        v.code() as i32
    }
}

impl GeometryTypes {
    /// The name GEOS gives this geometry type.
    pub open spec fn geos_name(self) -> Seq<char> {
        match self {
            GeometryTypes::Point => "Point"@,
            GeometryTypes::LineString => "LineString"@,
            GeometryTypes::LinearRing => "LinearRing"@,
            GeometryTypes::Polygon => "Polygon"@,
            GeometryTypes::MultiPoint => "MultiPoint"@,
            GeometryTypes::MultiLineString => "MultiLineString"@,
            GeometryTypes::MultiPolygon => "MultiPolygon"@,
            GeometryTypes::GeometryCollection => "GeometryCollection"@,
            GeometryTypes::CircularString => "CircularString"@,
            GeometryTypes::CompoundCurve => "CompoundCurve"@,
            GeometryTypes::CurvePolygon => "CurvePolygon"@,
            GeometryTypes::MultiCurve => "MultiCurve"@,
            GeometryTypes::MultiSurface => "MultiSurface"@,
        }
    }

    pub open spec fn spec_is_surface(self) -> bool {
        self is Polygon || self is CurvePolygon
    }

    pub open spec fn spec_is_curve(self) -> bool {
        self is LineString || self is LinearRing || self is CircularString
    }

    pub open spec fn spec_is_collection(self) -> bool {
        ||| self is GeometryCollection
        ||| self is MultiPoint
        ||| self is MultiLineString
        ||| self is MultiPolygon
        ||| self is MultiCurve
        ||| self is MultiSurface
    }

    #[verifier::when_used_as_spec(spec_is_surface)]
    pub fn is_surface(self) -> (res: bool)
        ensures
            res == self.spec_is_surface(),
    {
        matches!(self, Self::Polygon | Self::CurvePolygon)
    }

    #[verifier::when_used_as_spec(spec_is_curve)]
    pub fn is_curve(self) -> (res: bool)
        ensures
            res == self.spec_is_curve(),
    {
        matches!(self, Self::LineString | Self::LinearRing | Self::CircularString)
    }

    #[verifier::when_used_as_spec(spec_is_collection)]
    pub fn is_collection(self) -> (res: bool)
        ensures
            res == self.spec_is_collection(),
    {
        matches!(
            self,
            Self::GeometryCollection | Self::MultiPoint | Self::MultiLineString
                | Self::MultiPolygon | Self::MultiCurve | Self::MultiSurface
        )
    }
}

/// Orientation of a point P with regard to a segment A-B, as
/// `GEOSOrientationIndex_r` reports it: -1 for a left turn, 0 for a
/// collinear point, 1 for a right turn.
#[derive(Debug, Clone, Copy, Ord, PartialOrd, Eq, PartialEq, Structural)]
pub enum Orientation {
    /// If reaching P takes a counter-clockwise (left) turn.
    CounterClockwise,
    /// If reaching P takes a clockwise (right) turn
    Clockwise,
    /// if P is collinear with A-B.
    Colinear,
}

impl Orientation {
    /// The integer GEOS uses for this value.
    pub open spec fn code(self) -> int {
        match self {
            Orientation::CounterClockwise => -1,
            Orientation::Clockwise => 1,
            Orientation::Colinear => 0,
        }
    }

    /// The value GEOS means by `n`, if any.
    pub open spec fn from_code(n: int) -> Option<Self> {
        if n == -1 {
            Some(Orientation::CounterClockwise)
        } else if n == 0 {
            Some(Orientation::Colinear)
        } else if n == 1 {
            Some(Orientation::Clockwise)
        } else {
            None
        }
    }
}

impl TryFrom<i32> for Orientation {
    type Error = Error;

    fn try_from(value: i32) -> (res: Result<Self, Error>)
        ensures
            match Self::from_code(value as int) {
                Some(v) => res == Ok::<Self, Error>(v),
                None => res matches Err(Error::GenericError(s)) && s@ == "value must be -1, 0 or 1"@,
            },
    {
        match value {
            -1 => Ok(Self::CounterClockwise),
            0 => Ok(Self::Colinear),
            1 => Ok(Self::Clockwise),
            _ => Err(Error::GenericError(String::from_str("value must be -1, 0 or 1"))),
        }
    }
}

impl vstd::std_specs::convert::TryFromSpecImpl<i32> for Orientation {
    open spec fn obeys_try_from_spec() -> bool {
        false
    }

    open spec fn try_from_spec(v: i32) -> Result<Self, Error> {
        arbitrary()
    }
}

impl From<Orientation> for i32 {
    fn from(value: Orientation) -> (res: i32)
        ensures
            res == value.code(),
    {
        match value {
            Orientation::CounterClockwise => -1,
            Orientation::Clockwise => 1,
            Orientation::Colinear => 0,
        }
    }
}

impl vstd::std_specs::convert::FromSpecImpl<Orientation> for i32 {
    open spec fn obeys_from_spec() -> bool {
        true
    }

    open spec fn from_spec(v: Orientation) -> i32 {
        v.code() as i32
    }
}

/// Ordinate of a coordinate.
#[derive(Debug, Clone, Copy, Ord, PartialOrd, Eq, PartialEq, Structural)]
pub enum Ordinate {
    X,
    Y,
    Z,
    M,
}

impl Ordinate {
    /// The integer GEOS uses for this value.
    pub open spec fn code(self) -> int {
        match self {
            Ordinate::X => 0,
            Ordinate::Y => 1,
            Ordinate::Z => 2,
            Ordinate::M => 3,
        }
    }

    /// The value GEOS means by `n`, if any.
    pub open spec fn from_code(n: int) -> Option<Self> {
        if n == 0 {
            Some(Ordinate::X)
        } else if n == 1 {
            Some(Ordinate::Y)
        } else if n == 2 {
            Some(Ordinate::Z)
        } else if n == 3 {
            Some(Ordinate::M)
        } else {
            None
        }
    }
}

impl TryFrom<usize> for Ordinate {
    type Error = Error;

    fn try_from(value: usize) -> (res: Result<Self, Error>)
        ensures
            match Self::from_code(value as int) {
                Some(v) => res == Ok::<Self, Error>(v),
                None => res matches Err(Error::GenericError(s)) && s@ == "ordinate value must be >= 0 and <= 3"@,
            },
    {
        match value {
            0 => Ok(Self::X),
            1 => Ok(Self::Y),
            2 => Ok(Self::Z),
            3 => Ok(Self::M),
            _ => Err(Error::GenericError(String::from_str("ordinate value must be >= 0 and <= 3"))),
        }
    }
}

impl vstd::std_specs::convert::TryFromSpecImpl<usize> for Ordinate {
    open spec fn obeys_try_from_spec() -> bool {
        false
    }

    open spec fn try_from_spec(v: usize) -> Result<Self, Error> {
        arbitrary()
    }
}

impl From<Ordinate> for u32 {
    fn from(value: Ordinate) -> (res: u32)
        ensures
            res == value.code(),
    {
        match value {
            Ordinate::X => 0,
            Ordinate::Y => 1,
            Ordinate::Z => 2,
            Ordinate::M => 3,
        }
    }
}

impl vstd::std_specs::convert::FromSpecImpl<Ordinate> for u32 {
    open spec fn obeys_from_spec() -> bool {
        true
    }

    open spec fn from_spec(v: Ordinate) -> u32 {
        v.code() as u32
    }
}

/// Flags of a precision reduction.
#[derive(Debug, Clone, Copy, Ord, PartialOrd, Eq, PartialEq, Structural)]
pub enum Precision {
    ValidOutput,
    NoTopo,
    KeepCollapsed,
}

impl Precision {
    /// The integer GEOS uses for this value.
    pub open spec fn code(self) -> int {
        match self {
            Precision::ValidOutput => 0,
            Precision::NoTopo => 1,
            Precision::KeepCollapsed => 2,
        }
    }

    /// The value GEOS means by `n`, if any.
    pub open spec fn from_code(n: int) -> Option<Self> {
        if n == 0 {
            Some(Precision::ValidOutput)
        } else if n == 1 {
            Some(Precision::NoTopo)
        } else if n == 2 {
            Some(Precision::KeepCollapsed)
        } else {
            None
        }
    }
}

impl TryFrom<i32> for Precision {
    type Error = Error;

    fn try_from(value: i32) -> (res: Result<Self, Error>)
        ensures
            match Self::from_code(value as int) {
                Some(v) => res == Ok::<Self, Error>(v),
                None => res matches Err(Error::GenericError(s)) && s@ == "Unknown precision type"@,
            },
    {
        match value {
            0 => Ok(Self::ValidOutput),
            1 => Ok(Self::NoTopo),
            2 => Ok(Self::KeepCollapsed),
            _ => Err(Error::GenericError(String::from_str("Unknown precision type"))),
        }
    }
}

impl vstd::std_specs::convert::TryFromSpecImpl<i32> for Precision {
    open spec fn obeys_try_from_spec() -> bool {
        false
    }

    open spec fn try_from_spec(v: i32) -> Result<Self, Error> {
        arbitrary()
    }
}

impl From<Precision> for i32 {
    fn from(value: Precision) -> (res: i32)
        ensures
            res == value.code(),
    {
        match value {
            Precision::ValidOutput => 0,
            Precision::NoTopo => 1,
            Precision::KeepCollapsed => 2,
        }
    }
}

impl vstd::std_specs::convert::FromSpecImpl<Precision> for i32 {
    open spec fn obeys_from_spec() -> bool {
        true
    }

    open spec fn from_spec(v: Precision) -> i32 {
        v.code() as i32
    }
}

/// Join styles for a buffer operation.
#[derive(Debug, Clone, Copy, Ord, PartialOrd, Eq, PartialEq, Structural)]
pub enum JoinStyle {
    /// Specifies a round join style.
    Round,
    /// Specifies a mitre join style.
    Mitre,
    /// Specifies a bevel join style.
    Bevel,
}

impl JoinStyle {
    /// The integer GEOS uses for this value.
    pub open spec fn code(self) -> int {
        match self {
            JoinStyle::Round => 1,
            JoinStyle::Mitre => 2,
            JoinStyle::Bevel => 3,
        }
    }

    /// The value GEOS means by `n`, if any.
    pub open spec fn from_code(n: int) -> Option<Self> {
        if n == 1 {
            Some(JoinStyle::Round)
        } else if n == 2 {
            Some(JoinStyle::Mitre)
        } else if n == 3 {
            Some(JoinStyle::Bevel)
        } else {
            None
        }
    }
}

impl TryFrom<i32> for JoinStyle {
    type Error = Error;

    fn try_from(value: i32) -> (res: Result<Self, Error>)
        ensures
            match Self::from_code(value as int) {
                Some(v) => res == Ok::<Self, Error>(v),
                None => res matches Err(Error::GenericError(s)) && s@ == "Unknown join style"@,
            },
    {
        match value {
            1 => Ok(Self::Round),
            2 => Ok(Self::Mitre),
            3 => Ok(Self::Bevel),
            _ => Err(Error::GenericError(String::from_str("Unknown join style"))),
        }
    }
}

impl vstd::std_specs::convert::TryFromSpecImpl<i32> for JoinStyle {
    open spec fn obeys_try_from_spec() -> bool {
        false
    }

    open spec fn try_from_spec(v: i32) -> Result<Self, Error> {
        arbitrary()
    }
}

impl From<JoinStyle> for i32 {
    fn from(value: JoinStyle) -> (res: i32)
        ensures
            res == value.code(),
    {
        match value {
            JoinStyle::Round => 1,
            JoinStyle::Mitre => 2,
            JoinStyle::Bevel => 3,
        }
    }
}

impl vstd::std_specs::convert::FromSpecImpl<JoinStyle> for i32 {
    open spec fn obeys_from_spec() -> bool {
        true
    }

    open spec fn from_spec(v: JoinStyle) -> i32 {
        v.code() as i32
    }
}

impl Default for JoinStyle {
    fn default() -> (res: Self)
        ensures
            res == JoinStyle::Round,
    {
        JoinStyle::Round
    }
}

/// End cap styles for a buffer operation.
#[derive(Debug, Clone, Copy, Ord, PartialOrd, Eq, PartialEq, Structural)]
pub enum CapStyle {
    /// Specifies a round line buffer end cap style.
    Round,
    /// Specifies a flat line buffer end cap style.
    Flat,
    /// Specifies a square line buffer end cap style.
    Square,
}

impl CapStyle {
    /// The integer GEOS uses for this value.
    pub open spec fn code(self) -> int {
        match self {
            CapStyle::Round => 1,
            CapStyle::Flat => 2,
            CapStyle::Square => 3,
        }
    }

    /// The value GEOS means by `n`, if any.
    pub open spec fn from_code(n: int) -> Option<Self> {
        if n == 1 {
            Some(CapStyle::Round)
        } else if n == 2 {
            Some(CapStyle::Flat)
        } else if n == 3 {
            Some(CapStyle::Square)
        } else {
            None
        }
    }
}

impl TryFrom<i32> for CapStyle {
    type Error = Error;

    fn try_from(value: i32) -> (res: Result<Self, Error>)
        ensures
            match Self::from_code(value as int) {
                Some(v) => res == Ok::<Self, Error>(v),
                None => res matches Err(Error::GenericError(s)) && s@ == "Unknown cap style"@,
            },
    {
        match value {
            1 => Ok(Self::Round),
            2 => Ok(Self::Flat),
            3 => Ok(Self::Square),
            _ => Err(Error::GenericError(String::from_str("Unknown cap style"))),
        }
    }
}

impl vstd::std_specs::convert::TryFromSpecImpl<i32> for CapStyle {
    open spec fn obeys_try_from_spec() -> bool {
        false
    }

    open spec fn try_from_spec(v: i32) -> Result<Self, Error> {
        arbitrary()
    }
}

impl From<CapStyle> for i32 {
    fn from(value: CapStyle) -> (res: i32)
        ensures
            res == value.code(),
    {
        match value {
            CapStyle::Round => 1,
            CapStyle::Flat => 2,
            CapStyle::Square => 3,
        }
    }
}

impl vstd::std_specs::convert::FromSpecImpl<CapStyle> for i32 {
    open spec fn obeys_from_spec() -> bool {
        true
    }

    open spec fn from_spec(v: CapStyle) -> i32 {
        v.code() as i32
    }
}

impl Default for CapStyle {
    fn default() -> (res: Self)
        ensures
            res == CapStyle::Round,
    {
        CapStyle::Round
    }
}

/// Validation methods for a make-valid operation.
#[derive(Debug, Clone, Copy, Ord, PartialOrd, Eq, PartialEq, Structural)]
pub enum MakeValidMethod {
    /// The linework algorithm tries to preserve every edge and vertex in the input.
    Linework,
    /// The structure algorithm tries to reason from the structure of the input to find the correct repair.
    Structure,
}

impl MakeValidMethod {
    /// The integer GEOS uses for this value.
    pub open spec fn code(self) -> int {
        match self {
            MakeValidMethod::Linework => 0,
            MakeValidMethod::Structure => 1,
        }
    }

    /// The value GEOS means by `n`, if any.
    pub open spec fn from_code(n: int) -> Option<Self> {
        if n == 0 {
            Some(MakeValidMethod::Linework)
        } else if n == 1 {
            Some(MakeValidMethod::Structure)
        } else {
            None
        }
    }
}

impl TryFrom<u32> for MakeValidMethod {
    type Error = Error;

    fn try_from(value: u32) -> (res: Result<Self, Error>)
        ensures
            match Self::from_code(value as int) {
                Some(v) => res == Ok::<Self, Error>(v),
                None => res matches Err(Error::GenericError(s)) && s@ == "Unknown make valid method"@,
            },
    {
        match value {
            0 => Ok(Self::Linework),
            1 => Ok(Self::Structure),
            _ => Err(Error::GenericError(String::from_str("Unknown make valid method"))),
        }
    }
}

impl vstd::std_specs::convert::TryFromSpecImpl<u32> for MakeValidMethod {
    open spec fn obeys_try_from_spec() -> bool {
        false
    }

    open spec fn try_from_spec(v: u32) -> Result<Self, Error> {
        arbitrary()
    }
}

impl From<MakeValidMethod> for u32 {
    fn from(value: MakeValidMethod) -> (res: u32)
        ensures
            res == value.code(),
    {
        match value {
            MakeValidMethod::Linework => 0,
            MakeValidMethod::Structure => 1,
        }
    }
}

impl vstd::std_specs::convert::FromSpecImpl<MakeValidMethod> for u32 {
    open spec fn obeys_from_spec() -> bool {
        true
    }

    open spec fn from_spec(v: MakeValidMethod) -> u32 {
        v.code() as u32
    }
}

impl Default for MakeValidMethod {
    fn default() -> (res: Self)
        ensures
            res == MakeValidMethod::Linework,
    {
        MakeValidMethod::Linework
    }
}

/// Topological dimension of a geometry.
#[derive(Debug, Clone, Copy, Ord, PartialOrd, Eq, PartialEq, Structural)]
pub enum DimensionType {
    Point,
    Curve,
    Surface,
}

impl DimensionType {
    /// The integer GEOS uses for this value.
    pub open spec fn code(self) -> int {
        match self {
            DimensionType::Point => 0,
            DimensionType::Curve => 1,
            DimensionType::Surface => 2,
        }
    }

    /// The value GEOS means by `n`, if any.
    pub open spec fn from_code(n: int) -> Option<Self> {
        if n == 0 {
            Some(DimensionType::Point)
        } else if n == 1 {
            Some(DimensionType::Curve)
        } else if n == 2 {
            Some(DimensionType::Surface)
        } else {
            None
        }
    }
}

impl TryFrom<i32> for DimensionType {
    type Error = Error;

    fn try_from(value: i32) -> (res: Result<Self, Error>)
        ensures
            match Self::from_code(value as int) {
                Some(v) => res == Ok::<Self, Error>(v),
                None => res matches Err(Error::GenericError(s)) && s@ == "Unknown dimension type"@,
            },
    {
        match value {
            0 => Ok(Self::Point),
            1 => Ok(Self::Curve),
            2 => Ok(Self::Surface),
            _ => Err(Error::GenericError(String::from_str("Unknown dimension type"))),
        }
    }
}

impl vstd::std_specs::convert::TryFromSpecImpl<i32> for DimensionType {
    open spec fn obeys_try_from_spec() -> bool {
        false
    }

    open spec fn try_from_spec(v: i32) -> Result<Self, Error> {
        arbitrary()
    }
}

} // verus!
