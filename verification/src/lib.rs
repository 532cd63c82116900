//! Verified core of a binding to the GEOS geometry engine: the
//! enumerations that cross the C boundary and their integer codes, the
//! error type, the message state of a GEOS context, and the decisions that
//! the binding takes around each call into GEOS (checking return values,
//! checking geometry types, planning coordinate sequences and rings,
//! ordering parameter settings, reading GEOS version strings).
use vstd::prelude::*;

pub mod buffer_params;
pub mod context_handle;
pub mod coord_seq;
pub mod enum_laws;
pub mod enums;
pub mod error;
pub mod from_geo;
pub mod functions;
pub mod geometry;
pub mod linear_ring;
pub mod make_valid_params;
pub mod to_geojson;
pub mod version;

pub use buffer_params::{BufferParamsBuilder, BufferParamsSetting};
pub use context_handle::{ContextHandle, InnerContext};
pub use coord_seq::CoordSeqLayout;
pub use enums::{
    ByteOrder, CapStyle, CoordDimensions, CoordType, DimensionType, GeometryTypes, JoinStyle,
    MakeValidMethod, Ordinate, Orientation, Precision,
};
pub use error::{Error, GResult};
pub use from_geo::GeoGeometryKind;
pub use functions::{orientation_index, segment_intersection};
pub use make_valid_params::{MakeValidParamsBuilder, MakeValidSetting};
pub use to_geojson::GeoJsonKind;
pub use version::{parse_geos_version, try_parse_geos_version, GeosVersion};

verus! {

} // verus!
