# geos (verified core)

The verified part of a Rust binding to the GEOS geometry engine.

- `src/` is checked by Verus. It holds the enumerations that cross the C
  boundary with their integer codes, the error type and its text, the
  message state of a GEOS context, and the decisions that the binding takes
  around each call into GEOS: reading return values, checking geometry
  types before building collections and polygons, reading points,
  measuring along lines or offsetting curves, the layout of coordinate
  sequences and which ordinates their accessors reach, how rings are
  closed before they become linear rings, the order in which buffer and
  make-valid settings are applied, and how GEOS version strings are read.
- `app/` holds what handles floating-point coordinates, geo-types and
  GeoJSON values, the environment and text output.
- `tests/` exercises the library on concrete values.

## Feature configuration

GEOS adds enumeration variants and geometry types from one version to the
next. This crate describes a build against GEOS 3.14 with every version
feature enabled: coordinate dimensions 2 to 4, coordinate types XY, XYZ,
XYZM and XYM, the M ordinate, the curved geometry types, `Precision` and
`MakeValidMethod`. The type checks before GEOS calls accept what GEOS 3.14
handles (a circular string has a start point, a multi line string can be
measured along, any polygon or point can be offset).
