use crate::enums::{CoordType, Ordinate};
use crate::error::{is_generic_error, Error, GResult};
use vstd::prelude::*;
use vstd::string::*;

verus! {

/// What the binding knows of a GEOS coordinate sequence without asking
/// GEOS: its number of coordinates and the ordinates each one carries.
#[derive(Debug, Clone, Copy, PartialEq, Eq, Structural)]
pub struct CoordSeqLayout {
    pub size: usize,
    pub coord_type: CoordType,
}

/// The coordinate type of a sequence built from rows whose first row has
/// `first_len` values (the length is passed to GEOS as a `u32`).
pub open spec fn row_coord_type(first_len: usize) -> Option<CoordType> {
    CoordType::from_dims((first_len as u32) as int)
}

/// Whether all rows have the length of the first one.
pub open spec fn rows_agree(row_lens: Seq<usize>) -> bool {
    forall|i: int| 0 <= i < row_lens.len() ==> #[trigger] row_lens[i] == row_lens[0]
}

impl CoordSeqLayout {
    /// The layout of `CoordSeq::new(size, coord_type)`.
    pub fn new(size: u32, coord_type: CoordType) -> (res: Self)
        ensures
            res.size == size,
            res.coord_type == coord_type,
    {
        CoordSeqLayout { size: size as usize, coord_type }
    }

    /// The check that `CoordSeq::new_from_vec` makes on its rows, given the
    /// length of each row, and the layout of the sequence it then builds.
    pub fn from_rows(row_lens: &[usize]) -> (res: GResult<Self>)
        ensures
            row_lens@.len() == 0 ==> is_generic_error(
                res,
                "Can't determine dimension for the CoordSeq"@,
            ),
            row_lens@.len() > 0 && row_coord_type(row_lens@[0]) is None ==> is_generic_error(
                res,
                "dimensions must be >=2 and <= 4"@,
            ),
            row_lens@.len() > 0 && row_coord_type(row_lens@[0]) is Some && !rows_agree(row_lens@) ==> is_generic_error(
                res,
                "All vec entries must have the same size!"@,
            ),
            row_lens@.len() > 0 && row_coord_type(row_lens@[0]) is Some && rows_agree(row_lens@) ==> res == Ok::<
                Self,
                Error,
            >(
                CoordSeqLayout {
                    size: ((row_lens@.len() as usize) as u32) as usize,
                    coord_type: row_coord_type(row_lens@[0])->0,
                },
            ),
    {
        let size = row_lens.len();
        if size == 0 {
            return Err(
                Error::GenericError(String::from_str("Can't determine dimension for the CoordSeq")),
            );
        }
        let coord_dims = row_lens[0];
        let coord_type = CoordType::try_from(#[verifier::truncate] (coord_dims as u32))?;
        let mut i: usize = 1;
        while i < size
            invariant
                size == row_lens@.len(),
                1 <= i <= size,
                coord_dims == row_lens@[0],
                row_coord_type(coord_dims) == Some(coord_type),
                forall|j: int| 0 <= j < i ==> row_lens@[j] == coord_dims,
            decreases size - i,
        {
            if row_lens[i] != coord_dims {
                return Err(
                    Error::GenericError(String::from_str("All vec entries must have the same size!")),
                );
            }
            i = i + 1;
        }
        Ok(CoordSeqLayout { size: (#[verifier::truncate] (size as u32)) as usize, coord_type })
    }

    /// The layout of `CoordSeq::new_from_arrays`, given the lengths of the
    /// arrays; the Z and M arrays are optional and decide the coordinate
    /// type. The arrays must all have the same length.
    pub fn from_arrays(x_len: usize, y_len: usize, z_len: Option<usize>, m_len: Option<usize>) -> (res:
        Self)
        requires
            y_len == x_len,
            z_len matches Some(z) ==> z == x_len,
            m_len matches Some(m) ==> m == x_len,
        ensures
            res.size == (x_len as u32) as usize,
            res.coord_type == CoordType::from_flags(z_len is Some, m_len is Some),
    {
        let coord_type = match CoordType::try_from((z_len.is_some(), m_len.is_some())) {
            Ok(c) => c,
            Err(_) => CoordType::XY,
        };
        CoordSeqLayout { size: (#[verifier::truncate] (x_len as u32)) as usize, coord_type }
    }

    /// The number of values in a buffer that holds `size` coordinates of
    /// type `coord_type`, as `CoordSeq::new_from_buffer` expects it.
    pub fn buffer_len_for(size: usize, coord_type: CoordType) -> (res: usize)
        requires
            size * coord_type.dims() <= usize::MAX,
        ensures
            res == size * coord_type.dims(),
    {
        let dims: u32 = coord_type.into();
        size * (dims as usize)
    }

    /// The layout of `CoordSeq::new_from_buffer(data, size, coord_type)`,
    /// given the length of `data`, which must hold exactly `size` coordinates.
    pub fn from_buffer(data_len: usize, size: usize, coord_type: CoordType) -> (res: Self)
        requires
            data_len == size * coord_type.dims(),
        ensures
            res.size == (size as u32) as usize,
            res.coord_type == coord_type,
    {
        CoordSeqLayout { size: (#[verifier::truncate] (size as u32)) as usize, coord_type }
    }

    /// The length of the buffer `as_buffer` fills, for the requested
    /// coordinate type or else the sequence's own.
    pub fn as_buffer_len(&self, coord_type: Option<CoordType>) -> (res: usize)
        requires
            self.size * (match coord_type {
                Some(c) => c,
                None => self.coord_type,
            }).dims() <= usize::MAX,
        ensures
            res == self.size * (match coord_type {
                Some(c) => c,
                None => self.coord_type,
            }).dims(),
    {
        let c = match coord_type {
            Some(c) => c,
            None => self.coord_type,
        };
        Self::buffer_len_for(self.size, c)
    }

    /// Whether `get_ordinate` and `set_ordinate` accept the line and the
    /// ordinate: the line must exist and the sequence must have enough
    /// dimensions for the ordinate's index (X and Y always, Z from three
    /// dimensions on, so also on an XYM sequence), or, for M, carry an M
    /// ordinate.
    pub open spec fn spec_accepts_ordinate(&self, line: usize, ordinate: Ordinate) -> bool {
        &&& line < self.size
        &&& ordinate.code() < self.coord_type.dims() || (ordinate is M && self.coord_type.has_m())
    }

    #[verifier::when_used_as_spec(spec_accepts_ordinate)]
    pub fn accepts_ordinate(&self, line: usize, ordinate: Ordinate) -> (res: bool)
        ensures
            res == self.spec_accepts_ordinate(line, ordinate),
    {
        line < self.size && match ordinate {
            Ordinate::X | Ordinate::Y => true,
            Ordinate::Z => !matches!(self.coord_type, CoordType::XY),
            Ordinate::M => self.coord_type.has_m(),
        }
    }

    /// Whether the accessors named after an ordinate (`get_x`, `set_z`,
    /// `get_m`, ...) accept the line: it must exist, and the sequence must
    /// carry a Z (resp. M) ordinate for the Z (resp. M) accessors.
    pub open spec fn spec_accepts_named(&self, line: usize, ordinate: Ordinate) -> bool {
        &&& line < self.size
        &&& ordinate is Z ==> self.coord_type.has_z()
        &&& ordinate is M ==> self.coord_type.has_m()
    }

    #[verifier::when_used_as_spec(spec_accepts_named)]
    pub fn accepts_named(&self, line: usize, ordinate: Ordinate) -> (res: bool)
        ensures
            res == self.spec_accepts_named(line, ordinate),
    {
        line < self.size && match ordinate {
            Ordinate::X | Ordinate::Y => true,
            Ordinate::Z => self.coord_type.has_z(),
            Ordinate::M => self.coord_type.has_m(),
        }
    }
}

/// Every access that an accessor named after an ordinate accepts, the
/// ordinate accessors accept too; they differ only on Z of an XYM sequence,
/// which has enough dimensions for the index of Z but carries no Z. An
/// ordinate beyond the sequence's dimensions (Z on XY, M on XY or XYZ) is
/// refused by both.
pub proof fn ordinate_access_matches_named_access(l: CoordSeqLayout, line: usize, ordinate: Ordinate)
    ensures
        l.accepts_named(line, ordinate) ==> l.accepts_ordinate(line, ordinate),
        l.accepts_ordinate(line, ordinate) && !l.accepts_named(line, ordinate) <==> (
            line < l.size && ordinate == Ordinate::Z && l.coord_type == CoordType::XYM),
        l.coord_type == CoordType::XY ==> !l.accepts_ordinate(line, Ordinate::Z),
        l.coord_type == CoordType::XYZ ==> !l.accepts_ordinate(line, Ordinate::M),
{
}

} // verus!
