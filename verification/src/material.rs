//! The material table: fixed-width rows of physical properties.

use vstd::prelude::*;
use crate::bits::{F32_BITS_0_25, F32_BITS_1, F32_BITS_10};
use crate::error::ConfigError;

verus! {

/// The number of scalars in one material row: red, green, blue, density,
/// normal stiffness, shear stiffness.
pub const MATERIAL_ROW_WIDTH: usize = 6;

/// A flat, ordered store of material rows. Each row holds exactly
/// `row width` scalars — red, green, blue, density, normal stiffness, shear
/// stiffness — as raw 32-bit float bit patterns, laid out row-major. The
/// total length is always an exact multiple of the row width.
pub struct MaterialTable {
    values: Vec<u32>,
    row_width: usize,
}

impl MaterialTable {
    /// The stored scalars, row-major.
    pub closed spec fn spec_values(&self) -> Seq<u32> {
        self.values@
    }

    /// The number of scalars in one row.
    pub closed spec fn spec_row_width(&self) -> int {
        self.row_width as int
    }

    /// Well-formed: a positive row width that divides the total length
    /// exactly, so the values split into whole rows.
    pub open spec fn wf(&self) -> bool {
        self.spec_row_width() > 0 && self.spec_values().len() as int % self.spec_row_width() == 0
    }

    /// The number of whole rows.
    pub open spec fn spec_row_count(&self) -> int {
        self.spec_values().len() as int / self.spec_row_width()
    }

    /// Builds a table over the given scalars. Accepts exactly the inputs
    /// whose length is a whole number of rows of positive width; everything
    /// else is a corrupt configuration and is rejected.
    pub fn new(values: Vec<u32>, row_width: usize) -> (r: Result<MaterialTable, ConfigError>)
        ensures
            r is Ok <==> (row_width > 0 && values@.len() as int % (row_width as int) == 0),
            r is Ok ==> r->Ok_0.spec_values() == values@,
            r is Ok ==> r->Ok_0.spec_row_width() == row_width,
            r is Ok ==> r->Ok_0.wf(),
            r is Err ==> r->Err_0 == ConfigError::CorruptTable,
    {
        if row_width > 0 && values.len() % row_width == 0 {
            Ok(MaterialTable { values, row_width })
        } else {
            Err(ConfigError::CorruptTable)
        }
    }

    /// The table every store starts from: one row of white color
    /// (red, green, blue all 1.0), density 1.0, normal stiffness 10.0 and
    /// shear stiffness 0.25.
    pub fn with_default_row() -> (t: MaterialTable)
        ensures
            t.wf(),
            t.spec_row_width() == MATERIAL_ROW_WIDTH,
            t.spec_values() == seq![
                F32_BITS_1,
                F32_BITS_1,
                F32_BITS_1,
                F32_BITS_1,
                F32_BITS_10,
                F32_BITS_0_25,
            ],
    {
        let mut values: Vec<u32> = Vec::new();
        values.push(F32_BITS_1);
        values.push(F32_BITS_1);
        values.push(F32_BITS_1);
        values.push(F32_BITS_1);
        values.push(F32_BITS_10);
        values.push(F32_BITS_0_25);
        proof {
            assert(values@ =~= seq![
                F32_BITS_1,
                F32_BITS_1,
                F32_BITS_1,
                F32_BITS_1,
                F32_BITS_10,
                F32_BITS_0_25,
            ]);
        }
        MaterialTable { values, row_width: MATERIAL_ROW_WIDTH }
    }

    /// The number of scalars in one row.
    pub fn row_width(&self) -> (w: usize)
        ensures
            w == self.spec_row_width(),
    {
        self.row_width
    }

    /// The total number of stored scalars.
    pub fn total_length(&self) -> (n: usize)
        ensures
            n == self.spec_values().len(),
    {
        self.values.len()
    }

    /// The number of whole rows. Because the length is an exact multiple of
    /// the row width, the count times the width gives back the length, with
    /// no truncation.
    pub fn row_count(&self) -> (n: usize)
        requires
            self.wf(),
        ensures
            n == self.spec_row_count(),
            n * self.spec_row_width() == self.spec_values().len(),
    {
        proof {
            lemma_exact_rows(self.spec_values().len() as int, self.spec_row_width());
        }
        self.values.len() / self.row_width
    }

    /// Reads the scalar at `(row, field)`. Succeeds exactly when the row is
    /// below the row count and the field below the row width; anything else
    /// is an index error, never a wrapped or clamped access.
    pub fn get(&self, row: usize, field: usize) -> (r: Result<u32, ConfigError>)
        requires
            self.wf(),
        ensures
            r is Ok <==> (row < self.spec_row_count() && field < self.spec_row_width()),
            r is Ok ==> r->Ok_0 == self.spec_values()[row * self.spec_row_width() + field],
            r is Err ==> r->Err_0 == ConfigError::IndexOutOfRange,
    {
        let count = self.row_count();
        if row < count && field < self.row_width {
            let total = self.values.len();
            proof {
                lemma_slot_in_range(
                    row as int,
                    field as int,
                    self.spec_row_count(),
                    self.spec_row_width(),
                );
                assert((count as int) * self.spec_row_width() == total as int);
            }
            let idx = row * self.row_width + field;
            Ok(self.values[idx])
        } else {
            Err(ConfigError::IndexOutOfRange)
        }
    }

    /// Writes the scalar at `(row, field)`. On success exactly that slot
    /// changes; an out-of-range index is an error and leaves the table
    /// untouched. Well-formedness, the row width and the length are kept
    /// either way.
    pub fn set(&mut self, row: usize, field: usize, value: u32) -> (r: Result<(), ConfigError>)
        requires
            old(self).wf(),
        ensures
            final(self).wf(),
            final(self).spec_row_width() == old(self).spec_row_width(),
            r is Ok <==> (row < old(self).spec_row_count() && field < old(self).spec_row_width()),
            r is Ok ==> final(self).spec_values() == old(self).spec_values().update(
                row * old(self).spec_row_width() + field,
                value,
            ),
            r is Err ==> *final(self) == *old(self),
            r is Err ==> r->Err_0 == ConfigError::IndexOutOfRange,
    {
        let count = self.row_count();
        if row < count && field < self.row_width {
            let total = self.values.len();
            proof {
                lemma_slot_in_range(
                    row as int,
                    field as int,
                    self.spec_row_count(),
                    self.spec_row_width(),
                );
                assert((count as int) * self.spec_row_width() == total as int);
            }
            let idx = row * self.row_width + field;
            self.values[idx] = value;
            Ok(())
        } else {
            Err(ConfigError::IndexOutOfRange)
        }
    }
}

/// A length that is an exact multiple of a positive width satisfies
/// `(len / width) * width == len`: splitting into rows loses nothing.
pub proof fn lemma_exact_rows(len: int, width: int)
    requires
        width > 0,
        len >= 0,
        len % width == 0,
    ensures
        (len / width) * width == len,
{
    vstd::arithmetic::div_mod::lemma_fundamental_div_mod(len, width);
    let q = len / width;
    assert(q * width == len) by (nonlinear_arith)
        requires
            len == width * q + len % width,
            len % width == 0,
    ;
}

/// A slot addressed by an in-range row and field lies inside the flat
/// value array.
proof fn lemma_slot_in_range(row: int, field: int, count: int, width: int)
    requires
        0 <= row < count,
        0 <= field < width,
    ensures
        0 <= row * width + field < count * width,
{
    assert(row * width + field < count * width) by (nonlinear_arith)
        requires
            0 <= row < count,
            0 <= field < width,
    ;
    assert(row * width >= 0) by (nonlinear_arith)
        requires
            row >= 0,
            width > 0,
    ;
}

} // verus!
