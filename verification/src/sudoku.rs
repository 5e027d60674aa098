//! The puzzle record: what a board is called and how large it is.

use vstd::prelude::*;

verus! {

/// Row and column count of a board.
///
/// The fields are open so that a record can be written down directly; a board
/// can only be laid out when both counts are positive, which
/// [`Dimensions::validate`] decides.
#[derive(Clone, Copy, Debug, PartialEq, Eq, Structural)]
pub struct Dimensions {
    pub rows: i32,
    pub columns: i32,
}

/// Why a pair of dimensions cannot be laid out.
#[derive(Clone, Copy, Debug, PartialEq, Eq, Structural)]
pub enum DimensionsError {
    /// The row count is zero or negative.
    RowsNotPositive,
    /// The row count is positive, the column count is zero or negative.
    ColumnsNotPositive,
}

/// What is said of a row count that is not positive.
pub const ROWS_NOT_POSITIVE: &'static str = "the number of rows must be positive";

/// What is said of a column count that is not positive.
pub const COLUMNS_NOT_POSITIVE: &'static str = "the number of columns must be positive";

impl DimensionsError {
    /// The sentence that describes this error.
    pub open spec fn description(self) -> Seq<char> {
        match self {
            DimensionsError::RowsNotPositive => ROWS_NOT_POSITIVE@,
            DimensionsError::ColumnsNotPositive => COLUMNS_NOT_POSITIVE@,
        }
    }

    /// This error in words, for a caller that has to show it.
    pub fn message(&self) -> (message: String)
        ensures
            message@ == self.description(),
    {
        match self {
            DimensionsError::RowsNotPositive => ROWS_NOT_POSITIVE.to_owned(),
            DimensionsError::ColumnsNotPositive => COLUMNS_NOT_POSITIVE.to_owned(),
        }
    }
}

impl Dimensions {
    /// Both counts are positive.
    pub open spec fn is_positive(self) -> bool {
        self.rows > 0 && self.columns > 0
    }

    /// Number of cells of a board of these dimensions.
    pub open spec fn cell_count(self) -> int {
        self.rows * self.columns
    }

    /// The complaint about these dimensions, if there is one. Rows are looked
    /// at first.
    pub open spec fn rejection(self) -> Option<DimensionsError> {
        if self.rows <= 0 {
            Some(DimensionsError::RowsNotPositive)
        } else if self.columns <= 0 {
            Some(DimensionsError::ColumnsNotPositive)
        } else {
            None
        }
    }

    /// Accepts dimensions with positive counts and names the first count that
    /// is not.
    pub fn validate(&self) -> (result: Result<(), DimensionsError>)
        ensures
            result is Ok <==> self.is_positive(),
            result is Err ==> self.rejection() == Some(result->Err_0),
    {
        if self.rows <= 0 {
            Err(DimensionsError::RowsNotPositive)
        } else if self.columns <= 0 {
            Err(DimensionsError::ColumnsNotPositive)
        } else {
            Ok(())
        }
    }
}

/// Mathematical content of a [`Sudoku`].
pub struct SpecSudoku {
    pub title: Seq<char>,
    pub description: Seq<char>,
    pub dimensions: Dimensions,
}

/// One puzzle to display: its title, a description and the shape of its board.
#[derive(Debug, PartialEq, Eq)]
pub struct Sudoku {
    pub title: String,
    pub description: String,
    pub dimensions: Dimensions,
}

impl View for Sudoku {
    type V = SpecSudoku;

    open spec fn view(&self) -> SpecSudoku {
        SpecSudoku {
            title: self.title@,
            description: self.description@,
            dimensions: self.dimensions,
        }
    }
}

impl Clone for Sudoku {
    /// A copy with the same title, description and dimensions.
    fn clone(&self) -> (copy: Self)
        ensures
            copy == *self,
    {
        Sudoku {
            title: self.title.clone(),
            description: self.description.clone(),
            dimensions: self.dimensions,
        }
    }
}

} // verus!
