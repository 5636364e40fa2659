//! Reading the measurements of a titration out of the first sheet of a
//! workbook.
//!
//! The sheet is laid out as follows, with the volume `V` and concentration
//! `c` of the test solution `t` and of the measuring solution `m`:
//!
//! ```text
//! +--------+----+-------+----+----+----+
//! |        |    | V (t) |    |    |    |
//! +--------+----+-------+----+----+----+
//! |        |    | c (t) |    |    |    |
//! +--------+----+-------+----+----+----+
//! |        |    | c (m) |    |    |    |
//! +--------+----+-------+----+----+----+
//! |        |    |       |    |    |    |
//! +--------+----+-------+----+----+----+
//! |        |    |       |    |    |    |
//! +--------+----+-------+----+----+----+
//! | V0 (m) |    |       |    |    |    |
//! +--------+----+-------+----+----+----+
//! | V1 (m) |    |       |    |    |    |
//! +--------+----+-------+----+----+----+
//! | ...    |    |       |    |    |    |
//! +--------+----+-------+----+----+----+
//! ```
//!
//! Opening the workbook is left to the program. Numbers are carried as the
//! bit patterns of double-precision values.

use vstd::prelude::*;
use crate::response::WorkerError;

verus! {

#[verifier::external_type_specification]
#[verifier::external_body]
#[verifier::reject_recursive_types(T)]
pub struct ExRange<T>(calamine::Range<T>);

#[verifier::external_type_specification]
#[verifier::external_body]
pub struct ExDataType(calamine::DataType);

#[verifier::external_type_specification]
#[verifier::external_body]
pub struct ExError(calamine::Error);

/// The cells of a sheet, row by row, each row as wide as the sheet. A cell
/// that reads as a number stands as the bit pattern of that number, any other
/// cell as `None`.
pub uninterp spec fn sheet_cells(sheet: calamine::Range<calamine::DataType>) -> Seq<
    Seq<Option<u64>>,
>;

/// The size of a sheet as `(height, width)`, from `calamine::Range::get_size`.
///
/// The contract says that the sheet has `height` rows and that each of them
/// has `width` cells.
#[verifier::external_body]
fn sheet_size(sheet: &calamine::Range<calamine::DataType>) -> (size: (usize, usize))
    ensures
        size.0 == sheet_cells(*sheet).len(),
        forall|row: int| 0 <= row < size.0 ==> (#[trigger] sheet_cells(*sheet)[row]).len() == size.1,
{
    sheet.get_size()
}

/// The number in a cell, from `calamine::Range::get`, which finds the cell
/// by its position relative to the top left corner of the sheet, and
/// `calamine::DataType::as_f64`, which reads it as a number.
///
/// The contract says that the result is the cell at that place of the sheet,
/// and `None` for a place outside the sheet.
#[verifier::external_body]
fn number_at(sheet: &calamine::Range<calamine::DataType>, row: usize, column: usize) -> (number:
    Option<u64>)
    ensures
        number == (if row < sheet_cells(*sheet).len() && column < sheet_cells(
            *sheet,
        )[row as int].len() {
            sheet_cells(*sheet)[row as int][column as int]
        } else {
            None
        }),
{
    match sheet.get((row, column)) {
        Some(cell) => match cell.as_f64() {
            Some(number) => Some(number.to_bits()),
            None => None,
        },
        None => None,
    }
}

/// What a sheet says about a titration.
#[derive(Debug, PartialEq, Eq)]
pub struct Measurements {
    /// The volume of the test solution.
    pub t_v: u64,
    /// The concentration of the test solution.
    pub t_c: u64,
    /// The concentration of the measuring solution.
    pub m_c: u64,
    /// The volumes of measuring solution, in the order of measurement.
    pub m_v: Vec<u64>,
}

/// The first row that holds a measured volume.
pub const FIRST_VOLUME_ROW: usize = 5;

/// The least height and width of a sheet.
pub const LEAST_SIZE: usize = 6;

/// Whether a sheet has the expected layout: it is large enough, the three
/// properties of the solutions are numbers, and so is the first cell of every
/// row from the sixth on.
pub open spec fn laid_out(cells: Seq<Seq<Option<u64>>>) -> bool {
    &&& cells.len() >= LEAST_SIZE
    &&& cells[0].len() >= LEAST_SIZE
    &&& cells[0][2] is Some
    &&& cells[1][2] is Some
    &&& cells[2][2] is Some
    &&& forall|row: int| FIRST_VOLUME_ROW <= row < cells.len() ==> (#[trigger] cells[row])[0] is Some
}

/// The measured volumes of a sheet that has the expected layout.
pub open spec fn volumes(cells: Seq<Seq<Option<u64>>>) -> Seq<u64> {
    Seq::new(
        (cells.len() - FIRST_VOLUME_ROW) as nat,
        |i: int| cells[i + FIRST_VOLUME_ROW][0].unwrap(),
    )
}

/// What reading a table gives, as a function of its cells.
pub open spec fn table_reading(cells: Seq<Seq<Option<u64>>>, got: Result<
    Measurements,
    WorkerError,
>) -> bool {
    if laid_out(cells) {
        &&& got matches Ok(found)
        &&& found.t_v == cells[0][2].unwrap()
        &&& found.t_c == cells[1][2].unwrap()
        &&& found.m_c == cells[2][2].unwrap()
        &&& found.m_v@ == volumes(cells)
    } else {
        got == Err::<Measurements, WorkerError>(WorkerError::MalformedTable)
    }
}

/// Reads the measurements out of a sheet, or reports that the sheet does not
/// have the expected layout.
pub fn read_table(sheet: &calamine::Range<calamine::DataType>) -> (got: Result<
    Measurements,
    WorkerError,
>)
    ensures
        table_reading(sheet_cells(*sheet), got),
{
    let ghost cells = sheet_cells(*sheet);
    let (height, width) = sheet_size(sheet);
    if height < LEAST_SIZE || width < LEAST_SIZE {
        return Err(WorkerError::MalformedTable);
    }
    let (t_v, t_c, m_c) = match (number_at(sheet, 0, 2), number_at(sheet, 1, 2), number_at(
        sheet,
        2,
        2,
    )) {
        (Some(t_v), Some(t_c), Some(m_c)) => (t_v, t_c, m_c),
        _ => {
            return Err(WorkerError::MalformedTable);
        },
    };
    let mut m_v: Vec<u64> = Vec::new();
    let mut row: usize = FIRST_VOLUME_ROW;
    while row < height
        invariant
            cells == sheet_cells(*sheet),
            height == cells.len(),
            width >= LEAST_SIZE,
            forall|r: int| 0 <= r < height ==> (#[trigger] cells[r]).len() == width,
            FIRST_VOLUME_ROW <= row <= height,
            m_v@.len() == row - FIRST_VOLUME_ROW,
            forall|r: int| FIRST_VOLUME_ROW <= r < row ==> (#[trigger] cells[r])[0] == Some(m_v@[r - FIRST_VOLUME_ROW]),
        decreases height - row,
    {
        match number_at(sheet, row, 0) {
            Some(volume) => {
                m_v.push(volume);
            },
            None => {
                return Err(WorkerError::MalformedTable);
            },
        }
        row += 1;
    }
    proof {
        assert(m_v@ =~= volumes(cells));
    }
    Ok(Measurements { t_v, t_c, m_c, m_v })
}

/// What opening a workbook and reading its first sheet gives.
pub open spec fn workbook_reading(
    opened: Result<Option<Result<calamine::Range<calamine::DataType>, calamine::Error>>, calamine::Error>,
    got: Result<Measurements, WorkerError>,
) -> bool {
    match opened {
        Err(_) => got == Err::<Measurements, WorkerError>(WorkerError::TableReadFailed),
        Ok(None) => got == Err::<Measurements, WorkerError>(WorkerError::NoSheet),
        Ok(Some(Err(_))) => got == Err::<Measurements, WorkerError>(WorkerError::TableReadFailed),
        Ok(Some(Ok(sheet))) => table_reading(sheet_cells(sheet), got),
    }
}

/// Reads the measurements out of a workbook that the program tried to open.
///
/// `opened` is an error if the workbook could not be opened, and else what
/// asking for its first sheet gave: nothing if there is no sheet, an error
/// if the sheet could not be read, or the sheet.
pub fn read_workbook(
    opened: Result<Option<Result<calamine::Range<calamine::DataType>, calamine::Error>>, calamine::Error>,
) -> (got: Result<Measurements, WorkerError>)
    ensures
        workbook_reading(opened, got),
{
    match opened {
        Err(_) => Err(WorkerError::TableReadFailed),
        Ok(None) => Err(WorkerError::NoSheet),
        Ok(Some(Err(_))) => Err(WorkerError::TableReadFailed),
        Ok(Some(Ok(sheet))) => read_table(&sheet),
    }
}

} // verus!
