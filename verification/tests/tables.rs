use calamine::{DataType, Range};
use titration_curve::response::WorkerError;
use titration_curve::table::{read_table, read_workbook, Measurements};

/// A sheet of the given size whose top left corner is at `corner`, filled
/// with the three properties and with `volumes` from the sixth row on.
fn sheet(corner: (u32, u32), height: u32, width: u32, volumes: &[f64]) -> Range<DataType> {
    let mut range = Range::new(corner, (corner.0 + height - 1, corner.1 + width - 1));
    range.set_value((corner.0, corner.1 + 2), DataType::Float(10.0));
    range.set_value((corner.0 + 1, corner.1 + 2), DataType::Float(0.1));
    range.set_value((corner.0 + 2, corner.1 + 2), DataType::Float(0.5));
    for (i, volume) in volumes.iter().enumerate() {
        range.set_value((corner.0 + 5 + i as u32, corner.1), DataType::Float(*volume));
    }
    range
}

fn bits(numbers: &[f64]) -> Vec<u64> {
    numbers.iter().map(|number| number.to_bits()).collect()
}

#[test]
fn well_formed_sheet_is_read() {
    let range = sheet((0, 0), 8, 6, &[0.0, 5.0, 7.5]);
    assert_eq!(
        read_table(&range),
        Ok(Measurements {
            t_v: 10.0f64.to_bits(),
            t_c: 0.1f64.to_bits(),
            m_c: 0.5f64.to_bits(),
            m_v: bits(&[0.0, 5.0, 7.5]),
        })
    );
}

#[test]
fn smallest_sheet_has_one_volume() {
    let range = sheet((0, 0), 6, 6, &[2.5]);
    let found = read_table(&range).unwrap();
    assert_eq!(found.m_v, bits(&[2.5]));
}

#[test]
fn cells_are_found_relative_to_the_corner() {
    let range = sheet((3, 2), 7, 9, &[1.0, 2.0]);
    let found = read_table(&range).unwrap();
    assert_eq!(found.t_v, 10.0f64.to_bits());
    assert_eq!(found.t_c, 0.1f64.to_bits());
    assert_eq!(found.m_c, 0.5f64.to_bits());
    assert_eq!(found.m_v, bits(&[1.0, 2.0]));
}

#[test]
fn integers_and_numeric_text_count_as_numbers() {
    let mut range = sheet((0, 0), 7, 6, &[1.0, 2.0]);
    range.set_value((0, 2), DataType::Int(25));
    range.set_value((6, 0), DataType::String("3.5".to_string()));
    let found = read_table(&range).unwrap();
    assert_eq!(found.t_v, 25.0f64.to_bits());
    assert_eq!(found.m_v, bits(&[1.0, 3.5]));
}

#[test]
fn empty_sheet_is_malformed() {
    let range: Range<DataType> = Range::empty();
    assert_eq!(read_table(&range), Err(WorkerError::MalformedTable));
}

#[test]
fn too_short_sheet_is_malformed() {
    let range = sheet((0, 0), 5, 6, &[]);
    assert_eq!(read_table(&range), Err(WorkerError::MalformedTable));
}

#[test]
fn too_narrow_sheet_is_malformed() {
    let range = sheet((0, 0), 8, 5, &[1.0, 2.0, 3.0]);
    assert_eq!(read_table(&range), Err(WorkerError::MalformedTable));
}

#[test]
fn missing_property_is_malformed() {
    for row in 0..3 {
        let mut range = sheet((0, 0), 7, 6, &[1.0, 2.0]);
        range.set_value((row, 2), DataType::Empty);
        assert_eq!(read_table(&range), Err(WorkerError::MalformedTable), "row {row}");
    }
}

#[test]
fn property_that_is_no_number_is_malformed() {
    let mut range = sheet((0, 0), 7, 6, &[1.0, 2.0]);
    range.set_value((1, 2), DataType::Bool(true));
    assert_eq!(read_table(&range), Err(WorkerError::MalformedTable));
}

#[test]
fn missing_volume_is_malformed() {
    let range = sheet((0, 0), 8, 6, &[1.0, 2.0]);
    assert_eq!(read_table(&range), Err(WorkerError::MalformedTable));
}

#[test]
fn volume_that_is_no_number_is_malformed() {
    let mut range = sheet((0, 0), 7, 6, &[1.0, 2.0]);
    range.set_value((6, 0), DataType::String("much".to_string()));
    assert_eq!(read_table(&range), Err(WorkerError::MalformedTable));
}

#[test]
fn rows_above_the_volumes_need_no_number() {
    let mut range = sheet((0, 0), 7, 6, &[1.0, 2.0]);
    range.set_value((3, 0), DataType::String("V (m)".to_string()));
    range.set_value((4, 0), DataType::Bool(false));
    assert_eq!(read_table(&range).unwrap().m_v, bits(&[1.0, 2.0]));
}

#[test]
fn workbook_that_does_not_open_is_a_read_failure() {
    let opened = Err(calamine::Error::Msg("Cannot detect file format"));
    assert_eq!(read_workbook(opened), Err(WorkerError::TableReadFailed));
}

#[test]
fn workbook_without_sheet_has_no_sheet() {
    assert_eq!(read_workbook(Ok(None)), Err(WorkerError::NoSheet));
}

#[test]
fn sheet_that_cannot_be_read_is_a_read_failure() {
    let opened = Ok(Some(Err(calamine::Error::Msg("broken"))));
    assert_eq!(read_workbook(opened), Err(WorkerError::TableReadFailed));
}

#[test]
fn workbook_with_malformed_sheet_is_malformed() {
    let opened = Ok(Some(Ok(sheet((0, 0), 3, 3, &[]))));
    assert_eq!(read_workbook(opened), Err(WorkerError::MalformedTable));
}

#[test]
fn workbook_with_well_formed_sheet_is_read() {
    let opened = Ok(Some(Ok(sheet((0, 0), 7, 6, &[0.0, 5.0]))));
    let found = read_workbook(opened).unwrap();
    assert_eq!(found.t_v, 10.0f64.to_bits());
    assert_eq!(found.m_v, bits(&[0.0, 5.0]));
}
