use rexmrg::geo::{Feature, GridCell};
use rexmrg::headers::Header;
use rexmrg::utils::Millimeters;

fn all_cells(header: Header) -> Vec<GridCell> {
    let mut generator = header.into_iter();
    let mut cells = Vec::new();
    while let Some(cell) = generator.next() {
        cells.push(cell);
    }
    cells
}

#[test]
fn header_from_the_four_numbers() {
    let header = Header::from_vec(vec![367, 263, 335, 159]);
    assert_eq!(header, Header { xor: 367, yor: 263, columns: 335, rows: 159 });
    assert_eq!(header.xor, 367);
    assert_eq!(header.yor, 263);
    assert_eq!(header.columns, 335);
    assert_eq!(header.rows, 159);
}

#[test]
fn header_ignores_further_numbers() {
    let header = Header::from_vec(vec![1, 2, 3, 4, 5, 6]);
    assert_eq!(header, Header { xor: 1, yor: 2, columns: 3, rows: 4 });
}

#[test]
fn cells_of_a_two_by_two_grid() {
    let header = Header::from_vec(vec![1, 1, 2, 2]);
    let mut generator = header.into_iter();
    assert_eq!(generator.next(), Some(GridCell { x: 1, y: 1 }));
    assert_eq!(generator.next(), Some(GridCell { x: 2, y: 1 }));
    assert_eq!(generator.next(), Some(GridCell { x: 1, y: 2 }));
    assert_eq!(generator.next(), Some(GridCell { x: 2, y: 2 }));
    assert_eq!(generator.next(), None);
}

#[test]
fn walk_stays_finished() {
    let header = Header::from_vec(vec![1, 1, 2, 2]);
    let mut generator = header.into_iter();
    for _ in 0..4 {
        assert!(generator.next().is_some());
    }
    for _ in 0..10 {
        assert_eq!(generator.next(), None);
    }
}

#[test]
fn cells_run_along_a_row_first() {
    let header = Header { xor: 367, yor: 263, columns: 3, rows: 2 };
    assert_eq!(
        all_cells(header),
        vec![
            GridCell::new(367, 263),
            GridCell::new(368, 263),
            GridCell::new(369, 263),
            GridCell::new(367, 264),
            GridCell::new(368, 264),
            GridCell::new(369, 264),
        ]
    );
}

#[test]
fn cells_follow_the_closed_form() {
    let header = Header { xor: -4, yor: 10, columns: 7, rows: 5 };
    let cells = all_cells(header);
    assert_eq!(cells.len(), 35);
    for (k, cell) in cells.iter().enumerate() {
        let k = k as i64;
        assert_eq!(*cell, GridCell { x: -4 + k % 7, y: 10 + k / 7 });
    }
}

#[test]
fn single_column_and_single_row() {
    assert_eq!(
        all_cells(Header { xor: 5, yor: 6, columns: 1, rows: 3 }),
        vec![GridCell::new(5, 6), GridCell::new(5, 7), GridCell::new(5, 8)]
    );
    assert_eq!(
        all_cells(Header { xor: 5, yor: 6, columns: 3, rows: 1 }),
        vec![GridCell::new(5, 6), GridCell::new(6, 6), GridCell::new(7, 6)]
    );
}

#[test]
fn grid_without_columns_or_rows_has_no_cells() {
    assert_eq!(all_cells(Header { xor: 1, yor: 1, columns: 0, rows: 5 }), Vec::new());
    assert_eq!(all_cells(Header { xor: 1, yor: 1, columns: 5, rows: 0 }), Vec::new());
    assert_eq!(all_cells(Header { xor: 1, yor: 1, columns: -2, rows: 5 }), Vec::new());
    assert_eq!(all_cells(Header { xor: 1, yor: 1, columns: 5, rows: -2 }), Vec::new());
    assert_eq!(all_cells(Header { xor: 1, yor: 1, columns: i32::MIN, rows: i32::MIN }), Vec::new());
}

#[test]
fn cells_beyond_32_bits_do_not_wrap() {
    let header = Header { xor: i32::MAX, yor: i32::MAX, columns: 2, rows: 2 };
    let max = i64::from(i32::MAX);
    assert_eq!(
        all_cells(header),
        vec![
            GridCell::new(max, max),
            GridCell::new(max + 1, max),
            GridCell::new(max, max + 1),
            GridCell::new(max + 1, max + 1),
        ]
    );
    let low = Header { xor: i32::MIN, yor: i32::MIN, columns: 1, rows: 1 };
    assert_eq!(all_cells(low), vec![GridCell::new(i64::from(i32::MIN), i64::from(i32::MIN))]);
}

#[test]
fn feature_holds_cell_and_value() {
    let cell = GridCell::new(3, 4);
    let value = Millimeters { hundredths: 250 };
    let feature = Feature::new(cell, value);
    assert_eq!(feature.cell, cell);
    assert_eq!(feature.value, value);
    assert_eq!(feature, Feature { cell, value });
}
