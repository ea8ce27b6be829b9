use strata::error::StrataError;
use strata::table_view::{TableView, INITIAL_TABLE_SIZE};

const FRUITS: &[u8] = b"item,price\napple,100\norange,200\ngrape,150\n";

fn strings(cells: &[&str]) -> Vec<String> {
    cells.iter().map(|c| c.to_string()).collect()
}

/// header0/header1 over cell00..cell11, cursor on (0, 0).
fn setup_table_data() -> TableView {
    TableView::from_records(
        strings(&["header0", "header1"]),
        vec![strings(&["cell00", "cell01"]), strings(&["cell10", "cell11"])],
        true,
    )
    .unwrap()
}

#[test]
fn test_new() {
    let tv = TableView::new();
    assert_eq!(tv.get_header().len(), INITIAL_TABLE_SIZE);
    assert_eq!(tv.get_header()[0], "header0");
    assert_eq!(tv.get_header()[9], "header9");
    assert_eq!(tv.rows().len(), INITIAL_TABLE_SIZE);
    assert_eq!(tv.rows()[0].len(), INITIAL_TABLE_SIZE);
}

#[test]
fn test_new_table() {
    let table_data = TableView::new();
    assert_eq!(table_data.get_header().len(), INITIAL_TABLE_SIZE);
    assert_eq!(table_data.get_header()[0], "header0");
    assert_eq!(table_data.get_header()[9], "header9");
    assert_eq!(table_data.rows().len(), INITIAL_TABLE_SIZE);
    assert_eq!(table_data.get_selector_index(), Some((0, 0)));
    assert!(table_data.has_header());
    assert!(table_data.rows().iter().all(|r| r.iter().all(|c| c.is_empty())));
}

#[test]
fn test_from_csv() {
    // has_header = true
    let tv = TableView::from_csv(FRUITS, true).unwrap();
    assert_eq!(tv.get_header().len(), 2);
    assert_eq!(tv.get_header()[0], "item");
    assert_eq!(tv.get_header()[1], "price");
    assert_eq!(tv.rows().len(), 3);
    assert_eq!(tv.rows()[0][0], "apple".to_string());
    assert_eq!(tv.rows()[0][1], "100".to_string());
    assert_eq!(tv.rows()[1][0], "orange".to_string());
    assert_eq!(tv.rows()[2][1], "150".to_string());

    // has_header = false
    let tv = TableView::from_csv(FRUITS, false).unwrap();
    assert_eq!(tv.get_header().len(), 2);
    assert_eq!(tv.get_header()[0], "header0");
    assert_eq!(tv.get_header()[1], "header1");
    assert_eq!(tv.rows().len(), 4);
    assert_eq!(tv.rows()[0][0], "item".to_string());
    assert_eq!(tv.rows()[0][1], "price".to_string());
    assert_eq!(tv.rows()[1][0], "apple".to_string());
    assert_eq!(tv.rows()[1][1], "100".to_string());
    assert_eq!(tv.rows()[2][0], "orange".to_string());
    assert_eq!(tv.rows()[3][1], "150".to_string());
}

#[test]
fn test_open_csv() {
    let data = b"header0,header1,header2\ncell00,cell01,cell02\ncell10,cell11,cell12\n";
    let table_data = TableView::from_csv(data, true).unwrap();
    assert_eq!(table_data.get_header().len(), 3);
    assert_eq!(table_data.get_header()[0], "header0");
    assert_eq!(table_data.get_header()[2], "header2");
    assert_eq!(table_data.rows().len(), 2);
    assert_eq!(table_data.rows()[0][0], "cell00");
    assert_eq!(table_data.rows()[1][2], "cell12");
}

#[test]
fn test_switch_headers() {
    let mut tv = TableView::new();
    tv.switch_headers().unwrap();
    assert_eq!(tv.has_header(), false);
    assert_eq!(tv.rows().get(0), Some(tv.get_header()));

    tv.switch_headers().unwrap();
    assert_eq!(tv.has_header(), true);
    assert_eq!(tv.rows().get(0), Some(&vec!["".to_string(); 10]));
}

#[test]
fn table_view_test_move_selector() {
    let mut tv = TableView::new();
    tv.move_selector(1, 1).unwrap();
    assert_eq!(tv.get_selector_index(), Some((1, 1)));

    tv.move_selector(1, 1).unwrap();
    assert_eq!(tv.get_selector_index(), Some((2, 2)));

    tv.move_selector(-1, -1).unwrap();
    assert_eq!(tv.get_selector_index(), Some((1, 1)));

    tv.move_selector(-1, -1).unwrap();
    assert_eq!(tv.get_selector_index(), Some((0, 0)));

    tv.move_selector(-1, -1).unwrap();
    assert_eq!(tv.get_selector_index(), Some((0, 0)));
}

#[test]
fn test_select_cell() {
    let mut tv = TableView::new();
    tv.select_cell(1, 1).unwrap();
    assert_eq!(tv.get_selector_index(), Some((1, 1)));

    tv.select_cell(2, 2).unwrap();
    assert_eq!(tv.get_selector_index(), Some((2, 2)));

    tv.select_cell(0, 0).unwrap();
    assert_eq!(tv.get_selector_index(), Some((0, 0)));
}

#[test]
fn test_update_header() {
    let mut tv = TableView::new();
    tv.update_header(1, "new_header").unwrap();
    assert_eq!(tv.get_header()[1], "new_header");

    tv.update_header(0, "new_header").unwrap();
    assert_eq!(tv.get_header()[0], "new_header");

    tv.switch_headers().unwrap();
    let r = tv.update_header(0, "new_header");
    assert!(r.is_err());
}

#[test]
fn table_view_test_update_cell() {
    let mut tv = TableView::new();
    tv.update_cell(1, 1, "new_value").unwrap();
    assert_eq!(tv.rows()[1][1], "new_value");

    tv.update_cell(0, 0, "new_value").unwrap();
    assert_eq!(tv.rows()[0][0], "new_value");
}

#[test]
fn table_view_test_expand_row() {
    let mut tv = TableView::new();
    tv.expand_row();
    assert_eq!(tv.rows().len(), INITIAL_TABLE_SIZE + 1);
    assert_eq!(tv.rows()[INITIAL_TABLE_SIZE].len(), INITIAL_TABLE_SIZE);
}

#[test]
fn table_view_test_collapse_row() {
    let mut tv = TableView::new();
    tv.collapse_row(1).unwrap();
    assert_eq!(tv.rows().len(), INITIAL_TABLE_SIZE - 1);
}

#[test]
fn table_view_test_expand_col() {
    let mut tv = TableView::new();
    tv.expand_col("new_header");
    assert_eq!(tv.get_header().len(), INITIAL_TABLE_SIZE + 1);
    assert_eq!(tv.rows()[0].len(), INITIAL_TABLE_SIZE + 1);
}

#[test]
fn table_view_test_collapse_col() {
    let mut tv = TableView::new();
    tv.collapse_col(1).unwrap();
    assert_eq!(tv.get_header().len(), INITIAL_TABLE_SIZE - 1);
    assert_eq!(tv.rows()[0].len(), INITIAL_TABLE_SIZE - 1);
}

#[test]
fn table_test_expand_row() {
    let mut table_data = setup_table_data();
    // 3x2 table
    table_data.expand_row();
    assert_eq!(table_data.rows().len(), 3);
    assert_eq!(table_data.rows()[0][0], "cell00");
    assert_eq!(table_data.rows()[2][1], "");
}

#[test]
fn table_test_collapse_row() {
    let mut table_data = setup_table_data();
    // 1x2 table
    table_data.collapse_row(0).unwrap();
    assert_eq!(table_data.rows().len(), 1);
    assert_eq!(table_data.rows()[0][0], "cell10");
    assert_eq!(table_data.rows()[0][1], "cell11");

    let row_err = table_data.collapse_row(1).unwrap_err();
    assert_eq!(
        row_err.to_string(),
        StrataError::InvalidRowIndex {
            max: 0,
            requested: 1
        }
        .to_string()
    );
    assert_eq!(row_err, StrataError::InvalidRowIndex { max: 0, requested: 1 });
}

#[test]
fn table_test_expand_col() {
    let mut table_data = setup_table_data();
    // 2x3 table
    table_data.expand_col("header1");
    assert_eq!(table_data.get_header().len(), 3);
    assert_eq!(table_data.get_header()[1], "header1");
    assert_eq!(table_data.rows()[0][0], "cell00");
    assert_eq!(table_data.rows()[1][2], "");
}

#[test]
fn table_test_collapse_col() {
    let mut table_data = setup_table_data();
    // 2x1 table
    table_data.collapse_col(0).unwrap();
    assert_eq!(table_data.get_header().len(), 1);
    assert_eq!(table_data.rows()[0][0], "cell01");
    assert_eq!(table_data.rows()[1][0], "cell11");

    let col_err = table_data.collapse_col(1).unwrap_err();
    assert_eq!(
        col_err.to_string(),
        StrataError::InvalidColumnIndex {
            max: 0,
            requested: 1
        }
        .to_string()
    );
    assert_eq!(col_err, StrataError::InvalidColumnIndex { max: 0, requested: 1 });
}

#[test]
fn table_test_update_cell() {
    let mut table_data = setup_table_data();

    table_data.update_cell(0, 0, "test").unwrap();
    assert_eq!(table_data.rows()[0][0], "test");
}

#[test]
fn test_get_cell() {
    let table_data = setup_table_data();

    assert_eq!(table_data.get_cell_value(0, 0).unwrap(), "cell00");
    assert_eq!(table_data.get_cell_value(1, 1).unwrap(), "cell11");

    // Invalid row index
    assert_eq!(
        table_data.get_cell_value(2, 0).unwrap_err().to_string(),
        StrataError::InvalidRowIndex {
            max: 1,
            requested: 2
        }
        .to_string()
    );

    // Invalid column index
    assert_eq!(
        table_data.get_cell_value(0, 2).unwrap_err().to_string(),
        StrataError::InvalidColumnIndex {
            max: 1,
            requested: 2
        }
        .to_string()
    );
}

#[test]
fn test_get_header_widths() {
    let table = TableView::from_records(
        strings(&["header1", "header2"]),
        vec![
            strings(&["row1col1", "row1col2"]),
            strings(&["row2col1", "row2col2"]),
        ],
        true,
    )
    .unwrap();
    let widths = table.get_header_widths();
    assert_eq!(widths, vec![3, 8, 8]);
}

#[test]
fn one_by_one_grid_rejects_collapse_of_row_one() {
    let mut grid = TableView::from_records(strings(&["h"]), vec![strings(&["x"])], true).unwrap();
    assert_eq!(
        grid.collapse_row(1).unwrap_err(),
        StrataError::InvalidRowIndex { max: 0, requested: 1 }
    );
    assert_eq!(grid.rows().len(), 1);
    grid.collapse_row(0).unwrap();
    assert_eq!(grid.rows().len(), 0);
    assert_eq!(grid.get_selector_index(), None);
    assert_eq!(
        grid.collapse_row(0).unwrap_err(),
        StrataError::InvalidRowIndex { max: 0, requested: 0 }
    );
    assert_eq!(grid.move_selector(1, 1).unwrap_err(), StrataError::NoCellSelected);
}

#[test]
fn cursor_stops_at_every_edge() {
    let mut grid = setup_table_data();
    grid.move_selector(5, 7).unwrap();
    assert_eq!(grid.get_selector_index(), Some((1, 1)));
    grid.move_selector(isize::MAX, isize::MAX).unwrap();
    assert_eq!(grid.get_selector_index(), Some((1, 1)));
    grid.move_selector(isize::MIN, isize::MIN).unwrap();
    assert_eq!(grid.get_selector_index(), Some((0, 0)));
    grid.move_selector(0, 1).unwrap();
    assert_eq!(grid.get_selector_index(), Some((0, 1)));
    grid.move_selector(1, -1).unwrap();
    assert_eq!(grid.get_selector_index(), Some((1, 0)));
}

#[test]
fn select_cell_checks_the_row_first() {
    let mut grid = setup_table_data();
    assert_eq!(
        grid.select_cell(2, 2).unwrap_err(),
        StrataError::InvalidRowIndex { max: 1, requested: 2 }
    );
    assert_eq!(
        grid.select_cell(1, 2).unwrap_err(),
        StrataError::InvalidColumnIndex { max: 1, requested: 2 }
    );
    assert_eq!(grid.get_selector_index(), Some((0, 0)));
    grid.select_cell(1, 1).unwrap();
    assert_eq!(grid.get_selector_index(), Some((1, 1)));
    assert_eq!(grid.selected_cell_value(), Some("cell11"));
}

#[test]
fn collapse_pulls_the_cursor_back() {
    let mut grid = setup_table_data();
    grid.select_cell(1, 1).unwrap();
    grid.collapse_row(1).unwrap();
    assert_eq!(grid.get_selector_index(), Some((0, 1)));
    grid.collapse_col(1).unwrap();
    assert_eq!(grid.get_selector_index(), Some((0, 0)));
    grid.collapse_col(0).unwrap();
    assert_eq!(grid.get_selector_index(), None);
    assert_eq!(grid.rows(), &vec![Vec::<String>::new()]);
}

#[test]
fn update_header_without_header_fails() {
    let mut grid = TableView::from_csv(FRUITS, false).unwrap();
    assert_eq!(grid.update_header(0, "x").unwrap_err(), StrataError::TableHasNoHeader);
    assert_eq!(
        grid.update_header(2, "x").unwrap_err(),
        StrataError::InvalidColumnIndex { max: 1, requested: 2 }
    );
}

#[test]
fn switch_headers_on_without_rows_fails() {
    let mut grid = TableView::default();
    assert_eq!(grid.has_header(), false);
    assert_eq!(
        grid.switch_headers().unwrap_err(),
        StrataError::InvalidRowIndex { max: 0, requested: 0 }
    );
}

#[test]
fn from_records_rejects_unequal_widths() {
    let r = TableView::from_records(strings(&["a", "b"]), vec![strings(&["1"])], true);
    assert!(matches!(r, Err(StrataError::CsvParseError(_))));
}

#[test]
fn from_csv_reports_parse_failures() {
    let r = TableView::from_csv(b"a,b\n1\n", true);
    assert!(matches!(r, Err(StrataError::CsvParseError(_))));
    let r = TableView::from_csv(b"a,b\n\xff,1\n", true);
    assert!(matches!(r, Err(StrataError::CsvParseError(_))));
    let empty = TableView::from_csv(b"", true).unwrap();
    assert_eq!(empty.get_header().len(), 0);
    assert_eq!(empty.rows().len(), 0);
    assert_eq!(empty.get_selector_index(), None);
}

#[test]
fn to_csv_writes_header_then_rows_with_quoting() {
    let mut grid = setup_table_data();
    grid.update_cell(0, 0, "a,b").unwrap();
    grid.update_cell(0, 1, "say \"hi\"").unwrap();
    grid.update_cell(1, 0, "two\nlines").unwrap();
    let bytes = grid.to_csv().unwrap();
    assert_eq!(
        String::from_utf8(bytes).unwrap(),
        "header0,header1\n\"a,b\",\"say \"\"hi\"\"\"\n\"two\nlines\",cell11\n"
    );
    let mut bare = TableView::from_csv(FRUITS, false).unwrap();
    bare.update_cell(0, 0, "thing").unwrap();
    assert_eq!(
        String::from_utf8(bare.to_csv().unwrap()).unwrap(),
        "thing,price\napple,100\norange,200\ngrape,150\n"
    );
}

#[test]
fn csv_round_trip_with_header() {
    let mut grid = setup_table_data();
    grid.update_cell(0, 0, "a,b").unwrap();
    grid.update_cell(1, 1, "q\"uote\nline").unwrap();
    grid.expand_col("extra");
    let again = TableView::from_csv(&grid.to_csv().unwrap(), true).unwrap();
    assert_eq!(again.get_header(), grid.get_header());
    assert_eq!(again.rows(), grid.rows());
}

#[test]
fn csv_round_trip_without_header_keeps_rows() {
    let grid = TableView::from_csv(FRUITS, false).unwrap();
    let again = TableView::from_csv(&grid.to_csv().unwrap(), false).unwrap();
    assert_eq!(again.rows(), grid.rows());
    assert_eq!(again.get_header(), grid.get_header());
}
