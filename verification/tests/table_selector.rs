use strata::error::StrataError;
use strata::table_selector::{TableName, TableSelector};

fn setup() -> TableSelector {
    TableSelector::from(vec![
        TableName::from("table1").unwrap(),
        TableName::from("table2").unwrap(),
    ])
}

fn names(sl: &TableSelector) -> Vec<String> {
    sl.table_list().iter().map(|n| n.to_string()).collect()
}

#[test]
fn test_table_name() {
    let table_name = TableName::from("test_table").unwrap();
    assert_eq!(table_name.as_str(), "test_table");

    let table_name_err = TableName::from("").unwrap_err();
    assert_eq!(
        table_name_err.to_string(),
        StrataError::InvalidTableName.to_string()
    );
    assert_eq!(table_name_err, StrataError::InvalidTableName);
}

#[test]
fn table_selector_test_get_index() {
    let sl = setup();

    assert_eq!(sl.selected_index().unwrap(), 0);
    assert_eq!(
        sl.selected_index_by_name(&TableName::from("table1").unwrap()),
        Some(0)
    );
    assert_eq!(
        sl.selected_index_by_name(&TableName::from("table2").unwrap()),
        Some(1)
    );
}

#[test]
fn table_selector_test_move_selector() {
    let mut sl = setup();

    // check down table selector
    let sl = sl.select_next();
    assert_eq!(sl.selected_index(), Some(1),);
    // check out of bound
    let sl = sl.select_next();
    assert_eq!(sl.selected_index(), Some(1),);

    // check up table selector
    let sl = sl.select_prev();
    assert_eq!(sl.selected_index(), Some(0),);
    // check out of bound
    let sl = sl.select_prev();
    assert_eq!(sl.selected_index(), Some(0),);
}

#[test]
fn table_selector_test_add_table() {
    let mut sl = setup();

    sl.push_table(TableName::from("table3").unwrap()).unwrap();
    assert_eq!(sl.table_list().len(), 3);
    assert_eq!(sl.selected_index(), Some(2));

    sl.push_table(TableName::from("table4").unwrap()).unwrap();
    assert_eq!(sl.table_list().len(), 4);
    assert_eq!(sl.selected_index(), Some(3));
}

#[test]
fn table_selector_test_remove_table() {
    let mut sl = setup();
    sl.select_by_name(&TableName::from("table2").unwrap()).unwrap();
    assert_eq!(sl.selected_index(), Some(1));

    let sl = sl.remove_table(1).unwrap();
    assert_eq!(sl.table_list().len(), 1);
    assert_eq!(sl.selected_index(), Some(0));

    let sl = sl.remove_table(0).unwrap();
    assert_eq!(sl.table_list().len(), 0);
    assert_eq!(sl.selected_index(), None);
}

#[test]
fn remove_first_keeps_selection_on_first() {
    let mut sl = TableSelector::from(vec![
        TableName::from("a").unwrap(),
        TableName::from("b").unwrap(),
    ]);
    assert_eq!(sl.selected_index(), Some(0));
    sl.remove_table(0).unwrap();
    assert_eq!(names(&sl), vec!["b".to_string()]);
    assert_eq!(sl.selected_index(), Some(0));
}

#[test]
fn remove_selected_last_of_three_selects_the_one_before() {
    let mut sl = TableSelector::new();
    sl.push_table(TableName::from("a").unwrap()).unwrap();
    sl.push_table(TableName::from("b").unwrap()).unwrap();
    sl.push_table(TableName::from("c").unwrap()).unwrap();
    assert_eq!(sl.selected_index(), Some(2));
    sl.remove_table(2).unwrap();
    assert_eq!(sl.selected_index(), Some(1));
    assert_eq!(names(&sl), vec!["a".to_string(), "b".to_string()]);
}

#[test]
fn remove_at_length_is_out_of_bounds() {
    let mut sl = setup();
    let err = sl.remove_table(2).unwrap_err();
    assert_eq!(err, StrataError::IndexOutOfBounds { max: 2, requested: 2 });
    assert_eq!(sl.table_list().len(), 2);
    assert_eq!(sl.selected_index(), Some(0));
}

#[test]
fn push_duplicate_changes_nothing() {
    let mut sl = setup();
    let err = sl.push_table(TableName::from("table1").unwrap()).unwrap_err();
    assert_eq!(err, StrataError::TableNameDuplicate("table1".to_string()));
    assert_eq!(names(&sl), vec!["table1".to_string(), "table2".to_string()]);
    assert_eq!(sl.selected_index(), Some(0));
}

#[test]
fn rename_checks_bounds_then_duplicates() {
    let mut sl = setup();
    assert_eq!(
        sl.update_table(2, TableName::from("x").unwrap()).unwrap_err(),
        StrataError::IndexOutOfBounds { max: 2, requested: 2 }
    );
    assert_eq!(
        sl.update_table(0, TableName::from("table2").unwrap()).unwrap_err(),
        StrataError::TableNameDuplicate("table2".to_string())
    );
    assert_eq!(names(&sl), vec!["table1".to_string(), "table2".to_string()]);
    sl.update_table(1, TableName::from("renamed").unwrap()).unwrap();
    assert_eq!(names(&sl), vec!["table1".to_string(), "renamed".to_string()]);
    assert_eq!(sl.selected_index(), Some(0));
}

#[test]
fn select_by_name_of_missing_table_gives_selection_up() {
    let mut sl = setup();
    let err = sl.select_by_name(&TableName::from("nope").unwrap()).unwrap_err();
    assert_eq!(err, StrataError::TableNotFound("nope".to_string()));
    assert_eq!(sl.selected_index(), None);
    sl.select_next();
    assert_eq!(sl.selected_index(), Some(0));
}

#[test]
fn from_keeps_first_occurrences_only() {
    let sl = TableSelector::from(vec![
        TableName::from("a").unwrap(),
        TableName::from("b").unwrap(),
        TableName::from("a").unwrap(),
    ]);
    assert_eq!(names(&sl), vec!["a".to_string(), "b".to_string()]);
    assert_eq!(sl.selected_index(), Some(0));
    let none = TableSelector::from(vec![]);
    assert!(none.is_empty());
    assert_eq!(none.selected_index(), None);
    assert!(none.selected_table_name().is_none());
}

#[test]
fn empty_selector_has_no_selection_after_moves() {
    let mut sl = TableSelector::new();
    sl.select_next();
    assert_eq!(sl.selected_index(), None);
    sl.select_prev();
    assert_eq!(sl.selected_index(), None);
}

#[test]
fn getters_under_both_names_agree() {
    let mut sl = setup();
    sl.select_next();
    assert_eq!(sl.get_selected_index(), Some(1));
    assert_eq!(sl.get_selected_index(), sl.selected_index());
    assert_eq!(sl.get_index_by_name(&TableName::from("table2").unwrap()), Some(1));
    assert_eq!(sl.get_index_by_name(&TableName::from("nope").unwrap()), None);
    assert_eq!(sl.get_selected_table_name().map(|n| n.as_str()), Some("table2"));
    let empty = TableSelector::new();
    assert_eq!(empty.get_selected_index(), None);
    assert!(empty.get_selected_table_name().is_none());
}
