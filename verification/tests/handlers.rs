use strata::app::App;
use strata::command::Effect;
use strata::display_focus::DisplayFocus;
use strata::error::StrataError;
use strata::message::{Key, Message, MoveDirection};
use strata::table_selector::TableName;
use strata::update::{
    handle_add, handle_add_table, handle_delete, handle_edit, handle_edit_cell,
    handle_edit_table_name, handle_enter, handle_jump_cell, handle_jump_table, handle_key_event,
    handle_open, update,
};

const FRUITS: &[u8] = b"fluits,price\napple,100\norange,200\ngrape,150\n";

fn fill(app: &mut App) {
    app.expand_row().unwrap();
    app.expand_col().unwrap();
    for (cell, value) in [("0 0", "cell 0-0"), ("0 1", "cell 0-1"), ("1 0", "cell 1-0"), ("1 1", "cell 1-1")] {
        app.jump_cell_selector(cell).unwrap();
        app.update_cell_value(value).unwrap();
    }
    app.jump_cell_selector("0 0").unwrap();
}

/// Focus on the table list; table1 (selected) and table2, both 11x11.
fn setup_sample_app() -> App {
    let mut app = App::new();
    app.add_table("table1").unwrap();
    fill(&mut app);
    app.add_table("table2").unwrap();
    fill(&mut app);
    app.focus_table_selector();
    app.select_table_by_name(&TableName::from("table1").unwrap()).unwrap();
    app
}

fn input_to_command(app: &mut App, input: &str) {
    for c in input.chars() {
        app.push_user_input(c).unwrap();
    }
}

fn cell(app: &App, row: usize, col: usize) -> String {
    app.selected_table_view().unwrap().get_cell_value(row, col).unwrap().to_string()
}

#[test]
fn add_handler_test_add_handler() {
    let mut app = App::new();
    // focus command
    handle_add(&mut app).unwrap();
    // input table name
    let table_name = "table1";
    input_to_command(&mut app, table_name);
    // execute command
    app.execute_command().unwrap();

    assert_eq!(*app.display_focus(), DisplayFocus::TableView);
    assert_eq!(app.table_selector().table_list().len(), 1);
    assert_eq!(
        app.table_selector().selected_table_name(),
        Some(&TableName::from(table_name).unwrap())
    );
}

#[test]
fn handle_add_test_add_handler() {
    let mut app = setup_sample_app();
    // focus command
    handle_add_table(&mut app).unwrap();
    // input table name
    let table_name = "table3";
    input_to_command(&mut app, table_name);
    // execute command
    app.execute_command().unwrap();

    assert_eq!(*app.display_focus(), DisplayFocus::TableView);
    assert_eq!(app.table_selector().table_list().len(), 3);
    assert_eq!(
        app.table_selector().selected_table_name(),
        Some(&TableName::from(table_name).unwrap())
    );
}

#[test]
fn test_delete_cell_command() {
    let mut app = setup_sample_app();
    app.focus_table_view().unwrap();

    handle_delete(&mut app).unwrap();

    assert_eq!(cell(&app, 0, 0), "");
}

#[test]
fn test_delete_table_command() {
    let mut app = setup_sample_app();

    handle_delete(&mut app).unwrap();

    assert_eq!(app.table_selector().table_list().len(), 1);
}

#[test]
fn handle_edit_test_edit_cell_command() {
    let mut app = setup_sample_app();
    app.focus_table_view().unwrap();

    handle_edit(&mut app).unwrap();
    input_to_command(&mut app, "new cell value");
    handle_edit(&mut app).unwrap();
    app.execute_command().unwrap();

    assert_eq!(cell(&app, 0, 0), "new cell value");
}

#[test]
fn handle_edit_cell_test_edit_cell_command() {
    let mut app = setup_sample_app();
    app.focus_table_view().unwrap();

    handle_edit_cell(&mut app).unwrap();
    app.clear_user_input().unwrap();
    input_to_command(&mut app, "new cell value");
    app.execute_command().unwrap();

    assert_eq!(cell(&app, 0, 0), "new cell value");
}

#[test]
fn test_command() {
    let mut app = setup_sample_app();

    handle_edit_table_name(&mut app).unwrap();
    input_to_command(&mut app, "new_table_name");
    app.execute_command().unwrap();

    assert_eq!(
        app.table_selector()
            .selected_table_name()
            .map(TableName::as_str),
        Some("new_table_name")
    );
}

#[test]
fn handle_enter_test_edit_cell_command() {
    let mut app = setup_sample_app();
    app.focus_table_view().unwrap();

    handle_enter(&mut app).unwrap();
    input_to_command(&mut app, "new cell value");
    handle_enter(&mut app).unwrap();

    assert_eq!(cell(&app, 0, 0), "new cell value");
}

#[test]
fn test_handle_jump_cell() {
    let mut app = setup_sample_app();
    handle_jump_cell(&mut app).unwrap();
    input_to_command(&mut app, "10 10");

    app.execute_command().unwrap();

    assert_eq!(
        app.selected_table_view().unwrap().get_selector_index(),
        Some((10, 10))
    );
    assert_eq!(*app.display_focus(), DisplayFocus::TableView);
}

#[test]
fn test_handle_jump_cell_parse_error() {
    // input is less than 2
    let mut app = setup_sample_app();
    handle_jump_cell(&mut app).unwrap();
    input_to_command(&mut app, "1");

    let err = app.execute_command();
    assert!(err.is_err());

    // input is more than 2
    let mut app = setup_sample_app();
    handle_jump_cell(&mut app).unwrap();
    input_to_command(&mut app, "1 1 1");

    let err = app.execute_command();
    assert!(err.is_err());

    // input is not a number
    let mut app = setup_sample_app();
    handle_jump_cell(&mut app).unwrap();
    input_to_command(&mut app, "1 a");

    let err = app.execute_command();
    assert!(err.is_err());
    assert_eq!(err.unwrap_err(), StrataError::StringParseError("1 a".to_string()));
}

#[test]
fn test_handle_jump_cell_invalid_index() {
    // invalid row index
    let mut app = setup_sample_app();
    handle_jump_cell(&mut app).unwrap();
    input_to_command(&mut app, "11 0");

    let Err(err) = app.execute_command() else {
        panic!("Expected an error");
    };

    assert_eq!(
        err.to_string(),
        StrataError::InvalidRowIndex {
            max: 10,
            requested: 11
        }
        .to_string()
    );

    // invalid column index
    let mut app = setup_sample_app();
    handle_jump_cell(&mut app).unwrap();
    input_to_command(&mut app, "0 11");

    let Err(err) = app.execute_command() else {
        panic!("Expected an error");
    };

    assert_eq!(
        err.to_string(),
        StrataError::InvalidColumnIndex {
            max: 10,
            requested: 11
        }
        .to_string()
    );
}

#[test]
fn test_handle_jump_table() {
    let mut app = setup_sample_app();

    handle_jump_table(&mut app).unwrap();
    input_to_command(&mut app, "table2");
    app.execute_command().unwrap();

    assert_eq!(
        *app.table_selector().selected_table_name().unwrap(),
        TableName::from("table2").unwrap()
    );
    assert_eq!(*app.display_focus(), DisplayFocus::TableView);
}

#[test]
fn handle_open_test_handle_open() {
    let mut app = setup_sample_app();

    handle_open(&mut app).unwrap();
    input_to_command(&mut app, "tests/data/fluits.csv");
    let effect = app.execute_command().unwrap();
    assert_eq!(effect, Effect::ReadFile { path: "tests/data/fluits.csv".to_string() });
    app.open_file(Some("fluits"), FRUITS).unwrap();

    assert_eq!(*app.display_focus(), DisplayFocus::TableView);
    assert_eq!(
        *app.table_selector().selected_table_name().unwrap(),
        TableName::from("fluits").unwrap()
    );
    let tv = app.selected_table_view().unwrap();
    assert_eq!(*tv.get_header(), vec!["fluits", "price"]);
    assert_eq!(tv.get_cell_value(0, 0).unwrap(), "apple");
    assert_eq!(tv.get_cell_value(0, 1).unwrap(), "100");
    assert_eq!(tv.get_cell_value(1, 0).unwrap(), "orange");
    assert_eq!(tv.get_cell_value(2, 0).unwrap(), "grape");
}

#[test]
fn open_handler_test_handle_open() {}

#[test]
fn keys_mean_what_the_focus_says() {
    let list = DisplayFocus::TableSelector;
    let table = DisplayFocus::TableView;
    let command = DisplayFocus::Command(Box::new(DisplayFocus::TableView));
    let error = DisplayFocus::Error(Box::new(DisplayFocus::TableView));
    let exit = DisplayFocus::Exit(Box::new(DisplayFocus::TableSelector));

    assert_eq!(handle_key_event(Key::Char('q'), &command), Message::Input('q'));
    assert_eq!(handle_key_event(Key::Char('q'), &list), Message::Exiting);
    assert_eq!(handle_key_event(Key::Char('q'), &table), Message::Cancel);
    assert_eq!(handle_key_event(Key::Char('q'), &exit), Message::Exit);
    assert_eq!(handle_key_event(Key::Char('q'), &error), Message::NoOp);

    assert_eq!(handle_key_event(Key::Enter, &command), Message::ExecuteCommand);
    assert_eq!(handle_key_event(Key::Enter, &list), Message::SelectTable);
    assert_eq!(handle_key_event(Key::Enter, &table), Message::EditCell);
    assert_eq!(handle_key_event(Key::Enter, &exit), Message::Exit);
    assert_eq!(handle_key_event(Key::Enter, &error), Message::NoOp);

    assert_eq!(handle_key_event(Key::Esc, &error), Message::Cancel);
    assert_eq!(handle_key_event(Key::Backspace, &command), Message::PopInput);

    assert_eq!(handle_key_event(Key::Char('a'), &list), Message::AddTable);
    assert_eq!(handle_key_event(Key::Char('a'), &table), Message::EditCell);
    assert_eq!(handle_key_event(Key::Char('d'), &list), Message::RemoveTable);
    assert_eq!(handle_key_event(Key::Char('d'), &table), Message::DeleteCell);
    assert_eq!(handle_key_event(Key::Char('e'), &list), Message::EditTableName);
    assert_eq!(handle_key_event(Key::Char('E'), &table), Message::EditHeader);
    assert_eq!(handle_key_event(Key::Char('E'), &list), Message::NoOp);
    assert_eq!(handle_key_event(Key::Char('o'), &list), Message::Open);
    assert_eq!(handle_key_event(Key::Char('o'), &table), Message::NoOp);
    assert_eq!(handle_key_event(Key::Char('s'), &table), Message::Save);
    assert_eq!(handle_key_event(Key::Char('r'), &table), Message::ExpandRow);
    assert_eq!(handle_key_event(Key::Char('R'), &table), Message::CollapseRow);
    assert_eq!(handle_key_event(Key::Char('c'), &table), Message::ExpandColumn);
    assert_eq!(handle_key_event(Key::Char('C'), &table), Message::CollapseColumn);
    assert_eq!(handle_key_event(Key::Char('J'), &table), Message::JumpTable);
    assert_eq!(handle_key_event(Key::Char('J'), &list), Message::JumpCell);

    assert_eq!(handle_key_event(Key::Up, &exit), Message::Move(MoveDirection::Up));
    assert_eq!(handle_key_event(Key::Tab, &table), Message::Move(MoveDirection::Right));
    assert_eq!(handle_key_event(Key::Tab, &list), Message::NoOp);
    assert_eq!(handle_key_event(Key::Char('h'), &table), Message::Move(MoveDirection::Left));
    assert_eq!(handle_key_event(Key::Char('h'), &list), Message::NoOp);
    assert_eq!(handle_key_event(Key::Char('j'), &list), Message::Move(MoveDirection::Down));
    assert_eq!(handle_key_event(Key::Char('k'), &table), Message::Move(MoveDirection::Up));
    assert_eq!(handle_key_event(Key::Char('l'), &list), Message::Move(MoveDirection::Right));
    assert_eq!(handle_key_event(Key::Char('z'), &table), Message::NoOp);
    assert_eq!(handle_key_event(Key::Other, &table), Message::NoOp);
}

#[test]
fn cancel_discards_the_command_and_restores_the_focus() {
    let mut app = setup_sample_app();
    update(&mut app, Message::AddTable).unwrap();
    assert_eq!(
        app.display_focus(),
        &DisplayFocus::Command(Box::new(DisplayFocus::TableSelector))
    );
    update(&mut app, Message::Cancel).unwrap();
    assert_eq!(app.display_focus(), &DisplayFocus::TableSelector);
    assert!(app.command().is_none());
    assert_eq!(
        update(&mut app, Message::ExecuteCommand).unwrap_err(),
        StrataError::CommandNotFound
    );
}

#[test]
fn cancel_on_errors_empties_the_log() {
    let mut app = setup_sample_app();
    app.focus_table_view().unwrap();
    app.push_error_message("bad".to_string());
    app.focus_error();
    update(&mut app, Message::Cancel).unwrap();
    assert!(app.error_popup().is_empty());
    assert_eq!(app.display_focus(), &DisplayFocus::TableView);
}

#[test]
fn move_messages_follow_the_focus() {
    let mut app = setup_sample_app();
    update(&mut app, Message::Move(MoveDirection::Down)).unwrap();
    assert_eq!(app.table_selector().selected_index(), Some(1));
    update(&mut app, Message::Move(MoveDirection::Up)).unwrap();
    assert_eq!(app.table_selector().selected_index(), Some(0));
    update(&mut app, Message::Move(MoveDirection::Left)).unwrap();
    assert_eq!(app.display_focus(), &DisplayFocus::TableSelector);
    update(&mut app, Message::Move(MoveDirection::Right)).unwrap();
    assert_eq!(app.display_focus(), &DisplayFocus::TableView);
    update(&mut app, Message::Move(MoveDirection::Down)).unwrap();
    update(&mut app, Message::Move(MoveDirection::Right)).unwrap();
    assert_eq!(app.get_selected_cell().unwrap(), (1, 1));
    update(&mut app, Message::Move(MoveDirection::Up)).unwrap();
    update(&mut app, Message::Move(MoveDirection::Left)).unwrap();
    assert_eq!(app.get_selected_cell().unwrap(), (0, 0));
}

#[test]
fn resize_messages_act_on_the_cursor() {
    let mut app = setup_sample_app();
    app.focus_table_view().unwrap();
    app.jump_cell_selector("1 1").unwrap();
    update(&mut app, Message::CollapseRow).unwrap();
    assert_eq!(app.selected_table_view().unwrap().rows().len(), 10);
    assert_eq!(cell(&app, 0, 1), "cell 0-1");
    update(&mut app, Message::CollapseColumn).unwrap();
    assert_eq!(app.selected_table_view().unwrap().get_header().len(), 10);
    assert_eq!(cell(&app, 0, 0), "cell 0-0");
    update(&mut app, Message::ExpandRow).unwrap();
    update(&mut app, Message::ExpandColumn).unwrap();
    assert_eq!(app.selected_table_view().unwrap().rows().len(), 11);
    assert_eq!(app.selected_table_view().unwrap().get_header().len(), 11);
}

#[test]
fn edit_prompts_start_with_the_current_text() {
    let mut app = setup_sample_app();
    app.focus_table_view().unwrap();
    update(&mut app, Message::EditCell).unwrap();
    assert_eq!(app.command_name(), Some("Edit Cell"));
    assert_eq!(app.command().unwrap().input_text(), "cell 0-0");
    update(&mut app, Message::Cancel).unwrap();
    update(&mut app, Message::EditHeader).unwrap();
    assert_eq!(app.command_name(), Some("Edit Header"));
    assert_eq!(app.command().unwrap().input_text(), "header0");
    input_to_command(&mut app, "!");
    app.execute_command().unwrap();
    assert_eq!(app.selected_table_view().unwrap().get_header()[0], "header0!");
    assert_eq!(app.display_focus(), &DisplayFocus::TableView);
}

#[test]
fn misplaced_requests_fail() {
    let mut app = setup_sample_app();
    app.focus_exit();
    assert_eq!(
        update(&mut app, Message::Jump).unwrap_err(),
        StrataError::InvalidOperationCall { operation: "Jump".to_string(), focus: "Exit".to_string() }
    );
    assert_eq!(
        update(&mut app, Message::Exit).unwrap_err(),
        StrataError::InvalidOperationCall { operation: "Exit".to_string(), focus: "Exit".to_string() }
    );
    assert_eq!(update(&mut app, Message::NoOp).unwrap(), Effect::Nothing);
}

#[test]
fn reporting_logs_the_message_and_opens_the_error_display() {
    let mut app = setup_sample_app();
    strata::update::report_error(&mut app, "went wrong".to_string());
    assert_eq!(app.error_popup().get_error_message(), &vec!["went wrong".to_string()]);
    assert_eq!(
        app.display_focus(),
        &DisplayFocus::Error(Box::new(DisplayFocus::TableSelector))
    );
}

#[test]
fn a_failed_step_is_reported() {
    let mut app = App::new();
    let effect = strata::update::update_or_report(&mut app, Message::SelectTable);
    assert_eq!(effect, Effect::Nothing);
    assert_eq!(app.error_popup().get_error_message(), &vec!["No table added".to_string()]);
    assert_eq!(
        app.display_focus(),
        &DisplayFocus::Error(Box::new(DisplayFocus::TableSelector))
    );
    let effect = strata::update::update_or_report(&mut app, Message::Cancel);
    assert_eq!(effect, Effect::Nothing);
    assert!(app.error_popup().is_empty());
    assert_eq!(app.display_focus(), &DisplayFocus::TableSelector);
}

#[test]
fn removing_without_a_selection_fails_whatever_asks_for_it() {
    let mut app = App::new();
    assert_eq!(
        update(&mut app, Message::RemoveTable).unwrap_err(),
        StrataError::NoTableSelected
    );
    assert_eq!(handle_delete(&mut app).unwrap_err(), StrataError::NoTableSelected);
    assert!(app.table_selector().is_empty());
    assert_eq!(app.display_focus(), &DisplayFocus::TableSelector);
}
