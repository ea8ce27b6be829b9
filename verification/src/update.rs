//! From keys to requests, and from requests to steps of the application.

use vstd::prelude::*;
use crate::app::{done, step_taken_with, App, AppView, Step};
use crate::command::{CommandAction, CommandPopup, CommandView, Effect, EffectView};
use crate::display_focus::DisplayFocus;
use crate::error::{message_text, ErrorView, StrataError};
use crate::message::{Key, Message, MoveDirection};

verus! {

/// The request that an arrow key makes, whatever the focus.
pub open spec fn arrow_message(key: Key) -> Option<Message> {
    match key {
        Key::Up => Some(Message::Move(MoveDirection::Up)),
        Key::Down => Some(Message::Move(MoveDirection::Down)),
        Key::Left => Some(Message::Move(MoveDirection::Left)),
        Key::Right => Some(Message::Move(MoveDirection::Right)),
        _ => None,
    }
}

/// What a key means while the table list has the focus.
pub open spec fn selector_key(key: Key) -> Message {
    match key {
        Key::Esc => Message::Cancel,
        Key::Enter => Message::SelectTable,
        Key::Backspace => Message::PopInput,
        Key::Char(c) => if c == 'q' {
            Message::Exiting
        } else if c == 'a' {
            Message::AddTable
        } else if c == 'd' {
            Message::RemoveTable
        } else if c == 'e' {
            Message::EditTableName
        } else if c == 'o' {
            Message::Open
        } else if c == 's' {
            Message::Save
        } else if c == 'J' {
            Message::JumpCell
        } else if c == 'j' {
            Message::Move(MoveDirection::Down)
        } else if c == 'k' {
            Message::Move(MoveDirection::Up)
        } else if c == 'l' {
            Message::Move(MoveDirection::Right)
        } else {
            Message::NoOp
        },
        _ => match arrow_message(key) {
            Some(m) => m,
            None => Message::NoOp,
        },
    }
}

/// What a key means while a table has the focus.
pub open spec fn table_key(key: Key) -> Message {
    match key {
        Key::Esc => Message::Cancel,
        Key::Enter => Message::EditCell,
        Key::Backspace => Message::PopInput,
        Key::Tab => Message::Move(MoveDirection::Right),
        Key::Char(c) => if c == 'q' {
            Message::Cancel
        } else if c == 'a' || c == 'e' {
            Message::EditCell
        } else if c == 'd' {
            Message::DeleteCell
        } else if c == 'E' {
            Message::EditHeader
        } else if c == 's' {
            Message::Save
        } else if c == 'r' {
            Message::ExpandRow
        } else if c == 'R' {
            Message::CollapseRow
        } else if c == 'c' {
            Message::ExpandColumn
        } else if c == 'C' {
            Message::CollapseColumn
        } else if c == 'J' {
            Message::JumpTable
        } else if c == 'h' {
            Message::Move(MoveDirection::Left)
        } else if c == 'j' {
            Message::Move(MoveDirection::Down)
        } else if c == 'k' {
            Message::Move(MoveDirection::Up)
        } else if c == 'l' {
            Message::Move(MoveDirection::Right)
        } else {
            Message::NoOp
        },
        _ => match arrow_message(key) {
            Some(m) => m,
            None => Message::NoOp,
        },
    }
}

/// What a key means while a command waits for its text: every character is text.
pub open spec fn command_key(key: Key) -> Message {
    match key {
        Key::Char(c) => Message::Input(c),
        Key::Esc => Message::Cancel,
        Key::Enter => Message::ExecuteCommand,
        Key::Backspace => Message::PopInput,
        _ => match arrow_message(key) {
            Some(m) => m,
            None => Message::NoOp,
        },
    }
}

/// What a key means while the errors are shown.
pub open spec fn error_key(key: Key) -> Message {
    match key {
        Key::Esc => Message::Cancel,
        Key::Backspace => Message::PopInput,
        _ => match arrow_message(key) {
            Some(m) => m,
            None => Message::NoOp,
        },
    }
}

/// What a key means while the exit question is shown.
pub open spec fn exit_key(key: Key) -> Message {
    match key {
        Key::Esc => Message::Cancel,
        Key::Enter => Message::Exit,
        Key::Backspace => Message::PopInput,
        Key::Char(c) => if c == 'q' {
            Message::Exit
        } else {
            Message::NoOp
        },
        _ => match arrow_message(key) {
            Some(m) => m,
            None => Message::NoOp,
        },
    }
}

/// What a key means under the focus `focus`.
pub open spec fn key_message(key: Key, focus: DisplayFocus) -> Message {
    match focus {
        DisplayFocus::TableSelector => selector_key(key),
        DisplayFocus::TableView => table_key(key),
        DisplayFocus::Command(_) => command_key(key),
        DisplayFocus::Error(_) => error_key(key),
        DisplayFocus::Exit(_) => exit_key(key),
    }
}

/// The request that `key` makes under the focus `focus`.
pub fn handle_key_event(key: Key, focus: &DisplayFocus) -> (r: Message)
    ensures
        r == key_message(key, *focus),
{
    match key {
        Key::Char(c) => {
            if let DisplayFocus::Command(_) = focus {
                return Message::Input(c);
            }
            if c == 'q' {
                match focus {
                    DisplayFocus::Exit(_) => Message::Exit,
                    DisplayFocus::TableSelector => Message::Exiting,
                    DisplayFocus::TableView => Message::Cancel,
                    _ => Message::NoOp,
                }
            } else if c == 'a' {
                match focus {
                    DisplayFocus::TableSelector => Message::AddTable,
                    DisplayFocus::TableView => Message::EditCell,
                    _ => Message::NoOp,
                }
            } else if c == 'd' {
                match focus {
                    DisplayFocus::TableSelector => Message::RemoveTable,
                    DisplayFocus::TableView => Message::DeleteCell,
                    _ => Message::NoOp,
                }
            } else if c == 'e' {
                match focus {
                    DisplayFocus::TableSelector => Message::EditTableName,
                    DisplayFocus::TableView => Message::EditCell,
                    _ => Message::NoOp,
                }
            } else if c == 'E' {
                match focus {
                    DisplayFocus::TableView => Message::EditHeader,
                    _ => Message::NoOp,
                }
            } else if c == 'o' {
                match focus {
                    DisplayFocus::TableSelector => Message::Open,
                    _ => Message::NoOp,
                }
            } else if c == 's' {
                match focus {
                    DisplayFocus::TableSelector => Message::Save,
                    DisplayFocus::TableView => Message::Save,
                    _ => Message::NoOp,
                }
            } else if c == 'r' {
                match focus {
                    DisplayFocus::TableView => Message::ExpandRow,
                    _ => Message::NoOp,
                }
            } else if c == 'R' {
                match focus {
                    DisplayFocus::TableView => Message::CollapseRow,
                    _ => Message::NoOp,
                }
            } else if c == 'c' {
                match focus {
                    DisplayFocus::TableView => Message::ExpandColumn,
                    _ => Message::NoOp,
                }
            } else if c == 'C' {
                match focus {
                    DisplayFocus::TableView => Message::CollapseColumn,
                    _ => Message::NoOp,
                }
            } else if c == 'J' {
                match focus {
                    DisplayFocus::TableView => Message::JumpTable,
                    DisplayFocus::TableSelector => Message::JumpCell,
                    _ => Message::NoOp,
                }
            } else if c == 'h' {
                match focus {
                    DisplayFocus::TableView => Message::Move(MoveDirection::Left),
                    _ => Message::NoOp,
                }
            } else if c == 'j' {
                match focus {
                    DisplayFocus::TableView => Message::Move(MoveDirection::Down),
                    DisplayFocus::TableSelector => Message::Move(MoveDirection::Down),
                    _ => Message::NoOp,
                }
            } else if c == 'k' {
                match focus {
                    DisplayFocus::TableView => Message::Move(MoveDirection::Up),
                    DisplayFocus::TableSelector => Message::Move(MoveDirection::Up),
                    _ => Message::NoOp,
                }
            } else if c == 'l' {
                match focus {
                    DisplayFocus::TableView => Message::Move(MoveDirection::Right),
                    DisplayFocus::TableSelector => Message::Move(MoveDirection::Right),
                    _ => Message::NoOp,
                }
            } else {
                Message::NoOp
            }
        },
        Key::Esc => Message::Cancel,
        Key::Enter => match focus {
            DisplayFocus::Command(_) => Message::ExecuteCommand,
            DisplayFocus::TableSelector => Message::SelectTable,
            DisplayFocus::TableView => Message::EditCell,
            DisplayFocus::Exit(_) => Message::Exit,
            _ => Message::NoOp,
        },
        Key::Backspace => Message::PopInput,
        Key::Up => Message::Move(MoveDirection::Up),
        Key::Down => Message::Move(MoveDirection::Down),
        Key::Right => Message::Move(MoveDirection::Right),
        Key::Left => Message::Move(MoveDirection::Left),
        Key::Tab => match focus {
            DisplayFocus::TableView => Message::Move(MoveDirection::Right),
            _ => Message::NoOp,
        },
        Key::Other => Message::NoOp,
    }
}

/// A command named `title` that starts with the text `input`.
pub open spec fn prompt(title: Seq<char>, input: Seq<char>, action: CommandAction) -> CommandView {
    CommandView { title, input, action }
}

/// The prompt for the name of a new table.
pub open spec fn add_table_prompt() -> CommandView {
    prompt("Add Table"@, Seq::empty(), CommandAction::AddTable)
}

/// The prompt for a table's new name.
pub open spec fn edit_table_name_prompt() -> CommandView {
    prompt("Edit Table Name"@, Seq::empty(), CommandAction::EditTableName)
}

/// The prompt for a cell's text, starting with `input`.
pub open spec fn edit_cell_prompt(input: Seq<char>) -> CommandView {
    prompt("Edit Cell"@, input, CommandAction::EditCell)
}

/// The prompt for the name of the table to jump to.
pub open spec fn jump_table_prompt() -> CommandView {
    prompt("Jump [input table name e.g. table1]"@, Seq::empty(), CommandAction::JumpTable)
}

/// The prompt for the cell to jump to.
pub open spec fn jump_cell_prompt() -> CommandView {
    prompt("Jump [input row and col index e.g. 1 2]"@, Seq::empty(), CommandAction::JumpCell)
}

/// The prompt for the path of the file to open.
pub open spec fn open_prompt() -> CommandView {
    prompt("Open File"@, Seq::empty(), CommandAction::OpenFile)
}

/// The prompt for the path of the file to save to.
pub open spec fn save_prompt() -> CommandView {
    prompt("Save File Path"@, Seq::empty(), CommandAction::SaveFile)
}

/// A change to the text of the waiting command.
pub enum TextEdit {
    Push(char),
    Pop,
}

/// The text `input` after `edit`.
pub open spec fn edited(input: Seq<char>, edit: TextEdit) -> Seq<char> {
    match edit {
        TextEdit::Push(c) => input.push(c),
        TextEdit::Pop => if input.len() == 0 {
            input
        } else {
            input.drop_last()
        },
    }
}

/// Editing the text of the waiting command, which there has to be.
pub open spec fn edit_input(app: AppView, edit: TextEdit) -> Step {
    match app.command {
        None => app.fail(ErrorView::CommandNotFound),
        Some(command) => (AppView {
            command: Some(CommandView { input: edited(command.input, edit), ..command }),
            ..app
        }).ok(),
    }
}

/// Cancelling: a waiting command is discarded with its prompt, the error
/// log is emptied with its display, and the focus unwinds.
pub open spec fn cancel(app: AppView) -> Step {
    match app.focus {
        DisplayFocus::Command(_) => (AppView { command: None, ..app }).focus_last(),
        DisplayFocus::Error(_) => (AppView { errors: Seq::empty(), ..app }).focus_last(),
        _ => app.focus_last(),
    }
}

/// Moving: the selection in the table list, or the cursor in a table.
/// From the table list, right enters the selected table.
pub open spec fn move_cursor(app: AppView, direction: MoveDirection) -> Step {
    match app.focus {
        DisplayFocus::TableSelector => match direction {
            MoveDirection::Up => (AppView { tables: app.tables.prev(), ..app }).ok(),
            MoveDirection::Down => (AppView { tables: app.tables.next(), ..app }).ok(),
            MoveDirection::Right => app.focus_table_view(),
            MoveDirection::Left => app.ok(),
        },
        DisplayFocus::TableView => match direction {
            MoveDirection::Up => app.move_cell_selector(-1isize, 0isize),
            MoveDirection::Down => app.move_cell_selector(1isize, 0isize),
            MoveDirection::Left => app.move_cell_selector(0isize, -1isize),
            MoveDirection::Right => app.move_cell_selector(0isize, 1isize),
        },
        _ => app.ok(),
    }
}

/// Asking for a cell's new text: the prompt starts with the text of the
/// cell under the cursor, or empty when the cursor is on none.
pub open spec fn edit_cell(app: AppView) -> Step {
    match app.selected_grid() {
        Err(e) => app.fail(e),
        Ok(grid) => app.focus_command(
            edit_cell_prompt(
                match grid.selected {
                    Some((row, col)) => grid.rows[row as int][col as int],
                    None => Seq::empty(),
                },
            ),
        ).ok(),
    }
}

/// Asking for a header's new text: the prompt starts with the header of
/// the cursor's column.
pub open spec fn edit_header(app: AppView) -> Step {
    match app.selected_cell() {
        Err(e) => app.fail(e),
        Ok((row, col)) => app.focus_command(
            prompt(
                "Edit Header"@,
                app.selected_grid()->Ok_0.header[col as int],
                CommandAction::EditHeader,
            ),
        ).ok(),
    }
}

/// Confirming, by focus: run the command, enter the table, ask for the
/// cell's text, or dismiss the errors.
pub open spec fn enter(app: AppView) -> Step {
    match app.focus {
        DisplayFocus::Command(_) => app.execute_command(),
        DisplayFocus::TableSelector => app.focus_table_view(),
        DisplayFocus::TableView => app.focus_command(edit_cell_prompt(Seq::empty())).ok(),
        DisplayFocus::Error(_) => (AppView { errors: Seq::empty(), ..app }).focus_last(),
        DisplayFocus::Exit(_) => app.ok(),
    }
}

/// An operation asked for under a focus that has no such operation.
pub open spec fn misplaced(app: AppView, operation: Seq<char>) -> Step {
    app.fail(ErrorView::InvalidOperationCall { operation, focus: app.focus.name() })
}

/// Reporting a failure: its message is logged and the error display
/// opens over the current focus.
pub open spec fn reported(app: AppView, message: Seq<char>) -> AppView {
    (AppView { errors: app.errors.push(message), ..app }).focus_error()
}

/// The step that `message` asks for.
pub open spec fn update_step(app: AppView, message: Message) -> Step {
    match message {
        Message::AddTable => app.focus_command(add_table_prompt()).ok(),
        Message::PopInput => edit_input(app, TextEdit::Pop),
        Message::BackSpace => edit_input(app, TextEdit::Pop),
        Message::Input(c) => edit_input(app, TextEdit::Push(c)),
        Message::Cancel => cancel(app),
        Message::CollapseColumn => app.collapse_selected_col(),
        Message::CollapseRow => app.collapse_selected_row(),
        Message::RemoveTable => app.remove_table(),
        Message::DeleteCell => app.update_cell_value(Seq::empty()),
        Message::EditTableName => app.focus_command(edit_table_name_prompt()).ok(),
        Message::EditCell => edit_cell(app),
        Message::ExecuteCommand => app.execute_command(),
        Message::Exiting => app.focus_exit().ok(),
        Message::ExpandColumn => app.expand_col(),
        Message::ExpandRow => app.expand_row(),
        Message::EditHeader => edit_header(app),
        Message::JumpTable => app.focus_command(jump_table_prompt()).ok(),
        Message::JumpCell => app.focus_command(jump_cell_prompt()).ok(),
        Message::Move(direction) => move_cursor(app, direction),
        Message::NoOp => app.ok(),
        Message::Open => if app.focus is TableSelector {
            app.focus_command(open_prompt()).ok()
        } else {
            app.ok()
        },
        Message::Save => app.focus_command(save_prompt()).ok(),
        Message::SelectTable => app.focus_table_view(),
        Message::Exit => misplaced(app, "Exit"@),
        Message::Enter => enter(app),
        Message::Jump => match app.focus {
            DisplayFocus::TableSelector => app.focus_command(jump_table_prompt()).ok(),
            DisplayFocus::TableView => app.focus_command(jump_cell_prompt()).ok(),
            _ => misplaced(app, "Jump"@),
        },
        Message::Add => if app.focus is TableSelector {
            app.focus_command(add_table_prompt()).ok()
        } else {
            app.ok()
        },
        Message::Edit => match app.focus {
            DisplayFocus::TableSelector => app.focus_command(edit_table_name_prompt()).ok(),
            DisplayFocus::TableView => app.focus_command(edit_cell_prompt(Seq::empty())).ok(),
            _ => app.ok(),
        },
        Message::HyperEdit => if app.focus is TableView {
            app.focus_command(
                prompt("Edit Table Header"@, Seq::empty(), CommandAction::EditHeader),
            ).ok()
        } else {
            app.ok()
        },
        Message::Delete => match app.focus {
            DisplayFocus::TableSelector => app.remove_table(),
            DisplayFocus::TableView => app.update_cell_value(Seq::empty()),
            _ => app.ok(),
        },
    }
}

/// Opens the prompt of a command named `title` that starts empty.
fn ask(app: &mut App, title: &str, action: CommandAction) -> (r: Result<Effect, StrataError>)
    ensures
        step_taken_with(
            old(app)@.focus_command(prompt(title@, Seq::empty(), action)).ok(),
            final(app)@,
            r,
        ),
{
    let command = CommandPopup::new(title, "", action);
    assert(""@ =~= Seq::<char>::empty()) by {
        reveal_strlit("");
    }
    app.focus_command(command);
    Ok(Effect::Nothing)
}

/// Edits the text of the waiting command.
pub fn handle_input(app: &mut App, edit: TextEdit) -> (r: Result<Effect, StrataError>)
    ensures
        step_taken_with(edit_input(old(app)@, edit), final(app)@, r),
{
    match edit {
        TextEdit::Push(c) => done(app.push_user_input(c)),
        TextEdit::Pop => done(app.pop_user_input()),
    }
}

/// Cancels what the focus is on and unwinds the focus.
pub fn handle_cancel(app: &mut App) -> (r: Result<Effect, StrataError>)
    ensures
        step_taken_with(cancel(old(app)@), final(app)@, r),
{
    match app.display_focus() {
        DisplayFocus::Command(_) => {
            app.clear_command();
        },
        DisplayFocus::Error(_) => {
            app.clear_error_message();
        },
        _ => {},
    }
    done(app.focus_last())
}

/// Moves the selection in the table list or the cursor in a table.
pub fn handle_move_cursor(app: &mut App, direction: MoveDirection) -> (r: Result<
    Effect,
    StrataError,
>)
    ensures
        step_taken_with(move_cursor(old(app)@, direction), final(app)@, r),
{
    match app.display_focus() {
        DisplayFocus::TableSelector => match direction {
            MoveDirection::Up => {
                app.up_table_selector();
                Ok(Effect::Nothing)
            },
            MoveDirection::Down => {
                app.down_table_selector();
                Ok(Effect::Nothing)
            },
            MoveDirection::Right => done(app.focus_table_view()),
            MoveDirection::Left => Ok(Effect::Nothing),
        },
        DisplayFocus::TableView => match direction {
            MoveDirection::Up => done(app.move_cell_selector(-1, 0)),
            MoveDirection::Down => done(app.move_cell_selector(1, 0)),
            MoveDirection::Left => done(app.move_cell_selector(0, -1)),
            MoveDirection::Right => done(app.move_cell_selector(0, 1)),
        },
        _ => Ok(Effect::Nothing),
    }
}

/// Asks for the new text of the cell under the cursor.
pub fn handle_edit_cell(app: &mut App) -> (r: Result<Effect, StrataError>)
    ensures
        step_taken_with(edit_cell(old(app)@), final(app)@, r),
{
    let command = match app.selected_table_view() {
        Err(e) => {
            return Err(e);
        },
        Ok(grid) => {
            let initial = match grid.selected_cell_value() {
                Some(text) => text,
                None => {
                    assert(""@ =~= Seq::<char>::empty()) by {
                        reveal_strlit("");
                    }
                    ""
                },
            };
            CommandPopup::new("Edit Cell", initial, CommandAction::EditCell)
        },
    };
    app.focus_command(command);
    Ok(Effect::Nothing)
}

/// Asks for the new header of the cursor's column.
pub fn handle_edit_header(app: &mut App) -> (r: Result<Effect, StrataError>)
    ensures
        step_taken_with(edit_header(old(app)@), final(app)@, r),
{
    let (_, col) = match app.get_selected_cell() {
        Err(e) => {
            return Err(e);
        },
        Ok(cell) => cell,
    };
    let command = match app.selected_table_view() {
        Err(e) => {
            return Err(e);
        },
        Ok(grid) => {
            let header = grid.get_header();
            CommandPopup::new("Edit Header", header[col].as_str(), CommandAction::EditHeader)
        },
    };
    app.focus_command(command);
    Ok(Effect::Nothing)
}

/// Confirms, whatever that means for the current focus.
pub fn handle_enter(app: &mut App) -> (r: Result<Effect, StrataError>)
    ensures
        step_taken_with(enter(old(app)@), final(app)@, r),
{
    match app.display_focus() {
        DisplayFocus::Command(_) => app.execute_command(),
        DisplayFocus::TableSelector => done(app.focus_table_view()),
        DisplayFocus::TableView => ask(app, "Edit Cell", CommandAction::EditCell),
        DisplayFocus::Error(_) => {
            app.clear_error_message();
            done(app.focus_last())
        },
        DisplayFocus::Exit(_) => Ok(Effect::Nothing),
    }
}

/// Fails: `operation` has no meaning under the current focus.
fn refuse(app: &App, operation: &str) -> (r: Result<Effect, StrataError>)
    ensures
        step_taken_with(misplaced(app@, operation@), app@, r),
{
    Err(
        StrataError::InvalidOperationCall {
            operation: operation.to_owned(),
            focus: app.display_focus().to_string(),
        },
    )
}

/// Logs the message of a failure and opens the error display over the
/// current focus.
pub fn report_error(app: &mut App, message: String)
    ensures
        final(app)@ == reported(old(app)@, message@),
        final(app)@.focus == DisplayFocus::Error(Box::new(old(app)@.focus)),
{
    app.push_error_message(message);
    app.focus_error();
}

/// Takes the step that `message` asks for; a failure is not handed on but
/// reported: its message is logged and the error display opens.
pub fn update_or_report(app: &mut App, message: Message) -> (r: Effect)
    ensures
        match update_step(old(app)@, message).failure {
            None => final(app)@ == update_step(old(app)@, message).after && r@ == update_step(
                old(app)@,
                message,
            ).effect,
            Some(e) => final(app)@ == reported(
                update_step(old(app)@, message).after,
                message_text(e),
            ) && r@ == EffectView::Nothing,
        },
{
    match update(app, message) {
        Ok(effect) => effect,
        Err(e) => {
            report_error(app, e.to_string());
            Effect::Nothing
        },
    }
}

/// Asks for the name of a new table.
pub fn handle_add_table(app: &mut App) -> (r: Result<Effect, StrataError>)
    ensures
        step_taken_with(update_step(old(app)@, Message::AddTable), final(app)@, r),
{
    ask(app, "Add Table", CommandAction::AddTable)
}

/// Asks for the name of a new table, from the table list only.
pub fn handle_add(app: &mut App) -> (r: Result<Effect, StrataError>)
    ensures
        step_taken_with(update_step(old(app)@, Message::Add), final(app)@, r),
{
    match app.display_focus() {
        DisplayFocus::TableSelector => handle_add_table(app),
        _ => Ok(Effect::Nothing),
    }
}

/// Asks for the new name of the selected table.
pub fn handle_edit_table_name(app: &mut App) -> (r: Result<Effect, StrataError>)
    ensures
        step_taken_with(update_step(old(app)@, Message::EditTableName), final(app)@, r),
{
    ask(app, "Edit Table Name", CommandAction::EditTableName)
}

/// Asks for a table's new name from the table list, for a cell's new
/// text from a table.
pub fn handle_edit(app: &mut App) -> (r: Result<Effect, StrataError>)
    ensures
        step_taken_with(update_step(old(app)@, Message::Edit), final(app)@, r),
{
    match app.display_focus() {
        DisplayFocus::TableSelector => handle_edit_table_name(app),
        DisplayFocus::TableView => ask(app, "Edit Cell", CommandAction::EditCell),
        _ => Ok(Effect::Nothing),
    }
}

/// Asks for the new header of the cursor's column, from a table only.
pub fn handle_hyper_edit(app: &mut App) -> (r: Result<Effect, StrataError>)
    ensures
        step_taken_with(update_step(old(app)@, Message::HyperEdit), final(app)@, r),
{
    match app.display_focus() {
        DisplayFocus::TableView => ask(app, "Edit Table Header", CommandAction::EditHeader),
        _ => Ok(Effect::Nothing),
    }
}

/// Asks for the name of the table to jump to.
pub fn handle_jump_table(app: &mut App) -> (r: Result<Effect, StrataError>)
    ensures
        step_taken_with(update_step(old(app)@, Message::JumpTable), final(app)@, r),
{
    ask(app, "Jump [input table name e.g. table1]", CommandAction::JumpTable)
}

/// Asks for the cell to jump to.
pub fn handle_jump_cell(app: &mut App) -> (r: Result<Effect, StrataError>)
    ensures
        step_taken_with(update_step(old(app)@, Message::JumpCell), final(app)@, r),
{
    ask(app, "Jump [input row and col index e.g. 1 2]", CommandAction::JumpCell)
}

/// Asks where to jump: for a table from the table list, for a cell from
/// a table. No other focus has a jump.
pub fn handle_jump(app: &mut App) -> (r: Result<Effect, StrataError>)
    ensures
        step_taken_with(update_step(old(app)@, Message::Jump), final(app)@, r),
{
    match app.display_focus() {
        DisplayFocus::TableSelector => handle_jump_table(app),
        DisplayFocus::TableView => handle_jump_cell(app),
        _ => refuse(app, "Jump"),
    }
}

/// Asks for the path of the file to open, from the table list only.
pub fn handle_open(app: &mut App) -> (r: Result<Effect, StrataError>)
    ensures
        step_taken_with(update_step(old(app)@, Message::Open), final(app)@, r),
{
    match app.display_focus() {
        DisplayFocus::TableSelector => ask(app, "Open File", CommandAction::OpenFile),
        _ => Ok(Effect::Nothing),
    }
}

/// Asks for the path of the file to save the selected table to.
pub fn handle_save(app: &mut App) -> (r: Result<Effect, StrataError>)
    ensures
        step_taken_with(update_step(old(app)@, Message::Save), final(app)@, r),
{
    ask(app, "Save File Path", CommandAction::SaveFile)
}

/// Empties the cell under the cursor.
pub fn handle_delete_cell(app: &mut App) -> (r: Result<Effect, StrataError>)
    ensures
        step_taken_with(update_step(old(app)@, Message::DeleteCell), final(app)@, r),
{
    assert(""@ =~= Seq::<char>::empty()) by {
        reveal_strlit("");
    }
    done(app.update_cell_value(""))
}

/// Removes the selected table from the table list, empties the cell
/// under the cursor from a table.
pub fn handle_delete(app: &mut App) -> (r: Result<Effect, StrataError>)
    ensures
        step_taken_with(update_step(old(app)@, Message::Delete), final(app)@, r),
{
    match app.display_focus() {
        DisplayFocus::TableSelector => done(app.remove_table()),
        DisplayFocus::TableView => handle_delete_cell(app),
        _ => Ok(Effect::Nothing),
    }
}

/// Appends a row to the selected table.
pub fn handle_expand_row(app: &mut App) -> (r: Result<Effect, StrataError>)
    ensures
        step_taken_with(update_step(old(app)@, Message::ExpandRow), final(app)@, r),
{
    done(app.expand_row())
}

/// Removes the row under the cursor of the selected table.
pub fn handle_collapse_row(app: &mut App) -> (r: Result<Effect, StrataError>)
    ensures
        step_taken_with(update_step(old(app)@, Message::CollapseRow), final(app)@, r),
{
    done(app.collapse_selected_row())
}

/// Appends a column to the selected table.
pub fn handle_expand_col(app: &mut App) -> (r: Result<Effect, StrataError>)
    ensures
        step_taken_with(update_step(old(app)@, Message::ExpandColumn), final(app)@, r),
{
    done(app.expand_col())
}

/// Removes the column under the cursor of the selected table.
pub fn handle_collapse_col(app: &mut App) -> (r: Result<Effect, StrataError>)
    ensures
        step_taken_with(update_step(old(app)@, Message::CollapseColumn), final(app)@, r),
{
    done(app.collapse_selected_col())
}

/// Takes the step that `message` asks for. What it returns besides is left
/// for the caller to do: reading or writing a file.
pub fn update(app: &mut App, message: Message) -> (r: Result<Effect, StrataError>)
    ensures
        step_taken_with(update_step(old(app)@, message), final(app)@, r),
{
    match message {
        Message::AddTable => handle_add_table(app),
        Message::PopInput => handle_input(app, TextEdit::Pop),
        Message::BackSpace => handle_input(app, TextEdit::Pop),
        Message::Input(c) => handle_input(app, TextEdit::Push(c)),
        Message::Cancel => handle_cancel(app),
        Message::CollapseColumn => handle_collapse_col(app),
        Message::CollapseRow => handle_collapse_row(app),
        Message::RemoveTable => done(app.remove_table()),
        Message::DeleteCell => handle_delete_cell(app),
        Message::EditTableName => handle_edit_table_name(app),
        Message::EditCell => handle_edit_cell(app),
        Message::ExecuteCommand => app.execute_command(),
        Message::Exiting => {
            app.focus_exit();
            Ok(Effect::Nothing)
        },
        Message::ExpandColumn => handle_expand_col(app),
        Message::ExpandRow => handle_expand_row(app),
        Message::EditHeader => handle_edit_header(app),
        Message::JumpTable => handle_jump_table(app),
        Message::JumpCell => handle_jump_cell(app),
        Message::Move(direction) => handle_move_cursor(app, direction),
        Message::NoOp => Ok(Effect::Nothing),
        Message::Open => handle_open(app),
        Message::Save => handle_save(app),
        Message::SelectTable => done(app.focus_table_view()),
        Message::Exit => refuse(app, "Exit"),
        Message::Enter => handle_enter(app),
        Message::Jump => handle_jump(app),
        Message::Add => handle_add(app),
        Message::Edit => handle_edit(app),
        Message::HyperEdit => handle_hyper_edit(app),
        Message::Delete => handle_delete(app),
    }
}

} // verus!
