//! The application: the tables with their names, the focus, the command
//! that waits for its text, and the error log. Every operation is stated
//! as a step of the plain-data model `AppView`.

use vstd::prelude::*;
use crate::command::{CommandAction, CommandPopup, CommandView, Effect, EffectView};
use crate::display_focus::DisplayFocus;
use crate::error::{ErrorView, StrataError};
use crate::error_popup::ErrorPopup;
use crate::table_selector::{SelectorView, TableName, TableSelector, INITIAL_TABLE_NAME};
use crate::table_view::{GridView, TableView};
use crate::text::{decimal, numbered, parse_cell, parse_cell_spec};

verus! {

/// The tables of a list as plain data.
pub open spec fn grids_view(grids: Seq<TableView>) -> Seq<GridView> {
    Seq::new(grids.len(), |i: int| grids[i]@)
}

/// The application as plain data.
pub struct AppView {
    pub focus: DisplayFocus,
    pub tables: SelectorView,
    pub grids: Seq<GridView>,
    pub command: Option<CommandView>,
    pub errors: Seq<Seq<char>>,
}

/// The outcome of one operation: the state after it, the failure it ended
/// in, if any, and what is left for the caller to do.
pub struct Step {
    pub after: AppView,
    pub failure: Option<ErrorView>,
    pub effect: EffectView,
}

/// Whether an operation that returned `r` and left the state `after` took the step `step`.
pub open spec fn step_taken(step: Step, after: AppView, r: Result<(), StrataError>) -> bool {
    &&& after == step.after
    &&& match r {
        Ok(_) => step.failure is None,
        Err(e) => step.failure == Some(e@),
    }
}

/// Whether an operation that returned `r` and left the state `after` took
/// the step `step`, effect included.
pub open spec fn step_taken_with(step: Step, after: AppView, r: Result<Effect, StrataError>) -> bool {
    &&& after == step.after
    &&& match r {
        Ok(effect) => step.failure is None && effect@ == step.effect,
        Err(e) => step.failure == Some(e@),
    }
}

impl AppView {
    /// Names and tables stand side by side, and the names are a well-formed list.
    pub open spec fn wf(self) -> bool {
        &&& self.tables.wf()
        &&& self.grids.len() == self.tables.names.len()
    }

    /// The application as it starts.
    pub open spec fn initial() -> AppView {
        AppView {
            focus: DisplayFocus::TableSelector,
            tables: SelectorView { names: Seq::empty(), selected: None },
            grids: Seq::empty(),
            command: None,
            errors: Seq::empty(),
        }
    }

    /// The step that succeeds and leaves this state.
    pub open spec fn ok(self) -> Step {
        Step { after: self, failure: None, effect: EffectView::Nothing }
    }

    /// The step that fails with `e` and leaves this state.
    pub open spec fn fail(self, e: ErrorView) -> Step {
        Step { after: self, failure: Some(e), effect: EffectView::Nothing }
    }

    /// The step that succeeds, leaves this state and asks for `effect`.
    pub open spec fn ask(self, effect: EffectView) -> Step {
        Step { after: self, failure: None, effect }
    }

    /// Putting the table list in focus.
    pub open spec fn focus_table_selector(self) -> AppView {
        AppView { focus: DisplayFocus::TableSelector, ..self }
    }

    /// Showing a table needs a table.
    pub open spec fn focus_table_view(self) -> Step {
        if self.tables.names.len() == 0 {
            self.fail(ErrorView::NoTableAdded)
        } else {
            (AppView { focus: DisplayFocus::TableView, ..self }).ok()
        }
    }

    /// Showing the table named `name`: the name is looked up and selected.
    /// A name that is not in the list leaves nothing selected.
    pub open spec fn focus_table_view_by_name(self, name: Seq<char>) -> Step {
        if self.tables.names.len() == 0 {
            self.fail(ErrorView::NoTableAdded)
        } else if name.len() == 0 {
            self.fail(ErrorView::InvalidTableName)
        } else if self.tables.names.contains(name) {
            (AppView {
                focus: DisplayFocus::TableView,
                tables: self.tables.selecting(name),
                ..self
            }).ok()
        } else {
            (AppView { tables: self.tables.selecting(name), ..self }).fail(
                ErrorView::TableNotFound(name),
            )
        }
    }

    /// Opening the prompt of `command` over the current focus.
    pub open spec fn focus_command(self, command: CommandView) -> AppView {
        AppView {
            command: Some(command),
            focus: DisplayFocus::Command(Box::new(self.focus)),
            ..self
        }
    }

    /// Opening the error display over the current focus, if there is an error to show.
    pub open spec fn focus_error(self) -> AppView {
        if self.errors.len() > 0 {
            AppView { focus: DisplayFocus::Error(Box::new(self.focus)), ..self }
        } else {
            self
        }
    }

    /// Opening the exit question over the current focus.
    pub open spec fn focus_exit(self) -> AppView {
        AppView { focus: DisplayFocus::Exit(Box::new(self.focus)), ..self }
    }

    /// Unwinding the focus: the table list stays, a table goes back to the
    /// list, and any stack of overlays goes back to the screen under it.
    pub open spec fn focus_last(self) -> Step {
        match self.focus {
            DisplayFocus::TableSelector => self.ok(),
            DisplayFocus::TableView => self.focus_table_selector().ok(),
            _ => if self.focus.base() is TableSelector {
                self.focus_table_selector().ok()
            } else {
                self.focus_table_view()
            },
        }
    }

    /// Adding a new table named `name`, which is selected.
    pub open spec fn add_table(self, name: Seq<char>) -> Step {
        if name.len() == 0 {
            self.fail(ErrorView::InvalidTableName)
        } else if self.tables.names.contains(name) {
            self.fail(ErrorView::TableNameDuplicate(name))
        } else {
            (AppView {
                tables: self.tables.pushed(name),
                grids: self.grids.push(GridView::starter()),
                ..self
            }).ok()
        }
    }

    /// Adding the table that `data` holds as comma-separated values, named
    /// by `stem`, or by the placeholder name without one.
    pub open spec fn open_table(self, stem: Option<Seq<char>>, data: Seq<u8>, has_header: bool) -> Step {
        let name = match stem {
            Some(s) => s,
            None => INITIAL_TABLE_NAME@,
        };
        if name.len() == 0 {
            self.fail(ErrorView::InvalidTableName)
        } else {
            match GridView::from_csv(data, has_header) {
                Err(e) => self.fail(e),
                Ok(grid) => if self.tables.names.contains(name) {
                    self.fail(ErrorView::TableNameDuplicate(name))
                } else {
                    (AppView {
                        tables: self.tables.pushed(name),
                        grids: self.grids.push(grid),
                        ..self
                    }).ok()
                },
            }
        }
    }

    /// What follows the reading of a file that the user asked to open: the
    /// table is added under the file's stem and shown.
    pub open spec fn open_file(self, stem: Option<Seq<char>>, data: Seq<u8>) -> Step {
        match stem {
            None => self.fail(ErrorView::InvalidTableName),
            Some(name) => {
                let opened = self.open_table(stem, data, true);
                if opened.failure is Some {
                    opened
                } else {
                    opened.after.focus_table_view_by_name(name)
                }
            },
        }
    }

    /// Removing the selected table and going back to the table list.
    /// Without a selection there is nothing to remove.
    pub open spec fn remove_table(self) -> Step {
        match self.tables.selected {
            None => self.fail(ErrorView::NoTableSelected),
            Some(i) => (AppView {
                tables: self.tables.removed(i as int),
                grids: self.grids.remove(i as int),
                focus: DisplayFocus::TableSelector,
                ..self
            }).ok(),
        }
    }

    /// What follows the writing of a file that the user asked to save to:
    /// the focus unwinds.
    pub open spec fn file_written(self) -> Step {
        self.focus_last()
    }

    /// Renaming the selected table.
    pub open spec fn update_table_name(self, name: Seq<char>) -> Step {
        if name.len() == 0 {
            self.fail(ErrorView::InvalidTableName)
        } else {
            match self.tables.selected {
                None => self.fail(ErrorView::NoTableSelected),
                Some(i) => if self.tables.names.contains(name) {
                    self.fail(ErrorView::TableNameDuplicate(name))
                } else {
                    (AppView { tables: self.tables.renamed(i as int, name), ..self }).ok()
                },
            }
        }
    }

    /// The selected table, or the failure of having none.
    pub open spec fn selected_grid(self) -> Result<GridView, ErrorView> {
        match self.tables.selected {
            None => Err(ErrorView::NoTableSelected),
            Some(i) => Ok(self.grids[i as int]),
        }
    }

    /// The cell under the cursor of the selected table.
    pub open spec fn selected_cell(self) -> Result<(usize, usize), ErrorView> {
        match self.selected_grid() {
            Err(e) => Err(e),
            Ok(grid) => match grid.selected {
                None => Err(ErrorView::NoCellSelected),
                Some(cell) => Ok(cell),
            },
        }
    }

    /// The state with the selected table replaced by `grid`.
    pub open spec fn with_grid(self, grid: GridView) -> AppView {
        AppView { grids: self.grids.update(self.tables.selected->0 as int, grid), ..self }
    }

    /// The step that puts the outcome of an operation on the selected table in its place.
    pub open spec fn put(self, outcome: Result<GridView, ErrorView>) -> Step {
        match outcome {
            Err(e) => self.fail(e),
            Ok(grid) => self.with_grid(grid).ok(),
        }
    }

    /// Appending a row of empty cells to the selected table.
    pub open spec fn expand_row(self) -> Step {
        match self.selected_grid() {
            Err(e) => self.fail(e),
            Ok(grid) => self.with_grid(grid.with_new_row()).ok(),
        }
    }

    /// Removing the row `row` of the selected table.
    pub open spec fn collapse_row(self, row: usize) -> Step {
        match self.selected_grid() {
            Err(e) => self.fail(e),
            Ok(grid) => self.put(grid.collapse_row(row)),
        }
    }

    /// Appending a column to the selected table, named `header` and its index.
    pub open spec fn expand_col(self) -> Step {
        match self.selected_grid() {
            Err(e) => self.fail(e),
            Ok(grid) => self.with_grid(
                grid.with_new_col("header"@ + decimal(grid.header.len())),
            ).ok(),
        }
    }

    /// Removing the column `col` of the selected table.
    pub open spec fn collapse_col(self, col: usize) -> Step {
        match self.selected_grid() {
            Err(e) => self.fail(e),
            Ok(grid) => self.put(grid.collapse_col(col)),
        }
    }

    /// Moving the cursor of the selected table, which stops at the edges.
    pub open spec fn move_cell_selector(self, d_row: isize, d_col: isize) -> Step {
        match self.selected_grid() {
            Err(e) => self.fail(e),
            Ok(grid) => self.put(grid.move_selector(d_row, d_col)),
        }
    }

    /// Putting the cursor on the cell that `text` gives as `row col`.
    pub open spec fn jump_cell_selector(self, text: Seq<char>) -> Step {
        match parse_cell_spec(text) {
            None => self.fail(ErrorView::StringParseError(text)),
            Some((row, col)) => match self.selected_grid() {
                Err(e) => self.fail(e),
                Ok(grid) => self.put(grid.select_cell(row, col)),
            },
        }
    }

    /// Setting the cell under the cursor to `value`.
    pub open spec fn update_cell_value(self, value: Seq<char>) -> Step {
        match self.selected_cell() {
            Err(e) => self.fail(e),
            Ok((row, col)) => self.put(self.selected_grid()->Ok_0.update_cell(row, col, value)),
        }
    }

    /// Setting the header of the cursor's column to `value`.
    pub open spec fn update_header(self, value: Seq<char>) -> Step {
        match self.selected_cell() {
            Err(e) => self.fail(e),
            Ok((row, col)) => self.put(self.selected_grid()->Ok_0.update_header(col, value)),
        }
    }

    /// Removing the row under the cursor.
    pub open spec fn collapse_selected_row(self) -> Step {
        match self.selected_cell() {
            Err(e) => self.fail(e),
            Ok((row, col)) => self.collapse_row(row),
        }
    }

    /// Removing the column under the cursor.
    pub open spec fn collapse_selected_col(self) -> Step {
        match self.selected_cell() {
            Err(e) => self.fail(e),
            Ok((row, col)) => self.collapse_col(col),
        }
    }

    /// One step, and if it succeeded, the step `next` that was taken from its state.
    pub open spec fn and_then(first: Step, next: Step) -> Step {
        if first.failure is Some {
            first
        } else {
            next
        }
    }

    /// What a command does: `action` with the text `input`.
    pub open spec fn run(self, action: CommandAction, input: Seq<char>) -> Step {
        match action {
            CommandAction::Nothing => self.ok(),
            CommandAction::AddTable => AppView::and_then(
                self.add_table(input),
                self.add_table(input).after.focus_table_view_by_name(input),
            ),
            CommandAction::EditTableName => AppView::and_then(
                self.update_table_name(input),
                self.update_table_name(input).after.focus_table_selector().ok(),
            ),
            CommandAction::EditCell => AppView::and_then(
                self.update_cell_value(input),
                self.update_cell_value(input).after.focus_table_view(),
            ),
            CommandAction::EditHeader => AppView::and_then(
                self.update_header(input),
                self.update_header(input).after.focus_last(),
            ),
            CommandAction::JumpCell => AppView::and_then(
                self.jump_cell_selector(input),
                self.jump_cell_selector(input).after.focus_table_view(),
            ),
            CommandAction::JumpTable => if input.len() == 0 {
                self.fail(ErrorView::InvalidTableName)
            } else if self.tables.names.contains(input) {
                (AppView { tables: self.tables.selecting(input), ..self }).focus_table_view()
            } else {
                (AppView { tables: self.tables.selecting(input), ..self }).fail(
                    ErrorView::TableNotFound(input),
                )
            },
            CommandAction::OpenFile => self.ask(EffectView::ReadFile { path: input }),
            CommandAction::SaveFile => match self.selected_grid() {
                Err(e) => self.fail(e),
                Ok(grid) => match grid.to_csv() {
                    Err(e) => self.fail(e),
                    Ok(data) => self.ask(EffectView::WriteFile { path: input, data }),
                },
            },
        }
    }

    /// Running the waiting command with its text. The command is gone
    /// afterwards, whatever came of it.
    pub open spec fn execute_command(self) -> Step {
        match self.command {
            None => self.fail(ErrorView::CommandNotFound),
            Some(command) => (AppView { command: None, ..self }).run(command.action, command.input),
        }
    }
}


/// The application.
#[derive(Debug)]
pub struct App {
    display_focus: DisplayFocus,
    table_selector: TableSelector,
    table_view_list: Vec<TableView>,
    command: Option<CommandPopup>,
    error_popup: ErrorPopup,
}

impl View for App {
    type V = AppView;

    closed spec fn view(&self) -> AppView {
        AppView {
            focus: self.display_focus,
            tables: self.table_selector@,
            grids: grids_view(self.table_view_list@),
            command: match self.command {
                Some(c) => Some(c@),
                None => None,
            },
            errors: self.error_popup@,
        }
    }
}

impl App {
    #[verifier::type_invariant]
    spec fn inv(self) -> bool {
        self@.wf()
    }

    /// The application as it starts: the table list in focus, no table,
    /// no command, no error.
    pub fn new() -> (r: Self)
        ensures
            r@ == AppView::initial(),
            r@.wf(),
    {
        let table_view_list: Vec<TableView> = Vec::new();
        assert(grids_view(table_view_list@) =~= Seq::<GridView>::empty());
        App {
            display_focus: DisplayFocus::TableSelector,
            table_selector: TableSelector::new(),
            table_view_list,
            command: None,
            error_popup: ErrorPopup::new(),
        }
    }

    /// States what holds of every application: names and tables side by
    /// side, no name twice, selection in range.
    pub fn well_formed(&self)
        ensures
            self@.wf(),
    {
        proof {
            use_type_invariant(self);
        }
    }

    /// Takes the application out, leaving a fresh one in its place.
    fn take(&mut self) -> (r: App)
        ensures
            r == *old(self),
            final(self)@ == AppView::initial(),
    {
        let mut taken = App::new();
        std::mem::swap(self, &mut taken);
        taken
    }

    /// The current focus.
    pub fn display_focus(&self) -> (r: &DisplayFocus)
        ensures
            *r == self@.focus,
    {
        &self.display_focus
    }

    /// The table names and the selection.
    pub fn table_selector(&self) -> (r: &TableSelector)
        ensures
            r@ == self@.tables,
            r@.wf(),
    {
        proof {
            use_type_invariant(self);
        }
        &self.table_selector
    }

    /// The position of the selected table, or the failure of having none.
    fn selected_position(&self) -> (r: Result<usize, StrataError>)
        ensures
            match r {
                Ok(i) => self@.tables.selected == Some(i) && i < self@.grids.len(),
                Err(e) => self@.tables.selected is None && e@ == ErrorView::NoTableSelected,
            },
    {
        proof {
            use_type_invariant(self);
        }
        match self.table_selector.selected_index() {
            Some(i) => Ok(i),
            None => Err(StrataError::NoTableSelected),
        }
    }

    /// The selected table.
    pub fn selected_table_view(&self) -> (r: Result<&TableView, StrataError>)
        ensures
            match r {
                Ok(t) => self@.selected_grid() == Ok::<_, ErrorView>(t@) && t@.wf(),
                Err(e) => self@.selected_grid() == Err::<GridView, _>(e@),
            },
    {
        match self.selected_position() {
            Err(e) => Err(e),
            Ok(i) => {
                let t = &self.table_view_list[i];
                t.well_formed();
                Ok(t)
            },
        }
    }

    /// The cell under the cursor of the selected table.
    pub fn get_selected_cell(&self) -> (r: Result<(usize, usize), StrataError>)
        ensures
            match r {
                Ok(cell) => self@.selected_cell() == Ok::<_, ErrorView>(cell),
                Err(e) => self@.selected_cell() == Err::<(usize, usize), _>(e@),
            },
    {
        match self.selected_table_view() {
            Err(e) => Err(e),
            Ok(t) => match t.get_selector_index() {
                None => Err(StrataError::NoCellSelected),
                Some(cell) => Ok(cell),
            },
        }
    }

    /// The text of the cell under the cursor of the selected table.
    pub fn get_cell_value(&self) -> (r: Result<&str, StrataError>)
        ensures
            match r {
                Ok(text) => self@.selected_cell() matches Ok((row, col)) && text@
                    == self@.selected_grid()->Ok_0.rows[row as int][col as int],
                Err(e) => self@.selected_cell() == Err::<(usize, usize), _>(e@),
            },
    {
        match self.selected_table_view() {
            Err(e) => Err(e),
            Ok(t) => match t.selected_cell_value() {
                None => Err(StrataError::NoCellSelected),
                Some(text) => Ok(text),
            },
        }
    }

    /// The command that waits for its text.
    pub fn command(&self) -> (r: Option<&CommandPopup>)
        ensures
            match r {
                Some(c) => self@.command == Some(c@),
                None => self@.command is None,
            },
    {
        self.command.as_ref()
    }

    /// The name of the command that waits for its text.
    pub fn command_name(&self) -> (r: Option<&str>)
        ensures
            match r {
                Some(name) => self@.command matches Some(c) && name@ == c.title,
                None => self@.command is None,
            },
    {
        match &self.command {
            Some(c) => Some(c.command_name()),
            None => None,
        }
    }

    /// The error log.
    pub fn error_popup(&self) -> (r: &ErrorPopup)
        ensures
            r@ == self@.errors,
    {
        &self.error_popup
    }

    /// Appends a message to the error log.
    pub fn push_error_message(&mut self, message: String)
        ensures
            final(self)@ == (AppView { errors: old(self)@.errors.push(message@), ..old(self)@ }),
    {
        proof {
            use_type_invariant(&*self);
        }
        let App { display_focus, table_selector, table_view_list, command, mut error_popup } =
            self.take();
        error_popup.push(message);
        *self = App { display_focus, table_selector, table_view_list, command, error_popup };
    }

    /// Empties the error log.
    pub fn clear_error_message(&mut self)
        ensures
            final(self)@ == (AppView { errors: Seq::empty(), ..old(self)@ }),
    {
        proof {
            use_type_invariant(&*self);
        }
        let App { display_focus, table_selector, table_view_list, command, mut error_popup } =
            self.take();
        error_popup.clear();
        *self = App { display_focus, table_selector, table_view_list, command, error_popup };
    }

    /// Puts the table list in focus.
    pub fn focus_table_selector(&mut self)
        ensures
            final(self)@ == old(self)@.focus_table_selector(),
    {
        proof {
            use_type_invariant(&*self);
        }
        self.display_focus = DisplayFocus::TableSelector;
    }

    /// Puts the selected table in focus, if there is any table.
    pub fn focus_table_view(&mut self) -> (r: Result<(), StrataError>)
        ensures
            step_taken(old(self)@.focus_table_view(), final(self)@, r),
    {
        proof {
            use_type_invariant(&*self);
        }
        if self.table_selector.is_empty() {
            return Err(StrataError::NoTableAdded);
        }
        self.display_focus = DisplayFocus::TableView;
        Ok(())
    }

    /// Selects the table named `table_name` and puts it in focus.
    pub fn focus_table_view_by_name(&mut self, table_name: &str) -> (r: Result<(), StrataError>)
        ensures
            step_taken(old(self)@.focus_table_view_by_name(table_name@), final(self)@, r),
    {
        proof {
            use_type_invariant(&*self);
        }
        if self.table_selector.is_empty() {
            return Err(StrataError::NoTableAdded);
        }
        let name = match TableName::from(table_name) {
            Err(e) => {
                return Err(e);
            },
            Ok(name) => name,
        };
        let App { display_focus, mut table_selector, table_view_list, command, error_popup } =
            self.take();
        match table_selector.select_by_name(&name) {
            Err(e) => {
                *self = App { display_focus, table_selector, table_view_list, command, error_popup };
                Err(e)
            },
            Ok(_) => {
                *self = App {
                    display_focus: DisplayFocus::TableView,
                    table_selector,
                    table_view_list,
                    command,
                    error_popup,
                };
                Ok(())
            },
        }
    }

    /// Opens the prompt of `command` over the current focus.
    pub fn focus_command(&mut self, command: CommandPopup)
        ensures
            final(self)@ == old(self)@.focus_command(command@),
    {
        proof {
            use_type_invariant(&*self);
        }
        let App { display_focus, table_selector, table_view_list, command: _, error_popup } =
            self.take();
        *self = App {
            display_focus: DisplayFocus::Command(Box::new(display_focus)),
            table_selector,
            table_view_list,
            command: Some(command),
            error_popup,
        };
    }

    /// Opens the error display over the current focus, if the log has a message.
    pub fn focus_error(&mut self)
        ensures
            final(self)@ == old(self)@.focus_error(),
    {
        proof {
            use_type_invariant(&*self);
        }
        if !self.error_popup.is_empty() {
            let App { display_focus, table_selector, table_view_list, command, error_popup } =
                self.take();
            *self = App {
                display_focus: DisplayFocus::Error(Box::new(display_focus)),
                table_selector,
                table_view_list,
                command,
                error_popup,
            };
        }
    }

    /// Opens the exit question over the current focus.
    pub fn focus_exit(&mut self)
        ensures
            final(self)@ == old(self)@.focus_exit(),
    {
        proof {
            use_type_invariant(&*self);
        }
        let App { display_focus, table_selector, table_view_list, command, error_popup } =
            self.take();
        *self = App {
            display_focus: DisplayFocus::Exit(Box::new(display_focus)),
            table_selector,
            table_view_list,
            command,
            error_popup,
        };
    }

    /// Unwinds the focus to the screen under every overlay; from a table,
    /// goes back to the table list.
    pub fn focus_last(&mut self) -> (r: Result<(), StrataError>)
        ensures
            step_taken(old(self)@.focus_last(), final(self)@, r),
    {
        match &self.display_focus {
            DisplayFocus::TableSelector => Ok(()),
            DisplayFocus::TableView => {
                self.focus_table_selector();
                Ok(())
            },
            _ => {
                match DisplayFocus::last_focus(&self.display_focus) {
                    DisplayFocus::TableSelector => {
                        self.focus_table_selector();
                        Ok(())
                    },
                    _ => self.focus_table_view(),
                }
            },
        }
    }

    /// Adds a new table named `table_name_str` and selects it.
    pub fn add_table(&mut self, table_name_str: &str) -> (r: Result<(), StrataError>)
        ensures
            step_taken(old(self)@.add_table(table_name_str@), final(self)@, r),
    {
        let table_name = match TableName::from(table_name_str) {
            Err(e) => {
                return Err(e);
            },
            Ok(name) => name,
        };
        self.push_table(table_name, TableView::new())
    }

    /// Appends `grid` under the name `name`, unless the name is taken.
    fn push_table(&mut self, name: TableName, grid: TableView) -> (r: Result<(), StrataError>)
        ensures
            match r {
                Ok(_) => {
                    &&& !old(self)@.tables.names.contains(name@)
                    &&& final(self)@ == (AppView {
                        tables: old(self)@.tables.pushed(name@),
                        grids: old(self)@.grids.push(grid@),
                        ..old(self)@
                    })
                },
                Err(e) => {
                    &&& old(self)@.tables.names.contains(name@)
                    &&& e@ == ErrorView::TableNameDuplicate(name@)
                    &&& final(self)@ == old(self)@
                },
            },
    {
        proof {
            use_type_invariant(&*self);
        }
        let App { display_focus, mut table_selector, mut table_view_list, command, error_popup } =
            self.take();
        let ghost before = grids_view(table_view_list@);
        match table_selector.push_table(name) {
            Err(e) => {
                *self = App { display_focus, table_selector, table_view_list, command, error_popup };
                Err(e)
            },
            Ok(_) => {
                table_view_list.push(grid);
                assert(grids_view(table_view_list@) =~= before.push(grid@));
                *self = App { display_focus, table_selector, table_view_list, command, error_popup };
                Ok(())
            },
        }
    }

    /// Adds the table that `data` holds as comma-separated values, under
    /// the name `stem`, or under the placeholder name without one.
    pub fn open_table(&mut self, stem: Option<&str>, data: &[u8], has_header: bool) -> (r: Result<
        (),
        StrataError,
    >)
        ensures
            step_taken(
                old(self)@.open_table(
                    match stem {
                        Some(s) => Some(s@),
                        None => None,
                    },
                    data@,
                    has_header,
                ),
                final(self)@,
                r,
            ),
    {
        let given = match stem {
            Some(s) => s,
            None => INITIAL_TABLE_NAME,
        };
        let table_name = match TableName::from(given) {
            Err(e) => {
                return Err(e);
            },
            Ok(name) => name,
        };
        let grid = match TableView::from_csv(data, has_header) {
            Err(e) => {
                return Err(e);
            },
            Ok(grid) => grid,
        };
        self.push_table(table_name, grid)
    }

    /// What follows the reading of a file that the user asked to open: the
    /// table is added under the file's stem `stem` and put in focus.
    pub fn open_file(&mut self, stem: Option<&str>, data: &[u8]) -> (r: Result<(), StrataError>)
        ensures
            step_taken(
                old(self)@.open_file(
                    match stem {
                        Some(s) => Some(s@),
                        None => None,
                    },
                    data@,
                ),
                final(self)@,
                r,
            ),
    {
        match stem {
            None => Err(StrataError::InvalidTableName),
            Some(name) => match self.open_table(stem, data, true) {
                Err(e) => Err(e),
                Ok(_) => self.focus_table_view_by_name(name),
            },
        }
    }

    /// What follows the writing of a file that the user asked to save to:
    /// the focus unwinds to the screen under the prompt.
    pub fn file_written(&mut self) -> (r: Result<(), StrataError>)
        ensures
            step_taken(old(self)@.file_written(), final(self)@, r),
    {
        self.focus_last()
    }

    /// Removes the selected table and puts the table list in focus. Fails
    /// when no table is selected.
    pub fn remove_table(&mut self) -> (r: Result<(), StrataError>)
        ensures
            step_taken(old(self)@.remove_table(), final(self)@, r),
    {
        proof {
            use_type_invariant(&*self);
        }
        let index = match self.selected_position() {
            Err(e) => {
                return Err(e);
            },
            Ok(i) => i,
        };
        let App { display_focus: _, mut table_selector, mut table_view_list, command, error_popup } =
            self.take();
        let ghost before = grids_view(table_view_list@);
        match table_selector.remove_table(index) {
            Err(e) => {
                *self = App {
                    display_focus: DisplayFocus::TableSelector,
                    table_selector,
                    table_view_list,
                    command,
                    error_popup,
                };
                Err(e)
            },
            Ok(_) => {
                table_view_list.remove(index);
                assert(grids_view(table_view_list@) =~= before.remove(index as int));
                *self = App {
                    display_focus: DisplayFocus::TableSelector,
                    table_selector,
                    table_view_list,
                    command,
                    error_popup,
                };
                Ok(())
            },
        }
    }

    /// Gives the selected table the name `new_name`.
    pub fn update_table_name(&mut self, new_name: &str) -> (r: Result<(), StrataError>)
        ensures
            step_taken(old(self)@.update_table_name(new_name@), final(self)@, r),
    {
        proof {
            use_type_invariant(&*self);
        }
        let name = match TableName::from(new_name) {
            Err(e) => {
                return Err(e);
            },
            Ok(name) => name,
        };
        let index = match self.selected_position() {
            Err(e) => {
                return Err(e);
            },
            Ok(i) => i,
        };
        let App { display_focus, mut table_selector, table_view_list, command, error_popup } =
            self.take();
        let r = match table_selector.update_table(index, name) {
            Err(e) => Err(e),
            Ok(_) => Ok(()),
        };
        *self = App { display_focus, table_selector, table_view_list, command, error_popup };
        r
    }

    /// Moves the selection in the table list one entry down.
    pub fn down_table_selector(&mut self)
        ensures
            final(self)@ == (AppView { tables: old(self)@.tables.next(), ..old(self)@ }),
    {
        proof {
            use_type_invariant(&*self);
        }
        let App { display_focus, mut table_selector, table_view_list, command, error_popup } =
            self.take();
        table_selector.select_next();
        *self = App { display_focus, table_selector, table_view_list, command, error_popup };
    }

    /// Moves the selection in the table list one entry up.
    pub fn up_table_selector(&mut self)
        ensures
            final(self)@ == (AppView { tables: old(self)@.tables.prev(), ..old(self)@ }),
    {
        proof {
            use_type_invariant(&*self);
        }
        let App { display_focus, mut table_selector, table_view_list, command, error_popup } =
            self.take();
        table_selector.select_prev();
        *self = App { display_focus, table_selector, table_view_list, command, error_popup };
    }

    /// Takes the table at `index` out, leaving an empty one in its place.
    fn take_grid(&mut self, index: usize) -> (r: TableView)
        requires
            index < old(self)@.grids.len(),
        ensures
            r@ == old(self)@.grids[index as int],
            r@.wf(),
            final(self)@ == (AppView {
                grids: old(self)@.grids.update(index as int, GridView::empty()),
                ..old(self)@
            }),
    {
        proof {
            use_type_invariant(&*self);
        }
        let App { display_focus, table_selector, mut table_view_list, command, error_popup } =
            self.take();
        let ghost before = grids_view(table_view_list@);
        let mut grid = TableView::empty();
        std::mem::swap(&mut table_view_list[index], &mut grid);
        assert(grids_view(table_view_list@) =~= before.update(index as int, GridView::empty()));
        *self = App { display_focus, table_selector, table_view_list, command, error_popup };
        grid.well_formed();
        grid
    }

    /// Puts `grid` in the place of the table at `index`.
    fn put_grid(&mut self, index: usize, grid: TableView)
        requires
            index < old(self)@.grids.len(),
        ensures
            final(self)@ == (AppView {
                grids: old(self)@.grids.update(index as int, grid@),
                ..old(self)@
            }),
    {
        proof {
            use_type_invariant(&*self);
        }
        let App { display_focus, table_selector, mut table_view_list, command, error_popup } =
            self.take();
        let ghost before = grids_view(table_view_list@);
        table_view_list[index] = grid;
        assert(grids_view(table_view_list@) =~= before.update(index as int, grid@));
        *self = App { display_focus, table_selector, table_view_list, command, error_popup };
    }

    /// Appends one row of empty cells to the selected table.
    pub fn expand_row(&mut self) -> (r: Result<(), StrataError>)
        ensures
            step_taken(old(self)@.expand_row(), final(self)@, r),
    {
        let index = match self.selected_position() {
            Err(e) => {
                return Err(e);
            },
            Ok(i) => i,
        };
        let mut grid = self.take_grid(index);
        grid.expand_row();
        self.put_grid(index, grid);
        proof {
            lemma_put_back(old(self)@.grids, index as int, grid@);
        }
        Ok(())
    }

    /// Removes the row `row` of the selected table.
    pub fn collapse_row(&mut self, row: usize) -> (r: Result<(), StrataError>)
        ensures
            step_taken(old(self)@.collapse_row(row), final(self)@, r),
    {
        let index = match self.selected_position() {
            Err(e) => {
                return Err(e);
            },
            Ok(i) => i,
        };
        let mut grid = self.take_grid(index);
        let r = match grid.collapse_row(row) {
            Err(e) => Err(e),
            Ok(_) => Ok(()),
        };
        self.put_grid(index, grid);
        proof {
            lemma_put_back(old(self)@.grids, index as int, grid@);
        }
        r
    }

    /// Appends one column to the selected table, named `header` and its index.
    pub fn expand_col(&mut self) -> (r: Result<(), StrataError>)
        ensures
            step_taken(old(self)@.expand_col(), final(self)@, r),
    {
        let index = match self.selected_position() {
            Err(e) => {
                return Err(e);
            },
            Ok(i) => i,
        };
        let mut grid = self.take_grid(index);
        let name = numbered("header", grid.get_header().len());
        grid.expand_col(name.as_str());
        self.put_grid(index, grid);
        proof {
            lemma_put_back(old(self)@.grids, index as int, grid@);
        }
        Ok(())
    }

    /// Removes the column `col` of the selected table.
    pub fn collapse_col(&mut self, col: usize) -> (r: Result<(), StrataError>)
        ensures
            step_taken(old(self)@.collapse_col(col), final(self)@, r),
    {
        let index = match self.selected_position() {
            Err(e) => {
                return Err(e);
            },
            Ok(i) => i,
        };
        let mut grid = self.take_grid(index);
        let r = match grid.collapse_col(col) {
            Err(e) => Err(e),
            Ok(_) => Ok(()),
        };
        self.put_grid(index, grid);
        proof {
            lemma_put_back(old(self)@.grids, index as int, grid@);
        }
        r
    }

    /// Removes the row under the cursor of the selected table.
    pub fn collapse_selected_row(&mut self) -> (r: Result<(), StrataError>)
        ensures
            step_taken(old(self)@.collapse_selected_row(), final(self)@, r),
    {
        match self.get_selected_cell() {
            Err(e) => Err(e),
            Ok((row, _)) => self.collapse_row(row),
        }
    }

    /// Removes the column under the cursor of the selected table.
    pub fn collapse_selected_col(&mut self) -> (r: Result<(), StrataError>)
        ensures
            step_taken(old(self)@.collapse_selected_col(), final(self)@, r),
    {
        match self.get_selected_cell() {
            Err(e) => Err(e),
            Ok((_, col)) => self.collapse_col(col),
        }
    }

    /// Moves the cursor of the selected table, stopping at its edges.
    pub fn move_cell_selector(&mut self, row_move: isize, col_move: isize) -> (r: Result<
        (),
        StrataError,
    >)
        ensures
            step_taken(old(self)@.move_cell_selector(row_move, col_move), final(self)@, r),
    {
        let index = match self.selected_position() {
            Err(e) => {
                return Err(e);
            },
            Ok(i) => i,
        };
        let mut grid = self.take_grid(index);
        let r = match grid.move_selector(row_move, col_move) {
            Err(e) => Err(e),
            Ok(_) => Ok(()),
        };
        self.put_grid(index, grid);
        proof {
            lemma_put_back(old(self)@.grids, index as int, grid@);
        }
        r
    }

    /// Puts the cursor of the selected table on the cell that `index_str`
    /// gives as `row col`.
    pub fn jump_cell_selector(&mut self, index_str: &str) -> (r: Result<(), StrataError>)
        ensures
            step_taken(old(self)@.jump_cell_selector(index_str@), final(self)@, r),
    {
        let (row, col) = match parse_cell(index_str) {
            None => {
                return Err(StrataError::StringParseError(index_str.to_owned()));
            },
            Some(cell) => cell,
        };
        let index = match self.selected_position() {
            Err(e) => {
                return Err(e);
            },
            Ok(i) => i,
        };
        let mut grid = self.take_grid(index);
        let r = match grid.select_cell(row, col) {
            Err(e) => Err(e),
            Ok(_) => Ok(()),
        };
        self.put_grid(index, grid);
        proof {
            lemma_put_back(old(self)@.grids, index as int, grid@);
        }
        r
    }

    /// Sets the cell under the cursor of the selected table to `value`.
    pub fn update_cell_value(&mut self, value: &str) -> (r: Result<(), StrataError>)
        ensures
            step_taken(old(self)@.update_cell_value(value@), final(self)@, r),
    {
        let (row, col) = match self.get_selected_cell() {
            Err(e) => {
                return Err(e);
            },
            Ok(cell) => cell,
        };
        let index = match self.selected_position() {
            Err(e) => {
                return Err(e);
            },
            Ok(i) => i,
        };
        let mut grid = self.take_grid(index);
        let r = match grid.update_cell(row, col, value) {
            Err(e) => Err(e),
            Ok(_) => Ok(()),
        };
        self.put_grid(index, grid);
        proof {
            lemma_put_back(old(self)@.grids, index as int, grid@);
        }
        r
    }

    /// Sets the header of the cursor's column in the selected table to `value`.
    pub fn update_header(&mut self, value: &str) -> (r: Result<(), StrataError>)
        ensures
            step_taken(old(self)@.update_header(value@), final(self)@, r),
    {
        let (_, col) = match self.get_selected_cell() {
            Err(e) => {
                return Err(e);
            },
            Ok(cell) => cell,
        };
        let index = match self.selected_position() {
            Err(e) => {
                return Err(e);
            },
            Ok(i) => i,
        };
        let mut grid = self.take_grid(index);
        let r = match grid.update_header(col, value) {
            Err(e) => Err(e),
            Ok(_) => Ok(()),
        };
        self.put_grid(index, grid);
        proof {
            lemma_put_back(old(self)@.grids, index as int, grid@);
        }
        r
    }

    /// Takes the waiting command out.
    fn take_command(&mut self) -> (r: Option<CommandPopup>)
        ensures
            match r {
                Some(c) => old(self)@.command == Some(c@),
                None => old(self)@.command is None,
            },
            final(self)@ == (AppView { command: None, ..old(self)@ }),
    {
        proof {
            use_type_invariant(&*self);
        }
        let App { display_focus, table_selector, table_view_list, command, error_popup } =
            self.take();
        *self = App { display_focus, table_selector, table_view_list, command: None, error_popup };
        command
    }

    /// Puts `command` in the place of the waiting command.
    fn put_command(&mut self, command: CommandPopup)
        ensures
            final(self)@ == (AppView { command: Some(command@), ..old(self)@ }),
    {
        proof {
            use_type_invariant(&*self);
        }
        let App { display_focus, table_selector, table_view_list, command: _, error_popup } =
            self.take();
        *self = App {
            display_focus,
            table_selector,
            table_view_list,
            command: Some(command),
            error_popup,
        };
    }

    /// Discards the waiting command.
    pub fn clear_command(&mut self)
        ensures
            final(self)@ == (AppView { command: None, ..old(self)@ }),
    {
        let _ = self.take_command();
    }

    /// Appends `c` to the text of the waiting command.
    pub fn push_user_input(&mut self, c: char) -> (r: Result<(), StrataError>)
        ensures
            match old(self)@.command {
                None => step_taken(old(self)@.fail(ErrorView::CommandNotFound), final(self)@, r),
                Some(command) => r is Ok && final(self)@ == (AppView {
                    command: Some(CommandView { input: command.input.push(c), ..command }),
                    ..old(self)@
                }),
            },
    {
        match self.take_command() {
            None => Err(StrataError::CommandNotFound),
            Some(mut command) => {
                command.input(c);
                self.put_command(command);
                Ok(())
            },
        }
    }

    /// Removes the last character of the text of the waiting command.
    pub fn pop_user_input(&mut self) -> (r: Result<(), StrataError>)
        ensures
            match old(self)@.command {
                None => step_taken(old(self)@.fail(ErrorView::CommandNotFound), final(self)@, r),
                Some(command) => r is Ok && final(self)@ == (AppView {
                    command: Some(
                        CommandView {
                            input: if command.input.len() == 0 {
                                command.input
                            } else {
                                command.input.drop_last()
                            },
                            ..command
                        },
                    ),
                    ..old(self)@
                }),
            },
    {
        match self.take_command() {
            None => Err(StrataError::CommandNotFound),
            Some(mut command) => {
                command.pop();
                self.put_command(command);
                Ok(())
            },
        }
    }

    /// Empties the text of the waiting command.
    pub fn clear_user_input(&mut self) -> (r: Result<(), StrataError>)
        ensures
            match old(self)@.command {
                None => step_taken(old(self)@.fail(ErrorView::CommandNotFound), final(self)@, r),
                Some(command) => r is Ok && final(self)@ == (AppView {
                    command: Some(CommandView { input: Seq::empty(), ..command }),
                    ..old(self)@
                }),
            },
    {
        match self.take_command() {
            None => Err(StrataError::CommandNotFound),
            Some(mut command) => {
                command.clear();
                self.put_command(command);
                Ok(())
            },
        }
    }

    /// Selects the table named `name`, giving the selection up when no
    /// table has that name.
    pub fn select_table_by_name(&mut self, name: &TableName) -> (r: Result<(), StrataError>)
        ensures
            final(self)@ == (AppView { tables: old(self)@.tables.selecting(name@), ..old(self)@ }),
            match r {
                Ok(_) => old(self)@.tables.names.contains(name@),
                Err(e) => !old(self)@.tables.names.contains(name@) && e@
                    == ErrorView::TableNotFound(name@),
            },
    {
        proof {
            use_type_invariant(&*self);
        }
        let App { display_focus, mut table_selector, table_view_list, command, error_popup } =
            self.take();
        let r = match table_selector.select_by_name(name) {
            Err(e) => Err(e),
            Ok(_) => Ok(()),
        };
        *self = App { display_focus, table_selector, table_view_list, command, error_popup };
        r
    }

    /// Does `action` with the text `input`.
    pub fn run(&mut self, action: CommandAction, input: &str) -> (r: Result<Effect, StrataError>)
        ensures
            step_taken_with(old(self)@.run(action, input@), final(self)@, r),
    {
        match action {
            CommandAction::Nothing => Ok(Effect::Nothing),
            CommandAction::AddTable => match self.add_table(input) {
                Err(e) => Err(e),
                Ok(_) => done(self.focus_table_view_by_name(input)),
            },
            CommandAction::EditTableName => match self.update_table_name(input) {
                Err(e) => Err(e),
                Ok(_) => {
                    self.focus_table_selector();
                    Ok(Effect::Nothing)
                },
            },
            CommandAction::EditCell => match self.update_cell_value(input) {
                Err(e) => Err(e),
                Ok(_) => done(self.focus_table_view()),
            },
            CommandAction::EditHeader => match self.update_header(input) {
                Err(e) => Err(e),
                Ok(_) => done(self.focus_last()),
            },
            CommandAction::JumpCell => match self.jump_cell_selector(input) {
                Err(e) => Err(e),
                Ok(_) => done(self.focus_table_view()),
            },
            CommandAction::JumpTable => match TableName::from(input) {
                Err(e) => Err(e),
                Ok(name) => match self.select_table_by_name(&name) {
                    Err(e) => Err(e),
                    Ok(_) => done(self.focus_table_view()),
                },
            },
            CommandAction::OpenFile => Ok(Effect::ReadFile { path: input.to_owned() }),
            CommandAction::SaveFile => match self.selected_table_view() {
                Err(e) => Err(e),
                Ok(grid) => match grid.to_csv() {
                    Err(e) => Err(e),
                    Ok(data) => Ok(Effect::WriteFile { path: input.to_owned(), data }),
                },
            },
        }
    }

    /// Runs the waiting command with its text and discards it.
    pub fn execute_command(&mut self) -> (r: Result<Effect, StrataError>)
        ensures
            step_taken_with(old(self)@.execute_command(), final(self)@, r),
            final(self)@.command is None,
    {
        match self.take_command() {
            None => Err(StrataError::CommandNotFound),
            Some(command) => {
                proof {
                    lemma_run_keeps_command(
                        (AppView { command: None, ..old(self)@ }),
                        command@.action,
                        command@.input,
                    );
                }
                command.execute(self)
            },
        }
    }
}

impl CommandPopup {
    /// Does what the command is for, with its text, on `app`. The command
    /// is used up.
    pub fn execute(self, app: &mut App) -> (r: Result<Effect, StrataError>)
        ensures
            step_taken_with(old(app)@.run(self@.action, self@.input), final(app)@, r),
    {
        let (input, action) = self.into_parts();
        app.run(action, input.as_str())
    }
}

/// An outcome without effect.
pub(crate) fn done(r: Result<(), StrataError>) -> (out: Result<Effect, StrataError>)
    ensures
        match out {
            Ok(effect) => r is Ok && effect@ == EffectView::Nothing,
            Err(e) => r == Err::<(), _>(e),
        },
{
    match r {
        Ok(_) => Ok(Effect::Nothing),
        Err(e) => Err(e),
    }
}

/// No command leaves a command waiting or discards the one that waits:
/// what a command does leaves the waiting command as it found it.
pub proof fn lemma_run_keeps_command(app: AppView, action: CommandAction, input: Seq<char>)
    ensures
        app.run(action, input).after.command == app.command,
{
}

/// A command runs once: after the waiting command was run, whether it
/// succeeded or failed, none waits, and running again fails with
/// `CommandNotFound` and changes nothing.
pub proof fn lemma_command_runs_once(app: AppView)
    ensures
        app.execute_command().after.command is None,
        app.execute_command().after.execute_command() == app.execute_command().after.fail(
            ErrorView::CommandNotFound,
        ),
{
    match app.command {
        None => {},
        Some(command) => {
            lemma_run_keeps_command(
                (AppView { command: None, ..app }),
                command.action,
                command.input,
            );
        },
    }
}

/// Putting a table back where it was taken from restores the list, and
/// putting another in its place is one replacement.
proof fn lemma_put_back(grids: Seq<GridView>, index: int, grid: GridView)
    requires
        0 <= index < grids.len(),
    ensures
        grids.update(index, GridView::empty()).update(index, grid) == grids.update(index, grid),
        grids.update(index, GridView::empty()).update(index, grids[index]) == grids,
{
    assert(grids.update(index, GridView::empty()).update(index, grid) =~= grids.update(index, grid));
    assert(grids.update(index, GridView::empty()).update(index, grids[index]) =~= grids);
}

} // verus!
