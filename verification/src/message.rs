//! What the user can ask of the application, and the keys they ask it with.

use vstd::prelude::*;

verus! {

/// A direction to move a cursor in.
#[derive(Debug, Clone, Copy, PartialEq, Eq)]
pub enum MoveDirection {
    Up,
    Down,
    Left,
    Right,
}

/// One request to the application.
#[derive(Debug, Clone, Copy, PartialEq, Eq)]
pub enum Message {
    /// Confirm, whatever that means for the current focus.
    Enter,
    Cancel,
    /// Ask whether to leave.
    Exiting,
    /// Leave.
    Exit,
    Move(MoveDirection),
    /// Jump, to a table from the table list and to a cell from a table.
    Jump,
    /// Add a table, from the table list.
    Add,
    Open,
    /// Edit the table's name from the table list, the cell from a table.
    Edit,
    /// Edit the header of the cursor's column, from a table.
    HyperEdit,
    Input(char),
    BackSpace,
    /// Remove the table from the table list, empty the cell from a table.
    Delete,
    ExpandRow,
    CollapseRow,
    ExpandColumn,
    CollapseColumn,
    Save,
    NoOp,
    AddTable,
    PopInput,
    RemoveTable,
    DeleteCell,
    EditTableName,
    EditCell,
    ExecuteCommand,
    EditHeader,
    JumpTable,
    JumpCell,
    SelectTable,
}

/// A key of the keyboard, as far as the application tells keys apart.
#[derive(Debug, Clone, Copy, PartialEq, Eq)]
pub enum Key {
    Char(char),
    Esc,
    Enter,
    Backspace,
    Up,
    Down,
    Left,
    Right,
    Tab,
    Other,
}

} // verus!
