//! A command waiting for its text: a name, the text typed so far, and what
//! to do with the text once the user confirms.

use vstd::prelude::*;

verus! {

/// What a command does with its text.
#[derive(Debug, Clone, Copy, PartialEq, Eq, Structural)]
pub enum CommandAction {
    /// Nothing at all.
    Nothing,
    /// Add a table named by the text and show it.
    AddTable,
    /// Rename the selected table to the text.
    EditTableName,
    /// Set the cell under the cursor to the text.
    EditCell,
    /// Set the header of the cursor's column to the text.
    EditHeader,
    /// Put the cursor on the cell that the text gives as `row col`.
    JumpCell,
    /// Select the table named by the text and show it.
    JumpTable,
    /// Open the file at the path that the text gives.
    OpenFile,
    /// Save the selected table to the path that the text gives.
    SaveFile,
}

/// What the caller has to do outside the application's state after a step.
#[derive(Debug, PartialEq, Eq)]
pub enum Effect {
    /// Nothing.
    Nothing,
    /// Read the file at `path` and hand its bytes to `App::open_file`.
    ReadFile { path: String },
    /// Write `data` to the file at `path`, then call `App::file_written`.
    WriteFile { path: String, data: Vec<u8> },
}

/// An effect as plain data.
pub enum EffectView {
    Nothing,
    ReadFile { path: Seq<char> },
    WriteFile { path: Seq<char>, data: Seq<u8> },
}

impl View for Effect {
    type V = EffectView;

    open spec fn view(&self) -> EffectView {
        match *self {
            Effect::Nothing => EffectView::Nothing,
            Effect::ReadFile { path } => EffectView::ReadFile { path: path@ },
            Effect::WriteFile { path, data } => EffectView::WriteFile { path: path@, data: data@ },
        }
    }
}

/// A command as plain data.
pub struct CommandView {
    pub title: Seq<char>,
    pub input: Seq<char>,
    pub action: CommandAction,
}

/// A named command with the text typed for it so far.
#[derive(Debug)]
pub struct CommandPopup {
    title: String,
    input: String,
    command: CommandAction,
}

impl View for CommandPopup {
    type V = CommandView;

    closed spec fn view(&self) -> CommandView {
        CommandView { title: self.title@, input: self.input@, action: self.command }
    }
}

impl CommandPopup {
    /// A command named `command_name` that starts with the text `input`
    /// and will do `function` with it.
    pub fn new(command_name: &str, input: &str, function: CommandAction) -> (r: CommandPopup)
        ensures
            r@ == (CommandView { title: command_name@, input: input@, action: function }),
    {
        CommandPopup { title: command_name.to_owned(), input: input.to_owned(), command: function }
    }

    /// The command's name.
    pub fn command_name(&self) -> (r: &str)
        ensures
            r@ == self@.title,
    {
        self.title.as_str()
    }

    /// The text typed so far.
    pub fn input_text(&self) -> (r: &str)
        ensures
            r@ == self@.input,
    {
        self.input.as_str()
    }

    /// What the command will do with its text.
    pub fn action(&self) -> (r: CommandAction)
        ensures
            r == self@.action,
    {
        self.command
    }

    /// Appends one character to the text.
    pub fn input(&mut self, c: char) -> (r: &mut Self)
        ensures
            r@ == (CommandView { input: old(self)@.input.push(c), ..old(self)@ }),
            *final(self) == *final(r),
    {
        self.input.push(c);
        self
    }

    /// Removes the last character of the text, if it has one.
    pub fn pop(&mut self) -> (r: &mut Self)
        ensures
            r@ == (CommandView {
                input: if old(self)@.input.len() == 0 {
                    old(self)@.input
                } else {
                    old(self)@.input.drop_last()
                },
                ..old(self)@
            }),
            *final(self) == *final(r),
    {
        self.input.pop();
        self
    }

    /// Empties the text.
    pub fn clear(&mut self) -> (r: &mut Self)
        ensures
            r@ == (CommandView { input: Seq::<char>::empty(), ..old(self)@ }),
            *final(self) == *final(r),
    {
        self.input.clear();
        self
    }

    /// Takes the command apart into its text and what to do with it.
    pub fn into_parts(self) -> (r: (String, CommandAction))
        ensures
            r.0@ == self@.input,
            r.1 == self@.action,
    {
        (self.input, self.command)
    }
}

impl Default for CommandPopup {
    fn default() -> (r: Self)
        ensures
            r@ == (CommandView {
                title: Seq::<char>::empty(),
                input: Seq::<char>::empty(),
                action: CommandAction::Nothing,
            }),
    {
        CommandPopup { title: String::new(), input: String::new(), command: CommandAction::Nothing }
    }
}

} // verus!
