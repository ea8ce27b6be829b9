//! Which part of the screen has the keyboard, with overlays stacked on it.

use vstd::prelude::*;

verus! {

/// The focus: one of the two base screens, or an overlay that covers the
/// focus it was opened over.
#[derive(Debug, PartialEq, Eq)]
pub enum DisplayFocus {
    TableSelector,
    TableView,
    Command(Box<DisplayFocus>),
    Error(Box<DisplayFocus>),
    Exit(Box<DisplayFocus>),
}

impl DisplayFocus {
    /// Whether this is one of the two base screens.
    pub open spec fn is_base(self) -> bool {
        self is TableSelector || self is TableView
    }

    /// The base screen under every overlay.
    pub open spec fn base(self) -> DisplayFocus
        decreases self,
    {
        match self {
            DisplayFocus::Command(under) => under.base(),
            DisplayFocus::Error(under) => under.base(),
            DisplayFocus::Exit(under) => under.base(),
            DisplayFocus::TableSelector => DisplayFocus::TableSelector,
            DisplayFocus::TableView => DisplayFocus::TableView,
        }
    }

    /// The focus's short name.
    pub open spec fn name(self) -> Seq<char> {
        match self {
            DisplayFocus::TableSelector => "TableList"@,
            DisplayFocus::TableView => "TableView"@,
            DisplayFocus::Command(_) => "Command"@,
            DisplayFocus::Error(_) => "Error"@,
            DisplayFocus::Exit(_) => "Exit"@,
        }
    }

    /// The key guide shown in the footer for this focus.
    pub open spec fn guide(self) -> Seq<char> {
        match self {
            DisplayFocus::TableSelector => "<a> Add new table | <o> Open CSV file | <d> Delete table | <q> Quit app"@,
            DisplayFocus::TableView => "<r> Add new row | <e> Edit cell | <E> Edit header | <d> Delete cell | <J> Jump"@,
            DisplayFocus::Command(_) => "<Enter> Submit | <Esc> Cancel"@,
            DisplayFocus::Error(_) => " <Enter> Exit"@,
            DisplayFocus::Exit(_) => " <Enter> Exit | <Esc> Cancel"@,
        }
    }

    /// The base screen under every overlay of `focus`.
    pub fn last_focus(focus: &DisplayFocus) -> (r: DisplayFocus)
        ensures
            r == focus.base(),
            r.is_base(),
        decreases *focus,
    {
        match focus {
            DisplayFocus::Command(under) => Self::last_focus(under),
            DisplayFocus::Error(under) => Self::last_focus(under),
            DisplayFocus::Exit(under) => Self::last_focus(under),
            DisplayFocus::TableSelector => DisplayFocus::TableSelector,
            DisplayFocus::TableView => DisplayFocus::TableView,
        }
    }

    /// The key guide shown in the footer for this focus.
    pub fn get_guide(&self) -> (r: String)
        ensures
            r@ == self.guide(),
    {
        match self {
            DisplayFocus::TableSelector => {
                "<a> Add new table | <o> Open CSV file | <d> Delete table | <q> Quit app".to_owned()
            },
            DisplayFocus::TableView => {
                "<r> Add new row | <e> Edit cell | <E> Edit header | <d> Delete cell | <J> Jump".to_owned()
            },
            DisplayFocus::Command(_) => "<Enter> Submit | <Esc> Cancel".to_owned(),
            DisplayFocus::Error(_) => " <Enter> Exit".to_owned(),
            DisplayFocus::Exit(_) => " <Enter> Exit | <Esc> Cancel".to_owned(),
        }
    }

    /// The focus's short name.
    pub fn to_string(&self) -> (r: String)
        ensures
            r@ == self.name(),
    {
        match self {
            DisplayFocus::TableSelector => "TableList".to_owned(),
            DisplayFocus::TableView => "TableView".to_owned(),
            DisplayFocus::Command(_) => "Command".to_owned(),
            DisplayFocus::Error(_) => "Error".to_owned(),
            DisplayFocus::Exit(_) => "Exit".to_owned(),
        }
    }

    /// A copy of this focus with all its overlays.
    pub fn duplicate(&self) -> (r: DisplayFocus)
        ensures
            r == *self,
        decreases *self,
    {
        match self {
            DisplayFocus::Command(under) => DisplayFocus::Command(Box::new(under.duplicate())),
            DisplayFocus::Error(under) => DisplayFocus::Error(Box::new(under.duplicate())),
            DisplayFocus::Exit(under) => DisplayFocus::Exit(Box::new(under.duplicate())),
            DisplayFocus::TableSelector => DisplayFocus::TableSelector,
            DisplayFocus::TableView => DisplayFocus::TableView,
        }
    }
}

impl Clone for DisplayFocus {
    fn clone(&self) -> (r: Self)
        ensures
            r == *self,
    {
        self.duplicate()
    }
}

impl Default for DisplayFocus {
    fn default() -> (r: Self)
        ensures
            r == DisplayFocus::TableSelector,
    {
        DisplayFocus::TableSelector
    }
}

/// Under any stack of overlays lies one of the two base screens, and
/// looking under a base screen finds that screen again.
pub proof fn lemma_base_is_base(focus: DisplayFocus)
    ensures
        focus.base().is_base(),
        focus.base().base() == focus.base(),
        focus.is_base() ==> focus.base() == focus,
    decreases focus,
{
    match focus {
        DisplayFocus::Command(under) => lemma_base_is_base(*under),
        DisplayFocus::Error(under) => lemma_base_is_base(*under),
        DisplayFocus::Exit(under) => lemma_base_is_base(*under),
        _ => {},
    }
}

/// Opening any overlay over a focus leaves the base screen what it was.
pub proof fn lemma_overlay_keeps_base(focus: DisplayFocus)
    ensures
        DisplayFocus::Command(Box::new(focus)).base() == focus.base(),
        DisplayFocus::Error(Box::new(focus)).base() == focus.base(),
        DisplayFocus::Exit(Box::new(focus)).base() == focus.base(),
{
}

} // verus!
