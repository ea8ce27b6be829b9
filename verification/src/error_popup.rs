//! The list of error messages shown to the user.

use vstd::prelude::*;
use crate::text::strings_view;

verus! {

/// An ordered log of error messages, cleared as a unit.
#[derive(Debug)]
pub struct ErrorPopup {
    error_message: Vec<String>,
}

impl View for ErrorPopup {
    type V = Seq<Seq<char>>;

    closed spec fn view(&self) -> Seq<Seq<char>> {
        strings_view(self.error_message@)
    }
}

impl ErrorPopup {
    /// An empty log.
    pub fn new() -> (r: Self)
        ensures
            r@ == Seq::<Seq<char>>::empty(),
    {
        let r = ErrorPopup { error_message: Vec::new() };
        assert(r@ =~= Seq::<Seq<char>>::empty());
        r
    }

    /// The logged messages, oldest first.
    pub fn get_error_message(&self) -> (r: &Vec<String>)
        ensures
            strings_view(r@) == self@,
    {
        &self.error_message
    }

    /// Whether nothing has been logged.
    pub fn is_empty(&self) -> (r: bool)
        ensures
            r == (self@.len() == 0),
    {
        self.error_message.len() == 0
    }

    /// The number of logged messages.
    pub fn size(&self) -> (r: usize)
        ensures
            r == self@.len(),
    {
        self.error_message.len()
    }

    /// Appends one message.
    pub fn push(&mut self, message: String) -> (r: &mut Self)
        ensures
            r@ == old(self)@.push(message@),
            *final(self) == *final(r),
    {
        self.error_message.push(message);
        assert(self@ =~= old(self)@.push(message@));
        self
    }

    /// Discards every message.
    pub fn clear(&mut self) -> (r: &mut Self)
        ensures
            r@ == Seq::<Seq<char>>::empty(),
            *final(self) == *final(r),
    {
        self.error_message.clear();
        assert(self@ =~= Seq::<Seq<char>>::empty());
        self
    }
}

} // verus!
