//! Table names and the ordered, duplicate-free list of them with its
//! selection.

use vstd::prelude::*;
use crate::error::{StrataError, ErrorView};

verus! {

/// The name given to a table that a file names no better.
pub const INITIAL_TABLE_NAME: &'static str = "new_table";

/// A table's name: any text but the empty one.
#[derive(Debug, PartialEq, Eq, Hash)]
pub struct TableName(String);

impl View for TableName {
    type V = Seq<char>;

    closed spec fn view(&self) -> Seq<char> {
        self.0@
    }
}

impl TableName {
    #[verifier::type_invariant]
    spec fn inv(self) -> bool {
        self.0@.len() > 0
    }

    /// Makes a name of `name`, which must not be empty.
    pub fn from(name: &str) -> (r: Result<TableName, StrataError>)
        ensures
            name@.len() == 0 ==> (r matches Err(e) && e@ == ErrorView::InvalidTableName),
            name@.len() > 0 ==> (r matches Ok(n) && n@ == name@),
    {
        if name.is_empty() {
            Err(StrataError::InvalidTableName)
        } else {
            Ok(TableName(name.to_owned()))
        }
    }

    /// The name's text.
    pub fn as_str(&self) -> (r: &str)
        ensures
            r@ == self@,
            r@.len() > 0,
    {
        proof {
            use_type_invariant(self);
        }
        self.0.as_str()
    }

    /// The name's text, owned.
    pub fn to_string(&self) -> (r: String)
        ensures
            r@ == self@,
            r@.len() > 0,
    {
        proof {
            use_type_invariant(self);
        }
        self.0.clone()
    }

    /// Whether two names have the same text.
    pub fn same_as(&self, other: &TableName) -> (r: bool)
        ensures
            r == (self@ == other@),
    {
        self.0 == other.0
    }
}

impl Clone for TableName {
    fn clone(&self) -> (r: Self)
        ensures
            r@ == self@,
    {
        proof {
            use_type_invariant(self);
        }
        TableName(self.0.clone())
    }
}

/// The texts of a list of names.
pub open spec fn names_view(names: Seq<TableName>) -> Seq<Seq<char>> {
    Seq::new(names.len(), |i: int| names[i]@)
}

/// A list of names with each name kept only where it first occurs.
pub open spec fn first_occurrences(names: Seq<Seq<char>>) -> Seq<Seq<char>>
    decreases names.len(),
{
    if names.len() == 0 {
        names
    } else {
        let before = first_occurrences(names.drop_last());
        if before.contains(names.last()) {
            before
        } else {
            before.push(names.last())
        }
    }
}

/// One change asked of the list of names.
pub enum ListEdit {
    /// Append a name.
    Push(Seq<char>),
    /// Give the entry at a position another name.
    Rename(usize, Seq<char>),
    /// Remove the entry at a position.
    Remove(usize),
}

/// The selector as plain data: the names in order, and the selected position.
pub struct SelectorView {
    pub names: Seq<Seq<char>>,
    pub selected: Option<usize>,
}

impl SelectorView {
    /// No name occurs twice, the selection, if any, is a position in the
    /// list, and the list is no longer than a machine can count.
    pub open spec fn wf(self) -> bool {
        &&& self.names.no_duplicates()
        &&& self.selected matches Some(i) ==> i < self.names.len()
        &&& self.names.len() <= usize::MAX
    }

    /// The list after `name` was appended and selected.
    pub open spec fn pushed(self, name: Seq<char>) -> SelectorView {
        SelectorView { names: self.names.push(name), selected: Some(self.names.len() as usize) }
    }

    /// The list after the entry at `index` was removed: the selection stays
    /// where it was, pulled back to the new last entry if it lay beyond it,
    /// and is given up when the list becomes empty.
    pub open spec fn removed(self, index: int) -> SelectorView {
        let names = self.names.remove(index);
        SelectorView {
            names,
            selected: if names.len() == 0 {
                None
            } else {
                match self.selected {
                    Some(i) => Some(
                        if i <= names.len() - 1 {
                            i
                        } else {
                            (names.len() - 1) as usize
                        },
                    ),
                    None => None,
                }
            },
        }
    }

    /// The list after the entry at `index` was given the name `name`.
    pub open spec fn renamed(self, index: int, name: Seq<char>) -> SelectorView {
        SelectorView { names: self.names.update(index, name), selected: self.selected }
    }

    /// The selection one step further down, stopping at the last entry.
    pub open spec fn next(self) -> SelectorView {
        SelectorView {
            names: self.names,
            selected: if self.names.len() == 0 {
                None
            } else {
                match self.selected {
                    Some(i) => Some(
                        if i + 1 <= self.names.len() - 1 {
                            (i + 1) as usize
                        } else {
                            (self.names.len() - 1) as usize
                        },
                    ),
                    None => Some(0usize),
                }
            },
        }
    }

    /// The selection one step further up, stopping at the first entry.
    pub open spec fn prev(self) -> SelectorView {
        SelectorView {
            names: self.names,
            selected: if self.names.len() == 0 {
                None
            } else {
                match self.selected {
                    Some(i) => Some(
                        if i == 0 {
                            0usize
                        } else {
                            (i - 1) as usize
                        },
                    ),
                    None => Some(0usize),
                }
            },
        }
    }

    /// The list after `edit` was asked of it: a change that is refused
    /// (a name that is taken, a position that is not there) leaves it as it was.
    pub open spec fn edited(self, edit: ListEdit) -> SelectorView {
        match edit {
            ListEdit::Push(name) => if self.names.contains(name) {
                self
            } else {
                self.pushed(name)
            },
            ListEdit::Rename(index, name) => if index < self.names.len() && !self.names.contains(
                name,
            ) {
                self.renamed(index as int, name)
            } else {
                self
            },
            ListEdit::Remove(index) => if index < self.names.len() {
                self.removed(index as int)
            } else {
                self
            },
        }
    }

    /// The list after every change of `edits` was asked of it, in order.
    pub open spec fn edited_all(self, edits: Seq<ListEdit>) -> SelectorView
        decreases edits.len(),
    {
        if edits.len() == 0 {
            self
        } else {
            self.edited_all(edits.drop_last()).edited(edits.last())
        }
    }

    /// Where `name` first stands in the list: its position, or `None` when
    /// the list does not have it.
    pub open spec fn position(self, name: Seq<char>) -> Option<usize> {
        if self.names.contains(name) {
            Some(
                choose|i: usize|
                    i < self.names.len() && self.names[i as int] == name && forall|j: int|
                        0 <= j < i ==> self.names[j] != name,
            )
        } else {
            None
        }
    }

    /// The list with `name` selected, or nothing if it does not have it.
    pub open spec fn selecting(self, name: Seq<char>) -> SelectorView {
        SelectorView { selected: self.position(name), ..self }
    }

    /// Whether `at` is where `name` first stands in the list: its position,
    /// or `None` when the list does not have it.
    pub open spec fn is_position(self, name: Seq<char>, at: Option<usize>) -> bool {
        match at {
            Some(i) => {
                &&& i < self.names.len()
                &&& self.names[i as int] == name
                &&& forall|j: int| 0 <= j < i ==> self.names[j] != name
            },
            None => !self.names.contains(name),
        }
    }
}

/// The ordered list of table names and the position of the selected one.
#[derive(Debug)]
pub struct TableSelector {
    table_list: Vec<TableName>,
    selected: Option<usize>,
}

impl View for TableSelector {
    type V = SelectorView;

    closed spec fn view(&self) -> SelectorView {
        SelectorView { names: names_view(self.table_list@), selected: self.selected }
    }
}

impl TableSelector {
    #[verifier::type_invariant]
    spec fn inv(self) -> bool {
        self@.wf()
    }

    /// An empty list with nothing selected.
    pub fn new() -> (r: Self)
        ensures
            r@.names == Seq::<Seq<char>>::empty(),
            r@.selected is None,
            r@.wf(),
    {
        let table_list: Vec<TableName> = Vec::new();
        assert(names_view(table_list@) =~= Seq::<Seq<char>>::empty());
        TableSelector { table_list, selected: None }
    }

    /// A selector over `table_list`, with each name kept only where it
    /// first occurs, and the first entry selected if there is one.
    pub fn from(table_list: Vec<TableName>) -> (r: Self)
        ensures
            r@.names == first_occurrences(names_view(table_list@)),
            names_view(table_list@).no_duplicates() ==> r@.names == names_view(table_list@),
            r@.selected == if r@.names.len() == 0 {
                None
            } else {
                Some(0usize)
            },
            r@.wf(),
    {
        let ghost given = names_view(table_list@);
        let mut kept: Vec<TableName> = Vec::new();
        let mut i: usize = 0;
        assert(given.subrange(0, 0) =~= Seq::<Seq<char>>::empty());
        assert(names_view(kept@) =~= Seq::<Seq<char>>::empty());
        while i < table_list.len()
            invariant
                i <= table_list.len(),
                given == names_view(table_list@),
                names_view(kept@) == first_occurrences(given.subrange(0, i as int)),
                names_view(kept@).no_duplicates(),
            decreases table_list.len() - i,
        {
            let name = table_list[i].clone();
            let ghost before = names_view(kept@);
            assert(given.subrange(0, i + 1).drop_last() =~= given.subrange(0, i as int));
            assert(given.subrange(0, i + 1).last() == name@);
            if find_name(&kept, &name).is_none() {
                kept.push(name);
                assert(names_view(kept@) =~= before.push(name@));
            }
            i = i + 1;
        }
        assert(given.subrange(0, i as int) =~= given);
        proof {
            if given.no_duplicates() {
                lemma_first_occurrences_of_distinct(given);
            }
        }
        let selected = if kept.len() == 0 {
            None
        } else {
            Some(0)
        };
        TableSelector { table_list: kept, selected }
    }

    /// States what holds of every selector: no name twice, selection in range.
    pub fn well_formed(&self)
        ensures
            self@.wf(),
    {
        proof {
            use_type_invariant(self);
        }
    }

    /// The names in order.
    pub fn table_list(&self) -> (r: &Vec<TableName>)
        ensures
            names_view(r@) == self@.names,
    {
        &self.table_list
    }

    /// The number of names.
    pub fn len(&self) -> (r: usize)
        ensures
            r == self@.names.len(),
    {
        self.table_list.len()
    }

    /// The selected position.
    pub fn selected_index(&self) -> (r: Option<usize>)
        ensures
            r == self@.selected,
            r matches Some(i) ==> i < self@.names.len(),
    {
        proof {
            use_type_invariant(self);
        }
        self.selected
    }

    /// The position of `table_name` in the list.
    pub fn selected_index_by_name(&self, table_name: &TableName) -> (r: Option<usize>)
        ensures
            r == self@.position(table_name@),
            self@.is_position(table_name@, r),
            r is Some <==> self@.names.contains(table_name@),
    {
        let r = find_name(&self.table_list, table_name);
        proof {
            lemma_position(self@, table_name@, r);
        }
        r
    }

    /// The selected position.
    pub fn get_selected_index(&self) -> (r: Option<usize>)
        ensures
            r == self@.selected,
            r matches Some(i) ==> i < self@.names.len(),
    {
        self.selected_index()
    }

    /// The position of `table_name` in the list.
    pub fn get_index_by_name(&self, table_name: &TableName) -> (r: Option<usize>)
        ensures
            r == self@.position(table_name@),
            self@.is_position(table_name@, r),
            r is Some <==> self@.names.contains(table_name@),
    {
        self.selected_index_by_name(table_name)
    }

    /// The selected name.
    pub fn get_selected_table_name(&self) -> (r: Option<&TableName>)
        ensures
            r is Some == self@.selected is Some,
            r matches Some(n) ==> n@ == self@.names[self@.selected->0 as int],
    {
        self.selected_table_name()
    }

    /// The selected name.
    pub fn selected_table_name(&self) -> (r: Option<&TableName>)
        ensures
            r is Some == self@.selected is Some,
            r matches Some(n) ==> n@ == self@.names[self@.selected->0 as int],
    {
        proof {
            use_type_invariant(self);
        }
        match self.selected {
            Some(i) => Some(&self.table_list[i]),
            None => None,
        }
    }

    /// Whether the list has no name.
    pub fn is_empty(&self) -> (r: bool)
        ensures
            r == (self@.names.len() == 0),
    {
        self.table_list.len() == 0
    }

    /// Appends `table` and selects it, unless the list has that name already.
    pub fn push_table(&mut self, table: TableName) -> (r: Result<&mut Self, StrataError>)
        ensures
            match r {
                Ok(s) => {
                    &&& !old(self)@.names.contains(table@)
                    &&& s@ == old(self)@.pushed(table@)
                    &&& s@.wf()
                    &&& *final(self) == *final(s)
                },
                Err(e) => {
                    &&& old(self)@.names.contains(table@)
                    &&& e@ == ErrorView::TableNameDuplicate(table@)
                    &&& *final(self) == *old(self)
                },
            },
    {
        proof {
            use_type_invariant(&*self);
        }
        if self.selected_index_by_name(&table).is_some() {
            return Err(StrataError::TableNameDuplicate(table.to_string()));
        }
        let TableSelector { mut table_list, selected: _ } = self.take();
        assert(names_view(table_list@.push(table)) =~= names_view(table_list@).push(table@));
        table_list.push(table);
        let last = table_list.len() - 1;
        *self = TableSelector { table_list, selected: Some(last) };
        Ok(self)
    }

    /// Removes the entry at `remove_index`. The selection stays where it
    /// was, pulled back to the new last entry if it lay beyond it, and is
    /// given up when the list becomes empty.
    pub fn remove_table(&mut self, remove_index: usize) -> (r: Result<&mut Self, StrataError>)
        ensures
            match r {
                Ok(s) => {
                    &&& remove_index < old(self)@.names.len()
                    &&& s@ == old(self)@.removed(remove_index as int)
                    &&& s@.wf()
                    &&& *final(self) == *final(s)
                },
                Err(e) => {
                    &&& remove_index >= old(self)@.names.len()
                    &&& e@ == ErrorView::IndexOutOfBounds {
                        max: old(self)@.names.len() as usize,
                        requested: remove_index,
                    }
                    &&& *final(self) == *old(self)
                },
            },
    {
        proof {
            use_type_invariant(&*self);
        }
        if remove_index >= self.table_list.len() {
            return Err(
                StrataError::IndexOutOfBounds {
                    max: self.table_list.len(),
                    requested: remove_index,
                },
            );
        }
        let TableSelector { mut table_list, selected } = self.take();
        let ghost before = names_view(table_list@);
        table_list.remove(remove_index);
        assert(names_view(table_list@) =~= before.remove(remove_index as int));
        proof {
            lemma_remove_keeps_distinct(before, remove_index as int);
        }
        let selected = if table_list.len() == 0 {
            None
        } else {
            match selected {
                Some(i) => Some(
                    if i <= table_list.len() - 1 {
                        i
                    } else {
                        table_list.len() - 1
                    },
                ),
                None => None,
            }
        };
        *self = TableSelector { table_list, selected };
        Ok(self)
    }

    /// Gives the entry at `index` the name `table`, unless the list has
    /// that name already.
    pub fn update_table(&mut self, index: usize, table: TableName) -> (r: Result<
        &mut Self,
        StrataError,
    >)
        ensures
            match r {
                Ok(s) => {
                    &&& index < old(self)@.names.len()
                    &&& !old(self)@.names.contains(table@)
                    &&& s@ == old(self)@.renamed(index as int, table@)
                    &&& s@.wf()
                    &&& *final(self) == *final(s)
                },
                Err(e) => {
                    &&& *final(self) == *old(self)
                    &&& if index >= old(self)@.names.len() {
                        e@ == ErrorView::IndexOutOfBounds {
                            max: old(self)@.names.len() as usize,
                            requested: index,
                        }
                    } else {
                        old(self)@.names.contains(table@) && e@ == ErrorView::TableNameDuplicate(
                            table@,
                        )
                    }
                },
            },
    {
        proof {
            use_type_invariant(&*self);
        }
        if index >= self.table_list.len() {
            return Err(
                StrataError::IndexOutOfBounds { max: self.table_list.len(), requested: index },
            );
        }
        if self.selected_index_by_name(&table).is_some() {
            return Err(StrataError::TableNameDuplicate(table.to_string()));
        }
        let TableSelector { mut table_list, selected } = self.take();
        let ghost before = names_view(table_list@);
        table_list.set(index, table);
        assert(names_view(table_list@) =~= before.update(index as int, table@));
        *self = TableSelector { table_list, selected };
        Ok(self)
    }

    /// Moves the selection one entry down, stopping at the last. With
    /// nothing selected the first entry is selected; an empty list has no
    /// selection.
    pub fn select_next(&mut self) -> (r: &mut Self)
        ensures
            r@ == old(self)@.next(),
            r@.wf(),
            *final(self) == *final(r),
    {
        proof {
            use_type_invariant(&*self);
        }
        let n = self.table_list.len();
        let selected = if n == 0 {
            None
        } else {
            match self.selected {
                Some(i) => Some(
                    if i < n - 1 {
                        i + 1
                    } else {
                        n - 1
                    },
                ),
                None => Some(0),
            }
        };
        self.selected = selected;
        self
    }

    /// Moves the selection one entry up, stopping at the first. With
    /// nothing selected the first entry is selected; an empty list has no
    /// selection.
    pub fn select_prev(&mut self) -> (r: &mut Self)
        ensures
            r@ == old(self)@.prev(),
            r@.wf(),
            *final(self) == *final(r),
    {
        proof {
            use_type_invariant(&*self);
        }
        let selected = if self.table_list.len() == 0 {
            None
        } else {
            match self.selected {
                Some(i) => Some(
                    if i == 0 {
                        0
                    } else {
                        i - 1
                    },
                ),
                None => Some(0),
            }
        };
        self.selected = selected;
        self
    }

    /// Selects the entry named `table_name`. When the list has no such
    /// entry the selection is given up and the call fails.
    pub fn select_by_name(&mut self, table_name: &TableName) -> (r: Result<&mut Self, StrataError>)
        ensures
            match r {
                Ok(s) => {
                    &&& old(self)@.names.contains(table_name@)
                    &&& s@ == old(self)@.selecting(table_name@)
                    &&& s@.selected is Some
                    &&& s@.wf()
                    &&& *final(self) == *final(s)
                },
                Err(e) => {
                    &&& !old(self)@.names.contains(table_name@)
                    &&& e@ == ErrorView::TableNotFound(table_name@)
                    &&& final(self)@ == old(self)@.selecting(table_name@)
                    &&& final(self)@.selected is None
                },
            },
    {
        proof {
            use_type_invariant(&*self);
        }
        let found = self.selected_index_by_name(table_name);
        self.selected = found;
        if found.is_none() {
            return Err(StrataError::TableNotFound(table_name.to_string()));
        }
        Ok(self)
    }

    /// Takes the selector out, leaving an empty one in its place.
    fn take(&mut self) -> (r: TableSelector)
        ensures
            r == *old(self),
            final(self)@.names.len() == 0,
            final(self)@.selected is None,
    {
        let mut taken = TableSelector::new();
        std::mem::swap(self, &mut taken);
        taken
    }
}

impl Default for TableSelector {
    fn default() -> (r: Self)
        ensures
            r@.names == Seq::<Seq<char>>::empty(),
            r@.selected is None,
    {
        TableSelector::new()
    }
}

/// The position at which `name` first stands in `list`.
fn find_name(list: &Vec<TableName>, name: &TableName) -> (r: Option<usize>)
    ensures
        (SelectorView { names: names_view(list@), selected: None }).is_position(name@, r),
        r is Some <==> names_view(list@).contains(name@),
{
    let ghost names = names_view(list@);
    let mut i: usize = 0;
    while i < list.len()
        invariant
            i <= list.len(),
            names == names_view(list@),
            forall|j: int| 0 <= j < i ==> names[j] != name@,
        decreases list.len() - i,
    {
        if list[i].same_as(name) {
            assert(names[i as int] == name@);
            return Some(i);
        }
        i = i + 1;
    }
    None
}

/// The one value that `is_position` accepts is the position.
pub proof fn lemma_position(list: SelectorView, name: Seq<char>, at: Option<usize>)
    requires
        list.is_position(name, at),
    ensures
        list.position(name) == at,
{
    match at {
        Some(i) => {
            assert(list.names.contains(name));
            let c = choose|c: usize|
                c < list.names.len() && list.names[c as int] == name && forall|j: int|
                    0 <= j < c ==> list.names[j] != name;
            assert(i < list.names.len() && list.names[i as int] == name && forall|j: int|
                0 <= j < i ==> list.names[j] != name);
            if c < i {
                assert(list.names[c as int] != name);
            }
            if i < c {
                assert(list.names[i as int] != name);
            }
        },
        None => {},
    }
}

/// A list in which no name occurs twice is the list of its first occurrences.
pub proof fn lemma_first_occurrences_of_distinct(names: Seq<Seq<char>>)
    requires
        names.no_duplicates(),
    ensures
        first_occurrences(names) == names,
    decreases names.len(),
{
    if names.len() > 0 {
        let init = names.drop_last();
        lemma_first_occurrences_of_distinct(init);
        if init.contains(names.last()) {
            let k = choose|k: int| 0 <= k < init.len() && init[k] == names.last();
            assert(names[k] == names[names.len() - 1]);
        }
        assert(init.push(names.last()) =~= names);
    }
}

/// Appending a name that the list does not have keeps every name unique
/// and the selection in range.
pub proof fn lemma_push_keeps_names_unique(list: SelectorView, name: Seq<char>)
    requires
        list.wf(),
        !list.names.contains(name),
        list.names.len() < usize::MAX,
    ensures
        list.pushed(name).wf(),
{
    let after = list.pushed(name).names;
    assert forall|i: int, j: int| 0 <= i < after.len() && 0 <= j < after.len() && i != j implies after[i] != after[j] by {
        if i < list.names.len() {
            assert(list.names.contains(after[i]));
        }
        if j < list.names.len() {
            assert(list.names.contains(after[j]));
        }
    }
}

/// Renaming an entry to a name that the list does not have keeps every
/// name unique and the selection in range.
pub proof fn lemma_rename_keeps_names_unique(list: SelectorView, index: int, name: Seq<char>)
    requires
        list.wf(),
        0 <= index < list.names.len(),
        !list.names.contains(name),
    ensures
        list.renamed(index, name).wf(),
{
    let after = list.renamed(index, name).names;
    assert forall|i: int, j: int| 0 <= i < after.len() && 0 <= j < after.len() && i != j implies after[i] != after[j] by {
        if i != index {
            assert(list.names.contains(after[i]));
        }
        if j != index {
            assert(list.names.contains(after[j]));
        }
    }
}

/// Removing an entry keeps every name unique and the selection in range.
pub proof fn lemma_remove_keeps_well_formed(list: SelectorView, index: int)
    requires
        list.wf(),
        0 <= index < list.names.len(),
    ensures
        list.removed(index).wf(),
{
    lemma_remove_keeps_distinct(list.names, index);
}

/// Whatever is asked of a list, and in whatever order, no two of its
/// entries ever share a name, and its selection stays in range.
pub proof fn lemma_names_stay_unique(list: SelectorView, edits: Seq<ListEdit>)
    requires
        list.wf(),
        list.names.len() + edits.len() <= usize::MAX,
    ensures
        list.edited_all(edits).wf(),
        list.edited_all(edits).names.len() <= list.names.len() + edits.len(),
    decreases edits.len(),
{
    if edits.len() > 0 {
        let before = list.edited_all(edits.drop_last());
        lemma_names_stay_unique(list, edits.drop_last());
        match edits.last() {
            ListEdit::Push(name) => {
                if !before.names.contains(name) {
                    lemma_push_keeps_names_unique(before, name);
                }
            },
            ListEdit::Rename(index, name) => {
                if index < before.names.len() && !before.names.contains(name) {
                    lemma_rename_keeps_names_unique(before, index as int, name);
                }
            },
            ListEdit::Remove(index) => {
                if index < before.names.len() {
                    lemma_remove_keeps_well_formed(before, index as int);
                }
            },
        }
    }
}

/// Removing the last entry while it is selected moves the selection to the
/// entry before it, and gives it up when no entry is left.
pub proof fn lemma_remove_selected_last(list: SelectorView, last: usize)
    requires
        list.wf(),
        list.names.len() == last + 1,
        list.selected == Some(last),
    ensures
        last == 0 ==> list.removed(last as int).selected is None,
        last > 0 ==> list.removed(last as int).selected == Some((last - 1) as usize),
        list.removed(last as int).names == list.names.drop_last(),
{
    assert(list.names.remove(last as int) =~= list.names.drop_last());
}

/// Removing an entry from a list without duplicates leaves none.
pub proof fn lemma_remove_keeps_distinct(names: Seq<Seq<char>>, index: int)
    requires
        names.no_duplicates(),
        0 <= index < names.len(),
    ensures
        names.remove(index).no_duplicates(),
{
    let after = names.remove(index);
    assert forall|i: int, j: int| 0 <= i < after.len() && 0 <= j < after.len() && i != j implies after[i] != after[j] by {
        let a = if i < index { i } else { i + 1 };
        let b = if j < index { j } else { j + 1 };
        assert(after[i] == names[a]);
        assert(after[j] == names[b]);
    }
}

} // verus!
