//! One table: a header, rows of cells as wide as the header, and the
//! cursor on one cell.

use vstd::prelude::*;
use crate::csv_codec::{csv_document, csv_encoding, csv_read, csv_write};
use crate::error::{ErrorView, StrataError};
use crate::text::{decimal, numbered, rows_view, strings_view};

verus! {

/// The message of the failure to make a table of records of unequal width.
pub const UNEQUAL_WIDTH_MESSAGE: &'static str = "CSV error: found records with different numbers of fields";

/// The number of rows and of columns that a new table starts with.
pub const INITIAL_TABLE_SIZE: usize = 10;

/// The largest index into a list of `len` entries, and 0 for an empty one.
pub open spec fn max_index(len: nat) -> usize {
    if len == 0 {
        0
    } else {
        (len - 1) as usize
    }
}

/// `at + delta`, held between 0 and `max`.
pub open spec fn clamped(at: usize, delta: isize, max: usize) -> usize {
    if at + delta < 0 {
        0
    } else if at + delta > max {
        max
    } else {
        (at + delta) as usize
    }
}

/// A cursor pulled back into a table of `rows` rows and `cols` columns,
/// and given up when the table has no cell.
pub open spec fn pulled_back(selected: Option<(usize, usize)>, rows: nat, cols: nat) -> Option<
    (usize, usize),
> {
    match selected {
        Some((r, c)) => if rows == 0 || cols == 0 {
            None
        } else {
            Some((if r < rows { r } else { (rows - 1) as usize }, if c < cols { c } else { (cols - 1) as usize }))
        },
        None => None,
    }
}

/// The cursor of a table that was just filled: the first cell, if it has one.
pub open spec fn first_cell(rows: nat, cols: nat) -> Option<(usize, usize)> {
    if rows == 0 || cols == 0 {
        None
    } else {
        Some((0usize, 0usize))
    }
}

/// The placeholder headers `header0`, `header1`, ... for `n` columns.
pub open spec fn placeholder_headers(n: nat) -> Seq<Seq<char>> {
    Seq::new(n, |i: int| "header"@ + decimal(i as nat))
}

/// A row of `n` empty cells.
pub open spec fn blank_row(n: nat) -> Seq<Seq<char>> {
    Seq::new(n, |j: int| Seq::<char>::empty())
}

/// A table as plain data.
pub struct GridView {
    pub has_header: bool,
    pub header: Seq<Seq<char>>,
    pub rows: Seq<Seq<Seq<char>>>,
    pub selected: Option<(usize, usize)>,
}

impl GridView {
    /// Every row is as wide as the header, and the cursor, if any, is on a cell.
    pub open spec fn wf(self) -> bool {
        &&& forall|i: int| 0 <= i < self.rows.len() ==> (#[trigger] self.rows[i]).len() == self.header.len()
        &&& self.selected matches Some((r, c)) ==> r < self.rows.len() && c < self.header.len()
        &&& self.rows.len() <= usize::MAX
        &&& self.header.len() <= usize::MAX
    }

    /// The failure reported for a row that the table does not have.
    pub open spec fn row_error(self, row: usize) -> ErrorView {
        ErrorView::InvalidRowIndex { max: max_index(self.rows.len()), requested: row }
    }

    /// The failure reported for a column that the table does not have.
    pub open spec fn col_error(self, col: usize) -> ErrorView {
        ErrorView::InvalidColumnIndex { max: max_index(self.header.len()), requested: col }
    }

    /// The failure, if any, of addressing the cell at `row`, `col`: the row
    /// is looked at first.
    pub open spec fn cell_error(self, row: usize, col: usize) -> Option<ErrorView> {
        if row >= self.rows.len() {
            Some(self.row_error(row))
        } else if col >= self.header.len() {
            Some(self.col_error(col))
        } else {
            None
        }
    }

    /// The table that a new one starts as.
    pub open spec fn starter() -> GridView {
        GridView {
            has_header: true,
            header: placeholder_headers(INITIAL_TABLE_SIZE as nat),
            rows: Seq::new(INITIAL_TABLE_SIZE as nat, |i: int| blank_row(INITIAL_TABLE_SIZE as nat)),
            selected: Some((0usize, 0usize)),
        }
    }

    /// The table with nothing in it.
    pub open spec fn empty() -> GridView {
        GridView {
            has_header: false,
            header: Seq::empty(),
            rows: Seq::empty(),
            selected: None,
        }
    }

    /// The table with the cell at `row`, `col` set to `value`.
    pub open spec fn with_cell(self, row: int, col: int, value: Seq<char>) -> GridView {
        GridView { rows: self.rows.update(row, self.rows[row].update(col, value)), ..self }
    }

    /// The table with the header of column `col` set to `value`.
    pub open spec fn with_header(self, col: int, value: Seq<char>) -> GridView {
        GridView { header: self.header.update(col, value), ..self }
    }

    /// The table with one more row of empty cells at the end.
    pub open spec fn with_new_row(self) -> GridView {
        GridView { rows: self.rows.push(blank_row(self.header.len())), ..self }
    }

    /// The table without the row at `row`, the cursor pulled back into it.
    pub open spec fn without_row(self, row: int) -> GridView {
        GridView {
            rows: self.rows.remove(row),
            selected: pulled_back(self.selected, (self.rows.len() - 1) as nat, self.header.len()),
            ..self
        }
    }

    /// The table with one more column at the end, named `name`, its cells empty.
    pub open spec fn with_new_col(self, name: Seq<char>) -> GridView {
        GridView {
            header: self.header.push(name),
            rows: Seq::new(self.rows.len(), |i: int| self.rows[i].push(Seq::<char>::empty())),
            ..self
        }
    }

    /// The table without the column at `col`, the cursor pulled back into it.
    pub open spec fn without_col(self, col: int) -> GridView {
        GridView {
            header: self.header.remove(col),
            rows: Seq::new(self.rows.len(), |i: int| self.rows[i].remove(col)),
            selected: pulled_back(self.selected, self.rows.len(), (self.header.len() - 1) as nat),
            ..self
        }
    }

    /// The table with the cursor moved by `d_row`, `d_col` from `(row, col)`,
    /// stopping at the table's edges.
    pub open spec fn moved(self, d_row: isize, d_col: isize) -> GridView {
        match self.selected {
            Some((r, c)) => GridView {
                selected: Some(
                    (
                        clamped(r, d_row, max_index(self.rows.len())),
                        clamped(c, d_col, max_index(self.header.len())),
                    ),
                ),
                ..self
            },
            None => self,
        }
    }

    /// The table with the cursor on `row`, `col`.
    pub open spec fn selecting(self, row: usize, col: usize) -> GridView {
        GridView { selected: Some((row, col)), ..self }
    }

    /// The table with its header switched off: the header becomes the first row.
    pub open spec fn header_off(self) -> GridView {
        GridView { has_header: false, rows: self.rows.insert(0, self.header), ..self }
    }

    /// The table with its header switched on: the first row is given up.
    pub open spec fn header_on(self) -> GridView {
        GridView {
            has_header: true,
            rows: self.rows.remove(0),
            selected: pulled_back(self.selected, (self.rows.len() - 1) as nat, self.header.len()),
            ..self
        }
    }

    /// The outcome of setting the cell at `row`, `col` to `value`.
    pub open spec fn update_cell(self, row: usize, col: usize, value: Seq<char>) -> Result<
        GridView,
        ErrorView,
    > {
        match self.cell_error(row, col) {
            Some(e) => Err(e),
            None => Ok(self.with_cell(row as int, col as int, value)),
        }
    }

    /// The outcome of setting the header of column `col` to `value`.
    pub open spec fn update_header(self, col: usize, value: Seq<char>) -> Result<
        GridView,
        ErrorView,
    > {
        if col >= self.header.len() {
            Err(self.col_error(col))
        } else if !self.has_header {
            Err(ErrorView::TableHasNoHeader)
        } else {
            Ok(self.with_header(col as int, value))
        }
    }

    /// The outcome of removing the row at `row`.
    pub open spec fn collapse_row(self, row: usize) -> Result<GridView, ErrorView> {
        if row >= self.rows.len() {
            Err(self.row_error(row))
        } else {
            Ok(self.without_row(row as int))
        }
    }

    /// The outcome of removing the column at `col`.
    pub open spec fn collapse_col(self, col: usize) -> Result<GridView, ErrorView> {
        if col >= self.header.len() {
            Err(self.col_error(col))
        } else {
            Ok(self.without_col(col as int))
        }
    }

    /// The outcome of moving the cursor by `d_row`, `d_col`.
    pub open spec fn move_selector(self, d_row: isize, d_col: isize) -> Result<
        GridView,
        ErrorView,
    > {
        if self.selected is None {
            Err(ErrorView::NoCellSelected)
        } else {
            Ok(self.moved(d_row, d_col))
        }
    }

    /// The outcome of putting the cursor on `row`, `col`.
    pub open spec fn select_cell(self, row: usize, col: usize) -> Result<GridView, ErrorView> {
        match self.cell_error(row, col) {
            Some(e) => Err(e),
            None => Ok(self.selecting(row, col)),
        }
    }

    /// The outcome of making a table of records.
    pub open spec fn from_records(
        first: Seq<Seq<char>>,
        rows: Seq<Seq<Seq<char>>>,
        has_header: bool,
    ) -> Result<GridView, ErrorView> {
        if same_width(first, rows) {
            Ok(GridView::of_records(first, rows, has_header))
        } else {
            Err(ErrorView::CsvParseError(UNEQUAL_WIDTH_MESSAGE@))
        }
    }

    /// The outcome of reading a table from comma-separated values.
    pub open spec fn from_csv(data: Seq<u8>, has_header: bool) -> Result<GridView, ErrorView> {
        match csv_document(data, has_header) {
            Ok(doc) => GridView::from_records(doc.0, doc.1, has_header),
            Err(message) => Err(ErrorView::CsvParseError(message)),
        }
    }

    /// The outcome of writing the table as comma-separated values.
    pub open spec fn to_csv(self) -> Result<Seq<u8>, ErrorView> {
        match csv_encoding(self.records()) {
            Ok(bytes) => Ok(bytes),
            Err(message) => Err(ErrorView::CsvParseError(message)),
        }
    }

    /// The width of column `col`: that of its header or of its widest cell.
    pub open spec fn column_width(self, col: int) -> usize {
        wider(text_width(self.header[col]), widest_cell(self.rows, col))
    }

    /// The widths to draw the table with: 3 for the column of row
    /// numbers, then each column's width.
    pub open spec fn header_widths(self) -> Seq<u16> {
        seq![3u16] + Seq::new(self.header.len(), |col: int| narrowed(self.column_width(col)))
    }

    /// What a reader that is told whether the records start with a header
    /// finds in the records that the table is written as: the first record,
    /// and the records after the header.
    pub open spec fn written(self) -> (Seq<Seq<char>>, Seq<Seq<Seq<char>>>) {
        if self.has_header {
            (self.header, self.rows)
        } else if self.rows.len() > 0 {
            (self.rows[0], self.rows)
        } else {
            (Seq::empty(), self.rows)
        }
    }

    /// The records that the table is written as: the header, if it has
    /// one, then the rows.
    pub open spec fn records(self) -> Seq<Seq<Seq<char>>> {
        if self.has_header {
            seq![self.header] + self.rows
        } else {
            self.rows
        }
    }

    /// The table read from records: `first` is the first record of the
    /// data and `rows` the records after the header. Without a header the
    /// columns get placeholder names.
    pub open spec fn of_records(first: Seq<Seq<char>>, rows: Seq<Seq<Seq<char>>>, has_header: bool) -> GridView {
        GridView {
            has_header,
            header: if has_header {
                first
            } else {
                placeholder_headers(first.len())
            },
            rows,
            selected: first_cell(rows.len(), first.len()),
        }
    }
}

/// The number of bytes that `text` takes.
pub open spec fn text_width(text: Seq<char>) -> usize {
    vstd::utf8::encode_utf8(text).len() as usize
}

/// The larger of two widths.
pub open spec fn wider(a: usize, b: usize) -> usize {
    if a >= b {
        a
    } else {
        b
    }
}

/// The width of the widest cell of column `col` in `rows`, and 0 without rows.
pub open spec fn widest_cell(rows: Seq<Seq<Seq<char>>>, col: int) -> usize
    decreases rows.len(),
{
    if rows.len() == 0 {
        0
    } else {
        wider(widest_cell(rows.drop_last(), col), text_width(rows.last()[col]))
    }
}

/// A width cut down to the sixteen bits that a screen column count has.
pub open spec fn narrowed(width: usize) -> u16 {
    (width & 0xffff) as u16
}

/// Whether every record of `rows` has as many fields as `first`.
pub open spec fn same_width(first: Seq<Seq<char>>, rows: Seq<Seq<Seq<char>>>) -> bool {
    forall|i: int| 0 <= i < rows.len() ==> (#[trigger] rows[i]).len() == first.len()
}

/// `width` cut down to sixteen bits.
fn narrow(width: usize) -> (r: u16)
    ensures
        r == narrowed(width),
{
    let low: usize = width & 0xffff;
    assert(low < 0x10000) by (bit_vector)
        requires
            low == width & 0xffff,
    ;
    low as u16
}

/// A row of `n` empty cells.
fn blank_cells(n: usize) -> (r: Vec<String>)
    ensures
        strings_view(r@) == blank_row(n as nat),
{
    let mut cells: Vec<String> = Vec::new();
    let mut j: usize = 0;
    while j < n
        invariant
            j <= n,
            cells.len() == j,
            forall|k: int| 0 <= k < j ==> (#[trigger] cells[k])@ == Seq::<char>::empty(),
        decreases n - j,
    {
        cells.push(String::new());
        j = j + 1;
    }
    assert(strings_view(cells@) =~= blank_row(n as nat));
    cells
}

/// The placeholder headers for `n` columns.
fn placeholder_names(n: usize) -> (r: Vec<String>)
    ensures
        strings_view(r@) == placeholder_headers(n as nat),
{
    let mut names: Vec<String> = Vec::new();
    let mut i: usize = 0;
    while i < n
        invariant
            i <= n,
            names.len() == i,
            forall|k: int| 0 <= k < i ==> (#[trigger] names[k])@ == "header"@ + decimal(k as nat),
        decreases n - i,
    {
        names.push(numbered("header", i));
        i = i + 1;
    }
    assert(strings_view(names@) =~= placeholder_headers(n as nat));
    names
}

/// A copy of a list of strings.
fn copy_strings(strings: &Vec<String>) -> (r: Vec<String>)
    ensures
        strings_view(r@) == strings_view(strings@),
{
    let mut copy: Vec<String> = Vec::new();
    let mut i: usize = 0;
    while i < strings.len()
        invariant
            i <= strings.len(),
            copy.len() == i,
            forall|k: int| 0 <= k < i ==> (#[trigger] copy[k])@ == strings[k]@,
        decreases strings.len() - i,
    {
        copy.push(strings[i].clone());
        i = i + 1;
    }
    assert(strings_view(copy@) =~= strings_view(strings@));
    copy
}

/// `at` moved by `delta`, held between 0 and `max`.
fn clamp_move(at: usize, delta: isize, max: usize) -> (r: usize)
    ensures
        r == clamped(at, delta, max),
{
    let moved: usize = if delta >= 0 {
        let step: usize = delta as usize;
        if at > usize::MAX - step {
            usize::MAX
        } else {
            at + step
        }
    } else {
        let step: usize = (-(delta + 1)) as usize;
        if step >= at {
            0
        } else {
            at - step - 1
        }
    };
    if moved > max {
        max
    } else {
        moved
    }
}

/// A cursor pulled back into a table of `rows` rows and `cols` columns.
fn pull_back(selected: Option<(usize, usize)>, rows: usize, cols: usize) -> (r: Option<
    (usize, usize),
>)
    ensures
        r == pulled_back(selected, rows as nat, cols as nat),
{
    match selected {
        Some((r, c)) => {
            if rows == 0 || cols == 0 {
                None
            } else {
                Some((if r < rows { r } else { rows - 1 }, if c < cols { c } else { cols - 1 }))
            }
        },
        None => None,
    }
}

/// One table: header, rows and cursor.
#[derive(Debug, PartialEq, Eq)]
pub struct TableView {
    has_header: bool,
    header: Vec<String>,
    rows: Vec<Vec<String>>,
    selected: Option<(usize, usize)>,
}

impl View for TableView {
    type V = GridView;

    closed spec fn view(&self) -> GridView {
        GridView {
            has_header: self.has_header,
            header: strings_view(self.header@),
            rows: rows_view(self.rows@),
            selected: self.selected,
        }
    }
}

impl TableView {
    #[verifier::type_invariant]
    spec fn inv(self) -> bool {
        self@.wf()
    }

    /// The table with nothing in it.
    pub fn empty() -> (r: Self)
        ensures
            r@ == GridView::empty(),
            r@.wf(),
    {
        let header: Vec<String> = Vec::new();
        let rows: Vec<Vec<String>> = Vec::new();
        assert(strings_view(header@) =~= Seq::<Seq<char>>::empty());
        assert(rows_view(rows@) =~= Seq::<Seq<Seq<char>>>::empty());
        TableView { has_header: false, header, rows, selected: None }
    }

    /// The table that a new one starts as: ten placeholder headers, ten
    /// rows of empty cells, the cursor on the first cell.
    pub fn new() -> (r: Self)
        ensures
            r@ == GridView::starter(),
            r@.wf(),
    {
        let header = placeholder_names(INITIAL_TABLE_SIZE);
        let mut rows: Vec<Vec<String>> = Vec::new();
        let mut i: usize = 0;
        while i < INITIAL_TABLE_SIZE
            invariant
                i <= INITIAL_TABLE_SIZE,
                rows.len() == i,
                forall|k: int| 0 <= k < i ==> strings_view(#[trigger] rows[k]@) == blank_row(INITIAL_TABLE_SIZE as nat),
            decreases INITIAL_TABLE_SIZE - i,
        {
            rows.push(blank_cells(INITIAL_TABLE_SIZE));
            i = i + 1;
        }
        assert(rows_view(rows@) =~= GridView::starter().rows);
        TableView { has_header: true, header, rows, selected: Some((0, 0)) }
    }

    /// The table made of records: `first` is the first record of the data,
    /// `records` are the records after the header. Without a header the
    /// columns get placeholder names. Fails when a record is not as wide
    /// as `first`.
    pub fn from_records(first: Vec<String>, records: Vec<Vec<String>>, has_header: bool) -> (r: Result<
        TableView,
        StrataError,
    >)
        ensures
            match r {
                Ok(t) => GridView::from_records(strings_view(first@), rows_view(records@), has_header)
                    == Ok::<_, ErrorView>(t@) && t@.wf(),
                Err(e) => GridView::from_records(strings_view(first@), rows_view(records@), has_header)
                    == Err::<GridView, _>(e@),
            },
    {
        let width = first.len();
        let mut i: usize = 0;
        while i < records.len()
            invariant
                i <= records.len(),
                width == first.len(),
                forall|k: int| 0 <= k < i ==> (#[trigger] rows_view(records@)[k]).len() == width,
            decreases records.len() - i,
        {
            if records[i].len() != width {
                assert(rows_view(records@)[i as int].len() != width);
                return Err(StrataError::CsvParseError(UNEQUAL_WIDTH_MESSAGE.to_owned()));
            }
            i = i + 1;
        }
        let header = if has_header {
            first
        } else {
            placeholder_names(width)
        };
        let selected = if records.len() == 0 || width == 0 {
            None
        } else {
            Some((0, 0))
        };
        Ok(TableView { has_header, header, rows: records, selected })
    }

    /// The table that `data` holds as comma-separated values. With
    /// `has_header` the first record names the columns; without, the
    /// columns get placeholder names and every record is a row.
    pub fn from_csv(data: &[u8], has_header: bool) -> (r: Result<TableView, StrataError>)
        ensures
            match r {
                Ok(t) => GridView::from_csv(data@, has_header) == Ok::<_, ErrorView>(t@) && t@.wf(),
                Err(e) => GridView::from_csv(data@, has_header) == Err::<GridView, _>(e@),
            },
    {
        match csv_read(data, has_header) {
            Err(message) => Err(StrataError::CsvParseError(message)),
            Ok(doc) => TableView::from_records(doc.0, doc.1, has_header),
        }
    }

    /// The table as comma-separated values: the header, if it has one,
    /// then the rows.
    pub fn to_csv(&self) -> (r: Result<Vec<u8>, StrataError>)
        ensures
            match r {
                Ok(bytes) => self@.to_csv() == Ok::<_, ErrorView>(bytes@),
                Err(e) => self@.to_csv() == Err::<Seq<u8>, _>(e@),
            },
    {
        let records = self.records();
        match csv_write(&records) {
            Err(message) => Err(StrataError::CsvParseError(message)),
            Ok(bytes) => Ok(bytes),
        }
    }

    /// The records that the table is written as: the header, if it has
    /// one, then the rows.
    pub fn records(&self) -> (r: Vec<Vec<String>>)
        ensures
            rows_view(r@) == self@.records(),
    {
        let mut records: Vec<Vec<String>> = Vec::new();
        if self.has_header {
            records.push(copy_strings(&self.header));
        }
        let ghost lead = rows_view(records@);
        assert(lead =~= if self.has_header {
            seq![strings_view(self.header@)]
        } else {
            Seq::<Seq<Seq<char>>>::empty()
        });
        let mut i: usize = 0;
        while i < self.rows.len()
            invariant
                i <= self.rows.len(),
                rows_view(records@) == lead + rows_view(self.rows@).subrange(0, i as int),
            decreases self.rows.len() - i,
        {
            let ghost before = rows_view(records@);
            records.push(copy_strings(&self.rows[i]));
            assert(rows_view(records@) =~= before.push(strings_view(self.rows[i as int]@)));
            assert(rows_view(self.rows@).subrange(0, i + 1) =~= rows_view(self.rows@).subrange(
                0,
                i as int,
            ).push(strings_view(self.rows[i as int]@)));
            i = i + 1;
        }
        assert(rows_view(self.rows@).subrange(0, i as int) =~= rows_view(self.rows@));
        assert(lead + rows_view(self.rows@) =~= self@.records());
        records
    }

    /// States what holds of every table: rows as wide as the header, cursor on a cell.
    pub fn well_formed(&self)
        ensures
            self@.wf(),
    {
        proof {
            use_type_invariant(self);
        }
    }

    /// Takes the table out, leaving an empty one in its place.
    fn take(&mut self) -> (r: TableView)
        ensures
            r == *old(self),
            final(self)@ == GridView::empty(),
    {
        let mut taken = TableView::empty();
        std::mem::swap(self, &mut taken);
        taken
    }

    /// Whether the table has a header of its own.
    pub fn has_header(&self) -> (r: bool)
        ensures
            r == self@.has_header,
    {
        self.has_header
    }

    /// The column names.
    pub fn get_header(&self) -> (r: &Vec<String>)
        ensures
            strings_view(r@) == self@.header,
    {
        &self.header
    }

    /// The rows of cells.
    pub fn rows(&self) -> (r: &Vec<Vec<String>>)
        ensures
            rows_view(r@) == self@.rows,
    {
        &self.rows
    }

    /// The cell that the cursor is on.
    pub fn get_selector_index(&self) -> (r: Option<(usize, usize)>)
        ensures
            r == self@.selected,
            r matches Some((row, col)) ==> row < self@.rows.len() && col < self@.header.len(),
    {
        proof {
            use_type_invariant(self);
        }
        self.selected
    }

    /// The largest row index, and 0 for a table without rows.
    pub fn max_row_index(&self) -> (r: usize)
        ensures
            r == max_index(self@.rows.len()),
    {
        if self.rows.len() == 0 {
            0
        } else {
            self.rows.len() - 1
        }
    }

    /// The largest column index, and 0 for a table without columns.
    pub fn max_col_index(&self) -> (r: usize)
        ensures
            r == max_index(self@.header.len()),
    {
        if self.header.len() == 0 {
            0
        } else {
            self.header.len() - 1
        }
    }

    /// Succeeds when the table has a row `row`.
    pub fn is_valid_row_index(&self, row: usize) -> (r: Result<(), StrataError>)
        ensures
            match r {
                Ok(_) => row < self@.rows.len(),
                Err(e) => row >= self@.rows.len() && e@ == self@.row_error(row),
            },
    {
        if row >= self.rows.len() {
            return Err(StrataError::InvalidRowIndex { max: self.max_row_index(), requested: row });
        }
        Ok(())
    }

    /// Succeeds when the table has a column `col`.
    pub fn is_valid_col_index(&self, col: usize) -> (r: Result<(), StrataError>)
        ensures
            match r {
                Ok(_) => col < self@.header.len(),
                Err(e) => col >= self@.header.len() && e@ == self@.col_error(col),
            },
    {
        if col >= self.header.len() {
            return Err(
                StrataError::InvalidColumnIndex { max: self.max_col_index(), requested: col },
            );
        }
        Ok(())
    }

    /// Succeeds when the table has a cell at `row`, `col`.
    fn is_valid_cell(&self, row: usize, col: usize) -> (r: Result<(), StrataError>)
        ensures
            match r {
                Ok(_) => self@.cell_error(row, col) is None,
                Err(e) => self@.cell_error(row, col) == Some(e@),
            },
    {
        match self.is_valid_row_index(row) {
            Err(e) => Err(e),
            Ok(_) => self.is_valid_col_index(col),
        }
    }

    /// The text of the cell at `row`, `col`.
    pub fn get_cell_value(&self, row: usize, col: usize) -> (r: Result<&str, StrataError>)
        ensures
            match r {
                Ok(s) => self@.cell_error(row, col) is None && s@ == self@.rows[row as int][col as int],
                Err(e) => self@.cell_error(row, col) == Some(e@),
            },
    {
        proof {
            use_type_invariant(self);
        }
        match self.is_valid_cell(row, col) {
            Err(e) => Err(e),
            Ok(_) => {
                assert(self@.rows[row as int].len() == self@.header.len());
                Ok(self.rows[row][col].as_str())
            },
        }
    }

    /// The widths to draw the table with: 3 for the column of row
    /// numbers, then for each column the width of its header or of its
    /// widest cell, in bytes.
    pub fn get_header_widths(&self) -> (r: Vec<u16>)
        ensures
            r@ == self@.header_widths(),
    {
        proof {
            use_type_invariant(self);
        }
        let mut widths: Vec<u16> = Vec::new();
        widths.push(3u16);
        let mut col: usize = 0;
        assert(widths@ =~= seq![3u16] + Seq::new(0, |c: int| narrowed(self@.column_width(c))));
        while col < self.header.len()
            invariant
                col <= self.header.len(),
                self@.wf(),
                widths@ == seq![3u16] + Seq::new(
                    col as nat,
                    |c: int| narrowed(self@.column_width(c)),
                ),
            decreases self.header.len() - col,
        {
            let mut widest: usize = self.header[col].as_str().len();
            let ghost top = widest;
            let mut row: usize = 0;
            assert(rows_view(self.rows@).subrange(0, 0) =~= Seq::<Seq<Seq<char>>>::empty());
            while row < self.rows.len()
                invariant
                    row <= self.rows.len(),
                    col < self.header.len(),
                    self@.wf(),
                    top == text_width(self@.header[col as int]),
                    widest == wider(
                        top,
                        widest_cell(rows_view(self.rows@).subrange(0, row as int), col as int),
                    ),
                decreases self.rows.len() - row,
            {
                assert(self@.rows[row as int].len() == self@.header.len());
                let width = self.rows[row][col].as_str().len();
                let ghost seen = rows_view(self.rows@).subrange(0, row + 1);
                assert(seen.drop_last() =~= rows_view(self.rows@).subrange(0, row as int));
                assert(seen.last() == rows_view(self.rows@)[row as int]);
                if width > widest {
                    widest = width;
                }
                row = row + 1;
            }
            assert(rows_view(self.rows@).subrange(0, row as int) =~= self@.rows);
            let ghost before = widths@;
            widths.push(narrow(widest));
            assert(widths@ =~= seq![3u16] + Seq::new(
                (col + 1) as nat,
                |c: int| narrowed(self@.column_width(c)),
            ));
            col = col + 1;
        }
        widths
    }

    /// The text of the cell that the cursor is on.
    pub fn selected_cell_value(&self) -> (r: Option<&str>)
        ensures
            match r {
                Some(s) => self@.selected matches Some((row, col)) && s@ == self@.rows[row as int][col as int],
                None => self@.selected is None,
            },
    {
        proof {
            use_type_invariant(self);
        }
        match self.selected {
            Some((row, col)) => {
                assert(self@.rows[row as int].len() == self@.header.len());
                Some(self.rows[row][col].as_str())
            },
            None => None,
        }
    }

    /// Sets the cell at `row`, `col` to `value`.
    pub fn update_cell(&mut self, row: usize, col: usize, value: &str) -> (r: Result<
        &mut Self,
        StrataError,
    >)
        ensures
            match r {
                Ok(s) => {
                    &&& old(self)@.cell_error(row, col) is None
                    &&& s@ == old(self)@.with_cell(row as int, col as int, value@)
                    &&& s@.wf()
                    &&& *final(self) == *final(s)
                },
                Err(e) => old(self)@.cell_error(row, col) == Some(e@) && *final(self) == *old(self),
            },
    {
        proof {
            use_type_invariant(&*self);
        }
        match self.is_valid_cell(row, col) {
            Err(e) => Err(e),
            Ok(_) => {
                let TableView { has_header, header, mut rows, selected } = self.take();
                let ghost before = rows_view(rows@);
                assert(before[row as int].len() == header@.len());
                rows[row][col] = value.to_owned();
                assert(rows_view(rows@) =~~= before.update(
                    row as int,
                    before[row as int].update(col as int, value@),
                ));
                *self = TableView { has_header, header, rows, selected };
                Ok(self)
            },
        }
    }

    /// Sets the header of column `col` to `value`. A table whose header
    /// is switched off has none to set.
    pub fn update_header(&mut self, col: usize, value: &str) -> (r: Result<&mut Self, StrataError>)
        ensures
            match r {
                Ok(s) => {
                    &&& col < old(self)@.header.len()
                    &&& old(self)@.has_header
                    &&& s@ == old(self)@.with_header(col as int, value@)
                    &&& s@.wf()
                    &&& *final(self) == *final(s)
                },
                Err(e) => {
                    &&& *final(self) == *old(self)
                    &&& if col >= old(self)@.header.len() {
                        e@ == old(self)@.col_error(col)
                    } else {
                        !old(self)@.has_header && e@ == ErrorView::TableHasNoHeader
                    }
                },
            },
    {
        proof {
            use_type_invariant(&*self);
        }
        match self.is_valid_col_index(col) {
            Err(e) => Err(e),
            Ok(_) => {
                if !self.has_header {
                    return Err(StrataError::TableHasNoHeader);
                }
                let TableView { has_header, mut header, rows, selected } = self.take();
                let ghost before = strings_view(header@);
                header[col] = value.to_owned();
                assert(strings_view(header@) =~= before.update(col as int, value@));
                *self = TableView { has_header, header, rows, selected };
                Ok(self)
            },
        }
    }

    /// Appends one row of empty cells.
    pub fn expand_row(&mut self) -> (r: &mut Self)
        ensures
            r@ == old(self)@.with_new_row(),
            r@.wf(),
            *final(self) == *final(r),
    {
        proof {
            use_type_invariant(&*self);
        }
        let TableView { has_header, header, mut rows, selected } = self.take();
        let ghost before = rows_view(rows@);
        let cells = blank_cells(header.len());
        rows.push(cells);
        assert(rows_view(rows@) =~= before.push(blank_row(header@.len())));
        assert(rows@.len() == rows.len());
        *self = TableView { has_header, header, rows, selected };
        self
    }

    /// Removes the row at `row`. The cursor stays where it was, pulled
    /// back onto the last row if it lay beyond it, and is given up when no
    /// row is left.
    pub fn collapse_row(&mut self, row: usize) -> (r: Result<&mut Self, StrataError>)
        ensures
            match r {
                Ok(s) => {
                    &&& row < old(self)@.rows.len()
                    &&& s@ == old(self)@.without_row(row as int)
                    &&& s@.wf()
                    &&& *final(self) == *final(s)
                },
                Err(e) => {
                    &&& row >= old(self)@.rows.len()
                    &&& e@ == old(self)@.row_error(row)
                    &&& *final(self) == *old(self)
                },
            },
    {
        proof {
            use_type_invariant(&*self);
        }
        match self.is_valid_row_index(row) {
            Err(e) => Err(e),
            Ok(_) => {
                let TableView { has_header, header, mut rows, selected } = self.take();
                let ghost before = rows_view(rows@);
                rows.remove(row);
                assert(rows_view(rows@) =~= before.remove(row as int));
                let selected = pull_back(selected, rows.len(), header.len());
                *self = TableView { has_header, header, rows, selected };
                Ok(self)
            },
        }
    }

    /// Appends one column named `new_header`, with an empty cell in every row.
    pub fn expand_col(&mut self, new_header: &str) -> (r: &mut Self)
        ensures
            r@ == old(self)@.with_new_col(new_header@),
            r@.wf(),
            *final(self) == *final(r),
    {
        proof {
            use_type_invariant(&*self);
        }
        let TableView { has_header, mut header, mut rows, selected } = self.take();
        let ghost before = rows_view(rows@);
        let ghost width = header@.len();
        let ghost names = strings_view(header@);
        header.push(new_header.to_owned());
        assert(strings_view(header@) =~= names.push(new_header@));
        assert(header@.len() == header.len());
        let mut i: usize = 0;
        while i < rows.len()
            invariant
                i <= rows.len(),
                rows.len() == before.len(),
                forall|k: int| 0 <= k < before.len() ==> (#[trigger] before[k]).len() == width,
                forall|k: int| 0 <= k < i ==> strings_view(#[trigger] rows[k]@) == before[k].push(Seq::<char>::empty()),
                forall|k: int| i <= k < rows.len() ==> strings_view(#[trigger] rows[k]@) == before[k],
            decreases rows.len() - i,
        {
            let ghost cells = strings_view(rows[i as int]@);
            rows[i].push(String::new());
            assert(strings_view(rows[i as int]@) =~= cells.push(Seq::<char>::empty()));
            i = i + 1;
        }
        assert(rows_view(rows@) =~= Seq::new(
            before.len(),
            |k: int| before[k].push(Seq::<char>::empty()),
        ));
        *self = TableView { has_header, header, rows, selected };
        self
    }

    /// Removes the column at `col` with its cell in every row. The cursor
    /// stays where it was, pulled back onto the last column if it lay
    /// beyond it, and is given up when no column is left.
    pub fn collapse_col(&mut self, col: usize) -> (r: Result<&mut Self, StrataError>)
        ensures
            match r {
                Ok(s) => {
                    &&& col < old(self)@.header.len()
                    &&& s@ == old(self)@.without_col(col as int)
                    &&& s@.wf()
                    &&& *final(self) == *final(s)
                },
                Err(e) => {
                    &&& col >= old(self)@.header.len()
                    &&& e@ == old(self)@.col_error(col)
                    &&& *final(self) == *old(self)
                },
            },
    {
        proof {
            use_type_invariant(&*self);
        }
        match self.is_valid_col_index(col) {
            Err(e) => Err(e),
            Ok(_) => {
                let TableView { has_header, mut header, mut rows, selected } = self.take();
                let ghost before = rows_view(rows@);
                let ghost width = header@.len();
                let ghost names = strings_view(header@);
                header.remove(col);
                assert(strings_view(header@) =~= names.remove(col as int));
                let mut i: usize = 0;
                while i < rows.len()
                    invariant
                        i <= rows.len(),
                        rows.len() == before.len(),
                        col < width,
                        forall|k: int| 0 <= k < before.len() ==> (#[trigger] before[k]).len() == width,
                        forall|k: int| 0 <= k < i ==> strings_view(#[trigger] rows[k]@) == before[k].remove(col as int),
                        forall|k: int| i <= k < rows.len() ==> strings_view(#[trigger] rows[k]@) == before[k],
                    decreases rows.len() - i,
                {
                    let ghost cells = strings_view(rows[i as int]@);
                    assert(cells.len() == width);
                    rows[i].remove(col);
                    assert(strings_view(rows[i as int]@) =~= cells.remove(col as int));
                    i = i + 1;
                }
                assert(rows_view(rows@) =~= Seq::new(
                    before.len(),
                    |k: int| before[k].remove(col as int),
                ));
                let selected = pull_back(selected, rows.len(), header.len());
                *self = TableView { has_header, header, rows, selected };
                Ok(self)
            },
        }
    }

    /// Moves the cursor by `row_move` rows and `col_move` columns, stopping
    /// at the table's edges.
    pub fn move_selector(&mut self, row_move: isize, col_move: isize) -> (r: Result<
        &mut Self,
        StrataError,
    >)
        ensures
            match r {
                Ok(s) => {
                    &&& old(self)@.selected is Some
                    &&& s@ == old(self)@.moved(row_move, col_move)
                    &&& s@.wf()
                    &&& *final(self) == *final(s)
                },
                Err(e) => {
                    &&& old(self)@.selected is None
                    &&& e@ == ErrorView::NoCellSelected
                    &&& *final(self) == *old(self)
                },
            },
    {
        proof {
            use_type_invariant(&*self);
        }
        match self.selected {
            None => Err(StrataError::NoCellSelected),
            Some((row, col)) => {
                let new_row = clamp_move(row, row_move, self.max_row_index());
                let new_col = clamp_move(col, col_move, self.max_col_index());
                self.selected = Some((new_row, new_col));
                Ok(self)
            },
        }
    }

    /// Switches the header off or on. Switching it off puts the header in
    /// front of the rows as the first row; switching it on gives the first
    /// row up, and fails on a table without rows.
    pub fn switch_headers(&mut self) -> (r: Result<&mut Self, StrataError>)
        ensures
            match r {
                Ok(s) => {
                    &&& old(self)@.has_header || old(self)@.rows.len() > 0
                    &&& s@ == if old(self)@.has_header {
                        old(self)@.header_off()
                    } else {
                        old(self)@.header_on()
                    }
                    &&& s@.wf()
                    &&& *final(self) == *final(s)
                },
                Err(e) => {
                    &&& !old(self)@.has_header
                    &&& old(self)@.rows.len() == 0
                    &&& e@ == old(self)@.row_error(0)
                    &&& *final(self) == *old(self)
                },
            },
    {
        proof {
            use_type_invariant(&*self);
        }
        if self.has_header {
            let TableView { has_header: _, header, mut rows, selected } = self.take();
            let ghost before = rows_view(rows@);
            let first = copy_strings(&header);
            rows.insert(0, first);
            assert(rows_view(rows@) =~= before.insert(0, strings_view(header@)));
            assert(rows@.len() == rows.len());
            *self = TableView { has_header: false, header, rows, selected };
            Ok(self)
        } else {
            match self.is_valid_row_index(0) {
                Err(e) => Err(e),
                Ok(_) => {
                    let TableView { has_header: _, header, mut rows, selected } = self.take();
                    let ghost before = rows_view(rows@);
                    rows.remove(0);
                    assert(rows_view(rows@) =~= before.remove(0));
                    let selected = pull_back(selected, rows.len(), header.len());
                    *self = TableView { has_header: true, header, rows, selected };
                    Ok(self)
                },
            }
        }
    }

    /// Puts the cursor on the cell at `row`, `col`.
    pub fn select_cell(&mut self, row: usize, col: usize) -> (r: Result<&mut Self, StrataError>)
        ensures
            match r {
                Ok(s) => {
                    &&& old(self)@.cell_error(row, col) is None
                    &&& s@ == old(self)@.selecting(row, col)
                    &&& s@.wf()
                    &&& *final(self) == *final(s)
                },
                Err(e) => old(self)@.cell_error(row, col) == Some(e@) && *final(self) == *old(self),
            },
    {
        proof {
            use_type_invariant(&*self);
        }
        match self.is_valid_cell(row, col) {
            Err(e) => Err(e),
            Ok(_) => {
                self.selected = Some((row, col));
                Ok(self)
            },
        }
    }
}

/// Where the reader finds in the bytes of a written table the records
/// that were written, reading the table back restores its rows, and its
/// header too if it has one; a table without a header comes back under
/// placeholder names. Whether the reader does find them is not shown here.
pub proof fn lemma_read_back_restores_rows(grid: GridView, bytes: Seq<u8>)
    requires
        grid.wf(),
        grid.to_csv() == Ok::<Seq<u8>, ErrorView>(bytes),
        csv_document(bytes, grid.has_header) == Ok::<_, Seq<char>>(grid.written()),
    ensures
        GridView::from_csv(bytes, grid.has_header) matches Ok(again) && again.rows == grid.rows
            && again.has_header == grid.has_header && again.wf() && (grid.has_header
            ==> again.header == grid.header) && (!grid.has_header ==> again.header
            == placeholder_headers(grid.written().0.len())),
{
    let doc = grid.written();
    assert(same_width(doc.0, doc.1));
}

/// Moving the cursor leaves it on a cell of the table.
pub proof fn lemma_move_stays_in_bounds(grid: GridView, d_row: isize, d_col: isize)
    requires
        grid.wf(),
    ensures
        grid.moved(d_row, d_col).wf(),
        grid.moved(d_row, d_col).selected matches Some((r, c)) ==> r < grid.rows.len() && c
            < grid.header.len(),
{
}

/// Putting the cursor on a cell succeeds for the cells of the table and
/// no others, and leaves it there.
pub proof fn lemma_select_stays_in_bounds(grid: GridView, row: usize, col: usize)
    requires
        grid.wf(),
    ensures
        match grid.select_cell(row, col) {
            Ok(after) => row < grid.rows.len() && col < grid.header.len() && after.wf()
                && after.selected == Some((row, col)),
            Err(_) => row >= grid.rows.len() || col >= grid.header.len(),
        },
{
}

/// Growing and shrinking the table keeps every row as wide as the header
/// and the cursor on a cell.
pub proof fn lemma_resize_keeps_well_formed(grid: GridView, index: int, name: Seq<char>)
    requires
        grid.wf(),
    ensures
        grid.rows.len() < usize::MAX ==> grid.with_new_row().wf(),
        grid.header.len() < usize::MAX ==> grid.with_new_col(name).wf(),
        0 <= index < grid.rows.len() ==> grid.without_row(index).wf(),
        0 <= index < grid.header.len() ==> grid.without_col(index).wf(),
{
}

impl Default for TableView {
    fn default() -> (r: Self)
        ensures
            r@ == GridView::empty(),
    {
        TableView::empty()
    }
}

} // verus!
