//! Text helpers shared by the table model: string buffers, decimal numbers
//! and the `row col` form that a jump to a cell is typed in.

use vstd::prelude::*;
use vstd::string::*;

verus! {

/// `String::push` appends one character to the end of the string. Taken
/// from the standard library's documentation, not proved.
pub assume_specification[ String::push ](s: &mut String, c: char)
    ensures
        final(s)@ == old(s)@.push(c),
;

/// `String::pop` removes the last character and returns it, or returns
/// `None` and leaves the string alone when it is empty. Taken from the
/// standard library's documentation, not proved.
pub assume_specification[ String::pop ](s: &mut String) -> (r: Option<char>)
    ensures
        old(s)@.len() == 0 ==> r is None && final(s)@ == old(s)@,
        old(s)@.len() > 0 ==> r == Some(old(s)@.last()) && final(s)@ == old(s)@.drop_last(),
;

/// `String::clear` truncates the string to length zero. Taken from the
/// standard library's documentation, not proved.
pub assume_specification[ String::clear ](s: &mut String)
    ensures
        final(s)@ == Seq::<char>::empty(),
;

/// A list of strings as sequences of characters.
pub open spec fn strings_view(strings: Seq<String>) -> Seq<Seq<char>> {
    Seq::new(strings.len(), |i: int| strings[i]@)
}

/// A list of rows of strings as sequences of characters.
pub open spec fn rows_view(rows: Seq<Vec<String>>) -> Seq<Seq<Seq<char>>> {
    Seq::new(rows.len(), |i: int| strings_view(rows[i]@))
}

/// The character that writes the digit `d`.
pub open spec fn digit_char(d: nat) -> char {
    if d == 0 {
        '0'
    } else if d == 1 {
        '1'
    } else if d == 2 {
        '2'
    } else if d == 3 {
        '3'
    } else if d == 4 {
        '4'
    } else if d == 5 {
        '5'
    } else if d == 6 {
        '6'
    } else if d == 7 {
        '7'
    } else if d == 8 {
        '8'
    } else {
        '9'
    }
}

/// The digit that `c` writes, if it is one of `0` to `9`.
pub open spec fn digit_of(c: char) -> Option<nat> {
    if c == '0' {
        Some(0nat)
    } else if c == '1' {
        Some(1nat)
    } else if c == '2' {
        Some(2nat)
    } else if c == '3' {
        Some(3nat)
    } else if c == '4' {
        Some(4nat)
    } else if c == '5' {
        Some(5nat)
    } else if c == '6' {
        Some(6nat)
    } else if c == '7' {
        Some(7nat)
    } else if c == '8' {
        Some(8nat)
    } else if c == '9' {
        Some(9nat)
    } else {
        None
    }
}

/// The decimal numeral of `n`, without sign or leading zeros.
pub open spec fn decimal(n: nat) -> Seq<char>
    decreases n,
{
    if n < 10 {
        seq![digit_char(n)]
    } else {
        decimal(n / 10).push(digit_char(n % 10))
    }
}

/// Whether `s` is a non-empty run of decimal digits.
pub open spec fn is_numeral(s: Seq<char>) -> bool {
    &&& s.len() > 0
    &&& forall|i: int| 0 <= i < s.len() ==> (#[trigger] digit_of(s[i])) is Some
}

/// The number that a run of decimal digits writes.
pub open spec fn numeral_value(s: Seq<char>) -> nat
    decreases s.len(),
{
    if s.len() == 0 {
        0
    } else {
        match digit_of(s.last()) {
            Some(d) => numeral_value(s.drop_last()) * 10 + d,
            None => numeral_value(s.drop_last()) * 10,
        }
    }
}

/// What an index typed by the user means: an optional `+`, then decimal
/// digits whose value fits a `usize`. Anything else means nothing.
pub open spec fn parse_index_spec(s: Seq<char>) -> Option<usize> {
    let digits = if s.len() > 0 && s[0] == '+' {
        s.subrange(1, s.len() as int)
    } else {
        s
    };
    if is_numeral(digits) && numeral_value(digits) <= usize::MAX {
        Some(numeral_value(digits) as usize)
    } else {
        None
    }
}

/// The position of the first space in `s`, or the length of `s` if it has none.
pub open spec fn first_space(s: Seq<char>) -> int
    decreases s.len(),
{
    if s.len() == 0 || s[0] == ' ' {
        0
    } else {
        1 + first_space(s.drop_first())
    }
}

/// What a cell position typed as `row col` means: the text before the first
/// space is the row, the text after it the column, and both must be indices.
pub open spec fn parse_cell_spec(s: Seq<char>) -> Option<(usize, usize)> {
    let at = first_space(s);
    if at >= s.len() {
        None
    } else {
        match (parse_index_spec(s.subrange(0, at)), parse_index_spec(s.subrange(at + 1, s.len() as int))) {
            (Some(row), Some(col)) => Some((row, col)),
            _ => None,
        }
    }
}

/// A position before which `s` has no space, and at which it has one or
/// ends, is the first space of `s`.
pub proof fn lemma_first_space_is(s: Seq<char>, at: int)
    requires
        0 <= at <= s.len(),
        forall|i: int| 0 <= i < at ==> s[i] != ' ',
        at < s.len() ==> s[at] == ' ',
    ensures
        first_space(s) == at,
    decreases s.len(),
{
    if s.len() == 0 || s[0] == ' ' {
    } else {
        let t = s.drop_first();
        assert forall|i: int| 0 <= i < at - 1 implies t[i] != ' ' by {
            assert(t[i] == s[i + 1]);
        }
        lemma_first_space_is(t, at - 1);
    }
}

/// Every numeral that begins with the digits of `s` is worth at least as much as `s`.
pub proof fn lemma_numeral_prefix(s: Seq<char>, k: int)
    requires
        0 <= k <= s.len(),
    ensures
        numeral_value(s.subrange(0, k)) <= numeral_value(s),
    decreases s.len() - k,
{
    if k == s.len() {
        assert(s.subrange(0, k) =~= s);
    } else {
        lemma_numeral_prefix(s, k + 1);
        let t = s.subrange(0, k + 1);
        assert(t.drop_last() =~= s.subrange(0, k));
    }
}

/// The character for one decimal digit.
fn digit(d: usize) -> (c: char)
    requires
        d < 10,
    ensures
        c == digit_char(d as nat),
{
    if d == 0 {
        '0'
    } else if d == 1 {
        '1'
    } else if d == 2 {
        '2'
    } else if d == 3 {
        '3'
    } else if d == 4 {
        '4'
    } else if d == 5 {
        '5'
    } else if d == 6 {
        '6'
    } else if d == 7 {
        '7'
    } else if d == 8 {
        '8'
    } else {
        '9'
    }
}

/// The value of one decimal digit, or `None` for any other character.
pub fn digit_value(c: char) -> (r: Option<usize>)
    ensures
        r is Some <==> digit_of(c) is Some,
        r matches Some(d) ==> digit_of(c) == Some(d as nat) && d < 10,
{
    if c == '0' {
        Some(0)
    } else if c == '1' {
        Some(1)
    } else if c == '2' {
        Some(2)
    } else if c == '3' {
        Some(3)
    } else if c == '4' {
        Some(4)
    } else if c == '5' {
        Some(5)
    } else if c == '6' {
        Some(6)
    } else if c == '7' {
        Some(7)
    } else if c == '8' {
        Some(8)
    } else if c == '9' {
        Some(9)
    } else {
        None
    }
}

/// Appends the decimal numeral of `n` to `s`.
pub fn push_decimal(s: &mut String, n: usize)
    ensures
        final(s)@ == old(s)@ + decimal(n as nat),
    decreases n,
{
    if n < 10 {
        s.push(digit(n));
        assert(s@ =~= old(s)@ + decimal(n as nat));
    } else {
        push_decimal(s, n / 10);
        s.push(digit(n % 10));
        assert(s@ =~= old(s)@ + decimal(n as nat));
    }
}

/// The text `prefix` followed by the decimal numeral of `n`.
pub fn numbered(prefix: &str, n: usize) -> (r: String)
    ensures
        r@ == prefix@ + decimal(n as nat),
{
    let mut s = prefix.to_owned();
    push_decimal(&mut s, n);
    s
}

/// Reads the characters of `s` from `from` up to `to` as an index.
fn parse_index_in(s: &str, from: usize, to: usize) -> (r: Option<usize>)
    requires
        from <= to <= s@.len(),
    ensures
        r == parse_index_spec(s@.subrange(from as int, to as int)),
{
    let ghost whole = s@.subrange(from as int, to as int);
    let mut i: usize = from;
    if i < to && s.get_char(i) == '+' {
        i = i + 1;
    }
    let ghost digits = s@.subrange(i as int, to as int);
    assert(digits =~= if whole.len() > 0 && whole[0] == '+' {
        whole.subrange(1, whole.len() as int)
    } else {
        whole
    });
    if i >= to {
        return None;
    }
    let start: usize = i;
    let mut acc: usize = 0;
    while i < to
        invariant
            from <= start <= i <= to <= s@.len(),
            whole == s@.subrange(from as int, to as int),
            digits == s@.subrange(start as int, to as int),
            digits == if whole.len() > 0 && whole[0] == '+' {
                whole.subrange(1, whole.len() as int)
            } else {
                whole
            },
            forall|j: int| 0 <= j < i - start ==> (#[trigger] digit_of(digits[j])) is Some,
            acc == numeral_value(digits.subrange(0, i - start)),
        decreases to - i,
    {
        let c = s.get_char(i);
        assert(c == digits[i - start]);
        let ghost next = digits.subrange(0, i - start + 1);
        assert(next.drop_last() =~= digits.subrange(0, i - start));
        assert(next.last() == c);
        match digit_value(c) {
            None => {
                return None;
            },
            Some(d) => {
                if acc > (usize::MAX - d) / 10 {
                    proof {
                        lemma_numeral_prefix(digits, i - start + 1);
                    }
                    assert(numeral_value(next) == acc * 10 + d);
                    return None;
                }
                acc = acc * 10 + d;
            },
        }
        i = i + 1;
    }
    assert(digits.subrange(0, i - start) =~= digits);
    Some(acc)
}

/// Reads an index typed by the user.
pub fn parse_index(s: &str) -> (r: Option<usize>)
    ensures
        r == parse_index_spec(s@),
{
    let n = s.unicode_len();
    assert(s@.subrange(0, n as int) =~= s@);
    parse_index_in(s, 0, n)
}

/// Reads a cell position typed as `row col`.
pub fn parse_cell(s: &str) -> (r: Option<(usize, usize)>)
    ensures
        r == parse_cell_spec(s@),
{
    let n = s.unicode_len();
    let mut at: usize = 0;
    while at < n && s.get_char(at) != ' '
        invariant
            at <= n == s@.len(),
            forall|i: int| 0 <= i < at ==> s@[i] != ' ',
        decreases n - at,
    {
        at = at + 1;
    }
    proof {
        lemma_first_space_is(s@, at as int);
    }
    if at >= n {
        return None;
    }
    let row = parse_index_in(s, 0, at);
    let col = parse_index_in(s, at + 1, n);
    match (row, col) {
        (Some(r), Some(c)) => Some((r, c)),
        _ => None,
    }
}

} // verus!
