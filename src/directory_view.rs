//! The entries of a directory as columns of text lines, one of them marked by
//! the cursor.
use vstd::prelude::*;

use vstd::utf8::encode_utf8;

use crate::grid::{columns, lemma_columns_is_ceiling};
use crate::listing::{Entry, EntryKind};

verus! {

/// One line of a directory listing: its text, and the kind of the entry,
/// which decides its colour.
#[derive(Clone, Debug, PartialEq, Eq)]
pub struct DisplayLine {
    pub text: String,
    pub kind: EntryKind,
}

/// Entries laid out in columns, with the cursor at a column and a row.
#[derive(Debug)]
pub struct DirectoryView {
    current_dir_contents: Vec<Entry>,
    cursor_column_index: usize,
    cursor_row_index: usize,
}

/// The entries of column `c` when columns hold `h` rows.
pub open spec fn column_slice(s: Seq<Entry>, c: int, h: int) -> Seq<Entry> {
    let end = if (c + 1) * h < s.len() {
        (c + 1) * h
    } else {
        s.len() as int
    };
    s.subrange(c * h, end)
}

/// `r` is `s` cut into columns of `h` rows, all full but the last.
pub open spec fn is_split_into_columns(r: Seq<Vec<Entry>>, s: Seq<Entry>, h: int) -> bool {
    &&& r.len() == columns(s.len() as int, h)
    &&& forall|c: int| 0 <= c < r.len() ==> (#[trigger] r[c])@ == column_slice(s, c, h)
}

/// The text that shows an entry: a cursor mark or two blanks, then its name.
pub open spec fn shown(e: Entry, with_cursor: bool) -> Seq<char> {
    if with_cursor {
        seq!['>', ' '] + e.name@
    } else {
        seq![' ', ' '] + e.name@
    }
}

/// `l` shows `e`, marked by the cursor or not.
pub open spec fn shows(l: DisplayLine, e: Entry, with_cursor: bool) -> bool {
    l.text@ == shown(e, with_cursor) && l.kind == e.kind
}

/// `r` shows the entries `s` in order, with the cursor at row `cursor`.
pub open spec fn shows_all(r: Seq<DisplayLine>, s: Seq<Entry>, cursor: Option<usize>) -> bool {
    &&& r.len() == s.len()
    &&& forall|i: int| 0 <= i < s.len() ==> shows(#[trigger] r[i], s[i], cursor == Some(i as usize))
}

/// The length in bytes of an entry's name, as `str::len` reports it.
pub open spec fn name_bytes(e: Entry) -> nat {
    encode_utf8(e.name@).len() as usize as nat
}

/// The largest number of bytes in the UTF-8 names of `s`.
pub open spec fn longest_name(s: Seq<Entry>) -> nat
    decreases s.len(),
{
    if s.len() == 0 {
        0
    } else {
        let rest = longest_name(s.drop_last());
        let bytes = name_bytes(s.last());
        if bytes > rest {
            bytes
        } else {
            rest
        }
    }
}

/// Width of a column: its longest name in bytes and eight more, at most
/// `usize::MAX`.
pub open spec fn column_width_of(s: Seq<Entry>) -> int {
    if longest_name(s) + 8 <= usize::MAX {
        longest_name(s) + 8int
    } else {
        usize::MAX as int
    }
}

/// For `h >= 1`, `k` columns with `(k - 1) * h < n <= k * h` are exactly
/// what `n` entries need.
proof fn lemma_columns_unique(n: int, h: int, k: int)
    requires
        n >= 0,
        h >= 1,
        (k - 1) * h < n,
        n <= k * h,
    ensures
        k == columns(n, h),
{
    lemma_columns_is_ceiling(n, h);
    let c = columns(n, h);
    if k < c {
        assert(k * h <= (c - 1) * h) by (nonlinear_arith)
            requires
                k <= c - 1,
                h >= 1,
        ;
    } else if k > c {
        assert(c * h <= (k - 1) * h) by (nonlinear_arith)
            requires
                c <= k - 1,
                h >= 1,
        ;
    }
}

/// The entries `entries[start..end]`.
pub(crate) fn copy_range(entries: &Vec<Entry>, start: usize, end: usize) -> (r: Vec<Entry>)
    requires
        start <= end <= entries@.len(),
    ensures
        r@ == entries@.subrange(start as int, end as int),
{
    let mut r: Vec<Entry> = Vec::new();
    let mut i: usize = start;
    while i < end
        invariant
            start <= i <= end,
            end <= entries@.len(),
            r@ == entries@.subrange(start as int, i as int),
        decreases end - i,
    {
        r.push(entries[i].duplicate());
        proof {
            assert(r@ =~= entries@.subrange(start as int, i + 1));
        }
        i = i + 1;
    }
    r
}

/// `entries` cut into columns of `column_height` rows.
pub fn entries_in_columns(entries: &Vec<Entry>, column_height: usize) -> (r: Vec<Vec<Entry>>)
    requires
        column_height >= 1,
    ensures
        is_split_into_columns(r@, entries@, column_height as int),
{
    let n = entries.len();
    let h = column_height;
    let mut r: Vec<Vec<Entry>> = Vec::new();
    let mut start: usize = 0;
    proof {
        assert(r@.len() * h == 0) by (nonlinear_arith)
            requires
                r@.len() == 0,
        ;
    }
    while start < n
        invariant
            n == entries@.len(),
            h >= 1,
            start <= n,
            start < n ==> start == r@.len() * h,
            r@.len() > 0 ==> start > 0,
            start == n ==> (r@.len() - 1) * h < n <= r@.len() * h || n == 0,
            forall|c: int| 0 <= c < r@.len() ==> (#[trigger] r@[c])@ == column_slice(entries@, c, h as int),
        decreases n - start,
    {
        let ghost k = r@.len() as int;
        let end = if n - start > h {
            start + h
        } else {
            n
        };
        proof {
            assert((k + 1) * h == k * h + h) by (nonlinear_arith);
        }
        let column = copy_range(entries, start, end);
        r.push(column);
        start = end;
    }
    proof {
        if n > 0 {
            lemma_columns_unique(n as int, h as int, r@.len() as int);
        } else {
            assert(r@.len() == 0);
        }
    }
    r
}

/// The line that shows `entity`, marked by the cursor or not.
pub fn format_path_with_cursor(entity: &Entry, with_cursor: bool) -> (r: DisplayLine)
    ensures
        shows(r, *entity, with_cursor),
{
    let mut text = if with_cursor {
        String::from_str("> ")
    } else {
        String::from_str("  ")
    };
    text.append(entity.name.as_str());
    proof {
        reveal_strlit("> ");
        reveal_strlit("  ");
        assert(text@ =~= shown(*entity, with_cursor));
    }
    DisplayLine { text, kind: entity.kind }
}

/// The line that shows `entity` without the cursor.
pub fn format_path(entity: &Entry) -> (r: DisplayLine)
    ensures
        shows(r, *entity, false),
{
    format_path_with_cursor(entity, false)
}

/// The lines that show `current_dir_contents`, the one at `cursor_row_index`
/// marked by the cursor.
pub fn get_formatted_paths(current_dir_contents: &Vec<Entry>, cursor_row_index: Option<usize>) -> (r: Vec<DisplayLine>)
    ensures
        shows_all(r@, current_dir_contents@, cursor_row_index),
{
    let n = current_dir_contents.len();
    let mut r: Vec<DisplayLine> = Vec::new();
    let mut i: usize = 0;
    while i < n
        invariant
            n == current_dir_contents@.len(),
            i <= n,
            r@.len() == i,
            forall|k: int| 0 <= k < i ==> shows(#[trigger] r@[k], current_dir_contents@[k], cursor_row_index == Some(k as usize)),
        decreases n - i,
    {
        let marked = match cursor_row_index {
            Some(row) => row == i,
            None => false,
        };
        r.push(format_path_with_cursor(&current_dir_contents[i], marked));
        i = i + 1;
    }
    r
}

/// Width of a column of entries: the bytes of its longest name and eight more.
pub fn column_width(column: &Vec<Entry>) -> (r: usize)
    ensures
        r == column_width_of(column@),
{
    let mut longest: usize = 0;
    let mut i: usize = 0;
    while i < column.len()
        invariant
            i <= column@.len(),
            longest == longest_name(column@.subrange(0, i as int)),
        decreases column@.len() - i,
    {
        let bytes = column[i].name.as_str().len();
        proof {
            assert(column@.subrange(0, i + 1).drop_last() =~= column@.subrange(0, i as int));
        }
        if bytes > longest {
            longest = bytes;
        }
        i = i + 1;
    }
    proof {
        assert(column@.subrange(0, column@.len() as int) =~= column@);
    }
    longest.saturating_add(8)
}

impl DirectoryView {
    /// A view of `current_dir_contents` with the cursor at the given column
    /// and row.
    pub fn new(current_dir_contents: Vec<Entry>, cursor_column_index: usize, cursor_row_index: usize) -> (r: DirectoryView)
        ensures
            r.contents() == current_dir_contents@,
            r.cursor_column() == cursor_column_index,
            r.cursor_row() == cursor_row_index,
    {
        DirectoryView { current_dir_contents, cursor_column_index, cursor_row_index }
    }

    /// The entries shown.
    pub closed spec fn contents(&self) -> Seq<Entry> {
        self.current_dir_contents@
    }

    /// The column of the cursor.
    pub closed spec fn cursor_column(&self) -> usize {
        self.cursor_column_index
    }

    /// The row of the cursor.
    pub closed spec fn cursor_row(&self) -> usize {
        self.cursor_row_index
    }

    /// The entries cut into columns of `column_height` rows.
    pub fn get_dir_contents_as_columns(&self, column_height: u16) -> (r: Vec<Vec<Entry>>)
        requires
            column_height >= 1,
        ensures
            is_split_into_columns(r@, self.contents(), column_height as int),
    {
        entries_in_columns(&self.current_dir_contents, column_height as usize)
    }

    /// The lines of each column of `column_height` rows; in the cursor's
    /// column the line at the cursor's row is marked.
    pub fn formatted_columns(&self, column_height: u16) -> (r: Vec<Vec<DisplayLine>>)
        requires
            column_height >= 1,
        ensures
            r@.len() == columns(self.contents().len() as int, column_height as int),
            forall|c: int| 0 <= c < r@.len() ==> shows_all(
                (#[trigger] r@[c])@,
                column_slice(self.contents(), c, column_height as int),
                if c == self.cursor_column() { Some(self.cursor_row()) } else { None },
            ),
    {
        let columns = self.get_dir_contents_as_columns(column_height);
        let mut r: Vec<Vec<DisplayLine>> = Vec::new();
        let mut c: usize = 0;
        while c < columns.len()
            invariant
                is_split_into_columns(columns@, self.contents(), column_height as int),
                c <= columns@.len(),
                r@.len() == c,
                forall|k: int| 0 <= k < c ==> shows_all(
                    (#[trigger] r@[k])@,
                    column_slice(self.contents(), k, column_height as int),
                    if k == self.cursor_column() { Some(self.cursor_row()) } else { None },
                ),
            decreases columns@.len() - c,
        {
            let cursor = if c == self.cursor_column_index {
                Some(self.cursor_row_index)
            } else {
                None
            };
            r.push(get_formatted_paths(&columns[c], cursor));
            c = c + 1;
        }
        r
    }
}

} // verus!
