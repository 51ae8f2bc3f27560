//! The preview of a file: its first lines, or a line that says why there are
//! none, cut to the width of the pane.
use vstd::prelude::*;
use vstd::string::StrSliceExecFns;

verus! {

/// What reading the start of a file gave.
#[derive(Debug, PartialEq, Eq)]
pub enum FileRead {
    /// The file could not be opened.
    Unopenable,
    /// The file was opened, but reading its lines failed.
    Unreadable,
    /// The lines read from the start of the file.
    Lines(Vec<String>),
}

/// A preview of a file: its name and the lines shown.
#[derive(Debug)]
pub struct FileView {
    file_name: String,
    file_contents: Vec<String>,
}

/// The lines of a preview of height `column_height` after reading `read`:
/// one line that names the failure, or the first `column_height` lines read.
pub open spec fn preview_of(read: FileRead, column_height: int) -> Seq<Seq<char>> {
    match read {
        FileRead::Unopenable => seq!["Unable to read file"@],
        FileRead::Unreadable => seq!["Unable to read contents"@],
        FileRead::Lines(lines) => {
            let n = if lines@.len() <= column_height {
                lines@.len() as int
            } else {
                column_height
            };
            Seq::new(n as nat, |i: int| lines@[i]@)
        },
    }
}

/// The strings `r` hold the texts `s`.
pub open spec fn holds_lines(r: Seq<String>, s: Seq<Seq<char>>) -> bool {
    r.len() == s.len() && forall|i: int| 0 <= i < r.len() ==> (#[trigger] r[i])@ == s[i]
}

/// The first `width` characters of `line`.
pub open spec fn cropped(line: Seq<char>, width: int) -> Seq<char> {
    if line.len() <= width {
        line
    } else {
        line.take(width)
    }
}

/// The lines to preview after reading `read`, for a pane of
/// `column_height` rows.
pub fn get_formatted_file_contents(read: FileRead, column_height: usize) -> (r: Vec<String>)
    ensures
        holds_lines(r@, preview_of(read, column_height as int)),
{
    match read {
        FileRead::Unopenable => {
            vec![String::from_str("Unable to read file")]
        },
        FileRead::Unreadable => {
            vec![String::from_str("Unable to read contents")]
        },
        FileRead::Lines(lines) => {
            let mut lines = lines;
            if lines.len() > column_height {
                lines.truncate(column_height);
            }
            lines
        },
    }
}

/// `line` cut to its first `width` characters, on a character boundary.
pub fn crop_line(line: &String, width: usize) -> (r: String)
    ensures
        r@ == cropped(line@, width as int),
{
    let chars = line.as_str().unicode_len();
    let end = if width < chars {
        width
    } else {
        chars
    };
    let r = String::from_str(line.as_str().substring_char(0, end));
    proof {
        if chars <= width {
            assert(r@ =~= line@);
        }
    }
    r
}

impl FileView {
    /// A preview of the file `file_name` of `column_height` rows after
    /// reading `read`.
    pub fn new(file_name: String, read: FileRead, column_height: usize) -> (r: FileView)
        ensures
            r.name() == file_name@,
            r.lines() == preview_of(read, column_height as int),
    {
        let file_contents = get_formatted_file_contents(read, column_height);
        let r = FileView { file_name, file_contents };
        proof {
            assert(r.lines() =~= preview_of(read, column_height as int));
        }
        r
    }

    /// The name of the file.
    pub closed spec fn name(&self) -> Seq<char> {
        self.file_name@
    }

    /// The lines of the preview.
    pub closed spec fn lines(&self) -> Seq<Seq<char>> {
        Seq::new(self.file_contents@.len(), |i: int| self.file_contents@[i]@)
    }

    /// The name of the file previewed.
    pub fn file_name(&self) -> (r: &String)
        ensures
            r@ == self.name(),
    {
        &self.file_name
    }

    /// The lines of the preview, each cut to `width` characters.
    pub fn cropped_contents(&self, width: usize) -> (r: Vec<String>)
        ensures
            r@.len() == self.lines().len(),
            forall|i: int| 0 <= i < r@.len() ==> (#[trigger] r@[i])@ == cropped(self.lines()[i], width as int),
    {
        let mut r: Vec<String> = Vec::new();
        let mut i: usize = 0;
        while i < self.file_contents.len()
            invariant
                i <= self.file_contents@.len(),
                r@.len() == i,
                forall|k: int| 0 <= k < i ==> (#[trigger] r@[k])@ == cropped(self.lines()[k], width as int),
            decreases self.file_contents@.len() - i,
        {
            r.push(crop_line(&self.file_contents[i], width));
            i = i + 1;
        }
        r
    }
}

} // verus!
