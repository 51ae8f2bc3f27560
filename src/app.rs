//! The navigation state: where the browser is, what it shows, and which entry
//! is selected at each depth of the path.
use vstd::prelude::*;

use crate::grid::{column_and_row, column_of, left_of, move_left, move_right, right_of, row_of};
use crate::directory_view::{copy_range, entries_in_columns, is_split_into_columns, DirectoryView};
use crate::listing::{is_sorted_listing, sort_listing, Entry, EntryKind};

verus! {

/// A command from the user, already told apart from the raw input.
#[derive(Clone, Copy, Debug, PartialEq, Eq, Structural)]
pub enum Command {
    Quit,
    MoveUp,
    MoveDown,
    MoveLeft,
    MoveRight,
    Activate,
    Back,
    TogglePreview,
}

/// What the caller has to do after a command: nothing, or read the directory
/// at the given path and hand the listing to `go_into_dir` or `go_out_of_dir`.
#[derive(Debug, PartialEq, Eq)]
pub enum Action {
    Stay,
    EnterDirectory(Vec<String>),
    LeaveDirectory(Vec<String>),
}

/// The state of the browser.
#[derive(Debug)]
pub struct App {
    exit: bool,
    current_dir_path: Vec<String>,
    current_dir_contents: Vec<Entry>,
    cursor_positions: Vec<usize>,
    current_cursor_depth: usize,
    view_file: bool,
}

/// The browser's state as a value: the path below the root as its segments,
/// the entries of the directory shown, and one cursor per depth of the path.
pub struct Navigation {
    pub exit: bool,
    pub path: Seq<String>,
    pub contents: Seq<Entry>,
    pub cursors: Seq<usize>,
    pub depth: int,
    pub preview: bool,
}

/// Rows of the viewport left for entries in a frame of the given height: the
/// border takes two and the current path one.
pub open spec fn column_height(frame_height: int) -> int {
    if frame_height >= 3 {
        frame_height - 3
    } else {
        0
    }
}

/// A cursor kept where it was when it still points into `n` entries, else
/// moved to the last of them (to 0 when there are none).
pub open spec fn clamp(c: usize, n: int) -> usize {
    if (c as int) < n {
        c
    } else if n == 0 {
        0
    } else {
        (n - 1) as usize
    }
}

impl Navigation {
    /// One cursor per depth, and the cursor of the current depth on an entry
    /// (at 0 when there is none).
    pub open spec fn wf(self) -> bool {
        &&& self.depth == self.path.len()
        &&& self.cursors.len() == self.depth + 1
        &&& self.contents.len() <= usize::MAX
        &&& self.contents.len() > 0 ==> self.cursor() < self.contents.len()
        &&& self.contents.len() == 0 ==> self.cursor() == 0
    }

    /// The cursor at the current depth.
    pub open spec fn cursor(self) -> int {
        self.cursors[self.depth] as int
    }

    /// The same state with the cursor of the current depth at `c`.
    pub open spec fn with_cursor(self, c: int) -> Navigation {
        Navigation { cursors: self.cursors.update(self.depth, c as usize), ..self }
    }

    /// The entry under the cursor is a directory.
    pub open spec fn on_dir(self) -> bool {
        self.contents.len() > 0 && self.contents[self.cursor()].kind == EntryKind::Directory
    }

    /// The entry under the cursor is a file.
    pub open spec fn on_file(self) -> bool {
        self.contents.len() > 0 && self.contents[self.cursor()].kind == EntryKind::File
    }

    /// The state after a move up: the previous entry, or the last one from
    /// the first.
    pub open spec fn moved_up(self) -> Navigation {
        if self.contents.len() == 0 {
            self
        } else if self.cursor() == 0 {
            self.with_cursor(self.contents.len() - 1)
        } else {
            self.with_cursor(self.cursor() - 1)
        }
    }

    /// The state after a move down: the next entry, or the first one from
    /// the last.
    pub open spec fn moved_down(self) -> Navigation {
        if self.contents.len() == 0 {
            self
        } else if self.cursor() == self.contents.len() - 1 {
            self.with_cursor(0)
        } else {
            self.with_cursor(self.cursor() + 1)
        }
    }

    /// A horizontal move is possible: there are entries, rows to put them in,
    /// and the grid's arithmetic fits a `usize`.
    pub open spec fn can_move_across(self, h: int) -> bool {
        self.contents.len() > 0 && h >= 1 && self.contents.len() + h <= usize::MAX
    }

    /// The state after a move right in columns of `h` rows.
    pub open spec fn moved_right(self, h: int) -> Navigation {
        if self.can_move_across(h) {
            self.with_cursor(right_of(self.cursor(), self.contents.len() as int, h))
        } else {
            self
        }
    }

    /// The state after a move left in columns of `h` rows.
    pub open spec fn moved_left(self, h: int) -> Navigation {
        if self.can_move_across(h) {
            self.with_cursor(left_of(self.cursor(), self.contents.len() as int, h))
        } else {
            self
        }
    }

    /// The path of the directory under the cursor.
    pub open spec fn selected_path(self) -> Seq<String> {
        self.path.push(self.contents[self.cursor()].name)
    }

    /// The state after descending into the directory under the cursor, whose
    /// entries are `contents`: its cursor starts at 0.
    pub open spec fn entered(self, contents: Seq<Entry>) -> Navigation {
        Navigation {
            path: self.selected_path(),
            contents,
            cursors: self.cursors.push(0),
            depth: self.depth + 1,
            ..self
        }
    }

    /// The state after going back to the parent directory, whose entries are
    /// `contents`: the parent's cursor is the one it had before the descent,
    /// kept on an entry, and the child's is forgotten.
    pub open spec fn exited(self, contents: Seq<Entry>) -> Navigation {
        let cursors = self.cursors.drop_last();
        Navigation {
            path: self.path.drop_last(),
            contents,
            cursors: cursors.update(self.depth - 1, clamp(cursors[self.depth - 1], contents.len() as int)),
            depth: self.depth - 1,
            ..self
        }
    }

    /// The command asks to descend, and the entry under the cursor allows it.
    pub open spec fn enters(self, command: Command) -> bool {
        command == Command::Activate && self.on_dir()
    }

    /// The command asks to go back, and the path allows it.
    pub open spec fn leaves(self, command: Command) -> bool {
        command == Command::Back && self.depth > 0
    }

    /// The state after a command, for a frame of the given height. Descending
    /// and going back change nothing here: they wait for the listing. The
    /// preview is toggled only while there is a selection, and then only over a
    /// file or to hide a preview that is shown.
    pub open spec fn after(self, command: Command, frame_height: int) -> Navigation {
        let h = column_height(frame_height);
        match command {
            Command::Quit => Navigation { exit: true, ..self },
            Command::MoveUp => self.moved_up(),
            Command::MoveDown => self.moved_down(),
            Command::MoveLeft => self.moved_left(h),
            Command::MoveRight => self.moved_right(h),
            Command::Activate => self,
            Command::Back => self,
            Command::TogglePreview => if self.contents.len() > 0 && (self.preview || self.on_file()) {
                Navigation { preview: !self.preview, ..self }
            } else {
                self
            },
        }
    }
}

impl View for App {
    type V = Navigation;

    closed spec fn view(&self) -> Navigation {
        Navigation {
            exit: self.exit,
            path: self.current_dir_path@,
            contents: self.current_dir_contents@,
            cursors: self.cursor_positions@,
            depth: self.current_cursor_depth as int,
            preview: self.view_file,
        }
    }
}

impl Default for App {
    /// A browser at the root with nothing listed.
    fn default() -> (r: App)
        ensures
            r@.wf(),
            r@.path.len() == 0,
            r@.contents.len() == 0,
            r@.cursors == seq![0usize],
            !r@.exit,
            !r@.preview,
    {
        App {
            exit: false,
            current_dir_path: Vec::new(),
            current_dir_contents: Vec::new(),
            cursor_positions: vec![0],
            current_cursor_depth: 0,
            view_file: false,
        }
    }
}

impl App {
    /// A browser showing the directory at `current_dir_path`, given as its
    /// segments below the root, whose entries are `listing`. Every depth's
    /// cursor starts at 0.
    pub fn new(current_dir_path: Vec<String>, listing: Vec<Entry>) -> (r: App)
        requires
            current_dir_path@.len() < usize::MAX,
        ensures
            r@.wf(),
            r@.path == current_dir_path@,
            is_sorted_listing(r@.contents, listing@),
            r@.cursors == Seq::new((current_dir_path@.len() + 1) as nat, |k: int| 0usize),
            !r@.exit,
            !r@.preview,
    {
        let current_dir_contents = sort_listing(listing);
        proof {
            // A vector's length fits a `usize`.
            assert(current_dir_contents.len() == current_dir_contents@.len());
        }
        let current_cursor_depth = current_dir_path.len();
        let mut cursor_positions: Vec<usize> = Vec::new();
        let mut i: usize = 0;
        while i <= current_cursor_depth
            invariant
                current_cursor_depth < usize::MAX,
                i <= current_cursor_depth + 1,
                cursor_positions@ == Seq::new(i as nat, |k: int| 0usize),
            decreases current_cursor_depth + 1 - i,
        {
            cursor_positions.push(0);
            i = i + 1;
        }
        App {
            exit: false,
            current_dir_path,
            current_dir_contents,
            cursor_positions,
            current_cursor_depth,
            view_file: false,
        }
    }

    /// The browser was asked to quit.
    pub fn exit_requested(&self) -> (r: bool)
        ensures
            r == self@.exit,
    {
        self.exit
    }

    /// A preview of the entry under the cursor is shown.
    pub fn preview_shown(&self) -> (r: bool)
        ensures
            r == self@.preview,
    {
        self.view_file
    }

    /// The path of the directory shown, as its segments below the root.
    pub fn current_dir_path(&self) -> (r: &Vec<String>)
        ensures
            r@ == self@.path,
    {
        &self.current_dir_path
    }

    /// The entries of the directory shown.
    pub fn current_dir_contents(&self) -> (r: &Vec<Entry>)
        ensures
            r@ == self@.contents,
    {
        &self.current_dir_contents
    }

    /// How deep the directory shown is below the root.
    pub fn depth(&self) -> (r: usize)
        ensures
            r == self@.depth,
    {
        self.current_cursor_depth
    }

    /// The cursor at the current depth.
    pub fn current_cursor_position(&self) -> (r: usize)
        requires
            self@.wf(),
        ensures
            r == self@.cursor(),
    {
        self.cursor_positions[self.current_cursor_depth]
    }

    /// Column and row of the cursor in columns of the given height.
    pub fn current_cursor_column_and_row(&self, column_height: usize) -> (r: (usize, usize))
        requires
            self@.wf(),
            column_height >= 1,
        ensures
            r.0 == column_of(self@.cursor(), column_height as int),
            r.1 == row_of(self@.cursor(), column_height as int),
    {
        column_and_row(self.current_cursor_position(), column_height)
    }

    /// The entry under the cursor; none when the directory is empty.
    pub fn currently_selected_file(&self) -> (r: Option<&Entry>)
        requires
            self@.wf(),
        ensures
            self@.contents.len() == 0 ==> r.is_none(),
            self@.contents.len() > 0 ==> r == Some(&self@.contents[self@.cursor()]),
    {
        if self.current_dir_contents.len() == 0 {
            None
        } else {
            Some(&self.current_dir_contents[self.current_cursor_position()])
        }
    }

    /// The entry under the cursor is a directory.
    pub fn currently_on_dir(&self) -> (r: bool)
        requires
            self@.wf(),
        ensures
            r == self@.on_dir(),
    {
        match self.currently_selected_file() {
            Some(entry) => entry.kind == EntryKind::Directory,
            None => false,
        }
    }

    /// The entry under the cursor is a file.
    pub fn currently_on_file(&self) -> (r: bool)
        requires
            self@.wf(),
        ensures
            r == self@.on_file(),
    {
        match self.currently_selected_file() {
            Some(entry) => entry.kind == EntryKind::File,
            None => false,
        }
    }

    /// Ask the browser to quit.
    pub fn exit(&mut self)
        ensures
            final(self)@ == (Navigation { exit: true, ..old(self)@ }),
    {
        self.exit = true;
    }

    /// Show the preview when it is hidden, hide it when it is shown.
    pub fn view_file(&mut self)
        ensures
            final(self)@ == (Navigation { preview: !old(self)@.preview, ..old(self)@ }),
    {
        self.view_file = !self.view_file;
    }

    /// Move the cursor up one entry, from the first entry to the last.
    pub fn move_cursor_up(&mut self)
        requires
            old(self)@.wf(),
        ensures
            final(self)@ == old(self)@.moved_up(),
            final(self)@.wf(),
    {
        let n = self.current_dir_contents.len();
        if n == 0 {
            return;
        }
        let depth = self.current_cursor_depth;
        if self.current_cursor_position() == 0 {
            self.cursor_positions.set(depth, n - 1);
        } else {
            let c = self.cursor_positions[depth];
            self.cursor_positions.set(depth, c - 1);
        }
    }

    /// Move the cursor down one entry, from the last entry to the first.
    pub fn move_cursor_down(&mut self)
        requires
            old(self)@.wf(),
        ensures
            final(self)@ == old(self)@.moved_down(),
            final(self)@.wf(),
    {
        let n = self.current_dir_contents.len();
        if n == 0 {
            return;
        }
        let depth = self.current_cursor_depth;
        if self.current_cursor_position() == n - 1 {
            self.cursor_positions.set(depth, 0);
        } else {
            let c = self.cursor_positions[depth];
            self.cursor_positions.set(depth, c + 1);
        }
    }

    /// Move the cursor one column right in a frame of the given height.
    pub fn move_cursor_right(&mut self, frame_height: u16)
        requires
            old(self)@.wf(),
        ensures
            final(self)@ == old(self)@.moved_right(column_height(frame_height as int)),
            final(self)@.wf(),
    {
        let h = frame_height.saturating_sub(3) as usize;
        let n = self.current_dir_contents.len();
        if n == 0 || h == 0 || n > usize::MAX - h {
            return;
        }
        let depth = self.current_cursor_depth;
        let c = self.current_cursor_position();
        let next = move_right(c, n, h);
        self.cursor_positions.set(depth, next);
    }

    /// Move the cursor one column left in a frame of the given height.
    pub fn move_cursor_left(&mut self, frame_height: u16)
        requires
            old(self)@.wf(),
        ensures
            final(self)@ == old(self)@.moved_left(column_height(frame_height as int)),
            final(self)@.wf(),
    {
        let h = frame_height.saturating_sub(3) as usize;
        let n = self.current_dir_contents.len();
        if n == 0 || h == 0 || n > usize::MAX - h {
            return;
        }
        let depth = self.current_cursor_depth;
        let c = self.current_cursor_position();
        let next = move_left(c, n, h);
        self.cursor_positions.set(depth, next);
    }

    /// The path of the directory under the cursor, as its segments.
    pub fn selected_dir_path(&self) -> (r: Vec<String>)
        requires
            self@.wf(),
            self@.contents.len() > 0,
        ensures
            r@ == self@.selected_path(),
    {
        let mut r = self.current_dir_path.clone();
        r.push(self.current_dir_contents[self.current_cursor_position()].name.clone());
        r
    }

    /// The path of the parent directory, as its segments.
    pub fn parent_dir_path(&self) -> (r: Vec<String>)
        requires
            self@.wf(),
            self@.depth > 0,
        ensures
            r@ == self@.path.drop_last(),
    {
        let mut r = self.current_dir_path.clone();
        r.pop();
        proof {
            assert(r@ =~= self@.path.drop_last());
        }
        r
    }

    /// Descend into the directory under the cursor, whose entries are
    /// `listing`. Its cursor starts at 0, whatever it was the last time it was
    /// shown.
    pub fn go_into_dir(&mut self, listing: Vec<Entry>)
        requires
            old(self)@.wf(),
            old(self)@.on_dir(),
        ensures
            is_sorted_listing(final(self)@.contents, listing@),
            final(self)@ == old(self)@.entered(final(self)@.contents),
            final(self)@.wf(),
    {
        let name = self.current_dir_contents[self.current_cursor_position()].name.clone();
        self.current_dir_path.push(name);
        self.current_dir_contents = sort_listing(listing);
        proof {
            // Vector lengths fit a `usize`; the cursors number one more than
            // the depth, so the depth stays below `usize::MAX`.
            assert(self.current_dir_contents.len() == self.current_dir_contents@.len());
            assert(self.cursor_positions.len() == self.cursor_positions@.len());
        }
        self.current_cursor_depth = self.current_cursor_depth + 1;
        self.cursor_positions.push(0);
    }

    /// Go back to the parent directory, whose entries are `listing`. Its
    /// cursor is the one it had before the descent, moved onto the last entry
    /// if the listing has become shorter.
    pub fn go_out_of_dir(&mut self, listing: Vec<Entry>)
        requires
            old(self)@.wf(),
            old(self)@.depth > 0,
        ensures
            is_sorted_listing(final(self)@.contents, listing@),
            final(self)@ == old(self)@.exited(final(self)@.contents),
            final(self)@.wf(),
    {
        self.current_dir_path.pop();
        self.current_dir_contents = sort_listing(listing);
        self.current_cursor_depth = self.current_cursor_depth - 1;
        self.cursor_positions.pop();
        let depth = self.current_cursor_depth;
        let n = self.current_dir_contents.len();
        let c = self.cursor_positions[depth];
        let kept = if c < n {
            c
        } else if n == 0 {
            0
        } else {
            n - 1
        };
        self.cursor_positions.set(depth, kept);
        proof {
            assert(self.current_dir_path@ =~= old(self)@.path.drop_last());
            assert(self@.cursors =~= old(self)@.exited(self@.contents).cursors);
        }
    }

    /// The entries cut into columns of `column_height` rows.
    pub fn get_dir_contents_as_columns(&self, column_height: u16) -> (r: Vec<Vec<Entry>>)
        requires
            column_height >= 1,
        ensures
            is_split_into_columns(r@, self@.contents, column_height as int),
    {
        entries_in_columns(&self.current_dir_contents, column_height as usize)
    }

    /// The entries shown, with the cursor's column and row, in columns of
    /// `column_height` rows.
    pub fn directory_view(&self, column_height: u16) -> (r: DirectoryView)
        requires
            self@.wf(),
            column_height >= 1,
        ensures
            r.contents() == self@.contents,
            r.cursor_column() == column_of(self@.cursor(), column_height as int),
            r.cursor_row() == row_of(self@.cursor(), column_height as int),
    {
        let (column, row) = self.current_cursor_column_and_row(column_height as usize);
        let contents = copy_range(&self.current_dir_contents, 0, self.current_dir_contents.len());
        proof {
            assert(contents@ =~= self.current_dir_contents@);
        }
        DirectoryView::new(contents, column, row)
    }

    /// Apply a command in a frame of the given height. Descending and going
    /// back leave the state as it is and return the path to read; the listing
    /// read there goes to `go_into_dir` or `go_out_of_dir`.
    pub fn handle_command(&mut self, command: Command, frame_height: u16) -> (r: Action)
        requires
            old(self)@.wf(),
        ensures
            final(self)@ == old(self)@.after(command, frame_height as int),
            final(self)@.wf(),
            match r {
                Action::Stay => !old(self)@.enters(command) && !old(self)@.leaves(command),
                Action::EnterDirectory(p) => old(self)@.enters(command) && p@ == old(self)@.selected_path(),
                Action::LeaveDirectory(p) => old(self)@.leaves(command) && p@ == old(self)@.path.drop_last(),
            },
    {
        match command {
            Command::Quit => {
                self.exit();
                Action::Stay
            },
            Command::MoveUp => {
                self.move_cursor_up();
                Action::Stay
            },
            Command::MoveDown => {
                self.move_cursor_down();
                Action::Stay
            },
            Command::MoveLeft => {
                self.move_cursor_left(frame_height);
                Action::Stay
            },
            Command::MoveRight => {
                self.move_cursor_right(frame_height);
                Action::Stay
            },
            Command::Activate => {
                if self.currently_on_dir() {
                    Action::EnterDirectory(self.selected_dir_path())
                } else {
                    Action::Stay
                }
            },
            Command::Back => {
                if self.current_cursor_depth > 0 {
                    Action::LeaveDirectory(self.parent_dir_path())
                } else {
                    Action::Stay
                }
            },
            Command::TogglePreview => {
                if self.current_dir_contents.len() > 0 && (self.view_file || self.currently_on_file()) {
                    self.view_file();
                }
                Action::Stay
            },
        }
    }
}

} // verus!
