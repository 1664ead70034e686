//! The tab that lists one directory.

use crate::actions::{Action, ActionReturn, Outcome};
use crate::tab::{
    after_all, clip, clipped_pos, clipped_size, least, lemma_valid_after_all, Cursor, Pos, Size,
    Tab,
};
use crate::terminal::Frame;
use vstd::prelude::*;
use vstd::string::{StrSliceExecFns, StringExecFns};

verus! {

/// The equality of `str`, `<str as PartialEq>::eq`.
///
/// Trusted, not proved: two texts are equal exactly when they hold the same
/// characters in the same order.
pub assume_specification[ <str as PartialEq>::eq ](a: &str, b: &str) -> (same: bool)
    ensures
        same == (a@ == b@),
;

/// One child of a directory, as it was when the directory was listed.
#[derive(Debug, PartialEq, Eq)]
pub struct Entry {
    /// The file name, without the directories that lead to it.
    pub name: String,
    /// Whether the child is itself a directory.
    pub is_dir: bool,
}

/// The position of the last `.` in `name`, or -1 where it has none.
pub open spec fn last_dot(name: Seq<char>) -> int
    decreases name.len(),
{
    if name.len() == 0 {
        -1
    } else if name.last() == '.' {
        name.len() - 1
    } else {
        last_dot(name.drop_last())
    }
}

/// The extension of a file name: what follows its last `.`. A name without
/// `.`, one whose only `.` is its first character, and the name `..` have
/// none.
pub open spec fn extension_of(name: Seq<char>) -> Option<Seq<char>> {
    let dot = last_dot(name);
    if dot <= 0 || name == seq!['.', '.'] {
        None
    } else {
        Some(name.subrange(dot + 1, name.len() as int))
    }
}

/// What `last_dot` gives is the position of a `.` that no other `.` follows,
/// or -1 where the name has none.
pub proof fn lemma_last_dot(name: Seq<char>)
    ensures
        -1 <= last_dot(name) < name.len(),
        last_dot(name) >= 0 ==> name[last_dot(name)] == '.',
        forall|j: int| last_dot(name) < j < name.len() ==> name[j] != '.',
    decreases name.len(),
{
    if name.len() > 0 && name.last() != '.' {
        let front = name.drop_last();
        lemma_last_dot(front);
        assert forall|j: int| last_dot(name) < j < name.len() implies name[j] != '.' by {
            if j < front.len() {
                assert(front[j] == name[j]);
            }
        }
    }
}

/// A `.` that no other `.` follows is the one that `last_dot` finds, and a
/// name without `.` has none.
pub proof fn lemma_last_dot_is(name: Seq<char>, dot: int)
    requires
        -1 <= dot < name.len(),
        dot >= 0 ==> name[dot] == '.',
        forall|j: int| dot < j < name.len() ==> name[j] != '.',
    ensures
        last_dot(name) == dot,
{
    lemma_last_dot(name);
}

impl Entry {
    /// The extension of the entry's name, if it has one.
    pub fn extension(&self) -> (ext: Option<&str>)
        ensures
            text_of(ext) == extension_of(self.name@),
    {
        let name = self.name.as_str();
        let len: usize = name.unicode_len();
        let mut count: usize = 0;
        let mut dot: Option<usize> = None;
        for c in it: name.chars()
            invariant
                count == it.index(),
                len == name@.len(),
                it.seq() == name@,
                match dot {
                    Some(d) => d < count && name@[d as int] == '.',
                    None => true,
                },
                forall|j: int|
                    (match dot {
                        Some(d) => d as int,
                        None => -1,
                    }) < j < count ==> name@[j] != '.',
        {
            if c == '.' {
                dot = Some(count);
            }
            count = count + 1;
        }
        match dot {
            None => {
                proof {
                    lemma_last_dot_is(name@, -1);
                }
                None
            },
            Some(d) => {
                proof {
                    lemma_last_dot_is(name@, d as int);
                }
                if d == 0 || name.eq("..") {
                    proof {
                        reveal_strlit("..");
                    }
                    assert(".."@ =~= seq!['.', '.']);
                    None
                } else {
                    assert(name@ != seq!['.', '.']) by {
                        reveal_strlit("..");
                        assert(".."@ =~= seq!['.', '.']);
                    }
                    Some(name.substring_char(d + 1, len))
                }
            },
        }
    }
}

/// The glyph for a file with the given extension.
pub open spec fn extension_icon(ext: Seq<char>) -> char {
    if ext == "rs"@ {
        '\u{e7a8}'
    } else if ext == "toml"@ {
        '\u{f013}'
    } else if ext == "json"@ {
        '\u{e60b}'
    } else if ext == "yaml"@ || ext == "yml"@ {
        '\u{e6a8}'
    } else if ext == "md"@ {
        '\u{eda4}'
    } else if ext == "txt"@ {
        '\u{e64e}'
    } else if ext == "sh"@ || ext == "zsh"@ || ext == "bash"@ {
        '\u{e691}'
    } else if ext == "py"@ {
        '\u{e73c}'
    } else if ext == "c"@ || ext == "h"@ {
        '\u{e61e}'
    } else if ext == "cpp"@ || ext == "hpp"@ {
        '\u{e61d}'
    } else if ext == "go"@ {
        '\u{e627}'
    } else if ext == "java"@ {
        '\u{edaf}'
    } else if ext == "js"@ {
        '\u{e60c}'
    } else if ext == "ts"@ {
        '\u{e628}'
    } else if ext == "html"@ {
        '\u{e60e}'
    } else if ext == "css"@ || ext == "scss"@ {
        '\u{e614}'
    } else if ext == "png"@ || ext == "jpg"@ || ext == "jpeg"@ || ext == "gif"@ || ext == "svg"@ {
        '\u{f02e9}'
    } else if ext == "mp4"@ || ext == "avi"@ || ext == "mkv"@ || ext == "mov"@ {
        '\u{f0567}'
    } else if ext == "mp3"@ || ext == "flac"@ || ext == "wav"@ || ext == "ogg"@ {
        '\u{f001}'
    } else if ext == "zip"@ || ext == "tar"@ || ext == "gz"@ || ext == "7z"@ || ext == "rar"@ {
        '\u{e6aa}'
    } else if ext == "pdf"@ {
        '\u{eaeb}'
    } else {
        '\u{ea7b}'
    }
}

/// The glyph for an entry: one for every directory, else the one for the
/// extension, else the default for a file without extension.
pub open spec fn icon(is_dir: bool, extension: Option<Seq<char>>) -> char {
    if is_dir {
        '\u{e5ff}'
    } else {
        match extension {
            Some(ext) => extension_icon(ext),
            None => '\u{ea7b}',
        }
    }
}

/// The view of an optional text.
pub open spec fn text_of(text: Option<&str>) -> Option<Seq<char>> {
    match text {
        Some(t) => Some(t@),
        None => None,
    }
}

/// Looks up the glyph that stands before an entry's name. The lookup is
/// total: every directory has the folder glyph, and a file has the glyph of
/// its extension, or the default glyph where the extension is unknown or
/// missing.
pub fn get_file_icon(is_dir: bool, extension: Option<&str>) -> (glyph: String)
    ensures
        glyph@ == seq![icon(is_dir, text_of(extension))],
{
    proof {
        reveal_strlit("\u{e5ff}");
        reveal_strlit("\u{e7a8}");
        reveal_strlit("\u{f013}");
        reveal_strlit("\u{e60b}");
        reveal_strlit("\u{e6a8}");
        reveal_strlit("\u{eda4}");
        reveal_strlit("\u{e64e}");
        reveal_strlit("\u{e691}");
        reveal_strlit("\u{e73c}");
        reveal_strlit("\u{e61e}");
        reveal_strlit("\u{e61d}");
        reveal_strlit("\u{e627}");
        reveal_strlit("\u{edaf}");
        reveal_strlit("\u{e60c}");
        reveal_strlit("\u{e628}");
        reveal_strlit("\u{e60e}");
        reveal_strlit("\u{e614}");
        reveal_strlit("\u{f02e9}");
        reveal_strlit("\u{f0567}");
        reveal_strlit("\u{f001}");
        reveal_strlit("\u{e6aa}");
        reveal_strlit("\u{eaeb}");
        reveal_strlit("\u{ea7b}");
    }
    if is_dir {
        return String::from_str("\u{e5ff}");
    }
    let glyph: &'static str = match extension {
        None => "\u{ea7b}",
        Some(ext) => if ext.eq("rs") {
            "\u{e7a8}"
        } else if ext.eq("toml") {
            "\u{f013}"
        } else if ext.eq("json") {
            "\u{e60b}"
        } else if ext.eq("yaml") || ext.eq("yml") {
            "\u{e6a8}"
        } else if ext.eq("md") {
            "\u{eda4}"
        } else if ext.eq("txt") {
            "\u{e64e}"
        } else if ext.eq("sh") || ext.eq("zsh") || ext.eq("bash") {
            "\u{e691}"
        } else if ext.eq("py") {
            "\u{e73c}"
        } else if ext.eq("c") || ext.eq("h") {
            "\u{e61e}"
        } else if ext.eq("cpp") || ext.eq("hpp") {
            "\u{e61d}"
        } else if ext.eq("go") {
            "\u{e627}"
        } else if ext.eq("java") {
            "\u{edaf}"
        } else if ext.eq("js") {
            "\u{e60c}"
        } else if ext.eq("ts") {
            "\u{e628}"
        } else if ext.eq("html") {
            "\u{e60e}"
        } else if ext.eq("css") || ext.eq("scss") {
            "\u{e614}"
        } else if ext.eq("png") || ext.eq("jpg") || ext.eq("jpeg") || ext.eq("gif") || ext.eq("svg") {
            "\u{f02e9}"
        } else if ext.eq("mp4") || ext.eq("avi") || ext.eq("mkv") || ext.eq("mov") {
            "\u{f0567}"
        } else if ext.eq("mp3") || ext.eq("flac") || ext.eq("wav") || ext.eq("ogg") {
            "\u{f001}"
        } else if ext.eq("zip") || ext.eq("tar") || ext.eq("gz") || ext.eq("7z") || ext.eq("rar") {
            "\u{e6aa}"
        } else if ext.eq("pdf") {
            "\u{eaeb}"
        } else {
            "\u{ea7b}"
        },
    };
    String::from_str(glyph)
}

/// What reading one child of a directory gave.
#[derive(Debug, PartialEq, Eq)]
pub enum Child {
    /// The child and its kind are known.
    Resolved(Entry),
    /// The child is there, but what it is could not be found out.
    Unresolved,
}

/// What listing a directory gave.
#[derive(Debug, PartialEq, Eq)]
pub enum Listing {
    /// The directory could not be read.
    Unreadable,
    /// The children, in the order in which they were read.
    Children(Vec<Child>),
}

/// Why a directory tab could not be built.
#[derive(Clone, Copy, Debug, PartialEq, Eq)]
pub enum ConstructError {
    /// The directory could not be read.
    Unreadable,
    /// The child at this position of the listing could not be resolved.
    EntryUnavailable(usize),
}

/// A tab that shows the children of one directory, one per line, each with
/// the glyph of its kind.
///
/// `files` is a snapshot taken when the tab was built. `scroll` is the index
/// of the first entry that is drawn.
#[derive(Debug)]
pub struct Directory {
    pub path: String,
    pub files: Vec<Entry>,
    pub scroll: usize,
    pub pos: Pos,
    pub size: Size,
}

/// Whether every child up to `end` was resolved.
pub open spec fn resolved_up_to(children: Seq<Child>, end: int) -> bool {
    forall|j: int| 0 <= j < end ==> (#[trigger] children[j]) is Resolved
}

/// Where a page down leads from `scroll`: one window further, but not past
/// the last of `len` entries.
pub open spec fn page_down(scroll: usize, height: u16, len: nat) -> usize {
    if len == 0 {
        0
    } else if scroll + height < len {
        (scroll + height) as usize
    } else {
        (len - 1) as usize
    }
}

/// Where a page up leads from `scroll`: one window back, but not before the
/// first entry.
pub open spec fn page_up(scroll: usize, height: u16) -> usize {
    if scroll >= height {
        (scroll - height) as usize
    } else {
        0
    }
}

impl Directory {
    /// Builds the tab from what listing `path` gave. There is no tab over a
    /// directory that could not be read, nor over a listing with a child that
    /// could not be resolved: the first such child is reported.
    pub fn new(path: String, listing: Listing, pos: Pos, size: Size) -> (result: Result<
        Directory,
        ConstructError,
    >)
        ensures
            match result {
                Ok(tab) => {
                    &&& listing matches Listing::Children(children)
                    &&& resolved_up_to(children@, children@.len() as int)
                    &&& tab.files@.len() == children@.len()
                    &&& forall|j: int|
                        0 <= j < children@.len() ==> children@[j] == Child::Resolved(
                            #[trigger] tab.files@[j],
                        )
                    &&& tab.path == path
                    &&& tab.scroll == 0
                    &&& tab.pos == pos
                    &&& tab.size == size
                    &&& tab.scroll_in_bounds()
                },
                Err(ConstructError::Unreadable) => listing is Unreadable,
                Err(ConstructError::EntryUnavailable(at)) => {
                    &&& listing matches Listing::Children(children)
                    &&& at < children@.len()
                    &&& children@[at as int] is Unresolved
                    &&& resolved_up_to(children@, at as int)
                },
            },
    {
        match listing {
            Listing::Unreadable => Err(ConstructError::Unreadable),
            Listing::Children(children) => {
                let ghost all = children@;
                let count: usize = children.len();
                let mut files: Vec<Entry> = Vec::new();
                let mut at: usize = 0;
                for child in it: children
                    invariant
                        listing matches Listing::Children(given) && given@ == all,
                        all.len() == count,
                        it.seq() == all,
                        at == it.index(),
                        files@.len() == at,
                        resolved_up_to(all, at as int),
                        forall|j: int|
                            0 <= j < at ==> all[j] == Child::Resolved(#[trigger] files@[j]),
                {
                    match child {
                        Child::Resolved(entry) => {
                            files.push(entry);
                        },
                        Child::Unresolved => {
                            return Err(ConstructError::EntryUnavailable(at));
                        },
                    }
                    at = at + 1;
                }
                Ok(Directory { path, files, scroll: 0, pos, size })
            },
        }
    }

    /// The invariant of the scroll offset: it is the index of an entry, or
    /// zero where there is none.
    pub open spec fn scroll_in_bounds(&self) -> bool {
        if self.files@.len() == 0 {
            self.scroll == 0
        } else {
            self.scroll < self.files@.len()
        }
    }

    /// How many entries are drawn: those from `scroll` on, as far as the
    /// height of the region goes.
    pub open spec fn visible_rows(&self) -> nat {
        if self.scroll < self.files@.len() {
            least(self.size.height as int, self.files@.len() - self.scroll) as nat
        } else {
            0
        }
    }

    /// The line for the entry at `index`: its glyph, a space, its name.
    pub open spec fn line(&self, index: int) -> Seq<char> {
        let entry = self.files@[index];
        seq![icon(entry.is_dir, extension_of(entry.name@)), ' '] + entry.name@
    }

    /// What the first `rows` lines of the window queue, from the top down.
    pub open spec fn drawn(&self, origin: Pos, bounds: Size, rows: nat) -> Seq<char>
        decreases rows,
    {
        if rows == 0 {
            Seq::empty()
        } else {
            let row = (rows - 1) as nat;
            self.drawn(origin, bounds, row) + crate::terminal::placed(
                origin,
                bounds,
                0,
                row as u16,
                self.line(self.scroll + row),
            )
        }
    }

    /// The path of the entry at `index`: the directory's path, a `/`, the
    /// entry's name.
    pub open spec fn child_path(&self, index: int) -> Seq<char> {
        self.path@ + seq!['/'] + self.files@[index].name@
    }

    /// No sequence of actions takes the scroll offset of a tab out of bounds:
    /// it stays the index of an entry, or zero where there is none.
    pub proof fn lemma_scroll_always_in_bounds(self, actions: Seq<Action>)
        requires
            self.scroll_in_bounds(),
        ensures
            after_all(self, actions).scroll_in_bounds(),
    {
        lemma_valid_after_all(self, actions);
    }
}

impl Tab for Directory {
    open spec fn wf(&self) -> bool {
        self.scroll_in_bounds()
    }

    open spec fn pos(&self) -> Pos {
        self.pos
    }

    open spec fn size(&self) -> Size {
        self.size
    }

    open spec fn name(&self) -> Seq<char> {
        self.path@
    }

    open spec fn cursor(&self) -> Option<Cursor> {
        None
    }

    open spec fn rendering(&self, origin: Pos, bounds: Size) -> Seq<char> {
        self.drawn(origin, bounds, self.visible_rows())
    }

    open spec fn recognizes(&self, action: Action) -> bool {
        match action {
            Action::MoveUp | Action::MoveDown | Action::Select | Action::Open | Action::Close
            | Action::Resize(_) => true,
            Action::Insert(_) => false,
        }
    }

    proof fn lemma_valid_stays_valid(&self, action: Action) {
    }

    proof fn lemma_unrecognized_is_ignored(&self, action: Action) {
    }

    proof fn lemma_resize_clips(&self, terminal: Size) {
    }

    proof fn lemma_region_is_kept(&self, action: Action) {
    }

    /// The tab after one action.
    open spec fn after(&self, action: Action) -> Directory {
        match action {
            Action::MoveUp => Directory { scroll: page_up(self.scroll, self.size.height), ..*self },
            Action::MoveDown => Directory {
                scroll: page_down(self.scroll, self.size.height, self.files@.len()),
                ..*self
            },
            Action::Resize(terminal) => Directory {
                pos: clipped_pos(self.pos, terminal),
                size: clipped_size(self.pos, self.size, terminal),
                ..*self
            },
            _ => *self,
        }
    }

    /// What the tab answers to one action.
    open spec fn answer(&self, action: Action) -> Seq<Outcome> {
        match action {
            Action::Open | Action::Select => if self.scroll < self.files@.len() {
                seq![Outcome::SpawnTab(self.child_path(self.scroll as int))]
            } else {
                seq![Outcome::Good]
            },
            Action::Close => seq![Outcome::CloseTab],
            _ => seq![Outcome::Good],
        }
    }

    /// Draws the entries of the window, one per line from line 0 on: the
    /// entry at `scroll` first, and no more lines than the region is high.
    fn render(&self, frame: &mut Frame) {
        let len: usize = self.files.len();
        if self.scroll < len {
            let left: usize = len - self.scroll;
            let rows: u16 = if left < self.size.height as usize {
                left as u16
            } else {
                self.size.height
            };
            let mut row: u16 = 0;
            assert(frame.output@ =~= old(frame).output@ + self.drawn(frame.origin, frame.bounds, 0));
            while row < rows
                invariant
                    row <= rows,
                    rows == self.visible_rows(),
                    self.files@.len() <= usize::MAX,
                    self.scroll + rows <= self.files@.len(),
                    frame.origin == old(frame).origin,
                    frame.bounds == old(frame).bounds,
                    frame.output@ == old(frame).output@ + self.drawn(
                        frame.origin,
                        frame.bounds,
                        row as nat,
                    ),
                decreases rows - row,
            {
                let entry = &self.files[self.scroll + row as usize];
                let mut text = get_file_icon(entry.is_dir, entry.extension());
                text.append(" ");
                text.append(entry.name.as_str());
                proof {
                    reveal_strlit(" ");
                    assert(text@ =~= self.line(self.scroll + row));
                }
                frame.print_at(0, row, text.as_str());
                row = row + 1;
                assert(frame.output@ =~= old(frame).output@ + self.drawn(
                    frame.origin,
                    frame.bounds,
                    row as nat,
                ));
            }
        } else {
            assert(frame.output@ =~= old(frame).output@ + self.drawn(frame.origin, frame.bounds, 0));
        }
    }

    /// A directory listing has no cursor.
    fn get_cursor(&self) -> (cursor: Option<Cursor>) {
        None
    }

    /// The path of the directory.
    fn get_name(&self) -> (name: String) {
        self.path.clone()
    }

    fn get_pos(&self) -> (pos: Pos) {
        self.pos
    }

    fn get_size(&self) -> (size: Size) {
        self.size
    }

    /// `MoveUp` and `MoveDown` scroll by one page. `Open` and `Select` ask
    /// for a tab over the first entry of the window, if there is one. `Close`
    /// asks for the tab to be closed.
    fn process_action(&mut self, action: &Action) -> (outcomes: Vec<ActionReturn>)
    {
        let mut outcomes: Vec<ActionReturn> = Vec::new();
        match action {
            Action::MoveUp => {
                let page: usize = self.size.height as usize;
                self.scroll = if self.scroll >= page {
                    self.scroll - page
                } else {
                    0
                };
                outcomes.push(ActionReturn::Good);
            },
            Action::MoveDown => {
                let len: usize = self.files.len();
                let page: usize = self.size.height as usize;
                self.scroll = if len == 0 {
                    0
                } else if self.scroll < len && page < len - self.scroll {
                    self.scroll + page
                } else {
                    len - 1
                };
                outcomes.push(ActionReturn::Good);
            },
            Action::Open | Action::Select => {
                if self.scroll < self.files.len() {
                    let mut target = self.path.clone();
                    target.append("/");
                    target.append(self.files[self.scroll].name.as_str());
                    proof {
                        reveal_strlit("/");
                        assert(target@ =~= self.child_path(self.scroll as int));
                    }
                    outcomes.push(ActionReturn::SpawnTab(target));
                } else {
                    outcomes.push(ActionReturn::Good);
                }
            },
            Action::Close => {
                outcomes.push(ActionReturn::CloseTab);
            },
            Action::Resize(terminal) => {
                let region = clip(self.pos, self.size, *terminal);
                self.pos = region.0;
                self.size = region.1;
                outcomes.push(ActionReturn::Good);
            },
            Action::Insert(_) => {
                outcomes.push(ActionReturn::Good);
            },
        }
        assert(outcomes.deep_view() =~= old(self).answer(*action));
        outcomes
    }
}

} // verus!
