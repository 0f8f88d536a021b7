//! The three Miller columns: boards, the threads of a board, and the posts of
//! a thread.
use vstd::prelude::*;
use vstd::string::StringExecFns;
use crate::component::ListSelection;
use crate::format::{format_html, html_text};
use crate::model::{Board, Thread, ThreadPost};
use crate::text::{lowercase_of, to_lowercase};

verus! {

/// The searchable text of a board row: `/name/ title`.
pub open spec fn board_text(b: Board) -> Seq<char> {
    "/"@ + b.board@ + "/ "@ + b.title@
}

/// The searchable text of a thread row: the plain subject and comment of its
/// opening post, separated by a space (empty for a thread without posts).
pub open spec fn thread_text(t: Thread) -> Seq<char> {
    if t.posts@.len() > 0 {
        html_text(t.posts@[0].sub@) + " "@ + html_text(t.posts@[0].com@)
    } else {
        Seq::empty()
    }
}

/// The searchable text of a post row: its plain comment.
pub open spec fn post_text(p: ThreadPost) -> Seq<char> {
    html_text(p.com@)
}

/// The boards column.
pub struct BoardsPane {
    pub items: Vec<Board>,
    pub state: ListSelection,
    pub height: usize,
}

/// The threads column.
pub struct ThreadsPane {
    pub items: Vec<Thread>,
    pub state: ListSelection,
    pub height: usize,
}

/// The posts column.
pub struct RepliesPane {
    pub items: Vec<ThreadPost>,
    pub state: ListSelection,
    pub height: usize,
}

impl BoardsPane {
    /// A column over `items` with nothing selected.
    pub fn new(items: Vec<Board>) -> (r: BoardsPane)
        ensures
            r.items@ == items@,
            r.state.selected is None,
            r.height == 1,
    {
        BoardsPane { items, state: ListSelection::new(), height: 1 }
    }

    pub fn len(&self) -> (r: usize)
        ensures
            r == self.items@.len(),
    {
        self.items.len()
    }

    /// Lowercased searchable text of row `index`.
    pub fn match_text(&self, index: usize) -> (r: String)
        requires
            index < self.items@.len(),
        ensures
            r@ == lowercase_of(board_text(self.items@[index as int])),
    {
        let b = &self.items[index];
        let mut s = "/".to_owned();
        s.append(b.board.as_str());
        s.append("/ ");
        s.append(b.title.as_str());
        to_lowercase(s.as_str())
    }
}

impl ThreadsPane {
    /// A column over `items` with nothing selected.
    pub fn new(items: Vec<Thread>) -> (r: ThreadsPane)
        ensures
            r.items@ == items@,
            r.state.selected is None,
            r.height == 1,
    {
        ThreadsPane { items, state: ListSelection::new(), height: 1 }
    }

    pub fn len(&self) -> (r: usize)
        ensures
            r == self.items@.len(),
    {
        self.items.len()
    }

    /// Lowercased searchable text of row `index`.
    pub fn match_text(&self, index: usize) -> (r: String)
        requires
            index < self.items@.len(),
        ensures
            r@ == lowercase_of(thread_text(self.items@[index as int])),
    {
        let t = &self.items[index];
        let mut s = String::new();
        if t.posts.len() > 0 {
            let op = &t.posts[0];
            s = format_html(op.sub.as_str());
            s.append(" ");
            let com = format_html(op.com.as_str());
            s.append(com.as_str());
        }
        to_lowercase(s.as_str())
    }
}

impl RepliesPane {
    /// A column over `items` with nothing selected.
    pub fn new(items: Vec<ThreadPost>) -> (r: RepliesPane)
        ensures
            r.items@ == items@,
            r.state.selected is None,
            r.height == 1,
    {
        RepliesPane { items, state: ListSelection::new(), height: 1 }
    }

    pub fn len(&self) -> (r: usize)
        ensures
            r == self.items@.len(),
    {
        self.items.len()
    }

    /// Lowercased searchable text of row `index`.
    pub fn match_text(&self, index: usize) -> (r: String)
        requires
            index < self.items@.len(),
        ensures
            r@ == lowercase_of(post_text(self.items@[index as int])),
    {
        let com = format_html(self.items[index].com.as_str());
        to_lowercase(com.as_str())
    }
}

} // verus!
