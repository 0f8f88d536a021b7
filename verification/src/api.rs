//! Where the imageboard serves its pages, media and JSON API.
use vstd::prelude::*;
use vstd::string::StringExecFns;
use crate::text::{decimal, push_decimal};

verus! {

/// A supported imageboard.
#[derive(Clone, Copy, PartialEq, Eq, Debug, Structural)]
pub enum ChanProvider {
    FourChan,
}

/// The imageboard called `name`; `default` names 4chan.
pub fn from_name(name: &str) -> (r: Option<ChanProvider>)
    ensures
        r is Some <==> (name@ == "4chan"@ || name@ == "default"@),
        r matches Some(p) ==> p == ChanProvider::FourChan,
{
    let four = "4chan";
    let default = "default";
    if str_eq(name, four) || str_eq(name, default) {
        Some(ChanProvider::FourChan)
    } else {
        None
    }
}

/// String slice equality.
pub fn str_eq(a: &str, b: &str) -> (r: bool)
    ensures
        r == (a@ == b@),
{
    let x = a.to_owned();
    let y = b.to_owned();
    x == y
}

/// The web page of a board.
pub open spec fn board_url(board: Seq<char>) -> Seq<char> {
    "https://boards.4chan.org/"@ + board + "/"@
}

/// The web page of a thread.
pub open spec fn thread_url(board: Seq<char>, no: nat) -> Seq<char> {
    "https://boards.4chan.org/"@ + board + "/thread/"@ + decimal(no)
}

/// The web page of a thread, scrolled to one of its posts.
pub open spec fn post_url(board: Seq<char>, no: nat, post_no: nat) -> Seq<char> {
    thread_url(board, no) + "#p"@ + decimal(post_no)
}

/// The location of an uploaded file.
pub open spec fn file_url(board: Seq<char>, file: Seq<char>) -> Seq<char> {
    "https://i.4cdn.org/"@ + board + "/"@ + file
}

/// The API listing of all boards.
pub open spec fn boards_api_url() -> Seq<char> {
    "https://a.4cdn.org/boards.json"@
}

/// The API listing of one page of a board's threads.
pub open spec fn threads_api_url(board: Seq<char>, page: nat) -> Seq<char> {
    "https://a.4cdn.org/"@ + board + "/"@ + decimal(page) + ".json"@
}

/// The API listing of one thread's posts.
pub open spec fn thread_api_url(board: Seq<char>, no: nat) -> Seq<char> {
    "https://a.4cdn.org/"@ + board + "/thread/"@ + decimal(no) + ".json"@
}

impl ChanProvider {
    pub fn url_board(&self, board: &str) -> (r: String)
        ensures
            r@ == board_url(board@),
    {
        let mut s = "https://boards.4chan.org/".to_owned();
        s.append(board);
        s.append("/");
        s
    }

    pub fn url_thread(&self, board: &str, no: u64) -> (r: String)
        ensures
            r@ == thread_url(board@, no as nat),
    {
        let mut s = "https://boards.4chan.org/".to_owned();
        s.append(board);
        s.append("/thread/");
        push_decimal(&mut s, no);
        s
    }

    pub fn url_thread_post(&self, board: &str, no: u64, post_no: u64) -> (r: String)
        ensures
            r@ == post_url(board@, no as nat, post_no as nat),
    {
        let mut s = self.url_thread(board, no);
        s.append("#p");
        push_decimal(&mut s, post_no);
        s
    }

    pub fn url_file(&self, board: &str, file: &str) -> (r: String)
        ensures
            r@ == file_url(board@, file@),
    {
        let mut s = "https://i.4cdn.org/".to_owned();
        s.append(board);
        s.append("/");
        s.append(file);
        s
    }

    pub fn boards(&self) -> (r: String)
        ensures
            r@ == boards_api_url(),
    {
        "https://a.4cdn.org/boards.json".to_owned()
    }

    pub fn threads(&self, board: &str, page: u8) -> (r: String)
        ensures
            r@ == threads_api_url(board@, page as nat),
    {
        let mut s = "https://a.4cdn.org/".to_owned();
        s.append(board);
        s.append("/");
        push_decimal(&mut s, page as u64);
        s.append(".json");
        s
    }

    pub fn thread(&self, board: &str, no: u64) -> (r: String)
        ensures
            r@ == thread_api_url(board@, no as nat),
    {
        let mut s = "https://a.4cdn.org/".to_owned();
        s.append(board);
        s.append("/thread/");
        push_decimal(&mut s, no);
        s.append(".json");
        s
    }
}

} // verus!
