//! Boards, threads and posts as the imageboard API describes them, and the
//! page cursor of a thread list.
use vstd::prelude::*;
use std::collections::HashMap;
use crate::format::{format_html, html_text};

verus! {

/// Per-board posting cooldowns, in seconds.
pub struct Cooldowns {
    pub threads: u32,
    pub replies: u32,
    pub images: u32,
}

impl Default for Cooldowns {
    fn default() -> (r: Cooldowns)
        ensures
            r.threads == 0 && r.replies == 0 && r.images == 0,
    {
        Cooldowns { threads: 0, replies: 0, images: 0 }
    }
}

/// A board, with the fields of the boards listing. Every field defaults to
/// zero, empty or absent when the listing leaves it out.
pub struct Board {
    pub board: String,
    pub title: String,
    pub meta_description: String,
    pub per_page: u32,
    pub pages: u32,
    pub bump_limit: u32,
    pub ws_board: u8,
    pub image_limit: u32,
    pub max_filesize: u64,
    pub max_webm_filesize: u64,
    pub max_comment_chars: u32,
    pub max_webm_duration: u32,
    pub cooldowns: Cooldowns,
    pub board_flags: Option<HashMap<String, String>>,
    pub spoilers: Option<u8>,
    pub custom_spoilers: Option<u8>,
    pub is_archived: Option<u8>,
    pub country_flags: Option<u8>,
    pub user_ids: Option<u8>,
    pub oekaki: Option<u8>,
    pub sjis_tags: Option<u8>,
    pub code_tags: Option<u8>,
    pub math_tags: Option<u8>,
    pub text_only: Option<u8>,
    pub forced_anon: Option<u8>,
    pub webm_audio: Option<u8>,
    pub require_subject: Option<u8>,
    pub min_image_width: Option<u32>,
    pub min_image_height: Option<u32>,
}

impl Default for Board {
    fn default() -> (r: Board)
        ensures
            r.board@ == Seq::<char>::empty(),
            r.title@ == Seq::<char>::empty(),
            r.meta_description@ == Seq::<char>::empty(),
            r.per_page == 0,
            r.pages == 0,
            r.bump_limit == 0,
            r.ws_board == 0,
            r.image_limit == 0,
            r.max_filesize == 0,
            r.max_webm_filesize == 0,
            r.max_comment_chars == 0,
            r.max_webm_duration == 0,
            r.cooldowns.threads == 0 && r.cooldowns.replies == 0 && r.cooldowns.images == 0,
            r.board_flags is None,
            r.spoilers is None,
            r.custom_spoilers is None,
            r.is_archived is None,
            r.country_flags is None,
            r.user_ids is None,
            r.oekaki is None,
            r.sjis_tags is None,
            r.code_tags is None,
            r.math_tags is None,
            r.text_only is None,
            r.forced_anon is None,
            r.webm_audio is None,
            r.require_subject is None,
            r.min_image_width is None,
            r.min_image_height is None,
    {
        Board {
            board: String::new(),
            title: String::new(),
            meta_description: String::new(),
            per_page: 0,
            pages: 0,
            bump_limit: 0,
            ws_board: 0,
            image_limit: 0,
            max_filesize: 0,
            max_webm_filesize: 0,
            max_comment_chars: 0,
            max_webm_duration: 0,
            cooldowns: Cooldowns::default(),
            board_flags: None,
            spoilers: None,
            custom_spoilers: None,
            is_archived: None,
            country_flags: None,
            user_ids: None,
            oekaki: None,
            sjis_tags: None,
            code_tags: None,
            math_tags: None,
            text_only: None,
            forced_anon: None,
            webm_audio: None,
            require_subject: None,
            min_image_width: None,
            min_image_height: None,
        }
    }
}

impl Board {
    /// The board's short name, such as `g`.
    pub fn board(&self) -> (r: &str)
        ensures
            r@ == self.board@,
    {
        self.board.as_str()
    }

    pub fn title(&self) -> (r: &str)
        ensures
            r@ == self.title@,
    {
        self.title.as_str()
    }

    pub fn meta_description(&self) -> (r: &str)
        ensures
            r@ == self.meta_description@,
    {
        self.meta_description.as_str()
    }

    pub fn per_page(&self) -> (r: u32)
        ensures
            r == self.per_page,
    {
        self.per_page
    }

    pub fn pages(&self) -> (r: u32)
        ensures
            r == self.pages,
    {
        self.pages
    }

    pub fn bump_limit(&self) -> (r: u32)
        ensures
            r == self.bump_limit,
    {
        self.bump_limit
    }
}

/// The page a thread list starts on.
pub const FIRST_PAGE: u8 = 1;

/// A board's page count as the eight-bit page cursor sees it (the count
/// taken modulo 256).
pub open spec fn page_count(board: &Board) -> u8 {
    (board.pages % 256) as u8
}

/// The page after `page`: the first page after the last one.
pub open spec fn next_page_of(page: u8, count: u8) -> u8 {
    if page == count { FIRST_PAGE } else { (page + 1) as u8 }
}

/// The page before `page`: the last page before the first one.
pub open spec fn prev_page_of(page: u8, count: u8) -> u8 {
    if page == FIRST_PAGE { count } else { (page - 1) as u8 }
}

/// Moving forward from `page` stays within the eight-bit cursor.
pub open spec fn can_page_forward(page: u8, count: u8) -> bool {
    page == count || page < 255
}

/// Moving back from `page` stays within the eight-bit cursor.
pub open spec fn can_page_back(page: u8) -> bool {
    page != 0
}

/// The page cursor and header text of the thread list of a board.
pub struct ThreadList {
    pub page: u8,
    pub description: String,
}

impl ThreadList {
    /// A cursor on the first page with an empty description.
    pub fn new() -> (r: ThreadList)
        ensures
            r.page == FIRST_PAGE,
            r.description@ == Seq::<char>::empty(),
    {
        ThreadList { page: FIRST_PAGE, description: String::new() }
    }

    /// Moves to the next page of `board`, wrapping to the first, and returns it.
    pub fn next_page(&mut self, board: &Board) -> (r: u8)
        requires
            can_page_forward(old(self).page, page_count(board)),
        ensures
            r == next_page_of(old(self).page, page_count(board)),
            final(self).page == r,
            final(self).description == old(self).description,
            *final(self) == paged(*old(self), page_count(board), seq![true]),
    {
        let count: u8 = board.pages as u8;
        assert(count == page_count(board)) by {
            let p = board.pages;
            assert(p as u8 == (p % 256) as u8) by (bit_vector);
        }
        if count == self.page {
            self.page = FIRST_PAGE;
        } else {
            self.page = self.page + 1;
        }
        proof {
            let one = seq![true];
            assert(one.drop_last() =~= Seq::<bool>::empty());
            assert(one.last() == true);
            assert(paged(*old(self), page_count(board), one.drop_last()) == *old(self));
        }
        self.page
    }

    /// Moves to the previous page of `board`, wrapping to the last, and
    /// returns it.
    pub fn prev_page(&mut self, board: &Board) -> (r: u8)
        requires
            can_page_back(old(self).page),
        ensures
            r == prev_page_of(old(self).page, page_count(board)),
            final(self).page == r,
            final(self).description == old(self).description,
            *final(self) == paged(*old(self), page_count(board), seq![false]),
    {
        let count: u8 = board.pages as u8;
        assert(count == page_count(board)) by {
            let p = board.pages;
            assert(p as u8 == (p % 256) as u8) by (bit_vector);
        }
        if FIRST_PAGE == self.page {
            self.page = count;
        } else {
            self.page = self.page - 1;
        }
        proof {
            let one = seq![false];
            assert(one.drop_last() =~= Seq::<bool>::empty());
            assert(one.last() == false);
            assert(paged(*old(self), page_count(board), one.drop_last()) == *old(self));
        }
        self.page
    }

    pub fn cur_page(&self) -> (r: u8)
        ensures
            r == self.page,
    {
        self.page
    }

    /// Sets the description to the plain text of the HTML `desc`.
    pub fn set_description(&mut self, desc: &str)
        ensures
            final(self).description@ == html_text(desc@),
            final(self).page == old(self).page,
    {
        self.description = format_html(desc);
    }

    pub fn description(&self) -> (r: &str)
        ensures
            r@ == self.description@,
    {
        self.description.as_str()
    }
}

/// The cursor after the moves `moves` on a board of `count` pages, made one
/// at a time: `true` pages forward, `false` pages back.
pub open spec fn paged(t: ThreadList, count: u8, moves: Seq<bool>) -> ThreadList
    decreases moves.len(),
{
    if moves.len() == 0 {
        t
    } else {
        let before = paged(t, count, moves.drop_last());
        ThreadList {
            page: if moves.last() {
                next_page_of(before.page, count)
            } else {
                prev_page_of(before.page, count)
            },
            description: before.description,
        }
    }
}

/// From a page of a board of 1 to 255 pages, any sequence of next-page and
/// previous-page moves keeps the description, stays on a page of the board,
/// and every move in it can be made.
pub proof fn lemma_paging_sequence(t: ThreadList, count: u8, moves: Seq<bool>)
    requires
        1 <= count,
        FIRST_PAGE <= t.page <= count,
    ensures
        paged(t, count, moves).description == t.description,
        FIRST_PAGE <= paged(t, count, moves).page <= count,
        forall|k: int|
            0 <= k < moves.len() ==> (if #[trigger] moves[k] {
                can_page_forward(paged(t, count, moves.take(k)).page, count)
            } else {
                can_page_back(paged(t, count, moves.take(k)).page)
            }),
    decreases moves.len(),
{
    if moves.len() > 0 {
        let n = moves.len() - 1;
        lemma_paging_sequence(t, count, moves.drop_last());
        assert(moves.take(n as int) =~= moves.drop_last());
        assert forall|k: int| 0 <= k < moves.len() implies (if #[trigger] moves[k] {
            can_page_forward(paged(t, count, moves.take(k)).page, count)
        } else {
            can_page_back(paged(t, count, moves.take(k)).page)
        }) by {
            if k < n {
                assert(moves.take(k) =~= moves.drop_last().take(k));
                assert(moves[k] == moves.drop_last()[k]);
            }
        }
    }
}

/// On a board of `count` pages, paging forward and then back returns to the
/// page one started from, and so does paging back and then forward.
pub proof fn lemma_paging_round_trip(page: u8, count: u8)
    requires
        FIRST_PAGE <= page <= count,
    ensures
        prev_page_of(next_page_of(page, count), count) == page,
        next_page_of(prev_page_of(page, count), count) == page,
        can_page_forward(page, count),
        can_page_back(page),
        can_page_back(next_page_of(page, count)),
        can_page_forward(prev_page_of(page, count), count),
{
}

/// A thread: its posts, the opening post first.
pub struct Thread {
    pub posts: Vec<ThreadPost>,
}

impl Thread {
    pub fn posts(&self) -> (r: &[ThreadPost])
        ensures
            r@ == self.posts@,
    {
        self.posts.as_slice()
    }
}

/// A post, with the fields of the thread and catalog listings. Every field
/// defaults to zero, empty or absent when the listing leaves it out.
pub struct ThreadPost {
    pub no: usize,
    pub now: String,
    pub time: u64,
    pub id: String,
    pub name: String,
    pub com: String,
    pub sub: String,
    pub sticky: u8,
    pub closed: u8,
    pub replies: u32,
    pub ext: Option<String>,
    pub filename: Option<String>,
    pub tim: Option<u64>,
    pub resto: u64,
    pub trip: Option<String>,
    pub capcode: Option<String>,
    pub country: Option<String>,
    pub country_name: Option<String>,
    pub board_flag: Option<String>,
    pub flag_name: Option<String>,
    pub tag: Option<String>,
    pub semantic_url: Option<String>,
    pub md5: Option<String>,
    pub fsize: Option<u64>,
    pub w: Option<u32>,
    pub h: Option<u32>,
    pub tn_w: Option<u32>,
    pub tn_h: Option<u32>,
    pub since4pass: Option<u32>,
    pub unique_ips: Option<u32>,
    pub archived_on: Option<u64>,
    pub filedeleted: Option<u8>,
    pub spoiler: Option<u8>,
    pub custom_spoiler: Option<u8>,
    pub images: Option<u32>,
    pub bumplimit: Option<u8>,
    pub imagelimit: Option<u8>,
    pub m_img: Option<u8>,
    pub archived: Option<u8>,
    pub last_replies: Option<Vec<ThreadPost>>,
    pub omitted_posts: Option<u32>,
    pub omitted_images: Option<u32>,
}

impl Default for ThreadPost {
    fn default() -> (r: ThreadPost)
        ensures
            r.no == 0,
            r.now@ == Seq::<char>::empty(),
            r.time == 0,
            r.id@ == Seq::<char>::empty(),
            r.name@ == Seq::<char>::empty(),
            r.com@ == Seq::<char>::empty(),
            r.sub@ == Seq::<char>::empty(),
            r.sticky == 0,
            r.closed == 0,
            r.replies == 0,
            r.ext is None,
            r.filename is None,
            r.tim is None,
            r.resto == 0,
            r.trip is None,
            r.capcode is None,
            r.country is None,
            r.country_name is None,
            r.board_flag is None,
            r.flag_name is None,
            r.tag is None,
            r.semantic_url is None,
            r.md5 is None,
            r.fsize is None,
            r.w is None,
            r.h is None,
            r.tn_w is None,
            r.tn_h is None,
            r.since4pass is None,
            r.unique_ips is None,
            r.archived_on is None,
            r.filedeleted is None,
            r.spoiler is None,
            r.custom_spoiler is None,
            r.images is None,
            r.bumplimit is None,
            r.imagelimit is None,
            r.m_img is None,
            r.archived is None,
            r.last_replies is None,
            r.omitted_posts is None,
            r.omitted_images is None,
    {
        ThreadPost {
            no: 0,
            now: String::new(),
            time: 0,
            id: String::new(),
            name: String::new(),
            com: String::new(),
            sub: String::new(),
            sticky: 0,
            closed: 0,
            replies: 0,
            ext: None,
            filename: None,
            tim: None,
            resto: 0,
            trip: None,
            capcode: None,
            country: None,
            country_name: None,
            board_flag: None,
            flag_name: None,
            tag: None,
            semantic_url: None,
            md5: None,
            fsize: None,
            w: None,
            h: None,
            tn_w: None,
            tn_h: None,
            since4pass: None,
            unique_ips: None,
            archived_on: None,
            filedeleted: None,
            spoiler: None,
            custom_spoiler: None,
            images: None,
            bumplimit: None,
            imagelimit: None,
            m_img: None,
            archived: None,
            last_replies: None,
            omitted_posts: None,
            omitted_images: None,
        }
    }
}

impl ThreadPost {
    /// The post number.
    pub fn no(&self) -> (r: usize)
        ensures
            r == self.no,
    {
        self.no
    }

    pub fn time(&self) -> (r: u64)
        ensures
            r == self.time,
    {
        self.time
    }

    pub fn name(&self) -> (r: &str)
        ensures
            r@ == self.name@,
    {
        self.name.as_str()
    }

    /// The comment, as HTML.
    pub fn com(&self) -> (r: &str)
        ensures
            r@ == self.com@,
    {
        self.com.as_str()
    }

    /// The subject, as HTML.
    pub fn sub(&self) -> (r: &str)
        ensures
            r@ == self.sub@,
    {
        self.sub.as_str()
    }

    pub fn sticky(&self) -> (r: u8)
        ensures
            r == self.sticky,
    {
        self.sticky
    }

    pub fn closed(&self) -> (r: u8)
        ensures
            r == self.closed,
    {
        self.closed
    }

    pub fn replies(&self) -> (r: u32)
        ensures
            r == self.replies,
    {
        self.replies
    }

    /// The attachment's file extension, such as `.png`.
    pub fn ext(&self) -> (r: &Option<String>)
        ensures
            r == &self.ext,
    {
        &self.ext
    }

    pub fn filename(&self) -> (r: &Option<String>)
        ensures
            r == &self.filename,
    {
        &self.filename
    }

    /// The attachment's server-side file name stem, a timestamp.
    pub fn tim(&self) -> (r: Option<u64>)
        ensures
            r == self.tim,
    {
        self.tim
    }

    pub fn now(&self) -> (r: &str)
        ensures
            r@ == self.now@,
    {
        self.now.as_str()
    }

    pub fn id(&self) -> (r: &str)
        ensures
            r@ == self.id@,
    {
        self.id.as_str()
    }

    /// The latest replies that a catalog listing shows under the opening post.
    pub fn last_replies(&self) -> (r: &Option<Vec<ThreadPost>>)
        ensures
            r == &self.last_replies,
    {
        &self.last_replies
    }
}

} // verus!
