//! The application state machine: three panes, modal line input, search, and
//! the transition from one state to the next on each action.
use vstd::prelude::*;
use vstd::string::StringExecFns;
use crate::action::{Action, Effect, EffectView};
use crate::api::{board_url, file_url, post_url, thread_url, ChanProvider};
use crate::component::{
    advance_ok, advanced, first_selected, index_selected, last_selected, scroll_ok, scrolled,
    can_advance, can_scroll, sel_in_range, ListSelection,
};
use crate::format::html_text;
use crate::model::{
    can_page_back, can_page_forward, next_page_of, page_count, prev_page_of, Board, Thread,
    ThreadList, ThreadPost, FIRST_PAGE,
};
use crate::panes::{board_text, post_text, thread_text, BoardsPane, RepliesPane, ThreadsPane};
use crate::text::{contains_seq, decimal, lowercase_of, trim_seq};

verus! {

/// The input mode. Normal mode drives navigation; Command and Search modes
/// collect a typed line on the bottom row, prefixed with `:` or `/`.
#[derive(Clone, Copy, PartialEq, Eq, Debug, Structural)]
pub enum Mode {
    Normal,
    Command,
    Search,
}

/// The focused column.
#[derive(Clone, Copy, PartialEq, Eq, Debug, Structural)]
pub enum SelectedField {
    BoardList,
    ThreadList,
    Thread,
}

/// Which columns are on screen.
pub struct ShownState {
    pub board_list: bool,
    pub thread_list: bool,
    pub thread: bool,
}

/// The keybinding overlay.
pub struct HelpBar {
    pub shown: bool,
}

impl HelpBar {
    pub fn shown(&self) -> (r: bool)
        ensures
            r == self.shown,
    {
        self.shown
    }

    pub fn toggle_shown(&mut self)
        ensures
            final(self).shown == !old(self).shown,
    {
        self.shown = !self.shown;
    }
}

/// Percentages of the screen width given to the three columns.
pub struct ScreenShare {
    pub board_list: u16,
    pub thread_list: u16,
    pub thread: u16,
}

impl ScreenShare {
    pub fn new(board_list: u16, thread_list: u16, thread: u16) -> (r: ScreenShare)
        ensures
            r.board_list == board_list,
            r.thread_list == thread_list,
            r.thread == thread,
    {
        ScreenShare { board_list, thread_list, thread }
    }

    pub fn board_list(&self) -> (r: u16)
        ensures
            r == self.board_list,
    {
        self.board_list
    }

    pub fn thread_list(&self) -> (r: u16)
        ensures
            r == self.thread_list,
    {
        self.thread_list
    }

    pub fn thread(&self) -> (r: u16)
        ensures
            r == self.thread,
    {
        self.thread
    }
}

/// The application state.
pub struct App {
    pub boards: BoardsPane,
    pub threads: ThreadsPane,
    pub thread: RepliesPane,
    pub focus: SelectedField,
    pub mode: Mode,
    /// Shared bottom-row buffer for command and search input.
    pub line: String,
    /// Last submitted search query, replayed by n/N.
    pub search_query: String,
    pub thread_list: ThreadList,
    pub shown_state: ShownState,
    pub help_bar: HelpBar,
    pub status: Option<String>,
    /// Fetches in flight.
    pub pending: usize,
    pub spinner: usize,
    pub provider: ChanProvider,
    /// Whether the next threads load selects the first row. Entering a board
    /// or reloading selects it; paging leaves the selection cleared.
    pub select_threads_on_load: bool,
}

/// The application state with strings taken as character sequences.
#[verifier::ext_equal]
pub struct AppView {
    pub boards: Seq<Board>,
    pub boards_sel: Option<usize>,
    pub boards_height: usize,
    pub threads: Seq<Thread>,
    pub threads_sel: Option<usize>,
    pub threads_height: usize,
    pub posts: Seq<ThreadPost>,
    pub posts_sel: Option<usize>,
    pub posts_height: usize,
    pub focus: SelectedField,
    pub mode: Mode,
    pub line: Seq<char>,
    pub search_query: Seq<char>,
    pub page: u8,
    pub description: Seq<char>,
    pub shown_board_list: bool,
    pub shown_thread_list: bool,
    pub shown_thread: bool,
    pub help_shown: bool,
    pub status: Option<Seq<char>>,
    pub pending: usize,
    pub spinner: usize,
    pub provider: ChanProvider,
    pub select_on_load: bool,
}

impl View for App {
    type V = AppView;

    open spec fn view(&self) -> AppView {
        AppView {
            boards: self.boards.items@,
            boards_sel: self.boards.state.selected,
            boards_height: self.boards.height,
            threads: self.threads.items@,
            threads_sel: self.threads.state.selected,
            threads_height: self.threads.height,
            posts: self.thread.items@,
            posts_sel: self.thread.state.selected,
            posts_height: self.thread.height,
            focus: self.focus,
            mode: self.mode,
            line: self.line@,
            search_query: self.search_query@,
            page: self.thread_list.page,
            description: self.thread_list.description@,
            shown_board_list: self.shown_state.board_list,
            shown_thread_list: self.shown_state.thread_list,
            shown_thread: self.shown_state.thread,
            help_shown: self.help_bar.shown,
            status: match self.status {
                Some(s) => Some(s@),
                None => None,
            },
            pending: self.pending,
            spinner: self.spinner,
            provider: self.provider,
            select_on_load: self.select_threads_on_load,
        }
    }
}

/// The number of spinner frames.
pub const SPINNER_LEN: usize = 4;

/// The frames of the loading spinner.
pub open spec fn spinner_frames() -> Seq<char> {
    seq!['|', '/', '-', '\\']
}

// ---------------------------------------------------------------------------
// The state as seen through the focused pane.

/// Rows of the focused pane.
pub open spec fn focused_len(v: AppView) -> nat {
    match v.focus {
        SelectedField::BoardList => v.boards.len(),
        SelectedField::ThreadList => v.threads.len(),
        SelectedField::Thread => v.posts.len(),
    }
}

/// Selection of the focused pane.
pub open spec fn focused_sel(v: AppView) -> Option<usize> {
    match v.focus {
        SelectedField::BoardList => v.boards_sel,
        SelectedField::ThreadList => v.threads_sel,
        SelectedField::Thread => v.posts_sel,
    }
}

/// Visible rows of the focused pane.
pub open spec fn focused_height(v: AppView) -> usize {
    match v.focus {
        SelectedField::BoardList => v.boards_height,
        SelectedField::ThreadList => v.threads_height,
        SelectedField::Thread => v.posts_height,
    }
}

/// The state with the focused pane's selection replaced by `sel`.
pub open spec fn with_focused_sel(v: AppView, sel: Option<usize>) -> AppView {
    match v.focus {
        SelectedField::BoardList => AppView { boards_sel: sel, ..v },
        SelectedField::ThreadList => AppView { threads_sel: sel, ..v },
        SelectedField::Thread => AppView { posts_sel: sel, ..v },
    }
}

/// The board that board-scoped actions use: the selected one, or the first.
pub open spec fn board_index(v: AppView) -> int {
    match v.boards_sel {
        Some(i) => i as int,
        None => 0,
    }
}

/// The short name of the board that board-scoped actions use.
pub open spec fn board_name(v: AppView) -> Seq<char> {
    v.boards[board_index(v)].board@
}

/// The opening post of the selected thread, if a thread with posts is selected.
pub open spec fn selected_op(v: AppView) -> Option<ThreadPost> {
    match v.threads_sel {
        Some(i) => if i < v.threads.len() && v.threads[i as int].posts@.len() > 0 {
            Some(v.threads[i as int].posts@[0])
        } else {
            None
        },
        None => None,
    }
}

/// The selected post of the open thread, if any.
pub open spec fn selected_post(v: AppView) -> Option<ThreadPost> {
    match v.posts_sel {
        Some(i) => if i < v.posts.len() {
            Some(v.posts[i as int])
        } else {
            None
        },
        None => None,
    }
}

/// A post with an attachment.
pub open spec fn has_media(p: ThreadPost) -> bool {
    p.tim is Some && p.ext is Some
}

// ---------------------------------------------------------------------------
// Search.

/// The searchable text of row `i` of the focused pane.
pub open spec fn item_text(v: AppView, i: int) -> Seq<char> {
    match v.focus {
        SelectedField::BoardList => board_text(v.boards[i]),
        SelectedField::ThreadList => thread_text(v.threads[i]),
        SelectedField::Thread => post_text(v.posts[i]),
    }
}

/// Row `i` of the focused pane matches `query`, ignoring case.
pub open spec fn is_match(v: AppView, query: Seq<char>, i: int) -> bool {
    contains_seq(lowercase_of(item_text(v, i)), lowercase_of(query))
}

/// The matching rows below `n`, in increasing order.
pub open spec fn matches_below(v: AppView, query: Seq<char>, n: int) -> Seq<usize>
    decreases n,
{
    if n <= 0 {
        Seq::empty()
    } else {
        let m = matches_below(v, query, n - 1);
        if is_match(v, query, n - 1) {
            m.push((n - 1) as usize)
        } else {
            m
        }
    }
}

/// Rows of the focused pane whose text contains `query`, ignoring case, in
/// increasing order. An empty query has no matches.
pub open spec fn search_matches(v: AppView, query: Seq<char>) -> Seq<usize> {
    if query.len() == 0 {
        Seq::empty()
    } else {
        matches_below(v, query, focused_len(v) as int)
    }
}

/// The first entry at index `k` or later that is at least `cur`.
pub open spec fn find_at_least(ms: Seq<usize>, cur: usize, k: int) -> Option<usize>
    decreases ms.len() - k,
{
    if k < 0 || k >= ms.len() {
        None
    } else if ms[k] >= cur {
        Some(ms[k])
    } else {
        find_at_least(ms, cur, k + 1)
    }
}

/// The first entry at index `k` or later that is above `cur`.
pub open spec fn find_above(ms: Seq<usize>, cur: usize, k: int) -> Option<usize>
    decreases ms.len() - k,
{
    if k < 0 || k >= ms.len() {
        None
    } else if ms[k] > cur {
        Some(ms[k])
    } else {
        find_above(ms, cur, k + 1)
    }
}

/// The last entry at index `k` or earlier that is below `cur`.
pub open spec fn find_below(ms: Seq<usize>, cur: usize, k: int) -> Option<usize>
    decreases k + 1,
{
    if k < 0 || k >= ms.len() {
        None
    } else if ms[k] < cur {
        Some(ms[k])
    } else {
        find_below(ms, cur, k - 1)
    }
}

/// The index at or after `k` at which `ms` holds `x`.
pub open spec fn position_of(ms: Seq<usize>, x: usize, k: int) -> Option<int>
    decreases ms.len() - k,
{
    if k < 0 || k >= ms.len() {
        None
    } else if ms[k] == x {
        Some(k)
    } else {
        position_of(ms, x, k + 1)
    }
}

/// The match a fresh search lands on: the first one at or after the current
/// selection, else the first one.
pub open spec fn search_landing(ms: Seq<usize>, sel: Option<usize>) -> usize {
    match sel {
        Some(cur) => match find_at_least(ms, cur, 0) {
            Some(t) => t,
            None => ms[0],
        },
        None => ms[0],
    }
}

/// The match that n (`forward`) or N moves to: the next match after the
/// selection or the previous one before it, wrapping around.
pub open spec fn search_target(ms: Seq<usize>, sel: Option<usize>, forward: bool) -> usize {
    match sel {
        Some(cur) => if forward {
            match find_above(ms, cur, 0) {
                Some(t) => t,
                None => ms[0],
            }
        } else {
            match find_below(ms, cur, ms.len() - 1) {
                Some(t) => t,
                None => ms.last(),
            }
        },
        None => if forward {
            ms[0]
        } else {
            ms.last()
        },
    }
}

} // verus!

verus! {

// ---------------------------------------------------------------------------
// Commands typed on the `:` line.

/// An ASCII decimal digit.
pub open spec fn is_digit_char(c: char) -> bool {
    48 <= (c as u32) && (c as u32) <= 57
}

/// Every character of `s` is a decimal digit.
pub open spec fn all_digits(s: Seq<char>) -> bool {
    forall|i: int| 0 <= i < s.len() ==> is_digit_char(#[trigger] s[i])
}

/// The number that the decimal digits `s` spell.
pub open spec fn digits_value(s: Seq<char>) -> nat
    decreases s.len(),
{
    if s.len() == 0 {
        0
    } else {
        digits_value(s.drop_last()) * 10 + ((s.last() as u32) - 48) as nat
    }
}

/// The action a command line names: `q`/`quit`, `r`/`reload`, `help`/`h`, or
/// a 1-based row number (0 counts as 1) that fits a `usize`.
pub open spec fn parse_command_spec(cmd: Seq<char>) -> Option<Action> {
    if cmd == "q"@ || cmd == "quit"@ {
        Some(Action::Quit)
    } else if cmd == "r"@ || cmd == "reload"@ {
        Some(Action::Reload)
    } else if cmd == "help"@ || cmd == "h"@ {
        Some(Action::ToggleHelp)
    } else if cmd.len() > 0 && all_digits(cmd) {
        let n = digits_value(cmd);
        if n <= usize::MAX {
            Some(Action::SelectIndex(if n == 0 { 0usize } else { (n - 1) as usize }))
        } else {
            None
        }
    } else {
        None
    }
}

// ---------------------------------------------------------------------------
// Transitions.

pub open spec fn no_effects() -> Seq<EffectView> {
    Seq::empty()
}

/// Network fetches among `es`.
pub open spec fn fetch_count(es: Seq<EffectView>) -> nat
    decreases es.len(),
{
    if es.len() == 0 {
        0
    } else {
        fetch_count(es.drop_last()) + if es.last().is_fetch() { 1nat } else { 0nat }
    }
}

/// Half a screen of the focused pane, at least one row.
pub open spec fn half_page(v: AppView) -> int {
    let h = focused_height(v) / 2;
    if h < 1 { 1 } else { h as int }
}

/// `n - 1`, stopping at zero.
pub open spec fn dec_sat(n: usize) -> usize {
    if n == 0 { 0 } else { (n - 1) as usize }
}

pub open spec fn back_step(v: AppView) -> AppView {
    match v.focus {
        SelectedField::BoardList => v,
        SelectedField::ThreadList => AppView {
            shown_board_list: true,
            shown_thread: false,
            focus: SelectedField::BoardList,
            search_query: Seq::empty(),
            ..v
        },
        SelectedField::Thread => AppView {
            shown_board_list: true,
            shown_thread_list: true,
            shown_thread: false,
            focus: SelectedField::ThreadList,
            search_query: Seq::empty(),
            ..v
        },
    }
}

pub open spec fn enter_step(v: AppView) -> (AppView, Seq<EffectView>) {
    match v.focus {
        SelectedField::BoardList => (
            AppView {
                focus: SelectedField::ThreadList,
                shown_thread_list: true,
                search_query: Seq::empty(),
                page: FIRST_PAGE,
                description: html_text(v.boards[board_index(v)].meta_description@),
                select_on_load: true,
                ..v
            },
            seq![EffectView::FetchThreads { board: board_name(v), page: FIRST_PAGE }],
        ),
        SelectedField::ThreadList => match selected_op(v) {
            Some(op) => (
                AppView {
                    focus: SelectedField::Thread,
                    shown_thread: true,
                    shown_board_list: false,
                    search_query: Seq::empty(),
                    ..v
                },
                seq![EffectView::FetchThread { board: board_name(v), no: op.no as u64 }],
            ),
            None => (v, no_effects()),
        },
        SelectedField::Thread => (v, no_effects()),
    }
}

pub open spec fn next_page_step(v: AppView) -> (AppView, Seq<EffectView>) {
    if v.focus == SelectedField::ThreadList {
        let p = next_page_of(v.page, page_count(&v.boards[board_index(v)]));
        (
            AppView { page: p, select_on_load: false, ..v },
            seq![EffectView::FetchThreads { board: board_name(v), page: p }],
        )
    } else {
        (v, no_effects())
    }
}

pub open spec fn prev_page_step(v: AppView) -> (AppView, Seq<EffectView>) {
    if v.focus == SelectedField::ThreadList {
        let p = prev_page_of(v.page, page_count(&v.boards[board_index(v)]));
        (
            AppView { page: p, select_on_load: false, ..v },
            seq![EffectView::FetchThreads { board: board_name(v), page: p }],
        )
    } else {
        (v, no_effects())
    }
}

pub open spec fn reload_step(v: AppView) -> (AppView, Seq<EffectView>) {
    match v.focus {
        SelectedField::ThreadList => (
            AppView { select_on_load: true, ..v },
            seq![EffectView::FetchThreads { board: board_name(v), page: v.page }],
        ),
        SelectedField::Thread => match selected_op(v) {
            Some(op) => (v, seq![EffectView::FetchThread { board: board_name(v), no: op.no as u64 }]),
            None => (v, no_effects()),
        },
        SelectedField::BoardList => (v, no_effects()),
    }
}

pub open spec fn fullscreen_step(v: AppView) -> AppView {
    match v.focus {
        SelectedField::BoardList => if v.shown_thread_list {
            AppView {
                shown_board_list: !v.shown_board_list,
                focus: SelectedField::ThreadList,
                ..v
            }
        } else {
            v
        },
        SelectedField::ThreadList => if v.shown_thread {
            AppView {
                shown_thread_list: !v.shown_thread_list,
                focus: SelectedField::Thread,
                ..v
            }
        } else {
            AppView {
                shown_board_list: !v.shown_board_list,
                focus: SelectedField::ThreadList,
                ..v
            }
        },
        SelectedField::Thread => AppView {
            shown_thread_list: !v.shown_thread_list,
            focus: SelectedField::Thread,
            ..v
        },
    }
}

pub open spec fn toggle_help_step(v: AppView) -> AppView {
    AppView { help_shown: !v.help_shown, ..v }
}

/// Escape leaves a line mode and drops the typed line; in normal mode it ends
/// the active search and closes the help overlay.
pub open spec fn escape_step(v: AppView) -> AppView {
    if v.mode != Mode::Normal {
        AppView { mode: Mode::Normal, line: Seq::empty(), ..v }
    } else {
        AppView { search_query: Seq::empty(), help_shown: false, ..v }
    }
}

pub open spec fn enter_mode_step(v: AppView, mode: Mode) -> AppView {
    AppView { mode: mode, line: Seq::empty(), ..v }
}

pub open spec fn line_input_step(v: AppView, c: char) -> AppView {
    if v.mode != Mode::Normal {
        AppView { line: v.line.push(c), ..v }
    } else {
        v
    }
}

pub open spec fn backspace_step(v: AppView) -> AppView {
    if v.mode != Mode::Normal && v.line.len() > 0 {
        AppView { line: v.line.drop_last(), ..v }
    } else {
        v
    }
}

/// A submitted search: remember `query` and select the first match at or
/// after the current selection, wrapping to the first match.
pub open spec fn run_search_step(v: AppView, query: Seq<char>) -> AppView {
    if query.len() == 0 {
        v
    } else {
        let v1 = AppView { search_query: query, ..v };
        let ms = search_matches(v1, query);
        if ms.len() == 0 {
            v1
        } else {
            let target = search_landing(ms, focused_sel(v1));
            with_focused_sel(v1, index_selected(focused_sel(v1), focused_len(v1), target))
        }
    }
}

/// n / N: cycle through the matches of the stored query, wrapping around. A
/// no-op until a search has been run or when nothing matches.
pub open spec fn search_step_spec(v: AppView, forward: bool) -> AppView {
    if v.search_query.len() == 0 {
        v
    } else {
        let ms = search_matches(v, v.search_query);
        if ms.len() == 0 {
            v
        } else {
            let target = search_target(ms, focused_sel(v), forward);
            with_focused_sel(v, index_selected(focused_sel(v), focused_len(v), target))
        }
    }
}

/// The page of the focused target: the board, the selected thread, or the
/// selected post of the open thread.
pub open spec fn thread_url_spec(v: AppView) -> Option<Seq<char>> {
    match v.focus {
        SelectedField::BoardList => Some(board_url(board_name(v))),
        SelectedField::ThreadList => match selected_op(v) {
            Some(op) => Some(thread_url(board_name(v), op.no as nat)),
            None => None,
        },
        SelectedField::Thread => match (selected_op(v), selected_post(v)) {
            (Some(op), Some(p)) => Some(post_url(board_name(v), op.no as nat, p.no as nat)),
            _ => None,
        },
    }
}

/// The attachment of post `p` on the current board.
pub open spec fn media_url_spec(v: AppView, p: ThreadPost) -> Option<Seq<char>> {
    match (p.tim, p.ext) {
        (Some(t), Some(e)) => Some(file_url(board_name(v), decimal(t as nat) + e@)),
        _ => None,
    }
}

/// The attachment of the focused post: the selected thread's opening post, or
/// the selected post of the open thread.
pub open spec fn media_url_for_focus_spec(v: AppView) -> Option<Seq<char>> {
    match v.focus {
        SelectedField::BoardList => None,
        SelectedField::ThreadList => match selected_op(v) {
            Some(op) => media_url_spec(v, op),
            None => None,
        },
        SelectedField::Thread => match selected_post(v) {
            Some(p) => media_url_spec(v, p),
            None => None,
        },
    }
}

/// Open `url` in a browser, if there is one.
pub open spec fn open_effects(url: Option<Seq<char>>) -> Seq<EffectView> {
    match url {
        Some(u) => seq![EffectView::OpenBrowser(u)],
        None => no_effects(),
    }
}

/// Copy `url` to the clipboard, if there is one.
pub open spec fn copy_effects(url: Option<Seq<char>>) -> Seq<EffectView> {
    match url {
        Some(u) => seq![EffectView::CopyToClipboard(u)],
        None => no_effects(),
    }
}

/// The spinner advances one frame per tick while a fetch is in flight.
pub open spec fn tick_step(v: AppView) -> AppView {
    if v.pending > 0 {
        AppView { spinner: (((v.spinner + 1) as int) % (SPINNER_LEN as int)) as usize, ..v }
    } else {
        v
    }
}

pub open spec fn threads_loaded_step(v: AppView, threads: Seq<Thread>) -> AppView {
    AppView {
        pending: dec_sat(v.pending),
        status: None,
        threads: threads,
        threads_sel: if v.select_on_load { first_selected(None, threads.len()) } else { None },
        threads_height: 1,
        ..v
    }
}

pub open spec fn thread_loaded_step(v: AppView, posts: Seq<ThreadPost>) -> AppView {
    AppView {
        pending: dec_sat(v.pending),
        status: None,
        posts: posts,
        posts_sel: first_selected(None, posts.len()),
        posts_height: 1,
        ..v
    }
}

pub open spec fn load_failed_step(v: AppView, message: Seq<char>) -> AppView {
    AppView { pending: dec_sat(v.pending), status: Some(message), ..v }
}

/// The transition for a command parsed from the `:` line.
pub open spec fn command_step(v: AppView, a: Action) -> (AppView, Seq<EffectView>) {
    match a {
        Action::Quit => (v, seq![EffectView::Quit]),
        Action::Reload => reload_step(v),
        Action::ToggleHelp => (toggle_help_step(v), no_effects()),
        Action::SelectIndex(i) => (
            with_focused_sel(v, index_selected(focused_sel(v), focused_len(v), i)),
            no_effects(),
        ),
        _ => (v, no_effects()),
    }
}

/// Submitting the bottom line: back to normal mode with an empty line, then
/// run the trimmed command, or report it as unknown, or run the search.
pub open spec fn submit_step(v: AppView) -> (AppView, Seq<EffectView>) {
    let text = trim_seq(v.line);
    let v1 = AppView { mode: Mode::Normal, line: Seq::empty(), ..v };
    match v.mode {
        Mode::Command => if text.len() == 0 {
            (v1, no_effects())
        } else {
            match parse_command_spec(text) {
                Some(a) => command_step(v1, a),
                None => (
                    AppView { status: Some("unknown command: "@ + text), ..v1 },
                    no_effects(),
                ),
            }
        },
        Mode::Search => (run_search_step(v1, text), no_effects()),
        Mode::Normal => (v1, no_effects()),
    }
}

/// The state and effects after one action, before in-flight fetches are
/// counted.
pub open spec fn step_spec(v: AppView, a: Action) -> (AppView, Seq<EffectView>) {
    match a {
        Action::Quit => (v, seq![EffectView::Quit]),
        Action::Move(d) => (
            with_focused_sel(v, advanced(focused_sel(v), focused_len(v), d as int)),
            no_effects(),
        ),
        Action::SelectFirst => (
            with_focused_sel(v, first_selected(focused_sel(v), focused_len(v))),
            no_effects(),
        ),
        Action::SelectLast => (
            with_focused_sel(v, last_selected(focused_sel(v), focused_len(v))),
            no_effects(),
        ),
        Action::SelectIndex(i) => (
            with_focused_sel(v, index_selected(focused_sel(v), focused_len(v), i)),
            no_effects(),
        ),
        Action::HalfPageDown => (
            with_focused_sel(v, scrolled(focused_sel(v), focused_len(v), half_page(v))),
            no_effects(),
        ),
        Action::HalfPageUp => (
            with_focused_sel(v, scrolled(focused_sel(v), focused_len(v), -half_page(v))),
            no_effects(),
        ),
        Action::Back => (back_step(v), no_effects()),
        Action::Enter => enter_step(v),
        Action::NextPage => next_page_step(v),
        Action::PrevPage => prev_page_step(v),
        Action::Reload => reload_step(v),
        Action::ToggleFullscreen => (fullscreen_step(v), no_effects()),
        Action::ToggleHelp => (toggle_help_step(v), no_effects()),
        Action::Escape => (escape_step(v), no_effects()),
        Action::EnterCommand => (enter_mode_step(v, Mode::Command), no_effects()),
        Action::EnterSearch => (enter_mode_step(v, Mode::Search), no_effects()),
        Action::LineInput(c) => (line_input_step(v, c), no_effects()),
        Action::LineBackspace => (backspace_step(v), no_effects()),
        Action::LineSubmit => submit_step(v),
        Action::SearchNext => (search_step_spec(v, true), no_effects()),
        Action::SearchPrev => (search_step_spec(v, false), no_effects()),
        Action::OpenThread => (v, open_effects(thread_url_spec(v))),
        Action::CopyThread => (v, copy_effects(thread_url_spec(v))),
        Action::OpenMedia => (v, open_effects(media_url_for_focus_spec(v))),
        Action::CopyMedia => (v, copy_effects(media_url_for_focus_spec(v))),
        Action::Tick => (tick_step(v), no_effects()),
        Action::ThreadsLoaded(threads) => (threads_loaded_step(v, threads@), no_effects()),
        Action::ThreadLoaded(posts) => (thread_loaded_step(v, posts@), no_effects()),
        Action::LoadFailed(message) => (load_failed_step(v, message@), no_effects()),
    }
}

/// The state and effects after one action, counting each requested fetch as
/// in flight.
pub open spec fn update_spec(v: AppView, a: Action) -> (AppView, Seq<EffectView>) {
    let (w, es) = step_spec(v, a);
    (AppView { pending: (w.pending + fetch_count(es)) as usize, ..w }, es)
}

/// A thread with posts is selected, so its opening post can be addressed.
pub open spec fn reload_needs_board(v: AppView) -> bool {
    match v.focus {
        SelectedField::ThreadList => true,
        SelectedField::Thread => selected_op(v) is Some,
        SelectedField::BoardList => false,
    }
}

/// The action reads the board that board-scoped actions use.
pub open spec fn needs_board(v: AppView, a: Action) -> bool {
    match a {
        Action::Enter => match v.focus {
            SelectedField::BoardList => true,
            SelectedField::ThreadList => selected_op(v) is Some,
            SelectedField::Thread => false,
        },
        Action::NextPage => v.focus == SelectedField::ThreadList,
        Action::PrevPage => v.focus == SelectedField::ThreadList,
        Action::Reload => reload_needs_board(v),
        Action::OpenThread => thread_url_needs_board(v),
        Action::CopyThread => thread_url_needs_board(v),
        Action::OpenMedia => media_needs_board(v),
        Action::CopyMedia => media_needs_board(v),
        Action::LineSubmit => {
            &&& v.mode == Mode::Command
            &&& parse_command_spec(trim_seq(v.line)) == Some(Action::Reload)
            &&& reload_needs_board(v)
        },
        _ => false,
    }
}

pub open spec fn thread_url_needs_board(v: AppView) -> bool {
    match v.focus {
        SelectedField::BoardList => true,
        SelectedField::ThreadList => selected_op(v) is Some,
        SelectedField::Thread => selected_op(v) is Some && selected_post(v) is Some,
    }
}

pub open spec fn media_needs_board(v: AppView) -> bool {
    match v.focus {
        SelectedField::BoardList => false,
        SelectedField::ThreadList => selected_op(v) matches Some(p) && has_media(p),
        SelectedField::Thread => selected_post(v) matches Some(p) && has_media(p),
    }
}

/// The state an action can be applied to without a fault: a board to read
/// when the action reads one, a page cursor that can move, and room to count
/// one more fetch in flight.
pub open spec fn can_step(v: AppView, a: Action) -> bool {
    &&& needs_board(v, a) ==> v.boards.len() > 0
    &&& (a is NextPage && v.focus == SelectedField::ThreadList && v.boards.len() > 0)
        ==> can_page_forward(v.page, page_count(&v.boards[board_index(v)]))
    &&& (a is PrevPage && v.focus == SelectedField::ThreadList) ==> can_page_back(v.page)
    &&& a matches Action::Move(d) ==> advance_ok(focused_sel(v), focused_len(v), d as int)
    &&& a is HalfPageDown ==> scroll_ok(focused_sel(v), focused_len(v), half_page(v))
    &&& a is HalfPageUp ==> scroll_ok(focused_sel(v), focused_len(v), -half_page(v))
    &&& step_spec(v, a).0.pending + fetch_count(step_spec(v, a).1) <= usize::MAX
}

/// The state's own invariant: the board selection names a board and the
/// spinner names a frame.
pub open spec fn app_wf(v: AppView) -> bool {
    &&& sel_in_range(v.boards_sel, v.boards.len())
    &&& v.spinner < SPINNER_LEN
}

} // verus!

verus! {

/// The effects with their strings taken as character sequences.
pub open spec fn effects_view(es: Seq<Effect>) -> Seq<EffectView> {
    es.map_values(|e: Effect| e@)
}

/// The state of a freshly started application over `boards`.
pub open spec fn initial_view(boards: Seq<Board>, provider: ChanProvider) -> AppView {
    AppView {
        boards: boards,
        boards_sel: None,
        boards_height: 1,
        threads: Seq::empty(),
        threads_sel: None,
        threads_height: 1,
        posts: Seq::empty(),
        posts_sel: None,
        posts_height: 1,
        focus: SelectedField::BoardList,
        mode: Mode::Normal,
        line: Seq::empty(),
        search_query: Seq::empty(),
        page: FIRST_PAGE,
        description: Seq::empty(),
        shown_board_list: false,
        shown_thread_list: false,
        shown_thread: false,
        help_shown: false,
        status: None,
        pending: 0,
        spinner: 0,
        provider: provider,
        select_on_load: false,
    }
}

impl App {
    /// A new application over `boards`, focused on the boards column, with
    /// no column shown yet.
    pub fn new(boards: Vec<Board>, provider: ChanProvider) -> (r: App)
        ensures
            r@ == initial_view(boards@, provider),
            app_wf(r@),
    {
        App {
            boards: BoardsPane::new(boards),
            threads: ThreadsPane::new(Vec::new()),
            thread: RepliesPane::new(Vec::new()),
            focus: SelectedField::BoardList,
            mode: Mode::Normal,
            line: String::new(),
            search_query: String::new(),
            thread_list: ThreadList::new(),
            shown_state: ShownState { board_list: false, thread_list: false, thread: false },
            help_bar: HelpBar { shown: false },
            status: None,
            pending: 0,
            spinner: 0,
            provider,
            select_threads_on_load: false,
        }
    }

    pub fn focus(&self) -> (r: SelectedField)
        ensures
            r == self.focus,
    {
        self.focus
    }

    pub fn mode(&self) -> (r: Mode)
        ensures
            r == self.mode,
    {
        self.mode
    }

    pub fn line(&self) -> (r: &str)
        ensures
            r@ == self.line@,
    {
        self.line.as_str()
    }

    pub fn thread_list_page(&self) -> (r: u8)
        ensures
            r == self.thread_list.page,
    {
        self.thread_list.cur_page()
    }

    /// The page count of the board that board-scoped actions use.
    pub fn thread_list_total_pages(&self) -> (r: u32)
        requires
            self.boards.items@.len() > 0,
            app_wf(self@),
        ensures
            r == self@.boards[board_index(self@)].pages,
    {
        self.selected_board().pages()
    }

    pub fn thread_list_description(&self) -> (r: &str)
        ensures
            r@ == self.thread_list.description@,
    {
        self.thread_list.description()
    }

    pub fn help_bar(&self) -> (r: &HelpBar)
        ensures
            r == &self.help_bar,
    {
        &self.help_bar
    }

    pub fn pending(&self) -> (r: usize)
        ensures
            r == self.pending,
    {
        self.pending
    }

    /// The current frame of the loading spinner.
    pub fn spinner_frame(&self) -> (r: char)
        ensures
            r == spinner_frames()[(self.spinner as int) % (SPINNER_LEN as int)],
    {
        let frames: [char; 4] = ['|', '/', '-', '\\'];
        assert(frames@ =~= spinner_frames());
        frames[self.spinner % SPINNER_LEN]
    }

    pub fn status(&self) -> (r: Option<&str>)
        ensures
            match self.status {
                Some(s) => r matches Some(t) && t@ == s@,
                None => r is None,
            },
    {
        match &self.status {
            Some(s) => Some(s.as_str()),
            None => None,
        }
    }

    pub fn set_shown_board_list(&mut self, shown: bool)
        ensures
            final(self)@ == (AppView { shown_board_list: shown, ..old(self)@ }),
    {
        self.shown_state.board_list = shown;
    }

    /// How the screen width is split between the visible columns.
    pub fn calc_screen_share(&self) -> (r: ScreenShare)
        ensures
            (r.board_list, r.thread_list, r.thread) == screen_share_spec(
                self.shown_state.board_list,
                self.shown_state.thread_list,
                self.shown_state.thread,
            ),
    {
        let b = self.shown_state.board_list;
        let l = self.shown_state.thread_list;
        let t = self.shown_state.thread;
        if b && !l && !t {
            ScreenShare::new(100, 0, 0)
        } else if b && l && !t {
            ScreenShare::new(12, 88, 0)
        } else if b && l && t {
            ScreenShare::new(12, 88, 50)
        } else if !b && l && t {
            ScreenShare::new(12, 34, 54)
        } else if !b && !l && t {
            ScreenShare::new(0, 0, 100)
        } else if !b && l && !t {
            ScreenShare::new(0, 100, 0)
        } else {
            ScreenShare::new(100, 0, 0)
        }
    }

    // -----------------------------------------------------------------------
    // The focused pane.

    fn focused_len(&self) -> (r: usize)
        ensures
            r == focused_len(self@),
    {
        match self.focus {
            SelectedField::BoardList => self.boards.len(),
            SelectedField::ThreadList => self.threads.len(),
            SelectedField::Thread => self.thread.len(),
        }
    }

    fn focused_selected(&self) -> (r: Option<usize>)
        ensures
            r == focused_sel(self@),
    {
        match self.focus {
            SelectedField::BoardList => self.boards.state.selected,
            SelectedField::ThreadList => self.threads.state.selected,
            SelectedField::Thread => self.thread.state.selected,
        }
    }

    fn focused_height(&self) -> (r: usize)
        ensures
            r == focused_height(self@),
    {
        match self.focus {
            SelectedField::BoardList => self.boards.height,
            SelectedField::ThreadList => self.threads.height,
            SelectedField::Thread => self.thread.height,
        }
    }

    fn set_focused_selected(&mut self, sel: Option<usize>)
        ensures
            final(self)@ == with_focused_sel(old(self)@, sel),
    {
        match self.focus {
            SelectedField::BoardList => self.boards.state.selected = sel,
            SelectedField::ThreadList => self.threads.state.selected = sel,
            SelectedField::Thread => self.thread.state.selected = sel,
        }
    }

    /// Lowercased searchable text of row `index` of the focused pane.
    fn focused_match_text(&self, index: usize) -> (r: String)
        requires
            index < focused_len(self@),
        ensures
            r@ == lowercase_of(item_text(self@, index as int)),
    {
        match self.focus {
            SelectedField::BoardList => self.boards.match_text(index),
            SelectedField::ThreadList => self.threads.match_text(index),
            SelectedField::Thread => self.thread.match_text(index),
        }
    }

    fn selected_board(&self) -> (r: &Board)
        requires
            self.boards.items@.len() > 0,
            app_wf(self@),
        ensures
            *r == self@.boards[board_index(self@)],
    {
        let idx = match self.boards.state.selected {
            Some(i) => i,
            None => 0,
        };
        &self.boards.items[idx]
    }

    fn selected_op(&self) -> (r: Option<&ThreadPost>)
        ensures
            match selected_op(self@) {
                Some(p) => r matches Some(q) && *q == p,
                None => r is None,
            },
    {
        match self.threads.state.selected {
            Some(i) => if i < self.threads.items.len() && self.threads.items[i].posts.len() > 0 {
                Some(&self.threads.items[i].posts[0])
            } else {
                None
            },
            None => None,
        }
    }

    fn selected_post(&self) -> (r: Option<&ThreadPost>)
        ensures
            match selected_post(self@) {
                Some(p) => r matches Some(q) && *q == p,
                None => r is None,
            },
    {
        match self.thread.state.selected {
            Some(i) => if i < self.thread.items.len() {
                Some(&self.thread.items[i])
            } else {
                None
            },
            None => None,
        }
    }

    // -----------------------------------------------------------------------
    // Moving the selection of the focused pane.

    fn move_focused(&mut self, delta: isize)
        requires
            advance_ok(focused_sel(old(self)@), focused_len(old(self)@), delta as int),
        ensures
            final(self)@ == with_focused_sel(
                old(self)@,
                advanced(focused_sel(old(self)@), focused_len(old(self)@), delta as int),
            ),
    {
        let len = self.focused_len();
        let mut st = ListSelection { selected: self.focused_selected() };
        st.move_selection(len, delta);
        self.set_focused_selected(st.selected);
    }

    fn select_first_focused(&mut self)
        ensures
            final(self)@ == with_focused_sel(
                old(self)@,
                first_selected(focused_sel(old(self)@), focused_len(old(self)@)),
            ),
    {
        let len = self.focused_len();
        let mut st = ListSelection { selected: self.focused_selected() };
        st.select_first(len);
        self.set_focused_selected(st.selected);
    }

    fn select_last_focused(&mut self)
        ensures
            final(self)@ == with_focused_sel(
                old(self)@,
                last_selected(focused_sel(old(self)@), focused_len(old(self)@)),
            ),
    {
        let len = self.focused_len();
        let mut st = ListSelection { selected: self.focused_selected() };
        st.select_last(len);
        self.set_focused_selected(st.selected);
    }

    fn select_index_focused(&mut self, index: usize)
        ensures
            final(self)@ == with_focused_sel(
                old(self)@,
                index_selected(focused_sel(old(self)@), focused_len(old(self)@), index),
            ),
    {
        let len = self.focused_len();
        let mut st = ListSelection { selected: self.focused_selected() };
        st.select_index(len, index);
        self.set_focused_selected(st.selected);
    }

    fn half_page_focused(&mut self, down: bool)
        requires
            scroll_ok(
                focused_sel(old(self)@),
                focused_len(old(self)@),
                if down { half_page(old(self)@) } else { -half_page(old(self)@) },
            ),
        ensures
            final(self)@ == with_focused_sel(
                old(self)@,
                scrolled(
                    focused_sel(old(self)@),
                    focused_len(old(self)@),
                    if down { half_page(old(self)@) } else { -half_page(old(self)@) },
                ),
            ),
    {
        let len = self.focused_len();
        let h = self.focused_height() / 2;
        let step: usize = if h < 1 { 1 } else { h };
        assert(step <= isize::MAX);
        let delta: isize = if down { step as isize } else { -(step as isize) };
        let mut st = ListSelection { selected: self.focused_selected() };
        st.scroll(len, delta);
        self.set_focused_selected(st.selected);
    }
}

/// The column widths, in percent, for each combination of visible columns
/// (boards, threads, posts).
pub open spec fn screen_share_spec(board_list: bool, thread_list: bool, thread: bool) -> (
    u16,
    u16,
    u16,
) {
    match (board_list, thread_list, thread) {
        (true, false, false) => (100, 0, 0),
        (true, true, false) => (12, 88, 0),
        (true, true, true) => (12, 88, 50),
        (false, true, true) => (12, 34, 54),
        (false, false, true) => (0, 0, 100),
        (false, true, false) => (0, 100, 0),
        _ => (100, 0, 0),
    }
}

} // verus!

verus! {

impl App {
    fn back(&mut self)
        ensures
            final(self)@ == back_step(old(self)@),
    {
        match self.focus {
            SelectedField::BoardList => {},
            SelectedField::ThreadList => {
                self.shown_state.board_list = true;
                self.shown_state.thread = false;
                self.focus = SelectedField::BoardList;
                self.search_query = String::new();
            },
            SelectedField::Thread => {
                self.shown_state.board_list = true;
                self.shown_state.thread_list = true;
                self.shown_state.thread = false;
                self.focus = SelectedField::ThreadList;
                self.search_query = String::new();
            },
        }
    }

    fn enter(&mut self) -> (r: Vec<Effect>)
        requires
            app_wf(old(self)@),
            needs_board(old(self)@, Action::Enter) ==> old(self)@.boards.len() > 0,
        ensures
            (final(self)@, effects_view(r@)) == enter_step(old(self)@),
    {
        match self.focus {
            SelectedField::BoardList => {
                self.focus = SelectedField::ThreadList;
                self.shown_state.thread_list = true;
                self.search_query = String::new();
                self.thread_list = ThreadList::new();
                let idx = match self.boards.state.selected {
                    Some(i) => i,
                    None => 0,
                };
                self.thread_list.set_description(self.boards.items[idx].meta_description());
                let page = self.thread_list.cur_page();
                let board = self.boards.items[idx].board().to_owned();
                self.select_threads_on_load = true;
                let mut es: Vec<Effect> = Vec::new();
                es.push(Effect::FetchThreads { board, page });
                assert(effects_view(es@) =~= seq![
                    EffectView::FetchThreads { board: board_name(old(self)@), page: FIRST_PAGE },
                ]);
                es
            },
            SelectedField::ThreadList => {
                let no_opt: Option<u64> = match self.selected_op() {
                    Some(op) => Some(op.no() as u64),
                    None => None,
                };
                match no_opt {
                    None => Vec::new(),
                    Some(no) => {
                        let board = self.selected_board().board().to_owned();
                        self.focus = SelectedField::Thread;
                        self.shown_state.thread = true;
                        self.shown_state.board_list = false;
                        self.search_query = String::new();
                        let mut es: Vec<Effect> = Vec::new();
                        es.push(Effect::FetchThread { board, no });
                        assert(effects_view(es@) =~= seq![
                            EffectView::FetchThread { board: board_name(old(self)@), no: no },
                        ]);
                        es
                    },
                }
            },
            SelectedField::Thread => Vec::new(),
        }
    }

    fn turn_page(&mut self, forward: bool) -> (r: Vec<Effect>)
        requires
            app_wf(old(self)@),
            old(self)@.focus == SelectedField::ThreadList ==> old(self)@.boards.len() > 0,
            forward && old(self)@.focus == SelectedField::ThreadList ==> can_page_forward(
                old(self)@.page,
                page_count(&old(self)@.boards[board_index(old(self)@)]),
            ),
            !forward && old(self)@.focus == SelectedField::ThreadList ==> can_page_back(
                old(self)@.page,
            ),
        ensures
            forward ==> (final(self)@, effects_view(r@)) == next_page_step(old(self)@),
            !forward ==> (final(self)@, effects_view(r@)) == prev_page_step(old(self)@),
    {
        match self.focus {
            SelectedField::ThreadList => {
                let idx = match self.boards.state.selected {
                    Some(i) => i,
                    None => 0,
                };
                let page = if forward {
                    self.thread_list.next_page(&self.boards.items[idx])
                } else {
                    self.thread_list.prev_page(&self.boards.items[idx])
                };
                let board = self.boards.items[idx].board().to_owned();
                self.select_threads_on_load = false;
                let mut es: Vec<Effect> = Vec::new();
                es.push(Effect::FetchThreads { board, page });
                assert(effects_view(es@) =~= seq![
                    EffectView::FetchThreads { board: board_name(old(self)@), page: page },
                ]);
                es
            },
            _ => Vec::new(),
        }
    }

    fn reload(&mut self) -> (r: Vec<Effect>)
        requires
            app_wf(old(self)@),
            reload_needs_board(old(self)@) ==> old(self)@.boards.len() > 0,
        ensures
            (final(self)@, effects_view(r@)) == reload_step(old(self)@),
    {
        match self.focus {
            SelectedField::ThreadList => {
                let page = self.thread_list.cur_page();
                let board = self.selected_board().board().to_owned();
                self.select_threads_on_load = true;
                let mut es: Vec<Effect> = Vec::new();
                es.push(Effect::FetchThreads { board, page });
                assert(effects_view(es@) =~= seq![
                    EffectView::FetchThreads { board: board_name(old(self)@), page: page },
                ]);
                es
            },
            SelectedField::Thread => {
                let no_opt: Option<u64> = match self.selected_op() {
                    Some(op) => Some(op.no() as u64),
                    None => None,
                };
                match no_opt {
                    None => Vec::new(),
                    Some(no) => {
                        let board = self.selected_board().board().to_owned();
                        let mut es: Vec<Effect> = Vec::new();
                        es.push(Effect::FetchThread { board, no });
                        assert(effects_view(es@) =~= seq![
                            EffectView::FetchThread { board: board_name(old(self)@), no: no },
                        ]);
                        es
                    },
                }
            },
            SelectedField::BoardList => Vec::new(),
        }
    }

    fn toggle_fullscreen(&mut self)
        ensures
            final(self)@ == fullscreen_step(old(self)@),
    {
        match self.focus {
            SelectedField::BoardList => {
                if self.shown_state.thread_list {
                    self.shown_state.board_list = !self.shown_state.board_list;
                    self.focus = SelectedField::ThreadList;
                }
            },
            SelectedField::ThreadList => {
                if self.shown_state.thread {
                    self.shown_state.thread_list = !self.shown_state.thread_list;
                    self.focus = SelectedField::Thread;
                } else {
                    self.shown_state.board_list = !self.shown_state.board_list;
                    self.focus = SelectedField::ThreadList;
                }
            },
            SelectedField::Thread => {
                self.shown_state.thread_list = !self.shown_state.thread_list;
                self.focus = SelectedField::Thread;
            },
        }
    }

    fn escape(&mut self)
        ensures
            final(self)@ == escape_step(old(self)@),
    {
        if self.mode != Mode::Normal {
            self.mode = Mode::Normal;
            self.line = String::new();
        } else {
            self.search_query = String::new();
            if self.help_bar.shown() {
                self.help_bar.toggle_shown();
            }
        }
    }

    fn enter_mode(&mut self, mode: Mode)
        ensures
            final(self)@ == enter_mode_step(old(self)@, mode),
    {
        self.mode = mode;
        self.line = String::new();
    }

    fn line_input(&mut self, c: char)
        ensures
            final(self)@ == line_input_step(old(self)@, c),
    {
        if self.mode != Mode::Normal {
            crate::text::push_char(&mut self.line, c);
        }
    }

    fn line_backspace(&mut self)
        ensures
            final(self)@ == backspace_step(old(self)@),
    {
        if self.mode != Mode::Normal {
            crate::text::pop_char(&mut self.line);
        }
    }

    fn tick(&mut self)
        requires
            app_wf(old(self)@),
        ensures
            final(self)@ == tick_step(old(self)@),
    {
        if self.pending > 0 {
            self.spinner = (self.spinner + 1) % SPINNER_LEN;
        }
    }

    fn threads_loaded(&mut self, threads: Vec<Thread>)
        ensures
            final(self)@ == threads_loaded_step(old(self)@, threads@),
    {
        self.pending = self.pending.saturating_sub(1);
        self.status = None;
        self.threads = ThreadsPane::new(threads);
        if self.select_threads_on_load {
            let len = self.threads.len();
            self.threads.state.select_first(len);
        }
    }

    fn thread_loaded(&mut self, posts: Vec<ThreadPost>)
        ensures
            final(self)@ == thread_loaded_step(old(self)@, posts@),
    {
        self.pending = self.pending.saturating_sub(1);
        self.status = None;
        self.thread = RepliesPane::new(posts);
        let len = self.thread.len();
        self.thread.state.select_first(len);
    }

    fn load_failed(&mut self, message: String)
        ensures
            final(self)@ == load_failed_step(old(self)@, message@),
    {
        self.pending = self.pending.saturating_sub(1);
        self.status = Some(message);
    }
}

} // verus!

verus! {

fn find_at_least_exec(ms: &Vec<usize>, cur: usize) -> (r: Option<usize>)
    ensures
        r == find_at_least(ms@, cur, 0),
{
    let n = ms.len();
    let mut k: usize = 0;
    while k < n
        invariant
            k <= n,
            n == ms@.len(),
            find_at_least(ms@, cur, 0) == find_at_least(ms@, cur, k as int),
        decreases n - k,
    {
        if ms[k] >= cur {
            return Some(ms[k]);
        }
        k = k + 1;
    }
    None
}

fn find_above_exec(ms: &Vec<usize>, cur: usize) -> (r: Option<usize>)
    ensures
        r == find_above(ms@, cur, 0),
{
    let n = ms.len();
    let mut k: usize = 0;
    while k < n
        invariant
            k <= n,
            n == ms@.len(),
            find_above(ms@, cur, 0) == find_above(ms@, cur, k as int),
        decreases n - k,
    {
        if ms[k] > cur {
            return Some(ms[k]);
        }
        k = k + 1;
    }
    None
}

fn find_below_exec(ms: &Vec<usize>, cur: usize) -> (r: Option<usize>)
    ensures
        r == find_below(ms@, cur, ms@.len() - 1),
{
    let n = ms.len();
    let mut k: usize = n;
    while k > 0
        invariant
            k <= n,
            n == ms@.len(),
            find_below(ms@, cur, n - 1) == find_below(ms@, cur, k - 1),
        decreases k,
    {
        if ms[k - 1] < cur {
            return Some(ms[k - 1]);
        }
        k = k - 1;
    }
    None
}

fn position_of_exec(ms: &Vec<usize>, x: usize) -> (r: Option<usize>)
    ensures
        match position_of(ms@, x, 0) {
            Some(p) => r == Some(p as usize),
            None => r is None,
        },
{
    let n = ms.len();
    let mut k: usize = 0;
    while k < n
        invariant
            k <= n,
            n == ms@.len(),
            position_of(ms@, x, 0) == position_of(ms@, x, k as int),
        decreases n - k,
    {
        if ms[k] == x {
            return Some(k);
        }
        k = k + 1;
    }
    None
}

/// The one-line summary of the active search: the query followed by the
/// position of the selection among the matches, the match count, or a
/// no-match note. None when no search is active.
pub open spec fn search_indicator_spec(v: AppView) -> Option<Seq<char>> {
    if v.search_query.len() == 0 {
        None
    } else {
        let ms = search_matches(v, v.search_query);
        let head = "/"@ + v.search_query + "  "@;
        if ms.len() == 0 {
            Some(head + "no matches"@)
        } else {
            let pos = match focused_sel(v) {
                Some(cur) => position_of(ms, cur, 0),
                None => None,
            };
            match pos {
                Some(p) => Some(head + decimal((p + 1) as nat) + "/"@ + decimal(ms.len())),
                None => Some(head + decimal(ms.len()) + " matches"@),
            }
        }
    }
}

impl App {
    /// Rows of the focused pane whose text contains `query`, ignoring case.
    /// An empty query has no matches.
    pub fn search_matches(&self, query: &str) -> (r: Vec<usize>)
        ensures
            r@ == search_matches(self@, query@),
    {
        if query.is_empty() {
            return Vec::new();
        }
        let lowered = crate::text::to_lowercase(query);
        let needle = crate::text::chars_of(lowered.as_str());
        let len = self.focused_len();
        let mut res: Vec<usize> = Vec::new();
        let mut i: usize = 0;
        while i < len
            invariant
                i <= len,
                len == focused_len(self@),
                needle@ == lowercase_of(query@),
                res@ == matches_below(self@, query@, i as int),
            decreases len - i,
        {
            let text = self.focused_match_text(i);
            let hay = crate::text::chars_of(text.as_str());
            if crate::text::seq_contains(&hay, &needle) {
                res.push(i);
            }
            i = i + 1;
        }
        res
    }

    /// Runs a freshly submitted search.
    fn run_search(&mut self, query: &str)
        ensures
            final(self)@ == run_search_step(old(self)@, query@),
    {
        if query.is_empty() {
            return;
        }
        self.search_query = query.to_owned();
        let matches = self.search_matches(query);
        if matches.len() == 0 {
            return;
        }
        let target = match self.focused_selected() {
            Some(cur) => match find_at_least_exec(&matches, cur) {
                Some(t) => t,
                None => matches[0],
            },
            None => matches[0],
        };
        self.select_index_focused(target);
    }

    /// Cycles to the next or previous match of the stored query.
    fn search_step(&mut self, forward: bool)
        ensures
            final(self)@ == search_step_spec(old(self)@, forward),
    {
        if self.search_query.as_str().is_empty() {
            return;
        }
        let query = self.search_query.clone();
        let matches = self.search_matches(query.as_str());
        if matches.len() == 0 {
            return;
        }
        let last = matches[matches.len() - 1];
        let target = match self.focused_selected() {
            Some(cur) => if forward {
                match find_above_exec(&matches, cur) {
                    Some(t) => t,
                    None => matches[0],
                }
            } else {
                match find_below_exec(&matches, cur) {
                    Some(t) => t,
                    None => last,
                }
            },
            None => if forward {
                matches[0]
            } else {
                last
            },
        };
        self.select_index_focused(target);
    }

    /// A one-line summary of the active search for the status row.
    pub fn search_indicator(&self) -> (r: Option<String>)
        ensures
            match search_indicator_spec(self@) {
                Some(s) => r matches Some(t) && t@ == s,
                None => r is None,
            },
    {
        if self.search_query.as_str().is_empty() {
            return None;
        }
        let matches = self.search_matches(self.search_query.as_str());
        let total = matches.len();
        let mut s = "/".to_owned();
        s.append(self.search_query.as_str());
        s.append("  ");
        let ghost head = s@;
        assert(head =~= "/"@ + self@.search_query + "  "@);
        if total == 0 {
            s.append("no matches");
            return Some(s);
        }
        let pos = match self.focused_selected() {
            Some(cur) => position_of_exec(&matches, cur),
            None => None,
        };
        match pos {
            Some(p) => {
                proof {
                    lemma_position_bounds(matches@, focused_sel(self@).unwrap(), 0);
                }
                crate::text::push_decimal(&mut s, (p + 1) as u64);
                s.append("/");
                crate::text::push_decimal(&mut s, total as u64);
                assert(s@ =~= head + decimal((p + 1) as nat) + "/"@ + decimal(total as nat));
                assert(search_indicator_spec(self@) == Some(s@));
            },
            None => {
                crate::text::push_decimal(&mut s, total as u64);
                s.append(" matches");
                assert(s@ =~= head + decimal(total as nat) + " matches"@);
                assert(search_indicator_spec(self@) == Some(s@));
            },
        }
        Some(s)
    }
}

/// A position found in `ms` is an index of `ms`.
pub proof fn lemma_position_bounds(ms: Seq<usize>, x: usize, k: int)
    requires
        0 <= k,
    ensures
        position_of(ms, x, k) matches Some(p) ==> k <= p < ms.len() && ms[p] == x,
    decreases ms.len() - k,
{
    if k < ms.len() && ms[k] != x {
        lemma_position_bounds(ms, x, k + 1);
    }
}

} // verus!

verus! {

/// The value of the digits `s[..i+1]` extends that of `s[..i]` by one digit.
proof fn lemma_digits_step(s: Seq<char>, i: int)
    requires
        0 <= i < s.len(),
    ensures
        digits_value(s.take(i + 1)) == digits_value(s.take(i)) * 10 + ((s[i] as u32) - 48) as nat,
{
    assert(s.take(i + 1).drop_last() =~= s.take(i));
}

/// Parse a submitted command line into an action, if it names one.
pub fn parse_command(cmd: &str) -> (r: Option<Action>)
    ensures
        r == parse_command_spec(cmd@),
{
    if crate::api::str_eq(cmd, "q") || crate::api::str_eq(cmd, "quit") {
        return Some(Action::Quit);
    }
    if crate::api::str_eq(cmd, "r") || crate::api::str_eq(cmd, "reload") {
        return Some(Action::Reload);
    }
    if crate::api::str_eq(cmd, "help") || crate::api::str_eq(cmd, "h") {
        return Some(Action::ToggleHelp);
    }
    let cs = crate::text::chars_of(cmd);
    let n = cs.len();
    if n == 0 {
        return None;
    }
    let mut value: usize = 0;
    let mut fits = true;
    let mut i: usize = 0;
    while i < n
        invariant
            i <= n,
            n == cs@.len(),
            cs@ == cmd@,
            !(cmd@ == "q"@ || cmd@ == "quit"@ || cmd@ == "r"@ || cmd@ == "reload"@),
            !(cmd@ == "help"@ || cmd@ == "h"@),
            all_digits(cs@.take(i as int)),
            fits ==> value == digits_value(cs@.take(i as int)),
            !fits ==> digits_value(cs@.take(i as int)) > usize::MAX,
        decreases n - i,
    {
        let c = cs[i];
        let code: u32 = c as u32;
        if code < 48 || code > 57 {
            assert(!all_digits(cs@)) by {
                assert(!is_digit_char(cs@[i as int]));
            }
            return None;
        }
        let d: usize = (code - 48) as usize;
        proof {
            lemma_digits_step(cs@, i as int);
        }
        if fits {
            match value.checked_mul(10) {
                Some(t) => match t.checked_add(d) {
                    Some(u) => {
                        value = u;
                    },
                    None => {
                        fits = false;
                    },
                },
                None => {
                    fits = false;
                    assert(digits_value(cs@.take(i as int)) * 10 > usize::MAX);
                },
            }
        }
        assert(all_digits(cs@.take(i + 1))) by {
            assert forall|k: int| 0 <= k < i + 1 implies is_digit_char(#[trigger] cs@.take(i + 1)[k]) by {
                if k < i {
                    assert(cs@.take(i + 1)[k] == cs@.take(i as int)[k]);
                }
            }
        }
        i = i + 1;
    }
    assert(cs@.take(n as int) =~= cs@);
    if !fits {
        return None;
    }
    let index: usize = if value == 0 { 0 } else { value - 1 };
    Some(Action::SelectIndex(index))
}

/// An optional string taken as an optional character sequence.
pub open spec fn opt_view(o: Option<String>) -> Option<Seq<char>> {
    match o {
        Some(s) => Some(s@),
        None => None,
    }
}

/// An action that `parse_command` can produce.
pub open spec fn is_command(a: Action) -> bool {
    a is Quit || a is Reload || a is ToggleHelp || a is SelectIndex
}

impl App {
    /// Thread/post URL for the currently focused pane, if a target exists.
    fn thread_url(&self) -> (r: Option<String>)
        requires
            app_wf(self@),
            thread_url_needs_board(self@) ==> self@.boards.len() > 0,
        ensures
            opt_view(r) == thread_url_spec(self@),
    {
        match self.focus {
            SelectedField::BoardList => {
                Some(self.provider.url_board(self.selected_board().board()))
            },
            SelectedField::ThreadList => {
                let no: u64 = match self.selected_op() {
                    Some(op) => op.no() as u64,
                    None => {
                        return None;
                    },
                };
                Some(self.provider.url_thread(self.selected_board().board(), no))
            },
            SelectedField::Thread => {
                let no: u64 = match self.selected_op() {
                    Some(op) => op.no() as u64,
                    None => {
                        return None;
                    },
                };
                let post_no: u64 = match self.selected_post() {
                    Some(p) => p.no() as u64,
                    None => {
                        return None;
                    },
                };
                Some(self.provider.url_thread_post(self.selected_board().board(), no, post_no))
            },
        }
    }

    fn media_url(&self, post: &ThreadPost) -> (r: Option<String>)
        requires
            app_wf(self@),
            has_media(*post) ==> self@.boards.len() > 0,
        ensures
            opt_view(r) == media_url_spec(self@, *post),
    {
        let tim: u64 = match post.tim() {
            Some(t) => t,
            None => {
                return None;
            },
        };
        let ext: &String = match post.ext() {
            Some(e) => e,
            None => {
                return None;
            },
        };
        let mut file = String::new();
        crate::text::push_decimal(&mut file, tim);
        file.append(ext.as_str());
        Some(self.provider.url_file(self.selected_board().board(), file.as_str()))
    }

    /// Media URL for the currently focused pane, if the selected post has media.
    fn media_url_for_focus(&self) -> (r: Option<String>)
        requires
            app_wf(self@),
            media_needs_board(self@) ==> self@.boards.len() > 0,
        ensures
            opt_view(r) == media_url_for_focus_spec(self@),
    {
        match self.focus {
            SelectedField::BoardList => None,
            SelectedField::ThreadList => match self.selected_op() {
                Some(op) => self.media_url(op),
                None => None,
            },
            SelectedField::Thread => match self.selected_post() {
                Some(p) => self.media_url(p),
                None => None,
            },
        }
    }

    fn run_command(&mut self, action: Action) -> (r: Vec<Effect>)
        requires
            app_wf(old(self)@),
            is_command(action),
            action is Reload && reload_needs_board(old(self)@) ==> old(self)@.boards.len() > 0,
        ensures
            (final(self)@, effects_view(r@)) == command_step(old(self)@, action),
    {
        match action {
            Action::Quit => {
                let mut es: Vec<Effect> = Vec::new();
                es.push(Effect::Quit);
                assert(effects_view(es@) =~= seq![EffectView::Quit]);
                es
            },
            Action::Reload => self.reload(),
            Action::ToggleHelp => {
                self.help_bar.toggle_shown();
                Vec::new()
            },
            Action::SelectIndex(i) => {
                self.select_index_focused(i);
                Vec::new()
            },
            _ => Vec::new(),
        }
    }

    fn submit_line(&mut self) -> (r: Vec<Effect>)
        requires
            app_wf(old(self)@),
            needs_board(old(self)@, Action::LineSubmit) ==> old(self)@.boards.len() > 0,
        ensures
            (final(self)@, effects_view(r@)) == submit_step(old(self)@),
    {
        let text = crate::text::trim(self.line.as_str());
        let mode = self.mode;
        self.mode = Mode::Normal;
        self.line = String::new();
        match mode {
            Mode::Command => {
                if text.as_str().is_empty() {
                    return Vec::new();
                }
                match parse_command(text.as_str()) {
                    Some(action) => self.run_command(action),
                    None => {
                        let mut message = "unknown command: ".to_owned();
                        message.append(text.as_str());
                        self.status = Some(message);
                        Vec::new()
                    },
                }
            },
            Mode::Search => {
                self.run_search(text.as_str());
                Vec::new()
            },
            Mode::Normal => Vec::new(),
        }
    }

    fn open_or_copy(url: Option<String>, copy: bool) -> (r: Vec<Effect>)
        ensures
            !copy ==> effects_view(r@) == open_effects(opt_view(url)),
            copy ==> effects_view(r@) == copy_effects(opt_view(url)),
    {
        match url {
            Some(u) => {
                let ghost uv = u@;
                let mut es: Vec<Effect> = Vec::new();
                if copy {
                    es.push(Effect::CopyToClipboard(u));
                    assert(effects_view(es@) =~= seq![EffectView::CopyToClipboard(uv)]);
                } else {
                    es.push(Effect::OpenBrowser(u));
                    assert(effects_view(es@) =~= seq![EffectView::OpenBrowser(uv)]);
                }
                es
            },
            None => Vec::new(),
        }
    }
}

} // verus!

verus! {

impl App {
    /// The state transition for one action, before in-flight fetches are
    /// counted.
    fn step(&mut self, action: Action) -> (r: Vec<Effect>)
        requires
            app_wf(old(self)@),
            needs_board(old(self)@, action) ==> old(self)@.boards.len() > 0,
            (action is NextPage && old(self)@.focus == SelectedField::ThreadList
                && old(self)@.boards.len() > 0) ==> can_page_forward(
                old(self)@.page,
                page_count(&old(self)@.boards[board_index(old(self)@)]),
            ),
            (action is PrevPage && old(self)@.focus == SelectedField::ThreadList) ==> can_page_back(
                old(self)@.page,
            ),
            action matches Action::Move(d) ==> advance_ok(
                focused_sel(old(self)@),
                focused_len(old(self)@),
                d as int,
            ),
            action is HalfPageDown ==> scroll_ok(
                focused_sel(old(self)@),
                focused_len(old(self)@),
                half_page(old(self)@),
            ),
            action is HalfPageUp ==> scroll_ok(
                focused_sel(old(self)@),
                focused_len(old(self)@),
                -half_page(old(self)@),
            ),
        ensures
            (final(self)@, effects_view(r@)) == step_spec(old(self)@, action),
    {
        match action {
            Action::Quit => {
                let mut es: Vec<Effect> = Vec::new();
                es.push(Effect::Quit);
                assert(effects_view(es@) =~= seq![EffectView::Quit]);
                es
            },
            Action::Move(delta) => {
                self.move_focused(delta);
                Vec::new()
            },
            Action::SelectFirst => {
                self.select_first_focused();
                Vec::new()
            },
            Action::SelectLast => {
                self.select_last_focused();
                Vec::new()
            },
            Action::SelectIndex(index) => {
                self.select_index_focused(index);
                Vec::new()
            },
            Action::HalfPageDown => {
                self.half_page_focused(true);
                Vec::new()
            },
            Action::HalfPageUp => {
                self.half_page_focused(false);
                Vec::new()
            },
            Action::Back => {
                self.back();
                Vec::new()
            },
            Action::Enter => self.enter(),
            Action::NextPage => self.turn_page(true),
            Action::PrevPage => self.turn_page(false),
            Action::Reload => self.reload(),
            Action::ToggleFullscreen => {
                self.toggle_fullscreen();
                Vec::new()
            },
            Action::ToggleHelp => {
                self.help_bar.toggle_shown();
                Vec::new()
            },
            Action::Escape => {
                self.escape();
                Vec::new()
            },
            Action::EnterCommand => {
                self.enter_mode(Mode::Command);
                Vec::new()
            },
            Action::EnterSearch => {
                self.enter_mode(Mode::Search);
                Vec::new()
            },
            Action::LineInput(c) => {
                self.line_input(c);
                Vec::new()
            },
            Action::LineBackspace => {
                self.line_backspace();
                Vec::new()
            },
            Action::LineSubmit => self.submit_line(),
            Action::SearchNext => {
                self.search_step(true);
                Vec::new()
            },
            Action::SearchPrev => {
                self.search_step(false);
                Vec::new()
            },
            Action::OpenThread => App::open_or_copy(self.thread_url(), false),
            Action::CopyThread => App::open_or_copy(self.thread_url(), true),
            Action::OpenMedia => App::open_or_copy(self.media_url_for_focus(), false),
            Action::CopyMedia => App::open_or_copy(self.media_url_for_focus(), true),
            Action::Tick => {
                self.tick();
                Vec::new()
            },
            Action::ThreadsLoaded(threads) => {
                self.threads_loaded(threads);
                Vec::new()
            },
            Action::ThreadLoaded(posts) => {
                self.thread_loaded(posts);
                Vec::new()
            },
            Action::LoadFailed(message) => {
                self.load_failed(message);
                Vec::new()
            },
        }
    }

    /// Apply an action to the state and return the effects to run. Each
    /// requested fetch counts as in flight until its result action arrives.
    ///
    /// Pure: it never touches the network, clipboard, terminal, or runtime.
    pub fn update(&mut self, action: Action) -> (r: Vec<Effect>)
        requires
            app_wf(old(self)@),
            can_step(old(self)@, action),
        ensures
            (final(self)@, effects_view(r@)) == update_spec(old(self)@, action),
            app_wf(final(self)@),
    {
        let ghost v0 = self@;
        let effects = self.step(action);
        let ghost w = self@;
        let ghost es = effects_view(effects@);
        proof {
            lemma_step_keeps_wf(v0, action);
        }
        let n = effects.len();
        let mut k: usize = 0;
        while k < n
            invariant
                k <= n,
                n == effects@.len(),
                es == effects_view(effects@),
                w.pending + fetch_count(es) <= usize::MAX,
                self@ == (AppView { pending: (w.pending + fetch_count(es.take(k as int))) as usize, ..w }),
            decreases n - k,
        {
            proof {
                lemma_fetch_count_mono(es, k as int);
            }
            let is_fetch = match &effects[k] {
                Effect::FetchThreads { .. } => true,
                Effect::FetchThread { .. } => true,
                _ => false,
            };
            assert(es.take(k + 1).drop_last() =~= es.take(k as int));
            if is_fetch {
                self.pending = self.pending + 1;
            }
            k = k + 1;
        }
        assert(es.take(n as int) =~= es);
        effects
    }
}

/// Counting fetches over a prefix never exceeds counting them over the whole.
pub proof fn lemma_fetch_count_mono(es: Seq<EffectView>, k: int)
    requires
        0 <= k < es.len(),
    ensures
        fetch_count(es.take(k + 1)) <= fetch_count(es),
    decreases es.len(),
{
    if k + 1 < es.len() {
        assert(es.drop_last().take(k + 1) =~= es.take(k + 1));
        lemma_fetch_count_mono(es.drop_last(), k);
    } else {
        assert(es.take(k + 1) =~= es);
    }
}

/// Every transition keeps the state's own invariant.
pub proof fn lemma_step_keeps_wf(v: AppView, a: Action)
    requires
        app_wf(v),
        can_step(v, a),
    ensures
        app_wf(step_spec(v, a).0),
{
    let len = focused_len(v);
    let sel = focused_sel(v);
    match a {
        Action::Move(d) => {
            lemma_focused_sel_wf(v, advanced(sel, len, d as int));
        },
        Action::SelectFirst => {
            lemma_focused_sel_wf(v, first_selected(sel, len));
        },
        Action::SelectLast => {
            lemma_focused_sel_wf(v, last_selected(sel, len));
        },
        Action::SelectIndex(i) => {
            lemma_focused_sel_wf(v, index_selected(sel, len, i));
        },
        Action::HalfPageDown => {
            lemma_focused_sel_wf(v, scrolled(sel, len, half_page(v)));
        },
        Action::HalfPageUp => {
            lemma_focused_sel_wf(v, scrolled(sel, len, -half_page(v)));
        },
        Action::LineSubmit => {
            lemma_submit_keeps_wf(v);
        },
        Action::SearchNext => {
            lemma_search_step_keeps_wf(v, true);
        },
        Action::SearchPrev => {
            lemma_search_step_keeps_wf(v, false);
        },
        _ => {},
    }
}

/// Replacing the focused selection by one in range keeps the invariant.
proof fn lemma_focused_sel_wf(v: AppView, sel: Option<usize>)
    requires
        app_wf(v),
        v.focus == SelectedField::BoardList ==> sel_in_range(sel, focused_len(v)),
    ensures
        app_wf(with_focused_sel(v, sel)),
{
}

/// Jumping to a match keeps the invariant.
proof fn lemma_search_step_keeps_wf(v: AppView, forward: bool)
    requires
        app_wf(v),
    ensures
        app_wf(search_step_spec(v, forward)),
{
    let ms = search_matches(v, v.search_query);
    if v.search_query.len() > 0 && ms.len() > 0 {
        let target = search_target(ms, focused_sel(v), forward);
        lemma_focused_sel_wf(v, index_selected(focused_sel(v), focused_len(v), target));
    }
}

/// A fresh search keeps the invariant.
proof fn lemma_run_search_keeps_wf(v: AppView, query: Seq<char>)
    requires
        app_wf(v),
    ensures
        app_wf(run_search_step(v, query)),
{
    let v1 = AppView { search_query: query, ..v };
    let ms = search_matches(v1, query);
    if query.len() > 0 && ms.len() > 0 {
        let target = search_landing(ms, focused_sel(v1));
        lemma_focused_sel_wf(v1, index_selected(focused_sel(v1), focused_len(v1), target));
    }
}

/// Submitting the bottom line keeps the invariant.
proof fn lemma_submit_keeps_wf(v: AppView)
    requires
        app_wf(v),
    ensures
        app_wf(submit_step(v).0),
{
    let text = trim_seq(v.line);
    let v1 = AppView { mode: Mode::Normal, line: Seq::empty(), ..v };
    match v.mode {
        Mode::Command => {
            if text.len() > 0 {
                if let Some(a) = parse_command_spec(text) {
                    if let Action::SelectIndex(i) = a {
                        lemma_focused_sel_wf(
                            v1,
                            index_selected(focused_sel(v1), focused_len(v1), i),
                        );
                    }
                }
            }
        },
        Mode::Search => {
            lemma_run_search_keeps_wf(v1, text);
        },
        Mode::Normal => {},
    }
}

} // verus!

verus! {

/// The header of the posts column: the opening post's number, its subject in
/// quotes when it has one, and its reply count. Empty without a selected
/// thread.
pub open spec fn thread_description_spec(v: AppView) -> Seq<char> {
    match selected_op(v) {
        Some(post) => {
            let title = html_text(post.sub@);
            let quoted = if title.len() == 0 {
                Seq::empty()
            } else {
                "\""@ + title + "\" "@
            };
            decimal(post.no as nat) + " "@ + quoted + "replies: "@ + decimal(post.replies as nat)
                + " "@
        },
        None => Seq::empty(),
    }
}

/// What the one-line status bar shows.
pub enum StatusLine {
    /// The typed line behind its `:` or `/` prompt.
    Prompt(String),
    /// A fetch is in flight: the spinner frame.
    Loading(char),
    /// The active search summary.
    Search(String),
    /// The last error.
    Error(String),
    /// Nothing.
    Idle,
}

/// The status bar: in command or search mode the prompt and the typed line;
/// otherwise, in priority order, the spinner while fetches are in flight, the
/// search summary, the last error, or nothing.
pub open spec fn status_line_spec(v: AppView) -> (int, Seq<char>) {
    if v.mode == Mode::Command {
        (0, ":"@ + v.line)
    } else if v.mode == Mode::Search {
        (0, "/"@ + v.line)
    } else if v.pending > 0 {
        (1, seq![spinner_frames()[(v.spinner as int) % (SPINNER_LEN as int)]])
    } else if search_indicator_spec(v) is Some {
        (2, search_indicator_spec(v)->0)
    } else if v.status is Some {
        (3, v.status->0)
    } else {
        (4, Seq::empty())
    }
}

impl StatusLine {
    /// The kind of line (prompt, loading, search, error, idle as 0 to 4) and
    /// its text.
    pub open spec fn view_pair(self) -> (int, Seq<char>) {
        match self {
            StatusLine::Prompt(s) => (0, s@),
            StatusLine::Loading(c) => (1, seq![c]),
            StatusLine::Search(s) => (2, s@),
            StatusLine::Error(s) => (3, s@),
            StatusLine::Idle => (4, Seq::empty()),
        }
    }
}

impl App {
    /// The header of the posts column.
    pub fn selected_thread_description(&self) -> (r: String)
        ensures
            r@ == thread_description_spec(self@),
    {
        let post = match self.selected_op() {
            Some(p) => p,
            None => {
                return String::new();
            },
        };
        let title = crate::format::format_html(post.sub());
        let mut s = String::new();
        crate::text::push_decimal(&mut s, post.no() as u64);
        s.append(" ");
        if !title.as_str().is_empty() {
            s.append("\"");
            s.append(title.as_str());
            s.append("\" ");
        }
        s.append("replies: ");
        crate::text::push_decimal(&mut s, post.replies() as u64);
        s.append(" ");
        proof {
            let t = html_text(post.sub@);
            let quoted = if t.len() == 0 { Seq::<char>::empty() } else { "\""@ + t + "\" "@ };
            assert(s@ =~= decimal(post.no as nat) + " "@ + quoted + "replies: "@ + decimal(
                post.replies as nat,
            ) + " "@);
        }
        s
    }

    /// What the status bar shows.
    pub fn status_line(&self) -> (r: StatusLine)
        ensures
            r.view_pair() == status_line_spec(self@),
    {
        if self.mode == Mode::Command {
            let mut s = ":".to_owned();
            s.append(self.line.as_str());
            return StatusLine::Prompt(s);
        }
        if self.mode == Mode::Search {
            let mut s = "/".to_owned();
            s.append(self.line.as_str());
            return StatusLine::Prompt(s);
        }
        if self.pending > 0 {
            return StatusLine::Loading(self.spinner_frame());
        }
        if let Some(indicator) = self.search_indicator() {
            return StatusLine::Search(indicator);
        }
        match &self.status {
            Some(e) => StatusLine::Error(e.clone()),
            None => StatusLine::Idle,
        }
    }
}

/// The cursor column just past `text_len` typed characters starting at
/// `x`, kept inside a row of `width` cells (the character count taken
/// modulo 2^16, as a 16-bit screen coordinate holds it).
pub open spec fn prompt_cursor_spec(x: u16, width: u16, text_len: usize) -> u16 {
    let cur = x + (text_len % 0x10000);
    let cur = if cur > u16::MAX { u16::MAX as int } else { cur };
    let max_x = x + (if width >= 1 { width - 1 } else { 0 });
    let max_x = if max_x > u16::MAX { u16::MAX as int } else { max_x };
    (if cur < max_x { cur } else { max_x }) as u16
}

/// Where the cursor parks after the typed line.
pub fn prompt_cursor(x: u16, width: u16, text_len: usize) -> (r: u16)
    ensures
        r == prompt_cursor_spec(x, width, text_len),
{
    let len16: u16 = (text_len % 0x10000) as u16;
    let cursor_x = x.saturating_add(len16);
    let max_x = x.saturating_add(width.saturating_sub(1));
    if cursor_x < max_x { cursor_x } else { max_x }
}

/// The origin of a `width` by `height` box centred in an area at (`x`,
/// `y`) of size `area_w` by `area_h`.
pub fn centered(width: u16, height: u16, x: u16, y: u16, area_w: u16, area_h: u16) -> (r: (u16, u16))
    requires
        x + (if area_w >= width { area_w - width } else { 0 }) / 2 <= u16::MAX,
        y + (if area_h >= height { area_h - height } else { 0 }) / 2 <= u16::MAX,
    ensures
        r.0 == x + (if area_w >= width { area_w - width } else { 0 }) / 2,
        r.1 == y + (if area_h >= height { area_h - height } else { 0 }) / 2,
{
    (x + area_w.saturating_sub(width) / 2, y + area_h.saturating_sub(height) / 2)
}

} // verus!

verus! {

/// An input intent never changes the count of fetches in flight by itself;
/// only the fetches it requests are added on top.
pub proof fn lemma_intent_keeps_pending(v: AppView, a: Action)
    requires
        a.is_intent(),
        can_step(v, a),
    ensures
        step_spec(v, a).0.pending == v.pending,
        update_spec(v, a).0.pending == v.pending + fetch_count(update_spec(v, a).1),
{
    match a {
        Action::LineSubmit => {
            let text = trim_seq(v.line);
            let v1 = AppView { mode: Mode::Normal, line: Seq::empty(), ..v };
            if v.mode == Mode::Search {
                let v2 = AppView { search_query: text, ..v1 };
                let ms = search_matches(v2, text);
                if text.len() > 0 && ms.len() > 0 {
                    let target = search_landing(ms, focused_sel(v2));
                    assert(with_focused_sel(v2, index_selected(focused_sel(v2), focused_len(v2), target)).pending
                        == v.pending);
                }
            }
        },
        Action::SearchNext => {},
        Action::SearchPrev => {},
        _ => {},
    }
}

/// A single effect list holds at most one fetch.
proof fn lemma_fetch_count_small(es: Seq<EffectView>)
    requires
        es.len() <= 1,
    ensures
        fetch_count(es) <= 1,
        fetch_count(es) == 1 <==> es.len() == 1 && es[0].is_fetch(),
{
    if es.len() == 1 {
        assert(es.drop_last() =~= Seq::<EffectView>::empty());
        assert(fetch_count(es.drop_last()) == 0);
        assert(es.last() == es[0]);
    } else {
        assert(fetch_count(es) == 0);
    }
}

/// Every transition asks for at most one effect.
pub proof fn lemma_at_most_one_effect(v: AppView, a: Action)
    ensures
        step_spec(v, a).1.len() <= 1,
        fetch_count(step_spec(v, a).1) <= 1,
{
    lemma_fetch_count_small(step_spec(v, a).1);
}

/// A fetch counts as in flight until its result comes back: after an input
/// that requests a fetch, the result (threads, a thread, or a failure) brings
/// the count back to where it was.
pub proof fn lemma_fetch_round_trip(v: AppView, a: Action, result: Action)
    requires
        a.is_intent(),
        can_step(v, a),
        update_spec(v, a).1.len() == 1,
        update_spec(v, a).1[0].is_fetch(),
        result is ThreadsLoaded || result is ThreadLoaded || result is LoadFailed,
    ensures
        update_spec(update_spec(v, a).0, result).0.pending == v.pending,
{
    lemma_intent_keeps_pending(v, a);
    lemma_fetch_count_small(update_spec(v, a).1);
}

/// Toggling the help overlay twice leaves the state as it was.
pub proof fn lemma_toggle_help_twice(v: AppView)
    ensures
        update_spec(update_spec(v, Action::ToggleHelp).0, Action::ToggleHelp).0 == v,
        update_spec(v, Action::ToggleHelp).0.help_shown == !v.help_shown,
{
    let w = update_spec(v, Action::ToggleHelp).0;
    assert(w == toggle_help_step(v));
    assert(update_spec(w, Action::ToggleHelp).0 =~= v);
}

/// Moving between columns with Enter or Back ends the active search.
pub proof fn lemma_changing_panes_clears_search(v: AppView, a: Action)
    requires
        a is Enter || a is Back,
        step_spec(v, a).0.focus != v.focus,
    ensures
        step_spec(v, a).0.search_query == Seq::<char>::empty(),
{
}

/// Entering a board and going back returns to the boards column, shown.
pub proof fn lemma_enter_then_back(v: AppView)
    requires
        v.focus == SelectedField::BoardList,
    ensures
        ({
            let w = update_spec(v, Action::Enter).0;
            let u = update_spec(w, Action::Back).0;
            &&& w.focus == SelectedField::ThreadList
            &&& u.focus == SelectedField::BoardList
            &&& u.shown_board_list
            &&& u.search_query == Seq::<char>::empty()
        }),
{
}

/// Escape in normal mode ends the search and closes the help overlay; in a
/// line mode it cancels the line.
pub proof fn lemma_escape(v: AppView)
    ensures
        v.mode == Mode::Normal ==> update_spec(v, Action::Escape).0.search_query
            == Seq::<char>::empty() && !update_spec(v, Action::Escape).0.help_shown,
        v.mode != Mode::Normal ==> update_spec(v, Action::Escape).0.mode == Mode::Normal
            && update_spec(v, Action::Escape).0.line == Seq::<char>::empty(),
{
}

/// The spinner moves only while a fetch is in flight.
pub proof fn lemma_tick(v: AppView)
    ensures
        v.pending == 0 ==> update_spec(v, Action::Tick).0 == v,
        v.pending > 0 ==> update_spec(v, Action::Tick).0.spinner == (v.spinner + 1) % 4,
{
    let w = update_spec(v, Action::Tick).0;
    if v.pending == 0 {
        assert(w =~= v);
    }
}

} // verus!

verus! {

/// The matches below `n` are exactly the matching rows below `n`, in strictly
/// increasing order.
pub proof fn lemma_matches_below(v: AppView, q: Seq<char>, n: int)
    requires
        0 <= n <= usize::MAX + 1,
    ensures
        ({
            let ms = matches_below(v, q, n);
            &&& forall|k: int| 0 <= k < ms.len() ==> (#[trigger] ms[k]) < n
            &&& forall|i: int, j: int| 0 <= i < j < ms.len() ==> ms[i] < ms[j]
            &&& forall|x: int| 0 <= x < n ==> (is_match(v, q, x) <==> ms.contains(x as usize))
        }),
    decreases n,
{
    if n > 0 {
        lemma_matches_below(v, q, n - 1);
        let m = matches_below(v, q, n - 1);
        let ms = matches_below(v, q, n);
        assert forall|x: int| 0 <= x < n implies (is_match(v, q, x) <==> ms.contains(
            x as usize,
        )) by {
            if is_match(v, q, n - 1) {
                assert(ms == m.push((n - 1) as usize));
                if x < n - 1 {
                    if m.contains(x as usize) {
                        let k = choose|k: int| 0 <= k < m.len() && m[k] == x as usize;
                        assert(ms[k] == x as usize);
                        assert(ms.contains(x as usize));
                    }
                    if ms.contains(x as usize) {
                        let k = choose|k: int| 0 <= k < ms.len() && ms[k] == x as usize;
                        assert(ms[m.len() as int] == (n - 1) as usize);
                        assert(k < m.len());
                        assert(m[k] == x as usize);
                        assert(m.contains(x as usize));
                    }
                } else {
                    assert(ms[m.len() as int] == x as usize);
                    assert(ms.contains(x as usize));
                }
            } else {
                assert(ms == m);
                if x == n - 1 {
                    if m.contains(x as usize) {
                        let k = choose|k: int| 0 <= k < m.len() && m[k] == x as usize;
                        assert(m[k] < n - 1);
                    }
                }
            }
        }
    }
}

/// Two states that show the same rows in the same focused pane have the same
/// matches.
pub proof fn lemma_matches_same_rows(v: AppView, w: AppView, q: Seq<char>, n: int)
    requires
        v.focus == w.focus,
        v.boards == w.boards,
        v.threads == w.threads,
        v.posts == w.posts,
    ensures
        matches_below(v, q, n) == matches_below(w, q, n),
    decreases n,
{
    if n > 0 {
        lemma_matches_same_rows(v, w, q, n - 1);
    }
}

/// In a strictly increasing `ms`, the first entry above `ms[p]` is the next one.
proof fn lemma_find_above_next(ms: Seq<usize>, p: int, k: int)
    requires
        0 <= k <= p + 1,
        0 <= p < ms.len(),
        forall|i: int, j: int| 0 <= i < j < ms.len() ==> ms[i] < ms[j],
    ensures
        find_above(ms, ms[p], k) == if p + 1 < ms.len() { Some(ms[p + 1]) } else { None },
    decreases ms.len() - k,
{
    if k < p + 1 && k < ms.len() {
        if k < p {
            assert(ms[k] < ms[p]);
        }
        lemma_find_above_next(ms, p, k + 1);
    }
}

/// In a strictly increasing `ms`, the last entry below `ms[p]` is the one
/// before it.
proof fn lemma_find_below_prev(ms: Seq<usize>, p: int, k: int)
    requires
        p - 1 <= k < ms.len(),
        0 <= p < ms.len(),
        forall|i: int, j: int| 0 <= i < j < ms.len() ==> ms[i] < ms[j],
    ensures
        find_below(ms, ms[p], k) == if p > 0 { Some(ms[p - 1]) } else { None },
    decreases k + 1,
{
    if k > p - 1 && k >= 0 {
        if k > p {
            assert(ms[p] < ms[k]);
        }
        lemma_find_below_prev(ms, p, k - 1);
    }
}

/// With the selection on a match, `n` moves to the next match (the first one
/// after the last), and `N` moves to the previous one (the last one before the
/// first).
proof fn lemma_search_neighbours(v: AppView, p: int)
    requires
        focused_len(v) <= usize::MAX,
        v.search_query.len() > 0,
        0 <= p < search_matches(v, v.search_query).len(),
        focused_sel(v) == Some(search_matches(v, v.search_query)[p]),
    ensures
        ({
            let ms = search_matches(v, v.search_query);
            let next = if p + 1 < ms.len() { ms[p + 1] } else { ms[0] };
            let prev = if p > 0 { ms[p - 1] } else { ms.last() };
            &&& search_step_spec(v, true) == with_focused_sel(v, Some(next))
            &&& search_step_spec(v, false) == with_focused_sel(v, Some(prev))
        }),
{
    let ms = search_matches(v, v.search_query);
    lemma_matches_below(v, v.search_query, focused_len(v) as int);
    lemma_find_above_next(ms, p, 0);
    lemma_find_below_prev(ms, p, ms.len() - 1);
}

/// Changing the focused selection and changing it back restores the state.
proof fn lemma_reselect(v: AppView, sel: Option<usize>)
    ensures
        with_focused_sel(with_focused_sel(v, sel), focused_sel(v)) == v,
        focused_sel(with_focused_sel(v, sel)) == sel,
        focused_len(with_focused_sel(v, sel)) == focused_len(v),
{
    assert(with_focused_sel(with_focused_sel(v, sel), focused_sel(v)) =~= v);
}

/// With the selection on a match, stepping one way and then the other comes
/// back to it.
proof fn lemma_search_step_back(v: AppView, p: int, forward: bool)
    requires
        focused_len(v) <= usize::MAX,
        v.search_query.len() > 0,
        0 <= p < search_matches(v, v.search_query).len(),
        focused_sel(v) == Some(search_matches(v, v.search_query)[p]),
    ensures
        search_step_spec(search_step_spec(v, forward), !forward) == v,
{
    let q = v.search_query;
    let ms = search_matches(v, q);
    let n = ms.len() as int;
    lemma_matches_below(v, q, focused_len(v) as int);
    lemma_search_neighbours(v, p);
    let p2 = if forward {
        if p + 1 < n { p + 1 } else { 0 }
    } else {
        if p > 0 { p - 1 } else { n - 1 }
    };
    let w = with_focused_sel(v, Some(ms[p2]));
    assert(search_step_spec(v, forward) == w);
    lemma_reselect(v, Some(ms[p2]));
    lemma_matches_same_rows(v, w, q, focused_len(v) as int);
    assert(search_matches(w, q) == ms);
    lemma_search_neighbours(w, p2);
    assert(search_step_spec(w, !forward) == with_focused_sel(w, focused_sel(v)));
}

/// With the selection on a match, `n` then `N` comes back to it, and so does
/// `N` then `n`: the state is as it was.
pub proof fn lemma_search_next_prev_round_trip(v: AppView)
    requires
        focused_len(v) <= usize::MAX,
        v.search_query.len() > 0,
        focused_sel(v) matches Some(cur) && search_matches(v, v.search_query).contains(cur),
    ensures
        step_spec(step_spec(v, Action::SearchNext).0, Action::SearchPrev).0 == v,
        step_spec(step_spec(v, Action::SearchPrev).0, Action::SearchNext).0 == v,
{
    let ms = search_matches(v, v.search_query);
    let cur = focused_sel(v)->0;
    let p = choose|p: int| 0 <= p < ms.len() && ms[p] == cur;
    lemma_search_step_back(v, p, true);
    lemma_search_step_back(v, p, false);
}

} // verus!

verus! {

/// The action asks for a network fetch.
pub open spec fn requests_fetch(v: AppView, a: Action) -> bool {
    match a {
        Action::Enter => match v.focus {
            SelectedField::BoardList => true,
            SelectedField::ThreadList => selected_op(v) is Some,
            SelectedField::Thread => false,
        },
        Action::NextPage => v.focus == SelectedField::ThreadList,
        Action::PrevPage => v.focus == SelectedField::ThreadList,
        Action::Reload => reload_needs_board(v),
        Action::LineSubmit => {
            &&& v.mode == Mode::Command
            &&& parse_command_spec(trim_seq(v.line)) == Some(Action::Reload)
            &&& reload_needs_board(v)
        },
        _ => false,
    }
}

/// An input intent asks for exactly the fetches `requests_fetch` names.
proof fn lemma_fetches_of_intent(v: AppView, a: Action)
    requires
        a.is_intent(),
    ensures
        fetch_count(step_spec(v, a).1) == if requests_fetch(v, a) { 1nat } else { 0nat },
{
    lemma_fetch_count_small(step_spec(v, a).1);
    lemma_at_most_one_effect(v, a);
    if a is LineSubmit {
        let text = trim_seq(v.line);
        if v.mode == Mode::Command && text.len() == 0 {
            assert(parse_command_spec(text) is None) by {
                assert(!(text == "q"@ || text == "quit"@)) by {
                    reveal_strlit("q");
                    reveal_strlit("quit");
                }
                assert(!(text == "r"@ || text == "reload"@)) by {
                    reveal_strlit("r");
                    reveal_strlit("reload");
                }
                assert(!(text == "help"@ || text == "h"@)) by {
                    reveal_strlit("help");
                    reveal_strlit("h");
                }
            }
        }
    }
}

impl App {
    /// The action reads the board that board-scoped actions use.
    fn needs_board(&self, action: &Action) -> (r: bool)
        ensures
            r == needs_board(self@, *action),
    {
        let op = self.selected_op().is_some();
        let reload = match self.focus {
            SelectedField::ThreadList => true,
            SelectedField::Thread => op,
            SelectedField::BoardList => false,
        };
        match action {
            Action::Enter => match self.focus {
                SelectedField::BoardList => true,
                SelectedField::ThreadList => op,
                SelectedField::Thread => false,
            },
            Action::NextPage => self.focus == SelectedField::ThreadList,
            Action::PrevPage => self.focus == SelectedField::ThreadList,
            Action::Reload => reload,
            Action::OpenThread | Action::CopyThread => match self.focus {
                SelectedField::BoardList => true,
                SelectedField::ThreadList => op,
                SelectedField::Thread => op && self.selected_post().is_some(),
            },
            Action::OpenMedia | Action::CopyMedia => {
                let post = match self.focus {
                    SelectedField::BoardList => None,
                    SelectedField::ThreadList => self.selected_op(),
                    SelectedField::Thread => self.selected_post(),
                };
                match post {
                    Some(p) => p.tim.is_some() && p.ext.is_some(),
                    None => false,
                }
            },
            Action::LineSubmit => self.mode == Mode::Command && reload && self.line_is_reload(),
            _ => false,
        }
    }

    /// The bottom line, trimmed, is the reload command.
    fn line_is_reload(&self) -> (r: bool)
        ensures
            r == (parse_command_spec(trim_seq(self.line@)) == Some(Action::Reload)),
    {
        let text = crate::text::trim(self.line.as_str());
        match parse_command(text.as_str()) {
            Some(Action::Reload) => true,
            _ => false,
        }
    }

    /// Whether `update` can take `action` in this state: it reads a board only
    /// when there is one, moves the page cursor only within eight bits, and
    /// has room to count a requested fetch as in flight. Where this is false,
    /// applying the action is a fault.
    pub fn can_update(&self, action: &Action) -> (r: bool)
        requires
            app_wf(self@),
        ensures
            r == can_step(self@, *action),
    {
        let needs = self.needs_board(action);
        if needs && self.boards.items.len() == 0 {
            return false;
        }
        match action {
            Action::NextPage => if self.focus == SelectedField::ThreadList {
                let b = self.selected_board();
                let count: u8 = b.pages as u8;
                assert(count == page_count(b)) by {
                    let p = b.pages;
                    assert(p as u8 == (p % 256) as u8) by (bit_vector);
                }
                if !(self.thread_list.page == count || self.thread_list.page < 255) {
                    return false;
                }
            },
            Action::PrevPage => if self.focus == SelectedField::ThreadList {
                if self.thread_list.page == 0 {
                    return false;
                }
            },
            Action::Move(d) => {
                if !can_advance(self.focused_selected(), self.focused_len(), *d) {
                    return false;
                }
            },
            Action::HalfPageDown | Action::HalfPageUp => {
                let h = self.focused_height() / 2;
                let rows: usize = if h < 1 { 1 } else { h };
                let delta: isize = match action {
                    Action::HalfPageDown => rows as isize,
                    _ => -(rows as isize),
                };
                if !can_scroll(self.focused_selected(), self.focused_len(), delta) {
                    return false;
                }
            },
            _ => {},
        }
        match action {
            Action::ThreadsLoaded(_) | Action::ThreadLoaded(_) | Action::LoadFailed(_) => {
                proof {
                    lemma_at_most_one_effect(self@, *action);
                    assert(step_spec(self@, *action).1.len() == 0);
                    assert(fetch_count(step_spec(self@, *action).1) == 0);
                }
                true
            },
            _ => {
                proof {
                    lemma_fetches_of_intent(self@, *action);
                    lemma_intent_keeps_pending_raw(self@, *action);
                }
                let fetch = match action {
                    Action::Enter | Action::NextPage | Action::PrevPage | Action::Reload
                    | Action::LineSubmit => needs,
                    _ => false,
                };
                !fetch || self.pending < usize::MAX
            },
        }
    }
}

/// An input intent leaves the count of fetches in flight as it was, before
/// its own fetches are counted.
proof fn lemma_intent_keeps_pending_raw(v: AppView, a: Action)
    requires
        a.is_intent(),
    ensures
        step_spec(v, a).0.pending == v.pending,
{
    if a is LineSubmit {
        let text = trim_seq(v.line);
        let v1 = AppView { mode: Mode::Normal, line: Seq::empty(), ..v };
        if v.mode == Mode::Search {
            let v2 = AppView { search_query: text, ..v1 };
            let ms = search_matches(v2, text);
            if text.len() > 0 && ms.len() > 0 {
                let target = search_landing(ms, focused_sel(v2));
                assert(with_focused_sel(v2, index_selected(focused_sel(v2), focused_len(v2), target)).pending
                    == v.pending);
            }
        }
    }
}

} // verus!

verus! {

/// In a strictly increasing sequence, the first entry at index `k` or later
/// that is at least `cur` is the smallest such entry.
proof fn lemma_find_at_least_least(ms: Seq<usize>, cur: usize, k: int)
    requires
        0 <= k,
        forall|i: int, j: int| 0 <= i < j < ms.len() ==> ms[i] < ms[j],
    ensures
        find_at_least(ms, cur, k) matches Some(t) ==> t >= cur && ms.contains(t) && forall|i: int|
            k <= i < ms.len() && ms[i] >= cur ==> t <= #[trigger] ms[i],
        find_at_least(ms, cur, k) is None ==> forall|i: int|
            k <= i < ms.len() ==> #[trigger] ms[i] < cur,
    decreases ms.len() - k,
{
    if k < ms.len() {
        if ms[k] >= cur {
            assert(ms[k] == ms[k]);
        } else {
            lemma_find_at_least_least(ms, cur, k + 1);
        }
    }
}

/// Submitting a search for a query with matches in the focused column
/// selects the first match at or after the current row; when no match lies
/// at or after it, or nothing is selected, the first match. A row that
/// already matches stays selected, a query without matches leaves the
/// selection alone, and the query is remembered for n and N.
pub proof fn lemma_search_lands_at_or_after(v: AppView)
    requires
        v.mode == Mode::Search,
        trim_seq(v.line).len() > 0,
        focused_len(v) <= usize::MAX,
    ensures
        ({
            let q = trim_seq(v.line);
            let w = update_spec(v, Action::LineSubmit).0;
            let len = focused_len(v) as int;
            &&& w.search_query == q
            &&& w.mode == Mode::Normal
            &&& (forall|x: int| 0 <= x < len ==> !is_match(v, q, x)) ==> focused_sel(w)
                == focused_sel(v)
            &&& focused_sel(v) is Some ==> forall|t: int|
                focused_sel(v)->0 <= t < len && #[trigger] is_match(v, q, t) && (forall|y: int|
                    focused_sel(v)->0 <= y < t ==> !is_match(v, q, y)) ==> focused_sel(w) == Some(
                    t as usize,
                )
            &&& forall|t: int|
                0 <= t < len && #[trigger] is_match(v, q, t) && (forall|y: int|
                    0 <= y < t ==> !is_match(v, q, y)) && (match focused_sel(v) {
                    Some(cur) => forall|y: int| cur <= y < len ==> !is_match(v, q, y),
                    None => true,
                }) ==> focused_sel(w) == Some(t as usize)
            &&& (focused_sel(v) is Some && focused_sel(v)->0 < len && is_match(
                v,
                q,
                focused_sel(v)->0 as int,
            )) ==> focused_sel(w) == focused_sel(v)
        }),
{
    let q = trim_seq(v.line);
    let len = focused_len(v) as int;
    let v1 = AppView { mode: Mode::Normal, line: Seq::empty(), ..v };
    let v2 = AppView { search_query: q, ..v1 };
    let w = update_spec(v, Action::LineSubmit).0;
    assert(step_spec(v, Action::LineSubmit) == (run_search_step(v1, q), no_effects()));
    assert(fetch_count(no_effects()) == 0);
    lemma_matches_same_rows(v2, v, q, len);
    lemma_matches_below(v, q, len);
    let m = matches_below(v, q, len);
    assert(search_matches(v2, q) == m);
    assert(forall|x: int| 0 <= x < len && is_match(v, q, x) ==> m.contains(x as usize));
    assert(forall|i: int| 0 <= i < m.len() ==> is_match(v, q, m[i] as int) && m[i] < len) by {
        assert forall|i: int| 0 <= i < m.len() implies is_match(v, q, m[i] as int) && m[i]
            < len by {
            assert(m.contains(m[i]));
        }
    }
    if m.len() == 0 {
        assert(w == AppView { pending: v2.pending, ..v2 });
    } else {
        let target = search_landing(m, focused_sel(v2));
        assert(w == AppView {
            pending: v2.pending,
            ..with_focused_sel(v2, index_selected(focused_sel(v2), focused_len(v2), target))
        });
        assert(m.contains(target)) by {
            match focused_sel(v2) {
                Some(cur) => {
                    lemma_find_at_least_least(m, cur, 0);
                    if find_at_least(m, cur, 0) is None {
                        assert(m[0] == m[0]);
                    }
                },
                None => {
                    assert(m[0] == m[0]);
                },
            }
        }
        let ti = choose|i: int| 0 <= i < m.len() && m[i] == target;
        assert(target < len);
        assert(focused_sel(w) == Some(target));
        if focused_sel(v) is Some {
            let cur = focused_sel(v)->0;
            assert forall|t: int|
                cur <= t < len && #[trigger] is_match(v, q, t) && (forall|y: int|
                    cur <= y < t ==> !is_match(v, q, y)) implies focused_sel(w) == Some(
                t as usize,
            ) by {
            lemma_find_at_least_least(m, cur, 0);
            assert(m.contains(t as usize));
            let j = choose|j: int| 0 <= j < m.len() && m[j] == t as usize;
            assert(m[j] >= cur);
            assert(is_match(v, q, target as int));
        }
        }
        assert forall|t: int|
            0 <= t < len && #[trigger] is_match(v, q, t) && (forall|y: int|
                0 <= y < t ==> !is_match(v, q, y)) && (match focused_sel(v) {
                Some(cur) => forall|y: int| cur <= y < len ==> !is_match(v, q, y),
                None => true,
            }) implies focused_sel(w) == Some(t as usize) by {
            assert(m.contains(t as usize));
            let j = choose|j: int| 0 <= j < m.len() && m[j] == t as usize;
            assert(is_match(v, q, m[0] as int));
            match focused_sel(v) {
                Some(cur) => {
                    lemma_find_at_least_least(m, cur, 0);
                    if find_at_least(m, cur, 0) is Some {
                        let x = find_at_least(m, cur, 0)->0;
                        let k = choose|k: int| 0 <= k < m.len() && m[k] == x;
                        assert(is_match(v, q, m[k] as int));
                    }
                    assert(target == m[0]);
                },
                None => {},
            }
            if j > 0 {
                assert(m[0] < m[j]);
            }
        }
        if focused_sel(v) is Some && focused_sel(v)->0 < len && is_match(
            v,
            q,
            focused_sel(v)->0 as int,
        ) {
            let cur = focused_sel(v)->0;
            lemma_find_at_least_least(m, cur, 0);
            assert(m.contains(cur));
            let j = choose|j: int| 0 <= j < m.len() && m[j] == cur;
            assert(m[j] >= cur);
            assert(is_match(v, q, target as int));
        }
    }
}

/// Ctrl-d and Ctrl-u move the selection of the focused column by half its
/// visible height, at least one row, from the selected row (the first when
/// none is selected), stopping at the first and last rows: the number of
/// rows in the column only bounds the move.
pub proof fn lemma_half_page_moves_by_half_the_height(v: AppView)
    requires
        0 < focused_len(v) <= isize::MAX,
        focused_sel(v) matches Some(cur) ==> cur < focused_len(v),
    ensures
        ({
            let step: int = if focused_height(v) / 2 >= 1 {
                (focused_height(v) / 2) as int
            } else {
                1
            };
            let len = focused_len(v) as int;
            let start: int = match focused_sel(v) {
                Some(cur) => cur as int,
                None => 0,
            };
            &&& focused_sel(update_spec(v, Action::HalfPageDown).0) == Some(
                (if start + step < len {
                    start + step
                } else {
                    len - 1
                }) as usize,
            )
            &&& focused_sel(update_spec(v, Action::HalfPageUp).0) == Some(
                (if start - step > 0 {
                    start - step
                } else {
                    0
                }) as usize,
            )
            &&& update_spec(v, Action::HalfPageDown).1.len() == 0
            &&& update_spec(v, Action::HalfPageUp).1.len() == 0
        }),
{
    assert(fetch_count(no_effects()) == 0);
}

/// Reload in the thread list fetches again the page that the page cursor is
/// on, of the board in use, and leaves the cursor there; the fetch counts as
/// in flight.
pub proof fn lemma_reload_refetches_current_page(v: AppView)
    requires
        v.focus == SelectedField::ThreadList,
        v.pending < usize::MAX,
    ensures
        update_spec(v, Action::Reload).1 == seq![
            EffectView::FetchThreads { board: v.boards[board_index(v)].board@, page: v.page },
        ],
        update_spec(v, Action::Reload).0.page == v.page,
        update_spec(v, Action::Reload).0.pending == v.pending + 1,
{
    let es = step_spec(v, Action::Reload).1;
    assert(es == seq![
        EffectView::FetchThreads { board: v.boards[board_index(v)].board@, page: v.page },
    ]);
    assert(es.drop_last() =~= Seq::<EffectView>::empty());
    assert(fetch_count(Seq::<EffectView>::empty()) == 0);
    assert(es.last().is_fetch());
    assert(fetch_count(es) == 1);
}

/// Reloading right after turning a page of the thread list fetches the same
/// page of the same board as the page turn did, in either direction.
pub proof fn lemma_reload_after_paging_fetches_same_page(v: AppView)
    requires
        v.focus == SelectedField::ThreadList,
    ensures
        update_spec(update_spec(v, Action::NextPage).0, Action::Reload).1 == update_spec(
            v,
            Action::NextPage,
        ).1,
        update_spec(update_spec(v, Action::PrevPage).0, Action::Reload).1 == update_spec(
            v,
            Action::PrevPage,
        ).1,
{
}

/// The header of the posts column: the opening post's number, then the plain
/// text of its subject in quotes (left out when the plain text is empty),
/// then its reply count; empty when no thread with posts is selected.
pub proof fn lemma_thread_header_shows_plain_subject(v: AppView)
    ensures
        selected_op(v) is None ==> thread_description_spec(v) == Seq::<char>::empty(),
        selected_op(v) matches Some(op) ==> ({
            let plain = html_text(op.sub@);
            let head = decimal(op.no as nat) + " "@;
            let tail = "replies: "@ + decimal(op.replies as nat) + " "@;
            &&& plain.len() == 0 ==> thread_description_spec(v) == head + tail
            &&& plain.len() > 0 ==> thread_description_spec(v) == head + "\""@ + plain + "\" "@
                + tail
        }),
{
    if selected_op(v) is Some {
        let op = selected_op(v)->0;
        let plain = html_text(op.sub@);
        if plain.len() == 0 {
            assert(decimal(op.no as nat) + " "@ + Seq::<char>::empty() + "replies: "@ + decimal(
                op.replies as nat,
            ) + " "@ =~= decimal(op.no as nat) + " "@ + ("replies: "@ + decimal(
                op.replies as nat,
            ) + " "@));
        } else {
            assert(decimal(op.no as nat) + " "@ + ("\""@ + plain + "\" "@) + "replies: "@
                + decimal(op.replies as nat) + " "@ =~= decimal(op.no as nat) + " "@ + "\""@
                + plain + "\" "@ + ("replies: "@ + decimal(op.replies as nat) + " "@));
        }
    }
}

/// Two selected threads whose opening posts agree in number, reply count
/// and the plain text of the subject get the same header, however their
/// subjects are marked up.
pub proof fn lemma_thread_header_ignores_markup(v: AppView, w: AppView)
    requires
        selected_op(v) is Some,
        selected_op(w) is Some,
        selected_op(v)->0.no == selected_op(w)->0.no,
        selected_op(v)->0.replies == selected_op(w)->0.replies,
        html_text(selected_op(v)->0.sub@) == html_text(selected_op(w)->0.sub@),
    ensures
        thread_description_spec(v) == thread_description_spec(w),
{
}

/// Submitting `:N` on the command line, for a row number N of at least one,
/// selects row N of the focused column counted from one, or its last row
/// when N is past the end, exactly as the action that selects row N - 1
/// does; the line closes and nothing else is asked for.
pub proof fn lemma_row_number_command(v: AppView)
    requires
        v.mode == Mode::Command,
        trim_seq(v.line).len() > 0,
        all_digits(trim_seq(v.line)),
        1 <= digits_value(trim_seq(v.line)) <= usize::MAX,
        focused_len(v) > 0,
    ensures
        ({
            let n = digits_value(trim_seq(v.line)) as int;
            let len = focused_len(v) as int;
            let (w, es) = update_spec(v, Action::LineSubmit);
            &&& focused_sel(w) == Some((if n <= len { n - 1 } else { len - 1 }) as usize)
            &&& focused_sel(w) == focused_sel(
                update_spec(v, Action::SelectIndex((n - 1) as usize)).0,
            )
            &&& es.len() == 0
            &&& w.mode == Mode::Normal
            &&& w.line == Seq::<char>::empty()
        }),
{
    let t = trim_seq(v.line);
    let n = digits_value(t);
    assert(is_digit_char(t[0]));
    reveal_strlit("q");
    reveal_strlit("quit");
    reveal_strlit("r");
    reveal_strlit("reload");
    reveal_strlit("help");
    reveal_strlit("h");
    assert(t != "q"@ && t != "quit"@ && t != "r"@ && t != "reload"@ && t != "help"@ && t
        != "h"@) by {
        if t == "q"@ || t == "quit"@ {
            assert(t[0] == 'q');
        }
        if t == "r"@ || t == "reload"@ {
            assert(t[0] == 'r');
        }
        if t == "help"@ || t == "h"@ {
            assert(t[0] == 'h');
        }
    }
    assert(parse_command_spec(t) == Some(Action::SelectIndex((n - 1) as usize)));
    assert(fetch_count(no_effects()) == 0);
}

} // verus!
