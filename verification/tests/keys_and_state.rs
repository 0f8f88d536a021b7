use nanashi::action::{Action, Effect};
use nanashi::api::from_name;
use nanashi::app::{centered, parse_command, prompt_cursor, App, Mode, SelectedField, StatusLine};
use nanashi::component::{content_height, ListSelection};
use nanashi::input::{
    apply_count, as_count_digit, ctrl, help_counts_hint, help_entries, help_grid, help_popup_size,
    help_text, key, normalize,
    InputEngine, KeyCode, KeyEvent, KeyModifiers, Keymap,
};
use nanashi::keybinds::{action_for, display_key, parse_keybind};
use nanashi::model::{Board, Thread, ThreadList, ThreadPost, FIRST_PAGE};
use nanashi::panes::{BoardsPane, RepliesPane, ThreadsPane};

fn a_board(name: &str, title: &str, pages: u32) -> Board {
    let mut b = Board::default();
    b.board = name.to_string();
    b.title = title.to_string();
    b.pages = pages;
    b
}

fn a_post(no: usize, sub: &str, com: &str) -> ThreadPost {
    let mut p = ThreadPost::default();
    p.no = no;
    p.sub = sub.to_string();
    p.com = com.to_string();
    p
}

fn an_app() -> App {
    let boards = vec![a_board("g", "Technology", 10), a_board("v", "Video Games", 10)];
    let mut app = App::new(boards, from_name("4chan").unwrap());
    app.set_shown_board_list(true);
    app
}

fn app_in_thread() -> App {
    let mut app = an_app();
    app.update(Action::Enter);
    let mut op = a_post(100, "Daily thread", "hello");
    op.replies = 2;
    op.tim = Some(1700000000123);
    op.ext = Some(".png".to_string());
    app.update(Action::ThreadsLoaded(vec![Thread { posts: vec![op] }]));
    app.update(Action::Enter);
    let mut reply = a_post(101, "", "first reply");
    reply.tim = Some(1700000000456);
    reply.ext = Some(".jpg".to_string());
    app.update(Action::ThreadLoaded(vec![a_post(100, "Daily thread", "hello"), reply]));
    app
}

#[test]
fn display_then_parse_gives_the_key_back() {
    let keys = [
        KeyEvent::new(KeyCode::Char('a'), KeyModifiers::none()),
        KeyEvent::new(KeyCode::Char('Z'), KeyModifiers::control()),
        KeyEvent::new(KeyCode::Char('^'), KeyModifiers::alt()),
        KeyEvent::new(KeyCode::PageDown, KeyModifiers::none()),
        KeyEvent::new(KeyCode::Esc, KeyModifiers::none()),
    ];
    for k in keys.iter() {
        assert_eq!(parse_keybind(&display_key(k)), Ok(*k));
    }
    assert_eq!(display_key(&keys[1]), "Ctrl Z");
    assert_eq!(display_key(&keys[2]), "Alt ^");
    assert_eq!(display_key(&keys[3]), "PageDown");
}

#[test]
fn parse_keybind_is_case_blind_for_names() {
    assert_eq!(parse_keybind("pagedown"), Ok(KeyEvent::new(KeyCode::PageDown, KeyModifiers::none())));
    assert_eq!(parse_keybind("CTRL x"), Ok(ctrl('x')));
    assert_eq!(parse_keybind("alt Q"), Ok(KeyEvent::new(KeyCode::Char('Q'), KeyModifiers::alt())));
}

#[test]
fn matches_compares_code_and_modifiers() {
    assert!(nanashi::keybinds::matches(&key('a'), &key('a')));
    assert!(!nanashi::keybinds::matches(&key('a'), &ctrl('a')));
    assert!(!nanashi::keybinds::matches(&key('a'), &key('b')));
}

#[test]
fn normalize_drops_shift_on_characters_only() {
    let shifted = KeyEvent::new(KeyCode::Char('G'), KeyModifiers::shift());
    assert_eq!(normalize(shifted), key('G'));
    let back_tab = KeyEvent::new(KeyCode::BackTab, KeyModifiers::shift());
    assert_eq!(normalize(back_tab), back_tab);
}

#[test]
fn count_digits() {
    assert_eq!(as_count_digit(key('0')), Some(0));
    assert_eq!(as_count_digit(key('7')), Some(7));
    assert_eq!(as_count_digit(key('x')), None);
    assert_eq!(as_count_digit(ctrl('5')), None);
}

#[test]
fn counts_fold_into_moves_and_select_last() {
    assert!(matches!(apply_count(Action::Move(1), Some(4)), Action::Move(4)));
    assert!(matches!(apply_count(Action::Move(-1), Some(4)), Action::Move(-4)));
    assert!(matches!(apply_count(Action::SelectLast, Some(0)), Action::SelectIndex(0)));
    assert!(matches!(apply_count(Action::SelectLast, Some(8)), Action::SelectIndex(7)));
    assert!(matches!(apply_count(Action::Reload, Some(8)), Action::Reload));
    assert!(matches!(apply_count(Action::Move(1), None), Action::Move(1)));
}

#[test]
fn engine_resets_after_a_binding() {
    let keymap = Keymap::vim();
    let mut engine = InputEngine::new();
    assert!(engine.on_key(key('4'), &keymap).is_none());
    assert!(matches!(engine.on_key(key('j'), &keymap), Some(Action::Move(4))));
    assert_eq!(engine.count, None);
    assert!(engine.buffer.is_empty());
    assert!(matches!(engine.on_key(key('j'), &keymap), Some(Action::Move(1))));
}

#[test]
fn mode_keys_and_line_keys() {
    let keymap = Keymap::vim();
    let mut engine = InputEngine::new();
    assert!(matches!(
        engine.on_key_in_mode(Mode::Normal, key(':'), &keymap),
        Some(Action::EnterCommand)
    ));
    assert!(matches!(
        engine.on_key_in_mode(Mode::Normal, key('/'), &keymap),
        Some(Action::EnterSearch)
    ));
    assert!(matches!(engine.on_key_in_mode(Mode::Normal, key('n'), &keymap), Some(Action::SearchNext)));
    assert!(matches!(engine.on_key_in_mode(Mode::Normal, key('N'), &keymap), Some(Action::SearchPrev)));
    let esc = KeyEvent::new(KeyCode::Esc, KeyModifiers::none());
    assert!(matches!(engine.on_key_in_mode(Mode::Normal, esc, &keymap), Some(Action::Escape)));
    assert!(matches!(engine.on_key_in_mode(Mode::Command, key('j'), &keymap), Some(Action::LineInput('j'))));
    let enter = KeyEvent::new(KeyCode::Enter, KeyModifiers::none());
    assert!(matches!(engine.on_key_in_mode(Mode::Search, enter, &keymap), Some(Action::LineSubmit)));
    let bs = KeyEvent::new(KeyCode::Backspace, KeyModifiers::none());
    assert!(matches!(engine.on_key_in_mode(Mode::Search, bs, &keymap), Some(Action::LineBackspace)));
    assert!(engine.on_key_in_mode(Mode::Command, ctrl('d'), &keymap).is_none());
}

#[test]
fn mode_key_waits_behind_a_count() {
    let keymap = Keymap::vim();
    let mut engine = InputEngine::new();
    assert!(engine.on_key_in_mode(Mode::Normal, key('3'), &keymap).is_none());
    // With a count in progress, `n` is not a mode key and is not bound either.
    assert!(engine.on_key_in_mode(Mode::Normal, key('n'), &keymap).is_none());
    assert_eq!(engine.count, None);
}

#[test]
fn engine_refuses_a_count_that_overflows() {
    let keymap = Keymap::vim();
    let mut engine = InputEngine::new();
    engine.count = Some(usize::MAX / 10 + 1);
    assert!(!engine.accepts(Mode::Normal, key('1'), &keymap));
    assert!(engine.accepts(Mode::Command, key('1'), &keymap));
    engine.count = Some(12);
    assert!(engine.accepts(Mode::Normal, key('1'), &keymap));
    engine.count = Some(isize::MAX as usize + 1);
    assert!(!engine.accepts(Mode::Normal, key('k'), &keymap));
    assert!(engine.accepts(Mode::Normal, key('j'), &keymap));
}

#[test]
fn help_lists_every_binding() {
    let entries = help_entries();
    assert_eq!(entries.len(), 18);
    assert_eq!(entries[0], ("j", "move down"));
    assert_eq!(entries[17], ("q", "quit"));
    let text = help_text();
    assert!(text.starts_with("move down             j\n"));
    assert!(text.ends_with("\nCounts work like 5j or 10G."));
    assert_eq!(text.lines().count(), 20);
    assert_eq!(help_counts_hint(), "Counts work like 5j or 10G.");
}

#[test]
fn list_selection_moves() {
    let mut s = ListSelection::new();
    assert_eq!(s.selected(), None);
    s.move_selection(3, 1);
    assert_eq!(s.selected(), Some(0));
    s.move_selection(3, -1);
    assert_eq!(s.selected(), Some(2));
    s.select_first(3);
    assert_eq!(s.selected(), Some(0));
    s.select_last(3);
    assert_eq!(s.selected(), Some(2));
    s.select_index(3, 10);
    assert_eq!(s.selected(), Some(2));
    s.scroll(3, -10);
    assert_eq!(s.selected(), Some(0));
    s.scroll(3, 1);
    assert_eq!(s.selected(), Some(1));
    s.select_last(0);
    assert_eq!(s.selected(), Some(1));
}

#[test]
fn content_height_leaves_room_for_borders() {
    assert_eq!(content_height(0), 1);
    assert_eq!(content_height(2), 1);
    assert_eq!(content_height(3), 1);
    assert_eq!(content_height(24), 22);
}

#[test]
fn prompt_cursor_is_clamped_to_the_row() {
    assert_eq!(prompt_cursor(0, 80, 5), 5);
    assert_eq!(prompt_cursor(10, 20, 50), 29);
    assert_eq!(prompt_cursor(3, 0, 5), 3);
}

#[test]
fn centered_box() {
    assert_eq!(centered(40, 10, 0, 0, 100, 30), (30, 10));
    assert_eq!(centered(200, 50, 5, 5, 100, 30), (5, 5));
}

#[test]
fn thread_list_pages_wrap() {
    let board = a_board("g", "Technology", 3);
    let mut list = ThreadList::new();
    assert_eq!(list.cur_page(), FIRST_PAGE);
    assert_eq!(list.next_page(&board), 2);
    assert_eq!(list.next_page(&board), 3);
    assert_eq!(list.next_page(&board), 1);
    assert_eq!(list.prev_page(&board), 3);
    assert_eq!(list.prev_page(&board), 2);
    list.set_description("a &amp; b<br>c");
    assert_eq!(list.description(), "a & b\nc");
}

#[test]
fn paging_forward_then_back_returns() {
    let board = a_board("g", "Technology", 10);
    for start in 1..=10u8 {
        let mut list = ThreadList::new();
        list.page = start;
        list.next_page(&board);
        assert_eq!(list.prev_page(&board), start);
    }
}

#[test]
fn pane_match_texts() {
    let boards = BoardsPane::new(vec![a_board("g", "Technology", 10)]);
    assert_eq!(boards.len(), 1);
    assert_eq!(boards.match_text(0), "/g/ technology");
    let threads = ThreadsPane::new(vec![Thread { posts: vec![a_post(1, "Sub &amp; Ject", "<b>Body</b>")] }]);
    assert_eq!(threads.match_text(0), "sub & ject body");
    let replies = RepliesPane::new(vec![a_post(2, "", "Reply<br>TEXT")]);
    assert_eq!(replies.match_text(0), "reply\ntext");
}

#[test]
fn new_app_starts_on_the_board_list() {
    let app = App::new(vec![a_board("g", "Technology", 10)], from_name("default").unwrap());
    assert_eq!(app.focus(), SelectedField::BoardList);
    assert_eq!(app.mode(), Mode::Normal);
    assert_eq!(app.line(), "");
    assert_eq!(app.pending(), 0);
    assert_eq!(app.status(), None);
    assert_eq!(app.thread_list_page(), 1);
    assert!(!app.help_bar().shown());
    assert_eq!(app.boards.state.selected(), None);
}

#[test]
fn screen_share_follows_the_shown_columns() {
    let mut app = an_app();
    let s = app.calc_screen_share();
    assert_eq!((s.board_list(), s.thread_list(), s.thread()), (100, 0, 0));
    app.update(Action::Enter);
    let s = app.calc_screen_share();
    assert_eq!((s.board_list(), s.thread_list(), s.thread()), (12, 88, 0));
    app.shown_state.board_list = false;
    app.shown_state.thread = true;
    let s = app.calc_screen_share();
    assert_eq!((s.board_list(), s.thread_list(), s.thread()), (12, 34, 54));
}

#[test]
fn thread_description_and_status_line() {
    let app = app_in_thread();
    assert_eq!(app.selected_thread_description(), "100 \"Daily thread\" replies: 2 ");
    assert!(matches!(app.status_line(), StatusLine::Idle));
    let empty = an_app();
    assert_eq!(empty.selected_thread_description(), "");
}

#[test]
fn status_line_priorities() {
    let mut app = an_app();
    app.update(Action::EnterCommand);
    app.update(Action::LineInput('r'));
    match app.status_line() {
        StatusLine::Prompt(s) => assert_eq!(s, ":r"),
        _ => panic!("expected the prompt"),
    }
    app.update(Action::Escape);
    app.update(Action::Enter);
    match app.status_line() {
        StatusLine::Loading(c) => assert_eq!(c, '|'),
        _ => panic!("expected the spinner"),
    }
    app.update(Action::LoadFailed("boom".to_string()));
    match app.status_line() {
        StatusLine::Error(s) => assert_eq!(s, "boom"),
        _ => panic!("expected the error"),
    }
}

#[test]
fn open_and_copy_urls_follow_focus() {
    let mut app = app_in_thread();
    assert_eq!(app.focus(), SelectedField::Thread);
    app.update(Action::Move(1));
    match app.update(Action::OpenThread).as_slice() {
        [Effect::OpenBrowser(url)] => assert_eq!(url, "https://boards.4chan.org/g/thread/100#p101"),
        _ => panic!("expected one OpenBrowser"),
    }
    match app.update(Action::CopyMedia).as_slice() {
        [Effect::CopyToClipboard(url)] => assert_eq!(url, "https://i.4cdn.org/g/1700000000456.jpg"),
        _ => panic!("expected one CopyToClipboard"),
    }
    app.update(Action::Back);
    match app.update(Action::CopyThread).as_slice() {
        [Effect::CopyToClipboard(url)] => assert_eq!(url, "https://boards.4chan.org/g/thread/100"),
        _ => panic!("expected one CopyToClipboard"),
    }
    match app.update(Action::OpenMedia).as_slice() {
        [Effect::OpenBrowser(url)] => assert_eq!(url, "https://i.4cdn.org/g/1700000000123.png"),
        _ => panic!("expected one OpenBrowser"),
    }
    app.update(Action::Back);
    match app.update(Action::OpenThread).as_slice() {
        [Effect::OpenBrowser(url)] => assert_eq!(url, "https://boards.4chan.org/g/"),
        _ => panic!("expected one OpenBrowser"),
    }
    assert!(app.update(Action::OpenMedia).is_empty());
}

#[test]
fn paging_requests_the_new_page() {
    let mut app = an_app();
    app.update(Action::Enter);
    app.update(Action::ThreadsLoaded(vec![]));
    match app.update(Action::NextPage).as_slice() {
        [Effect::FetchThreads { board, page }] => {
            assert_eq!(board, "g");
            assert_eq!(*page, 2);
        }
        _ => panic!("expected one FetchThreads"),
    }
    app.update(Action::ThreadsLoaded(vec![]));
    match app.update(Action::PrevPage).as_slice() {
        [Effect::FetchThreads { page, .. }] => assert_eq!(*page, 1),
        _ => panic!("expected one FetchThreads"),
    }
}

#[test]
fn quit_asks_to_quit_and_toggle_help_twice_restores() {
    let mut app = an_app();
    assert!(matches!(app.update(Action::Quit).as_slice(), [Effect::Quit]));
    app.update(Action::ToggleHelp);
    assert!(app.help_bar().shown());
    app.update(Action::ToggleHelp);
    assert!(!app.help_bar().shown());
}

#[test]
fn command_numbers_select_rows() {
    assert!(matches!(parse_command("1"), Some(Action::SelectIndex(0))));
    assert!(matches!(parse_command("0"), Some(Action::SelectIndex(0))));
    assert!(matches!(parse_command("007"), Some(Action::SelectIndex(6))));
    assert!(parse_command("99999999999999999999999").is_none());
    assert!(parse_command("1a").is_none());
    assert!(parse_command("").is_none());
}

#[test]
fn can_update_guards_faulty_steps() {
    let empty = App::new(vec![], from_name("4chan").unwrap());
    assert!(!empty.can_update(&Action::Enter));
    assert!(empty.can_update(&Action::Move(1)));
    let app = an_app();
    assert!(app.can_update(&Action::Enter));
    assert!(app.can_update(&Action::ThreadsLoaded(vec![])));
}

#[test]
fn search_runs_over_the_focused_pane() {
    let mut app = an_app();
    assert_eq!(app.search_matches("VIDEO"), vec![1]);
    assert_eq!(app.search_matches("/g/"), vec![0]);
    assert!(app.search_matches("nothing").is_empty());
    app.update(Action::EnterSearch);
    for c in "games".chars() {
        app.update(Action::LineInput(c));
    }
    app.update(Action::LineSubmit);
    assert_eq!(app.boards.state.selected(), Some(1));
    assert_eq!(app.search_indicator(), Some("/games  1/1".to_string()));
}

fn tui_chan_keybinds() -> nanashi::keybinds::Keybinds {
    nanashi::keybinds::Keybinds {
        quit: key('q'),
        left: key('h'),
        down: key('j'),
        up: key('k'),
        quick_down: ctrl('d'),
        quick_up: ctrl('u'),
        fullscreen: key('f'),
        help: key('?'),
        open_thread: key('o'),
        open_media: key('O'),
        copy_thread: key('y'),
        copy_media: key('Y'),
        page_next: key(']'),
        page_previous: key('['),
        reload: key('r'),
        right: key('l'),
    }
}

#[test]
fn configured_keys_map_to_actions() {
    let kb = tui_chan_keybinds();
    assert!(matches!(action_for(&key('q'), &kb), Some(Action::Quit)));
    assert!(matches!(action_for(&key('j'), &kb), Some(Action::Move(1))));
    assert!(matches!(action_for(&ctrl('u'), &kb), Some(Action::Move(-5))));
    assert!(matches!(action_for(&key(']'), &kb), Some(Action::NextPage)));
    assert!(matches!(action_for(&key('l'), &kb), Some(Action::Enter)));
    assert!(action_for(&ctrl('q'), &kb).is_none());
    assert!(action_for(&key('x'), &kb).is_none());
    // The first configured command wins when two share a key.
    let mut clash = tui_chan_keybinds();
    clash.reload = key('q');
    assert!(matches!(action_for(&key('q'), &clash), Some(Action::Quit)));
}

#[test]
fn help_grid_pairs_halves() {
    assert_eq!(help_grid(0), vec![]);
    assert_eq!(help_grid(3), vec![(0, Some(2)), (1, None)]);
    assert_eq!(help_grid(4), vec![(0, Some(2)), (1, Some(3))]);
    let grid = help_grid(18);
    assert_eq!(grid.len(), 9);
    assert_eq!(grid[8], (8, Some(17)));
}

#[test]
fn help_popup_fits_the_area() {
    assert_eq!(help_popup_size(60, 11, 200, 50), (64, 13));
    assert_eq!(help_popup_size(60, 11, 40, 10), (40, 10));
    assert_eq!(help_popup_size(0x10000 + 1, 0, 200, 50), (5, 2));
}

#[test]
fn paging_sequences_keep_the_description() {
    let board = a_board("g", "Technology", 7);
    let mut list = ThreadList::new();
    list.set_description("<b>Tech</b>");
    let moves = [true, true, false, true, true, true, true, true, true, false, false, true];
    for (i, forward) in moves.iter().enumerate() {
        if *forward {
            list.next_page(&board);
        } else {
            list.prev_page(&board);
        }
        assert_eq!(list.description(), "Tech", "after move {}", i);
        assert!(list.cur_page() >= 1 && list.cur_page() <= 7);
    }
    assert_eq!(list.cur_page(), 7);
}
