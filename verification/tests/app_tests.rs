use nanashi::action::{Action, Effect};
use nanashi::api::from_name;
use nanashi::app::{parse_command, App, Mode, SelectedField};
use nanashi::model::{Board, Thread, ThreadPost};

fn board(name: &str, title: &str, desc: &str) -> Board {
    let mut b = Board::default();
    b.board = name.to_string();
    b.title = title.to_string();
    b.meta_description = desc.to_string();
    b.per_page = 15;
    b.pages = 10;
    b.bump_limit = 300;
    b
}

fn sample_app() -> App {
    let provider = from_name("4chan").unwrap();
    let boards = vec![
        board("g", "Technology", "tech board"),
        board("v", "Video Games", "games board"),
    ];
    let mut app = App::new(boards, provider);
    app.set_shown_board_list(true);
    app
}

fn post(no: usize, replies: u32) -> ThreadPost {
    let mut p = ThreadPost::default();
    p.no = no;
    p.replies = replies;
    p
}

fn sample_threads() -> Vec<Thread> {
    vec![Thread { posts: vec![post(100, 3)] }, Thread { posts: vec![post(200, 7)] }]
}

#[test]
fn entering_board_focuses_threads_and_fetches() {
    let mut app = sample_app();
    let effects = app.update(Action::Enter);

    assert_eq!(app.focus, SelectedField::ThreadList);
    assert!(app.shown_state.thread_list);
    match effects.as_slice() {
        [Effect::FetchThreads { board, page }] => {
            assert_eq!(board, "g");
            assert_eq!(*page, 1);
        }
        _ => panic!("expected a single FetchThreads effect"),
    }
}

#[test]
fn entering_thread_fetches_thread() {
    let mut app = sample_app();
    app.update(Action::Enter);
    app.update(Action::ThreadsLoaded(sample_threads()));

    let effects = app.update(Action::Enter);

    assert_eq!(app.focus, SelectedField::Thread);
    assert!(app.shown_state.thread);
    assert!(!app.shown_state.board_list);
    match effects.as_slice() {
        [Effect::FetchThread { board, no }] => {
            assert_eq!(board, "g");
            assert_eq!(*no, 100);
        }
        _ => panic!("expected a single FetchThread effect"),
    }
}

#[test]
fn back_returns_focus() {
    let mut app = sample_app();
    app.focus = SelectedField::Thread;

    app.update(Action::Back);
    assert_eq!(app.focus, SelectedField::ThreadList);

    app.update(Action::Back);
    assert_eq!(app.focus, SelectedField::BoardList);

    // Already at the leftmost pane, nothing changes.
    app.update(Action::Back);
    assert_eq!(app.focus, SelectedField::BoardList);
}

#[test]
fn move_wraps_selection() {
    let mut app = sample_app();

    app.update(Action::Move(1));
    assert_eq!(app.boards.state.selected(), Some(0));

    app.update(Action::Move(1));
    assert_eq!(app.boards.state.selected(), Some(1));

    // Wrap past the end back to the start.
    app.update(Action::Move(1));
    assert_eq!(app.boards.state.selected(), Some(0));

    // Wrap before the start to the end.
    app.update(Action::Move(-1));
    assert_eq!(app.boards.state.selected(), Some(1));
}

#[test]
fn toggle_help_flips_shown() {
    let mut app = sample_app();
    assert!(!app.help_bar().shown());

    app.update(Action::ToggleHelp);
    assert!(app.help_bar().shown());

    app.update(Action::ToggleHelp);
    assert!(!app.help_bar().shown());
}

#[test]
fn reload_in_thread_fetches_thread() {
    let mut app = sample_app();
    app.update(Action::Enter);
    app.update(Action::ThreadsLoaded(sample_threads()));
    app.update(Action::Enter);
    app.update(Action::ThreadLoaded(vec![]));

    let effects = app.update(Action::Reload);
    match effects.as_slice() {
        [Effect::FetchThread { board, no }] => {
            assert_eq!(board, "g");
            assert_eq!(*no, 100);
        }
        _ => panic!("expected a single FetchThread effect"),
    }
}

#[test]
fn threads_loaded_fills_and_selects_first() {
    let mut app = sample_app();
    app.update(Action::Enter);
    app.update(Action::ThreadsLoaded(sample_threads()));

    assert_eq!(app.threads.items.len(), 2);
    assert_eq!(app.threads.state.selected(), Some(0));
}

#[test]
fn paging_leaves_selection_cleared() {
    let mut app = sample_app();
    app.update(Action::Enter);
    app.update(Action::ThreadsLoaded(sample_threads()));
    assert_eq!(app.threads.state.selected(), Some(0));

    // Paging refetches without selecting a row, as tui-chan did.
    app.update(Action::NextPage);
    app.update(Action::ThreadsLoaded(sample_threads()));
    assert_eq!(app.threads.state.selected(), None);
}

#[test]
fn fetch_action_increments_pending() {
    let mut app = sample_app();
    assert_eq!(app.pending, 0);

    app.update(Action::Enter);
    assert_eq!(app.pending, 1);
}

#[test]
fn threads_loaded_decrements_pending_and_clears_status() {
    let mut app = sample_app();
    app.status = Some("boom".to_string());
    app.update(Action::Enter);
    assert_eq!(app.pending, 1);

    app.update(Action::ThreadsLoaded(sample_threads()));
    assert_eq!(app.pending, 0);
    assert!(app.status.is_none());
}

#[test]
fn load_failed_decrements_pending_and_sets_status() {
    let mut app = sample_app();
    app.update(Action::Enter);
    assert_eq!(app.pending, 1);

    app.update(Action::LoadFailed("boom".to_string()));
    assert_eq!(app.pending, 0);
    assert_eq!(app.status.as_deref(), Some("boom"));
}

#[test]
fn parse_command_maps_known_commands() {
    assert!(matches!(parse_command("q"), Some(Action::Quit)));
    assert!(matches!(parse_command("quit"), Some(Action::Quit)));
    assert!(matches!(parse_command("r"), Some(Action::Reload)));
    assert!(matches!(parse_command("reload"), Some(Action::Reload)));
    assert!(matches!(parse_command("help"), Some(Action::ToggleHelp)));
    assert!(matches!(parse_command("h"), Some(Action::ToggleHelp)));
}

#[test]
fn parse_command_maps_digits_to_index() {
    assert!(matches!(parse_command("15"), Some(Action::SelectIndex(14))));
    assert!(matches!(parse_command("1"), Some(Action::SelectIndex(0))));
    // Saturating: both `0` and `1` land on the first row.
    assert!(matches!(parse_command("0"), Some(Action::SelectIndex(0))));
}

#[test]
fn parse_command_rejects_unknown() {
    assert!(parse_command("nonsense").is_none());
    assert!(parse_command("").is_none());
}

#[test]
fn command_mode_builds_and_runs() {
    let mut app = sample_app();
    assert_eq!(app.mode(), Mode::Normal);

    app.update(Action::EnterCommand);
    assert_eq!(app.mode(), Mode::Command);
    assert_eq!(app.line(), "");

    app.update(Action::LineInput('q'));
    assert_eq!(app.line(), "q");

    let effects = app.update(Action::LineSubmit);
    assert!(matches!(effects.as_slice(), [Effect::Quit]));
    assert_eq!(app.mode(), Mode::Normal);
    assert_eq!(app.line(), "");
}

#[test]
fn command_mode_escape_cancels() {
    let mut app = sample_app();
    app.update(Action::EnterCommand);
    app.update(Action::LineInput('q'));

    app.update(Action::Escape);
    assert_eq!(app.mode(), Mode::Normal);
    assert_eq!(app.line(), "");
}

#[test]
fn search_mode_escape_cancels() {
    let mut app = sample_app();
    app.update(Action::EnterSearch);
    app.update(Action::LineInput('g'));
    assert_eq!(app.mode(), Mode::Search);

    app.update(Action::Escape);
    assert_eq!(app.mode(), Mode::Normal);
    assert_eq!(app.line(), "");
}

#[test]
fn line_backspace_trims_buffer() {
    let mut app = sample_app();
    app.update(Action::EnterCommand);
    app.update(Action::LineInput('a'));
    app.update(Action::LineInput('b'));
    app.update(Action::LineBackspace);
    assert_eq!(app.line(), "a");
}

#[test]
fn unknown_command_sets_status() {
    let mut app = sample_app();
    app.update(Action::EnterCommand);
    for c in "nope".chars() {
        app.update(Action::LineInput(c));
    }
    let effects = app.update(Action::LineSubmit);
    assert!(effects.is_empty());
    assert_eq!(app.status.as_deref(), Some("unknown command: nope"));
    assert_eq!(app.mode(), Mode::Normal);
}

#[test]
fn search_matches_finds_case_insensitive_substrings() {
    let app = sample_app();
    // Boards are "/g/ Technology" and "/v/ Video Games".
    assert_eq!(app.search_matches("video"), vec![1]);
    assert_eq!(app.search_matches("TECH"), vec![0]);
    // A lone "e" appears in both.
    assert_eq!(app.search_matches("e"), vec![0, 1]);
    // An empty query matches nothing.
    assert!(app.search_matches("").is_empty());
    assert!(app.search_matches("nowhere").is_empty());
}

#[test]
fn search_submit_jumps_to_first_match() {
    let mut app = sample_app();
    app.update(Action::EnterSearch);
    for c in "video".chars() {
        app.update(Action::LineInput(c));
    }
    app.update(Action::LineSubmit);

    assert_eq!(app.mode(), Mode::Normal);
    assert_eq!(app.line(), "");
    assert_eq!(app.search_query, "video");
    assert_eq!(app.boards.state.selected(), Some(1));
}

#[test]
fn search_next_and_prev_cycle_and_wrap() {
    let mut app = sample_app();
    app.update(Action::EnterSearch);
    // "e" matches both boards.
    app.update(Action::LineInput('e'));
    app.update(Action::LineSubmit);
    assert_eq!(app.boards.state.selected(), Some(0));

    app.update(Action::SearchNext);
    assert_eq!(app.boards.state.selected(), Some(1));

    // Past the last match, wrap to the first.
    app.update(Action::SearchNext);
    assert_eq!(app.boards.state.selected(), Some(0));

    // Before the first match, wrap to the last.
    app.update(Action::SearchPrev);
    assert_eq!(app.boards.state.selected(), Some(1));
}

#[test]
fn search_without_matches_reports_via_indicator() {
    let mut app = sample_app();
    app.update(Action::Move(1));
    assert_eq!(app.boards.state.selected(), Some(0));

    app.update(Action::EnterSearch);
    for c in "zzz".chars() {
        app.update(Action::LineInput(c));
    }
    app.update(Action::LineSubmit);

    // The indicator conveys the miss; status stays clear.
    assert!(app.status.is_none());
    assert_eq!(app.search_indicator().as_deref(), Some("/zzz  no matches"));
    assert_eq!(app.boards.state.selected(), Some(0));
}

#[test]
fn search_next_is_noop_before_any_search() {
    let mut app = sample_app();
    app.update(Action::Move(1));
    assert_eq!(app.boards.state.selected(), Some(0));

    app.update(Action::SearchNext);
    assert_eq!(app.boards.state.selected(), Some(0));
}

#[test]
fn move_on_empty_pane_leaves_none() {
    let mut app = sample_app();
    // Entering a board focuses the threads pane before any load, so it is
    // still empty. Moving must not select an out-of-range row.
    app.update(Action::Enter);
    assert_eq!(app.focus, SelectedField::ThreadList);

    app.update(Action::Move(1));
    assert_eq!(app.threads.state.selected(), None);

    app.update(Action::Move(-3));
    assert_eq!(app.threads.state.selected(), None);
}

#[test]
fn threads_loaded_empty_leaves_selection_none() {
    let mut app = sample_app();
    app.update(Action::Enter);
    app.update(Action::ThreadsLoaded(vec![]));
    assert_eq!(app.threads.state.selected(), None);
}

#[test]
fn move_up_past_top_wraps() {
    let mut app = sample_app();
    app.update(Action::SelectIndex(1));
    assert_eq!(app.boards.state.selected(), Some(1));

    // A count larger than the index must wrap, not underflow.
    app.update(Action::Move(-5));
    let sel = app.boards.state.selected().unwrap();
    assert!(sel < app.boards.items.len());
}

#[test]
fn escape_clears_active_search() {
    let mut app = sample_app();
    app.update(Action::EnterSearch);
    app.update(Action::LineInput('e'));
    app.update(Action::LineSubmit);
    assert_eq!(app.search_query, "e");
    let landed = app.boards.state.selected();

    app.update(Action::Escape);
    assert_eq!(app.search_query, "");

    // With the search ended, n does nothing.
    app.update(Action::SearchNext);
    assert_eq!(app.boards.state.selected(), landed);
}

#[test]
fn changing_panes_clears_search() {
    let mut app = sample_app();
    app.update(Action::EnterSearch);
    app.update(Action::LineInput('e'));
    app.update(Action::LineSubmit);
    assert_eq!(app.search_query, "e");

    // Entering a board scopes away the boards-pane search.
    app.update(Action::Enter);
    assert_eq!(app.search_query, "");

    // A search run in the thread list is cleared on the way back.
    app.update(Action::ThreadsLoaded(sample_threads()));
    app.search_query = "x".to_string();
    app.update(Action::Back);
    assert_eq!(app.search_query, "");
}

#[test]
fn search_indicator_formats_positions_and_counts() {
    let mut app = sample_app();
    // No active search.
    assert_eq!(app.search_indicator(), None);

    // "e" matches both boards; the submit lands on the first match.
    app.update(Action::EnterSearch);
    app.update(Action::LineInput('e'));
    app.update(Action::LineSubmit);
    assert_eq!(app.search_indicator().as_deref(), Some("/e  1/2"));

    app.update(Action::SearchNext);
    assert_eq!(app.search_indicator().as_deref(), Some("/e  2/2"));

    // A single match with the selection off it reports the count.
    app.search_query = "video".to_string();
    app.boards.state.select(Some(0));
    assert_eq!(app.search_indicator().as_deref(), Some("/video  1 matches"));

    // No matches.
    app.search_query = "zzz".to_string();
    assert_eq!(app.search_indicator().as_deref(), Some("/zzz  no matches"));
}

#[test]
fn tick_advances_spinner_only_while_pending() {
    let mut app = sample_app();

    // Nothing in flight, so the spinner holds still.
    app.update(Action::Tick);
    assert_eq!(app.spinner, 0);

    app.update(Action::Enter);
    app.update(Action::Tick);
    assert_eq!(app.spinner, 1);
}
