use nanashi::api::{from_name, str_eq, ChanProvider};
use nanashi::client::{throttle_wait, user_agent, MIN_INTERVAL_NANOS};
use nanashi::config::{config_folder, keybinds_paths};
use nanashi::format::format_html;
use nanashi::text::{
    chars_of, fold_case, is_whitespace, push_decimal, seq_contains, string_from_chars, trim,
};

#[test]
fn format_html_drops_tags_and_breaks_lines() {
    assert_eq!(format_html("hello<br>world"), "hello\nworld");
    assert_eq!(format_html("<span class=\"quote\">&gt;implying</span>"), ">implying");
    assert_eq!(format_html("<a href=\"#p1\">&gt;&gt;1</a> yes"), ">>1 yes");
    assert_eq!(format_html("<b>bold</b><wbr>text"), "boldtext");
}

#[test]
fn format_html_decodes_entities() {
    assert_eq!(format_html("a &amp; b"), "a & b");
    assert_eq!(format_html("&lt;tag&gt;"), "<tag>");
    assert_eq!(format_html("&quot;q&quot; &#039;s&#039;"), "\"q\" 's'");
}

#[test]
fn format_html_keeps_unknown_entities_and_open_tags() {
    assert_eq!(format_html("fish &chips;"), "fish &chips;");
    assert_eq!(format_html("a < b"), "a < b");
    assert_eq!(format_html("trailing &"), "trailing &");
}

#[test]
fn format_html_leaves_plain_text_alone() {
    assert_eq!(format_html(""), "");
    assert_eq!(format_html("just words"), "just words");
}

#[test]
fn provider_urls() {
    let p = from_name("4chan").unwrap();
    assert_eq!(p, ChanProvider::FourChan);
    assert_eq!(p.url_board("g"), "https://boards.4chan.org/g/");
    assert_eq!(p.url_thread("g", 12345), "https://boards.4chan.org/g/thread/12345");
    assert_eq!(
        p.url_thread_post("g", 12345, 12399),
        "https://boards.4chan.org/g/thread/12345#p12399"
    );
    assert_eq!(p.url_file("g", "1700000000123.png"), "https://i.4cdn.org/g/1700000000123.png");
    assert_eq!(p.boards(), "https://a.4cdn.org/boards.json");
    assert_eq!(p.threads("v", 3), "https://a.4cdn.org/v/3.json");
    assert_eq!(p.thread("v", 0), "https://a.4cdn.org/v/thread/0.json");
}

#[test]
fn provider_names() {
    assert!(from_name("4chan").is_some());
    assert!(from_name("default").is_some());
    assert!(from_name("8chan").is_none());
    assert!(from_name("").is_none());
    assert!(str_eq("abc", "abc"));
    assert!(!str_eq("abc", "abd"));
}

#[test]
fn throttle_waits_out_the_interval() {
    assert_eq!(throttle_wait(None), 0);
    assert_eq!(throttle_wait(Some(0)), MIN_INTERVAL_NANOS);
    assert_eq!(throttle_wait(Some(250_000_000)), 750_000_000);
    assert_eq!(throttle_wait(Some(MIN_INTERVAL_NANOS)), 0);
    assert_eq!(throttle_wait(Some(5 * MIN_INTERVAL_NANOS)), 0);
}

#[test]
fn user_agent_names_program_and_version() {
    assert_eq!(user_agent("0.3.1"), "nanashi/0.3.1 (+https://github.com/jtieri/nanashi)");
}

#[test]
fn config_folder_prefers_xdg() {
    assert_eq!(config_folder(Some("/x"), Some("/home/u")), Some("/x".to_string()));
    assert_eq!(config_folder(None, Some("/home/u")), Some("/home/u/.config".to_string()));
    assert_eq!(config_folder(None, None), None);
}

#[test]
fn keybinds_paths_under_config() {
    let (folder, file, legacy) = keybinds_paths("/home/u/.config");
    assert_eq!(folder, "/home/u/.config/nanashi");
    assert_eq!(file, "/home/u/.config/nanashi/keybinds.conf");
    assert_eq!(legacy, "/home/u/.config/tui-chan/keybinds.conf");
}

#[test]
fn decimal_rendering() {
    let mut s = String::from("n=");
    push_decimal(&mut s, 0);
    assert_eq!(s, "n=0");
    let mut s = String::new();
    push_decimal(&mut s, 1234567890);
    assert_eq!(s, "1234567890");
    let mut s = String::new();
    push_decimal(&mut s, u64::MAX);
    assert_eq!(s, u64::MAX.to_string());
}

#[test]
fn substring_search() {
    let hay = chars_of("technology board");
    assert!(seq_contains(&hay, &chars_of("logy b")));
    assert!(seq_contains(&hay, &chars_of("")));
    assert!(!seq_contains(&hay, &chars_of("boards")));
    assert!(!seq_contains(&chars_of("ab"), &chars_of("abc")));
}

#[test]
fn trimming_and_case_folding() {
    assert_eq!(trim("  quit \t\n"), "quit");
    assert_eq!(trim("   "), "");
    assert_eq!(trim("a b"), "a b");
    assert_eq!(fold_case("MiXeD 123"), "mixed 123");
    assert_eq!(fold_case("ÄBC"), "äbc");
    let v = chars_of("hello");
    assert_eq!(string_from_chars(&v, 1, 4), "ell");
}

#[test]
fn whitespace_agrees_with_std_on_every_char() {
    for c in (0u32..=0x10FFFF).filter_map(char::from_u32) {
        assert_eq!(is_whitespace(c), c.is_whitespace(), "U+{:04X}", c as u32);
    }
    let s = "\u{3000} x y\u{a0}\u{2029}";
    assert_eq!(trim(s), s.trim());
    assert_eq!(trim(s), "x y");
}
