use nanashi::input::{KeyCode, KeyEvent, KeyModifiers};
use nanashi::keybinds::parse_keybind as parse;
use nanashi::keybinds::ParseErrorKind::{
    InvalidCharacterKeyName, InvalidSpecialKeyName, MissingKeyName, ModifierWithSpecialKey,
    TooManyModifiers, UnknownModifier,
};

#[test]
fn parse_keybind_works() {
    fn plain(ch: char) -> KeyEvent {
        KeyEvent::new(KeyCode::Char(ch), KeyModifiers::none())
    }
    fn ctrl(ch: char) -> KeyEvent {
        KeyEvent::new(KeyCode::Char(ch), KeyModifiers::control())
    }
    fn alt(ch: char) -> KeyEvent {
        KeyEvent::new(KeyCode::Char(ch), KeyModifiers::alt())
    }
    fn special(code: KeyCode) -> KeyEvent {
        KeyEvent::new(code, KeyModifiers::none())
    }

    // Ok

    assert_eq!(parse("a"), Ok(plain('a')));
    assert_eq!(parse("A"), Ok(plain('A')));
    assert_eq!(parse("Ctrl a"), Ok(ctrl('a')));
    assert_eq!(parse("Ctrl A"), Ok(ctrl('A')));
    assert_eq!(parse("Alt z"), Ok(alt('z')));
    assert_eq!(parse("["), Ok(plain('[')));
    assert_eq!(parse("!"), Ok(plain('!')));
    assert_eq!(parse("~"), Ok(plain('~')));
    assert_eq!(parse("Alt ^"), Ok(alt('^')));
    assert_eq!(parse("Ctrl 6"), Ok(ctrl('6')));
    assert_eq!(parse("Backspace"), Ok(special(KeyCode::Backspace)));
    assert_eq!(parse("Up"), Ok(special(KeyCode::Up)));

    // Err

    assert_eq!(parse(""), Err(MissingKeyName));
    assert_eq!(parse(" "), Err(MissingKeyName));
    assert_eq!(parse("  "), Err(MissingKeyName));
    assert_eq!(parse("a  "), Err(MissingKeyName));

    assert_eq!(parse("Ctrl Shift a"), Err(TooManyModifiers));
    assert_eq!(parse("Alt  a"), Err(TooManyModifiers));
    assert_eq!(parse("  a"), Err(TooManyModifiers));

    assert_eq!(parse(&(1 as char).to_string()), Err(InvalidCharacterKeyName));

    assert_eq!(parse("Shift a"), Err(UnknownModifier));
    assert_eq!(parse("f a"), Err(UnknownModifier));

    assert_eq!(parse("Ctrl Backspace"), Err(ModifierWithSpecialKey));
    assert_eq!(parse("Ctrl Shift"), Err(ModifierWithSpecialKey));

    assert_eq!(parse("ä"), Err(InvalidSpecialKeyName));
}
