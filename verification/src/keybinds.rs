//! Reading and writing single key bindings such as `Ctrl a` or `PageDown`.
use vstd::prelude::*;
use vstd::string::StringExecFns;
use crate::api::str_eq;
use crate::action::Action;
use crate::input::{KeyCode, KeyEvent, KeyModifiers};
use crate::text::{all_ascii, ascii_lower, case_fold, chars_of, fold_case, is_ascii_char, string_from_chars};

verus! {

/// Error parsing keybind
#[derive(Clone, Copy, PartialEq, Eq, Debug, Structural)]
pub enum ParseErrorKind {
    /// No key name was found in keybind
    MissingKeyName,
    /// Keyname character is not between ASCII 33-126.
    ///
    /// Valid characters include all ASCII letters, numbers, and symbols,
    /// but not space, control characters, or multi-byte unicode characters
    InvalidCharacterKeyName,
    /// Invalid name for 'special key', such as 'Backspace' or 'Up'
    InvalidSpecialKeyName,
    /// Too many modifier keys are in keybind.
    ///
    /// To use 'Shift' with characters, use capitalized form ('Ctrl A', not 'Ctrl Shift a')
    TooManyModifiers,
    /// Modifier key is not valid.
    ///
    /// Valid modifier keys include 'Ctrl' and 'Alt'
    ///
    /// To use 'Shift' with characters, use capitalized form ('Ctrl A', not 'Ctrl Shift a')
    UnknownModifier,
    /// Modifier cannot be used with 'special key', such as 'Backspace' or 'Up'
    ModifierWithSpecialKey,
}

/// The index of the last space before index `j`.
pub open spec fn last_space(s: Seq<char>, j: int) -> Option<int>
    decreases j,
{
    if j <= 0 || j > s.len() {
        None
    } else if s[j - 1] == ' ' {
        Some(j - 1)
    } else {
        last_space(s, j - 1)
    }
}

/// The last space-separated piece of `s`.
pub open spec fn last_piece(s: Seq<char>) -> Seq<char> {
    match last_space(s, s.len() as int) {
        Some(i) => s.subrange(i + 1, s.len() as int),
        None => s,
    }
}

/// Everything before the last space of `s`, if it has one.
pub open spec fn before_last_piece(s: Seq<char>) -> Option<Seq<char>> {
    match last_space(s, s.len() as int) {
        Some(i) => Some(s.subrange(0, i)),
        None => None,
    }
}

/// The key a special key name stands for, in lowercase.
pub open spec fn special_code(name: Seq<char>) -> Option<KeyCode> {
    if name == "backspace"@ {
        Some(KeyCode::Backspace)
    } else if name == "left"@ {
        Some(KeyCode::Left)
    } else if name == "right"@ {
        Some(KeyCode::Right)
    } else if name == "up"@ {
        Some(KeyCode::Up)
    } else if name == "down"@ {
        Some(KeyCode::Down)
    } else if name == "home"@ {
        Some(KeyCode::Home)
    } else if name == "end"@ {
        Some(KeyCode::End)
    } else if name == "pageup"@ {
        Some(KeyCode::PageUp)
    } else if name == "pagedown"@ {
        Some(KeyCode::PageDown)
    } else if name == "backtab"@ {
        Some(KeyCode::BackTab)
    } else if name == "delete"@ {
        Some(KeyCode::Delete)
    } else if name == "insert"@ {
        Some(KeyCode::Insert)
    } else if name == "esc"@ {
        Some(KeyCode::Esc)
    } else {
        None
    }
}

/// A printable ASCII character other than space (codes 33 to 126).
pub open spec fn is_key_char(c: char) -> bool {
    33 <= (c as u32) && (c as u32) <= 126
}

/// The binding a keybind string describes: the last space-separated piece is
/// the key name, an optional piece before it a modifier (`Ctrl` or `Alt`, any
/// case), and anything earlier is refused. A one-byte key name is a character
/// key; a longer one names a special key, case-insensitively, which takes no
/// modifier.
pub open spec fn parse_keybind_spec(s: Seq<char>) -> Result<KeyEvent, ParseErrorKind> {
    let name = last_piece(s);
    if name.len() == 0 {
        Err(ParseErrorKind::MissingKeyName)
    } else {
        let (modifier, rest) = match before_last_piece(s) {
            Some(r) => (
                if last_piece(r).len() == 0 { None::<Seq<char>> } else { Some(last_piece(r)) },
                before_last_piece(r),
            ),
            None => (None, None),
        };
        if rest is Some {
            Err(ParseErrorKind::TooManyModifiers)
        } else if name.len() == 1 && is_ascii_char(name[0]) {
            if !is_key_char(name[0]) {
                Err(ParseErrorKind::InvalidCharacterKeyName)
            } else {
                match modifier {
                    None => Ok(
                        KeyEvent { code: KeyCode::Char(name[0]), modifiers: KeyModifiers::none_spec() },
                    ),
                    Some(m) => if case_fold(m) == "ctrl"@ {
                        Ok(
                            KeyEvent {
                                code: KeyCode::Char(name[0]),
                                modifiers: KeyModifiers::control_spec(),
                            },
                        )
                    } else if case_fold(m) == "alt"@ {
                        Ok(KeyEvent { code: KeyCode::Char(name[0]), modifiers: KeyModifiers::alt_spec() })
                    } else {
                        Err(ParseErrorKind::UnknownModifier)
                    },
                }
            }
        } else if modifier is Some {
            Err(ParseErrorKind::ModifierWithSpecialKey)
        } else {
            match special_code(case_fold(name)) {
                Some(code) => Ok(KeyEvent { code: code, modifiers: KeyModifiers::none_spec() }),
                None => Err(ParseErrorKind::InvalidSpecialKeyName),
            }
        }
    }
}

/// Splits `cs[..end]` at its last space: the start of the last piece and the
/// index of that space, if there is one.
fn split_last_exec(cs: &Vec<char>, end: usize) -> (r: Option<usize>)
    requires
        end <= cs@.len(),
    ensures
        ({
            let s = cs@.subrange(0, end as int);
            &&& last_space(s, s.len() as int) == match r {
                Some(i) => Some(i as int),
                None => None::<int>,
            }
            &&& r matches Some(i) ==> i < end
        }),
{
    let ghost s = cs@.subrange(0, end as int);
    let mut j: usize = end;
    while j > 0
        invariant
            j <= end,
            end <= cs@.len(),
            s == cs@.subrange(0, end as int),
            last_space(s, s.len() as int) == last_space(s, j as int),
        decreases j,
    {
        if cs[j - 1] == ' ' {
            assert(s[j - 1] == cs@[j - 1]);
            return Some(j - 1);
        }
        assert(s[j - 1] == cs@[j - 1]);
        j = j - 1;
    }
    None
}

/// Parse (deserialize) keybind string as `KeyEvent`.
///
/// Include modifer key, by separating with a space ('Ctrl a').
/// Valid modifier keys include 'Ctrl' and 'Alt'.
///
/// To use 'Shift' with characters, use capitalized form ('Ctrl A', not 'Ctrl Shift a')
///
/// Space is used as separator, because plus ('+') can be used as key name.
pub fn parse_keybind(keybind: &str) -> (r: Result<KeyEvent, ParseErrorKind>)
    ensures
        r == parse_keybind_spec(keybind@),
{
    let cs = chars_of(keybind);
    let n = cs.len();
    let ghost s = keybind@;
    assert(cs@.subrange(0, n as int) =~= s);
    let last = split_last_exec(&cs, n);
    let name_start: usize = match last {
        Some(i) => i + 1,
        None => 0,
    };
    let name = string_from_chars(&cs, name_start, n);
    assert(name@ =~= last_piece(s));
    if name_start == n {
        return Err(ParseErrorKind::MissingKeyName);
    }
    // The optional modifier and whatever precedes it.
    let mut modifier: Option<String> = None;
    let mut too_many = false;
    if let Some(i) = last {
        let ghost r = cs@.subrange(0, i as int);
        assert(s.subrange(0, i as int) =~= r);
        assert(before_last_piece(s) == Some(r));
        let second = split_last_exec(&cs, i);
        assert(cs@.subrange(0, i as int) == r);
        let mod_start: usize = match second {
            Some(j) => j + 1,
            None => 0,
        };
        if mod_start < i {
            modifier = Some(string_from_chars(&cs, mod_start, i));
            assert(cs@.subrange(mod_start as int, i as int) =~= last_piece(r));
        } else {
            assert(last_piece(r).len() == 0);
        }
        too_many = second.is_some();
    }
    if too_many {
        return Err(ParseErrorKind::TooManyModifiers);
    }
    let ch = cs[name_start];
    assert(name@[0] == ch);
    let code: u32 = ch as u32;
    if n - name_start == 1 && code < 128 {
        if !(33 <= code && code <= 126) {
            return Err(ParseErrorKind::InvalidCharacterKeyName);
        }
        match modifier {
            None => {
                return Ok(KeyEvent::new(KeyCode::Char(ch), KeyModifiers::none()));
            },
            Some(m) => {
                let folded = fold_case(m.as_str());
                if str_eq(folded.as_str(), "ctrl") {
                    return Ok(KeyEvent::new(KeyCode::Char(ch), KeyModifiers::control()));
                } else if str_eq(folded.as_str(), "alt") {
                    return Ok(KeyEvent::new(KeyCode::Char(ch), KeyModifiers::alt()));
                } else {
                    return Err(ParseErrorKind::UnknownModifier);
                }
            },
        }
    }
    if modifier.is_some() {
        return Err(ParseErrorKind::ModifierWithSpecialKey);
    }
    let folded = fold_case(name.as_str());
    let f = folded.as_str();
    let code = if str_eq(f, "backspace") {
        KeyCode::Backspace
    } else if str_eq(f, "left") {
        KeyCode::Left
    } else if str_eq(f, "right") {
        KeyCode::Right
    } else if str_eq(f, "up") {
        KeyCode::Up
    } else if str_eq(f, "down") {
        KeyCode::Down
    } else if str_eq(f, "home") {
        KeyCode::Home
    } else if str_eq(f, "end") {
        KeyCode::End
    } else if str_eq(f, "pageup") {
        KeyCode::PageUp
    } else if str_eq(f, "pagedown") {
        KeyCode::PageDown
    } else if str_eq(f, "backtab") {
        KeyCode::BackTab
    } else if str_eq(f, "delete") {
        KeyCode::Delete
    } else if str_eq(f, "insert") {
        KeyCode::Insert
    } else if str_eq(f, "esc") {
        KeyCode::Esc
    } else {
        return Err(ParseErrorKind::InvalidSpecialKeyName);
    };
    Ok(KeyEvent::new(code, KeyModifiers::none()))
}

} // verus!

verus! {

/// The name that a special key is written with.
pub open spec fn special_name(code: KeyCode) -> Option<Seq<char>> {
    match code {
        KeyCode::Backspace => Some("Backspace"@),
        KeyCode::Left => Some("Left"@),
        KeyCode::Right => Some("Right"@),
        KeyCode::Up => Some("Up"@),
        KeyCode::Down => Some("Down"@),
        KeyCode::Home => Some("Home"@),
        KeyCode::End => Some("End"@),
        KeyCode::PageUp => Some("PageUp"@),
        KeyCode::PageDown => Some("PageDown"@),
        KeyCode::BackTab => Some("BackTab"@),
        KeyCode::Delete => Some("Delete"@),
        KeyCode::Insert => Some("Insert"@),
        KeyCode::Esc => Some("Esc"@),
        _ => None,
    }
}

/// A key that a keybind can describe: a character key, or a special key with
/// a name.
pub open spec fn displayable(k: KeyEvent) -> bool {
    k.code is Char || special_name(k.code) is Some
}

/// A key written in the keybind format: `Ctrl x` when Control is held,
/// else `Alt x` when Alt is held, else the character alone; a special key by
/// its name.
pub open spec fn display_key_spec(k: KeyEvent) -> Seq<char> {
    match k.code {
        KeyCode::Char(c) => if k.modifiers.control {
            "Ctrl "@ + seq![c]
        } else if k.modifiers.alt {
            "Alt "@ + seq![c]
        } else {
            seq![c]
        },
        _ => match special_name(k.code) {
            Some(name) => name,
            None => Seq::empty(),
        },
    }
}

/// The keys that `parse_keybind` produces: a printable character key, plain
/// or with Control or Alt, or a plain special key.
pub open spec fn valid_key(k: KeyEvent) -> bool {
    match k.code {
        KeyCode::Char(c) => is_key_char(c) && (k.modifiers == KeyModifiers::none_spec()
            || k.modifiers == KeyModifiers::control_spec() || k.modifiers
            == KeyModifiers::alt_spec()),
        _ => special_name(k.code) is Some && k.modifiers == KeyModifiers::none_spec(),
    }
}

/// Stringify (serialize) key, using same format to parse keybind
pub fn display_key(k: &KeyEvent) -> (r: String)
    requires
        displayable(*k),
    ensures
        r@ == display_key_spec(*k),
{
    if let KeyCode::Char(ch) = k.code {
        let mut s = if k.modifiers.control {
            "Ctrl ".to_owned()
        } else if k.modifiers.alt {
            "Alt ".to_owned()
        } else {
            String::new()
        };
        crate::text::push_char(&mut s, ch);
        return s;
    }
    // Mirrors the match statement in `parse_keybind`
    match k.code {
        KeyCode::Backspace => "Backspace".to_owned(),
        KeyCode::Left => "Left".to_owned(),
        KeyCode::Right => "Right".to_owned(),
        KeyCode::Up => "Up".to_owned(),
        KeyCode::Down => "Down".to_owned(),
        KeyCode::Home => "Home".to_owned(),
        KeyCode::End => "End".to_owned(),
        KeyCode::PageUp => "PageUp".to_owned(),
        KeyCode::PageDown => "PageDown".to_owned(),
        KeyCode::BackTab => "BackTab".to_owned(),
        KeyCode::Delete => "Delete".to_owned(),
        KeyCode::Insert => "Insert".to_owned(),
        KeyCode::Esc => "Esc".to_owned(),
        _ => String::new(),
    }
}

/// Report whether an input key event matches a configured keybind: same key,
/// same modifiers.
pub fn matches(input: &KeyEvent, bind: &KeyEvent) -> (r: bool)
    ensures
        r == (input.code == bind.code && input.modifiers == bind.modifiers),
{
    input.code == bind.code && input.modifiers == bind.modifiers
}

} // verus!

verus! {

/// A sequence without spaces has no last space.
proof fn lemma_no_space(s: Seq<char>, j: int)
    requires
        forall|i: int| 0 <= i < s.len() ==> s[i] != ' ',
    ensures
        last_space(s, j) is None,
    decreases j,
{
    if 0 < j <= s.len() {
        lemma_no_space(s, j - 1);
    }
}

/// Every key that a keybind string parses to is one that keybinds describe.
pub proof fn lemma_parse_yields_valid(s: Seq<char>)
    ensures
        parse_keybind_spec(s) matches Ok(k) ==> valid_key(k),
{
}

/// The lowercase form of a special key's name reads back as that key.
proof fn lemma_special_code_of(code: KeyCode)
    requires
        special_name(code) is Some,
    ensures
        ({
            let lower = ascii_lower(special_name(code)->0);
            special_code(lower) == Some(code)
        }),
{
    reveal_strlit("backspace");
    reveal_strlit("left");
    reveal_strlit("right");
    reveal_strlit("up");
    reveal_strlit("down");
    reveal_strlit("home");
    reveal_strlit("end");
    reveal_strlit("pageup");
    reveal_strlit("pagedown");
    reveal_strlit("backtab");
    reveal_strlit("delete");
    reveal_strlit("insert");
    reveal_strlit("esc");
    match code {
        KeyCode::Backspace => {
            reveal_strlit("Backspace");
            assert(ascii_lower("Backspace"@) =~= "backspace"@);
        },
        KeyCode::Left => {
            reveal_strlit("Left");
            assert(ascii_lower("Left"@) =~= "left"@);
        },
        KeyCode::Right => {
            reveal_strlit("Right");
            assert(ascii_lower("Right"@) =~= "right"@);
        },
        KeyCode::Up => {
            reveal_strlit("Up");
            assert(ascii_lower("Up"@) =~= "up"@);
        },
        KeyCode::Down => {
            reveal_strlit("Down");
            assert(ascii_lower("Down"@) =~= "down"@);
            assert("down"@[0] != "left"@[0]);
        },
        KeyCode::Home => {
            reveal_strlit("Home");
            assert(ascii_lower("Home"@) =~= "home"@);
            assert("home"@[0] != "left"@[0]);
            assert("home"@[0] != "down"@[0]);
        },
        KeyCode::End => {
            reveal_strlit("End");
            assert(ascii_lower("End"@) =~= "end"@);
        },
        KeyCode::PageUp => {
            reveal_strlit("PageUp");
            assert(ascii_lower("PageUp"@) =~= "pageup"@);
        },
        KeyCode::PageDown => {
            reveal_strlit("PageDown");
            assert(ascii_lower("PageDown"@) =~= "pagedown"@);
        },
        KeyCode::BackTab => {
            reveal_strlit("BackTab");
            assert(ascii_lower("BackTab"@) =~= "backtab"@);
        },
        KeyCode::Delete => {
            reveal_strlit("Delete");
            assert(ascii_lower("Delete"@) =~= "delete"@);
            assert("delete"@[0] != "pageup"@[0]);
        },
        KeyCode::Insert => {
            reveal_strlit("Insert");
            assert(ascii_lower("Insert"@) =~= "insert"@);
            assert("insert"@[0] != "pageup"@[0]);
            assert("insert"@[0] != "delete"@[0]);
        },
        KeyCode::Esc => {
            reveal_strlit("Esc");
            assert(ascii_lower("Esc"@) =~= "esc"@);
            assert("esc"@[1] != "end"@[1]);
        },
        _ => {},
    }
}

/// A written word that reads back as a special key name.
proof fn lemma_special_round_trip(code: KeyCode)
    requires
        special_name(code) is Some,
    ensures
        ({
            let name = special_name(code)->0;
            &&& forall|i: int| 0 <= i < name.len() ==> name[i] != ' '
            &&& name.len() > 1
            &&& special_code(case_fold(name)) == Some(code)
        }),
{
    match code {
        KeyCode::Backspace => {
            reveal_strlit("Backspace");
            reveal_strlit("backspace");
            let w = "Backspace"@;
            assert(all_ascii(w));
            assert(ascii_lower(w) =~= "backspace"@);
            assert(forall|i: int| 0 <= i < w.len() ==> w[i] != ' ');
            lemma_special_code_of(KeyCode::Backspace);
        },
        KeyCode::Left => {
            reveal_strlit("Left");
            reveal_strlit("left");
            let w = "Left"@;
            assert(all_ascii(w));
            assert(ascii_lower(w) =~= "left"@);
            assert(forall|i: int| 0 <= i < w.len() ==> w[i] != ' ');
            lemma_special_code_of(KeyCode::Left);
        },
        KeyCode::Right => {
            reveal_strlit("Right");
            reveal_strlit("right");
            let w = "Right"@;
            assert(all_ascii(w));
            assert(ascii_lower(w) =~= "right"@);
            assert(forall|i: int| 0 <= i < w.len() ==> w[i] != ' ');
            lemma_special_code_of(KeyCode::Right);
        },
        KeyCode::Up => {
            reveal_strlit("Up");
            reveal_strlit("up");
            let w = "Up"@;
            assert(all_ascii(w));
            assert(ascii_lower(w) =~= "up"@);
            assert(forall|i: int| 0 <= i < w.len() ==> w[i] != ' ');
            lemma_special_code_of(KeyCode::Up);
        },
        KeyCode::Down => {
            reveal_strlit("Down");
            reveal_strlit("down");
            let w = "Down"@;
            assert(all_ascii(w));
            assert(ascii_lower(w) =~= "down"@);
            assert(forall|i: int| 0 <= i < w.len() ==> w[i] != ' ');
            lemma_special_code_of(KeyCode::Down);
        },
        KeyCode::Home => {
            reveal_strlit("Home");
            reveal_strlit("home");
            let w = "Home"@;
            assert(all_ascii(w));
            assert(ascii_lower(w) =~= "home"@);
            assert(forall|i: int| 0 <= i < w.len() ==> w[i] != ' ');
            lemma_special_code_of(KeyCode::Home);
        },
        KeyCode::End => {
            reveal_strlit("End");
            reveal_strlit("end");
            let w = "End"@;
            assert(all_ascii(w));
            assert(ascii_lower(w) =~= "end"@);
            assert(forall|i: int| 0 <= i < w.len() ==> w[i] != ' ');
            lemma_special_code_of(KeyCode::End);
        },
        KeyCode::PageUp => {
            reveal_strlit("PageUp");
            reveal_strlit("pageup");
            let w = "PageUp"@;
            assert(all_ascii(w));
            assert(ascii_lower(w) =~= "pageup"@);
            assert(forall|i: int| 0 <= i < w.len() ==> w[i] != ' ');
            lemma_special_code_of(KeyCode::PageUp);
        },
        KeyCode::PageDown => {
            reveal_strlit("PageDown");
            reveal_strlit("pagedown");
            let w = "PageDown"@;
            assert(all_ascii(w));
            assert(ascii_lower(w) =~= "pagedown"@);
            assert(forall|i: int| 0 <= i < w.len() ==> w[i] != ' ');
            lemma_special_code_of(KeyCode::PageDown);
        },
        KeyCode::BackTab => {
            reveal_strlit("BackTab");
            reveal_strlit("backtab");
            let w = "BackTab"@;
            assert(all_ascii(w));
            assert(ascii_lower(w) =~= "backtab"@);
            assert(forall|i: int| 0 <= i < w.len() ==> w[i] != ' ');
            lemma_special_code_of(KeyCode::BackTab);
        },
        KeyCode::Delete => {
            reveal_strlit("Delete");
            reveal_strlit("delete");
            let w = "Delete"@;
            assert(all_ascii(w));
            assert(ascii_lower(w) =~= "delete"@);
            assert(forall|i: int| 0 <= i < w.len() ==> w[i] != ' ');
            lemma_special_code_of(KeyCode::Delete);
        },
        KeyCode::Insert => {
            reveal_strlit("Insert");
            reveal_strlit("insert");
            let w = "Insert"@;
            assert(all_ascii(w));
            assert(ascii_lower(w) =~= "insert"@);
            assert(forall|i: int| 0 <= i < w.len() ==> w[i] != ' ');
            lemma_special_code_of(KeyCode::Insert);
        },
        KeyCode::Esc => {
            reveal_strlit("Esc");
            reveal_strlit("esc");
            let w = "Esc"@;
            assert(all_ascii(w));
            assert(ascii_lower(w) =~= "esc"@);
            assert(forall|i: int| 0 <= i < w.len() ==> w[i] != ' ');
            lemma_special_code_of(KeyCode::Esc);
        },
        _ => {},
    }
}

/// `Ctrl c` and `Alt c` read back as the character key with that modifier.
proof fn lemma_modified_char_round_trip(c: char, control: bool)
    requires
        is_key_char(c),
    ensures
        control ==> parse_keybind_spec("Ctrl "@ + seq![c]) == Ok::<KeyEvent, ParseErrorKind>(
            KeyEvent { code: KeyCode::Char(c), modifiers: KeyModifiers::control_spec() },
        ),
        !control ==> parse_keybind_spec("Alt "@ + seq![c]) == Ok::<KeyEvent, ParseErrorKind>(
            KeyEvent { code: KeyCode::Char(c), modifiers: KeyModifiers::alt_spec() },
        ),
{
    assert((' ' as u32) == 32);
    reveal_strlit("ctrl");
    reveal_strlit("alt");
    if control {
        reveal_strlit("Ctrl ");
        let s = "Ctrl "@ + seq![c];
        let m = "Ctrl "@.subrange(0, 4);
        assert(s[5] == c);
        assert(s[4] == ' ');
        assert(last_space(s, 5) == Some(4int));
        assert(last_space(s, 6) == Some(4int));
        assert(s.subrange(5, 6) =~= seq![c]);
        assert(s.subrange(0, 4) =~= m);
        lemma_no_space(m, 4);
        assert(last_piece(m) == m);
        assert(all_ascii(m));
        assert(case_fold(m) =~= "ctrl"@);
    } else {
        reveal_strlit("Alt ");
        let s = "Alt "@ + seq![c];
        let m = "Alt "@.subrange(0, 3);
        assert(s[4] == c);
        assert(s[3] == ' ');
        assert(last_space(s, 4) == Some(3int));
        assert(last_space(s, 5) == Some(3int));
        assert(s.subrange(4, 5) =~= seq![c]);
        assert(s.subrange(0, 3) =~= m);
        lemma_no_space(m, 3);
        assert(last_piece(m) == m);
        assert(all_ascii(m));
        assert(case_fold(m) =~= "alt"@);
        assert(case_fold(m) != "ctrl"@);
    }
}

/// Writing a key and reading it back gives the same key, for every key that
/// keybinds describe.
pub proof fn lemma_display_parse_round_trip(k: KeyEvent)
    requires
        valid_key(k),
    ensures
        displayable(k),
        parse_keybind_spec(display_key_spec(k)) == Ok::<KeyEvent, ParseErrorKind>(k),
{
    match k.code {
        KeyCode::Char(c) => {
            if k.modifiers.control {
                lemma_modified_char_round_trip(c, true);
                assert(k.modifiers == KeyModifiers::control_spec());
                assert(display_key_spec(k) == "Ctrl "@ + seq![c]);
                assert(k == KeyEvent { code: KeyCode::Char(c), modifiers: KeyModifiers::control_spec() });
                assert(parse_keybind_spec(display_key_spec(k)) == Ok::<KeyEvent, ParseErrorKind>(k));
            } else if k.modifiers.alt {
                lemma_modified_char_round_trip(c, false);
                assert(k.modifiers == KeyModifiers::alt_spec());
                assert(display_key_spec(k) == "Alt "@ + seq![c]);
                assert(k == KeyEvent { code: KeyCode::Char(c), modifiers: KeyModifiers::alt_spec() });
                assert(parse_keybind_spec(display_key_spec(k)) == Ok::<KeyEvent, ParseErrorKind>(k));
            } else {
                assert((' ' as u32) == 32);
                let s = display_key_spec(k);
                assert(s =~= seq![c]);
                lemma_no_space(s, 1);
                assert(last_piece(s) == s);
                assert(before_last_piece(s) is None);
                assert(k.modifiers == KeyModifiers::none_spec());
                assert(k == KeyEvent { code: KeyCode::Char(c), modifiers: KeyModifiers::none_spec() });
                assert(s[0] == c);
                assert(is_ascii_char(c));
                assert(parse_keybind_spec(s) == Ok::<KeyEvent, ParseErrorKind>(k));
            }
        },
        _ => {
            lemma_special_round_trip(k.code);
            let name = special_name(k.code)->0;
            lemma_no_space(name, name.len() as int);
        },
    }
}

} // verus!

verus! {

/// One configured key for each command of the keybinds file.
pub struct Keybinds {
    /// The key to quit.
    pub quit: KeyEvent,
    /// The key to go back one pane.
    pub left: KeyEvent,
    /// The key to move down one row.
    pub down: KeyEvent,
    /// The key to move up one row.
    pub up: KeyEvent,
    /// The key to move down five rows.
    pub quick_down: KeyEvent,
    /// The key to move up five rows.
    pub quick_up: KeyEvent,
    /// The key to fullscreen the focused pane.
    pub fullscreen: KeyEvent,
    /// The key to toggle the help bar.
    pub help: KeyEvent,
    /// The key to open the thread or post in a browser.
    pub open_thread: KeyEvent,
    /// The key to open the media in a browser.
    pub open_media: KeyEvent,
    /// The key to copy the thread or post url.
    pub copy_thread: KeyEvent,
    /// The key to copy the media url.
    pub copy_media: KeyEvent,
    /// The key to next page.
    pub page_next: KeyEvent,
    /// The key to previous page.
    pub page_previous: KeyEvent,
    /// The key to reload.
    pub reload: KeyEvent,
    /// The key to enter the selected item.
    pub right: KeyEvent,
}

/// `input` is the configured key `bind`: same key, same modifiers.
pub open spec fn binds(input: KeyEvent, bind: KeyEvent) -> bool {
    input.code == bind.code && input.modifiers == bind.modifiers
}

/// The command of the first configured key that `input` matches, in the
/// order quit, back, down, up, quick down, quick up, fullscreen, help, open
/// thread, open media, copy thread, copy media, next page, previous page,
/// reload, enter.
pub open spec fn keybind_action(input: KeyEvent, kb: Keybinds) -> Option<Action> {
    if binds(input, kb.quit) {
        Some(Action::Quit)
    } else if binds(input, kb.left) {
        Some(Action::Back)
    } else if binds(input, kb.down) {
        Some(Action::Move(1isize))
    } else if binds(input, kb.up) {
        Some(Action::Move(-1isize))
    } else if binds(input, kb.quick_down) {
        Some(Action::Move(5isize))
    } else if binds(input, kb.quick_up) {
        Some(Action::Move(-5isize))
    } else if binds(input, kb.fullscreen) {
        Some(Action::ToggleFullscreen)
    } else if binds(input, kb.help) {
        Some(Action::ToggleHelp)
    } else if binds(input, kb.open_thread) {
        Some(Action::OpenThread)
    } else if binds(input, kb.open_media) {
        Some(Action::OpenMedia)
    } else if binds(input, kb.copy_thread) {
        Some(Action::CopyThread)
    } else if binds(input, kb.copy_media) {
        Some(Action::CopyMedia)
    } else if binds(input, kb.page_next) {
        Some(Action::NextPage)
    } else if binds(input, kb.page_previous) {
        Some(Action::PrevPage)
    } else if binds(input, kb.reload) {
        Some(Action::Reload)
    } else if binds(input, kb.right) {
        Some(Action::Enter)
    } else {
        None
    }
}

/// Translate a key event into an action, if it matches a configured keybind.
pub fn action_for(input: &KeyEvent, keybinds: &Keybinds) -> (r: Option<Action>)
    ensures
        r == keybind_action(*input, *keybinds),
{
    if matches(input, &keybinds.quit) {
        Some(Action::Quit)
    } else if matches(input, &keybinds.left) {
        Some(Action::Back)
    } else if matches(input, &keybinds.down) {
        Some(Action::Move(1))
    } else if matches(input, &keybinds.up) {
        Some(Action::Move(-1))
    } else if matches(input, &keybinds.quick_down) {
        Some(Action::Move(5))
    } else if matches(input, &keybinds.quick_up) {
        Some(Action::Move(-5))
    } else if matches(input, &keybinds.fullscreen) {
        Some(Action::ToggleFullscreen)
    } else if matches(input, &keybinds.help) {
        Some(Action::ToggleHelp)
    } else if matches(input, &keybinds.open_thread) {
        Some(Action::OpenThread)
    } else if matches(input, &keybinds.open_media) {
        Some(Action::OpenMedia)
    } else if matches(input, &keybinds.copy_thread) {
        Some(Action::CopyThread)
    } else if matches(input, &keybinds.copy_media) {
        Some(Action::CopyMedia)
    } else if matches(input, &keybinds.page_next) {
        Some(Action::NextPage)
    } else if matches(input, &keybinds.page_previous) {
        Some(Action::PrevPage)
    } else if matches(input, &keybinds.reload) {
        Some(Action::Reload)
    } else if matches(input, &keybinds.right) {
        Some(Action::Enter)
    } else {
        None
    }
}

} // verus!
