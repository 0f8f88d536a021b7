//! Keys, the vim-style keymap, and the engine that turns key presses into
//! actions with counts (`5j`) and chords (`gg`).
use vstd::prelude::*;
use crate::action::Action;

verus! {

/// A key on the keyboard.
#[derive(Clone, Copy, PartialEq, Eq, Debug, Structural)]
pub enum KeyCode {
    Char(char),
    Backspace,
    Enter,
    Left,
    Right,
    Up,
    Down,
    Home,
    End,
    PageUp,
    PageDown,
    Tab,
    BackTab,
    Delete,
    Insert,
    Esc,
    /// Any other key (function keys, media keys and the like).
    Other,
}

/// Modifier keys held with a key.
#[derive(Clone, Copy, PartialEq, Eq, Debug, Structural)]
pub struct KeyModifiers {
    pub shift: bool,
    pub control: bool,
    pub alt: bool,
    pub super_key: bool,
    pub hyper: bool,
    pub meta: bool,
}

impl KeyModifiers {
    pub open spec fn none_spec() -> KeyModifiers {
        KeyModifiers {
            shift: false,
            control: false,
            alt: false,
            super_key: false,
            hyper: false,
            meta: false,
        }
    }

    /// No modifier held.
    pub fn none() -> (r: KeyModifiers)
        ensures
            r == KeyModifiers::none_spec(),
    {
        KeyModifiers {
            shift: false,
            control: false,
            alt: false,
            super_key: false,
            hyper: false,
            meta: false,
        }
    }

    pub open spec fn control_spec() -> KeyModifiers {
        KeyModifiers { control: true, ..KeyModifiers::none_spec() }
    }

    /// Control alone.
    pub fn control() -> (r: KeyModifiers)
        ensures
            r == KeyModifiers::control_spec(),
    {
        KeyModifiers { control: true, ..KeyModifiers::none() }
    }

    pub open spec fn alt_spec() -> KeyModifiers {
        KeyModifiers { alt: true, ..KeyModifiers::none_spec() }
    }

    /// Alt alone.
    pub fn alt() -> (r: KeyModifiers)
        ensures
            r == KeyModifiers::alt_spec(),
    {
        KeyModifiers { alt: true, ..KeyModifiers::none() }
    }

    /// Shift alone.
    pub fn shift() -> (r: KeyModifiers)
        ensures
            r == (KeyModifiers { shift: true, ..KeyModifiers::none_spec() }),
    {
        KeyModifiers { shift: true, ..KeyModifiers::none() }
    }

    /// No modifier is held.
    pub fn is_none(&self) -> (r: bool)
        ensures
            r == (*self == KeyModifiers::none_spec()),
    {
        !self.shift && !self.control && !self.alt && !self.super_key && !self.hyper && !self.meta
    }
}

/// A key press: a key and the modifiers held with it.
#[derive(Clone, Copy, PartialEq, Eq, Debug, Structural)]
pub struct KeyEvent {
    pub code: KeyCode,
    pub modifiers: KeyModifiers,
}

impl KeyEvent {
    pub fn new(code: KeyCode, modifiers: KeyModifiers) -> (r: KeyEvent)
        ensures
            r.code == code,
            r.modifiers == modifiers,
    {
        KeyEvent { code, modifiers }
    }
}

/// A plain character key.
pub open spec fn key_spec(c: char) -> KeyEvent {
    KeyEvent { code: KeyCode::Char(c), modifiers: KeyModifiers::none_spec() }
}

/// A character key with Control held.
pub open spec fn ctrl_spec(c: char) -> KeyEvent {
    KeyEvent { code: KeyCode::Char(c), modifiers: KeyModifiers::control_spec() }
}

/// A plain character key.
pub fn key(c: char) -> (r: KeyEvent)
    ensures
        r == key_spec(c),
{
    KeyEvent::new(KeyCode::Char(c), KeyModifiers::none())
}

/// A character key with Control held.
pub fn ctrl(c: char) -> (r: KeyEvent)
    ensures
        r == ctrl_spec(c),
{
    KeyEvent::new(KeyCode::Char(c), KeyModifiers::control())
}

/// For character keys the case already encodes Shift, so Shift is dropped;
/// every other key keeps its modifiers.
pub open spec fn normalize_spec(k: KeyEvent) -> KeyEvent {
    match k.code {
        KeyCode::Char(_) => KeyEvent { modifiers: KeyModifiers { shift: false, ..k.modifiers }, ..k },
        _ => k,
    }
}

/// Normalize a key event so keybind matching is reliable.
pub fn normalize(k: KeyEvent) -> (r: KeyEvent)
    ensures
        r == normalize_spec(k),
{
    let mut modifiers = k.modifiers;
    if let KeyCode::Char(_) = k.code {
        modifiers.shift = false;
    }
    KeyEvent::new(k.code, modifiers)
}

/// The decimal value of a plain `0`-`9` key, if it could extend a count.
pub open spec fn count_digit_spec(k: KeyEvent) -> Option<usize> {
    if k.modifiers != KeyModifiers::none_spec() {
        None
    } else {
        match k.code {
            KeyCode::Char(c) => if 48 <= (c as u32) && (c as u32) <= 57 {
                Some(((c as u32) - 48) as usize)
            } else {
                None
            },
            _ => None,
        }
    }
}

/// The digit value of a plain `0`-`9` key, if it could extend a count.
pub fn as_count_digit(k: KeyEvent) -> (r: Option<usize>)
    ensures
        r == count_digit_spec(k),
{
    if !k.modifiers.is_none() {
        return None;
    }
    match k.code {
        KeyCode::Char(c) => {
            let code: u32 = c as u32;
            if 48 <= code && code <= 57 {
                Some((code - 48) as usize)
            } else {
                None
            }
        },
        _ => None,
    }
}

/// The sign of `d`: -1, 0 or 1.
pub open spec fn signum(d: isize) -> int {
    if d > 0 { 1 } else if d < 0 { -1 } else { 0 }
}

/// Folding a count into an action stays within `isize`: the only way out is a
/// backward move by a count whose `isize` reading is `isize::MIN`.
pub open spec fn count_fits(action: Action, count: Option<usize>) -> bool {
    match (count, action) {
        (Some(n), Action::Move(d)) => !(d < 0 && (n as isize) == isize::MIN),
        _ => true,
    }
}

/// A count turns a move into a move of that many rows in the same direction
/// (the count read as an `isize`), and "select last" into "select row n"
/// (1-based, 0 counting as 1). Other actions ignore it.
pub open spec fn apply_count_spec(action: Action, count: Option<usize>) -> Action {
    match count {
        Some(n) => match action {
            Action::Move(d) => Action::Move((signum(d) * ((n as isize) as int)) as isize),
            Action::SelectLast => Action::SelectIndex(if n == 0 { 0usize } else { (n - 1) as usize }),
            _ => action,
        },
        None => action,
    }
}

/// Fold a count into the matched action. Only `Move` and `SelectLast` use it.
pub fn apply_count(action: Action, count: Option<usize>) -> (r: Action)
    requires
        count_fits(action, count),
    ensures
        r == apply_count_spec(action, count),
{
    match count {
        Some(n) => match action {
            Action::Move(delta) => {
                let steps: isize = n as isize;
                if delta > 0 {
                    Action::Move(steps)
                } else if delta < 0 {
                    Action::Move(-steps)
                } else {
                    Action::Move(0)
                }
            },
            Action::SelectLast => Action::SelectIndex(n.saturating_sub(1)),
            other => other,
        },
        None => action,
    }
}

} // verus!

verus! {

/// Bindings as (key sequence, action) pairs.
pub type BindingsView = Seq<(Seq<KeyEvent>, Action)>;

/// The index of the first binding at or after `k` whose key sequence is `s`.
pub open spec fn binding_index(bs: BindingsView, s: Seq<KeyEvent>, k: int) -> Option<int>
    decreases bs.len() - k,
{
    if k < 0 || k >= bs.len() {
        None
    } else if bs[k].0 == s {
        Some(k)
    } else {
        binding_index(bs, s, k + 1)
    }
}

/// The action bound to exactly the sequence `s`, the first such binding.
pub open spec fn action_for_spec(bs: BindingsView, s: Seq<KeyEvent>) -> Option<Action> {
    match binding_index(bs, s, 0) {
        Some(i) => Some(bs[i].1),
        None => None,
    }
}

/// `s` is a strict prefix of some longer binding.
pub open spec fn is_prefix_spec(bs: BindingsView, s: Seq<KeyEvent>) -> bool {
    exists|i: int|
        0 <= i < bs.len() && #[trigger] bs[i].0.len() > s.len() && bs[i].0.take(s.len() as int)
            == s
}

/// Every bound action is an input intent.
pub open spec fn bindings_wf(bs: BindingsView) -> bool {
    forall|i: int| 0 <= i < bs.len() ==> (#[trigger] bs[i]).1.is_intent()
}

pub proof fn lemma_binding_index(bs: BindingsView, s: Seq<KeyEvent>, k: int)
    requires
        0 <= k,
    ensures
        binding_index(bs, s, k) matches Some(i) ==> k <= i < bs.len() && bs[i].0 == s,
    decreases bs.len() - k,
{
    if k < bs.len() && bs[k].0 != s {
        lemma_binding_index(bs, s, k + 1);
    }
}

/// Maps key sequences to actions.
///
/// A binding is a sequence of key events, so single keys are length one and
/// chords like `gg` are length two.
pub struct Keymap {
    pub bindings: Vec<(Vec<KeyEvent>, Action)>,
}

impl View for Keymap {
    type V = BindingsView;

    open spec fn view(&self) -> BindingsView {
        self.bindings@.map_values(|b: (Vec<KeyEvent>, Action)| (b.0@, b.1))
    }
}

/// The default vim-style normal-mode bindings.
pub open spec fn vim_bindings() -> BindingsView {
    seq![
        (seq![key_spec('j')], Action::Move(1isize)),
        (seq![key_spec('k')], Action::Move(-1isize)),
        (seq![key_spec('h')], Action::Back),
        (seq![key_spec('l')], Action::Enter),
        (seq![key_spec('g'), key_spec('g')], Action::SelectFirst),
        (seq![key_spec('G')], Action::SelectLast),
        (seq![ctrl_spec('d')], Action::HalfPageDown),
        (seq![ctrl_spec('u')], Action::HalfPageUp),
        (seq![key_spec(']')], Action::NextPage),
        (seq![key_spec('[')], Action::PrevPage),
        (seq![key_spec('r')], Action::Reload),
        (seq![key_spec('f')], Action::ToggleFullscreen),
        (seq![key_spec('?')], Action::ToggleHelp),
        (seq![key_spec('o')], Action::OpenThread),
        (seq![key_spec('O')], Action::OpenMedia),
        (seq![key_spec('y')], Action::CopyThread),
        (seq![key_spec('Y')], Action::CopyMedia),
        (seq![key_spec('q')], Action::Quit),
    ]
}

fn one(k: KeyEvent) -> (r: Vec<KeyEvent>)
    ensures
        r@ == seq![k],
{
    let mut v: Vec<KeyEvent> = Vec::new();
    v.push(k);
    v
}

fn keys_eq(a: &Vec<KeyEvent>, b: &Vec<KeyEvent>) -> (r: bool)
    ensures
        r == (a@ == b@),
{
    if a.len() != b.len() {
        return false;
    }
    let n = a.len();
    let mut i: usize = 0;
    while i < n
        invariant
            i <= n,
            n == a@.len(),
            n == b@.len(),
            forall|k: int| 0 <= k < i ==> a@[k] == b@[k],
        decreases n - i,
    {
        if a[i] != b[i] {
            return false;
        }
        i = i + 1;
    }
    assert(a@ =~= b@);
    true
}

fn strict_prefix(long: &Vec<KeyEvent>, s: &Vec<KeyEvent>) -> (r: bool)
    ensures
        r == (long@.len() > s@.len() && long@.take(s@.len() as int) == s@),
{
    if long.len() <= s.len() {
        return false;
    }
    let n = s.len();
    let mut i: usize = 0;
    while i < n
        invariant
            i <= n,
            n == s@.len(),
            n < long@.len(),
            forall|k: int| 0 <= k < i ==> long@[k] == s@[k],
        decreases n - i,
    {
        if long[i] != s[i] {
            assert(long@.take(n as int)[i as int] == long@[i as int]);
            return false;
        }
        i = i + 1;
    }
    assert(long@.take(n as int) =~= s@);
    true
}

impl Keymap {
    /// The default vim-style normal-mode bindings.
    pub fn vim() -> (r: Keymap)
        ensures
            r@ == vim_bindings(),
            bindings_wf(r@),
    {
        let mut bindings: Vec<(Vec<KeyEvent>, Action)> = Vec::new();
        bindings.push((one(key('j')), Action::Move(1)));
        bindings.push((one(key('k')), Action::Move(-1)));
        bindings.push((one(key('h')), Action::Back));
        bindings.push((one(key('l')), Action::Enter));
        let mut gg: Vec<KeyEvent> = Vec::new();
        gg.push(key('g'));
        gg.push(key('g'));
        bindings.push((gg, Action::SelectFirst));
        bindings.push((one(key('G')), Action::SelectLast));
        bindings.push((one(ctrl('d')), Action::HalfPageDown));
        bindings.push((one(ctrl('u')), Action::HalfPageUp));
        bindings.push((one(key(']')), Action::NextPage));
        bindings.push((one(key('[')), Action::PrevPage));
        bindings.push((one(key('r')), Action::Reload));
        bindings.push((one(key('f')), Action::ToggleFullscreen));
        bindings.push((one(key('?')), Action::ToggleHelp));
        bindings.push((one(key('o')), Action::OpenThread));
        bindings.push((one(key('O')), Action::OpenMedia));
        bindings.push((one(key('y')), Action::CopyThread));
        bindings.push((one(key('Y')), Action::CopyMedia));
        bindings.push((one(key('q')), Action::Quit));
        let r = Keymap { bindings };
        assert(r@ =~~= vim_bindings());
        r
    }

    /// The action bound to an exact key sequence, if any.
    pub fn action_for(&self, seq: &Vec<KeyEvent>) -> (r: Option<&Action>)
        ensures
            match action_for_spec(self@, seq@) {
                Some(a) => r matches Some(x) && *x == a,
                None => r is None,
            },
    {
        let n = self.bindings.len();
        let mut i: usize = 0;
        while i < n
            invariant
                i <= n,
                n == self@.len(),
                binding_index(self@, seq@, 0) == binding_index(self@, seq@, i as int),
            decreases n - i,
        {
            if keys_eq(&self.bindings[i].0, seq) {
                return Some(&self.bindings[i].1);
            }
            i = i + 1;
        }
        None
    }

    /// Whether `seq` is a strict prefix of some longer binding.
    pub fn is_prefix(&self, seq: &Vec<KeyEvent>) -> (r: bool)
        ensures
            r == is_prefix_spec(self@, seq@),
    {
        let n = self.bindings.len();
        let mut i: usize = 0;
        while i < n
            invariant
                i <= n,
                n == self@.len(),
                forall|k: int|
                    0 <= k < i ==> !(#[trigger] self@[k].0.len() > seq@.len() && self@[k].0.take(
                        seq@.len() as int,
                    ) == seq@),
            decreases n - i,
        {
            if strict_prefix(&self.bindings[i].0, seq) {
                assert(self@[i as int].0.len() > seq@.len());
                return true;
            }
            i = i + 1;
        }
        false
    }
}

} // verus!

verus! {

/// The engine's state after a key: count, pending key sequence, and the
/// action produced, if any.
pub struct EngineStep {
    pub count: Option<usize>,
    pub buffer: Seq<KeyEvent>,
    pub action: Option<Action>,
}

/// One key fed to the engine. With no chord in progress a digit extends the
/// count (a bare `0` is ignored). Otherwise the key joins the pending
/// sequence: a full binding yields its action with the count folded in and
/// resets both; a strict prefix of a binding keeps waiting; anything else
/// resets both and yields nothing.
pub open spec fn on_key_spec(
    count: Option<usize>,
    buffer: Seq<KeyEvent>,
    k: KeyEvent,
    bs: BindingsView,
) -> EngineStep {
    if buffer.len() == 0 && count_digit_spec(k) is Some {
        let d = count_digit_spec(k)->0;
        if d == 0 && count is None {
            EngineStep { count: count, buffer: buffer, action: None }
        } else {
            let base: int = match count {
                Some(c) => c as int,
                None => 0,
            };
            EngineStep { count: Some((base * 10 + d) as usize), buffer: buffer, action: None }
        }
    } else {
        let b2 = buffer.push(k);
        match action_for_spec(bs, b2) {
            Some(a) => EngineStep {
                count: None,
                buffer: Seq::empty(),
                action: Some(apply_count_spec(a, count)),
            },
            None => if is_prefix_spec(bs, b2) {
                EngineStep { count: count, buffer: b2, action: None }
            } else {
                EngineStep { count: None, buffer: Seq::empty(), action: None }
            },
        }
    }
}

/// A key can be fed without arithmetic overflow: a count digit keeps the
/// count within `usize`, and a completed binding can take the count.
pub open spec fn on_key_ok(
    count: Option<usize>,
    buffer: Seq<KeyEvent>,
    k: KeyEvent,
    bs: BindingsView,
) -> bool {
    if buffer.len() == 0 && count_digit_spec(k) is Some {
        let d = count_digit_spec(k)->0;
        match count {
            Some(c) => c * 10 + d <= usize::MAX,
            None => true,
        }
    } else {
        match action_for_spec(bs, buffer.push(k)) {
            Some(a) => count_fits(a, count),
            None => true,
        }
    }
}

/// Tracks the in-progress key sequence and any numeric count.
pub struct InputEngine {
    pub count: Option<usize>,
    pub buffer: Vec<KeyEvent>,
}

impl InputEngine {
    pub fn new() -> (r: InputEngine)
        ensures
            r.count is None,
            r.buffer@.len() == 0,
    {
        InputEngine { count: None, buffer: Vec::new() }
    }

    /// Feed one normalized key. Returns an action once a full binding
    /// matches, otherwise `None` while a count or sequence is still building.
    pub fn on_key(&mut self, k: KeyEvent, keymap: &Keymap) -> (r: Option<Action>)
        requires
            bindings_wf(keymap@),
            on_key_ok(old(self).count, old(self).buffer@, k, keymap@),
        ensures
            ({
                let s = on_key_spec(old(self).count, old(self).buffer@, k, keymap@);
                &&& final(self).count == s.count
                &&& final(self).buffer@ == s.buffer
                &&& r == s.action
            }),
    {
        if self.buffer.len() == 0 {
            if let Some(digit) = as_count_digit(k) {
                // A bare `0` with no count in progress is not a count.
                if digit == 0 && self.count.is_none() {
                    return None;
                }
                let base: usize = match self.count {
                    Some(c) => c,
                    None => 0,
                };
                self.count = Some(base * 10 + digit);
                return None;
            }
        }
        self.buffer.push(k);
        let found: Option<Action> = match keymap.action_for(&self.buffer) {
            Some(a) => {
                proof {
                    lemma_binding_index(keymap@, self.buffer@, 0);
                    let i = binding_index(keymap@, self.buffer@, 0)->0;
                    assert(keymap@[i].1.is_intent());
                }
                Some(a.copy_intent())
            },
            None => None,
        };
        if let Some(action) = found {
            let taken = self.count;
            self.count = None;
            let action = apply_count(action, taken);
            self.buffer = Vec::new();
            return Some(action);
        }
        if keymap.is_prefix(&self.buffer) {
            return None;
        }
        self.buffer = Vec::new();
        self.count = None;
        None
    }
}

} // verus!

verus! {

/// The action a key produces while a line is being typed: Escape cancels,
/// Enter submits, Backspace deletes, and a character without Control or Alt
/// is typed.
pub open spec fn line_key_spec(k: KeyEvent) -> Option<Action> {
    match k.code {
        KeyCode::Esc => Some(Action::Escape),
        KeyCode::Enter => Some(Action::LineSubmit),
        KeyCode::Backspace => Some(Action::LineBackspace),
        KeyCode::Char(c) => if !k.modifiers.control && !k.modifiers.alt {
            Some(Action::LineInput(c))
        } else {
            None
        },
        _ => None,
    }
}

/// The keys that switch modes or drive search from normal mode when no count
/// or chord is in progress: `:` opens the command line, `/` the search line,
/// `n` and `N` step through matches, and Escape ends a search.
pub open spec fn mode_key_spec(k: KeyEvent) -> Option<Action> {
    if k == key_spec(':') {
        Some(Action::EnterCommand)
    } else if k == key_spec('/') {
        Some(Action::EnterSearch)
    } else if k == key_spec('n') {
        Some(Action::SearchNext)
    } else if k == key_spec('N') {
        Some(Action::SearchPrev)
    } else if k == (KeyEvent { code: KeyCode::Esc, modifiers: KeyModifiers::none_spec() }) {
        Some(Action::Escape)
    } else {
        None
    }
}

fn line_key(k: KeyEvent) -> (r: Option<Action>)
    ensures
        r == line_key_spec(k),
{
    match k.code {
        KeyCode::Esc => Some(Action::Escape),
        KeyCode::Enter => Some(Action::LineSubmit),
        KeyCode::Backspace => Some(Action::LineBackspace),
        KeyCode::Char(c) => if !k.modifiers.control && !k.modifiers.alt {
            Some(Action::LineInput(c))
        } else {
            None
        },
        _ => None,
    }
}

fn mode_key(k: KeyEvent) -> (r: Option<Action>)
    ensures
        r == mode_key_spec(k),
{
    if k == key(':') {
        Some(Action::EnterCommand)
    } else if k == key('/') {
        Some(Action::EnterSearch)
    } else if k == key('n') {
        Some(Action::SearchNext)
    } else if k == key('N') {
        Some(Action::SearchPrev)
    } else if k == KeyEvent::new(KeyCode::Esc, KeyModifiers::none()) {
        Some(Action::Escape)
    } else {
        None
    }
}

impl InputEngine {
    /// Feed one normalized key in input mode `mode`. In the command and search
    /// modes keys edit the line; in normal mode the mode keys apply when no
    /// count or chord is in progress, and every other key goes to the keymap.
    pub fn on_key_in_mode(&mut self, mode: crate::app::Mode, k: KeyEvent, keymap: &Keymap) -> (r:
        Option<Action>)
        requires
            bindings_wf(keymap@),
            mode == crate::app::Mode::Normal && !(old(self).count is None && old(self).buffer@.len()
                == 0 && mode_key_spec(k) is Some) ==> on_key_ok(
                old(self).count,
                old(self).buffer@,
                k,
                keymap@,
            ),
        ensures
            mode != crate::app::Mode::Normal ==> r == line_key_spec(k) && final(self).count == old(
                self,
            ).count && final(self).buffer@ == old(self).buffer@,
            mode == crate::app::Mode::Normal && old(self).count is None && old(self).buffer@.len()
                == 0 && mode_key_spec(k) is Some ==> r == mode_key_spec(k) && final(self).count
                is None && final(self).buffer@.len() == 0,
            mode == crate::app::Mode::Normal && !(old(self).count is None && old(self).buffer@.len()
                == 0 && mode_key_spec(k) is Some) ==> ({
                let s = on_key_spec(old(self).count, old(self).buffer@, k, keymap@);
                &&& final(self).count == s.count
                &&& final(self).buffer@ == s.buffer
                &&& r == s.action
            }),
    {
        if mode != crate::app::Mode::Normal {
            return line_key(k);
        }
        if self.count.is_none() && self.buffer.len() == 0 {
            if let Some(a) = mode_key(k) {
                return Some(a);
            }
        }
        self.on_key(k, keymap)
    }

    /// Whether `on_key_in_mode` can take key `k` in `mode`: always outside
    /// normal mode and for a mode key that starts afresh; otherwise when a
    /// count digit keeps the count within `usize` and a completed binding can
    /// take the count.
    pub fn accepts(&self, mode: crate::app::Mode, k: KeyEvent, keymap: &Keymap) -> (r: bool)
        ensures
            r == (mode == crate::app::Mode::Normal && !(self.count is None && self.buffer@.len()
                == 0 && mode_key_spec(k) is Some) ==> on_key_ok(
                self.count,
                self.buffer@,
                k,
                keymap@,
            )),
    {
        if mode != crate::app::Mode::Normal {
            return true;
        }
        if self.count.is_none() && self.buffer.len() == 0 && mode_key(k).is_some() {
            return true;
        }
        if self.buffer.len() == 0 {
            if let Some(digit) = as_count_digit(k) {
                return match self.count {
                    Some(c) => match c.checked_mul(10) {
                        Some(t) => t.checked_add(digit).is_some(),
                        None => false,
                    },
                    None => true,
                };
            }
        }
        let mut seq: Vec<KeyEvent> = Vec::new();
        let n = self.buffer.len();
        let mut i: usize = 0;
        while i < n
            invariant
                i <= n,
                n == self.buffer@.len(),
                seq@ == self.buffer@.take(i as int),
            decreases n - i,
        {
            seq.push(self.buffer[i]);
            assert(self.buffer@.take(i + 1) =~= self.buffer@.take(i as int).push(self.buffer@[i as int]));
            i = i + 1;
        }
        seq.push(k);
        assert(seq@ =~= self.buffer@.push(k));
        match keymap.action_for(&seq) {
            Some(a) => match a {
                Action::Move(d) => match self.count {
                    Some(c) => !(*d < 0 && c as isize == isize::MIN),
                    None => true,
                },
                _ => true,
            },
            None => true,
        }
    }
}

} // verus!

verus! {

/// The default bindings as (description, keys) rows, in help order.
pub open spec fn help_rows() -> Seq<(Seq<char>, Seq<char>)> {
    seq![
        ("move down"@, "j"@),
        ("move up"@, "k"@),
        ("back"@, "h"@),
        ("enter"@, "l"@),
        ("top"@, "gg"@),
        ("bottom"@, "G"@),
        ("half page down"@, "Ctrl-d"@),
        ("half page up"@, "Ctrl-u"@),
        ("next page"@, "]"@),
        ("previous page"@, "["@),
        ("reload"@, "r"@),
        ("toggle fullscreen"@, "f"@),
        ("toggle help"@, "?"@),
        ("open thread/post"@, "o"@),
        ("open media"@, "O"@),
        ("copy thread/post url"@, "y"@),
        ("copy media url"@, "Y"@),
        ("quit"@, "q"@),
    ]
}

/// The closing hint of the help.
pub open spec fn counts_hint() -> Seq<char> {
    "Counts work like 5j or 10G."@
}

/// How the help spells one key: the character, behind `Ctrl-` when Control
/// is held; nothing for a key that is not a character.
pub open spec fn help_key_text(k: KeyEvent) -> Seq<char> {
    match k.code {
        KeyCode::Char(c) => if k.modifiers == KeyModifiers::control_spec() {
            seq!['C', 't', 'r', 'l', '-', c]
        } else {
            seq![c]
        },
        _ => Seq::empty(),
    }
}

/// How the help spells a key sequence: its keys one after another.
pub open spec fn help_keys_text(ks: Seq<KeyEvent>) -> Seq<char>
    decreases ks.len(),
{
    if ks.len() == 0 {
        Seq::empty()
    } else {
        help_keys_text(ks.drop_last()) + help_key_text(ks.last())
    }
}

/// The help's name for a bound action.
pub open spec fn help_label(a: Action) -> Seq<char> {
    match a {
        Action::Move(d) => if d > 0 {
            "move down"@
        } else {
            "move up"@
        },
        Action::Back => "back"@,
        Action::Enter => "enter"@,
        Action::SelectFirst => "top"@,
        Action::SelectLast => "bottom"@,
        Action::HalfPageDown => "half page down"@,
        Action::HalfPageUp => "half page up"@,
        Action::NextPage => "next page"@,
        Action::PrevPage => "previous page"@,
        Action::Reload => "reload"@,
        Action::ToggleFullscreen => "toggle fullscreen"@,
        Action::ToggleHelp => "toggle help"@,
        Action::OpenThread => "open thread/post"@,
        Action::OpenMedia => "open media"@,
        Action::CopyThread => "copy thread/post url"@,
        Action::CopyMedia => "copy media url"@,
        Action::Quit => "quit"@,
        _ => Seq::empty(),
    }
}

/// Row `i` of the help names binding `i` of the vim keymap: the binding's
/// action by its name and its keys as the help spells them. There is one row
/// per binding.
pub proof fn lemma_help_rows_name_bindings()
    ensures
        help_rows().len() == vim_bindings().len(),
        forall|i: int|
            0 <= i < help_rows().len() ==> #[trigger] help_rows()[i] == (
                help_label(vim_bindings()[i].1),
                help_keys_text(vim_bindings()[i].0),
            ),
{
    reveal_strlit("j");
    reveal_strlit("k");
    reveal_strlit("h");
    reveal_strlit("l");
    reveal_strlit("gg");
    reveal_strlit("G");
    reveal_strlit("Ctrl-d");
    reveal_strlit("Ctrl-u");
    reveal_strlit("]");
    reveal_strlit("[");
    reveal_strlit("r");
    reveal_strlit("f");
    reveal_strlit("?");
    reveal_strlit("o");
    reveal_strlit("O");
    reveal_strlit("y");
    reveal_strlit("Y");
    reveal_strlit("q");
    reveal_with_fuel(help_keys_text, 3);
    assert forall|i: int| 0 <= i < help_rows().len() implies #[trigger] help_rows()[i] == (
        help_label(vim_bindings()[i].1),
        help_keys_text(vim_bindings()[i].0),
    ) by {
        if i == 0 {
            assert(help_keys_text(vim_bindings()[0].0) =~= "j"@);
        } else if i == 1 {
            assert(help_keys_text(vim_bindings()[1].0) =~= "k"@);
        } else if i == 2 {
            assert(help_keys_text(vim_bindings()[2].0) =~= "h"@);
        } else if i == 3 {
            assert(help_keys_text(vim_bindings()[3].0) =~= "l"@);
        } else if i == 4 {
            assert(help_keys_text(vim_bindings()[4].0) =~= "gg"@);
        } else if i == 5 {
            assert(help_keys_text(vim_bindings()[5].0) =~= "G"@);
        } else if i == 6 {
            assert(help_keys_text(vim_bindings()[6].0) =~= "Ctrl-d"@);
        } else if i == 7 {
            assert(help_keys_text(vim_bindings()[7].0) =~= "Ctrl-u"@);
        } else if i == 8 {
            assert(help_keys_text(vim_bindings()[8].0) =~= "]"@);
        } else if i == 9 {
            assert(help_keys_text(vim_bindings()[9].0) =~= "["@);
        } else if i == 10 {
            assert(help_keys_text(vim_bindings()[10].0) =~= "r"@);
        } else if i == 11 {
            assert(help_keys_text(vim_bindings()[11].0) =~= "f"@);
        } else if i == 12 {
            assert(help_keys_text(vim_bindings()[12].0) =~= "?"@);
        } else if i == 13 {
            assert(help_keys_text(vim_bindings()[13].0) =~= "o"@);
        } else if i == 14 {
            assert(help_keys_text(vim_bindings()[14].0) =~= "O"@);
        } else if i == 15 {
            assert(help_keys_text(vim_bindings()[15].0) =~= "y"@);
        } else if i == 16 {
            assert(help_keys_text(vim_bindings()[16].0) =~= "Y"@);
        } else if i == 17 {
            assert(help_keys_text(vim_bindings()[17].0) =~= "q"@);
        }
    }
}

fn help_table() -> (r: [(&'static str, &'static str); 18])
    ensures
        r@.map_values(|e: (&str, &str)| (e.0@, e.1@)) =~~= help_rows(),
{
    [
        ("move down", "j"),
        ("move up", "k"),
        ("back", "h"),
        ("enter", "l"),
        ("top", "gg"),
        ("bottom", "G"),
        ("half page down", "Ctrl-d"),
        ("half page up", "Ctrl-u"),
        ("next page", "]"),
        ("previous page", "["),
        ("reload", "r"),
        ("toggle fullscreen", "f"),
        ("toggle help", "?"),
        ("open thread/post", "o"),
        ("open media", "O"),
        ("copy thread/post url", "y"),
        ("copy media url", "Y"),
        ("quit", "q"),
    ]
}

/// The closing hint of the help.
pub fn help_counts_hint() -> (r: &'static str)
    ensures
        r@ == counts_hint(),
{
    "Counts work like 5j or 10G."
}

/// The bindings as (keys, description) pairs, for the help overlay.
pub fn help_entries() -> (r: Vec<(&'static str, &'static str)>)
    ensures
        r@.len() == help_rows().len(),
        forall|i: int|
            0 <= i < r@.len() ==> (#[trigger] r@[i]).0@ == help_rows()[i].1 && r@[i].1@
                == help_rows()[i].0,
{
    let table = help_table();
    let mut out: Vec<(&'static str, &'static str)> = Vec::new();
    let mut i: usize = 0;
    while i < 18
        invariant
            i <= 18,
            table@.map_values(|e: (&str, &str)| (e.0@, e.1@)) =~~= help_rows(),
            out@.len() == i,
            forall|k: int|
                0 <= k < i ==> (#[trigger] out@[k]).0@ == help_rows()[k].1 && out@[k].1@
                    == help_rows()[k].0,
        decreases 18 - i,
    {
        let (label, keys) = table[i];
        assert(table@.map_values(|e: (&str, &str)| (e.0@, e.1@))[i as int] == help_rows()[i as int]);
        out.push((keys, label));
        i = i + 1;
    }
    out
}

/// The two-column layout of the help overlay over `n` entries: row `r`
/// shows entry `r` on the left and, where there is one, entry `r + rows` on
/// the right, with `rows` half the entries rounded up.
pub open spec fn help_grid_spec(n: nat) -> Seq<(usize, Option<usize>)> {
    let rows = (n + 1) / 2;
    Seq::new(
        rows,
        |r: int|
            (r as usize, if r + rows < n {
                Some((r + rows) as usize)
            } else {
                None
            }),
    )
}

/// The rows of the help overlay over `n` entries, as entry indices.
pub fn help_grid(n: usize) -> (r: Vec<(usize, Option<usize>)>)
    ensures
        r@ == help_grid_spec(n as nat),
{
    let rows: usize = n / 2 + n % 2;
    assert(rows == (n + 1) / 2);
    let mut out: Vec<(usize, Option<usize>)> = Vec::new();
    let mut r: usize = 0;
    while r < rows
        invariant
            r <= rows,
            rows == (n + 1) / 2,
            rows <= n,
            out@ =~= help_grid_spec(n as nat).take(r as int),
        decreases rows - r,
    {
        let right = if r < n - rows {
            Some(r + rows)
        } else {
            None
        };
        out.push((r, right));
        assert(help_grid_spec(n as nat).take(r + 1) =~= help_grid_spec(n as nat).take(
            r as int,
        ).push((r, right)));
        r = r + 1;
    }
    assert(help_grid_spec(n as nat).take(rows as int) =~= help_grid_spec(n as nat));
    out
}

/// The size of the help overlay: its widest line plus four for the border
/// and margins, and its line count plus two for the border, each taken
/// modulo 2^16 as a screen coordinate holds it and kept within the area.
pub open spec fn help_popup_size_spec(inner_w: usize, lines: usize, area_w: u16, area_h: u16) -> (
    u16,
    u16,
) {
    let w = (inner_w % 0x10000) + 4;
    let h = (lines % 0x10000) + 2;
    ((if w < area_w { w } else { area_w as int }) as u16, (if h < area_h {
        h
    } else {
        area_h as int
    }) as u16)
}

/// The size of the help overlay in an area of `area_w` by `area_h` cells.
pub fn help_popup_size(inner_w: usize, lines: usize, area_w: u16, area_h: u16) -> (r: (u16, u16))
    requires
        (inner_w % 0x10000) + 4 <= u16::MAX,
        (lines % 0x10000) + 2 <= u16::MAX,
    ensures
        r == help_popup_size_spec(inner_w, lines, area_w, area_h),
{
    let w: u16 = (inner_w % 0x10000) as u16 + 4;
    let h: u16 = (lines % 0x10000) as u16 + 2;
    (if w < area_w { w } else { area_w }, if h < area_h { h } else { area_h })
}

/// The longest description among the first `n` rows, in characters.
pub open spec fn max_label_len(rows: Seq<(Seq<char>, Seq<char>)>, n: int) -> nat
    decreases n,
{
    if n <= 0 {
        0
    } else {
        let m = max_label_len(rows, n - 1);
        if rows[n - 1].0.len() > m { rows[n - 1].0.len() } else { m }
    }
}

/// `n` spaces.
pub open spec fn spaces(n: nat) -> Seq<char> {
    Seq::new(n, |i: int| ' ')
}

/// `s` padded with spaces on the right to `w` characters.
pub open spec fn pad_right(s: Seq<char>, w: nat) -> Seq<char> {
    if s.len() >= w {
        s
    } else {
        s + spaces((w - s.len()) as nat)
    }
}

/// The first `n` rows, each as the padded description, two spaces, the keys
/// and a line break.
pub open spec fn help_lines(rows: Seq<(Seq<char>, Seq<char>)>, w: nat, n: int) -> Seq<char>
    decreases n,
{
    if n <= 0 {
        Seq::empty()
    } else {
        help_lines(rows, w, n - 1) + pad_right(rows[n - 1].0, w) + "  "@ + rows[n - 1].1 + "\n"@
    }
}

/// The help listing: one aligned row per binding, then a blank line and the
/// counts hint.
pub open spec fn help_text_spec() -> Seq<char> {
    let rows = help_rows();
    help_lines(rows, max_label_len(rows, rows.len() as int), rows.len() as int) + "\n"@
        + counts_hint()
}

/// Human-readable help listing the default bindings.
pub fn help_text() -> (r: String)
    ensures
        r@ == help_text_spec(),
{
    let table = help_table();
    let ghost rows = help_rows();
    let mut width: usize = 0;
    let mut i: usize = 0;
    while i < 18
        invariant
            i <= 18,
            table@.map_values(|e: (&str, &str)| (e.0@, e.1@)) =~~= rows,
            rows == help_rows(),
            width == max_label_len(rows, i as int),
        decreases 18 - i,
    {
        assert(table@.map_values(|e: (&str, &str)| (e.0@, e.1@))[i as int] == rows[i as int]);
        let len = table[i].0.unicode_len();
        if len > width {
            width = len;
        }
        i = i + 1;
    }
    let mut text = String::new();
    let mut i: usize = 0;
    while i < 18
        invariant
            i <= 18,
            table@.map_values(|e: (&str, &str)| (e.0@, e.1@)) =~~= rows,
            rows == help_rows(),
            width == max_label_len(rows, 18),
            text@ == help_lines(rows, width as nat, i as int),
        decreases 18 - i,
    {
        assert(table@.map_values(|e: (&str, &str)| (e.0@, e.1@))[i as int] == rows[i as int]);
        let (label, keys) = table[i];
        let ghost before = text@;
        text.append(label);
        let len = label.unicode_len();
        let mut k: usize = len;
        while k < width
            invariant
                len < width ==> k <= width,
                width <= len ==> k == len,
                len == label@.len(),
                text@ == before + label@ + spaces((k - len) as nat),
                len <= k,
            decreases width - k,
        {
            crate::text::push_char(&mut text, ' ');
            assert(spaces((k + 1 - len) as nat) =~= spaces((k - len) as nat).push(' '));
            assert(text@ =~= before + label@ + spaces((k + 1 - len) as nat));
            k = k + 1;
        }
        if len >= width {
            assert(spaces((k - len) as nat) =~= Seq::<char>::empty());
        }
        assert(before + label@ + spaces((k - len) as nat) =~= before + pad_right(
            label@,
            width as nat,
        ));
        text.append("  ");
        text.append(keys);
        text.append("\n");
        assert(text@ =~= help_lines(rows, width as nat, i + 1));
        i = i + 1;
    }
    text.append("\n");
    text.append(help_counts_hint());
    text
}

} // verus!

verus! {

/// Once a key completes a binding, the count and the pending sequence are
/// both cleared, so the next key starts afresh; a key that neither completes
/// nor begins a binding clears them too.
pub proof fn lemma_engine_resets(
    count: Option<usize>,
    buffer: Seq<KeyEvent>,
    k: KeyEvent,
    bs: BindingsView,
)
    ensures
        ({
            let s = on_key_spec(count, buffer, k, bs);
            &&& s.action is Some ==> s.count is None && s.buffer.len() == 0
            &&& s.action is None && s.buffer.len() == 0 && !(buffer.len() == 0
                && count_digit_spec(k) is Some) ==> s.count is None
        }),
{
}

/// A count `n` in front of a motion repeats it: `nj` moves down `n` rows,
/// `nk` moves up `n` rows, and `nG` jumps to row `n`, counted from one.
pub proof fn lemma_count_motion(n: usize)
    requires
        1 <= n <= isize::MAX,
    ensures
        apply_count_spec(Action::Move(1isize), Some(n)) == Action::Move(n as isize),
        apply_count_spec(Action::Move(-1isize), Some(n)) == Action::Move((-(n as int)) as isize),
        apply_count_spec(Action::SelectLast, Some(n)) == Action::SelectIndex((n - 1) as usize),
        count_fits(Action::Move(1isize), Some(n)),
        count_fits(Action::Move(-1isize), Some(n)),
{
}

/// A count only changes moves and "select last"; without a count every action
/// stays as it is.
pub proof fn lemma_count_scope(action: Action, count: Option<usize>)
    ensures
        apply_count_spec(action, None) == action,
        !(action is Move || action is SelectLast) ==> apply_count_spec(action, count) == action,
{
}

} // verus!
