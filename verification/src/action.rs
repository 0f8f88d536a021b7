//! The intents that drive the application state and the side effects that a
//! state transition asks for.
use vstd::prelude::*;
use crate::model::{Thread, ThreadPost};

verus! {

/// A single intent to apply to the application state.
///
/// Input keys translate into the intent variants; the effect executor feeds
/// the result variants back after an effect finishes.
pub enum Action {
    // input intents
    Quit,
    Back,
    Enter,
    Move(isize),
    SelectFirst,
    SelectLast,
    SelectIndex(usize),
    HalfPageDown,
    HalfPageUp,
    NextPage,
    PrevPage,
    Reload,
    ToggleFullscreen,
    ToggleHelp,
    OpenThread,
    OpenMedia,
    CopyThread,
    CopyMedia,
    Escape,
    EnterCommand,
    EnterSearch,
    LineInput(char),
    LineBackspace,
    LineSubmit,
    SearchNext,
    SearchPrev,
    Tick,
    // results fed back after an effect runs
    ThreadsLoaded(Vec<Thread>),
    ThreadLoaded(Vec<ThreadPost>),
    LoadFailed(String),
}

impl Action {
    /// An input intent: not one of the results that an effect feeds back.
    pub open spec fn is_intent(&self) -> bool {
        !(self is ThreadsLoaded || self is ThreadLoaded || self is LoadFailed)
    }

    /// A copy of an input intent.
    pub fn copy_intent(&self) -> (r: Action)
        requires
            self.is_intent(),
        ensures
            r == *self,
    {
        match self {
            Action::Quit => Action::Quit,
            Action::Back => Action::Back,
            Action::Enter => Action::Enter,
            Action::Move(d) => Action::Move(*d),
            Action::SelectFirst => Action::SelectFirst,
            Action::SelectLast => Action::SelectLast,
            Action::SelectIndex(i) => Action::SelectIndex(*i),
            Action::HalfPageDown => Action::HalfPageDown,
            Action::HalfPageUp => Action::HalfPageUp,
            Action::NextPage => Action::NextPage,
            Action::PrevPage => Action::PrevPage,
            Action::Reload => Action::Reload,
            Action::ToggleFullscreen => Action::ToggleFullscreen,
            Action::ToggleHelp => Action::ToggleHelp,
            Action::OpenThread => Action::OpenThread,
            Action::OpenMedia => Action::OpenMedia,
            Action::CopyThread => Action::CopyThread,
            Action::CopyMedia => Action::CopyMedia,
            Action::Escape => Action::Escape,
            Action::EnterCommand => Action::EnterCommand,
            Action::EnterSearch => Action::EnterSearch,
            Action::LineInput(c) => Action::LineInput(*c),
            Action::LineBackspace => Action::LineBackspace,
            Action::LineSubmit => Action::LineSubmit,
            Action::SearchNext => Action::SearchNext,
            Action::SearchPrev => Action::SearchPrev,
            Action::Tick => Action::Tick,
            Action::ThreadsLoaded(_) => Action::Tick,
            Action::ThreadLoaded(_) => Action::Tick,
            Action::LoadFailed(_) => Action::Tick,
        }
    }
}

/// A side effect requested by a state transition. The caller runs these; the
/// transition itself stays pure.
pub enum Effect {
    FetchThreads { board: String, page: u8 },
    FetchThread { board: String, no: u64 },
    OpenBrowser(String),
    CopyToClipboard(String),
    Quit,
}

/// An effect with its strings taken as character sequences.
pub enum EffectView {
    FetchThreads { board: Seq<char>, page: u8 },
    FetchThread { board: Seq<char>, no: u64 },
    OpenBrowser(Seq<char>),
    CopyToClipboard(Seq<char>),
    Quit,
}

impl View for Effect {
    type V = EffectView;

    open spec fn view(&self) -> EffectView {
        match self {
            Effect::FetchThreads { board, page } => EffectView::FetchThreads {
                board: board@,
                page: *page,
            },
            Effect::FetchThread { board, no } => EffectView::FetchThread { board: board@, no: *no },
            Effect::OpenBrowser(url) => EffectView::OpenBrowser(url@),
            Effect::CopyToClipboard(text) => EffectView::CopyToClipboard(text@),
            Effect::Quit => EffectView::Quit,
        }
    }
}

impl EffectView {
    /// A network fetch, which keeps a request in flight until its result
    /// comes back.
    pub open spec fn is_fetch(self) -> bool {
        self is FetchThreads || self is FetchThread
    }
}

} // verus!
