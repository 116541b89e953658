//! The state behind the interactive front end: the page-navigation index,
//! the configuration page's input buffer, and the search page's input,
//! results and selection.  Rendering and the terminal event loop stay with
//! the caller; every transition here is a verified function from state and
//! key to next state and action.

use vstd::prelude::*;
use crate::catalog::RomHackDetails;
use crate::text::chars_to_string;

verus! {

/// What the front-end control loop should do in response to a key.
#[derive(Clone, Copy, Debug, PartialEq, Eq, Structural)]
pub enum AppAction {
    Exit,
    SwitchState,
}

/// The keys the state machines react to, decoupled from any terminal crate;
/// the caller translates its event type into this one.
#[derive(Clone, Copy, Debug, PartialEq, Eq, Structural)]
pub enum KeyInput {
    Char(char),
    Esc,
    Tab,
    Backspace,
    Enter,
    Down,
    Up,
    Other,
}

/// The configuration page: a title and a text-input buffer.
pub struct ConfigState {
    pub title: &'static str,
    pub input: Vec<char>,
}

impl ConfigState {
    /// A fresh page with an empty input buffer.
    pub fn new(title: &'static str) -> (r: ConfigState)
        ensures
            r.title@ == title@,
            r.input@.len() == 0,
    {
        ConfigState { title, input: Vec::new() }
    }

    /// The page's title.
    pub fn title(&self) -> (r: &'static str)
        ensures
            r@ == self.title@,
    {
        self.title
    }

    /// The input buffer as text, for rendering.
    pub fn input_text(&self) -> (r: String)
        ensures
            r@ == self.input@,
    {
        chars_to_string(&self.input)
    }

    /// One key: a printable character extends the input, backspace shortens
    /// it, escape asks to exit, tab asks to switch pages; anything else is
    /// ignored.
    pub fn handle_key_event(&mut self, event: KeyInput) -> (r: Option<AppAction>)
        ensures
            final(self).title@ == old(self).title@,
            match event {
                KeyInput::Char(c) => final(self).input@ == old(self).input@.push(c) && r is None,
                KeyInput::Esc => final(self).input@ == old(self).input@ && r == Some(
                    AppAction::Exit,
                ),
                KeyInput::Tab => final(self).input@ == old(self).input@ && r == Some(
                    AppAction::SwitchState,
                ),
                KeyInput::Backspace => r is None && final(self).input@ == (if old(
                    self,
                ).input@.len() > 0 {
                    old(self).input@.drop_last()
                } else {
                    old(self).input@
                }),
                _ => final(self).input@ == old(self).input@ && r is None,
            },
    {
        match event {
            KeyInput::Char(c) => {
                self.input.push(c);
                None
            },
            KeyInput::Esc => Some(AppAction::Exit),
            KeyInput::Tab => Some(AppAction::SwitchState),
            KeyInput::Backspace => {
                let popped = self.input.pop();
                proof {
                    if old(self).input@.len() > 0 {
                        assert(self.input@ =~= old(self).input@.drop_last());
                    }
                }
                None
            },
            _ => None,
        }
    }
}

/// What the search page asks of its caller after a key: forward an action
/// to the container, or run a search for the current input and install its
/// results with `set_results`.
#[derive(Clone, Copy, Debug, PartialEq, Eq, Structural)]
pub enum SearchDirective {
    Action(AppAction),
    RunSearch,
}

/// The search page: a title, an input buffer, the current result set and
/// the selected row, if any.
pub struct SearchState {
    pub title: &'static str,
    pub input: Vec<char>,
    pub results: Vec<RomHackDetails>,
    pub selected: Option<usize>,
}

impl SearchState {
    /// A selection, when present, always points into the result set.
    pub open spec fn wf(&self) -> bool {
        match self.selected {
            Some(i) => i < self.results@.len(),
            None => true,
        }
    }

    /// A fresh page with no input, no results and no selection.
    pub fn new(title: &'static str) -> (r: SearchState)
        ensures
            r.title@ == title@,
            r.input@.len() == 0,
            r.results@.len() == 0,
            r.selected is None,
            r.wf(),
    {
        SearchState { title, input: Vec::new(), results: Vec::new(), selected: None }
    }

    /// The page's title.
    pub fn title(&self) -> (r: &'static str)
        ensures
            r@ == self.title@,
    {
        self.title
    }

    /// The input buffer as text, for rendering.
    pub fn input_text(&self) -> (r: String)
        ensures
            r@ == self.input@,
    {
        chars_to_string(&self.input)
    }

    /// Installs a new result set, selecting its first row when it is
    /// non-empty; the caller performs the search itself.  An empty set
    /// clears the selection — a stale selection pointing past the new
    /// results would break the `wf` invariant every method relies on.
    pub fn set_results(&mut self, results: Vec<RomHackDetails>)
        ensures
            final(self).title@ == old(self).title@,
            final(self).input@ == old(self).input@,
            final(self).results == results,
            final(self).selected == (if results@.len() > 0 {
                Some(0usize)
            } else {
                None::<usize>
            }),
            final(self).wf(),
    {
        let has_rows = results.len() > 0;
        self.results = results;
        self.selected = if has_rows {
            Some(0)
        } else {
            None
        };
    }

    /// Moves the selection one row down, wrapping to the first row past the
    /// end; with no selection yet the first row is selected.  An empty
    /// result set keeps the selection empty.
    pub fn next(&mut self)
        requires
            old(self).wf(),
        ensures
            final(self).title@ == old(self).title@,
            final(self).input@ == old(self).input@,
            final(self).results == old(self).results,
            final(self).wf(),
            final(self).selected == (if old(self).results@.len() == 0 {
                None::<usize>
            } else {
                match old(self).selected {
                    None => Some(0usize),
                    Some(i) => if i + 1 >= old(self).results@.len() {
                        Some(0usize)
                    } else {
                        Some((i + 1) as usize)
                    },
                }
            }),
    {
        if self.results.len() == 0 {
            self.selected = None;
            return ;
        }
        let n = self.results.len();
        let i = match self.selected {
            Some(i) => if i >= n - 1 {
                0
            } else {
                i + 1
            },
            None => 0,
        };
        self.selected = Some(i);
    }

    /// Moves the selection one row up, wrapping to the last row before the
    /// start; with no selection yet the first row is selected.  An empty
    /// result set keeps the selection empty.
    pub fn previous(&mut self)
        requires
            old(self).wf(),
        ensures
            final(self).title@ == old(self).title@,
            final(self).input@ == old(self).input@,
            final(self).results == old(self).results,
            final(self).wf(),
            final(self).selected == (if old(self).results@.len() == 0 {
                None::<usize>
            } else {
                match old(self).selected {
                    None => Some(0usize),
                    Some(i) => if i == 0 {
                        Some((old(self).results@.len() - 1) as usize)
                    } else {
                        Some((i - 1) as usize)
                    },
                }
            }),
    {
        if self.results.len() == 0 {
            self.selected = None;
            return ;
        }
        let n = self.results.len();
        let i = match self.selected {
            Some(i) => if i == 0 {
                n - 1
            } else {
                i - 1
            },
            None => 0,
        };
        self.selected = Some(i);
    }

    /// One key: text editing as on the configuration page, arrows move the
    /// selection, and Enter asks the caller to run a search for the current
    /// input and install its results with `set_results`.
    pub fn handle_key_event(&mut self, event: KeyInput) -> (r: Option<SearchDirective>)
        requires
            old(self).wf(),
        ensures
            final(self).title@ == old(self).title@,
            final(self).results == old(self).results,
            final(self).wf(),
            match event {
                KeyInput::Char(c) => final(self).input@ == old(self).input@.push(c) && r is None
                    && final(self).selected == old(self).selected,
                KeyInput::Esc => *final(self) == *old(self) && r == Some(
                    SearchDirective::Action(AppAction::Exit),
                ),
                KeyInput::Tab => *final(self) == *old(self) && r == Some(
                    SearchDirective::Action(AppAction::SwitchState),
                ),
                KeyInput::Backspace => r is None && final(self).selected == old(self).selected
                    && final(self).input@ == (if old(self).input@.len() > 0 {
                    old(self).input@.drop_last()
                } else {
                    old(self).input@
                }),
                KeyInput::Enter => *final(self) == *old(self) && r == Some(
                    SearchDirective::RunSearch,
                ),
                KeyInput::Down | KeyInput::Up => r is None && final(self).input@ == old(
                    self,
                ).input@,
                _ => *final(self) == *old(self) && r is None,
            },
    {
        match event {
            KeyInput::Char(c) => {
                self.input.push(c);
                None
            },
            KeyInput::Esc => Some(SearchDirective::Action(AppAction::Exit)),
            KeyInput::Tab => Some(SearchDirective::Action(AppAction::SwitchState)),
            KeyInput::Backspace => {
                let popped = self.input.pop();
                proof {
                    if old(self).input@.len() > 0 {
                        assert(self.input@ =~= old(self).input@.drop_last());
                    }
                }
                None
            },
            KeyInput::Enter => Some(SearchDirective::RunSearch),
            KeyInput::Down => {
                self.next();
                None
            },
            KeyInput::Up => {
                self.previous();
                None
            },
            _ => None,
        }
    }
}

/// The page container: which of `page_count` pages is shown.
pub struct App {
    pub index: usize,
    pub page_count: usize,
}

impl App {
    /// The shown page always exists.
    pub open spec fn wf(&self) -> bool {
        self.page_count > 0 && self.index < self.page_count
    }

    /// A container over `page_count` pages, showing the first.
    pub fn new(page_count: usize) -> (r: App)
        requires
            page_count > 0,
        ensures
            r.index == 0,
            r.page_count == page_count,
            r.wf(),
    {
        App { index: 0, page_count }
    }

    /// Shows the next page, wrapping to the first past the last.
    pub fn select_next(&mut self)
        requires
            old(self).wf(),
        ensures
            final(self).page_count == old(self).page_count,
            final(self).wf(),
            final(self).index == (if old(self).index + 1 < old(self).page_count {
                old(self).index + 1
            } else {
                0
            }),
    {
        if self.index < self.page_count - 1 {
            self.index = self.index + 1;
        } else {
            self.index = 0;
        }
    }
}

/// One key at the container level: escape asks to exit, tab shows the next
/// page; anything else is left to the shown page.
pub fn handle_key_event(app: &mut App, event: KeyInput) -> (r: Option<AppAction>)
    requires
        old(app).wf(),
    ensures
        final(app).page_count == old(app).page_count,
        final(app).wf(),
        match event {
            KeyInput::Esc => *final(app) == *old(app) && r == Some(AppAction::Exit),
            KeyInput::Tab => r is None && final(app).index == (if old(app).index + 1 < old(
                app,
            ).page_count {
                old(app).index + 1
            } else {
                0
            }),
            _ => *final(app) == *old(app) && r is None,
        },
{
    match event {
        KeyInput::Esc => Some(AppAction::Exit),
        KeyInput::Tab => {
            app.select_next();
            None
        },
        _ => None,
    }
}

} // verus!
