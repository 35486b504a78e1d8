use vstd::prelude::*;
use vstd::string::StringExecFns;

use crate::digest::{Digest, DigestView};
use crate::types::{FetchError, InputKey, Mode};

verus! {

/// What the session loop must do after one dispatched keystroke: keep
/// looping, launch a fetch of the given location, or stop.
#[derive(Debug, Clone, PartialEq)]
pub enum Command {
    Wait,
    Fetch(String),
    Quit,
}

/// Mathematical model of a [`Command`].
pub enum CommandView {
    Wait,
    Fetch(Seq<char>),
    Quit,
}

impl View for Command {
    type V = CommandView;

    open spec fn view(&self) -> CommandView {
        match self {
            Command::Wait => CommandView::Wait,
            Command::Fetch(t) => CommandView::Fetch(t@),
            Command::Quit => CommandView::Quit,
        }
    }
}

/// The session state owned by the session loop: the input mode, the
/// location being typed, whether a fetch is outstanding, the last
/// successful result, and the selection cursor over its entries.
#[derive(Debug)]
pub struct Session {
    pub mode: Mode,
    /// The in-progress or committed target location. Absent text is a
    /// state of its own, distinct from the empty string.
    pub location_text: Option<String>,
    /// True from the moment a fetch is launched until its outcome is
    /// drained from the handoff channel.
    pub is_fetch_in_flight: bool,
    /// Replaced wholesale by each successful fetch, never merged.
    pub result: Option<Digest>,
    /// Meaningful only while `result` is present; reset on replacement.
    pub selection_index: Option<usize>,
}

/// Mathematical model of a [`Session`].
pub struct SessionView {
    pub mode: Mode,
    pub location_text: Option<Seq<char>>,
    pub is_fetch_in_flight: bool,
    pub result: Option<DigestView>,
    pub selection_index: Option<int>,
}

impl View for Session {
    type V = SessionView;

    open spec fn view(&self) -> SessionView {
        SessionView {
            mode: self.mode,
            location_text: self.location_text.deep_view(),
            is_fetch_in_flight: self.is_fetch_in_flight,
            result: self.result.deep_view(),
            selection_index: match self.selection_index {
                Some(i) => Some(i as int),
                None => None,
            },
        }
    }
}

impl SessionView {
    /// The location text as characters; empty where the text is absent.
    pub open spec fn location_chars(self) -> Seq<char> {
        match self.location_text {
            Some(t) => t,
            None => Seq::empty(),
        }
    }

    /// How many entries the current result holds; zero without one.
    pub open spec fn entries_len(self) -> int {
        match self.result {
            Some(d) => d.entries.len() as int,
            None => 0,
        }
    }

    /// A selection cursor points into a present result's entries.
    pub open spec fn wf(self) -> bool {
        self.selection_index matches Some(i) ==> (self.result matches Some(d) && 0 <= i
            < d.entries.len())
    }
}

/// The session after a character is appended to the location text;
/// absent text first becomes empty.
pub open spec fn appended(v: SessionView, c: char) -> SessionView {
    SessionView { location_text: Some(v.location_chars().push(c)), ..v }
}

/// The session after the last character of the location text is
/// removed; a no-op on empty or absent text.
pub open spec fn last_removed(v: SessionView) -> SessionView {
    match v.location_text {
        Some(t) => SessionView {
            location_text: Some(
                if t.len() > 0 {
                    t.drop_last()
                } else {
                    t
                },
            ),
            ..v
        },
        None => v,
    }
}

/// Where the selection cursor stands after one step forward: to the
/// first entry from no selection, one ahead otherwise, wrapping at the
/// last entry; a no-op without entries.
pub open spec fn selected_next(v: SessionView) -> Option<int> {
    match v.result {
        Some(d) => {
            let n = d.entries.len() as int;
            if n == 0 {
                v.selection_index
            } else {
                match v.selection_index {
                    Some(i) => Some(
                        if i + 1 >= n {
                            0
                        } else {
                            i + 1
                        },
                    ),
                    None => Some(0),
                }
            }
        },
        None => v.selection_index,
    }
}

/// Where the selection cursor stands after one step back: to the last
/// entry from no selection, one behind otherwise, wrapping at the
/// first entry; a no-op without entries.
pub open spec fn selected_previous(v: SessionView) -> Option<int> {
    match v.result {
        Some(d) => {
            let n = d.entries.len() as int;
            if n == 0 {
                v.selection_index
            } else {
                match v.selection_index {
                    Some(i) => Some(
                        if i == 0 {
                            n - 1
                        } else {
                            i - 1
                        },
                    ),
                    None => Some(n - 1),
                }
            }
        },
        None => v.selection_index,
    }
}

/// The gated fetch trigger: while a fetch is already in flight the
/// trigger is ignored; otherwise the in-flight flag rises synchronously
/// and the launch command carries the location text as it stands.
pub open spec fn fetch_triggered(v: SessionView) -> (SessionView, CommandView) {
    if v.is_fetch_in_flight {
        (v, CommandView::Wait)
    } else {
        (
            SessionView { is_fetch_in_flight: true, ..v },
            CommandView::Fetch(v.location_chars()),
        )
    }
}

/// The mode state machine: how one keystroke changes the session and
/// what it asks of the loop. In Navigation mode characters edit the
/// location text, escape turns to Interaction, and enter triggers a
/// fetch. In Interaction mode `q` quits, `/` turns back to Navigation,
/// `j` and `k` move the selection, and `r` re-triggers a fetch.
/// Every other keystroke is silently ignored.
pub open spec fn step(v: SessionView, key: InputKey) -> (SessionView, CommandView) {
    match v.mode {
        Mode::Navigation => match key {
            InputKey::Char(c) => (appended(v, c), CommandView::Wait),
            InputKey::Backspace => (last_removed(v), CommandView::Wait),
            InputKey::Escape => (SessionView { mode: Mode::Interaction, ..v }, CommandView::Wait),
            InputKey::Enter => fetch_triggered(v),
        },
        Mode::Interaction => match key {
            InputKey::Char(c) => if c == 'q' {
                (v, CommandView::Quit)
            } else if c == '/' {
                (SessionView { mode: Mode::Navigation, ..v }, CommandView::Wait)
            } else if c == 'j' {
                (SessionView { selection_index: selected_next(v), ..v }, CommandView::Wait)
            } else if c == 'k' {
                (SessionView { selection_index: selected_previous(v), ..v }, CommandView::Wait)
            } else if c == 'r' {
                fetch_triggered(v)
            } else {
                (v, CommandView::Wait)
            },
            _ => (v, CommandView::Wait),
        },
    }
}

/// The drain step's effect on the session. Success replaces the result
/// wholesale, resets the selection and enters Interaction mode; failure
/// leaves result, selection and mode untouched. Either way the fetch is
/// no longer in flight.
pub open spec fn drained(v: SessionView, outcome: Result<DigestView, FetchError>) -> SessionView {
    match outcome {
        Ok(d) => SessionView {
            is_fetch_in_flight: false,
            result: Some(d),
            selection_index: None,
            mode: Mode::Interaction,
            ..v
        },
        Err(_) => SessionView { is_fetch_in_flight: false, ..v },
    }
}

/// Relies on String::push: appends the given character to the end.
#[verifier::external_body]
fn push_char(s: &mut String, c: char)
    ensures
        final(s)@ == old(s)@.push(c),
{
    s.push(c);
}

/// Relies on String::pop: removes and returns the last character, or
/// returns `None` and leaves the string as it was, when it is empty.
#[verifier::external_body]
fn pop_char(s: &mut String) -> (r: Option<char>)
    ensures
        old(s)@.len() == 0 ==> final(s)@ == old(s)@ && r is None,
        old(s)@.len() > 0 ==> final(s)@ == old(s)@.drop_last() && r == Some(old(s)@.last()),
{
    s.pop()
}

impl Session {
    /// A fresh session: Navigation mode, no location text, no fetch in
    /// flight, no result, no selection.
    pub fn new() -> (s: Session)
        ensures
            s@.mode == Mode::Navigation,
            s@.location_text is None,
            !s@.is_fetch_in_flight,
            s@.result is None,
            s@.selection_index is None,
    {
        Session {
            mode: Mode::Navigation,
            location_text: None,
            is_fetch_in_flight: false,
            result: None,
            selection_index: None,
        }
    }

    /// The location text, if any is set.
    pub fn get_url(&self) -> (r: Option<String>)
        ensures
            r.deep_view() == self@.location_text,
    {
        match &self.location_text {
            Some(u) => Some(u.clone()),
            None => None,
        }
    }

    /// Replaces the location text.
    pub fn set_url(&mut self, url: String)
        ensures
            final(self)@ == (SessionView { location_text: Some(url@), ..old(self)@ }),
    {
        self.location_text = Some(url);
    }

    /// Whether any location text is set; the empty string counts.
    pub fn has_url(&self) -> (r: bool)
        ensures
            r == (self@.location_text is Some),
    {
        self.location_text.is_some()
    }

    /// The location text for display; empty where none is set.
    pub fn url_to_string(&self) -> (r: String)
        ensures
            r@ == self@.location_chars(),
    {
        match &self.location_text {
            Some(u) => u.clone(),
            None => String::new(),
        }
    }

    /// Appends one character to the location text, setting it to the
    /// empty string first where it was absent.
    pub fn append_char(&mut self, ch: char)
        ensures
            final(self)@ == appended(old(self)@, ch),
    {
        let mut u = match self.location_text.take() {
            Some(u) => u,
            None => String::new(),
        };
        push_char(&mut u, ch);
        self.location_text = Some(u);
    }

    /// Removes the last character of the location text; a no-op where
    /// the text is empty or absent.
    pub fn remove_last_char(&mut self)
        ensures
            final(self)@ == last_removed(old(self)@),
    {
        match self.location_text.take() {
            Some(mut u) => {
                pop_char(&mut u);
                self.location_text = Some(u);
            },
            None => {},
        }
    }

    /// The current input mode.
    pub fn get_mode(&self) -> (m: Mode)
        ensures
            m == self@.mode,
    {
        self.mode
    }

    /// Sets the input mode.
    pub fn set_mode(&mut self, mode: Mode)
        ensures
            final(self)@ == (SessionView { mode: mode, ..old(self)@ }),
    {
        self.mode = mode;
    }

    /// Moves the selection cursor one entry forward, wrapping at the
    /// last entry; a no-op without a result or without entries.
    pub fn select_next(&mut self)
        ensures
            final(self)@ == (SessionView { selection_index: selected_next(old(self)@), ..old(
                self,
            )@ }),
    {
        if let Some(d) = &self.result {
            let n = d.entries.len();
            if n > 0 {
                self.selection_index = Some(
                    match self.selection_index {
                        Some(i) => if i >= n - 1 {
                            0
                        } else {
                            i + 1
                        },
                        None => 0,
                    },
                );
            }
        }
    }

    /// Moves the selection cursor one entry back, wrapping at the
    /// first entry; a no-op without a result or without entries.
    pub fn select_previous(&mut self)
        ensures
            final(self)@ == (SessionView { selection_index: selected_previous(old(self)@), ..old(
                self,
            )@ }),
    {
        if let Some(d) = &self.result {
            let n = d.entries.len();
            if n > 0 {
                self.selection_index = Some(
                    match self.selection_index {
                        Some(i) => if i == 0 {
                            n - 1
                        } else {
                            i - 1
                        },
                        None => n - 1,
                    },
                );
            }
        }
    }

    /// Launches a fetch of the current location text, unless one is
    /// already in flight; see [`fetch_triggered`].
    pub fn trigger_fetch(&mut self) -> (cmd: Command)
        ensures
            final(self)@ == fetch_triggered(old(self)@).0,
            cmd@ == fetch_triggered(old(self)@).1,
    {
        if self.is_fetch_in_flight {
            Command::Wait
        } else {
            self.is_fetch_in_flight = true;
            Command::Fetch(self.url_to_string())
        }
    }

    /// Dispatches one keystroke through the mode state machine; the
    /// whole effect is [`step`].
    pub fn handle_key(&mut self, key: InputKey) -> (cmd: Command)
        ensures
            final(self)@ == step(old(self)@, key).0,
            cmd@ == step(old(self)@, key).1,
    {
        match self.mode {
            Mode::Navigation => match key {
                InputKey::Char(c) => {
                    self.append_char(c);
                    Command::Wait
                },
                InputKey::Backspace => {
                    self.remove_last_char();
                    Command::Wait
                },
                InputKey::Escape => {
                    self.mode = Mode::Interaction;
                    Command::Wait
                },
                InputKey::Enter => self.trigger_fetch(),
            },
            Mode::Interaction => match key {
                InputKey::Char(c) => {
                    if c == 'q' {
                        Command::Quit
                    } else if c == '/' {
                        self.mode = Mode::Navigation;
                        Command::Wait
                    } else if c == 'j' {
                        self.select_next();
                        Command::Wait
                    } else if c == 'k' {
                        self.select_previous();
                        Command::Wait
                    } else if c == 'r' {
                        self.trigger_fetch()
                    } else {
                        Command::Wait
                    }
                },
                _ => Command::Wait,
            },
        }
    }

    /// The drain step: consumes the one message of a completed fetch;
    /// the whole effect is [`drained`].
    pub fn apply_fetch_outcome(&mut self, outcome: Result<Digest, FetchError>)
        ensures
            outcome matches Ok(d) ==> final(self)@ == drained(old(self)@, Ok(d@)),
            outcome matches Err(e) ==> final(self)@ == drained(old(self)@, Err(e)),
    {
        match outcome {
            Ok(d) => {
                self.result = Some(d);
                self.selection_index = None;
                self.mode = Mode::Interaction;
                self.is_fetch_in_flight = false;
            },
            Err(_) => {
                self.is_fetch_in_flight = false;
            },
        }
    }

    /// The header line for display: in Navigation mode the location is
    /// shown behind a prompt, in Interaction mode bare.
    pub fn header_text(&self) -> (r: String)
        ensures
            self@.mode == Mode::Navigation ==> r@ == "Navigate: "@ + self@.location_chars(),
            self@.mode == Mode::Interaction ==> r@ == self@.location_chars(),
    {
        match self.mode {
            Mode::Navigation => {
                let mut s = String::from_str("Navigate: ");
                let url = self.url_to_string();
                s.append(url.as_str());
                s
            },
            Mode::Interaction => self.url_to_string(),
        }
    }
}

/// Every keystroke keeps the selection cursor valid: it goes on
/// pointing inside a present result's entries.
pub proof fn lemma_step_preserves_wf(v: SessionView, key: InputKey)
    requires
        v.wf(),
    ensures
        step(v, key).0.wf(),
{
}

/// Every drain keeps the selection cursor valid: success resets it,
/// failure leaves it pointing where it did.
pub proof fn lemma_drained_preserves_wf(v: SessionView, outcome: Result<DigestView, FetchError>)
    requires
        v.wf(),
    ensures
        drained(v, outcome).wf(),
{
}

/// The session after a sequence of character keystrokes, dispatched in
/// order through the mode state machine.
pub open spec fn after_typing(v: SessionView, cs: Seq<char>) -> SessionView
    decreases cs.len(),
{
    if cs.len() == 0 {
        v
    } else {
        step(after_typing(v, cs.drop_last()), InputKey::Char(cs.last())).0
    }
}

/// Typing law: in Navigation mode, a sequence of character keystrokes
/// appends exactly those characters in order to the location text, and
/// changes nothing else of the session.
pub proof fn lemma_navigation_typing(v: SessionView, cs: Seq<char>)
    requires
        v.mode == Mode::Navigation,
    ensures
        after_typing(v, cs).location_chars() == v.location_chars() + cs,
        after_typing(v, cs).mode == Mode::Navigation,
        after_typing(v, cs).is_fetch_in_flight == v.is_fetch_in_flight,
        after_typing(v, cs).result == v.result,
        after_typing(v, cs).selection_index == v.selection_index,
    decreases cs.len(),
{
    if cs.len() == 0 {
        assert(v.location_chars() + cs =~= v.location_chars());
    } else {
        lemma_navigation_typing(v, cs.drop_last());
        assert((v.location_chars() + cs.drop_last()).push(cs.last()) =~= v.location_chars() + cs);
    }
}

/// Backspace law: in Navigation mode a backspace removes exactly the
/// last character of the location text, and is a no-op on empty text.
pub proof fn lemma_backspace_removes_last(v: SessionView)
    requires
        v.mode == Mode::Navigation,
    ensures
        v.location_chars().len() > 0 ==> step(v, InputKey::Backspace).0.location_chars()
            == v.location_chars().drop_last(),
        v.location_chars().len() == 0 ==> step(v, InputKey::Backspace).0.location_chars()
            == v.location_chars(),
{
}

/// The session after the selection cursor is advanced `k` times.
pub open spec fn after_nexts(v: SessionView, k: nat) -> SessionView
    decreases k,
{
    if k == 0 {
        v
    } else {
        let w = after_nexts(v, (k - 1) as nat);
        SessionView { selection_index: selected_next(w), ..w }
    }
}

proof fn lemma_after_nexts_position(v: SessionView, k: nat)
    requires
        v.wf(),
        v.selection_index is Some,
        k <= v.entries_len(),
    ensures
        after_nexts(v, k) == (SessionView {
            selection_index: Some(
                if v.selection_index->Some_0 + k < v.entries_len() {
                    v.selection_index->Some_0 + k
                } else {
                    v.selection_index->Some_0 + k - v.entries_len()
                },
            ),
            ..v
        }),
    decreases k,
{
    if k > 0 {
        lemma_after_nexts_position(v, (k - 1) as nat);
    }
}

/// Wraparound law: with a selection standing, advancing it once per
/// entry returns the session exactly to where it began.
pub proof fn lemma_select_next_wraps(v: SessionView)
    requires
        v.wf(),
        v.selection_index is Some,
    ensures
        after_nexts(v, v.entries_len() as nat) == v,
{
    lemma_after_nexts_position(v, v.entries_len() as nat);
}

} // verus!
