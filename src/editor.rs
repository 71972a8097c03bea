//! A line editor driven one key at a time: it keeps the line being typed and
//! the lines submitted before, and tells the terminal what to echo.

use vstd::prelude::*;

verus! {

/// A key press, as far as the editor tells keys apart.
#[derive(Debug, Clone, Copy, PartialEq, Eq, Structural)]
pub enum Key {
    /// Enter with Alt alone held: starts a new line inside the entry.
    AltEnter,
    /// Enter with any other modifiers: submits the entry.
    Enter,
    Backspace,
    /// Ctrl-C.
    Interrupt,
    Char(char),
    Up,
    Down,
    /// Any key the editor ignores.
    Other,
}

/// What the editor asks the terminal to show, or what it hands back.
#[derive(Debug, Clone, PartialEq, Eq)]
pub enum EditOutcome {
    /// Nothing to show.
    Idle,
    /// Move to a fresh terminal line inside the entry.
    NewLine,
    /// Erase the last character shown.
    EraseLast,
    /// Show one more character.
    Show(char),
    /// Clear the prompt line and show this entry in its place.
    Redraw(String),
    /// Clear the prompt line.
    ClearLine,
    /// The entry is complete.
    Submitted(String),
    /// The user asked to stop.
    Interrupted,
}

/// The mathematical form of an [`EditOutcome`].
pub enum Effect {
    Idle,
    NewLine,
    EraseLast,
    Show(char),
    Redraw(Seq<char>),
    ClearLine,
    Submitted(Seq<char>),
    Interrupted,
}

impl View for EditOutcome {
    type V = Effect;

    open spec fn view(&self) -> Effect {
        match self {
            EditOutcome::Idle => Effect::Idle,
            EditOutcome::NewLine => Effect::NewLine,
            EditOutcome::EraseLast => Effect::EraseLast,
            EditOutcome::Show(c) => Effect::Show(*c),
            EditOutcome::Redraw(s) => Effect::Redraw(s@),
            EditOutcome::ClearLine => Effect::ClearLine,
            EditOutcome::Submitted(s) => Effect::Submitted(s@),
            EditOutcome::Interrupted => Effect::Interrupted,
        }
    }
}

/// The editor's state: the entry typed so far, the earlier entries, and the
/// position in them that Up and Down move (equal to their number when the
/// entry is a fresh one).
pub struct EditorState {
    pub buffer: Seq<char>,
    pub history: Seq<Seq<char>>,
    pub cursor: nat,
}

/// The state that follows a key press, and what the editor hands back.
pub open spec fn key_step(s: EditorState, key: Key) -> (EditorState, Effect) {
    match key {
        Key::AltEnter => (EditorState { buffer: s.buffer.push('\n'), ..s }, Effect::NewLine),
        Key::Enter => if s.buffer.len() > 0 {
            let history = s.history.push(s.buffer);
            (
                EditorState { buffer: Seq::empty(), history, cursor: history.len() },
                Effect::Submitted(s.buffer),
            )
        } else {
            (s, Effect::Idle)
        },
        Key::Backspace => if s.buffer.len() > 0 {
            (EditorState { buffer: s.buffer.drop_last(), ..s }, Effect::EraseLast)
        } else {
            (s, Effect::Idle)
        },
        Key::Interrupt => (s, Effect::Interrupted),
        Key::Char(c) => (EditorState { buffer: s.buffer.push(c), ..s }, Effect::Show(c)),
        Key::Up => if s.cursor > 0 {
            let cursor = (s.cursor - 1) as nat;
            (
                EditorState { buffer: s.history[cursor as int], cursor, ..s },
                Effect::Redraw(s.history[cursor as int]),
            )
        } else {
            (s, Effect::Idle)
        },
        Key::Down => if s.cursor < s.history.len() {
            let cursor = s.cursor + 1;
            if cursor < s.history.len() {
                (
                    EditorState { buffer: s.history[cursor as int], cursor, ..s },
                    Effect::Redraw(s.history[cursor as int]),
                )
            } else {
                (EditorState { buffer: Seq::empty(), cursor, ..s }, Effect::ClearLine)
            }
        } else {
            (s, Effect::Idle)
        },
        Key::Other => (s, Effect::Idle),
    }
}

/// Relies on `String`'s `FromIterator<&char>`: the string of the given
/// characters, in order.
#[verifier::external_body]
fn string_of_chars(chars: &Vec<char>) -> (r: String)
    ensures
        r@ == chars@,
{
    chars.iter().collect()
}

/// The characters of a string, in order.
fn chars_of(s: &String) -> (r: Vec<char>)
    ensures
        r@ == s@,
{
    let n = s.as_str().unicode_len();
    let mut r: Vec<char> = Vec::new();
    let mut i: usize = 0;
    while i < n
        invariant
            n == s@.len(),
            i <= n,
            r@ == s@.subrange(0, i as int),
        decreases n - i,
    {
        r.push(s.as_str().get_char(i));
        i = i + 1;
        assert(r@ =~= s@.subrange(0, i as int));
    }
    assert(s@.subrange(0, n as int) =~= s@);
    r
}

/// A line editor with a history of submitted entries.
pub struct LineEditor {
    buffer: Vec<char>,
    history: Vec<String>,
    cursor: usize,
}

impl View for LineEditor {
    type V = EditorState;

    closed spec fn view(&self) -> EditorState {
        EditorState {
            buffer: self.buffer@,
            history: self.history@.map_values(|h: String| h@),
            cursor: self.cursor as nat,
        }
    }
}

impl LineEditor {
    pub closed spec fn wf(&self) -> bool {
        self.cursor <= self.history.len()
    }

    /// An editor with an empty entry, positioned after the given history.
    pub fn new(history: Vec<String>) -> (r: Self)
        ensures
            r.wf(),
            r@.buffer == Seq::<char>::empty(),
            r@.history == history@.map_values(|h: String| h@),
            r@.cursor == history@.len(),
    {
        let cursor = history.len();
        LineEditor { buffer: Vec::new(), history, cursor }
    }

    /// The entry typed so far.
    pub fn current(&self) -> (r: String)
        ensures
            r@ == self@.buffer,
    {
        string_of_chars(&self.buffer)
    }

    /// Applies one key press.
    pub fn on_key(&mut self, key: Key) -> (out: EditOutcome)
        requires
            old(self).wf(),
        ensures
            final(self).wf(),
            (final(self)@, out@) == key_step(old(self)@, key),
    {
        let ghost s = self@;
        match key {
            Key::AltEnter => {
                self.buffer.push('\n');
                EditOutcome::NewLine
            },
            Key::Enter => {
                if self.buffer.len() > 0 {
                    let line = string_of_chars(&self.buffer);
                    self.history.push(line.clone());
                    self.buffer = Vec::new();
                    self.cursor = self.history.len();
                    proof {
                        assert(self@.history =~= s.history.push(s.buffer));
                        assert(self@.buffer =~= Seq::<char>::empty());
                    }
                    EditOutcome::Submitted(line)
                } else {
                    EditOutcome::Idle
                }
            },
            Key::Backspace => {
                if self.buffer.len() > 0 {
                    self.buffer.pop();
                    proof {
                        assert(self@.buffer =~= s.buffer.drop_last());
                    }
                    EditOutcome::EraseLast
                } else {
                    EditOutcome::Idle
                }
            },
            Key::Interrupt => EditOutcome::Interrupted,
            Key::Char(c) => {
                self.buffer.push(c);
                EditOutcome::Show(c)
            },
            Key::Up => {
                if self.cursor > 0 {
                    self.cursor = self.cursor - 1;
                    self.buffer = chars_of(&self.history[self.cursor]);
                    EditOutcome::Redraw(self.history[self.cursor].clone())
                } else {
                    EditOutcome::Idle
                }
            },
            Key::Down => {
                if self.cursor < self.history.len() {
                    self.cursor = self.cursor + 1;
                    if self.cursor < self.history.len() {
                        self.buffer = chars_of(&self.history[self.cursor]);
                        EditOutcome::Redraw(self.history[self.cursor].clone())
                    } else {
                        self.buffer = Vec::new();
                        proof {
                            assert(self@.buffer =~= Seq::<char>::empty());
                        }
                        EditOutcome::ClearLine
                    }
                } else {
                    EditOutcome::Idle
                }
            },
            Key::Other => EditOutcome::Idle,
        }
    }
}

} // verus!
