//! The prompt session: the input line, the history of completed commands, and
//! what each key press does to them.
use vstd::prelude::*;
use crate::render::{entries_view, history_body, screen_of, Screen};
use crate::text::{eq_ascii_folded, eq_ignore_case, pop_char, push_char, trim_str, trimmed};

verus! {

/// A key press, as far as the session tells keys apart.
#[derive(Clone, Copy, Debug, PartialEq, Eq, Structural)]
pub enum Key {
    Char(char),
    Backspace,
    Enter,
    Esc,
    Other,
}

/// What the event loop is to do after a key press.
#[derive(Debug, PartialEq, Eq)]
pub enum Action {
    /// Nothing beyond redrawing.
    Idle,
    /// Run this command line, then hand its output to `ShellApp::record`.
    Run(String),
    /// End the session.
    Quit,
}

/// The model of an `Action`.
pub ghost enum Step {
    Idle,
    Run(Seq<char>),
    Quit,
}

impl View for Action {
    type V = Step;

    open spec fn view(&self) -> Step {
        match self {
            Action::Idle => Step::Idle,
            Action::Run(cmd) => Step::Run(cmd@),
            Action::Quit => Step::Quit,
        }
    }
}

/// The model of a session: the input line and the history of
/// `(command, output)` pairs, oldest first.
pub ghost struct Session {
    pub input: Seq<char>,
    pub history: Seq<(Seq<char>, Seq<char>)>,
}

/// A trimmed line that ends the session instead of running: `/exit` or `/quit`,
/// in any ASCII case.
pub open spec fn is_exit_token(line: Seq<char>) -> bool {
    eq_ascii_folded(line, seq!['/', 'e', 'x', 'i', 't']) || eq_ascii_folded(
        line,
        seq!['/', 'q', 'u', 'i', 't'],
    )
}

/// The session and the step that follow a key press.
pub open spec fn key_transition(s: Session, key: Key) -> (Session, Step) {
    match key {
        Key::Char(c) => (Session { input: s.input.push(c), ..s }, Step::Idle),
        Key::Backspace => {
            if s.input.len() > 0 {
                (Session { input: s.input.drop_last(), ..s }, Step::Idle)
            } else {
                (s, Step::Idle)
            }
        },
        Key::Enter => {
            let line = trimmed(s.input);
            let cleared = Session { input: Seq::empty(), ..s };
            if is_exit_token(line) {
                (cleared, Step::Quit)
            } else {
                (cleared, Step::Run(line))
            }
        },
        Key::Esc => (s, Step::Quit),
        Key::Other => (s, Step::Idle),
    }
}

/// The session once a command has completed with the given output.
pub open spec fn with_entry(s: Session, command: Seq<char>, output: Seq<char>) -> Session {
    Session { history: s.history.push((command, output)), ..s }
}

/// The state of an interactive shell prompt. `F` is the command runner that the
/// event loop carries along; the session itself never calls it.
pub struct ShellApp<F> {
    input: String,
    blocks: Vec<(String, String)>,
    run_cmd: F,
}

impl<F> View for ShellApp<F> {
    type V = Session;

    closed spec fn view(&self) -> Session {
        Session {
            input: self.input@,
            history: entries_view(self.blocks@),
        }
    }
}

impl<F> ShellApp<F> {
    /// The command runner that the session carries.
    pub closed spec fn spec_runner(&self) -> F {
        self.run_cmd
    }

    /// A session with an empty input line and no history, carrying `runner`.
    pub fn new(runner: F) -> (r: Self)
        ensures
            r@.input.len() == 0,
            r@.history.len() == 0,
            r.spec_runner() == runner,
    {
        ShellApp { input: String::new(), blocks: Vec::new(), run_cmd: runner }
    }

    /// The command runner given to `new`.
    pub fn runner(&self) -> (r: &F)
        ensures
            *r == self.spec_runner(),
    {
        &self.run_cmd
    }

    /// Applies a key press: typing and backspace edit the input line, Enter
    /// takes the trimmed line and clears the input, Escape ends the session.
    pub fn handle_key(&mut self, key: Key) -> (r: Action)
        ensures
            (final(self)@, r@) == key_transition(old(self)@, key),
            final(self).spec_runner() == old(self).spec_runner(),
    {
        match key {
            Key::Char(c) => {
                push_char(&mut self.input, c);
                Action::Idle
            },
            Key::Backspace => {
                let _ = pop_char(&mut self.input);
                Action::Idle
            },
            Key::Enter => {
                let line = trim_str(self.input.as_str());
                let cmd = String::from_str(line);
                self.input = String::new();
                proof {
                    reveal_strlit("/exit");
                    reveal_strlit("/quit");
                }
                let quit = eq_ignore_case(cmd.as_str(), "/exit") || eq_ignore_case(
                    cmd.as_str(),
                    "/quit",
                );
                assert("/exit"@ =~= seq!['/', 'e', 'x', 'i', 't']);
                assert("/quit"@ =~= seq!['/', 'q', 'u', 'i', 't']);
                if quit {
                    Action::Quit
                } else {
                    Action::Run(cmd)
                }
            },
            Key::Esc => Action::Quit,
            Key::Other => Action::Idle,
        }
    }

    /// The screen for this session: the history pane shows every entry, oldest
    /// first; the input pane shows the input line.
    pub fn render(&self) -> (r: Screen)
        ensures
            r.history.title@ == "Shell Output"@,
            r.history.body@ == history_body(self@.history),
            r.input.title@ == "Command"@,
            r.input.body@ == self@.input,
    {
        screen_of(&self.blocks, &self.input)
    }

    /// Appends a completed command and its output to the history.
    pub fn record(&mut self, command: String, output: String)
        ensures
            final(self)@ == with_entry(old(self)@, command@, output@),
            final(self).spec_runner() == old(self).spec_runner(),
    {
        let ghost cmd = command@;
        let ghost out = output@;
        self.blocks.push((command, output));
        assert(self@.history =~= old(self)@.history.push((cmd, out)));
    }
}

/// The session after typing each character of `chars` in turn.
pub open spec fn type_chars(s: Session, chars: Seq<char>) -> Session
    decreases chars.len(),
{
    if chars.len() == 0 {
        s
    } else {
        key_transition(type_chars(s, chars.drop_last()), Key::Char(chars.last())).0
    }
}

/// Typing characters appends exactly them to the input line and leaves the
/// history alone; a backspace then removes exactly the last character, and a
/// backspace on an empty line changes nothing.
pub proof fn lemma_typing_and_backspace(s: Session, chars: Seq<char>)
    ensures
        type_chars(s, chars).input == s.input + chars,
        type_chars(s, chars).history == s.history,
        key_transition(type_chars(s, chars), Key::Backspace).1 == Step::Idle,
        (s.input + chars).len() > 0 ==> key_transition(type_chars(s, chars), Key::Backspace).0
            == (Session { input: (s.input + chars).drop_last(), history: s.history }),
        (s.input + chars).len() == 0 ==> key_transition(type_chars(s, chars), Key::Backspace).0
            == type_chars(s, chars),
    decreases chars.len(),
{
    if chars.len() > 0 {
        lemma_typing_and_backspace(s, chars.drop_last());
        assert(s.input + chars =~= (s.input + chars.drop_last()).push(chars.last()));
    } else {
        assert(s.input + chars =~= s.input);
    }
}

/// Submitting a line that is not an exit token asks to run the trimmed line
/// and clears the input; recording its output then adds exactly one entry,
/// whose command is the trimmed line.
pub proof fn lemma_submit_runs_and_records(s: Session, output: Seq<char>)
    requires
        !is_exit_token(trimmed(s.input)),
    ensures
        key_transition(s, Key::Enter).1 == Step::Run(trimmed(s.input)),
        key_transition(s, Key::Enter).0.input.len() == 0,
        with_entry(key_transition(s, Key::Enter).0, trimmed(s.input), output).history
            == s.history.push((trimmed(s.input), output)),
        with_entry(key_transition(s, Key::Enter).0, trimmed(s.input), output).history.len()
            == s.history.len() + 1,
{
}

/// Submitting `/exit` or `/quit`, in any ASCII case, ends the session and adds
/// no entry.
pub proof fn lemma_exit_token_quits(s: Session)
    requires
        is_exit_token(trimmed(s.input)),
    ensures
        key_transition(s, Key::Enter).1 == Step::Quit,
        key_transition(s, Key::Enter).0.history == s.history,
{
}

/// Escape ends the session whatever the input line holds, and touches nothing.
pub proof fn lemma_escape_quits(s: Session)
    ensures
        key_transition(s, Key::Esc) == (s, Step::Quit),
{
}

/// A session with no history renders an empty history pane; `ShellApp::render`
/// shows the input line in the input pane whatever the history holds.
pub proof fn lemma_render_without_history(s: Session)
    requires
        s.history.len() == 0,
    ensures
        history_body(s.history) == Seq::<char>::empty(),
{
}

} // verus!
