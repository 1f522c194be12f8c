use vstd::prelude::*;
use crate::decimal::{decimal, push_decimal};
use crate::lines::{text_view, to_chars, views};
use crate::platform::choose_text;
use crate::stream::text_view_str;

verus! {

/// What the spinner's thread is told.
#[derive(Debug)]
pub enum Cmd {
    Start(String),
    Write(String),
    Hide,
    Show,
    Stop,
}

/// What the spinner's thread does to the terminal and to its clocks.
#[derive(Debug)]
pub enum Action {
    /// Set the clock that counts the seconds back to zero.
    RestartTimer,
    /// Set the clock that counts to the next frame back to zero.
    RestartTick,
    /// Take the keys as they are pressed.
    EnterRawMode,
    /// Hand the keys back to the terminal.
    LeaveRawMode,
    /// Write to standard error the sequence that clears the line.
    ClearLine,
    /// Write to standard error the sequence that hides the cursor, and a
    /// line feed.
    HideCursor,
    /// Write to standard error two line feeds and the sequence that hides
    /// the cursor.
    HideCursorBelow,
    /// Write to standard error the sequence that shows the cursor.
    ShowCursor,
    /// Write the spinner's line, with the seconds gone as the timer has
    /// them, or with none where `fresh` is set.
    Draw { fresh: bool },
    /// Write a line to standard output.
    Print(String),
    /// Flush standard output.
    Flush,
    /// Tell whoever asked that the spinner has stopped.
    Acknowledge,
}

/// The state of the spinner's thread.
#[derive(Debug)]
pub struct SpinnerState {
    pub status_text: String,
    pub active: bool,
    pub hidden: bool,
    /// Index of the frame that is shown.
    pub idx: usize,
}

/// Number of frames of the spinner.
pub const FRAMES: usize = 10;

/// An action as plain values.
pub enum Deed {
    RestartTimer,
    RestartTick,
    EnterRawMode,
    LeaveRawMode,
    ClearLine,
    HideCursor,
    HideCursorBelow,
    ShowCursor,
    Draw { fresh: bool },
    Print(Seq<char>),
    Flush,
    Acknowledge,
}

impl View for Action {
    type V = Deed;

    open spec fn view(&self) -> Deed {
        match self {
            Action::RestartTimer => Deed::RestartTimer,
            Action::RestartTick => Deed::RestartTick,
            Action::EnterRawMode => Deed::EnterRawMode,
            Action::LeaveRawMode => Deed::LeaveRawMode,
            Action::ClearLine => Deed::ClearLine,
            Action::HideCursor => Deed::HideCursor,
            Action::HideCursorBelow => Deed::HideCursorBelow,
            Action::ShowCursor => Deed::ShowCursor,
            Action::Draw { fresh } => Deed::Draw { fresh: *fresh },
            Action::Print(s) => Deed::Print(s@),
            Action::Flush => Deed::Flush,
            Action::Acknowledge => Deed::Acknowledge,
        }
    }
}

/// Actions as plain values.
pub open spec fn deeds(actions: Seq<Action>) -> Seq<Deed> {
    actions.map_values(|a: Action| a@)
}

/// The state of the spinner's thread as plain values.
pub struct Spin {
    pub status_text: Seq<char>,
    pub active: bool,
    pub hidden: bool,
    pub idx: nat,
}

impl View for SpinnerState {
    type V = Spin;

    open spec fn view(&self) -> Spin {
        Spin {
            status_text: self.status_text@,
            active: self.active,
            hidden: self.hidden,
            idx: self.idx as nat,
        }
    }
}

/// The state after a command. `Start` takes the text, shows the spinner
/// from its first frame. `Hide` and `Show` only act on a spinner that runs
/// and is shown or hidden. `Stop` ends it. `Write` changes nothing.
pub open spec fn next_state(state: Spin, cmd: Cmd) -> Spin {
    match cmd {
        Cmd::Start(text) => Spin { status_text: text@, active: true, hidden: false, idx: 0 },
        Cmd::Write(_) => state,
        Cmd::Hide => if state.active && !state.hidden {
            Spin { hidden: true, ..state }
        } else {
            state
        },
        Cmd::Show => if state.active && state.hidden {
            Spin { hidden: false, ..state }
        } else {
            state
        },
        Cmd::Stop => if state.active {
            Spin { active: false, hidden: false, ..state }
        } else {
            state
        },
    }
}

/// What is done on a command, in order.
pub open spec fn deeds_on(state: Spin, cmd: Cmd) -> Seq<Deed> {
    match cmd {
        Cmd::Start(_) => seq![
            Deed::RestartTimer,
            Deed::RestartTick,
            Deed::EnterRawMode,
            Deed::HideCursor,
            Deed::Draw { fresh: true },
        ],
        Cmd::Write(text) => if state.active {
            if state.hidden {
                seq![Deed::ClearLine, Deed::Print(text@), Deed::Flush]
            } else {
                seq![Deed::ClearLine, Deed::Print(text@), Deed::Draw { fresh: false }]
            }
        } else {
            seq![Deed::Print(text@)]
        },
        Cmd::Hide => if state.active && !state.hidden {
            seq![Deed::ClearLine, Deed::ShowCursor, Deed::Flush, Deed::LeaveRawMode]
        } else {
            Seq::empty()
        },
        Cmd::Show => if state.active && state.hidden {
            seq![Deed::EnterRawMode, Deed::HideCursorBelow, Deed::Draw { fresh: false }]
        } else {
            Seq::empty()
        },
        Cmd::Stop => if state.active {
            seq![
                Deed::ClearLine,
                Deed::ShowCursor,
                Deed::Flush,
                Deed::LeaveRawMode,
                Deed::Acknowledge,
            ]
        } else {
            seq![Deed::Acknowledge]
        },
    }
}

/// The spinner's line: the frame in green, the status in bold green, the
/// seconds gone, and a dimmed hint.
pub open spec fn spinner_line_text(frame: Seq<char>, status: Seq<char>, seconds: nat) -> Seq<
    char,
> {
    "\r\x1b[32m"@ + frame + "\x1b[0m  \x1b[1;32m"@ + status + "\x1b[0m "@ + decimal(seconds)
        + "s \u{b7} \x1b[2;37mCtrl+C to interrupt\x1b[0m"@
}

/// The text that replaces each line feed in what is written above the
/// spinner: a line feed and the sequence that moves the cursor to the first
/// column.
pub open spec fn normalized(s: Seq<char>) -> Seq<char>
    decreases s.len(),
{
    if s.len() == 0 {
        Seq::empty()
    } else if s.last() == '\n' {
        normalized(s.drop_last()) + "\n\x1b[0G"@
    } else {
        normalized(s.drop_last()).push(s.last())
    }
}

impl SpinnerState {
    /// The state of a spinner that does not run.
    pub fn new() -> (out: SpinnerState)
        ensures
            out@ == (Spin { status_text: Seq::empty(), active: false, hidden: false, idx: 0 }),
    {
        SpinnerState { status_text: String::new(), active: false, hidden: false, idx: 0 }
    }

    /// Whether the spinner is drawn: it runs and is not hidden.
    pub fn is_drawn(&self) -> (out: bool)
        ensures
            out == (self.active && !self.hidden),
    {
        self.active && !self.hidden
    }

    /// Takes a command: see [`next_state`] for the state afterwards and
    /// [`deeds_on`] for what is to be done, in order.
    pub fn on_command(&mut self, cmd: Cmd) -> (out: Vec<Action>)
        ensures
            final(self)@ == next_state(old(self)@, cmd),
            deeds(out@) == deeds_on(old(self)@, cmd),
    {
        let mut out: Vec<Action> = Vec::new();
        match cmd {
            Cmd::Start(text) => {
                self.status_text = text;
                self.active = true;
                self.hidden = false;
                self.idx = 0;
                out.push(Action::RestartTimer);
                out.push(Action::RestartTick);
                out.push(Action::EnterRawMode);
                out.push(Action::HideCursor);
                out.push(Action::Draw { fresh: true });
            },
            Cmd::Write(text) => {
                if self.active {
                    out.push(Action::ClearLine);
                    out.push(Action::Print(text));
                    if self.hidden {
                        out.push(Action::Flush);
                    } else {
                        out.push(Action::Draw { fresh: false });
                    }
                } else {
                    out.push(Action::Print(text));
                }
            },
            Cmd::Hide => {
                if self.active && !self.hidden {
                    out.push(Action::ClearLine);
                    out.push(Action::ShowCursor);
                    out.push(Action::Flush);
                    out.push(Action::LeaveRawMode);
                    self.hidden = true;
                }
            },
            Cmd::Show => {
                if self.active && self.hidden {
                    out.push(Action::EnterRawMode);
                    out.push(Action::HideCursorBelow);
                    out.push(Action::Draw { fresh: false });
                    self.hidden = false;
                }
            },
            Cmd::Stop => {
                if self.active {
                    out.push(Action::ClearLine);
                    out.push(Action::ShowCursor);
                    out.push(Action::Flush);
                    out.push(Action::LeaveRawMode);
                    self.active = false;
                    self.hidden = false;
                }
                out.push(Action::Acknowledge);
            },
        }
        assert(deeds(out@) =~= deeds_on(old(self)@, cmd));
        out
    }

    /// Goes on to the next frame, the first after the last. It is for a
    /// spinner that is drawn: the line is to be drawn and the tick to be
    /// restarted after it.
    pub fn on_tick(&mut self)
        requires
            old(self).idx < FRAMES,
        ensures
            final(self)@ == (Spin { idx: ((old(self).idx + 1) % 10) as nat, ..old(self)@ }),
            final(self).idx < FRAMES,
    {
        self.idx = (self.idx + 1) % FRAMES;
    }
}

/// Writes the spinner's line: see [`spinner_line_text`].
pub fn spinner_line(frame: &str, status: &str, seconds: u64) -> (out: String)
    ensures
        out@ == spinner_line_text(frame@, status@, seconds as nat),
{
    let mut out = "\r\x1b[32m".to_owned();
    out.append(frame);
    out.append("\x1b[0m  \x1b[1;32m");
    out.append(status);
    out.append("\x1b[0m ");
    push_decimal(&mut out, seconds);
    out.append("s \u{b7} \x1b[2;37mCtrl+C to interrupt\x1b[0m");
    out
}

/// Prepares a text to be written above the spinner: see [`normalized`].
pub fn normalize(s: &str) -> (out: String)
    ensures
        out@ == normalized(s@),
{
    let chars = to_chars(s);
    let mut out = String::new();
    let mut i: usize = 0;
    assert(chars@.take(0) =~= Seq::<char>::empty());
    while i < chars.len()
        invariant
            i <= chars@.len(),
            out@ == normalized(chars@.take(i as int)),
        decreases chars@.len() - i,
    {
        assert(chars@.take(i + 1).drop_last() =~= chars@.take(i as int));
        if chars[i] == '\n' {
            out.append("\n\x1b[0G");
        } else {
            out.push(chars[i]);
        }
        i += 1;
    }
    assert(chars@.take(chars@.len() as int) =~= chars@);
    out
}

/// What is known, outside the spinner's thread, of the spinner.
#[derive(Debug)]
pub struct SpinnerManager {
    /// The status text, while the spinner runs.
    pub message: Option<String>,
    pub running: bool,
    pub hidden: bool,
}

/// The status texts of which one is picked where none is given.
pub open spec fn status_words() -> Seq<Seq<char>> {
    seq![
        "Thinking"@,
        "Processing"@,
        "Analyzing"@,
        "Forging"@,
        "Researching"@,
        "Synthesizing"@,
        "Reasoning"@,
        "Contemplating"@,
    ]
}

/// The status text of a spinner: the message where one is given, else the
/// word that was chosen, the first word where none was.
pub open spec fn status_of(message: Option<Seq<char>>, chosen: Option<Seq<char>>) -> Seq<char> {
    match message {
        Some(m) => m,
        None => match chosen {
            Some(word) => word,
            None => status_words()[0],
        },
    }
}

/// The status texts of which one is chosen where none is given: see
/// [`status_words`].
pub fn words() -> (out: Vec<String>)
    ensures
        views(out@) == status_words(),
{
    let mut out: Vec<String> = Vec::new();
    out.push("Thinking".to_owned());
    out.push("Processing".to_owned());
    out.push("Analyzing".to_owned());
    out.push("Forging".to_owned());
    out.push("Researching".to_owned());
    out.push("Synthesizing".to_owned());
    out.push("Reasoning".to_owned());
    out.push("Contemplating".to_owned());
    assert(views(out@) =~= status_words());
    out
}

/// The status text of a spinner: see [`status_of`].
pub fn status_text(message: Option<&str>, chosen: Option<String>) -> (out: String)
    ensures
        out@ == status_of(text_view_str(message), text_view(chosen)),
{
    match message {
        Some(m) => m.to_owned(),
        None => match chosen {
            Some(word) => word,
            None => "Thinking".to_owned(),
        },
    }
}

impl SpinnerManager {
    /// A spinner that does not run.
    pub fn new() -> (out: SpinnerManager)
        ensures
            out.message is None,
            !out.running,
            !out.hidden,
    {
        SpinnerManager { message: None, running: false, hidden: false }
    }

    /// Starts the spinner with the given message, or with the word that was
    /// chosen. The command that is returned is to be sent to the spinner's
    /// thread.
    pub fn start_with(&mut self, message: Option<&str>, chosen: Option<String>) -> (out: Cmd)
        ensures
            out is Start,
            out->Start_0@ == status_of(text_view_str(message), text_view(chosen)),
            final(self).message == Some(out->Start_0),
            final(self).running,
            !final(self).hidden,
    {
        let text = status_text(message, chosen);
        self.message = Some(text.clone());
        self.running = true;
        self.hidden = false;
        Cmd::Start(text)
    }

    /// Starts the spinner with the given message, or with one of the status
    /// words, chosen at random. The command that is returned is to be sent
    /// to the spinner's thread.
    pub fn start(&mut self, message: Option<&str>) -> (out: Cmd)
        ensures
            out is Start,
            match message {
                Some(m) => out->Start_0@ == m@,
                None => exists|i: int|
                    0 <= i < status_words().len() && out->Start_0@ == status_words()[i],
            },
            final(self).message == Some(out->Start_0),
            final(self).running,
            !final(self).hidden,
    {
        let chosen = match message {
            Some(_) => None,
            None => {
                let all = words();
                let chosen = choose_text(&all);
                proof {
                    if chosen is Some {
                        let t = chosen->0;
                        let i = choose|i: int| 0 <= i < all@.len() && all@[i]@ == t@;
                        assert(views(all@)[i] == t@);
                    }
                }
                chosen
            },
        };
        let out = self.start_with(message, chosen);
        proof {
            if message is None && chosen is None {
                assert(status_words()[0] == status_words()[0]);
            }
        }
        out
    }

    /// Stops the spinner. The command that is returned is to be sent to the
    /// spinner's thread, and its acknowledgement waited for.
    pub fn stop(&mut self) -> (out: Cmd)
        ensures
            out is Stop,
            final(self).message is None,
            !final(self).running,
            !final(self).hidden,
    {
        self.running = false;
        self.message = None;
        self.hidden = false;
        Cmd::Stop
    }

    /// Writes a line above the spinner: the command that is returned holds
    /// the text as it is to be written, see [`normalized`].
    pub fn write_ln(&self, message: &str) -> (out: Cmd)
        ensures
            out is Write,
            out->Write_0@ == normalized(message@),
    {
        Cmd::Write(normalize(message))
    }

    /// Hides a spinner that runs and is shown. The command, where there is
    /// one, is to be sent to the spinner's thread.
    pub fn hide_spinner(&mut self) -> (out: Option<Cmd>)
        ensures
            old(self).running && !old(self).hidden ==> out is Some && out->0 is Hide && final(self).hidden,
            !(old(self).running && !old(self).hidden) ==> out is None && final(self).hidden == old(self).hidden,
            final(self).running == old(self).running,
            final(self).message == old(self).message,
    {
        if self.running && !self.hidden {
            self.hidden = true;
            Some(Cmd::Hide)
        } else {
            None
        }
    }

    /// Shows a spinner that runs and is hidden. The command, where there is
    /// one, is to be sent to the spinner's thread.
    pub fn show_spinner(&mut self) -> (out: Option<Cmd>)
        ensures
            old(self).running && old(self).hidden ==> out is Some && out->0 is Show && !final(self).hidden,
            !(old(self).running && old(self).hidden) ==> out is None && final(self).hidden == old(self).hidden,
            final(self).running == old(self).running,
            final(self).message == old(self).message,
    {
        if self.running && self.hidden {
            self.hidden = false;
            Some(Cmd::Show)
        } else {
            None
        }
    }
}

/// Whether a key that was pressed interrupts: it is `c`, small or capital,
/// with the control key held.
pub fn is_interrupt(control: bool, key: char) -> (out: bool)
    ensures
        out == (control && (key == 'c' || key == 'C')),
{
    control && (key == 'c' || key == 'C')
}

} // verus!
