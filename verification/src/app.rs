//! The application controller: it owns the mode, the input buffer, the
//! conversation log and the two flags (`should exit`, `awaiting a backend
//! reply`), and dispatches every event to the right state change.
//!
//! The dispatch is modelled by the pure function [`dispatch`] over
//! [`AppView`], the mathematical snapshot of the whole state; the exec
//! methods are proved to follow it exactly. The event loop itself — the
//! terminal, the blocking read, the asynchronous backend call — lives
//! outside this library and only feeds events in.

use crate::chat::spec_transcript_line;
use crate::chat::transcript_line;
use crate::chat::MessageSender;
use crate::input::spec_move_left;
use crate::input::spec_move_right;
use crate::input::Input;
use crate::mode::AppMode;
use vstd::prelude::*;

verus! {

/// A keyboard key as the dispatch logic sees it, converted from the
/// terminal driver's event type at the program's edge. Keys the dispatch
/// table does not know arrive as `Other`.
#[derive(Debug, Clone, Copy, PartialEq, Eq, Structural)]
pub enum Key {
    Char(char),
    Esc,
    Left,
    Right,
    Backspace,
    Enter,
    Other,
}

/// What the caller must do after an event was dispatched: nothing, or
/// send the transcript to the backend as a generation request.
#[derive(Debug, Clone, Copy, PartialEq, Eq, Structural)]
pub enum Command {
    Nothing,
    Submit,
}

/// Mathematical snapshot of the whole application state.
pub ghost struct AppView {
    pub mode: AppMode,
    pub buf: Seq<char>,
    pub cursor: int,
    pub chat: Seq<(MessageSender, Seq<char>)>,
    pub polling: bool,
    pub exit: bool,
}

/// The conversation log as a sequence of (sender, character sequence)
/// pairs.
pub open spec fn chat_view(entries: Seq<(MessageSender, String)>) -> Seq<
    (MessageSender, Seq<char>),
> {
    entries.map_values(|e: (MessageSender, String)| (e.0, e.1@))
}

/// The transcript entry text shown when a backend request fails.
pub open spec fn spec_backend_error_text() -> Seq<char> {
    "error: backend request failed"@
}

/// Exec counterpart of [`spec_backend_error_text`].
pub fn backend_error_text() -> (r: &'static str)
    ensures
        r@ == spec_backend_error_text(),
{
    "error: backend request failed"
}

/// The dispatch table: the state after one key press, and what the caller
/// must do next. A second submission while a backend request is still
/// outstanding is a no-op; every `(mode, key)` pair the table does not
/// name leaves the state unchanged.
pub open spec fn dispatch(v: AppView, key: Key) -> (AppView, Command) {
    match (v.mode, key) {
        (AppMode::NavigationMode, Key::Char(c)) => {
            if c == 'q' {
                (AppView { exit: true, ..v }, Command::Nothing)
            } else {
                (v, Command::Nothing)
            }
        },
        (_, Key::Esc) => (AppView { mode: v.mode.spec_toggle(), ..v }, Command::Nothing),
        (AppMode::ChatMode, Key::Char(c)) => (
            AppView { buf: v.buf.insert(v.cursor, c), cursor: v.cursor + 1, ..v },
            Command::Nothing,
        ),
        (AppMode::ChatMode, Key::Left) => (
            AppView { cursor: spec_move_left(v.cursor), ..v },
            Command::Nothing,
        ),
        (AppMode::ChatMode, Key::Right) => (
            AppView { cursor: spec_move_right(v.cursor, v.buf.len() as int), ..v },
            Command::Nothing,
        ),
        (AppMode::ChatMode, Key::Backspace) => {
            if v.cursor > 0 {
                (
                    AppView { buf: v.buf.remove(v.cursor - 1), cursor: v.cursor - 1, ..v },
                    Command::Nothing,
                )
            } else {
                (v, Command::Nothing)
            }
        },
        (AppMode::ChatMode, Key::Enter) => {
            if v.polling {
                (v, Command::Nothing)
            } else {
                (
                    AppView {
                        buf: Seq::<char>::empty(),
                        cursor: 0,
                        chat: v.chat.push((MessageSender::User, v.buf)),
                        polling: true,
                        ..v
                    },
                    Command::Submit,
                )
            }
        },
        _ => (v, Command::Nothing),
    }
}

/// The application state: one mode, one input buffer, one conversation
/// log, the exit flag, and the flag that marks an outstanding backend
/// request.
#[derive(Debug)]
pub struct App {
    chat: Vec<(MessageSender, String)>,
    is_polling: bool,
    app_mode: AppMode,
    exit: bool,
    input: Input,
}

impl View for App {
    type V = AppView;

    closed spec fn view(&self) -> AppView {
        AppView {
            mode: self.app_mode,
            buf: self.input.spec_text(),
            cursor: self.input.spec_cursor(),
            chat: chat_view(self.chat@),
            polling: self.is_polling,
            exit: self.exit,
        }
    }
}

impl App {
    /// Well-formedness: the input buffer's cursor is in bounds.
    pub closed spec fn wf(self) -> bool {
        self.input.wf()
    }

    /// The initial state: navigation mode, empty buffer and log, no
    /// outstanding request, not exiting.
    pub fn new() -> (r: Self)
        ensures
            r.wf(),
            r@.mode == AppMode::NavigationMode,
            r@.buf == Seq::<char>::empty(),
            r@.cursor == 0,
            r@.chat == Seq::<(MessageSender, Seq<char>)>::empty(),
            r@.polling == false,
            r@.exit == false,
    {
        let r = App {
            chat: Vec::new(),
            is_polling: false,
            app_mode: AppMode::NavigationMode,
            exit: false,
            input: Input::new(),
        };
        proof {
            assert(chat_view(r.chat@) =~= Seq::<(MessageSender, Seq<char>)>::empty());
        }
        r
    }

    /// The current mode.
    pub fn get_state(&self) -> (r: AppMode)
        ensures
            r == self@.mode,
    {
        self.app_mode
    }

    /// Request shutdown: the event loop stops once this flag is set.
    pub fn exit(&mut self)
        ensures
            final(self).wf() == old(self).wf(),
            final(self)@ == (AppView { exit: true, ..old(self)@ }),
    {
        self.exit = true;
    }

    /// Whether the event loop should stop.
    pub fn should_exit(&self) -> (r: bool)
        ensures
            r == self@.exit,
    {
        self.exit
    }

    /// Whether a backend request is outstanding.
    pub fn is_polling(&self) -> (r: bool)
        ensures
            r == self@.polling,
    {
        self.is_polling
    }

    /// Read-only access to the input buffer.
    pub fn input(&self) -> (r: &Input)
        ensures
            r.spec_text() == self@.buf,
            r.spec_cursor() == self@.cursor,
            r.wf() == self.wf(),
    {
        &self.input
    }

    /// Read-only access to the conversation log, oldest entry first.
    pub fn chat(&self) -> (r: &Vec<(MessageSender, String)>)
        ensures
            chat_view(r@) == self@.chat,
    {
        &self.chat
    }

    /// The transcript as it reads in the log pane: one line per entry,
    /// oldest first, each prefixed by its sender's label.
    pub fn transcript_lines(&self) -> (r: Vec<String>)
        ensures
            r@.len() == self@.chat.len(),
            forall|j: int|
                0 <= j < r@.len() ==> r@[j]@ == spec_transcript_line(
                    self@.chat[j].0,
                    self@.chat[j].1,
                ),
    {
        let mut r: Vec<String> = Vec::new();
        let mut i: usize = 0;
        while i < self.chat.len()
            invariant
                i <= self.chat@.len(),
                r@.len() == i,
                forall|j: int|
                    0 <= j < i ==> r@[j]@ == spec_transcript_line(
                        chat_view(self.chat@)[j].0,
                        chat_view(self.chat@)[j].1,
                    ),
            decreases self.chat@.len() - i,
        {
            let entry = &self.chat[i];
            let line = transcript_line(entry.0, entry.1.as_str());
            r.push(line);
            i = i + 1;
        }
        r
    }

    /// Append an entry to the conversation log.
    fn push_entry(&mut self, sender: MessageSender, text: String)
        ensures
            final(self).wf() == old(self).wf(),
            final(self)@ == (AppView {
                chat: old(self)@.chat.push((sender, text@)),
                ..old(self)@
            }),
    {
        self.chat.push((sender, text));
        proof {
            assert(chat_view(self.chat@) =~= chat_view(old(self).chat@).push((sender, text@)));
        }
    }

    /// Record a successful backend reply: the reply joins the log as a
    /// model entry and the outstanding-request flag clears.
    pub fn on_backend_success(&mut self, reply: String)
        ensures
            final(self).wf() == old(self).wf(),
            final(self)@ == (AppView {
                chat: old(self)@.chat.push((MessageSender::LLM, reply@)),
                polling: false,
                ..old(self)@
            }),
    {
        self.push_entry(MessageSender::LLM, reply);
        self.is_polling = false;
    }

    /// Record a failed backend request: a visible error indicator joins
    /// the log as a model entry and the outstanding-request flag clears.
    /// The loop goes on; a backend failure is never fatal.
    pub fn on_backend_failure(&mut self)
        ensures
            final(self).wf() == old(self).wf(),
            final(self)@ == (AppView {
                chat: old(self)@.chat.push((MessageSender::LLM, spec_backend_error_text())),
                polling: false,
                ..old(self)@
            }),
    {
        let mut msg = String::new();
        msg.append(backend_error_text());
        proof {
            assert(msg@ =~= spec_backend_error_text());
        }
        self.push_entry(MessageSender::LLM, msg);
        self.is_polling = false;
    }

    /// Dispatch one key press according to the table in [`dispatch`].
    pub fn handle_key_event(&mut self, key: Key) -> (cmd: Command)
        requires
            old(self).wf(),
        ensures
            final(self).wf(),
            final(self)@ == dispatch(old(self)@, key).0,
            cmd == dispatch(old(self)@, key).1,
    {
        proof {
            old(self).input.lemma_wf_cursor_in_bounds();
        }
        match key {
            Key::Char(c) => {
                match self.app_mode {
                    AppMode::NavigationMode => {
                        if c == 'q' {
                            self.exit();
                        }
                        Command::Nothing
                    },
                    AppMode::ChatMode => {
                        self.input.add_char(c);
                        Command::Nothing
                    },
                }
            },
            Key::Esc => {
                self.app_mode = self.app_mode.toggle();
                Command::Nothing
            },
            Key::Left => {
                match self.app_mode {
                    AppMode::ChatMode => self.input.move_left(),
                    AppMode::NavigationMode => {},
                }
                Command::Nothing
            },
            Key::Right => {
                match self.app_mode {
                    AppMode::ChatMode => self.input.move_right(),
                    AppMode::NavigationMode => {},
                }
                Command::Nothing
            },
            Key::Backspace => {
                match self.app_mode {
                    AppMode::ChatMode => self.input.delete_char(),
                    AppMode::NavigationMode => {},
                }
                Command::Nothing
            },
            Key::Enter => {
                match self.app_mode {
                    AppMode::ChatMode => self.submit(),
                    AppMode::NavigationMode => Command::Nothing,
                }
            },
            Key::Other => Command::Nothing,
        }
    }

    /// Dispatch one event from the terminal driver. Only key presses are
    /// application input: release and repeat events change nothing.
    pub fn handle_event(&mut self, is_press: bool, key: Key) -> (cmd: Command)
        requires
            old(self).wf(),
        ensures
            final(self).wf(),
            !is_press ==> *final(self) == *old(self) && cmd == Command::Nothing,
            is_press ==> final(self)@ == dispatch(old(self)@, key).0 && cmd == dispatch(
                old(self)@,
                key,
            ).1,
    {
        if is_press {
            self.handle_key_event(key)
        } else {
            Command::Nothing
        }
    }

    /// Submit the composed message: it joins the log as a user entry, the
    /// buffer clears, and a backend request becomes outstanding. A no-op
    /// while a request is already outstanding.
    fn submit(&mut self) -> (cmd: Command)
        requires
            old(self).wf(),
        ensures
            final(self).wf(),
            final(self)@ == dispatch_submit(old(self)@).0,
            cmd == dispatch_submit(old(self)@).1,
    {
        if self.is_polling {
            return Command::Nothing;
        }
        let msg = self.input.text();
        self.push_entry(MessageSender::User, msg);
        self.input.clear();
        self.is_polling = true;
        Command::Submit
    }
}

/// The state change of a submission alone, used to state [`App::submit`].
pub open spec fn dispatch_submit(v: AppView) -> (AppView, Command) {
    if v.polling {
        (v, Command::Nothing)
    } else {
        (
            AppView {
                buf: Seq::<char>::empty(),
                cursor: 0,
                chat: v.chat.push((MessageSender::User, v.buf)),
                polling: true,
                ..v
            },
            Command::Submit,
        )
    }
}

impl Default for App {
    /// Same as [`App::new`].
    fn default() -> (r: Self)
        ensures
            r.wf(),
            r@.mode == AppMode::NavigationMode,
            r@.buf == Seq::<char>::empty(),
            r@.cursor == 0,
            r@.chat == Seq::<(MessageSender, Seq<char>)>::empty(),
            r@.polling == false,
            r@.exit == false,
    {
        App::new()
    }
}

} // verus!
