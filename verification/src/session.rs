//! The rules one backend operation obeys: `hello` comes first and must
//! advertise the requested command and `cancel`; `progress` is forwarded;
//! `result`, `error`, a malformed or oversized line end the operation; and the
//! child's exit status must agree with the result it reported.

use vstd::prelude::*;
use crate::protocol::{Account, Event, CONTRACT_VERSION};
use crate::keys::texts;
use crate::text::{colon_join, colon_joined, contains_str, contains_text};

verus! {

/// What an operation reports to the panel.
#[derive(Debug)]
pub enum Message {
    Progress(String),
    Result {
        ok: bool,
        cancelled: bool,
        message: String,
        accounts: Option<Vec<Account>>,
        error: Option<String>,
    },
    Failed(String),
}

/// What reading and decoding one stdout line produced.
#[derive(Debug)]
pub enum LineOutcome {
    /// A well-formed event.
    Decoded(Event),
    /// A line that is not a valid event.
    Malformed,
    /// A line longer than the framing limit.
    Oversized,
}

/// What the reader does after a line.
#[derive(Debug)]
pub enum Step {
    /// Keep reading; nothing to report.
    Continue,
    /// Report this message and keep reading.
    Forward(Message),
    /// This is the operation's terminal message; stop reading.
    Finish(Message),
}

/// How the child process ended, as far as the frontend could observe it.
#[derive(Debug)]
pub struct ExitReport {
    pub success: bool,
    pub description: String,
}

/// The state of the reader of one operation.
pub struct Session {
    pub required_capability: String,
    pub saw_hello: bool,
    pub finished: bool,
}

/// `Failed(text)` with exactly this text.
pub open spec fn is_failure(m: Message, text: Seq<char>) -> bool {
    m matches Message::Failed(t) && t@ == text
}

/// `Finish(Failed(text))`.
pub open spec fn finishes_with_failure(s: Step, text: Seq<char>) -> bool {
    s matches Step::Finish(m) && is_failure(m, text)
}

/// The text a structured backend error is shown as.
pub open spec fn error_text(e: crate::protocol::Error) -> Seq<char> {
    colon_joined(e.code@, e.message@)
}

/// Whether a `hello` advertises what this session needs.
pub open spec fn hello_acceptable(caps: Seq<String>, required: Seq<char>) -> bool {
    contains_text(caps, required) && contains_text(caps, "cancel"@)
}

/// The step the rules prescribe for `outcome`, given whether a valid hello was
/// already seen and which capability is required.
pub open spec fn prescribed(saw_hello: bool, required: Seq<char>, outcome: LineOutcome, step: Step) -> bool {
    match outcome {
        LineOutcome::Oversized => finishes_with_failure(step, "backend response exceeded limit"@),
        LineOutcome::Malformed => finishes_with_failure(step, "invalid backend protocol response"@),
        LineOutcome::Decoded(event) => match event {
            Event::Hello { version, capabilities } =>
                if version == CONTRACT_VERSION && !saw_hello {
                    if hello_acceptable(capabilities@, required) {
                        step is Continue
                    } else {
                        finishes_with_failure(step, "backend lacks status capability"@)
                    }
                } else {
                    finishes_with_failure(step, "invalid backend hello"@)
                },
            Event::ErrorResponse { version, code, message } =>
                if version == CONTRACT_VERSION && saw_hello {
                    finishes_with_failure(step, colon_joined(code@, message@))
                } else {
                    finishes_with_failure(step, "unsupported backend protocol version"@)
                },
            Event::Progress { version, phase, message } =>
                if version == CONTRACT_VERSION && saw_hello {
                    step matches Step::Forward(Message::Progress(m)) && m == message
                } else {
                    finishes_with_failure(step, "unsupported backend protocol version"@)
                },
            Event::Result { version, ok, cancelled, message, accounts, error } =>
                if version == CONTRACT_VERSION && saw_hello {
                    step matches Step::Finish(Message::Result { ok: o, cancelled: c, message: m, accounts: a, error: e })
                    && o == ok && c == cancelled && m == message && a == accounts
                    && (e is Some <==> error is Some)
                    && (e is Some ==> e->0@ == error_text(error->0))
                } else {
                    finishes_with_failure(step, "unsupported backend protocol version"@)
                },
        },
    }
}

fn failure(text: &str) -> (m: Message)
    ensures
        is_failure(m, text@),
{
    Message::Failed(String::from_str(text))
}

impl Session {
    /// A fresh session for an operation that runs `action`.
    pub fn new(action: &str) -> (s: Session)
        ensures
            s.required_capability@ == action@,
            !s.saw_hello,
            !s.finished,
    {
        Session { required_capability: String::from_str(action), saw_hello: false, finished: false }
    }

    /// Applies the protocol rules to the next line's outcome.
    pub fn observe(&mut self, outcome: LineOutcome) -> (step: Step)
        requires
            !old(self).finished,
        ensures
            prescribed(old(self).saw_hello, old(self).required_capability@, outcome, step),
            final(self).required_capability == old(self).required_capability,
            final(self).finished <==> step is Finish,
            final(self).saw_hello == (old(self).saw_hello || step is Continue),
            step is Forward ==> old(self).saw_hello,
    {
        proof {
            reveal_strlit("backend response exceeded limit");
            reveal_strlit("invalid backend protocol response");
            reveal_strlit("backend lacks status capability");
            reveal_strlit("invalid backend hello");
            reveal_strlit("unsupported backend protocol version");
            reveal_strlit("cancel");
        }
        let step = match outcome {
            LineOutcome::Oversized => Step::Finish(failure("backend response exceeded limit")),
            LineOutcome::Malformed => Step::Finish(failure("invalid backend protocol response")),
            LineOutcome::Decoded(event) => match event {
                Event::Hello { version, capabilities } => {
                    if version == CONTRACT_VERSION && !self.saw_hello {
                        let has_required = contains_str(&capabilities, self.required_capability.as_str());
                        let has_cancel = contains_str(&capabilities, "cancel");
                        if has_required && has_cancel {
                            Step::Continue
                        } else {
                            Step::Finish(failure("backend lacks status capability"))
                        }
                    } else {
                        Step::Finish(failure("invalid backend hello"))
                    }
                },
                Event::ErrorResponse { version, code, message } => {
                    if version == CONTRACT_VERSION && self.saw_hello {
                        Step::Finish(Message::Failed(colon_join(code.as_str(), message.as_str())))
                    } else {
                        Step::Finish(failure("unsupported backend protocol version"))
                    }
                },
                Event::Progress { version, phase, message } => {
                    if version == CONTRACT_VERSION && self.saw_hello {
                        Step::Forward(Message::Progress(message))
                    } else {
                        Step::Finish(failure("unsupported backend protocol version"))
                    }
                },
                Event::Result { version, ok, cancelled, message, accounts, error } => {
                    if version == CONTRACT_VERSION && self.saw_hello {
                        let error = match error {
                            Some(e) => Some(colon_join(e.code.as_str(), e.message.as_str())),
                            None => None,
                        };
                        Step::Finish(Message::Result { ok, cancelled, message, accounts, error })
                    } else {
                        Step::Finish(failure("unsupported backend protocol version"))
                    }
                },
            },
        };
        match step {
            Step::Continue => { self.saw_hello = true; },
            Step::Forward(_) => {},
            Step::Finish(_) => { self.finished = true; },
        }
        step
    }
}

/// Whether the child is known to have exited successfully.
pub open spec fn exit_succeeded(exit: Option<ExitReport>) -> bool {
    exit matches Some(e) && e.success
}

/// The message an operation ends with, given the terminal message the reader
/// produced (if any) and how the child exited.
pub open spec fn concluded(terminal: Option<Message>, exit: Option<ExitReport>, r: Message) -> bool {
    match terminal {
        None => is_failure(r, "backend exited ("@ + (match exit {
            Some(e) => e.description@,
            None => "unknown"@,
        }) + ")"@),
        Some(m) => match m {
            Message::Result { ok, .. } =>
                if ok != exit_succeeded(exit) {
                    is_failure(r, "backend exit status disagreed with result"@)
                } else {
                    r == m
                },
            _ => r == m,
        },
    }
}

/// Settles the operation's outcome once the child has exited: a missing
/// terminal message becomes a failure naming the exit, and a result whose `ok`
/// disagrees with the exit status is not trusted.
pub fn conclude(terminal: Option<Message>, exit: Option<ExitReport>) -> (r: Message)
    ensures
        concluded(terminal, exit, r),
        r matches Message::Result { ok, .. } ==> ok == exit_succeeded(exit),
        !(r is Progress) || terminal matches Some(Message::Progress(_)),
{
    proof {
        reveal_strlit("backend exited (");
        reveal_strlit("unknown");
        reveal_strlit(")");
        reveal_strlit("backend exit status disagreed with result");
    }
    let succeeded = match &exit {
        Some(e) => e.success,
        None => false,
    };
    match terminal {
        None => {
            let text = String::from_str("backend exited (");
            let text = match &exit {
                Some(e) => text.concat(e.description.as_str()),
                None => text.concat("unknown"),
            };
            Message::Failed(text.concat(")"))
        },
        Some(m) => {
            let disagrees = match &m {
                Message::Result { ok, .. } => *ok != succeeded,
                _ => false,
            };
            if disagrees {
                failure("backend exit status disagreed with result")
            } else {
                m
            }
        },
    }
}

/// The backend's argument list for one operation:
/// `frontend ACTION ARGS... --contract-version 1`.
pub open spec fn command_line_texts(action: Seq<char>, args: Seq<Seq<char>>) -> Seq<Seq<char>> {
    seq!["frontend"@, action] + args + seq!["--contract-version"@, "1"@]
}

/// Builds the backend's argument list (see `command_line_texts`).
pub fn command_line(action: &str, args: &Vec<String>) -> (r: Vec<String>)
    ensures
        texts(r@) == command_line_texts(action@, texts(args@)),
{
    let mut line: Vec<String> = Vec::new();
    line.push(String::from_str("frontend"));
    line.push(String::from_str(action));
    let mut i: usize = 0;
    while i < args.len()
        invariant
            i <= args@.len(),
            texts(line@) == seq!["frontend"@, action@] + texts(args@).take(i as int),
        decreases args@.len() - i,
    {
        let ghost previous = line@;
        line.push(args[i].clone());
        proof {
            assert(texts(line@) =~= texts(previous).push(args@[i as int]@));
            assert(texts(args@).take(i + 1) =~= texts(args@).take(i as int).push(args@[i as int]@));
            assert(texts(line@) =~= seq!["frontend"@, action@] + texts(args@).take(i + 1));
        }
        i = i + 1;
    }
    let ghost before = line@;
    line.push(String::from_str("--contract-version"));
    line.push(String::from_str("1"));
    proof {
        assert(texts(args@).take(args@.len() as int) =~= texts(args@));
        assert(texts(line@) =~= texts(before) + seq!["--contract-version"@, "1"@]);
    }
    line
}

} // verus!
