//! The agent's error type and its messages.

use vstd::prelude::*;
use crate::text::{decimal, push_decimal};

verus! {

/// What went wrong, as plain values.
#[derive(Debug)]
pub enum Error {
    /// An I/O failure, by its message.
    Io(String),
    /// A failed OS call: `op` names the call, `code` is the OS error code.
    Os { op: &'static str, code: u32 },
    Config(String),
    Other(String),
}

/// An error as the contracts see it.
pub enum ErrorView {
    Io(Seq<char>),
    Os { op: Seq<char>, code: u32 },
    Config(Seq<char>),
    Other(Seq<char>),
}

impl View for Error {
    type V = ErrorView;

    open spec fn view(&self) -> ErrorView {
        match self {
            Error::Io(m) => ErrorView::Io(m@),
            Error::Os { op, code } => ErrorView::Os { op: op@, code: *code },
            Error::Config(m) => ErrorView::Config(m@),
            Error::Other(m) => ErrorView::Other(m@),
        }
    }
}

/// The raw code of the calling thread's last OS error, if it has one.
/// What comes back depends on the machine and on earlier calls, and is not
/// stated.
#[verifier::external_body]
fn last_os_error_code() -> (code: Option<i32>) {
    std::io::Error::last_os_error().raw_os_error()
}

/// The operating system's text for an error code (`io::Error::from_raw_os_error`
/// rendered by its `Display`). It depends on the system and its language, and
/// is not stated.
#[verifier::external_body]
fn os_error_text(code: u32) -> (text: String) {
    std::io::Error::from_raw_os_error(code as i32).to_string()
}

/// How `Error::Os` renders around the system's own text.
pub open spec fn os_message(op: Seq<char>, code: u32, system_text: Seq<char>) -> Seq<char> {
    op + " failed (os error "@ + decimal(code as nat) + "): "@ + system_text
}

impl Error {
    pub fn os(op: &'static str, code: u32) -> (e: Error)
        ensures
            e@ == (ErrorView::Os { op: op@, code }),
    {
        Error::Os { op, code }
    }

    /// An `Os` error for `op` with the thread's last OS error code, or 0 when
    /// there is none.
    pub fn last_os(op: &'static str) -> (e: Error)
        ensures
            e@ is Os,
            e@->op == op@,
    {
        Error::from_os_code(op, last_os_error_code())
    }

    /// The `Os` error that `last_os` builds from a code the system reported.
    pub fn from_os_code(op: &'static str, code: Option<i32>) -> (e: Error)
        ensures
            e@ == (ErrorView::Os {
                op: op@,
                code: match code {
                    Some(c) => c as u32,
                    None => 0u32,
                },
            }),
    {
        let code: u32 = match code {
            Some(c) => c as u32,
            None => 0,
        };
        Error::Os { op, code }
    }

    pub fn config(msg: &str) -> (e: Error)
        ensures
            e@ == ErrorView::Config(msg@),
    {
        Error::Config(String::from_str(msg))
    }

    pub fn other(msg: &str) -> (e: Error)
        ensures
            e@ == ErrorView::Other(msg@),
    {
        Error::Other(String::from_str(msg))
    }

    pub fn io(msg: &str) -> (e: Error)
        ensures
            e@ == ErrorView::Io(msg@),
    {
        Error::Io(String::from_str(msg))
    }

    /// The message the agent prints for this error, given the system's text
    /// for an `Os` code.
    pub fn describe_with(&self, system_text: &str) -> (s: String)
        ensures
            s@ == match self@ {
                ErrorView::Io(m) => "i/o error: "@ + m,
                ErrorView::Os { op, code } => os_message(op, code, system_text@),
                ErrorView::Config(m) => m,
                ErrorView::Other(m) => m,
            },
    {
        match self {
            Error::Io(m) => {
                let mut s = String::from_str("i/o error: ");
                s.append(m.as_str());
                s
            },
            Error::Os { op, code } => {
                let mut s = String::from_str(op);
                s.append(" failed (os error ");
                push_decimal(&mut s, *code as u64);
                s.append("): ");
                s.append(system_text);
                s
            },
            Error::Config(m) => String::from_str(m.as_str()),
            Error::Other(m) => String::from_str(m.as_str()),
        }
    }

    /// The message the agent prints for this error.
    pub fn describe(&self) -> (s: String)
        ensures
            !(self@ is Os) ==> s@ == match self@ {
                ErrorView::Io(m) => "i/o error: "@ + m,
                ErrorView::Config(m) => m,
                ErrorView::Other(m) => m,
                ErrorView::Os { .. } => Seq::empty(),
            },
            self@ is Os ==> exists|t: Seq<char>| s@ == os_message(self@->op, self@->code, t),
    {
        match self {
            Error::Os { code, .. } => {
                let text = os_error_text(*code);
                self.describe_with(text.as_str())
            },
            _ => self.describe_with(""),
        }
    }
}

} // verus!
