use vstd::prelude::*;

use crate::{base_name, base_name_spec};

verus! {

/// A terminal failure of one operation. The input/output variant records
/// whether the underlying condition was a broken output pipe, since that one
/// case is reported silently.
#[derive(Debug)]
pub enum PiggytagError {
    Io { broken_pipe: bool, message: String },
    LoftyError { file_name: String, err: String },
    Msg(String),
}

impl From<String> for PiggytagError {
    fn from(s: String) -> (r: Self) {
        PiggytagError::Msg(s)
    }
}

impl vstd::std_specs::convert::FromSpecImpl<String> for PiggytagError {
    open spec fn obeys_from_spec() -> bool {
        true
    }

    open spec fn from_spec(s: String) -> Self {
        PiggytagError::Msg(s)
    }
}

impl From<&'static str> for PiggytagError {
    fn from(s: &'static str) -> (r: Self)
        ensures
            r matches PiggytagError::Msg(m) && m@ == s@,
    {
        PiggytagError::Msg(s.to_owned())
    }
}

/// The owned message this conversion builds cannot be denoted in spec code,
/// so nothing is claimed through the trait; the ensures above carries the
/// contract.
impl vstd::std_specs::convert::FromSpecImpl<&'static str> for PiggytagError {
    open spec fn obeys_from_spec() -> bool {
        false
    }

    open spec fn from_spec(s: &'static str) -> Self {
        arbitrary()
    }
}

/// The error for a file the tag-format layer could not handle, named by the
/// file's display name.
pub fn lofty_file_error(file_path: &str, message: String) -> (r: PiggytagError)
    ensures
        r matches PiggytagError::LoftyError { file_name, err } && file_name@ == base_name_spec(
            file_path@,
        ) && err@ == message@,
{
    PiggytagError::LoftyError { file_name: base_name(file_path), err: message }
}

/// What the process does about an error: the line to print, if any, and the
/// status to exit with.
#[derive(Debug)]
pub struct ErrorReport {
    pub message: Option<String>,
    pub exit_code: u8,
}

/// The error line for an input/output failure.
pub open spec fn io_error_line_spec(msg: Seq<char>) -> Seq<char> {
    "[I/O error] "@ + msg
}

/// The error line for a failure of the tag-format layer on one file.
pub open spec fn tag_error_line_spec(file_name: Seq<char>, err: Seq<char>) -> Seq<char> {
    "[error] on file "@ + file_name + ": "@ + err
}

/// The error line for a plain message error.
pub open spec fn msg_error_line_spec(msg: Seq<char>) -> Seq<char> {
    "[error] "@ + msg
}

/// Decide how a terminal error is reported: every error exits with status 1;
/// a broken output pipe is reported silently, every other error with one line
/// naming what failed.
pub fn error_handler(error: &PiggytagError) -> (r: ErrorReport)
    ensures
        r.exit_code == 1,
        (r.message is None) == (error matches PiggytagError::Io { broken_pipe: true, .. }),
        error matches PiggytagError::Io { broken_pipe: false, message } ==> (r.message matches Some(
            m,
        ) && m@ == io_error_line_spec(message@)),
        error matches PiggytagError::LoftyError { file_name, err } ==> (r.message matches Some(m)
            && m@ == tag_error_line_spec(file_name@, err@)),
        error matches PiggytagError::Msg(msg) ==> (r.message matches Some(m) && m@
            == msg_error_line_spec(msg@)),
{
    match error {
        PiggytagError::Io { broken_pipe, message } => {
            if *broken_pipe {
                ErrorReport { message: None, exit_code: 1 }
            } else {
                let mut line = String::from_str("[I/O error] ");
                line.append(message.as_str());
                ErrorReport { message: Some(line), exit_code: 1 }
            }
        },
        PiggytagError::LoftyError { file_name, err } => {
            let mut line = String::from_str("[error] on file ");
            line.append(file_name.as_str());
            line.append(": ");
            line.append(err.as_str());
            ErrorReport { message: Some(line), exit_code: 1 }
        },
        PiggytagError::Msg(msg) => {
            let mut line = String::from_str("[error] ");
            line.append(msg.as_str());
            ErrorReport { message: Some(line), exit_code: 1 }
        },
    }
}

} // verus!
