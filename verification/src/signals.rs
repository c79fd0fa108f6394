//! Classification of the daemon's asynchronous status and log signals.
//!
//! The listener subscribes once to all signals of the daemon's backend
//! processes.  Each received signal carries the emitting object's path, the
//! signal's member name, two numeric codes and a message.  Exactly one rule
//! has a side effect: a status change whose codes announce that an
//! authorization URL is ready asks the platform to open that URL.  Every
//! signal, matched or not, is republished to observers as a [`LogMessage`].
//! The unverified listener loop extracts the raw fields from the bus message
//! and performs the URL-open action; which signals trigger it is decided
//! here.

use vstd::prelude::*;
use vstd::string::StrSliceExecFns;

verus! {

/// Status major code announcing that the daemon needs the user's attention.
pub const ATTENTION_MAJOR_CODE: u32 = 3;

/// Status minor code announcing that an authorization URL is ready.
pub const ATTENTION_MINOR_CODE: u32 = 22;

/// One signal, as republished to log observers.
#[derive(Debug, PartialEq)]
pub struct LogMessage {
    /// Object identifier of the emitting session backend.
    pub path: String,
    /// The signal's member name.
    pub member: String,
    pub first_flag: u32,
    pub second_flag: u32,
    pub message: String,
}

impl Clone for LogMessage {
    fn clone(&self) -> (r: Self)
        ensures
            r == *self,
    {
        LogMessage {
            path: self.path.clone(),
            member: self.member.clone(),
            first_flag: self.first_flag,
            second_flag: self.second_flag,
            message: self.message.clone(),
        }
    }
}

/// What a received signal asks of the system.
#[derive(Clone, Copy, Debug, PartialEq, Eq, Structural)]
pub enum SignalClass {
    /// The message field is an authorization URL: open it with the
    /// platform's default URL handler.
    OpenUrl,
    /// No side-effecting rule matched; the signal is only republished.
    Noop,
}

/// Character-by-character string equality, decided without any assumption
/// about the contents.
pub fn str_eq(a: &str, b: &str) -> (r: bool)
    ensures
        r <==> a@ == b@,
{
    let a_len = a.unicode_len();
    let b_len = b.unicode_len();
    if a_len != b_len {
        return false;
    }
    let mut i: usize = 0;
    while i < a_len
        invariant
            i <= a_len,
            a_len == a@.len(),
            b_len == b@.len(),
            a_len == b_len,
            forall|j: int| 0 <= j < i ==> a@[j] == b@[j],
        decreases a_len - i,
    {
        let ca = a.get_char(i);
        let cb = b.get_char(i);
        if ca != cb {
            return false;
        }
        i = i + 1;
    }
    proof {
        assert(a@ =~= b@);
    }
    true
}

/// Whether a signal with this member name and these status codes announces
/// an authorization URL that must be opened.
pub open spec fn attention_required(member: Seq<char>, major_code: u32, minor_code: u32) -> bool {
    member == "StatusChange"@ && major_code == ATTENTION_MAJOR_CODE && minor_code
        == ATTENTION_MINOR_CODE
}

/// Classify one received signal.  The URL-open action is requested for a
/// status change with the attention codes, and for nothing else.
pub fn classify_signal(member: &str, major_code: u32, minor_code: u32) -> (c: SignalClass)
    ensures
        (c == SignalClass::OpenUrl) <==> attention_required(member@, major_code, minor_code),
        (c == SignalClass::Noop) <==> !attention_required(member@, major_code, minor_code),
{
    if major_code == ATTENTION_MAJOR_CODE && minor_code == ATTENTION_MINOR_CODE
        && str_eq(member, "StatusChange") {
        SignalClass::OpenUrl
    } else {
        SignalClass::Noop
    }
}

/// Turn the raw fields of one received signal into the event that is
/// republished to every observer, together with its classification.  The
/// event carries the fields unchanged; when the classification asks for the
/// URL-open action, the URL is exactly the event's message field.
pub fn process_signal(
    path: String,
    member: String,
    first_code: u32,
    second_code: u32,
    message: String,
) -> (r: (SignalClass, LogMessage))
    ensures
        r.1 == (LogMessage {
            path,
            member,
            first_flag: first_code,
            second_flag: second_code,
            message,
        }),
        (r.0 == SignalClass::OpenUrl) <==> attention_required(member@, first_code, second_code),
{
    let class = classify_signal(member.as_str(), first_code, second_code);
    let event = LogMessage {
        path,
        member,
        first_flag: first_code,
        second_flag: second_code,
        message,
    };
    (class, event)
}

} // verus!
