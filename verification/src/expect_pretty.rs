//! Failures that end the program, and the conversion of absent values into them.

use vstd::prelude::*;
use vstd::string::StringExecFns;

verus! {

/// A failure that nothing in this library recovers from. The driver shows `message` to the
/// user and ends the process.
#[derive(Debug, Clone, PartialEq, Eq)]
pub struct Fatal {
    pub message: String,
}

impl View for Fatal {
    type V = Seq<char>;

    open spec fn view(&self) -> Seq<char> {
        self.message@
    }
}

impl Fatal {
    /// A failure that carries `msg`.
    pub fn new(msg: &str) -> (fatal: Fatal)
        ensures
            fatal@ == msg@,
    {
        Fatal { message: String::from_str(msg) }
    }

    /// The text to show to the user.
    pub fn message(&self) -> (text: &str)
        ensures
            text@ == self@,
    {
        self.message.as_str()
    }
}

/// Values that may lack what the caller needs. `expect_p` hands the needed value out, or
/// turns its absence into a `Fatal` with the caller's message.
pub trait ExpectPretty<T>: Sized {
    /// The value that `self` carries, if it carries one.
    spec fn carried(self) -> Option<T>;

    fn expect_p(self, msg: &str) -> (outcome: Result<T, Fatal>)
        ensures
            match self.carried() {
                Some(value) => outcome == Ok::<T, Fatal>(value),
                None => outcome is Err && outcome->Err_0@ == msg@,
            },
    ;
}

impl<T, E> ExpectPretty<T> for Result<T, E> {
    open spec fn carried(self) -> Option<T> {
        match self {
            Ok(value) => Some(value),
            Err(_) => None,
        }
    }

    fn expect_p(self, msg: &str) -> (outcome: Result<T, Fatal>) {
        match self {
            Ok(value) => Ok(value),
            Err(_) => Err(Fatal::new(msg)),
        }
    }
}

impl<T> ExpectPretty<T> for Option<T> {
    open spec fn carried(self) -> Option<T> {
        self
    }

    fn expect_p(self, msg: &str) -> (outcome: Result<T, Fatal>) {
        match self {
            Some(value) => Ok(value),
            None => Err(Fatal::new(msg)),
        }
    }
}

} // verus!
