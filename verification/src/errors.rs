use vstd::prelude::*;

verus! {

/// The single error kind of this library: a candidate color string that is
/// not in the `#`-prefixed hex format. It carries one human-readable message
/// and is never distinguished further; every failure cause produces the same
/// message.
#[derive(Debug)]
pub struct ValidationError {
    message: String,
}

impl View for ValidationError {
    type V = Seq<char>;

    closed spec fn view(&self) -> Seq<char> {
        self.message@
    }
}

impl ValidationError {
    pub fn new(msg: &str) -> (e: ValidationError)
        ensures
            e@ == msg@,
    {
        ValidationError { message: msg.to_owned() }
    }

    /// The message describing why the candidate was rejected.
    pub fn message(&self) -> (m: &str)
        ensures
            m@ == self@,
    {
        self.message.as_str()
    }
}

} // verus!
