use vstd::prelude::*;

verus! {

/// The kind of a runtime error raised by the sequence protocol.
#[derive(Clone, Copy, Debug, PartialEq, Eq, Structural)]
pub enum ErrorKind {
    TypeError,
    ValueError,
    OverflowError,
}

/// A runtime error: its kind and the message shown to the user.
#[derive(Debug)]
pub struct PyError {
    pub kind: ErrorKind,
    pub msg: String,
}

impl Clone for PyError {
    fn clone(&self) -> (r: Self)
        ensures
            r == *self,
    {
        PyError { kind: self.kind, msg: self.msg.clone() }
    }
}

/// The result of a runtime operation.
pub type PyResult<T> = Result<T, PyError>;

/// `'<name>'` followed by `rest`: the shape of every type error raised here.
pub open spec fn quoted(name: Seq<char>, rest: Seq<char>) -> Seq<char> {
    seq!['\''] + name + seq!['\''] + rest
}

/// Builds the type error `'<name>'<rest>`.
pub fn type_error_about(name: &str, rest: &str) -> (e: PyError)
    ensures
        e.kind == ErrorKind::TypeError,
        e.msg@ == quoted(name@, rest@),
{
    let mut msg = String::from_str("'");
    msg.append(name);
    msg.append("'");
    msg.append(rest);
    proof {
        reveal_strlit("'");
        assert(msg@ =~= quoted(name@, rest@));
    }
    PyError { kind: ErrorKind::TypeError, msg }
}

/// Builds the overflow error of a counter that would pass the largest index.
pub fn overflow_error() -> (e: PyError)
    ensures
        e.kind == ErrorKind::OverflowError,
        e.msg@ == "index exceeds C integer size"@,
{
    PyError { kind: ErrorKind::OverflowError, msg: String::from_str("index exceeds C integer size") }
}

/// Builds the value error of a search that found nothing.
pub fn not_found_error() -> (e: PyError)
    ensures
        e.kind == ErrorKind::ValueError,
        e.msg@ == "sequence.index(x): x not in sequence"@,
{
    PyError {
        kind: ErrorKind::ValueError,
        msg: String::from_str("sequence.index(x): x not in sequence"),
    }
}

} // verus!
