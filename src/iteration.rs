use vstd::prelude::*;
use itertools::Itertools;
use crate::error::{ErrorKind, PyError, PyResult};
use crate::object::ObjectId;

verus! {

/// How a scan over an object's iteration ended.
pub enum Scan {
    /// It produced this number.
    Value(usize),
    /// Getting or comparing an element raised this error.
    Raised(PyError),
    /// A counter would have passed the largest signed index.
    Overflow,
    /// The iteration ran out without a match.
    Missing,
}

/// Counting the matches in `o` from position `i`, with `n` found so far.
/// Each entry is the outcome of getting one element and comparing it with the
/// target.
pub open spec fn count_scan(o: Seq<PyResult<bool>>, i: int, n: int) -> Scan
    decreases o.len() - i,
{
    if i < 0 || i >= o.len() {
        Scan::Value(n as usize)
    } else {
        match o[i] {
            Err(e) => Scan::Raised(e),
            Ok(true) => if n == isize::MAX {
                Scan::Overflow
            } else {
                count_scan(o, i + 1, n + 1)
            },
            Ok(false) => count_scan(o, i + 1, n),
        }
    }
}

/// Searching `o` from position `i` for the first match; the element at
/// position `i` has index `i`.
pub open spec fn index_scan(o: Seq<PyResult<bool>>, i: int) -> Scan
    decreases o.len() - i,
{
    if i < 0 || i >= o.len() {
        Scan::Missing
    } else if i - 1 == isize::MAX {
        Scan::Overflow
    } else {
        match o[i] {
            Err(e) => Scan::Raised(e),
            Ok(true) => Scan::Value(i as usize),
            Ok(false) => index_scan(o, i + 1),
        }
    }
}

/// Membership by iteration from position `i`: true at the first match.
pub open spec fn contains_scan(o: Seq<PyResult<bool>>, i: int) -> PyResult<bool>
    decreases o.len() - i,
{
    if i < 0 || i >= o.len() {
        Ok(false)
    } else {
        match o[i] {
            Err(e) => Err(e),
            Ok(true) => Ok(true),
            Ok(false) => contains_scan(o, i + 1),
        }
    }
}

/// What a call that ends a scan returns: the number, the raised error, or the
/// overflow or not-found error.
pub open spec fn scan_result(r: PyResult<usize>, s: Scan) -> bool {
    match s {
        Scan::Value(n) => r == Ok::<usize, PyError>(n),
        Scan::Raised(e) => r == Err::<usize, PyError>(e),
        Scan::Overflow => r is Err && r->Err_0.kind == ErrorKind::OverflowError
            && r->Err_0.msg@ == "index exceeds C integer size"@,
        Scan::Missing => r is Err && r->Err_0.kind == ErrorKind::ValueError
            && r->Err_0.msg@ == "sequence.index(x): x not in sequence"@,
    }
}

/// The elements that an iteration produced, or the first error it raised.
pub open spec fn collected(items: Seq<PyResult<ObjectId>>) -> PyResult<Seq<ObjectId>>
    decreases items.len(),
{
    if items.len() == 0 {
        Ok(Seq::empty())
    } else {
        match items[0] {
            Err(e) => Err(e),
            Ok(x) => match collected(items.drop_first()) {
                Ok(rest) => Ok(seq![x] + rest),
                Err(e) => Err(e),
            },
        }
    }
}

/// Whether `r` is what collecting `items` gives.
pub open spec fn collects(r: PyResult<Vec<ObjectId>>, items: Seq<PyResult<ObjectId>>) -> bool {
    match (r, collected(items)) {
        (Ok(v), Ok(s)) => v@ == s,
        (Err(e), Err(f)) => e == f,
        _ => false,
    }
}

/// Relies on itertools' `Itertools::try_collect`, which collects into a
/// `Result`: std's `FromIterator` for `Result` stops at the first `Err` and
/// returns it, and otherwise gives every `Ok` value in order.
#[verifier::external_body]
pub(crate) fn try_collect_items(items: Vec<PyResult<ObjectId>>) -> (r: PyResult<Vec<ObjectId>>)
    ensures
        collects(r, items@),
{
    items.into_iter().try_collect()
}

} // verus!
