//! The abstract outcome of a structural gate.
use vstd::prelude::*;

verus! {

/// What a structural gate decides: pass, reject with a reason, or hold as
/// uncertain with a reason.
pub enum GateView {
    Pass,
    Reject(Seq<char>),
    Uncertain(Seq<char>),
}

/// The view of a check that yields nothing or a message.
pub open spec fn check_view(r: Result<(), String>) -> Result<(), Seq<char>> {
    match r {
        Ok(_) => Ok(()),
        Err(e) => Err(e@),
    }
}

/// The view of a result that holds a string or a message.
pub open spec fn text_view(r: Result<String, String>) -> Result<Seq<char>, Seq<char>> {
    match r {
        Ok(s) => Ok(s@),
        Err(e) => Err(e@),
    }
}

} // verus!
