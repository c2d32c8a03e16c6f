use vstd::prelude::*;

verus! {

/// General error type for a kill switch.
#[derive(Debug, Clone, PartialEq, Eq, Structural)]
pub enum KillSwitchErr {
    /// The kill switch had already been flipped.
    AlreadyKilled,
}

/// The text that describes an error, for logs and diagnostics.
pub open spec fn err_text(e: KillSwitchErr) -> Seq<char> {
    match e {
        KillSwitchErr::AlreadyKilled => "kill switch already killed"@,
    }
}

impl KillSwitchErr {
    /// Describes the error in words.
    pub fn to_string(&self) -> (r: String)
        ensures
            r@ == err_text(*self),
    {
        match self {
            KillSwitchErr::AlreadyKilled => String::from_str("kill switch already killed"),
        }
    }
}

} // verus!
