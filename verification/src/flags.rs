//! The algorithm flags that select how numbers are read and how text is folded.

use vstd::prelude::*;

verus! {

/// Sort algorithm flags.
#[derive(Debug, Clone, Copy, PartialEq, Eq, Default, Structural)]
pub struct Ns {
    /// Parse numbers as floating point (decimal point and exponent) instead of plain integers.
    pub float: bool,
    /// Recognize a leading `+`/`-` immediately before a number as its sign.
    pub signed: bool,
    /// Case-insensitive comparison of text runs, by Unicode case folding.
    pub ignorecase: bool,
    /// Sort lowercase letters before uppercase (swaps ASCII case).
    pub lowercasefirst: bool,
    /// Group letters by case-folded value first, original character as tiebreak.
    pub groupletters: bool,
}

/// The flag set with nothing turned on, which is the integer algorithm.
pub open spec fn no_flags() -> Ns {
    Ns { float: false, signed: false, ignorecase: false, lowercasefirst: false, groupletters: false }
}

/// The flags of the signed floating point (REAL) algorithm.
pub open spec fn real_ns() -> Ns {
    Ns { float: true, signed: true, ..no_flags() }
}

impl Ns {
    /// The default (integer) algorithm: no flag set.
    pub fn default_flags() -> (r: Ns)
        ensures
            r == no_flags(),
    {
        Ns { float: false, signed: false, ignorecase: false, lowercasefirst: false, groupletters: false }
    }

    /// Signed integers: a `+`/`-` directly before a number is its sign.
    pub fn signed_flags() -> (r: Ns)
        ensures
            r == (Ns { signed: true, ..no_flags() }),
    {
        Ns { float: false, signed: true, ignorecase: false, lowercasefirst: false, groupletters: false }
    }

    /// Unsigned floating point numbers.
    pub fn float_flags() -> (r: Ns)
        ensures
            r == (Ns { float: true, ..no_flags() }),
    {
        Ns { float: true, signed: false, ignorecase: false, lowercasefirst: false, groupletters: false }
    }

    /// Signed floating point numbers.
    pub fn real_flags() -> (r: Ns)
        ensures
            r == real_ns(),
    {
        Ns { float: true, signed: true, ignorecase: false, lowercasefirst: false, groupletters: false }
    }

    /// Returns these flags with `ignorecase` set.
    pub fn with_ignorecase(self) -> (r: Ns)
        ensures
            r == (Ns { ignorecase: true, ..self }),
    {
        let mut s = self;
        s.ignorecase = true;
        s
    }

    /// Returns these flags with `lowercasefirst` set.
    pub fn with_lowercasefirst(self) -> (r: Ns)
        ensures
            r == (Ns { lowercasefirst: true, ..self }),
    {
        let mut s = self;
        s.lowercasefirst = true;
        s
    }

    /// Returns these flags with `groupletters` set.
    pub fn with_groupletters(self) -> (r: Ns)
        ensures
            r == (Ns { groupletters: true, ..self }),
    {
        let mut s = self;
        s.groupletters = true;
        s
    }
}

} // verus!
