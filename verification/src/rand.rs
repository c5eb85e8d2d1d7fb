//! Short alphanumeric identifiers, used to name temporary directories.
//!
//! The randomness itself comes from the caller, which draws indices into
//! the alphabet however it likes; turning those draws into an identifier
//! string is verified here.

use vstd::prelude::*;
use vstd::string::StrSliceExecFns;
use vstd::string::StringExecFns;

verus! {

/// The 62 characters an identifier is drawn from: digits, upper case,
/// lower case.
pub open spec fn alphabet() -> Seq<char> {
    "0123456789ABCDEFGHIJKLMNOPQRSTUVWXYZabcdefghijklmnopqrstuvwxyz"@
}

/// A generator of short identifier strings from caller-drawn randomness.
pub struct RandomSequences {
}

impl RandomSequences {
    /// Creates the generator.
    pub fn new() -> (r: RandomSequences) {
        RandomSequences {  }
    }

    /// Maps one drawn index per output character into the alphabet.
    ///
    /// Each index selects one alphabet character, in order, so the result
    /// contains only digits and ASCII letters — safe in a file name.
    pub fn sequence(&self, indices: &Vec<usize>) -> (r: String)
        requires
            forall|i: int| 0 <= i < indices@.len() ==> indices@[i] < 62,
        ensures
            r@.len() == indices@.len(),
            forall|i: int|
                0 <= i < indices@.len() ==> r@[i] == alphabet()[#[trigger] indices@[i] as int],
    {
        let table = "0123456789ABCDEFGHIJKLMNOPQRSTUVWXYZabcdefghijklmnopqrstuvwxyz";
        proof {
            reveal_strlit("0123456789ABCDEFGHIJKLMNOPQRSTUVWXYZabcdefghijklmnopqrstuvwxyz");
            assert(table@.len() == 62);
            assert(forall|k: int| 0 <= k < 62 ==> '\0' <= #[trigger] table@[k] <= '\u{7f}');
            assert(vstd::string::is_ascii(table));
        }
        let mut r = String::new();
        let n = indices.len();
        let mut i: usize = 0;
        while i < n
            invariant
                0 <= i <= n,
                n == indices@.len(),
                forall|k: int| 0 <= k < n ==> indices@[k] < 62,
                table@ == alphabet(),
                table@.len() == 62,
                vstd::string::is_ascii(table),
                r@.len() == i,
                forall|k: int| 0 <= k < i ==> r@[k] == alphabet()[#[trigger] indices@[k] as int],
            decreases n - i,
        {
            let k = indices[i];
            let c = table.substring_ascii(k, k + 1);
            r.append(c);
            proof {
                assert(c@ =~= seq![alphabet()[indices@[i as int] as int]]);
            }
            i += 1;
        }
        r
    }
}

} // verus!
