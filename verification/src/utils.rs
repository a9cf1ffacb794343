//! Helpers: random lowercase identifiers, used to name freshly created
//! resources.

use vstd::prelude::*;

use rand::Rng;

verus! {

/// Relies on `rand::thread_rng` and `rand::Rng::gen_range`: a sample from
/// the half-open range `0..bound` is strictly below `bound`; the call panics
/// only on an empty range, which the precondition rules out.
#[verifier::external_body]
fn rand_index(bound: usize) -> (r: usize)
    requires
        bound >= 1,
    ensures
        r < bound,
{
    rand::thread_rng().gen_range(0..bound)
}

/// A character is a lowercase ASCII letter.
pub open spec fn is_lower_ascii(c: char) -> bool {
    97 <= c as u32 && c as u32 <= 122
}

/// A fresh random identifier: ten lowercase ASCII letters.
pub fn gen_rand_str() -> (r: String)
    ensures
        r@.len() == 10,
        forall|i: int| 0 <= i < r@.len() ==> is_lower_ascii(#[trigger] r@[i]),
{
    let mut out = String::new();
    let mut i: usize = 0;
    while i < 10
        invariant
            i <= 10,
            out@.len() == i,
            forall|j: int| 0 <= j < i ==> is_lower_ascii(#[trigger] out@[j]),
        decreases 10 - i,
    {
        let idx = rand_index(26);
        let c = ((97 + idx) as u8) as char;
        out.push(c);
        i = i + 1;
    }
    out
}

} // verus!
