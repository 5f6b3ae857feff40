//! Validation of bus object addresses.  An address names a remote object on
//! the message bus: it is `/` alone, or `/`-separated non-empty elements of
//! ASCII letters, digits and underscores, with a leading `/` and no trailing
//! one.  Both pending requests and sessions are named by such addresses.

use vstd::prelude::*;
use vstd::string::StrSliceExecFns;

verus! {

/// A character allowed inside an address element: an ASCII letter, an ASCII
/// digit, or an underscore.
pub open spec fn is_element_char(c: char) -> bool {
    ||| 0x61 <= c as u32 && c as u32 <= 0x7a  // 'a' ..= 'z'
    ||| 0x41 <= c as u32 && c as u32 <= 0x5a  // 'A' ..= 'Z'
    ||| 0x30 <= c as u32 && c as u32 <= 0x39  // '0' ..= '9'
    ||| c == '_'
}

/// Whether `s` is a well-formed object address: the root `/`, or a leading
/// `/` followed by non-empty elements of element characters separated by
/// single `/`, with no trailing `/`.
pub open spec fn is_object_path(s: Seq<char>) -> bool {
    &&& s.len() >= 1
    &&& s[0] == '/'
    &&& (s.len() == 1 || (s[s.len() - 1] != '/' && forall|i: int|
        1 <= i < s.len() ==> (is_element_char(s[i]) || (s[i] == '/' && s[i - 1] != '/'))))
}

/// Decide whether `s` is a well-formed object address.
pub fn check_object_path(s: &str) -> (r: bool)
    ensures
        r == is_object_path(s@),
{
    let n: usize = s.unicode_len();
    if n == 0 {
        return false;
    }
    if s.get_char(0) != '/' {
        return false;
    }
    if n == 1 {
        return true;
    }
    if s.get_char(n - 1) == '/' {
        return false;
    }
    let mut i: usize = 1;
    while i < n
        invariant
            1 <= i <= n,
            n == s@.len(),
            s@[0] == '/',
            forall|j: int|
                1 <= j < i ==> (is_element_char(s@[j]) || (s@[j] == '/' && s@[j - 1] != '/')),
        decreases n - i,
    {
        let c = s.get_char(i);
        let u: u32 = c as u32;
        let element_char = (0x61 <= u && u <= 0x7a) || (0x41 <= u && u <= 0x5a) || (0x30 <= u && u
            <= 0x39) || c == '_';
        if !element_char && !(c == '/' && s.get_char(i - 1) != '/') {
            proof {
                assert(!(is_element_char(s@[i as int]) || (s@[i as int] == '/' && s@[i as int
                    - 1] != '/')));
            }
            return false;
        }
        i = i + 1;
    }
    true
}

} // verus!
