//! The firmware calling convention used for power management requests.
use vstd::prelude::*;
use vstd::string::StrSliceExecFns;

verus! {

/// How firmware is called: through the secure monitor or the hypervisor.
#[derive(Clone, Copy, Debug, PartialEq, Eq, Structural)]
pub enum Method {
    Smc,
    Hvc,
}

/// A calling convention that is not supported.
#[derive(Clone, Copy, Debug, PartialEq, Eq, Structural)]
pub struct UnsupportedMethod;

/// The method a device tree's `method` property names, if it names one.
pub open spec fn method_of(name: Seq<char>) -> Option<Method> {
    if name == seq!['s', 'm', 'c'] {
        Some(Method::Smc)
    } else if name == seq!['h', 'v', 'c'] {
        Some(Method::Hvc)
    } else {
        None
    }
}

/// Whether the characters of `s` are exactly `word`.
fn is_word(s: &str, word: &str) -> (r: bool)
    ensures
        r == (s@ == word@),
{
    let n = s.unicode_len();
    if n != word.unicode_len() {
        return false;
    }
    let mut i: usize = 0;
    while i < n
        invariant
            n == s@.len() == word@.len(),
            i <= n,
            forall|j: int| 0 <= j < i ==> s@[j] == word@[j],
        decreases n - i,
    {
        if s.get_char(i) != word.get_char(i) {
            return false;
        }
        i = i + 1;
    }
    assert(s@ =~= word@);
    true
}

impl Method {
    /// Reads the method from its device tree name, `"smc"` or `"hvc"`.
    pub fn try_from(value: &str) -> (r: Result<Method, UnsupportedMethod>)
        ensures
            r is Ok <==> method_of(value@).is_some(),
            r is Ok ==> method_of(value@) == Some(r.unwrap()),
    {
        proof {
            reveal_strlit("smc");
            reveal_strlit("hvc");
            assert("smc"@ =~= seq!['s', 'm', 'c']);
            assert("hvc"@ =~= seq!['h', 'v', 'c']);
        }
        if is_word(value, "smc") {
            Ok(Method::Smc)
        } else if is_word(value, "hvc") {
            Ok(Method::Hvc)
        } else {
            Err(UnsupportedMethod)
        }
    }
}

} // verus!
