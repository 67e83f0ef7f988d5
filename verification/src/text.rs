//! Small string helpers shared by the registry, the tray and the dispatcher.

use vstd::prelude::*;

verus! {

/// String equality by content, as the platform compares names and ids.
pub fn str_eq(a: &str, b: &str) -> (r: bool)
    ensures
        r == (a@ == b@),
{
    let sa = String::from_str(a);
    let sb = String::from_str(b);
    sa == sb
}

/// Concatenation of a fixed prefix and a caller-supplied tail, used to
/// build the log lines the handlers emit.
pub fn concat_str(prefix: &str, tail: &str) -> (r: String)
    ensures
        r@ == prefix@ + tail@,
{
    let mut s = String::from_str(prefix);
    s.append(tail);
    s
}

} // verus!
