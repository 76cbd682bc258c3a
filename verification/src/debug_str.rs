use vstd::prelude::*;

use vstd::string::StringExecFns;

verus! {

/// Relies on std's `format!` together with the captured data's own `Debug`
/// implementation: renders the value's debug string.
#[verifier::external_body]
pub(crate) fn captured_debug_string<T: core::fmt::Debug>(t: &T) -> String {
    format!("{:?}", t)
}

/// The fixed wrapper every closure's debug string puts around the captured
/// data's own debug string: `Name { capture: <data> }`.  Nothing but the
/// name of the closure shape and the captured data appears in it; in
/// particular, the transformation is never shown.
pub fn debug_wrap(name: &str, value: &str) -> (r: String)
    ensures
        r@ == name@ + " { capture: "@ + value@ + " }"@,
{
    let mut s = name.to_owned();
    s.append(" { capture: ");
    s.append(value);
    s.append(" }");
    proof {
        assert(s@ =~= name@ + " { capture: "@ + value@ + " }"@);
    }
    s
}

} // verus!
