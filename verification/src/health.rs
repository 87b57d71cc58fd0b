//! The health check: an endpoint that looks nothing up and sends nothing.

use vstd::prelude::*;

verus! {

/// The HTTP status of the health check's answer.
pub const HEALTH_STATUS: u16 = 200;

/// The body of the health check's answer.
pub open spec fn health_body() -> Seq<char> {
    seq!['I', '\'', 'm', ' ', 'o', 'k']
}

/// Answers the health check, always with the same words.
pub fn health() -> (body: &'static str)
    ensures
        body@ == health_body(),
{
    proof {
        reveal_strlit("I'm ok");
        assert("I'm ok"@ =~= health_body());
    }
    "I'm ok"
}

} // verus!
