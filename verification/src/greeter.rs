//! The RPC branch's greeting computation: a deterministic, stateless method
//! that maps a caller-supplied name to a templated greeting message.

use vstd::prelude::*;
use vstd::string::StringExecFns;

verus! {

/// The greeting message for a given name: `"Hello " + name + "!"`.
pub open spec fn hello_message(name: Seq<char>) -> Seq<char> {
    "Hello "@ + name + "!"@
}

/// The single RPC method: returns the templated greeting for `name`.
///
/// Accepts any name, including the empty string, and echoes it unmodified
/// into the message; there is no validation and no error path.
pub fn say_hello(name: &str) -> (message: String)
    ensures
        message@ == hello_message(name@),
{
    let mut message = String::from_str("Hello ");
    message.append(name);
    message.append("!");
    message
}

/// The greeting is a function of the name alone: two calls on equal names
/// yield equal messages, so repeated identical calls always return the
/// identical message — the branch has no memory across calls.
pub proof fn lemma_greeting_idempotent(name: Seq<char>, m1: Seq<char>, m2: Seq<char>)
    requires
        m1 == hello_message(name),
        m2 == hello_message(name),
    ensures
        m1 == m2,
{
}

} // verus!
