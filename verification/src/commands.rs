//! The remote-callable command surface of the shell.
//!
//! Exactly one command is registered: `ping`, which takes no input and
//! returns the constant text `pong`.

use vstd::prelude::*;

verus! {

/// The text that `ping` returns, as a mathematical value.
pub open spec fn spec_pong() -> Seq<char> {
    "pong"@
}

/// The name under which the sole command is registered.
pub open spec fn spec_ping_name() -> Seq<char> {
    "ping"@
}

/// The sole registered remote-callable command: no input, no side effects,
/// and the same constant text on every invocation.
pub fn ping() -> (r: &'static str)
    ensures
        r@ == spec_pong(),
{
    "pong"
}

/// Builds the command table: the names of every registered command, in
/// registration order.  It holds exactly one entry, `ping`.
pub fn command_table() -> (names: Vec<String>)
    ensures
        names@.len() == 1,
        names@[0]@ == spec_ping_name(),
{
    let name: String = "ping".to_owned();
    let names: Vec<String> = vec![name];
    names
}

} // verus!
