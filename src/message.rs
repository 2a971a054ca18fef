//! The two texts the relay puts on the wire.

use vstd::prelude::*;

verus! {

/// The greeting sent to a client right after its connection is accepted.
pub open spec fn welcome_text(addr: Seq<char>) -> Seq<char> {
    "Welcome "@ + addr + "! Type a message"@
}

/// The text published on the bus for a frame `text` received from `addr`.
pub open spec fn relay_text(addr: Seq<char>, text: Seq<char>) -> Seq<char> {
    addr + ": "@ + text
}

/// Builds the greeting `Welcome <addr>! Type a message`.
pub fn welcome_message(addr: &str) -> (r: String)
    ensures
        r@ == welcome_text(addr@),
{
    let mut s = String::from_str("Welcome ");
    s.append(addr);
    s.append("! Type a message");
    s
}

/// Builds the relayed text `<addr>: <text>`.
pub fn relay_message(addr: &str, text: &str) -> (r: String)
    ensures
        r@ == relay_text(addr@, text@),
{
    let mut s = String::from_str(addr);
    s.append(": ");
    s.append(text);
    s
}

} // verus!
