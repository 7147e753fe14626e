//! The pairing agent's credentials.
//!
//! The agent answers the bus's pairing and authentication requests with a
//! fixed PIN code and passkey; the request handlers themselves are bus
//! glue, and reply with exactly the values held here.

use vstd::prelude::*;

verus! {

/// A pairing agent's credentials: the PIN code and passkey it answers
/// pairing requests with.
pub struct Agent {
    pincode: String,
    passkey: u32,
}

/// Mathematical model of an [`Agent`].
pub struct AgentView {
    pub pincode: Seq<char>,
    pub passkey: u32,
}

impl View for Agent {
    type V = AgentView;

    closed spec fn view(&self) -> AgentView {
        AgentView { pincode: self.pincode@, passkey: self.passkey }
    }
}

impl Agent {
    /// An agent answering with the given PIN code and passkey.
    pub fn new(pincode: String, passkey: u32) -> (r: Agent)
        ensures
            r@ == (AgentView { pincode: pincode@, passkey: passkey }),
    {
        Agent { pincode, passkey }
    }

    /// The PIN code sent in reply to a PIN request.
    pub fn pincode(&self) -> (r: String)
        ensures
            r@ == self@.pincode,
    {
        self.pincode.clone()
    }

    /// The passkey sent in reply to a passkey request.
    pub fn passkey(&self) -> (r: u32)
        ensures
            r == self@.passkey,
    {
        self.passkey
    }
}

} // verus!
