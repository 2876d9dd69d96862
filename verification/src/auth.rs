//! Who may perform an operation on a stream.

use vstd::prelude::*;
use crate::address::Address;

verus! {

/// The parties that a stream lets perform one of its operations.
#[derive(Clone, Copy, Debug, PartialEq, Eq, Structural)]
pub enum StateChangeAuth {
    OnlySender,
    OnlyReceiver,
    Both,
    Neither,
}

/// Whether `policy` lets `caller` act on a stream between `sender` and
/// `recipient`, all three given by their bytes.
pub open spec fn allowed(policy: StateChangeAuth, caller: Seq<u8>, sender: Seq<u8>, recipient: Seq<u8>) -> bool {
    match policy {
        StateChangeAuth::OnlySender => caller == sender,
        StateChangeAuth::OnlyReceiver => caller == recipient,
        StateChangeAuth::Both => caller == sender || caller == recipient,
        StateChangeAuth::Neither => false,
    }
}

/// The policy that a selector of range four stands for, if it is in range.
pub open spec fn decoded4(selector: u8) -> Option<StateChangeAuth> {
    if selector == 0 {
        Some(StateChangeAuth::OnlySender)
    } else if selector == 1 {
        Some(StateChangeAuth::OnlyReceiver)
    } else if selector == 2 {
        Some(StateChangeAuth::Both)
    } else if selector == 3 {
        Some(StateChangeAuth::Neither)
    } else {
        None
    }
}

/// The policy that a selector of range three stands for, if it is in range:
/// such a selector cannot close an operation to both parties.
pub open spec fn decoded3(selector: u8) -> Option<StateChangeAuth> {
    if selector <= 2 {
        decoded4(selector)
    } else {
        None
    }
}

impl StateChangeAuth {
    /// Decides whether `caller` may act under this policy.
    pub fn is_allowed(&self, caller: &Address, sender: &Address, recipient: &Address) -> (r: bool)
        ensures
            r == allowed(*self, caller@, sender@, recipient@),
    {
        match self {
            StateChangeAuth::OnlySender => caller.same(sender),
            StateChangeAuth::OnlyReceiver => caller.same(recipient),
            StateChangeAuth::Both => caller.same(sender) || caller.same(recipient),
            StateChangeAuth::Neither => false,
        }
    }

    /// Reads a selector that may name any of the four policies.
    pub fn from_selector(selector: u8) -> (r: Option<StateChangeAuth>)
        ensures
            r == decoded4(selector),
    {
        if selector == 0 {
            Some(StateChangeAuth::OnlySender)
        } else if selector == 1 {
            Some(StateChangeAuth::OnlyReceiver)
        } else if selector == 2 {
            Some(StateChangeAuth::Both)
        } else if selector == 3 {
            Some(StateChangeAuth::Neither)
        } else {
            None
        }
    }

    /// Reads a selector that may name any policy but `Neither`.
    pub fn from_open_selector(selector: u8) -> (r: Option<StateChangeAuth>)
        ensures
            r == decoded3(selector),
    {
        if selector <= 2 {
            StateChangeAuth::from_selector(selector)
        } else {
            None
        }
    }
}

} // verus!
