//! The channel that carries binary data.

pub mod sender;

pub use sender::Sender;

use vstd::prelude::*;
use crate::rch::Interlock;
use crate::rch::bin::sender::LocalConnect;

verus! {

/// Creates the sender of a channel, together with what keeps track of where the halves are.
pub fn channel() -> (r: (Sender, Interlock))
    ensures
        r.0 == (Sender {
            sender: None,
            original: true,
            successor: false,
            local: LocalConnect::Ready,
        }),
        r.1.sender is Local,
        r.1.receiver is Local,
{
    (
        Sender { sender: None, original: true, successor: false, local: LocalConnect::Ready },
        Interlock::new(),
    )
}

} // verus!
