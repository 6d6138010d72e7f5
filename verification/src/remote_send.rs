//! Values that can be sent to a remote endpoint.

use vstd::prelude::*;

verus! {

/// A value that can be sent to a remote endpoint.
///
/// How it is encoded is up to the codec.
pub trait RemoteSend: Send + 'static {

}

impl<T: Send + 'static> RemoteSend for T {

}

} // verus!
