//! The channel that carries single values between two endpoints.

pub mod receiver;
pub mod sender;
pub mod storage_ref;

pub use receiver::{ErasedReceiver, PortDeserializer, RecvError};
pub use sender::{ErasedSender, PortSerializer, RawSender, SendError, SendErrorKind};
pub use storage_ref::StorageRef;
