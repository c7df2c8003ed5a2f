//! Error, text and ownership primitives shared by the wrappers around the
//! native text-layout services: status-code normalisation, wide-string
//! marshaling, and the raw-handle ownership protocol.
pub mod handle;
pub mod status;
pub mod wide;

pub use status::{hresult_from_win32, message_from_buffer};
pub use wide::ToWide;
pub use handle::{FromRaw, GetRaw, InternalConstructor, Owned, RawHandle};
