//! Background work the server does on its own: sending journals to peers.

pub mod sync;
