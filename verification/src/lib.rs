//! A file-synchronisation agent's core: the frame format spoken with a
//! channel-addressed relay, the request handling of the synchronisation
//! protocol carried in its messages, and the decisions of the session loop.

pub mod buffer;
pub mod packet;
pub mod wire;
pub mod codec;
pub mod paths;
pub mod hash;
pub mod protocol;
pub mod handler;
pub mod events;
pub mod router;
