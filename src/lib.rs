//! Request handling for a mail-sending plugin: decoding a send request,
//! composing the message, and encoding the response handed back to the host.

pub mod compose;
pub mod handler;
pub mod json;
pub mod plugin;
pub mod request;
pub mod response;
pub mod transport;
