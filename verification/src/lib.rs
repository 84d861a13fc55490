//! Building blocks for a name-service plugin: a bounds-checked scratch-buffer
//! writer, a record encoder, an enumeration cursor, and the entry-point logic
//! that binds caller-supplied lookup hooks to the platform's status-code
//! protocol.

pub mod buffer;
pub mod cursor;
pub mod dispatch;
pub mod passwd;
pub mod status;
