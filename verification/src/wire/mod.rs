//! The binary encoding of frames: fixed-width big-endian integers and
//! length-prefixed variable fields.
//!
//! - [`prim`]: the kinds of field, and the trait of all encodable types.
//! - [`vdom`]: DOM trees.
//! - [`frame`]: the frames and what they hold.
//! - [`record`]: a frame as the payload of a record, and what holds of the
//!   encoding as a whole.

pub mod frame;
pub mod prim;
pub mod record;
pub mod vdom;
