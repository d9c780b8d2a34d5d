pub mod args;
pub mod bytes;
pub mod canvas;
pub mod codec;

pub use args::{choose_format, determine_format, format_from_hint, Cli, Command, FileFormat};
pub use bytes::{Bytes, U64_BYTES};
pub use canvas::{canvas_side, pack, unpack, Canvas, UnpackError};
pub use codec::{decode_data, encode_data, DecodeError};
