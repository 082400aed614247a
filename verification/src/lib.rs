//! The core of an image viewer. It decodes LZ4I containers, a fixed 14-byte
//! header followed by one LZ4 block that holds the raw pixels, and prepares
//! what the window shows: scan lines, their place, and wide strings.

pub mod block;
pub mod decode;
pub mod display;
pub mod error;
pub mod header;
pub mod pixels;
pub mod size;
pub mod wide;

pub use block::{accept_block, decompress};
pub use decode::read_lz4i;
pub use display::{blit_origin, open_requested, pack_bgr_rows, DisplayError};
pub use error::FormatError;
pub use header::{parse_header, ContainerHeader, HEADER_SIZE, SIGNATURE};
pub use pixels::{build_image, ChannelLayout, DecodedImage};
pub use size::payload_size;
pub use wide::l;
