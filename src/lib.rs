//! Bootstrap logic for a self-relocating AArch64 runtime image: boot-context
//! detection, image self-relocation, translation-table walking and exception
//! vector installation, each stated over plain values and byte buffers.

pub mod bytes;
pub mod console;
pub mod context;
pub mod devtree;
pub mod heap;
pub mod image;
pub mod paging;
pub mod platforms;
pub mod vectors;

