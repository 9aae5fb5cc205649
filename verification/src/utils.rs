//! Adapters that drive repeated short lends against a capability buffer until
//! an exact-length transfer completes, fails, or can make no further progress.

pub mod abs;
pub mod peeker;
pub mod reader;
pub mod writer;

pub use abs::{IoAbortReport, TrChunkFiller, TrChunkWriter, TrIoAbortReport};
pub use peeker::PeekerAsChunkFiller;
pub use reader::ReaderAsChunkFiller;
pub use writer::ChunkWriter;
