//! Capability traits for buffers that lend short slices for peeking, reading
//! and writing, together with adapters that turn those short lends into
//! "fill this exact destination" / "drain this exact source" operations with
//! exact partial-progress accounting on failure.

pub mod empty;
pub mod peeker;
pub mod reader;
pub mod reclaim;
pub mod utils;
pub mod vec_buff;
pub mod writer;

pub use empty::{
    DisabledPeekAsync, DisabledReadAsync, DisabledWriteAsync, EmptyBuffIter, EmptyBuffIterError,
};
pub use peeker::TrBuffIterPeek;
pub use reader::TrBuffIterRead;
pub use writer::TrBuffIterWrite;
pub use reclaim::{IoSliceMut, IoSliceRef, NoReclaim, TrReclaimIoSliceMut, TrReclaimIoSliceRef};
pub use vec_buff::{VecBuffIter, VecBuffIterError};
pub use utils::IoAbortReport;
