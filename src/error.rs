use vstd::prelude::*;

verus! {

/// The closed set of failures that the binding reports to its callers.
///
/// Every null handle or sentinel value that the native engine returns is turned
/// into one of these before it can reach caller code.
#[derive(Debug, Clone, PartialEq, Eq)]
pub enum KunQuantError {
    /// The native layer could not create a worker pool.
    ExecutorCreationFailed,
    /// The library file does not exist or the native loader rejected it.
    LibraryLoadFailed { path: String },
    /// The loaded library holds no computation graph of this name.
    ModuleNotFound { name: String },
    /// The native layer could not create a buffer name map.
    BufferNameMapCreationFailed,
    /// A buffer name holds an embedded NUL byte and cannot cross the boundary.
    InvalidBufferName { name: String },
    /// The stock count is not one that the engine's SIMD layout accepts.
    InvalidStockCount { num_stocks: usize },
    /// A pushed tick does not hold exactly one value per stock.
    BufferSizeMismatch { name: String, expected: usize, actual: usize },
    /// The native layer could not create a streaming session.
    StreamCreationFailed,
    /// The streaming session knows no buffer of this name.
    BufferHandleNotFound { name: String },
    /// The native layer handed back no data where data was expected.
    NullPointer,
    /// A string holds a NUL byte at `nul_position` and cannot become a C string.
    StringConversion { nul_position: usize },
    /// Text that came back from the native layer is not valid UTF-8 after `valid_up_to` bytes.
    Utf8Conversion { valid_up_to: usize },
}

} // verus!
