use vstd::prelude::*;

verus! {

/// A configuration that cannot produce identifiers; fixed only by reconfiguring.
#[derive(Debug, Clone, Copy, PartialEq, Eq, Structural)]
pub enum ConfigError {
    /// The sign bit and the three widths do not add up to 64 bits, or a width is negative.
    BitBudgetExceeded,
    /// The ring buffer capacity is not a power of two.
    InvalidCapacity,
    /// The padding factor is not strictly between 0 and 100.
    InvalidPaddingFactor,
    /// The assigned worker id does not fit in the worker bits.
    WorkerIdExceeded,
}

/// A failure to hand out an identifier at run time.
#[derive(Debug, Clone, Copy, PartialEq, Eq, Structural)]
pub enum GeneratorError {
    /// The seconds since the epoch no longer fit in the timestamp bits.
    TimestampBitsExhausted,
    /// The clock reads earlier than the last second used, by `seconds`.
    ClockMovedBackwards { seconds: i64 },
    /// The clock reads earlier than the epoch itself.
    ClockBeforeEpoch,
    /// Every sequence number of the current second has been used: retry once the clock advances.
    SequenceExhausted,
    /// The cache holds no identifier: retry after a refill.
    CacheExhausted,
}

} // verus!
