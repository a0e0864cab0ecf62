use vstd::prelude::*;

verus! {

/// Failure reasons surfaced by the client core.
///
/// Configuration failures (`MarketNotFound`, `InvalidMarketConfig`) concern the
/// market registry; the remaining variants are typed decode and arithmetic
/// failures, so that malformed on-chain data never aborts the process.
#[derive(Clone, Copy, Debug, PartialEq, Eq, Structural)]
pub enum SdkError {
    /// No market metadata is registered for the requested market address.
    MarketNotFound,
    /// A market's scaling constants are inconsistent (for example a zero lot
    /// or tick size, or a multiplier that is not the stated power of ten).
    InvalidMarketConfig,
    /// A scaling computation does not fit the fixed-width result type.
    ArithmeticOverflow,
    /// An audit log does not begin with a well-formed header record.
    MalformedHeader,
    /// An audit log record carries a discriminant byte outside the known set.
    UnknownEventKind,
    /// An audit log ends before the announced record payload is complete.
    TruncatedEvent,
}

impl SdkError {
    /// A short stable description, usable where a display string is needed.
    pub fn describe(&self) -> (r: &'static str)
        ensures
            r@ == self.spec_describe(),
    {
        match self {
            SdkError::MarketNotFound => "market not found",
            SdkError::InvalidMarketConfig => "invalid market configuration",
            SdkError::ArithmeticOverflow => "arithmetic overflow",
            SdkError::MalformedHeader => "malformed audit log header",
            SdkError::UnknownEventKind => "unknown audit log event kind",
            SdkError::TruncatedEvent => "truncated audit log event",
        }
    }

    pub open spec fn spec_describe(&self) -> Seq<char> {
        match self {
            SdkError::MarketNotFound => "market not found"@,
            SdkError::InvalidMarketConfig => "invalid market configuration"@,
            SdkError::ArithmeticOverflow => "arithmetic overflow"@,
            SdkError::MalformedHeader => "malformed audit log header"@,
            SdkError::UnknownEventKind => "unknown audit log event kind"@,
            SdkError::TruncatedEvent => "truncated audit log event"@,
        }
    }
}

} // verus!
