use vstd::prelude::*;

verus! {

/// A failure reported by the exchange (network, authentication, rejection or
/// a malformed response), with the venue's message.
#[derive(Clone, Debug, PartialEq, Eq)]
pub struct ExchangeError {
    pub message: String,
}

/// The outcome of a failed reconciliation.
#[derive(Clone, Debug, PartialEq, Eq)]
pub enum ConnectorError {
    /// The ticker carries no USD denomination marker; no exchange call was made.
    InvalidTicker,
    /// A call to the exchange failed; the remaining steps were abandoned.
    Exchange(ExchangeError),
}

} // verus!
