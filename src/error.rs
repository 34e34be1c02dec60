//! The two error families: one for wallets, one for dependency providers.
use vstd::prelude::*;
use vstd::std_specs::convert::FromSpec;

verus! {

/// Why a transaction dependency lookup failed.
#[derive(Debug)]
pub enum TxDepProviderError {
    /// The requested data does not exist in what the provider knows.
    NotFound,
    /// The lookup could not be served (network, disk, malformed remote answer);
    /// holds a description of the underlying failure.
    Other(String),
}

/// Why a wallet could not sign or verify.
#[derive(Debug)]
pub enum WalletError {
    /// No identity of the wallet matches the requested id.
    IdNotFound,
    /// The message does not suit the wallet's algorithm; holds the reason.
    InvalidMessage(String),
    /// A dependency lookup made while signing failed; holds that failure unchanged.
    TxDep(TxDepProviderError),
    /// A backend failure (device, I/O, user cancellation); holds its description.
    Other(String),
}

impl From<TxDepProviderError> for WalletError {
    fn from(e: TxDepProviderError) -> (r: WalletError)
        ensures
            r == WalletError::TxDep(e),
    {
        WalletError::TxDep(e)
    }
}

impl vstd::std_specs::convert::FromSpecImpl<TxDepProviderError> for WalletError {
    open spec fn obeys_from_spec() -> bool {
        true
    }

    open spec fn from_spec(e: TxDepProviderError) -> WalletError {
        WalletError::TxDep(e)
    }
}

/// Wrapping a lookup failure into a wallet error loses nothing: the result is
/// `TxDep` holding the failure unchanged, so a `NotFound` stays recognisable.
pub proof fn lemma_wrapped_dep_error_recoverable(e: TxDepProviderError)
    ensures
        WalletError::from_spec(e) matches WalletError::TxDep(inner) && inner == e,
        (e matches TxDepProviderError::NotFound) ==> (WalletError::from_spec(e) matches WalletError::TxDep(
            TxDepProviderError::NotFound,
        )),
{
}

} // verus!
