//! Contracts between a transaction signer and its two collaborators: key-holding
//! wallets that sign and verify messages, and providers that look up the chain
//! state a transaction depends on.

mod error;
mod ledger;
mod provider;
mod wallet;

pub use error::{lemma_wrapped_dep_error_recoverable, TxDepProviderError, WalletError};
pub use provider::{
    answers, lemma_repeated_lookup_agrees, EmptyTxDepProvider, TransactionDependencyProvider,
};
pub use wallet::{lemma_signature_verifies, lemma_unmatched_id_not_found, Wallet};
