//! Lookups of the chain state that a transaction depends on.
use vstd::prelude::*;
use ckb_types::{
    bytes::Bytes,
    packed::{CellOutput, Header, OutPoint, Transaction},
    H256,
};
use crate::error::TxDepProviderError;

verus! {

/// What one lookup may return, given what the provider knows of the key:
/// a success only with the known value, `NotFound` only for an unknown key,
/// and `Other` (a transient failure of the source) in either case.
pub open spec fn answers<T>(known: Option<T>, r: Result<T, TxDepProviderError>) -> bool {
    match r {
        Ok(v) => known == Some(v),
        Err(TxDepProviderError::NotFound) => known is None,
        Err(TxDepProviderError::Other(_)) => true,
    }
}

/// Supplies the dependencies of a transaction: the transactions and cells that
/// its inputs and cell deps refer to, and the headers of its header deps.
///
/// A provider's answers are described by what it knows of each key. A lookup
/// may update caches or sessions, but it leaves that knowledge as it was. By
/// default a provider knows nothing, so one that returns data must say what it
/// knows.
pub trait TransactionDependencyProvider {
    /// The transaction with this hash, if the provider knows it.
    open spec fn known_tx(&self, tx_hash: H256) -> Option<Transaction> {
        None
    }

    /// The cell output at this out point, if the provider knows it.
    open spec fn known_output(&self, out_point: OutPoint) -> Option<CellOutput> {
        None
    }

    /// The data of the cell at this out point, if the provider knows it.
    open spec fn known_output_data(&self, out_point: OutPoint) -> Option<Bytes> {
        None
    }

    /// The header of the block with this hash, if the provider knows it.
    open spec fn known_header(&self, block_hash: H256) -> Option<Header> {
        None
    }

    /// Looks up a transaction, to check that a cell belongs to it.
    fn get_tx(&mut self, tx_hash: H256) -> (r: Result<Transaction, TxDepProviderError>)
        ensures
            answers(old(self).known_tx(tx_hash), r),
            forall|h: H256| #[trigger] final(self).known_tx(h) == old(self).known_tx(h),
            forall|o: OutPoint| #[trigger] final(self).known_output(o) == old(self).known_output(o),
            forall|o: OutPoint| #[trigger] final(self).known_output_data(o)
                == old(self).known_output_data(o),
            forall|h: H256| #[trigger] final(self).known_header(h) == old(self).known_header(h),
    ;

    /// Looks up the output of an input or a cell dep.
    fn get_output(&mut self, out_point: OutPoint) -> (r: Result<CellOutput, TxDepProviderError>)
        ensures
            answers(old(self).known_output(out_point), r),
            forall|h: H256| #[trigger] final(self).known_tx(h) == old(self).known_tx(h),
            forall|o: OutPoint| #[trigger] final(self).known_output(o) == old(self).known_output(o),
            forall|o: OutPoint| #[trigger] final(self).known_output_data(o)
                == old(self).known_output_data(o),
            forall|h: H256| #[trigger] final(self).known_header(h) == old(self).known_header(h),
    ;

    /// Looks up the output data of an input or a cell dep.
    fn get_output_data(&mut self, out_point: OutPoint) -> (r: Result<Bytes, TxDepProviderError>)
        ensures
            answers(old(self).known_output_data(out_point), r),
            forall|h: H256| #[trigger] final(self).known_tx(h) == old(self).known_tx(h),
            forall|o: OutPoint| #[trigger] final(self).known_output(o) == old(self).known_output(o),
            forall|o: OutPoint| #[trigger] final(self).known_output_data(o)
                == old(self).known_output_data(o),
            forall|h: H256| #[trigger] final(self).known_header(h) == old(self).known_header(h),
    ;

    /// Looks up the header of a header dep.
    fn get_header(&mut self, block_hash: H256) -> (r: Result<Header, TxDepProviderError>)
        ensures
            answers(old(self).known_header(block_hash), r),
            forall|h: H256| #[trigger] final(self).known_tx(h) == old(self).known_tx(h),
            forall|o: OutPoint| #[trigger] final(self).known_output(o) == old(self).known_output(o),
            forall|o: OutPoint| #[trigger] final(self).known_output_data(o)
                == old(self).known_output_data(o),
            forall|h: H256| #[trigger] final(self).known_header(h) == old(self).known_header(h),
    ;
}

/// A provider that knows nothing: every lookup fails with `NotFound`.
pub struct EmptyTxDepProvider;

impl TransactionDependencyProvider for EmptyTxDepProvider {
    open spec fn known_tx(&self, tx_hash: H256) -> Option<Transaction> {
        None
    }

    open spec fn known_output(&self, out_point: OutPoint) -> Option<CellOutput> {
        None
    }

    open spec fn known_output_data(&self, out_point: OutPoint) -> Option<Bytes> {
        None
    }

    open spec fn known_header(&self, block_hash: H256) -> Option<Header> {
        None
    }

    fn get_tx(&mut self, _tx_hash: H256) -> (r: Result<Transaction, TxDepProviderError>)
        ensures
            r matches Err(TxDepProviderError::NotFound),
    {
        Err(TxDepProviderError::NotFound)
    }

    fn get_output(&mut self, _out_point: OutPoint) -> (r: Result<CellOutput, TxDepProviderError>)
        ensures
            r matches Err(TxDepProviderError::NotFound),
    {
        Err(TxDepProviderError::NotFound)
    }

    fn get_output_data(&mut self, _out_point: OutPoint) -> (r: Result<Bytes, TxDepProviderError>)
        ensures
            r matches Err(TxDepProviderError::NotFound),
    {
        Err(TxDepProviderError::NotFound)
    }

    fn get_header(&mut self, _block_hash: H256) -> (r: Result<Header, TxDepProviderError>)
        ensures
            r matches Err(TxDepProviderError::NotFound),
    {
        Err(TxDepProviderError::NotFound)
    }
}

/// Asking for the same key twice, with the provider's knowledge kept in between
/// (as every lookup keeps it), gives agreeing answers unless one of them is a
/// transient `Other` failure: both `NotFound`, or both success with equal values.
pub proof fn lemma_repeated_lookup_agrees<T>(
    known_first: Option<T>,
    known_second: Option<T>,
    first: Result<T, TxDepProviderError>,
    second: Result<T, TxDepProviderError>,
)
    requires
        answers(known_first, first),
        known_second == known_first,
        answers(known_second, second),
        !(first matches Err(TxDepProviderError::Other(_))),
        !(second matches Err(TxDepProviderError::Other(_))),
    ensures
        first == second,
{
}

} // verus!
