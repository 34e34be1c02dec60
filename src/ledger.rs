//! Chain values of ckb-types that pass through the interfaces unexamined:
//! nothing here reads inside them, so nothing is assumed of them.
use vstd::prelude::*;

verus! {

/// `ckb_types::H256`: the hash of a transaction or of a block, used as a lookup key.
#[verifier::external_type_specification]
#[verifier::external_body]
pub struct ExH256(ckb_types::H256);

/// `ckb_types::bytes::Bytes`: a byte buffer, for signatures and cell data.
#[verifier::external_type_specification]
#[verifier::external_body]
pub struct ExBytes(ckb_types::bytes::Bytes);

/// `ckb_types::core::TransactionView`: the transaction being signed.
#[verifier::external_type_specification]
#[verifier::external_body]
pub struct ExTransactionView(ckb_types::core::TransactionView);

/// `ckb_types::packed::Transaction`: a transaction that a lookup returns.
#[verifier::external_type_specification]
#[verifier::external_body]
pub struct ExTransaction(ckb_types::packed::Transaction);

/// `ckb_types::packed::CellOutput`: a cell output that a lookup returns.
#[verifier::external_type_specification]
#[verifier::external_body]
pub struct ExCellOutput(ckb_types::packed::CellOutput);

/// `ckb_types::packed::Header`: a block header that a lookup returns.
#[verifier::external_type_specification]
#[verifier::external_body]
pub struct ExHeader(ckb_types::packed::Header);

/// `ckb_types::packed::OutPoint`: a reference to one output of a transaction, used as a lookup key.
#[verifier::external_type_specification]
#[verifier::external_body]
pub struct ExOutPoint(ckb_types::packed::OutPoint);

} // verus!
