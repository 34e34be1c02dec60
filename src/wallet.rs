//! Key-holding backends that sign and verify messages.
use vstd::prelude::*;
use ckb_types::{bytes::Bytes, packed::OutPoint, H256};
use crate::error::WalletError;
use crate::provider::TransactionDependencyProvider;

verus! {

/// One signing identity of a wallet: a software key (secp256k1 for CKB or for
/// Ethereum addresses, RSA) or a key held by a hardware device.
///
/// Its behaviour is described by which ids it owns, which messages suit its
/// algorithm, and which signatures it accepts. By default an identity owns no
/// id, takes no message and accepts no signature, so an implementation that
/// signs anything must say what it owns and accepts.
pub trait Wallet {
    /// Whether the identity can sign for `id` (typically a digest of its public key).
    open spec fn owns(&self, id: Seq<u8>) -> bool {
        false
    }

    /// Whether `message` has the length and encoding the algorithm signs
    /// (256 bits for secp256k1, 512 bits for RSA with a 1024-bit key).
    open spec fn suits(&self, message: Seq<u8>) -> bool {
        false
    }

    /// Whether `signature` is a valid signature of `message` by `id`.
    open spec fn accepts(&self, id: Seq<u8>, message: Seq<u8>, signature: Bytes) -> bool {
        false
    }

    /// Tells whether this identity owns `id`.
    fn match_id(&self, id: &[u8]) -> (r: bool)
        ensures
            r == self.owns(id@),
    ;

    /// Signs `message` for `id` as part of `tx`. A hardware wallet may look up
    /// the transaction's dependencies through `tx_dep_provider`; a failed lookup
    /// comes back as `WalletError::TxDep`.
    fn sign<P: TransactionDependencyProvider + ?Sized>(
        &self,
        id: &[u8],
        message: &[u8],
        tx: &ckb_types::core::TransactionView,
        tx_dep_provider: &mut P,
    ) -> (r: Result<Bytes, WalletError>)
        ensures
            (r matches Err(WalletError::IdNotFound)) <==> !self.owns(id@),
            !self.owns(id@) ==> &*final(tx_dep_provider) == &*old(tx_dep_provider),
            self.owns(id@) && !self.suits(message@) ==> (r matches Err(
                WalletError::InvalidMessage(_),
            )),
            (r matches Err(WalletError::InvalidMessage(_))) ==> !self.suits(message@),
            r matches Ok(s) ==> self.accepts(id@, message@, s),
            forall|h: H256| #[trigger] final(tx_dep_provider).known_tx(h)
                == old(tx_dep_provider).known_tx(h),
            forall|o: OutPoint| #[trigger] final(tx_dep_provider).known_output(o)
                == old(tx_dep_provider).known_output(o),
            forall|o: OutPoint| #[trigger] final(tx_dep_provider).known_output_data(o)
                == old(tx_dep_provider).known_output_data(o),
            forall|h: H256| #[trigger] final(tx_dep_provider).known_header(h)
                == old(tx_dep_provider).known_header(h),
    ;

    /// Checks a signature: `Ok(false)` for a well-formed signature that does
    /// not match, an error only for input the scheme cannot read.
    fn verify(&self, id: &[u8], message: &[u8], signature: Bytes) -> (r: Result<bool, WalletError>)
        ensures
            r matches Ok(b) ==> b == self.accepts(id@, message@, signature),
            self.accepts(id@, message@, signature) ==> (r matches Ok(true)),
    ;
}

/// Round trip: a signature that `sign` returned for `id` and `message` makes
/// `verify` on the same id and message return `Ok(true)`.
pub proof fn lemma_signature_verifies<W: Wallet>(
    w: &W,
    id: Seq<u8>,
    message: Seq<u8>,
    signed: Result<Bytes, WalletError>,
    verdict: Result<bool, WalletError>,
)
    requires
        signed is Ok,
        signed matches Ok(s) ==> w.accepts(id, message, s),
        verdict matches Ok(b) ==> b == w.accepts(id, message, signed->Ok_0),
        w.accepts(id, message, signed->Ok_0) ==> (verdict matches Ok(true)),
    ensures
        verdict matches Ok(true),
{
}

/// An id that `match_id` rejects makes `sign` fail with `IdNotFound` and leave
/// the provider as it was: no lookup is made through it.
pub proof fn lemma_unmatched_id_not_found<W: Wallet, P: TransactionDependencyProvider>(
    w: &W,
    id: Seq<u8>,
    matched: bool,
    signed: Result<Bytes, WalletError>,
    before: P,
    after: P,
)
    requires
        matched == w.owns(id),
        !matched,
        (signed matches Err(WalletError::IdNotFound)) <==> !w.owns(id),
        !w.owns(id) ==> after == before,
    ensures
        signed matches Err(WalletError::IdNotFound),
        after == before,
{
}

} // verus!
