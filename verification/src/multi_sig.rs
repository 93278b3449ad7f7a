//! Threshold authorization over a fixed owner set.
//!
//! A wallet holds a list of owner public keys and a threshold. A message is
//! authorized when signatures verifying under at least `threshold` distinct
//! owner keys are supplied; a signer repeated in the input counts once.

use vstd::prelude::*;

use crate::crypto::{ed25519_verifies, ed25519_verify};
use crate::errors::WalletError;

verus! {

/// One participant's public key in a multi-signature group.
pub struct PublicKeyBytes {
    pub bytes: Vec<u8>,
}

impl View for PublicKeyBytes {
    type V = Seq<u8>;

    open spec fn view(&self) -> Seq<u8> {
        self.bytes@
    }
}

impl PublicKeyBytes {
    /// Wraps raw public-key bytes.
    pub fn new(bytes: Vec<u8>) -> (r: Self)
        ensures
            r@ == bytes@,
    {
        PublicKeyBytes { bytes }
    }
}

/// One (signer, signature) pair supplied to a verification call.
pub struct SignatureRecord {
    pub signer: PublicKeyBytes,
    pub signature: Vec<u8>,
}

impl View for SignatureRecord {
    type V = (Seq<u8>, Seq<u8>);

    open spec fn view(&self) -> (Seq<u8>, Seq<u8>) {
        (self.signer@, self.signature@)
    }
}

impl SignatureRecord {
    /// Pairs a claimed signer with a signature.
    pub fn new(signer: PublicKeyBytes, signature: Vec<u8>) -> (r: Self)
        ensures
            r@ == (signer@, signature@),
    {
        SignatureRecord { signer, signature }
    }
}

/// The owner keys as raw byte sequences.
pub open spec fn spec_owner_keys(owners: Seq<PublicKeyBytes>) -> Seq<Seq<u8>> {
    owners.map_values(|o: PublicKeyBytes| o@)
}

/// Already-counted signer keys as byte sequences.
pub open spec fn spec_counted_keys(counted: Seq<Vec<u8>>) -> Seq<Seq<u8>> {
    counted.map_values(|v: Vec<u8>| v@)
}

/// The records as (signer, signature) byte-sequence pairs.
pub open spec fn spec_records(records: Seq<SignatureRecord>) -> Seq<(Seq<u8>, Seq<u8>)> {
    records.map_values(|r: SignatureRecord| r@)
}

/// Whether one record counts towards authorization: its claimed signer is an
/// owner and its signature verifies for the message under that owner's key.
pub open spec fn record_accepted(
    owners: Seq<Seq<u8>>,
    message: Seq<u8>,
    signer: Seq<u8>,
    signature: Seq<u8>,
) -> bool {
    owners.contains(signer) && ed25519_verifies(signer, message, signature)
}

/// The set of distinct owner keys with at least one accepted record.
pub open spec fn verified_signers(
    owners: Seq<Seq<u8>>,
    message: Seq<u8>,
    records: Seq<(Seq<u8>, Seq<u8>)>,
) -> Set<Seq<u8>>
    decreases records.len(),
{
    if records.len() == 0 {
        Set::empty()
    } else {
        let prev = verified_signers(owners, message, records.drop_last());
        let last = records.last();
        if record_accepted(owners, message, last.0, last.1) {
            prev.insert(last.0)
        } else {
            prev
        }
    }
}

/// The set of verified signers is finite.
pub proof fn lemma_verified_signers_finite(
    owners: Seq<Seq<u8>>,
    message: Seq<u8>,
    records: Seq<(Seq<u8>, Seq<u8>)>,
)
    ensures
        verified_signers(owners, message, records).finite(),
    decreases records.len(),
{
    broadcast use vstd::set::axiom_set_empty_finite, vstd::set::axiom_set_insert_finite;

    if records.len() > 0 {
        lemma_verified_signers_finite(owners, message, records.drop_last());
    }
}

/// Records seen so far can only add signers: the signers of a prefix are a
/// subset of the signers of the whole input.
pub proof fn lemma_verified_signers_prefix(
    owners: Seq<Seq<u8>>,
    message: Seq<u8>,
    records: Seq<(Seq<u8>, Seq<u8>)>,
    i: int,
)
    requires
        0 <= i <= records.len(),
    ensures
        verified_signers(owners, message, records.take(i)).subset_of(
            verified_signers(owners, message, records),
        ),
    decreases records.len() - i,
{
    if i == records.len() {
        assert(records.take(i) =~= records);
    } else {
        lemma_verified_signers_prefix(owners, message, records, i + 1);
        assert(records.take(i + 1).drop_last() =~= records.take(i));
        assert(records.take(i + 1).last() == records[i]);
    }
}

/// Signers outside the owner set are ignored: every verified signer is an
/// owner key.
pub proof fn lemma_verified_signers_are_owners(
    owners: Seq<Seq<u8>>,
    message: Seq<u8>,
    records: Seq<(Seq<u8>, Seq<u8>)>,
)
    ensures
        forall|k: Seq<u8>| verified_signers(owners, message, records).contains(k)
            ==> owners.contains(k),
    decreases records.len(),
{
    if records.len() > 0 {
        lemma_verified_signers_are_owners(owners, message, records.drop_last());
    }
}

/// A signer repeated across records counts once: if every record names the
/// same signer, at most one owner is counted, however many records there are
/// and whatever their signatures.
pub proof fn lemma_duplicate_signer_counts_once(
    owners: Seq<Seq<u8>>,
    message: Seq<u8>,
    records: Seq<(Seq<u8>, Seq<u8>)>,
    k: Seq<u8>,
)
    requires
        forall|i: int| 0 <= i < records.len() ==> (#[trigger] records[i]).0 == k,
    ensures
        verified_signers(owners, message, records).len() <= 1,
        verified_signers(owners, message, records).subset_of(set![k]),
    decreases records.len(),
{
    broadcast use vstd::set::axiom_set_empty_finite, vstd::set::axiom_set_insert_finite,
        vstd::set::axiom_set_empty_len, vstd::set::axiom_set_insert_len;

    if records.len() == 0 {
    } else {
        lemma_duplicate_signer_counts_once(owners, message, records.drop_last(), k);
        lemma_verified_signers_finite(owners, message, records.drop_last());
        let s = verified_signers(owners, message, records);
        assert(s.subset_of(set![k]));
        lemma_verified_signers_finite(owners, message, records);
        vstd::set_lib::lemma_len_subset(s, set![k]);
        assert(set![k].len() == 1);
    }
}

/// Compares two byte strings.
fn bytes_equal(a: &[u8], b: &[u8]) -> (r: bool)
    ensures
        r == (a@ == b@),
{
    if a.len() != b.len() {
        return false;
    }
    for i in 0..a.len()
        invariant
            a@.len() == b@.len(),
            forall|j: int| 0 <= j < i ==> a@[j] == b@[j],
    {
        if a[i] != b[i] {
            return false;
        }
    }
    assert(a@ =~= b@);
    true
}

/// Tells whether `key` occurs among the owner keys.
fn owners_contain(owners: &Vec<PublicKeyBytes>, key: &Vec<u8>) -> (r: bool)
    ensures
        r == spec_owner_keys(owners@).contains(key@),
{
    let ghost keys = spec_owner_keys(owners@);
    for i in 0..owners.len()
        invariant
            keys == spec_owner_keys(owners@),
            forall|j: int| 0 <= j < i ==> keys[j] != key@,
    {
        if bytes_equal(owners[i].bytes.as_slice(), key.as_slice()) {
            assert(keys[i as int] == key@);
            return true;
        }
    }
    assert(forall|j: int| 0 <= j < keys.len() ==> keys[j] != key@);
    false
}

/// Tells whether `key` occurs among the already counted signer keys.
fn counted_contains(counted: &Vec<Vec<u8>>, key: &Vec<u8>) -> (r: bool)
    ensures
        r == spec_counted_keys(counted@).contains(key@),
{
    let ghost keys = spec_counted_keys(counted@);
    for i in 0..counted.len()
        invariant
            keys == counted@.map_values(|v: Vec<u8>| v@),
            forall|j: int| 0 <= j < i ==> keys[j] != key@,
    {
        if bytes_equal(counted[i].as_slice(), key.as_slice()) {
            assert(keys[i as int] == key@);
            return true;
        }
    }
    assert(forall|j: int| 0 <= j < keys.len() ==> keys[j] != key@);
    false
}

/// A fixed owner set with a signature threshold, immutable once constructed.
pub struct MultiSigWallet {
    pub owners: Vec<PublicKeyBytes>,
    pub threshold: usize,
}

impl MultiSigWallet {
    /// The owner keys as byte sequences.
    pub open spec fn spec_owners(self) -> Seq<Seq<u8>> {
        spec_owner_keys(self.owners@)
    }

    /// The group invariant: the threshold is positive and within the owner
    /// count.
    pub open spec fn wf(self) -> bool {
        0 < self.threshold <= self.owners@.len()
    }

    /// Forms a group from a list of owners and a threshold. A threshold of
    /// zero is rejected, since a group that requires nothing would authorize
    /// anything; so is one larger than the number of owners.
    pub fn new(owners: Vec<PublicKeyBytes>, threshold: usize) -> (r: Result<
        MultiSigWallet,
        WalletError,
    >)
        ensures
            r is Ok <==> 0 < threshold <= owners@.len(),
            r matches Ok(w) ==> w.owners@ == owners@ && w.threshold == threshold && w.wf(),
            r matches Err(e) ==> e == WalletError::InvalidThreshold,
    {
        if threshold == 0 || threshold > owners.len() {
            return Err(WalletError::InvalidThreshold);
        }
        Ok(MultiSigWallet { owners, threshold })
    }

    /// Decides authorization: true exactly when the records contain
    /// signatures verifying under at least `threshold` distinct owner keys.
    /// Unknown signers and failing signatures are ignored, never an error;
    /// a signer repeated in the input is counted once.
    #[verifier::loop_isolation(false)]
    pub fn verify_signatures(&self, message: &[u8], signatures: &Vec<SignatureRecord>) -> (r:
        Result<bool, WalletError>)
        requires
            self.wf(),
        ensures
            r is Ok,
            r matches Ok(authorized) ==> authorized == (verified_signers(
                self.spec_owners(),
                message@,
                spec_records(signatures@),
            ).len() >= self.threshold),
    {
        broadcast use vstd::set::axiom_set_empty_finite, vstd::set::axiom_set_insert_finite,
            vstd::set::axiom_set_empty_len, vstd::set::axiom_set_insert_len;

        let ghost keys = self.spec_owners();
        let ghost rseq = spec_records(signatures@);
        let mut counted: Vec<Vec<u8>> = Vec::new();
        assert(rseq.take(0) =~= Seq::<(Seq<u8>, Seq<u8>)>::empty());
        for i in 0..signatures.len()
            invariant
                rseq == spec_records(signatures@),
                counted@.len() < self.threshold,
                verified_signers(keys, message@, rseq.take(i as int)).finite(),
                verified_signers(keys, message@, rseq.take(i as int)).len() == counted@.len(),
                forall|k: Seq<u8>|
                    verified_signers(keys, message@, rseq.take(i as int)).contains(k)
                        <==> spec_counted_keys(counted@).contains(k),
        {
            let ghost pre = verified_signers(keys, message@, rseq.take(i as int));
            let ghost post = verified_signers(keys, message@, rseq.take(i + 1));
            proof {
                assert(rseq.take(i + 1).drop_last() =~= rseq.take(i as int));
                assert(rseq.take(i + 1).last() == rseq[i as int]);
            }
            let rec = &signatures[i];
            let ghost k = rec.signer@;
            if owners_contain(&self.owners, &rec.signer.bytes) {
                if !counted_contains(&counted, &rec.signer.bytes) {
                    if ed25519_verify(
                        rec.signer.bytes.as_slice(),
                        message,
                        rec.signature.as_slice(),
                    ) {
                        proof {
                            assert(record_accepted(keys, message@, k, rec.signature@));
                            assert(post == pre.insert(k));
                            assert(!pre.contains(k));
                            assert(post.len() == pre.len() + 1);
                        }
                        let ghost prev_counted = counted@;
                        let signer_copy = vstd::slice::slice_to_vec(rec.signer.bytes.as_slice());
                        counted.push(signer_copy);
                        proof {
                            assert(spec_counted_keys(counted@) =~= spec_counted_keys(
                                prev_counted,
                            ).push(k));
                            assert forall|x: Seq<u8>| post.contains(x) implies spec_counted_keys(
                                counted@,
                            ).contains(x) by {
                                vstd::seq_lib::lemma_seq_contains_after_push(
                                    spec_counted_keys(prev_counted),
                                    k,
                                    x,
                                );
                            }
                            assert forall|x: Seq<u8>|
                                spec_counted_keys(counted@).contains(x) implies post.contains(
                                x,
                            ) by {
                                vstd::seq_lib::lemma_seq_contains_after_push(
                                    spec_counted_keys(prev_counted),
                                    k,
                                    x,
                                );
                            }
                        }
                        if counted.len() >= self.threshold {
                            proof {
                                lemma_verified_signers_prefix(keys, message@, rseq, i + 1);
                                lemma_verified_signers_finite(keys, message@, rseq);
                                vstd::set_lib::lemma_len_subset(
                                    post,
                                    verified_signers(keys, message@, rseq),
                                );
                                assert(rseq.take(signatures@.len() as int) =~= rseq);
                            }
                            return Ok(true);
                        }
                    } else {
                        proof {
                            assert(!record_accepted(keys, message@, k, rec.signature@));
                            assert(post == pre);
                        }
                    }
                } else {
                    proof {
                        assert(pre.contains(k));
                        assert(post =~= pre);
                        assert(post.len() == pre.len());
                    }
                }
            } else {
                proof {
                    assert(!record_accepted(keys, message@, k, rec.signature@));
                    assert(post == pre);
                }
            }
        }
        proof {
            assert(rseq.take(signatures@.len() as int) =~= rseq);
        }
        Ok(false)
    }
}

} // verus!
