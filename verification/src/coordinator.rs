//! The coordinator: it selects the signers of a session, drives both rounds
//! and combines the shares into the signature of the group.

use crate::error::ThresholdError;
use crate::keys::shares_of_one_group;
use crate::primitives::{
    aggregate, aggregate_signature, commitment_bytes, group_verifying_key, sha256,
    sha256_digest, share_bytes, signature_accepted, signing_package_encoding, zeros,
    PublicKeyPackage,
    key_package_verifying_key, KeyPackage, SignatureShare, SigningCommitments, SigningPackage,
};
use crate::serialization::{serialize, CombinedSignature, SignerMessage};
use crate::signer::{response_bytes, SignerState, ThresholdSigner};
use std::collections::BTreeMap;
use vstd::prelude::*;

verus! {

broadcast use vstd::std_specs::btree::group_btree_axioms;

/// The coordinator of a group. The signer with identifier `i` stands at
/// position `i - 1` of `signers`.
pub struct ThresholdCoordinator {
    pub threshold: u16,
    pub signers: Vec<ThresholdSigner>,
    pub pubkey_package: PublicKeyPackage,
}

/// What a coordinator holds, as plain values.
pub struct CoordinatorState {
    pub threshold: u16,
    pub signers: Seq<SignerState>,
    pub pubkey_package: Seq<u8>,
}

impl View for ThresholdCoordinator {
    type V = CoordinatorState;

    open spec fn view(&self) -> CoordinatorState {
        CoordinatorState {
            threshold: self.threshold,
            signers: Seq::new(self.signers@.len(), |i: int| self.signers@[i]@),
            pubkey_package: self.pubkey_package@,
        }
    }
}

/// Whether `ids` can be the signers of a session among `participants`: every
/// identifier lies between 1 and `participants`, and none occurs twice.
pub open spec fn valid_selection(ids: Seq<u16>, participants: int) -> bool {
    &&& forall|i: int| 0 <= i < ids.len() ==> 1 <= #[trigger] ids[i] <= participants
    &&& forall|i: int, j: int| 0 <= i < j < ids.len() ==> ids[i] != ids[j]
}

/// Whether `ids` selects the signer at `position`, whose identifier is
/// `position + 1`.
pub open spec fn selects(ids: Seq<u16>, position: int) -> bool {
    exists|i: int| 0 <= i < ids.len() && #[trigger] ids[i] == position + 1
}

/// The encodings inside what the first round collected.
pub open spec fn collected_bytes(
    collected: Result<BTreeMap<u16, SigningCommitments>, ThresholdError>,
) -> Result<Map<u16, Seq<u8>>, ThresholdError> {
    match collected {
        Ok(commitments) => Ok(commitment_bytes(commitments@)),
        Err(e) => Err(e),
    }
}

impl CoordinatorState {
    /// The state of the signer with identifier `id`.
    pub open spec fn signer(self, id: u16) -> SignerState {
        self.signers[id - 1]
    }

    /// Whether `next` is this group still: threshold, public keys and the
    /// number of signers are the same, and every signer has kept its index
    /// and its key share.
    pub open spec fn same_group(self, next: CoordinatorState) -> bool {
        &&& next.threshold == self.threshold
        &&& next.pubkey_package == self.pubkey_package
        &&& next.signers.len() == self.signers.len()
        &&& forall|p: int|
            0 <= p < self.signers.len() ==> (#[trigger] next.signers[p]).index
                == self.signers[p].index && next.signers[p].key_package
                == self.signers[p].key_package
    }

    /// Whether `next` differs from this state at selected signers only.
    pub open spec fn same_outside(self, ids: Seq<u16>, next: CoordinatorState) -> bool {
        forall|p: int|
            0 <= p < self.signers.len() && !selects(ids, p) ==> #[trigger] next.signers[p]
                == self.signers[p]
    }

    /// Whether the first round over `ids` stopped at the signer `ids[k]`
    /// and left `next`: that signer failed, the signers before it had
    /// published and lost their nonces again, and the signers after it were
    /// not asked, but hold no nonces either.
    pub open spec fn stopped_at(self, ids: Seq<u16>, k: int, next: CoordinatorState) -> bool {
        &&& 0 <= k < ids.len()
        &&& self.signer(ids[k]).first_round(
            next.signer(ids[k]),
            Err(ThresholdError::SigningFailure),
        )
        &&& forall|i: int|
            0 <= i < k ==> self.signer(#[trigger] ids[i]).first_round_discarded(
                next.signer(ids[i]),
            )
        &&& forall|i: int|
            k < i < ids.len() ==> next.signer(#[trigger] ids[i]) == self.signer(ids[i]).spent()
    }

    /// Whether `next`, with the commitments `collected`, is a state that the
    /// first round over `ids` may leave behind.
    ///
    /// Where every selected signer published its commitments, `collected`
    /// holds them by identifier and each selected signer holds the nonces
    /// they belong to. The round fails, with `AggregationFailure`, only where
    /// a selected signer failed; it stopped there, and no selected signer
    /// holds nonces.
    pub open spec fn first_round(
        self,
        ids: Seq<u16>,
        next: CoordinatorState,
        collected: Result<Map<u16, Seq<u8>>, ThresholdError>,
    ) -> bool {
        &&& self.same_group(next)
        &&& self.same_outside(ids, next)
        &&& match collected {
            Ok(commitments) => {
                &&& forall|id: u16| #[trigger] commitments.contains_key(id) <==> ids.contains(id)
                &&& forall|i: int|
                    0 <= i < ids.len() ==> self.signer(#[trigger] ids[i]).first_round(
                        next.signer(ids[i]),
                        Ok(commitments[ids[i]]),
                    )
            },
            Err(e) => {
                &&& e == ThresholdError::AggregationFailure
                &&& exists|k: int| #[trigger] self.stopped_at(ids, k, next)
            },
        }
    }

    /// This state with the nonce slot of every selected signer emptied.
    pub open spec fn spent(self, ids: Seq<u16>) -> CoordinatorState {
        CoordinatorState {
            signers: Seq::new(
                self.signers.len(),
                |p: int|
                    if selects(ids, p) {
                        self.signers[p].spent()
                    } else {
                        self.signers[p]
                    },
            ),
            ..self
        }
    }

    /// What the second round over `ids` returns, signer by signer.
    pub open spec fn second_round(self, ids: Seq<u16>, signing_package: Seq<u8>) -> Map<
        u16,
        Result<Seq<u8>, ThresholdError>,
    > {
        Map::new(
            |id: u16| ids.contains(id),
            |id: u16| self.signer(id).second_round(signing_package),
        )
    }

    /// Signature and public key that the second round and the aggregation
    /// give for `message`, the signers `ids` and their `commitments`.
    ///
    /// The signing package is made of the commitments and the message. Every
    /// selected signer computes its share from the nonces in its slot. Where
    /// one of them fails, or the package cannot be made, or the shares do not
    /// combine, the outcome is `AggregationFailure`: no part of a signature
    /// is returned.
    pub open spec fn signing_outcome(
        self,
        message: Seq<u8>,
        ids: Seq<u16>,
        commitments: Map<u16, Seq<u8>>,
    ) -> Result<(Seq<u8>, Seq<u8>), ThresholdError> {
        match signing_package_encoding(commitments, message) {
            None => Err(ThresholdError::AggregationFailure),
            Some(signing_package) => {
                let results = self.second_round(ids, signing_package);
                if exists|i: int| 0 <= i < ids.len() && results[#[trigger] ids[i]] is Err {
                    Err(ThresholdError::AggregationFailure)
                } else {
                    self.aggregation(
                        signing_package,
                        results.map_values(|r: Result<Seq<u8>, ThresholdError>| r->Ok_0),
                    )
                }
            },
        }
    }

    /// Signature and public key that aggregation gives for the shares of a
    /// session: the signature that the shares combine to, with the verifying
    /// key of the group, or `AggregationFailure` where they do not combine.
    pub open spec fn aggregation(self, signing_package: Seq<u8>, shares: Map<u16, Seq<u8>>) -> Result<
        (Seq<u8>, Seq<u8>),
        ThresholdError,
    > {
        match (
            aggregate_signature(signing_package, shares, self.pubkey_package),
            group_verifying_key(self.pubkey_package),
        ) {
            (Some(signature), Some(public_key)) => Ok((signature, public_key)),
            _ => Err(ThresholdError::AggregationFailure),
        }
    }

    /// Whether a whole session on `message` with the signers `ids` may take
    /// this state to `next` and return `outcome`.
    ///
    /// The nonces of the first round are drawn at random, so the state
    /// between the rounds is one of many; what follows it is determined.
    pub open spec fn session(
        self,
        message: Seq<u8>,
        ids: Seq<u16>,
        next: CoordinatorState,
        outcome: Result<(Seq<u8>, Seq<u8>), ThresholdError>,
    ) -> bool {
        exists|between: CoordinatorState, collected: Result<Map<u16, Seq<u8>>, ThresholdError>|
            #[trigger] self.first_round(ids, between, collected) && match collected {
                Ok(commitments) => next == between.spent(ids) && outcome
                    == between.signing_outcome(message, ids, commitments),
                Err(e) => next == between && outcome == Err::<(Seq<u8>, Seq<u8>), _>(e),
            }
    }
}

/// Signature and public key inside the result of a session.
pub open spec fn combined_bytes(combined: Result<CombinedSignature, ThresholdError>) -> Result<
    (Seq<u8>, Seq<u8>),
    ThresholdError,
> {
    match combined {
        Ok(c) => Ok((c.signature@, c.public_key@)),
        Err(e) => Err(e),
    }
}

/// The discipline of a session: whatever the nonces were and however the
/// session ended, the group is the same, no signer outside the selection was
/// touched, and no selected signer holds nonces any more. A session fails with
/// `AggregationFailure` only, and one that succeeds signs under the verifying
/// key of the group's public key package, whichever signers were selected.
pub proof fn lemma_session_discipline(
    state: CoordinatorState,
    message: Seq<u8>,
    ids: Seq<u16>,
    next: CoordinatorState,
    outcome: Result<(Seq<u8>, Seq<u8>), ThresholdError>,
)
    requires
        valid_selection(ids, state.signers.len() as int),
        state.session(message, ids, next, outcome),
    ensures
        state.same_group(next),
        state.same_outside(ids, next),
        forall|i: int| 0 <= i < ids.len() ==> next.signer(#[trigger] ids[i]).nonces is None,
        outcome matches Err(e) ==> e == ThresholdError::AggregationFailure,
        outcome matches Ok((_, public_key)) ==> group_verifying_key(state.pubkey_package) == Some(
            public_key,
        ),
{
    let (between, collected) = choose|
        between: CoordinatorState,
        collected: Result<Map<u16, Seq<u8>>, ThresholdError>,
    |
        #[trigger] state.first_round(ids, between, collected) && match collected {
            Ok(commitments) => next == between.spent(ids) && outcome == between.signing_outcome(
                message,
                ids,
                commitments,
            ),
            Err(e) => next == between && outcome == Err::<(Seq<u8>, Seq<u8>), _>(e),
        };
    if collected is Ok {
        lemma_spent_frame(state, between, ids);
    } else {
        let k = choose|k: int| #[trigger] state.stopped_at(ids, k, next);
        assert forall|i: int| 0 <= i < ids.len() implies next.signer(
            #[trigger] ids[i],
        ).nonces is None by {
            if i < k {
                assert(state.signer(ids[i]).first_round_discarded(next.signer(ids[i])));
            }
        }
    }
}

/// Whether a coordinator holds the outcome of a key generation: the public key
/// package, the threshold, and at position `i` the signer `i + 1` with the key
/// package of that position.
pub open spec fn assembled_from(
    state: CoordinatorState,
    key_packages: Seq<KeyPackage>,
    public_key_package: Seq<u8>,
    min_signers: u16,
) -> bool {
    &&& state.threshold == min_signers
    &&& state.pubkey_package == public_key_package
    &&& state.signers.len() == key_packages.len()
    &&& forall|p: int|
        0 <= p < key_packages.len() ==> (#[trigger] state.signers[p]).index == p + 1
            && state.signers[p].key_package == key_packages[p]@
}

/// Whichever signers of a group sign, they sign under one key: a session of a
/// coordinator that holds the outcome of a key generation succeeds only with
/// the verifying key that every share of the group carries, and it leaves a
/// coordinator that still holds that outcome, so that the next session, of
/// other signers perhaps, signs under the same key.
pub proof fn lemma_one_key_for_every_selection(
    state: CoordinatorState,
    key_packages: Seq<KeyPackage>,
    public_key_package: Seq<u8>,
    max_signers: u16,
    min_signers: u16,
    message: Seq<u8>,
    ids: Seq<u16>,
    next: CoordinatorState,
    outcome: Result<(Seq<u8>, Seq<u8>), ThresholdError>,
)
    requires
        shares_of_one_group(key_packages, public_key_package, max_signers, min_signers),
        assembled_from(state, key_packages, public_key_package, min_signers),
        valid_selection(ids, state.signers.len() as int),
        state.session(message, ids, next, outcome),
    ensures
        assembled_from(next, key_packages, public_key_package, min_signers),
        outcome matches Ok((_, public_key)) ==> forall|p: int|
            0 <= p < key_packages.len() ==> key_package_verifying_key(
                #[trigger] key_packages[p]@,
            ) == Some(public_key),
{
    lemma_session_discipline(state, message, ids, next, outcome);
}

/// A first round that failed at the signer `ids[k]` and then discarded the
/// nonces of all selected signers has stopped at that signer.
proof fn lemma_stopped(origin: CoordinatorState, drawn: CoordinatorState, ids: Seq<u16>, k: int)
    requires
        valid_selection(ids, origin.signers.len() as int),
        0 <= k < ids.len(),
        origin.same_group(drawn),
        origin.same_outside(ids.take(k + 1), drawn),
        origin.signer(ids[k]).first_round(
            drawn.signer(ids[k]),
            Err(ThresholdError::SigningFailure),
        ),
        forall|i: int|
            0 <= i < k ==> origin.signer(#[trigger] ids[i]).first_round(
                drawn.signer(ids[i]),
                Ok(drawn.signer(ids[i]).commitments->Some_0),
            ),
    ensures
        origin.first_round(ids, drawn.spent(ids), Err(ThresholdError::AggregationFailure)),
{
    let next = drawn.spent(ids);
    lemma_prefix_frame(origin, drawn, ids, k + 1);
    lemma_spent_frame(origin, drawn, ids);
    assert forall|i: int| 0 <= i < ids.len() implies next.signer(#[trigger] ids[i])
        == drawn.signer(ids[i]).spent() by {
        assert(selects(ids, ids[i] - 1));
    }
    assert forall|i: int| k < i < ids.len() implies next.signer(#[trigger] ids[i])
        == origin.signer(ids[i]).spent() by {
        // The signers after `ids[k]` are none of the first `k + 1`.
        assert(!selects(ids.take(k + 1), ids[i] - 1)) by {
            if selects(ids.take(k + 1), ids[i] - 1) {
                let j = choose|j: int|
                    0 <= j < k + 1 && #[trigger] ids.take(k + 1)[j] == ids[i] - 1 + 1;
                assert(ids[j] == ids[i]);
            }
        }
        assert(drawn.signers[ids[i] - 1] == origin.signers[ids[i] - 1]);
    }
    assert forall|i: int| 0 <= i < k implies origin.signer(
        #[trigger] ids[i],
    ).first_round_discarded(next.signer(ids[i])) by {
        assert(origin.signer(ids[i]).first_round(
            drawn.signer(ids[i]),
            Ok(drawn.signer(ids[i]).commitments->Some_0),
        ));
    }
    assert(origin.stopped_at(ids, k, next));
}

/// Emptying the nonce slots of the selected signers changes nothing else: the
/// group stays the same and the other signers stay as they are.
proof fn lemma_spent_frame(origin: CoordinatorState, drawn: CoordinatorState, ids: Seq<u16>)
    requires
        valid_selection(ids, origin.signers.len() as int),
        origin.same_group(drawn),
        origin.same_outside(ids, drawn),
    ensures
        origin.same_group(drawn.spent(ids)),
        origin.same_outside(ids, drawn.spent(ids)),
        forall|i: int|
            0 <= i < ids.len() ==> drawn.spent(ids).signer(#[trigger] ids[i]).nonces is None,
{
    assert forall|i: int| 0 <= i < ids.len() implies drawn.spent(ids).signer(
        #[trigger] ids[i],
    ).nonces is None by {
        assert(selects(ids, ids[i] - 1));
    }
}

/// What holds outside a prefix of the selection holds outside all of it.
proof fn lemma_prefix_frame(
    origin: CoordinatorState,
    now: CoordinatorState,
    ids: Seq<u16>,
    k: int,
)
    requires
        0 <= k <= ids.len(),
        origin.same_outside(ids.take(k), now),
    ensures
        origin.same_outside(ids, now),
{
    assert forall|p: int|
        0 <= p < origin.signers.len() && !selects(ids, p) implies #[trigger] now.signers[p]
        == origin.signers[p] by {
        if selects(ids.take(k), p) {
            let i = choose|i: int| 0 <= i < k && #[trigger] ids.take(k)[i] == p + 1;
            assert(ids[i] == p + 1);
        }
    }
}

/// Emptying the nonce slots of all selected signers gives the same state,
/// whether or not some of them were empty before.
proof fn lemma_spent_absorbs(origin: CoordinatorState, partly: CoordinatorState, ids: Seq<u16>)
    requires
        origin.same_group(partly),
        origin.same_outside(ids, partly),
        forall|p: int|
            0 <= p < origin.signers.len() ==> #[trigger] partly.signers[p] == origin.signers[p]
                || partly.signers[p] == origin.signers[p].spent(),
    ensures
        partly.spent(ids) == origin.spent(ids),
{
    assert(partly.spent(ids).signers =~= origin.spent(ids).signers);
}

/// One step of a loop over the selected signers: where only the signer
/// `ids[k]` changed, the signers outside `ids[..k + 1]` are as they were at
/// the start, the signer `ids[k]` was untouched before the step, and the
/// signers `ids[..k]` are as before the step.
proof fn lemma_step(
    origin: CoordinatorState,
    before: CoordinatorState,
    after: CoordinatorState,
    ids: Seq<u16>,
    k: int,
)
    requires
        valid_selection(ids, origin.signers.len() as int),
        0 <= k < ids.len(),
        origin.signers.len() == before.signers.len() == after.signers.len(),
        origin.same_outside(ids.take(k), before),
        forall|p: int|
            0 <= p < before.signers.len() && p != ids[k] - 1 ==> #[trigger] after.signers[p]
                == before.signers[p],
    ensures
        origin.same_outside(ids.take(k + 1), after),
        before.signer(ids[k]) == origin.signer(ids[k]),
        forall|i: int| 0 <= i < k ==> after.signer(#[trigger] ids[i]) == before.signer(ids[i]),
{
    // No identifier occurs twice, so `ids[k]` is not among the first `k`.
    assert(!selects(ids.take(k), ids[k] - 1));
    assert forall|p: int|
        0 <= p < origin.signers.len() && !selects(
            ids.take(k + 1),
            p,
        ) implies #[trigger] after.signers[p] == origin.signers[p] by {
        assert(ids.take(k + 1)[k] == ids[k]);
        assert(!selects(ids.take(k), p)) by {
            if selects(ids.take(k), p) {
                let i = choose|i: int| 0 <= i < k && #[trigger] ids.take(k)[i] == p + 1;
                assert(ids.take(k + 1)[i] == p + 1);
            }
        }
    }
}

/// A step of collecting by identifier: a map that holds something for each of
/// the first `k` identifiers holds, once a value is put under `ids[k]`,
/// something for each of the first `k + 1`, and what it held is still there.
proof fn lemma_put<V>(ids: Seq<u16>, k: int, held: Map<u16, V>, value: V)
    requires
        0 <= k < ids.len(),
        forall|i: int, j: int| 0 <= i < j < ids.len() ==> ids[i] != ids[j],
        forall|id: u16| #[trigger] held.contains_key(id) <==> ids.take(k).contains(id),
    ensures
        forall|id: u16| #[trigger]
            held.insert(ids[k], value).contains_key(id) <==> ids.take(k + 1).contains(id),
        forall|i: int|
            0 <= i < k ==> held.contains_key(#[trigger] ids[i]) && held.insert(
                ids[k],
                value,
            )[ids[i]] == held[ids[i]],
{
    assert forall|id: u16| #[trigger]
        held.insert(ids[k], value).contains_key(id) <==> ids.take(k + 1).contains(id) by {
        lemma_take_contains(ids, k, id);
    }
    assert forall|i: int| 0 <= i < k implies held.contains_key(#[trigger] ids[i]) by {
        assert(ids.take(k)[i] == ids[i]);
    }
}

/// The first `k + 1` identifiers are the first `k` and `ids[k]`.
proof fn lemma_take_contains(ids: Seq<u16>, k: int, id: u16)
    requires
        0 <= k < ids.len(),
    ensures
        ids.take(k + 1).contains(id) <==> ids.take(k).contains(id) || id == ids[k],
{
    let shorter = ids.take(k);
    let longer = ids.take(k + 1);
    if longer.contains(id) && id != ids[k] {
        let i = choose|i: int| 0 <= i < longer.len() && longer[i] == id;
        assert(shorter[i] == id);
    }
    if shorter.contains(id) {
        let i = choose|i: int| 0 <= i < shorter.len() && shorter[i] == id;
        assert(longer[i] == id);
    }
    if id == ids[k] {
        assert(longer[k] == id);
    }
}

/// A state that differs from `origin` in the emptied nonce slots of the
/// selected signers is `origin.spent(ids)`.
proof fn lemma_spent(origin: CoordinatorState, now: CoordinatorState, ids: Seq<u16>)
    requires
        valid_selection(ids, origin.signers.len() as int),
        origin.same_group(now),
        origin.same_outside(ids, now),
        forall|i: int| 0 <= i < ids.len() ==> now.signer(#[trigger] ids[i]) == origin.signer(
            ids[i],
        ).spent(),
    ensures
        now == origin.spent(ids),
{
    assert(now.signers =~= origin.spent(ids).signers);
}

/// Puts `value` under `id`.
fn put<V>(map: &mut BTreeMap<u16, V>, id: u16, value: V)
    ensures
        final(map)@ == old(map)@.insert(id, value),
{
    broadcast use vstd::laws_cmp::group_laws_cmp;

    map.insert(id, value);
}

/// Tests `valid_selection`.
fn selection_is_valid(ids: &Vec<u16>, participants: usize) -> (valid: bool)
    ensures
        valid == valid_selection(ids@, participants as int),
{
    let mut i: usize = 0;
    while i < ids.len()
        invariant
            i <= ids@.len(),
            forall|k: int| 0 <= k < i ==> 1 <= #[trigger] ids@[k] <= participants,
            forall|k: int, j: int| 0 <= k < j < i ==> ids@[k] != ids@[j],
        decreases ids@.len() - i,
    {
        let id = ids[i];
        if id == 0 || id as usize > participants {
            return false;
        }
        let mut k: usize = 0;
        while k < i
            invariant
                k <= i < ids@.len(),
                id == ids@[i as int],
                forall|j: int| 0 <= j < k ==> ids@[j] != id,
            decreases i - k,
        {
            if ids[k] == id {
                return false;
            }
            k += 1;
        }
        i += 1;
    }
    true
}

impl ThresholdCoordinator {
    /// A coordinator for `signers` under `threshold`.
    pub fn new(threshold: u16, signers: Vec<ThresholdSigner>, pubkey_package: PublicKeyPackage) -> (coordinator:
        Self)
        ensures
            coordinator.threshold == threshold,
            coordinator.signers == signers,
            coordinator.pubkey_package == pubkey_package,
    {
        Self { threshold, signers, pubkey_package }
    }

    /// Sends a signing request for `message` to the signer at position
    /// `signer_index` and returns its encoded response.
    ///
    /// The request carries the position as one byte, the SHA-256 hash of the
    /// message and a commitment of 32 zero bytes. Fails with
    /// `InvalidIdentifier` where no signer stands at that position.
    pub fn send_to_signer(&mut self, signer_index: usize, message: &[u8]) -> (response: Result<
        Vec<u8>,
        ThresholdError,
    >)
        ensures
            signer_index >= old(self).signers@.len() ==> final(self)@ == old(self)@
                && response_bytes(response) == Err::<Seq<u8>, _>(
                ThresholdError::InvalidIdentifier,
            ),
            signer_index < old(self).signers@.len() ==> {
                &&& old(self)@.same_group(final(self)@)
                &&& forall|p: int|
                    0 <= p < old(self).signers@.len() && p != signer_index
                        ==> #[trigger] final(self)@.signers[p] == old(self)@.signers[p]
                &&& old(self)@.signers[signer_index as int].answers(
                    seq![(signer_index % 256) as u8] + sha256_digest(message@) + zeros(32),
                    final(self)@.signers[signer_index as int],
                    response_bytes(response),
                )
            },
    {
        if signer_index >= self.signers.len() {
            return Err(ThresholdError::InvalidIdentifier);
        }
        let signer_msg = SignerMessage {
            signer_index: (signer_index % 256) as u8,
            message_hash: sha256(message),
            nonce_commitment: [0u8; 32],
        };
        let serialized_request = serialize(&signer_msg);
        proof {
            assert(signer_msg.nonce_commitment@ =~= zeros(32));
        }
        self.signers[signer_index].receive_serialized_signing_request(&serialized_request)
    }

    /// A signature of 64 zero bytes under the group's public key: what a
    /// coordinator returns that has not run a session. The shares are not
    /// read. Fails with `AggregationFailure` where the public key package
    /// holds no verifying key.
    pub fn combine_signatures(&self, _serialized_shares: Vec<Vec<u8>>) -> (combined: Result<
        CombinedSignature,
        ThresholdError,
    >)
        ensures
            combined_bytes(combined) == match group_verifying_key(self.pubkey_package@) {
                Some(key) => Ok((zeros(64), key)),
                None => Err(ThresholdError::AggregationFailure),
            },
    {
        match self.pubkey_package.verifying_key() {
            Some(public_key) => {
                let signature = [0u8; 64];
                proof {
                    assert(signature@ =~= zeros(64));
                }
                Ok(CombinedSignature { signature, public_key })
            },
            None => Err(ThresholdError::AggregationFailure),
        }
    }

    /// Aggregation: combines the signature shares of a session into the
    /// signature of the group.
    ///
    /// Fails with `AggregationFailure` where the shares do not combine: where
    /// the share of a signer of the package is missing, or the signature that
    /// the shares add up to does not verify. A signature that is returned
    /// verifies, on the message that the signing package was made for, under
    /// the group's public key.
    pub fn aggregate_shares(
        &self,
        signing_package: &SigningPackage,
        signature_shares: &BTreeMap<u16, SignatureShare>,
    ) -> (combined: Result<CombinedSignature, ThresholdError>)
        ensures
            combined_bytes(combined) == self@.aggregation(
                signing_package@,
                share_bytes(signature_shares@),
            ),
            combined matches Ok(c) ==> forall|commitments: Map<u16, Seq<u8>>, message: Seq<u8>|
                #[trigger] signing_package_encoding(commitments, message) == Some(
                    signing_package@,
                ) ==> signature_accepted(c.public_key@, message, c.signature@),
    {
        let signature = match aggregate(signing_package, signature_shares, &self.pubkey_package) {
            Some(s) => s,
            None => {
                return Err(ThresholdError::AggregationFailure);
            },
        };
        let public_key = match self.pubkey_package.verifying_key() {
            Some(k) => k,
            None => {
                return Err(ThresholdError::AggregationFailure);
            },
        };
        Ok(CombinedSignature { signature, public_key })
    }

    /// Empties the nonce slot of every selected signer.
    fn discard_nonces(&mut self, signer_indices: &Vec<u16>)
        requires
            valid_selection(signer_indices@, old(self).signers@.len() as int),
        ensures
            final(self)@ == old(self)@.spent(signer_indices@),
    {
        let mut k: usize = 0;
        while k < signer_indices.len()
            invariant
                k <= signer_indices@.len(),
                valid_selection(signer_indices@, old(self).signers@.len() as int),
                old(self)@.same_group(self@),
                old(self)@.same_outside(signer_indices@.take(k as int), self@),
                forall|i: int|
                    0 <= i < k ==> self@.signer(#[trigger] signer_indices@[i]) == old(
                        self,
                    )@.signer(signer_indices@[i]).spent(),
            decreases signer_indices@.len() - k,
        {
            let id = signer_indices[k];
            let position = (id - 1) as usize;
            let ghost before = self@;
            self.signers[position].signing_nonces = None;
            proof {
                lemma_step(old(self)@, before, self@, signer_indices@, k as int);
            }
            k += 1;
        }
        proof {
            lemma_spent(old(self)@, self@, signer_indices@);
        }
    }

    /// Round 1 of a session: every selected signer draws nonces and
    /// publishes its commitments, which come back keyed by identifier.
    ///
    /// Fails with `InvalidIdentifier`, and touches no signer, where
    /// `signer_indices` is no valid selection. Fails with
    /// `AggregationFailure` at the first signer that fails: the signers after
    /// it are not asked, and the nonces that the signers before it drew are
    /// discarded.
    pub fn collect_commitments(&mut self, signer_indices: &Vec<u16>) -> (collected: Result<
        BTreeMap<u16, SigningCommitments>,
        ThresholdError,
    >)
        ensures
            !valid_selection(signer_indices@, old(self).signers@.len() as int) ==> final(self)@
                == old(self)@ && collected_bytes(collected) == Err::<Map<u16, Seq<u8>>, _>(
                ThresholdError::InvalidIdentifier,
            ),
            valid_selection(signer_indices@, old(self).signers@.len() as int) ==> old(
                self,
            )@.first_round(signer_indices@, final(self)@, collected_bytes(collected)),
    {
        if !selection_is_valid(signer_indices, self.signers.len()) {
            return Err(ThresholdError::InvalidIdentifier);
        }
        let mut commitments: BTreeMap<u16, SigningCommitments> = BTreeMap::new();
        let mut k: usize = 0;
        while k < signer_indices.len()
            invariant
                k <= signer_indices@.len(),
                valid_selection(signer_indices@, old(self).signers@.len() as int),
                old(self)@.same_group(self@),
                old(self)@.same_outside(signer_indices@.take(k as int), self@),
                forall|id: u16| #[trigger]
                    commitments@.contains_key(id) <==> signer_indices@.take(k as int).contains(id),
                forall|i: int|
                    0 <= i < k ==> old(self)@.signer(#[trigger] signer_indices@[i]).first_round(
                        self@.signer(signer_indices@[i]),
                        Ok(commitment_bytes(commitments@)[signer_indices@[i]]),
                    ),
            decreases signer_indices@.len() - k,
        {
            let id = signer_indices[k];
            let position = (id - 1) as usize;
            let ghost before = self@;
            let ghost held = commitments@;
            let published = self.signers[position].round1_generate_nonces();
            proof {
                lemma_step(old(self)@, before, self@, signer_indices@, k as int);
            }
            match published {
                Ok(c) => {
                    proof {
                        lemma_put(signer_indices@, k as int, held, c);
                    }
                    put(&mut commitments, id, c);
                },
                Err(_) => {
                    let ghost drawn = self@;
                    self.discard_nonces(signer_indices);
                    proof {
                        lemma_stopped(old(self)@, drawn, signer_indices@, k as int);
                    }
                    return Err(ThresholdError::AggregationFailure);
                },
            }
            k += 1;
        }
        proof {
            assert(signer_indices@.take(k as int) == signer_indices@);
        }
        Ok(commitments)
    }

    /// Round 2 and aggregation: every selected signer computes its share on
    /// the signing package made of `commitments` and `message`, and the
    /// shares are combined into one signature.
    ///
    /// Fails with `InvalidIdentifier`, and touches no signer, where
    /// `signer_indices` is no valid selection. Otherwise the result is
    /// `signing_outcome`: a signature that verifies under the group's public
    /// key, or `AggregationFailure` where the package cannot be made, a
    /// signer fails or the shares do not combine. The session is over either
    /// way: the nonce slot of every selected signer is empty afterwards, also
    /// of those that were not asked for a share any more.
    pub fn sign_and_aggregate(
        &mut self,
        message: &[u8],
        signer_indices: &Vec<u16>,
        commitments: &BTreeMap<u16, SigningCommitments>,
    ) -> (combined: Result<CombinedSignature, ThresholdError>)
        ensures
            !valid_selection(signer_indices@, old(self).signers@.len() as int) ==> final(self)@
                == old(self)@ && combined_bytes(combined) == Err::<(Seq<u8>, Seq<u8>), _>(
                ThresholdError::InvalidIdentifier,
            ),
            valid_selection(signer_indices@, old(self).signers@.len() as int) ==> final(self)@
                == old(self)@.spent(signer_indices@) && combined_bytes(combined) == old(
                self,
            )@.signing_outcome(message@, signer_indices@, commitment_bytes(commitments@)),
            combined matches Ok(c) ==> signature_accepted(c.public_key@, message@, c.signature@),
    {
        if !selection_is_valid(signer_indices, self.signers.len()) {
            return Err(ThresholdError::InvalidIdentifier);
        }
        let signing_package = match SigningPackage::new(commitments, message) {
            Some(p) => p,
            None => {
                self.discard_nonces(signer_indices);
                return Err(ThresholdError::AggregationFailure);
            },
        };
        let ghost results = old(self)@.second_round(signer_indices@, signing_package@);
        let mut shares: BTreeMap<u16, SignatureShare> = BTreeMap::new();
        let mut k: usize = 0;
        while k < signer_indices.len()
            invariant
                k <= signer_indices@.len(),
                valid_selection(signer_indices@, old(self).signers@.len() as int),
                old(self)@.same_group(self@),
                old(self)@.same_outside(signer_indices@.take(k as int), self@),
                signing_package_encoding(commitment_bytes(commitments@), message@) == Some(
                    signing_package@,
                ),
                results == old(self)@.second_round(signer_indices@, signing_package@),
                forall|i: int|
                    0 <= i < k ==> self@.signer(#[trigger] signer_indices@[i]) == old(
                        self,
                    )@.signer(signer_indices@[i]).spent(),
                forall|id: u16| #[trigger]
                    shares@.contains_key(id) <==> signer_indices@.take(k as int).contains(id),
                forall|i: int|
                    0 <= i < k ==> old(self)@.signer(#[trigger] signer_indices@[i]).second_round(
                        signing_package@,
                    ) == Ok::<_, ThresholdError>(share_bytes(shares@)[signer_indices@[i]]),
            decreases signer_indices@.len() - k,
        {
            let id = signer_indices[k];
            let position = (id - 1) as usize;
            let ghost before = self@;
            let ghost held = shares@;
            let share = self.signers[position].round2_sign(message, &signing_package);
            proof {
                lemma_step(old(self)@, before, self@, signer_indices@, k as int);
            }
            match share {
                Ok(s) => {
                    proof {
                        lemma_put(signer_indices@, k as int, held, s);
                    }
                    put(&mut shares, id, s);
                },
                Err(_) => {
                    let ghost partly = self@;
                    self.discard_nonces(signer_indices);
                    proof {
                        assert(signer_indices@.contains(id));
                        assert(results[signer_indices@[k as int]] is Err);
                        lemma_prefix_frame(old(self)@, partly, signer_indices@, k + 1);
                        lemma_spent_absorbs(old(self)@, partly, signer_indices@);
                    }
                    return Err(ThresholdError::AggregationFailure);
                },
            }
            k += 1;
        }
        proof {
            lemma_spent(old(self)@, self@, signer_indices@);
            assert forall|i: int| 0 <= i < signer_indices@.len() implies results[
            #[trigger] signer_indices@[i]] == old(self)@.signer(signer_indices@[i]).second_round(
                signing_package@,
            ) by {
                assert(signer_indices@.contains(signer_indices@[i]));
            }
            // The shares collected are the results of the second round, signer by signer.
            assert(share_bytes(shares@) =~= results.map_values(
                |r: Result<Seq<u8>, ThresholdError>| r->Ok_0,
            ));
        }
        self.aggregate_shares(&signing_package, &shares)
    }

    /// A whole signing session on `message` with the signers
    /// `signer_indices`.
    ///
    /// Fails with `InsufficientSigners` where fewer signers are selected than
    /// the threshold asks for, and with `InvalidIdentifier` where an
    /// identifier is zero, names no signer or occurs twice; no signer is
    /// contacted in either case. Otherwise both rounds run: the result is a
    /// signature that verifies under the group's public key, or
    /// `AggregationFailure`, and no selected signer holds nonces afterwards.
    pub fn perform_threshold_signing(&mut self, message: &[u8], signer_indices: Vec<u16>) -> (combined:
        Result<CombinedSignature, ThresholdError>)
        ensures
            signer_indices@.len() < old(self).threshold ==> final(self)@ == old(self)@
                && combined_bytes(combined) == Err::<(Seq<u8>, Seq<u8>), _>(
                ThresholdError::InsufficientSigners,
            ),
            signer_indices@.len() >= old(self).threshold && !valid_selection(
                signer_indices@,
                old(self).signers@.len() as int,
            ) ==> final(self)@ == old(self)@ && combined_bytes(combined) == Err::<
                (Seq<u8>, Seq<u8>),
                _,
            >(ThresholdError::InvalidIdentifier),
            signer_indices@.len() >= old(self).threshold && valid_selection(
                signer_indices@,
                old(self).signers@.len() as int,
            ) ==> old(self)@.session(
                message@,
                signer_indices@,
                final(self)@,
                combined_bytes(combined),
            ),
            combined matches Ok(c) ==> signature_accepted(c.public_key@, message@, c.signature@),
    {
        if signer_indices.len() < self.threshold as usize {
            return Err(ThresholdError::InsufficientSigners);
        }
        match self.collect_commitments(&signer_indices) {
            Err(e) => {
                proof {
                    // The session ended in its first round.
                    if valid_selection(signer_indices@, old(self).signers@.len() as int) {
                        assert(old(self)@.first_round(
                            signer_indices@,
                            self@,
                            Err::<Map<u16, Seq<u8>>, _>(e),
                        ));
                    }
                }
                Err(e)
            },
            Ok(commitments) => {
                let ghost between = self@;
                let combined = self.sign_and_aggregate(message, &signer_indices, &commitments);
                proof {
                    // The state between the rounds is the one that the first round left.
                    assert(old(self)@.first_round(
                        signer_indices@,
                        between,
                        Ok::<_, ThresholdError>(commitment_bytes(commitments@)),
                    ));
                }
                combined
            },
        }
    }
}

} // verus!
