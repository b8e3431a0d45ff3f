//! Properties of the trust model that span operations: what every operation
//! keeps, what a read gives back after a write, and what the Session gate can
//! never do, and what the SAS is.

use vstd::prelude::*;

use crate::identity::{PeerId, PublicKey};
use crate::crypto::sha256_digest;
use crate::sas::{
    bytes_le, group_digits_value, lemma_bytes_le_antisymmetric, lemma_bytes_le_total,
    lemma_five_digits, place_value, sas_group_value, sas_input, sas_of, sas_text,
};
use crate::trust::{
    evaluated, evaluation_of, introduced, introduction_of, marked_verified, state_in,
    state_of_stored, stored_for, EvaluateDecision, IntroductionChannel, StoredTrust, TrustMap,
    TrustState,
};

verus! {

/// The level an introduction gives an unknown Peer is decided by the channel:
/// a trusted channel gives Verified, an untrusted one TOFU; and a Peer that is
/// already known keeps its level, so Verified never downgrades and a trusted
/// introduction never upgrades TOFU.
pub proof fn introduction_levels(m: TrustMap, peer: Seq<u8>, channel: IntroductionChannel)
    ensures
        !m.contains_key(peer) && channel == IntroductionChannel::Trusted ==> introduced(m, peer, channel)[peer]
            == StoredTrust::Verified,
        !m.contains_key(peer) && channel == IntroductionChannel::Untrusted ==> introduced(m, peer, channel)[peer]
            == StoredTrust::Tofu,
        m.contains_key(peer) ==> introduced(m, peer, channel)[peer] == m[peer],
        introduced(m, peer, channel).contains_key(peer),
{
}

/// Introducing the same Peer twice through the same channel leaves the store as
/// one introduction does, and reports the same level both times.
pub proof fn introduction_is_idempotent(m: TrustMap, peer: Seq<u8>, channel: IntroductionChannel)
    ensures
        introduced(introduced(m, peer, channel), peer, channel) == introduced(m, peer, channel),
        introduction_of(stored_for(introduced(m, peer, channel), peer), channel) == introduction_of(
            stored_for(m, peer),
            channel,
        ),
{
    assert(introduced(introduced(m, peer, channel), peer, channel) =~= introduced(m, peer, channel));
}

/// A read after a write gives back what was written: after an introduction the
/// Peer reads as the level the introduction reported; after `mark_verified` it
/// reads as Verified; after a matching first contact it reads as TOFU.
pub proof fn reads_give_back_writes(m: TrustMap, peer: Seq<u8>, channel: IntroductionChannel)
    ensures
        state_in(introduced(m, peer, channel), peer) == state_of_stored(
            introduction_of(stored_for(m, peer), channel),
        ),
        state_in(marked_verified(m, peer), peer) == TrustState::Verified,
        !m.contains_key(peer) ==> state_in(evaluated(m, peer, peer), peer) == TrustState::Tofu,
{
}

/// No operation removes a record, and no operation other than `mark_verified`
/// changes a stored level: an introduction (hence also accepting a TOFU
/// replacement) or an evaluation leaves every known Peer at its level. In
/// particular TOFU becomes Verified only through `mark_verified`, and Verified
/// never downgrades.
pub proof fn only_mark_verified_changes_a_known_level(
    m: TrustMap,
    key: Seq<u8>,
    peer: Seq<u8>,
    channel: IntroductionChannel,
    intended: Seq<u8>,
    presented: Seq<u8>,
)
    ensures
        m.contains_key(key) ==> stored_for(introduced(m, peer, channel), key) == stored_for(m, key),
        m.contains_key(key) ==> stored_for(evaluated(m, intended, presented), key) == stored_for(m, key),
        m.contains_key(key) ==> marked_verified(m, peer).contains_key(key),
        m.contains_key(key) && key != peer ==> stored_for(marked_verified(m, peer), key) == stored_for(m, key),
{
}

/// An operation on one Peer leaves every other Peer's record as it was.
pub proof fn operations_touch_only_their_peer(
    m: TrustMap,
    other: Seq<u8>,
    peer: Seq<u8>,
    channel: IntroductionChannel,
    intended: Seq<u8>,
    presented: Seq<u8>,
)
    ensures
        other != peer ==> stored_for(introduced(m, peer, channel), other) == stored_for(m, other),
        other != peer ==> stored_for(marked_verified(m, peer), other) == stored_for(m, other),
        other != presented ==> stored_for(evaluated(m, intended, presented), other) == stored_for(m, other),
{
}

/// The Session gate allows only the intended Peer: when the presented key
/// differs from the intended Peer ID the decision is never `Allow` and the
/// store is left unchanged; a Verified Peer's mismatch is rejected, a TOFU
/// Peer's mismatch raises an alert, and an unknown Peer's mismatch is rejected.
pub proof fn gate_allows_only_the_intended_peer(
    m: TrustMap,
    intended: PeerId,
    presented: PublicKey,
)
    ensures
        evaluation_of(intended, presented, stored_for(m, intended@)) is Allow ==> presented@ == intended@,
        presented@ != intended@ ==> evaluated(m, intended@, presented@) == m,
        presented@ != intended@ && stored_for(m, intended@) == Some(StoredTrust::Verified) ==> evaluation_of(
            intended,
            presented,
            stored_for(m, intended@),
        ) is RejectVerifiedMismatch,
        presented@ != intended@ && stored_for(m, intended@) == Some(StoredTrust::Tofu) ==> evaluation_of(
            intended,
            presented,
            stored_for(m, intended@),
        ) is AlertTofuMismatch,
        presented@ != intended@ && stored_for(m, intended@) is None ==> evaluation_of(
            intended,
            presented,
            stored_for(m, intended@),
        ) is RejectUnknownMismatch,
{
}

/// A matching key is allowed at the level on record; a first contact with a
/// matching key is recorded as TOFU.
pub proof fn gate_allows_the_intended_peer(m: TrustMap, intended: PeerId, presented: PublicKey)
    requires
        presented@ == intended@,
    ensures
        evaluation_of(intended, presented, stored_for(m, intended@)) == (EvaluateDecision::Allow {
            state: if m.contains_key(intended@) { m[intended@] } else { StoredTrust::Tofu },
        }),
        evaluated(m, intended@, presented@) == (if m.contains_key(intended@) { m } else { m.insert(intended@, StoredTrust::Tofu) }),
{
}

/// The SAS does not depend on the order in which the two keys are given: both
/// ends of a conversation derive the same string.
pub proof fn sas_is_order_independent(a: Seq<u8>, b: Seq<u8>)
    ensures
        sas_of(a, b) == sas_of(b, a),
{
    lemma_bytes_le_total(a, b);
    if bytes_le(a, b) && bytes_le(b, a) {
        lemma_bytes_le_antisymmetric(a, b);
    }
    assert(sas_input(a, b) == sas_input(b, a));
}

/// The display form of any digest: 47 characters, a space
/// at every sixth position and an ASCII digit everywhere else; the five digits
/// of group `g` are the zero-padded decimal form of the big-endian 16-bit number
/// made of digest bytes `2g` and `2g + 1`, so each group reads at most 65535.
pub proof fn sas_text_format(d: Seq<u8>)
    ensures
        sas_text(d).len() == 47,
        forall|p: int| 0 <= p < 47 ==> (#[trigger] sas_text(d)[p] == ' ' <==> p % 6 == 5),
        forall|p: int|
            0 <= p < 47 && p % 6 != 5 ==> '0' <= #[trigger] sas_text(d)[p] && sas_text(d)[p] <= '9',
        forall|g: int|
            0 <= g < 8 ==> 0 <= #[trigger] sas_group_value(d, g) <= 65535 && group_digits_value(
                sas_text(d),
                g,
            ) == sas_group_value(d, g),
{
    let t = sas_text(d);
    assert forall|p: int| 0 <= p < 47 && p % 6 != 5 implies '0' <= #[trigger] t[p] && t[p] <= '9'
        && t[p] != ' ' by {
        let g = p / 6;
        let k = 4 - p % 6;
        let n = sas_group_value(d, g);
        assert(0 <= g < 8) by (nonlinear_arith)
            requires
                0 <= p < 47,
                g == p / 6,
        ;
        assert(0 <= n / place_value(k)) by (nonlinear_arith)
            requires
                0 <= n,
                place_value(k) >= 1,
        ;
    }
    assert forall|g: int| 0 <= g < 8 implies 0 <= #[trigger] sas_group_value(d, g) <= 65535
        && group_digits_value(t, g) == sas_group_value(d, g) by {
        let n = sas_group_value(d, g);
        assert(0 <= n <= 65535);
        assert((6 * g) / 6 == g && (6 * g) % 6 == 0);
        assert((6 * g + 1) / 6 == g && (6 * g + 1) % 6 == 1);
        assert((6 * g + 2) / 6 == g && (6 * g + 2) % 6 == 2);
        assert((6 * g + 3) / 6 == g && (6 * g + 3) % 6 == 3);
        assert((6 * g + 4) / 6 == g && (6 * g + 4) % 6 == 4);
        assert(0 <= n / 10000 && 0 <= n / 1000 && 0 <= n / 100 && 0 <= n / 10) by (nonlinear_arith)
            requires
                0 <= n,
        ;
        lemma_five_digits(n);
    }
}

/// The format law for the SAS of two keys, as [`crate::sas`] returns it: 47
/// characters, a space at every sixth position, ASCII digits elsewhere, and each
/// group of five digits spelling a number at most 65535.
pub proof fn sas_format(a: Seq<u8>, b: Seq<u8>)
    ensures
        sas_of(a, b).len() == 47,
        forall|p: int| 0 <= p < 47 ==> (#[trigger] sas_of(a, b)[p] == ' ' <==> p % 6 == 5),
        forall|p: int|
            0 <= p < 47 && p % 6 != 5 ==> '0' <= #[trigger] sas_of(a, b)[p] && sas_of(a, b)[p] <= '9',
        forall|g: int|
            0 <= g < 8 ==> 0 <= #[trigger] group_digits_value(sas_of(a, b), g) <= 65535,
{
    let d = sha256_digest(sas_input(a, b));
    sas_text_format(d);
    assert forall|g: int| 0 <= g < 8 implies 0 <= #[trigger] group_digits_value(sas_of(a, b), g) <= 65535 by {
        assert(0 <= sas_group_value(d, g) <= 65535);
    }
}

/// Evaluating the same pair twice gives the same decision and leaves the store
/// as the first evaluation left it.
pub proof fn evaluation_is_idempotent(m: TrustMap, intended: PeerId, presented: PublicKey)
    ensures
        evaluated(evaluated(m, intended@, presented@), intended@, presented@) == evaluated(m, intended@, presented@),
        evaluation_of(intended, presented, stored_for(evaluated(m, intended@, presented@), intended@))
            == evaluation_of(intended, presented, stored_for(m, intended@)),
{
}

/// An operation other than `mark_verified`: an introduction, an evaluation, or
/// the acceptance of a TOFU replacement (an untrusted introduction of the
/// presented key).
pub enum TrustOperation {
    Introduce { peer: Seq<u8>, channel: IntroductionChannel },
    Evaluate { intended: PeerId, presented: PublicKey },
    AcceptReplacement { key: Seq<u8> },
}

/// The store after one operation.
pub open spec fn after_operation(m: TrustMap, op: TrustOperation) -> TrustMap {
    match op {
        TrustOperation::Introduce { peer, channel } => introduced(m, peer, channel),
        TrustOperation::Evaluate { intended, presented } => evaluated(m, intended@, presented@),
        TrustOperation::AcceptReplacement { key } => introduced(m, key, IntroductionChannel::Untrusted),
    }
}

/// The store after a sequence of operations, applied in order.
pub open spec fn after_operations(m: TrustMap, ops: Seq<TrustOperation>) -> TrustMap
    decreases ops.len(),
{
    if ops.len() == 0 {
        m
    } else {
        after_operation(after_operations(m, ops.drop_last()), ops.last())
    }
}

/// Over any sequence of introductions, evaluations and TOFU-replacement
/// acceptances, a Peer that has a level keeps exactly that level: TOFU becomes
/// Verified only through `mark_verified`, and Verified never moves down.
pub proof fn known_levels_survive_every_sequence(m: TrustMap, ops: Seq<TrustOperation>, key: Seq<u8>)
    requires
        m.contains_key(key),
    ensures
        stored_for(after_operations(m, ops), key) == stored_for(m, key),
    decreases ops.len(),
{
    if ops.len() > 0 {
        known_levels_survive_every_sequence(m, ops.drop_last(), key);
    }
}

/// Where two byte strings first differ, the one with the smaller byte sorts
/// first, whatever the bytes after it.
proof fn lemma_first_difference_decides(a: Seq<u8>, b: Seq<u8>, k: int)
    requires
        0 <= k < a.len(),
        k < b.len(),
        forall|j: int| 0 <= j < k ==> a[j] == b[j],
        a[k] < b[k],
    ensures
        bytes_le(a, b),
        !bytes_le(b, a),
    decreases k,
{
    if k > 0 {
        assert(a[0] == b[0]);
        assert forall|j: int| 0 <= j < k - 1 implies a.drop_first()[j] == b.drop_first()[j] by {
            assert(a[j + 1] == b[j + 1]);
        }
        lemma_first_difference_decides(a.drop_first(), b.drop_first(), k - 1);
    }
}

/// The SAS puts the two keys in lexicographic order, first byte first: at the
/// first position where the keys differ, the key with the smaller byte comes
/// first in the hashed input, whichever order the keys were given in.
pub proof fn sas_hashes_keys_in_lexicographic_order(a: Seq<u8>, b: Seq<u8>, k: int)
    requires
        0 <= k < a.len(),
        k < b.len(),
        forall|j: int| 0 <= j < k ==> a[j] == b[j],
        a[k] < b[k],
    ensures
        sas_input(a, b) == a + b,
        sas_input(b, a) == a + b,
        sas_of(a, b) == sas_text(sha256_digest(a + b)),
        sas_of(b, a) == sas_text(sha256_digest(a + b)),
{
    lemma_first_difference_decides(a, b, k);
}

} // verus!
