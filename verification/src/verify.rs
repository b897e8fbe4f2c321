//! The threshold check: how many distinct authorized keys have signed a
//! message, and whether that is enough.

use crate::crypto::signature_valid;
use crate::crypto::KeyId;
use crate::crypto::PublicKey;
use crate::crypto::PublicKeyView;
use crate::crypto::Signature;
use crate::crypto::SignatureView;
use crate::error::agrees;
use crate::error::Error;
use crate::error::ErrorView;
use crate::table::Group;
use crate::table::Table;
use crate::text::decimal;
use crate::text::decimal_string;
use vstd::prelude::*;

verus! {

/// The keys of a keyring, by their IDs.
pub type Keys = Map<Seq<u8>, PublicKeyView>;

/// The views of the signatures of `s`, in order.
pub open spec fn signature_views(s: Seq<Signature>) -> Seq<SignatureView> {
    Seq::new(s.len(), |i: int| s[i]@)
}

/// The keys of `keys` that may sign: all of them, or those whose ID is in
/// `allowed`.
pub open spec fn candidates(keys: Keys, allowed: Option<Set<Seq<u8>>>) -> Keys {
    match allowed {
        Some(ids) => keys.restrict(ids),
        None => keys,
    }
}

/// Whether `sig` names a key of `keys` and is a signature of `msg` that this
/// key accepts.
pub open spec fn counts(sig: SignatureView, keys: Keys, msg: Seq<u8>) -> bool {
    keys.contains_key(sig.key_id) && signature_valid(
        sig.scheme,
        keys[sig.key_id].value,
        msg,
        sig.signature,
    )
}

/// The IDs of the keys of `keys` of which `sigs` holds a valid signature of
/// `msg`. However many signatures a key has made, its ID is here once.
pub open spec fn good_key_ids(sigs: Seq<SignatureView>, keys: Keys, msg: Seq<u8>) -> Set<Seq<u8>> {
    Set::new(
        |id: Seq<u8>|
            exists|i: int| 0 <= i < sigs.len() && #[trigger] sigs[i].key_id == id && counts(
                sigs[i],
                keys,
                msg,
            ),
    )
}

/// What the error says when `good` keys have signed and `threshold` are
/// asked for.
pub open spec fn threshold_text(good: nat, threshold: nat) -> Seq<char> {
    "Signature threshold not met: "@ + decimal(good) + "/"@ + decimal(threshold)
}

/// What the threshold check has to say of `sigs` over `msg`: it passes when
/// the threshold is at least one and at least that many distinct keys of
/// `keys` have signed.
pub open spec fn verify_outcome(sigs: Seq<SignatureView>, keys: Keys, msg: Seq<u8>, threshold: u32)
    -> Result<(), ErrorView> {
    let good = good_key_ids(sigs, keys, msg).len();
    if threshold < 1 {
        Err(ErrorView::VerificationFailure("Threshold must be strictly greater than zero"@))
    } else if good >= threshold {
        Ok(())
    } else {
        Err(ErrorView::VerificationFailure(threshold_text(good, threshold as nat)))
    }
}

/// With a threshold of at least one, a document is accepted exactly when at
/// least that many distinct keys have signed.
pub proof fn threshold_decides(sigs: Seq<SignatureView>, keys: Keys, msg: Seq<u8>, threshold: u32)
    requires
        threshold >= 1,
    ensures
        verify_outcome(sigs, keys, msg, threshold) is Ok <==> good_key_ids(sigs, keys, msg).len()
            >= threshold,
{
}

/// The outcome depends on which signatures there are, not on their order or
/// on how often one is repeated.
pub proof fn order_and_repeats_do_not_matter(
    first: Seq<SignatureView>,
    second: Seq<SignatureView>,
    keys: Keys,
    msg: Seq<u8>,
    threshold: u32,
)
    requires
        first.to_set() == second.to_set(),
    ensures
        good_key_ids(first, keys, msg) == good_key_ids(second, keys, msg),
        verify_outcome(first, keys, msg, threshold) == verify_outcome(
            second,
            keys,
            msg,
            threshold,
        ),
{
    let a = good_key_ids(first, keys, msg);
    let b = good_key_ids(second, keys, msg);
    assert forall|id: Seq<u8>| a.contains(id) <==> b.contains(id) by {
        if a.contains(id) {
            let i = choose|i: int|
                0 <= i < first.len() && #[trigger] first[i].key_id == id && counts(
                    first[i],
                    keys,
                    msg,
                );
            assert(first.to_set().contains(first[i]));
            assert(second.contains(first[i]));
            let j = second.index_of(first[i]);
            assert(second[j].key_id == id);
        }
        if b.contains(id) {
            let i = choose|i: int|
                0 <= i < second.len() && #[trigger] second[i].key_id == id && counts(
                    second[i],
                    keys,
                    msg,
                );
            assert(second.to_set().contains(second[i]));
            assert(first.contains(second[i]));
            let j = first.index_of(second[i]);
            assert(first[j].key_id == id);
        }
    }
    assert(a =~= b);
}

/// No more keys are good than there are signatures.
pub proof fn good_keys_are_bounded(sigs: Seq<SignatureView>, keys: Keys, msg: Seq<u8>)
    ensures
        good_key_ids(sigs, keys, msg).finite(),
        good_key_ids(sigs, keys, msg).len() <= sigs.len(),
    decreases sigs.len(),
{
    if sigs.len() == 0 {
        assert(good_key_ids(sigs, keys, msg) =~= Set::<Seq<u8>>::empty());
    } else {
        let n = sigs.len() - 1;
        good_keys_are_bounded(sigs.take(n), keys, msg);
        good_key_ids_step(sigs, keys, msg, n);
        assert(sigs.take(n + 1) =~= sigs);
    }
}

/// The good keys of one more signature are those of the signatures before
/// it, and its own key if it counts.
proof fn good_key_ids_step(sigs: Seq<SignatureView>, keys: Keys, msg: Seq<u8>, i: int)
    requires
        0 <= i < sigs.len(),
    ensures
        good_key_ids(sigs.take(i + 1), keys, msg) == if counts(sigs[i], keys, msg) {
            good_key_ids(sigs.take(i), keys, msg).insert(sigs[i].key_id)
        } else {
            good_key_ids(sigs.take(i), keys, msg)
        },
{
    let before = good_key_ids(sigs.take(i), keys, msg);
    let after = good_key_ids(sigs.take(i + 1), keys, msg);
    let expected = if counts(sigs[i], keys, msg) {
        before.insert(sigs[i].key_id)
    } else {
        before
    };
    assert forall|id: Seq<u8>| after.contains(id) <==> expected.contains(id) by {
        if after.contains(id) {
            let j = choose|j: int|
                0 <= j < sigs.take(i + 1).len() && #[trigger] sigs.take(i + 1)[j].key_id == id
                    && counts(sigs.take(i + 1)[j], keys, msg);
            if j < i {
                assert(sigs.take(i)[j].key_id == id);
            }
        }
        if expected.contains(id) {
            if before.contains(id) {
                let j = choose|j: int|
                    0 <= j < sigs.take(i).len() && #[trigger] sigs.take(i)[j].key_id == id
                        && counts(sigs.take(i)[j], keys, msg);
                assert(sigs.take(i + 1)[j].key_id == id);
            } else {
                assert(sigs.take(i + 1)[i].key_id == id);
            }
        }
    }
    assert(after =~= expected);
}

/// Builds the text of the error for a threshold that was not met.
fn threshold_error(good: usize, threshold: u32) -> (e: Error)
    ensures
        e@ == ErrorView::VerificationFailure(threshold_text(good as nat, threshold as nat)),
{
    let mut text = String::from_str("Signature threshold not met: ");
    let good_text = decimal_string(good);
    text.append(good_text.as_str());
    text.append("/");
    let threshold_text = decimal_string(threshold as usize);
    text.append(threshold_text.as_str());
    Error::VerificationFailure(text)
}

/// Checks that at least `threshold` distinct keys among the candidates have
/// signed `msg`. Signatures of keys that are no candidates are passed over.
pub fn verify_signatures(
    signatures: &Vec<Signature>,
    msg: &[u8],
    threshold: u32,
    keys: &Table<KeyId, PublicKey>,
    allowed: Option<&Group<KeyId>>,
) -> (r: Result<(), Error>)
    ensures
        agrees(
            r,
            verify_outcome(
                signature_views(signatures@),
                candidates(
                    keys@,
                    match allowed {
                        Some(ids) => Some(ids@),
                        None => None,
                    },
                ),
                msg@,
                threshold,
            ),
        ),
{
    if threshold < 1 {
        return Err(Error::verification_failure("Threshold must be strictly greater than zero"));
    }
    let ghost sigs = signature_views(signatures@);
    let ghost cands = candidates(
        keys@,
        match allowed {
            Some(ids) => Some(ids@),
            None => None,
        },
    );
    let mut counted: Group<KeyId> = Group::new();
    let mut i: usize = 0;
    proof {
        assert(good_key_ids(sigs.take(0), cands, msg@) =~= Set::<Seq<u8>>::empty());
    }
    while i < signatures.len()
        invariant
            i <= signatures@.len(),
            sigs == signature_views(signatures@),
            cands == candidates(
                keys@,
                match allowed {
                    Some(ids) => Some(ids@),
                    None => None,
                },
            ),
            counted@ == good_key_ids(sigs.take(i as int), cands, msg@),
        decreases signatures@.len() - i,
    {
        let sig = &signatures[i];
        proof {
            assert(sigs[i as int] == sig@);
            good_key_ids_step(sigs, cands, msg@, i as int);
        }
        let id = sig.key_id();
        let permitted = match allowed {
            Some(ids) => ids.contains(id),
            None => true,
        };
        if permitted && !counted.contains(id) {
            match keys.get(id) {
                Some(key) => {
                    if key.verify(sig.scheme(), msg, sig.signature()).is_ok() {
                        counted.insert(id.clone());
                    }
                },
                None => {},
            }
        } else {
            proof {
                if counted@.contains(id@) {
                    assert(counted@.insert(id@) =~= counted@);
                }
            }
        }
        i += 1;
    }
    proof {
        assert(sigs.take(i as int) =~= sigs);
    }
    let good = counted.len();
    if good >= threshold as usize {
        Ok(())
    } else {
        Err(threshold_error(good, threshold))
    }
}

} // verus!
