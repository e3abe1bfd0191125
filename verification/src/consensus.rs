//! The committee's authorisation, which every instruction under its control
//! asks for before it changes anything.

use vstd::prelude::*;
use crate::account::{contains_key, PresentedAccount, ValidatorSet};
use crate::error::CustomError;
use crate::pubkey::Pubkey;

verus! {

/// The identities that signed: the keys of those presented accounts that the
/// runtime flags as signers. An identity presented more than once is in the
/// set once.
pub open spec fn signing_keys(presented: Seq<PresentedAccount>) -> Set<Pubkey> {
    Set::new(
        |key: Pubkey|
            exists|i: int|
                0 <= i < presented.len() && (#[trigger] presented[i]).is_signer && presented[i].key
                    == key,
    )
}

/// Whether a committee with its threshold authorises an action, given the
/// accounts presented.
///
/// Too few distinct signing identities are refused first, whoever they are;
/// then a single signing identity from outside the committee refuses the
/// whole action. Accounts that did not sign are not looked at.
pub open spec fn consensus_outcome(
    committee: Seq<Pubkey>,
    threshold: nat,
    presented: Seq<PresentedAccount>,
) -> Result<(), CustomError> {
    let signing = signing_keys(presented);
    if signing.len() < threshold {
        Err(CustomError::NotEnoughSigners)
    } else if !signing.subset_of(committee.to_set()) {
        Err(CustomError::InvalidSigner)
    } else {
        Ok(())
    }
}

/// Presenting one more account adds its key to the signing identities if it
/// signed, and changes nothing if it did not.
pub proof fn lemma_signing_keys_push(presented: Seq<PresentedAccount>, account: PresentedAccount)
    ensures
        signing_keys(presented.push(account)) == if account.is_signer {
            signing_keys(presented).insert(account.key)
        } else {
            signing_keys(presented)
        },
{
    let longer = presented.push(account);
    let expected = if account.is_signer {
        signing_keys(presented).insert(account.key)
    } else {
        signing_keys(presented)
    };
    assert forall|key: Pubkey| signing_keys(longer).contains(key) implies expected.contains(
        key,
    ) by {
        let i = choose|i: int|
            0 <= i < longer.len() && (#[trigger] longer[i]).is_signer && longer[i].key == key;
        if i < presented.len() {
            assert(presented[i].is_signer && presented[i].key == key);
        }
    }
    assert forall|key: Pubkey| expected.contains(key) implies signing_keys(longer).contains(
        key,
    ) by {
        if account.is_signer && key == account.key {
            let last = presented.len() as int;
            assert(longer[last].is_signer && longer[last].key == key);
        } else {
            let i = choose|i: int|
                0 <= i < presented.len() && (#[trigger] presented[i]).is_signer && presented[i].key
                    == key;
            assert(longer[i].is_signer && longer[i].key == key);
        }
    }
    assert(signing_keys(longer) =~= expected);
}

/// The signing identities are finitely many, no more than the accounts
/// presented.
pub proof fn lemma_signing_keys_finite(presented: Seq<PresentedAccount>)
    ensures
        signing_keys(presented).finite(),
        signing_keys(presented).len() <= presented.len(),
    decreases presented.len(),
{
    if presented.len() == 0 {
        assert(signing_keys(presented) =~= Set::<Pubkey>::empty());
    } else {
        let shorter = presented.drop_last();
        assert(presented =~= shorter.push(presented.last()));
        lemma_signing_keys_finite(shorter);
        lemma_signing_keys_push(shorter, presented.last());
    }
}

/// An authorised action was signed by at least `threshold` distinct
/// identities, every one of them a member of the committee.
pub proof fn lemma_authorised_by_quorum(
    committee: Seq<Pubkey>,
    threshold: nat,
    presented: Seq<PresentedAccount>,
)
    requires
        consensus_outcome(committee, threshold, presented) is Ok,
    ensures
        signing_keys(presented).finite(),
        signing_keys(presented).len() >= threshold,
        forall|i: int|
            0 <= i < presented.len() && (#[trigger] presented[i]).is_signer ==> committee.contains(
                presented[i].key,
            ),
{
    lemma_signing_keys_finite(presented);
    assert forall|i: int|
        0 <= i < presented.len() && (#[trigger] presented[i]).is_signer implies committee.contains(
        presented[i].key,
    ) by {
        assert(signing_keys(presented).contains(presented[i].key));
        assert(committee.to_set().contains(presented[i].key));
    }
}

/// Presenting an account a second time changes nothing: an identity counts
/// once toward the threshold, however often it is presented.
pub proof fn lemma_repeated_account_counts_once(
    committee: Seq<Pubkey>,
    threshold: nat,
    presented: Seq<PresentedAccount>,
    i: int,
)
    requires
        0 <= i < presented.len(),
    ensures
        consensus_outcome(committee, threshold, presented.push(presented[i])) == consensus_outcome(
            committee,
            threshold,
            presented,
        ),
{
    lemma_signing_keys_push(presented, presented[i]);
    if presented[i].is_signer {
        assert(signing_keys(presented).contains(presented[i].key));
        assert(signing_keys(presented).insert(presented[i].key) =~= signing_keys(presented));
    }
}

/// Whoever signed among `presented` signed among any sequence that holds the
/// same accounts.
proof fn lemma_signing_keys_of_rearranged(
    presented: Seq<PresentedAccount>,
    rearranged: Seq<PresentedAccount>,
)
    requires
        presented.to_multiset() == rearranged.to_multiset(),
    ensures
        signing_keys(presented).subset_of(signing_keys(rearranged)),
{
    presented.to_multiset_ensures();
    rearranged.to_multiset_ensures();
    assert forall|key: Pubkey| signing_keys(presented).contains(key) implies signing_keys(
        rearranged,
    ).contains(key) by {
        let i = choose|i: int|
            0 <= i < presented.len() && (#[trigger] presented[i]).is_signer && presented[i].key
                == key;
        assert(presented.contains(presented[i]));
        assert(presented.to_multiset().count(presented[i]) > 0);
        assert(rearranged.to_multiset().count(presented[i]) > 0);
        assert(rearranged.contains(presented[i]));
        let j = choose|j: int| 0 <= j < rearranged.len() && rearranged[j] == presented[i];
        assert(rearranged[j].is_signer && rearranged[j].key == key);
    }
}

/// The order in which the accounts are presented does not matter.
pub proof fn lemma_order_of_accounts_irrelevant(
    committee: Seq<Pubkey>,
    threshold: nat,
    presented: Seq<PresentedAccount>,
    rearranged: Seq<PresentedAccount>,
)
    requires
        presented.to_multiset() == rearranged.to_multiset(),
    ensures
        consensus_outcome(committee, threshold, rearranged) == consensus_outcome(
            committee,
            threshold,
            presented,
        ),
{
    lemma_signing_keys_of_rearranged(presented, rearranged);
    lemma_signing_keys_of_rearranged(rearranged, presented);
    assert(signing_keys(presented) =~= signing_keys(rearranged));
}

/// An account that did not sign has no part in the answer, whoever it is.
pub proof fn lemma_unsigned_account_ignored(
    committee: Seq<Pubkey>,
    threshold: nat,
    presented: Seq<PresentedAccount>,
    account: PresentedAccount,
)
    requires
        !account.is_signer,
    ensures
        consensus_outcome(committee, threshold, presented.push(account)) == consensus_outcome(
            committee,
            threshold,
            presented,
        ),
{
    lemma_signing_keys_push(presented, account);
}

/// The identities that signed among `presented`, each of them once.
pub fn signing_identities(presented: &Vec<PresentedAccount>) -> (signing: Vec<Pubkey>)
    ensures
        signing@.no_duplicates(),
        signing@.to_set() == signing_keys(presented@),
        signing@.len() == signing_keys(presented@).len(),
{
    let mut signing: Vec<Pubkey> = Vec::new();
    let mut i: usize = 0;
    proof {
        assert(presented@.take(0) =~= Seq::<PresentedAccount>::empty());
        assert(signing@.to_set() =~= signing_keys(presented@.take(0)));
    }
    while i < presented.len()
        invariant
            i <= presented.len(),
            signing@.no_duplicates(),
            signing@.to_set() == signing_keys(presented@.take(i as int)),
        decreases presented.len() - i,
    {
        let account: PresentedAccount = presented[i];
        proof {
            assert(presented@.take(i + 1) =~= presented@.take(i as int).push(account));
            lemma_signing_keys_push(presented@.take(i as int), account);
        }
        if account.is_signer {
            if contains_key(&signing, &account.key) {
                assert(signing@.to_set().insert(account.key) =~= signing@.to_set());
            } else {
                proof {
                    signing@.lemma_push_to_set_commute(account.key);
                }
                signing.push(account.key);
            }
        }
        i += 1;
    }
    proof {
        assert(presented@.take(presented@.len() as int) =~= presented@);
        signing@.unique_seq_to_set();
    }
    signing
}

/// Whether every identity in `keys` is a member of `committee`.
pub fn all_members(committee: &Vec<Pubkey>, keys: &Vec<Pubkey>) -> (r: bool)
    ensures
        r == keys@.to_set().subset_of(committee@.to_set()),
{
    let mut i: usize = 0;
    while i < keys.len()
        invariant
            i <= keys.len(),
            forall|k: int| 0 <= k < i ==> committee@.contains(keys@[k]),
        decreases keys.len() - i,
    {
        if !contains_key(committee, &keys[i]) {
            proof {
                assert(keys@.to_set().contains(keys@[i as int]));
                assert(!committee@.to_set().contains(keys@[i as int]));
            }
            return false;
        }
        i += 1;
    }
    proof {
        assert forall|key: Pubkey| keys@.to_set().contains(key) implies committee@.to_set().contains(
            key,
        ) by {
            let k = choose|k: int| 0 <= k < keys@.len() && keys@[k] == key;
            assert(committee@.contains(keys@[k]));
        }
    }
    true
}

/// Authorises a gated action: at least `threshold` distinct identities
/// signed, and every identity that signed is a member of the committee.
///
/// Nothing is changed. The answer does not depend on the order of the
/// presented accounts, nor on how often one of them is presented: an
/// identity counts once toward the threshold, so that no validator can meet
/// it alone by being presented again and again.
pub fn check_consensus(validator_set: &ValidatorSet, presented: &Vec<PresentedAccount>) -> (r:
    Result<(), CustomError>)
    ensures
        r == consensus_outcome(
            validator_set.signers@,
            validator_set.threshold as nat,
            presented@,
        ),
{
    let signing: Vec<Pubkey> = signing_identities(presented);
    if signing.len() < validator_set.threshold as usize {
        return Err(CustomError::NotEnoughSigners);
    }
    if !all_members(&validator_set.signers, &signing) {
        return Err(CustomError::InvalidSigner);
    }
    Ok(())
}

} // verus!
