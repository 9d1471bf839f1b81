//! Sets of policies with unique identifiers.

use crate::engine::{
    add_outcome, holds_static_only, new_policy_set, policy_count, policy_set_add, policy_set_ids,
};
use crate::error::CedarError;
use crate::policy::CedarPolicy;
use crate::text::{decimal, decimal_text, joined, lemma_starts_with, tells};
use vstd::prelude::*;
use vstd::string::StringExecFns;

verus! {

/// The identifiers of a set after an attempt to add a policy with the
/// identifier `id`: one that the set holds already is refused, any other is
/// put behind those that the set holds.
pub open spec fn added(ids: Seq<Seq<char>>, id: Seq<char>) -> Seq<Seq<char>> {
    if ids.contains(id) {
        ids
    } else {
        ids.push(id)
    }
}

/// The words with which the message for a refused policy begins.
pub open spec fn refusal_prefix(id: Seq<char>) -> Seq<char> {
    "Failed to add policy with id '"@ + id + "'. Cedar error: "@
}

/// The summary of a set of `count` policies.
pub open spec fn summary(count: nat) -> Seq<char> {
    "CedarPolicySet("@ + decimal(count) + " policies)"@
}

/// Adding keeps identifiers unique.
pub proof fn lemma_added_unique(ids: Seq<Seq<char>>, id: Seq<char>)
    requires
        ids.no_duplicates(),
    ensures
        added(ids, id).no_duplicates(),
        added(ids, id).contains(id),
{
    if ids.contains(id) {
    } else {
        let out = ids.push(id);
        assert(out[ids.len() as int] == id);
        assert forall|i: int, j: int| 0 <= i < out.len() && 0 <= j < out.len() && i != j implies out[i]
            != out[j] by {
            if i < ids.len() && j < ids.len() {
            } else if i < ids.len() {
                assert(ids.contains(ids[i]));
            } else {
                assert(ids.contains(ids[j]));
            }
        }
    }
}

/// A set without policies refuses no identifier.
pub proof fn lemma_empty_accepts(id: Seq<char>)
    ensures
        !Seq::<Seq<char>>::empty().contains(id),
        added(Seq::<Seq<char>>::empty(), id) == seq![id],
{
    assert(added(Seq::<Seq<char>>::empty(), id) =~= seq![id]);
}

/// A second attempt to add an identifier is refused and leaves the set,
/// and with it the number of its members, as the first attempt left it.
pub proof fn lemma_second_add_refused(ids: Seq<Seq<char>>, id: Seq<char>)
    ensures
        added(ids, id).contains(id),
        added(added(ids, id), id) == added(ids, id),
        added(added(ids, id), id).len() == added(ids, id).len(),
{
    if !ids.contains(id) {
        assert(ids.push(id)[ids.len() as int] == id);
    }
}

/// A set of policies that are evaluated together. No two of its policies
/// share an identifier.
pub struct CedarPolicySet {
    policies: cedar_policy::PolicySet,
}

impl View for CedarPolicySet {
    type V = Seq<Seq<char>>;

    /// The identifiers of the policies, in the order of insertion.
    closed spec fn view(&self) -> Seq<Seq<char>> {
        policy_set_ids(self.policies)
    }
}

impl CedarPolicySet {
    /// The set holds static policies only, and no identifier twice.
    #[verifier::type_invariant]
    spec fn well_formed(self) -> bool {
        &&& holds_static_only(self.policies)
        &&& policy_set_ids(self.policies).no_duplicates()
    }

    /// The set as the engine holds it.
    pub closed spec fn engine(self) -> cedar_policy::PolicySet {
        self.policies
    }

    /// The view of a set lists the identifiers in the engine's set.
    pub proof fn lemma_view(self)
        ensures
            self@ == policy_set_ids(self.engine()),
    {
    }

    /// A set without policies.
    pub fn new() -> (r: Self)
        ensures
            r@ == Seq::<Seq<char>>::empty(),
    {
        CedarPolicySet { policies: new_policy_set() }
    }

    /// Adds a copy of `policy` to the set.
    ///
    /// Fails exactly when the set holds a policy with the same identifier,
    /// and then leaves the set as it was; the failure names the identifier
    /// and gives what the engine reported. Otherwise the policy is put
    /// behind those that the set holds.
    pub fn add(&mut self, policy: &CedarPolicy) -> (r: Result<(), CedarError>)
        ensures
            r is Err <==> old(self)@.contains(policy@),
            final(self)@ == added(old(self)@, policy@),
            final(self)@.contains(policy@),
            final(self)@.no_duplicates(),
            r is Err ==> final(self).engine() == old(self).engine(),
            r matches Err(e) ==> {
                &&& e is DuplicateIdError
                &&& add_outcome(old(self).engine(), policy.engine()) matches Err(cause)
                &&& tells(e.detail(), refusal_prefix(policy@), cause)
            },
    {
        proof {
            use_type_invariant(&*self);
            policy.lemma_view();
            lemma_added_unique(self@, policy@);
        }
        match policy_set_add(&mut self.policies, policy.as_engine()) {
            Ok(()) => Ok(()),
            Err(e) => {
                let cause = e.to_string();
                let mut text = joined("Failed to add policy with id '", policy.id());
                text.append("'. Cedar error: ");
                text.append(cause.as_str());
                proof {
                    lemma_starts_with(refusal_prefix(policy@), cause@);
                }
                Err(CedarError::DuplicateIdError(text))
            },
        }
    }

    /// The number of policies in the set.
    pub fn len(&self) -> (r: usize)
        ensures
            r == self@.len(),
    {
        policy_count(&self.policies)
    }

    /// A one-line summary of the set: the number of its policies.
    pub fn describe(&self) -> (r: String)
        ensures
            r@ == summary(self@.len()),
    {
        let mut text = joined("CedarPolicySet(", decimal_text(self.len()).as_str());
        text.append(" policies)");
        text
    }

    /// The set as the engine holds it.
    pub(crate) fn as_engine(&self) -> (r: &cedar_policy::PolicySet)
        ensures
            *r == self.engine(),
    {
        &self.policies
    }
}

} // verus!
