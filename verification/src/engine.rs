//! The boundary with the Cedar engine.
//!
//! The engine's values are opaque here. Each function of the engine that the
//! library calls has one wrapper, and where the outcome of a call depends on
//! its arguments alone the outcome has a name that contracts can speak of.
//! Where the engine evaluates, it guards its recursion by the stack that is
//! left: such outcomes have no name, and the wrappers say only what holds of
//! every outcome.

use crate::response::{distinct, drawn_from, Decision, Response};
use vstd::prelude::*;

verus! {

/// A policy as the engine holds it.
#[verifier::external_type_specification]
#[verifier::external_body]
pub struct ExPolicy(cedar_policy::Policy);

/// The engine's collection of policies.
#[verifier::external_type_specification]
#[verifier::external_body]
pub struct ExPolicySet(cedar_policy::PolicySet);

/// The engine's evaluator.
#[verifier::external_type_specification]
#[verifier::external_body]
pub struct ExAuthorizer(cedar_policy::Authorizer);

/// The typed identifier of a principal, an action or a resource.
#[verifier::external_type_specification]
#[verifier::external_body]
pub struct ExEntityUid(cedar_policy::EntityUid);

/// The attribute bag of a request.
#[verifier::external_type_specification]
#[verifier::external_body]
pub struct ExContext(cedar_policy::Context);

/// The entity store that the engine consults.
#[verifier::external_type_specification]
#[verifier::external_body]
pub struct ExEntities(cedar_policy::Entities);

/// A request as the engine evaluates it.
#[verifier::external_type_specification]
#[verifier::external_body]
pub struct ExRequest(cedar_policy::Request);

/// What the engine reports for text that it cannot parse.
#[verifier::external_type_specification]
#[verifier::external_body]
pub struct ExParseErrors(cedar_policy::ParseErrors);

/// What the engine reports for a JSON document that is no policy.
#[verifier::external_type_specification]
#[verifier::external_body]
pub struct ExPolicyFromJsonError(cedar_policy::PolicyFromJsonError);

/// What the engine reports when a policy set refuses a policy.
#[verifier::external_type_specification]
#[verifier::external_body]
pub struct ExPolicySetError(cedar_policy::PolicySetError);

/// What the engine reports for a JSON value that is no context.
#[verifier::external_type_specification]
#[verifier::external_body]
pub struct ExContextJsonError(cedar_policy::ContextJsonError);

/// What the engine reports for a JSON document that is no entity store.
#[verifier::external_type_specification]
#[verifier::external_body]
pub struct ExEntitiesError(cedar_policy::entities_errors::EntitiesError);

/// What the engine reports for a request that does not fit a schema.
#[verifier::external_type_specification]
#[verifier::external_body]
pub struct ExRequestValidationError(cedar_policy::RequestValidationError);

/// The identifier that the engine gives a textual policy parsed without one.
pub open spec fn default_text_id() -> Seq<char> {
    "policy0"@
}

/// The identifier that the engine gives a JSON policy.
pub open spec fn default_json_id() -> Seq<char> {
    "JSON policy"@
}

/// The characters of an optional string.
pub open spec fn option_text(s: Option<String>) -> Option<Seq<char>> {
    match s {
        Some(t) => Some(t@),
        None => None,
    }
}

/// Whether `PolicyId::from_str` accepts `text` as a policy identifier.
pub uninterp spec fn accepted_policy_id(text: Seq<char>) -> bool;

/// What `Policy::parse` gives for the policy text `source` and the
/// identifier `id`.
pub uninterp spec fn parsed_policy(id: Option<Seq<char>>, source: Seq<char>) -> Result<
    cedar_policy::Policy,
    cedar_policy::ParseErrors,
>;

/// What `Policy::from_json` gives for the JSON value `value` when no
/// identifier is supplied.
pub uninterp spec fn policy_of_json(value: serde_json::Value) -> Result<
    cedar_policy::Policy,
    cedar_policy::PolicyFromJsonError,
>;

/// The identifier of a policy, as `Policy::id` gives it.
pub uninterp spec fn policy_id(policy: cedar_policy::Policy) -> Seq<char>;

/// Whether a policy is static, as `Policy::is_static` tells: not linked from
/// a template.
pub uninterp spec fn policy_is_static(policy: cedar_policy::Policy) -> bool;

/// The identifiers of the policies that a policy set holds, in the order in
/// which `PolicySet::policies` walks them: the order of insertion.
pub uninterp spec fn policy_set_ids(set: cedar_policy::PolicySet) -> Seq<Seq<char>>;

/// Whether a policy set holds static policies only: no template and no
/// policy linked from one.
pub uninterp spec fn holds_static_only(set: cedar_policy::PolicySet) -> bool;

/// What `PolicySet::add` gives for a set and a policy.
pub uninterp spec fn add_outcome(set: cedar_policy::PolicySet, policy: cedar_policy::Policy) -> Result<
    (),
    cedar_policy::PolicySetError,
>;

/// What `EntityUid::from_str` gives for `text`.
pub uninterp spec fn parsed_entity_uid(text: Seq<char>) -> Result<
    cedar_policy::EntityUid,
    cedar_policy::ParseErrors,
>;

/// The names of the attributes that a context holds.
pub uninterp spec fn context_attributes(context: cedar_policy::Context) -> Set<Seq<char>>;

/// The identifiers of the entities that an entity store holds, each in its
/// textual form.
pub uninterp spec fn entity_uids(entities: cedar_policy::Entities) -> Set<Seq<char>>;

/// What `Request::new` gives for the four parts of a request when no schema
/// is supplied.
pub uninterp spec fn request_of(
    principal: cedar_policy::EntityUid,
    action: cedar_policy::EntityUid,
    resource: cedar_policy::EntityUid,
    context: cedar_policy::Context,
) -> Result<cedar_policy::Request, cedar_policy::RequestValidationError>;

/// `PolicyId::from_str(text).is_ok()`: whether the engine takes `text` as a
/// policy identifier. The answer depends on the text alone and is the one
/// named by `accepted_policy_id`.
#[verifier::external_body]
pub(crate) fn accepts_policy_id(text: &str) -> (r: bool)
    ensures
        r == accepted_policy_id(text@),
{
    <cedar_policy::PolicyId as std::str::FromStr>::from_str(text).is_ok()
}

/// `Policy::parse` with `id` turned into a `PolicyId`. The outcome is the
/// one named by `parsed_policy`. The engine documents that a policy parsed
/// this way carries the identifier that was given, or `policy0` when none
/// was; its source shows that such a policy is static.
#[verifier::external_body]
pub(crate) fn parse_policy(id: Option<String>, source: &str) -> (r: Result<
    cedar_policy::Policy,
    cedar_policy::ParseErrors,
>)
    ensures
        r == parsed_policy(option_text(id), source@),
        r matches Ok(p) ==> policy_is_static(p),
        r matches Ok(p) ==> policy_id(p) == (match id {
            Some(given) => given@,
            None => default_text_id(),
        }),
{
    cedar_policy::Policy::parse(id.map(cedar_policy::PolicyId::new), source)
}

/// `Policy::from_json` without an identifier. The outcome is the one named
/// by `policy_of_json`. The engine documents that such a policy carries the
/// identifier `JSON policy`; its source shows that it is static.
#[verifier::external_body]
pub(crate) fn policy_from_json(value: serde_json::Value) -> (r: Result<
    cedar_policy::Policy,
    cedar_policy::PolicyFromJsonError,
>)
    ensures
        r == policy_of_json(value),
        r matches Ok(p) ==> policy_is_static(p),
        r matches Ok(p) ==> policy_id(p) == default_json_id(),
{
    cedar_policy::Policy::from_json(None, value)
}

/// `Policy::id` as text.
#[verifier::external_body]
pub(crate) fn policy_id_text(policy: &cedar_policy::Policy) -> (r: &str)
    ensures
        r@ == policy_id(*policy),
{
    policy.id().as_ref()
}

/// `PolicySet::new`: a set that holds nothing.
#[verifier::external_body]
pub(crate) fn new_policy_set() -> (r: cedar_policy::PolicySet)
    ensures
        policy_set_ids(r) == Seq::<Seq<char>>::empty(),
        holds_static_only(r),
{
    cedar_policy::PolicySet::new()
}

/// `PolicySet::add` on a copy of `policy`. The outcome is the one named by
/// `add_outcome`. For a static policy and a set of static policies the
/// engine's source shows: the call fails exactly when the set holds a policy
/// of the same identifier; a failed call leaves the set as it was; a
/// successful call puts the policy behind those that the set held. The call
/// does not panic.
#[verifier::external_body]
pub(crate) fn policy_set_add(set: &mut cedar_policy::PolicySet, policy: &cedar_policy::Policy) -> (r:
    Result<(), cedar_policy::PolicySetError>)
    requires
        holds_static_only(*old(set)),
        policy_is_static(*policy),
    ensures
        r == add_outcome(*old(set), *policy),
        holds_static_only(*final(set)),
        r is Err <==> policy_set_ids(*old(set)).contains(policy_id(*policy)),
        r is Ok ==> policy_set_ids(*final(set)) == policy_set_ids(*old(set)).push(
            policy_id(*policy),
        ),
        r is Err ==> *final(set) == *old(set),
    no_unwind
{
    set.add(policy.clone())
}

/// `PolicySet::policies` counted: the number of policies in the set.
#[verifier::external_body]
pub(crate) fn policy_count(set: &cedar_policy::PolicySet) -> (r: usize)
    ensures
        r == policy_set_ids(*set).len(),
{
    set.policies().count()
}

/// `Authorizer::new`.
#[verifier::external_body]
pub(crate) fn new_authorizer() -> cedar_policy::Authorizer {
    cedar_policy::Authorizer::new()
}

/// `EntityUid::from_str`. The outcome is the one named by
/// `parsed_entity_uid`.
#[verifier::external_body]
pub(crate) fn parse_entity_uid(text: &str) -> (r: Result<
    cedar_policy::EntityUid,
    cedar_policy::ParseErrors,
>)
    ensures
        r == parsed_entity_uid(text@),
{
    <cedar_policy::EntityUid as std::str::FromStr>::from_str(text)
}

/// `Context::from_json_value` without a schema. Nothing is promised of the
/// outcome: the engine evaluates the attribute values and guards its
/// recursion by the stack that is left, so the outcome is not a matter of
/// the value alone.
#[verifier::external_body]
pub(crate) fn context_from_json(value: serde_json::Value) -> Result<
    cedar_policy::Context,
    cedar_policy::ContextJsonError,
> {
    cedar_policy::Context::from_json_value(value, None)
}

/// `Context::empty`: a context without attributes.
#[verifier::external_body]
pub(crate) fn empty_context() -> (r: cedar_policy::Context)
    ensures
        context_attributes(r) == Set::<Seq<char>>::empty(),
{
    cedar_policy::Context::empty()
}

/// `Entities::from_json_str` without a schema. Nothing is promised of the
/// outcome: the engine evaluates the attribute values and guards its
/// recursion by the stack that is left, so the outcome is not a matter of
/// the text alone.
#[verifier::external_body]
pub(crate) fn parse_entities(text: &str) -> Result<
    cedar_policy::Entities,
    cedar_policy::entities_errors::EntitiesError,
> {
    cedar_policy::Entities::from_json_str(text, None)
}

/// `Entities::empty`: an entity store without entities.
#[verifier::external_body]
pub(crate) fn empty_entities() -> (r: cedar_policy::Entities)
    ensures
        entity_uids(r) == Set::<Seq<char>>::empty(),
{
    cedar_policy::Entities::empty()
}

/// `Request::new` without a schema. The outcome is the one named by
/// `request_of`; the engine's source shows that without a schema nothing is
/// validated and the call succeeds.
#[verifier::external_body]
pub(crate) fn new_request(
    principal: cedar_policy::EntityUid,
    action: cedar_policy::EntityUid,
    resource: cedar_policy::EntityUid,
    context: cedar_policy::Context,
) -> (r: Result<cedar_policy::Request, cedar_policy::RequestValidationError>)
    ensures
        r == request_of(principal, action, resource, context),
        r is Ok,
{
    cedar_policy::Request::new(principal, action, resource, context, None)
}

/// `Authorizer::is_authorized`, with the response turned into plain values.
/// The engine guards its recursion by the stack that is left, so the
/// decision is not a matter of the arguments alone and has no name. Of every
/// response the engine's source shows: it allows only where a policy of the
/// set permits, and each reason is the identifier of a policy of the set.
/// The reasons come out of a hash set: no two are the same, and nothing is
/// said of their order. Nothing is said of the errors.
#[verifier::external_body]
pub(crate) fn authorize(
    authorizer: &cedar_policy::Authorizer,
    request: &cedar_policy::Request,
    set: &cedar_policy::PolicySet,
    entities: &cedar_policy::Entities,
) -> (r: Response)
    ensures
        r.permitted() ==> policy_set_ids(*set).len() > 0,
        drawn_from(r.reasons@, policy_set_ids(*set)),
        distinct(r.reasons@),
{
    let response = authorizer.is_authorized(request, set, entities);
    Response {
        decision: match response.decision() {
            cedar_policy::Decision::Allow => Decision::Allow,
            cedar_policy::Decision::Deny => Decision::Deny,
        },
        reasons: response.diagnostics().reason().map(|id| id.to_string()).collect(),
        errors: response.diagnostics().errors().map(|e| e.to_string()).collect(),
    }
}

} // verus!
