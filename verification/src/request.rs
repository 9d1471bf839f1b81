//! Assembly of an authorization request from plain text.
//!
//! Whether an identifier or a JSON text is well formed depends on the text
//! alone, so the failures for these are owed exactly. Whether the engine
//! takes a JSON value for a context, or a document for an entity store, is
//! for the engine to say at the time of the call: of these steps the
//! contracts fix what a refusal looks like, and what is assembled otherwise.

use crate::engine::{
    context_attributes, context_from_json, empty_context, empty_entities, entity_uids, new_request,
    parse_entities, parse_entity_uid, parsed_entity_uid, request_of,
};
use crate::error::CedarError;
use crate::json::{parse_json, parsed_json};
use crate::text::{joined, lemma_starts_with, starts_with, tells, told};
use vstd::prelude::*;

verus! {

/// The three identifiers of a request.
#[derive(Debug, Clone, Copy, PartialEq, Eq, Structural)]
pub enum RequestField {
    /// Who asks.
    Principal,
    /// What is asked for.
    Action,
    /// On what.
    Resource,
}

/// The faults that the text of the inputs decides, in the order in which the
/// inputs are looked at, each with what the engine or the reader reported.
pub enum RequestFault {
    /// The principal is no entity identifier.
    Principal(cedar_policy::ParseErrors),
    /// The action is no entity identifier.
    Action(cedar_policy::ParseErrors),
    /// The resource is no entity identifier.
    Resource(cedar_policy::ParseErrors),
    /// The context is not JSON.
    ContextSyntax(serde_json::Error),
}

/// The characters of an optional string slice.
pub open spec fn optional_text(s: Option<&str>) -> Option<Seq<char>> {
    match s {
        Some(t) => Some(t@),
        None => None,
    }
}

/// The words with which the message for a malformed identifier begins.
pub open spec fn field_prefix(field: RequestField) -> Seq<char> {
    match field {
        RequestField::Principal => "Invalid principal: "@,
        RequestField::Action => "Invalid action: "@,
        RequestField::Resource => "Invalid resource: "@,
    }
}

/// The words with which the message for a context that is not JSON begins.
pub open spec fn context_syntax_prefix() -> Seq<char> {
    "Invalid context JSON: "@
}

/// The words with which the message for a JSON value that the engine does
/// not take for a context begins.
pub open spec fn context_refusal_prefix() -> Seq<char> {
    "Failed to create context: "@
}

/// The words with which the message for a document that the engine does not
/// take for an entity store begins.
pub open spec fn entities_refusal_prefix() -> Seq<char> {
    "Failed to parse entities JSON: "@
}

/// The first fault that the text of the inputs decides, if there is one.
pub open spec fn fault_of(
    principal: Seq<char>,
    action: Seq<char>,
    resource: Seq<char>,
    context: Option<Seq<char>>,
) -> Option<RequestFault> {
    if parsed_entity_uid(principal) is Err {
        Some(RequestFault::Principal(parsed_entity_uid(principal)->Err_0))
    } else if parsed_entity_uid(action) is Err {
        Some(RequestFault::Action(parsed_entity_uid(action)->Err_0))
    } else if parsed_entity_uid(resource) is Err {
        Some(RequestFault::Resource(parsed_entity_uid(resource)->Err_0))
    } else if context is Some && parsed_json(context->0) is Err {
        Some(RequestFault::ContextSyntax(parsed_json(context->0)->Err_0))
    } else {
        None
    }
}

/// The failure that reports `fault`: a malformed identifier is a
/// `ParseError` that names the field, a context that is not JSON is a
/// `JsonError`; what was reported follows.
pub open spec fn reports(e: CedarError, fault: RequestFault) -> bool {
    match fault {
        RequestFault::Principal(cause) => e is ParseError && tells(
            e.detail(),
            field_prefix(RequestField::Principal),
            cause,
        ),
        RequestFault::Action(cause) => e is ParseError && tells(
            e.detail(),
            field_prefix(RequestField::Action),
            cause,
        ),
        RequestFault::Resource(cause) => e is ParseError && tells(
            e.detail(),
            field_prefix(RequestField::Resource),
            cause,
        ),
        RequestFault::ContextSyntax(cause) => e is JsonError && tells(
            e.detail(),
            context_syntax_prefix(),
            cause,
        ),
    }
}

/// The failure for a context that the engine refused: a `JsonError` with
/// what the engine reported.
pub open spec fn context_refused(e: CedarError) -> bool {
    e is JsonError && exists|cause: cedar_policy::ContextJsonError| #[trigger]
        tells(e.detail(), context_refusal_prefix(), cause)
}

/// The failure for an entities document that the engine refused: a
/// `JsonError` with what the engine reported.
pub open spec fn entities_refused(e: CedarError) -> bool {
    e is JsonError && exists|cause: cedar_policy::entities_errors::EntitiesError| #[trigger]
        tells(e.detail(), entities_refusal_prefix(), cause)
}

/// The failure for a document that the engine refused. Only a document that
/// was given can be refused.
pub open spec fn refused(e: CedarError, context_given: bool, entities_given: bool) -> bool {
    ||| context_given && context_refused(e)
    ||| entities_given && entities_refused(e)
}

/// A malformed identifier is reported as a `ParseError` whose message names
/// the first field that is malformed.
pub proof fn lemma_malformed_identifier_is_named(
    principal: Seq<char>,
    action: Seq<char>,
    resource: Seq<char>,
    context: Option<Seq<char>>,
    e: CedarError,
)
    requires
        parsed_entity_uid(principal) is Err || parsed_entity_uid(action) is Err
            || parsed_entity_uid(resource) is Err,
        fault_of(principal, action, resource, context) matches Some(fault) && reports(e, fault),
    ensures
        e is ParseError,
        parsed_entity_uid(principal) is Err ==> starts_with(
            e.detail(),
            field_prefix(RequestField::Principal),
        ),
        parsed_entity_uid(principal) is Ok && parsed_entity_uid(action) is Err ==> starts_with(
            e.detail(),
            field_prefix(RequestField::Action),
        ),
        parsed_entity_uid(principal) is Ok && parsed_entity_uid(action) is Ok ==> starts_with(
            e.detail(),
            field_prefix(RequestField::Resource),
        ),
{
}

/// Where the three identifiers are well formed, a context that is not JSON
/// is reported as a `JsonError`.
pub proof fn lemma_malformed_context_is_json_error(
    principal: Seq<char>,
    action: Seq<char>,
    resource: Seq<char>,
    context: Seq<char>,
    e: CedarError,
)
    requires
        parsed_entity_uid(principal) is Ok,
        parsed_entity_uid(action) is Ok,
        parsed_entity_uid(resource) is Ok,
        parsed_json(context) is Err,
        fault_of(principal, action, resource, Some(context)) matches Some(fault) && reports(
            e,
            fault,
        ),
    ensures
        e is JsonError,
        starts_with(e.detail(), context_syntax_prefix()),
{
}

/// A document that the engine refused is reported as a `JsonError`, and
/// without a document nothing is refused.
pub proof fn lemma_refused_is_json_error(e: CedarError, context_given: bool, entities_given: bool)
    requires
        refused(e, context_given, entities_given),
    ensures
        e is JsonError,
        context_given || entities_given,
        starts_with(e.detail(), context_refusal_prefix()) || starts_with(
            e.detail(),
            entities_refusal_prefix(),
        ),
{
}

/// Three identifiers that the engine parses, with no context or one that is
/// JSON, have no fault.
pub proof fn lemma_well_formed_has_no_fault(
    principal: Seq<char>,
    action: Seq<char>,
    resource: Seq<char>,
    context: Option<Seq<char>>,
)
    requires
        parsed_entity_uid(principal) is Ok,
        parsed_entity_uid(action) is Ok,
        parsed_entity_uid(resource) is Ok,
        context matches Some(text) ==> parsed_json(text) is Ok,
    ensures
        fault_of(principal, action, resource, context) is None,
{
}

/// `c` can be the context of a request made from `context`: where no text
/// is given, the context has no attributes.
pub open spec fn context_from(context: Option<Seq<char>>, c: cedar_policy::Context) -> bool {
    context is None ==> context_attributes(c) == Set::<Seq<char>>::empty()
}

/// `e` can be the entity store of a request made from `entities`: where no
/// text is given, the store has no entities.
pub open spec fn entities_from(entities: Option<Seq<char>>, e: cedar_policy::Entities) -> bool {
    entities is None ==> entity_uids(e) == Set::<Seq<char>>::empty()
}

/// `request` is the engine's request for the three identifiers, in this
/// order, and a context made from `context`.
pub open spec fn request_from(
    principal: Seq<char>,
    action: Seq<char>,
    resource: Seq<char>,
    context: Option<Seq<char>>,
    request: cedar_policy::Request,
) -> bool {
    exists|c: cedar_policy::Context|
        {
            &&& context_from(context, c)
            &&& parsed_entity_uid(principal) is Ok
            &&& parsed_entity_uid(action) is Ok
            &&& parsed_entity_uid(resource) is Ok
            &&& #[trigger] request_of(
                parsed_entity_uid(principal)->Ok_0,
                parsed_entity_uid(action)->Ok_0,
                parsed_entity_uid(resource)->Ok_0,
                c,
            ) == Ok::<cedar_policy::Request, cedar_policy::RequestValidationError>(request)
        }
}

/// What the engine needs to answer one request: the request itself and the
/// entity store to consult.
pub struct AuthorizationInput {
    request: cedar_policy::Request,
    entities: cedar_policy::Entities,
}

impl AuthorizationInput {
    /// The request as the engine holds it.
    pub closed spec fn request(self) -> cedar_policy::Request {
        self.request
    }

    /// The entity store as the engine holds it.
    pub closed spec fn entities(self) -> cedar_policy::Entities {
        self.entities
    }

    /// The request as the engine holds it.
    pub(crate) fn as_request(&self) -> (r: &cedar_policy::Request)
        ensures
            *r == self.request(),
    {
        &self.request
    }

    /// The entity store as the engine holds it.
    pub(crate) fn as_entities(&self) -> (r: &cedar_policy::Entities)
        ensures
            *r == self.entities(),
    {
        &self.entities
    }
}

/// `input` is what the five inputs of a request assemble to.
pub open spec fn assembles(
    principal: Seq<char>,
    action: Seq<char>,
    resource: Seq<char>,
    context: Option<Seq<char>>,
    entities: Option<Seq<char>>,
    input: AuthorizationInput,
) -> bool {
    &&& request_from(principal, action, resource, context, input.request())
    &&& entities_from(entities, input.entities())
}

/// The failure for a malformed identifier: a `ParseError` that names the
/// field and gives the cause.
pub fn invalid_field(field: RequestField, cause: &str) -> (r: CedarError)
    ensures
        r is ParseError,
        r.detail() == field_prefix(field) + cause@,
{
    let label = match field {
        RequestField::Principal => "Invalid principal: ",
        RequestField::Action => "Invalid action: ",
        RequestField::Resource => "Invalid resource: ",
    };
    CedarError::ParseError(joined(label, cause))
}

/// What becomes of the engine's answer to a JSON value that is to be a
/// context: a context is handed on, a refusal becomes a `JsonError` with
/// what the engine reported.
pub fn context_outcome(made: Result<cedar_policy::Context, cedar_policy::ContextJsonError>) -> (r:
    Result<cedar_policy::Context, CedarError>)
    ensures
        match made {
            Ok(c) => r matches Ok(out) && out == c,
            Err(cause) => r matches Err(e) && e is JsonError && tells(
                e.detail(),
                context_refusal_prefix(),
                cause,
            ),
        },
{
    match made {
        Ok(c) => Ok(c),
        Err(cause) => Err(CedarError::JsonError(told("Failed to create context: ", &cause))),
    }
}

/// What becomes of the engine's answer to a document that is to be an
/// entity store: a store is handed on, a refusal becomes a `JsonError` with
/// what the engine reported.
pub fn entities_outcome(
    made: Result<cedar_policy::Entities, cedar_policy::entities_errors::EntitiesError>,
) -> (r: Result<cedar_policy::Entities, CedarError>)
    ensures
        match made {
            Ok(store) => r matches Ok(out) && out == store,
            Err(cause) => r matches Err(e) && e is JsonError && tells(
                e.detail(),
                entities_refusal_prefix(),
                cause,
            ),
        },
{
    match made {
        Ok(store) => Ok(store),
        Err(cause) => Err(CedarError::JsonError(told("Failed to parse entities JSON: ", &cause))),
    }
}

/// Parses one of the three identifiers of a request.
fn entity_uid_for(field: RequestField, text: &str) -> (r: Result<cedar_policy::EntityUid, CedarError>)
    ensures
        match r {
            Ok(uid) => parsed_entity_uid(text@) == Ok::<
                cedar_policy::EntityUid,
                cedar_policy::ParseErrors,
            >(uid),
            Err(e) => {
                &&& parsed_entity_uid(text@) matches Err(cause)
                &&& e is ParseError
                &&& tells(e.detail(), field_prefix(field), cause)
            },
        },
{
    match parse_entity_uid(text) {
        Ok(uid) => Ok(uid),
        Err(e) => {
            let cause = e.to_string();
            proof {
                lemma_starts_with(field_prefix(field), cause@);
            }
            Err(invalid_field(field, cause.as_str()))
        },
    }
}

/// Makes the context of a request: from JSON text, or without attributes
/// where no text is given.
fn context_for(context_json: Option<&str>) -> (r: Result<cedar_policy::Context, CedarError>)
    ensures
        match context_json {
            Some(text) => match parsed_json(text@) {
                Ok(_) => r matches Err(e) ==> context_refused(e),
                Err(cause) => r matches Err(e) && reports(e, RequestFault::ContextSyntax(cause)),
            },
            None => r matches Ok(c) && context_from(None, c),
        },
{
    match context_json {
        Some(text) => match parse_json(text) {
            Ok(value) => context_outcome(context_from_json(value)),
            Err(e) => Err(CedarError::JsonError(told("Invalid context JSON: ", &e))),
        },
        None => Ok(empty_context()),
    }
}

/// Makes the entity store of a request: from JSON text, or without entities
/// where no text is given.
fn entities_for(entities_json: Option<&str>) -> (r: Result<cedar_policy::Entities, CedarError>)
    ensures
        match entities_json {
            Some(_) => r matches Err(e) ==> entities_refused(e),
            None => r matches Ok(store) && entities_from(None, store),
        },
{
    match entities_json {
        Some(text) => entities_outcome(parse_entities(text)),
        None => Ok(empty_entities()),
    }
}

/// Assembles what the engine needs to answer a request.
///
/// The three identifiers are parsed in turn, then the context, then the
/// entities. The first input that is malformed decides the failure, and
/// nothing is assembled then. A context or an entities document that the
/// engine refuses is a failure too. Otherwise the assembly succeeds, as it
/// always does for well-formed identifiers without context and entities:
/// the request is the engine's request for the three identifiers and the
/// context.
pub fn build_request(
    principal: &str,
    action: &str,
    resource: &str,
    context_json: Option<&str>,
    entities_json: Option<&str>,
) -> (r: Result<AuthorizationInput, CedarError>)
    ensures
        match fault_of(principal@, action@, resource@, optional_text(context_json)) {
            Some(fault) => r matches Err(e) && reports(e, fault),
            None => match r {
                Ok(input) => assembles(
                    principal@,
                    action@,
                    resource@,
                    optional_text(context_json),
                    optional_text(entities_json),
                    input,
                ),
                Err(e) => refused(e, context_json is Some, entities_json is Some),
            },
        },
{
    let principal_uid = match entity_uid_for(RequestField::Principal, principal) {
        Ok(uid) => uid,
        Err(e) => {
            return Err(e);
        },
    };
    let action_uid = match entity_uid_for(RequestField::Action, action) {
        Ok(uid) => uid,
        Err(e) => {
            return Err(e);
        },
    };
    let resource_uid = match entity_uid_for(RequestField::Resource, resource) {
        Ok(uid) => uid,
        Err(e) => {
            return Err(e);
        },
    };
    let context = match context_for(context_json) {
        Ok(c) => c,
        Err(e) => {
            return Err(e);
        },
    };
    let entities = match entities_for(entities_json) {
        Ok(store) => store,
        Err(e) => {
            return Err(e);
        },
    };
    // Without a schema the engine validates nothing, so it does not refuse.
    match new_request(principal_uid, action_uid, resource_uid, context) {
        Ok(request) => Ok(AuthorizationInput { request, entities }),
        Err(e) => Err(CedarError::ParseError(told("Failed to create request: ", &e))),
    }
}

} // verus!
