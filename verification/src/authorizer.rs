//! Authorization queries against a policy set.

use crate::engine::{authorize, new_authorizer};
use crate::error::CedarError;
use crate::policy_set::CedarPolicySet;
use crate::request::{build_request, fault_of, optional_text, refused, reports, AuthorizationInput};
use crate::response::{distinct, drawn_from, Response};
use vstd::prelude::*;

verus! {

/// Answers authorization requests. It keeps no state between calls and can
/// be used for any number of them.
pub struct CedarAuthorizer {
    authorizer: cedar_policy::Authorizer,
}

impl CedarAuthorizer {
    /// A new authorizer.
    pub fn new() -> (r: Self) {
        CedarAuthorizer { authorizer: new_authorizer() }
    }

    /// Asks the engine about an assembled request.
    ///
    /// The decision is the engine's. It allows only where the set holds a
    /// policy. Every reason is the identifier of a policy of the set, and
    /// none comes twice.
    pub fn evaluate(&self, policy_set: &CedarPolicySet, input: &AuthorizationInput) -> (r: Response)
        ensures
            r.permitted() ==> policy_set@.len() > 0,
            drawn_from(r.reasons@, policy_set@),
            distinct(r.reasons@),
    {
        proof {
            policy_set.lemma_view();
        }
        authorize(&self.authorizer, input.as_request(), policy_set.as_engine(), input.as_entities())
    }

    /// Decides whether a request is permitted.
    ///
    /// Fails with the failure for the first malformed input, or where the
    /// engine refuses the context or the entities. Otherwise the engine is
    /// asked about the assembled request, and the answer is `true` exactly
    /// when its decision is to allow; under a set without policies the
    /// answer is `false`.
    pub fn is_authorized(
        &self,
        policy_set: &CedarPolicySet,
        principal: &str,
        action: &str,
        resource: &str,
        context_json: Option<&str>,
        entities_json: Option<&str>,
    ) -> (r: Result<bool, CedarError>)
        ensures
            match fault_of(principal@, action@, resource@, optional_text(context_json)) {
                Some(fault) => r matches Err(e) && reports(e, fault),
                None => match r {
                    Ok(allowed) => allowed ==> policy_set@.len() > 0,
                    Err(e) => refused(e, context_json is Some, entities_json is Some),
                },
            },
    {
        let input = match build_request(principal, action, resource, context_json, entities_json) {
            Ok(input) => input,
            Err(e) => {
                return Err(e);
            },
        };
        let response = self.evaluate(policy_set, &input);
        Ok(response.allowed())
    }

    /// Decides whether a request is permitted, and says why.
    ///
    /// Fails as `is_authorized` does. Otherwise the answer holds the
    /// decision, the identifiers of the policies that determined it, each of
    /// them a policy of the set, and the messages for the policies that could
    /// not be evaluated.
    pub fn is_authorized_detailed(
        &self,
        policy_set: &CedarPolicySet,
        principal: &str,
        action: &str,
        resource: &str,
        context_json: Option<&str>,
        entities_json: Option<&str>,
    ) -> (r: Result<(bool, Vec<String>, Vec<String>), CedarError>)
        ensures
            match fault_of(principal@, action@, resource@, optional_text(context_json)) {
                Some(fault) => r matches Err(e) && reports(e, fault),
                None => match r {
                    Ok((allowed, reasons, errors)) => {
                        &&& allowed ==> policy_set@.len() > 0
                        &&& drawn_from(reasons@, policy_set@)
                        &&& distinct(reasons@)
                    },
                    Err(e) => refused(e, context_json is Some, entities_json is Some),
                },
            },
    {
        let input = match build_request(principal, action, resource, context_json, entities_json) {
            Ok(input) => input,
            Err(e) => {
                return Err(e);
            },
        };
        Ok(self.evaluate(policy_set, &input).into_parts())
    }
}

} // verus!
