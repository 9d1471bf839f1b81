//! Policies and their ingestion from JSON or from policy text.

use crate::annotation::{
    annotation_text, declares_at, extract_policy_id_from_cedar_source, extracted_id,
    lemma_declared_id_of_annotation,
};
use crate::engine::{
    accepted_policy_id, default_json_id, default_text_id, parse_policy, parsed_policy, policy_from_json,
    policy_id, policy_id_text, policy_is_static, policy_of_json,
};
use crate::error::CedarError;
use crate::json::{parse_json, parsed_json};
use crate::text::{
    all_spaces, chars_of, is_space, lemma_skip_spaces_run, skip_spaces, skip_spaces_from, tells, told,
};
use vstd::prelude::*;
use vstd::string::StrSliceExecFns;

verus! {

/// The two forms in which a policy can be handed in.
#[derive(Debug, Clone, Copy, PartialEq, Eq, Structural)]
pub enum PolicyFormat {
    /// A JSON document.
    Structured,
    /// Text in the policy language.
    Textual,
}

/// An input counts as a JSON document when the first character after any
/// leading white space is an opening brace.
pub open spec fn is_structured(input: Seq<char>) -> bool {
    skip_spaces(input, 0) < input.len() && input[skip_spaces(input, 0)] == '{'
}

/// The input without its leading white space.
pub open spec fn trimmed(input: Seq<char>) -> Seq<char> {
    input.subrange(skip_spaces(input, 0), input.len() as int)
}

/// The form of `input`.
pub open spec fn format_of(input: Seq<char>) -> PolicyFormat {
    if is_structured(input) {
        PolicyFormat::Structured
    } else {
        PolicyFormat::Textual
    }
}

/// White space in front of a JSON document changes neither its form nor the
/// text that is read as JSON.
pub proof fn lemma_structured_after_spaces(spaces: Seq<char>, document: Seq<char>)
    requires
        all_spaces(spaces),
        document.len() > 0,
        document[0] == '{',
    ensures
        format_of(spaces + document) == PolicyFormat::Structured,
        trimmed(spaces + document) == document,
{
    let input = spaces + document;
    assert forall|k: int| 0 <= k < spaces.len() implies is_space(#[trigger] input[k]) by {
        assert(input[k] == spaces[k]);
    }
    assert(input[spaces.len() as int] == document[0]);
    lemma_skip_spaces_run(input, 0, spaces.len() as int);
    assert(input.subrange(spaces.len() as int, input.len() as int) =~= document);
}

/// Decides once, from the first character behind the leading white space,
/// in which form a policy was handed in.
pub fn detect_format(input: &str) -> (r: PolicyFormat)
    ensures
        r == format_of(input@),
{
    let chars = chars_of(input);
    let start: usize = skip_spaces_from(&chars, 0);
    if start < chars.len() && chars[start] == '{' {
        PolicyFormat::Structured
    } else {
        PolicyFormat::Textual
    }
}

/// Drops the leading white space of `input`.
pub fn trim_start(input: &str) -> (r: &str)
    ensures
        r@ == trimmed(input@),
{
    let chars = chars_of(input);
    let start: usize = skip_spaces_from(&chars, 0);
    input.substring_char(start, chars.len())
}

/// The ways in which ingestion fails, each with what the reader or the
/// engine reported.
pub enum IngestFault {
    /// The input has the form of a JSON document and is not JSON.
    JsonSyntax(serde_json::Error),
    /// The input is JSON and the engine does not take it for a policy.
    JsonShape(cedar_policy::PolicyFromJsonError),
    /// The input is policy text and the engine cannot parse it.
    Text(cedar_policy::ParseErrors),
}

/// The words with which the message of a failed ingestion begins.
pub open spec fn fault_prefix(fault: IngestFault) -> Seq<char> {
    match fault {
        IngestFault::JsonSyntax(_) => "Failed to parse policy JSON: "@,
        IngestFault::JsonShape(_) => "Failed to create policy from JSON: "@,
        IngestFault::Text(_) => "Failed to parse Cedar policy: "@,
    }
}

/// The failure that reports `fault`: a `ParseError` whose message is the
/// words for the step that failed, followed by what was reported.
pub open spec fn explains(e: CedarError, fault: IngestFault) -> bool {
    &&& e is ParseError
    &&& match fault {
        IngestFault::JsonSyntax(cause) => tells(e.detail(), fault_prefix(fault), cause),
        IngestFault::JsonShape(cause) => tells(e.detail(), fault_prefix(fault), cause),
        IngestFault::Text(cause) => tells(e.detail(), fault_prefix(fault), cause),
    }
}

/// What ingestion makes of `input`: the policy that the engine builds, or
/// the way in which it fails.
///
/// A JSON document is read without its leading white space and handed to
/// the engine without an identifier. Policy text is handed to the engine as
/// it is, with the identifier that it asks for.
pub open spec fn ingested(input: Seq<char>) -> Result<cedar_policy::Policy, IngestFault> {
    if is_structured(input) {
        match parsed_json(trimmed(input)) {
            Ok(value) => match policy_of_json(value) {
                Ok(policy) => Ok(policy),
                Err(cause) => Err(IngestFault::JsonShape(cause)),
            },
            Err(cause) => Err(IngestFault::JsonSyntax(cause)),
        }
    } else {
        match parsed_policy(extracted_id(input), input) {
            Ok(policy) => Ok(policy),
            Err(cause) => Err(IngestFault::Text(cause)),
        }
    }
}

/// The identifier of the policy that ingestion makes of `input`: the one
/// that policy text asks for, and otherwise the one that the engine assigns.
pub open spec fn expected_id(input: Seq<char>) -> Seq<char> {
    if is_structured(input) {
        default_json_id()
    } else {
        match extracted_id(input) {
            Some(id) => id,
            None => default_text_id(),
        }
    }
}

/// Policy text with a well-formed annotation `@id("x")` gets the identifier
/// `x` if the engine accepts `x` as one, unless an annotation with another
/// name begins before it.
pub proof fn lemma_annotated_text_id(
    pre: Seq<char>,
    w1: Seq<char>,
    w2: Seq<char>,
    x: Seq<char>,
    w3: Seq<char>,
    post: Seq<char>,
)
    requires
        forall|k: int|
            0 <= k < pre.len() ==> declares_at(
                pre + annotation_text(w1, w2, x, w3) + post,
                k,
                x,
            ),
        all_spaces(w1),
        all_spaces(w2),
        all_spaces(w3),
        x.len() > 0,
        forall|k: int| 0 <= k < x.len() ==> x[k] != '"',
        accepted_policy_id(x),
        !is_structured(pre + annotation_text(w1, w2, x, w3) + post),
    ensures
        expected_id(pre + annotation_text(w1, w2, x, w3) + post) == x,
{
    lemma_declared_id_of_annotation(pre, w1, w2, x, w3, post);
}

/// Policy text that asks for no identifier, because it declares none or
/// because the engine does not accept the name, gets the one that the engine
/// assigns, which is not empty.
pub proof fn lemma_plain_text_id(input: Seq<char>)
    requires
        !is_structured(input),
        extracted_id(input) is None,
    ensures
        expected_id(input) == default_text_id(),
        expected_id(input).len() > 0,
{
    reveal_strlit("policy0");
}

/// A JSON document gets the identifier that the engine assigns, which is not
/// empty.
pub proof fn lemma_structured_id(input: Seq<char>)
    requires
        is_structured(input),
    ensures
        expected_id(input) == default_json_id(),
        expected_id(input).len() > 0,
{
    reveal_strlit("JSON policy");
}

/// An immutable policy: an identifier and a body that only the engine reads.
pub struct CedarPolicy {
    policy: cedar_policy::Policy,
}

impl View for CedarPolicy {
    type V = Seq<char>;

    /// A policy is known by its identifier.
    closed spec fn view(&self) -> Seq<char> {
        policy_id(self.policy)
    }
}

impl CedarPolicy {
    /// Every policy of the library is static: none is linked from a
    /// template.
    #[verifier::type_invariant]
    spec fn is_static(self) -> bool {
        policy_is_static(self.policy)
    }

    /// The policy as the engine holds it.
    pub closed spec fn engine(self) -> cedar_policy::Policy {
        self.policy
    }

    /// The view of a policy is the identifier of the engine's policy.
    pub proof fn lemma_view(self)
        ensures
            self@ == policy_id(self.engine()),
    {
    }

    /// Ingests a policy from a JSON document or from policy text.
    ///
    /// Succeeds exactly when the reader and the engine accept the input. The
    /// policy then is the one that the engine built, and its identifier is
    /// `expected_id`. Every failure is a `ParseError` whose message is the
    /// words for the step that failed, followed by what was reported.
    pub fn new(policy_str: &str) -> (r: Result<CedarPolicy, CedarError>)
        ensures
            match r {
                Ok(policy) => {
                    &&& ingested(policy_str@) == Ok::<cedar_policy::Policy, IngestFault>(
                        policy.engine(),
                    )
                    &&& policy@ == expected_id(policy_str@)
                },
                Err(e) => ingested(policy_str@) matches Err(fault) && explains(e, fault),
            },
    {
        match detect_format(policy_str) {
            PolicyFormat::Structured => Self::from_json_text(trim_start(policy_str)),
            PolicyFormat::Textual => Self::from_policy_text(policy_str),
        }
    }

    /// Ingests a JSON document, which is handed to the engine without an
    /// identifier.
    fn from_json_text(document: &str) -> (r: Result<CedarPolicy, CedarError>)
        ensures
            match r {
                Ok(policy) => {
                    &&& parsed_json(document@) matches Ok(value)
                    &&& policy_of_json(value) == Ok::<
                        cedar_policy::Policy,
                        cedar_policy::PolicyFromJsonError,
                    >(policy.engine())
                    &&& policy@ == default_json_id()
                },
                Err(e) => match parsed_json(document@) {
                    Ok(value) => policy_of_json(value) matches Err(cause) && explains(
                        e,
                        IngestFault::JsonShape(cause),
                    ),
                    Err(cause) => explains(e, IngestFault::JsonSyntax(cause)),
                },
            },
    {
        match parse_json(document) {
            Ok(value) => match policy_from_json(value) {
                Ok(policy) => Ok(CedarPolicy { policy }),
                Err(e) => Err(
                    CedarError::ParseError(told("Failed to create policy from JSON: ", &e)),
                ),
            },
            Err(e) => Err(CedarError::ParseError(told("Failed to parse policy JSON: ", &e))),
        }
    }

    /// Ingests policy text, which is handed to the engine with the
    /// identifier that it asks for.
    fn from_policy_text(source: &str) -> (r: Result<CedarPolicy, CedarError>)
        ensures
            match r {
                Ok(policy) => {
                    &&& parsed_policy(extracted_id(source@), source@) == Ok::<
                        cedar_policy::Policy,
                        cedar_policy::ParseErrors,
                    >(policy.engine())
                    &&& policy@ == match extracted_id(source@) {
                        Some(id) => id,
                        None => default_text_id(),
                    }
                },
                Err(e) => parsed_policy(extracted_id(source@), source@) matches Err(cause)
                    && explains(e, IngestFault::Text(cause)),
            },
    {
        let id = extract_policy_id_from_cedar_source(source);
        match parse_policy(id, source) {
            Ok(policy) => Ok(CedarPolicy { policy }),
            Err(e) => Err(CedarError::ParseError(told("Failed to parse Cedar policy: ", &e))),
        }
    }

    /// The policy as the engine holds it.
    pub(crate) fn as_engine(&self) -> (r: &cedar_policy::Policy)
        ensures
            *r == self.engine(),
            policy_is_static(*r),
    {
        proof {
            use_type_invariant(self);
        }
        &self.policy
    }

    /// The identifier of the policy.
    pub fn id(&self) -> (r: &str)
        ensures
            r@ == self@,
    {
        policy_id_text(&self.policy)
    }
}

} // verus!
