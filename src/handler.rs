//! The route handlers: which collaborator lookup each request asks for, and
//! how the lookup's outcome becomes a response.
use vstd::prelude::*;

use crate::config::{environment_of, Config};
use crate::text::{contains, str_contains};
use crate::reply::{
    Reply, ReplyModel, STATUS_BAD_GATEWAY, STATUS_BAD_REQUEST, STATUS_GATEWAY_TIMEOUT,
    STATUS_NOT_FOUND, STATUS_OK,
};

verus! {

pub const NOT_FOUND_TEXT: &'static str = "not found";

pub const UNAVAILABLE_TEXT: &'static str = "upstream RPC endpoint failed";

pub const TIMED_OUT_TEXT: &'static str = "upstream RPC endpoint timed out";

pub const INVALID_INPUT_TEXT: &'static str = "malformed request parameters";

/// Why the descriptor collaborator could not answer a lookup.
#[derive(Clone, Copy, Debug, PartialEq, Eq, Structural)]
pub enum FetchError {
    /// The account, schema or discriminator does not exist.
    NotFound,
    /// The RPC endpoint could not be reached or answered with an error.
    Unavailable,
    /// The RPC endpoint did not answer in time.
    TimedOut,
    /// The path parameters could not be read as a key or an identifier.
    InvalidInput,
}

/// A lookup that the descriptor collaborator is asked to perform.
#[derive(Clone, Debug, PartialEq, Eq)]
pub enum Lookup {
    AccountData { account_key: String, program_id: String, rpc_url: String },
    AccountSchema {
        account_key: String,
        program_id: String,
        with_start_index: bool,
        rpc_url: String,
    },
    DiscriminatorOffline { account_name: String, account_type: String },
    Discriminator { account_key: String, rpc_url: String },
}

/// What a lookup is: `Lookup` with its strings as sequences.
pub enum LookupModel {
    AccountData { account_key: Seq<char>, program_id: Seq<char>, rpc_url: Seq<char> },
    AccountSchema {
        account_key: Seq<char>,
        program_id: Seq<char>,
        with_start_index: bool,
        rpc_url: Seq<char>,
    },
    DiscriminatorOffline { account_name: Seq<char>, account_type: Seq<char> },
    Discriminator { account_key: Seq<char>, rpc_url: Seq<char> },
}

impl LookupModel {
    /// The RPC endpoint that the lookup contacts, if any.
    pub open spec fn endpoint(self) -> Option<Seq<char>> {
        match self {
            LookupModel::AccountData { rpc_url, .. } => Some(rpc_url),
            LookupModel::AccountSchema { rpc_url, .. } => Some(rpc_url),
            LookupModel::DiscriminatorOffline { .. } => None,
            LookupModel::Discriminator { rpc_url, .. } => Some(rpc_url),
        }
    }
}

impl View for Lookup {
    type V = LookupModel;

    open spec fn view(&self) -> LookupModel {
        match self {
            Lookup::AccountData { account_key, program_id, rpc_url } => LookupModel::AccountData {
                account_key: account_key@,
                program_id: program_id@,
                rpc_url: rpc_url@,
            },
            Lookup::AccountSchema { account_key, program_id, with_start_index, rpc_url } =>
                LookupModel::AccountSchema {
                account_key: account_key@,
                program_id: program_id@,
                with_start_index: *with_start_index,
                rpc_url: rpc_url@,
            },
            Lookup::DiscriminatorOffline { account_name, account_type } =>
                LookupModel::DiscriminatorOffline {
                account_name: account_name@,
                account_type: account_type@,
            },
            Lookup::Discriminator { account_key, rpc_url } => LookupModel::Discriminator {
                account_key: account_key@,
                rpc_url: rpc_url@,
            },
        }
    }
}

/// `GET /account/{account_key}/{program_id}/{rpc_env}`: the account's data,
/// read through the endpoint that `rpc_env` selects.
pub fn account_handler(config: &Config, account_key: String, program_id: String, rpc_env: String) -> (r: Lookup)
    ensures
        r@ == (LookupModel::AccountData {
            account_key: account_key@,
            program_id: program_id@,
            rpc_url: config.url_of(environment_of(rpc_env@)),
        }),
{
    let rpc_url = config.rpc_url(rpc_env.as_str()).to_owned();
    Lookup::AccountData { account_key, program_id, rpc_url }
}

/// `GET /account-schema/{account_key}/{program_id}/{rpc_env}`: the account's
/// schema, with the start index of the data included.
pub fn account_schema_handler(config: &Config, account_key: String, program_id: String, rpc_env: String) -> (r: Lookup)
    ensures
        r@ == (LookupModel::AccountSchema {
            account_key: account_key@,
            program_id: program_id@,
            with_start_index: true,
            rpc_url: config.url_of(environment_of(rpc_env@)),
        }),
{
    let rpc_url = config.rpc_url(rpc_env.as_str()).to_owned();
    Lookup::AccountSchema { account_key, program_id, with_start_index: true, rpc_url }
}

/// `GET /discriminator-offline/{account_name}/{account_type}`: computed
/// without any RPC endpoint, so no configuration is consulted.
pub fn discriminator_offline(account_name: String, account_type: String) -> (r: Lookup)
    ensures
        r@ == (LookupModel::DiscriminatorOffline {
            account_name: account_name@,
            account_type: account_type@,
        }),
        r@.endpoint() is None,
{
    Lookup::DiscriminatorOffline { account_name, account_type }
}

/// `GET /discriminator/{account_key}/{rpc_env}`: the discriminator of an
/// account, read through the endpoint that `rpc_env` selects.
pub fn discriminator(config: &Config, account_key: String, rpc_env: String) -> (r: Lookup)
    ensures
        r@ == (LookupModel::Discriminator {
            account_key: account_key@,
            rpc_url: config.url_of(environment_of(rpc_env@)),
        }),
{
    let rpc_url = config.rpc_url(rpc_env.as_str()).to_owned();
    Lookup::Discriminator { account_key, rpc_url }
}

/// `GET /health`: always `200` with an empty body.
pub fn health_handler() -> (r: Reply)
    ensures
        r@ == (ReplyModel::Empty { status: STATUS_OK }),
{
    Reply::Empty { status: STATUS_OK }
}

/// The status that answers a failed lookup.
pub open spec fn error_status(e: FetchError) -> u16 {
    match e {
        FetchError::NotFound => STATUS_NOT_FOUND,
        FetchError::Unavailable => STATUS_BAD_GATEWAY,
        FetchError::TimedOut => STATUS_GATEWAY_TIMEOUT,
        FetchError::InvalidInput => STATUS_BAD_REQUEST,
    }
}

/// The plain-text body that answers a failed lookup.
pub open spec fn error_text(e: FetchError) -> Seq<char> {
    match e {
        FetchError::NotFound => NOT_FOUND_TEXT@,
        FetchError::Unavailable => UNAVAILABLE_TEXT@,
        FetchError::TimedOut => TIMED_OUT_TEXT@,
        FetchError::InvalidInput => INVALID_INPUT_TEXT@,
    }
}

/// A collaborator's answer, serialized as the body of a response.
#[derive(Clone, Debug, PartialEq, Eq)]
pub struct Payload {
    pub content_type: String,
    pub body: Vec<u8>,
}

/// A lookup's outcome, with the payload's media type and bytes as sequences.
pub open spec fn outcome_view(outcome: Result<Payload, FetchError>) -> Result<
    (Seq<char>, Seq<u8>),
    FetchError,
> {
    match outcome {
        Ok(payload) => Ok((payload.content_type@, payload.body@)),
        Err(e) => Err(e),
    }
}

/// The response to a lookup's outcome: the serialized payload with `200`, or
/// the status and text of the failure.
pub open spec fn reply_of_fetch(outcome: Result<(Seq<char>, Seq<u8>), FetchError>) -> ReplyModel {
    match outcome {
        Ok((content_type, body)) => ReplyModel::Content { content_type, body },
        Err(e) => ReplyModel::Text { status: error_status(e), text: error_text(e) },
    }
}

/// Turns the outcome of a data-fetching lookup into the endpoint's response.
pub fn fetch_reply(outcome: Result<Payload, FetchError>) -> (r: Reply)
    ensures
        r@ == reply_of_fetch(outcome_view(outcome)),
{
    match outcome {
        Ok(payload) => Reply::Content { content_type: payload.content_type, body: payload.body },
        Err(e) => {
            let (status, text) = match e {
                FetchError::NotFound => (STATUS_NOT_FOUND, NOT_FOUND_TEXT),
                FetchError::Unavailable => (STATUS_BAD_GATEWAY, UNAVAILABLE_TEXT),
                FetchError::TimedOut => (STATUS_GATEWAY_TIMEOUT, TIMED_OUT_TEXT),
                FetchError::InvalidInput => (STATUS_BAD_REQUEST, INVALID_INPUT_TEXT),
            };
            Reply::Text { status, text: text.to_owned() }
        },
    }
}

/// Marks of a missing item in a collaborator's error message.
pub const NOT_FOUND_MARK: &'static str = "not found";

pub const ACCOUNT_NOT_FOUND_MARK: &'static str = "accountnotfound";

/// Marks of an endpoint that did not answer in time.
pub const TIMED_OUT_MARK: &'static str = "timed out";

pub const TIMEOUT_MARK: &'static str = "timeout";

/// Mark of parameters that could not be read.
pub const INVALID_MARK: &'static str = "invalid";

/// The lower-case form of a string, as Unicode defines it.
pub uninterp spec fn lower_of(s: Seq<char>) -> Seq<char>;

/// Relies on str::to_lowercase: the result depends on the characters alone.
#[verifier::external_body]
fn lowercase(s: &str) -> (r: String)
    ensures
        r@ == lower_of(s@),
{
    s.to_lowercase()
}

/// The kind of failure that a lower-case error message reports: a missing
/// item, then a timeout, then malformed input, and an unavailable endpoint
/// for anything else.
pub open spec fn error_kind(lower: Seq<char>) -> FetchError {
    if contains(lower, NOT_FOUND_MARK@) || contains(lower, ACCOUNT_NOT_FOUND_MARK@) {
        FetchError::NotFound
    } else if contains(lower, TIMED_OUT_MARK@) || contains(lower, TIMEOUT_MARK@) {
        FetchError::TimedOut
    } else if contains(lower, INVALID_MARK@) {
        FetchError::InvalidInput
    } else {
        FetchError::Unavailable
    }
}

/// Classifies a collaborator's error message that is already in lower case.
pub fn classify_lowercase(lower: &str) -> (r: FetchError)
    ensures
        r == error_kind(lower@),
{
    if str_contains(lower, NOT_FOUND_MARK) || str_contains(lower, ACCOUNT_NOT_FOUND_MARK) {
        FetchError::NotFound
    } else if str_contains(lower, TIMED_OUT_MARK) || str_contains(lower, TIMEOUT_MARK) {
        FetchError::TimedOut
    } else if str_contains(lower, INVALID_MARK) {
        FetchError::InvalidInput
    } else {
        FetchError::Unavailable
    }
}

/// Classifies a collaborator's error message, whatever its case.
pub fn classify_error(message: &str) -> (r: FetchError)
    ensures
        r == error_kind(lower_of(message@)),
{
    let lower = lowercase(message);
    classify_lowercase(lower.as_str())
}

/// Outcome law of the data-fetching endpoints: a payload comes back as the
/// body of a `200` response, and a missing item as a `404`.
pub proof fn lemma_fetch_outcomes(content_type: Seq<char>, payload: Seq<u8>)
    ensures
        reply_of_fetch(Ok((content_type, payload))).status() == STATUS_OK,
        reply_of_fetch(Ok((content_type, payload))).body() == payload,
        reply_of_fetch(Err(FetchError::NotFound)).status() == STATUS_NOT_FOUND,
{
}

} // verus!
