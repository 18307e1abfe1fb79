//! Serving the interactive API documentation under `/swagger-ui`.
use vstd::prelude::*;

use crate::reply::{Reply, ReplyModel, STATUS_INTERNAL_ERROR, STATUS_NOT_FOUND};
use crate::text::str_equals;

verus! {

/// Where the OpenAPI document is served; the documentation UI loads it.
pub const API_DOC_PATH: &'static str = "/api-doc.json";

/// The documentation UI's path without its trailing separator.
pub const SWAGGER_UI_PATH: &'static str = "/swagger-ui";

/// The canonical path of the documentation UI.
pub const SWAGGER_UI_ROOT: &'static str = "/swagger-ui/";

/// A static file of the documentation UI.
#[derive(Clone, Debug, PartialEq, Eq)]
pub struct Asset {
    pub content_type: String,
    pub bytes: Vec<u8>,
}

/// The one file of the documentation UI that is rewritten when served.
pub const SWAGGER_INITIALIZER: &'static str = "swagger-initializer.js";

/// Relies on utoipa_swagger_ui::serve: looks up the bundled Swagger UI file at
/// `path` (the index page for an empty path), rewriting the initializer script
/// to load the OpenAPI document at `doc_url`; only that rewrite can fail.
#[verifier::external_body]
fn lookup_swagger_ui_file(path: &str, doc_url: &str) -> (r: Result<Option<Asset>, String>)
    ensures
        r is Err ==> path@ == SWAGGER_INITIALIZER@,
{
    let config = std::sync::Arc::new(utoipa_swagger_ui::Config::from(doc_url));
    match utoipa_swagger_ui::serve(path, config) {
        Ok(Some(file)) => Ok(Some(Asset { content_type: file.content_type, bytes: file.bytes.into_owned() })),
        Ok(None) => Ok(None),
        Err(error) => Err(error.to_string()),
    }
}

/// A file lookup's result as sequences.
pub open spec fn lookup_view(found: Result<Option<Asset>, String>) -> Result<
    Option<(Seq<char>, Seq<u8>)>,
    Seq<char>,
> {
    match found {
        Ok(Some(a)) => Ok(Some((a.content_type@, a.bytes@))),
        Ok(None) => Ok(None),
        Err(message) => Err(message@),
    }
}

/// The response to a file lookup: the file with `200`, `404` where there is
/// none, and `500` with the message where the lookup failed.
pub open spec fn reply_of_lookup(found: Result<Option<(Seq<char>, Seq<u8>)>, Seq<char>>) -> ReplyModel {
    match found {
        Ok(Some((content_type, body))) => ReplyModel::Content { content_type, body },
        Ok(None) => ReplyModel::Empty { status: STATUS_NOT_FOUND },
        Err(message) => ReplyModel::Text { status: STATUS_INTERNAL_ERROR, text: message },
    }
}

/// Whether `reply` can answer a request for the UI file at `tail`: a file, a
/// `404`, or a `500` for the initializer script alone.
pub open spec fn is_file_reply(reply: ReplyModel, tail: Seq<char>) -> bool {
    match reply {
        ReplyModel::Content { .. } => true,
        ReplyModel::Empty { status } => status == STATUS_NOT_FOUND,
        ReplyModel::Text { status, .. } => status == STATUS_INTERNAL_ERROR && tail
            == SWAGGER_INITIALIZER@,
        ReplyModel::Redirect { .. } => false,
    }
}

/// Whether `reply` answers a request under `/swagger-ui`: the bare path is
/// redirected to the canonical one, any other is answered with the file at
/// the tail path.
pub open spec fn is_swagger_reply(full_path: Seq<char>, tail: Seq<char>, reply: ReplyModel) -> bool {
    if full_path == SWAGGER_UI_PATH@ {
        reply == (ReplyModel::Redirect { location: SWAGGER_UI_ROOT@ })
    } else {
        is_file_reply(reply, tail)
    }
}

/// Turns a file lookup's result into a response.
pub fn asset_reply(found: Result<Option<Asset>, String>) -> (r: Reply)
    ensures
        r@ == reply_of_lookup(lookup_view(found)),
{
    match found {
        Ok(Some(asset)) => Reply::Content { content_type: asset.content_type, body: asset.bytes },
        Ok(None) => Reply::Empty { status: STATUS_NOT_FOUND },
        Err(message) => Reply::Text { status: STATUS_INTERNAL_ERROR, text: message },
    }
}

/// The UI file that a request under `/swagger-ui` asks for: none for the bare
/// path, which is redirected instead, else the file at the tail path.
pub fn swagger_lookup_path(full_path: &str, tail: &str) -> (r: Option<String>)
    ensures
        (full_path@ == SWAGGER_UI_PATH@) == (r is None),
        r matches Some(p) ==> p@ == tail@,
{
    if str_equals(full_path, SWAGGER_UI_PATH) {
        None
    } else {
        Some(tail.to_owned())
    }
}

/// Answers a request for the UI file at `path`, with the UI loading the
/// OpenAPI document at `doc_url`: the outcome of looking that file up.
pub fn serve_asset(path: &str, doc_url: &str) -> (r: Reply)
    ensures
        is_file_reply(r@, path@),
{
    asset_reply(lookup_swagger_ui_file(path, doc_url))
}

/// Answers a request under `/swagger-ui`, given its full path and the tail
/// below the UI's root, with the UI loading the OpenAPI document at `doc_url`.
pub fn serve_swagger(full_path: &str, tail: &str, doc_url: &str) -> (r: Reply)
    ensures
        is_swagger_reply(full_path@, tail@, r@),
{
    match swagger_lookup_path(full_path, tail) {
        None => Reply::Redirect { location: SWAGGER_UI_ROOT.to_owned() },
        Some(file) => serve_asset(file.as_str(), doc_url),
    }
}

/// Redirect law: the bare UI path is redirected to `/swagger-ui/`, whatever
/// the tail.
pub proof fn lemma_bare_ui_path_redirects(tail: Seq<char>, reply: ReplyModel)
    requires
        is_swagger_reply(SWAGGER_UI_PATH@, tail, reply),
    ensures
        reply == (ReplyModel::Redirect { location: SWAGGER_UI_ROOT@ }),
        reply.status() == crate::reply::STATUS_FOUND,
{
}

/// Missing-asset law: a tail path with no file behind it is answered with
/// `404`.
pub proof fn lemma_unknown_asset_not_found()
    ensures
        reply_of_lookup(Ok(None)).status() == STATUS_NOT_FOUND,
{
}

} // verus!
