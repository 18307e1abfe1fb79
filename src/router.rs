//! Matching request paths to the gateway's endpoints, and the step that
//! answers each request.
use vstd::prelude::*;

use crate::config::{environment_of, Config};
use crate::handler::{
    account_handler, account_schema_handler, discriminator, discriminator_offline,
    health_handler, Lookup, LookupModel,
};
use crate::reply::{Reply, ReplyModel, STATUS_NOT_FOUND, STATUS_OK};
use crate::swagger::{swagger_lookup_path, SWAGGER_UI_PATH, SWAGGER_UI_ROOT};
use crate::text::{split_at_slashes, split_slash, str_equals, views};

verus! {

pub const HEALTH_SEGMENT: &'static str = "health";

pub const ACCOUNT_SEGMENT: &'static str = "account";

pub const ACCOUNT_SCHEMA_SEGMENT: &'static str = "account-schema";

pub const DISCRIMINATOR_OFFLINE_SEGMENT: &'static str = "discriminator-offline";

pub const DISCRIMINATOR_SEGMENT: &'static str = "discriminator";

pub const API_DOC_SEGMENT: &'static str = "api-doc.json";

pub const SWAGGER_UI_SEGMENT: &'static str = "swagger-ui";

/// The endpoint that a path names, with its path parameters.
#[derive(Clone, Debug, PartialEq, Eq)]
pub enum Route {
    Health,
    Account { account_key: String, program_id: String, rpc_env: String },
    AccountSchema { account_key: String, program_id: String, rpc_env: String },
    DiscriminatorOffline { account_name: String, account_type: String },
    Discriminator { account_key: String, rpc_env: String },
    ApiDoc,
    SwaggerUi,
    Unknown,
}

/// What a route is: `Route` with its parameters as sequences.
pub enum RouteModel {
    Health,
    Account { account_key: Seq<char>, program_id: Seq<char>, rpc_env: Seq<char> },
    AccountSchema { account_key: Seq<char>, program_id: Seq<char>, rpc_env: Seq<char> },
    DiscriminatorOffline { account_name: Seq<char>, account_type: Seq<char> },
    Discriminator { account_key: Seq<char>, rpc_env: Seq<char> },
    ApiDoc,
    SwaggerUi,
    Unknown,
}

impl View for Route {
    type V = RouteModel;

    open spec fn view(&self) -> RouteModel {
        match self {
            Route::Health => RouteModel::Health,
            Route::Account { account_key, program_id, rpc_env } => RouteModel::Account {
                account_key: account_key@,
                program_id: program_id@,
                rpc_env: rpc_env@,
            },
            Route::AccountSchema { account_key, program_id, rpc_env } =>
                RouteModel::AccountSchema {
                account_key: account_key@,
                program_id: program_id@,
                rpc_env: rpc_env@,
            },
            Route::DiscriminatorOffline { account_name, account_type } =>
                RouteModel::DiscriminatorOffline {
                account_name: account_name@,
                account_type: account_type@,
            },
            Route::Discriminator { account_key, rpc_env } => RouteModel::Discriminator {
                account_key: account_key@,
                rpc_env: rpc_env@,
            },
            Route::ApiDoc => RouteModel::ApiDoc,
            Route::SwaggerUi => RouteModel::SwaggerUi,
            Route::Unknown => RouteModel::Unknown,
        }
    }
}

/// The path without its leading `/`.
pub open spec fn relative(path: Seq<char>) -> Seq<char> {
    if path.len() > 0 && path[0] == '/' {
        path.drop_first()
    } else {
        path
    }
}

/// The segments of a path.
pub open spec fn segments_of(path: Seq<char>) -> Seq<Seq<char>> {
    split_slash(relative(path))
}

/// Whether the segments from `from` on are all non-empty: a path parameter
/// never matches an empty segment.
pub open spec fn params_present(segs: Seq<Seq<char>>, from: int) -> bool {
    forall|i: int| from <= i < segs.len() ==> segs[i].len() > 0
}

/// The route of a path: one of the fixed patterns, matched segment by segment.
pub open spec fn route_of(path: Seq<char>) -> RouteModel {
    let segs = segments_of(path);
    let head = segs[0];
    if segs.len() == 1 && head == HEALTH_SEGMENT@ {
        RouteModel::Health
    } else if segs.len() == 4 && head == ACCOUNT_SEGMENT@ && params_present(segs, 1) {
        RouteModel::Account { account_key: segs[1], program_id: segs[2], rpc_env: segs[3] }
    } else if segs.len() == 4 && head == ACCOUNT_SCHEMA_SEGMENT@ && params_present(segs, 1) {
        RouteModel::AccountSchema { account_key: segs[1], program_id: segs[2], rpc_env: segs[3] }
    } else if segs.len() == 3 && head == DISCRIMINATOR_OFFLINE_SEGMENT@ && params_present(segs, 1) {
        RouteModel::DiscriminatorOffline { account_name: segs[1], account_type: segs[2] }
    } else if segs.len() == 3 && head == DISCRIMINATOR_SEGMENT@ && params_present(segs, 1) {
        RouteModel::Discriminator { account_key: segs[1], rpc_env: segs[2] }
    } else if segs.len() == 1 && head == API_DOC_SEGMENT@ {
        RouteModel::ApiDoc
    } else if head == SWAGGER_UI_SEGMENT@ {
        RouteModel::SwaggerUi
    } else {
        RouteModel::Unknown
    }
}

fn params_nonempty(segs: &Vec<String>, from: usize) -> (r: bool)
    requires
        from <= segs@.len(),
    ensures
        r == params_present(views(segs@), from as int),
{
    let mut i: usize = from;
    while i < segs.len()
        invariant
            from <= i <= segs@.len(),
            forall|j: int| from <= j < i ==> views(segs@)[j].len() > 0,
        decreases segs@.len() - i,
    {
        if segs[i].as_str().unicode_len() == 0 {
            assert(views(segs@)[i as int] == segs@[i as int]@);
            return false;
        }
        i = i + 1;
    }
    true
}

fn strip_leading_slash(path: &str) -> (r: &str)
    ensures
        r@ == relative(path@),
{
    let n = path.unicode_len();
    if n > 0 && path.get_char(0) == '/' {
        let rest = path.substring_char(1, n);
        assert(rest@ =~= path@.drop_first());
        rest
    } else {
        path
    }
}

/// Matches a request path against the gateway's endpoints.
pub fn route(path: &str) -> (r: Route)
    ensures
        r@ == route_of(path@),
{
    let rest = strip_leading_slash(path);
    let segs = split_at_slashes(rest);
    proof {
        crate::text::lemma_split_slash_nonempty(rest@);
    }
    let ghost model = views(segs@);
    let count = segs.len();
    let head = segs[0].as_str();
    if count == 1 && str_equals(head, HEALTH_SEGMENT) {
        Route::Health
    } else if count == 4 && str_equals(head, ACCOUNT_SEGMENT) && params_nonempty(&segs, 1) {
        Route::Account {
            account_key: segs[1].clone(),
            program_id: segs[2].clone(),
            rpc_env: segs[3].clone(),
        }
    } else if count == 4 && str_equals(head, ACCOUNT_SCHEMA_SEGMENT) && params_nonempty(&segs, 1) {
        Route::AccountSchema {
            account_key: segs[1].clone(),
            program_id: segs[2].clone(),
            rpc_env: segs[3].clone(),
        }
    } else if count == 3 && str_equals(head, DISCRIMINATOR_OFFLINE_SEGMENT) && params_nonempty(&segs, 1) {
        Route::DiscriminatorOffline { account_name: segs[1].clone(), account_type: segs[2].clone() }
    } else if count == 3 && str_equals(head, DISCRIMINATOR_SEGMENT) && params_nonempty(&segs, 1) {
        Route::Discriminator { account_key: segs[1].clone(), rpc_env: segs[2].clone() }
    } else if count == 1 && str_equals(head, API_DOC_SEGMENT) {
        Route::ApiDoc
    } else if str_equals(head, SWAGGER_UI_SEGMENT) {
        Route::SwaggerUi
    } else {
        Route::Unknown
    }
}

/// What answers a request: a lookup for the descriptor collaborator, a
/// response ready to send, the OpenAPI document, or a file of the
/// documentation UI at the given path.
#[derive(Clone, Debug, PartialEq, Eq)]
pub enum Action {
    Fetch(Lookup),
    Respond(Reply),
    ServeApiDoc,
    ServeAsset(String),
}

/// What an action is: `Action` with its lookup or response as a model.
pub enum ActionModel {
    Fetch(LookupModel),
    Respond(ReplyModel),
    ServeApiDoc,
    ServeAsset(Seq<char>),
}

impl View for Action {
    type V = ActionModel;

    open spec fn view(&self) -> ActionModel {
        match self {
            Action::Fetch(lookup) => ActionModel::Fetch(lookup@),
            Action::Respond(reply) => ActionModel::Respond(reply@),
            Action::ServeApiDoc => ActionModel::ServeApiDoc,
            Action::ServeAsset(file) => ActionModel::ServeAsset(file@),
        }
    }
}

/// The part of a documentation UI path below `swagger-ui/`.
pub open spec fn swagger_tail(path: Seq<char>) -> Seq<char> {
    let rel = relative(path);
    if rel.len() > 11 {
        rel.subrange(11, rel.len() as int)
    } else {
        Seq::empty()
    }
}

/// Whether `action` answers a request for `path` under `config`.
pub open spec fn answers(config: Config, path: Seq<char>, action: ActionModel) -> bool {
    match route_of(path) {
        RouteModel::Health => action == ActionModel::Respond(ReplyModel::Empty { status: STATUS_OK }),
        RouteModel::Account { account_key, program_id, rpc_env } => action == ActionModel::Fetch(
            LookupModel::AccountData {
                account_key,
                program_id,
                rpc_url: config.url_of(environment_of(rpc_env)),
            },
        ),
        RouteModel::AccountSchema { account_key, program_id, rpc_env } => action
            == ActionModel::Fetch(
            LookupModel::AccountSchema {
                account_key,
                program_id,
                with_start_index: true,
                rpc_url: config.url_of(environment_of(rpc_env)),
            },
        ),
        RouteModel::DiscriminatorOffline { account_name, account_type } => action
            == ActionModel::Fetch(LookupModel::DiscriminatorOffline { account_name, account_type }),
        RouteModel::Discriminator { account_key, rpc_env } => action == ActionModel::Fetch(
            LookupModel::Discriminator {
                account_key,
                rpc_url: config.url_of(environment_of(rpc_env)),
            },
        ),
        RouteModel::ApiDoc => action == ActionModel::ServeApiDoc,
        RouteModel::SwaggerUi => if path == SWAGGER_UI_PATH@ {
            action == ActionModel::Respond(ReplyModel::Redirect { location: SWAGGER_UI_ROOT@ })
        } else {
            action == ActionModel::ServeAsset(swagger_tail(path))
        },
        RouteModel::Unknown => action == ActionModel::Respond(
            ReplyModel::Empty { status: STATUS_NOT_FOUND },
        ),
    }
}

/// Decides how to answer a request for `path`.
pub fn handle(config: &Config, path: &str) -> (r: Action)
    ensures
        answers(*config, path@, r@),
{
    match route(path) {
        Route::Health => Action::Respond(health_handler()),
        Route::Account { account_key, program_id, rpc_env } => Action::Fetch(
            account_handler(config, account_key, program_id, rpc_env),
        ),
        Route::AccountSchema { account_key, program_id, rpc_env } => Action::Fetch(
            account_schema_handler(config, account_key, program_id, rpc_env),
        ),
        Route::DiscriminatorOffline { account_name, account_type } => Action::Fetch(
            discriminator_offline(account_name, account_type),
        ),
        Route::Discriminator { account_key, rpc_env } => Action::Fetch(
            discriminator(config, account_key, rpc_env),
        ),
        Route::ApiDoc => Action::ServeApiDoc,
        Route::SwaggerUi => {
            let rel = strip_leading_slash(path);
            let m = rel.unicode_len();
            let tail = if m > 11 {
                rel.substring_char(11, m)
            } else {
                proof {
                    reveal_strlit("");
                    assert(""@ =~= Seq::<char>::empty());
                }
                ""
            };
            assert(tail@ == swagger_tail(path@));
            match swagger_lookup_path(path, tail) {
                None => Action::Respond(Reply::Redirect { location: SWAGGER_UI_ROOT.to_owned() }),
                Some(file) => Action::ServeAsset(file),
            }
        },
        Route::Unknown => Action::Respond(Reply::Empty { status: STATUS_NOT_FOUND }),
    }
}

/// Health law: a request for the health endpoint is answered at once with
/// `200` and an empty body, whatever the configuration.
pub proof fn lemma_health_is_immediate(config: Config, path: Seq<char>, action: ActionModel)
    requires
        route_of(path) is Health,
        answers(config, path, action),
    ensures
        action == ActionModel::Respond(ReplyModel::Empty { status: STATUS_OK }),
{
}

/// Offline law: a request for an offline discriminator is answered by a lookup
/// that contacts no RPC endpoint, and no configuration changes it.
pub proof fn lemma_offline_discriminator_needs_no_endpoint(
    config: Config,
    other: Config,
    path: Seq<char>,
    action: ActionModel,
)
    requires
        route_of(path) is DiscriminatorOffline,
        answers(config, path, action),
    ensures
        action is Fetch,
        action->Fetch_0.endpoint() is None,
        answers(other, path, action),
{
}

} // verus!
