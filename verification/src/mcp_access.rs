//! Tool-server access rules and the answer to a server's account-connection
//! callback.
use vstd::prelude::*;

use crate::ids::{uuid_text, uuid_text_of};
use crate::json::{Json, JsonView};
use crate::text::{contains_seq, str_contains};
use vstd::string::StringExecFns;

verus! {

/// Whom an access rule is for.
#[derive(Debug, Clone, Copy, PartialEq, Eq, Structural)]
pub enum McpAccessType {
    User,
    Department,
    Role,
}

/// The permission an administrator needs to manage a rule: rules for roles
/// need tool-server administration across the organisation; rules for users
/// and departments need delegation within the department they concern.
#[derive(Debug, Clone, Copy, PartialEq, Eq, Structural)]
pub enum RulePermission {
    Administer,
    Delegate,
}

pub fn rule_permission(access_type: McpAccessType) -> (r: RulePermission)
    ensures
        r == if access_type == McpAccessType::Role {
            RulePermission::Administer
        } else {
            RulePermission::Delegate
        },
{
    match access_type {
        McpAccessType::Role => RulePermission::Administer,
        _ => RulePermission::Delegate,
    }
}

/// What a new rule targets.
#[derive(Debug, Clone, Copy, PartialEq, Eq, Structural)]
pub struct RuleTargets {
    pub user_id: Option<u128>,
    pub department_id: Option<u128>,
    /// Whether departments below the target inherit the rule.
    pub inherit_departments: bool,
}

/// A rule names what its type needs.
#[derive(Debug, Clone, Copy, PartialEq, Eq, Structural)]
pub enum RuleError {
    ResourceNotFound,
}

/// The targets of a new rule: a user rule needs a user, a department rule a
/// department (whose subtree inherits unless it says otherwise); other ids
/// are ignored, and rules for other types always inherit.
pub open spec fn targets_of(
    access_type: McpAccessType,
    user_id: Option<u128>,
    department_id: Option<u128>,
    inherit: Option<bool>,
) -> Result<RuleTargets, RuleError> {
    match access_type {
        McpAccessType::User => match user_id {
            Some(u) => Ok(RuleTargets { user_id: Some(u), department_id: None, inherit_departments: true }),
            None => Err(RuleError::ResourceNotFound),
        },
        McpAccessType::Department => match department_id {
            Some(d) => Ok(
                RuleTargets {
                    user_id: None,
                    department_id: Some(d),
                    inherit_departments: match inherit {
                        Some(b) => b,
                        None => true,
                    },
                },
            ),
            None => Err(RuleError::ResourceNotFound),
        },
        McpAccessType::Role => Ok(
            RuleTargets { user_id: None, department_id: None, inherit_departments: true },
        ),
    }
}

pub fn rule_targets(
    access_type: McpAccessType,
    user_id: Option<u128>,
    department_id: Option<u128>,
    inherit: Option<bool>,
) -> (r: Result<RuleTargets, RuleError>)
    ensures
        r == targets_of(access_type, user_id, department_id, inherit),
{
    match access_type {
        McpAccessType::User => match user_id {
            Some(u) => Ok(RuleTargets { user_id: Some(u), department_id: None, inherit_departments: true }),
            None => Err(RuleError::ResourceNotFound),
        },
        McpAccessType::Department => match department_id {
            Some(d) => Ok(
                RuleTargets {
                    user_id: None,
                    department_id: Some(d),
                    inherit_departments: match inherit {
                        Some(b) => b,
                        None => true,
                    },
                },
            ),
            None => Err(RuleError::ResourceNotFound),
        },
        McpAccessType::Role => Ok(
            RuleTargets { user_id: None, department_id: None, inherit_departments: true },
        ),
    }
}

/// Whether departments below inherit a rule of a bulk update: a department
/// rule inherits unless it says otherwise; other rules always do.
pub fn inherits_departments(access_type: McpAccessType, inherit: Option<bool>) -> (r: bool)
    ensures
        r == (access_type != McpAccessType::Department || inherit != Some(false)),
{
    if access_type == McpAccessType::Department {
        match inherit {
            Some(b) => b,
            None => true,
        }
    } else {
        true
    }
}

/// A stored rule is the server's own server-level rule.
pub fn rule_belongs_to_server(server_level: bool, rule_server_id: Option<u128>, server_id: u128) -> (r:
    bool)
    ensures
        r == (server_level && rule_server_id == Some(server_id)),
{
    server_level && rule_server_id == Some(server_id)
}

// ---------------------------------------------------------------------------
// The account-connection callback.
/// The answer to a connection callback.
pub enum OAuthCallbackResponse {
    /// Back to the application, with the outcome in the query.
    Redirect(String),
    /// A JSON body, when no page to return to was given.
    Body(Json),
}

pub open spec fn status_word(success: bool) -> Seq<char> {
    if success {
        "success"@
    } else {
        "error"@
    }
}

/// The page to return to, with `mcp_server_id` and `status` added to its
/// query (after `&` when it already has one, else after `?`).
pub open spec fn callback_url(redirect_uri: Seq<char>, server_id: u128, success: bool) -> Seq<char> {
    redirect_uri + (if contains_seq(redirect_uri, "?"@) {
        "&"@
    } else {
        "?"@
    }) + "mcp_server_id="@ + uuid_text_of(server_id) + "&status="@ + status_word(success)
}

/// The JSON body: `server_id`, `status` and `success`.
pub open spec fn callback_body(server_id: u128, success: bool) -> JsonView {
    JsonView::Object(
        seq![
            ("server_id"@, JsonView::Str(uuid_text_of(server_id))),
            ("status"@, JsonView::Str(status_word(success))),
            ("success"@, JsonView::Bool(success)),
        ],
    )
}

fn status_text(success: bool) -> (r: String)
    ensures
        r@ == status_word(success),
{
    if success {
        "success".to_owned()
    } else {
        "error".to_owned()
    }
}

pub fn build_oauth_callback_response(redirect_uri: Option<&str>, server_id: u128, success: bool) -> (r:
    OAuthCallbackResponse)
    ensures
        match redirect_uri {
            Some(u) => r matches OAuthCallbackResponse::Redirect(url) && url@ == callback_url(
                u@,
                server_id,
                success,
            ),
            None => r matches OAuthCallbackResponse::Body(b) && b@ == callback_body(server_id, success),
        },
{
    match redirect_uri {
        Some(u) => {
            let mut url = u.to_owned();
            proof {
                reveal_strlit("?");
            }
            if str_contains(u, "?") {
                url.append("&");
            } else {
                url.append("?");
            }
            url.append("mcp_server_id=");
            let id = uuid_text(server_id);
            url.append(id.as_str());
            url.append("&status=");
            let st = status_text(success);
            url.append(st.as_str());
            OAuthCallbackResponse::Redirect(url)
        },
        None => {
            let mut m: Vec<(String, Json)> = Vec::new();
            m.push(("server_id".to_owned(), Json::Str(uuid_text(server_id))));
            m.push(("status".to_owned(), Json::Str(status_text(success))));
            m.push(("success".to_owned(), Json::Bool(success)));
            proof {
                crate::json::lemma_entries_view(m@);
                assert(crate::json::entries_view(m@) =~= seq![
                    ("server_id"@, JsonView::Str(uuid_text_of(server_id))),
                    ("status"@, JsonView::Str(status_word(success))),
                    ("success"@, JsonView::Bool(success)),
                ]);
            }
            OAuthCallbackResponse::Body(Json::Object(m))
        },
    }
}

/// The name of the unique index on MCP server names.
pub const SERVER_NAME_INDEX: &'static str = "uq-mcp-servers-name";

/// A database error on saving a server is a name conflict when it says the
/// key is a duplicate or names the server-name index.
pub fn is_server_name_conflict(message: &str) -> (r: bool)
    ensures
        r == (crate::text::contains_seq(message@, crate::users::DUPLICATE_KEY@) || crate::text::contains_seq(
            message@,
            SERVER_NAME_INDEX@,
        )),
{
    crate::users::is_duplicate_key(message) || crate::text::str_contains(message, SERVER_NAME_INDEX)
}

/// Why an OAuth connection to a server cannot be started.
#[derive(Debug, Clone, Copy, PartialEq, Eq, Structural)]
pub enum ConnectError {
    /// The server does not exist or is switched off.
    McpServerNotFound,
    /// The server is not reached over HTTP, so it has no OAuth flow.
    ServiceTemporarilyUnavailable,
}

/// A server can be authorized only when it is switched on and reached over
/// HTTP.
pub fn check_authorizable(enabled: bool, over_http: bool) -> (r: Result<(), ConnectError>)
    ensures
        !enabled ==> r == Err::<(), ConnectError>(ConnectError::McpServerNotFound),
        enabled && !over_http ==> r == Err::<(), ConnectError>(ConnectError::ServiceTemporarilyUnavailable),
        enabled && over_http ==> r == Ok::<(), ConnectError>(()),
{
    if !enabled {
        Err(ConnectError::McpServerNotFound)
    } else if !over_http {
        Err(ConnectError::ServiceTemporarilyUnavailable)
    } else {
        Ok(())
    }
}

/// The client secret a server keeps: none for an empty secret. (It is
/// stored encrypted.)
pub fn secret_to_keep(secret: Option<String>) -> (r: Option<String>)
    ensures
        match secret {
            Some(t) => if t@.len() == 0 {
                r is None
            } else {
                r matches Some(k) && k@ == t@
            },
            None => r is None,
        },
{
    match secret {
        Some(t) => if t.as_str().is_empty() {
            None
        } else {
            Some(t)
        },
        None => None,
    }
}

} // verus!
