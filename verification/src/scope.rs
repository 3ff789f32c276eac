//! Which resources the agent uses for whom, and which of its parts start.

use vstd::prelude::*;

use crate::json;
use crate::text;

verus! {

/// The workspace that serves a user.
#[derive(Clone, Copy, Debug, PartialEq, Eq, Structural)]
pub enum WorkspaceChoice {
    /// There is none.
    Missing,
    /// The agent's own.
    Shared,
    /// The agent's own, narrowed to the user.
    Narrowed,
    /// A new one for the user, seeded on first use.
    Fresh,
}

/// The workspace that serves a user. `owner` is whom the agent's own belongs to.
pub open spec fn user_workspace(owner: Option<Seq<char>>, user_id: Seq<char>) -> WorkspaceChoice {
    match owner {
        None => WorkspaceChoice::Missing,
        Some(o) => if o == user_id {
            WorkspaceChoice::Shared
        } else {
            WorkspaceChoice::Narrowed
        },
    }
}

/// The workspace that serves a user. `owner` is whom the agent's own belongs to.
pub fn workspace_for_user(owner: Option<&str>, user_id: &str) -> (r: WorkspaceChoice)
    ensures
        r == user_workspace(json::text_of(owner), user_id@),
{
    match owner {
        None => WorkspaceChoice::Missing,
        Some(o) => if text::same(o, user_id) {
            WorkspaceChoice::Shared
        } else {
            WorkspaceChoice::Narrowed
        },
    }
}

/// The workspace in which a tenant works. `owner` is whom the agent's own belongs to; any
/// other tenant needs a store for one.
pub open spec fn workspace_of_tenant(
    owner: Option<Seq<char>>,
    user_id: Seq<char>,
    has_store: bool,
) -> WorkspaceChoice {
    if owner == Some(user_id) {
        WorkspaceChoice::Shared
    } else if has_store {
        WorkspaceChoice::Fresh
    } else {
        WorkspaceChoice::Missing
    }
}

/// The workspace in which a tenant works. `owner` is whom the agent's own belongs to.
pub fn tenant_workspace(owner: Option<&str>, user_id: &str, has_store: bool) -> (r: WorkspaceChoice)
    ensures
        r == workspace_of_tenant(json::text_of(owner), user_id@, has_store),
{
    let own: bool = match owner {
        Some(o) => text::same(o, user_id),
        None => false,
    };
    if own {
        WorkspaceChoice::Shared
    } else if has_store {
        WorkspaceChoice::Fresh
    } else {
        WorkspaceChoice::Missing
    }
}

/// Only the owner is served by the agent's own workspace as it stands.
pub proof fn own_workspace_is_the_owners(
    owner: Option<Seq<char>>,
    user_id: Seq<char>,
    has_store: bool,
)
    ensures
        user_workspace(owner, user_id) == WorkspaceChoice::Shared <==> owner == Some(user_id),
        workspace_of_tenant(owner, user_id, has_store) == WorkspaceChoice::Shared <==> owner
            == Some(user_id),
{
}

/// The name of the database behind the agent: the configured one, or the usual one where
/// there is a store.
pub fn database_backend(configured: Option<String>, has_store: bool) -> (r: Option<String>)
    ensures
        json::string_of(r) == match configured {
            Some(s) => Some(s@),
            None => if has_store {
                Some("postgres"@)
            } else {
                None
            },
        },
{
    match configured {
        Some(s) => Some(s),
        None => if has_store {
            Some("postgres".to_owned())
        } else {
            None
        },
    }
}

/// The time zone of the heartbeat: the configured one, or the agent's.
pub fn heartbeat_timezone(configured: Option<String>, agent: &str) -> (r: String)
    ensures
        r@ == match configured {
            Some(s) => s@,
            None => agent@,
        },
{
    match configured {
        Some(s) => s,
        None => agent.to_owned(),
    }
}

/// Whether a part of the agent starts.
#[derive(Clone, Copy, Debug, PartialEq, Eq, Structural)]
pub enum Startup {
    /// It is not configured, or switched off.
    Off,
    /// It is switched on, but what it needs is missing.
    Unavailable,
    Start,
}

/// Whether a part of the agent starts. `enabled` is its configuration, where it has one;
/// `available` says that what it needs is there.
pub fn startup(enabled: Option<bool>, available: bool) -> (r: Startup)
    ensures
        r == if enabled != Some(true) {
            Startup::Off
        } else if available {
            Startup::Start
        } else {
            Startup::Unavailable
        },
{
    match enabled {
        Some(true) => if available {
            Startup::Start
        } else {
            Startup::Unavailable
        },
        _ => Startup::Off,
    }
}

/// A user is served by the agent's own workspace, narrowed to that user unless it is the
/// owner; without one there is none.
pub proof fn users_are_served_by_the_agents_workspace(
    owner: Option<Seq<char>>,
    user_id: Seq<char>,
)
    ensures
        user_workspace(owner, user_id) == WorkspaceChoice::Missing <==> owner is None,
        user_workspace(owner, user_id) == WorkspaceChoice::Narrowed <==> owner is Some && owner->0
            != user_id,
{
}

/// A tenant other than the owner gets a workspace of its own where there is a store to keep it
/// in, and none otherwise.
pub proof fn tenants_have_their_own_workspace(
    owner: Option<Seq<char>>,
    user_id: Seq<char>,
    has_store: bool,
)
    ensures
        workspace_of_tenant(owner, user_id, has_store) == WorkspaceChoice::Fresh <==> owner != Some(
            user_id,
        ) && has_store,
        workspace_of_tenant(owner, user_id, has_store) == WorkspaceChoice::Missing <==> owner
            != Some(user_id) && !has_store,
{
}

} // verus!
