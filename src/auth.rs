//! Who may read analytics: the decisions taken between the calls to the
//! platform's user and team endpoints.

use crate::error::ApiError;
use vstd::prelude::*;

verus! {

/// A platform user, as the user endpoint returns it.
pub struct User {
    pub id: String,
    pub username: String,
    pub role: Role,
}

/// A platform-wide role.
#[derive(Debug, Clone, Copy, PartialEq, Eq, Structural)]
pub enum Role {
    Developer,
    Moderator,
    Admin,
}

/// A project's team, as the members endpoint returns it.
pub struct Team {
    pub id: String,
    pub members: Vec<TeamMember>,
}

/// One member of a team.
pub struct TeamMember {
    pub team_id: String,
    pub user: User,
    pub role: String,
    pub permissions: u32,
    pub accepted: bool,
}

/// The team permission that allows reading a project's analytics.
pub const VIEW_ANALYTICS: u32 = 1 << 8;

/// The team permission that allows reading a project's payouts.
pub const VIEW_PAYOUTS: u32 = 1 << 9;

/// What is left to decide once the user is known.
#[derive(Debug, PartialEq, Eq)]
pub enum AuthStep {
    /// The user may read everything.
    Allowed,
    /// The members of this project decide.
    CheckTeam(String),
}

/// The permission a request needs.
pub fn required_permission(use_payouts_permission: bool) -> (r: u32)
    ensures
        r == if use_payouts_permission { VIEW_PAYOUTS } else { VIEW_ANALYTICS },
{
    if use_payouts_permission {
        VIEW_PAYOUTS
    } else {
        VIEW_ANALYTICS
    }
}

/// Whether `m` is `user_id`'s accepted membership with every bit of `permission`.
pub open spec fn grants(m: TeamMember, user_id: Seq<char>, permission: u32) -> bool {
    m.user.id@ == user_id && m.accepted && (m.permissions & permission) == permission
}

/// Whether some member grants `user_id` the `permission`.
pub fn members_grant(members: &Vec<TeamMember>, user_id: &String, permission: u32) -> (r: bool)
    ensures
        r == exists|i: int| 0 <= i < members@.len() && grants(#[trigger] members@[i], user_id@, permission),
{
    let mut i: usize = 0;
    while i < members.len()
        invariant
            i <= members@.len(),
            forall|j: int| 0 <= j < i ==> !grants(#[trigger] members@[j], user_id@, permission),
        decreases members@.len() - i,
    {
        let m = &members[i];
        if m.user.id == *user_id && m.accepted && (m.permissions & permission) == permission {
            return true;
        }
        i = i + 1;
    }
    false
}

/// The bearer token of a request: `None` where the header is missing, `Some(None)`
/// where its value is not visible text.
pub fn authorization_token(header: Option<Option<String>>) -> (r: Result<String, ApiError>)
    ensures
        header matches Some(Some(t)) ==> r == Ok::<String, ApiError>(t),
        header is None ==> (r matches Err(ApiError::Authentication(m)) && m@ == "missing 'Authorization' header"@),
        header matches Some(None) ==> (r matches Err(ApiError::Authentication(m)) && m@ == "invalid 'Authorization' header"@),
{
    match header {
        Some(Some(t)) => Ok(t),
        Some(None) => Err(ApiError::Authentication(String::from_str("invalid 'Authorization' header"))),
        None => Err(ApiError::Authentication(String::from_str("missing 'Authorization' header"))),
    }
}

/// Once the user is known: an admin may read everything; anyone else needs a project,
/// whose team then decides.
pub fn after_user(user: &User, project_id: Option<&str>) -> (r: Result<AuthStep, ApiError>)
    ensures
        user.role == Role::Admin ==> r == Ok::<AuthStep, ApiError>(AuthStep::Allowed),
        user.role != Role::Admin && project_id is Some ==> (r matches Ok(AuthStep::CheckTeam(p))
            && p@ == project_id->Some_0@),
        user.role != Role::Admin && project_id is None ==> (r matches Err(ApiError::Authentication(m))
            && m@ == "Please specify a project ID"@),
{
    if user.role == Role::Admin {
        return Ok(AuthStep::Allowed);
    }
    match project_id {
        Some(p) => Ok(AuthStep::CheckTeam(String::from_str(p))),
        None => Err(ApiError::Authentication(String::from_str("Please specify a project ID"))),
    }
}

/// Once the team is known: the user needs an accepted membership with the permission.
pub fn after_team(team: &Team, user: &User, use_payouts_permission: bool) -> (r: Result<(), ApiError>)
    ensures
        r is Ok <==> exists|i: int|
            0 <= i < team.members@.len() && grants(
                #[trigger] team.members@[i],
                user.id@,
                if use_payouts_permission { VIEW_PAYOUTS } else { VIEW_ANALYTICS },
            ),
        r matches Err(e) ==> (e matches ApiError::Authentication(m)
            && m@ == "You are not allowed to view analytics from this team!"@),
{
    let permission = required_permission(use_payouts_permission);
    if members_grant(&team.members, &user.id, permission) {
        Ok(())
    } else {
        Err(ApiError::Authentication(String::from_str("You are not allowed to view analytics from this team!")))
    }
}

} // verus!
