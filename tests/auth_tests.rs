use ariadne::auth::{
    after_team, after_user, authorization_token, members_grant, required_permission, AuthStep, Role,
    Team, TeamMember, User, VIEW_ANALYTICS, VIEW_PAYOUTS,
};
use ariadne::error::ApiError;

fn user(id: &str, role: Role) -> User {
    User { id: id.to_string(), username: format!("name-{id}"), role }
}

fn member(id: &str, permissions: u32, accepted: bool) -> TeamMember {
    TeamMember {
        team_id: "t".to_string(),
        user: user(id, Role::Developer),
        role: "Member".to_string(),
        permissions,
        accepted,
    }
}

#[test]
fn permission_bits() {
    assert_eq!(VIEW_ANALYTICS, 256);
    assert_eq!(VIEW_PAYOUTS, 512);
    assert_eq!(required_permission(false), 256);
    assert_eq!(required_permission(true), 512);
}

#[test]
fn tokens() {
    assert_eq!(authorization_token(Some(Some("abc".to_string()))), Ok("abc".to_string()));
    assert_eq!(
        authorization_token(None),
        Err(ApiError::Authentication("missing 'Authorization' header".to_string()))
    );
    assert_eq!(
        authorization_token(Some(None)),
        Err(ApiError::Authentication("invalid 'Authorization' header".to_string()))
    );
}

#[test]
fn admins_bypass_project_checks() {
    assert_eq!(after_user(&user("a", Role::Admin), None), Ok(AuthStep::Allowed));
    assert_eq!(after_user(&user("a", Role::Admin), Some("p")), Ok(AuthStep::Allowed));
    assert_eq!(after_user(&user("a", Role::Moderator), Some("p")), Ok(AuthStep::CheckTeam("p".to_string())));
    assert_eq!(
        after_user(&user("a", Role::Developer), None),
        Err(ApiError::Authentication("Please specify a project ID".to_string()))
    );
}

#[test]
fn team_membership_decides() {
    let team = Team {
        id: "t".to_string(),
        members: vec![member("x", 0xffff, false), member("u", VIEW_ANALYTICS, true), member("v", VIEW_PAYOUTS | 1, true)],
    };
    assert_eq!(after_team(&team, &user("u", Role::Developer), false), Ok(()));
    assert_eq!(
        after_team(&team, &user("u", Role::Developer), true),
        Err(ApiError::Authentication("You are not allowed to view analytics from this team!".to_string()))
    );
    assert_eq!(after_team(&team, &user("v", Role::Developer), true), Ok(()));
    assert!(after_team(&team, &user("x", Role::Developer), false).is_err());
    assert!(after_team(&team, &user("nobody", Role::Developer), false).is_err());
    assert!(members_grant(&team.members, &"u".to_string(), VIEW_ANALYTICS));
    assert!(!members_grant(&team.members, &"u".to_string(), VIEW_ANALYTICS | VIEW_PAYOUTS));
}
