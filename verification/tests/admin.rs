use tj2::db::ids::{GroupId, RoleId, UserId};
use tj2::router::admin::groups::UpdateGroupResult;
use tj2::router::admin::invites::{gen_tokens, invite_insert_query, CreateInviteError, DeleteError};
use tj2::router::admin::roles::{
    permissions_insert, stale_permissions, unique_permissions, Ability, NewRoleError, PermissionBody, Scope,
};
use tj2::router::admin::users::{CreateUserError, UpdateUser, UpdatedUserError};
use tj2::time::Timestamp;

#[test]
fn permissions_are_merged_by_scope() {
    let perms = vec![
        PermissionBody { scope: Scope::Journals, abilities: vec![Ability::Update, Ability::Read] },
        PermissionBody { scope: Scope::Users, abilities: vec![Ability::Delete] },
        PermissionBody { scope: Scope::Journals, abilities: vec![Ability::Read, Ability::Create] },
        PermissionBody { scope: Scope::Roles, abilities: vec![] },
    ];
    let merged = unique_permissions(&perms);
    assert_eq!(
        merged,
        vec![
            (Scope::Users, vec![Ability::Delete]),
            (Scope::Journals, vec![Ability::Create, Ability::Read, Ability::Update]),
            (Scope::Roles, vec![]),
        ]
    );
    assert!(unique_permissions(&Vec::new()).is_empty());
}

#[test]
fn invite_batches_are_checked() {
    let now = Timestamp { secs: 1000, nanos: 0 };
    assert!(CreateInviteError::check_batch(1, None, now).is_ok());
    assert!(CreateInviteError::check_batch(10, Some(Timestamp { secs: 1001, nanos: 0 }), now).is_ok());
    assert_eq!(CreateInviteError::check_batch(0, None, now), Err(CreateInviteError::InvalidAmount));
    assert_eq!(CreateInviteError::check_batch(11, None, now), Err(CreateInviteError::InvalidAmount));
    assert_eq!(CreateInviteError::check_batch(2, Some(now), now), Err(CreateInviteError::InvalidExpiresOn));
    assert_eq!(
        CreateInviteError::check_batch(2, Some(Timestamp { secs: 999, nanos: 5 }), now),
        Err(CreateInviteError::InvalidExpiresOn)
    );
    assert_eq!(CreateInviteError::RoleNotFound.status(), 404);
    assert_eq!(CreateInviteError::InvalidAmount.status(), 400);
}

#[test]
fn invite_tokens_and_query() {
    let tokens = gen_tokens(3);
    assert_eq!(tokens.len(), 3);
    assert_eq!(
        invite_insert_query(2),
        "insert into user_invites (token, issued_on, expires_on, status, role_id, groups_id) values ($6, $1, $2, $3, $4, $5), ($7, $1, $2, $3, $4, $5)"
    );
}

#[test]
fn deleting_one_invite() {
    assert!(DeleteError::check_single(1, String::from("t")).is_ok());
    let err = DeleteError::check_single(0, String::from("t")).unwrap_err();
    assert!(matches!(err, DeleteError::NotFound { ref tokens } if tokens == &vec![String::from("t")]));
    assert_eq!(err.status(), 404);
}

#[test]
fn group_outcomes() {
    let u = UserId::new(3).unwrap();
    let r = RoleId::new(4).unwrap();
    assert!(matches!(UpdateGroupResult::decide(false, vec![u], vec![]), Some(UpdateGroupResult::GroupExists)));
    assert!(matches!(UpdateGroupResult::decide(true, vec![u], vec![r]), Some(UpdateGroupResult::UsersNotFound { .. })));
    assert!(matches!(UpdateGroupResult::decide(true, vec![], vec![r]), Some(UpdateGroupResult::RolesNotFound { .. })));
    assert!(UpdateGroupResult::decide(true, vec![], vec![]).is_none());
}

#[test]
fn user_and_role_statuses() {
    assert_eq!(CreateUserError::UsernameExists.status(), 400);
    assert_eq!(CreateUserError::GroupsNotFound { ids: vec![GroupId::new(1).unwrap()] }.status(), 404);
    assert_eq!(UpdatedUserError::UserNotFound.status(), 404);
    assert_eq!(NewRoleError::RoleExists.status(), 400);
    let upd = UpdateUser { username: None, password: Some(String::from("p")), groups: None, roles: None };
    assert!(upd.changes_record());
    let upd = UpdateUser { username: None, password: None, groups: Some(vec![]), roles: None };
    assert!(!upd.changes_record());
}

#[test]
fn permissions_insert_rows() {
    let unique = vec![
        (Scope::Users, vec![Ability::Create, Ability::Read]),
        (Scope::Roles, vec![Ability::Delete]),
    ];
    let (query, attached) = permissions_insert(&unique, true).unwrap();
    assert_eq!(
        query,
        "insert into authz_permissions (role_id, scope, ability, added) values \
         ($1, $3, $4, $2), ($1, $3, $5, $2), ($1, $6, $7, $2)"
    );
    assert_eq!(
        attached,
        vec![(Scope::Users, Ability::Create), (Scope::Users, Ability::Read), (Scope::Roles, Ability::Delete)]
    );
    assert!(permissions_insert(&Vec::new(), false).is_none());

    let with_empty = vec![(Scope::Users, Vec::new()), (Scope::Roles, vec![Ability::Read])];
    let (kept, _) = permissions_insert(&with_empty, false).unwrap();
    assert_eq!(kept, "insert into authz_permissions (role_id, scope, ability, added) values ($1, $4, $5, $2)");
    let (skipped, _) = permissions_insert(&with_empty, true).unwrap();
    assert_eq!(skipped, "insert into authz_permissions (role_id, scope, ability, added) values ($1, $3, $4, $2)");
}

#[test]
fn stale_permission_records() {
    let current = vec![
        (10u32, Scope::Users, Ability::Create),
        (11u32, Scope::Users, Ability::Delete),
        (12u32, Scope::Roles, Ability::Read),
    ];
    let unique = vec![(Scope::Users, vec![Ability::Create]), (Scope::Journals, vec![Ability::Read])];
    assert_eq!(stale_permissions(&current, &unique), vec![11, 12]);
    assert_eq!(stale_permissions(&current, &Vec::new()), vec![10, 11, 12]);
}
