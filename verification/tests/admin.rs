use chat_server::admin::{
    change_password_outcome, check_change_password, check_set_mod, my_role_response, new_password_hash,
    profile_response, set_mod_outcome, ChangePasswordRequest, ChangePasswordResponse, GetProfileResponse,
    MyRoleResponse, SetModRequest, SetModResponse,
};
use chat_server::passwords::{check_password, hash_password};
use chat_server::permissions::AdminId;

const ADMIN: u128 = 1;
const OTHER: u128 = 2;

fn set_mod_reason(r: Result<i64, SetModResponse>) -> String {
    match r {
        Err(SetModResponse::Error { reason }) => reason,
        other => panic!("unexpected {:?}", other),
    }
}

#[test]
fn set_mod_checks() {
    let admin = AdminId::new(Some(ADMIN));
    let req = SetModRequest { user_id: OTHER, is_mod: true };
    assert_eq!(set_mod_reason(check_set_mod(None, &admin, &req)), "UNAUTHENTICATED");
    assert_eq!(set_mod_reason(check_set_mod(Some(OTHER), &admin, &req)), "FORBIDDEN");
    let on_admin = SetModRequest { user_id: ADMIN, is_mod: true };
    assert_eq!(set_mod_reason(check_set_mod(Some(ADMIN), &admin, &on_admin)), "cannot set mod flag on the admin");
    assert_eq!(check_set_mod(Some(ADMIN), &admin, &req).unwrap(), 1);
    let unset = SetModRequest { user_id: OTHER, is_mod: false };
    assert_eq!(check_set_mod(Some(ADMIN), &admin, &unset).unwrap(), 0);
    assert_eq!(set_mod_reason(check_set_mod(Some(ADMIN), &AdminId::new(None), &req)), "FORBIDDEN");
}

#[test]
fn set_mod_outcomes() {
    assert!(matches!(set_mod_outcome(Ok(1)), SetModResponse::Success));
    assert!(matches!(set_mod_outcome(Ok(0)), SetModResponse::Error { ref reason } if reason == "NOT_FOUND"));
    assert!(matches!(set_mod_outcome(Ok(2)), SetModResponse::Error { ref reason } if reason == "NOT_FOUND"));
    assert!(matches!(set_mod_outcome(Err(())), SetModResponse::Error { ref reason } if reason == "INTERNAL"));
}

#[test]
fn my_role_answers() {
    let admin = AdminId::new(Some(ADMIN));
    assert!(matches!(my_role_response(None, &admin, Ok(true)), MyRoleResponse::Error { ref reason } if reason == "UNAUTHENTICATED"));
    assert!(matches!(
        my_role_response(Some(ADMIN), &admin, Ok(true)),
        MyRoleResponse::Success { user_id: ADMIN, is_admin: true, is_mod: false }
    ));
    assert!(matches!(
        my_role_response(Some(ADMIN), &admin, Err(())),
        MyRoleResponse::Success { user_id: ADMIN, is_admin: true, is_mod: false }
    ));
    assert!(matches!(
        my_role_response(Some(OTHER), &admin, Ok(true)),
        MyRoleResponse::Success { user_id: OTHER, is_admin: false, is_mod: true }
    ));
    assert!(matches!(my_role_response(Some(OTHER), &admin, Err(())), MyRoleResponse::Error { ref reason } if reason == "INTERNAL"));
}

#[test]
fn profile_answers() {
    let admin = AdminId::new(Some(ADMIN));
    assert!(matches!(profile_response(None, &admin, Ok(None)), GetProfileResponse::Error { ref reason } if reason == "UNAUTHENTICATED"));
    assert!(matches!(profile_response(Some(OTHER), &admin, Err(())), GetProfileResponse::Error { ref reason } if reason == "INTERNAL"));
    assert!(matches!(profile_response(Some(OTHER), &admin, Ok(None)), GetProfileResponse::Error { ref reason } if reason == "user not found"));
    match profile_response(Some(ADMIN), &admin, Ok(Some(("root".to_string(), 1)))) {
        GetProfileResponse::Success { user_id, username, is_admin, is_mod } => {
            assert_eq!((user_id, username.as_str(), is_admin, is_mod), (ADMIN, "root", true, false));
        }
        other => panic!("unexpected {:?}", other),
    }
    match profile_response(Some(OTHER), &admin, Ok(Some(("bob".to_string(), 1)))) {
        GetProfileResponse::Success { is_admin, is_mod, .. } => assert_eq!((is_admin, is_mod), (false, true)),
        other => panic!("unexpected {:?}", other),
    }
    match profile_response(Some(OTHER), &admin, Ok(Some(("bob".to_string(), 0)))) {
        GetProfileResponse::Success { is_mod, .. } => assert!(!is_mod),
        other => panic!("unexpected {:?}", other),
    }
}

fn change_reason<T: std::fmt::Debug>(r: Result<T, ChangePasswordResponse>) -> String {
    match r {
        Err(ChangePasswordResponse::Error { reason }) => reason,
        other => panic!("unexpected {:?}", other),
    }
}

#[test]
fn change_password_precheck() {
    let ok = ChangePasswordRequest { old_password: "old".into(), new_password: "sixsix".into() };
    let short = ChangePasswordRequest { old_password: "old".into(), new_password: "five5".into() };
    assert_eq!(change_reason(check_change_password(None, &ok)), "UNAUTHENTICATED");
    assert_eq!(change_reason(check_change_password(Some(OTHER), &short)), "new password must be at least 6 characters");
    assert_eq!(check_change_password(Some(OTHER), &ok).unwrap(), OTHER);
    let accented_short = ChangePasswordRequest { old_password: "old".into(), new_password: "ééé".into() };
    assert_eq!(change_reason(check_change_password(Some(OTHER), &accented_short)), "new password must be at least 6 characters");
    let accented = ChangePasswordRequest { old_password: "old".into(), new_password: "éééééé".into() };
    assert_eq!(check_change_password(Some(OTHER), &accented).unwrap(), OTHER);
}

#[test]
fn change_password_with_stored_hash() {
    let stored = hash_password("correct horse").unwrap();
    let req = ChangePasswordRequest { old_password: "correct horse".into(), new_password: "battery staple".into() };
    let new_hash = new_password_hash(Ok(Some(stored.clone())), &req).unwrap();
    assert_eq!(check_password(&new_hash, "battery staple"), Some(true));
    assert_eq!(check_password(&new_hash, "correct horse"), Some(false));
    let wrong = ChangePasswordRequest { old_password: "nope".into(), new_password: "battery staple".into() };
    assert_eq!(change_reason(new_password_hash(Ok(Some(stored)), &wrong)), "current password is incorrect");
    assert_eq!(change_reason(new_password_hash(Ok(None), &req)), "user not found");
    assert_eq!(change_reason(new_password_hash(Err(()), &req)), "INTERNAL");
    assert_eq!(change_reason(new_password_hash(Ok(Some("not a phc string".into())), &req)), "INTERNAL");
}

#[test]
fn change_password_outcomes() {
    assert!(matches!(change_password_outcome(Ok(1)), ChangePasswordResponse::Success));
    assert!(matches!(change_password_outcome(Ok(0)), ChangePasswordResponse::Success));
    assert!(matches!(change_password_outcome(Err(())), ChangePasswordResponse::Error { ref reason } if reason == "INTERNAL"));
}
