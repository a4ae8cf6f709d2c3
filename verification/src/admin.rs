//! The admin namespace: setting moderators, reporting a user's role and
//! profile, and changing one's password. Each request is answered from the
//! caller's identity, the admin setting and what the database returned; a
//! database failure is given as `Err(())`.
use vstd::prelude::*;

use crate::passwords;
use crate::permissions::AdminId;
use crate::user;

verus! {

#[derive(Debug)]
pub struct SetModRequest {
    pub user_id: u128,
    pub is_mod: bool,
}

#[derive(Debug)]
pub enum SetModResponse {
    Success,
    Error { reason: String },
}

#[derive(Debug)]
pub enum MyRoleResponse {
    Success { user_id: u128, is_admin: bool, is_mod: bool },
    Error { reason: String },
}

#[derive(Debug)]
pub enum GetProfileResponse {
    Success { user_id: u128, username: String, is_admin: bool, is_mod: bool },
    Error { reason: String },
}

#[derive(Debug)]
pub struct ChangePasswordRequest {
    pub old_password: String,
    pub new_password: String,
}

#[derive(Debug)]
pub enum ChangePasswordResponse {
    Success,
    Error { reason: String },
}

pub open spec fn set_mod_error(r: SetModResponse, text: Seq<char>) -> bool {
    r matches SetModResponse::Error { reason } && reason@ == text
}

pub open spec fn my_role_error(r: MyRoleResponse, text: Seq<char>) -> bool {
    r matches MyRoleResponse::Error { reason } && reason@ == text
}

pub open spec fn profile_error(r: GetProfileResponse, text: Seq<char>) -> bool {
    r matches GetProfileResponse::Error { reason } && reason@ == text
}

pub open spec fn change_password_error(r: ChangePasswordResponse, text: Seq<char>) -> bool {
    r matches ChangePasswordResponse::Error { reason } && reason@ == text
}

pub open spec fn set_mod_rejected(r: Result<i64, SetModResponse>, text: Seq<char>) -> bool {
    r matches Err(e) && set_mod_error(e, text)
}

pub open spec fn change_rejected<T>(r: Result<T, ChangePasswordResponse>, text: Seq<char>) -> bool {
    r matches Err(e) && change_password_error(e, text)
}

/// Whether a profile answer shows the user with the stored name, the admin
/// as admin and not as moderator, and anyone else with the stored flag.
pub open spec fn profile_shows(
    r: GetProfileResponse,
    me: u128,
    admin: Option<u128>,
    stored: (String, i64),
) -> bool {
    let (name, flag) = stored;
    r matches GetProfileResponse::Success { user_id, username, is_admin, is_mod } && user_id == me
        && username@ == name@ && is_admin == (admin == Some(me)) && is_mod == (admin != Some(me)
        && flag != 0)
}

fn set_mod_failure(text: &str) -> (res: SetModResponse)
    ensures
        set_mod_error(res, text@),
{
    SetModResponse::Error { reason: String::from_str(text) }
}

fn change_password_failure(text: &str) -> (res: ChangePasswordResponse)
    ensures
        change_password_error(res, text@),
{
    ChangePasswordResponse::Error { reason: String::from_str(text) }
}

/// Checks a request to set a user's moderator flag: the caller must be
/// signed in and be the admin, and the admin's own flag cannot be set. On
/// success, gives the flag to store (1 or 0).
pub fn check_set_mod(me: Option<u128>, admin: &AdminId, req: &SetModRequest) -> (res: Result<
    i64,
    SetModResponse,
>)
    ensures
        me is None ==> set_mod_rejected(res, "UNAUTHENTICATED"@),
        me is Some && admin@ != Some(me->0) ==> set_mod_rejected(res, "FORBIDDEN"@),
        me is Some && admin@ == Some(me->0) && admin@ == Some(req.user_id) ==> set_mod_rejected(
            res,
            "cannot set mod flag on the admin"@,
        ),
        me is Some && admin@ == Some(me->0) && admin@ != Some(req.user_id) ==> res == Ok::<
            i64,
            SetModResponse,
        >(if req.is_mod {
            1
        } else {
            0
        }),
{
    let m = match me {
        None => return Err(set_mod_failure("UNAUTHENTICATED")),
        Some(m) => m,
    };
    if !admin.is(m) {
        return Err(set_mod_failure("FORBIDDEN"));
    }
    if admin.is(req.user_id) {
        return Err(set_mod_failure("cannot set mod flag on the admin"));
    }
    let flag: i64 = if req.is_mod {
        1
    } else {
        0
    };
    Ok(flag)
}

/// The answer once the flag was written: exactly one row changed means
/// done; none means there is no such user.
pub fn set_mod_outcome(rows_affected: Result<u64, ()>) -> (res: SetModResponse)
    ensures
        rows_affected == Ok::<u64, ()>(1) ==> res is Success,
        rows_affected is Ok && rows_affected->Ok_0 != 1 ==> set_mod_error(res, "NOT_FOUND"@),
        rows_affected is Err ==> set_mod_error(res, "INTERNAL"@),
{
    match rows_affected {
        Ok(n) => if n == 1 {
            SetModResponse::Success
        } else {
            set_mod_failure("NOT_FOUND")
        },
        Err(_) => set_mod_failure("INTERNAL"),
    }
}

/// The caller's role. The admin is reported as the admin and never as a
/// moderator (its moderator flag is not consulted); anyone else is reported
/// with their moderator flag.
pub fn my_role_response(me: Option<u128>, admin: &AdminId, mod_flag: Result<bool, ()>) -> (res:
    MyRoleResponse)
    ensures
        me is None ==> my_role_error(res, "UNAUTHENTICATED"@),
        me is Some && admin@ == Some(me->0) ==> res == (MyRoleResponse::Success {
            user_id: me->0,
            is_admin: true,
            is_mod: false,
        }),
        me is Some && admin@ != Some(me->0) && mod_flag is Ok ==> res == (MyRoleResponse::Success {
            user_id: me->0,
            is_admin: false,
            is_mod: mod_flag->Ok_0,
        }),
        me is Some && admin@ != Some(me->0) && mod_flag is Err ==> my_role_error(res, "INTERNAL"@),
{
    let m = match me {
        None => return MyRoleResponse::Error { reason: String::from_str("UNAUTHENTICATED") },
        Some(m) => m,
    };
    let is_admin = admin.is(m);
    if is_admin {
        return MyRoleResponse::Success { user_id: m, is_admin: true, is_mod: false };
    }
    match mod_flag {
        Ok(f) => MyRoleResponse::Success { user_id: m, is_admin: false, is_mod: f },
        Err(_) => MyRoleResponse::Error { reason: String::from_str("INTERNAL") },
    }
}

/// The caller's profile from their stored name and moderator flag. The
/// admin is never reported as a moderator.
pub fn profile_response(
    me: Option<u128>,
    admin: &AdminId,
    row: Result<Option<(String, i64)>, ()>,
) -> (res: GetProfileResponse)
    ensures
        me is None ==> profile_error(res, "UNAUTHENTICATED"@),
        me is Some && row is Err ==> profile_error(res, "INTERNAL"@),
        me is Some && row == Ok::<Option<(String, i64)>, ()>(None) ==> profile_error(
            res,
            "user not found"@,
        ),
        me is Some && row is Ok && row->Ok_0 is Some ==> profile_shows(res, me->0, admin@, (row->Ok_0)->0),
{
    let m = match me {
        None => return GetProfileResponse::Error { reason: String::from_str("UNAUTHENTICATED") },
        Some(m) => m,
    };
    match row {
        Err(_) => GetProfileResponse::Error { reason: String::from_str("INTERNAL") },
        Ok(None) => GetProfileResponse::Error { reason: String::from_str("user not found") },
        Ok(Some((name, flag))) => {
            let is_admin = admin.is(m);
            GetProfileResponse::Success {
                user_id: m,
                username: name,
                is_admin,
                is_mod: !is_admin && flag != 0,
            }
        },
    }
}

/// Checks a password change before the stored hash is read: the caller must
/// be signed in and the new password at least 6 characters long.
pub fn check_change_password(me: Option<u128>, req: &ChangePasswordRequest) -> (res: Result<
    u128,
    ChangePasswordResponse,
>)
    ensures
        me is None ==> change_rejected(res, "UNAUTHENTICATED"@),
        me is Some && req.new_password@.len() < 6 ==> change_rejected(
            res,
            "new password must be at least 6 characters"@,
        ),
        me is Some && req.new_password@.len() >= 6 ==> res == Ok::<
            u128,
            ChangePasswordResponse,
        >(me->0),
{
    let m = match me {
        None => return Err(change_password_failure("UNAUTHENTICATED")),
        Some(m) => m,
    };
    if req.new_password.as_str().unicode_len() < 6 {
        return Err(change_password_failure("new password must be at least 6 characters"));
    }
    Ok(m)
}

/// The hash to store for a password change, from the stored hash: the old
/// password must match it. A stored hash that does not read is an internal
/// error, and so is a new password too long to hash (over
/// `passwords::MAX_PASSWORD_BYTES` bytes); otherwise the new hash is given.
pub fn new_password_hash(
    stored: Result<Option<String>, ()>,
    req: &ChangePasswordRequest,
) -> (res: Result<String, ChangePasswordResponse>)
    ensures
        stored is Err ==> change_rejected(res, "INTERNAL"@),
        stored == Ok::<Option<String>, ()>(None) ==> change_rejected(res, "user not found"@),
        stored is Ok && stored->Ok_0 is Some && !passwords::phc_parses((stored->Ok_0)->0@)
            ==> change_rejected(res, "INTERNAL"@),
        stored is Ok && stored->Ok_0 is Some && passwords::phc_parses((stored->Ok_0)->0@)
            && !user::login_accepts((stored->Ok_0)->0@, req.old_password@) ==> change_rejected(
            res,
            "current password is incorrect"@,
        ),
        stored is Ok && stored->Ok_0 is Some && user::login_accepts(
            (stored->Ok_0)->0@,
            req.old_password@,
        ) ==> (res is Ok ==> user::login_accepts(res->Ok_0@, req.new_password@)) && (res is Err
            ==> change_rejected(res, "INTERNAL"@)),
        stored is Ok && stored->Ok_0 is Some && user::login_accepts(
            (stored->Ok_0)->0@,
            req.old_password@,
        ) && vstd::utf8::encode_utf8(req.new_password@).len() <= passwords::MAX_PASSWORD_BYTES
            ==> res is Ok,
{
    let h = match stored {
        Err(_) => return Err(change_password_failure("INTERNAL")),
        Ok(None) => return Err(change_password_failure("user not found")),
        Ok(Some(h)) => h,
    };
    match passwords::check_password(h.as_str(), req.old_password.as_str()) {
        None => Err(change_password_failure("INTERNAL")),
        Some(false) => Err(change_password_failure("current password is incorrect")),
        Some(true) => match passwords::hash_password(req.new_password.as_str()) {
            Some(n) => Ok(n),
            None => Err(change_password_failure("INTERNAL")),
        },
    }
}

/// The answer once the new hash was written.
pub fn change_password_outcome(update: Result<u64, ()>) -> (res: ChangePasswordResponse)
    ensures
        update is Ok ==> res is Success,
        update is Err ==> change_password_error(res, "INTERNAL"@),
{
    match update {
        Ok(_) => ChangePasswordResponse::Success,
        Err(_) => change_password_failure("INTERNAL"),
    }
}

} // verus!
