//! Roles: the single admin, moderators, and who may create text channels.
use vstd::prelude::*;

use crate::ids;
use crate::text;

verus! {

/// The admin's id, if an admin is configured. The first user to register
/// becomes the admin when none is.
#[derive(Clone, Copy, Debug)]
pub struct AdminId {
    id: Option<u128>,
}

impl View for AdminId {
    type V = Option<u128>;

    closed spec fn view(&self) -> Option<u128> {
        self.id
    }
}

/// The admin after a user registers: the first user becomes the admin when
/// there is none; otherwise the admin stays.
pub open spec fn admin_after_registration(admin: Option<u128>, user: u128) -> Option<u128> {
    match admin {
        None => Some(user),
        Some(a) => Some(a),
    }
}

/// The admin after users register one after the other.
pub open spec fn admin_after_registrations(admin: Option<u128>, users: Seq<u128>) -> Option<u128>
    decreases users.len(),
{
    if users.len() == 0 {
        admin
    } else {
        admin_after_registrations(admin_after_registration(admin, users[0]), users.drop_first())
    }
}

/// The admin that an `ADMIN_USER_ID` setting names: the trimmed text, read
/// as an id; nothing when the setting is absent, blank or not an id.
pub open spec fn admin_from_setting(raw: Option<Seq<char>>) -> Option<u128> {
    match raw {
        None => None,
        Some(s) => {
            let t = text::trimmed(s);
            if t.len() == 0 {
                None
            } else {
                ids::parsed_id(t)
            }
        },
    }
}

impl AdminId {
    pub fn new(id: Option<u128>) -> (res: Self)
        ensures
            res@ == id,
    {
        AdminId { id }
    }

    /// The admin named by the `ADMIN_USER_ID` setting. The hyphenated text
    /// of an id, which `admin_env_line` persists, names that id.
    pub fn from_setting(raw: Option<&str>) -> (res: Self)
        ensures
            res@ == admin_from_setting(
                match raw {
                    None => None,
                    Some(s) => Some(s@),
                },
            ),
            forall|id: u128| #[trigger] ids::id_text(id) == text::trimmed(
                match raw {
                    None => Seq::<char>::empty(),
                    Some(s) => s@,
                },
            ) && raw is Some ==> res@ == Some(id),
    {
        match raw {
            None => AdminId { id: None },
            Some(s) => {
                let t = text::trim(s);
                if t.is_empty() {
                    proof {
                        assert forall|id: u128| #[trigger] ids::id_text(id) == t@ implies false by {
                            ids::lemma_id_text_ends(id);
                        }
                    }
                    AdminId { id: None }
                } else {
                    match ids::id_from_text(t) {
                        Ok(id) => AdminId { id: Some(id) },
                        Err(_) => AdminId { id: None },
                    }
                }
            },
        }
    }

    pub fn get(&self) -> (res: Option<u128>)
        ensures
            res == self@,
    {
        self.id
    }

    pub fn set(&mut self, id: u128)
        ensures
            final(self)@ == Some(id),
    {
        self.id = Some(id);
    }

    pub fn is_unset(&self) -> (res: bool)
        ensures
            res == (self@ is None),
    {
        self.id.is_none()
    }

    pub fn is(&self, user_id: u128) -> (res: bool)
        ensures
            res == (self@ == Some(user_id)),
    {
        match self.id {
            Some(a) => a == user_id,
            None => false,
        }
    }

    /// What registration does to the admin: a new user becomes the admin
    /// when none is set. Returns whether the user was promoted, in which
    /// case the new admin is to be persisted.
    pub fn bootstrap(&mut self, user_id: u128) -> (promoted: bool)
        ensures
            promoted == (old(self)@ is None),
            final(self)@ == admin_after_registration(old(self)@, user_id),
    {
        if self.is_unset() {
            self.set(user_id);
            true
        } else {
            false
        }
    }
}

/// The line appended to the `.env` file to persist the admin:
/// `ADMIN_USER_ID=` and the hyphenated id, then a newline.
pub open spec fn admin_env_line_text(id: u128) -> Seq<char> {
    "ADMIN_USER_ID="@ + ids::id_text(id) + seq!['\n']
}

pub fn admin_env_line(id: u128) -> (res: String)
    ensures
        res@ == admin_env_line_text(id),
{
    let mut line = String::from_str("ADMIN_USER_ID=");
    let t = ids::id_to_text(id);
    line.append(t.as_str());
    text::push_char(&mut line, '\n');
    line
}

/// The first user to register becomes the admin, and no later registration
/// changes the admin; an admin that is already configured never changes.
pub proof fn lemma_first_registered_user_is_admin(admin: Option<u128>, users: Seq<u128>)
    ensures
        users.len() > 0 && admin is None ==> admin_after_registrations(admin, users) == Some(
            users[0],
        ),
        admin is Some ==> admin_after_registrations(admin, users) == admin,
    decreases users.len(),
{
    if users.len() > 0 {
        let next = admin_after_registration(admin, users[0]);
        lemma_first_registered_user_is_admin(next, users.drop_first());
    }
}

/// Whether a user's stored moderator flag is set: a missing row counts as
/// not a moderator, any non-zero flag as a moderator.
pub fn is_mod(row: Option<i64>) -> (res: bool)
    ensures
        res == (row matches Some(v) && v != 0),
{
    match row {
        Some(v) => v != 0,
        None => false,
    }
}

/// Whether a user is staff: the admin, or a moderator. `mod_flag` is the
/// user's moderator flag; it is only consulted for a user who is not the
/// admin.
pub fn is_staff(admin: &AdminId, user_id: u128, mod_flag: bool) -> (res: bool)
    ensures
        res == (admin@ == Some(user_id) || mod_flag),
{
    if admin.is(user_id) {
        return true;
    }
    mod_flag
}

/// The least role that may create text channels, from the
/// `CHANNEL_CREATE_MIN_ROLE` setting.
#[derive(Clone, Copy, Debug, PartialEq, Eq, Structural)]
pub enum MinRole {
    User,
    Mod,
    Admin,
}

/// The role a setting names: `user` and `mod` name those roles; anything
/// else, and no setting, means the admin only.
pub open spec fn min_role_from_setting(raw: Option<Seq<char>>) -> MinRole {
    match raw {
        Some(s) => if s == "user"@ {
            MinRole::User
        } else if s == "mod"@ {
            MinRole::Mod
        } else {
            MinRole::Admin
        },
        None => MinRole::Admin,
    }
}

/// Whether the role a user holds is enough to create a text channel.
pub open spec fn may_create_text_channel(
    role: MinRole,
    admin: Option<u128>,
    user_id: u128,
    mod_flag: bool,
) -> bool {
    match role {
        MinRole::User => true,
        MinRole::Mod => admin == Some(user_id) || mod_flag,
        MinRole::Admin => admin == Some(user_id),
    }
}

impl MinRole {
    pub fn from_setting(raw: Option<&str>) -> (res: MinRole)
        ensures
            res == min_role_from_setting(
                match raw {
                    None => None,
                    Some(s) => Some(s@),
                },
            ),
    {
        match raw {
            None => MinRole::Admin,
            Some(s) => {
                let given = String::from_str(s);
                if given == String::from_str("user") {
                    MinRole::User
                } else if given == String::from_str("mod") {
                    MinRole::Mod
                } else {
                    MinRole::Admin
                }
            },
        }
    }

    /// Whether deciding for this user needs the user's moderator flag:
    /// only under the moderator rule, and only for a user who is not the
    /// admin.
    pub fn needs_mod_flag(self, admin: &AdminId, user_id: u128) -> (res: bool)
        ensures
            res == (self == MinRole::Mod && admin@ != Some(user_id)),
    {
        match self {
            MinRole::Mod => !admin.is(user_id),
            _ => false,
        }
    }
}

/// Whether a user may create a text channel under the configured rule.
pub fn can_create_text_channel(
    role: MinRole,
    admin: &AdminId,
    user_id: u128,
    mod_flag: bool,
) -> (res: bool)
    ensures
        res == may_create_text_channel(role, admin@, user_id, mod_flag),
        role == MinRole::User ==> res,
        role == MinRole::Mod && mod_flag ==> res,
        role == MinRole::Mod && !mod_flag ==> res == (admin@ == Some(user_id)),
        role == MinRole::Admin ==> res == (admin@ == Some(user_id)),
{
    match role {
        MinRole::User => true,
        MinRole::Mod => is_staff(admin, user_id, mod_flag),
        MinRole::Admin => admin.is(user_id),
    }
}

/// The admin may create text channels under every rule; under the admin
/// rule nobody else may; under the user rule everyone may; under the
/// moderator rule every moderator may, and of the others only the admin;
/// whether a moderator flag is set only matters under the moderator rule.
pub proof fn lemma_text_channel_rules(role: MinRole, admin: Option<u128>, user_id: u128, flag: bool)
    ensures
        admin == Some(user_id) ==> may_create_text_channel(role, admin, user_id, flag),
        role == MinRole::Admin && admin != Some(user_id) ==> !may_create_text_channel(
            role,
            admin,
            user_id,
            flag,
        ),
        role != MinRole::Mod ==> may_create_text_channel(role, admin, user_id, flag)
            == may_create_text_channel(role, admin, user_id, !flag),
        may_create_text_channel(MinRole::User, admin, user_id, flag),
        may_create_text_channel(MinRole::Mod, admin, user_id, true),
        may_create_text_channel(MinRole::Mod, admin, user_id, false) <==> admin == Some(user_id),
        may_create_text_channel(MinRole::Admin, admin, user_id, flag) <==> admin == Some(user_id),
{
}

} // verus!
