use chat_server::permissions::{
    admin_env_line, can_create_text_channel, is_mod, is_staff, AdminId, MinRole,
};

const A: u128 = 0xa1a2a3a4_b1b2_c1c2_d1d2_d3d4d5d6d7d8;
const B: u128 = 0x550e8400_e29b_41d4_a716_446655440000;

#[test]
fn admin_id_get_set_is() {
    let mut admin = AdminId::new(None);
    assert!(admin.is_unset());
    assert_eq!(admin.get(), None);
    assert!(!admin.is(A));
    admin.set(A);
    assert!(!admin.is_unset());
    assert_eq!(admin.get(), Some(A));
    assert!(admin.is(A));
    assert!(!admin.is(B));
    admin.set(B);
    assert_eq!(admin.get(), Some(B));
}

#[test]
fn first_registered_user_becomes_admin() {
    let mut admin = AdminId::new(None);
    assert!(admin.bootstrap(A));
    assert_eq!(admin.get(), Some(A));
    assert!(!admin.bootstrap(B));
    assert_eq!(admin.get(), Some(A));
    let mut configured = AdminId::new(Some(B));
    assert!(!configured.bootstrap(A));
    assert_eq!(configured.get(), Some(B));
}

#[test]
fn admin_setting_is_read_as_an_id() {
    let text = uuid::Uuid::from_u128(A).to_string();
    assert_eq!(AdminId::from_setting(Some(&text)).get(), Some(A));
    assert_eq!(AdminId::from_setting(Some(&format!("  {}\n", text))).get(), Some(A));
    assert_eq!(AdminId::from_setting(Some(&text.to_uppercase())).get(), Some(A));
    assert_eq!(AdminId::from_setting(Some("a1a2a3a4b1b2c1c2d1d2d3d4d5d6d7d8")).get(), Some(A));
    assert_eq!(AdminId::from_setting(Some("")).get(), None);
    assert_eq!(AdminId::from_setting(Some("   ")).get(), None);
    assert_eq!(AdminId::from_setting(Some("not-an-id")).get(), None);
    assert_eq!(AdminId::from_setting(None).get(), None);
}

#[test]
fn persisted_admin_line_reads_back() {
    let line = admin_env_line(B);
    assert_eq!(line, "ADMIN_USER_ID=550e8400-e29b-41d4-a716-446655440000\n");
    let value = line.strip_prefix("ADMIN_USER_ID=").unwrap();
    assert_eq!(AdminId::from_setting(Some(value)).get(), Some(B));
}

#[test]
fn moderator_flag_from_row() {
    assert!(!is_mod(None));
    assert!(!is_mod(Some(0)));
    assert!(is_mod(Some(1)));
    assert!(is_mod(Some(-3)));
}

#[test]
fn staff_is_admin_or_moderator() {
    let admin = AdminId::new(Some(A));
    assert!(is_staff(&admin, A, false));
    assert!(is_staff(&admin, B, true));
    assert!(!is_staff(&admin, B, false));
    assert!(!is_staff(&AdminId::new(None), B, false));
}

#[test]
fn min_role_setting() {
    assert_eq!(MinRole::from_setting(Some("user")), MinRole::User);
    assert_eq!(MinRole::from_setting(Some("mod")), MinRole::Mod);
    assert_eq!(MinRole::from_setting(Some("admin")), MinRole::Admin);
    assert_eq!(MinRole::from_setting(Some("User")), MinRole::Admin);
    assert_eq!(MinRole::from_setting(Some(" mod")), MinRole::Admin);
    assert_eq!(MinRole::from_setting(None), MinRole::Admin);
}

#[test]
fn who_may_create_text_channels() {
    let admin = AdminId::new(Some(A));
    assert!(can_create_text_channel(MinRole::User, &admin, B, false));
    assert!(can_create_text_channel(MinRole::Mod, &admin, B, true));
    assert!(!can_create_text_channel(MinRole::Mod, &admin, B, false));
    assert!(can_create_text_channel(MinRole::Mod, &admin, A, false));
    assert!(can_create_text_channel(MinRole::Admin, &admin, A, false));
    assert!(!can_create_text_channel(MinRole::Admin, &admin, B, true));
}

#[test]
fn moderator_flag_is_needed_only_under_the_mod_rule() {
    let admin = AdminId::new(Some(A));
    assert!(MinRole::Mod.needs_mod_flag(&admin, B));
    assert!(!MinRole::Mod.needs_mod_flag(&admin, A));
    assert!(!MinRole::User.needs_mod_flag(&admin, B));
    assert!(!MinRole::Admin.needs_mod_flag(&admin, B));
}
