use chat_server::keys::{
    validate_upload_bundle, FetchBundleResponse, FetchedOneTimePrekey, KeyBundle, OneTimePrekeyUpload,
    PrekeyCountResponse, UploadBundleRequest, UploadBundleResponse,
};

fn good_request() -> UploadBundleRequest {
    UploadBundleRequest {
        identity_key: vec![1; 32],
        signing_key: vec![2; 32],
        signed_prekey: vec![3; 32],
        signed_prekey_signature: vec![4; 64],
        signed_prekey_id: 1,
        one_time_prekeys: vec![
            OneTimePrekeyUpload { prekey_id: 10, public_key: vec![5; 32] },
            OneTimePrekeyUpload { prekey_id: 11, public_key: vec![6; 32] },
        ],
    }
}

fn problem(req: &UploadBundleRequest) -> String {
    validate_upload_bundle(req).unwrap_err()
}

#[test]
fn a_well_sized_bundle_is_accepted() {
    assert!(validate_upload_bundle(&good_request()).is_ok());
    let mut none = good_request();
    none.one_time_prekeys.clear();
    assert!(validate_upload_bundle(&none).is_ok());
}

#[test]
fn each_size_problem_is_reported_in_order() {
    let mut r = good_request();
    r.identity_key.pop();
    r.signing_key.pop();
    assert_eq!(problem(&r), "identity_key must be 32 bytes");
    let mut r = good_request();
    r.signing_key.push(0);
    assert_eq!(problem(&r), "signing_key must be 32 bytes");
    let mut r = good_request();
    r.signed_prekey.clear();
    assert_eq!(problem(&r), "signed_prekey must be 32 bytes");
    let mut r = good_request();
    r.signed_prekey_signature.truncate(32);
    assert_eq!(problem(&r), "signed_prekey_signature must be 64 bytes");
    let mut r = good_request();
    r.one_time_prekeys[1].public_key.pop();
    assert_eq!(problem(&r), "one-time prekey 11 must be 32 bytes");
    let mut r = good_request();
    r.one_time_prekeys.push(OneTimePrekeyUpload { prekey_id: -5, public_key: vec![] });
    r.one_time_prekeys.push(OneTimePrekeyUpload { prekey_id: 99, public_key: vec![] });
    assert_eq!(problem(&r), "one-time prekey -5 must be 32 bytes");
}

#[test]
fn upload_answers() {
    match UploadBundleResponse::for_upload(&good_request(), Ok(())) {
        UploadBundleResponse::Success { one_time_prekey_count } => assert_eq!(one_time_prekey_count, 2),
        other => panic!("unexpected {:?}", other),
    }
    match UploadBundleResponse::for_upload(&good_request(), Err(())) {
        UploadBundleResponse::Error { reason } => assert_eq!(reason, "INTERNAL"),
        other => panic!("unexpected {:?}", other),
    }
    let mut bad = good_request();
    bad.identity_key.clear();
    match UploadBundleResponse::for_upload(&bad, Ok(())) {
        UploadBundleResponse::Error { reason } => assert_eq!(reason, "identity_key must be 32 bytes"),
        other => panic!("unexpected {:?}", other),
    }
}

#[test]
fn fetch_answers() {
    match FetchBundleResponse::for_fetch(5, None, None) {
        FetchBundleResponse::Error { reason } => assert_eq!(reason, "no bundle uploaded for that user yet"),
        other => panic!("unexpected {:?}", other),
    }
    let bundle = KeyBundle {
        identity_key: vec![1; 32],
        signing_key: vec![2; 32],
        signed_prekey: vec![3; 32],
        signed_prekey_signature: vec![4; 64],
        signed_prekey_id: 8,
    };
    let otk = FetchedOneTimePrekey { prekey_id: 3, public_key: vec![7; 32] };
    match FetchBundleResponse::for_fetch(5, Some(bundle), Some(otk)) {
        FetchBundleResponse::Success { user_id, identity_key, signed_prekey_id, one_time_prekey, .. } => {
            assert_eq!(user_id, 5);
            assert_eq!(identity_key, vec![1; 32]);
            assert_eq!(signed_prekey_id, 8);
            assert_eq!(one_time_prekey.unwrap().prekey_id, 3);
        }
        other => panic!("unexpected {:?}", other),
    }
}

#[test]
fn count_answers() {
    assert!(matches!(PrekeyCountResponse::for_count(Ok(4)), PrekeyCountResponse::Success { count: 4 }));
    match PrekeyCountResponse::for_count(Err(())) {
        PrekeyCountResponse::Error { reason } => assert_eq!(reason, "INTERNAL"),
        other => panic!("unexpected {:?}", other),
    }
}

#[test]
fn signed_out_key_requests_are_unauthenticated() {
    assert!(matches!(UploadBundleResponse::unauthenticated(),
        UploadBundleResponse::Error { reason } if reason == "UNAUTHENTICATED"));
    assert!(matches!(FetchBundleResponse::unauthenticated(),
        FetchBundleResponse::Error { reason } if reason == "UNAUTHENTICATED"));
    assert!(matches!(PrekeyCountResponse::unauthenticated(),
        PrekeyCountResponse::Error { reason } if reason == "UNAUTHENTICATED"));
}

#[test]
fn key_requests_need_a_signed_in_user() {
    assert_eq!(UploadBundleResponse::signed_in(Some(42)).unwrap(), 42);
    assert_eq!(FetchBundleResponse::signed_in(Some(7)).unwrap(), 7);
    assert_eq!(PrekeyCountResponse::signed_in(Some(9)).unwrap(), 9);
    assert!(matches!(UploadBundleResponse::signed_in(None),
        Err(UploadBundleResponse::Error { reason }) if reason == "UNAUTHENTICATED"));
    assert!(matches!(FetchBundleResponse::signed_in(None),
        Err(FetchBundleResponse::Error { reason }) if reason == "UNAUTHENTICATED"));
    assert!(matches!(PrekeyCountResponse::signed_in(None),
        Err(PrekeyCountResponse::Error { reason }) if reason == "UNAUTHENTICATED"));
}
