//! Key bundles for end-to-end encrypted direct messages (X3DH): a user's
//! identity key, signing key, signed prekey and a pool of one-time prekeys.
use vstd::prelude::*;

use crate::text;

verus! {

/// Length of an X25519 / Ed25519 public key in bytes.
pub const KEY_BYTES: usize = 32;

/// Length of an Ed25519 signature in bytes.
pub const SIGNATURE_BYTES: usize = 64;

#[derive(Debug)]
pub struct OneTimePrekeyUpload {
    pub prekey_id: i64,
    pub public_key: Vec<u8>,
}

#[derive(Debug)]
pub struct UploadBundleRequest {
    pub identity_key: Vec<u8>,
    pub signing_key: Vec<u8>,
    pub signed_prekey: Vec<u8>,
    pub signed_prekey_signature: Vec<u8>,
    pub signed_prekey_id: i64,
    pub one_time_prekeys: Vec<OneTimePrekeyUpload>,
}

#[derive(Debug)]
pub enum UploadBundleResponse {
    Success { one_time_prekey_count: i64 },
    Error { reason: String },
}

#[derive(Debug)]
pub struct FetchBundleRequest {
    pub user_id: u128,
}

#[derive(Debug)]
pub struct FetchedOneTimePrekey {
    pub prekey_id: i64,
    pub public_key: Vec<u8>,
}

/// A stored key bundle.
#[derive(Debug)]
pub struct KeyBundle {
    pub identity_key: Vec<u8>,
    pub signing_key: Vec<u8>,
    pub signed_prekey: Vec<u8>,
    pub signed_prekey_signature: Vec<u8>,
    pub signed_prekey_id: i64,
}

#[derive(Debug)]
pub enum FetchBundleResponse {
    Success {
        user_id: u128,
        identity_key: Vec<u8>,
        signing_key: Vec<u8>,
        signed_prekey: Vec<u8>,
        signed_prekey_signature: Vec<u8>,
        signed_prekey_id: i64,
        /// `None` when the user has no one-time prekeys left; the client then
        /// runs the initial X3DH with the signed prekey alone.
        one_time_prekey: Option<FetchedOneTimePrekey>,
    },
    Error { reason: String },
}

#[derive(Debug)]
pub enum PrekeyCountResponse {
    Success { count: i64 },
    Error { reason: String },
}

/// The id of the first one-time prekey whose public key is not 32 bytes.
pub open spec fn first_bad_prekey(keys: Seq<OneTimePrekeyUpload>) -> Option<i64>
    decreases keys.len(),
{
    if keys.len() == 0 {
        None
    } else if keys[0].public_key@.len() != KEY_BYTES {
        Some(keys[0].prekey_id)
    } else {
        first_bad_prekey(keys.drop_first())
    }
}

/// What is wrong with an uploaded bundle, checked in order: the identity
/// key, signing key and signed prekey must be 32 bytes, the signature 64
/// bytes, and every one-time prekey 32 bytes.
pub open spec fn bundle_problem(req: UploadBundleRequest) -> Option<Seq<char>> {
    if req.identity_key@.len() != KEY_BYTES {
        Some("identity_key must be 32 bytes"@)
    } else if req.signing_key@.len() != KEY_BYTES {
        Some("signing_key must be 32 bytes"@)
    } else if req.signed_prekey@.len() != KEY_BYTES {
        Some("signed_prekey must be 32 bytes"@)
    } else if req.signed_prekey_signature@.len() != SIGNATURE_BYTES {
        Some("signed_prekey_signature must be 64 bytes"@)
    } else {
        match first_bad_prekey(req.one_time_prekeys@) {
            Some(id) => Some(
                "one-time prekey "@ + text::signed_decimal(id as int) + " must be 32 bytes"@,
            ),
            None => None,
        }
    }
}

proof fn lemma_first_bad_prekey_skip(keys: Seq<OneTimePrekeyUpload>, i: int)
    requires
        0 <= i < keys.len(),
        keys[i].public_key@.len() == KEY_BYTES,
    ensures
        first_bad_prekey(keys.subrange(i, keys.len() as int)) == first_bad_prekey(
            keys.subrange(i + 1, keys.len() as int),
        ),
{
    let s = keys.subrange(i, keys.len() as int);
    assert(s[0] == keys[i]);
    assert(s.drop_first() =~= keys.subrange(i + 1, keys.len() as int));
}

/// No one-time prekey is reported exactly when every one-time prekey is 32
/// bytes.
proof fn lemma_first_bad_prekey_none(keys: Seq<OneTimePrekeyUpload>)
    ensures
        first_bad_prekey(keys) is None <==> forall|i: int|
            0 <= i < keys.len() ==> #[trigger] keys[i].public_key@.len() == 32,
    decreases keys.len(),
{
    if keys.len() > 0 {
        let rest = keys.drop_first();
        lemma_first_bad_prekey_none(rest);
        if keys[0].public_key@.len() == 32 {
            assert forall|i: int| 0 <= i < keys.len() && i > 0 implies #[trigger] keys[i]
                == rest[i - 1] by {}
            if forall|i: int| 0 <= i < keys.len() ==> #[trigger] keys[i].public_key@.len() == 32 {
                assert forall|j: int| 0 <= j < rest.len() implies #[trigger] rest[j].public_key@.len()
                    == 32 by {
                    assert(rest[j] == keys[j + 1]);
                }
            }
        }
    }
}

/// An uploaded bundle is accepted exactly when the identity key, signing
/// key, signed prekey and every one-time prekey are 32 bytes and the
/// signature 64 bytes. A wrong size is reported for the first field found
/// wrong, in that order.
pub proof fn lemma_upload_sizes(req: UploadBundleRequest)
    ensures
        bundle_problem(req) is None <==> (req.identity_key@.len() == 32
            && req.signing_key@.len() == 32 && req.signed_prekey@.len() == 32
            && req.signed_prekey_signature@.len() == 64 && forall|i: int|
            0 <= i < req.one_time_prekeys@.len()
                ==> #[trigger] req.one_time_prekeys@[i].public_key@.len() == 32),
        req.identity_key@.len() != 32 ==> bundle_problem(req) == Some(
            "identity_key must be 32 bytes"@,
        ),
        req.identity_key@.len() == 32 && req.signing_key@.len() != 32 ==> bundle_problem(req)
            == Some("signing_key must be 32 bytes"@),
        req.identity_key@.len() == 32 && req.signing_key@.len() == 32
            && req.signed_prekey@.len() != 32 ==> bundle_problem(req) == Some(
            "signed_prekey must be 32 bytes"@,
        ),
        req.identity_key@.len() == 32 && req.signing_key@.len() == 32
            && req.signed_prekey@.len() == 32 && req.signed_prekey_signature@.len() != 64
            ==> bundle_problem(req) == Some("signed_prekey_signature must be 64 bytes"@),
{
    lemma_first_bad_prekey_none(req.one_time_prekeys@);
}

/// Checks the sizes of an uploaded bundle before anything is stored; the
/// error is the first problem found.
pub fn validate_upload_bundle(req: &UploadBundleRequest) -> (res: Result<(), String>)
    ensures
        match bundle_problem(*req) {
            None => res is Ok,
            Some(p) => res matches Err(r) && r@ == p,
        },
        res is Ok <==> (req.identity_key@.len() == 32 && req.signing_key@.len() == 32
            && req.signed_prekey@.len() == 32 && req.signed_prekey_signature@.len() == 64
            && forall|i: int|
            0 <= i < req.one_time_prekeys@.len()
                ==> #[trigger] req.one_time_prekeys@[i].public_key@.len() == 32),
        req.identity_key@.len() != 32 ==> (res matches Err(r) && r@
            == "identity_key must be 32 bytes"@),
{
    proof {
        lemma_upload_sizes(*req);
    }
    if req.identity_key.len() != KEY_BYTES {
        return Err(String::from_str("identity_key must be 32 bytes"));
    }
    if req.signing_key.len() != KEY_BYTES {
        return Err(String::from_str("signing_key must be 32 bytes"));
    }
    if req.signed_prekey.len() != KEY_BYTES {
        return Err(String::from_str("signed_prekey must be 32 bytes"));
    }
    if req.signed_prekey_signature.len() != SIGNATURE_BYTES {
        return Err(String::from_str("signed_prekey_signature must be 64 bytes"));
    }
    let keys = &req.one_time_prekeys;
    let mut i: usize = 0;
    assert(keys@.subrange(0, keys@.len() as int) =~= keys@);
    while i < keys.len()
        invariant
            i <= keys@.len(),
            keys@ == req.one_time_prekeys@,
            req.identity_key@.len() == KEY_BYTES,
            req.signing_key@.len() == KEY_BYTES,
            req.signed_prekey@.len() == KEY_BYTES,
            req.signed_prekey_signature@.len() == SIGNATURE_BYTES,
            first_bad_prekey(keys@) == first_bad_prekey(
                keys@.subrange(i as int, keys@.len() as int),
            ),
        decreases keys@.len() - i,
    {
        let k = &keys[i];
        if k.public_key.len() != KEY_BYTES {
            let ghost s = keys@.subrange(i as int, keys@.len() as int);
            assert(s[0] == keys@[i as int]);
            assert(s.len() > 0);
            assert(first_bad_prekey(s) == Some(keys@[i as int].prekey_id));
            let mut msg = String::from_str("one-time prekey ");
            let id = text::decimal_i64(k.prekey_id);
            msg.append(id.as_str());
            msg.append(" must be 32 bytes");
            return Err(msg);
        }
        proof {
            lemma_first_bad_prekey_skip(keys@, i as int);
        }
        i = i + 1;
    }
    assert(keys@.subrange(i as int, keys@.len() as int).len() == 0);
    Ok(())
}

impl UploadBundleResponse {
    /// The answer to an upload from a connection that is not signed in.
    pub fn unauthenticated() -> (res: Self)
        ensures
            res matches UploadBundleResponse::Error { reason } && reason@ == "UNAUTHENTICATED"@,
    {
        UploadBundleResponse::Error { reason: String::from_str("UNAUTHENTICATED") }
    }

    /// The user making the request: the signed-in user of the connection,
    /// or the answer for a connection that is not signed in.
    pub fn signed_in(me: Option<u128>) -> (res: Result<u128, Self>)
        ensures
            me matches Some(u) ==> res == Ok::<u128, Self>(u),
            me is None ==> (res matches Err(UploadBundleResponse::Error { reason }) && reason@
                == "UNAUTHENTICATED"@),
    {
        match me {
            Some(u) => Ok(u),
            None => Err(UploadBundleResponse::unauthenticated()),
        }
    }

    /// The answer to an upload: the size problem, else (once stored) the
    /// number of one-time prekeys now in the pool; a failure to store is
    /// an internal error.
    pub fn for_upload(req: &UploadBundleRequest, stored: Result<(), ()>) -> (res: Self)
        ensures
            res is Success ==> req.identity_key@.len() == 32 && req.signing_key@.len() == 32
                && req.signed_prekey@.len() == 32 && req.signed_prekey_signature@.len() == 64,
            req.identity_key@.len() != 32 ==> (res matches UploadBundleResponse::Error { reason }
                && reason@ == "identity_key must be 32 bytes"@),
            match bundle_problem(*req) {
                Some(p) => res matches UploadBundleResponse::Error { reason } && reason@ == p,
                None => match stored {
                    Ok(()) => res == (UploadBundleResponse::Success {
                        one_time_prekey_count: req.one_time_prekeys@.len() as i64,
                    }),
                    Err(()) => res matches UploadBundleResponse::Error { reason } && reason@
                        == "INTERNAL"@,
                },
            },
    {
        match validate_upload_bundle(req) {
            Err(reason) => UploadBundleResponse::Error { reason },
            Ok(()) => match stored {
                Ok(()) => UploadBundleResponse::Success {
                    one_time_prekey_count: req.one_time_prekeys.len() as i64,
                },
                Err(()) => UploadBundleResponse::Error { reason: String::from_str("INTERNAL") },
            },
        }
    }
}

impl FetchBundleResponse {
    /// The answer to a bundle request from a connection that is not signed
    /// in.
    pub fn unauthenticated() -> (res: Self)
        ensures
            res matches FetchBundleResponse::Error { reason } && reason@ == "UNAUTHENTICATED"@,
    {
        FetchBundleResponse::Error { reason: String::from_str("UNAUTHENTICATED") }
    }

    /// The user making the request: the signed-in user of the connection,
    /// or the answer for a connection that is not signed in.
    pub fn signed_in(me: Option<u128>) -> (res: Result<u128, Self>)
        ensures
            me matches Some(u) ==> res == Ok::<u128, Self>(u),
            me is None ==> (res matches Err(FetchBundleResponse::Error { reason }) && reason@
                == "UNAUTHENTICATED"@),
    {
        match me {
            Some(u) => Ok(u),
            None => Err(FetchBundleResponse::unauthenticated()),
        }
    }

    /// The answer to a bundle request: the stored bundle of the user and the
    /// one-time prekey taken from the pool, if one was left; an error when
    /// the user never uploaded a bundle.
    pub fn for_fetch(
        user_id: u128,
        bundle: Option<KeyBundle>,
        one_time_prekey: Option<FetchedOneTimePrekey>,
    ) -> (res: Self)
        ensures
            bundle is None ==> (res matches FetchBundleResponse::Error { reason } && reason@
                == "no bundle uploaded for that user yet"@),
            bundle matches Some(b) ==> res == (FetchBundleResponse::Success {
                user_id,
                identity_key: b.identity_key,
                signing_key: b.signing_key,
                signed_prekey: b.signed_prekey,
                signed_prekey_signature: b.signed_prekey_signature,
                signed_prekey_id: b.signed_prekey_id,
                one_time_prekey,
            }),
    {
        match bundle {
            None => FetchBundleResponse::Error {
                reason: String::from_str("no bundle uploaded for that user yet"),
            },
            Some(b) => FetchBundleResponse::Success {
                user_id,
                identity_key: b.identity_key,
                signing_key: b.signing_key,
                signed_prekey: b.signed_prekey,
                signed_prekey_signature: b.signed_prekey_signature,
                signed_prekey_id: b.signed_prekey_id,
                one_time_prekey,
            },
        }
    }
}

impl PrekeyCountResponse {
    /// The answer to a count from a connection that is not signed in.
    pub fn unauthenticated() -> (res: Self)
        ensures
            res matches PrekeyCountResponse::Error { reason } && reason@ == "UNAUTHENTICATED"@,
    {
        PrekeyCountResponse::Error { reason: String::from_str("UNAUTHENTICATED") }
    }

    /// The user making the request: the signed-in user of the connection,
    /// or the answer for a connection that is not signed in.
    pub fn signed_in(me: Option<u128>) -> (res: Result<u128, Self>)
        ensures
            me matches Some(u) ==> res == Ok::<u128, Self>(u),
            me is None ==> (res matches Err(PrekeyCountResponse::Error { reason }) && reason@
                == "UNAUTHENTICATED"@),
    {
        match me {
            Some(u) => Ok(u),
            None => Err(PrekeyCountResponse::unauthenticated()),
        }
    }

    /// The answer to a count of one's one-time prekeys.
    pub fn for_count(count: Result<i64, ()>) -> (res: Self)
        ensures
            count matches Ok(n) ==> res == (PrekeyCountResponse::Success { count: n }),
            count is Err ==> (res matches PrekeyCountResponse::Error { reason } && reason@
                == "INTERNAL"@),
    {
        match count {
            Ok(n) => PrekeyCountResponse::Success { count: n },
            Err(()) => PrekeyCountResponse::Error { reason: String::from_str("INTERNAL") },
        }
    }
}

} // verus!
