use vstd::prelude::*;

use crate::codec::{self, json_encode_bytes};

verus! {

/// The cookie a client presents to resume a session: the random session id
/// and the HMAC-SHA256 signature of that id.
#[derive(Debug)]
pub struct Cookie {
    pub session_id: [u8; 16],
    pub signature: [u8; 32],
}

/// A cookie together with a hexadecimal signature of its JSON form.
#[derive(Debug)]
pub struct SignedCookie {
    pub cookie: Cookie,
    pub signiture: String,
}

/// The compact JSON text of a cookie, as `serde_json` writes the struct:
/// its two fields in order, each an array of numbers.
pub open spec fn cookie_json(c: Cookie) -> Seq<char> {
    "{\"session_id\":"@ + codec::json_byte_array(c.session_id@) + ",\"signature\":"@ + codec::json_byte_array(
        c.signature@,
    ) + "}"@
}

impl Cookie {
    pub fn new(session_id: [u8; 16], signature: [u8; 32]) -> (res: Self)
        ensures
            res.session_id@ == session_id@,
            res.signature@ == signature@,
    {
        Self { session_id, signature }
    }

    /// The JSON text of the cookie, the payload that the cookie signature
    /// covers.
    pub fn to_json(&self) -> (res: String)
        ensures
            res@ == cookie_json(*self),
    {
        let mut out = String::from_str("{\"session_id\":");
        let ids = json_encode_bytes(self.session_id.as_slice());
        out.append(ids.as_str());
        out.append(",\"signature\":");
        let sig = json_encode_bytes(self.signature.as_slice());
        out.append(sig.as_str());
        out.append("}");
        out
    }
}

} // verus!
