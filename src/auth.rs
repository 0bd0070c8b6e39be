//! The guard that every protected endpoint passes before it acts.

use vstd::prelude::*;
use crate::global_state::GlobalState;
use crate::text::same_text;

verus! {

/// Name of the request header that carries the session API key.
pub const TYB_APIKEY_HTTP_HEADER: &'static str = "tyb-api-key";

/// Status of a request that the guard turns away.
pub const FORBIDDEN: u16 = 403;

/// The header matches the session key character for character.
pub open spec fn key_accepted(header: Option<Seq<char>>, state: GlobalState) -> bool {
    match (header, state.tyb_apikey) {
        (Some(h), Some(k)) => h == k@,
        _ => false,
    }
}

/// Proof that a request passed the guard. Only `from_request` makes one,
/// so a handler that takes it cannot run for a refused request.
pub struct ApiKey {
    key: String,
}

impl ApiKey {
    pub closed spec fn view_key(&self) -> Seq<char> {
        self.key@
    }

    /// Admits the request when its header equals the session key; otherwise
    /// refuses it with 403.
    pub fn from_request(header: Option<&str>, state: &GlobalState) -> (r: Result<ApiKey, u16>)
        ensures
            key_accepted(
                match header {
                    Some(h) => Some(h@),
                    None => None,
                },
                *state,
            ) <==> r.is_ok(),
            r matches Ok(k) ==> header matches Some(h) && k.view_key() == h@,
            r matches Err(code) ==> code == FORBIDDEN,
    {
        match header {
            Some(h) => match &state.tyb_apikey {
                Some(k) => {
                    if same_text(h, k.as_str()) {
                        Ok(ApiKey { key: String::from_str(h) })
                    } else {
                        Err(FORBIDDEN)
                    }
                },
                None => Err(FORBIDDEN),
            },
            None => Err(FORBIDDEN),
        }
    }

    /// The key that the request presented.
    pub fn key(&self) -> (r: &str)
        ensures
            r@ == self.view_key(),
    {
        self.key.as_str()
    }
}

/// No request without the header, or with a header that differs from the
/// session key, gets past the guard.
pub proof fn lemma_auth_gate(header: Option<Seq<char>>, state: GlobalState)
    requires
        header.is_none() || state.tyb_apikey.is_none() || header.unwrap() != state.tyb_apikey.unwrap()@,
    ensures
        !key_accepted(header, state),
{
}

} // verus!
