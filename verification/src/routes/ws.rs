//! The event socket: who may open it.

use crate::auth::{socket_authorized, verify_token_spec};
use vstd::prelude::*;

verus! {

/// The query of a request to open the event socket. The token travels in the
/// query because a browser cannot set headers on such a request.
#[derive(Clone, Debug)]
pub struct WsQuery {
    pub token: Option<String>,
}

impl WsQuery {
    /// Whether the socket may be opened: the query must carry a token that
    /// verifies.
    pub fn authorized(&self, secret: &str) -> (ok: bool)
        ensures
            ok == match self.token {
                Some(t) => verify_token_spec(t@, secret@).is_some(),
                None => false,
            },
    {
        match &self.token {
            Some(t) => socket_authorized(Some(t.as_str()), secret),
            None => socket_authorized(None, secret),
        }
    }
}

} // verus!
