//! The process-wide session record, written once at the end of bootstrap.

use vstd::prelude::*;

verus! {

/// Credentials and identity of the running agent.
pub struct GlobalState {
    pub node_id: Option<String>,
    pub name: Option<String>,
    pub email: Option<String>,
    pub pass_sha256: Option<String>,
    pub pass_sha384: Option<String>,
    pub tyb_apikey: Option<String>,
}

impl GlobalState {
    /// Every field of the record holds a value.
    pub open spec fn populated(&self) -> bool {
        &&& self.node_id.is_some()
        &&& self.name.is_some()
        &&& self.email.is_some()
        &&& self.pass_sha256.is_some()
        &&& self.pass_sha384.is_some()
        &&& self.tyb_apikey.is_some()
    }

    /// No field of the record holds a value.
    pub open spec fn is_blank(&self) -> bool {
        &&& self.node_id.is_none()
        &&& self.name.is_none()
        &&& self.email.is_none()
        &&& self.pass_sha256.is_none()
        &&& self.pass_sha384.is_none()
        &&& self.tyb_apikey.is_none()
    }

    /// The record before bootstrap: every field empty.
    pub fn new() -> (r: GlobalState)
        ensures
            r.is_blank(),
    {
        GlobalState {
            node_id: None,
            name: None,
            email: None,
            pass_sha256: None,
            pass_sha384: None,
            tyb_apikey: None,
        }
    }

    /// Whether every field is set, which must hold before requests are served.
    pub fn check_status(&self) -> (r: bool)
        ensures
            r == self.populated(),
    {
        self.node_id.is_some() && self.name.is_some() && self.email.is_some()
            && self.pass_sha256.is_some() && self.pass_sha384.is_some()
            && self.tyb_apikey.is_some()
    }

    /// The record that bootstrap leaves behind: it holds exactly the values
    /// that bootstrap derived.
    pub fn establish(
        node_id: String,
        name: String,
        email: String,
        pass_sha256: String,
        pass_sha384: String,
        tyb_apikey: String,
    ) -> (r: GlobalState)
        ensures
            r.populated(),
            r.node_id == Some(node_id),
            r.name == Some(name),
            r.email == Some(email),
            r.pass_sha256 == Some(pass_sha256),
            r.pass_sha384 == Some(pass_sha384),
            r.tyb_apikey == Some(tyb_apikey),
    {
        GlobalState {
            node_id: Some(node_id),
            name: Some(name),
            email: Some(email),
            pass_sha256: Some(pass_sha256),
            pass_sha384: Some(pass_sha384),
            tyb_apikey: Some(tyb_apikey),
        }
    }
}

} // verus!
