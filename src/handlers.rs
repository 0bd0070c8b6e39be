//! What each endpoint answers, given what its operation returned.

use vstd::prelude::*;
use crate::proj_utils::{error_text, ProjError};

verus! {

/// Status and body of a reply to the caller.
pub struct Reply {
    pub status: u16,
    pub body: String,
}

/// Body of a successful reply.
pub const SUCCESS: &'static str = "success";

/// Body of the unauthenticated liveness endpoint.
pub const ALIVE: &'static str = "alive";

/// Bundles larger than this many bytes are compressed before they are sent.
pub const COMPRESS_ABOVE: usize = 5000000;

fn reply(status: u16, body: String) -> (r: Reply)
    ensures
        r.status == status,
        r.body == body,
{
    Reply { status, body }
}

fn success() -> (r: Reply)
    ensures
        r.status == 200,
        r.body@ == SUCCESS@,
{
    reply(200, String::from_str(SUCCESS))
}

/// Reply of project creation: an existing project is a success when the
/// request says `confirm=false`, else a conflict.
pub fn create_proj_reply(res: Result<(), ProjError>, confirm: Option<bool>) -> (r: Reply)
    ensures
        r.status == (match res {
            Ok(()) => 200u16,
            Err(ProjError::AlreadyExists) => if confirm == Some(false) {
                200u16
            } else {
                409u16
            },
            Err(_) => 500u16,
        }),
        r.status == 200 ==> r.body@ == SUCCESS@,
        r.status == 409 ==> r.body@ == "Project Already Exists -> "@ + error_text(
            ProjError::AlreadyExists,
        ),
        res matches Err(e) ==> (r.status == 500 ==> r.body@ == error_text(e)),
{
    match res {
        Ok(()) => success(),
        Err(ProjError::AlreadyExists) => {
            if let Some(false) = confirm {
                success()
            } else {
                reply(
                    409,
                    String::from_str("Project Already Exists -> ").concat(
                        ProjError::AlreadyExists.message().as_str(),
                    ),
                )
            }
        },
        Err(e) => reply(500, e.message()),
    }
}

/// Reply of project deletion: a missing project is a success when the
/// request says `confirm=false`, else a conflict.
pub fn delete_proj_reply(res: Result<(), ProjError>, confirm: Option<bool>) -> (r: Reply)
    ensures
        r.status == (match res {
            Ok(()) => 200u16,
            Err(ProjError::DoesNotExist) => if confirm == Some(false) {
                200u16
            } else {
                409u16
            },
            Err(_) => 500u16,
        }),
        r.status == 200 ==> r.body@ == SUCCESS@,
        r.status == 409 ==> r.body@ == "Project does not exist -> "@ + error_text(
            ProjError::DoesNotExist,
        ),
        res matches Err(e) ==> (r.status == 500 ==> r.body@ == error_text(e)),
{
    match res {
        Ok(()) => success(),
        Err(ProjError::DoesNotExist) => {
            if let Some(false) = confirm {
                success()
            } else {
                reply(
                    409,
                    String::from_str("Project does not exist -> ").concat(
                        ProjError::DoesNotExist.message().as_str(),
                    ),
                )
            }
        },
        Err(e) => reply(500, e.message()),
    }
}

/// Reply of an operation that returns nothing: success, or 500 with
/// `context` followed by the error.
pub fn unit_reply(res: Result<(), String>, context: &str) -> (r: Reply)
    ensures
        match res {
            Ok(()) => r.status == 200 && r.body@ == SUCCESS@,
            Err(e) => r.status == 500 && r.body@ == context@ + e@,
        },
{
    match res {
        Ok(()) => success(),
        Err(e) => reply(500, String::from_str(context).concat(e.as_str())),
    }
}

/// Reply of an operation that returns text: the text, or 500 with
/// `context` followed by the error.
pub fn text_reply(res: Result<String, String>, context: &str) -> (r: Reply)
    ensures
        match res {
            Ok(t) => r.status == 200 && r.body@ == t@,
            Err(e) => r.status == 500 && r.body@ == context@ + e@,
        },
{
    match res {
        Ok(t) => reply(200, t),
        Err(e) => reply(500, String::from_str(context).concat(e.as_str())),
    }
}

/// Reply of the daemon status: `true` or `false`, or 500 with the error.
pub fn daemon_status_reply(res: Result<bool, String>) -> (r: Reply)
    ensures
        match res {
            Ok(b) => r.status == 200 && r.body@ == (if b {
                "true"@
            } else {
                "false"@
            }),
            Err(e) => r.status == 500 && r.body@ == "Error getting daemon status: "@ + e@,
        },
{
    match res {
        Ok(true) => reply(200, String::from_str("true")),
        Ok(false) => reply(200, String::from_str("false")),
        Err(e) => reply(500, String::from_str("Error getting daemon status: ").concat(e.as_str())),
    }
}

/// Whether a bundle of `len` bytes is compressed before it is sent.
pub fn needs_compression(len: usize) -> (r: bool)
    ensures
        r == (len > COMPRESS_ABOVE),
{
    len > COMPRESS_ABOVE
}

/// Reply to a path that names no endpoint.
pub fn handle_404(uri: &str) -> (r: Reply)
    ensures
        r.status == 404,
        r.body@ == "404: `"@ + uri@ + "` is not a valid path."@,
{
    reply(404, String::from_str("404: `").concat(uri).concat("` is not a valid path."))
}

/// What bootstrap does with the control plane's answer to a login.
#[derive(PartialEq, Eq, Structural, Clone, Copy)]
pub enum LoginStep {
    /// The body is the salt that the API key is derived from.
    UseSalt,
    /// Stop bootstrap with this exit status.
    Exit(u8),
}

/// A rejected login ends bootstrap quietly (status 0); any other failure
/// ends it with status 1.
pub fn login_step(status: u16) -> (r: LoginStep)
    ensures
        r == (if status == 403 {
            LoginStep::Exit(0)
        } else if 200 <= status < 300 {
            LoginStep::UseSalt
        } else {
            LoginStep::Exit(1)
        }),
{
    if status == 403 {
        LoginStep::Exit(0)
    } else if 200 <= status && status < 300 {
        LoginStep::UseSalt
    } else {
        LoginStep::Exit(1)
    }
}

/// Whether bootstrap may go on on this host: a release build runs on Linux
/// only.
pub fn host_supported(is_linux: bool, debug: bool) -> (r: bool)
    ensures
        r == (is_linux || debug),
{
    is_linux || debug
}

} // verus!
