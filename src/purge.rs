//! Composite teardown of a project: its container and its image are deleted
//! with bounded retries, then its directory. A deletion that finds nothing
//! to delete counts as done.
//!
//! The coordinator decides; the caller runs the deletions it asks for and
//! reports what they returned.

use vstd::prelude::*;
use crate::consts::DEFAULT_PURGE_RETRIES;
use crate::handlers::{Reply, SUCCESS};
use crate::proj_utils::{error_text, ProjError};
use crate::text::{contains, has_sub};

verus! {

/// Marks an image deletion that found no image.
pub const NO_SUCH_IMAGE: &'static str = "No such image";

/// Marks a container deletion that found no container.
pub const NO_SUCH_CONTAINER: &'static str = "No such container";

/// An error message that says the object was already absent.
pub open spec fn already_absent_spec(msg: Seq<char>) -> bool {
    has_sub(msg, NO_SUCH_IMAGE@) || has_sub(msg, NO_SUCH_CONTAINER@)
}

/// Whether a deletion error only says that the object was already absent.
pub fn already_absent(msg: &str) -> (r: bool)
    ensures
        r == already_absent_spec(msg@),
{
    contains(msg, NO_SUCH_IMAGE) || contains(msg, NO_SUCH_CONTAINER)
}

/// One of the two deletions: finished, or still failing with its last error.
pub enum Subtask {
    Done,
    Failing(String),
}

/// Model of a subtask: `None` when done, else its last error.
pub open spec fn subtask_view(t: Subtask) -> Option<Seq<char>> {
    match t {
        Subtask::Done => None,
        Subtask::Failing(e) => Some(e@),
    }
}

/// Model of a deletion's outcome: `None` when it was not run this pass.
pub open spec fn outcome_view(o: Option<Result<(), String>>) -> Option<Result<(), Seq<char>>> {
    match o {
        None => None,
        Some(Ok(())) => Some(Ok(())),
        Some(Err(e)) => Some(Err(e@)),
    }
}

/// A subtask after one pass: success or an already-absent error finishes
/// it, another error keeps it failing with that error.
pub open spec fn absorb_spec(
    t: Option<Seq<char>>,
    o: Option<Result<(), Seq<char>>>,
) -> Option<Seq<char>> {
    match o {
        None => t,
        Some(Ok(())) => None,
        Some(Err(e)) => if already_absent_spec(e) {
            None
        } else {
            Some(e)
        },
    }
}

/// What the caller does next.
pub enum PurgeStep {
    /// Run the deletions marked true, then report them with `record_pass`.
    RunPass { container: bool, image: bool },
    /// Both deletions are done: delete the project directory, then `finish`.
    DeleteProject,
    /// Retries are spent: answer with this reply.
    Fail(Reply),
}

/// Model of the coordinator.
pub struct PurgeView {
    pub container: Option<Seq<char>>,
    pub image: Option<Seq<char>>,
    pub passes_left: nat,
}

/// The kind of step that a coordinator in state `v` asks for.
pub enum StepKind {
    Run { container: bool, image: bool },
    DeleteProject,
    Fail,
}

pub open spec fn step_spec(v: PurgeView) -> StepKind {
    if v.container.is_none() && v.image.is_none() {
        StepKind::DeleteProject
    } else if v.passes_left == 0 {
        StepKind::Fail
    } else {
        StepKind::Run { container: v.container.is_some(), image: v.image.is_some() }
    }
}

/// The state after a pass that returned `c` for the container and `i` for
/// the image.
pub open spec fn pass_spec(
    v: PurgeView,
    c: Option<Result<(), Seq<char>>>,
    i: Option<Result<(), Seq<char>>>,
) -> PurgeView {
    PurgeView {
        container: absorb_spec(v.container, c),
        image: absorb_spec(v.image, i),
        passes_left: (v.passes_left - 1) as nat,
    }
}

/// The reply once the project directory deletion returned `res`: gone or
/// never there is success.
pub open spec fn finish_status(res: Result<(), ProjError>) -> u16 {
    match res {
        Ok(()) => 200,
        Err(ProjError::DoesNotExist) => 200,
        Err(_) => 500,
    }
}

/// Runs the teardown of one project.
pub struct PurgeCoordinator {
    container: Subtask,
    image: Subtask,
    passes_left: u32,
}

impl PurgeCoordinator {
    pub closed spec fn view(&self) -> PurgeView {
        PurgeView {
            container: subtask_view(self.container),
            image: subtask_view(self.image),
            passes_left: self.passes_left as nat,
        }
    }

    /// A coordinator with both deletions pending and `retries` passes
    /// (two when the request gives none).
    pub fn new(retries: Option<u32>) -> (r: PurgeCoordinator)
        ensures
            r.view().container == Some("unknown error deleting container"@),
            r.view().image == Some("unknown error deleting image"@),
            r.view().passes_left == (match retries {
                Some(n) => n,
                None => DEFAULT_PURGE_RETRIES,
            }),
    {
        let n = match retries {
            Some(n) => n,
            None => DEFAULT_PURGE_RETRIES,
        };
        PurgeCoordinator {
            container: Subtask::Failing(String::from_str("unknown error deleting container")),
            image: Subtask::Failing(String::from_str("unknown error deleting image")),
            passes_left: n,
        }
    }

    /// The next step: another pass over what still fails while passes are
    /// left, the directory deletion once both are done, else failure with
    /// every remaining error.
    pub fn next_step(&self) -> (r: PurgeStep)
        ensures
            match (step_spec(self.view()), r) {
                (StepKind::Run { container, image }, PurgeStep::RunPass { container: c, image: i }) =>
                    c == container && i == image,
                (StepKind::DeleteProject, PurgeStep::DeleteProject) => true,
                (StepKind::Fail, PurgeStep::Fail(reply)) => reply.status == 500
                    && reply.body@ == self.failure_body(),
                _ => false,
            },
    {
        let c_pending = matches!(self.container, Subtask::Failing(_));
        let i_pending = matches!(self.image, Subtask::Failing(_));
        if !c_pending && !i_pending {
            PurgeStep::DeleteProject
        } else if self.passes_left == 0 {
            PurgeStep::Fail(Reply { status: 500, body: self.failure_message() })
        } else {
            PurgeStep::RunPass { container: c_pending, image: i_pending }
        }
    }

    /// Body of the failure reply: each remaining error on a line of its own.
    pub open spec fn failure_body(&self) -> Seq<char> {
        "Failed to delete images and/or containers -> "@ + error_lines(self.view())
    }

    fn failure_message(&self) -> (r: String)
        ensures
            r@ == self.failure_body(),
    {
        let mut msg = String::from_str("Failed to delete images and/or containers -> ");
        let mut first = true;
        if let Subtask::Failing(e) = &self.container {
            msg.append("Error -> ");
            msg.append(e.as_str());
            first = false;
        }
        if let Subtask::Failing(e) = &self.image {
            if !first {
                msg.append("\n");
            }
            msg.append("Error -> ");
            msg.append(e.as_str());
        }
        msg
    }

    /// Takes in the outcomes of one pass (`None` for a deletion that was not
    /// run) and spends one pass.
    pub fn record_pass(
        &mut self,
        container: Option<Result<(), String>>,
        image: Option<Result<(), String>>,
    )
        requires
            old(self).view().passes_left > 0,
        ensures
            final(self).view() == pass_spec(
                old(self).view(),
                outcome_view(container),
                outcome_view(image),
            ),
    {
        absorb(&mut self.container, container);
        absorb(&mut self.image, image);
        self.passes_left = self.passes_left - 1;
    }

    /// The reply once the project directory deletion returned `res`.
    pub fn finish(res: Result<(), ProjError>) -> (r: Reply)
        ensures
            r.status == finish_status(res),
            r.status == 200 ==> r.body@ == SUCCESS@,
            res matches Err(e) ==> (r.status == 500 ==> r.body@
                == "Failed to delete project files -> "@ + error_text(e)),
    {
        match res {
            Ok(()) => Reply { status: 200, body: String::from_str(SUCCESS) },
            Err(ProjError::DoesNotExist) => Reply { status: 200, body: String::from_str(SUCCESS) },
            Err(e) => Reply {
                status: 500,
                body: String::from_str("Failed to delete project files -> ").concat(
                    e.message().as_str(),
                ),
            },
        }
    }
}

/// `Error -> <e>` for each subtask still failing, one per line.
pub open spec fn error_lines(v: PurgeView) -> Seq<char> {
    match (v.container, v.image) {
        (Some(c), Some(i)) => "Error -> "@ + c + "\n"@ + "Error -> "@ + i,
        (Some(c), None) => "Error -> "@ + c,
        (None, Some(i)) => "Error -> "@ + i,
        (None, None) => seq![],
    }
}

fn absorb(t: &mut Subtask, o: Option<Result<(), String>>)
    ensures
        subtask_view(*final(t)) == absorb_spec(subtask_view(*old(t)), outcome_view(o)),
{
    match o {
        None => {},
        Some(Ok(())) => {
            *t = Subtask::Done;
        },
        Some(Err(e)) => {
            if already_absent(e.as_str()) {
                *t = Subtask::Done;
            } else {
                *t = Subtask::Failing(e);
            }
        },
    }
}

/// A deletion outcome that leaves nothing behind: success, or an error
/// that says the object was already absent.
pub open spec fn clears(o: Result<(), Seq<char>>) -> bool {
    match o {
        Ok(()) => true,
        Err(e) => already_absent_spec(e),
    }
}

/// A purge with at least one pass succeeds whenever both deletions clear
/// and the directory is deleted or was never there. In particular a purge
/// repeated on a project it already removed, where every deletion reports
/// the object absent, succeeds again.
pub proof fn lemma_purge_idempotent(
    retries: nat,
    c: Result<(), Seq<char>>,
    i: Result<(), Seq<char>>,
    dir: Result<(), ProjError>,
)
    requires
        retries >= 1,
        clears(c),
        clears(i),
        dir is Ok || dir == Err::<(), ProjError>(ProjError::DoesNotExist),
    ensures
        ({
            let v0 = PurgeView {
                container: Some("unknown error deleting container"@),
                image: Some("unknown error deleting image"@),
                passes_left: retries,
            };
            &&& step_spec(v0) == (StepKind::Run { container: true, image: true })
            &&& step_spec(pass_spec(v0, Some(c), Some(i))) == StepKind::DeleteProject
            &&& finish_status(dir) == 200
        }),
{
}

} // verus!
