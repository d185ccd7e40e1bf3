use vstd::prelude::*;
use vstd::string::*;
use crate::error::{Error, ErrorKind};
use crate::upstream::CacheConfig;

verus! {

/// The shape of a staging identifier: a hyphenated UUID in lower case,
/// which is one path segment.
pub open spec fn is_staging_id(s: Seq<char>) -> bool {
    &&& s.len() == 36
    &&& forall|i: int|
        0 <= i < s.len() ==> {
            let c = #[trigger] s[i];
            ('0' <= c <= '9') || ('a' <= c <= 'f') || c == '-'
        }
}

/// Relies on `uuid::Uuid::new_v4` for a random identifier, and on its
/// `Display` impl, which writes it hyphenated in lower-case hex.
#[verifier::external_body]
fn random_uuid_text() -> (r: String)
    ensures
        is_staging_id(r@),
{
    uuid::Uuid::new_v4().to_string()
}

/// A fresh identifier for a staging directory, drawn at random: it names
/// the directory and the published package.
pub fn new_staging_id() -> (r: String)
    ensures
        is_staging_id(r@),
{
    random_uuid_text()
}

pub const PUBLISH: &'static str = "publish";

pub const PROMPT_FLAG: &'static str = "-overrideAadPromptBehavior";

pub const NO_PROMPT: &'static str = "NoPrompt";

pub const AUTH_FLAG: &'static str = "-a";

pub const SOURCE_FLAG: &'static str = "-s";

pub const DIRECTORY_FLAG: &'static str = "-d";

pub const NAME_FLAG: &'static str = "-n";

/// The arguments of the publishing tool for one staged artifact.
pub open spec fn publish_args(organization: Seq<char>, staging_dir: Seq<char>, id: Seq<char>) -> Seq<
    Seq<char>,
> {
    seq![
        PUBLISH@,
        PROMPT_FLAG@,
        NO_PROMPT@,
        AUTH_FLAG@,
        SOURCE_FLAG@,
        organization,
        DIRECTORY_FLAG@,
        staging_dir,
        NAME_FLAG@,
        id,
    ]
}

/// The views of a list of strings.
pub open spec fn texts(v: Seq<String>) -> Seq<Seq<char>> {
    v.map_values(|s: String| s@)
}

/// The argument list that publishes the directory `staging_dir` into
/// `organization` under the package name `id`.
pub fn publish_arguments(organization: &str, staging_dir: &str, id: &str) -> (r: Vec<String>)
    ensures
        texts(r@) == publish_args(organization@, staging_dir@, id@),
{
    let mut r: Vec<String> = Vec::new();
    r.push(String::from_str(PUBLISH));
    r.push(String::from_str(PROMPT_FLAG));
    r.push(String::from_str(NO_PROMPT));
    r.push(String::from_str(AUTH_FLAG));
    r.push(String::from_str(SOURCE_FLAG));
    r.push(String::from_str(organization));
    r.push(String::from_str(DIRECTORY_FLAG));
    r.push(String::from_str(staging_dir));
    r.push(String::from_str(NAME_FLAG));
    r.push(String::from_str(id));
    assert(texts(r@) =~= publish_args(organization@, staging_dir@, id@));
    r
}

/// What the caller reports back while it publishes.
#[derive(Debug)]
pub enum PublishEvent {
    /// The tool ran to its end; `success` tells whether it exited with success.
    ToolExited { success: bool },
    /// The tool could not be started.
    ToolNotStarted { cause: String },
    /// The staging directory was removed.
    Removed,
    /// The staging directory could not be removed.
    RemoveFailed { cause: String },
}

/// What the caller is to do next.
#[derive(Debug)]
pub enum PublishAction {
    /// Run the publishing tool at `program` with `args`.
    RunTool { program: String, args: Vec<String> },
    /// Remove the staging directory with all it holds.
    RemoveStaging,
    /// Publication is over, with this outcome.
    Finished(Result<(), Error>),
}

#[derive(Debug, Clone, Copy, PartialEq, Eq, Structural)]
pub enum PublishPhase {
    Running,
    Removing,
    Done,
}

/// The publication of one staged artifact: the tool runs once, and the
/// staging directory is removed whatever the tool did.
#[derive(Debug)]
pub struct Publisher {
    pub phase: PublishPhase,
    pub failure: Option<Error>,
}

pub const TOOL_FAILED: &'static str = "the publishing tool reported failure";

pub const TOOL_NOT_STARTED: &'static str = "failed to run the publishing tool";

pub const REMOVE_FAILED: &'static str = "failed to delete temporary directory";

pub const UNEXPECTED_PUBLISH_EVENT: &'static str = "event does not fit the state of the publication";

/// The effect of one event on a publication: the next one and the action.
pub open spec fn publish_step(pre: Publisher, e: PublishEvent, post: Publisher, a: PublishAction) -> bool {
    match (pre.phase, e) {
        (PublishPhase::Running, PublishEvent::ToolExited { success }) => {
            &&& a is RemoveStaging
            &&& post.phase == PublishPhase::Removing
            &&& if success {
                post.failure is None
            } else {
                post.failure matches Some(f) && f.kind == ErrorKind::Publish
            }
        },
        (PublishPhase::Running, PublishEvent::ToolNotStarted { .. }) => {
            &&& a is RemoveStaging
            &&& post.phase == PublishPhase::Removing
            &&& post.failure matches Some(f) && f.kind == ErrorKind::Publish
        },
        (PublishPhase::Removing, PublishEvent::Removed) => {
            &&& post.phase == PublishPhase::Done
            &&& match pre.failure {
                None => a matches PublishAction::Finished(r) && r is Ok,
                Some(f) => a == PublishAction::Finished(Err(f)),
            }
        },
        (PublishPhase::Removing, PublishEvent::RemoveFailed { .. }) => {
            &&& post.phase == PublishPhase::Done
            &&& match pre.failure {
                None => a matches PublishAction::Finished(Err(f)) && f.kind == ErrorKind::Staging,
                Some(f) => a == PublishAction::Finished(Err(f)),
            }
        },
        _ => {
            &&& post.phase == PublishPhase::Done
            &&& a matches PublishAction::Finished(Err(f)) && f.kind == ErrorKind::Staging
        },
    }
}

/// Staging space does not leak and a failed publication stays within the
/// publication: whatever the tool did, the step after it removes the
/// staging directory, and the failure is only carried to the publication's
/// own outcome.
pub proof fn lemma_tool_outcome_removes_staging(pre: Publisher, e: PublishEvent, post: Publisher, a: PublishAction)
    requires
        pre.wf(),
        pre.phase == PublishPhase::Running,
        e is ToolExited || e is ToolNotStarted,
        publish_step(pre, e, post, a),
    ensures
        a is RemoveStaging,
        post.phase == PublishPhase::Removing,
        (e matches PublishEvent::ToolExited { success } && success) ==> post.failure is None,
{
}

impl Publisher {
    /// Nothing has failed while the tool has not finished.
    pub open spec fn wf(&self) -> bool {
        self.phase == PublishPhase::Running ==> self.failure is None
    }

    /// The publication of the directory `staging_dir`, staged under `id`,
    /// into the mirror of `cache`, with the run of the tool it starts with.
    pub fn start(cache: &CacheConfig, staging_dir: &str, id: &str) -> (r: (Publisher, PublishAction))
        ensures
            r.0.wf(),
            r.0.phase == PublishPhase::Running,
            r.0.failure is None,
            r.1 matches PublishAction::RunTool { program, args } && program@ == cache.publisher_path@
                && texts(args@) == publish_args(cache.organization@, staging_dir@, id@),
    {
        let args = publish_arguments(cache.organization.as_str(), staging_dir, id);
        (
            Publisher { phase: PublishPhase::Running, failure: None },
            PublishAction::RunTool { program: cache.publisher_path.clone(), args },
        )
    }

    /// Takes what the caller reports and gives the next action.
    pub fn handle(&mut self, event: PublishEvent) -> (a: PublishAction)
        requires
            old(self).wf(),
        ensures
            final(self).wf(),
            publish_step(*old(self), event, *final(self), a),
    {
        match (self.phase, event) {
            (PublishPhase::Running, PublishEvent::ToolExited { success }) => {
                self.phase = PublishPhase::Removing;
                if !success {
                    self.failure = Some(Error::new(ErrorKind::Publish, TOOL_FAILED));
                }
                PublishAction::RemoveStaging
            },
            (PublishPhase::Running, PublishEvent::ToolNotStarted { cause }) => {
                self.phase = PublishPhase::Removing;
                self.failure = Some(Error::with_cause(ErrorKind::Publish, TOOL_NOT_STARTED, cause.as_str()));
                PublishAction::RemoveStaging
            },
            (PublishPhase::Removing, PublishEvent::Removed) => {
                self.phase = PublishPhase::Done;
                match self.failure.take() {
                    None => PublishAction::Finished(Ok(())),
                    Some(f) => PublishAction::Finished(Err(f)),
                }
            },
            (PublishPhase::Removing, PublishEvent::RemoveFailed { cause }) => {
                self.phase = PublishPhase::Done;
                match self.failure.take() {
                    None => PublishAction::Finished(
                        Err(Error::with_cause(ErrorKind::Staging, REMOVE_FAILED, cause.as_str())),
                    ),
                    Some(f) => PublishAction::Finished(Err(f)),
                }
            },
            _ => {
                self.phase = PublishPhase::Done;
                PublishAction::Finished(Err(Error::new(ErrorKind::Staging, UNEXPECTED_PUBLISH_EVENT)))
            },
        }
    }
}

} // verus!
