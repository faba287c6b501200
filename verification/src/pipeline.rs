//! The pipeline as a state machine. The caller does the outside work (runs
//! the probe and the build tool, reads and writes files) and reports each
//! outcome as an event; the machine answers with the next state and with what
//! to do next. The first failure ends the run: nothing is retried and nothing
//! that was written is taken back.

use vstd::prelude::*;
use crate::context::{InvalidProjectPath, ProjectOptions, TargetFile};
use crate::manifest::{patch_manifest, patch_outcome, toml_parses, PatchError};
use crate::render::{TemplateError, TemplateErrorKind, TemplateSet};
use crate::utils::{check_cargo, diagnostic_text};

verus! {

/// The kinds of failure that end a run.
#[derive(Debug, Copy, Clone, PartialEq, Eq, Structural)]
pub enum FailureKind {
    /// The probe for the build tool could not be run.
    ToolCheck,
    /// The probe ran and did not find the build tool.
    ToolMissing,
    /// The build tool refused to create the skeleton; the message is what it
    /// printed to standard error.
    Init,
    /// The manifest could not be read.
    PatchRead,
    /// The manifest is not a TOML document.
    PatchParse,
    /// The patched manifest could not be written.
    PatchWrite,
    /// The target path cannot name a project.
    InvalidPath(InvalidProjectPath),
    /// A template could not be rendered.
    Template(TemplateErrorKind),
    /// The build tool could not be run, or a generated file not be written.
    Io,
    /// An event arrived that the state was not waiting for.
    UnexpectedEvent,
}

/// A failure: its kind and the line that is shown to the user.
#[derive(Debug)]
pub struct Failure {
    pub kind: FailureKind,
    pub message: String,
}

/// How far a run has come. Each state but the last two waits for the outcome
/// of one piece of outside work.
#[derive(Debug)]
pub enum State {
    /// Nothing has happened; the probe for the build tool is under way.
    Start,
    /// The build tool is there and is creating the skeleton.
    ToolChecked,
    /// The skeleton exists; its manifest is being read.
    SkeletonCreated,
    /// The manifest has been patched in memory and is being written.
    ManifestReady,
    /// The manifest is patched; the first file is being written.
    ManifestPatched,
    /// That many files are written and the next one is being written.
    FilesGenerated(u8),
    /// All seven files are written.
    Done,
    /// The run has ended with a failure.
    Aborted(Failure),
}

/// The outcome of a piece of outside work.
pub enum Event {
    /// The probe ran and printed this.
    ToolProbed(Vec<u8>),
    /// The build tool ran; `stderr` is what it printed to standard error.
    SkeletonRun { success: bool, stderr: Vec<u8> },
    /// The manifest holds this text.
    ManifestRead(String),
    /// The file was written.
    Written,
    /// The work could not be carried out; the payload is the system's
    /// message.
    Failed(String),
}

/// What the caller does next.
#[derive(Debug)]
pub enum Action {
    /// Run `which cargo` and report what it printed.
    ProbeTool,
    /// Run `cargo new --lib` on the target path.
    InitSkeleton,
    /// Read `Cargo.toml` below the target path.
    ReadManifest,
    /// Write this text to `Cargo.toml` below the target path.
    WriteManifest(String),
    /// Write this content to the file, below the target path.
    WriteFile { file: TargetFile, content: String },
    /// Tell the user that the project has been created, and stop.
    Finish,
    /// Show the failure's message, and stop.
    Abort,
}

/// What the user is told when the build tool is not installed.
pub open spec fn tool_missing_message() -> Seq<char> {
    "Could not find cargo insalled on the system. See https://www.rust-lang.org/tools/install for install instructions."@
}

/// What the user is told when an outcome arrives out of turn.
pub open spec fn unexpected_event_message() -> Seq<char> {
    "The pipeline was handed an outcome that it was not waiting for."@
}

/// The run has been aborted with a failure of that kind.
pub open spec fn aborted_with(next: State, action: Action, kind: FailureKind) -> bool {
    &&& action is Abort
    &&& next matches State::Aborted(failure) && failure.kind == kind
}

/// The run has been aborted with a failure of that kind and that message.
pub open spec fn aborted_saying(
    next: State,
    action: Action,
    kind: FailureKind,
    message: Seq<char>,
) -> bool {
    &&& action is Abort
    &&& next matches State::Aborted(failure) && failure.kind == kind && failure.message@
        == message
}

impl State {
    /// The states a run passes through: at most six files are behind a state
    /// that still waits for one, and at least one behind
    /// [`State::FilesGenerated`].
    pub open spec fn wf(self) -> bool {
        match self {
            State::FilesGenerated(written) => 1 <= written <= 6,
            _ => true,
        }
    }

    /// How far a state is from the start. Every step that does not abort
    /// moves on by one.
    pub open spec fn rank(self) -> nat {
        match self {
            State::Start => 0,
            State::ToolChecked => 1,
            State::SkeletonCreated => 2,
            State::ManifestReady => 3,
            State::ManifestPatched => 4,
            State::FilesGenerated(written) => 4 + written as nat,
            State::Done => 11,
            State::Aborted(_) => 12,
        }
    }

    /// How many files are written once the write that the state waits for
    /// has gone through, if it waits for one.
    pub open spec fn files_behind(self) -> Option<nat> {
        match self {
            State::ManifestReady => Some(0),
            State::ManifestPatched => Some(1),
            State::FilesGenerated(written) => Some(written as nat + 1),
            _ => None,
        }
    }

    /// Whether the run has ended.
    pub open spec fn is_terminal(self) -> bool {
        self is Done || self is Aborted
    }
}

/// What every step keeps: the states of a run lead to states of a run, and a
/// step that does not abort moves on by one.
pub open spec fn progress(state: State, next: State) -> bool {
    &&& state.wf() ==> next.wf()
    &&& state.wf() && !state.is_terminal() && !(next is Aborted) ==> next.rank() == state.rank()
        + 1
}

/// The state in which that many files are written.
pub open spec fn state_after(written: nat) -> State {
    if written == 0 {
        State::ManifestPatched
    } else if written < 7 {
        State::FilesGenerated(written as u8)
    } else {
        State::Done
    }
}

/// The rule for the first two states: probing for the build tool and
/// creating the skeleton.
pub open spec fn structure_rule(
    state: State,
    event: Event,
    next: State,
    action: Action,
) -> bool {
    match (state, event) {
        (State::Start, Event::ToolProbed(stdout)) => if stdout@.len() > 0 {
            next is ToolChecked && action is InitSkeleton
        } else {
            aborted_saying(next, action, FailureKind::ToolMissing, tool_missing_message())
        },
        (State::Start, Event::Failed(message)) => aborted_saying(
            next,
            action,
            FailureKind::ToolCheck,
            message@,
        ),
        (State::ToolChecked, Event::SkeletonRun { success, stderr }) => if !success {
            &&& aborted_with(next, action, FailureKind::Init)
            &&& vstd::utf8::valid_utf8(stderr@) ==> aborted_saying(
                next,
                action,
                FailureKind::Init,
                vstd::utf8::decode_utf8(stderr@),
            )
        } else {
            next is SkeletonCreated && action is ReadManifest
        },
        (State::ToolChecked, Event::Failed(message)) => aborted_saying(
            next,
            action,
            FailureKind::Io,
            message@,
        ),
        _ => aborted_saying(
            next,
            action,
            FailureKind::UnexpectedEvent,
            unexpected_event_message(),
        ),
    }
}

/// Whether the event tells a run that waits for the build tool that the
/// tool has created the skeleton.
pub open spec fn skeleton_created(state: State, event: Event) -> bool {
    &&& state is ToolChecked
    &&& event matches Event::SkeletonRun { success, .. } && success
}

/// The rule for the moment the skeleton exists: before anything is read or
/// written, a run that has no artifact directory to name ends. Every other
/// answer stands as it is.
pub open spec fn artifact_rule(
    options: ProjectOptions,
    first: State,
    answer: Action,
    next: State,
    action: Action,
) -> bool {
    if first is SkeletonCreated && options.artifact_dir_text() is Err {
        aborted_saying(
            next,
            action,
            FailureKind::InvalidPath(InvalidProjectPath::NotADirectory),
            options.target.display@ + InvalidProjectPath::NotADirectory.reason(),
        )
    } else {
        next == first && action == answer
    }
}

/// The rule for a confirmed write after which `written` files exist: the
/// next file is rendered and handed out, or the run is complete.
pub open spec fn next_file_rule(
    options: ProjectOptions,
    templates: TemplateSet,
    written: nat,
    next: State,
    action: Action,
) -> bool {
    match TargetFile::at(written) {
        None => next is Done && action is Finish,
        Some(file) => match options.context_of(file) {
            Err(error) => aborted_saying(
                next,
                action,
                FailureKind::InvalidPath(error),
                options.target.display@ + error.reason(),
            ),
            Ok(variables) => match templates.rendering(file, variables) {
                Ok(text) => {
                    &&& next == state_after(written)
                    &&& action matches Action::WriteFile { file: target, content } && target
                        == file && content@ == text
                },
                Err(kind) => {
                    &&& action is Abort
                    &&& next matches State::Aborted(failure) && failure.kind
                        == FailureKind::Template(kind) && (kind
                        == TemplateErrorKind::UnknownTemplate ==> failure.message@
                        == "template not found: "@ + file.template())
                },
            },
        },
    }
}

/// The rule for the states from the created skeleton on: patching the
/// manifest, then one file after the other.
pub open spec fn files_rule(
    options: ProjectOptions,
    templates: TemplateSet,
    state: State,
    event: Event,
    next: State,
    action: Action,
) -> bool {
    match (state, event) {
        (State::SkeletonCreated, Event::ManifestRead(text)) => if toml_parses(text@) {
            &&& next is ManifestReady
            &&& action matches Action::WriteManifest(output) && patch_outcome(
                text@,
                output@,
                options.backend,
            )
        } else {
            aborted_with(next, action, FailureKind::PatchParse)
        },
        (State::SkeletonCreated, Event::Failed(message)) => aborted_saying(
            next,
            action,
            FailureKind::PatchRead,
            message@,
        ),
        (State::ManifestReady, Event::Failed(message)) => aborted_saying(
            next,
            action,
            FailureKind::PatchWrite,
            message@,
        ),
        (State::ManifestPatched, Event::Failed(message)) => aborted_saying(
            next,
            action,
            FailureKind::Io,
            message@,
        ),
        (State::FilesGenerated(_), Event::Failed(message)) => aborted_saying(
            next,
            action,
            FailureKind::Io,
            message@,
        ),
        (State::ManifestReady, Event::Written) => next_file_rule(
            options,
            templates,
            0,
            next,
            action,
        ),
        (State::ManifestPatched, Event::Written) => next_file_rule(
            options,
            templates,
            1,
            next,
            action,
        ),
        (State::FilesGenerated(written), Event::Written) => next_file_rule(
            options,
            templates,
            written as nat + 1,
            next,
            action,
        ),
        _ => aborted_saying(
            next,
            action,
            FailureKind::UnexpectedEvent,
            unexpected_event_message(),
        ),
    }
}

/// The rule of the whole machine. A run that has ended stays as it is.
pub open spec fn step_rule(
    options: ProjectOptions,
    templates: TemplateSet,
    state: State,
    event: Event,
    next: State,
    action: Action,
) -> bool {
    match state {
        State::Start | State::ToolChecked => if skeleton_created(state, event)
            && options.artifact_dir_text() is Err {
            aborted_saying(
                next,
                action,
                FailureKind::InvalidPath(InvalidProjectPath::NotADirectory),
                options.target.display@ + InvalidProjectPath::NotADirectory.reason(),
            )
        } else {
            structure_rule(state, event, next, action)
        },
        State::Done => next is Done && action is Finish,
        State::Aborted(_) => next == state && action is Abort,
        _ => files_rule(options, templates, state, event, next, action),
    }
}

impl Failure {
    /// The failure that stands for an event out of turn.
    pub fn unexpected_event() -> (failure: Failure)
        ensures
            failure.kind == FailureKind::UnexpectedEvent,
            failure.message@ == unexpected_event_message(),
    {
        Failure {
            kind: FailureKind::UnexpectedEvent,
            message: "The pipeline was handed an outcome that it was not waiting for.".to_owned(),
        }
    }

    /// The failure that stands for a failed patch.
    pub fn from_patch(error: PatchError) -> (failure: Failure)
        ensures
            failure.kind == match error {
                PatchError::Read(_) => FailureKind::PatchRead,
                PatchError::Parse(_) => FailureKind::PatchParse,
                PatchError::Write(_) => FailureKind::PatchWrite,
            },
            failure.message@ == match error {
                PatchError::Read(message) => message@,
                PatchError::Parse(message) => message@,
                PatchError::Write(message) => message@,
            },
    {
        match error {
            PatchError::Read(message) => Failure { kind: FailureKind::PatchRead, message },
            PatchError::Parse(message) => Failure { kind: FailureKind::PatchParse, message },
            PatchError::Write(message) => Failure { kind: FailureKind::PatchWrite, message },
        }
    }

    /// The failure that stands for a failed rendering.
    pub fn from_template(error: TemplateError) -> (failure: Failure)
        ensures
            failure.kind == FailureKind::Template(error.kind),
            failure.message@ == error.message@,
    {
        Failure { kind: FailureKind::Template(error.kind), message: error.message }
    }

    /// The failure that stands for a rejected target path.
    pub fn from_path(error: InvalidProjectPath, options: &ProjectOptions) -> (failure: Failure)
        ensures
            failure.kind == FailureKind::InvalidPath(error),
            failure.message@ == options.target.display@ + error.reason(),
    {
        Failure { kind: FailureKind::InvalidPath(error), message: error.message(&options.target) }
    }
}

/// Ends the run with a failure.
fn abort(failure: Failure) -> (result: (State, Action))
    ensures
        aborted_saying(result.0, result.1, failure.kind, failure.message@),
        aborted_with(result.0, result.1, failure.kind),
{
    (State::Aborted(failure), Action::Abort)
}

/// Where every run begins: in [`State::Start`], with the probe for the build
/// tool.
pub fn start() -> (result: (State, Action))
    ensures
        result.0 is Start,
        result.1 is ProbeTool,
{
    (State::Start, Action::ProbeTool)
}

/// Decides how the run goes on while the project's skeleton is being
/// created: after the probe for cargo and after `cargo new`.
///
/// Without cargo there is no skeleton. A skeleton that cargo refused ends the
/// run with cargo's own words; one that cargo created is accepted, whatever
/// cargo printed and whatever the path. In every other state the event is
/// unexpected.
pub fn generate_project_structure(state: State, event: Event) -> (result: (State, Action))
    ensures
        structure_rule(state, event, result.0, result.1),
        state is Start || state is ToolChecked ==> progress(state, result.0),
{
    match (state, event) {
        (State::Start, Event::ToolProbed(stdout)) => {
            if check_cargo(stdout.as_slice()) {
                (State::ToolChecked, Action::InitSkeleton)
            } else {
                abort(
                    Failure {
                        kind: FailureKind::ToolMissing,
                        message: "Could not find cargo insalled on the system. See https://www.rust-lang.org/tools/install for install instructions.".to_owned(),
                    },
                )
            }
        },
        (State::Start, Event::Failed(message)) => abort(
            Failure { kind: FailureKind::ToolCheck, message },
        ),
        (State::ToolChecked, Event::SkeletonRun { success, stderr }) => {
            if !success {
                abort(Failure { kind: FailureKind::Init, message: diagnostic_text(stderr) })
            } else {
                (State::SkeletonCreated, Action::ReadManifest)
            }
        },
        (State::ToolChecked, Event::Failed(message)) => abort(
            Failure { kind: FailureKind::Io, message },
        ),
        _ => abort(Failure::unexpected_event()),
    }
}

/// Looks at the answer to the outcome of the build tool: once the skeleton
/// exists, the artifact directory has to be settled before the run goes on,
/// and a run that has none to name ends here. Any other answer is passed on.
pub fn settle_artifact_dir(options: &ProjectOptions, first: (State, Action)) -> (result: (
    State,
    Action,
))
    ensures
        artifact_rule(*options, first.0, first.1, result.0, result.1),
        result.0 is Aborted || result.0 == first.0,
{
    match first.0 {
        State::SkeletonCreated => match options.resolve_artifact_dir() {
            Err(error) => abort(Failure::from_path(error, options)),
            Ok(_) => first,
        },
        _ => first,
    }
}

/// How the run goes on once the patch of the manifest has been tried: the
/// patched text is handed out for writing, or the run ends with the patch's
/// error.
pub fn after_patch(patched: Result<String, PatchError>) -> (result: (State, Action))
    ensures
        patched matches Ok(output) ==> result.0 is ManifestReady && (result.1 matches Action::WriteManifest(
            text,
        ) && text@ == output@),
        patched matches Err(PatchError::Read(message)) ==> aborted_saying(
            result.0,
            result.1,
            FailureKind::PatchRead,
            message@,
        ),
        patched matches Err(PatchError::Parse(message)) ==> aborted_saying(
            result.0,
            result.1,
            FailureKind::PatchParse,
            message@,
        ),
        patched matches Err(PatchError::Write(message)) ==> aborted_saying(
            result.0,
            result.1,
            FailureKind::PatchWrite,
            message@,
        ),
{
    match patched {
        Ok(output) => (State::ManifestReady, Action::WriteManifest(output)),
        Err(error) => abort(Failure::from_patch(error)),
    }
}

/// How the run goes on once a file's template has been rendered: the text is
/// handed out for writing, in the state that counts the files before it, or
/// the run ends with the template's error.
pub fn after_render(file: TargetFile, rendered: Result<String, TemplateError>) -> (result: (
    State,
    Action,
))
    ensures
        rendered matches Ok(text) ==> result.0 == state_after(file.index()) && (
        result.1 matches Action::WriteFile { file: target, content } && target == file && content@
            == text@),
        rendered matches Err(error) ==> aborted_saying(
            result.0,
            result.1,
            FailureKind::Template(error.kind),
            error.message@,
        ),
{
    match rendered {
        Err(error) => abort(Failure::from_template(error)),
        Ok(content) => {
            let written: u8 = file.position();
            let next = if written == 0 {
                State::ManifestPatched
            } else {
                State::FilesGenerated(written)
            };
            (next, Action::WriteFile { file, content })
        },
    }
}

/// Renders the file that is due when `written` files exist, or completes the
/// run when none is left.
pub fn next_file(options: &ProjectOptions, templates: &TemplateSet, written: u8) -> (result: (
    State,
    Action,
))
    ensures
        next_file_rule(*options, *templates, written as nat, result.0, result.1),
        result.0 is Aborted || result.0 == state_after(written as nat),
{
    let file = match TargetFile::nth(written) {
        None => {
            return (State::Done, Action::Finish);
        },
        Some(file) => file,
    };
    match options.build_context(file) {
        Err(error) => abort(Failure::from_path(error, options)),
        Ok(context) => after_render(file, templates.render(file, &context)),
    }
}

/// Decides how the run goes on while the project's files are generated: the
/// manifest is patched as soon as it has been read, and each confirmed write
/// releases the next file, in the order of [`TargetFile::index`].
///
/// The project's name is not needed before the sixth file, so a target path
/// without one fails only then, with five files written. In every state
/// before the skeleton exists the event is unexpected.
pub fn generate_files(
    options: &ProjectOptions,
    templates: &TemplateSet,
    state: State,
    event: Event,
) -> (result: (State, Action))
    ensures
        files_rule(*options, *templates, state, event, result.0, result.1),
        !(state is Start || state is ToolChecked) ==> progress(state, result.0),
{
    match (state, event) {
        (State::SkeletonCreated, Event::ManifestRead(text)) => {
            after_patch(patch_manifest(text.as_str(), options.backend))
        },
        (State::SkeletonCreated, Event::Failed(message)) => after_patch(
            Err(PatchError::Read(message)),
        ),
        (State::ManifestReady, Event::Failed(message)) => after_patch(
            Err(PatchError::Write(message)),
        ),
        (State::ManifestPatched, Event::Failed(message)) => abort(
            Failure { kind: FailureKind::Io, message },
        ),
        (State::FilesGenerated(_), Event::Failed(message)) => abort(
            Failure { kind: FailureKind::Io, message },
        ),
        (State::ManifestReady, Event::Written) => next_file(options, templates, 0),
        (State::ManifestPatched, Event::Written) => next_file(options, templates, 1),
        (State::FilesGenerated(written), Event::Written) => {
            if written < 6 {
                next_file(options, templates, written + 1)
            } else {
                (State::Done, Action::Finish)
            }
        },
        _ => abort(Failure::unexpected_event()),
    }
}

/// One step of the pipeline: from the state and the outcome of what the
/// caller was asked to do, to the next state and what to do next.
pub fn step(options: &ProjectOptions, templates: &TemplateSet, state: State, event: Event) -> (result:
    (State, Action))
    ensures
        step_rule(*options, *templates, state, event, result.0, result.1),
        progress(state, result.0),
{
    match state {
        State::Start => {
            let first = generate_project_structure(State::Start, event);
            assert(!(first.0 is SkeletonCreated));
            settle_artifact_dir(options, first)
        },
        State::ToolChecked => {
            let first = generate_project_structure(State::ToolChecked, event);
            assert(first.0 is SkeletonCreated <==> skeleton_created(state, event));
            settle_artifact_dir(options, first)
        },
        State::Done => (State::Done, Action::Finish),
        State::Aborted(failure) => (State::Aborted(failure), Action::Abort),
        other => generate_files(options, templates, other, event),
    }
}

/// The first failure ends the run: whatever a run is waiting for, a failed
/// piece of outside work aborts it, and the caller is told to stop.
pub proof fn lemma_failure_aborts(
    options: ProjectOptions,
    templates: TemplateSet,
    state: State,
    message: String,
    next: State,
    action: Action,
)
    requires
        !state.is_terminal(),
        step_rule(options, templates, state, Event::Failed(message), next, action),
    ensures
        next is Aborted,
        action is Abort,
{
}

/// A run that has ended stays as it is: no event leads out of
/// [`State::Done`] or [`State::Aborted`], and no further work is asked for.
pub proof fn lemma_terminal_states_stay(
    options: ProjectOptions,
    templates: TemplateSet,
    state: State,
    event: Event,
    next: State,
    action: Action,
)
    requires
        state.is_terminal(),
        step_rule(options, templates, state, event, next, action),
    ensures
        next.is_terminal(),
        state is Done ==> next is Done,
        state is Aborted ==> next == state,
        action is Finish || action is Abort,
{
}

/// Nothing is written before its turn: the manifest is handed out only for
/// an existing skeleton, and a file only once the write before it has gone
/// through, the manifest's being the first. So a run that ends before the
/// skeleton exists has rendered no template.
pub proof fn lemma_writes_follow_the_skeleton(
    options: ProjectOptions,
    templates: TemplateSet,
    state: State,
    event: Event,
    next: State,
    action: Action,
)
    requires
        step_rule(options, templates, state, event, next, action),
    ensures
        action is WriteManifest ==> state is SkeletonCreated && event is ManifestRead,
        action is WriteFile ==> state.files_behind() is Some && event is Written,
        action matches Action::WriteFile { file, content } ==> Some(file.index())
            == state.files_behind() && next == state_after(file.index()),
{
}

/// Whether a file can be generated: its context can be built and the engine
/// renders its template.
pub open spec fn renders(options: ProjectOptions, templates: TemplateSet, file: TargetFile) -> bool {
    options.context_of(file) matches Ok(variables) && templates.rendering(file, variables) is Ok
}

/// The text of a file that can be generated.
pub open spec fn file_text(
    options: ProjectOptions,
    templates: TemplateSet,
    file: TargetFile,
) -> Seq<char> {
    templates.rendering(file, options.context_of(file)->Ok_0)->Ok_0
}

/// The state that the answer at a place of a row of answers was given in: the
/// one of the answer before it, and for the first answer the state in which
/// the manifest is being written.
pub open spec fn state_before(answers: Seq<(State, Action)>, place: int) -> State {
    if place == 0 {
        State::ManifestReady
    } else {
        answers[place - 1].0
    }
}

/// The answers of the machine to a row of confirmed writes, the first of
/// them the write of the manifest.
pub open spec fn is_file_run(
    options: ProjectOptions,
    templates: TemplateSet,
    answers: Seq<(State, Action)>,
) -> bool {
    forall|place: int|
        0 <= place < answers.len() ==> step_rule(
            options,
            templates,
            state_before(answers, place),
            Event::Written,
            (#[trigger] answers[place]).0,
            answers[place].1,
        )
}

/// The answer hands out the file of that place with its text, in the state
/// that counts the files before it.
pub open spec fn hands_out(
    options: ProjectOptions,
    templates: TemplateSet,
    answer: (State, Action),
    place: nat,
) -> bool {
    &&& answer.0 == state_after(place)
    &&& answer.1 matches Action::WriteFile { file, content } && Some(file) == TargetFile::at(place)
        && content@ == file_text(options, templates, file)
}

/// In a row of confirmed writes, as long as the files can be generated, the
/// answer at each of the first seven places hands out the file of that
/// place.
pub proof fn lemma_run_hands_out(
    options: ProjectOptions,
    templates: TemplateSet,
    answers: Seq<(State, Action)>,
    place: nat,
)
    requires
        is_file_run(options, templates, answers),
        place < 7,
        place < answers.len(),
        forall|file: TargetFile| #[trigger] renders(options, templates, file),
    ensures
        hands_out(options, templates, answers[place as int], place),
    decreases place,
{
    if place > 0 {
        lemma_run_hands_out(options, templates, answers, (place - 1) as nat);
        assert(answers[place - 1].0 == state_after((place - 1) as nat));
    }
    let file = TargetFile::at(place)->Some_0;
    assert(renders(options, templates, file));
    let answer = answers[place as int];
    assert(step_rule(
        options,
        templates,
        state_before(answers, place as int),
        Event::Written,
        answer.0,
        answer.1,
    ));
    assert(next_file_rule(options, templates, place, answer.0, answer.1));
}

/// A whole run: once the manifest is written and as long as every write
/// goes through, a project whose seven files can be generated gets them all,
/// in the order of [`TargetFile::at`], each with the text the engine renders
/// for it, and the run is done with the confirmation of the seventh.
pub proof fn lemma_whole_run(
    options: ProjectOptions,
    templates: TemplateSet,
    answers: Seq<(State, Action)>,
)
    requires
        is_file_run(options, templates, answers),
        answers.len() == 8,
        forall|file: TargetFile| #[trigger] renders(options, templates, file),
    ensures
        forall|place: nat|
            place < 7 ==> hands_out(options, templates, #[trigger] answers[place as int], place),
        answers[7].0 is Done,
        answers[7].1 is Finish,
{
    assert forall|place: nat| place < 7 implies hands_out(
        options,
        templates,
        #[trigger] answers[place as int],
        place,
    ) by {
        lemma_run_hands_out(options, templates, answers, place);
    }
    lemma_run_hands_out(options, templates, answers, 6);
    assert(answers[6].0 == state_after(6));
    let last = answers[7];
    assert(step_rule(options, templates, state_before(answers, 7), Event::Written, last.0, last.1));
    assert(next_file_rule(options, templates, 7, last.0, last.1));
}

} // verus!
