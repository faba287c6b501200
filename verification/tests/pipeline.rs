use burn_cli::backend::Backends;
use burn_cli::context::{ArtifactDir, InvalidProjectPath, ProjectOptions, TargetFile, TargetPath};
use burn_cli::manifest::PatchError;
use burn_cli::pipeline::{
    after_patch, after_render, generate_files, generate_project_structure, next_file,
    settle_artifact_dir, start, step, Action, Event, Failure, FailureKind, State,
};
use burn_cli::render::TemplateError;
use burn_cli::render::{TemplateErrorKind, TemplateSet};
use toml_edit::DocumentMut;

const FRESH: &str = "[package]\nname = \"my_app\"\nversion = \"0.1.0\"\nedition = \"2021\"\n\n[dependencies]\n";

fn templates() -> TemplateSet {
    let sources = [
        ("data.rs.jinja", "// data of {{ context.model_name }}"),
        ("inference.rs.jinja", "// inference with {{ context.model_name }}"),
        ("model.rs.jinja", "// the model"),
        ("training.rs.jinja", "// training of {{ context.model_name }}"),
        ("lib.rs.jinja", "pub mod data;"),
        (
            "main.rs.jinja",
            "use {{ context.project_name }}::inference;\ntype B = {{ context.backend }}<{{ context.float_type }}, {{ context.int_type }}>;",
        ),
        (
            "bin/train.rs.jinja",
            "use {{ context.project_name }}::training;\ntype B = {{ context.backend }};\nconst DIR: &str = \"{{ context.artifact_dir }}\";",
        ),
    ];
    TemplateSet {
        templates: sources
            .iter()
            .map(|(name, source)| (name.to_string(), source.to_string()))
            .collect(),
    }
}

fn options_for(path: &str, backend: Backends) -> ProjectOptions {
    let mut options = ProjectOptions::with_defaults(TargetPath::from_text(path), "/tmp");
    options.backend = backend;
    options
}

/// Runs the pipeline with outside work that always succeeds and returns the
/// manifest and the files it asked to write, with the state it ended in.
fn run(options: &ProjectOptions, set: &TemplateSet) -> (Option<String>, Vec<(TargetFile, String)>, State) {
    let mut manifest = None;
    let mut files = Vec::new();
    let (mut state, mut action) = start();
    loop {
        let event = match action {
            Action::ProbeTool => Event::ToolProbed(b"/usr/bin/cargo\n".to_vec()),
            Action::InitSkeleton => Event::SkeletonRun { success: true, stderr: Vec::new() },
            Action::ReadManifest => Event::ManifestRead(FRESH.to_string()),
            Action::WriteManifest(text) => {
                manifest = Some(text);
                Event::Written
            }
            Action::WriteFile { file, content } => {
                files.push((file, content));
                Event::Written
            }
            Action::Finish | Action::Abort => return (manifest, files, state),
        };
        let (next, upcoming) = step(options, set, state, event);
        state = next;
        action = upcoming;
    }
}

fn failure_of(state: &State) -> (FailureKind, String) {
    match state {
        State::Aborted(failure) => (failure.kind, failure.message.clone()),
        other => panic!("the run did not abort: {:?}", other),
    }
}

#[test]
fn a_run_begins_with_the_probe() {
    let (state, action) = start();
    assert!(matches!(state, State::Start));
    assert!(matches!(action, Action::ProbeTool));
}

#[test]
fn a_run_on_a_fresh_directory_creates_the_project() {
    let options = options_for("/tmp/foo/my_app", Backends::NdArray);
    let (manifest, files, state) = run(&options, &templates());
    assert!(matches!(state, State::Done));

    let manifest = manifest.unwrap();
    let doc = manifest.parse::<DocumentMut>().unwrap();
    let burn = &doc["dependencies"]["burn"];
    assert_eq!(burn["version"].as_str(), Some("0.18.0"));
    assert_eq!(burn["default-features"].as_bool(), Some(false));
    let features: Vec<&str> =
        burn["features"].as_array().unwrap().iter().map(|f| f.as_str().unwrap()).collect();
    assert_eq!(features, vec!["std", "tui", "train", "fusion", "ndarray"]);

    assert_eq!(files.len(), 7);
    let expected = [
        (TargetFile::Data, "// data of Mnist"),
        (TargetFile::Inference, "// inference with Mnist"),
        (TargetFile::Model, "// the model"),
        (TargetFile::Training, "// training of Mnist"),
        (TargetFile::Lib, "pub mod data;"),
        (TargetFile::Main, "use my_app::inference;\ntype B = NdArray<f32, i32>;"),
        (
            TargetFile::Train,
            "use my_app::training;\ntype B = NdArray;\nconst DIR: &str = \"/tmp/my_app\";",
        ),
    ];
    for (written, (file, content)) in files.iter().zip(expected) {
        assert_eq!(written.0, file);
        assert_eq!(written.1, content);
        assert!(!written.1.is_empty());
    }
}

#[test]
fn states_follow_each_other_in_order() {
    let options = options_for("my_app", Backends::NdArray);
    let set = templates();
    let (state, _) = step(&options, &set, State::Start, Event::ToolProbed(b"cargo".to_vec()));
    assert!(matches!(state, State::ToolChecked));
    let (state, action) =
        step(&options, &set, state, Event::SkeletonRun { success: true, stderr: Vec::new() });
    assert!(matches!(state, State::SkeletonCreated));
    assert!(matches!(action, Action::ReadManifest));
    let (state, action) = step(&options, &set, state, Event::ManifestRead(FRESH.to_string()));
    assert!(matches!(state, State::ManifestReady));
    assert!(matches!(action, Action::WriteManifest(_)));
    let (state, action) = step(&options, &set, state, Event::Written);
    assert!(matches!(state, State::ManifestPatched));
    assert!(matches!(action, Action::WriteFile { file: TargetFile::Data, .. }));
    let mut state = state;
    for written in 1..=6u8 {
        let (next, action) = step(&options, &set, state, Event::Written);
        assert!(matches!(next, State::FilesGenerated(n) if n == written));
        assert!(matches!(action, Action::WriteFile { file, .. } if Some(file) == TargetFile::nth(written)));
        state = next;
    }
    let (state, action) = step(&options, &set, state, Event::Written);
    assert!(matches!(state, State::Done));
    assert!(matches!(action, Action::Finish));
    let (state, action) = step(&options, &set, state, Event::Written);
    assert!(matches!(state, State::Done));
    assert!(matches!(action, Action::Finish));
}

#[test]
fn a_refused_skeleton_ends_the_run_before_any_file() {
    let options = options_for("/tmp/foo/my_app", Backends::NdArray);
    let set = templates();
    let (state, action) = step(&options, &set, State::Start, Event::ToolProbed(b"cargo".to_vec()));
    assert!(matches!(action, Action::InitSkeleton));
    let (state, action) = step(
        &options,
        &set,
        state,
        Event::SkeletonRun { success: false, stderr: b"path already exists".to_vec() },
    );
    assert!(matches!(action, Action::Abort));
    assert_eq!(failure_of(&state), (FailureKind::Init, "path already exists".to_string()));
    let (state, action) = step(&options, &set, state, Event::Written);
    assert!(matches!(action, Action::Abort));
    assert_eq!(failure_of(&state), (FailureKind::Init, "path already exists".to_string()));
}

#[test]
fn candle_builds_differ_in_the_manifest_only() {
    let set = templates();
    let (cpu_manifest, cpu_files, _) = run(&options_for("my_app", Backends::Candle), &set);
    let (cuda_manifest, cuda_files, _) = run(&options_for("my_app", Backends::CandleCuda), &set);
    assert_eq!(cpu_files, cuda_files);
    assert!(cpu_files[5].1.contains("type B = Candle<f32, i32>;"));
    assert!(cpu_files[6].1.contains("type B = Candle;"));
    let cpu_manifest = cpu_manifest.unwrap();
    let cuda_manifest = cuda_manifest.unwrap();
    assert!(cpu_manifest.contains("\"fusion\", \"candle\"]"));
    assert!(cuda_manifest.contains("\"fusion\", \"candle-cuda\"]"));
    assert_ne!(cpu_manifest, cuda_manifest);
}

#[test]
fn a_missing_tool_ends_the_run() {
    let options = options_for("my_app", Backends::NdArray);
    let (state, action) = step(&options, &templates(), State::Start, Event::ToolProbed(Vec::new()));
    assert!(matches!(action, Action::Abort));
    assert_eq!(
        failure_of(&state),
        (
            FailureKind::ToolMissing,
            "Could not find cargo insalled on the system. See https://www.rust-lang.org/tools/install for install instructions.".to_string()
        )
    );
}

#[test]
fn a_probe_that_cannot_run_ends_the_run() {
    let options = options_for("my_app", Backends::NdArray);
    let (state, _) =
        step(&options, &templates(), State::Start, Event::Failed("No such file".to_string()));
    assert_eq!(failure_of(&state), (FailureKind::ToolCheck, "No such file".to_string()));
}

#[test]
fn a_build_tool_that_cannot_run_ends_the_run() {
    let options = options_for("my_app", Backends::NdArray);
    let (state, _) =
        step(&options, &templates(), State::ToolChecked, Event::Failed("denied".to_string()));
    assert_eq!(failure_of(&state), (FailureKind::Io, "denied".to_string()));
}

#[test]
fn a_target_without_a_name_fails_before_the_manifest_is_read() {
    let options = options_for("/", Backends::NdArray);
    let (state, action) = step(
        &options,
        &templates(),
        State::ToolChecked,
        Event::SkeletonRun { success: true, stderr: Vec::new() },
    );
    assert!(matches!(action, Action::Abort));
    assert_eq!(
        failure_of(&state),
        (
            FailureKind::InvalidPath(InvalidProjectPath::NotADirectory),
            "/ is not a valid directory path.".to_string()
        )
    );
}

#[test]
fn a_target_without_a_name_fails_after_five_files() {
    let mut options = options_for("/", Backends::NdArray);
    options.artifact_dir = ArtifactDir::Text("/var/artifacts".to_string());
    let (manifest, files, state) = run(&options, &templates());
    assert!(manifest.is_some());
    assert_eq!(files.len(), 5);
    assert_eq!(files[4].0, TargetFile::Lib);
    assert_eq!(
        failure_of(&state),
        (
            FailureKind::InvalidPath(InvalidProjectPath::NoFinalComponent),
            "/ is an invalid project path. The path must end in a directory name".to_string()
        )
    );
}

#[test]
fn manifest_failures_are_told_apart() {
    let options = options_for("my_app", Backends::NdArray);
    let set = templates();
    let (state, _) = step(&options, &set, State::SkeletonCreated, Event::Failed("gone".to_string()));
    assert_eq!(failure_of(&state), (FailureKind::PatchRead, "gone".to_string()));
    let (state, _) =
        step(&options, &set, State::SkeletonCreated, Event::ManifestRead("[package".to_string()));
    assert_eq!(failure_of(&state).0, FailureKind::PatchParse);
    let (state, _) = step(&options, &set, State::ManifestReady, Event::Failed("full".to_string()));
    assert_eq!(failure_of(&state), (FailureKind::PatchWrite, "full".to_string()));
}

#[test]
fn a_failed_write_ends_the_run() {
    let options = options_for("my_app", Backends::NdArray);
    let set = templates();
    let (state, _) = step(&options, &set, State::ManifestPatched, Event::Failed("full".to_string()));
    assert_eq!(failure_of(&state), (FailureKind::Io, "full".to_string()));
    let (state, _) = step(&options, &set, State::FilesGenerated(3), Event::Failed("full".to_string()));
    assert_eq!(failure_of(&state), (FailureKind::Io, "full".to_string()));
}

#[test]
fn a_template_that_is_not_at_hand_ends_the_run() {
    let options = options_for("my_app", Backends::NdArray);
    let mut set = templates();
    set.templates.remove(2);
    let (manifest, files, state) = run(&options, &set);
    assert!(manifest.is_some());
    assert_eq!(files.len(), 2);
    assert_eq!(
        failure_of(&state),
        (
            FailureKind::Template(TemplateErrorKind::UnknownTemplate),
            "template not found: model.rs.jinja".to_string()
        )
    );
}

#[test]
fn an_event_out_of_turn_ends_the_run() {
    let options = options_for("my_app", Backends::NdArray);
    let set = templates();
    let (state, action) = step(&options, &set, State::Start, Event::Written);
    assert!(matches!(action, Action::Abort));
    assert_eq!(failure_of(&state).0, FailureKind::UnexpectedEvent);
    let (state, _) = step(&options, &set, State::ManifestPatched, Event::ToolProbed(Vec::new()));
    assert_eq!(failure_of(&state).0, FailureKind::UnexpectedEvent);
}

#[test]
fn the_structure_is_decided_in_the_first_two_states_only() {
    let (state, action) =
        generate_project_structure(State::Start, Event::ToolProbed(b"cargo".to_vec()));
    assert!(matches!(state, State::ToolChecked));
    assert!(matches!(action, Action::InitSkeleton));
    let (state, action) = generate_project_structure(
        State::SkeletonCreated,
        Event::ManifestRead(FRESH.to_string()),
    );
    assert!(matches!(action, Action::Abort));
    assert_eq!(
        failure_of(&state),
        (
            FailureKind::UnexpectedEvent,
            "The pipeline was handed an outcome that it was not waiting for.".to_string()
        )
    );
}

#[test]
fn files_are_decided_once_the_skeleton_exists() {
    let options = options_for("my_app", Backends::NdArray);
    let set = templates();
    let (state, action) =
        generate_files(&options, &set, State::Start, Event::ToolProbed(b"cargo".to_vec()));
    assert!(matches!(action, Action::Abort));
    assert_eq!(failure_of(&state).0, FailureKind::UnexpectedEvent);
    let (state, action) = generate_files(&options, &set, State::FilesGenerated(4), Event::Written);
    assert!(matches!(state, State::FilesGenerated(5)));
    match action {
        Action::WriteFile { file, content } => {
            assert_eq!(file, TargetFile::Main);
            assert_eq!(content, "use my_app::inference;\ntype B = NdArray<f32, i32>;");
        }
        other => panic!("no file was handed out: {:?}", other),
    }
}

#[test]
fn the_next_file_follows_the_number_of_files_written() {
    let options = options_for("my_app", Backends::Wgpu);
    let set = templates();
    let (state, action) = next_file(&options, &set, 0);
    assert!(matches!(state, State::ManifestPatched));
    assert!(matches!(action, Action::WriteFile { file: TargetFile::Data, .. }));
    let (state, action) = next_file(&options, &set, 6);
    assert!(matches!(state, State::FilesGenerated(6)));
    match action {
        Action::WriteFile { file, content } => {
            assert_eq!(file, TargetFile::Train);
            assert_eq!(
                content,
                "use my_app::training;\ntype B = Wgpu;\nconst DIR: &str = \"/tmp/my_app\";"
            );
        }
        other => panic!("no file was handed out: {:?}", other),
    }
    let (state, action) = next_file(&options, &set, 7);
    assert!(matches!(state, State::Done));
    assert!(matches!(action, Action::Finish));
}

#[test]
fn failures_keep_the_message_they_were_made_from() {
    let failure = Failure::from_patch(PatchError::Read("gone".to_string()));
    assert_eq!((failure.kind, failure.message.as_str()), (FailureKind::PatchRead, "gone"));
    let failure = Failure::from_patch(PatchError::Parse("bad".to_string()));
    assert_eq!((failure.kind, failure.message.as_str()), (FailureKind::PatchParse, "bad"));
    let failure = Failure::from_patch(PatchError::Write("full".to_string()));
    assert_eq!((failure.kind, failure.message.as_str()), (FailureKind::PatchWrite, "full"));
    let failure = Failure::from_template(TemplateError {
        kind: TemplateErrorKind::MissingVariable,
        message: "undefined value".to_string(),
    });
    assert_eq!(failure.kind, FailureKind::Template(TemplateErrorKind::MissingVariable));
    assert_eq!(failure.message, "undefined value");
    let options = options_for("/", Backends::NdArray);
    let failure = Failure::from_path(InvalidProjectPath::NotText, &options);
    assert_eq!(failure.kind, FailureKind::InvalidPath(InvalidProjectPath::NotText));
    assert_eq!(
        failure.message,
        "/ is an invalid project path. The directory name is not a valid string"
    );
    assert_eq!(Failure::unexpected_event().kind, FailureKind::UnexpectedEvent);
}

#[test]
fn a_missing_variable_ends_the_run() {
    let options = options_for("my_app", Backends::NdArray);
    let mut set = templates();
    set.templates[0].1 = "// {{ context.project_name }}".to_string();
    let (manifest, files, state) = run(&options, &set);
    assert!(manifest.is_some());
    assert!(files.is_empty());
    assert_eq!(failure_of(&state).0, FailureKind::Template(TemplateErrorKind::MissingVariable));
}

#[test]
fn a_patched_manifest_is_handed_out_as_it_is() {
    let (state, action) = after_patch(Ok("[dependencies]\n".to_string()));
    assert!(matches!(state, State::ManifestReady));
    assert!(matches!(action, Action::WriteManifest(text) if text == "[dependencies]\n"));
    let (state, action) = after_patch(Err(PatchError::Parse("expected `]`".to_string())));
    assert!(matches!(action, Action::Abort));
    assert_eq!(failure_of(&state), (FailureKind::PatchParse, "expected `]`".to_string()));
}

#[test]
fn a_rendered_file_is_handed_out_in_its_turn() {
    let (state, action) = after_render(TargetFile::Data, Ok("// data".to_string()));
    assert!(matches!(state, State::ManifestPatched));
    assert!(matches!(
        action,
        Action::WriteFile { file: TargetFile::Data, content } if content == "// data"
    ));
    let (state, action) = after_render(TargetFile::Training, Ok("// training".to_string()));
    assert!(matches!(state, State::FilesGenerated(3)));
    assert!(matches!(
        action,
        Action::WriteFile { file: TargetFile::Training, content } if content == "// training"
    ));
    let (state, action) = after_render(
        TargetFile::Main,
        Err(TemplateError { kind: TemplateErrorKind::Engine, message: "syntax error".to_string() }),
    );
    assert!(matches!(action, Action::Abort));
    assert_eq!(
        failure_of(&state),
        (FailureKind::Template(TemplateErrorKind::Engine), "syntax error".to_string())
    );
}

#[test]
fn diagnostics_that_are_no_text_still_end_the_run() {
    let options = options_for("my_app", Backends::NdArray);
    let (state, action) = step(
        &options,
        &templates(),
        State::ToolChecked,
        Event::SkeletonRun { success: false, stderr: vec![0x66, 0xff, 0x6f] },
    );
    assert!(matches!(action, Action::Abort));
    let (kind, message) = failure_of(&state);
    assert_eq!(kind, FailureKind::Init);
    assert!(!message.is_empty());
}

#[test]
fn diagnostics_of_a_tool_that_succeeded_are_ignored() {
    let options = options_for("my_app", Backends::NdArray);
    let (state, action) = step(
        &options,
        &templates(),
        State::ToolChecked,
        Event::SkeletonRun { success: true, stderr: b"     Created library package".to_vec() },
    );
    assert!(matches!(state, State::SkeletonCreated));
    assert!(matches!(action, Action::ReadManifest));
}

#[test]
fn a_created_skeleton_is_accepted_whatever_the_path() {
    let (state, action) = generate_project_structure(
        State::ToolChecked,
        Event::SkeletonRun { success: true, stderr: b"warning: odd name".to_vec() },
    );
    assert!(matches!(state, State::SkeletonCreated));
    assert!(matches!(action, Action::ReadManifest));
}

#[test]
fn the_artifact_directory_is_settled_once_the_skeleton_exists() {
    let nameless = options_for("/", Backends::NdArray);
    let (state, action) =
        settle_artifact_dir(&nameless, (State::SkeletonCreated, Action::ReadManifest));
    assert!(matches!(action, Action::Abort));
    assert_eq!(
        failure_of(&state),
        (
            FailureKind::InvalidPath(InvalidProjectPath::NotADirectory),
            "/ is not a valid directory path.".to_string()
        )
    );
    let (state, action) = settle_artifact_dir(&nameless, (State::ToolChecked, Action::InitSkeleton));
    assert!(matches!(state, State::ToolChecked));
    assert!(matches!(action, Action::InitSkeleton));
    let named = options_for("my_app", Backends::NdArray);
    let (state, action) = settle_artifact_dir(&named, (State::SkeletonCreated, Action::ReadManifest));
    assert!(matches!(state, State::SkeletonCreated));
    assert!(matches!(action, Action::ReadManifest));
}
