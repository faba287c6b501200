//! The options of one invocation and what each generated file's template gets
//! to see of them.

use vstd::prelude::*;
use crate::backend::Backends;

verus! {

/// The last component of a target path, as far as it can serve as a name.
pub enum FinalComponent {
    /// The path has no last component: it is a root, is empty or ends in `..`.
    Missing,
    /// The last component is not valid Unicode.
    NotText,
    /// The last component.
    Name(String),
}

/// The directory a project is created in: the path as it is shown to the user
/// and handed to the build tool, and its last component.
pub struct TargetPath {
    pub display: String,
    pub final_component: FinalComponent,
}

/// Where the generated binaries keep their training artifacts.
pub enum ArtifactDir {
    /// Not chosen: a directory named like the project, below the temporary
    /// root.
    Unset,
    /// Chosen by the user.
    Text(String),
    /// Chosen by the user, but not valid Unicode: templates see no value.
    Opaque,
}

/// Everything one invocation was asked for.
pub struct ProjectOptions {
    pub target: TargetPath,
    pub artifact_dir: ArtifactDir,
    /// The platform's directory for temporary files, below which the
    /// artifact directory lies when none was chosen.
    pub temp_root: String,
    pub backend: Backends,
    pub float_type: String,
    pub int_type: String,
}

/// Why a target path cannot name a project.
#[derive(Debug, Copy, Clone, PartialEq, Eq, Structural)]
pub enum InvalidProjectPath {
    /// The path does not end in a directory name, and a name was needed for
    /// the project.
    NoFinalComponent,
    /// The directory name is not valid Unicode.
    NotText,
    /// The path does not end in a directory name, and a name was needed for
    /// the default artifact directory.
    NotADirectory,
}

/// The files that are generated from templates, in the order in which they
/// are written.
#[derive(Debug, Copy, Clone, PartialEq, Eq, Structural)]
pub enum TargetFile {
    Data,
    Inference,
    Model,
    Training,
    Lib,
    Main,
    Train,
}

/// The variables of one template, in order, each with its value if it has one.
pub struct TemplateContext {
    pub entries: Vec<(String, Option<String>)>,
}

/// The characters of an optional string.
pub open spec fn option_text(value: Option<String>) -> Option<Seq<char>> {
    match value {
        Some(text) => Some(text@),
        None => None,
    }
}

impl View for TemplateContext {
    type V = Seq<(Seq<char>, Option<Seq<char>>)>;

    open spec fn view(&self) -> Seq<(Seq<char>, Option<Seq<char>>)> {
        Seq::new(
            self.entries@.len(),
            |i: int| (self.entries@[i].0@, option_text(self.entries@[i].1)),
        )
    }
}

/// The context of the templates that only name the model.
pub open spec fn model_context() -> Seq<(Seq<char>, Option<Seq<char>>)> {
    seq![("model_name"@, Some("Mnist"@))]
}

/// The context of the two binaries.
pub open spec fn binary_context(
    project_name: Seq<char>,
    backend: Backends,
    artifact_dir: Option<Seq<char>>,
    float_type: Seq<char>,
    int_type: Seq<char>,
) -> Seq<(Seq<char>, Option<Seq<char>>)> {
    seq![
        ("project_name"@, Some(project_name)),
        ("backend"@, Some(backend.ident())),
        ("artifact_dir"@, artifact_dir),
        ("float_type"@, Some(float_type)),
        ("int_type"@, Some(int_type)),
    ]
}

/// `std::path::Path::file_name` on the path, the component it returns turned
/// into a `String`. Which component that is, and whether there is one, is
/// decided by the standard library and differs between platforms, down to
/// what separates components. What holds of every outcome is that a
/// component is not empty.
#[verifier::external_body]
fn last_component(path: &str) -> (name: Option<String>)
    ensures
        name matches Some(text) ==> text@.len() > 0,
{
    std::path::Path::new(path).file_name().map(|name| name.to_string_lossy().into_owned())
}

/// A directory below a root: the root, a separator unless the root is empty
/// or ends in one, and the name.
pub open spec fn below(root: Seq<char>, name: Seq<char>) -> Seq<char> {
    if root.len() == 0 || root.last() == '/' {
        root + name
    } else {
        root + "/"@ + name
    }
}

impl TargetPath {
    /// The target path with that display and that last component, if it has
    /// one.
    pub fn with_component(display: &str, component: Option<String>) -> (target: TargetPath)
        ensures
            target.display@ == display@,
            target.final_component == match component {
                Some(name) => FinalComponent::Name(name),
                None => FinalComponent::Missing,
            },
    {
        let final_component = match component {
            Some(name) => FinalComponent::Name(name),
            None => FinalComponent::Missing,
        };
        TargetPath { display: display.to_owned(), final_component }
    }

    /// The target path that a text stands for. The text is kept as it is;
    /// its last component is the one the standard library finds in it on
    /// this platform, if it finds one.
    pub fn from_text(path: &str) -> (target: TargetPath)
        ensures
            target.display@ == path@,
            !(target.final_component is NotText),
            target.final_component matches FinalComponent::Name(name) ==> name@.len() > 0,
    {
        TargetPath::with_component(path, last_component(path))
    }

    /// The project's name: the last component of the target path.
    pub open spec fn name(self) -> Result<Seq<char>, InvalidProjectPath> {
        match self.final_component {
            FinalComponent::Name(name) => Ok(name@),
            FinalComponent::Missing => Err(InvalidProjectPath::NoFinalComponent),
            FinalComponent::NotText => Err(InvalidProjectPath::NotText),
        }
    }

    /// Resolves the project's name. Fails exactly when the path has no last
    /// component or when that component is not valid Unicode.
    pub fn project_name(&self) -> (resolved: Result<String, InvalidProjectPath>)
        ensures
            resolved is Ok <==> self.final_component is Name,
            resolved matches Ok(name) ==> self.name() matches Ok(text) && text == name@,
            resolved matches Err(error) ==> self.name() matches Err(reason) && reason == error,
    {
        match &self.final_component {
            FinalComponent::Name(name) => Ok(name.clone()),
            FinalComponent::Missing => Err(InvalidProjectPath::NoFinalComponent),
            FinalComponent::NotText => Err(InvalidProjectPath::NotText),
        }
    }
}

impl InvalidProjectPath {
    /// What the user is told about the rejected path, without the path itself
    /// that the message starts with.
    pub open spec fn reason(self) -> Seq<char> {
        match self {
            InvalidProjectPath::NoFinalComponent =>
                " is an invalid project path. The path must end in a directory name"@,
            InvalidProjectPath::NotText =>
                " is an invalid project path. The directory name is not a valid string"@,
            InvalidProjectPath::NotADirectory => " is not a valid directory path."@,
        }
    }

    /// The line shown to the user: the path, then the reason.
    pub fn message(&self, target: &TargetPath) -> (line: String)
        ensures
            line@ == target.display@ + self.reason(),
    {
        let mut line = target.display.clone();
        match self {
            InvalidProjectPath::NoFinalComponent => line.append(
                " is an invalid project path. The path must end in a directory name",
            ),
            InvalidProjectPath::NotText => line.append(
                " is an invalid project path. The directory name is not a valid string",
            ),
            InvalidProjectPath::NotADirectory => line.append(" is not a valid directory path."),
        }
        line
    }
}

impl ProjectOptions {
    /// The options of an invocation that names nothing but the target: the
    /// NdArray backend, `f32` and `i32`, and no artifact directory. The
    /// platform's temporary root is the caller's to say.
    pub fn with_defaults(target: TargetPath, temp_root: &str) -> (options: ProjectOptions)
        ensures
            options.target == target,
            options.artifact_dir is Unset,
            options.temp_root@ == temp_root@,
            options.backend == Backends::NdArray,
            options.float_type@ == "f32"@,
            options.int_type@ == "i32"@,
    {
        ProjectOptions {
            target,
            artifact_dir: ArtifactDir::Unset,
            temp_root: temp_root.to_owned(),
            backend: Backends::NdArray,
            float_type: "f32".to_owned(),
            int_type: "i32".to_owned(),
        }
    }

    /// The artifact directory as templates see it: the user's choice if there
    /// is one, else the directory named like the project below the temporary
    /// root.
    pub open spec fn artifact_dir_text(self) -> Result<Option<Seq<char>>, InvalidProjectPath> {
        match self.artifact_dir {
            ArtifactDir::Text(dir) => Ok(Some(dir@)),
            ArtifactDir::Opaque => Ok(None),
            ArtifactDir::Unset => match self.target.final_component {
                FinalComponent::Name(name) => Ok(Some(below(self.temp_root@, name@))),
                FinalComponent::NotText => Ok(None),
                FinalComponent::Missing => Err(InvalidProjectPath::NotADirectory),
            },
        }
    }

    /// Resolves the artifact directory. Fails exactly when none was chosen
    /// and the target path has no last component to derive one from.
    pub fn resolve_artifact_dir(&self) -> (resolved: Result<Option<String>, InvalidProjectPath>)
        ensures
            resolved is Err <==> self.artifact_dir is Unset && self.target.final_component
                is Missing,
            resolved matches Ok(dir) ==> self.artifact_dir_text() matches Ok(text) && text
                == option_text(dir),
            resolved matches Err(error) ==> error == InvalidProjectPath::NotADirectory,
    {
        match &self.artifact_dir {
            ArtifactDir::Text(dir) => Ok(Some(dir.clone())),
            ArtifactDir::Opaque => Ok(None),
            ArtifactDir::Unset => match &self.target.final_component {
                FinalComponent::Name(name) => {
                    let mut dir = self.temp_root.clone();
                    let length: usize = self.temp_root.as_str().unicode_len();
                    if length > 0 && self.temp_root.as_str().get_char(length - 1) != '/' {
                        dir.append("/");
                    }
                    dir.append(name.as_str());
                    Ok(Some(dir))
                },
                FinalComponent::NotText => Ok(None),
                FinalComponent::Missing => Err(InvalidProjectPath::NotADirectory),
            },
        }
    }

    /// What the template of a file gets to see: nothing for the library root
    /// and the model, the model's name for the modules built around it, and
    /// the project's name, backend, artifact directory and numeric types for
    /// the two binaries.
    pub open spec fn context_of(self, file: TargetFile) -> Result<
        Seq<(Seq<char>, Option<Seq<char>>)>,
        InvalidProjectPath,
    > {
        match file {
            TargetFile::Model | TargetFile::Lib => Ok(Seq::empty()),
            TargetFile::Data | TargetFile::Inference | TargetFile::Training => Ok(model_context()),
            TargetFile::Main | TargetFile::Train => match self.target.name() {
                Err(error) => Err(error),
                Ok(name) => match self.artifact_dir_text() {
                    Err(error) => Err(error),
                    Ok(dir) => Ok(
                        binary_context(name, self.backend, dir, self.float_type@, self.int_type@),
                    ),
                },
            },
        }
    }

    /// Builds the context of a file's template. Only the binaries need the
    /// project's name, so only they can fail, and exactly when the name cannot
    /// be resolved.
    pub fn build_context(&self, file: TargetFile) -> (built: Result<
        TemplateContext,
        InvalidProjectPath,
    >)
        ensures
            built is Err <==> file.names_project() && !(self.target.final_component is Name),
            built matches Ok(context) ==> self.context_of(file) matches Ok(variables)
                && variables == context@,
            built matches Err(error) ==> self.context_of(file) matches Err(reason) && reason
                == error,
    {
        let mut entries: Vec<(String, Option<String>)> = Vec::new();
        match file {
            TargetFile::Model | TargetFile::Lib => {},
            TargetFile::Data | TargetFile::Inference | TargetFile::Training => {
                entries.push(("model_name".to_owned(), Some("Mnist".to_owned())));
            },
            TargetFile::Main | TargetFile::Train => {
                let name = match self.target.project_name() {
                    Ok(name) => name,
                    Err(error) => {
                        return Err(error);
                    },
                };
                let dir = match self.resolve_artifact_dir() {
                    Ok(dir) => dir,
                    Err(error) => {
                        return Err(error);
                    },
                };
                entries.push(("project_name".to_owned(), Some(name)));
                entries.push(("backend".to_owned(), Some(self.backend.as_ident().to_owned())));
                entries.push(("artifact_dir".to_owned(), dir));
                entries.push(("float_type".to_owned(), Some(self.float_type.clone())));
                entries.push(("int_type".to_owned(), Some(self.int_type.clone())));
            },
        }
        let context = TemplateContext { entries };
        assert(context@ =~= self.context_of(file)->Ok_0);
        Ok(context)
    }
}

impl TargetFile {
    /// Whether the file's template names the project.
    pub open spec fn names_project(self) -> bool {
        self == TargetFile::Main || self == TargetFile::Train
    }

    /// The place of the file in the order of writing, from 0.
    pub open spec fn index(self) -> nat {
        match self {
            TargetFile::Data => 0,
            TargetFile::Inference => 1,
            TargetFile::Model => 2,
            TargetFile::Training => 3,
            TargetFile::Lib => 4,
            TargetFile::Main => 5,
            TargetFile::Train => 6,
        }
    }

    /// Returns the place of the file in the order of writing, from 0.
    pub fn position(&self) -> (place: u8)
        ensures
            place == self.index(),
    {
        match self {
            TargetFile::Data => 0,
            TargetFile::Inference => 1,
            TargetFile::Model => 2,
            TargetFile::Training => 3,
            TargetFile::Lib => 4,
            TargetFile::Main => 5,
            TargetFile::Train => 6,
        }
    }

    /// The file at a place in the order of writing, if the place is taken.
    pub open spec fn at(place: nat) -> Option<TargetFile> {
        if place == 0 {
            Some(TargetFile::Data)
        } else if place == 1 {
            Some(TargetFile::Inference)
        } else if place == 2 {
            Some(TargetFile::Model)
        } else if place == 3 {
            Some(TargetFile::Training)
        } else if place == 4 {
            Some(TargetFile::Lib)
        } else if place == 5 {
            Some(TargetFile::Main)
        } else if place == 6 {
            Some(TargetFile::Train)
        } else {
            None
        }
    }

    /// The file that is written after `written` files, if any is left.
    pub fn nth(written: u8) -> (file: Option<TargetFile>)
        ensures
            file == TargetFile::at(written as nat),
            file is Some <==> written < 7,
            file matches Some(f) ==> f.index() == written,
    {
        match written {
            0 => Some(TargetFile::Data),
            1 => Some(TargetFile::Inference),
            2 => Some(TargetFile::Model),
            3 => Some(TargetFile::Training),
            4 => Some(TargetFile::Lib),
            5 => Some(TargetFile::Main),
            6 => Some(TargetFile::Train),
            _ => None,
        }
    }

    /// The name of the file's template.
    pub open spec fn template(self) -> Seq<char> {
        match self {
            TargetFile::Data => "data.rs.jinja"@,
            TargetFile::Inference => "inference.rs.jinja"@,
            TargetFile::Model => "model.rs.jinja"@,
            TargetFile::Training => "training.rs.jinja"@,
            TargetFile::Lib => "lib.rs.jinja"@,
            TargetFile::Main => "main.rs.jinja"@,
            TargetFile::Train => "bin/train.rs.jinja"@,
        }
    }

    /// The path of the file below the project's directory.
    pub open spec fn path(self) -> Seq<char> {
        match self {
            TargetFile::Data => "src/data.rs"@,
            TargetFile::Inference => "src/inference.rs"@,
            TargetFile::Model => "src/model.rs"@,
            TargetFile::Training => "src/training.rs"@,
            TargetFile::Lib => "src/lib.rs"@,
            TargetFile::Main => "src/main.rs"@,
            TargetFile::Train => "src/bin/train.rs"@,
        }
    }

    /// Returns the name of the file's template.
    pub fn template_name(&self) -> (name: &'static str)
        ensures
            name@ == self.template(),
    {
        match self {
            TargetFile::Data => "data.rs.jinja",
            TargetFile::Inference => "inference.rs.jinja",
            TargetFile::Model => "model.rs.jinja",
            TargetFile::Training => "training.rs.jinja",
            TargetFile::Lib => "lib.rs.jinja",
            TargetFile::Main => "main.rs.jinja",
            TargetFile::Train => "bin/train.rs.jinja",
        }
    }

    /// Returns the path of the file below the project's directory.
    pub fn relative_path(&self) -> (path: &'static str)
        ensures
            path@ == self.path(),
    {
        match self {
            TargetFile::Data => "src/data.rs",
            TargetFile::Inference => "src/inference.rs",
            TargetFile::Model => "src/model.rs",
            TargetFile::Training => "src/training.rs",
            TargetFile::Lib => "src/lib.rs",
            TargetFile::Main => "src/main.rs",
            TargetFile::Train => "src/bin/train.rs",
        }
    }

    /// Whether the directory of the file has to be created first: the build
    /// tool's skeleton has `src/` but not `src/bin/`.
    pub fn needs_parent_dirs(&self) -> (needed: bool)
        ensures
            needed == (*self == TargetFile::Train),
    {
        match self {
            TargetFile::Train => true,
            _ => false,
        }
    }
}

} // verus!
