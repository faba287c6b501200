//! Rendering the templates. The engine is minijinja; this module makes sure
//! that the template is at hand, hands the set to the engine together with
//! the context, and sorts the engine's errors.

use vstd::prelude::*;
use crate::context::{TargetFile, TemplateContext};

verus! {

/// The templates that are at hand, each as its name and its source.
pub struct TemplateSet {
    pub templates: Vec<(String, String)>,
}

/// What went wrong with a template.
#[derive(Debug, Copy, Clone, PartialEq, Eq, Structural)]
pub enum TemplateErrorKind {
    /// No template of that name is at hand.
    UnknownTemplate,
    /// The template refers to a variable that its context does not hold.
    MissingVariable,
    /// The engine rejected the template for another reason, such as its
    /// syntax.
    Engine,
}

/// A failed rendering: what went wrong, and the message for the user.
#[derive(Debug)]
pub struct TemplateError {
    pub kind: TemplateErrorKind,
    pub message: String,
}

/// The name under which a context is handed to the templates: a template
/// refers to a variable `v` of its context as `context.v`.
pub open spec fn context_root() -> Seq<char> {
    "context"@
}

impl View for TemplateSet {
    type V = Seq<(Seq<char>, Seq<char>)>;

    open spec fn view(&self) -> Seq<(Seq<char>, Seq<char>)> {
        Seq::new(self.templates@.len(), |i: int| (self.templates@[i].0@, self.templates@[i].1@))
    }
}

/// What minijinja answers when a fresh engine is given the templates, one
/// after the other, each under its name, and is then asked for the template
/// of a name and to render it. The context holds the variables below `root`;
/// `strict` says whether an undefined value is an error. The answer is the
/// rendered text, or the kind of the engine's first error.
pub uninterp spec fn template_output(
    templates: Seq<(Seq<char>, Seq<char>)>,
    name: Seq<char>,
    root: Seq<char>,
    strict: bool,
    variables: Seq<(Seq<char>, Option<Seq<char>>)>,
) -> Result<Seq<char>, TemplateErrorKind>;

/// A fresh `minijinja::Environment` with its undefined behaviour set
/// (`set_undefined_behavior`), then `add_template` for each template of the
/// set, `get_template` for the name and `Template::render`. The context is
/// one map under the key `root`; a variable without a value is passed as
/// none. The outcome depends on the arguments alone and is named by
/// [`template_output`]. An error is handed out as its kind and its message
/// (`Error::kind`, `to_string`): the engine's `UndefinedError` is a missing
/// variable and every other kind is the engine's own affair. Nothing is
/// claimed of the message.
#[verifier::external_body]
fn render_in_engine(
    templates: &TemplateSet,
    name: &str,
    root: &str,
    strict: bool,
    context: &TemplateContext,
) -> (rendered: Result<String, TemplateError>)
    ensures
        rendered matches Ok(text) ==> (template_output(templates@, name@, root@, strict, context@)
            matches Ok(output) && output == text@),
        rendered matches Err(error) ==> error.kind != TemplateErrorKind::UnknownTemplate && (
        template_output(templates@, name@, root@, strict, context@) matches Err(kind) && kind
            == error.kind),
{
    let mut engine = minijinja::Environment::new();
    engine.set_undefined_behavior(
        if strict { minijinja::UndefinedBehavior::Strict } else { minijinja::UndefinedBehavior::Lenient },
    );
    let variables = minijinja::Value::from_iter(context.entries.iter().map(|e| (e.0.clone(), e.1.clone())));
    let rendered = templates.templates.iter().try_for_each(|t| engine.add_template(&t.0, &t.1))
        .and_then(|_| engine.get_template(name))
        .and_then(|t| t.render(minijinja::Value::from_iter([(root, variables)])));
    rendered.map_err(|error| TemplateError { kind: match error.kind() {
        minijinja::ErrorKind::UndefinedError => TemplateErrorKind::MissingVariable,
        _ => TemplateErrorKind::Engine,
    }, message: error.to_string() })
}

impl TemplateSet {
    /// The position of the first template of that name, if there is one.
    pub open spec fn position(self, name: Seq<char>) -> Option<int> {
        if exists|i: int| self.holds_at(i, name) {
            Some(choose|i: int| self.holds_at(i, name) && self.none_before(i, name))
        } else {
            None
        }
    }

    /// Whether the template at `i` has that name.
    pub open spec fn holds_at(self, i: int, name: Seq<char>) -> bool {
        0 <= i < self.templates@.len() && self.templates@[i].0@ == name
    }

    /// Whether no template before `i` has that name.
    pub open spec fn none_before(self, i: int, name: Seq<char>) -> bool {
        forall|j: int| 0 <= j < i ==> !self.holds_at(j, name)
    }

    /// Finds the first template of that name.
    pub fn find(&self, name: &str) -> (found: Option<usize>)
        ensures
            found matches Some(i) ==> self.position(name@) == Some(i as int) && self.holds_at(
                i as int,
                name@,
            ) && self.none_before(i as int, name@),
            found is None ==> self.position(name@) is None,
    {
        let wanted = name.to_owned();
        let mut i: usize = 0;
        while i < self.templates.len()
            invariant
                i <= self.templates@.len(),
                wanted@ == name@,
                self.none_before(i as int, name@),
            decreases self.templates@.len() - i,
        {
            if self.templates[i].0 == wanted {
                proof {
                    self.lemma_first_is_the_position(i as int, name@);
                }
                return Some(i);
            }
            i += 1;
        }
        None
    }

    /// The first template of a name is the one that [`TemplateSet::position`]
    /// picks: there is only one first.
    proof fn lemma_first_is_the_position(self, first: int, name: Seq<char>)
        requires
            self.holds_at(first, name),
            self.none_before(first, name),
        ensures
            self.position(name) == Some(first),
    {
        let chosen = choose|i: int| self.holds_at(i, name) && self.none_before(i, name);
        if chosen < first {
            assert(!self.holds_at(chosen, name));
        }
        if first < chosen {
            assert(!self.holds_at(first, name));
        }
    }

    /// Whether undefined values are errors: a template that refers to a
    /// variable that its context does not hold is never rendered with a blank
    /// in its place.
    pub open spec fn strict() -> bool {
        true
    }

    /// Renders the template of a file from its context. The engine is given
    /// the whole set, so a template may build on another one of the set.
    ///
    /// Fails with [`TemplateErrorKind::UnknownTemplate`] exactly when the set
    /// has no template of the file's name. Otherwise the engine decides: the
    /// result is the text, or the kind of error, that [`template_output`]
    /// names.
    pub fn render(&self, file: TargetFile, context: &TemplateContext) -> (rendered: Result<
        String,
        TemplateError,
    >)
        ensures
            rendered matches Ok(text) ==> self.rendering(file, context@) matches Ok(output)
                && output == text@,
            rendered matches Err(error) ==> self.rendering(file, context@) matches Err(kind)
                && kind == error.kind,
            rendered matches Err(error) ==> (error.kind == TemplateErrorKind::UnknownTemplate
                <==> self.position(file.template()) is None),
            rendered matches Err(error) ==> (error.kind == TemplateErrorKind::UnknownTemplate
                ==> error.message@ == "template not found: "@ + file.template()),
    {
        let name = file.template_name();
        match self.find(name) {
            None => {
                let mut message = "template not found: ".to_owned();
                message.append(name);
                Err(TemplateError { kind: TemplateErrorKind::UnknownTemplate, message })
            },
            Some(_) => render_in_engine(self, name, "context", true, context),
        }
    }

    /// What becomes of a file: what the engine makes of the set, the file's
    /// template and the context, if the set holds the template.
    pub open spec fn rendering(
        self,
        file: TargetFile,
        variables: Seq<(Seq<char>, Option<Seq<char>>)>,
    ) -> Result<Seq<char>, TemplateErrorKind> {
        match self.position(file.template()) {
            Some(_) => template_output(
                self@,
                file.template(),
                context_root(),
                Self::strict(),
                variables,
            ),
            None => Err(TemplateErrorKind::UnknownTemplate),
        }
    }
}

} // verus!
