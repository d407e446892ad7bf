//! Rendering the relative path and the text of a template file. The
//! renderer is the `handlebars` crate's, with escaping switched off: paths
//! and texts are no markup. Texts may call two helpers, `include_file` and
//! `include_resource`. Only plain templates are handed to the renderer; the
//! others fail here.

use crate::bindings::Bindings;
use crate::template::{is_plain_template, plain_template};
use vstd::prelude::*;
use vstd::string::StringExecFns;

verus! {

/// The `handlebars` crate's registry. The proofs know it by `registered`
/// alone.
#[verifier::external_type_specification]
#[verifier::external_body]
pub struct ExRegistry<'reg>(handlebars::Handlebars<'reg>);

/// The helpers that a text may call.
#[derive(Clone, Copy, Debug, PartialEq, Eq, Structural)]
pub enum HelperKind {
    /// `include_file name`: the snippet of that name.
    IncludeFile,
    /// `include_resource value`: the value, marked.
    IncludeResource,
}

/// The snippets that `include_file` hands out, by name.
pub struct Resources {
    pub(crate) files: Bindings,
}

impl View for Resources {
    type V = Map<Seq<char>, Seq<char>>;

    closed spec fn view(&self) -> Map<Seq<char>, Seq<char>> {
        self.files@
    }
}

impl Resources {
    /// No snippets.
    pub fn new() -> (r: Resources)
        ensures
            r@ == Map::<Seq<char>, Seq<char>>::empty(),
    {
        Resources { files: Bindings::new() }
    }

    /// Adds the snippet `name`, in place of an earlier one of that name.
    pub fn add(&mut self, name: String, text: String)
        ensures
            final(self)@ == old(self)@.insert(name@, text@),
    {
        self.files.insert(name, text);
    }

    /// The snippet `name`.
    pub fn read(&self, name: &str) -> (r: Option<&String>)
        ensures
            match r {
                Some(text) => self@.contains_key(name@) && self@[name@] == text@,
                None => !self@.contains_key(name@),
            },
    {
        self.files.get(name)
    }
}

/// A helper as a registry knows it: what it does, and the snippets it
/// reads.
pub struct Registration {
    pub kind: HelperKind,
    pub resources: Map<Seq<char>, Seq<char>>,
}

/// The helpers that were added to a registry, by the names under which a
/// template calls them.
pub uninterp spec fn registered(registry: handlebars::Handlebars<'_>) -> Map<
    Seq<char>,
    Registration,
>;

/// Whether a registry hands out values as they are, without escaping.
pub uninterp spec fn unescaped(registry: handlebars::Handlebars<'_>) -> bool;

/// What a plain template renders to over `bindings`, without escaping, where
/// it may call `helpers` as well as the renderer's own: the rendered text, or
/// nothing where the renderer fails.
pub uninterp spec fn rendering(
    template: Seq<char>,
    bindings: Map<Seq<char>, Seq<char>>,
    helpers: Map<Seq<char>, Registration>,
) -> Option<Seq<char>>;

/// Why a template was not rendered.
#[derive(Debug, PartialEq, Eq)]
pub enum TemplateError {
    /// The template is not plain, and the renderer was not asked.
    NotPlain,
    /// The renderer failed; its description of what went wrong.
    Renderer(String),
}

/// Why a template was not rendered, without the renderer's words.
pub enum TemplateErrorView {
    NotPlain,
    Renderer,
}

impl View for TemplateError {
    type V = TemplateErrorView;

    open spec fn view(&self) -> TemplateErrorView {
        match self {
            TemplateError::NotPlain => TemplateErrorView::NotPlain,
            TemplateError::Renderer(_) => TemplateErrorView::Renderer,
        }
    }
}

/// What is said of a template that is not plain.
pub open spec fn not_plain() -> Seq<char> {
    "template is not plain"@
}

/// What is said of a template that was not rendered: of one that is not
/// plain just that, else the renderer's words.
pub open spec fn template_error_text(error: TemplateError) -> Seq<char> {
    match error {
        TemplateError::NotPlain => not_plain(),
        TemplateError::Renderer(message) => message@,
    }
}

impl TemplateError {
    /// What is said to the operator.
    pub fn describe(&self) -> (r: String)
        ensures
            r@ == template_error_text(*self),
    {
        match self {
            TemplateError::NotPlain => String::from_str("template is not plain"),
            TemplateError::Renderer(message) => message.clone(),
        }
    }
}

/// What a template renders to: a plain one to what the renderer makes of
/// it, any other to a failure of its own kind.
pub open spec fn rendered(
    template: Seq<char>,
    bindings: Map<Seq<char>, Seq<char>>,
    helpers: Map<Seq<char>, Registration>,
) -> Result<Seq<char>, TemplateErrorView> {
    if plain_template(template) {
        match rendering(template, bindings, helpers) {
            Some(text) => Ok(text),
            None => Err(TemplateErrorView::Renderer),
        }
    } else {
        Err(TemplateErrorView::NotPlain)
    }
}

/// The view of a rendered text or of the failure to render it.
pub open spec fn render_view(result: Result<String, TemplateError>) -> Result<
    Seq<char>,
    TemplateErrorView,
> {
    match result {
        Ok(text) => Ok(text@),
        Err(error) => Err(error@),
    }
}

/// What `include_file` renders where the snippet is missing.
pub open spec fn missing_snippet() -> Seq<char> {
    "NOT EXISTS"@
}

/// What `include_file name` renders: the snippet of that name, as it is,
/// or `NOT EXISTS` where there is none.
pub open spec fn included_file(resources: Map<Seq<char>, Seq<char>>, name: Seq<char>) -> Seq<char> {
    if resources.contains_key(name) {
        resources[name]
    } else {
        missing_snippet()
    }
}

/// What `include_resource value` renders: the value and the mark ` pts`.
pub open spec fn included_resource(value: Seq<char>) -> Seq<char> {
    value + " pts"@
}

/// What a helper complains of when it is called without an argument.
pub open spec fn missing_argument(kind: HelperKind) -> Seq<char> {
    match kind {
        HelperKind::IncludeFile => "`include_file` helper: Couldn't read parameter v"@,
        HelperKind::IncludeResource => "A"@,
    }
}

/// What a call of a helper gives: its text for an argument, its complaint
/// without one.
pub open spec fn helper_result(
    kind: HelperKind,
    resources: Map<Seq<char>, Seq<char>>,
    argument: Option<Seq<char>>,
) -> Result<Seq<char>, Seq<char>> {
    match argument {
        Some(argument) => Ok(
            match kind {
                HelperKind::IncludeFile => included_file(resources, argument),
                HelperKind::IncludeResource => included_resource(argument),
            },
        ),
        None => Err(missing_argument(kind)),
    }
}

/// None of the library's helpers: what a path may call.
pub open spec fn no_helpers() -> Map<Seq<char>, Registration> {
    Map::empty()
}

/// The helpers that a text may call, over the snippets `resources`.
pub open spec fn content_helpers(resources: Map<Seq<char>, Seq<char>>) -> Map<
    Seq<char>,
    Registration,
> {
    no_helpers().insert(
        "include_file"@,
        Registration { kind: HelperKind::IncludeFile, resources },
    ).insert("include_resource"@, Registration { kind: HelperKind::IncludeResource, resources })
}

/// The view of a text or a complaint.
pub open spec fn text_result(result: Result<String, String>) -> Result<Seq<char>, Seq<char>> {
    match result {
        Ok(text) => Ok(text@),
        Err(message) => Err(message@),
    }
}

/// The view of an optional argument.
pub open spec fn argument_view(argument: Option<&str>) -> Option<Seq<char>> {
    match argument {
        Some(argument) => Some(argument@),
        None => None,
    }
}

/// The snippet `name`, or `NOT EXISTS` where there is none.
pub fn include_file(resources: &Resources, name: &str) -> (r: String)
    ensures
        r@ == included_file(resources@, name@),
{
    match resources.read(name) {
        Some(text) => text.clone(),
        None => String::from_str("NOT EXISTS"),
    }
}

/// The value, followed by ` pts`.
pub fn include_resource(value: &str) -> (r: String)
    ensures
        r@ == included_resource(value@),
{
    value.to_owned().concat(" pts")
}

/// Calls a helper on the argument that the text gave it, if it gave one.
pub fn apply_helper(kind: HelperKind, resources: &Resources, argument: Option<&str>) -> (r: Result<
    String,
    String,
>)
    ensures
        text_result(r) == helper_result(kind, resources@, argument_view(argument)),
{
    match argument {
        Some(argument) => Ok(
            match kind {
                HelperKind::IncludeFile => include_file(resources, argument),
                HelperKind::IncludeResource => include_resource(argument),
            },
        ),
        None => Err(
            match kind {
                HelperKind::IncludeFile => String::from_str(
                    "`include_file` helper: Couldn't read parameter v",
                ),
                HelperKind::IncludeResource => String::from_str("A"),
            },
        ),
    }
}

/// A registry from `Handlebars::new`, with `no_escape` as its escape
/// function: it has none of the library's helpers and does not escape.
#[verifier::external_body]
fn plain_registry<'a>() -> (registry: handlebars::Handlebars<'a>)
    ensures
        registered(registry) == no_helpers(),
        unescaped(registry),
{
    let mut registry = handlebars::Handlebars::new();
    registry.register_escape_fn(handlebars::no_escape);
    registry
}

/// Adds a helper with `Handlebars::register_helper`, in place of an earlier
/// one of that name. When a template calls it, the helper hands its first
/// parameter, rendered as text, to `apply_helper` with `kind` and
/// `resources`, and writes out what comes back or fails with the complaint.
/// The escape function stays as it was.
#[verifier::external_body]
fn with_helper<'a>(
    registry: handlebars::Handlebars<'a>,
    name: &str,
    kind: HelperKind,
    resources: &'a Resources,
) -> (r: handlebars::Handlebars<'a>)
    ensures
        registered(r) == registered(registry).insert(
            name@,
            (Registration { kind, resources: resources@ }),
        ),
        unescaped(r) == unescaped(registry),
{
    let mut registry = registry;
    registry.register_helper(name, Box::new(move |h: &handlebars::Helper, _: &handlebars::Handlebars, _: &handlebars::Context, _: &mut handlebars::RenderContext, out: &mut dyn handlebars::Output| -> handlebars::HelperResult {
        let argument = h.param(0).map(|p| handlebars::JsonRender::render(p.value()));
        let text = apply_helper(kind, resources, argument.as_deref());
        Ok(out.write(&text.map_err(handlebars::RenderError::new)?)?)
    }));
    registry
}

/// Renders a plain template with `Handlebars::render_template`, over the
/// bindings as a map from names to strings. Whether the renderer succeeds,
/// and the text where it does, is the rendering of the template over the
/// bindings with the registry's helpers. Where it fails, what comes back is
/// the description of its error, of which nothing is claimed: where several
/// arguments of one tag fail, the renderer names whichever it met first.
/// The template has to be plain: the renderer follows a partial into itself
/// without end, and it parses and renders nested blocks, nested round
/// brackets and nested literals by recursion without a bound of its own. A
/// plain template calls no partial and declares none, holds no literal that
/// could nest, and has its tags where the renderer's grammar finds them, so
/// that nothing in it nests deeper than `NESTING_LIMIT`.
#[verifier::external_body]
fn render_with(registry: &handlebars::Handlebars<'_>, template: &str, bindings: &Bindings) -> (r:
    Result<String, String>)
    requires
        plain_template(template@),
        unescaped(*registry),
    ensures
        match r {
            Ok(text) => rendering(template@, bindings@, registered(*registry)) == Some(text@),
            Err(_) => rendering(template@, bindings@, registered(*registry)) is None,
        },
{
    let data: std::collections::BTreeMap<String, String> = bindings.entries.iter().cloned().collect();
    registry.render_template(template, &data).map_err(|e| e.desc)
}

/// Renders the relative path of a template file. A path may call none of
/// the library's helpers. A path that is not plain fails.
pub fn render_path(template: &str, bindings: &Bindings) -> (r: Result<String, TemplateError>)
    ensures
        render_view(r) == rendered(template@, bindings@, no_helpers()),
{
    if !is_plain_template(template) {
        return Err(TemplateError::NotPlain);
    }
    let registry = plain_registry();
    match render_with(&registry, template, bindings) {
        Ok(text) => Ok(text),
        Err(message) => Err(TemplateError::Renderer(message)),
    }
}

/// Renders the text of a template file. It may call `include_file` and
/// `include_resource`. A text that is not plain fails.
pub fn render_content(text: &str, bindings: &Bindings, resources: &Resources) -> (r: Result<
    String,
    TemplateError,
>)
    ensures
        render_view(r) == rendered(text@, bindings@, content_helpers(resources@)),
{
    if !is_plain_template(text) {
        return Err(TemplateError::NotPlain);
    }
    let registry = plain_registry();
    let registry = with_helper(registry, "include_file", HelperKind::IncludeFile, resources);
    let registry = with_helper(registry, "include_resource", HelperKind::IncludeResource, resources);
    match render_with(&registry, text, bindings) {
        Ok(text) => Ok(text),
        Err(message) => Err(TemplateError::Renderer(message)),
    }
}

/// One file of a template: its path below the template's root and its
/// text, both as written, placeholders and all.
#[derive(Debug)]
pub struct SourceEntry {
    pub path: String,
    pub text: String,
}

/// One file of the new project: its path below the target directory and
/// its text.
#[derive(Debug)]
pub struct RenderedOutput {
    pub path: String,
    pub text: String,
}

/// Why a template file could not be rendered: its path or its text was
/// not.
#[derive(Debug)]
pub enum RenderFailure {
    Path(TemplateError),
    Content(TemplateError),
}

/// A failure to render, without the renderer's words.
pub enum RenderFailureView {
    Path(TemplateErrorView),
    Content(TemplateErrorView),
}

impl View for RenderFailure {
    type V = RenderFailureView;

    open spec fn view(&self) -> RenderFailureView {
        match self {
            RenderFailure::Path(error) => RenderFailureView::Path(error@),
            RenderFailure::Content(error) => RenderFailureView::Content(error@),
        }
    }
}

/// What is said to the operator of a failure to render.
pub open spec fn failure_text(failure: RenderFailure) -> Seq<char> {
    match failure {
        RenderFailure::Path(error) => "Failed to render path: "@ + template_error_text(error),
        RenderFailure::Content(error) => "Failed to render text: "@ + template_error_text(error),
    }
}

impl RenderFailure {
    /// What is said to the operator.
    pub fn describe(&self) -> (r: String)
        ensures
            r@ == failure_text(*self),
    {
        match self {
            RenderFailure::Path(error) => String::from_str("Failed to render path: ").concat(
                error.describe().as_str(),
            ),
            RenderFailure::Content(error) => String::from_str("Failed to render text: ").concat(
                error.describe().as_str(),
            ),
        }
    }
}

/// The file that the renderings of a path and of a text make, as a pair of
/// path and text. The path is looked at first.
pub open spec fn output_of(
    path: Result<Seq<char>, TemplateErrorView>,
    text: Result<Seq<char>, TemplateErrorView>,
) -> Result<(Seq<char>, Seq<char>), RenderFailureView> {
    match path {
        Err(error) => Err(RenderFailureView::Path(error)),
        Ok(path) => match text {
            Err(error) => Err(RenderFailureView::Content(error)),
            Ok(text) => Ok((path, text)),
        },
    }
}

/// The view of a rendered file or of the failure to render it.
pub open spec fn output_view(result: Result<RenderedOutput, RenderFailure>) -> Result<
    (Seq<char>, Seq<char>),
    RenderFailureView,
> {
    match result {
        Ok(output) => Ok((output.path@, output.text@)),
        Err(failure) => Err(failure@),
    }
}

/// What a template file renders to.
pub open spec fn rendered_entry(
    path: Seq<char>,
    text: Seq<char>,
    bindings: Map<Seq<char>, Seq<char>>,
    resources: Map<Seq<char>, Seq<char>>,
) -> Result<(Seq<char>, Seq<char>), RenderFailureView> {
    output_of(
        rendered(path, bindings, no_helpers()),
        rendered(text, bindings, content_helpers(resources)),
    )
}

impl RenderedOutput {
    /// Puts the rendered path and the rendered text of a file together. A
    /// failure of the path comes before one of the text.
    pub fn assemble(
        path: Result<String, TemplateError>,
        text: Result<String, TemplateError>,
    ) -> (r: Result<RenderedOutput, RenderFailure>)
        ensures
            output_view(r) == output_of(render_view(path), render_view(text)),
            r matches Err(RenderFailure::Path(error)) ==> path == Err::<String, TemplateError>(
                error,
            ),
            r matches Err(RenderFailure::Content(error)) ==> text == Err::<String, TemplateError>(
                error,
            ),
    {
        match path {
            Err(error) => Err(RenderFailure::Path(error)),
            Ok(path) => match text {
                Err(error) => Err(RenderFailure::Content(error)),
                Ok(text) => Ok(RenderedOutput { path, text }),
            },
        }
    }
}

/// Renders one template file: its path, then its text.
pub fn render_entry(entry: &SourceEntry, bindings: &Bindings, resources: &Resources) -> (r: Result<
    RenderedOutput,
    RenderFailure,
>)
    ensures
        output_view(r) == rendered_entry(entry.path@, entry.text@, bindings@, resources@),
{
    let path = render_path(entry.path.as_str(), bindings);
    let text = render_content(entry.text.as_str(), bindings, resources);
    RenderedOutput::assemble(path, text)
}

/// Whether a template file is rendered, and its path and text where it is,
/// depends on nothing but the file, the bindings and the snippets: the same
/// file rendered over the same bindings and snippets gives the same path and
/// the same text, or fails at the same place for the same kind of reason.
pub proof fn lemma_rendering_repeats(
    first: SourceEntry,
    second: SourceEntry,
    bindings: Map<Seq<char>, Seq<char>>,
    resources: Map<Seq<char>, Seq<char>>,
    first_output: Result<RenderedOutput, RenderFailure>,
    second_output: Result<RenderedOutput, RenderFailure>,
)
    requires
        first.path@ == second.path@,
        first.text@ == second.text@,
        output_view(first_output) == rendered_entry(first.path@, first.text@, bindings, resources),
        output_view(second_output) == rendered_entry(
            second.path@,
            second.text@,
            bindings,
            resources,
        ),
    ensures
        output_view(first_output) == output_view(second_output),
{
}

} // verus!
