//! Applying a template to a target directory. The engine decides and the
//! host acts: the engine hands out one request at a time, the host does what
//! it asks (looks at the disk, asks the operator, writes a file) and hands
//! back the reply. Nothing is written before the target and the template are
//! found, the operator has agreed to write into a directory that is not
//! empty, and every variable is settled.

use crate::bindings::Bindings;
use crate::cli::Cmd;
use crate::config::Config;
use crate::descriptor::{
    loaded, parse_error_text, text_view, Descriptor, DescriptorParseError, EntryView,
    ParseErrorView,
};
use crate::paths::{
    final_segment, is_contained, is_excluded, is_left_out, join, joined, lemma_left_out_join,
    lemma_reserved_left_out, project_name_of, stays_inside, texts,
};
use crate::render::{
    failure_text, render_entry, rendered_entry, RenderFailure, RenderFailureView, RenderedOutput,
    Resources, SourceEntry,
};
use crate::resolver::{
    lemma_literals_ask_nothing, label_of, names_of, next_question, resolved, Resolver,
};
use vstd::prelude::*;
use vstd::string::StringExecFns;

verus! {

/// What the operator asked for.
#[derive(Debug)]
pub struct Options {
    /// The directory that the project is made in.
    pub target_dir: String,
    /// The template, by name; without a name the operator picks one.
    pub template_name: Option<String>,
    /// Write into the target without asking, whatever it holds.
    pub force: bool,
    /// The run ends early where the target directory does not exist yet.
    pub must_exist: bool,
}

impl Options {
    /// The options of a run, from the command line: those of `apply`; the
    /// other operations start no run.
    pub fn from_command(cmd: Cmd) -> (r: Option<Options>)
        ensures
            match cmd {
                Cmd::Apply { target_dir, template_name, force, watch } => r matches Some(options)
                    && options.target_dir@ == target_dir@ && text_view(options.template_name)
                    == text_view(template_name) && options.force == force && options.must_exist,
                _ => r is None,
            },
    {
        match cmd {
            Cmd::Apply { target_dir, template_name, force, watch: _ } => Some(
                Options { target_dir, template_name, force, must_exist: true },
            ),
            _ => None,
        }
    }
}

/// Where a run stands: what the engine waits for.
#[derive(Clone, Copy, Debug, PartialEq, Eq, Structural)]
pub enum Phase {
    /// Whether the target directory exists.
    ValidateTarget,
    /// Whether the named template exists.
    CheckTemplate,
    /// The names of the templates.
    ListTemplates,
    /// The name that the operator picks.
    ChooseTemplate,
    /// Whether the target directory is empty.
    InspectTarget,
    /// Whether the operator agrees to write into a directory that is not
    /// empty.
    Confirm,
    /// The text of the descriptor file.
    ReadDescriptor,
    /// The operator's answer to a question.
    Prompt,
    /// The snippets that `include_file` hands out.
    LoadResources,
    /// The next file of the template.
    Walk,
    /// The writing of a rendered file.
    Write,
    /// Nothing: the run is over.
    Done,
}

/// Why a run ended early.
#[derive(Debug)]
pub enum ApplyError {
    /// The target directory does not exist.
    TargetMissing(String),
    /// The template, or the directory of the templates, does not exist.
    TemplateMissing(String),
    /// The operator left the list of templates without picking one.
    Cancelled,
    /// The operator did not agree to write into the target.
    OverwriteDeclined,
    /// The descriptor file is malformed.
    Descriptor(DescriptorParseError),
    /// The operator could not be asked.
    PromptFailure,
    /// A path or a text could not be rendered.
    Render(RenderFailure),
    /// A rendered path leads out of the target directory.
    PathEscapes(String),
    /// A directory could not be made or a file not written.
    Write(String),
    /// The host's reply answers no request of the engine.
    Protocol,
}

/// What the engine asks of its host.
#[derive(Debug)]
pub enum Request {
    /// Does this directory, the target, exist? Reply with `Exists`.
    CheckTarget(String),
    /// Does this directory, the template, exist? Reply with `Exists`.
    CheckTemplate(String),
    /// Which entries has this directory, the templates'? Reply with
    /// `Names`.
    ListTemplates(String),
    /// Which of these templates does the operator pick? Reply with
    /// `Chosen`.
    ChooseTemplate(Vec<String>),
    /// Is this directory, the target, empty? Reply with `Empty`.
    InspectTarget(String),
    /// Does the operator want to continue? Reply with `Confirmed`.
    Confirm,
    /// What does this file, the descriptor, hold? Reply with `Text`.
    ReadDescriptor(String),
    /// What does the operator answer under this label? Reply with `Line`.
    Prompt(String),
    /// Which snippets does this directory hold? Reply with `Snippets`.
    LoadResources(String),
    /// Which file of this directory, the template, comes next? Reply with
    /// `Entry`, `Unreadable` or `NoMoreEntries`.
    NextEntry(String),
    /// Write this file, making the directories above it. Reply with
    /// `Written` or `WriteFailed`.
    Write(RenderedOutput),
    /// The run is over, with this outcome.
    Finish(Result<(), ApplyError>),
}

/// What the host answers.
#[derive(Debug)]
pub enum Reply {
    Exists(bool),
    /// The names of the entries; `None` where the directory is missing.
    Names(Option<Vec<String>>),
    /// The name that the operator picked; `None` where the operator left
    /// without picking.
    Chosen(Option<String>),
    Empty(bool),
    Confirmed(bool),
    /// The text of the file; `None` where the file is missing.
    Text(Option<String>),
    /// The operator's line; `None` where the operator could not be asked.
    Line(Option<String>),
    /// The snippets, each with its name.
    Snippets(Vec<(String, String)>),
    /// A file of the template.
    Entry(SourceEntry),
    /// An entry of the template could not be read; the reason.
    Unreadable(String),
    NoMoreEntries,
    Written,
    /// The file could not be written; the reason.
    WriteFailed(String),
}

/// The reason why a run ended early, as text.
pub enum ErrorView {
    TargetMissing(Seq<char>),
    TemplateMissing(Seq<char>),
    Cancelled,
    OverwriteDeclined,
    Descriptor(ParseErrorView),
    PromptFailure,
    Render(RenderFailureView),
    PathEscapes(Seq<char>),
    Write(Seq<char>),
    Protocol,
}

/// A request, as text.
pub enum RequestView {
    CheckTarget(Seq<char>),
    CheckTemplate(Seq<char>),
    ListTemplates(Seq<char>),
    ChooseTemplate(Seq<Seq<char>>),
    InspectTarget(Seq<char>),
    Confirm,
    ReadDescriptor(Seq<char>),
    Prompt(Seq<char>),
    LoadResources(Seq<char>),
    NextEntry(Seq<char>),
    Write { path: Seq<char>, text: Seq<char> },
    Finish(Result<(), ErrorView>),
}

/// A reply, as text.
pub enum ReplyView {
    Exists(bool),
    Names(Option<Seq<Seq<char>>>),
    Chosen(Option<Seq<char>>),
    Empty(bool),
    Confirmed(bool),
    Text(Option<Seq<char>>),
    Line(Option<Seq<char>>),
    Snippets(Seq<(Seq<char>, Seq<char>)>),
    Entry { path: Seq<char>, text: Seq<char> },
    Unreadable(Seq<char>),
    NoMoreEntries,
    Written,
    WriteFailed(Seq<char>),
}

/// The variables while they are settled.
pub struct ResolverView {
    pub declarations: Seq<(Seq<char>, EntryView)>,
    pub answers: Seq<Seq<char>>,
    pub position: int,
}

/// The state of a run.
pub struct EngineView {
    pub phase: Phase,
    pub templates_dir: Seq<char>,
    pub full_name: Seq<char>,
    pub license: Seq<char>,
    pub target: Seq<char>,
    pub template: Option<Seq<char>>,
    pub force: bool,
    pub must_exist: bool,
    /// Whether the target may be written into: the force flag is set, the
    /// target was found empty, or the operator agreed.
    pub agreed: bool,
    /// The directory of the template, once it is known.
    pub source: Seq<char>,
    /// The variables, while questions are open.
    pub resolver: Option<ResolverView>,
    /// The bindings, once every variable is settled.
    pub bindings: Map<Seq<char>, Seq<char>>,
    /// The snippets, once they are loaded.
    pub resources: Map<Seq<char>, Seq<char>>,
}

impl View for ApplyError {
    type V = ErrorView;

    open spec fn view(&self) -> ErrorView {
        match self {
            ApplyError::TargetMissing(path) => ErrorView::TargetMissing(path@),
            ApplyError::TemplateMissing(path) => ErrorView::TemplateMissing(path@),
            ApplyError::Cancelled => ErrorView::Cancelled,
            ApplyError::OverwriteDeclined => ErrorView::OverwriteDeclined,
            ApplyError::Descriptor(error) => ErrorView::Descriptor(error@),
            ApplyError::PromptFailure => ErrorView::PromptFailure,
            ApplyError::Render(failure) => ErrorView::Render(failure@),
            ApplyError::PathEscapes(path) => ErrorView::PathEscapes(path@),
            ApplyError::Write(reason) => ErrorView::Write(reason@),
            ApplyError::Protocol => ErrorView::Protocol,
        }
    }
}

/// What is said to the operator of the reason why a run ended early.
pub open spec fn error_text(error: ApplyError) -> Seq<char> {
    match error {
        ApplyError::TargetMissing(path) => "Target directory does not exist: "@ + path@,
        ApplyError::TemplateMissing(path) => "Template could not be found: '"@ + path@ + "'"@,
        ApplyError::Cancelled => "No template was picked"@,
        ApplyError::OverwriteDeclined => "exiting..."@,
        ApplyError::Descriptor(error) => "Failed to read template.toml: "@ + parse_error_text(
            error@,
        ),
        ApplyError::PromptFailure => "Failed to read an answer"@,
        ApplyError::Render(failure) => failure_text(failure),
        ApplyError::PathEscapes(path) => "Path leaves the target directory: "@ + path@,
        ApplyError::Write(reason) => "Failed to write: "@ + reason@,
        ApplyError::Protocol => "Failed to run templater"@,
    }
}

impl ApplyError {
    /// What is said to the operator.
    pub fn describe(&self) -> (r: String)
        ensures
            r@ == error_text(*self),
    {
        match self {
            ApplyError::TargetMissing(path) => String::from_str(
                "Target directory does not exist: ",
            ).concat(path.as_str()),
            ApplyError::TemplateMissing(path) => String::from_str(
                "Template could not be found: '",
            ).concat(path.as_str()).concat("'"),
            ApplyError::Cancelled => String::from_str("No template was picked"),
            ApplyError::OverwriteDeclined => String::from_str("exiting..."),
            ApplyError::Descriptor(error) => String::from_str(
                "Failed to read template.toml: ",
            ).concat(error.describe().as_str()),
            ApplyError::PromptFailure => String::from_str("Failed to read an answer"),
            ApplyError::Render(failure) => failure.describe(),
            ApplyError::PathEscapes(path) => String::from_str(
                "Path leaves the target directory: ",
            ).concat(path.as_str()),
            ApplyError::Write(reason) => String::from_str("Failed to write: ").concat(
                reason.as_str(),
            ),
            ApplyError::Protocol => String::from_str("Failed to run templater"),
        }
    }
}

/// The texts of a list of snippets.
pub open spec fn pairs_view(pairs: Seq<(String, String)>) -> Seq<(Seq<char>, Seq<char>)> {
    Seq::new(pairs.len(), |i: int| (pairs[i].0@, pairs[i].1@))
}

impl View for Request {
    type V = RequestView;

    open spec fn view(&self) -> RequestView {
        match self {
            Request::CheckTarget(path) => RequestView::CheckTarget(path@),
            Request::CheckTemplate(path) => RequestView::CheckTemplate(path@),
            Request::ListTemplates(path) => RequestView::ListTemplates(path@),
            Request::ChooseTemplate(names) => RequestView::ChooseTemplate(texts(names@)),
            Request::InspectTarget(path) => RequestView::InspectTarget(path@),
            Request::Confirm => RequestView::Confirm,
            Request::ReadDescriptor(path) => RequestView::ReadDescriptor(path@),
            Request::Prompt(label) => RequestView::Prompt(label@),
            Request::LoadResources(path) => RequestView::LoadResources(path@),
            Request::NextEntry(path) => RequestView::NextEntry(path@),
            Request::Write(output) => RequestView::Write { path: output.path@, text: output.text@ },
            Request::Finish(outcome) => RequestView::Finish(
                match outcome {
                    Ok(_) => Ok(()),
                    Err(error) => Err(error@),
                },
            ),
        }
    }
}

impl View for Reply {
    type V = ReplyView;

    open spec fn view(&self) -> ReplyView {
        match self {
            Reply::Exists(found) => ReplyView::Exists(*found),
            Reply::Names(names) => ReplyView::Names(
                match names {
                    Some(names) => Some(texts(names@)),
                    None => None,
                },
            ),
            Reply::Chosen(name) => ReplyView::Chosen(text_view(*name)),
            Reply::Empty(empty) => ReplyView::Empty(*empty),
            Reply::Confirmed(yes) => ReplyView::Confirmed(*yes),
            Reply::Text(text) => ReplyView::Text(text_view(*text)),
            Reply::Line(line) => ReplyView::Line(text_view(*line)),
            Reply::Snippets(pairs) => ReplyView::Snippets(pairs_view(pairs@)),
            Reply::Entry(entry) => ReplyView::Entry { path: entry.path@, text: entry.text@ },
            Reply::Unreadable(reason) => ReplyView::Unreadable(reason@),
            Reply::NoMoreEntries => ReplyView::NoMoreEntries,
            Reply::Written => ReplyView::Written,
            Reply::WriteFailed(reason) => ReplyView::WriteFailed(reason@),
        }
    }
}

/// The directory of the templates, below the repository's root.
pub open spec fn templates_home(root: Seq<char>) -> Seq<char> {
    joined(root, "templates"@)
}

/// The directory of the template `name`.
pub open spec fn template_home(root: Seq<char>, name: Seq<char>) -> Seq<char> {
    joined(templates_home(root), name)
}

/// The directory of the snippets, below the repository's root.
pub open spec fn snippets_home(root: Seq<char>) -> Seq<char> {
    joined(root, "internal/files"@)
}

/// The descriptor file of the template in `source`.
pub open spec fn descriptor_file(source: Seq<char>) -> Seq<char> {
    joined(source, "template.toml"@)
}

/// The snippets by name; of two with one name the later one counts.
pub open spec fn snippets_of(pairs: Seq<(Seq<char>, Seq<char>)>) -> Map<Seq<char>, Seq<char>>
    decreases pairs.len(),
{
    if pairs.len() == 0 {
        Map::empty()
    } else {
        snippets_of(pairs.drop_last()).insert(pairs.last().0, pairs.last().1)
    }
}

/// The exit status of a run: 0 where it succeeded, 1 where it ended early.
pub open spec fn status_of(outcome: Result<(), ErrorView>) -> int {
    match outcome {
        Ok(_) => 0,
        Err(_) => 1,
    }
}

/// The run ends early.
pub open spec fn failing(pre: EngineView, error: ErrorView) -> (EngineView, RequestView) {
    (EngineView { phase: Phase::Done, ..pre }, RequestView::Finish(Err(error)))
}

/// The target may be written into: on to the descriptor.
pub open spec fn reading(pre: EngineView) -> (EngineView, RequestView) {
    (
        EngineView { phase: Phase::ReadDescriptor, agreed: true, ..pre },
        RequestView::ReadDescriptor(descriptor_file(pre.source)),
    )
}

/// The template is in `source`: with the force flag the target is not
/// looked at, without it the engine asks whether it is empty.
pub open spec fn guarding(pre: EngineView, source: Seq<char>) -> (EngineView, RequestView) {
    if pre.force {
        reading(EngineView { source, ..pre })
    } else {
        (
            EngineView { phase: Phase::InspectTarget, source, ..pre },
            RequestView::InspectTarget(pre.target),
        )
    }
}

/// The variables stand as `resolver` says: the next question is asked, or,
/// where none is left, the bindings are made and the snippets asked for.
pub open spec fn settling(pre: EngineView, resolver: ResolverView) -> (EngineView, RequestView) {
    if 0 <= resolver.position < resolver.declarations.len() {
        (
            EngineView { phase: Phase::Prompt, resolver: Some(resolver), ..pre },
            RequestView::Prompt(
                label_of(
                    resolver.declarations[resolver.position].0,
                    resolver.declarations[resolver.position].1,
                ),
            ),
        )
    } else {
        (
            EngineView {
                phase: Phase::LoadResources,
                resolver: None,
                bindings: resolved(
                    resolver.declarations,
                    resolver.answers,
                    final_segment(pre.target),
                    pre.full_name,
                    pre.license,
                ),
                ..pre
            },
            RequestView::LoadResources(snippets_home(pre.templates_dir)),
        )
    }
}

/// The operator answered the open question with `line`: the answer is
/// taken and the variables are settled further. Without an open question the
/// line answers nothing, and the run ends.
pub open spec fn answering(pre: EngineView, line: Seq<char>) -> (EngineView, RequestView) {
    match pre.resolver {
        Some(resolver) => if 0 <= resolver.position < resolver.declarations.len() {
            settling(
                EngineView { resolver: None, ..pre },
                ResolverView {
                    declarations: resolver.declarations,
                    answers: resolver.answers.push(line),
                    position: next_question(resolver.declarations, resolver.position + 1),
                },
            )
        } else {
            failing(pre, ErrorView::Protocol)
        },
        None => failing(pre, ErrorView::Protocol),
    }
}

/// A file of the template came: one that is left out is passed over; the
/// others are rendered, and the rendered file is handed out for writing if
/// its path stays inside the target.
pub open spec fn rendering_entry(pre: EngineView, path: Seq<char>, text: Seq<char>) -> (
    EngineView,
    RequestView,
) {
    if is_left_out(path) {
        (pre, RequestView::NextEntry(pre.source))
    } else {
        match rendered_entry(path, text, pre.bindings, pre.resources) {
            Err(failure) => failing(pre, ErrorView::Render(failure)),
            Ok((out_path, out_text)) => if stays_inside(out_path) {
                (
                    EngineView { phase: Phase::Write, ..pre },
                    RequestView::Write { path: joined(pre.target, out_path), text: out_text },
                )
            } else {
                failing(pre, ErrorView::PathEscapes(out_path))
            },
        }
    }
}

/// The target is there, or need not be: on to the template. A named
/// template is looked for; without a name the templates are listed for the
/// operator to pick one.
pub open spec fn locating(pre: EngineView) -> (EngineView, RequestView) {
    match pre.template {
        Some(name) => (
            EngineView {
                phase: Phase::CheckTemplate,
                source: template_home(pre.templates_dir, name),
                ..pre
            },
            RequestView::CheckTemplate(template_home(pre.templates_dir, name)),
        ),
        None => (
            EngineView { phase: Phase::ListTemplates, ..pre },
            RequestView::ListTemplates(templates_home(pre.templates_dir)),
        ),
    }
}

/// The state of a run before anything was asked.
pub open spec fn fresh(
    templates_dir: Seq<char>,
    full_name: Seq<char>,
    license: Seq<char>,
    target: Seq<char>,
    template: Option<Seq<char>>,
    force: bool,
    must_exist: bool,
) -> EngineView {
    EngineView {
        phase: Phase::ValidateTarget,
        templates_dir,
        full_name,
        license,
        target,
        template,
        force,
        must_exist,
        agreed: false,
        source: Seq::empty(),
        resolver: None,
        bindings: Map::empty(),
        resources: Map::empty(),
    }
}

/// The state of a run that starts, and its first request: whether the
/// target exists, where it must; else the run goes on to the template at
/// once.
pub open spec fn starting(
    templates_dir: Seq<char>,
    full_name: Seq<char>,
    license: Seq<char>,
    target: Seq<char>,
    template: Option<Seq<char>>,
    force: bool,
    must_exist: bool,
) -> (EngineView, RequestView) {
    let pre = fresh(templates_dir, full_name, license, target, template, force, must_exist);
    if must_exist {
        (pre, RequestView::CheckTarget(target))
    } else {
        locating(pre)
    }
}

/// The state after a reply, and the next request. A reply that does not
/// answer the request that the engine waits for ends the run.
pub open spec fn next(pre: EngineView, reply: ReplyView) -> (EngineView, RequestView) {
    match (pre.phase, reply) {
        (Phase::ValidateTarget, ReplyView::Exists(found)) => if found {
            locating(pre)
        } else {
            failing(pre, ErrorView::TargetMissing(pre.target))
        },
        (Phase::CheckTemplate, ReplyView::Exists(found)) => if found {
            guarding(pre, pre.source)
        } else {
            failing(pre, ErrorView::TemplateMissing(pre.source))
        },
        (Phase::ListTemplates, ReplyView::Names(names)) => match names {
            Some(names) => (
                EngineView { phase: Phase::ChooseTemplate, ..pre },
                RequestView::ChooseTemplate(names),
            ),
            None => failing(pre, ErrorView::TemplateMissing(templates_home(pre.templates_dir))),
        },
        (Phase::ChooseTemplate, ReplyView::Chosen(name)) => match name {
            Some(name) => guarding(pre, template_home(pre.templates_dir, name)),
            None => failing(pre, ErrorView::Cancelled),
        },
        (Phase::InspectTarget, ReplyView::Empty(empty)) => if empty {
            reading(pre)
        } else {
            (EngineView { phase: Phase::Confirm, ..pre }, RequestView::Confirm)
        },
        (Phase::Confirm, ReplyView::Confirmed(yes)) => if yes {
            reading(pre)
        } else {
            failing(pre, ErrorView::OverwriteDeclined)
        },
        (Phase::ReadDescriptor, ReplyView::Text(text)) => match loaded(text) {
            Ok(declarations) => settling(
                pre,
                ResolverView {
                    declarations,
                    answers: Seq::empty(),
                    position: next_question(declarations, 0),
                },
            ),
            Err(error) => failing(pre, ErrorView::Descriptor(error)),
        },
        (Phase::Prompt, ReplyView::Line(line)) => match line {
            None => failing(pre, ErrorView::PromptFailure),
            Some(line) => answering(pre, line),
        },
        (Phase::LoadResources, ReplyView::Snippets(pairs)) => (
            EngineView { phase: Phase::Walk, resources: snippets_of(pairs), ..pre },
            RequestView::NextEntry(pre.source),
        ),
        (Phase::Walk, ReplyView::Entry { path, text }) => rendering_entry(pre, path, text),
        (Phase::Walk, ReplyView::Unreadable(_)) => (pre, RequestView::NextEntry(pre.source)),
        (Phase::Walk, ReplyView::NoMoreEntries) => (
            EngineView { phase: Phase::Done, ..pre },
            RequestView::Finish(Ok(())),
        ),
        (Phase::Write, ReplyView::Written) => (
            EngineView { phase: Phase::Walk, ..pre },
            RequestView::NextEntry(pre.source),
        ),
        (Phase::Write, ReplyView::WriteFailed(reason)) => failing(pre, ErrorView::Write(reason)),
        _ => failing(pre, ErrorView::Protocol),
    }
}

/// A run of the engine.
pub struct Engine {
    phase: Phase,
    config: Config,
    options: Options,
    agreed: bool,
    source: String,
    resolver: Option<Resolver>,
    bindings: Bindings,
    resources: Resources,
}

/// The variables while `resolver` settles them.
pub open spec fn resolver_view(resolver: Resolver) -> ResolverView {
    ResolverView {
        declarations: resolver.declarations(),
        answers: resolver.answers(),
        position: resolver.position(),
    }
}

impl View for Engine {
    type V = EngineView;

    closed spec fn view(&self) -> EngineView {
        EngineView {
            phase: self.phase,
            templates_dir: self.config.templates_dir@,
            full_name: self.config.variables.full_name@,
            license: self.config.variables.license@,
            target: self.options.target_dir@,
            template: text_view(self.options.template_name),
            force: self.options.force,
            must_exist: self.options.must_exist,
            agreed: self.agreed,
            source: self.source@,
            resolver: match self.resolver {
                Some(resolver) => Some(resolver_view(resolver)),
                None => None,
            },
            bindings: self.bindings@,
            resources: self.resources@,
        }
    }
}

/// The exit status of a run: 0 where it succeeded, 1 where it ended early.
pub fn exit_status(outcome: &Result<(), ApplyError>) -> (code: u8)
    ensures
        code == status_of(
            match outcome {
                Ok(_) => Ok(()),
                Err(error) => Err(error@),
            },
        ),
{
    match outcome {
        Ok(_) => 0,
        Err(_) => 1,
    }
}

impl Engine {
    /// Starts a run. The first request asks whether the target exists, where
    /// it must; else it asks for the template.
    pub fn new(config: Config, options: Options) -> (r: (Engine, Request))
        ensures
            (r.0@, r.1@) == starting(
                config.templates_dir@,
                config.variables.full_name@,
                config.variables.license@,
                options.target_dir@,
                text_view(options.template_name),
                options.force,
                options.must_exist,
            ),
    {
        let engine = Engine {
            phase: Phase::ValidateTarget,
            config,
            options,
            agreed: false,
            source: String::new(),
            resolver: None,
            bindings: Bindings::new(),
            resources: Resources::new(),
        };
        if engine.options.must_exist {
            let target = engine.options.target_dir.clone();
            (engine, Request::CheckTarget(target))
        } else {
            engine.locate()
        }
    }

    /// What the engine waits for.
    pub fn phase(&self) -> (phase: Phase)
        ensures
            phase == self@.phase,
    {
        self.phase
    }

    /// Whether the target may be written into.
    pub fn agreed(&self) -> (agreed: bool)
        ensures
            agreed == self@.agreed,
    {
        self.agreed
    }

    /// The bindings of the run; they are empty until every variable is
    /// settled.
    pub fn bindings(&self) -> (bindings: &Bindings)
        ensures
            bindings@ == self@.bindings,
    {
        &self.bindings
    }

    fn locate(self) -> (r: (Engine, Request))
        ensures
            (r.0@, r.1@) == locating(self@),
    {
        let mut engine = self;
        let templates = join(engine.config.templates_dir.as_str(), "templates");
        match &engine.options.template_name {
            Some(name) => {
                let source = join(templates.as_str(), name.as_str());
                engine.source = source.clone();
                engine.phase = Phase::CheckTemplate;
                (engine, Request::CheckTemplate(source))
            },
            None => {
                engine.phase = Phase::ListTemplates;
                (engine, Request::ListTemplates(templates))
            },
        }
    }

    fn fail(self, error: ApplyError) -> (r: (Engine, Request))
        ensures
            (r.0@, r.1@) == failing(self@, error@),
    {
        let mut engine = self;
        engine.phase = Phase::Done;
        (engine, Request::Finish(Err(error)))
    }

    fn read(self) -> (r: (Engine, Request))
        ensures
            (r.0@, r.1@) == reading(self@),
    {
        let mut engine = self;
        engine.phase = Phase::ReadDescriptor;
        engine.agreed = true;
        let file = join(engine.source.as_str(), "template.toml");
        (engine, Request::ReadDescriptor(file))
    }

    fn guard(self, source: String) -> (r: (Engine, Request))
        ensures
            (r.0@, r.1@) == guarding(self@, source@),
    {
        let mut engine = self;
        engine.source = source;
        if engine.options.force {
            engine.read()
        } else {
            engine.phase = Phase::InspectTarget;
            let target = engine.options.target_dir.clone();
            (engine, Request::InspectTarget(target))
        }
    }

    fn settle(self, resolver: Resolver) -> (r: (Engine, Request))
        requires
            self@.resolver is None,
        ensures
            (r.0@, r.1@) == settling(self@, resolver_view(resolver)),
    {
        let mut engine = self;
        match resolver.pending() {
            Some(label) => {
                engine.phase = Phase::Prompt;
                engine.resolver = Some(resolver);
                (engine, Request::Prompt(label))
            },
            None => {
                let project = project_name_of(engine.options.target_dir.as_str());
                engine.bindings = resolver.finish(project, &engine.config.variables);
                engine.phase = Phase::LoadResources;
                let home = join(engine.config.templates_dir.as_str(), "internal/files");
                (engine, Request::LoadResources(home))
            },
        }
    }

    fn answer(self, line: String) -> (r: (Engine, Request))
        ensures
            (r.0@, r.1@) == answering(self@, line@),
    {
        let mut engine = self;
        match engine.resolver.take() {
            Some(resolver) => {
                if resolver.is_waiting() {
                    engine.settle(resolver.answer(line))
                } else {
                    engine.resolver = Some(resolver);
                    engine.fail(ApplyError::Protocol)
                }
            },
            None => engine.fail(ApplyError::Protocol),
        }
    }

    fn render(self, entry: SourceEntry) -> (r: (Engine, Request))
        ensures
            (r.0@, r.1@) == rendering_entry(self@, entry.path@, entry.text@),
    {
        let mut engine = self;
        if is_excluded(entry.path.as_str()) {
            let source = engine.source.clone();
            return (engine, Request::NextEntry(source));
        }
        match render_entry(&entry, &engine.bindings, &engine.resources) {
            Err(failure) => engine.fail(ApplyError::Render(failure)),
            Ok(output) => {
                if is_contained(output.path.as_str()) {
                    engine.phase = Phase::Write;
                    let path = join(engine.options.target_dir.as_str(), output.path.as_str());
                    (engine, Request::Write(RenderedOutput { path, text: output.text }))
                } else {
                    engine.fail(ApplyError::PathEscapes(output.path))
                }
            },
        }
    }

    fn load(self, pairs: Vec<(String, String)>) -> (r: (Engine, Request))
        ensures
            (r.0@, r.1@) == (
                EngineView { phase: Phase::Walk, resources: snippets_of(pairs_view(pairs@)), ..self@ },
                RequestView::NextEntry(self@.source),
            ),
    {
        let mut engine = self;
        let mut resources = Resources::new();
        let n: usize = pairs.len();
        let mut i: usize = 0;
        let ghost all = pairs_view(pairs@);
        proof {
            assert(all.take(0) =~= Seq::empty());
        }
        while i < n
            invariant
                i <= n,
                n == pairs@.len(),
                all == pairs_view(pairs@),
                resources@ == snippets_of(all.take(i as int)),
            decreases n - i,
        {
            proof {
                assert(all.take(i + 1).drop_last() =~= all.take(i as int));
                assert(all.take(i + 1).last() == all[i as int]);
            }
            resources.add(pairs[i].0.clone(), pairs[i].1.clone());
            i += 1;
        }
        proof {
            assert(all.take(n as int) =~= all);
        }
        engine.resources = resources;
        engine.phase = Phase::Walk;
        let source = engine.source.clone();
        (engine, Request::NextEntry(source))
    }

    /// Takes the host's reply to the last request and hands out the next
    /// request.
    pub fn step(self, reply: Reply) -> (r: (Engine, Request))
        ensures
            (r.0@, r.1@) == next(self@, reply@),
    {
        let mut engine = self;
        match (engine.phase, reply) {
            (Phase::ValidateTarget, Reply::Exists(found)) => {
                if found {
                    engine.locate()
                } else {
                    let target = engine.options.target_dir.clone();
                    engine.fail(ApplyError::TargetMissing(target))
                }
            },
            (Phase::CheckTemplate, Reply::Exists(found)) => {
                let source = engine.source.clone();
                if found {
                    engine.guard(source)
                } else {
                    engine.fail(ApplyError::TemplateMissing(source))
                }
            },
            (Phase::ListTemplates, Reply::Names(names)) => match names {
                Some(names) => {
                    engine.phase = Phase::ChooseTemplate;
                    (engine, Request::ChooseTemplate(names))
                },
                None => {
                    let templates = join(engine.config.templates_dir.as_str(), "templates");
                    engine.fail(ApplyError::TemplateMissing(templates))
                },
            },
            (Phase::ChooseTemplate, Reply::Chosen(name)) => match name {
                Some(name) => {
                    let templates = join(engine.config.templates_dir.as_str(), "templates");
                    let source = join(templates.as_str(), name.as_str());
                    engine.guard(source)
                },
                None => engine.fail(ApplyError::Cancelled),
            },
            (Phase::InspectTarget, Reply::Empty(empty)) => {
                if empty {
                    engine.read()
                } else {
                    engine.phase = Phase::Confirm;
                    (engine, Request::Confirm)
                }
            },
            (Phase::Confirm, Reply::Confirmed(yes)) => {
                if yes {
                    engine.read()
                } else {
                    engine.fail(ApplyError::OverwriteDeclined)
                }
            },
            (Phase::ReadDescriptor, Reply::Text(text)) => {
                let loaded = match &text {
                    Some(text) => Descriptor::load(Some(text.as_str())),
                    None => Descriptor::load(None),
                };
                match loaded {
                    Ok(descriptor) => {
                        engine.resolver = None;
                        engine.settle(Resolver::new(descriptor))
                    },
                    Err(error) => engine.fail(ApplyError::Descriptor(error)),
                }
            },
            (Phase::Prompt, Reply::Line(line)) => match line {
                None => engine.fail(ApplyError::PromptFailure),
                Some(line) => engine.answer(line),
            },
            (Phase::LoadResources, Reply::Snippets(pairs)) => engine.load(pairs),
            (Phase::Walk, Reply::Entry(entry)) => engine.render(entry),
            (Phase::Walk, Reply::Unreadable(_)) => {
                let source = engine.source.clone();
                (engine, Request::NextEntry(source))
            },
            (Phase::Walk, Reply::NoMoreEntries) => {
                engine.phase = Phase::Done;
                (engine, Request::Finish(Ok(())))
            },
            (Phase::Write, Reply::Written) => {
                engine.phase = Phase::Walk;
                let source = engine.source.clone();
                (engine, Request::NextEntry(source))
            },
            (Phase::Write, Reply::WriteFailed(reason)) => engine.fail(ApplyError::Write(reason)),
            _ => engine.fail(ApplyError::Protocol),
        }
    }
}

/// A file is handed out for writing only while the template is walked, for
/// a file of the template, and never for one that is left out.
pub proof fn lemma_writes_only_kept_entries(pre: EngineView, reply: ReplyView)
    requires
        next(pre, reply).1 is Write,
    ensures
        pre.phase == Phase::Walk,
        reply matches ReplyView::Entry { path, .. } && !is_left_out(path),
{
}

/// The descriptor file is left out of a template's files, at the root of
/// the template and in any directory below it, and so is all that lies in
/// the metadata directory of version control: no file is rendered from
/// them.
pub proof fn lemma_reserved_entries_are_never_rendered(
    pre: EngineView,
    dir: Seq<char>,
    below: Seq<char>,
    text: Seq<char>,
)
    ensures
        !(next(pre, ReplyView::Entry { path: "template.toml"@, text }).1 is Write),
        !(next(pre, ReplyView::Entry { path: joined(dir, "template.toml"@), text }).1 is Write),
        !(next(pre, ReplyView::Entry { path: joined(".git"@, below), text }).1 is Write),
        !(next(pre, ReplyView::Entry { path: joined(joined(dir, ".git"@), below), text }).1
            is Write),
{
    lemma_reserved_left_out();
    lemma_left_out_join(dir, "template.toml"@);
    lemma_left_out_join(".git"@, below);
    lemma_left_out_join(dir, ".git"@);
    lemma_left_out_join(joined(dir, ".git"@), below);
}

/// Every file that is handed out for writing lies strictly below the
/// target directory: its path is the target's, joined with a path that stays
/// inside.
pub proof fn lemma_written_paths_stay_inside(pre: EngineView, reply: ReplyView)
    requires
        next(pre, reply).1 is Write,
    ensures
        exists|below: Seq<char>|
            stays_inside(below) && next(pre, reply).1->Write_path == joined(pre.target, below),
{
    let entry_path = reply->Entry_path;
    let entry_text = reply->Entry_text;
    let rendered = rendered_entry(entry_path, entry_text, pre.bindings, pre.resources);
    let below = rendered->Ok_0.0;
    assert(stays_inside(below) && next(pre, reply).1->Write_path == joined(pre.target, below));
}

/// Whether a run is in order: it is past the guard only if the target may
/// be written into.
pub open spec fn in_order(state: EngineView) -> bool {
    (state.phase == Phase::ReadDescriptor || state.phase == Phase::Prompt || state.phase
        == Phase::LoadResources || state.phase == Phase::Walk || state.phase == Phase::Write)
        ==> state.agreed
}

/// A run starts in order, with a target that may not be written into
/// yet.
pub proof fn lemma_start_is_in_order(
    templates_dir: Seq<char>,
    full_name: Seq<char>,
    license: Seq<char>,
    target: Seq<char>,
    template: Option<Seq<char>>,
    force: bool,
    must_exist: bool,
)
    ensures
        in_order(
            starting(templates_dir, full_name, license, target, template, force, must_exist).0,
        ),
        !starting(
            templates_dir,
            full_name,
            license,
            target,
            template,
            force,
            must_exist,
        ).0.agreed,
{
}

/// Every step keeps a run in order.
pub proof fn lemma_step_keeps_order(pre: EngineView, reply: ReplyView)
    requires
        in_order(pre),
    ensures
        in_order(next(pre, reply).0),
{
}

/// In a run that is in order, a file is handed out for writing only if the
/// target may be written into.
pub proof fn lemma_write_needs_agreement(pre: EngineView, reply: ReplyView)
    requires
        in_order(pre),
        next(pre, reply).1 is Write,
    ensures
        pre.agreed,
{
}

/// The target comes to be one that may be written into in three ways only:
/// the force flag is set when the template is found, the host finds the
/// target empty, or the operator says yes.
pub proof fn lemma_agreement_is_given(pre: EngineView, reply: ReplyView)
    requires
        !pre.agreed,
        next(pre, reply).0.agreed,
    ensures
        ({
            ||| pre.force && pre.phase == Phase::CheckTemplate && reply == ReplyView::Exists(true)
            ||| pre.force && pre.phase == Phase::ChooseTemplate && reply matches ReplyView::Chosen(
                Some(_),
            )
            ||| pre.phase == Phase::InspectTarget && reply == ReplyView::Empty(true)
            ||| pre.phase == Phase::Confirm && reply == ReplyView::Confirmed(true)
        }),
{
}

/// A target that is not empty makes the engine ask the operator, unless the
/// force flag is set; when the operator says no, the run ends with status 1,
/// and nothing was written: before the operator has agreed, no file of the
/// template is asked for and none is handed out for writing.
pub proof fn lemma_declined_overwrite(pre: EngineView, source: Seq<char>)
    requires
        !pre.force,
    ensures
        guarding(pre, source).0.phase == Phase::InspectTarget,
        guarding(pre, source).1 == RequestView::InspectTarget(pre.target),
        next(guarding(pre, source).0, ReplyView::Empty(false)).0.phase == Phase::Confirm,
        next(guarding(pre, source).0, ReplyView::Empty(false)).1 == RequestView::Confirm,
        ({
            let asked = next(guarding(pre, source).0, ReplyView::Empty(false)).0;
            let end = next(asked, ReplyView::Confirmed(false));
            &&& end.0.phase == Phase::Done
            &&& end.1 == RequestView::Finish(Err(ErrorView::OverwriteDeclined))
            &&& status_of(Err(ErrorView::OverwriteDeclined)) == 1
        }),
{
}

/// With the force flag the target is not looked at.
pub proof fn lemma_force_skips_the_guard(pre: EngineView, source: Seq<char>)
    requires
        pre.force,
    ensures
        guarding(pre, source).0.phase == Phase::ReadDescriptor,
        guarding(pre, source).1 == RequestView::ReadDescriptor(descriptor_file(source)),
{
}

/// Once a run is over it stays over: whatever the host replies, nothing
/// more is asked of it.
pub proof fn lemma_done_is_final(pre: EngineView, reply: ReplyView)
    requires
        pre.phase == Phase::Done,
    ensures
        next(pre, reply).0.phase == Phase::Done,
        next(pre, reply).1 is Finish,
{
}

/// A failure of any kind ends the run with status 1 at once.
pub proof fn lemma_failure_is_fatal(pre: EngineView, reply: ReplyView)
    requires
        next(pre, reply).1 matches RequestView::Finish(Err(_)),
    ensures
        next(pre, reply).0.phase == Phase::Done,
        status_of(next(pre, reply).1->Finish_0) == 1,
{
}

/// An entry of the template that cannot be read is passed over: the walk
/// goes on and the state is as before.
pub proof fn lemma_unreadable_is_skipped(pre: EngineView, reason: Seq<char>)
    requires
        pre.phase == Phase::Walk,
    ensures
        next(pre, ReplyView::Unreadable(reason)) == (pre, RequestView::NextEntry(pre.source)),
{
}

/// A descriptor of literals alone leads to no question: the engine goes
/// straight on to the snippets, and the bindings are the declared names and
/// `project_name`, `full_name` and `license`, no more and no less.
pub proof fn lemma_literals_lead_to_no_prompt(pre: EngineView, text: Option<Seq<char>>)
    requires
        pre.phase == Phase::ReadDescriptor,
        loaded(text) matches Ok(declarations) && forall|i: int|
            0 <= i < declarations.len() ==> (#[trigger] declarations[i]).1 is Literal,
    ensures
        next(pre, ReplyView::Text(text)).1 == RequestView::LoadResources(
            snippets_home(pre.templates_dir),
        ),
        next(pre, ReplyView::Text(text)).0.bindings.dom() == names_of(loaded(text)->Ok_0).insert(
            "project_name"@,
        ).insert("full_name"@).insert("license"@),
{
    let declarations = loaded(text)->Ok_0;
    lemma_literals_ask_nothing(
        declarations,
        final_segment(pre.target),
        pre.full_name,
        pre.license,
    );
}

/// When the operator leaves the list of templates without picking one, the
/// run ends with status 1, and nothing was read or written for it.
pub proof fn lemma_cancelled_choice_ends_the_run(pre: EngineView)
    requires
        pre.phase == Phase::ChooseTemplate,
    ensures
        next(pre, ReplyView::Chosen(None)).0.phase == Phase::Done,
        next(pre, ReplyView::Chosen(None)).1 == RequestView::Finish(Err(ErrorView::Cancelled)),
        status_of(Err(ErrorView::Cancelled)) == 1,
{
}

} // verus!
