//! The generator: what it writes for a model, as a list of steps for
//! the caller to carry out.
//!
//! The generator touches neither the file system nor the clock. It
//! renders the artifacts and says, step by step, what is to be written
//! where; the caller hands in the date and the name of the source
//! document and carries the steps out in order.
use crate::config_model::{ConfigModel, ModelView};
use crate::generator::data::{
    collection_data, element_data, header_data, make_collection_data, make_element_data,
    make_header_data, make_manifest_data, make_no_data, make_readme_data, make_test_data,
    manifest_data, no_data, readme_data, test_data,
};
use crate::generator::derive::{derive_record_types, record_types};
use crate::generator::emit::{entity_text, push_entity_text};
use crate::generator::rendering::{
    holds_own_templates, in_dev_mode, json_content, new_registry, no_sources, no_templates,
    register_template_string, registered, render, render_error_message, render_error_text,
    rendered, set_strict_mode, template_error_message, template_error_text, template_refusal,
    template_sources, JsonView, Registry,
};
use crate::generator::shapes::{record_views, RecordType, RecordView};
use crate::generator::templates::{
    is_own_source, API_STRUCT, API_STRUCT_SOURCE, CARGO_TOML, CARGO_TOML_SOURCE, FILE_HEADER,
    FILE_HEADER_SOURCE,
    INTEGRATION_TEST, INTEGRATION_TEST_SOURCE, PLURAL_STRUCT, PLURAL_STRUCT_SOURCE, README,
    README_SOURCE, SINGULAR_STRUCT, SINGULAR_STRUCT_SOURCE,
};
use crate::text::{indented, push_indented, replace_char, replaced};
use vstd::prelude::*;
use vstd::string::*;

verus! {

/// What the generator produces.
#[derive(Debug, Clone)]
pub enum GenerationMode {
    /// A single source file.
    Module { output_file: String },
    /// A complete package: manifest, library, smoke test, description
    /// and a copy of the source document.
    Crate { output_dir: String, crate_name: String },
}

/// Why a generator could not be made or an artifact not be rendered,
/// with the message of the template engine.
#[derive(Debug)]
pub enum GenerationError {
    /// A template was refused when it was registered.
    Template(String),
    /// A template could not be rendered.
    Render(String),
}

impl GenerationError {
    /// The message of the template engine.
    pub fn message(&self) -> (r: &String)
        ensures
            match *self {
                GenerationError::Template(m) => *r == m,
                GenerationError::Render(m) => *r == m,
            },
    {
        match self {
            GenerationError::Template(m) => m,
            GenerationError::Render(m) => m,
        }
    }
}

/// One step of writing the artifacts. Paths are relative to the output
/// directory of the package and use `/` between their parts.
#[derive(Debug)]
pub enum OutputStep {
    /// Create the directory of the module's output file, with its
    /// parents, unless it exists.
    CreateModuleDirectory,
    /// Write `content` to the module's output file.
    WriteModule { content: String },
    /// Create the directory at `path`, with its parents.
    CreateDirectory { path: String },
    /// Write `content` to the file at `path`.
    WriteFile { path: String, content: String },
    /// Copy the source document to `path`.
    CopySource { path: String },
}

/// What an [`OutputStep`] holds.
pub enum StepView {
    CreateModuleDirectory,
    WriteModule { content: Seq<char> },
    CreateDirectory { path: Seq<char> },
    WriteFile { path: Seq<char>, content: Seq<char> },
    CopySource { path: Seq<char> },
}

impl View for OutputStep {
    type V = StepView;

    open spec fn view(&self) -> StepView {
        match *self {
            OutputStep::CreateModuleDirectory => StepView::CreateModuleDirectory,
            OutputStep::WriteModule { content } => StepView::WriteModule { content: content@ },
            OutputStep::CreateDirectory { path } => StepView::CreateDirectory { path: path@ },
            OutputStep::WriteFile { path, content } => StepView::WriteFile {
                path: path@,
                content: content@,
            },
            OutputStep::CopySource { path } => StepView::CopySource { path: path@ },
        }
    }
}

/// The views of a list of steps.
pub open spec fn step_views(steps: Seq<OutputStep>) -> Seq<StepView> {
    steps.map_values(|s: OutputStep| s@)
}

/// What a [`GenerationError`] holds.
pub enum FailureView {
    Template(Seq<char>),
    Render(Seq<char>),
}

impl View for GenerationError {
    type V = FailureView;

    open spec fn view(&self) -> FailureView {
        match *self {
            GenerationError::Template(m) => FailureView::Template(m@),
            GenerationError::Render(m) => FailureView::Render(m@),
        }
    }
}

/// The view of a failure that may be absent.
pub open spec fn failure_view(failure: Option<GenerationError>) -> Option<FailureView> {
    match failure {
        Some(f) => Some(f@),
        None => None,
    }
}

/// A run of the generator: the steps to carry out, in order, and the
/// failure that ended the run, if one did. The steps before a failure
/// are still to be carried out.
#[derive(Debug)]
pub struct GenerationRun {
    pub steps: Vec<OutputStep>,
    pub failure: Option<GenerationError>,
}

/// What a run comes to: the steps, and the failure that ended it, if
/// one did.
pub struct RunView {
    pub steps: Seq<StepView>,
    pub failure: Option<FailureView>,
}

impl View for GenerationRun {
    type V = RunView;

    open spec fn view(&self) -> RunView {
        RunView { steps: step_views(self.steps@), failure: failure_view(self.failure) }
    }
}

/// What rendering gives: a text, or the failure that ends the run.
pub type Rendering = Result<Seq<char>, FailureView>;

/// What the registry gives for the template `name` with `data`: the
/// rendered text, or the failure with the message of the template
/// engine.
pub open spec fn render_result(registry: Registry, name: Seq<char>, data: JsonView) -> Rendering {
    match rendered(registry, name, data) {
        Ok(text) => Ok(text),
        Err(message) => Err(FailureView::Render(message)),
    }
}

/// The view of what an executable rendering gave.
pub open spec fn rendering_view(rendering: Result<String, GenerationError>) -> Rendering {
    match rendering {
        Ok(text) => Ok(text@),
        Err(e) => Err(e@),
    }
}

/// The failure of a step, if it failed.
pub open spec fn failure_of(outcome: Result<(), GenerationError>) -> Option<FailureView> {
    match outcome {
        Ok(()) => None,
        Err(e) => Some(e@),
    }
}

/// The failure of a rendering, if it failed.
pub open spec fn failure_in(rendering: Rendering) -> Option<FailureView> {
    match rendering {
        Ok(_) => None,
        Err(f) => Some(f),
    }
}

/// The line that brings the model's types into generated code.
pub open spec fn import_line() -> Seq<char> {
    "use colap::config_model::{ConfigModel, ConfigNode, ConfigValue};\n\n"@
}

/// The source text of a record type: rendered from the template of its
/// kind, or written out for an entity that stands for itself.
pub open spec fn record_text(registry: Registry, record: RecordView) -> Rendering {
    match record {
        RecordView::Element { name, fields } => render_result(
            registry,
            SINGULAR_STRUCT@,
            element_data(name, fields),
        ),
        RecordView::Collection { name, element, singular } => render_result(
            registry,
            PLURAL_STRUCT@,
            collection_data(name, element, singular),
        ),
        RecordView::Api { name } => render_result(registry, API_STRUCT@, no_data()),
        RecordView::Entity { name, fields } => Ok(entity_text(name, fields)),
    }
}

/// `text` before what `rest` holds.
pub open spec fn before(text: Seq<char>, rest: Rendering) -> Rendering {
    match rest {
        Ok(r) => Ok(text + r),
        Err(f) => Err(f),
    }
}

/// The source texts of `records` from position `from` on, one after
/// another, or the failure of the first of them that fails.
pub open spec fn records_text(registry: Registry, records: Seq<RecordView>, from: nat) -> Rendering
    decreases records.len() - from,
{
    if from >= records.len() {
        Ok(Seq::<char>::empty())
    } else {
        match record_text(registry, records[from as int]) {
            Ok(text) => before(text, records_text(registry, records, from + 1)),
            Err(f) => Err(f),
        }
    }
}

/// The source text for a model: the head, the import of the model's
/// types, and the record types of the model.
pub open spec fn code_content(registry: Registry, m: ModelView) -> Rendering {
    match render_result(registry, FILE_HEADER@, header_data()) {
        Ok(head) => before(head + import_line(), records_text(registry, record_types(m), 0)),
        Err(f) => Err(f),
    }
}

/// The source path with `/` in the place of each `\`.
pub open spec fn source_path_text(source_path: Seq<char>) -> Seq<char> {
    replaced(source_path, '\\', '/')
}

/// The test module that closes a generated module, around the
/// rendered smoke test `test`: each line of the test that is not blank
/// is indented by four spaces.
pub open spec fn test_module(test: Seq<char>) -> Seq<char> {
    "\n#[cfg(test)]\nmod tests {\n    use super::*;\n"@ + indented(test, "    "@) + "}\n"@
}

/// The test module that closes a generated module: the smoke test,
/// each line that is not blank indented by four spaces.
pub open spec fn module_tests(registry: Registry, m: ModelView, source_path: Seq<char>) -> Rendering {
    match render_result(
        registry,
        INTEGRATION_TEST@,
        test_data(""@, ""@, false, source_path_text(source_path), record_types(m)),
    ) {
        Ok(test) => Ok(test_module(test)),
        Err(f) => Err(f),
    }
}

/// A run that `failure` ends after `steps`.
pub open spec fn failed_after(steps: Seq<StepView>, failure: FailureView) -> RunView {
    RunView { steps, failure: Some(failure) }
}

/// The run that generates a single module.
pub open spec fn module_run(registry: Registry, m: ModelView, source_path: Seq<char>) -> RunView {
    let prepared = seq![StepView::CreateModuleDirectory];
    match code_content(registry, m) {
        Err(f) => failed_after(prepared, f),
        Ok(content) => match module_tests(registry, m, source_path) {
            Err(f) => failed_after(prepared, f),
            Ok(tests) => RunView {
                steps: prepared.push(StepView::WriteModule { content: content + tests }),
                failure: None,
            },
        },
    }
}

/// The name of a package as generated code writes it: with `_` in the
/// place of each `-`.
pub open spec fn sanitized_crate_name(crate_name: Seq<char>) -> Seq<char> {
    replaced(crate_name, '-', '_')
}

/// The step list after a file was rendered: with the step that writes
/// the content to `path` where rendering gave one, else as it was.
pub open spec fn with_file(steps: Seq<StepView>, path: Seq<char>, rendering: Rendering) -> Seq<
    StepView,
> {
    match rendering {
        Ok(text) => steps.push(StepView::WriteFile { path, content: text }),
        Err(_) => steps,
    }
}

/// The steps that make the test directories and copy the source
/// document, after `steps`.
pub open spec fn with_test_data(steps: Seq<StepView>) -> Seq<StepView> {
    steps.push(StepView::CreateDirectory { path: "tests"@ }).push(
        StepView::CreateDirectory { path: "tests/data"@ },
    ).push(StepView::CopySource { path: "tests/data/config.md"@ })
}

/// The data of the smoke test of the package `crate_name` for the
/// model `m`.
pub open spec fn crate_test_data(crate_name: Seq<char>, m: ModelView) -> JsonView {
    test_data(
        crate_name,
        sanitized_crate_name(crate_name),
        true,
        "tests/data/config.md"@,
        record_types(m),
    )
}

/// The run that generates a package: the source directory, the
/// manifest, the library, the test directories with a copy of the
/// source document and the smoke test, and the description. The first
/// rendering that fails ends the run after the steps before it.
pub open spec fn crate_run(
    registry: Registry,
    m: ModelView,
    crate_name: Seq<char>,
    config_filename: Seq<char>,
    date: Seq<char>,
) -> RunView {
    let prepared = seq![StepView::CreateDirectory { path: "src"@ }];
    match render_result(registry, CARGO_TOML@, manifest_data(crate_name)) {
        Err(f) => failed_after(prepared, f),
        Ok(manifest) => {
            let with_manifest = prepared.push(
                StepView::WriteFile { path: "Cargo.toml"@, content: manifest },
            );
            match code_content(registry, m) {
                Err(f) => failed_after(with_manifest, f),
                Ok(library) => {
                    let with_data = with_test_data(
                        with_manifest.push(
                            StepView::WriteFile { path: "src/lib.rs"@, content: library },
                        ).push(StepView::CreateDirectory { path: "tests"@ }),
                    );
                    match render_result(registry, INTEGRATION_TEST@, crate_test_data(crate_name, m)) {
                        Err(f) => failed_after(with_data, f),
                        Ok(test) => {
                            let with_test = with_data.push(
                                StepView::WriteFile {
                                    path: "tests/integration.rs"@,
                                    content: test,
                                },
                            );
                            match render_result(
                                registry,
                                README@,
                                readme_data(crate_name, config_filename, date),
                            ) {
                                Err(f) => failed_after(with_test, f),
                                Ok(readme) => RunView {
                                    steps: with_test.push(
                                        StepView::WriteFile {
                                            path: "README.md"@,
                                            content: readme,
                                        },
                                    ),
                                    failure: None,
                                },
                            }
                        },
                    }
                },
            }
        },
    }
}

/// The names of the templates that a generator holds.
pub open spec fn standard_templates() -> Set<Seq<char>> {
    no_templates().insert(FILE_HEADER@).insert(SINGULAR_STRUCT@).insert(PLURAL_STRUCT@).insert(
        API_STRUCT@,
    ).insert(INTEGRATION_TEST@).insert(CARGO_TOML@).insert(README@)
}

/// The sources of the templates that a generator holds, by name.
pub open spec fn standard_sources() -> Map<Seq<char>, Seq<char>> {
    no_sources().insert(FILE_HEADER@, FILE_HEADER_SOURCE@).insert(
        SINGULAR_STRUCT@,
        SINGULAR_STRUCT_SOURCE@,
    ).insert(PLURAL_STRUCT@, PLURAL_STRUCT_SOURCE@).insert(API_STRUCT@, API_STRUCT_SOURCE@).insert(
        INTEGRATION_TEST@,
        INTEGRATION_TEST_SOURCE@,
    ).insert(CARGO_TOML@, CARGO_TOML_SOURCE@).insert(README@, README_SOURCE@)
}

/// The first of two refusals that is one.
pub open spec fn or_else(first: Option<Seq<char>>, second: Option<Seq<char>>) -> Option<
    Seq<char>,
> {
    match first {
        Some(message) => Some(message),
        None => second,
    }
}

/// The message with which the template engine refuses the first of
/// the generator's templates that it refuses, in the order in which
/// they are registered, or `None` where it accepts them all.
pub open spec fn first_refusal() -> Option<Seq<char>> {
    or_else(
        template_refusal(FILE_HEADER@, FILE_HEADER_SOURCE@),
        or_else(
            template_refusal(SINGULAR_STRUCT@, SINGULAR_STRUCT_SOURCE@),
            or_else(
                template_refusal(PLURAL_STRUCT@, PLURAL_STRUCT_SOURCE@),
                or_else(
                    template_refusal(API_STRUCT@, API_STRUCT_SOURCE@),
                    or_else(
                        template_refusal(INTEGRATION_TEST@, INTEGRATION_TEST_SOURCE@),
                        or_else(
                            template_refusal(CARGO_TOML@, CARGO_TOML_SOURCE@),
                            template_refusal(README@, README_SOURCE@),
                        ),
                    ),
                ),
            ),
        ),
    )
}

/// Generates, for a model, the source text of its record types with
/// their accessors and hydration and, for a package, what belongs
/// around it. Its registry is never in development mode and holds only
/// the templates of this library.
pub struct CodeGenerator {
    model: ConfigModel,
    mode: GenerationMode,
    source_path: String,
    handlebars: Registry,
}

/// What the registration of a template comes to: success, or the
/// failure that carries the message of the template engine.
pub fn template_outcome(result: Result<(), handlebars::TemplateError>) -> (r: Result<
    (),
    GenerationError,
>)
    ensures
        match r {
            Ok(()) => result is Ok,
            Err(e) => result matches Err(refused) && e@ == FailureView::Template(
                template_error_text(refused),
            ),
        },
{
    match result {
        Ok(()) => Ok(()),
        Err(e) => Err(GenerationError::Template(template_error_message(&e))),
    }
}

/// What the rendering of a template comes to: the rendered text, or
/// the failure that carries the message of the template engine.
pub fn render_outcome(result: Result<String, handlebars::RenderError>) -> (r: Result<
    String,
    GenerationError,
>)
    ensures
        match r {
            Ok(text) => result == Ok::<String, handlebars::RenderError>(text),
            Err(e) => result matches Err(failed) && e@ == FailureView::Render(
                render_error_text(failed),
            ),
        },
{
    match result {
        Ok(text) => Ok(text),
        Err(e) => Err(GenerationError::Render(render_error_message(&e))),
    }
}

/// Adds the step that writes a rendered file to `path`. Where the
/// rendering failed, no step is added and the failure is handed on.
pub fn push_file_step(
    steps: &mut Vec<OutputStep>,
    path: &str,
    rendering: Result<String, GenerationError>,
) -> (r: Result<(), GenerationError>)
    ensures
        step_views(final(steps)@) == with_file(
            step_views(old(steps)@),
            path@,
            rendering_view(rendering),
        ),
        match r {
            Ok(()) => rendering is Ok,
            Err(e) => rendering == Err::<String, GenerationError>(e),
        },
{
    match rendering {
        Ok(text) => {
            steps.push(OutputStep::WriteFile { path: path.to_owned(), content: text });
            Ok(())
        },
        Err(e) => Err(e),
    }
}

/// Appends to `out` the test module around the rendered smoke test
/// `test`.
pub fn push_test_module(out: &mut String, test: &str)
    ensures
        final(out)@ == old(out)@ + test_module(test@),
{
    out.append("\n#[cfg(test)]\nmod tests {\n    use super::*;\n");
    push_indented(out, test, "    ");
    out.append("}\n");
}

/// Registers the template `source`, one of this library's, under
/// `name`.
fn register(registry: &mut Registry, name: &str, source: &str) -> (r: Result<(), GenerationError>)
    requires
        is_own_source(source@),
        holds_own_templates(*old(registry)),
    ensures
        match r {
            Ok(()) => template_refusal(name@, source@) is None && registered(*final(registry))
                == registered(*old(registry)).insert(name@) && template_sources(
                *final(registry),
            ) == template_sources(*old(registry)).insert(name@, source@),
            Err(e) => template_refusal(name@, source@) matches Some(message) && e@
                == FailureView::Template(message) && registered(*final(registry)) == registered(
                *old(registry),
            ) && template_sources(*final(registry)) == template_sources(*old(registry)),
        },
        holds_own_templates(*final(registry)),
        in_dev_mode(*final(registry)) == in_dev_mode(*old(registry)),
{
    template_outcome(register_template_string(registry, name, source))
}

impl CodeGenerator {
    #[verifier::type_invariant]
    closed spec fn renders_what_it_holds(&self) -> bool {
        !in_dev_mode(self.handlebars) && holds_own_templates(self.handlebars)
    }

    /// The model that the generator reads.
    pub closed spec fn model_view(&self) -> ModelView {
        self.model@
    }

    /// What the generator produces.
    pub closed spec fn mode(&self) -> GenerationMode {
        self.mode
    }

    /// The path of the source document.
    pub closed spec fn source_path(&self) -> Seq<char> {
        self.source_path@
    }

    /// The registry of the generator's templates.
    pub closed spec fn registry(&self) -> Registry {
        self.handlebars
    }

    /// A generator for `model` that holds the templates of the
    /// artifacts. It is made if and only if the template engine
    /// accepts each of the templates; else the failure carries the
    /// message for the first template that is refused.
    pub fn new(model: ConfigModel, mode: GenerationMode, source_path: String) -> (r: Result<
        Self,
        GenerationError,
    >)
        ensures
            match r {
                Ok(g) => first_refusal() is None && g.model_view() == model@ && g.mode() == mode
                    && g.source_path() == source_path@ && registered(g.registry())
                    == standard_templates() && template_sources(g.registry())
                    == standard_sources(),
                Err(e) => first_refusal() matches Some(message) && e@ == FailureView::Template(
                    message,
                ),
            },
    {
        let mut handlebars = new_registry();
        register(&mut handlebars, FILE_HEADER, FILE_HEADER_SOURCE)?;
        register(&mut handlebars, SINGULAR_STRUCT, SINGULAR_STRUCT_SOURCE)?;
        register(&mut handlebars, PLURAL_STRUCT, PLURAL_STRUCT_SOURCE)?;
        register(&mut handlebars, API_STRUCT, API_STRUCT_SOURCE)?;
        register(&mut handlebars, INTEGRATION_TEST, INTEGRATION_TEST_SOURCE)?;
        register(&mut handlebars, CARGO_TOML, CARGO_TOML_SOURCE)?;
        register(&mut handlebars, README, README_SOURCE)?;
        set_strict_mode(&mut handlebars, false);
        Ok(CodeGenerator { model, mode, source_path, handlebars })
    }

    /// The model that the generator reads.
    pub fn model(&self) -> (r: &ConfigModel)
        ensures
            r@ == self.model_view(),
    {
        &self.model
    }

    fn render_text(&self, name: &str, data: &serde_json::Value) -> (r: Result<
        String,
        GenerationError,
    >)
        ensures
            rendering_view(r) == render_result(self.registry(), name@, json_content(*data)),
    {
        proof {
            use_type_invariant(self);
        }
        render_outcome(render(&self.handlebars, name, data))
    }

    /// The run that the generator's mode asks for. `config_filename`
    /// is the name of the source document without its directories,
    /// `date` the day of the run; both go into the description of a
    /// package. A run fails only where a template cannot be rendered,
    /// and then with the message of the template engine.
    pub fn generate(&self, config_filename: &str, date: &str) -> (r: GenerationRun)
        ensures
            r@ == match self.mode() {
                GenerationMode::Module { output_file } => module_run(
                    self.registry(),
                    self.model_view(),
                    self.source_path(),
                ),
                GenerationMode::Crate { output_dir, crate_name } => crate_run(
                    self.registry(),
                    self.model_view(),
                    crate_name@,
                    config_filename@,
                    date@,
                ),
            },
            r.failure matches Some(e) ==> e is Render,
    {
        let mut steps: Vec<OutputStep> = Vec::new();
        let outcome = match &self.mode {
            GenerationMode::Module { output_file } => self.generate_module(&mut steps),
            GenerationMode::Crate { output_dir, crate_name } => self.generate_crate(
                crate_name.as_str(),
                config_filename,
                date,
                &mut steps,
            ),
        };
        match outcome {
            Ok(()) => GenerationRun { steps, failure: None },
            Err(e) => GenerationRun { steps, failure: Some(e) },
        }
    }

    /// The steps of a single module.
    fn generate_module(&self, steps: &mut Vec<OutputStep>) -> (r: Result<(), GenerationError>)
        requires
            old(steps)@.len() == 0,
        ensures
            step_views(final(steps)@) == module_run(
                self.registry(),
                self.model_view(),
                self.source_path(),
            ).steps,
            failure_of(r) == module_run(
                self.registry(),
                self.model_view(),
                self.source_path(),
            ).failure,
            r matches Err(e) ==> e is Render,
    {
        steps.push(OutputStep::CreateModuleDirectory);
        let mut out = String::new();
        self.generate_code_content(&mut out)?;
        self.generate_module_tests(&mut out)?;
        steps.push(OutputStep::WriteModule { content: out });
        Ok(())
    }

    /// The steps of a package.
    fn generate_crate(
        &self,
        crate_name: &str,
        config_filename: &str,
        date: &str,
        steps: &mut Vec<OutputStep>,
    ) -> (r: Result<(), GenerationError>)
        requires
            old(steps)@.len() == 0,
        ensures
            step_views(final(steps)@) == crate_run(
                self.registry(),
                self.model_view(),
                crate_name@,
                config_filename@,
                date@,
            ).steps,
            failure_of(r) == crate_run(
                self.registry(),
                self.model_view(),
                crate_name@,
                config_filename@,
                date@,
            ).failure,
            r matches Err(e) ==> e is Render,
    {
        steps.push(OutputStep::CreateDirectory { path: "src".to_owned() });
        self.generate_cargo_toml(crate_name, steps)?;
        let ghost with_manifest = step_views(steps@);
        let mut lib_content = String::new();
        self.generate_code_content(&mut lib_content)?;
        let ghost library = lib_content@;
        steps.push(OutputStep::WriteFile { path: "src/lib.rs".to_owned(), content: lib_content });
        steps.push(OutputStep::CreateDirectory { path: "tests".to_owned() });
        assert(step_views(steps@) =~= with_manifest.push(
            StepView::WriteFile { path: "src/lib.rs"@, content: library },
        ).push(StepView::CreateDirectory { path: "tests"@ }));
        self.generate_crate_tests(crate_name, steps)?;
        self.generate_readme(crate_name, config_filename, date, steps)
    }

    /// Appends the source text for the model to `out`.
    #[verifier::loop_isolation(false)]
    fn generate_code_content(&self, out: &mut String) -> (r: Result<(), GenerationError>)
        requires
            old(out)@.len() == 0,
        ensures
            match r {
                Ok(()) => code_content(self.registry(), self.model_view()) == Ok::<
                    Seq<char>,
                    FailureView,
                >(final(out)@),
                Err(e) => e is Render && code_content(self.registry(), self.model_view())
                    == Err::<Seq<char>, FailureView>(e@),
            },
    {
        let header_data = make_header_data();
        let header_content = self.render_text(FILE_HEADER, &header_data)?;
        out.append(header_content.as_str());
        out.append("use colap::config_model::{ConfigModel, ConfigNode, ConfigValue};\n\n");
        let ghost head = out@;
        let records = derive_record_types(&self.model);
        let ghost views = record_views(records@);
        let mut i: usize = 0;
        assert(out@ =~= head + Seq::<char>::empty());
        while i < records.len()
            invariant
                i <= records.len(),
                views == record_views(records@),
                exists|done: Seq<char>|
                    out@ == head + done && records_text(self.registry(), views, 0) == before(
                        done,
                        records_text(self.registry(), views, i as nat),
                    ),
            decreases records.len() - i,
        {
            let ghost done = choose|done: Seq<char>|
                out@ == head + done && records_text(self.registry(), views, 0) == before(
                    done,
                    records_text(self.registry(), views, i as nat),
                );
            self.emit_record(&records[i], out)?;
            proof {
                let text = record_text(self.registry(), views[i as int])->Ok_0;
                assert(out@ =~= head + (done + text));
                match records_text(self.registry(), views, (i + 1) as nat) {
                    Ok(rest) => {
                        assert(done + (text + rest) =~= (done + text) + rest);
                    },
                    Err(_) => {},
                }
            }
            i += 1;
        }
        proof {
            let done = choose|done: Seq<char>|
                out@ == head + done && records_text(self.registry(), views, 0) == before(
                    done,
                    records_text(self.registry(), views, i as nat),
                );
            assert(done + Seq::<char>::empty() =~= done);
        }
        Ok(())
    }

    /// Appends the source text of `record` to `out`.
    fn emit_record(&self, record: &RecordType, out: &mut String) -> (r: Result<
        (),
        GenerationError,
    >)
        ensures
            match r {
                Ok(()) => record_text(self.registry(), record@) matches Ok(text) && final(out)@
                    == old(out)@ + text,
                Err(e) => e is Render && record_text(self.registry(), record@) == Err::<
                    Seq<char>,
                    FailureView,
                >(e@),
            },
    {
        let text = match record {
            RecordType::Element { name, fields } => {
                let data = make_element_data(name.as_str(), fields);
                self.render_text(SINGULAR_STRUCT, &data)?
            },
            RecordType::Collection { name, element, singular } => {
                let data = make_collection_data(name.as_str(), element.as_str(), singular.as_str());
                self.render_text(PLURAL_STRUCT, &data)?
            },
            RecordType::Api { name } => {
                let data = make_no_data();
                self.render_text(API_STRUCT, &data)?
            },
            RecordType::Entity { name, fields } => {
                push_entity_text(out, name.as_str(), fields);
                return Ok(());
            },
        };
        out.append(text.as_str());
        Ok(())
    }

    /// Appends the test module of a generated module to `out`.
    fn generate_module_tests(&self, out: &mut String) -> (r: Result<(), GenerationError>)
        ensures
            match r {
                Ok(()) => module_tests(self.registry(), self.model_view(), self.source_path()) matches Ok(tests)
                    && final(out)@ == old(out)@ + tests,
                Err(e) => e is Render && module_tests(self.registry(), self.model_view(), self.source_path())
                    == Err::<Seq<char>, FailureView>(e@),
            },
    {
        let path = self.relative_source_path();
        let records = derive_record_types(&self.model);
        let data = make_test_data("", "", false, path.as_str(), &records);
        let rendered_test = self.render_text(INTEGRATION_TEST, &data)?;
        push_test_module(out, rendered_test.as_str());
        Ok(())
    }

    /// Adds the step that writes the manifest.
    fn generate_cargo_toml(&self, crate_name: &str, steps: &mut Vec<OutputStep>) -> (r: Result<
        (),
        GenerationError,
    >)
        ensures
            step_views(final(steps)@) == with_file(
                step_views(old(steps)@),
                "Cargo.toml"@,
                render_result(self.registry(), CARGO_TOML@, manifest_data(crate_name@)),
            ),
            failure_of(r) == failure_in(
                render_result(self.registry(), CARGO_TOML@, manifest_data(crate_name@)),
            ),
    {
        let data = make_manifest_data(crate_name);
        push_file_step(steps, "Cargo.toml", self.render_text(CARGO_TOML, &data))
    }

    /// Adds the steps that make the test directory, copy the source
    /// document into it and write the smoke test.
    fn generate_crate_tests(&self, crate_name: &str, steps: &mut Vec<OutputStep>) -> (r: Result<
        (),
        GenerationError,
    >)
        ensures
            step_views(final(steps)@) == with_file(
                with_test_data(step_views(old(steps)@)),
                "tests/integration.rs"@,
                render_result(
                    self.registry(),
                    INTEGRATION_TEST@,
                    crate_test_data(crate_name@, self.model_view()),
                ),
            ),
            failure_of(r) == failure_in(
                render_result(
                    self.registry(),
                    INTEGRATION_TEST@,
                    crate_test_data(crate_name@, self.model_view()),
                ),
            ),
    {
        steps.push(OutputStep::CreateDirectory { path: "tests".to_owned() });
        self.copy_config_to_tests_data(steps);
        proof {
            reveal_strlit("_");
        }
        let sanitized = replace_char(crate_name, '-', "_");
        let records = derive_record_types(&self.model);
        let data = make_test_data(
            crate_name,
            sanitized.as_str(),
            true,
            "tests/data/config.md",
            &records,
        );
        push_file_step(steps, "tests/integration.rs", self.render_text(INTEGRATION_TEST, &data))
    }

    /// Adds the steps that make the data directory of the tests and
    /// copy the source document into it.
    fn copy_config_to_tests_data(&self, steps: &mut Vec<OutputStep>)
        ensures
            step_views(final(steps)@) == step_views(old(steps)@).push(
                StepView::CreateDirectory { path: "tests/data"@ },
            ).push(StepView::CopySource { path: "tests/data/config.md"@ }),
    {
        steps.push(OutputStep::CreateDirectory { path: "tests/data".to_owned() });
        steps.push(OutputStep::CopySource { path: "tests/data/config.md".to_owned() });
    }

    /// Adds the step that writes the description.
    fn generate_readme(
        &self,
        crate_name: &str,
        config_filename: &str,
        date: &str,
        steps: &mut Vec<OutputStep>,
    ) -> (r: Result<(), GenerationError>)
        ensures
            step_views(final(steps)@) == with_file(
                step_views(old(steps)@),
                "README.md"@,
                render_result(
                    self.registry(),
                    README@,
                    readme_data(crate_name@, config_filename@, date@),
                ),
            ),
            failure_of(r) == failure_in(
                render_result(
                    self.registry(),
                    README@,
                    readme_data(crate_name@, config_filename@, date@),
                ),
            ),
    {
        let data = make_readme_data(crate_name, config_filename, date);
        push_file_step(steps, "README.md", self.render_text(README, &data))
    }

    /// The name of the package: that of the mode, or `config` for a
    /// single module.
    pub fn get_crate_name(&self) -> (r: String)
        ensures
            r@ == match self.mode() {
                GenerationMode::Crate { output_dir, crate_name } => crate_name@,
                GenerationMode::Module { output_file } => "config"@,
            },
    {
        match &self.mode {
            GenerationMode::Crate { crate_name, .. } => crate_name.clone(),
            GenerationMode::Module { .. } => "config".to_owned(),
        }
    }

    /// The path of the source document with `/` between its parts.
    pub fn relative_source_path(&self) -> (r: String)
        ensures
            r@ == source_path_text(self.source_path()),
    {
        proof {
            reveal_strlit("/");
        }
        replace_char(self.source_path.as_str(), '\\', "/")
    }
}

} // verus!
