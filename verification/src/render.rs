//! The render orchestrator.
//!
//! A render validates the document's header, stages the document in a
//! uniquely named temporary file, runs the tool on it and finds the file the
//! tool left. Writing, running and looking are the host's work; this module
//! decides what is written where, what the tool is handed, where its output
//! is looked for and how each failure is reported. The steps are types: each
//! one takes the host's report on the work it asked for and yields the next
//! step or the error that ends the render.

use crate::header::{
    fault_message, framed_view, validate_markdown_header, validation, FrontMatter, HeaderError,
    HeaderFault,
};
use crate::naming::{
    file_name, hints_fit, input_extension, input_stem, name_hints, named, optional_string,
    optional_text, output_extension, output_extensions, path_join, placed_in, temp_extension,
    temp_stem,
};
use crate::resolver::{
    augmented_search_path, render_dirs, resolved_search_path, run_dirs, text_or_empty, PathStyle,
};
use crate::runner::QuartoRunner;
use crate::text::{concat2, concat3, texts};
use vstd::prelude::*;

verus! {

// ---------------------------------------------------------------------------
// Requests, surroundings, errors
// ---------------------------------------------------------------------------

/// A document to render, with the name it had where it came from.
pub struct RenderRequest {
    /// The whole document, header included.
    pub md_content: String,
    /// The original file name; only its stem and extension are used.
    pub orig_name: Option<String>,
}

/// What a render takes from its surroundings.
pub struct Ambient {
    /// The directory for temporary files; it is the tool's working directory.
    pub temp_dir: String,
    /// The time, in milliseconds since the Unix epoch.
    pub now_millis: u128,
    /// A search path that replaces the computed one.
    pub path_override: Option<String>,
    /// The search path of the current process.
    pub search_path: Option<String>,
    /// How the platform separates the entries of a search path.
    pub path_style: PathStyle,
    /// The user's home directory.
    pub home: Option<String>,
}

/// Why a render failed.
#[derive(Debug, PartialEq, Eq)]
pub enum RenderError {
    /// The header was refused; nothing has been written or run.
    Header(HeaderError),
    /// The temporary input file could not be written; carries the host's
    /// diagnostic.
    TempWriteError(String),
    /// The runner failed; carries its diagnostic as it stands.
    RunnerExhausted(String),
    /// The runner reported success but left none of the expected files;
    /// carries the path that the files were expected to start with.
    OutputNotFound(String),
}

/// The mathematical content of a [`RenderError`].
pub enum RenderFault {
    Header(HeaderFault),
    TempWriteError(Seq<char>),
    RunnerExhausted(Seq<char>),
    OutputNotFound(Seq<char>),
}

impl View for RenderError {
    type V = RenderFault;

    open spec fn view(&self) -> RenderFault {
        match self {
            RenderError::Header(e) => RenderFault::Header(e@),
            RenderError::TempWriteError(d) => RenderFault::TempWriteError(d@),
            RenderError::RunnerExhausted(m) => RenderFault::RunnerExhausted(m@),
            RenderError::OutputNotFound(p) => RenderFault::OutputNotFound(p@),
        }
    }
}

/// The text shown for a [`RenderFault`]. A runner's diagnostic is shown as
/// it stands.
pub open spec fn render_fault_message(fault: RenderFault) -> Seq<char> {
    match fault {
        RenderFault::Header(f) => fault_message(f),
        RenderFault::TempWriteError(d) => "임시 파일 저장 실패: "@ + d,
        RenderFault::RunnerExhausted(m) => m,
        RenderFault::OutputNotFound(p) =>
            "Quarto render는 성공했으나 결과 파일이 보이지 않습니다. 경로 prefix=`"@ + p + "`"@,
    }
}

impl RenderError {
    /// The human-readable diagnostic for this error.
    pub fn message(&self) -> (r: String)
        ensures
            r@ == render_fault_message(self@),
    {
        match self {
            RenderError::Header(e) => e.message(),
            RenderError::TempWriteError(d) => concat2("임시 파일 저장 실패: ", d.as_str()),
            RenderError::RunnerExhausted(m) => m.clone(),
            RenderError::OutputNotFound(p) => concat3(
                "Quarto render는 성공했으나 결과 파일이 보이지 않습니다. 경로 prefix=`",
                p.as_str(),
                "`",
            ),
        }
    }
}

// ---------------------------------------------------------------------------
// The plan
// ---------------------------------------------------------------------------

/// What a render has settled before the host does any work.
pub struct RenderPlan {
    content: String,
    workdir: String,
    search_path: String,
    stem: String,
    extension: String,
    input_name: String,
    input_path: String,
    prefix: String,
    output_names: Vec<String>,
    outputs: Vec<String>,
}

/// The mathematical content of a [`RenderPlan`].
pub struct PlanModel {
    /// The text written to the input file.
    pub content: Seq<char>,
    /// The working directory of the tool.
    pub workdir: Seq<char>,
    /// The search path handed to the tool.
    pub search_path: Seq<char>,
    /// The stem of the input file and of the files the tool may leave.
    pub stem: Seq<char>,
    /// The extension of the input file.
    pub extension: Seq<char>,
    /// The name of the input file inside the working directory.
    pub input_name: Seq<char>,
    /// The host's path of the input file.
    pub input_path: Seq<char>,
    /// The host's path of the stem inside the working directory.
    pub prefix: Seq<char>,
    /// The names of the files the tool may leave, in the order in which
    /// they are looked for.
    pub output_names: Seq<Seq<char>>,
    /// The host's paths of those files, in the same order.
    pub outputs: Seq<Seq<char>>,
}

impl PlanModel {
    /// There is one name and one path to look at for each output extension.
    pub open spec fn valid(self) -> bool {
        self.outputs.len() == output_extensions().len() && self.output_names.len()
            == output_extensions().len()
    }
}

impl View for RenderPlan {
    type V = PlanModel;

    closed spec fn view(&self) -> PlanModel {
        PlanModel {
            content: self.content@,
            workdir: self.workdir@,
            search_path: self.search_path@,
            stem: self.stem@,
            extension: self.extension@,
            input_name: self.input_name@,
            input_path: self.input_path@,
            prefix: self.prefix@,
            output_names: texts(self.output_names@),
            outputs: texts(self.outputs@),
        }
    }
}

impl RenderPlan {
    #[verifier::type_invariant]
    spec fn well_formed(&self) -> bool {
        self.outputs@.len() == 3 && self.output_names@.len() == 3
    }
}

/// The names of the files a run with the stem `stem` may leave, in the order
/// in which they are looked for.
pub open spec fn output_names(stem: Seq<char>) -> Seq<Seq<char>> {
    Seq::new(output_extensions().len(), |i: int| file_name(stem, output_extensions()[i]))
}

/// `plan` is what a render of `content` settles in the surroundings
/// `ambient`, for a stem and an extension found in the original name. The
/// names of the files are fixed; their paths are what the host makes of the
/// names inside the working directory: the path of a plain name ends with
/// that name, and it is the working directory, at most one separator, and
/// the name where the directory is a slash path.
pub open spec fn plans(
    plan: PlanModel,
    content: Seq<char>,
    stem_hint: Option<Seq<char>>,
    extension_hint: Option<Seq<char>>,
    ambient: Ambient,
) -> bool {
    &&& plan.valid()
    &&& plan.content == content
    &&& plan.workdir == ambient.temp_dir@
    &&& plan.search_path == resolved_search_path(
        ambient.path_override,
        ambient.search_path,
        ambient.path_style,
        run_dirs(text_or_empty(ambient.home)),
    )
    &&& plan.stem == input_stem(stem_hint, ambient.now_millis as nat)
    &&& plan.extension == input_extension(extension_hint)
    &&& plan.input_name == file_name(plan.stem, plan.extension)
    &&& plan.output_names == output_names(plan.stem)
    &&& placed_in(plan.input_path, plan.workdir, plan.input_name)
    &&& placed_in(plan.prefix, plan.workdir, plan.stem)
    &&& forall|i: int|
        0 <= i < plan.outputs.len() ==> placed_in(
            #[trigger] plan.outputs[i],
            plan.workdir,
            plan.output_names[i],
        )
}

/// Borrows the text of an optional string.
fn borrowed(s: &Option<String>) -> (r: Option<&str>)
    ensures
        optional_text(r) == optional_string(*s),
{
    match s {
        Some(t) => Some(t.as_str()),
        None => None,
    }
}

/// The text of an optional string, or the empty string.
fn or_empty(s: &Option<String>) -> (r: &str)
    ensures
        r@ == text_or_empty(*s),
{
    match s {
        Some(t) => t.as_str(),
        None => {
            proof {
                reveal_strlit("");
                assert(""@ =~= Seq::<char>::empty());
            }
            ""
        },
    }
}

// ---------------------------------------------------------------------------
// The steps
// ---------------------------------------------------------------------------

/// First step: the input file has to be written.
pub struct StagedInput {
    plan: RenderPlan,
}

/// Second step: the tool has to be run.
pub struct ReadyToRun {
    plan: RenderPlan,
}

/// Third step: the working directory has to be searched for the output.
pub struct OutputProbe {
    plan: RenderPlan,
    index: usize,
}

/// The mathematical content of an [`OutputProbe`]: the plan and the index of
/// the path to look at.
pub struct ProbeModel {
    pub plan: PlanModel,
    pub index: int,
}

impl ProbeModel {
    /// The path to look at exists in the plan.
    pub open spec fn valid(self) -> bool {
        self.plan.valid() && 0 <= self.index < self.plan.outputs.len()
    }
}

/// Last step: an output exists; its path may be made canonical.
pub struct FoundOutput {
    path: String,
}

/// What looking at one path leads to.
pub enum ProbeResult {
    /// The file exists.
    Found(FoundOutput),
    /// The file does not exist; the next path is to be looked at.
    Next(OutputProbe),
    /// None of the files exists.
    Missing(RenderError),
}

/// The mathematical content of a [`ProbeResult`].
pub enum ProbeResultView {
    Found(Seq<char>),
    Next(ProbeModel),
    Missing(RenderFault),
}

impl View for StagedInput {
    type V = PlanModel;

    closed spec fn view(&self) -> PlanModel {
        self.plan@
    }
}

impl View for ReadyToRun {
    type V = PlanModel;

    closed spec fn view(&self) -> PlanModel {
        self.plan@
    }
}

impl View for OutputProbe {
    type V = ProbeModel;

    closed spec fn view(&self) -> ProbeModel {
        ProbeModel { plan: self.plan@, index: self.index as int }
    }
}

impl View for FoundOutput {
    type V = Seq<char>;

    closed spec fn view(&self) -> Seq<char> {
        self.path@
    }
}

impl View for ProbeResult {
    type V = ProbeResultView;

    open spec fn view(&self) -> ProbeResultView {
        match self {
            ProbeResult::Found(found) => ProbeResultView::Found(found@),
            ProbeResult::Next(probe) => ProbeResultView::Next(probe@),
            ProbeResult::Missing(e) => ProbeResultView::Missing(e@),
        }
    }
}

/// What a render of a document comes to before any work is done, given
/// what the decoder made of its header block: the error of its header, or a
/// plan.
pub open spec fn planning(
    outcome: Result<PlanModel, RenderFault>,
    content: Seq<char>,
    decoded: Option<Result<FrontMatter, String>>,
    stem_hint: Option<Seq<char>>,
    extension_hint: Option<Seq<char>>,
    ambient: Ambient,
) -> bool {
    match validation(content, framed_view(decoded)) {
        Err(fault) => outcome == Err::<PlanModel, RenderFault>(RenderFault::Header(fault)),
        Ok(_) => outcome matches Ok(plan) && plans(
            plan,
            content,
            stem_hint,
            extension_hint,
            ambient,
        ),
    }
}

/// The outcome of planning, as the model sees it.
pub open spec fn planned(r: Result<StagedInput, RenderError>) -> Result<PlanModel, RenderFault> {
    match r {
        Ok(staged) => Ok(staged@),
        Err(e) => Err(e@),
    }
}

/// Plans the render of `content`, given what the decoder made of its header
/// block and the stem and the extension found in the original file name.
///
/// A document whose header is refused yields that error and no plan. For any
/// other document the plan holds the document as the text to write, the
/// temporary directory as the working directory, the resolved search path,
/// the stem made of the hint (or the default) and the time, and the
/// extension `md` or `qmd`.
pub fn plan_with_hints(
    content: String,
    decoded: Option<Result<FrontMatter, String>>,
    stem_hint: Option<String>,
    extension_hint: Option<String>,
    ambient: Ambient,
) -> (r: Result<StagedInput, RenderError>)
    ensures
        planning(
            planned(r),
            content@,
            decoded,
            optional_string(stem_hint),
            optional_string(extension_hint),
            ambient,
        ),
{
    match validate_markdown_header(content.as_str(), decoded) {
        Err(e) => {
            return Err(RenderError::Header(e));
        },
        Ok(_) => {},
    }
    let stem = temp_stem(borrowed(&stem_hint), ambient.now_millis);
    let extension = temp_extension(borrowed(&extension_hint)).to_owned();
    let dir = ambient.temp_dir.as_str();
    let input_name = named(stem.as_str(), extension.as_str());
    let input_path = path_join(dir, input_name.as_str());
    let prefix = path_join(dir, stem.as_str());
    let mut output_names: Vec<String> = Vec::new();
    let mut outputs: Vec<String> = Vec::new();
    let mut i: usize = 0;
    while i < 3
        invariant
            i <= 3,
            outputs@.len() == i,
            output_names@.len() == i,
            output_extensions().len() == 3,
            forall|k: int|
                0 <= k < i ==> (#[trigger] output_names@[k])@ == file_name(
                    stem@,
                    output_extensions()[k],
                ),
            forall|k: int|
                0 <= k < i ==> placed_in((#[trigger] outputs@[k])@, dir@, output_names@[k]@),
        decreases 3 - i,
    {
        let name = named(stem.as_str(), output_extension(i));
        outputs.push(path_join(dir, name.as_str()));
        output_names.push(name);
        i += 1;
    }
    assert(texts(output_names@) =~= self::output_names(stem@));
    let dirs = render_dirs(or_empty(&ambient.home));
    let ghost wanted = resolved_search_path(
        ambient.path_override,
        ambient.search_path,
        ambient.path_style,
        run_dirs(text_or_empty(ambient.home)),
    );
    let Ambient { temp_dir, path_override, search_path, path_style, .. } = ambient;
    let search_path = augmented_search_path(path_override, search_path, path_style, &dirs);
    assert(search_path@ == wanted);
    let plan = RenderPlan {
        content,
        workdir: temp_dir,
        search_path,
        stem,
        extension,
        input_name,
        input_path,
        prefix,
        output_names,
        outputs,
    };
    Ok(StagedInput { plan })
}

/// Plans the render of a request, given what the decoder made of the header
/// block of its document (`None` where the document has none).
///
/// The stem and the extension of the original name are found by the host's
/// rules for paths, and the plan is the one that [`plan_with_hints`] makes
/// of them. Without an original name there is neither, and the stem is the
/// default one; a plain name, such as `demo.md`, splits at its last `.` on
/// every host.
pub fn plan_render(
    request: RenderRequest,
    decoded: Option<Result<FrontMatter, String>>,
    ambient: Ambient,
) -> (r: Result<StagedInput, RenderError>)
    ensures
        exists|stem_hint: Option<Seq<char>>, extension_hint: Option<Seq<char>>|
            #[trigger] planning(
                planned(r),
                request.md_content@,
                decoded,
                stem_hint,
                extension_hint,
                ambient,
            ) && hints_fit(optional_string(request.orig_name), stem_hint, extension_hint),
{
    let RenderRequest { md_content, orig_name } = request;
    let (stem_hint, extension_hint) = name_hints(borrowed(&orig_name));
    let ghost stem = optional_string(stem_hint);
    let ghost extension = optional_string(extension_hint);
    let r = plan_with_hints(md_content, decoded, stem_hint, extension_hint, ambient);
    assert(planning(planned(r), md_content@, decoded, stem, extension, ambient));
    r
}

impl StagedInput {
    /// The stem of the input file.
    pub fn stem(&self) -> (r: &str)
        ensures
            r@ == self@.stem,
    {
        self.plan.stem.as_str()
    }

    /// The name of the file to write, inside the working directory.
    pub fn input_name(&self) -> (r: &str)
        ensures
            r@ == self@.input_name,
    {
        self.plan.input_name.as_str()
    }

    /// The path of the file to write.
    pub fn input_path(&self) -> (r: &str)
        ensures
            r@ == self@.input_path,
    {
        self.plan.input_path.as_str()
    }

    /// The text to write: the whole document.
    pub fn content(&self) -> (r: &str)
        ensures
            r@ == self@.content,
    {
        self.plan.content.as_str()
    }

    /// Takes the host's report on writing the input file. A failure ends the
    /// render with the host's diagnostic.
    pub fn written(self, outcome: Result<(), String>) -> (r: Result<ReadyToRun, RenderError>)
        ensures
            match outcome {
                Ok(_) => r matches Ok(ready) && ready@ == self@,
                Err(d) => r matches Err(e) && e@ == RenderFault::TempWriteError(d@),
            },
    {
        match outcome {
            Ok(_) => Ok(ReadyToRun { plan: self.plan }),
            Err(d) => Err(RenderError::TempWriteError(d)),
        }
    }
}

impl ReadyToRun {
    /// The path of the document to render.
    pub fn input_path(&self) -> (r: &str)
        ensures
            r@ == self@.input_path,
    {
        self.plan.input_path.as_str()
    }

    /// The working directory of the tool.
    pub fn workdir(&self) -> (r: &str)
        ensures
            r@ == self@.workdir,
    {
        self.plan.workdir.as_str()
    }

    /// The search path handed to the tool.
    pub fn search_path(&self) -> (r: &str)
        ensures
            r@ == self@.search_path,
    {
        self.plan.search_path.as_str()
    }

    /// Takes a runner's report. A failure ends the render with the runner's
    /// diagnostic, unchanged; after a success the first output is looked for.
    pub fn rendered(self, outcome: Result<(), String>) -> (r: Result<OutputProbe, RenderError>)
        ensures
            match outcome {
                Ok(_) => r matches Ok(probe) && probe@ == (ProbeModel { plan: self@, index: 0 })
                    && probe@.valid(),
                Err(m) => r matches Err(e) && e@ == RenderFault::RunnerExhausted(m@),
            },
    {
        proof {
            use_type_invariant(&self.plan);
        }
        match outcome {
            Ok(_) => Ok(OutputProbe { plan: self.plan, index: 0 }),
            Err(m) => Err(RenderError::RunnerExhausted(m)),
        }
    }

    /// Runs `runner` on the input file, in the working directory and with
    /// the search path of the plan, and takes its report. The runner is
    /// asked once, for exactly these three; after its success the first
    /// output is looked for, and its failure ends the render with its
    /// diagnostic, unchanged.
    pub fn run<R: QuartoRunner>(self, runner: &R) -> (r: Result<OutputProbe, RenderError>)
        ensures
            exists|outcome: Result<(), String>| #[trigger]
                runner.may_return(
                    self@.input_path,
                    self@.workdir,
                    Some(self@.search_path),
                    outcome,
                ) && match outcome {
                    Ok(_) => r matches Ok(probe) && probe@ == (ProbeModel { plan: self@, index: 0 })
                        && probe@.valid(),
                    Err(m) => r matches Err(e) && e@ == RenderFault::RunnerExhausted(m@),
                },
    {
        let outcome = runner.render(
            self.plan.input_path.as_str(),
            self.plan.workdir.as_str(),
            Some(self.plan.search_path.as_str()),
        );
        let ghost asked = self@;
        assert(runner.may_return(
            asked.input_path,
            asked.workdir,
            Some(asked.search_path),
            outcome,
        ));
        let r = self.rendered(outcome);
        assert(match outcome {
            Ok(_) => r matches Ok(probe) && probe@ == (ProbeModel { plan: asked, index: 0 })
                && probe@.valid(),
            Err(m) => r matches Err(e) && e@ == RenderFault::RunnerExhausted(m@),
        });
        r
    }
}

/// What looking at one path leads to: the path where the file exists, the
/// next path where it does not, and the error after the last path.
pub open spec fn probe_step(probe: ProbeModel, exists: bool) -> ProbeResultView {
    if exists {
        ProbeResultView::Found(probe.plan.outputs[probe.index])
    } else if probe.index + 1 < probe.plan.outputs.len() {
        ProbeResultView::Next(ProbeModel { plan: probe.plan, index: probe.index + 1 })
    } else {
        ProbeResultView::Missing(RenderFault::OutputNotFound(probe.plan.prefix))
    }
}

impl OutputProbe {
    #[verifier::type_invariant]
    spec fn well_formed(&self) -> bool {
        self.index < self.plan.outputs@.len()
    }

    /// The path to look at.
    pub fn candidate(&self) -> (r: &str)
        ensures
            self@.valid(),
            r@ == self@.plan.outputs[self@.index],
    {
        proof {
            use_type_invariant(self);
            use_type_invariant(&self.plan);
        }
        self.plan.outputs[self.index].as_str()
    }

    /// The name of the file to look for, inside the working directory.
    pub fn candidate_name(&self) -> (r: &str)
        ensures
            self@.valid(),
            r@ == self@.plan.output_names[self@.index],
    {
        proof {
            use_type_invariant(self);
            use_type_invariant(&self.plan);
        }
        self.plan.output_names[self.index].as_str()
    }

    /// Takes the host's answer to whether the file at [`Self::candidate`]
    /// exists.
    pub fn probed(self, exists: bool) -> (r: ProbeResult)
        ensures
            r@ == probe_step(self@, exists),
            r@ matches ProbeResultView::Next(next) ==> next.valid(),
    {
        proof {
            use_type_invariant(&self);
            use_type_invariant(&self.plan);
        }
        let OutputProbe { plan, index } = self;
        let count = plan.outputs.len();
        if exists {
            ProbeResult::Found(FoundOutput { path: plan.outputs[index].clone() })
        } else if index + 1 < count {
            ProbeResult::Next(OutputProbe { plan, index: index + 1 })
        } else {
            ProbeResult::Missing(RenderError::OutputNotFound(plan.prefix))
        }
    }
}

impl FoundOutput {
    /// The path of the output as it was found.
    pub fn path(&self) -> (r: &str)
        ensures
            r@ == self@,
    {
        self.path.as_str()
    }

    /// The path to hand back: the canonical one where the host could make
    /// one, and the path as found otherwise.
    pub fn resolved(self, canonical: Option<String>) -> (r: String)
        ensures
            r@ == match canonical {
                Some(c) => c@,
                None => self@,
            },
    {
        match canonical {
            Some(c) => c,
            None => self.path,
        }
    }
}

// ---------------------------------------------------------------------------
// Laws
// ---------------------------------------------------------------------------

/// Where the search for the output stands after the host has answered for
/// the paths from `probe` on, in order. A search that is over takes no
/// further answers.
pub open spec fn after_answers(step: ProbeResultView, answers: Seq<bool>) -> ProbeResultView
    decreases answers.len(),
{
    match step {
        ProbeResultView::Next(probe) => if answers.len() == 0 {
            step
        } else {
            after_answers(probe_step(probe, answers[0]), answers.drop_first())
        },
        _ => step,
    }
}

/// The first file that exists is the output, whatever exists behind it.
pub proof fn law_first_existing_output_wins(probe: ProbeModel, answers: Seq<bool>, k: int)
    requires
        probe.valid(),
        0 <= k < answers.len(),
        probe.index + k < probe.plan.outputs.len(),
        forall|i: int| 0 <= i < k ==> !#[trigger] answers[i],
        answers[k],
    ensures
        after_answers(ProbeResultView::Next(probe), answers) == ProbeResultView::Found(
            probe.plan.outputs[probe.index + k],
        ),
    decreases k,
{
    reveal_with_fuel(after_answers, 2);
    if k > 0 {
        let next = ProbeModel { plan: probe.plan, index: probe.index + 1 };
        let rest = answers.drop_first();
        assert(!answers[0]);
        assert forall|i: int| 0 <= i < k - 1 implies !#[trigger] rest[i] by {
            assert(rest[i] == answers[i + 1]);
        }
        assert(rest[k - 1] == answers[k]);
        law_first_existing_output_wins(next, rest, k - 1);
    }
}

/// Where none of the files exists, the render fails for want of an output
/// and names the path the files were expected to start with.
pub proof fn law_no_output_is_an_error(probe: ProbeModel, answers: Seq<bool>)
    requires
        probe.valid(),
        answers.len() == probe.plan.outputs.len() - probe.index,
        forall|i: int| 0 <= i < answers.len() ==> !#[trigger] answers[i],
    ensures
        after_answers(ProbeResultView::Next(probe), answers) == ProbeResultView::Missing(
            RenderFault::OutputNotFound(probe.plan.prefix),
        ),
    decreases answers.len(),
{
    reveal_with_fuel(after_answers, 2);
    assert(!answers[0]);
    if probe.index + 1 < probe.plan.outputs.len() {
        let next = ProbeModel { plan: probe.plan, index: probe.index + 1 };
        let rest = answers.drop_first();
        assert forall|i: int| 0 <= i < rest.len() implies !#[trigger] rest[i] by {
            assert(rest[i] == answers[i + 1]);
        }
        law_no_output_is_an_error(next, rest);
    }
}

/// A runner's diagnostic reaches the caller unchanged.
pub proof fn law_runner_failure_is_verbatim(diagnostic: Seq<char>)
    ensures
        render_fault_message(RenderFault::RunnerExhausted(diagnostic)) == diagnostic,
{
}

/// A header error is reported by a render as validation reports it.
pub proof fn law_header_error_is_verbatim(fault: HeaderFault)
    ensures
        render_fault_message(RenderFault::Header(fault)) == fault_message(fault),
{
}

} // verus!
