use serde::de::Error;
use quarto_render::header::{extract_yaml_front_matter, FrontMatter, HeaderError};
use quarto_render::render::{
    plan_render, plan_with_hints, Ambient, ProbeResult, RenderError, RenderRequest,
};
use quarto_render::resolver::PathStyle;
use quarto_render::resolver::candidates;
use quarto_render::runner::{Attempt, CandidateRun, Purpose, QuartoRunner, RunStep};
use std::cell::RefCell;
use std::collections::BTreeMap;
use std::path::Path;

/// The header as the decoder reads it from a block: three mandatory texts
/// and a flag that counts as `false` where it is absent.
struct HeaderVisitor;

impl<'de> serde::de::Visitor<'de> for HeaderVisitor {
    type Value = FrontMatter;

    fn expecting(&self, formatter: &mut std::fmt::Formatter) -> std::fmt::Result {
        formatter.write_str("struct FrontMatter")
    }

    fn visit_map<A: serde::de::MapAccess<'de>>(self, mut map: A) -> Result<FrontMatter, A::Error> {
        let mut title: Option<String> = None;
        let mut author: Option<String> = None;
        let mut format: Option<String> = None;
        let mut embed_resources: Option<bool> = None;
        while let Some(key) = map.next_key::<String>()? {
            match key.as_str() {
                "title" if title.is_some() => return Err(A::Error::duplicate_field("title")),
                "title" => title = Some(map.next_value()?),
                "author" if author.is_some() => return Err(A::Error::duplicate_field("author")),
                "author" => author = Some(map.next_value()?),
                "format" if format.is_some() => return Err(A::Error::duplicate_field("format")),
                "format" => format = Some(map.next_value()?),
                "embed-resources" if embed_resources.is_some() => {
                    return Err(A::Error::duplicate_field("embed-resources"))
                }
                "embed-resources" => embed_resources = Some(map.next_value()?),
                _ => {
                    map.next_value::<serde::de::IgnoredAny>()?;
                }
            }
        }
        Ok(FrontMatter {
            title: title.ok_or_else(|| A::Error::missing_field("title"))?,
            author: author.ok_or_else(|| A::Error::missing_field("author"))?,
            format: format.ok_or_else(|| A::Error::missing_field("format"))?,
            embed_resources: embed_resources.unwrap_or(false),
        })
    }
}

struct Decoded(FrontMatter);

impl<'de> serde::Deserialize<'de> for Decoded {
    fn deserialize<D: serde::Deserializer<'de>>(deserializer: D) -> Result<Decoded, D::Error> {
        const FIELDS: &[&str] = &["title", "author", "format", "embed-resources"];
        deserializer.deserialize_struct("FrontMatter", FIELDS, HeaderVisitor).map(Decoded)
    }
}

/// Decodes a header block with the YAML decoder.
fn decode(block: &str) -> Result<FrontMatter, String> {
    serde_yaml::from_str::<Decoded>(block).map(|d| d.0).map_err(|e| e.to_string())
}

/// What the decoder makes of the header block of a document.
fn decoded(md: &str) -> Option<Result<FrontMatter, String>> {
    extract_yaml_front_matter(md).map(decode)
}

const NOW: u128 = 1755325282888;

/// A working directory kept in memory.
struct Host {
    files: RefCell<BTreeMap<String, String>>,
    write_error: Option<String>,
}

impl Host {
    fn new() -> Host {
        Host { files: RefCell::new(BTreeMap::new()), write_error: None }
    }

    fn failing(diagnostic: &str) -> Host {
        Host { files: RefCell::new(BTreeMap::new()), write_error: Some(diagnostic.to_string()) }
    }

    fn write(&self, path: &str, content: &str) -> Result<(), String> {
        match &self.write_error {
            Some(d) => Err(d.clone()),
            None => {
                self.files.borrow_mut().insert(path.to_string(), content.to_string());
                Ok(())
            }
        }
    }

    fn holds(&self, path: &str) -> bool {
        self.files.borrow().contains_key(path)
    }

    fn read_to_string(&self, path: &str) -> Option<String> {
        self.files.borrow().get(path).cloned()
    }
}

fn valid_md() -> String {
    "---\ntitle: \"Intro\"\nauthor: \"Alice\"\nformat: revealjs\nembed-resources: true\n---\n# Slide 1\n- item\n\n# Slide 2\n- item\n".to_string()
}

fn ambient() -> Ambient {
    Ambient {
        temp_dir: "/tmp".to_string(),
        now_millis: NOW,
        path_override: None,
        search_path: Some("/usr/bin:/bin".to_string()),
        path_style: PathStyle::Colon,
        home: Some("/home/alice".to_string()),
    }
}

fn render_in<R: QuartoRunner>(
    host: &Host,
    runner: &R,
    md_content: String,
    orig_name: Option<String>,
    ambient: Ambient,
) -> Result<String, RenderError> {
    let header = decoded(&md_content);
    let request = RenderRequest { md_content, orig_name };
    let staged = plan_render(request, header, ambient)?;
    let written = host.write(staged.input_path(), staged.content());
    let ready = staged.written(written)?;
    let mut probe = ready.run(runner)?;
    loop {
        let exists = host.holds(probe.candidate());
        match probe.probed(exists) {
            ProbeResult::Found(found) => return Ok(found.resolved(None)),
            ProbeResult::Next(next) => probe = next,
            ProbeResult::Missing(e) => return Err(e),
        }
    }
}

fn render_with_runner<R: QuartoRunner>(
    host: &Host,
    runner: &R,
    md_content: String,
    orig_name: Option<String>,
) -> Result<String, String> {
    render_in(host, runner, md_content, orig_name, ambient()).map_err(|e| e.message())
}

const RENDERED: &str = "<!DOCTYPE html>\n<html>\n<head><title>Test Slides</title></head>\n<body>\n<div class=\"reveal\">\n  <div class=\"slides\">\n    <section><h1>Slide 1</h1></section>\n    <section><h1>Slide 2</h1></section>\n  </div>\n</div>\n</body>\n</html>";

/// Succeeds and leaves a file with the given extension.
struct MockRunnerOk<'a> {
    host: &'a Host,
    leaves: Vec<&'static str>,
}

impl<'a> QuartoRunner for MockRunnerOk<'a> {
    fn render(&self, md_path: &str, _workdir: &str, _dev_path: Option<&str>) -> Result<(), String> {
        for ext in &self.leaves {
            let out = Path::new(md_path).with_extension(ext);
            self.host.write(&out.to_string_lossy(), RENDERED)?;
        }
        Ok(())
    }
}

struct MockRunnerErr;

impl QuartoRunner for MockRunnerErr {
    fn render(&self, _md_path: &str, _workdir: &str, _dev_path: Option<&str>) -> Result<(), String> {
        Err("mocked quarto error".to_string())
    }
}

struct MockRunnerNoQuarto;

impl QuartoRunner for MockRunnerNoQuarto {
    fn render(&self, _md_path: &str, _workdir: &str, _dev_path: Option<&str>) -> Result<(), String> {
        Err("Quarto 실행 실패".to_string())
    }
}

/// Succeeds, leaves nothing, and remembers how it was called.
struct Recorder {
    calls: RefCell<Vec<(String, String, Option<String>)>>,
}

impl QuartoRunner for Recorder {
    fn render(&self, md_path: &str, workdir: &str, dev_path: Option<&str>) -> Result<(), String> {
        self.calls.borrow_mut().push((
            md_path.to_string(),
            workdir.to_string(),
            dev_path.map(|p| p.to_string()),
        ));
        Ok(())
    }
}

#[test]
fn render_writes_html_and_contains_section() {
    let md = valid_md();
    let host = Host::new();
    let runner = MockRunnerOk { host: &host, leaves: vec!["html"] };

    let out_path = render_with_runner(&host, &runner, md, Some("demo.md".to_string()))
        .expect("render_with_runner should succeed");

    let html = host.read_to_string(&out_path).expect("html must be readable");
    assert!(html.contains("<section>"), "HTML should contain slide <section> tags");
    assert!(html.contains("Slide 1"));
    assert!(html.contains("Slide 2"));
}

#[test]
fn render_error_is_propagated() {
    let md = valid_md();
    let host = Host::new();
    let runner = MockRunnerErr;

    let err = render_with_runner(&host, &runner, md, Some("demo.md".to_string())).unwrap_err();

    assert!(err.contains("mocked quarto error"));
}

#[test]
fn no_quarto_installed_returns_clear_error() {
    let md = valid_md();
    let host = Host::new();
    let runner = MockRunnerNoQuarto;

    let err = render_with_runner(&host, &runner, md, Some("demo.md".to_string())).unwrap_err();

    assert!(
        err.contains("Quarto 실행 실패"),
        "Error message should clearly indicate Quarto is missing, got: {}",
        err
    );
}

#[test]
fn runner_error_is_verbatim_and_typed() {
    let host = Host::new();
    let err = render_in(&host, &MockRunnerErr, valid_md(), None, ambient()).unwrap_err();
    assert_eq!(err, RenderError::RunnerExhausted("mocked quarto error".to_string()));
    assert_eq!(err.message(), "mocked quarto error");
}

#[test]
fn invalid_header_stops_before_any_work() {
    let host = Host::new();
    let runner = Recorder { calls: RefCell::new(Vec::new()) };
    let err = render_in(&host, &runner, "# Slide\n".to_string(), None, ambient()).unwrap_err();
    assert_eq!(err, RenderError::Header(HeaderError::MissingHeaderBlock));
    assert_eq!(
        err.message(),
        "Missing YAML front matter (--- ... ---) at the top of the file."
    );
    assert!(host.files.borrow().is_empty());
    assert!(runner.calls.borrow().is_empty());
}

#[test]
fn input_file_holds_whole_document_under_stamped_name() {
    let host = Host::new();
    let runner = MockRunnerOk { host: &host, leaves: vec!["html"] };
    let out = render_in(&host, &runner, valid_md(), Some("demo.md".to_string()), ambient())
        .unwrap();
    assert_eq!(out, "/tmp/demo_1755325282888.html");
    assert_eq!(host.read_to_string("/tmp/demo_1755325282888.md"), Some(valid_md()));
}

#[test]
fn default_stem_without_original_name() {
    let host = Host::new();
    let runner = Recorder { calls: RefCell::new(Vec::new()) };
    let err = render_in(&host, &runner, valid_md(), None, ambient()).unwrap_err();
    assert!(host.holds("/tmp/temp_quarto_1755325282888.md"));
    assert_eq!(err, RenderError::OutputNotFound("/tmp/temp_quarto_1755325282888".to_string()));
    assert_eq!(
        err.message(),
        "Quarto render는 성공했으나 결과 파일이 보이지 않습니다. 경로 prefix=`/tmp/temp_quarto_1755325282888`"
    );
}

#[test]
fn extension_is_md_or_qmd() {
    let cases = [
        ("notes.qmd", "/tmp/notes_1755325282888.qmd"),
        ("notes.QMD", "/tmp/notes_1755325282888.qmd"),
        ("notes.Md", "/tmp/notes_1755325282888.md"),
        ("notes.txt", "/tmp/notes_1755325282888.md"),
        ("notes", "/tmp/notes_1755325282888.md"),
        ("dir/a.b.md", "/tmp/a.b_1755325282888.md"),
    ];
    for (name, expected) in cases {
        let plan = plan_render(
            RenderRequest { md_content: valid_md(), orig_name: Some(name.to_string()) },
            decoded(&valid_md()),
            ambient(),
        )
        .unwrap();
        assert_eq!(plan.input_path(), expected);
        assert_eq!(plan.content(), valid_md());
        assert_eq!(Some(plan.input_name()), expected.strip_prefix("/tmp/"));
    }
}

#[test]
fn distinct_names_in_one_millisecond_get_distinct_stems() {
    let a = plan_render(
        RenderRequest { md_content: valid_md(), orig_name: Some("first.md".to_string()) },
        decoded(&valid_md()),
        ambient(),
    )
    .unwrap();
    let b = plan_render(
        RenderRequest { md_content: valid_md(), orig_name: Some("second.md".to_string()) },
        decoded(&valid_md()),
        ambient(),
    )
    .unwrap();
    assert_eq!(a.input_path(), "/tmp/first_1755325282888.md");
    assert_eq!(b.input_path(), "/tmp/second_1755325282888.md");
    assert_ne!(a.input_path(), b.input_path());
}

#[test]
fn write_failure_ends_the_render() {
    let host = Host::failing("disk full");
    let runner = Recorder { calls: RefCell::new(Vec::new()) };
    let err = render_in(&host, &runner, valid_md(), None, ambient()).unwrap_err();
    assert_eq!(err, RenderError::TempWriteError("disk full".to_string()));
    assert_eq!(err.message(), "임시 파일 저장 실패: disk full");
    assert!(runner.calls.borrow().is_empty());
}

#[test]
fn runner_gets_input_workdir_and_augmented_search_path() {
    let host = Host::new();
    let runner = Recorder { calls: RefCell::new(Vec::new()) };
    let _ = render_in(&host, &runner, valid_md(), Some("demo.md".to_string()), ambient());
    let calls = runner.calls.borrow();
    assert_eq!(calls.len(), 1);
    assert_eq!(calls[0].0, "/tmp/demo_1755325282888.md");
    assert_eq!(calls[0].1, "/tmp");
    assert_eq!(
        calls[0].2.as_deref(),
        Some("/usr/bin:/bin:/usr/local/bin:/opt/homebrew/bin:/opt/homebrew/sbin:/Applications/quarto/bin:/home/alice/.cargo/bin")
    );
}

#[test]
fn search_path_override_is_handed_on_verbatim() {
    let host = Host::new();
    let runner = Recorder { calls: RefCell::new(Vec::new()) };
    let mut surroundings = ambient();
    surroundings.path_override = Some("/only/here".to_string());
    let _ = render_in(&host, &runner, valid_md(), None, surroundings);
    assert_eq!(runner.calls.borrow()[0].2.as_deref(), Some("/only/here"));
}

#[test]
fn missing_path_and_home_count_as_empty() {
    let host = Host::new();
    let runner = Recorder { calls: RefCell::new(Vec::new()) };
    let mut surroundings = ambient();
    surroundings.search_path = None;
    surroundings.home = None;
    let _ = render_in(&host, &runner, valid_md(), None, surroundings);
    assert_eq!(
        runner.calls.borrow()[0].2.as_deref(),
        Some(":/usr/local/bin:/opt/homebrew/bin:/opt/homebrew/sbin:/Applications/quarto/bin:/.cargo/bin")
    );
}

#[test]
fn outputs_are_looked_for_in_fixed_order() {
    let host = Host::new();
    let runner = MockRunnerOk { host: &host, leaves: vec!["pptx", "pdf"] };
    let out = render_in(&host, &runner, valid_md(), Some("deck.md".to_string()), ambient())
        .unwrap();
    assert_eq!(out, "/tmp/deck_1755325282888.pdf");

    let host = Host::new();
    let runner = MockRunnerOk { host: &host, leaves: vec!["pptx"] };
    let out = render_in(&host, &runner, valid_md(), Some("deck.md".to_string()), ambient())
        .unwrap();
    assert_eq!(out, "/tmp/deck_1755325282888.pptx");

    let host = Host::new();
    let runner = MockRunnerOk { host: &host, leaves: vec!["pdf", "html", "pptx"] };
    let out = render_in(&host, &runner, valid_md(), Some("deck.md".to_string()), ambient())
        .unwrap();
    assert_eq!(out, "/tmp/deck_1755325282888.html");
}

#[test]
fn canonical_path_is_preferred_when_there_is_one() {
    let host = Host::new();
    let runner = MockRunnerOk { host: &host, leaves: vec!["html"] };
    let staged = plan_render(
        RenderRequest { md_content: valid_md(), orig_name: Some("demo.md".to_string()) },
        decoded(&valid_md()),
        ambient(),
    )
    .unwrap();
    let written = host.write(staged.input_path(), staged.content());
    let probe = staged.written(written).unwrap().run(&runner).unwrap();
    assert_eq!(probe.candidate(), "/tmp/demo_1755325282888.html");
    assert_eq!(probe.candidate_name(), "demo_1755325282888.html");
    match probe.probed(true) {
        ProbeResult::Found(found) => {
            assert_eq!(found.path(), "/tmp/demo_1755325282888.html");
            assert_eq!(
                found.resolved(Some("/private/tmp/demo_1755325282888.html".to_string())),
                "/private/tmp/demo_1755325282888.html"
            );
        }
        _ => panic!("the first candidate exists"),
    }
}

#[test]
fn platform_separator_is_kept() {
    let host = Host::new();
    let runner = Recorder { calls: RefCell::new(Vec::new()) };
    let mut surroundings = ambient();
    surroundings.search_path = Some("C:\\Windows;C:\\Tools".to_string());
    surroundings.path_style = PathStyle::Semicolon;
    surroundings.home = Some("C:\\Users\\alice".to_string());
    let _ = render_in(&host, &runner, valid_md(), None, surroundings);
    assert_eq!(
        runner.calls.borrow()[0].2.as_deref(),
        Some("C:\\Windows;C:\\Tools;/usr/local/bin;/opt/homebrew/bin;/opt/homebrew/sbin;/Applications/quarto/bin;C:\\Users\\alice/.cargo/bin")
    );
}

#[test]
fn hints_decide_stem_and_extension() {
    let staged = plan_with_hints(
        valid_md(),
        decoded(&valid_md()),
        Some("talk".to_string()),
        Some("QMD".to_string()),
        ambient(),
    )
    .unwrap();
    assert_eq!(staged.stem(), "talk_1755325282888");
    assert_eq!(staged.input_name(), "talk_1755325282888.qmd");
    let staged =
        plan_with_hints(valid_md(), decoded(&valid_md()), None, None, ambient()).unwrap();
    assert_eq!(staged.stem(), "temp_quarto_1755325282888");
    assert_eq!(staged.input_name(), "temp_quarto_1755325282888.md");
    let refused = plan_with_hints("no header".to_string(), None, None, None, ambient());
    assert!(matches!(refused, Err(RenderError::Header(HeaderError::MissingHeaderBlock))));
}

#[test]
fn output_names_follow_the_stem() {
    let host = Host::new();
    let runner = Recorder { calls: RefCell::new(Vec::new()) };
    let staged = plan_with_hints(
        valid_md(),
        decoded(&valid_md()),
        Some("deck".to_string()),
        None,
        ambient(),
    )
    .unwrap();
    let written = host.write(staged.input_path(), staged.content());
    let mut probe = staged.written(written).unwrap().run(&runner).unwrap();
    let mut names = Vec::new();
    let mut paths = Vec::new();
    loop {
        names.push(probe.candidate_name().to_string());
        paths.push(probe.candidate().to_string());
        match probe.probed(false) {
            ProbeResult::Next(next) => probe = next,
            ProbeResult::Missing(e) => {
                assert_eq!(e, RenderError::OutputNotFound("/tmp/deck_1755325282888".to_string()));
                break;
            }
            ProbeResult::Found(_) => panic!("nothing exists"),
        }
    }
    assert_eq!(
        names,
        vec!["deck_1755325282888.html", "deck_1755325282888.pdf", "deck_1755325282888.pptx"]
    );
    assert_eq!(
        paths,
        vec![
            "/tmp/deck_1755325282888.html",
            "/tmp/deck_1755325282888.pdf",
            "/tmp/deck_1755325282888.pptx"
        ]
    );
}

/// Tries every candidate as the real runner does, on a machine where none
/// of them can be started.
struct NothingInstalled;

impl QuartoRunner for NothingInstalled {
    fn render(&self, _md_path: &str, _workdir: &str, _dev_path: Option<&str>) -> Result<(), String> {
        let mut step = CandidateRun::begin(Purpose::Render, candidates());
        loop {
            match step {
                RunStep::Finished(outcome) => return outcome.map(|_| ()),
                RunStep::Launch(run) => {
                    let attempt = Attempt::NotStarted {
                        reason: "No such file or directory (os error 2)".to_string(),
                    };
                    step = run.attempted(attempt);
                }
            }
        }
    }
}

#[test]
fn exhausted_runner_names_every_candidate_in_the_render_error() {
    let host = Host::new();
    let err = render_in(&host, &NothingInstalled, valid_md(), Some("demo.md".to_string()), ambient())
        .unwrap_err();
    let message = err.message();
    for candidate in candidates() {
        let note = format!("{}: 실행 오류 No such file or directory (os error 2)", candidate);
        assert!(message.contains(&note), "missing {:?} in {:?}", note, message);
    }
    assert_eq!(message.matches(" | ").count(), 3);
    assert!(matches!(err, RenderError::RunnerExhausted(_)));
    // Nothing was rendered: only the input file exists.
    assert_eq!(host.files.borrow().len(), 1);
}

#[test]
fn a_block_that_does_not_decode_stops_the_render() {
    let host = Host::new();
    let runner = Recorder { calls: RefCell::new(Vec::new()) };
    let md = "---\ntitle: T\nformat: pptx\n---\n".to_string();
    let err = render_in(&host, &runner, md, None, ambient()).unwrap_err();
    assert_eq!(
        err,
        RenderError::Header(HeaderError::MalformedHeader("missing field `author` at line 2 column 1".to_string()))
    );
    assert_eq!(err.message(), "Invalid YAML front matter: missing field `author` at line 2 column 1");
    assert!(host.files.borrow().is_empty());
    assert!(runner.calls.borrow().is_empty());
}

#[test]
fn a_host_that_runs_the_tool_itself_reads_the_plan_and_reports() {
    let host = Host::new();
    let staged = plan_render(
        RenderRequest { md_content: valid_md(), orig_name: Some("talks/demo.md".to_string()) },
        decoded(&valid_md()),
        ambient(),
    )
    .unwrap();
    assert_eq!(staged.input_path(), "/tmp/demo_1755325282888.md");
    let written = host.write(staged.input_path(), staged.content());
    let ready = staged.written(written).unwrap();
    assert_eq!(ready.input_path(), "/tmp/demo_1755325282888.md");
    assert_eq!(ready.workdir(), "/tmp");
    assert!(ready.search_path().starts_with("/usr/bin:/bin:"));
    let probe = ready.rendered(Ok(())).unwrap();
    assert_eq!(probe.candidate(), "/tmp/demo_1755325282888.html");

    let staged = plan_render(
        RenderRequest { md_content: valid_md(), orig_name: None },
        decoded(&valid_md()),
        ambient(),
    )
    .unwrap();
    let ready = staged.written(Ok(())).unwrap();
    let err = ready.rendered(Err("tool crashed".to_string())).err().unwrap();
    assert_eq!(err, RenderError::RunnerExhausted("tool crashed".to_string()));
}

#[test]
fn files_lie_directly_in_the_working_directory() {
    for dir in ["/tmp", "/tmp/", "work", ""] {
        let mut surroundings = ambient();
        surroundings.temp_dir = dir.to_string();
        let staged = plan_render(
            RenderRequest { md_content: valid_md(), orig_name: Some("a/b/demo.md".to_string()) },
            decoded(&valid_md()),
            surroundings,
        )
        .unwrap();
        let path = staged.input_path().to_string();
        let rest = path.strip_prefix(dir).expect("the path starts with the directory");
        let name = rest.strip_prefix('/').unwrap_or(rest);
        assert_eq!(name, "demo_1755325282888.md");
        assert_eq!(staged.input_name(), name);
    }
}
