use blossom::error::{BuildError, ErrorKind};
use blossom::extract::ArchiveFormat;
use blossom::package::{Directory, Info, Invocation, RawPackage, RawStep, Source};
use blossom::pipeline::{Action, Build, BuildOptions, BuildState, Event};

const SHA256_ABC: &str = "ba7816bf8f01cfea414140de5dae2223b00361a396177a9cb410ff61f20015ad";
const BLAKE3_ABC: &str = "6437b3ac38465133ffb63b75273a8db548c558465d79db03fd359c6cd5bd9d85";

fn shell(name: &str, command: &str) -> RawStep {
    RawStep {
        name: name.to_string(),
        runner: Some("shell".to_string()),
        command: Some(command.to_string()),
        path: None,
    }
}

fn manifest(sources: Vec<Source>, steps: Vec<RawStep>) -> RawPackage {
    RawPackage {
        info: Info {
            name: "pkg".to_string(),
            version: "1.2.3".to_string(),
            description: "a package".to_string(),
            license: "MIT".to_string(),
        },
        dependencies: None,
        sources,
        steps,
        directories: vec![],
    }
}

fn source(url: &str) -> Source {
    Source { url: url.to_string(), checksum: format!("sha256:{SHA256_ABC}") }
}

fn run_shell(step: &str, command: &str) -> Action {
    Action::Run {
        step: step.to_string(),
        invocation: Invocation {
            program: "/bin/sh".to_string(),
            args: vec!["-c".to_string(), command.to_string()],
        },
    }
}

fn loaded(raw: RawPackage) -> Build {
    Build::new(BuildOptions { clear_sources: false }).advance(Event::ManifestRead(raw))
}

fn failure(build: &Build) -> BuildError {
    match build.pending() {
        Action::Fail(e) => e,
        other => panic!("the build has not failed: {other:?}"),
    }
}

#[test]
fn build_begins_with_the_manifest() {
    let build = Build::new(BuildOptions { clear_sources: false });
    assert_eq!(build.state(), &BuildState::LoadManifest);
    assert!(build.package().is_none());
    assert!(!build.is_finished());
    assert_eq!(build.pending(), Action::ReadManifest { file: "package.toml".to_string() });
}

#[test]
fn one_source_and_one_step_from_end_to_end() {
    let raw = manifest(
        vec![source("https://example.test/pkg-%{version}.tar.gz")],
        vec![shell("build", "true")],
    );
    let build = loaded(raw);
    assert_eq!(build.package().unwrap().info.version, "1.2.3");
    assert_eq!(build.pending(), Action::ProbeCache { file: "pkg-1.2.3.tar.gz".to_string() });

    let build = build.advance(Event::CacheProbed(None));
    assert_eq!(
        build.pending(),
        Action::Download {
            url: "https://example.test/pkg-1.2.3.tar.gz".to_string(),
            file: "pkg-1.2.3.tar.gz".to_string(),
        }
    );

    let build = build.advance(Event::Downloaded(Ok(b"abc".to_vec())));
    assert_eq!(
        build.pending(),
        Action::Extract {
            file: "pkg-1.2.3.tar.gz".to_string(),
            format: ArchiveFormat::Gzip,
            directory: "sources/".to_string(),
        }
    );

    let build = build.advance(Event::Extracted(Ok(())));
    assert_eq!(build.state(), &BuildState::RunSteps { index: 0 });
    assert_eq!(build.pending(), run_shell("build", "true"));
    assert!(!build.is_finished());

    let build = build.advance(Event::StepFinished(Ok(())));
    assert_eq!(build.state(), &BuildState::Done);
    assert_eq!(build.pending(), Action::Succeed);
    assert!(build.is_finished());
}

#[test]
fn second_of_three_steps_fails() {
    let raw = manifest(
        vec![],
        vec![shell("configure", "./configure"), shell("compile", "make"), shell("check", "make check")],
    );
    let build = loaded(raw);
    assert_eq!(build.pending(), run_shell("configure", "./configure"));
    let build = build.advance(Event::StepFinished(Ok(())));
    assert_eq!(build.pending(), run_shell("compile", "make"));
    let build = build.advance(Event::StepFinished(Err("exit status: 2".to_string())));
    assert!(build.is_finished());
    let expected = BuildError {
        kind: ErrorKind::StepExecutionFailure,
        subject: "compile".to_string(),
        detail: "exit status: 2".to_string(),
    };
    assert_eq!(build.state(), &BuildState::Failed(expected.clone()));
    assert_eq!(build.pending(), Action::Fail(expected.clone()));

    let build = build.advance(Event::StepFinished(Ok(())));
    assert_eq!(build.pending(), Action::Fail(expected.clone()));
    let build = build.advance(Event::Extracted(Ok(()))).advance(Event::CacheProbed(None));
    assert_eq!(build.pending(), Action::Fail(expected));
}

#[test]
fn steps_run_in_the_order_of_the_manifest() {
    let names = ["one", "two", "three", "four"];
    let raw = manifest(vec![], names.iter().map(|n| shell(n, &format!("echo {n}"))).collect());
    let mut build = loaded(raw);
    for (index, name) in names.iter().enumerate() {
        assert_eq!(build.state(), &BuildState::RunSteps { index });
        assert_eq!(build.pending(), run_shell(name, &format!("echo {name}")));
        build = build.advance(Event::StepFinished(Ok(())));
    }
    assert_eq!(build.pending(), Action::Succeed);
}

#[test]
fn file_on_disk_with_the_declared_digest_spares_the_download() {
    let raw = manifest(vec![source("https://example.test/pkg.tar.xz")], vec![]);
    let build = loaded(raw).advance(Event::CacheProbed(Some(b"abc".to_vec())));
    assert_eq!(
        build.pending(),
        Action::Extract {
            file: "pkg.tar.xz".to_string(),
            format: ArchiveFormat::Xz,
            directory: "sources/".to_string(),
        }
    );
    let build = build.advance(Event::Extracted(Ok(())));
    assert_eq!(build.pending(), Action::Succeed);
}

#[test]
fn file_on_disk_with_another_digest_is_downloaded_again() {
    let raw = manifest(vec![source("https://example.test/pkg.tar.bz2")], vec![]);
    let build = loaded(raw).advance(Event::CacheProbed(Some(b"stale".to_vec())));
    assert_eq!(
        build.pending(),
        Action::Download {
            url: "https://example.test/pkg.tar.bz2".to_string(),
            file: "pkg.tar.bz2".to_string(),
        }
    );
    let build = build.advance(Event::Downloaded(Ok(b"abc".to_vec())));
    assert_eq!(
        build.pending(),
        Action::Extract {
            file: "pkg.tar.bz2".to_string(),
            format: ArchiveFormat::Bzip2,
            directory: "sources/".to_string(),
        }
    );
}

#[test]
fn download_with_another_digest_fails_the_build() {
    let raw = manifest(vec![source("https://example.test/pkg.tar.gz")], vec![shell("build", "make")]);
    let build = loaded(raw)
        .advance(Event::CacheProbed(None))
        .advance(Event::Downloaded(Ok(b"tampered".to_vec())));
    assert!(build.is_finished());
    assert_eq!(
        failure(&build),
        BuildError {
            kind: ErrorKind::ChecksumMismatch,
            subject: "https://example.test/pkg.tar.gz".to_string(),
            detail: String::new(),
        }
    );
}

#[test]
fn failed_download_fails_the_build() {
    let raw = manifest(vec![source("https://example.test/pkg.tar.gz")], vec![]);
    let build = loaded(raw)
        .advance(Event::CacheProbed(None))
        .advance(Event::Downloaded(Err("connection refused".to_string())));
    assert_eq!(
        failure(&build),
        BuildError {
            kind: ErrorKind::NetworkError,
            subject: "https://example.test/pkg.tar.gz".to_string(),
            detail: "connection refused".to_string(),
        }
    );
}

#[test]
fn failed_extraction_fails_the_build() {
    let raw = manifest(vec![source("https://example.test/pkg.tar.gz")], vec![shell("build", "make")]);
    let build = loaded(raw)
        .advance(Event::CacheProbed(Some(b"abc".to_vec())))
        .advance(Event::Extracted(Err("unexpected end of file".to_string())));
    assert_eq!(
        failure(&build),
        BuildError {
            kind: ErrorKind::ExtractionFailure,
            subject: "pkg.tar.gz".to_string(),
            detail: "unexpected end of file".to_string(),
        }
    );
}

#[test]
fn verified_file_of_unknown_format_fails_the_build() {
    let raw = manifest(vec![source("https://example.test/foo.zip")], vec![]);
    let build = loaded(raw);
    assert_eq!(build.pending(), Action::ProbeCache { file: "foo.zip".to_string() });
    let build = build.advance(Event::CacheProbed(Some(b"abc".to_vec())));
    let e = failure(&build);
    assert_eq!(e.kind, ErrorKind::UnsupportedArchiveFormat);
    assert_eq!(e.subject, "foo.zip");
}

#[test]
fn sources_are_taken_in_the_order_of_the_manifest() {
    let second = Source {
        url: "https://example.test/b-%{version}.tar.xz".to_string(),
        checksum: format!("blake3:{BLAKE3_ABC}"),
    };
    let raw = manifest(vec![source("https://example.test/a.tar.gz"), second], vec![]);
    let build = loaded(raw);
    assert_eq!(build.pending(), Action::ProbeCache { file: "a.tar.gz".to_string() });
    let build = build.advance(Event::CacheProbed(Some(b"abc".to_vec())));
    assert!(matches!(build.state(), BuildState::ExtractSources { index: 0, .. }));
    let build = build.advance(Event::Extracted(Ok(())));
    assert!(matches!(build.state(), BuildState::FetchSources { index: 1, downloading: false, .. }));
    assert_eq!(build.pending(), Action::ProbeCache { file: "b-1.2.3.tar.xz".to_string() });
    let build = build.advance(Event::CacheProbed(None));
    assert!(matches!(build.state(), BuildState::FetchSources { index: 1, downloading: true, .. }));
    let build = build.advance(Event::Downloaded(Ok(b"abc".to_vec())));
    assert!(matches!(build.state(), BuildState::ExtractSources { index: 1, .. }));
    let build = build.advance(Event::Extracted(Ok(())));
    assert_eq!(build.state(), &BuildState::Done);
}

#[test]
fn second_source_that_cannot_be_planned_fails_after_the_first() {
    let raw = manifest(
        vec![source("https://example.test/a.tar.gz"), source("https://example.test/%{name}.tar.gz")],
        vec![],
    );
    let build = loaded(raw);
    assert_eq!(build.pending(), Action::ProbeCache { file: "a.tar.gz".to_string() });
    let build =
        build.advance(Event::CacheProbed(Some(b"abc".to_vec()))).advance(Event::Extracted(Ok(())));
    let e = failure(&build);
    assert_eq!(e.kind, ErrorKind::UnrecognizedPlaceholder);
    assert_eq!(e.subject, "name");
}

#[test]
fn missing_manifest_fails_the_build() {
    let build = Build::new(BuildOptions { clear_sources: false }).advance(Event::ManifestMissing);
    assert!(build.package().is_none());
    assert_eq!(
        failure(&build),
        BuildError {
            kind: ErrorKind::ManifestNotFound,
            subject: "package.toml".to_string(),
            detail: String::new(),
        }
    );
}

#[test]
fn unreadable_manifest_fails_the_build() {
    let build = Build::new(BuildOptions { clear_sources: true })
        .advance(Event::ManifestInvalid("expected `=`".to_string()));
    assert_eq!(
        failure(&build),
        BuildError {
            kind: ErrorKind::ManifestParseError,
            subject: "package.toml".to_string(),
            detail: "expected `=`".to_string(),
        }
    );
}

#[test]
fn manifest_that_breaks_a_rule_fails_the_build() {
    let mut raw = manifest(vec![], vec![shell("build", "make")]);
    raw.info.license = "whatever".to_string();
    let build = loaded(raw);
    assert!(build.package().is_none());
    assert_eq!(failure(&build).kind, ErrorKind::InvalidLicenseExpression);

    let mut raw = manifest(vec![], vec![shell("build", "make")]);
    raw.steps[0].runner = Some("zsh".to_string());
    assert_eq!(failure(&loaded(raw)).kind, ErrorKind::UnknownRunner);

    let mut raw = manifest(vec![source("https://example.test/a.tar.gz")], vec![]);
    raw.sources[0].checksum = "sha256".to_string();
    assert_eq!(failure(&loaded(raw)).kind, ErrorKind::InvalidChecksumFormat);
}

#[test]
fn empty_manifest_is_built_at_once() {
    let build = loaded(manifest(vec![], vec![]));
    assert_eq!(build.state(), &BuildState::Done);
    assert_eq!(build.pending(), Action::Succeed);
}

#[test]
fn sources_are_cleared_only_when_configured() {
    let raw = manifest(vec![source("https://example.test/a.tar.gz")], vec![]);
    let build = Build::new(BuildOptions { clear_sources: true }).advance(Event::ManifestRead(raw));
    assert_eq!(build.state(), &BuildState::ClearSources);
    assert_eq!(build.pending(), Action::ClearSources { directory: "sources/".to_string() });
    let build = build.advance(Event::SourcesCleared(Ok(())));
    assert_eq!(build.pending(), Action::ProbeCache { file: "a.tar.gz".to_string() });

    let raw = manifest(vec![], vec![]);
    let build = Build::new(BuildOptions { clear_sources: true })
        .advance(Event::ManifestRead(raw))
        .advance(Event::SourcesCleared(Err("permission denied".to_string())));
    assert_eq!(
        failure(&build),
        BuildError {
            kind: ErrorKind::ExtractionFailure,
            subject: "sources/".to_string(),
            detail: "permission denied".to_string(),
        }
    );
}

#[test]
fn event_that_answers_nothing_changes_nothing() {
    let raw = manifest(vec![source("https://example.test/a.tar.gz")], vec![shell("build", "make")]);
    let build = loaded(raw);
    let before = build.state().clone();
    let build = build
        .advance(Event::Downloaded(Ok(b"abc".to_vec())))
        .advance(Event::Extracted(Ok(())))
        .advance(Event::StepFinished(Err("no".to_string())))
        .advance(Event::SourcesCleared(Ok(())))
        .advance(Event::ManifestMissing)
        .advance(Event::ManifestRead(manifest(vec![], vec![])));
    assert_eq!(build.state(), &before);
    assert_eq!(build.package().unwrap().sources.len(), 1);

    let build = Build::new(BuildOptions { clear_sources: false })
        .advance(Event::CacheProbed(None))
        .advance(Event::StepFinished(Ok(())));
    assert_eq!(build.state(), &BuildState::LoadManifest);
}

#[test]
fn finished_build_stays_finished() {
    let build = loaded(manifest(vec![], vec![]));
    let build = build
        .advance(Event::StepFinished(Err("late".to_string())))
        .advance(Event::ManifestMissing)
        .advance(Event::Downloaded(Err("late".to_string())));
    assert_eq!(build.state(), &BuildState::Done);
}

#[test]
fn move_step_goes_to_the_output_directory() {
    let move_step = RawStep {
        name: "install".to_string(),
        runner: None,
        command: None,
        path: Some("target/pkg".to_string()),
    };
    let mut raw = manifest(vec![], vec![move_step.clone()]);
    raw.directories = vec![Directory { name: "output".to_string(), path: "dist/bin".to_string() }];
    assert_eq!(
        loaded(raw).pending(),
        Action::Move {
            step: "install".to_string(),
            path: "target/pkg".to_string(),
            directory: "dist/bin".to_string(),
        }
    );
    let build = loaded(manifest(vec![], vec![move_step]));
    assert_eq!(
        build.pending(),
        Action::Move {
            step: "install".to_string(),
            path: "target/pkg".to_string(),
            directory: "output".to_string(),
        }
    );
    let build = build.advance(Event::StepFinished(Err("no such file".to_string())));
    let e = failure(&build);
    assert_eq!(e.kind, ErrorKind::StepExecutionFailure);
    assert_eq!(e.subject, "install");
}
