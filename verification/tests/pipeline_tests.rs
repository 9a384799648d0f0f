use package_publisher::digest::digest;
use package_publisher::errors::PublishError;
use package_publisher::pipeline::{Action, Event, Phase, PublishRun};
use std::io::Read;

const FORMULA_TEMPLATE: &[u8] = b"class Exogress\n  url \"{{MACOS_URL}}\"\n  sha256 \"{{MACOS_SHA256}}\"\n  version \"{{VERSION}}\"\nend\n";

fn start(version: &str) -> (PublishRun, Action) {
    PublishRun::new(
        version.as_bytes(),
        b"release notes",
        b"push-credential",
        b"SIGNKEY",
        FORMULA_TEMPLATE,
    )
    .expect("the version is valid")
}

fn expect_fetch(a: Action) -> Vec<u8> {
    match a {
        Action::Fetch(u) => u,
        other => panic!("expected a fetch, got {:?}", other),
    }
}

fn expect_put(a: Action) -> (Vec<u8>, Vec<u8>) {
    match a {
        Action::Put(n, c) => (n, c),
        other => panic!("expected a put, got {:?}", other),
    }
}

fn expect_probe(a: Action) -> Vec<u8> {
    match a {
        Action::Probe(u) => u,
        other => panic!("expected a probe, got {:?}", other),
    }
}

fn expect_abort(a: Action) -> PublishError {
    match a {
        Action::Abort(e) => e,
        other => panic!("expected an abort, got {:?}", other),
    }
}

/// Drives a fresh run up to the tap push, asserting every action on the
/// way, and returns it standing in the pushing phase.
fn drive_to_tap_push(version: &str) -> PublishRun {
    let (mut run, a) = start(version);
    let _ = expect_fetch(a);
    let a = run.step(Event::FetchSucceeded(b"archive bytes".to_vec()));
    match a {
        Action::CloneTap(u) => {
            assert_eq!(u, b"https://github.com/exogress/homebrew-brew.git".to_vec())
        }
        other => panic!("expected a clone, got {:?}", other),
    }
    let a = run.step(Event::CloneSucceeded);
    match a {
        Action::WriteTapFile(p, _) => assert_eq!(p, b"exogress.rb".to_vec()),
        other => panic!("expected a tap write, got {:?}", other),
    }
    let a = run.step(Event::WriteSucceeded);
    match a {
        Action::CommitTap(_) => {}
        other => panic!("expected a commit, got {:?}", other),
    }
    let a = run.step(Event::CommitSucceeded);
    match a {
        Action::PushTap(t) => assert_eq!(t, b"push-credential".to_vec()),
        other => panic!("expected a push, got {:?}", other),
    }
    assert_eq!(run.phase(), Phase::PushingTap);
    run
}

/// The staged `Packages.gz` blob: a gzip stream that opens with the
/// gzip magic, embeds the logical filename `Packages` in its header and
/// decompresses back to the generator's output.
fn assert_compressed_packages_index(content: &[u8]) {
    assert!(content.len() >= 10);
    assert_eq!(content[0], 0x1f);
    assert_eq!(content[1], 0x8b);
    let mut decoder = flate2::read::GzDecoder::new(content);
    let mut recovered = Vec::new();
    decoder.read_to_end(&mut recovered).expect("a valid gzip stream");
    assert_eq!(recovered, b"PACKAGES INDEX".to_vec());
    let header = decoder.header().expect("a gzip header");
    assert_eq!(header.filename(), Some(&b"Packages"[..]));
}

/// Drives a run from the tap push through the whole index build,
/// asserting every action, and returns it together with the first probe
/// URL.
fn drive_index_build(mut run: PublishRun) -> (PublishRun, Vec<u8>) {
    let a = run.step(Event::PushSucceeded);
    let mut fetch_url = expect_fetch(a);
    for arch in ["amd64", "arm64", "armel", "armhf"] {
        let deb_name = format!("exogress_1.2.3.beta.1_{}.deb", arch);
        assert_eq!(
            String::from_utf8(fetch_url.clone()).unwrap(),
            format!(
                "https://github.com/exogress/cli/releases/download/v1.2.3-beta.1/{}",
                deb_name
            )
        );
        let payload = format!("deb for {}", arch).into_bytes();
        let a = run.step(Event::FetchSucceeded(payload.clone()));
        let (name, content) = expect_put(a);
        assert_eq!(String::from_utf8(name).unwrap(), deb_name);
        assert_eq!(content, payload);
        let a = run.step(Event::PutSucceeded);
        if arch != "armhf" {
            fetch_url = expect_fetch(a);
        } else {
            assert!(matches!(a, Action::RunPackagesTool));
        }
    }
    let a = run.step(Event::ToolSucceeded(b"PACKAGES INDEX".to_vec()));
    let (name, content) = expect_put(a);
    assert_eq!(name, b"Packages".to_vec());
    assert_eq!(content, b"PACKAGES INDEX".to_vec());
    let a = run.step(Event::PutSucceeded);
    let (name, content) = expect_put(a);
    assert_eq!(name, b"Packages.gz".to_vec());
    assert_compressed_packages_index(&content);
    let a = run.step(Event::PutSucceeded);
    assert!(matches!(a, Action::RunReleaseTool));
    let a = run.step(Event::ToolSucceeded(b"RELEASE METADATA".to_vec()));
    let (name, content) = expect_put(a);
    assert_eq!(name, b"Release".to_vec());
    assert_eq!(content, b"RELEASE METADATA".to_vec());
    let a = run.step(Event::PutSucceeded);
    match a {
        Action::SignDetached(key, input) => {
            assert_eq!(key, b"SIGNKEY".to_vec());
            assert_eq!(input, b"RELEASE METADATA".to_vec());
        }
        other => panic!("expected the detached signing, got {:?}", other),
    }
    let a = run.step(Event::ToolSucceeded(b"DETACHED SIGNATURE".to_vec()));
    let (name, content) = expect_put(a);
    assert_eq!(name, b"Release.gpg".to_vec());
    assert_eq!(content, b"DETACHED SIGNATURE".to_vec());
    let a = run.step(Event::PutSucceeded);
    match a {
        Action::SignClear(key, input) => {
            assert_eq!(key, b"SIGNKEY".to_vec());
            assert_eq!(input, b"RELEASE METADATA".to_vec());
        }
        other => panic!("expected the clear signing, got {:?}", other),
    }
    let a = run.step(Event::ToolSucceeded(b"CLEAR SIGNED".to_vec()));
    let (name, content) = expect_put(a);
    assert_eq!(name, b"InRelease".to_vec());
    assert_eq!(content, b"CLEAR SIGNED".to_vec());
    let a = run.step(Event::PutSucceeded);
    match a {
        Action::PushIndexSurface(t) => assert_eq!(t, b"push-credential".to_vec()),
        other => panic!("expected the index push, got {:?}", other),
    }
    let a = run.step(Event::PushSucceeded);
    let url = expect_probe(a);
    assert_eq!(run.phase(), Phase::Probing);
    (run, url)
}

#[test]
fn formula_is_rendered_from_the_fetched_archive() {
    let (mut run, a) = start("v1.2.3-beta.1");
    let url = expect_fetch(a);
    assert_eq!(
        url,
        b"https://github.com/exogress/cli/archive/refs/tags/v1.2.3-beta.1.tar.gz".to_vec()
    );
    let archive = b"archive bytes".to_vec();
    let _ = run.step(Event::FetchSucceeded(archive.clone()));
    let a = run.step(Event::CloneSucceeded);
    match a {
        Action::WriteTapFile(path, content) => {
            assert_eq!(path, b"exogress.rb".to_vec());
            let expected = format!(
                "class Exogress\n  url \"https://github.com/exogress/cli/archive/refs/tags/v1.2.3-beta.1.tar.gz\"\n  sha256 \"{}\"\n  version \"1.2.3-beta.1\"\nend\n",
                String::from_utf8(digest(&archive)).unwrap()
            );
            assert_eq!(String::from_utf8(content).unwrap(), expected);
        }
        other => panic!("expected a tap write, got {:?}", other),
    }
}

#[test]
fn full_run_concludes_after_all_probes() {
    let run = drive_to_tap_push("v1.2.3-beta.1");
    let (mut run, first_probe) = drive_index_build(run);
    let mut probe_url = first_probe;
    for arch in ["amd64", "arm64", "armel", "armhf"] {
        assert_eq!(
            String::from_utf8(probe_url.clone()).unwrap(),
            format!("https://apt.exogress.com/exogress_1.2.3.beta.1_{}.deb", arch)
        );
        let a = run.step(Event::ProbeSucceeded);
        if arch != "armhf" {
            probe_url = expect_probe(a);
        } else {
            assert!(matches!(a, Action::Conclude));
        }
    }
    assert_eq!(run.phase(), Phase::Done);
    assert_eq!(run.release_bytes().map(|b| b.as_slice()), Some(&b"RELEASE METADATA"[..]));
    assert_eq!(
        run.release_gpg_bytes().map(|b| b.as_slice()),
        Some(&b"DETACHED SIGNATURE"[..])
    );
    assert_eq!(run.in_release_bytes().map(|b| b.as_slice()), Some(&b"CLEAR SIGNED"[..]));
    assert_eq!(run.packages_bytes().map(|b| b.as_slice()), Some(&b"PACKAGES INDEX"[..]));
    assert_compressed_packages_index(run.packages_gz_bytes().expect("the blob is kept"));
    // A concluded run stays concluded.
    let a = run.step(Event::ProbeFailed);
    assert!(matches!(a, Action::Conclude));
    assert_eq!(run.phase(), Phase::Done);
}

#[test]
fn fetch_and_probe_targets_are_symmetric() {
    let run = drive_to_tap_push("v1.2.3-beta.1");
    let (mut run, first_probe) = drive_index_build(run);
    // drive_index_build already asserted the four fetch URLs; the four
    // probe URLs name the same architectures in the same order.
    let mut probe_urls = vec![first_probe];
    for _ in 0..3 {
        let a = run.step(Event::ProbeSucceeded);
        probe_urls.push(expect_probe(a));
    }
    let suffixes: Vec<String> = probe_urls
        .iter()
        .map(|u| String::from_utf8(u.clone()).unwrap())
        .collect();
    assert_eq!(
        suffixes,
        vec![
            "https://apt.exogress.com/exogress_1.2.3.beta.1_amd64.deb",
            "https://apt.exogress.com/exogress_1.2.3.beta.1_arm64.deb",
            "https://apt.exogress.com/exogress_1.2.3.beta.1_armel.deb",
            "https://apt.exogress.com/exogress_1.2.3.beta.1_armhf.deb",
        ]
    );
}

#[test]
fn rejected_tap_push_fails_before_any_index_work() {
    let mut run = drive_to_tap_push("v1.2.3-beta.1");
    let a = run.step(Event::PushAuthRejected);
    assert_eq!(expect_abort(a), PublishError::AuthFailure);
    assert_eq!(run.phase(), Phase::Failed);
    assert_eq!(run.error(), Some(PublishError::AuthFailure));
    assert!(run.packages_bytes().is_none());
    assert!(run.release_bytes().is_none());
    // The failed state absorbs every later event.
    let a = run.step(Event::PutSucceeded);
    assert_eq!(expect_abort(a), PublishError::AuthFailure);
    assert_eq!(run.phase(), Phase::Failed);
}

#[test]
fn non_fast_forward_push_is_its_own_failure() {
    let mut run = drive_to_tap_push("v1.2.3-beta.1");
    let a = run.step(Event::PushNonFastForward);
    assert_eq!(expect_abort(a), PublishError::NonFastForwardFailure);
    assert_eq!(run.error(), Some(PublishError::NonFastForwardFailure));
}

#[test]
fn propagation_succeeds_after_three_retries_per_target() {
    let run = drive_to_tap_push("v1.2.3-beta.1");
    let (mut run, mut probe_url) = drive_index_build(run);
    for arch_left in [3, 2, 1, 0] {
        for _ in 0..3 {
            let a = run.step(Event::ProbeFailed);
            assert!(matches!(a, Action::Wait(5)));
            let a = run.step(Event::WaitElapsed);
            assert_eq!(expect_probe(a), probe_url);
        }
        let a = run.step(Event::ProbeSucceeded);
        if arch_left > 0 {
            probe_url = expect_probe(a);
        } else {
            assert!(matches!(a, Action::Conclude));
        }
    }
    assert_eq!(run.phase(), Phase::Done);
    assert_eq!(run.waited_secs(), 60);
}

#[test]
fn a_target_that_never_appears_times_out_after_the_full_deadline() {
    let run = drive_to_tap_push("v1.2.3-beta.1");
    let (mut run, _) = drive_index_build(run);
    for _ in 0..400 {
        let a = run.step(Event::ProbeFailed);
        assert!(matches!(a, Action::Wait(5)));
        let a = run.step(Event::WaitElapsed);
        let _ = expect_probe(a);
    }
    assert_eq!(run.waited_secs(), 2000);
    let a = run.step(Event::ProbeFailed);
    assert_eq!(expect_abort(a), PublishError::TimeoutFailure);
    assert_eq!(run.phase(), Phase::Failed);
    assert_eq!(run.error(), Some(PublishError::TimeoutFailure));
    assert_eq!(run.waited_secs(), 2000);
}

#[test]
fn each_failure_event_maps_to_its_error() {
    let (mut run, _) = start("1.0.0");
    assert_eq!(expect_abort(run.step(Event::FetchFailed)), PublishError::NetworkFailure);

    let (mut run, _) = start("1.0.0");
    let _ = run.step(Event::FetchSucceeded(b"a".to_vec()));
    assert_eq!(expect_abort(run.step(Event::CloneFailed)), PublishError::CloneFailure);

    let (mut run, _) = start("1.0.0");
    let _ = run.step(Event::FetchSucceeded(b"a".to_vec()));
    let _ = run.step(Event::CloneSucceeded);
    assert_eq!(expect_abort(run.step(Event::WriteIoFailed)), PublishError::IoFailure);

    let (mut run, _) = start("1.0.0");
    let _ = run.step(Event::FetchSucceeded(b"a".to_vec()));
    let _ = run.step(Event::CloneSucceeded);
    assert_eq!(expect_abort(run.step(Event::WriteIndexFailed)), PublishError::IndexFailure);

    let (mut run, _) = start("1.0.0");
    let _ = run.step(Event::FetchSucceeded(b"a".to_vec()));
    let _ = run.step(Event::CloneSucceeded);
    let _ = run.step(Event::WriteSucceeded);
    assert_eq!(expect_abort(run.step(Event::CommitNoParent)), PublishError::NoParentFailure);

    let mut run = drive_to_tap_push("v1.2.3-beta.1");
    let _ = run.step(Event::PushSucceeded);
    assert_eq!(expect_abort(run.step(Event::FetchFailed)), PublishError::NetworkFailure);

    let mut run = drive_to_tap_push("v1.2.3-beta.1");
    let _ = run.step(Event::PushSucceeded);
    let _ = run.step(Event::FetchSucceeded(b"deb".to_vec()));
    assert_eq!(expect_abort(run.step(Event::PutFailed)), PublishError::IoFailure);
}

#[test]
fn tool_failures_are_external_tool_failures() {
    let mut run = drive_to_tap_push("v1.2.3-beta.1");
    let _ = run.step(Event::PushSucceeded);
    for _ in 0..4 {
        let _ = run.step(Event::FetchSucceeded(b"deb".to_vec()));
        let _ = run.step(Event::PutSucceeded);
    }
    // The run now awaits the index generator.
    assert_eq!(run.phase(), Phase::GeneratingIndex);
    assert_eq!(expect_abort(run.step(Event::ToolFailed)), PublishError::ExternalToolFailure);
}

#[test]
fn bad_version_refuses_the_run() {
    let r = PublishRun::new(b"nonsense", b"m", b"t", b"k", FORMULA_TEMPLATE);
    match r {
        Err(e) => assert_eq!(e, PublishError::VersionSyntaxFailure),
        Ok(_) => panic!("a nonsense version must refuse the run"),
    }
}

#[test]
fn bad_formula_template_fails_after_the_archive_fetch() {
    let (mut run, _) = PublishRun::new(
        b"1.0.0",
        b"m",
        b"t",
        b"k",
        b"{{#section}} never closed",
    )
    .expect("the version is valid");
    let a = run.step(Event::FetchSucceeded(b"archive".to_vec()));
    assert_eq!(expect_abort(a), PublishError::TemplateSyntaxError);
    assert_eq!(run.error(), Some(PublishError::TemplateSyntaxError));
}

#[test]
fn a_formula_template_with_an_implicit_tag_is_refused() {
    let (mut run, _) = PublishRun::new(b"1.0.0", b"m", b"t", b"k", b"url {{.}}")
        .expect("the version is valid");
    let a = run.step(Event::FetchSucceeded(b"archive".to_vec()));
    assert_eq!(expect_abort(a), PublishError::TemplateSyntaxError);
}

#[test]
fn events_out_of_phase_are_ignored() {
    let (mut run, _) = start("1.0.0");
    let a = run.step(Event::CommitSucceeded);
    assert!(matches!(a, Action::Ignored));
    assert_eq!(run.phase(), Phase::FetchingArchive);
}

#[test]
fn identical_runs_compress_the_index_identically() {
    let first = drive_index_build(drive_to_tap_push("v1.2.3-beta.1")).0;
    let second = drive_index_build(drive_to_tap_push("v1.2.3-beta.1")).0;
    assert_eq!(
        first.packages_gz_bytes().map(|b| b.to_vec()),
        second.packages_gz_bytes().map(|b| b.to_vec())
    );
}
