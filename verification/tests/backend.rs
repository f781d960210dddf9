//! Backend selection, the version probe decision, and the classification of
//! what each backend reports.

use mathjax::renderer::browser::Browser;
use mathjax::renderer::node::{InterpreterOutcome, Node};
use mathjax::{BackendChoice, BackendOutcome, InitError, MathJax, RenderError, RenderRequest};
use std::io::Write;

fn library_archive() -> Vec<u8> {
    let mut writer = zip::ZipWriter::new(std::io::Cursor::new(Vec::new()));
    let options = zip::write::FileOptions::default();
    writer.start_file("mathjax/package.json", options).unwrap();
    writer.write_all(b"{}").unwrap();
    writer.start_file("mathjax/es5/tex-svg.js", options).unwrap();
    writer.write_all(b"// library").unwrap();
    let cursor = writer.finish().unwrap();
    cursor.into_inner()
}

#[test]
fn version_six_and_later_is_sufficient() {
    assert!(mathjax::renderer::node::version_sufficient(
        &b"v6.0.0\n".to_vec()
    ));
    assert!(mathjax::renderer::node::version_sufficient(
        &b"v18.16.0\r\n".to_vec()
    ));
    assert!(mathjax::renderer::node::version_sufficient(
        &b"6.0.0".to_vec()
    ));
    assert!(mathjax::renderer::node::version_sufficient(
        &b"v7.1.2\n\n".to_vec()
    ));
}

#[test]
fn version_five_is_not_sufficient() {
    assert!(!mathjax::renderer::node::version_sufficient(
        &b"v5.16.0\n".to_vec()
    ));
    assert!(!mathjax::renderer::node::version_sufficient(
        &b"v5.0.0".to_vec()
    ));
}

#[test]
fn unparsable_probe_output_is_not_sufficient() {
    assert!(!mathjax::renderer::node::version_sufficient(&b"".to_vec()));
    assert!(!mathjax::renderer::node::version_sufficient(
        &b"command not found\n".to_vec()
    ));
    assert!(!mathjax::renderer::node::version_sufficient(
        &vec![0xff, b'v', b'6', b'.', b'0', b'.', b'0']
    ));
}

#[test]
fn node_create_rejects_a_broken_archive() {
    match Node::create(b"this is no archive") {
        Err(InitError::ZipError(_)) => {}
        other => panic!("expected ZipError, got {:?}", other.map(|_| ())),
    }
}

#[test]
fn node_create_unpacks_a_valid_archive() {
    let archive = library_archive();
    let backend = Node::create(archive.as_slice()).unwrap();
    let path = backend.lib_path();
    assert!(!path.is_empty());
    assert!(std::path::Path::new(&path).join("package.json").exists());
}

#[test]
fn empty_error_stream_means_success() {
    let archive = library_archive();
    let backend = Node::create(archive.as_slice()).unwrap();
    let outcome = InterpreterOutcome::Completed {
        stdout: b"<svg></svg>".to_vec(),
        stderr: Vec::new(),
    };
    let render = backend.render(outcome).unwrap();
    assert_eq!(render.as_raw(), "<svg></svg>");
}

#[test]
fn any_bytes_on_the_error_stream_mean_failure() {
    // Even beside a complete output stream — the exit code is never consulted,
    // so a cleanly exited process with error output still fails.
    let archive = library_archive();
    let backend = Node::create(archive.as_slice()).unwrap();
    let outcome = InterpreterOutcome::Completed {
        stdout: b"<svg></svg>".to_vec(),
        stderr: b"TypeError: boom\n".to_vec(),
    };
    match backend.render(outcome) {
        Err(RenderError::MathJaxError(text)) => assert_eq!(text, "TypeError: boom\n"),
        other => panic!("expected MathJaxError, got {:?}", other.map(|_| ())),
    }
}

#[test]
fn spawn_failure_is_an_io_error() {
    let archive = library_archive();
    let backend = Node::create(archive.as_slice()).unwrap();
    let outcome = InterpreterOutcome::SpawnFailed {
        message: "No such file or directory".to_string(),
    };
    match backend.render(outcome) {
        Err(RenderError::IoError(text)) => assert_eq!(text, "No such file or directory"),
        other => panic!("expected IoError, got {:?}", other.map(|_| ())),
    }
}

#[test]
fn browser_attaches_on_successful_launch() {
    assert!(Browser::create(Ok(())).is_ok());
}

#[test]
fn browser_launch_failure_is_passed_on() {
    match Browser::create(Err("no chrome binary".to_string())) {
        Err(InitError::Browser(text)) => assert_eq!(text, "no chrome binary"),
        other => panic!("expected Browser error, got {:?}", other.map(|_| ())),
    }
}

#[test]
fn browser_render_resolution_yields_the_markup() {
    let browser = Browser::create(Ok(())).unwrap();
    let render = browser.render(Ok(Some("<svg>m</svg>".to_string()))).unwrap();
    assert_eq!(render.as_raw(), "<svg>m</svg>");
}

#[test]
fn browser_render_without_text_yields_empty_markup() {
    let browser = Browser::create(Ok(())).unwrap();
    let render = browser.render(Ok(None)).unwrap();
    assert_eq!(render.as_raw(), "");
}

#[test]
fn browser_render_failure_is_passed_on() {
    let browser = Browser::create(Ok(())).unwrap();
    match browser.render(Err("script load error".to_string())) {
        Err(RenderError::Browser(text)) => assert_eq!(text, "script load error"),
        other => panic!("expected Browser error, got {:?}", other.map(|_| ())),
    }
}

#[test]
fn no_runtime_and_no_browser_fails_construction() {
    match MathJax::new(false, false, &[], None) {
        Err(InitError::NodeJsUnavailable) => {}
        other => panic!("expected NodeJsUnavailable, got {:?}", other.map(|_| ())),
    }
}

#[test]
fn version_five_without_browser_fails_construction() {
    // The probe reports a 5.x runtime, and no interactive backend is
    // compiled in: construction must fail with the runtime-unavailable error.
    let probe = b"v5.16.0\n".to_vec();
    let node_available = mathjax::renderer::node::version_sufficient(&probe);
    assert!(!node_available);
    match MathJax::new(node_available, false, &[], None) {
        Err(InitError::NodeJsUnavailable) => {}
        other => panic!("expected NodeJsUnavailable, got {:?}", other.map(|_| ())),
    }
}

#[test]
fn available_runtime_selects_the_interpreter() {
    let archive = library_archive();
    let facade = MathJax::new(true, true, archive.as_slice(), None).unwrap();
    assert_eq!(facade.backend(), BackendChoice::Interpreter);
}

#[test]
fn missing_runtime_selects_the_browser() {
    let facade = MathJax::new(false, true, &[], Some(Ok(()))).unwrap();
    assert_eq!(facade.backend(), BackendChoice::Interactive);
}

#[test]
fn selection_is_deterministic_per_probe_outcome() {
    let archive = library_archive();
    let first = MathJax::new(true, true, archive.as_slice(), None).unwrap();
    let second = MathJax::new(true, true, archive.as_slice(), None).unwrap();
    assert_eq!(first.backend(), second.backend());
    let third = MathJax::new(false, true, &[], Some(Ok(()))).unwrap();
    let fourth = MathJax::new(false, true, &[], Some(Ok(()))).unwrap();
    assert_eq!(third.backend(), fourth.backend());
    assert_ne!(first.backend(), third.backend());
}

#[test]
fn failed_browser_launch_fails_construction() {
    match MathJax::new(false, true, &[], Some(Err("boom".to_string()))) {
        Err(InitError::Browser(text)) => assert_eq!(text, "boom"),
        other => panic!("expected Browser error, got {:?}", other.map(|_| ())),
    }
}

#[test]
fn broken_archive_fails_construction() {
    match MathJax::new(true, true, b"not a zip", None) {
        Err(InitError::ZipError(_)) => {}
        other => panic!("expected ZipError, got {:?}", other.map(|_| ())),
    }
}

#[test]
fn interpreter_request_carries_expression_and_working_dir() {
    let archive = library_archive();
    let facade = MathJax::new(true, false, archive.as_slice(), None).unwrap();
    match facade.render_request("y=x^2") {
        RenderRequest::Interpreter {
            working_dir,
            expression,
        } => {
            assert_eq!(expression, "y=x^2");
            assert!(!working_dir.is_empty());
            assert!(std::path::Path::new(&working_dir).exists());
        }
        RenderRequest::Interactive { .. } => panic!("expected an interpreter request"),
    }
}

#[test]
fn interactive_request_carries_expression() {
    let facade = MathJax::new(false, true, &[], Some(Ok(()))).unwrap();
    match facade.render_request("y=x^2") {
        RenderRequest::Interactive { expression } => assert_eq!(expression, "y=x^2"),
        RenderRequest::Interpreter { .. } => panic!("expected an interactive request"),
    }
}

#[test]
fn facade_render_applies_the_interpreter_rule() {
    let archive = library_archive();
    let facade = MathJax::new(true, false, archive.as_slice(), None).unwrap();
    let ok = facade.render(BackendOutcome::Interpreter(InterpreterOutcome::Completed {
        stdout: b"<svg>1</svg>".to_vec(),
        stderr: Vec::new(),
    }));
    assert_eq!(ok.unwrap().as_raw(), "<svg>1</svg>");
    let failed = facade.render(BackendOutcome::Interpreter(InterpreterOutcome::Completed {
        stdout: Vec::new(),
        stderr: b"bad expression".to_vec(),
    }));
    match failed {
        Err(RenderError::MathJaxError(text)) => assert_eq!(text, "bad expression"),
        other => panic!("expected MathJaxError, got {:?}", other.map(|_| ())),
    }
}

#[test]
fn facade_render_applies_the_interactive_rule() {
    let facade = MathJax::new(false, true, &[], Some(Ok(()))).unwrap();
    let ok = facade.render(BackendOutcome::Interactive(Ok(Some(
        "<svg>2</svg>".to_string(),
    ))));
    assert_eq!(ok.unwrap().as_raw(), "<svg>2</svg>");
    let failed = facade.render(BackendOutcome::Interactive(Err("timed out".to_string())));
    match failed {
        Err(RenderError::Browser(text)) => assert_eq!(text, "timed out"),
        other => panic!("expected Browser error, got {:?}", other.map(|_| ())),
    }
}
