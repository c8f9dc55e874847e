use wkhtmlapp::Core;
use wkhtmlapp::PdfApp;
use wkhtmlapp::ProcessOutcome;
use wkhtmlapp::WkhtmlError;
use wkhtmlapp::WkhtmlInput;

#[test]
fn bootstrap_against_missing_tool_gives_fixed_message() {
    let spawn_failed = ProcessOutcome::SpawnFailed("No such file or directory (os error 2)".to_string());
    let res = Core::new("wkhtmltopdf-missing", &spawn_failed);
    match res {
        Err(WkhtmlError::ServiceErr(msg)) => {
            assert_eq!(
                msg,
                "wkhtmltopdf-missing not found, please make sure you have installed it"
            );
        },
        other => panic!("expected a service error, got {:?}", other),
    }
    // The message does not depend on the underlying OS error text.
    let other_error = ProcessOutcome::SpawnFailed("Permission denied (os error 13)".to_string());
    match Core::new("wkhtmltopdf-missing", &other_error) {
        Err(WkhtmlError::ServiceErr(msg)) => {
            assert_eq!(
                msg,
                "wkhtmltopdf-missing not found, please make sure you have installed it"
            );
        },
        other => panic!("expected a service error, got {:?}", other),
    }
}

#[test]
fn bootstrap_against_failing_probe_gives_fixed_message() {
    let bad_exit = ProcessOutcome::Exited { success: false, stderr: "boom".to_string() };
    match Core::new("oldtool", &bad_exit) {
        Err(WkhtmlError::ServiceErr(msg)) => {
            assert_eq!(msg, "oldtool not found, please make sure you have installed it");
        },
        other => panic!("expected a service error, got {:?}", other),
    }
}

#[test]
fn bootstrap_against_working_tool_succeeds() {
    let good_exit = ProcessOutcome::Exited { success: true, stderr: String::new() };
    assert!(Core::new("wkhtmltopdf", &good_exit).is_ok());
}

#[test]
fn two_runs_never_share_an_output_path() {
    let pdf_app = PdfApp::new().unwrap();
    let first = pdf_app
        .run(WkhtmlInput::Html("<html></html>"), "demo")
        .unwrap();
    let second = pdf_app
        .run(WkhtmlInput::Html("<html></html>"), "demo")
        .unwrap();
    assert_ne!(first.output_path, second.output_path);
}

#[test]
fn output_path_embeds_a_fresh_identifier() {
    let pdf_app = PdfApp::new().unwrap();
    let job = pdf_app
        .run(WkhtmlInput::Html("<html></html>"), "demo")
        .unwrap();
    // dir + "/" + a 36-character identifier + "-" + "demo.pdf"
    let expected_len = "/tmp/wkhtmlapp".len() + 1 + 36 + 1 + "demo.pdf".len();
    assert_eq!(job.output_path.len(), expected_len);
    let id = &job.output_path["/tmp/wkhtmlapp/".len()..job.output_path.len() - "-demo.pdf".len()];
    assert_eq!(id.len(), 36);
}

#[test]
fn successful_exit_concludes_with_the_output_path() {
    let pdf_app = PdfApp::new().unwrap();
    let job = pdf_app
        .run(WkhtmlInput::Html("<html></html>"), "demo")
        .unwrap();
    let path = job.output_path.clone();
    let outcome = ProcessOutcome::Exited { success: true, stderr: String::new() };
    assert_eq!(job.conclude(&outcome).unwrap(), path);
}

#[test]
fn failed_exit_concludes_with_captured_stderr() {
    let pdf_app = PdfApp::new().unwrap();
    let job = pdf_app
        .run(WkhtmlInput::Html("<html></html>"), "demo")
        .unwrap();
    let outcome = ProcessOutcome::Exited {
        success: false,
        stderr: "Error: Failed to load page".to_string(),
    };
    match job.conclude(&outcome) {
        Err(WkhtmlError::RenderingErr(msg)) => {
            assert_eq!(msg, "Error: Failed to load page");
        },
        other => panic!("expected a rendering error, got {:?}", other),
    }
}

#[test]
fn spawn_and_stdin_failures_conclude_as_rendering_errors() {
    let pdf_app = PdfApp::new().unwrap();
    let job = pdf_app
        .run(WkhtmlInput::Html("<html></html>"), "demo")
        .unwrap();
    let spawn_failed = ProcessOutcome::SpawnFailed("os error 2".to_string());
    match job.clone().conclude(&spawn_failed) {
        Err(WkhtmlError::RenderingErr(msg)) => {
            assert_eq!(msg, "Failed to start rendering process: os error 2");
        },
        other => panic!("expected a rendering error, got {:?}", other),
    }
    let stdin_failed = ProcessOutcome::StdinFailed("broken pipe".to_string());
    match job.conclude(&stdin_failed) {
        Err(WkhtmlError::RenderingErr(msg)) => {
            assert_eq!(msg, "Failed to write rendering input: broken pipe");
        },
        other => panic!("expected a rendering error, got {:?}", other),
    }
}

#[test]
fn refused_work_dir_change_keeps_previous_directory() {
    let mut pdf_app = PdfApp::new().unwrap();
    let res = pdf_app.set_work_dir("/definitely/not/creatable", false);
    match res {
        Err(WkhtmlError::ServiceErr(msg)) => {
            assert_eq!(msg, "Failed to create work directory: /definitely/not/creatable");
        },
        other => panic!("expected a service error, got {:?}", other),
    }
    let job = pdf_app
        .run(WkhtmlInput::Html("<html></html>"), "demo")
        .unwrap();
    assert!(job.output_path.starts_with("/tmp/wkhtmlapp/"));
}

#[test]
fn accepted_work_dir_change_takes_effect() {
    let mut pdf_app = PdfApp::new().unwrap();
    pdf_app.set_work_dir("/tmp/renders", true).unwrap();
    let job = pdf_app
        .run(WkhtmlInput::Html("<html></html>"), "demo")
        .unwrap();
    assert!(job.output_path.starts_with("/tmp/renders/"));
    assert!(job.output_path.ends_with("demo.pdf"));
}
