use wkhtmlapp::ImgApp;
use wkhtmlapp::PdfApp;
use wkhtmlapp::WkhtmlError;

#[test]
fn plain_value_gives_flag_and_verbatim_value() {
    let mut pdf_app = PdfApp::new().unwrap();
    pdf_app.set_arg("title", Some("My  spaced   title")).unwrap();
    let args = pdf_app.build_args();
    assert_eq!(args, vec!["--title".to_string(), "My  spaced   title".to_string()]);
}

#[test]
fn true_value_gives_bare_flag() {
    let mut pdf_app = PdfApp::new().unwrap();
    pdf_app.set_arg("grayscale", Some("true")).unwrap();
    assert_eq!(pdf_app.build_args(), vec!["--grayscale".to_string()]);
}

#[test]
fn positional_markers_stay_bare() {
    let mut pdf_app = PdfApp::new().unwrap();
    pdf_app.set_arg("toc", Some("true")).unwrap();
    pdf_app.set_arg("cover", Some("cover-page.html")).unwrap();
    assert_eq!(pdf_app.build_args(), vec!["toc".to_string(), "cover".to_string()]);
}

#[test]
fn false_and_unset_values_give_no_tokens() {
    let mut pdf_app = PdfApp::new().unwrap();
    pdf_app.set_arg("collate", Some("false")).unwrap();
    pdf_app.set_arg("copies", None).unwrap();
    pdf_app.set_arg("toc", Some("false")).unwrap();
    assert_eq!(pdf_app.build_args(), Vec::<String>::new());
}

#[test]
fn setting_an_option_twice_overwrites_in_place() {
    let mut pdf_app = PdfApp::new().unwrap();
    pdf_app.set_arg("dpi", Some("100")).unwrap();
    pdf_app.set_arg("copies", Some("2")).unwrap();
    pdf_app.set_arg("dpi", Some("200")).unwrap();
    assert_eq!(
        pdf_app.build_args(),
        vec!["--dpi".to_string(), "200".to_string(), "--copies".to_string(), "2".to_string()]
    );
}

#[test]
fn invalid_pdf_option_is_refused_without_mutation() {
    let mut pdf_app = PdfApp::new().unwrap();
    pdf_app.set_arg("dpi", Some("100")).unwrap();
    let res = pdf_app.set_arg("made-up-option", Some("1"));
    match res {
        Err(WkhtmlError::ServiceErr(msg)) => {
            assert_eq!(msg, "Invalid option: made-up-option");
        },
        other => panic!("expected a service error, got {:?}", other),
    }
    assert_eq!(pdf_app.build_args(), vec!["--dpi".to_string(), "100".to_string()]);
}

#[test]
fn invalid_img_option_is_refused_without_mutation() {
    let mut image_app = ImgApp::new().unwrap();
    // margin-top belongs to the PDF allowlist only.
    let res = image_app.set_arg("margin-top", "10");
    match res {
        Err(WkhtmlError::ServiceErr(msg)) => {
            assert_eq!(msg, "Invalid option: margin-top");
        },
        other => panic!("expected a service error, got {:?}", other),
    }
    assert_eq!(image_app.build_args(), Vec::<String>::new());
}

#[test]
fn bulk_set_fails_fast_and_keeps_earlier_pairs() {
    let mut pdf_app = PdfApp::new().unwrap();
    let res = pdf_app.set_args(vec![
        ("collate", Some("true")),
        ("bogus", Some("1")),
        ("copies", Some("2")),
    ]);
    match res {
        Err(WkhtmlError::ServiceErr(msg)) => {
            assert_eq!(msg, "Invalid option: bogus");
        },
        other => panic!("expected a service error, got {:?}", other),
    }
    // The pair before the refused name stays applied; the one after it was
    // never reached.
    assert_eq!(pdf_app.build_args(), vec!["--collate".to_string()]);
}

#[test]
fn error_messages_carry_their_kind() {
    let service = WkhtmlError::ServiceErr("tool is gone".to_string());
    assert_eq!(service.message(), "Service error: tool is gone");
    let rendering = WkhtmlError::RenderingErr("bad markup".to_string());
    assert_eq!(rendering.message(), "Rendering error: bad markup");
}

#[test]
fn overlapping_names_are_accepted_by_both_facades() {
    let mut pdf_app = PdfApp::new().unwrap();
    let mut image_app = ImgApp::new().unwrap();
    for name in ["allow", "cookie", "encoding", "images", "password", "zoom"] {
        pdf_app.set_arg(name, Some("x")).unwrap();
        image_app.set_arg(name, "x").unwrap();
    }
}
