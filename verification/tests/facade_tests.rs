use wkhtmlapp::App;
use wkhtmlapp::ImgApp;
use wkhtmlapp::ImgFormat;
use wkhtmlapp::PdfApp;
use wkhtmlapp::WkhtmlInput;

#[test]
fn test_pdf() {
    let mut pdf_app = PdfApp::new().expect("Failed to init PDF Application");
    let args = vec![("enable-smart-shrinking", Some("true"))];
    pdf_app.set_args(args).unwrap();

    // Building a PDF job from inline HTML
    let html_code = "<html><body><div>DEMO</div></body></html>";
    let res = pdf_app.run(WkhtmlInput::Html(html_code), "demo");
    assert!(res.is_ok(), "{}", res.unwrap_err().message());

    // Building a PDF job from a file
    let res = pdf_app.run(WkhtmlInput::File("examples/index.html"), "demo");
    assert!(res.is_ok(), "{}", res.unwrap_err().message());

    // Building a PDF job from a URL
    let res = pdf_app.run(WkhtmlInput::Url("https://wkhtmltopdf.org/"), "demo");
    assert!(res.is_ok(), "{}", res.unwrap_err().message());
}

#[test]
fn test_img() {
    // Building an image job from a file
    let mut image_app = ImgApp::new().expect("Failed to init image Application");
    let args = vec![("height", "100"), ("width", "100")];

    image_app.set_format(ImgFormat::Png).unwrap();
    image_app.set_args(args).unwrap();
    let res = image_app.run(WkhtmlInput::File("examples/index.html"), "demo");
    assert!(res.is_ok(), "{}", res.unwrap_err().message());

    // Building an image job from a URL
    let res = image_app.run(WkhtmlInput::Url("https://wkhtmltopdf.org/"), "demo");
    assert!(res.is_ok(), "{}", res.unwrap_err().message());
}

#[test]
fn pdf_html_run_yields_pdf_path_under_work_dir() {
    let mut pdf_app = PdfApp::new().unwrap();
    pdf_app.set_arg("grayscale", Some("true")).unwrap();
    let job = pdf_app
        .run(
            WkhtmlInput::Html("<html><body><div>DEMO</div></body></html>"),
            "demo",
        )
        .unwrap();
    assert!(job.output_path.ends_with("demo.pdf"));
    assert!(job.output_path.starts_with("/tmp/wkhtmlapp/"));
    // The command line: flags, the stdin marker, then the output path.
    assert_eq!(job.args[0], "--grayscale");
    assert_eq!(job.args[1], "-");
    assert_eq!(job.args[2], job.output_path);
    assert_eq!(job.args.len(), 3);
    assert_eq!(
        job.stdin_payload.as_deref(),
        Some("<html><body><div>DEMO</div></body></html>")
    );
    assert!(job.capture_stderr);
    assert_eq!(job.program, "wkhtmltopdf");
}

#[test]
fn img_png_format_run_yields_png_path() {
    let mut image_app = ImgApp::new().unwrap();
    image_app.set_format(ImgFormat::Png).unwrap();
    let job = image_app
        .run(WkhtmlInput::File("examples/index.html"), "demo")
        .unwrap();
    assert!(job.output_path.ends_with("demo.png"));
    // The format option travels on the command line too.
    assert_eq!(job.args[0], "--format");
    assert_eq!(job.args[1], "png");
    assert_eq!(job.args[2], "examples/index.html");
    assert_eq!(job.args[3], job.output_path);
    assert_eq!(job.program, "wkhtmltoimage");
}

#[test]
fn img_default_format_is_jpg() {
    let image_app = ImgApp::new().unwrap();
    let job = image_app
        .run(WkhtmlInput::File("examples/index.html"), "demo")
        .unwrap();
    assert!(job.output_path.ends_with("demo.jpg"));
    assert_eq!(ImgApp::default_extension(), "jpg");
}

#[test]
fn img_format_extensions() {
    assert_eq!(ImgFormat::Jpg.as_str(), "jpg");
    assert_eq!(ImgFormat::Png.as_str(), "png");
    assert_eq!(ImgFormat::Bmp.as_str(), "bmp");
    assert_eq!(ImgFormat::Svg.as_str(), "svg");
}

#[test]
fn app_bundles_both_facades() {
    let mut app = App::new().unwrap();
    app.pdf_app.set_arg("dpi", Some("300")).unwrap();
    app.img_app.set_arg("quality", "80").unwrap();
    let pdf_job = app
        .pdf_app
        .run(WkhtmlInput::Url("https://wkhtmltopdf.org/"), "report")
        .unwrap();
    let img_job = app
        .img_app
        .run(WkhtmlInput::Url("https://wkhtmltopdf.org/"), "shot")
        .unwrap();
    assert!(pdf_job.output_path.ends_with("report.pdf"));
    assert!(img_job.output_path.ends_with("shot.jpg"));
    assert_eq!(pdf_job.program, "wkhtmltopdf");
    assert_eq!(img_job.program, "wkhtmltoimage");
}

#[test]
fn url_flow_does_not_capture_stderr_in_debug() {
    let mut core = wkhtmlapp::Core::with_cmd("wkhtmltopdf");
    core.set_debug(true);
    let pdf_app = PdfApp::with_core(core);
    let url_job = pdf_app
        .run(WkhtmlInput::Url("https://wkhtmltopdf.org/"), "demo")
        .unwrap();
    assert!(!url_job.capture_stderr);
    // The file flow captures stderr regardless of the toggle.
    let file_job = pdf_app
        .run(WkhtmlInput::File("examples/index.html"), "demo")
        .unwrap();
    assert!(file_job.capture_stderr);
}
