//! The input variants and the error kinds shared by every facade, and the
//! pair of pre-wired facades bundled as one application value.

use vstd::prelude::*;

use crate::img::ImgApp;
use crate::pdf::PdfApp;
use crate::runner::CoreView;
use crate::runner::spec_default_work_dir;

verus! {

/// One rendering input: a file on disk, a network address, or inline markup
/// that is streamed to the external tool over standard input.
#[derive(Debug, Clone)]
pub enum WkhtmlInput<'a> {
    File(&'a str),
    Url(&'a str),
    Html(&'a str),
}

impl<'a> WkhtmlInput<'a> {
    /// The token that stands in the input position of the command line: the
    /// path, the address, or the tool's `-` marker for standard input.
    pub open spec fn spec_token(self) -> Seq<char> {
        match self {
            WkhtmlInput::File(path) => path@,
            WkhtmlInput::Url(url) => url@,
            WkhtmlInput::Html(_) => "-"@,
        }
    }

    /// What is streamed over the process's standard input: the markup for
    /// the inline-HTML flow, nothing otherwise.
    pub open spec fn spec_payload(self) -> Option<Seq<char>> {
        match self {
            WkhtmlInput::Html(html) => Option::Some(html@),
            _ => Option::None,
        }
    }

    /// Whether this flow captures standard error: always, except for the
    /// URL flow while the runner's verbosity toggle is on.
    pub open spec fn spec_captures_stderr(self, debug: bool) -> bool {
        match self {
            WkhtmlInput::Url(_) => !debug,
            _ => true,
        }
    }
}

/// The two error kinds of the crate. `ServiceErr` reports setup and
/// configuration problems (tool missing, bad working directory, invalid
/// option name); `RenderingErr` reports everything that goes wrong during one
/// invocation and carries the diagnostic text that was captured.
#[derive(Debug, Clone)]
pub enum WkhtmlError {
    ServiceErr(String),
    RenderingErr(String),
}

impl WkhtmlError {
    /// The text of an error, prefixed with its kind.
    pub fn message(&self) -> (m: String)
        ensures
            self matches WkhtmlError::ServiceErr(t) ==> m@ == "Service error: "@ + t@,
            self matches WkhtmlError::RenderingErr(t) ==> m@ == "Rendering error: "@ + t@,
    {
        match self {
            WkhtmlError::ServiceErr(t) => String::from_str("Service error: ").concat(t.as_str()),
            WkhtmlError::RenderingErr(t) => String::from_str("Rendering error: ").concat(
                t.as_str(),
            ),
        }
    }
}

/// Both facades, bundled and pre-wired to their default command names.
#[derive(Debug, Clone)]
pub struct App {
    pub pdf_app: PdfApp,
    pub img_app: ImgApp,
}

impl App {
    /// An application holding one PDF facade and one image facade, each with
    /// an empty option table and its default command name.
    pub fn new() -> (r: Result<App, WkhtmlError>)
        ensures
            r matches Ok(a) && ({
                &&& a.pdf_app.wf()
                &&& a.img_app.wf()
                &&& a.pdf_app@.options.len() == 0
                &&& a.img_app@.options.len() == 0
                &&& a.img_app@.format == crate::img::ImgFormat::Jpg
                &&& a.pdf_app@.app == (CoreView {
                    cmd: "wkhtmltopdf"@,
                    work_dir: spec_default_work_dir(),
                    debug: false,
                })
                &&& a.img_app@.app == (CoreView {
                    cmd: "wkhtmltoimage"@,
                    work_dir: spec_default_work_dir(),
                    debug: false,
                })
            }),
    {
        let pdf_app = match PdfApp::new() {
            Ok(a) => a,
            Err(e) => {
                return Err(e);
            },
        };
        let img_app = match ImgApp::new() {
            Ok(a) => a,
            Err(e) => {
                return Err(e);
            },
        };
        Ok(App { pdf_app, img_app })
    }
}

} // verus!
