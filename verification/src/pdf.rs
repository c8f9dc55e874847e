//! The PDF facade: a process runner bound to the PDF tool plus an option
//! table scoped to the PDF allowlist.

use vstd::prelude::*;

use crate::app::WkhtmlError;
use crate::app::WkhtmlInput;
use crate::args::OptEntry;
use crate::args::build_tokens;
use crate::args::lemma_find;
use crate::args::spec_invalid_option_msg;
use crate::args::spec_set_many;
use crate::args::spec_tokens;
use crate::args::spec_upsert;
use crate::args::str_eq;
use crate::args::table_upsert;
use crate::runner::Core;
use crate::runner::CoreView;
use crate::runner::RenderJob;
use crate::runner::spec_default_work_dir;
use crate::runner::spec_fresh_output;

verus! {

/// The global options of the PDF tool.
pub open spec fn spec_pdf_global_option(k: Seq<char>) -> bool {
    ||| k == "collate"@
    ||| k == "no-collate"@
    ||| k == "cookie-jar"@
    ||| k == "copies"@
    ||| k == "dpi"@
    ||| k == "extended-help"@
    ||| k == "grayscale"@
    ||| k == "help"@
    ||| k == "htmldoc"@
    ||| k == "ignore-load-errors"@
    ||| k == "image-dpi"@
    ||| k == "image-quality"@
    ||| k == "license"@
    ||| k == "log-level"@
    ||| k == "lowquality"@
    ||| k == "manpage"@
    ||| k == "margin-bottom"@
    ||| k == "margin-left"@
    ||| k == "margin-right"@
    ||| k == "margin-top"@
    ||| k == "orientation"@
    ||| k == "page-height"@
    ||| k == "page-size"@
    ||| k == "page-width"@
    ||| k == "no-pdf-compression"@
    ||| k == "quiet"@
    ||| k == "read-args-from-stdin"@
    ||| k == "readme"@
    ||| k == "title"@
    ||| k == "use-xserver"@
    ||| k == "version"@
}

/// The outline options of the PDF tool.
pub open spec fn spec_pdf_outline_option(k: Seq<char>) -> bool {
    ||| k == "dump-default-toc-xsl"@
    ||| k == "dump-outline"@
    ||| k == "outline"@
    ||| k == "no-outline"@
    ||| k == "outline-depth"@
    ||| k == "output-format"@
}

/// The page options of the PDF tool.
pub open spec fn spec_pdf_page_option(k: Seq<char>) -> bool {
    ||| k == "allow"@
    ||| k == "background"@
    ||| k == "no-background"@
    ||| k == "bypass-proxy-for"@
    ||| k == "cache-dir"@
    ||| k == "checkbox-checked-svg"@
    ||| k == "checkbox-svg"@
    ||| k == "cookie"@
    ||| k == "custom-header"@
    ||| k == "custom-header-propagation"@
    ||| k == "no-custom-header-propagation"@
    ||| k == "debug-javascript"@
    ||| k == "no-debug-javascript"@
    ||| k == "default-header"@
    ||| k == "encoding"@
    ||| k == "disable-external-links"@
    ||| k == "enable-external-links"@
    ||| k == "disable-forms"@
    ||| k == "enable-forms"@
    ||| k == "images"@
    ||| k == "no-images"@
    ||| k == "disable-internal-links"@
    ||| k == "enable-internal-links"@
    ||| k == "disable-javascript"@
    ||| k == "enable-javascript"@
    ||| k == "javascript-delay"@
    ||| k == "keep-relative-links"@
    ||| k == "load-error-handling"@
    ||| k == "load-media-error-handling"@
    ||| k == "disable-local-file-access"@
    ||| k == "enable-local-file-access"@
    ||| k == "minimum-font-size"@
    ||| k == "exclude-from-outline"@
    ||| k == "include-in-outline"@
    ||| k == "page-offset"@
    ||| k == "password"@
    ||| k == "disable-plugins"@
    ||| k == "enable-plugins"@
    ||| k == "post"@
    ||| k == "post-file"@
    ||| k == "print-media-type"@
    ||| k == "no-print-media-type"@
    ||| k == "proxy"@
    ||| k == "proxy-hostname-lookup"@
    ||| k == "radiobutton-checked-svg"@
    ||| k == "radiobutton-svg"@
    ||| k == "redirect-delay"@
    ||| k == "resolve-relative-links"@
    ||| k == "run-script"@
    ||| k == "disable-smart-shrinking"@
    ||| k == "enable-smart-shrinking"@
    ||| k == "ssl-crt-path"@
    ||| k == "ssl-key-password"@
    ||| k == "ssl-key-path"@
    ||| k == "stop-slow-scripts"@
    ||| k == "no-stop-slow-scripts"@
    ||| k == "disable-toc-back-links"@
    ||| k == "enable-toc-back-links"@
    ||| k == "user-style-sheet"@
    ||| k == "username"@
    ||| k == "viewport-size"@
    ||| k == "window-status"@
    ||| k == "zoom"@
}

/// The header and footer options of the PDF tool.
pub open spec fn spec_pdf_header_footer_option(k: Seq<char>) -> bool {
    ||| k == "footer-center"@
    ||| k == "footer-font-name"@
    ||| k == "footer-font-size"@
    ||| k == "footer-html"@
    ||| k == "footer-left"@
    ||| k == "footer-line"@
    ||| k == "no-footer-line"@
    ||| k == "footer-right"@
    ||| k == "footer-spacing"@
    ||| k == "header-center"@
    ||| k == "header-font-name"@
    ||| k == "header-font-size"@
    ||| k == "header-html"@
    ||| k == "header-left"@
    ||| k == "header-line"@
    ||| k == "no-header-line"@
    ||| k == "header-right"@
    ||| k == "header-spacing"@
    ||| k == "replace"@
}

/// The table-of-contents options of the PDF tool, and the two positional
/// object markers `cover` and `toc`.
pub open spec fn spec_pdf_toc_option(k: Seq<char>) -> bool {
    ||| k == "cover"@
    ||| k == "toc"@
    ||| k == "disable-dotted-lines"@
    ||| k == "toc-depth"@
    ||| k == "toc-font-name"@
    ||| k == "toc-l1-font-size"@
    ||| k == "toc-header-text"@
    ||| k == "toc-header-font-name"@
    ||| k == "toc-header-font-size"@
    ||| k == "toc-level-indentation"@
    ||| k == "disable-toc-links"@
    ||| k == "toc-text-size-shrink"@
    ||| k == "xsl-style-sheet"@
}

/// The whole PDF allowlist.
pub open spec fn spec_pdf_option(k: Seq<char>) -> bool {
    ||| spec_pdf_global_option(k)
    ||| spec_pdf_outline_option(k)
    ||| spec_pdf_page_option(k)
    ||| spec_pdf_header_footer_option(k)
    ||| spec_pdf_toc_option(k)
}

/// The PDF allowlist as a predicate value, for stating what bulk updates do.
pub open spec fn spec_pdf_allow() -> spec_fn(Seq<char>) -> bool {
    |k: Seq<char>| spec_pdf_option(k)
}

fn is_global_option(key: &str) -> (r: bool)
    ensures
        r == spec_pdf_global_option(key@),
{
    str_eq(key, "collate") || str_eq(key, "no-collate") || str_eq(key, "cookie-jar") || str_eq(
        key,
        "copies",
    ) || str_eq(key, "dpi") || str_eq(key, "extended-help") || str_eq(key, "grayscale") || str_eq(
        key,
        "help",
    ) || str_eq(key, "htmldoc") || str_eq(key, "ignore-load-errors") || str_eq(key, "image-dpi")
        || str_eq(key, "image-quality") || str_eq(key, "license") || str_eq(key, "log-level")
        || str_eq(key, "lowquality") || str_eq(key, "manpage") || str_eq(key, "margin-bottom")
        || str_eq(key, "margin-left") || str_eq(key, "margin-right") || str_eq(key, "margin-top")
        || str_eq(key, "orientation") || str_eq(key, "page-height") || str_eq(key, "page-size")
        || str_eq(key, "page-width") || str_eq(key, "no-pdf-compression") || str_eq(key, "quiet")
        || str_eq(key, "read-args-from-stdin") || str_eq(key, "readme") || str_eq(key, "title")
        || str_eq(key, "use-xserver") || str_eq(key, "version")
}

fn is_outline_option(key: &str) -> (r: bool)
    ensures
        r == spec_pdf_outline_option(key@),
{
    str_eq(key, "dump-default-toc-xsl") || str_eq(key, "dump-outline") || str_eq(key, "outline")
        || str_eq(key, "no-outline") || str_eq(key, "outline-depth") || str_eq(key, "output-format")
}

fn is_page_option(key: &str) -> (r: bool)
    ensures
        r == spec_pdf_page_option(key@),
{
    str_eq(key, "allow") || str_eq(key, "background") || str_eq(key, "no-background") || str_eq(
        key,
        "bypass-proxy-for",
    ) || str_eq(key, "cache-dir") || str_eq(key, "checkbox-checked-svg") || str_eq(
        key,
        "checkbox-svg",
    ) || str_eq(key, "cookie") || str_eq(key, "custom-header") || str_eq(
        key,
        "custom-header-propagation",
    ) || str_eq(key, "no-custom-header-propagation") || str_eq(key, "debug-javascript") || str_eq(
        key,
        "no-debug-javascript",
    ) || str_eq(key, "default-header") || str_eq(key, "encoding") || str_eq(
        key,
        "disable-external-links",
    ) || str_eq(key, "enable-external-links") || str_eq(key, "disable-forms") || str_eq(
        key,
        "enable-forms",
    ) || str_eq(key, "images") || str_eq(key, "no-images") || str_eq(key, "disable-internal-links")
        || str_eq(key, "enable-internal-links") || str_eq(key, "disable-javascript") || str_eq(
        key,
        "enable-javascript",
    ) || str_eq(key, "javascript-delay") || str_eq(key, "keep-relative-links") || str_eq(
        key,
        "load-error-handling",
    ) || str_eq(key, "load-media-error-handling") || str_eq(key, "disable-local-file-access")
        || str_eq(key, "enable-local-file-access") || str_eq(key, "minimum-font-size") || str_eq(
        key,
        "exclude-from-outline",
    ) || str_eq(key, "include-in-outline") || str_eq(key, "page-offset") || str_eq(key, "password")
        || str_eq(key, "disable-plugins") || str_eq(key, "enable-plugins") || str_eq(key, "post")
        || str_eq(key, "post-file") || str_eq(key, "print-media-type") || str_eq(
        key,
        "no-print-media-type",
    ) || str_eq(key, "proxy") || str_eq(key, "proxy-hostname-lookup") || str_eq(
        key,
        "radiobutton-checked-svg",
    ) || str_eq(key, "radiobutton-svg") || str_eq(key, "redirect-delay") || str_eq(
        key,
        "resolve-relative-links",
    ) || str_eq(key, "run-script") || str_eq(key, "disable-smart-shrinking") || str_eq(
        key,
        "enable-smart-shrinking",
    ) || str_eq(key, "ssl-crt-path") || str_eq(key, "ssl-key-password") || str_eq(
        key,
        "ssl-key-path",
    ) || str_eq(key, "stop-slow-scripts") || str_eq(key, "no-stop-slow-scripts") || str_eq(
        key,
        "disable-toc-back-links",
    ) || str_eq(key, "enable-toc-back-links") || str_eq(key, "user-style-sheet") || str_eq(
        key,
        "username",
    ) || str_eq(key, "viewport-size") || str_eq(key, "window-status") || str_eq(key, "zoom")
}

fn is_header_footer_option(key: &str) -> (r: bool)
    ensures
        r == spec_pdf_header_footer_option(key@),
{
    str_eq(key, "footer-center") || str_eq(key, "footer-font-name") || str_eq(
        key,
        "footer-font-size",
    ) || str_eq(key, "footer-html") || str_eq(key, "footer-left") || str_eq(key, "footer-line")
        || str_eq(key, "no-footer-line") || str_eq(key, "footer-right") || str_eq(
        key,
        "footer-spacing",
    ) || str_eq(key, "header-center") || str_eq(key, "header-font-name") || str_eq(
        key,
        "header-font-size",
    ) || str_eq(key, "header-html") || str_eq(key, "header-left") || str_eq(key, "header-line")
        || str_eq(key, "no-header-line") || str_eq(key, "header-right") || str_eq(
        key,
        "header-spacing",
    ) || str_eq(key, "replace")
}

fn is_toc_option(key: &str) -> (r: bool)
    ensures
        r == spec_pdf_toc_option(key@),
{
    str_eq(key, "cover") || str_eq(key, "toc") || str_eq(key, "disable-dotted-lines") || str_eq(
        key,
        "toc-depth",
    ) || str_eq(key, "toc-font-name") || str_eq(key, "toc-l1-font-size") || str_eq(
        key,
        "toc-header-text",
    ) || str_eq(key, "toc-header-font-name") || str_eq(key, "toc-header-font-size") || str_eq(
        key,
        "toc-level-indentation",
    ) || str_eq(key, "disable-toc-links") || str_eq(key, "toc-text-size-shrink") || str_eq(
        key,
        "xsl-style-sheet",
    )
}

/// The ghost state of a [`PdfApp`].
pub ghost struct PdfAppView {
    pub app: CoreView,
    pub options: Seq<OptEntry>,
}

/// The PDF facade.
#[derive(Debug, Clone)]
pub struct PdfApp {
    app: Core,
    options: Vec<(String, Option<String>)>,
}

impl View for PdfApp {
    type V = PdfAppView;

    closed spec fn view(&self) -> PdfAppView {
        PdfAppView { app: self.app@, options: self.options.deep_view() }
    }
}

impl PdfApp {
    /// The table invariant: every key is on the PDF allowlist, and no key
    /// appears twice.
    pub open spec fn wf(self) -> bool {
        &&& forall|i: int|
            0 <= i < self@.options.len() ==> spec_pdf_option(#[trigger] self@.options[i].0)
        &&& forall|i: int, j: int|
            #![trigger self@.options[i], self@.options[j]]
            0 <= i < j < self@.options.len() ==> self@.options[i].0 != self@.options[j].0
    }

    /// A facade bound to the default PDF command with an empty option
    /// table. The embedding's bootstrap goes through [`Core::new`] and
    /// [`PdfApp::with_core`] instead.
    pub fn new() -> (r: Result<PdfApp, WkhtmlError>)
        ensures
            r matches Ok(a) && ({
                &&& a.wf()
                &&& a@.options.len() == 0
                &&& a@.app == (CoreView {
                    cmd: "wkhtmltopdf"@,
                    work_dir: spec_default_work_dir(),
                    debug: false,
                })
            }),
    {
        Ok(PdfApp::with_core(Core::with_cmd("wkhtmltopdf")))
    }

    /// A facade around an already bootstrapped runner, with an empty option
    /// table.
    pub fn with_core(app: Core) -> (r: PdfApp)
        ensures
            r.wf(),
            r@.options.len() == 0,
            r@.app == app@,
    {
        let options: Vec<(String, Option<String>)> = Vec::new();
        proof {
            assert(options.deep_view() =~= Seq::<OptEntry>::empty());
        }
        PdfApp { app, options }
    }

    /// Whether `key` is on the PDF allowlist.
    pub fn validate_option(key: &str) -> (r: bool)
        ensures
            r == spec_pdf_option(key@),
    {
        is_global_option(key) || is_outline_option(key) || is_page_option(key)
            || is_header_footer_option(key) || is_toc_option(key)
    }

    /// Points the runner at `work_dir`; `ready` is the embedding's report
    /// on whether the directory exists or could be created. A refused
    /// change leaves the facade untouched.
    pub fn set_work_dir(&mut self, work_dir: &str, ready: bool) -> (r: Result<(), WkhtmlError>)
        requires
            old(self).wf(),
        ensures
            final(self).wf(),
            final(self)@.options == old(self)@.options,
            ready ==> (r matches Ok(())) && final(self)@.app == (CoreView {
                work_dir: work_dir@,
                ..old(self)@.app
            }),
            !ready ==> (r matches Err(e) && e matches WkhtmlError::ServiceErr(m) && m@
                == crate::runner::spec_work_dir_msg(work_dir@)) && *final(self) == *old(self),
    {
        let r = self.app.set_work_dir(work_dir, ready);
        proof {
            assert(self@.options == old(self)@.options);
            assert(self.wf());
        }
        r
    }

    /// Sets one option. An allowlisted name is upserted into the table; any
    /// other name is refused with a service error, and the table is not
    /// touched.
    pub fn set_arg(&mut self, key: &str, arg: Option<&str>) -> (r: Result<(), WkhtmlError>)
        requires
            old(self).wf(),
        ensures
            final(self).wf(),
            final(self)@.app == old(self)@.app,
            spec_pdf_option(key@) ==> (r matches Ok(())) && final(self)@.options == spec_upsert(
                old(self)@.options,
                key@,
                arg.deep_view(),
            ),
            !spec_pdf_option(key@) ==> (r matches Err(e) && e matches WkhtmlError::ServiceErr(m)
                && m@ == spec_invalid_option_msg(key@)) && *final(self) == *old(self),
    {
        if PdfApp::validate_option(key) {
            proof {
                lemma_find(self@.options, key@);
            }
            table_upsert(&mut self.options, key, arg);
            Ok(())
        } else {
            Err(WkhtmlError::ServiceErr(String::from_str("Invalid option: ").concat(key)))
        }
    }

    /// Applies the pairs in order, failing fast on the first name the
    /// allowlist refuses; pairs before it stay applied, there is no
    /// rollback.
    pub fn set_args(&mut self, args: Vec<(&str, Option<&str>)>) -> (r: Result<(), WkhtmlError>)
        requires
            old(self).wf(),
        ensures
            final(self).wf(),
            final(self)@.app == old(self)@.app,
            ({
                let (table, refused) = spec_set_many(
                    old(self)@.options,
                    args.deep_view(),
                    spec_pdf_allow(),
                );
                &&& final(self)@.options == table
                &&& (refused is None ==> r matches Ok(()))
                &&& (refused matches Some(k) ==> r matches Err(e) && e matches
                    WkhtmlError::ServiceErr(m) && m@ == spec_invalid_option_msg(k))
            }),
    {
        proof {
            assert(args.deep_view().skip(0) =~= args.deep_view());
        }
        let n = args.len();
        let mut i: usize = 0;
        while i < n
            invariant
                i <= n,
                n == args.len(),
                self.wf(),
                self@.app == old(self)@.app,
                spec_set_many(old(self)@.options, args.deep_view(), spec_pdf_allow())
                    == spec_set_many(self@.options, args.deep_view().skip(i as int), spec_pdf_allow()),
            decreases n - i,
        {
            let (key, value) = args[i];
            let ghost rest = args.deep_view().skip(i as int);
            proof {
                assert(rest[0] == args.deep_view()[i as int]);
                assert(rest.drop_first() =~= args.deep_view().skip(i as int + 1));
            }
            match self.set_arg(key, value) {
                Ok(()) => {},
                Err(e) => {
                    return Err(e);
                },
            }
            i = i + 1;
        }
        proof {
            assert(args.deep_view().skip(n as int) =~= Seq::<OptEntry>::empty());
        }
        Ok(())
    }

    /// The command-line tokens of the current option table.
    pub fn build_args(&self) -> (r: Vec<String>)
        ensures
            r.deep_view() == spec_tokens(self@.options),
    {
        build_tokens(&self.options)
    }

    /// Prepares one PDF rendering: the serialized options, then the input
    /// token, then a fresh output path for `name` with the `.pdf` extension
    /// appended.
    pub fn run(&self, input: WkhtmlInput, name: &str) -> (r: Result<RenderJob, WkhtmlError>)
        ensures
            r matches Ok(job) && ({
                &&& job.program@ == self@.app.cmd
                &&& job.args.deep_view() == spec_tokens(self@.options).push(input.spec_token()).push(
                    job.output_path@,
                )
                &&& job.stdin_payload.deep_view() == input.spec_payload()
                &&& job.capture_stderr == input.spec_captures_stderr(self@.app.debug)
                &&& spec_fresh_output(self@.app.work_dir, name@ + ".pdf"@, job.output_path@)
            }),
    {
        let full_name = String::from_str(name).concat(".pdf");
        let flags = self.build_args();
        let job = match input {
            WkhtmlInput::File(path) => self.app.prepare_file(path, full_name.as_str(), flags),
            WkhtmlInput::Url(url) => self.app.prepare_url(url, full_name.as_str(), flags),
            WkhtmlInput::Html(html) => self.app.prepare_html(html, full_name.as_str(), flags),
        };
        Ok(job)
    }
}

} // verus!
