//! The image facade: a process runner bound to the image tool, an option
//! table scoped to the image allowlist, and the tracked output format.

use vstd::prelude::*;

use crate::app::WkhtmlError;
use crate::app::WkhtmlInput;
use crate::args::OptEntry;
use crate::args::build_tokens;
use crate::args::lemma_find;
use crate::args::spec_invalid_option_msg;
use crate::args::spec_set_many;
use crate::args::spec_tokens;
use crate::args::spec_upsert;
use crate::args::str_eq;
use crate::args::table_upsert;
use crate::runner::Core;
use crate::runner::CoreView;
use crate::runner::RenderJob;
use crate::runner::spec_default_work_dir;
use crate::runner::spec_fresh_output;

verus! {

/// The output formats the image tool can produce.
#[derive(Debug, Clone, PartialEq, Eq)]
pub enum ImgFormat {
    Jpg,
    Png,
    Bmp,
    Svg,
}

impl ImgFormat {
    /// The format's file extension, which doubles as the value of the
    /// tool's `format` option.
    pub open spec fn spec_ext(self) -> Seq<char> {
        match self {
            ImgFormat::Jpg => "jpg"@,
            ImgFormat::Png => "png"@,
            ImgFormat::Bmp => "bmp"@,
            ImgFormat::Svg => "svg"@,
        }
    }

    /// The format's file extension.
    pub fn as_str(&self) -> (r: &'static str)
        ensures
            r@ == self.spec_ext(),
    {
        match self {
            ImgFormat::Jpg => "jpg",
            ImgFormat::Png => "png",
            ImgFormat::Bmp => "bmp",
            ImgFormat::Svg => "svg",
        }
    }
}

/// The image tool's allowlist.
pub open spec fn spec_img_option(k: Seq<char>) -> bool {
    ||| k == "allow"@
    ||| k == "bypass-proxy-for"@
    ||| k == "cache-dir"@
    ||| k == "checkbox-checked-svg"@
    ||| k == "checked-svg"@
    ||| k == "cookie"@
    ||| k == "cookie-jar"@
    ||| k == "crop-h"@
    ||| k == "crop-w"@
    ||| k == "crop-x"@
    ||| k == "crop-y"@
    ||| k == "custom-header"@
    ||| k == "custom-header-propagation"@
    ||| k == "no-custom-header-propagation"@
    ||| k == "debug-javascript"@
    ||| k == "no-debug-javascript"@
    ||| k == "encoding"@
    ||| k == "format"@
    ||| k == "height"@
    ||| k == "images"@
    ||| k == "no-images"@
    ||| k == "disable-javascript"@
    ||| k == "enable-javascript"@
    ||| k == "javascript-delay"@
    ||| k == "load-error-handling"@
    ||| k == "load-media-error-handling"@
    ||| k == "disable-local-file-access"@
    ||| k == "enable-local-file-access"@
    ||| k == "minimum-font-size"@
    ||| k == "password"@
    ||| k == "disable-plugins"@
    ||| k == "enable-plugins"@
    ||| k == "post"@
    ||| k == "post-file"@
    ||| k == "proxy"@
    ||| k == "quality"@
    ||| k == "quiet"@
    ||| k == "radiobutton-checked-svg"@
    ||| k == "radiobutton-svg"@
    ||| k == "run-script"@
    ||| k == "disable-smart-width"@
    ||| k == "enable-smart-width"@
    ||| k == "stop-slow-scripts"@
    ||| k == "no-stop-slow-scripts"@
    ||| k == "transparent"@
    ||| k == "use-xserver"@
    ||| k == "user-style-sheet"@
    ||| k == "username"@
    ||| k == "width"@
    ||| k == "window-status"@
    ||| k == "zoom"@
}

/// The image allowlist as a predicate value, for stating what bulk updates
/// do.
pub open spec fn spec_img_allow() -> spec_fn(Seq<char>) -> bool {
    |k: Seq<char>| spec_img_option(k)
}

/// The ghost state of an [`ImgApp`].
pub ghost struct ImgAppView {
    pub app: CoreView,
    pub options: Seq<OptEntry>,
    pub format: ImgFormat,
}

/// The image facade.
#[derive(Debug, Clone)]
pub struct ImgApp {
    app: Core,
    options: Vec<(String, Option<String>)>,
    format: ImgFormat,
}

impl View for ImgApp {
    type V = ImgAppView;

    closed spec fn view(&self) -> ImgAppView {
        ImgAppView { app: self.app@, options: self.options.deep_view(), format: self.format }
    }
}

impl ImgApp {
    /// The table invariant: every key is on the image allowlist, and no key
    /// appears twice.
    pub open spec fn wf(self) -> bool {
        &&& forall|i: int|
            0 <= i < self@.options.len() ==> spec_img_option(#[trigger] self@.options[i].0)
        &&& forall|i: int, j: int|
            #![trigger self@.options[i], self@.options[j]]
            0 <= i < j < self@.options.len() ==> self@.options[i].0 != self@.options[j].0
    }

    /// A facade bound to the default image command, with an empty option
    /// table and the default `jpg` format. The embedding's bootstrap goes
    /// through [`Core::new`] and [`ImgApp::with_core`] instead.
    pub fn new() -> (r: Result<ImgApp, WkhtmlError>)
        ensures
            r matches Ok(a) && ({
                &&& a.wf()
                &&& a@.options.len() == 0
                &&& a@.format == ImgFormat::Jpg
                &&& a@.app == (CoreView {
                    cmd: "wkhtmltoimage"@,
                    work_dir: spec_default_work_dir(),
                    debug: false,
                })
            }),
    {
        Ok(ImgApp::with_core(Core::with_cmd("wkhtmltoimage")))
    }

    /// A facade around an already bootstrapped runner, with an empty option
    /// table and the default `jpg` format.
    pub fn with_core(app: Core) -> (r: ImgApp)
        ensures
            r.wf(),
            r@.options.len() == 0,
            r@.format == ImgFormat::Jpg,
            r@.app == app@,
    {
        let options: Vec<(String, Option<String>)> = Vec::new();
        proof {
            assert(options.deep_view() =~= Seq::<OptEntry>::empty());
        }
        ImgApp { app, options, format: ImgFormat::Jpg }
    }

    /// Whether `key` is on the image allowlist.
    pub fn validate_option(key: &str) -> (r: bool)
        ensures
            r == spec_img_option(key@),
    {
        str_eq(key, "allow") || str_eq(key, "bypass-proxy-for") || str_eq(key, "cache-dir")
            || str_eq(key, "checkbox-checked-svg") || str_eq(key, "checked-svg") || str_eq(
            key,
            "cookie",
        ) || str_eq(key, "cookie-jar") || str_eq(key, "crop-h") || str_eq(key, "crop-w") || str_eq(
            key,
            "crop-x",
        ) || str_eq(key, "crop-y") || str_eq(key, "custom-header") || str_eq(
            key,
            "custom-header-propagation",
        ) || str_eq(key, "no-custom-header-propagation") || str_eq(key, "debug-javascript")
            || str_eq(key, "no-debug-javascript") || str_eq(key, "encoding") || str_eq(
            key,
            "format",
        ) || str_eq(key, "height") || str_eq(key, "images") || str_eq(key, "no-images") || str_eq(
            key,
            "disable-javascript",
        ) || str_eq(key, "enable-javascript") || str_eq(key, "javascript-delay") || str_eq(
            key,
            "load-error-handling",
        ) || str_eq(key, "load-media-error-handling") || str_eq(key, "disable-local-file-access")
            || str_eq(key, "enable-local-file-access") || str_eq(key, "minimum-font-size")
            || str_eq(key, "password") || str_eq(key, "disable-plugins") || str_eq(
            key,
            "enable-plugins",
        ) || str_eq(key, "post") || str_eq(key, "post-file") || str_eq(key, "proxy") || str_eq(
            key,
            "quality",
        ) || str_eq(key, "quiet") || str_eq(key, "radiobutton-checked-svg") || str_eq(
            key,
            "radiobutton-svg",
        ) || str_eq(key, "run-script") || str_eq(key, "disable-smart-width") || str_eq(
            key,
            "enable-smart-width",
        ) || str_eq(key, "stop-slow-scripts") || str_eq(key, "no-stop-slow-scripts") || str_eq(
            key,
            "transparent",
        ) || str_eq(key, "use-xserver") || str_eq(key, "user-style-sheet") || str_eq(
            key,
            "username",
        ) || str_eq(key, "width") || str_eq(key, "window-status") || str_eq(key, "zoom")
    }

    /// Selects the output format: sets the `format` option to the format's
    /// string value and updates the tracked format that the output
    /// extension is taken from, keeping the two consistent.
    pub fn set_format(&mut self, format: ImgFormat) -> (r: Result<(), WkhtmlError>)
        requires
            old(self).wf(),
        ensures
            final(self).wf(),
            r matches Ok(()),
            final(self)@.app == old(self)@.app,
            final(self)@.format == format,
            final(self)@.options == spec_upsert(
                old(self)@.options,
                "format"@,
                Option::Some(format.spec_ext()),
            ),
    {
        proof {
            assert(spec_img_option("format"@));
        }
        let value = format.as_str();
        match self.set_arg("format", value) {
            Ok(()) => {},
            Err(e) => {
                return Err(e);
            },
        }
        self.format = format;
        Ok(())
    }

    /// Points the runner at `work_dir`; `ready` is the embedding's report
    /// on whether the directory exists or could be created. A refused
    /// change leaves the facade untouched.
    pub fn set_work_dir(&mut self, work_dir: &str, ready: bool) -> (r: Result<(), WkhtmlError>)
        requires
            old(self).wf(),
        ensures
            final(self).wf(),
            final(self)@.options == old(self)@.options,
            final(self)@.format == old(self)@.format,
            ready ==> (r matches Ok(())) && final(self)@.app == (CoreView {
                work_dir: work_dir@,
                ..old(self)@.app
            }),
            !ready ==> (r matches Err(e) && e matches WkhtmlError::ServiceErr(m) && m@
                == crate::runner::spec_work_dir_msg(work_dir@)) && *final(self) == *old(self),
    {
        let r = self.app.set_work_dir(work_dir, ready);
        proof {
            assert(self@.options == old(self)@.options);
            assert(self.wf());
        }
        r
    }

    /// Sets one option. An allowlisted name is upserted into the table; any
    /// other name is refused with a service error, and the facade is not
    /// touched.
    pub fn set_arg(&mut self, key: &str, arg: &str) -> (r: Result<(), WkhtmlError>)
        requires
            old(self).wf(),
        ensures
            final(self).wf(),
            final(self)@.app == old(self)@.app,
            final(self)@.format == old(self)@.format,
            spec_img_option(key@) ==> (r matches Ok(())) && final(self)@.options == spec_upsert(
                old(self)@.options,
                key@,
                Option::Some(arg@),
            ),
            !spec_img_option(key@) ==> (r matches Err(e) && e matches WkhtmlError::ServiceErr(m)
                && m@ == spec_invalid_option_msg(key@)) && *final(self) == *old(self),
    {
        if ImgApp::validate_option(key) {
            proof {
                lemma_find(self@.options, key@);
            }
            table_upsert(&mut self.options, key, Some(arg));
            Ok(())
        } else {
            Err(WkhtmlError::ServiceErr(String::from_str("Invalid option: ").concat(key)))
        }
    }

    /// Applies the pairs in order, failing fast on the first name the
    /// allowlist refuses; pairs before it stay applied, there is no
    /// rollback.
    pub fn set_args(&mut self, args: Vec<(&str, &str)>) -> (r: Result<(), WkhtmlError>)
        requires
            old(self).wf(),
        ensures
            final(self).wf(),
            final(self)@.app == old(self)@.app,
            final(self)@.format == old(self)@.format,
            ({
                let pairs = Seq::new(
                    args.deep_view().len(),
                    |i: int| (args.deep_view()[i].0, Option::Some(args.deep_view()[i].1)),
                );
                let (table, refused) = spec_set_many(old(self)@.options, pairs, spec_img_allow());
                &&& final(self)@.options == table
                &&& (refused is None ==> r matches Ok(()))
                &&& (refused matches Some(k) ==> r matches Err(e) && e matches
                    WkhtmlError::ServiceErr(m) && m@ == spec_invalid_option_msg(k))
            }),
    {
        let ghost pairs = Seq::new(
            args.deep_view().len(),
            |i: int| (args.deep_view()[i].0, Option::Some(args.deep_view()[i].1)),
        );
        proof {
            assert(pairs.skip(0) =~= pairs);
        }
        let n = args.len();
        let mut i: usize = 0;
        while i < n
            invariant
                i <= n,
                n == args.len(),
                pairs == Seq::new(
                    args.deep_view().len(),
                    |i: int| (args.deep_view()[i].0, Option::Some(args.deep_view()[i].1)),
                ),
                self.wf(),
                self@.app == old(self)@.app,
                self@.format == old(self)@.format,
                spec_set_many(old(self)@.options, pairs, spec_img_allow()) == spec_set_many(
                    self@.options,
                    pairs.skip(i as int),
                    spec_img_allow(),
                ),
            decreases n - i,
        {
            let (key, value) = args[i];
            let ghost rest = pairs.skip(i as int);
            proof {
                assert(rest[0] == pairs[i as int]);
                assert(rest.drop_first() =~= pairs.skip(i as int + 1));
                assert(pairs[i as int] == (key@, Option::Some(value@)));
            }
            match self.set_arg(key, value) {
                Ok(()) => {},
                Err(e) => {
                    return Err(e);
                },
            }
            i = i + 1;
        }
        proof {
            assert(pairs.skip(n as int) =~= Seq::<OptEntry>::empty());
        }
        Ok(())
    }

    /// The command-line tokens of the current option table.
    pub fn build_args(&self) -> (r: Vec<String>)
        ensures
            r.deep_view() == spec_tokens(self@.options),
    {
        build_tokens(&self.options)
    }

    /// Prepares one image rendering: the serialized options, then the input
    /// token, then a fresh output path for `name` with the current format's
    /// extension appended.
    pub fn run(&self, input: WkhtmlInput, name: &str) -> (r: Result<RenderJob, WkhtmlError>)
        ensures
            r matches Ok(job) && ({
                &&& job.program@ == self@.app.cmd
                &&& job.args.deep_view() == spec_tokens(self@.options).push(input.spec_token()).push(
                    job.output_path@,
                )
                &&& job.stdin_payload.deep_view() == input.spec_payload()
                &&& job.capture_stderr == input.spec_captures_stderr(self@.app.debug)
                &&& spec_fresh_output(
                    self@.app.work_dir,
                    name@ + "."@ + self@.format.spec_ext(),
                    job.output_path@,
                )
            }),
    {
        let full_name = String::from_str(name).concat(".").concat(self.format.as_str());
        let flags = self.build_args();
        let job = match input {
            WkhtmlInput::File(path) => self.app.prepare_file(path, full_name.as_str(), flags),
            WkhtmlInput::Url(url) => self.app.prepare_url(url, full_name.as_str(), flags),
            WkhtmlInput::Html(html) => self.app.prepare_html(html, full_name.as_str(), flags),
        };
        Ok(job)
    }

    /// The extension a fresh facade produces before any `set_format` call.
    pub fn default_extension() -> (r: &'static str)
        ensures
            r@ == "jpg"@,
    {
        "jpg"
    }
}

} // verus!
