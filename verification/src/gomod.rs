//! Packages written in Go may come as an archive that holds the source of the
//! project and not that of its dependencies, which `go.mod` and `go.sum` name.
//! Vendoring fetches them: the archive is unpacked inside the SDK container,
//! `go mod vendor` is run in it, and the result is packed again.
//!
//! Where the dependencies come from is a matter of the usual variables of the
//! Go tool: GOPROXY, GOSUMDB and GOPRIVATE.
//!
//! What is decided here: which file holds the module, what has to hold of the
//! manifest, and the command that the container is to run.  The host looks at
//! the file system and the environment, and runs the commands.

pub mod error;

use error::{text_model, Error, ErrorModel};
use vstd::prelude::*;
use vstd::string::{StrSliceExecFns, StringExecFns};

verus! {

/// The variable that names the image of the SDK.
pub const SDK_IMAGE_VAR: &'static str = "BUILDSYS_SDK_IMAGE";

/// A URL as the URL parser holds it.
#[verifier::external_type_specification]
#[verifier::external_body]
pub struct ExUrl(url::Url);

/// The serialization of a parsed URL: the text that it is written as, and by
/// which two URLs are told apart.
pub uninterp spec fn url_text(url: url::Url) -> Seq<char>;

/// What the URL parser makes of `text`: the serialization of the URL that it
/// reads, or the message with which it refuses the text.
pub uninterp spec fn parsed_url(text: Seq<char>) -> Result<Seq<char>, Seq<char>>;

/// The segments of the path of the URL that is written as `serialization`,
/// each still percent-encoded; none where the URL cannot be a base.
pub uninterp spec fn path_segments_of(serialization: Seq<char>) -> Option<Seq<Seq<char>>>;

/// `url::Url::parse`.  The outcome is a function of the text alone: a URL,
/// whose serialization is then the one named by [`parsed_url`], or the
/// parser's message.
#[verifier::external_body]
fn url_parse(text: &str) -> (outcome: Result<url::Url, String>)
    ensures
        match outcome {
            Ok(url) => parsed_url(text@) == Ok::<Seq<char>, Seq<char>>(url_text(url)),
            Err(reason) => parsed_url(text@) == Err::<Seq<char>, Seq<char>>(reason@),
        },
{
    url::Url::parse(text).map_err(|e| e.to_string())
}

/// `url::Url::path_segments`, with the segments copied out in their order.
/// They are a function of the URL's serialization.
#[verifier::external_body]
fn url_path_segments(url: &url::Url) -> (segments: Option<Vec<String>>)
    ensures
        match segments {
            Some(list) => path_segments_of(url_text(*url)) == Some(texts(list@)),
            None => path_segments_of(url_text(*url)) is None,
        },
{
    url.path_segments().map(|segments| segments.map(String::from).collect())
}

/// The texts of `list`, one for one.
pub open spec fn texts(list: Seq<String>) -> Seq<Seq<char>> {
    Seq::new(list.len(), |i: int| list[i]@)
}

/// The name of the file that the path of a URL ends in: its last segment.
pub open spec fn last_segment_of(segments: Option<Seq<Seq<char>>>, url: Seq<char>) -> Result<
    Seq<char>,
    ErrorModel,
> {
    match segments {
        Some(list) if list.len() > 0 => Ok(list.last()),
        _ => Err(ErrorModel::InputFileBad { path: url }),
    }
}

/// The name of the file that `url` names.
pub open spec fn file_name_of(url: Seq<char>) -> Result<Seq<char>, ErrorModel> {
    match parsed_url(url) {
        Err(reason) => Err(ErrorModel::InputUrl { url, reason }),
        Ok(serialization) => last_segment_of(path_segments_of(serialization), url),
    }
}

/// The last of the path segments of a URL, or an error that names the URL
/// where it has none.
pub fn last_segment(segments: Option<Vec<String>>, url: &str) -> (outcome: Result<String, Error>)
    ensures
        text_model(outcome) == last_segment_of(
            match segments {
                Some(list) => Some(texts(list@)),
                None => None,
            },
            url@,
        ),
{
    match segments {
        Some(mut list) => match list.pop() {
            Some(name) => Ok(name),
            None => Err(Error::InputFileBad { path: url.to_owned() }),
        },
        None => Err(Error::InputFileBad { path: url.to_owned() }),
    }
}

/// The name of the file that `url` names: the last segment of its path.
pub fn extract_file_name(url: &str) -> (outcome: Result<String, Error>)
    ensures
        text_model(outcome) == file_name_of(url@),
{
    match url_parse(url) {
        Err(reason) => Err(Error::InputUrl { url: url.to_owned(), reason }),
        Ok(parsed) => last_segment(url_path_segments(&parsed), url),
    }
}

/// What the manifest of a package says of an external file that holds a Go
/// module.
#[derive(Debug, Clone, PartialEq, Eq)]
pub struct ExternalFile {
    /// Where the file is fetched from.
    pub url: String,
    /// The name under which the file is kept, where it is not the name that
    /// the URL ends in.
    pub path: Option<String>,
    /// The directory of the module inside the archive.
    pub bundle_path: Option<String>,
    /// The name of the archive that is to hold the module with its
    /// dependencies.
    pub bundle_output_path: Option<String>,
}

/// What the host found of the input: of how many components its name
/// consists when it is read as a path, where it lies under the directory of
/// the package, and whether a file is there.
#[derive(Debug, Clone, PartialEq, Eq)]
pub struct InputProbe {
    /// The number of components of the name of the input, read as a path.
    pub components: usize,
    /// The name of the input under the directory of the package.
    pub path: String,
    /// Whether `path` is a file.
    pub is_file: bool,
}

/// What is to be vendored: the archive that holds the module, the directory
/// of the module in it, and the archive that is to be made.
#[derive(Debug, Clone, PartialEq, Eq)]
pub struct Bundle {
    /// The name of the archive that holds the module.
    pub input: String,
    /// The directory of the module inside the archive.
    pub mod_dir: String,
    /// The name of the archive that is to be made.
    pub output: String,
}

/// The mathematical model of a [`Bundle`].
pub struct BundleModel {
    pub input: Seq<char>,
    pub mod_dir: Seq<char>,
    pub output: Seq<char>,
}

impl View for Bundle {
    type V = BundleModel;

    open spec fn view(&self) -> BundleModel {
        BundleModel { input: self.input@, mod_dir: self.mod_dir@, output: self.output@ }
    }
}

/// The arguments of `docker-go`.
#[derive(Debug, Clone, PartialEq, Eq)]
pub struct DockerGoArgs {
    /// The directory that the container works on.
    pub module_dir: String,
    /// The image of the SDK, of which the container is made.
    pub sdk_image: String,
    /// Where the modules that were fetched are kept between runs.
    pub go_mod_cache: String,
    /// The command that the container runs.
    pub command: String,
}

/// The name of the input: the one that the manifest gives, else the one that
/// the URL ends in.  The URL has to name a file either way.
pub open spec fn input_of(gomod: ExternalFile) -> Result<Seq<char>, ErrorModel> {
    match file_name_of(gomod.url@) {
        Err(e) => Err(e),
        Ok(name) => Ok(
            match gomod.path {
                Some(path) => path@,
                None => name,
            },
        ),
    }
}

/// What is to be vendored, where the input and the manifest are in order: the
/// input is named by a single path component, it is a file, and the manifest
/// names the module directory and the output.  What is amiss first decides
/// the error.
pub open spec fn bundle_of(gomod: ExternalFile, input: Seq<char>, probe: InputProbe) -> Result<
    BundleModel,
    ErrorModel,
> {
    if probe.components != 1 {
        Err(ErrorModel::InputFile)
    } else if !probe.is_file {
        Err(ErrorModel::InputFileBad { path: probe.path@ })
    } else {
        match (gomod.bundle_path, gomod.bundle_output_path) {
            (None, _) => Err(ErrorModel::ModDir),
            (Some(_), None) => Err(ErrorModel::OutputDir),
            (Some(mod_dir), Some(output)) => Ok(
                BundleModel { input, mod_dir: mod_dir@, output: output@ },
            ),
        }
    }
}

/// A setting of the Go tool as it is handed on: empty where the tool gave
/// none, and without the newline that the tool's output ends in.
pub open spec fn setting_of(value: Option<String>) -> Seq<char> {
    match value {
        None => Seq::empty(),
        Some(text) => if text@.len() > 0 && text@.last() == '\n' {
            text@.drop_last()
        } else {
            text@
        },
    }
}

/// What stands between two steps of the command: `&&` at the end of a line,
/// and the indentation of the next.
pub const THEN: &'static str = " &&\n                ";

/// What stands before the last step of the command.
pub const AT_LAST: &'static str = " && \n                ";

/// The command that the container runs: unpack the input, vendor the
/// dependencies of the module in its directory, pack the directory as the
/// output, and remove it.
pub open spec fn command_of(
    bundle: BundleModel,
    goproxy: Seq<char>,
    gosumdb: Seq<char>,
    goprivate: Seq<char>,
) -> Seq<char> {
    "tar xf "@ + bundle.input + THEN@ + "pushd "@ + bundle.mod_dir + THEN@ + "export GOPROXY="@
        + goproxy + THEN@ + "export GOSUMDB="@ + gosumdb + THEN@ + "export GOPRIVATE="@
        + goprivate + THEN@ + "go list -mod=readonly ./... >/dev/null && go mod vendor"@ + THEN@
        + "popd"@ + THEN@ + "tar czf "@ + bundle.output + " "@ + bundle.mod_dir + AT_LAST@
        + "rm -rf "@ + bundle.mod_dir
}

/// `parts` with `separator` between each two of them.
pub open spec fn joined(parts: Seq<Seq<char>>, separator: Seq<char>) -> Seq<char>
    decreases parts.len(),
{
    if parts.len() == 0 {
        Seq::empty()
    } else if parts.len() == 1 {
        parts[0]
    } else {
        joined(parts.drop_last(), separator) + separator + parts.last()
    }
}

/// The argument list of `docker-go`.
pub open spec fn arg_list_of(dg_args: DockerGoArgs) -> Seq<Seq<char>> {
    seq![
        "--module-path"@,
        dg_args.module_dir@,
        "--sdk-image"@,
        dg_args.sdk_image@,
        "--go-mod-cache"@,
        dg_args.go_mod_cache@,
        "--command"@,
        dg_args.command@,
    ]
}

/// What a run of `docker-go` comes to: an error where it could not be
/// started, and one that holds its arguments where it failed.
pub open spec fn docker_go_outcome(finished: Result<bool, String>, dg_args: DockerGoArgs) -> Result<
    (),
    ErrorModel,
> {
    match finished {
        Err(reason) => Err(ErrorModel::CommandStart { reason: reason@ }),
        Ok(false) => Err(
            ErrorModel::DockerExecution { args: joined(arg_list_of(dg_args), " "@) },
        ),
        Ok(true) => Ok(()),
    }
}

/// Puts `separator` between each two of `parts`.
pub fn join(parts: &Vec<String>, separator: &str) -> (text: String)
    ensures
        text@ == joined(texts(parts@), separator@),
{
    let mut text = String::new();
    let mut i: usize = 0;
    while i < parts.len()
        invariant
            i <= parts.len(),
            text@ == joined(texts(parts@).take(i as int), separator@),
        decreases parts.len() - i,
    {
        proof {
            assert(texts(parts@).take(i + 1).drop_last() =~= texts(parts@).take(i as int));
        }
        if i > 0 {
            text.append(separator);
        }
        text.append(parts[i].as_str());
        i = i + 1;
    }
    proof {
        assert(texts(parts@).take(parts@.len() as int) =~= texts(parts@));
    }
    text
}

/// The arguments with which `docker-go` is started.
pub fn docker_go_args(dg_args: &DockerGoArgs) -> (args: Vec<String>)
    ensures
        texts(args@) == arg_list_of(*dg_args),
{
    let mut args: Vec<String> = Vec::new();
    args.push("--module-path".to_owned());
    args.push(dg_args.module_dir.clone());
    args.push("--sdk-image".to_owned());
    args.push(dg_args.sdk_image.clone());
    args.push("--go-mod-cache".to_owned());
    args.push(dg_args.go_mod_cache.clone());
    args.push("--command".to_owned());
    args.push(dg_args.command.clone());
    args
}

/// Run `docker-go` with the specified arguments: what the run comes to, given
/// how it ended.  `finished` tells whether the command succeeded, or why it
/// could not be started.
pub fn docker_go(finished: Result<bool, String>, dg_args: &DockerGoArgs) -> (outcome: Result<
    (),
    Error,
>)
    ensures
        match outcome {
            Ok(()) => docker_go_outcome(finished, *dg_args) == Ok::<(), ErrorModel>(()),
            Err(e) => docker_go_outcome(finished, *dg_args) == Err::<(), ErrorModel>(e@),
        },
{
    match finished {
        Err(reason) => Err(Error::CommandStart { reason }),
        Ok(false) => {
            let args = docker_go_args(dg_args);
            Err(Error::DockerExecution { args: join(&args, " ") })
        },
        Ok(true) => Ok(()),
    }
}

/// Run `go env` with the specified argument: what the tool printed, where it
/// ran and succeeded.  `finished` holds whether it succeeded and what it
/// printed, or nothing where it could not be started.
pub fn go_env(finished: Option<(bool, String)>) -> (value: Option<String>)
    ensures
        value == match finished {
            Some((true, printed)) => Some(printed),
            _ => None,
        },
{
    match finished {
        Some((true, printed)) => Some(printed),
        _ => None,
    }
}

/// Retrieve a variable that is expected to be set in the environment.
/// `found` is its value, where it is set.
pub fn getenv(var: &str, found: Option<String>) -> (outcome: Result<String, Error>)
    ensures
        text_model(outcome) == match found {
            Some(value) => Ok::<Seq<char>, ErrorModel>(value@),
            None => Err(ErrorModel::Environment { var: var@ }),
        },
{
    match found {
        Some(value) => Ok(value),
        None => Err(Error::Environment { var: var.to_owned() }),
    }
}

/// Vendoring of the dependencies of a Go module.
pub struct GoMod;

impl GoMod {
    /// The name of the input that holds the module.
    pub fn input(gomod: &ExternalFile) -> (outcome: Result<String, Error>)
        ensures
            text_model(outcome) == input_of(*gomod),
    {
        let url_file_name = match extract_file_name(gomod.url.as_str()) {
            Ok(name) => name,
            Err(e) => {
                return Err(e);
            },
        };
        match &gomod.path {
            Some(path) => Ok(path.clone()),
            None => Ok(url_file_name),
        }
    }

    /// What is to be vendored, given the name of the input and what the host
    /// found of it.
    pub fn bundle(gomod: &ExternalFile, input: String, probe: &InputProbe) -> (outcome: Result<
        Bundle,
        Error,
    >)
        ensures
            match outcome {
                Ok(bundle) => bundle_of(*gomod, input@, *probe) == Ok::<BundleModel, ErrorModel>(
                    bundle@,
                ),
                Err(e) => bundle_of(*gomod, input@, *probe) == Err::<BundleModel, ErrorModel>(e@),
            },
    {
        if probe.components != 1 {
            return Err(Error::InputFile);
        }
        if !probe.is_file {
            return Err(Error::InputFileBad { path: probe.path.clone() });
        }
        let mod_dir = match &gomod.bundle_path {
            Some(mod_dir) => mod_dir.clone(),
            None => {
                return Err(Error::ModDir);
            },
        };
        let output = match &gomod.bundle_output_path {
            Some(output) => output.clone(),
            None => {
                return Err(Error::OutputDir);
            },
        };
        Ok(Bundle { input, mod_dir, output })
    }

    /// A setting of the Go tool as it is handed on to the container.
    pub fn setting(value: Option<String>) -> (text: String)
        ensures
            text@ == setting_of(value),
    {
        match value {
            None => String::new(),
            Some(text) => {
                let length = text.as_str().unicode_len();
                if length > 0 && text.as_str().get_char(length - 1) == '\n' {
                    text.as_str().substring_char(0, length - 1).to_owned()
                } else {
                    text
                }
            },
        }
    }

    /// The command that the container is to run.
    pub fn command(bundle: &Bundle, goproxy: &str, gosumdb: &str, goprivate: &str) -> (text: String)
        ensures
            text@ == command_of(bundle@, goproxy@, gosumdb@, goprivate@),
    {
        let mut text = "tar xf ".to_owned();
        text.append(bundle.input.as_str());
        text.append(THEN);
        text.append("pushd ");
        text.append(bundle.mod_dir.as_str());
        text.append(THEN);
        text.append("export GOPROXY=");
        text.append(goproxy);
        text.append(THEN);
        text.append("export GOSUMDB=");
        text.append(gosumdb);
        text.append(THEN);
        text.append("export GOPRIVATE=");
        text.append(goprivate);
        text.append(THEN);
        text.append("go list -mod=readonly ./... >/dev/null && go mod vendor");
        text.append(THEN);
        text.append("popd");
        text.append(THEN);
        text.append("tar czf ");
        text.append(bundle.output.as_str());
        text.append(" ");
        text.append(bundle.mod_dir.as_str());
        text.append(AT_LAST);
        text.append("rm -rf ");
        text.append(bundle.mod_dir.as_str());
        text
    }

    /// The arguments with which the dependencies of the module are vendored:
    /// the container works on the package directory `module_dir`, keeps the
    /// modules it fetches in `go_mod_cache`, and runs the vendoring command
    /// with the settings of the Go tool.
    pub fn vendor(
        module_dir: String,
        sdk_image: String,
        go_mod_cache: String,
        bundle: &Bundle,
        goproxy: Option<String>,
        gosumdb: Option<String>,
        goprivate: Option<String>,
    ) -> (dg_args: DockerGoArgs)
        ensures
            dg_args.module_dir == module_dir,
            dg_args.sdk_image == sdk_image,
            dg_args.go_mod_cache == go_mod_cache,
            dg_args.command@ == command_of(
                bundle@,
                setting_of(goproxy),
                setting_of(gosumdb),
                setting_of(goprivate),
            ),
    {
        let goproxy = GoMod::setting(goproxy);
        let gosumdb = GoMod::setting(gosumdb);
        let goprivate = GoMod::setting(goprivate);
        let command = GoMod::command(
            bundle,
            goproxy.as_str(),
            gosumdb.as_str(),
            goprivate.as_str(),
        );
        DockerGoArgs { module_dir, sdk_image, go_mod_cache, command }
    }
}

} // verus!
