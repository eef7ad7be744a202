//! Why the dependencies of a Go module could not be vendored.

use vstd::prelude::*;
use vstd::string::StringExecFns;

verus! {

/// The mathematical model of an [`Error`].
pub enum ErrorModel {
    CommandStart { reason: Seq<char> },
    DockerExecution { args: Seq<char> },
    InputFile,
    InputFileBad { path: Seq<char> },
    InputUrl { url: Seq<char>, reason: Seq<char> },
    ModDir,
    OutputDir,
    Environment { var: Seq<char> },
}

/// Why the dependencies of a Go module could not be vendored.
#[derive(Debug, PartialEq, Eq)]
pub enum Error {
    /// The command could not be started.
    CommandStart { reason: String },
    /// The command ran and failed.
    DockerExecution { args: String },
    /// The input is not named by a single path component.
    InputFile,
    /// The input is not a file, or its URL names no file.
    InputFileBad { path: String },
    /// The URL of the input is no URL.
    InputUrl { url: String, reason: String },
    /// The manifest names no module directory.
    ModDir,
    /// The manifest names no output.
    OutputDir,
    /// A variable that the build relies on is not set.
    Environment { var: String },
}

impl View for Error {
    type V = ErrorModel;

    open spec fn view(&self) -> ErrorModel {
        match self {
            Error::CommandStart { reason } => ErrorModel::CommandStart { reason: reason@ },
            Error::DockerExecution { args } => ErrorModel::DockerExecution { args: args@ },
            Error::InputFile => ErrorModel::InputFile,
            Error::InputFileBad { path } => ErrorModel::InputFileBad { path: path@ },
            Error::InputUrl { url, reason } => ErrorModel::InputUrl { url: url@, reason: reason@ },
            Error::ModDir => ErrorModel::ModDir,
            Error::OutputDir => ErrorModel::OutputDir,
            Error::Environment { var } => ErrorModel::Environment { var: var@ },
        }
    }
}

/// What `Debug` writes for a string: the text between double quotes, with
/// what would not print written as an escape.
pub uninterp spec fn debug_text(text: Seq<char>) -> Seq<char>;

/// `format!("{:?}", ..)` of a `str`: what std's `Debug` writes for it, which
/// is a function of the text alone.
#[verifier::external_body]
fn debug_string(text: &str) -> (written: String)
    ensures
        written@ == debug_text(text@),
{
    format!("{:?}", text)
}

/// The message under which an error is reported.
pub open spec fn message_of(e: ErrorModel) -> Seq<char> {
    match e {
        ErrorModel::CommandStart { reason } => "Failed to start command: "@ + reason,
        ErrorModel::DockerExecution { args } => "Failed to execute command: 'docker "@
            + debug_text(args) + "'"@,
        ErrorModel::InputFile => "Input url is required"@,
        ErrorModel::InputFileBad { path } => "Input file "@ + debug_text(path)
            + " must be a file"@,
        ErrorModel::InputUrl { url, reason } => "Bad file url '"@ + url + "': "@ + reason,
        ErrorModel::ModDir => "mod-dir is required"@,
        ErrorModel::OutputDir => "output-dir is required"@,
        ErrorModel::Environment { var } => "Missing environment variable '"@ + var + "'"@,
    }
}

/// `text` between `before` and `after`.
pub fn framed(before: &str, text: &str, after: &str) -> (whole: String)
    ensures
        whole@ == before@ + text@ + after@,
{
    let mut whole = before.to_owned();
    whole.append(text);
    whole.append(after);
    whole
}

impl Error {
    /// The message under which this error is reported.
    pub fn message(&self) -> (text: String)
        ensures
            text@ == message_of(self@),
    {
        match self {
            Error::CommandStart { reason } => {
                let mut text = "Failed to start command: ".to_owned();
                text.append(reason.as_str());
                text
            },
            Error::DockerExecution { args } => {
                let written = debug_string(args.as_str());
                framed("Failed to execute command: 'docker ", written.as_str(), "'")
            },
            Error::InputFile => "Input url is required".to_owned(),
            Error::InputFileBad { path } => {
                let written = debug_string(path.as_str());
                framed("Input file ", written.as_str(), " must be a file")
            },
            Error::InputUrl { url, reason } => {
                let mut text = framed("Bad file url '", url.as_str(), "': ");
                text.append(reason.as_str());
                text
            },
            Error::ModDir => "mod-dir is required".to_owned(),
            Error::OutputDir => "output-dir is required".to_owned(),
            Error::Environment { var } => framed(
                "Missing environment variable '",
                var.as_str(),
                "'",
            ),
        }
    }
}

/// The models of an outcome: of the text, or of the error.
pub open spec fn text_model(outcome: Result<String, Error>) -> Result<Seq<char>, ErrorModel> {
    match outcome {
        Ok(text) => Ok(text@),
        Err(e) => Err(e@),
    }
}

} // verus!
