//! Settings that an AWS instance learns of itself: the region it runs in, and
//! the user data it was launched with.
//!
//! Nothing here reads a file or talks to the metadata service.  The host does
//! that, and hands over what came back.  What the sources deliver is put
//! together by an [`Aggregation`](crate::provider::Aggregation).

use crate::compression::{
    decode_text, decoded, decompress, decompressed, gzip_expansion, has_gzip_signature,
};
use crate::json::{names, parsed_json, JsonTree, JsonValue};
use crate::settings;
use crate::settings::{fragment_of_parsed, parsed_toml, rooted, Fragment, SettingsJson};
use vstd::prelude::*;
use vstd::string::StringExecFns;

verus! {

/// Where the instance identity document is kept, if the machine has one.
pub const IDENTITY_DOCUMENT_FILE: &'static str = "/etc/early-boot-config/identity-document";

/// The field of the identity document that holds the region.
pub const REGION_FIELD: &'static str = "region";

/// The type that the region field must have.
pub const REGION_TYPE: &'static str = "string";

/// How the fragment made of the region describes its source.
pub const IDENTITY_DESC: &'static str = "instance identity document";

/// The role of the payload that the operator handed over.
pub const USER_DATA_DESC: &'static str = "user data";

/// How an error names the user data as the source of a fragment.
pub const USER_DATA_FROM: &'static str = "instance user data";

/// The first name of the key path under which the region is put.
pub const AWS_KEY: &'static str = "aws";

/// The mathematical model of an [`Error`].
pub enum ErrorModel {
    Decompression { what: Seq<char>, reason: Seq<char> },
    Decoding { what: Seq<char> },
    JsonParse { reason: Seq<char> },
    MissingField { missing: Seq<char> },
    InputFileRead { path: Seq<char>, reason: Seq<char> },
    MissingRegion,
    ServiceRequest { reason: Seq<char> },
    Settings { from: Seq<char>, source: settings::ErrorModel },
    TypeMismatch { field_name: Seq<char>, expected_type: Seq<char> },
}

/// Why a source on AWS delivered no fragment.
#[derive(Debug, PartialEq, Eq)]
pub enum Error {
    /// A payload carried the gzip signature and could not be inflated.
    Decompression { what: String, reason: String },
    /// A payload is not UTF-8 text.
    Decoding { what: String },
    /// The identity document is not JSON.
    JsonParse { reason: String },
    /// The identity document lacks a field.
    MissingField { missing: String },
    /// The identity document is there and could not be read.
    InputFileRead { path: String, reason: String },
    /// The metadata service answered, and knew no region.
    MissingRegion,
    /// The metadata service could not be asked.
    ServiceRequest { reason: String },
    /// What a source delivered could not be made a fragment.
    Settings { from: String, source: settings::Error },
    /// A field of the identity document has another type than expected.
    TypeMismatch { field_name: String, expected_type: String },
}

impl View for Error {
    type V = ErrorModel;

    open spec fn view(&self) -> ErrorModel {
        match self {
            Error::Decompression { what, reason } => ErrorModel::Decompression {
                what: what@,
                reason: reason@,
            },
            Error::Decoding { what } => ErrorModel::Decoding { what: what@ },
            Error::JsonParse { reason } => ErrorModel::JsonParse { reason: reason@ },
            Error::MissingField { missing } => ErrorModel::MissingField { missing: missing@ },
            Error::InputFileRead { path, reason } => ErrorModel::InputFileRead {
                path: path@,
                reason: reason@,
            },
            Error::MissingRegion => ErrorModel::MissingRegion,
            Error::ServiceRequest { reason } => ErrorModel::ServiceRequest { reason: reason@ },
            Error::Settings { from, source } => ErrorModel::Settings {
                from: from@,
                source: source@,
            },
            Error::TypeMismatch { field_name, expected_type } => ErrorModel::TypeMismatch {
                field_name: field_name@,
                expected_type: expected_type@,
            },
        }
    }
}

/// The message under which an error is reported.
pub open spec fn message_of(e: ErrorModel) -> Seq<char> {
    match e {
        ErrorModel::Decompression { what, reason } => "Failed to decompress "@ + what + ": "@
            + reason,
        ErrorModel::Decoding { what } => "Failed to decode "@ + what + ": not UTF-8"@,
        ErrorModel::JsonParse { reason } => "Error deserializing from JSON: "@ + reason,
        ErrorModel::MissingField { missing } => "Instance identity document missing "@ + missing,
        ErrorModel::InputFileRead { path, reason } => "Unable to read input file '"@ + path
            + "': "@ + reason,
        ErrorModel::MissingRegion => "IMDS request failed: missing region"@,
        ErrorModel::ServiceRequest { reason } => "IMDS request failed: "@ + reason,
        ErrorModel::Settings { from, source } => "Unable to serialize settings from "@ + from
            + ": "@ + settings::message_of(source),
        ErrorModel::TypeMismatch { field_name, expected_type } =>
            "Wrong type while deserializing, expected '"@ + field_name + "' to be type '"@
                + expected_type + "'"@,
    }
}

impl Error {
    /// The message under which this error is reported.
    pub fn message(&self) -> (text: String)
        ensures
            text@ == message_of(self@),
    {
        match self {
            Error::Decompression { what, reason } => {
                let mut text = "Failed to decompress ".to_owned();
                text.append(what.as_str());
                text.append(": ");
                text.append(reason.as_str());
                text
            },
            Error::Decoding { what } => {
                let mut text = "Failed to decode ".to_owned();
                text.append(what.as_str());
                text.append(": not UTF-8");
                text
            },
            Error::JsonParse { reason } => {
                let mut text = "Error deserializing from JSON: ".to_owned();
                text.append(reason.as_str());
                text
            },
            Error::MissingField { missing } => {
                let mut text = "Instance identity document missing ".to_owned();
                text.append(missing.as_str());
                text
            },
            Error::InputFileRead { path, reason } => {
                let mut text = "Unable to read input file '".to_owned();
                text.append(path.as_str());
                text.append("': ");
                text.append(reason.as_str());
                text
            },
            Error::MissingRegion => "IMDS request failed: missing region".to_owned(),
            Error::ServiceRequest { reason } => {
                let mut text = "IMDS request failed: ".to_owned();
                text.append(reason.as_str());
                text
            },
            Error::Settings { from, source } => {
                let mut text = "Unable to serialize settings from ".to_owned();
                text.append(from.as_str());
                text.append(": ");
                text.append(source.message().as_str());
                text
            },
            Error::TypeMismatch { field_name, expected_type } => {
                let mut text = "Wrong type while deserializing, expected '".to_owned();
                text.append(field_name.as_str());
                text.append("' to be type '");
                text.append(expected_type.as_str());
                text.append("'");
                text
            },
        }
    }
}

/// The region that an identity document names.
pub open spec fn region_in(document: JsonTree) -> Result<Seq<char>, ErrorModel> {
    match document.get(REGION_FIELD@) {
        None => Err(ErrorModel::MissingField { missing: REGION_FIELD@ }),
        Some(field) => match field.as_str() {
            None => Err(
                ErrorModel::TypeMismatch { field_name: REGION_FIELD@, expected_type: REGION_TYPE@ },
            ),
            Some(region) => Ok(region),
        },
    }
}

/// The models of an outcome: of the text, or of the error.
pub open spec fn text_model(outcome: Result<String, Error>) -> Result<Seq<char>, ErrorModel> {
    match outcome {
        Ok(text) => Ok(text@),
        Err(e) => Err(e@),
    }
}

/// The models of an outcome: of the fragment, if there is one, or of the error.
pub open spec fn provider_model(outcome: Result<Option<SettingsJson>, Error>) -> Result<
    Option<Fragment>,
    ErrorModel,
> {
    match outcome {
        Ok(Some(fragment)) => Ok(Some(fragment@)),
        Ok(None) => Ok(None),
        Err(e) => Err(e@),
    }
}

/// The one source that is asked for the region.
#[derive(Debug, Clone, Copy, PartialEq, Eq, Structural)]
pub enum RegionSource {
    /// The identity document kept on the machine.
    IdentityDocument,
    /// The metadata service, over the network.
    MetadataService,
}

/// What came back from the source that was asked for the region.
#[derive(Debug, PartialEq, Eq)]
pub enum RegionReply {
    /// The text of the identity document, or why it could not be read.
    Document(Result<String, String>),
    /// The region that the metadata service knows, if it knows one, or why it
    /// could not be asked.
    Service(Result<Option<String>, String>),
}

/// The source that is asked for the region: the identity document where the
/// machine has one, the metadata service where it has none.
pub open spec fn source_for(document_exists: bool) -> RegionSource {
    if document_exists {
        RegionSource::IdentityDocument
    } else {
        RegionSource::MetadataService
    }
}

/// The region that the identity document gives, from what reading it gave.
pub open spec fn region_by_document(read: Result<String, String>) -> Result<
    Seq<char>,
    ErrorModel,
> {
    match read {
        Err(reason) => Err(
            ErrorModel::InputFileRead { path: IDENTITY_DOCUMENT_FILE@, reason: reason@ },
        ),
        Ok(text) => match parsed_json(text@) {
            Err(reason) => Err(ErrorModel::JsonParse { reason }),
            Ok(document) => region_in(document),
        },
    }
}

/// The region that the metadata service gives, from what asking it gave.
pub open spec fn region_by_service(fetched: Result<Option<String>, String>) -> Result<
    Seq<char>,
    ErrorModel,
> {
    match fetched {
        Err(reason) => Err(ErrorModel::ServiceRequest { reason: reason@ }),
        Ok(None) => Err(ErrorModel::MissingRegion),
        Ok(Some(region)) => Ok(region@),
    }
}

/// The region that a reply gives.
pub open spec fn region_by(reply: RegionReply) -> Result<Seq<char>, ErrorModel> {
    match reply {
        RegionReply::Document(read) => region_by_document(read),
        RegionReply::Service(fetched) => region_by_service(fetched),
    }
}

/// The fragment that states the region: `{"settings": {"aws": {"region": ..}}}`.
pub open spec fn identity_fragment_of(region: Seq<char>) -> Fragment {
    Fragment {
        json: rooted(seq![AWS_KEY@, REGION_FIELD@], JsonTree::String(region)),
        desc: IDENTITY_DESC@,
    }
}

/// What the cloud-identity source delivers, from the reply of the one source
/// that was asked.
pub open spec fn identity_outcome(reply: RegionReply) -> Result<Option<Fragment>, ErrorModel> {
    match region_by(reply) {
        Ok(region) => Ok(Some(identity_fragment_of(region))),
        Err(e) => Err(e),
    }
}

/// What a machine offers to the cloud-identity source: its identity document,
/// where it has one, by what reading it gives, and the metadata service, by
/// what asking it for the region gives.
pub struct IdentityWorld {
    pub document: Option<Result<String, String>>,
    pub service: Result<Option<String>, String>,
}

/// What the cloud-identity source did in a world: the one source it asked,
/// and what it delivered.
pub struct IdentityRun {
    pub asked: RegionSource,
    pub outcome: Result<Option<Fragment>, ErrorModel>,
}

/// The cloud-identity source in `world`: the source is chosen by whether the
/// document exists, that source alone is asked, and its reply decides.
pub open spec fn identity_run(world: IdentityWorld) -> IdentityRun {
    let asked = source_for(world.document is Some);
    let reply = match asked {
        RegionSource::IdentityDocument => RegionReply::Document(world.document->Some_0),
        RegionSource::MetadataService => RegionReply::Service(world.service),
    };
    IdentityRun { asked, outcome: identity_outcome(reply) }
}

/// Where the identity document exists, it alone is asked: the metadata
/// service is not called, and nothing that it would say changes the outcome.
/// A document that names a region gives the fragment of that region.
pub proof fn lemma_document_preferred(world: IdentityWorld, other: Result<Option<String>, String>)
    requires
        world.document is Some,
    ensures
        identity_run(world).asked == RegionSource::IdentityDocument,
        identity_run(world) == identity_run(
            IdentityWorld { document: world.document, service: other },
        ),
        identity_run(world).outcome == identity_outcome(
            RegionReply::Document(world.document->Some_0),
        ),
        forall|text: String, document: JsonTree, region: Seq<char>|
            world.document == Some(Ok::<String, String>(text)) && parsed_json(text@) == Ok::<
                JsonTree,
                Seq<char>,
            >(document) && document.get(REGION_FIELD@) == Some(JsonTree::String(region))
                ==> identity_run(world).outcome == Ok::<Option<Fragment>, ErrorModel>(
                Some(identity_fragment_of(region)),
            ),
{
}

/// Where there is no identity document, the metadata service is asked, and a
/// region that it knows gives the fragment of that region.
pub proof fn lemma_service_fallback(world: IdentityWorld)
    requires
        world.document is None,
    ensures
        identity_run(world).asked == RegionSource::MetadataService,
        identity_run(world).outcome == identity_outcome(RegionReply::Service(world.service)),
        forall|region: String|
            world.service == Ok::<Option<String>, String>(Some(region)) ==> identity_run(
                world,
            ).outcome == Ok::<Option<Fragment>, ErrorModel>(Some(identity_fragment_of(region@))),
{
}

/// The fragment of a region is canonical, and holds the region as a string
/// under `settings`, `aws`, `region`.
pub proof fn lemma_identity_fragment_shape(region: Seq<char>)
    ensures
        settings::is_canonical(identity_fragment_of(region).json),
        identity_fragment_of(region).json.get(settings::SETTINGS_KEY@) matches Some(inner)
            && inner.get(AWS_KEY@) matches Some(aws) && aws.get(REGION_FIELD@) == Some(
            JsonTree::String(region),
        ),
{
    reveal_with_fuel(crate::json::nest, 3);
}

/// What the user data make of a payload: inflated where it is compressed,
/// read as UTF-8, parsed as markup and taken as a fragment.
pub open spec fn user_data_of(payload: Seq<u8>) -> Result<Option<Fragment>, ErrorModel> {
    match decompressed(payload) {
        Err(reason) => Err(ErrorModel::Decompression { what: USER_DATA_DESC@, reason }),
        Ok(bytes) => match decoded(bytes) {
            None => Err(ErrorModel::Decoding { what: USER_DATA_DESC@ }),
            Some(text) => match fragment_of_parsed(parsed_toml(text), USER_DATA_DESC@) {
                Err(e) => Err(ErrorModel::Settings { from: USER_DATA_FROM@, source: e }),
                Ok(fragment) => Ok(Some(fragment)),
            },
        },
    }
}

/// What the cloud-user-data source delivers, from what asking the metadata
/// service gave.  That there are no user data is no error.
pub open spec fn user_data_outcome(fetched: Result<Option<Vec<u8>>, String>) -> Result<
    Option<Fragment>,
    ErrorModel,
> {
    match fetched {
        Err(reason) => Err(ErrorModel::ServiceRequest { reason: reason@ }),
        Ok(None) => Ok(None),
        Ok(Some(payload)) => user_data_of(payload@),
    }
}

/// That the machine was given no user data is no error: the source delivers
/// nothing.
pub proof fn lemma_no_user_data()
    ensures
        user_data_outcome(Ok(None)) == Ok::<Option<Fragment>, ErrorModel>(None),
{
}

/// User data that carry the gzip signature and cannot be inflated are a
/// decompression error that names the user data, whatever else they hold:
/// they are never read as text or markup.
pub proof fn lemma_failed_inflation(payload: Seq<u8>)
    requires
        has_gzip_signature(payload),
        gzip_expansion(payload) is Err,
    ensures
        user_data_of(payload) == Err::<Option<Fragment>, ErrorModel>(
            ErrorModel::Decompression {
                what: USER_DATA_DESC@,
                reason: gzip_expansion(payload)->Err_0,
            },
        ),
{
}

/// The sources of settings on AWS.
pub struct AwsDataProvider;

impl AwsDataProvider {
    /// The region that an identity document names: the string under
    /// `region`.  A document without that field, or with something else than
    /// a string under it, is refused.
    pub fn region_of(document: &JsonValue) -> (outcome: Result<String, Error>)
        ensures
            text_model(outcome) == region_in(document@),
    {
        match document.get(REGION_FIELD) {
            None => Err(Error::MissingField { missing: REGION_FIELD.to_owned() }),
            Some(field) => match field.as_str() {
                None => Err(
                    Error::TypeMismatch {
                        field_name: REGION_FIELD.to_owned(),
                        expected_type: REGION_TYPE.to_owned(),
                    },
                ),
                Some(region) => Ok(region.to_owned()),
            },
        }
    }

    /// Decides which source is asked for the region.  The identity document is
    /// preferred: it costs no round trip and is there when the metadata
    /// service is not.
    pub fn region_source(document_exists: bool) -> (source: RegionSource)
        ensures
            source == source_for(document_exists),
    {
        if document_exists {
            RegionSource::IdentityDocument
        } else {
            RegionSource::MetadataService
        }
    }

    /// The region, from what reading the identity document gave.
    pub fn region_from_document(read: Result<String, String>) -> (outcome: Result<String, Error>)
        ensures
            text_model(outcome) == region_by_document(read),
    {
        match read {
            Err(reason) => Err(
                Error::InputFileRead { path: IDENTITY_DOCUMENT_FILE.to_owned(), reason },
            ),
            Ok(text) => match JsonValue::parse(text.as_str()) {
                Err(reason) => Err(Error::JsonParse { reason }),
                Ok(document) => AwsDataProvider::region_of(&document),
            },
        }
    }

    /// The region, from what asking the metadata service gave.
    pub fn region_from_service(fetched: Result<Option<String>, String>) -> (outcome: Result<
        String,
        Error,
    >)
        ensures
            text_model(outcome) == region_by_service(fetched),
    {
        match fetched {
            Err(reason) => Err(Error::ServiceRequest { reason }),
            Ok(None) => Err(Error::MissingRegion),
            Ok(Some(region)) => Ok(region),
        }
    }

    /// Puts the name of the source, `from`, on the error of a fragment that
    /// could not be made.
    pub fn delivered(made: Result<SettingsJson, settings::Error>, from: &str) -> (outcome: Result<
        Option<SettingsJson>,
        Error,
    >)
        ensures
            provider_model(outcome) == match made {
                Ok(fragment) => Ok::<Option<Fragment>, ErrorModel>(Some(fragment@)),
                Err(e) => Err(ErrorModel::Settings { from: from@, source: e@ }),
            },
    {
        match made {
            Ok(fragment) => Ok(Some(fragment)),
            Err(source) => Err(Error::Settings { from: from.to_owned(), source }),
        }
    }

    /// The fragment that states the region.
    pub fn identity_fragment(region: String) -> (outcome: Result<Option<SettingsJson>, Error>)
        ensures
            provider_model(outcome) == Ok::<Option<Fragment>, ErrorModel>(
                Some(identity_fragment_of(region@)),
            ),
    {
        let path: [&str; 2] = [AWS_KEY, REGION_FIELD];
        proof {
            assert(names(path@) =~= seq![AWS_KEY@, REGION_FIELD@]);
        }
        let made = SettingsJson::from_val(
            JsonValue::String(region),
            path.as_slice(),
            IDENTITY_DESC,
        );
        AwsDataProvider::delivered(made, IDENTITY_DESC)
    }

    /// Fetches the instance identity, returning a fragment of the values of
    /// it that are of use: the region.  `reply` is what came back from the
    /// source that [`AwsDataProvider::region_source`] chose.
    pub fn identity_document(reply: RegionReply) -> (outcome: Result<Option<SettingsJson>, Error>)
        ensures
            provider_model(outcome) == identity_outcome(reply),
    {
        let region = match reply {
            RegionReply::Document(read) => AwsDataProvider::region_from_document(read),
            RegionReply::Service(fetched) => AwsDataProvider::region_from_service(fetched),
        };
        match region {
            Ok(region) => AwsDataProvider::identity_fragment(region),
            Err(e) => Err(e),
        }
    }

    /// The fragment that a payload of user data holds.
    pub fn user_data_from_payload(payload: &[u8]) -> (outcome: Result<Option<SettingsJson>, Error>)
        ensures
            provider_model(outcome) == user_data_of(payload@),
    {
        let bytes = match decompress(payload, USER_DATA_DESC) {
            Ok(bytes) => bytes,
            Err(e) => {
                return Err(Error::Decompression { what: e.what, reason: e.reason });
            },
        };
        let text = match decode_text(bytes, USER_DATA_DESC) {
            Ok(text) => text,
            Err(e) => {
                return Err(Error::Decoding { what: e.what });
            },
        };
        let made = SettingsJson::from_toml_str(text.as_str(), USER_DATA_DESC);
        AwsDataProvider::delivered(made, USER_DATA_FROM)
    }

    /// Fetches user data, which is expected to be in TOML form and contain a
    /// `[settings]` section, returning a fragment of it.  `fetched` is what
    /// asking the metadata service for the user data gave.
    pub fn user_data(fetched: Result<Option<Vec<u8>>, String>) -> (outcome: Result<
        Option<SettingsJson>,
        Error,
    >)
        ensures
            provider_model(outcome) == user_data_outcome(fetched),
    {
        match fetched {
            Err(reason) => Err(Error::ServiceRequest { reason }),
            Ok(None) => Ok(None),
            Ok(Some(payload)) => AwsDataProvider::user_data_from_payload(payload.as_slice()),
        }
    }
}

} // verus!
