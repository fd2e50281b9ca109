//! A deploy request: from the uploaded parts to a configuration and a code
//! bundle, or to the reason why the request is refused.

use crate::archive::{archive_files, archive_is_readable, bundle_view, extract_zip_to_vec};
use crate::config::{Config, ConfigView, APP_PORT};
use crate::layout::is_instance_id;
use crate::metadata::{json_document, metadata_of, Metadata, MetadataView};
use crate::names::resolve_subdomain;
use crate::pipeline::ProvisionError;
use crate::plan::Stage;
use crate::text::{optional_text, texts_of};
use vstd::prelude::*;

verus! {

/// Why a deploy request is refused.
#[derive(Clone, Copy, Debug, PartialEq, Eq, Structural)]
pub enum DeployError {
    /// The upload itself is malformed.
    Upload,
    /// The metadata part is no JSON document.
    Metadata,
    /// The code archive cannot be decoded.
    Archive,
    /// No subdomain is available for the instance.
    IdentifierUnavailable,
    /// The metadata lists no build commands.
    NoBuildCommand,
    /// The metadata gives no run command.
    NoRunCommand,
    /// Provisioning ended with an error.
    Provision(ProvisionError),
}

/// The text that the caller is shown for an error.
pub open spec fn message_of(error: DeployError) -> Seq<char> {
    match error {
        DeployError::Upload => "Error with file upload. Please try again later"@,
        DeployError::Metadata => "Couldn't read your project metadata, please try again later."@,
        DeployError::Archive => "Couldn't process your code files, please try again later."@,
        DeployError::IdentifierUnavailable =>
            "Your project identifier was taken and we couldn't generate a new one, please try again later."@,
        DeployError::NoBuildCommand => "No build command in config."@,
        DeployError::NoRunCommand => "No run command in config."@,
        DeployError::Provision(ProvisionError::AlreadyExists) => "Instance already exists."@,
        DeployError::Provision(ProvisionError::Failed(Stage::RecordPersist)) =>
            "Database operation failed during instance creation."@,
        DeployError::Provision(ProvisionError::Failed(Stage::HypervisorLaunch)) =>
            "Hypervisor failed to start for this instance."@,
        DeployError::Provision(ProvisionError::Failed(_)) =>
            "Couldn't provision your instance, please try again later."@,
    }
}

/// The HTTP status of a refused request.
pub const STATUS_REFUSED: u16 = 400;

/// The HTTP status of an accepted request.
pub const STATUS_ACCEPTED: u16 = 200;

impl DeployError {
    /// The text that the caller is shown.
    pub fn message(&self) -> (text: String)
        ensures
            text@ == message_of(*self),
    {
        match self {
            DeployError::Upload => String::from_str(
                "Error with file upload. Please try again later",
            ),
            DeployError::Metadata => String::from_str(
                "Couldn't read your project metadata, please try again later.",
            ),
            DeployError::Archive => String::from_str(
                "Couldn't process your code files, please try again later.",
            ),
            DeployError::IdentifierUnavailable => String::from_str(
                "Your project identifier was taken and we couldn't generate a new one, please try again later.",
            ),
            DeployError::NoBuildCommand => String::from_str("No build command in config."),
            DeployError::NoRunCommand => String::from_str("No run command in config."),
            DeployError::Provision(ProvisionError::AlreadyExists) => String::from_str(
                "Instance already exists.",
            ),
            DeployError::Provision(ProvisionError::Failed(Stage::RecordPersist)) => String::from_str(
                "Database operation failed during instance creation.",
            ),
            DeployError::Provision(
                ProvisionError::Failed(Stage::HypervisorLaunch),
            ) => String::from_str("Hypervisor failed to start for this instance."),
            DeployError::Provision(ProvisionError::Failed(_)) => String::from_str(
                "Couldn't provision your instance, please try again later.",
            ),
        }
    }

    /// Whether the caller may simply send the request again: the registry
    /// could not be reached or the transaction did not go through.
    pub fn is_retryable(&self) -> (retryable: bool)
        ensures
            retryable == (*self == DeployError::Provision(
                ProvisionError::Failed(Stage::RecordPersist),
            )),
    {
        match self {
            DeployError::Provision(ProvisionError::Failed(Stage::RecordPersist)) => true,
            _ => false,
        }
    }
}

/// The HTTP status for the end of a request.
pub fn status_of(result: &Result<(), DeployError>) -> (status: u16)
    ensures
        status == if result is Ok {
            STATUS_ACCEPTED
        } else {
            STATUS_REFUSED
        },
{
    match result {
        Ok(_) => STATUS_ACCEPTED,
        Err(_) => STATUS_REFUSED,
    }
}

/// The view of the outcome of reading metadata.
pub open spec fn metadata_result_view(result: Result<Metadata, DeployError>) -> Result<
    MetadataView,
    DeployError,
> {
    match result {
        Ok(m) => Ok(m@),
        Err(e) => Err(e),
    }
}

/// Reads the metadata part of a request, or refuses the request where the
/// part is no JSON document.
pub fn read_metadata(data: &[u8]) -> (result: Result<Metadata, DeployError>)
    ensures
        metadata_result_view(result) == match json_document(data@) {
            Some(doc) => Ok::<_, DeployError>(metadata_of(doc)),
            None => Err(DeployError::Metadata),
        },
{
    match Metadata::decode(data) {
        Some(metadata) => Ok(metadata),
        None => Err(DeployError::Metadata),
    }
}

/// The view of metadata that may be missing.
pub open spec fn optional_metadata_view(metadata: Option<Metadata>) -> Option<MetadataView> {
    match metadata {
        Some(m) => Some(m@),
        None => None,
    }
}

/// The build commands that a request gives, if any.
pub open spec fn build_of(metadata: Option<MetadataView>) -> Option<Seq<Seq<char>>> {
    match metadata {
        Some(m) => m.build,
        None => None,
    }
}

/// The run command that a request gives, if any.
pub open spec fn run_of(metadata: Option<MetadataView>) -> Option<Seq<char>> {
    match metadata {
        Some(m) => m.run,
        None => None,
    }
}

/// The subdomain that a request prefers, if any.
pub open spec fn preferred_of(metadata: Option<MetadataView>) -> Option<Seq<char>> {
    match metadata {
        Some(m) => m.project,
        None => None,
    }
}

/// The view of a list of commands that may be missing.
pub open spec fn optional_commands_view(commands: Option<Vec<String>>) -> Option<Seq<Seq<char>>> {
    match commands {
        Some(list) => Some(texts_of(list@)),
        None => None,
    }
}

/// The first thing that a request lacks: the subdomain, then the build
/// commands, then the run command; `None` where it lacks nothing.
pub open spec fn refusal_of(
    subdomain: Option<Seq<char>>,
    build: Option<Seq<Seq<char>>>,
    run: Option<Seq<char>>,
) -> Option<DeployError> {
    if subdomain is None {
        Some(DeployError::IdentifierUnavailable)
    } else if build is None {
        Some(DeployError::NoBuildCommand)
    } else if run is None {
        Some(DeployError::NoRunCommand)
    } else {
        None
    }
}

/// The configuration for an id, a subdomain, build commands and a run
/// command, or the first thing that is missing.
pub open spec fn config_of(
    id: Seq<char>,
    subdomain: Option<Seq<char>>,
    build: Option<Seq<Seq<char>>>,
    run: Option<Seq<char>>,
) -> Result<ConfigView, DeployError> {
    match refusal_of(subdomain, build, run) {
        Some(error) => Err(error),
        None => Ok(
            ConfigView {
                id,
                sub: subdomain->0,
                port: APP_PORT,
                build_commands: build->0,
                run_command: run->0,
            },
        ),
    }
}

/// The view of the outcome of a configuration assembly.
pub open spec fn config_result_view(result: Result<Config, DeployError>) -> Result<
    ConfigView,
    DeployError,
> {
    match result {
        Ok(cfg) => Ok(cfg@),
        Err(e) => Err(e),
    }
}

/// Assembles the configuration of an instance. Nothing but the arguments is
/// looked at and nothing is changed.
pub fn assemble_config(
    id: String,
    subdomain: Option<String>,
    build: Option<Vec<String>>,
    run: Option<String>,
) -> (result: Result<Config, DeployError>)
    ensures
        config_result_view(result) == config_of(
            id@,
            optional_text(subdomain),
            optional_commands_view(build),
            optional_text(run),
        ),
{
    let sub = match subdomain {
        Some(name) => name,
        None => {
            return Err(DeployError::IdentifierUnavailable);
        },
    };
    let build_commands = match build {
        Some(commands) => commands,
        None => {
            return Err(DeployError::NoBuildCommand);
        },
    };
    let run_command = match run {
        Some(command) => command,
        None => {
            return Err(DeployError::NoRunCommand);
        },
    };
    Ok(Config { id, sub, port: APP_PORT, build_commands, run_command })
}

/// Calls `uuid::Uuid::new_v4` and renders the id with `to_string`. The id is
/// random; whatever it is, its text is the hyphenated lower-case form: 36
/// characters, hexadecimal digits in groups of 8, 4, 4, 4 and 12.
#[verifier::external_body]
fn fresh_instance_id() -> (id: String)
    ensures
        is_instance_id(id@),
{
    uuid::Uuid::new_v4().to_string()
}

/// What a request that is accepted leads to.
#[derive(Clone, Debug, PartialEq, Eq)]
pub struct Deployment {
    /// The configuration of the new instance.
    pub config: Config,
    /// The files of the code bundle.
    pub files: Vec<(String, Vec<u8>)>,
}

/// The subdomain of a request, given the generated one and whether the
/// registry holds the preferred one.
pub open spec fn subdomain_of(
    generated: Option<Seq<char>>,
    metadata: Option<MetadataView>,
    preferred_taken: bool,
) -> Option<Seq<char>> {
    if preferred_of(metadata) is Some && !preferred_taken {
        preferred_of(metadata)
    } else {
        generated
    }
}

/// Turns the parts of a deploy request into a deployment.
///
/// The archive is decoded first: a request whose archive cannot be read is
/// refused before an id is made or anything else is looked at. Then the
/// subdomain, the build commands and the run command are required, in this
/// order. `generated` is the allocator's subdomain; `preferred_taken` says
/// whether the registry holds the subdomain that the metadata prefers. The
/// id of an accepted request is new and has the shape of an instance id.
pub fn deploy(
    archive: &[u8],
    metadata: Option<Metadata>,
    generated: Option<String>,
    preferred_taken: bool,
) -> (result: Result<Deployment, DeployError>)
    ensures
        !archive_is_readable(archive@) ==> result == Err::<Deployment, _>(DeployError::Archive),
        archive_is_readable(archive@) ==> ({
            let meta = optional_metadata_view(metadata);
            let subdomain = subdomain_of(optional_text(generated), meta, preferred_taken);
            match refusal_of(subdomain, build_of(meta), run_of(meta)) {
                Some(error) => result == Err::<Deployment, _>(error),
                None => {
                    &&& result matches Ok(deployment)
                    &&& deployment.config.wf()
                    &&& Ok::<_, DeployError>(deployment.config@) == config_of(
                        deployment.config@.id,
                        subdomain,
                        build_of(meta),
                        run_of(meta),
                    )
                    &&& bundle_view(deployment.files@) == archive_files(archive@)
                },
            }
        }),
{
    let files = match extract_zip_to_vec(archive) {
        Ok(files) => files,
        Err(_) => {
            return Err(DeployError::Archive);
        },
    };
    let (preferred, build, run) = match metadata {
        Some(m) => (m.project, m.build, m.run),
        None => (None, None, None),
    };
    let subdomain = resolve_subdomain(generated, preferred, preferred_taken);
    match assemble_config(fresh_instance_id(), subdomain, build, run) {
        Ok(config) => Ok(Deployment { config, files }),
        Err(error) => Err(error),
    }
}

} // verus!
