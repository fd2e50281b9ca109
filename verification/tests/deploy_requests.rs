use sparklane::archive::ArchiveError;
use sparklane::config::{Config, APP_PORT};
use sparklane::deploy::{
    assemble_config, deploy, read_metadata, status_of, DeployError, STATUS_ACCEPTED,
    STATUS_REFUSED,
};
use sparklane::layout::is_valid_instance_id;
use sparklane::metadata::Metadata;
use sparklane::pipeline::ProvisionError;
use sparklane::plan::Stage;
use std::io::{Cursor, Write};
use zip::write::SimpleFileOptions;
use zip::ZipWriter;

const ID: &str = "123e4567-e89b-12d3-a456-426614174000";

fn text(s: &str) -> Option<String> {
    Some(s.to_string())
}

fn one_file_archive() -> Vec<u8> {
    let mut writer = ZipWriter::new(Cursor::new(Vec::new()));
    writer.start_file("app.py", SimpleFileOptions::default()).unwrap();
    writer.write_all(b"print('hi')\n").unwrap();
    writer.finish().unwrap().into_inner()
}

#[test]
fn assemble_config_with_all_parts() {
    let config = assemble_config(
        ID.to_string(),
        text("quick-fox"),
        Some(vec!["echo hi".to_string()]),
        text("python app.py"),
    );
    assert_eq!(
        config,
        Ok(Config {
            id: ID.to_string(),
            sub: "quick-fox".to_string(),
            port: 8080,
            build_commands: vec!["echo hi".to_string()],
            run_command: "python app.py".to_string(),
        })
    );
    assert_eq!(APP_PORT, 8080);
}

#[test]
fn assemble_config_accepts_an_empty_build_list() {
    let config = assemble_config(ID.to_string(), text("s"), Some(Vec::new()), text("r")).unwrap();
    assert!(config.build_commands.is_empty());
}

#[test]
fn assemble_config_names_what_is_missing_first() {
    let id = || ID.to_string();
    let build = || Some(vec!["b".to_string()]);
    assert_eq!(
        assemble_config(id(), None, build(), text("r")),
        Err(DeployError::IdentifierUnavailable)
    );
    assert_eq!(
        assemble_config(id(), None, None, None),
        Err(DeployError::IdentifierUnavailable)
    );
    assert_eq!(
        assemble_config(id(), text("s"), None, text("r")),
        Err(DeployError::NoBuildCommand)
    );
    assert_eq!(assemble_config(id(), text("s"), None, None), Err(DeployError::NoBuildCommand));
    assert_eq!(
        assemble_config(id(), text("s"), build(), None),
        Err(DeployError::NoRunCommand)
    );
}

#[test]
fn deploy_accepts_a_complete_request() {
    let metadata = Metadata::decode(br#"{"build": ["echo hi"], "run": "python app.py"}"#);
    let deployment = deploy(&one_file_archive(), metadata, text("quick-fox"), false).unwrap();
    assert_eq!(deployment.config.run_command, "python app.py");
    assert_eq!(deployment.config.build_commands, vec!["echo hi".to_string()]);
    assert_eq!(deployment.config.sub, "quick-fox");
    assert_eq!(deployment.config.port, 8080);
    assert!(is_valid_instance_id(&deployment.config.id));
    assert!(deployment.config.is_well_formed());
    assert_eq!(deployment.files, vec![("app.py".to_string(), b"print('hi')\n".to_vec())]);
    assert_eq!(status_of(&Ok(())), 200);
}

#[test]
fn deploy_gives_every_request_an_id_of_its_own() {
    let metadata = Metadata::decode(br#"{"build": [], "run": "r"}"#);
    let first = deploy(&one_file_archive(), metadata.clone(), text("a"), false).unwrap();
    let second = deploy(&one_file_archive(), metadata, text("a"), false).unwrap();
    assert_ne!(first.config.id, second.config.id);
    assert_eq!(first.config.id.len(), 36);
    assert_eq!(first.config.id.as_bytes()[14], b'4');
}

#[test]
fn deploy_without_a_run_command_is_refused() {
    let metadata = Metadata::decode(br#"{"build": ["echo hi"]}"#);
    let error = deploy(&one_file_archive(), metadata, text("quick-fox"), false).unwrap_err();
    assert_eq!(error, DeployError::NoRunCommand);
    assert_eq!(error.message(), "No run command in config.");
    assert_eq!(status_of(&Err(error)), 400);
}

#[test]
fn deploy_without_build_commands_is_refused() {
    let metadata = Metadata::decode(br#"{"run": "python app.py"}"#);
    let error = deploy(&one_file_archive(), metadata, text("quick-fox"), false).unwrap_err();
    assert_eq!(error, DeployError::NoBuildCommand);
    assert_eq!(error.message(), "No build command in config.");
}

#[test]
fn deploy_without_metadata_is_refused_for_its_build_commands() {
    let error = deploy(&one_file_archive(), None, text("quick-fox"), false).unwrap_err();
    assert_eq!(error, DeployError::NoBuildCommand);
}

#[test]
fn deploy_of_a_broken_archive_is_refused_first() {
    let complete = Metadata::decode(br#"{"build": ["echo hi"], "run": "python app.py"}"#);
    let error = deploy(b"not a zip", complete, text("quick-fox"), false).unwrap_err();
    assert_eq!(error, DeployError::Archive);
    assert_eq!(error.message(), "Couldn't process your code files, please try again later.");
    assert_eq!(status_of(&Err(error)), 400);
    assert_eq!(deploy(b"not a zip", None, None, false).unwrap_err(), DeployError::Archive);
    assert_eq!(deploy(b"", None, None, true).unwrap_err(), DeployError::Archive);
}

#[test]
fn deploy_without_a_subdomain_is_refused() {
    let metadata = Metadata::decode(br#"{"build": ["echo hi"], "run": "python app.py"}"#);
    let error = deploy(&one_file_archive(), metadata, None, false).unwrap_err();
    assert_eq!(error, DeployError::IdentifierUnavailable);
    assert_eq!(
        error.message(),
        "Your project identifier was taken and we couldn't generate a new one, please try again later."
    );
    let nothing = Metadata::decode(b"{}");
    assert_eq!(
        deploy(&one_file_archive(), nothing, None, false).unwrap_err(),
        DeployError::IdentifierUnavailable
    );
}

#[test]
fn deploy_prefers_the_requested_subdomain_when_it_is_free() {
    let metadata =
        Metadata::decode(br#"{"project": "my-shop", "build": ["b"], "run": "r"}"#);
    let free = deploy(&one_file_archive(), metadata.clone(), text("quick-fox"), false).unwrap();
    assert_eq!(free.config.sub, "my-shop");
    let taken = deploy(&one_file_archive(), metadata.clone(), text("quick-fox"), true).unwrap();
    assert_eq!(taken.config.sub, "quick-fox");
    let rescued = deploy(&one_file_archive(), metadata.clone(), None, false).unwrap();
    assert_eq!(rescued.config.sub, "my-shop");
    assert_eq!(
        deploy(&one_file_archive(), metadata, None, true).unwrap_err(),
        DeployError::IdentifierUnavailable
    );
}

#[test]
fn every_error_has_its_message() {
    assert_eq!(
        DeployError::Upload.message(),
        "Error with file upload. Please try again later"
    );
    assert_eq!(
        DeployError::Metadata.message(),
        "Couldn't read your project metadata, please try again later."
    );
    assert_eq!(
        DeployError::Provision(ProvisionError::AlreadyExists).message(),
        "Instance already exists."
    );
    assert_eq!(
        DeployError::Provision(ProvisionError::Failed(Stage::RecordPersist)).message(),
        "Database operation failed during instance creation."
    );
    assert_eq!(
        DeployError::Provision(ProvisionError::Failed(Stage::HypervisorLaunch)).message(),
        "Hypervisor failed to start for this instance."
    );
    for stage in [
        Stage::RootImage,
        Stage::Mount,
        Stage::CodePlacement,
        Stage::BootScript,
        Stage::BootConfig,
        Stage::NetworkAttach,
    ] {
        assert_eq!(
            DeployError::Provision(ProvisionError::Failed(stage)).message(),
            "Couldn't provision your instance, please try again later."
        );
    }
}

#[test]
fn only_registry_failures_are_retryable() {
    assert!(DeployError::Provision(ProvisionError::Failed(Stage::RecordPersist)).is_retryable());
    assert!(!DeployError::Provision(ProvisionError::Failed(Stage::Mount)).is_retryable());
    assert!(!DeployError::Provision(ProvisionError::AlreadyExists).is_retryable());
    assert!(!DeployError::Archive.is_retryable());
    assert!(!DeployError::NoRunCommand.is_retryable());
}

#[test]
fn every_refusal_has_status_400() {
    assert_eq!(STATUS_ACCEPTED, 200);
    assert_eq!(STATUS_REFUSED, 400);
    for error in [
        DeployError::Upload,
        DeployError::Metadata,
        DeployError::Archive,
        DeployError::IdentifierUnavailable,
        DeployError::NoBuildCommand,
        DeployError::NoRunCommand,
        DeployError::Provision(ProvisionError::AlreadyExists),
        DeployError::Provision(ProvisionError::Failed(Stage::Mount)),
    ] {
        assert_eq!(status_of(&Err(error)), 400);
    }
}

#[test]
fn archive_errors_are_told_apart() {
    assert_ne!(ArchiveError::NotAnArchive, ArchiveError::UnreadableEntry { index: 0 });
}

#[test]
fn metadata_that_is_no_json_refuses_the_request() {
    assert_eq!(read_metadata(b"{oops"), Err(DeployError::Metadata));
    assert_eq!(read_metadata(b""), Err(DeployError::Metadata));
    assert_eq!(
        read_metadata(br#"{"run": "python app.py"}"#),
        Ok(Metadata {
            name: "Sparklane Cloud Project".to_string(),
            project: None,
            build: None,
            run: Some("python app.py".to_string()),
        })
    );
}
