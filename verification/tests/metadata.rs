use tauri_dev::metadata::{
    get_cargo_metadata, get_target_dir, get_workspace_dir, CargoMetadata, MetadataError,
    MetadataReply,
};

fn document() -> MetadataReply {
    MetadataReply::Document(CargoMetadata {
        target_directory: "/w/target".to_string(),
        workspace_root: "/w".to_string(),
    })
}

#[test]
fn a_document_is_the_metadata() {
    assert_eq!(
        get_cargo_metadata(document()),
        Ok(CargoMetadata {
            target_directory: "/w/target".to_string(),
            workspace_root: "/w".to_string(),
        })
    );
    assert_eq!(get_workspace_dir(document()), Ok("/w".to_string()));
}

#[test]
fn a_query_that_did_not_run_is_fatal() {
    let reply = MetadataReply::Unavailable("No such file or directory".to_string());
    let error = MetadataError::Unavailable("No such file or directory".to_string());
    assert_eq!(get_cargo_metadata(reply.clone()), Err(error.clone()));
    assert_eq!(get_workspace_dir(reply.clone()), Err(error.clone()));
    assert_eq!(get_target_dir(reply, None, true), Err(error.clone()));
    assert_eq!(
        error.message(),
        "failed to get cargo metadata: No such file or directory"
    );
}

#[test]
fn a_failed_query_reports_its_diagnostics() {
    let reply = MetadataReply::Failed { stderr: b"error: could not find `Cargo.toml`\n".to_vec() };
    let error = MetadataError::NonZeroExit("error: could not find `Cargo.toml`\n".to_string());
    assert_eq!(get_workspace_dir(reply), Err(error.clone()));
    assert_eq!(
        error.message(),
        "failed to get cargo metadata: cargo metadata command exited with a non zero exit code: error: could not find `Cargo.toml`\n"
    );
}

#[test]
fn diagnostics_are_decoded_as_utf8() {
    let reply = MetadataReply::Failed { stderr: "schlüssel ✓".as_bytes().to_vec() };
    assert_eq!(
        get_cargo_metadata(reply),
        Err(MetadataError::NonZeroExit("schlüssel ✓".to_string()))
    );
    let reply = MetadataReply::Failed { stderr: Vec::new() };
    assert_eq!(get_cargo_metadata(reply), Err(MetadataError::NonZeroExit(String::new())));
}

#[test]
fn diagnostics_that_are_no_text_are_fatal_too() {
    let reply = MetadataReply::Failed { stderr: vec![b'o', b'k', 0xff, 0xfe] };
    assert_eq!(get_workspace_dir(reply), Err(MetadataError::Undecodable));
    let reply = MetadataReply::Failed { stderr: vec![0xc3] };
    assert_eq!(get_workspace_dir(reply), Err(MetadataError::Undecodable));
    assert_eq!(
        MetadataError::Undecodable.message(),
        "failed to get cargo metadata: the diagnostics of cargo metadata are not valid UTF-8"
    );
}

#[test]
fn malformed_output_is_fatal() {
    let reply = MetadataReply::Malformed("missing field `workspace_root`".to_string());
    let error = MetadataError::Malformed("missing field `workspace_root`".to_string());
    assert_eq!(get_workspace_dir(reply), Err(error.clone()));
    assert_eq!(
        error.message(),
        "failed to get cargo metadata: missing field `workspace_root`"
    );
}

#[test]
fn the_target_directory_ends_in_the_profile() {
    assert_eq!(get_target_dir(document(), None, true), Ok("/w/target/release".to_string()));
    assert_eq!(get_target_dir(document(), None, false), Ok("/w/target/debug".to_string()));
}

#[test]
fn the_target_triple_comes_before_the_profile() {
    assert_eq!(
        get_target_dir(document(), Some("aarch64-apple-darwin"), true),
        Ok("/w/target/aarch64-apple-darwin/release".to_string())
    );
    assert_eq!(
        get_target_dir(document(), Some("x86_64-pc-windows-msvc"), false),
        Ok("/w/target/x86_64-pc-windows-msvc/debug".to_string())
    );
}
