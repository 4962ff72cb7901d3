use opad_cargo::cargo::{set_cargo_toml_version, CargoTomlError};
use opad_cargo::error::PackageManagerError;

#[test]
fn it_should_modify_version() {
    let version = format!(
        "{}.{}.{}",
        rand::random::<u16>(),
        rand::random::<u16>(),
        rand::random::<u16>()
    );

    let input = r#"[package]
version = "0.0.0"
edition = "2024"
homepage = "https://github.com/hougesen/opad?tab=readme-ov-file"
authors = ["Mads Hougesen <mads@mhouge.dk>"]
license = "MIT"
repository = "https://github.com/hougesen/opad"
documentation = "https://github.com/hougesen/opad#readme"

[dependencies]
crossterm = "0.29.0"
ignore = "0.4.23"
inquire = "0.7.5"
serde_json = { version = "1.0.140", features = ["preserve_order"] }
tempfile = "3.20.0"
toml_edit = "0.22.26"
"#;

    let new_version_line = format!("[package]\nversion = \"{version}\"");

    let expected_output =
        input.replacen("[package]\nversion = \"0.0.0\"", &new_version_line, 1);

    assert!(expected_output.contains(&new_version_line));

    let (modified, output) =
        set_cargo_toml_version(input.to_string(), &version).expect("it not to raise");

    assert!(modified);

    assert_eq!(output, expected_output);

    // Validate we do not modify file if version is the same
    {
        let (modified, output) =
            set_cargo_toml_version(output, &version).expect("it not to raise");

        assert!(!modified);

        assert_eq!(output, expected_output);
    }
}

#[test]
fn it_should_modify_version_workspace() {
    let version = format!(
        "{}.{}.{}",
        rand::random::<u16>(),
        rand::random::<u16>(),
        rand::random::<u16>()
    );

    let input = r#"[workspace]
members = ["cli"]
resolver = "3"

[workspace.package]
version = "0.0.0"
edition = "2024"
homepage = "https://github.com/hougesen/opad?tab=readme-ov-file"
authors = ["Mads Hougesen <mads@mhouge.dk>"]
license = "MIT"
repository = "https://github.com/hougesen/opad"
documentation = "https://github.com/hougesen/opad#readme"

[workspace.dependencies]
crossterm = "0.29.0"
ignore = "0.4.23"
inquire = "0.7.5"
serde_json = { version = "1.0.140", features = ["preserve_order"] }
tempfile = "3.20.0"
toml_edit = "0.22.26"
"#;

    let new_version_line = format!("[workspace.package]\nversion = \"{version}\"");

    let expected_output = input.replacen(
        "[workspace.package]\nversion = \"0.0.0\"",
        &new_version_line,
        1,
    );

    assert!(expected_output.contains(&new_version_line));

    let (modified, output) =
        set_cargo_toml_version(input.to_string(), &version).expect("it not to raise");

    assert!(modified);

    assert_eq!(output, expected_output);

    // Validate we do not modify file if version is the same
    {
        let (modified, output) =
            set_cargo_toml_version(output, &version).expect("it not to raise");

        assert!(!modified);

        assert_eq!(output, expected_output);
    }
}

#[test]
fn it_should_require_package_field() {
    let input = "";

    let result = set_cargo_toml_version(input.to_string(), "1.23.4")
        .expect_err("it should return an error");

    assert!(matches!(
        result,
        CargoTomlError::MissingPackageField { workspace: false }
    ));

    assert!(
        PackageManagerError::from(result)
            .message()
            .contains("\"package\"")
    );
}

#[test]
fn it_should_require_package_version_field() {
    let input = "[package]";

    let result = set_cargo_toml_version(input.to_string(), "1.23.4")
        .expect_err("it should return an error");

    assert!(matches!(
        result,
        CargoTomlError::MissingPackageVersionField { workspace: false }
    ));

    assert!(
        PackageManagerError::from(result)
            .message()
            .contains("\"package.version\"")
    );
}

#[test]
fn workspace_should_require_package_field() {
    let input = "[workspace]";

    let result = set_cargo_toml_version(input.to_string(), "1.23.4")
        .expect_err("it should return an error");

    assert!(matches!(
        result,
        CargoTomlError::MissingPackageField { workspace: true }
    ));

    assert!(
        PackageManagerError::from(result)
            .message()
            .contains("\"workspace.package\"")
    );
}

#[test]
fn workspace_should_require_package_version_field() {
    let input = "[workspace.package]";

    let result = set_cargo_toml_version(input.to_string(), "1.23.4")
        .expect_err("it should return an error");

    assert!(matches!(
        result,
        CargoTomlError::MissingPackageVersionField { workspace: true }
    ));

    assert!(
        PackageManagerError::from(result)
            .message()
            .contains("\"workspace.package.version\"")
    );
}

#[test]
fn package_should_be_map() {
    let input = "package = \"123\"\n";

    let result = set_cargo_toml_version(input.to_string(), "1.23.4")
        .expect_err("it should return an error");

    assert!(matches!(
        result,
        CargoTomlError::InvalidPackageFieldDataType { workspace: false }
    ));

    assert!(
        PackageManagerError::from(result)
            .message()
            .contains("\"package\"")
    );
}

#[test]
fn package_version_should_be_string() {
    let input = "[package.version]\nkey = \"123\"\n";

    let result = set_cargo_toml_version(input.to_string(), "1.23.4")
        .expect_err("it should return an error");

    assert!(matches!(
        result,
        CargoTomlError::InvalidPackageVersionFieldDataType { workspace: false }
    ));

    assert!(
        PackageManagerError::from(result)
            .message()
            .contains("\"package.version\"")
    );
}

#[test]
fn workspace_should_be_map() {
    let input = "workspace = \"123\"\n";

    let result = set_cargo_toml_version(input.to_string(), "1.23.4")
        .expect_err("it should return an error");

    assert!(matches!(
        result,
        CargoTomlError::InvalidWorkspaceFieldDataType
    ));

    assert!(
        PackageManagerError::from(result)
            .message()
            .contains("\"workspace\"")
    );
}

#[test]
fn workspace_package_should_be_map() {
    let input = "[workspace]\npackage = \"123\"\n";

    let result = set_cargo_toml_version(input.to_string(), "1.23.4")
        .expect_err("it should return an error");

    assert!(matches!(
        result,
        CargoTomlError::InvalidPackageFieldDataType { workspace: true }
    ));

    assert!(
        PackageManagerError::from(result)
            .message()
            .contains("\"workspace.package\"")
    );
}

#[test]
fn workspace_package_version_should_be_string() {
    let input = "[workspace.package.version]\nkey = \"123\"\n";

    let result = set_cargo_toml_version(input.to_string(), "1.23.4")
        .expect_err("it should return an error");

    assert!(matches!(
        result,
        CargoTomlError::InvalidPackageVersionFieldDataType { workspace: true }
    ));

    assert!(
        PackageManagerError::from(result)
            .message()
            .contains("\"workspace.package.version\"")
    );
}
