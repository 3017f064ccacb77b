use minecraft_server_launcher::config::error::{Fault, SetupError};
use minecraft_server_launcher::config::repository::{
    locate, plugin_file, plugin_file_name, plugins_directory, LocalArtifact,
};
use minecraft_server_launcher::config::config_file::ConfigFileData;
use minecraft_server_launcher::config::specifier::{
    build_address, download_address, parse_specifier, vendor, versions_address, wants_plugins,
    ServerSpecifier,
};

fn paper(version: &str, build: &str) -> ServerSpecifier {
    ServerSpecifier {
        vendor: String::from("paper"),
        version: String::from(version),
        build: String::from(build),
    }
}

#[test]
fn specifier_of_three_parts() {
    assert_eq!(parse_specifier("paper-1.19.1-latest"), Ok(paper("1.19.1", "latest")));
    assert_eq!(parse_specifier("paper-1.20.4-17"), Ok(paper("1.20.4", "17")));
}

#[test]
fn specifier_with_an_empty_part_is_malformed() {
    for text in ["paper--latest", "paper--", "paper-1.19.1-", "-1.19.1-latest", "--", "purpur--",
        "vanilla--12", "--latest"]
    {
        assert_eq!(parse_specifier(text), Err(SetupError::MalformedSpecifier), "{}", text);
    }
}

#[test]
fn specifier_of_another_number_of_parts_is_malformed() {
    for text in ["", "paper", "paper-1.19.1", "paper-1.19.1-latest-x", "-", "---", "vanilla",
        "paper 1.19.1 latest", "paper-1.19-pre1-3"]
    {
        assert_eq!(parse_specifier(text), Err(SetupError::MalformedSpecifier), "{}", text);
    }
}

#[test]
fn specifier_of_another_vendor_is_unsupported() {
    for text in ["vanilla-1.19.1-latest", "spigot-1.19.1-12", "Paper-1.19.1-latest",
        "paper -1.19.1-latest", "p-v-b", " -1.19.1-latest"]
    {
        assert_eq!(parse_specifier(text), Err(SetupError::UnsupportedVendor), "{}", text);
    }
}

#[test]
fn vendor_is_the_first_part() {
    assert_eq!(vendor("vanilla-1.19.1-latest"), "vanilla");
    assert_eq!(vendor("paper"), "paper");
    assert_eq!(vendor(""), "");
    assert_eq!(vendor("-x"), "");
}

#[test]
fn every_vendor_but_vanilla_takes_plugins() {
    assert!(!wants_plugins("vanilla"));
    assert!(wants_plugins("paper"));
    assert!(wants_plugins("Vanilla"));
    assert!(wants_plugins(""));
}

#[test]
fn addresses_of_the_service() {
    assert_eq!(
        versions_address("1.19.1"),
        "https://papermc.io/api/v2/projects/paper/versions/1.19.1"
    );
    assert_eq!(
        build_address("1.19.1", "12"),
        "https://papermc.io/api/v2/projects/paper/versions/1.19.1/builds/12"
    );
    assert_eq!(
        download_address("1.19.1", "12", "paper-1.19.1-12.jar"),
        "https://papermc.io/api/v2/projects/paper/versions/1.19.1/builds/12/downloads/paper-1.19.1-12.jar"
    );
}

#[test]
fn artifact_lies_under_the_vendor_in_the_repository() {
    let artifact = locate("/home/steve", &paper("1.19.1", "latest"), "12", "paper-1.19.1-12.jar");
    assert_eq!(
        artifact,
        LocalArtifact {
            repository: String::from("/home/steve/.mcservers/paper"),
            path: String::from("/home/steve/.mcservers/paper/paper-1.19.1-12.jar"),
            url: String::from(
                "https://papermc.io/api/v2/projects/paper/versions/1.19.1/builds/12/downloads/paper-1.19.1-12.jar"
            ),
        }
    );
}

#[test]
fn plugin_files_lie_in_the_plugins_directory() {
    let config = ConfigFileData {
        server_directory_name: String::from("srv"),
        plugins_directory_name: String::from("mods"),
        ..ConfigFileData::default()
    };
    assert_eq!(plugins_directory(&config), "srv/mods");
    assert_eq!(plugin_file(&config, "https://a.example/files/x.jar"), "srv/mods/x.jar");
    assert_eq!(plugin_file(&config, "x.jar"), "srv/mods/x.jar");
}

#[test]
fn plugin_name_is_the_last_segment() {
    assert_eq!(plugin_file_name("https://a.example/files/x.jar"), "x.jar");
    assert_eq!(plugin_file_name("x.jar"), "x.jar");
    assert_eq!(plugin_file_name("https://a.example/files/"), "");
    assert_eq!(plugin_file_name(""), "");
    assert_eq!(
        plugin_file_name(
            "https://github.com/monun/auto-reloader/releases/download/0.0.5/auto-reloader-0.0.5.jar"
        ),
        "auto-reloader-0.0.5.jar"
    );
}

#[test]
fn faults_become_errors() {
    assert_eq!(Fault::Transport.into_error(), SetupError::TransportFailure);
    assert_eq!(Fault::ResponseShape.into_error(), SetupError::ResponseShapeMismatch);
    assert_eq!(Fault::Filesystem.into_error(), SetupError::FilesystemFailure);
}

#[test]
fn every_error_has_its_message() {
    assert_eq!(
        SetupError::MalformedConfiguration.message(),
        "An error has occurred while parsing a configuration value."
    );
    assert_eq!(
        SetupError::MalformedSpecifier.message(),
        "Incorrect server format! Exiting server setup..."
    );
    assert_eq!(
        SetupError::UnsupportedVendor.message(),
        "Unknown server type! Exiting server setup..."
    );
    assert_eq!(
        SetupError::TransportFailure.message(),
        "Couldn't get the response of the GET request! Exiting server setup..."
    );
    assert_eq!(
        SetupError::ResponseShapeMismatch.message(),
        "Failed to parse the string to json! Exiting server setup..."
    );
    assert_eq!(
        SetupError::FilesystemFailure.message(),
        "Couldn't write to the file system! Exiting server setup..."
    );
    assert_eq!(
        SetupError::HomeDirectoryUnresolvable.message(),
        "Couldn't find the home directory! Exiting server setup..."
    );
    assert_eq!(
        SetupError::UnexpectedReply.message(),
        "Got an answer to a request that was not made! Exiting server setup..."
    );
}
