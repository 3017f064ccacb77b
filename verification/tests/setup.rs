use minecraft_server_launcher::config::config::{
    setup_server_from_config, Provisioner, Reply, Request,
};
use minecraft_server_launcher::config::config_file::ConfigFileData;
use minecraft_server_launcher::config::error::{Fault, SetupError};
use minecraft_server_launcher::helpers::web_data::{
    Application, BuildData, DownloadsData, VersionData,
};

const DEFAULT_PLUGIN: &str =
    "https://github.com/monun/auto-reloader/releases/download/0.0.5/auto-reloader-0.0.5.jar";

fn builds(list: &[u16]) -> Reply {
    Reply::Builds(VersionData { builds: list.to_vec() })
}

fn build(name: &str) -> Reply {
    Reply::Build(BuildData {
        downloads: DownloadsData { application: Application { name: String::from(name) } },
    })
}

fn probe(path: &str) -> Request {
    Request::Probe { path: String::from(path) }
}

fn create(path: &str, nested: bool) -> Request {
    Request::CreateDirectory { path: String::from(path), nested }
}

fn failure(error: SetupError) -> Request {
    Request::Finish(Err(error))
}

/// A setup that has read `text`, written it back and found the server's
/// directory in place, with the request that follows.
fn configured(home: Option<&str>, text: &str) -> (Provisioner, Request) {
    let (setup, _) = Provisioner::begin(home.map(String::from));
    let (setup, _) = setup.advance(Reply::Text(Some(String::from(text))));
    let (setup, _) = setup.advance(Reply::Done);
    setup.advance(Reply::Present(true))
}

/// A setup that has resolved `paper-1.19.1-12` to `paper-1.19.1-12.jar`
/// and asks whether its repository exists.
fn resolved(text: &str) -> (Provisioner, Request) {
    let (setup, request) = configured(Some("/home/steve"), text);
    assert_eq!(
        request,
        Request::DescribeBuild {
            url: String::from("https://papermc.io/api/v2/projects/paper/versions/1.19.1/builds/12")
        }
    );
    setup.advance(build("paper-1.19.1-12.jar"))
}

#[test]
fn setup_begins_by_reading_the_configuration() {
    let (setup, request) = Provisioner::begin(None);
    assert_eq!(request, Request::ReadText { path: String::from("server.properties") });
    assert!(!setup.is_finished());
    assert_eq!(setup.configuration(), &ConfigFileData::default());
}

#[test]
fn end_to_end_with_an_absent_configuration() {
    let jar = "/home/steve/.mcservers/paper/paper-1.19.1-12.jar";
    let (setup, request) = Provisioner::begin(Some(String::from("/home/steve")));
    assert_eq!(request, Request::ReadText { path: String::from("server.properties") });

    let (setup, request) = setup.advance(Reply::Text(None));
    assert_eq!(
        request,
        Request::WriteText {
            path: String::from("server.properties"),
            contents: ConfigFileData::default().to_string(),
        }
    );
    assert_eq!(setup.configuration(), &ConfigFileData::default());

    let (setup, request) = setup.advance(Reply::Done);
    assert_eq!(request, probe("server"));

    let (setup, request) = setup.advance(Reply::Present(false));
    assert_eq!(request, create("server", false));

    let (setup, request) = setup.advance(Reply::Done);
    assert_eq!(
        request,
        Request::ListBuilds {
            url: String::from("https://papermc.io/api/v2/projects/paper/versions/1.19.1")
        }
    );

    let (setup, request) = setup.advance(builds(&[10, 11, 12]));
    assert_eq!(
        request,
        Request::DescribeBuild {
            url: String::from("https://papermc.io/api/v2/projects/paper/versions/1.19.1/builds/12")
        }
    );

    let (setup, request) = setup.advance(build("paper-1.19.1-12.jar"));
    assert_eq!(request, probe("/home/steve/.mcservers/paper"));

    let (setup, request) = setup.advance(Reply::Present(false));
    assert_eq!(request, create("/home/steve/.mcservers/paper", true));

    let (setup, request) = setup.advance(Reply::Done);
    assert_eq!(request, probe(jar));

    let (setup, request) = setup.advance(Reply::Present(false));
    assert_eq!(
        request,
        Request::Download {
            url: String::from(
                "https://papermc.io/api/v2/projects/paper/versions/1.19.1/builds/12/downloads/paper-1.19.1-12.jar"
            ),
            path: String::from(jar),
        }
    );

    assert_eq!(setup.artifact(), None);

    let (setup, request) = setup.advance(Reply::Done);
    assert_eq!(request, probe("server/plugins"));
    assert_eq!(setup.artifact(), Some(jar));

    let (setup, request) = setup.advance(Reply::Present(false));
    assert_eq!(request, create("server/plugins", false));
    assert_eq!(setup.artifact(), Some(jar));

    let (setup, request) = setup.advance(Reply::Done);
    assert_eq!(
        request,
        Request::DownloadPlugin {
            url: String::from(DEFAULT_PLUGIN),
            path: String::from("server/plugins/auto-reloader-0.0.5.jar"),
            name: String::from("auto-reloader-0.0.5.jar"),
            position: 1,
            total: 1,
        }
    );
    assert!(!setup.is_finished());

    let (setup, request) = setup.advance(Reply::Done);
    assert_eq!(request, Request::Finish(Ok(String::from(jar))));
    assert!(setup.is_finished());
    assert_eq!(setup.artifact(), None);
    assert_eq!(setup.into_configuration(), ConfigFileData::default());
}

#[test]
fn configuration_is_written_back_merged() {
    let (setup, _) = Provisioner::begin(None);
    let (setup, request) = setup.advance(Reply::Text(Some(String::from("memory=+8\nextra=1"))));
    let expected = ConfigFileData { memory: 8, ..ConfigFileData::default() };
    assert_eq!(
        request,
        Request::WriteText {
            path: String::from("server.properties"),
            contents: expected.to_string(),
        }
    );
    assert_eq!(setup.configuration(), &expected);
}

#[test]
fn malformed_configuration_ends_the_setup() {
    let (setup, _) = Provisioner::begin(None);
    let (setup, request) = setup.advance(Reply::Text(Some(String::from("port=http"))));
    assert_eq!(request, failure(SetupError::MalformedConfiguration));
    assert!(setup.is_finished());
}

#[test]
fn existing_server_directory_is_not_created() {
    let (_, request) = configured(Some("/home/steve"), "server_directory_name=srv");
    assert_eq!(
        request,
        Request::ListBuilds {
            url: String::from("https://papermc.io/api/v2/projects/paper/versions/1.19.1")
        }
    );
}

#[test]
fn malformed_specifier_ends_the_setup_before_any_lookup() {
    for server in ["paper", "paper-1.19.1", "paper-1.19.1-latest-extra", "", "paper--latest",
        "paper-1.19.1-", "-1.19.1-latest"]
    {
        let (setup, request) = configured(Some("/home/steve"), &format!("server={}", server));
        assert_eq!(request, failure(SetupError::MalformedSpecifier));
        assert!(setup.is_finished());
    }
}

#[test]
fn unsupported_vendor_ends_the_setup_before_any_lookup() {
    for server in ["spigot-1.19.1-latest", "vanilla-1.19.1-12", "Paper-1.19.1-latest"] {
        let (setup, request) = configured(Some("/home/steve"), &format!("server={}", server));
        assert_eq!(request, failure(SetupError::UnsupportedVendor));
        assert!(setup.is_finished());
    }
}

#[test]
fn vanilla_never_gets_plugins() {
    let text = "server=vanilla-1.19.1-latest\ndefault_plugins=[https://a.example/x.jar]";
    let (setup, _) = Provisioner::begin(Some(String::from("/home/steve")));
    let (mut setup, mut request) = setup.advance(Reply::Text(Some(String::from(text))));
    let answers = [
        Reply::Done,
        Reply::Present(false),
        Reply::Done,
        builds(&[1]),
        build("x.jar"),
        Reply::Present(true),
        Reply::Present(true),
        Reply::Done,
    ];
    for answer in answers {
        assert!(!matches!(request, Request::DownloadPlugin { .. }));
        if let Request::CreateDirectory { path, .. } = &request {
            assert_eq!(path, "server");
        }
        if let Request::Probe { path } = &request {
            assert_eq!(path, "server");
        }
        (setup, request) = setup.advance(answer);
    }
    assert!(matches!(request, Request::Finish(Err(_))));
}

#[test]
fn given_build_is_not_looked_up() {
    let (_, request) = configured(Some("/home/steve"), "server=paper-1.19.1-12");
    assert_eq!(
        request,
        Request::DescribeBuild {
            url: String::from("https://papermc.io/api/v2/projects/paper/versions/1.19.1/builds/12")
        }
    );
}

#[test]
fn latest_build_is_the_last_of_the_list() {
    let (setup, _) = configured(Some("/home/steve"), "");
    let (_, request) = setup.advance(builds(&[7, 300, 5]));
    assert_eq!(
        request,
        Request::DescribeBuild {
            url: String::from("https://papermc.io/api/v2/projects/paper/versions/1.19.1/builds/5")
        }
    );
    let (setup, _) = configured(Some("/home/steve"), "");
    let (_, request) = setup.advance(builds(&[65535]));
    assert_eq!(
        request,
        Request::DescribeBuild {
            url: String::from(
                "https://papermc.io/api/v2/projects/paper/versions/1.19.1/builds/65535"
            )
        }
    );
}

#[test]
fn empty_list_of_builds_is_a_shape_mismatch() {
    let (setup, _) = configured(Some("/home/steve"), "");
    let (setup, request) = setup.advance(builds(&[]));
    assert_eq!(request, failure(SetupError::ResponseShapeMismatch));
    assert!(setup.is_finished());
}

#[test]
fn faults_end_the_setup_at_every_stage() {
    let (setup, _) = Provisioner::begin(None);
    let (_, request) = setup.advance(Reply::Failed(Fault::Filesystem));
    assert_eq!(request, failure(SetupError::FilesystemFailure));

    let (setup, _) = configured(Some("/home/steve"), "");
    let (setup, request) = setup.advance(Reply::Failed(Fault::Transport));
    assert_eq!(request, failure(SetupError::TransportFailure));
    assert!(setup.is_finished());

    let (setup, _) = configured(Some("/home/steve"), "server=paper-1.19.1-12");
    let (_, request) = setup.advance(Reply::Failed(Fault::ResponseShape));
    assert_eq!(request, failure(SetupError::ResponseShapeMismatch));

    let (setup, _) = resolved("server=paper-1.19.1-12");
    let (setup, _) = setup.advance(Reply::Present(false));
    let (_, request) = setup.advance(Reply::Failed(Fault::Filesystem));
    assert_eq!(request, failure(SetupError::FilesystemFailure));
}

#[test]
fn missing_home_directory_ends_the_setup_at_the_repository() {
    let (setup, request) = configured(None, "server=paper-1.19.1-12");
    assert!(matches!(request, Request::DescribeBuild { .. }));
    let (setup, request) = setup.advance(build("paper-1.19.1-12.jar"));
    assert_eq!(request, failure(SetupError::HomeDirectoryUnresolvable));
    assert!(setup.is_finished());
}

#[test]
fn existing_repository_is_not_created() {
    let (setup, request) = resolved("server=paper-1.19.1-12");
    assert_eq!(request, probe("/home/steve/.mcservers/paper"));
    let (_, request) = setup.advance(Reply::Present(true));
    assert_eq!(request, probe("/home/steve/.mcservers/paper/paper-1.19.1-12.jar"));
}

#[test]
fn cached_artifact_is_not_downloaded() {
    let (setup, _) = resolved("server=paper-1.19.1-12");
    let (setup, _) = setup.advance(Reply::Present(true));
    let (setup, request) = setup.advance(Reply::Present(true));
    assert_eq!(request, probe("server/plugins"));
    assert_eq!(setup.artifact(), Some("/home/steve/.mcservers/paper/paper-1.19.1-12.jar"));
}

#[test]
fn second_setup_downloads_nothing() {
    let mut disk: Vec<String> = vec![String::from("server"), String::from("server/plugins")];
    let mut downloads = Vec::new();
    for _ in 0..2 {
        let (mut setup, mut request) = resolved("server=paper-1.19.1-12\ndefault_plugins=[]");
        let jar = loop {
            let reply = match &request {
                Request::Probe { path } => Reply::Present(disk.contains(path)),
                Request::CreateDirectory { path, .. } => {
                    disk.push(path.clone());
                    Reply::Done
                }
                Request::Download { path, url } => {
                    disk.push(path.clone());
                    downloads.push(url.clone());
                    Reply::Done
                }
                Request::DownloadPlugin { .. } => Reply::Done,
                Request::Finish(outcome) => break outcome.clone(),
                other => panic!("{:?}", other),
            };
            (setup, request) = setup.advance(reply);
        };
        assert_eq!(jar, Ok(String::from("/home/steve/.mcservers/paper/paper-1.19.1-12.jar")));
    }
    assert_eq!(
        downloads,
        vec![String::from(
            "https://papermc.io/api/v2/projects/paper/versions/1.19.1/builds/12/downloads/paper-1.19.1-12.jar"
        )]
    );
}

#[test]
fn existing_plugins_directory_is_not_created() {
    let (setup, _) = resolved("server=paper-1.19.1-12");
    let (setup, _) = setup.advance(Reply::Present(true));
    let (setup, _) = setup.advance(Reply::Present(true));
    let (_, request) = setup.advance(Reply::Present(true));
    assert!(matches!(request, Request::DownloadPlugin { position: 1, total: 1, .. }));
}

#[test]
fn plugins_are_downloaded_in_order() {
    let text = "server=paper-1.19.1-12\nserver_directory_name=srv\nplugins_directory_name=mods\n\
default_plugins=[https://a.example/one.jar, https://b.example/dir/two.jar, three.jar]";
    let (setup, _) = resolved(text);
    let (setup, _) = setup.advance(Reply::Present(true));
    let (setup, request) = setup.advance(Reply::Present(true));
    assert_eq!(request, probe("srv/mods"));
    let (setup, request) = setup.advance(Reply::Present(true));
    assert_eq!(
        request,
        Request::DownloadPlugin {
            url: String::from("https://a.example/one.jar"),
            path: String::from("srv/mods/one.jar"),
            name: String::from("one.jar"),
            position: 1,
            total: 3,
        }
    );
    let (setup, request) = setup.advance(Reply::Done);
    assert_eq!(
        request,
        Request::DownloadPlugin {
            url: String::from("https://b.example/dir/two.jar"),
            path: String::from("srv/mods/two.jar"),
            name: String::from("two.jar"),
            position: 2,
            total: 3,
        }
    );
    let (setup, request) = setup.advance(Reply::Done);
    assert_eq!(
        request,
        Request::DownloadPlugin {
            url: String::from("three.jar"),
            path: String::from("srv/mods/three.jar"),
            name: String::from("three.jar"),
            position: 3,
            total: 3,
        }
    );
    let (_, request) = setup.advance(Reply::Done);
    assert_eq!(
        request,
        Request::Finish(Ok(String::from("/home/steve/.mcservers/paper/paper-1.19.1-12.jar")))
    );
}

#[test]
fn failed_plugin_download_ends_the_setup() {
    let text = "server=paper-1.19.1-12\ndefault_plugins=[a/one.jar, a/two.jar]";
    let (setup, _) = resolved(text);
    let (setup, _) = setup.advance(Reply::Present(true));
    let (setup, _) = setup.advance(Reply::Present(true));
    let (setup, request) = setup.advance(Reply::Present(true));
    assert!(matches!(request, Request::DownloadPlugin { position: 1, total: 2, .. }));
    let (setup, request) = setup.advance(Reply::Failed(Fault::Transport));
    assert_eq!(request, failure(SetupError::TransportFailure));
    let (_, request) = setup.advance(Reply::Done);
    assert_eq!(request, failure(SetupError::UnexpectedReply));
}

#[test]
fn unexpected_replies_end_the_setup() {
    let (setup, _) = Provisioner::begin(None);
    let (setup, request) = setup.advance(Reply::Done);
    assert_eq!(request, failure(SetupError::UnexpectedReply));
    assert!(setup.is_finished());
    let (_, request) = setup.advance(Reply::Text(None));
    assert_eq!(request, failure(SetupError::UnexpectedReply));

    let (setup, _) = configured(Some("/home/steve"), "");
    let (_, request) = setup.advance(build("x.jar"));
    assert_eq!(request, failure(SetupError::UnexpectedReply));

    let (setup, _) = resolved("server=paper-1.19.1-12");
    let (_, request) = setup.advance(Reply::Done);
    assert_eq!(request, failure(SetupError::UnexpectedReply));
}

#[test]
fn finished_setup_stays_finished() {
    let (setup, _) = configured(Some("/home/steve"), "server=x");
    assert!(setup.is_finished());
    let (setup, request) = setup.advance(Reply::Failed(Fault::Transport));
    assert_eq!(request, failure(SetupError::UnexpectedReply));
    assert!(setup.is_finished());
}

#[test]
fn setup_uses_the_home_directory_of_the_user() {
    let (setup, request) = setup_server_from_config();
    assert_eq!(request, Request::ReadText { path: String::from("server.properties") });
    let (setup, _) = setup.advance(Reply::Text(Some(String::from("server=paper-1.19.1-12"))));
    let (setup, _) = setup.advance(Reply::Done);
    let (setup, _) = setup.advance(Reply::Present(true));
    let (_, request) = setup.advance(build("paper-1.19.1-12.jar"));
    match home::home_dir().and_then(|path| path.to_str().map(String::from)) {
        Some(home) => assert_eq!(request, probe(&format!("{}/.mcservers/paper", home))),
        None => assert_eq!(request, failure(SetupError::HomeDirectoryUnresolvable)),
    }
}

#[test]
fn setup_ends_within_thirteen_steps_and_one_for_each_plugin() {
    let text = "server=paper-1.19.1-latest\ndefault_plugins=[a.jar, b.jar, c.jar]";
    let (mut setup, mut request) = Provisioner::begin(Some(String::from("/home/steve")));
    let mut steps = 0;
    while !setup.is_finished() {
        let reply = match &request {
            Request::ReadText { .. } => Reply::Text(Some(String::from(text))),
            Request::Probe { .. } => Reply::Present(false),
            Request::ListBuilds { .. } => builds(&[1, 2]),
            Request::DescribeBuild { .. } => build("paper-1.19.1-2.jar"),
            _ => Reply::Done,
        };
        (setup, request) = setup.advance(reply);
        steps += 1;
        assert!(steps <= 13 + 3);
    }
    assert_eq!(steps, 15);
    assert_eq!(
        request,
        Request::Finish(Ok(String::from("/home/steve/.mcservers/paper/paper-1.19.1-2.jar")))
    );
}
