//! The setup of a server, step by step.
//!
//! The setup reads the configuration, writes it back, sees to the server's
//! directory, finds out which build to run and what its file is called,
//! fetches that file unless the local repository has it, and sees to the
//! plugins. Reading, writing and downloading are not done here: each step
//! ends in a [`Request`] to the driver, and the driver's [`Reply`] begins
//! the next.

use crate::config::config_file::{fetch_data, parse, serialize, ConfigFileData, Configuration, defaults};
use crate::config::error::{error_of, Fault, SetupError};
use crate::config::repository::{
    local_artifact, locate, plugin_file, plugin_file_name, plugin_name, plugin_path,
    plugins_directory, plugins_path, Artifact, LocalArtifact,
};
use crate::config::specifier::{
    build_address, build_url, parse_specifier, specifier, takes_plugins, vendor, vendor_of,
    versions_address, versions_url, wants_plugins,
};
use crate::helpers::text::{chars_of, decimal, format_number, same_text, text_of};
use crate::helpers::web_data::{BuildData, VersionData};
use vstd::prelude::*;
use vstd::string::StringExecFns;

verus! {

/// What the driver is asked to do next.
#[derive(Debug, PartialEq, Eq)]
pub enum Request {
    /// Read the text of the file at `path`, if there is such a file.
    ReadText { path: String },
    /// Write `contents` to the file at `path`, in place of what it held.
    WriteText { path: String, contents: String },
    /// Find out whether anything exists at `path`.
    Probe { path: String },
    /// Create the directory at `path`; if `nested`, with those above it.
    CreateDirectory { path: String, nested: bool },
    /// Get the list of builds from `url`.
    ListBuilds { url: String },
    /// Get the description of a build from `url`.
    DescribeBuild { url: String },
    /// Download the server artifact from `url` to the file at `path`.
    Download { url: String, path: String },
    /// Download the plugin called `name` from `url` to the file at `path`;
    /// it is the `position`th of `total`.
    DownloadPlugin { url: String, path: String, name: String, position: usize, total: usize },
    /// Nothing more: the setup has ended, with the path of the server
    /// artifact or with what went wrong.
    Finish(Result<String, SetupError>),
}

/// What the driver answers.
#[derive(Clone, Debug, PartialEq, Eq)]
pub enum Reply {
    /// The text that was read; `None` where there is no such file.
    Text(Option<String>),
    /// Whether the path exists.
    Present(bool),
    /// The file was written, the directory created, the download stored.
    Done,
    /// The list of builds.
    Builds(VersionData),
    /// The description of the build.
    Build(BuildData),
    /// The request failed.
    Failed(Fault),
}

/// Where the setup stands: what it waits for.
#[derive(Clone, Debug, PartialEq, Eq)]
pub enum Stage {
    /// For the text of the configuration file.
    ReadingConfiguration,
    /// For the configuration file to be written.
    WritingConfiguration,
    /// For whether the server's directory exists.
    ProbingServerDirectory,
    /// For the server's directory to be created.
    CreatingServerDirectory,
    /// For the list of builds.
    ListingBuilds,
    /// For the description of the build `build`.
    DescribingBuild { build: String },
    /// For whether the repository directory exists.
    ProbingRepository { artifact: LocalArtifact },
    /// For the repository directory to be created.
    CreatingRepository { artifact: LocalArtifact },
    /// For whether the repository holds the artifact.
    ProbingArtifact { artifact: LocalArtifact },
    /// For the artifact to be downloaded to `jar`.
    FetchingArtifact { jar: String },
    /// For whether the plugins directory exists.
    ProbingPlugins { jar: String },
    /// For the plugins directory to be created.
    CreatingPlugins { jar: String },
    /// For the plugin at `index` of the configured list to be downloaded.
    FetchingPlugin { jar: String, index: usize },
    /// For nothing: the setup has ended.
    Finished,
}

/// A setup under way.
#[derive(Clone, Debug, PartialEq, Eq)]
pub struct Provisioner {
    home: Option<String>,
    config: ConfigFileData,
    stage: Stage,
}

/// A request as plain values.
pub enum RequestView {
    ReadText { path: Seq<char> },
    WriteText { path: Seq<char>, contents: Seq<char> },
    Probe { path: Seq<char> },
    CreateDirectory { path: Seq<char>, nested: bool },
    ListBuilds { url: Seq<char> },
    DescribeBuild { url: Seq<char> },
    Download { url: Seq<char>, path: Seq<char> },
    DownloadPlugin { url: Seq<char>, path: Seq<char>, name: Seq<char>, position: nat, total: nat },
    Finish(Result<Seq<char>, SetupError>),
}

/// A reply as plain values.
pub enum ReplyView {
    Text(Option<Seq<char>>),
    Present(bool),
    Done,
    Builds(Seq<u16>),
    Build(Seq<char>),
    Failed(Fault),
}

/// A stage as plain values.
pub enum StageView {
    ReadingConfiguration,
    WritingConfiguration,
    ProbingServerDirectory,
    CreatingServerDirectory,
    ListingBuilds,
    DescribingBuild { build: Seq<char> },
    ProbingRepository { artifact: Artifact },
    CreatingRepository { artifact: Artifact },
    ProbingArtifact { artifact: Artifact },
    FetchingArtifact { jar: Seq<char> },
    ProbingPlugins { jar: Seq<char> },
    CreatingPlugins { jar: Seq<char> },
    FetchingPlugin { jar: Seq<char>, index: nat },
    Finished,
}

/// A setup under way as plain values: the home directory that was found
/// at its start, the configuration, and the stage.
pub struct ProvisionerState {
    pub home: Option<Seq<char>>,
    pub config: Configuration,
    pub stage: StageView,
}

/// The characters of a text that may be missing.
pub open spec fn text_view(text: Option<String>) -> Option<Seq<char>> {
    match text {
        Some(t) => Some(t@),
        None => None,
    }
}

impl View for Request {
    type V = RequestView;

    open spec fn view(&self) -> RequestView {
        match self {
            Request::ReadText { path } => RequestView::ReadText { path: path@ },
            Request::WriteText { path, contents } => RequestView::WriteText {
                path: path@,
                contents: contents@,
            },
            Request::Probe { path } => RequestView::Probe { path: path@ },
            Request::CreateDirectory { path, nested } => RequestView::CreateDirectory {
                path: path@,
                nested: *nested,
            },
            Request::ListBuilds { url } => RequestView::ListBuilds { url: url@ },
            Request::DescribeBuild { url } => RequestView::DescribeBuild { url: url@ },
            Request::Download { url, path } => RequestView::Download { url: url@, path: path@ },
            Request::DownloadPlugin { url, path, name, position, total } => RequestView::DownloadPlugin {
                url: url@,
                path: path@,
                name: name@,
                position: *position as nat,
                total: *total as nat,
            },
            Request::Finish(outcome) => RequestView::Finish(
                match outcome {
                    Ok(jar) => Ok(jar@),
                    Err(e) => Err(*e),
                },
            ),
        }
    }
}

impl View for Reply {
    type V = ReplyView;

    open spec fn view(&self) -> ReplyView {
        match self {
            Reply::Text(text) => ReplyView::Text(text_view(*text)),
            Reply::Present(present) => ReplyView::Present(*present),
            Reply::Done => ReplyView::Done,
            Reply::Builds(versions) => ReplyView::Builds(versions@),
            Reply::Build(build) => ReplyView::Build(build@),
            Reply::Failed(fault) => ReplyView::Failed(*fault),
        }
    }
}

impl View for Stage {
    type V = StageView;

    open spec fn view(&self) -> StageView {
        match self {
            Stage::ReadingConfiguration => StageView::ReadingConfiguration,
            Stage::WritingConfiguration => StageView::WritingConfiguration,
            Stage::ProbingServerDirectory => StageView::ProbingServerDirectory,
            Stage::CreatingServerDirectory => StageView::CreatingServerDirectory,
            Stage::ListingBuilds => StageView::ListingBuilds,
            Stage::DescribingBuild { build } => StageView::DescribingBuild { build: build@ },
            Stage::ProbingRepository { artifact } => StageView::ProbingRepository {
                artifact: artifact@,
            },
            Stage::CreatingRepository { artifact } => StageView::CreatingRepository {
                artifact: artifact@,
            },
            Stage::ProbingArtifact { artifact } => StageView::ProbingArtifact { artifact: artifact@ },
            Stage::FetchingArtifact { jar } => StageView::FetchingArtifact { jar: jar@ },
            Stage::ProbingPlugins { jar } => StageView::ProbingPlugins { jar: jar@ },
            Stage::CreatingPlugins { jar } => StageView::CreatingPlugins { jar: jar@ },
            Stage::FetchingPlugin { jar, index } => StageView::FetchingPlugin {
                jar: jar@,
                index: *index as nat,
            },
            Stage::Finished => StageView::Finished,
        }
    }
}

impl View for Provisioner {
    type V = ProvisionerState;

    closed spec fn view(&self) -> ProvisionerState {
        ProvisionerState { home: text_view(self.home), config: self.config@, stage: self.stage@ }
    }
}

/// The path of the server artifact, from when the local repository holds
/// it until the setup ends.
pub open spec fn artifact_in_place(stage: StageView) -> Option<Seq<char>> {
    match stage {
        StageView::ProbingPlugins { jar } => Some(jar),
        StageView::CreatingPlugins { jar } => Some(jar),
        StageView::FetchingPlugin { jar, index } => Some(jar),
        _ => None,
    }
}

/// The file that holds the configuration.
pub open spec fn config_path() -> Seq<char> {
    "server.properties"@
}

/// The word that stands for the latest build.
pub open spec fn latest_token() -> Seq<char> {
    "latest"@
}

/// A setup that has not begun: it knows the home directory, if there is
/// one, and waits for the text of the configuration file.
pub open spec fn initial(home: Option<Seq<char>>) -> ProvisionerState {
    ProvisionerState { home, config: defaults(), stage: StageView::ReadingConfiguration }
}

/// The setup ends.
pub open spec fn stopped(
    home: Option<Seq<char>>,
    config: Configuration,
    outcome: Result<Seq<char>, SetupError>,
) -> (ProvisionerState, RequestView) {
    (ProvisionerState { home, config, stage: StageView::Finished }, RequestView::Finish(outcome))
}

/// The setup asks for the description of a build.
pub open spec fn describing(home: Option<Seq<char>>, config: Configuration, build: Seq<char>) -> (
    ProvisionerState,
    RequestView,
) {
    match specifier(config.server) {
        Ok(s) => (
            ProvisionerState { home, config, stage: StageView::DescribingBuild { build } },
            RequestView::DescribeBuild { url: build_url(s.version, build) },
        ),
        Err(e) => stopped(home, config, Err(e)),
    }
}

/// The setup turns to the server specifier: a specifier that cannot be
/// read ends it; the build `latest` has it ask for the list of builds;
/// any other build is taken as it stands.
pub open spec fn resolving(home: Option<Seq<char>>, config: Configuration) -> (
    ProvisionerState,
    RequestView,
) {
    match specifier(config.server) {
        Ok(s) => if s.build == latest_token() {
            (
                ProvisionerState { home, config, stage: StageView::ListingBuilds },
                RequestView::ListBuilds { url: versions_url(s.version) },
            )
        } else {
            describing(home, config, s.build)
        },
        Err(e) => stopped(home, config, Err(e)),
    }
}

/// The setup turns to the local repository, once the build and the name
/// of its file are known: without a home directory it ends; else it asks
/// whether the repository directory exists.
pub open spec fn caching(
    home: Option<Seq<char>>,
    config: Configuration,
    build: Seq<char>,
    file_name: Seq<char>,
) -> (ProvisionerState, RequestView) {
    match specifier(config.server) {
        Ok(s) => match home {
            Some(h) => {
                let artifact = local_artifact(h, s, build, file_name);
                (
                    ProvisionerState { home, config, stage: StageView::ProbingRepository { artifact } },
                    RequestView::Probe { path: artifact.repository },
                )
            },
            None => stopped(home, config, Err(SetupError::HomeDirectoryUnresolvable)),
        },
        Err(e) => stopped(home, config, Err(e)),
    }
}

/// The setup turns to the plugins, once the artifact lies at `jar`: a
/// server that takes none is ready; else it asks whether the plugins
/// directory exists.
pub open spec fn providing(home: Option<Seq<char>>, config: Configuration, jar: Seq<char>) -> (
    ProvisionerState,
    RequestView,
) {
    if takes_plugins(vendor_of(config.server)) {
        (
            ProvisionerState { home, config, stage: StageView::ProbingPlugins { jar } },
            RequestView::Probe { path: plugins_path(config) },
        )
    } else {
        stopped(home, config, Ok(jar))
    }
}

/// The setup asks for the plugin at `index` of the configured list, or is
/// ready where the list has no such item.
pub open spec fn fetching(
    home: Option<Seq<char>>,
    config: Configuration,
    jar: Seq<char>,
    index: nat,
) -> (ProvisionerState, RequestView) {
    if index < config.default_plugins.len() {
        let url = config.default_plugins[index as int];
        (
            ProvisionerState { home, config, stage: StageView::FetchingPlugin { jar, index } },
            RequestView::DownloadPlugin {
                url,
                path: plugin_path(config, url),
                name: plugin_name(url),
                position: index + 1,
                total: config.default_plugins.len(),
            },
        )
    } else {
        stopped(home, config, Ok(jar))
    }
}

/// One step of the setup: the state after the reply and the next request.
///
/// A fault of the driver ends the setup with the error that stands for
/// it. A reply that the stage does not wait for, and any reply after the
/// end, ends it with `UnexpectedReply`.
pub open spec fn step(s: ProvisionerState, reply: ReplyView) -> (ProvisionerState, RequestView) {
    let home = s.home;
    let config = s.config;
    match (s.stage, reply) {
        (StageView::Finished, _) => stopped(home, config, Err(SetupError::UnexpectedReply)),
        (_, ReplyView::Failed(fault)) => stopped(home, config, Err(error_of(fault))),
        (StageView::ReadingConfiguration, ReplyView::Text(text)) => {
            let raw = match text {
                Some(t) => t,
                None => Seq::empty(),
            };
            match parse(raw) {
                Some(read) => (
                    ProvisionerState { home, config: read, stage: StageView::WritingConfiguration },
                    RequestView::WriteText { path: config_path(), contents: serialize(read) },
                ),
                None => stopped(home, config, Err(SetupError::MalformedConfiguration)),
            }
        },
        (StageView::WritingConfiguration, ReplyView::Done) => (
            ProvisionerState { home, config, stage: StageView::ProbingServerDirectory },
            RequestView::Probe { path: config.server_directory_name },
        ),
        (StageView::ProbingServerDirectory, ReplyView::Present(present)) => if present {
            resolving(home, config)
        } else {
            (
                ProvisionerState { home, config, stage: StageView::CreatingServerDirectory },
                RequestView::CreateDirectory { path: config.server_directory_name, nested: false },
            )
        },
        (StageView::CreatingServerDirectory, ReplyView::Done) => resolving(home, config),
        (StageView::ListingBuilds, ReplyView::Builds(builds)) => if builds.len() == 0 {
            stopped(home, config, Err(SetupError::ResponseShapeMismatch))
        } else {
            describing(home, config, decimal(builds.last() as nat))
        },
        (StageView::DescribingBuild { build }, ReplyView::Build(file_name)) => caching(
            home,
            config,
            build,
            file_name,
        ),
        (StageView::ProbingRepository { artifact }, ReplyView::Present(present)) => if present {
            (
                ProvisionerState { home, config, stage: StageView::ProbingArtifact { artifact } },
                RequestView::Probe { path: artifact.path },
            )
        } else {
            (
                ProvisionerState { home, config, stage: StageView::CreatingRepository { artifact } },
                RequestView::CreateDirectory { path: artifact.repository, nested: true },
            )
        },
        (StageView::CreatingRepository { artifact }, ReplyView::Done) => (
            ProvisionerState { home, config, stage: StageView::ProbingArtifact { artifact } },
            RequestView::Probe { path: artifact.path },
        ),
        (StageView::ProbingArtifact { artifact }, ReplyView::Present(present)) => if present {
            providing(home, config, artifact.path)
        } else {
            (
                ProvisionerState {
                    home,
                    config,
                    stage: StageView::FetchingArtifact { jar: artifact.path },
                },
                RequestView::Download { url: artifact.url, path: artifact.path },
            )
        },
        (StageView::FetchingArtifact { jar }, ReplyView::Done) => providing(home, config, jar),
        (StageView::ProbingPlugins { jar }, ReplyView::Present(present)) => if present {
            fetching(home, config, jar, 0)
        } else {
            (
                ProvisionerState { home, config, stage: StageView::CreatingPlugins { jar } },
                RequestView::CreateDirectory { path: plugins_path(config), nested: false },
            )
        },
        (StageView::CreatingPlugins { jar }, ReplyView::Done) => fetching(home, config, jar, 0),
        (StageView::FetchingPlugin { jar, index }, ReplyView::Done) => fetching(
            home,
            config,
            jar,
            index + 1,
        ),
        _ => stopped(home, config, Err(SetupError::UnexpectedReply)),
    }
}

/// Asks the system for the user's home directory, through
/// `home::home_dir`. Which directory comes back, and whether any does,
/// depends on the environment of the process, so nothing is claimed of
/// it. A path that is not valid UTF-8 counts as none.
#[verifier::external_body]
fn home_directory() -> (r: Option<String>) {
    match home::home_dir() {
        Some(path) => path.into_os_string().into_string().ok(),
        None => None,
    }
}

/// Ends the setup.
fn stop(home: Option<String>, config: ConfigFileData, outcome: Result<String, SetupError>) -> (r: (
    Provisioner,
    Request,
))
    ensures
        step_result(r) == stopped(
            text_view(home),
            config@,
            match outcome {
                Ok(jar) => Ok(jar@),
                Err(e) => Err(e),
            },
        ),
{
    (Provisioner { home, config, stage: Stage::Finished }, Request::Finish(outcome))
}

/// Asks for the description of a build.
fn describe(home: Option<String>, config: ConfigFileData, build: String) -> (r: (
    Provisioner,
    Request,
))
    ensures
        step_result(r) == describing(text_view(home), config@, build@),
{
    match parse_specifier(config.server.as_str()) {
        Ok(s) => {
            let url = build_address(s.version.as_str(), build.as_str());
            (
                Provisioner { home, config, stage: Stage::DescribingBuild { build } },
                Request::DescribeBuild { url },
            )
        },
        Err(e) => stop(home, config, Err(e)),
    }
}

/// Turns to the server specifier.
fn resolve(home: Option<String>, config: ConfigFileData) -> (r: (Provisioner, Request))
    ensures
        step_result(r) == resolving(text_view(home), config@),
{
    match parse_specifier(config.server.as_str()) {
        Ok(s) => {
            if same_text(&chars_of(s.build.as_str()), &chars_of("latest")) {
                let url = versions_address(s.version.as_str());
                (Provisioner { home, config, stage: Stage::ListingBuilds }, Request::ListBuilds { url })
            } else {
                describe(home, config, s.build)
            }
        },
        Err(e) => stop(home, config, Err(e)),
    }
}

/// Turns to the local repository.
fn cache(home: Option<String>, config: ConfigFileData, build: String, file_name: &str) -> (r: (
    Provisioner,
    Request,
))
    ensures
        step_result(r) == caching(text_view(home), config@, build@, file_name@),
{
    match parse_specifier(config.server.as_str()) {
        Ok(s) => match &home {
            Some(h) => {
                let artifact = locate(h.as_str(), &s, build.as_str(), file_name);
                let path = artifact.repository.clone();
                (
                    Provisioner { home, config, stage: Stage::ProbingRepository { artifact } },
                    Request::Probe { path },
                )
            },
            None => stop(home, config, Err(SetupError::HomeDirectoryUnresolvable)),
        },
        Err(e) => stop(home, config, Err(e)),
    }
}

/// Turns to the plugins.
fn provide_plugins(home: Option<String>, config: ConfigFileData, jar: String) -> (r: (
    Provisioner,
    Request,
))
    ensures
        step_result(r) == providing(text_view(home), config@, jar@),
{
    if wants_plugins(vendor(config.server.as_str()).as_str()) {
        let path = plugins_directory(&config);
        (Provisioner { home, config, stage: Stage::ProbingPlugins { jar } }, Request::Probe { path })
    } else {
        stop(home, config, Ok(jar))
    }
}

/// Asks for the plugin at `index`, or ends the setup with the artifact.
fn fetch_plugin(home: Option<String>, config: ConfigFileData, jar: String, index: usize) -> (r: (
    Provisioner,
    Request,
))
    ensures
        step_result(r) == fetching(text_view(home), config@, jar@, index as nat),
{
    let total = config.default_plugins.len();
    if index < total {
        let url = config.default_plugins[index].clone();
        let path = plugin_file(&config, url.as_str());
        let name = plugin_file_name(url.as_str());
        (
            Provisioner { home, config, stage: Stage::FetchingPlugin { jar, index } },
            Request::DownloadPlugin { url, path, name, position: index + 1, total },
        )
    } else {
        stop(home, config, Ok(jar))
    }
}

/// A state and a request as plain values.
pub open spec fn step_result(r: (Provisioner, Request)) -> (ProvisionerState, RequestView) {
    (r.0@, r.1@)
}

/// Begins the setup of the server that the configuration file describes.
///
/// The home directory is looked up here, once; the setup that comes back
/// has not done anything else yet, and the request is to read the
/// configuration file.
pub fn setup_server_from_config() -> (r: (Provisioner, Request))
    ensures
        exists|home: Option<Seq<char>>| r.0@ == initial(home),
        r.1@ == (RequestView::ReadText { path: config_path() }),
{
    let r = Provisioner::begin(home_directory());
    r
}

impl Provisioner {
    /// Begins a setup for a user whose home directory is `home`, or who
    /// has none.
    pub fn begin(home: Option<String>) -> (r: (Provisioner, Request))
        ensures
            r.0@ == initial(text_view(home)),
            r.1@ == (RequestView::ReadText { path: config_path() }),
    {
        (
            Provisioner {
                home,
                config: ConfigFileData::default(),
                stage: Stage::ReadingConfiguration,
            },
            Request::ReadText { path: String::from_str("server.properties") },
        )
    }

    /// The configuration: the defaults until the file has been read, then
    /// what the file gave.
    pub fn configuration(&self) -> (r: &ConfigFileData)
        ensures
            r@ == self@.config,
    {
        &self.config
    }

    /// The configuration, once the setup is of no more use.
    pub fn into_configuration(self) -> (r: ConfigFileData)
        ensures
            r@ == self@.config,
    {
        self.config
    }

    /// The path of the server artifact, while the setup sees to the
    /// plugins: the repository holds the artifact by then.
    pub fn artifact(&self) -> (r: Option<&str>)
        ensures
            match r {
                Some(jar) => artifact_in_place(self@.stage) == Some(jar@),
                None => artifact_in_place(self@.stage) is None,
            },
    {
        match &self.stage {
            Stage::ProbingPlugins { jar } => Some(jar.as_str()),
            Stage::CreatingPlugins { jar } => Some(jar.as_str()),
            Stage::FetchingPlugin { jar, index } => Some(jar.as_str()),
            _ => None,
        }
    }

    /// Whether the setup has ended.
    pub fn is_finished(&self) -> (r: bool)
        ensures
            r == (self@.stage is Finished),
    {
        match self.stage {
            Stage::Finished => true,
            _ => false,
        }
    }

    /// Takes the driver's reply to the last request and says what to do
    /// next.
    pub fn advance(self, reply: Reply) -> (r: (Provisioner, Request))
        ensures
            step_result(r) == step(self@, reply@),
    {
        let Provisioner { home, config, stage } = self;
        match (stage, reply) {
            (Stage::Finished, _) => stop(home, config, Err(SetupError::UnexpectedReply)),
            (_, Reply::Failed(fault)) => stop(home, config, Err(fault.into_error())),
            (Stage::ReadingConfiguration, Reply::Text(text)) => {
                let read = match &text {
                    Some(t) => fetch_data(t.as_str()),
                    None => {
                        proof {
                            reveal_strlit("");
                        }
                        assert(""@ =~= Seq::<char>::empty());
                        fetch_data("")
                    },
                };
                match read {
                    Ok(read) => {
                        let contents = read.to_string();
                        (
                            Provisioner { home, config: read, stage: Stage::WritingConfiguration },
                            Request::WriteText {
                                path: String::from_str("server.properties"),
                                contents,
                            },
                        )
                    },
                    Err(_) => stop(home, config, Err(SetupError::MalformedConfiguration)),
                }
            },
            (Stage::WritingConfiguration, Reply::Done) => {
                let path = config.server_directory_name.clone();
                (
                    Provisioner { home, config, stage: Stage::ProbingServerDirectory },
                    Request::Probe { path },
                )
            },
            (Stage::ProbingServerDirectory, Reply::Present(present)) => {
                if present {
                    resolve(home, config)
                } else {
                    let path = config.server_directory_name.clone();
                    (
                        Provisioner { home, config, stage: Stage::CreatingServerDirectory },
                        Request::CreateDirectory { path, nested: false },
                    )
                }
            },
            (Stage::CreatingServerDirectory, Reply::Done) => resolve(home, config),
            (Stage::ListingBuilds, Reply::Builds(versions)) => {
                match versions.latest_build() {
                    Some(latest) => {
                        let digits = format_number(latest as u32);
                        describe(home, config, text_of(&digits))
                    },
                    None => stop(home, config, Err(SetupError::ResponseShapeMismatch)),
                }
            },
            (Stage::DescribingBuild { build }, Reply::Build(described)) => cache(
                home,
                config,
                build,
                described.file_name(),
            ),
            (Stage::ProbingRepository { artifact }, Reply::Present(present)) => {
                if present {
                    let path = artifact.path.clone();
                    (
                        Provisioner { home, config, stage: Stage::ProbingArtifact { artifact } },
                        Request::Probe { path },
                    )
                } else {
                    let path = artifact.repository.clone();
                    (
                        Provisioner { home, config, stage: Stage::CreatingRepository { artifact } },
                        Request::CreateDirectory { path, nested: true },
                    )
                }
            },
            (Stage::CreatingRepository { artifact }, Reply::Done) => {
                let path = artifact.path.clone();
                (
                    Provisioner { home, config, stage: Stage::ProbingArtifact { artifact } },
                    Request::Probe { path },
                )
            },
            (Stage::ProbingArtifact { artifact }, Reply::Present(present)) => {
                if present {
                    provide_plugins(home, config, artifact.path)
                } else {
                    let path = artifact.path.clone();
                    (
                        Provisioner {
                            home,
                            config,
                            stage: Stage::FetchingArtifact { jar: artifact.path },
                        },
                        Request::Download { url: artifact.url, path },
                    )
                }
            },
            (Stage::FetchingArtifact { jar }, Reply::Done) => provide_plugins(home, config, jar),
            (Stage::ProbingPlugins { jar }, Reply::Present(present)) => {
                if present {
                    fetch_plugin(home, config, jar, 0)
                } else {
                    let path = plugins_directory(&config);
                    (
                        Provisioner { home, config, stage: Stage::CreatingPlugins { jar } },
                        Request::CreateDirectory { path, nested: false },
                    )
                }
            },
            (Stage::CreatingPlugins { jar }, Reply::Done) => fetch_plugin(home, config, jar, 0),
            (Stage::FetchingPlugin { jar, index }, Reply::Done) => {
                if index < config.default_plugins.len() {
                    fetch_plugin(home, config, jar, index + 1)
                } else {
                    stop(home, config, Ok(jar))
                }
            },
            (_, _) => stop(home, config, Err(SetupError::UnexpectedReply)),
        }
    }
}

} // verus!
