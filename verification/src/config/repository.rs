//! Where things lie on disk: the local repository of server artifacts
//! under the home directory, and the plugins of a server.

use crate::config::config_file::{ConfigFileData, Configuration};
use crate::config::specifier::{download_address, download_url, ServerSpecifier, Specifier};
use crate::helpers::text::{chars_of, lemma_split_pieces_clean, split, split_text, text_of};
use vstd::prelude::*;
use vstd::string::StringExecFns;

verus! {

/// A server artifact and its place in the local repository.
#[derive(Clone, Debug, PartialEq, Eq)]
pub struct LocalArtifact {
    /// The directory of the vendor's artifacts.
    pub repository: String,
    /// The file of the artifact in that directory.
    pub path: String,
    /// Where the remote service hands the artifact out.
    pub url: String,
}

/// A local artifact as plain values.
pub struct Artifact {
    pub repository: Seq<char>,
    pub path: Seq<char>,
    pub url: Seq<char>,
}

impl View for LocalArtifact {
    type V = Artifact;

    open spec fn view(&self) -> Artifact {
        Artifact { repository: self.repository@, path: self.path@, url: self.url@ }
    }
}

/// The directory that holds the artifacts of a vendor.
pub open spec fn repository_path(home: Seq<char>, vendor: Seq<char>) -> Seq<char> {
    home + "/.mcservers/"@ + vendor
}

/// The file of an artifact: it is known by its file name alone.
pub open spec fn artifact_path(home: Seq<char>, vendor: Seq<char>, file_name: Seq<char>) -> Seq<
    char,
> {
    repository_path(home, vendor) + "/"@ + file_name
}

/// The artifact of a build and its place under `home`.
pub open spec fn local_artifact(
    home: Seq<char>,
    specifier: Specifier,
    build: Seq<char>,
    file_name: Seq<char>,
) -> Artifact {
    Artifact {
        repository: repository_path(home, specifier.vendor),
        path: artifact_path(home, specifier.vendor, file_name),
        url: download_url(specifier.version, build, file_name),
    }
}

/// The directory of a server's plugins: inside the server's directory.
pub open spec fn plugins_path(c: Configuration) -> Seq<char> {
    c.server_directory_name + "/"@ + c.plugins_directory_name
}

/// The file name of a plugin: what follows the last slash of its address,
/// or the whole address if it has none.
pub open spec fn plugin_name(url: Seq<char>) -> Seq<char> {
    split(url, "/"@).last()
}

/// The file of a plugin in the plugins directory.
pub open spec fn plugin_path(c: Configuration, url: Seq<char>) -> Seq<char> {
    plugins_path(c) + "/"@ + plugin_name(url)
}

/// Places the artifact of a build in the repository under `home`.
pub fn locate(home: &str, specifier: &ServerSpecifier, build: &str, file_name: &str) -> (r:
    LocalArtifact)
    ensures
        r@ == local_artifact(home@, specifier@, build@, file_name@),
{
    let mut repository = String::from_str(home);
    repository.append("/.mcservers/");
    repository.append(specifier.vendor.as_str());
    let mut path = repository.clone();
    path.append("/");
    path.append(file_name);
    let url = download_address(specifier.version.as_str(), build, file_name);
    LocalArtifact { repository, path, url }
}

/// The directory of the plugins of the configured server.
pub fn plugins_directory(config: &ConfigFileData) -> (r: String)
    ensures
        r@ == plugins_path(config@),
{
    let mut r = config.server_directory_name.clone();
    r.append("/");
    r.append(config.plugins_directory_name.as_str());
    r
}

/// The file name of the plugin at `url`.
pub fn plugin_file_name(url: &str) -> (r: String)
    ensures
        r@ == plugin_name(url@),
{
    proof {
        reveal_strlit("/");
        lemma_split_pieces_clean(url@, "/"@);
    }
    let text = chars_of(url);
    let parts = split_text(&text, &chars_of("/"));
    let last = &parts[parts.len() - 1];
    text_of(last)
}

/// The file of the plugin at `url` in the plugins directory of the
/// configured server.
pub fn plugin_file(config: &ConfigFileData, url: &str) -> (r: String)
    ensures
        r@ == plugin_path(config@, url@),
{
    let mut r = plugins_directory(config);
    r.append("/");
    r.append(plugin_file_name(url).as_str());
    r
}

} // verus!
