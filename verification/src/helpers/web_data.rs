//! What the remote service answers, as far as the resolution reads it.

use vstd::prelude::*;

verus! {

/// The answer of the version endpoint: the builds of one game version, in
/// the order of the service, the latest last.
#[derive(Clone, Debug, PartialEq, Eq)]
pub struct VersionData {
    pub builds: Vec<u16>,
}

/// The answer of the build endpoint.
#[derive(Clone, Debug, PartialEq, Eq)]
pub struct BuildData {
    pub downloads: DownloadsData,
}

/// The downloads of a build.
#[derive(Clone, Debug, PartialEq, Eq)]
pub struct DownloadsData {
    pub application: Application,
}

/// The server artifact of a build.
#[derive(Clone, Debug, PartialEq, Eq)]
pub struct Application {
    pub name: String,
}

impl View for VersionData {
    type V = Seq<u16>;

    open spec fn view(&self) -> Seq<u16> {
        self.builds@
    }
}

impl View for Application {
    type V = Seq<char>;

    open spec fn view(&self) -> Seq<char> {
        self.name@
    }
}

impl View for DownloadsData {
    type V = Seq<char>;

    open spec fn view(&self) -> Seq<char> {
        self.application@
    }
}

impl View for BuildData {
    type V = Seq<char>;

    open spec fn view(&self) -> Seq<char> {
        self.downloads@
    }
}

/// The latest of the builds: the last of the list, if it has one.
pub open spec fn latest(builds: Seq<u16>) -> Option<u16> {
    if builds.len() == 0 {
        None
    } else {
        Some(builds.last())
    }
}

impl VersionData {
    /// The latest build of the version. The service lists builds in rising
    /// order, so it is the last; an empty list has none.
    pub fn latest_build(&self) -> (r: Option<u16>)
        ensures
            r == latest(self@),
    {
        let n = self.builds.len();
        if n == 0 {
            None
        } else {
            Some(self.builds[n - 1])
        }
    }
}

impl BuildData {
    /// The file name under which the service offers the build.
    pub fn file_name(&self) -> (r: &str)
        ensures
            r@ == self@,
    {
        self.downloads.application.name.as_str()
    }
}

} // verus!
