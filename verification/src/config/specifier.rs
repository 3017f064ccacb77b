//! The server specifier `vendor-version-build`, and where the remote
//! service answers for it.

use crate::config::error::SetupError;
use crate::helpers::text::{
    chars_of, lemma_split_pieces_clean, same_text, split, split_text, text_of,
};
use vstd::prelude::*;
use vstd::string::StringExecFns;

verus! {

/// Which server to run: whose, for which game version, and which build of
/// it; the build may be the word `latest`. None of the three is empty.
#[derive(Clone, Debug, PartialEq, Eq)]
pub struct ServerSpecifier {
    pub vendor: String,
    pub version: String,
    pub build: String,
}

/// A server specifier as plain values.
pub struct Specifier {
    pub vendor: Seq<char>,
    pub version: Seq<char>,
    pub build: Seq<char>,
}

impl View for ServerSpecifier {
    type V = Specifier;

    open spec fn view(&self) -> Specifier {
        Specifier { vendor: self.vendor@, version: self.version@, build: self.build@ }
    }
}

/// The parts of a specifier: what its dashes part.
pub open spec fn components(server: Seq<char>) -> Seq<Seq<char>> {
    split(server, "-"@)
}

/// The vendor that a specifier names: its first part.
pub open spec fn vendor_of(server: Seq<char>) -> Seq<char> {
    components(server)[0]
}

/// The one vendor whose service is known.
pub open spec fn supported(vendor: Seq<char>) -> bool {
    vendor == "paper"@
}

/// Servers of every vendor but `vanilla` take plugins.
pub open spec fn takes_plugins(vendor: Seq<char>) -> bool {
    vendor != "vanilla"@
}

/// The dashes part the text in exactly three, and none of the three parts
/// is empty.
pub open spec fn three_parts(server: Seq<char>) -> bool {
    let parts = components(server);
    parts.len() == 3 && parts[0].len() > 0 && parts[1].len() > 0 && parts[2].len() > 0
}

/// What a specifier stands for: three non-empty parts, of which the first
/// is the supported vendor. The parts are looked at first, the vendor only
/// where there are three and none is empty.
pub open spec fn specifier(server: Seq<char>) -> Result<Specifier, SetupError> {
    let parts = components(server);
    if !three_parts(server) {
        Err(SetupError::MalformedSpecifier)
    } else if !supported(parts[0]) {
        Err(SetupError::UnsupportedVendor)
    } else {
        Ok(Specifier { vendor: parts[0], version: parts[1], build: parts[2] })
    }
}

/// Where the service lists the builds of a game version.
pub open spec fn versions_url(version: Seq<char>) -> Seq<char> {
    "https://papermc.io/api/v2/projects/paper/versions/"@ + version
}

/// Where the service describes one build of a game version.
pub open spec fn build_url(version: Seq<char>, build: Seq<char>) -> Seq<char> {
    versions_url(version) + "/builds/"@ + build
}

/// Where the service hands out the artifact of a build.
pub open spec fn download_url(version: Seq<char>, build: Seq<char>, file_name: Seq<char>) -> Seq<
    char,
> {
    build_url(version, build) + "/downloads/"@ + file_name
}

/// Reads a server specifier.
///
/// A text that its dashes do not part in exactly three, or of which a part
/// is empty, is malformed, whatever else it holds; one of three non-empty
/// parts whose first is not the supported vendor names an unsupported
/// vendor, whatever the other two are.
pub fn parse_specifier(server: &str) -> (r: Result<ServerSpecifier, SetupError>)
    ensures
        match r {
            Ok(s) => specifier(server@) == Ok::<Specifier, SetupError>(s@),
            Err(e) => specifier(server@) == Err::<Specifier, SetupError>(e),
        },
        !three_parts(server@) <==> r == Err::<ServerSpecifier, SetupError>(
            SetupError::MalformedSpecifier,
        ),
        three_parts(server@) && !supported(vendor_of(server@)) <==> r == Err::<
            ServerSpecifier,
            SetupError,
        >(SetupError::UnsupportedVendor),
{
    proof {
        reveal_strlit("-");
    }
    let text = chars_of(server);
    let parts = split_text(&text, &chars_of("-"));
    if parts.len() != 3 || parts[0].len() == 0 || parts[1].len() == 0 || parts[2].len() == 0 {
        return Err(SetupError::MalformedSpecifier);
    }
    if !same_text(&parts[0], &chars_of("paper")) {
        return Err(SetupError::UnsupportedVendor);
    }
    let vendor = text_of(&parts[0]);
    let version = text_of(&parts[1]);
    let build = text_of(&parts[2]);
    Ok(ServerSpecifier { vendor, version, build })
}

/// The vendor that a specifier names, whatever else it holds.
pub fn vendor(server: &str) -> (r: String)
    ensures
        r@ == vendor_of(server@),
{
    proof {
        reveal_strlit("-");
        lemma_split_pieces_clean(server@, "-"@);
    }
    let text = chars_of(server);
    let parts = split_text(&text, &chars_of("-"));
    text_of(&parts[0])
}

/// Whether a server of this vendor takes plugins.
pub fn wants_plugins(vendor: &str) -> (r: bool)
    ensures
        r == takes_plugins(vendor@),
{
    !same_text(&chars_of(vendor), &chars_of("vanilla"))
}

/// The address that lists the builds of a game version.
pub fn versions_address(version: &str) -> (r: String)
    ensures
        r@ == versions_url(version@),
{
    let mut r = String::from_str("https://papermc.io/api/v2/projects/paper/versions/");
    r.append(version);
    r
}

/// The address that describes one build of a game version.
pub fn build_address(version: &str, build: &str) -> (r: String)
    ensures
        r@ == build_url(version@, build@),
{
    let mut r = versions_address(version);
    r.append("/builds/");
    r.append(build);
    r
}

/// The address that hands out the artifact of a build.
pub fn download_address(version: &str, build: &str, file_name: &str) -> (r: String)
    ensures
        r@ == download_url(version@, build@, file_name@),
{
    let mut r = build_address(version, build);
    r.append("/downloads/");
    r.append(file_name);
    r
}

} // verus!
