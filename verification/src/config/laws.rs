//! What holds of every setup, whatever the driver answers.

use crate::config::config::{
    initial, latest_token, providing, resolving, step, stopped, ProvisionerState, ReplyView,
    RequestView, StageView,
};
use crate::config::config_file::Configuration;
use crate::config::repository::{local_artifact, Artifact};
use crate::config::specifier::{specifier, takes_plugins, vendor_of, Specifier};
use crate::helpers::text::lemma_decimal;
use vstd::prelude::*;

verus! {

/// The state of a setup after a run of replies.
pub open spec fn state_after(s: ProvisionerState, replies: Seq<ReplyView>) -> ProvisionerState
    decreases replies.len(),
{
    if replies.len() == 0 {
        s
    } else {
        step(state_after(s, replies.drop_last()), replies.last()).0
    }
}

/// The request that a setup makes after a run of replies, of which there
/// is at least one.
pub open spec fn request_after(s: ProvisionerState, replies: Seq<ReplyView>) -> RequestView {
    step(state_after(s, replies.drop_last()), replies.last()).1
}

/// The stages in which the setup deals with plugins.
pub open spec fn plugin_stage(stage: StageView) -> bool {
    stage is ProbingPlugins || stage is CreatingPlugins || stage is FetchingPlugin
}

/// The requests that are made for the sake of plugins lead to a plugin
/// stage: the probe and the creation of their directory, and their
/// download.
pub open spec fn plugin_step(next: ProvisionerState, request: RequestView) -> bool {
    plugin_stage(next.stage) || request is DownloadPlugin
}

/// A setup deals with plugins only where the configured server takes
/// them.
pub open spec fn settled(s: ProvisionerState) -> bool {
    plugin_stage(s.stage) ==> takes_plugins(vendor_of(s.config.server))
}

/// A step keeps a setup settled, and where the server of the new state
/// takes no plugins the step has nothing to do with plugins.
pub proof fn lemma_step_settled(s: ProvisionerState, reply: ReplyView)
    requires
        settled(s),
    ensures
        settled(step(s, reply).0),
        !takes_plugins(vendor_of(step(s, reply).0.config.server)) ==> !plugin_step(
            step(s, reply).0,
            step(s, reply).1,
        ),
{
}

/// Every state that a setup reaches from its beginning is settled.
pub proof fn lemma_reached_settled(home: Option<Seq<char>>, replies: Seq<ReplyView>)
    ensures
        settled(state_after(initial(home), replies)),
    decreases replies.len(),
{
    if replies.len() > 0 {
        lemma_reached_settled(home, replies.drop_last());
        lemma_step_settled(state_after(initial(home), replies.drop_last()), replies.last());
    }
}

/// With the vendor `vanilla` a setup never deals with plugins: whatever
/// the driver answers and whatever plugins are configured, it neither
/// probes nor creates a plugins directory, and downloads no plugin.
pub proof fn lemma_vanilla_without_plugins(home: Option<Seq<char>>, replies: Seq<ReplyView>)
    requires
        replies.len() > 0,
        vendor_of(state_after(initial(home), replies).config.server) == "vanilla"@,
    ensures
        !plugin_stage(state_after(initial(home), replies).stage),
        !(request_after(initial(home), replies) is DownloadPlugin),
{
    lemma_reached_settled(home, replies.drop_last());
    lemma_step_settled(state_after(initial(home), replies.drop_last()), replies.last());
}

/// A specifier that cannot be read ends the setup with its error as soon
/// as the setup turns to it, before anything is asked of the remote
/// service.
pub proof fn lemma_unreadable_specifier_stops(home: Option<Seq<char>>, config: Configuration)
    ensures
        match specifier(config.server) {
            Ok(_) => true,
            Err(e) => resolving(home, config) == stopped(home, config, Err(e)),
        },
{
}

/// What lies on disk, as far as a setup asks: the paths that exist.
pub type Files = Set<Seq<char>>;

/// How a driver without faults answers a request about the disk, and what
/// lies on disk afterwards: a probe is answered from the disk; what is
/// created or downloaded exists from then on.
pub open spec fn answered(files: Files, request: RequestView) -> (Files, ReplyView) {
    match request {
        RequestView::Probe { path } => (files, ReplyView::Present(files.contains(path))),
        RequestView::CreateDirectory { path, nested } => (files.insert(path), ReplyView::Done),
        RequestView::Download { url, path } => (files.insert(path), ReplyView::Done),
        _ => (files, ReplyView::Done),
    }
}

/// The stages in which the setup deals with the local repository.
pub open spec fn repository_stage(stage: StageView) -> bool {
    stage is ProbingRepository || stage is CreatingRepository || stage is ProbingArtifact
        || stage is FetchingArtifact
}

/// How a setup leaves the local repository.
pub struct Ensured {
    /// The state in which it goes on.
    pub state: ProvisionerState,
    /// The request with which it goes on.
    pub request: RequestView,
    /// What lies on disk then.
    pub files: Files,
    /// How many times it had the artifact downloaded.
    pub downloads: nat,
}

/// A setup that deals with the local repository, driven without faults
/// against `files` until it turns to something else, for `limit` steps at
/// most.
pub open spec fn ensure_local(
    state: ProvisionerState,
    request: RequestView,
    files: Files,
    limit: nat,
) -> Ensured
    decreases limit,
{
    if limit == 0 || !repository_stage(state.stage) {
        Ensured { state, request, files, downloads: 0 }
    } else {
        let (after, reply) = answered(files, request);
        let (next, asked) = step(state, reply);
        let rest = ensure_local(next, asked, after, (limit - 1) as nat);
        Ensured {
            downloads: rest.downloads + if request is Download {
                1nat
            } else {
                0nat
            },
            ..rest
        }
    }
}

/// The setup as it turns to the local repository for an artifact.
pub open spec fn at_repository(home: Option<Seq<char>>, config: Configuration, artifact: Artifact) -> (
    ProvisionerState,
    RequestView,
) {
    (
        ProvisionerState { home, config, stage: StageView::ProbingRepository { artifact } },
        RequestView::Probe { path: artifact.repository },
    )
}

/// The artifact is downloaded only if the repository lacks it: once if
/// its file does not exist, never if it does. Either way the file exists
/// afterwards and the setup goes on with its path. So of two setups for
/// the same file name, one after the other on the same disk, the second
/// downloads nothing.
pub proof fn lemma_second_setup_hits(
    home: Option<Seq<char>>,
    config: Configuration,
    base: Seq<char>,
    server: Specifier,
    build: Seq<char>,
    file_name: Seq<char>,
    files: Files,
)
    ensures
        ({
            let artifact = local_artifact(base, server, build, file_name);
            let (state, request) = at_repository(home, config, artifact);
            let first = ensure_local(state, request, files, 4);
            let second = ensure_local(state, request, first.files, 4);
            &&& first.downloads == if files.contains(artifact.path) {
                0nat
            } else {
                1nat
            }
            &&& first.files.contains(artifact.path)
            &&& (first.state, first.request) == providing(home, config, artifact.path)
            &&& second.downloads == 0
            &&& second.files == first.files
            &&& (second.state, second.request) == providing(home, config, artifact.path)
        }),
{
    reveal_strlit("/");
    reveal_with_fuel(ensure_local, 5);
    let artifact = local_artifact(base, server, build, file_name);
    let (state, request) = at_repository(home, config, artifact);
    let first = ensure_local(state, request, files, 4);
    assert(artifact.path != artifact.repository) by {
        assert(artifact.path.len() > artifact.repository.len());
    }
    assert(first.files.contains(artifact.path));
}

/// The build whose description a setup waits for is never the word that
/// stands for the latest: that word has been replaced by a number.
pub open spec fn concrete(s: ProvisionerState) -> bool {
    match s.stage {
        StageView::DescribingBuild { build } => build != latest_token(),
        _ => true,
    }
}

/// Whatever state a step starts from, the build it asks about is a
/// concrete one.
pub proof fn lemma_step_concrete(s: ProvisionerState, reply: ReplyView)
    ensures
        concrete(step(s, reply).0),
{
    reveal_strlit("latest");
    match reply {
        ReplyView::Builds(builds) => {
            if builds.len() > 0 {
                lemma_decimal(builds.last() as nat);
            }
        },
        _ => {},
    }
}

/// How far a stage is from the end, counted in stages.
pub open spec fn rank(stage: StageView) -> nat {
    match stage {
        StageView::ReadingConfiguration => 13,
        StageView::WritingConfiguration => 12,
        StageView::ProbingServerDirectory => 11,
        StageView::CreatingServerDirectory => 10,
        StageView::ListingBuilds => 9,
        StageView::DescribingBuild { build } => 8,
        StageView::ProbingRepository { artifact } => 7,
        StageView::CreatingRepository { artifact } => 6,
        StageView::ProbingArtifact { artifact } => 5,
        StageView::FetchingArtifact { jar } => 4,
        StageView::ProbingPlugins { jar } => 3,
        StageView::CreatingPlugins { jar } => 2,
        StageView::FetchingPlugin { jar, index } => 1,
        StageView::Finished => 0,
    }
}

/// How many plugins a setup that downloads plugins has not got yet.
pub open spec fn plugins_left(s: ProvisionerState) -> nat {
    match s.stage {
        StageView::FetchingPlugin { jar, index } => if index < s.config.default_plugins.len() {
            (s.config.default_plugins.len() - index) as nat
        } else {
            0
        },
        _ => 0,
    }
}

/// Every step brings a setup nearer to its end: to a later stage, or to
/// the next plugin. So a driver that answers every request is done after
/// thirteen steps and one more for each plugin, at most.
pub proof fn lemma_step_progress(s: ProvisionerState, reply: ReplyView)
    requires
        !(s.stage is Finished),
    ensures
        ({
            let next = step(s, reply).0;
            rank(next.stage) < rank(s.stage) || (rank(next.stage) == rank(s.stage) && plugins_left(
                next,
            ) < plugins_left(s))
        }),
{
}

} // verus!
