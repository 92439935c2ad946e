use vstd::prelude::*;

use crate::layout::{InstallPaths, PathsView};

verus! {

/// Why an install did not complete.
#[derive(Clone, Copy, Debug, PartialEq, Eq, Structural)]
pub enum InstallError {
    /// The release index has no release with the canonical tag.
    VersionNotFound,
    /// The release exists but has no asset for this platform.
    PlatformUnsupported,
    /// The download failed.
    TransportFailure,
    /// A filesystem read, write or extraction failed.
    IoFailure,
}

/// One downloadable file of a release.
#[derive(Debug)]
pub struct ReleaseAsset {
    pub name: String,
    pub url: String,
}

/// A release asset as text.
pub struct AssetView {
    pub name: Seq<char>,
    pub url: Seq<char>,
}

impl View for ReleaseAsset {
    type V = AssetView;

    open spec fn view(&self) -> AssetView {
        AssetView { name: self.name@, url: self.url@ }
    }
}

/// Download URL of the first asset with the given name, if any.
pub open spec fn find_asset(assets: Seq<AssetView>, name: Seq<char>) -> Option<Seq<char>>
    decreases assets.len(),
{
    if assets.len() == 0 {
        None
    } else if assets[0].name == name {
        Some(assets[0].url)
    } else {
        find_asset(assets.drop_first(), name)
    }
}

/// An asset list as text.
pub open spec fn assets_view(assets: Seq<ReleaseAsset>) -> Seq<AssetView> {
    assets.map_values(|a: ReleaseAsset| a@)
}

/// Resolves a release's asset list to the download URL of the asset with the
/// expected name; `PlatformUnsupported` when none has it.
pub fn locate(assets: &Vec<ReleaseAsset>, wanted: &String) -> (r: Result<String, InstallError>)
    ensures
        match find_asset(assets_view(assets@), wanted@) {
            Some(url) => r matches Ok(u) && u@ == url,
            None => r == Err::<String, InstallError>(InstallError::PlatformUnsupported),
        },
{
    let ghost all = assets_view(assets@);
    let mut i: usize = 0;
    proof {
        assert(all.subrange(0, all.len() as int) =~= all);
    }
    while i < assets.len()
        invariant
            i <= assets@.len(),
            all == assets_view(assets@),
            find_asset(all.subrange(i as int, all.len() as int), wanted@) == find_asset(all, wanted@),
        decreases assets.len() - i,
    {
        proof {
            assert(all.subrange(i as int, all.len() as int).drop_first() =~= all.subrange(
                i + 1,
                all.len() as int,
            ));
        }
        if assets[i].name == *wanted {
            return Ok(assets[i].url.clone());
        }
        i = i + 1;
    }
    proof {
        assert(all.subrange(i as int, all.len() as int).len() == 0);
    }
    Err(InstallError::PlatformUnsupported)
}

/// Where the install machine stands.
#[derive(Clone, Copy, Debug, PartialEq, Eq, Structural)]
pub enum Phase {
    Start,
    CheckInstalled,
    Removing,
    CheckCache,
    Locate,
    Fetch,
    Store,
    Extract,
    Finalize,
    Done,
    Failed,
}

/// Where the bytes to extract come from.
#[derive(Clone, Copy, Debug, PartialEq, Eq, Structural)]
pub enum Source {
    /// The cached archive file.
    Cache,
    /// The bytes of the download just made.
    Download,
}

/// How an install ended.
#[derive(Debug)]
pub enum Outcome {
    /// The binary was already there and nothing was done.
    AlreadyInstalled,
    /// The version now stands extracted in this directory.
    Installed(String),
    Failed(InstallError),
}

/// An outcome, with paths as text.
pub enum OutcomeView {
    AlreadyInstalled,
    Installed(Seq<char>),
    Failed(InstallError),
}

/// What the machine asks its driver to do next.
#[derive(Debug)]
pub enum Action {
    /// Tell whether this path is a regular file; answer `Present`.
    CheckBinary(String),
    /// Remove this directory recursively if it exists; answer `Removed`.
    RemoveDir(String),
    /// Tell whether this archive file exists; answer `Present`.
    CheckArchive(String),
    /// Look up the release with this tag in the index; answer `Release`.
    QueryRelease(String),
    /// Fetch this URL into memory; answer `Downloaded`.
    Download(String),
    /// Create `dir` and write the downloaded bytes to `path`; answer `Stored`.
    SaveArchive { dir: String, path: String },
    /// Unpack the archive into `dest`; answer `Extracted`.
    Extract { source: Source, archive: String, dest: String },
    /// Create this empty marker file; answer `MarkerWritten`.
    WriteMarker(String),
    /// Report the outcome; the machine takes no more events.
    Finish(Outcome),
}

/// An action, with paths as text.
pub enum ActionView {
    CheckBinary(Seq<char>),
    RemoveDir(Seq<char>),
    CheckArchive(Seq<char>),
    QueryRelease(Seq<char>),
    Download(Seq<char>),
    SaveArchive { dir: Seq<char>, path: Seq<char> },
    Extract { source: Source, archive: Seq<char>, dest: Seq<char> },
    WriteMarker(Seq<char>),
    Finish(OutcomeView),
}

/// What the driver reports back.
#[derive(Debug)]
pub enum Event {
    /// Starts the machine.
    Begin,
    Present(bool),
    /// Whether the removal succeeded (an absent directory counts as success).
    Removed(bool),
    /// The release's assets, or `None` when the index has no such tag.
    Release(Option<Vec<ReleaseAsset>>),
    Downloaded(bool),
    Stored(bool),
    Extracted(bool),
    MarkerWritten(bool),
}

/// An event, with assets as text.
pub enum EventView {
    Begin,
    Present(bool),
    Removed(bool),
    Release(Option<Seq<AssetView>>),
    Downloaded(bool),
    Stored(bool),
    Extracted(bool),
    MarkerWritten(bool),
}

impl View for Outcome {
    type V = OutcomeView;

    open spec fn view(&self) -> OutcomeView {
        match self {
            Outcome::AlreadyInstalled => OutcomeView::AlreadyInstalled,
            Outcome::Installed(d) => OutcomeView::Installed(d@),
            Outcome::Failed(e) => OutcomeView::Failed(*e),
        }
    }
}

impl View for Action {
    type V = ActionView;

    open spec fn view(&self) -> ActionView {
        match self {
            Action::CheckBinary(p) => ActionView::CheckBinary(p@),
            Action::RemoveDir(p) => ActionView::RemoveDir(p@),
            Action::CheckArchive(p) => ActionView::CheckArchive(p@),
            Action::QueryRelease(t) => ActionView::QueryRelease(t@),
            Action::Download(u) => ActionView::Download(u@),
            Action::SaveArchive { dir, path } => ActionView::SaveArchive { dir: dir@, path: path@ },
            Action::Extract { source, archive, dest } => ActionView::Extract {
                source: *source,
                archive: archive@,
                dest: dest@,
            },
            Action::WriteMarker(p) => ActionView::WriteMarker(p@),
            Action::Finish(o) => ActionView::Finish(o@),
        }
    }
}

impl View for Event {
    type V = EventView;

    open spec fn view(&self) -> EventView {
        match self {
            Event::Begin => EventView::Begin,
            Event::Present(b) => EventView::Present(*b),
            Event::Removed(b) => EventView::Removed(*b),
            Event::Release(None) => EventView::Release(None),
            Event::Release(Some(a)) => EventView::Release(Some(assets_view(a@))),
            Event::Downloaded(b) => EventView::Downloaded(*b),
            Event::Stored(b) => EventView::Stored(*b),
            Event::Extracted(b) => EventView::Extracted(*b),
            Event::MarkerWritten(b) => EventView::MarkerWritten(*b),
        }
    }
}

/// Whether the machine, in a phase, takes an event.
pub open spec fn accepts_spec(phase: Phase, ev: EventView) -> bool {
    match phase {
        Phase::Start => ev is Begin,
        Phase::CheckInstalled => ev is Present,
        Phase::Removing => ev is Removed,
        Phase::CheckCache => ev is Present,
        Phase::Locate => ev is Release,
        Phase::Fetch => ev is Downloaded,
        Phase::Store => ev is Stored,
        Phase::Extract => ev is Extracted,
        Phase::Finalize => ev is MarkerWritten,
        Phase::Done | Phase::Failed => false,
    }
}

/// Ending in failure with an error.
pub open spec fn fail(e: InstallError) -> (Phase, ActionView) {
    (Phase::Failed, ActionView::Finish(OutcomeView::Failed(e)))
}

/// The transition table: from a phase and an accepted event to the next phase
/// and the action to perform.
///
/// Without `force`, a binary already present ends the install at once. With
/// it, the install directory is removed first. A cached archive is extracted
/// without any network access; otherwise the release is located, downloaded,
/// saved to the cache, then extracted. Every install that extracts ends by
/// writing the marker. Nothing is written before the release is located.
pub open spec fn next_spec(phase: Phase, force: bool, p: PathsView, ev: EventView) -> (Phase, ActionView) {
    match (phase, ev) {
        (Phase::Start, EventView::Begin) => if force {
            (Phase::Removing, ActionView::RemoveDir(p.root_dir))
        } else {
            (Phase::CheckInstalled, ActionView::CheckBinary(p.binary_path))
        },
        (Phase::CheckInstalled, EventView::Present(b)) => if b {
            (Phase::Done, ActionView::Finish(OutcomeView::AlreadyInstalled))
        } else {
            (Phase::CheckCache, ActionView::CheckArchive(p.archive_path))
        },
        (Phase::Removing, EventView::Removed(ok)) => if ok {
            (Phase::CheckCache, ActionView::CheckArchive(p.archive_path))
        } else {
            fail(InstallError::IoFailure)
        },
        (Phase::CheckCache, EventView::Present(b)) => if b {
            (
                Phase::Extract,
                ActionView::Extract { source: Source::Cache, archive: p.archive_path, dest: p.root_dir },
            )
        } else {
            (Phase::Locate, ActionView::QueryRelease(p.tag))
        },
        (Phase::Locate, EventView::Release(r)) => match r {
            None => fail(InstallError::VersionNotFound),
            Some(assets) => match find_asset(assets, p.asset_name) {
                None => fail(InstallError::PlatformUnsupported),
                Some(url) => (Phase::Fetch, ActionView::Download(url)),
            },
        },
        (Phase::Fetch, EventView::Downloaded(ok)) => if ok {
            (Phase::Store, ActionView::SaveArchive { dir: p.cache_dir, path: p.archive_path })
        } else {
            fail(InstallError::TransportFailure)
        },
        (Phase::Store, EventView::Stored(ok)) => if ok {
            (
                Phase::Extract,
                ActionView::Extract { source: Source::Download, archive: p.archive_path, dest: p.root_dir },
            )
        } else {
            fail(InstallError::IoFailure)
        },
        (Phase::Extract, EventView::Extracted(ok)) => if ok {
            (Phase::Finalize, ActionView::WriteMarker(p.marker_path))
        } else {
            fail(InstallError::IoFailure)
        },
        (Phase::Finalize, EventView::MarkerWritten(ok)) => if ok {
            (Phase::Done, ActionView::Finish(OutcomeView::Installed(p.root_dir)))
        } else {
            fail(InstallError::IoFailure)
        },
        _ => (phase, ActionView::Finish(OutcomeView::Failed(InstallError::IoFailure))),
    }
}

/// The install pipeline of one version on one platform, as a state machine
/// that a driver runs: the driver performs each action and reports the event.
pub struct Installer {
    phase: Phase,
    force: bool,
    paths: InstallPaths,
}

/// The phase of a machine, its force flag and its paths.
pub struct InstallerView {
    pub phase: Phase,
    pub force: bool,
    pub paths: PathsView,
}

impl View for Installer {
    type V = InstallerView;

    closed spec fn view(&self) -> InstallerView {
        InstallerView { phase: self.phase, force: self.force, paths: self.paths@ }
    }
}

impl Installer {
    /// A machine at `Start` over the paths of a version.
    pub fn new(paths: InstallPaths, force: bool) -> (r: Installer)
        ensures
            r@ == (InstallerView { phase: Phase::Start, force, paths: paths@ }),
    {
        Installer { phase: Phase::Start, force, paths }
    }

    /// The phase the machine is in.
    pub fn phase(&self) -> (r: Phase)
        ensures
            r == self@.phase,
    {
        self.phase
    }

    /// Whether the machine takes this event now.
    pub fn accepts(&self, ev: &Event) -> (r: bool)
        ensures
            r == accepts_spec(self@.phase, ev@),
    {
        match (self.phase, ev) {
            (Phase::Start, Event::Begin) => true,
            (Phase::CheckInstalled, Event::Present(_)) => true,
            (Phase::Removing, Event::Removed(_)) => true,
            (Phase::CheckCache, Event::Present(_)) => true,
            (Phase::Locate, Event::Release(_)) => true,
            (Phase::Fetch, Event::Downloaded(_)) => true,
            (Phase::Store, Event::Stored(_)) => true,
            (Phase::Extract, Event::Extracted(_)) => true,
            (Phase::Finalize, Event::MarkerWritten(_)) => true,
            _ => false,
        }
    }

    /// Takes an event and returns the next action, following `next_spec`.
    pub fn step(&mut self, ev: Event) -> (r: Action)
        requires
            accepts_spec(old(self)@.phase, ev@),
        ensures
            final(self)@.force == old(self)@.force,
            final(self)@.paths == old(self)@.paths,
            (final(self)@.phase, r@) == next_spec(old(self)@.phase, old(self)@.force, old(self)@.paths, ev@),
    {
        let (phase, action) = match ev {
            Event::Begin => if self.force {
                (Phase::Removing, Action::RemoveDir(self.paths.root_dir.clone()))
            } else {
                (Phase::CheckInstalled, Action::CheckBinary(self.paths.binary_path.clone()))
            },
            Event::Present(b) => if self.phase == Phase::CheckInstalled {
                if b {
                    (Phase::Done, Action::Finish(Outcome::AlreadyInstalled))
                } else {
                    (Phase::CheckCache, Action::CheckArchive(self.paths.archive_path.clone()))
                }
            } else if b {
                (
                    Phase::Extract,
                    Action::Extract {
                        source: Source::Cache,
                        archive: self.paths.archive_path.clone(),
                        dest: self.paths.root_dir.clone(),
                    },
                )
            } else {
                (Phase::Locate, Action::QueryRelease(self.paths.tag.clone()))
            },
            Event::Removed(ok) => if ok {
                (Phase::CheckCache, Action::CheckArchive(self.paths.archive_path.clone()))
            } else {
                (Phase::Failed, Action::Finish(Outcome::Failed(InstallError::IoFailure)))
            },
            Event::Release(None) => (
                Phase::Failed,
                Action::Finish(Outcome::Failed(InstallError::VersionNotFound)),
            ),
            Event::Release(Some(assets)) => match locate(&assets, &self.paths.asset_name) {
                Ok(url) => (Phase::Fetch, Action::Download(url)),
                Err(e) => (Phase::Failed, Action::Finish(Outcome::Failed(e))),
            },
            Event::Downloaded(ok) => if ok {
                (
                    Phase::Store,
                    Action::SaveArchive {
                        dir: self.paths.cache_dir.clone(),
                        path: self.paths.archive_path.clone(),
                    },
                )
            } else {
                (Phase::Failed, Action::Finish(Outcome::Failed(InstallError::TransportFailure)))
            },
            Event::Stored(ok) => if ok {
                (
                    Phase::Extract,
                    Action::Extract {
                        source: Source::Download,
                        archive: self.paths.archive_path.clone(),
                        dest: self.paths.root_dir.clone(),
                    },
                )
            } else {
                (Phase::Failed, Action::Finish(Outcome::Failed(InstallError::IoFailure)))
            },
            Event::Extracted(ok) => if ok {
                (Phase::Finalize, Action::WriteMarker(self.paths.marker_path.clone()))
            } else {
                (Phase::Failed, Action::Finish(Outcome::Failed(InstallError::IoFailure)))
            },
            Event::MarkerWritten(ok) => if ok {
                (Phase::Done, Action::Finish(Outcome::Installed(self.paths.root_dir.clone())))
            } else {
                (Phase::Failed, Action::Finish(Outcome::Failed(InstallError::IoFailure)))
            },
        };
        self.phase = phase;
        action
    }
}

} // verus!
