use vstd::prelude::*;

use crate::layout::{marker_name, PathsView};
use crate::pipeline::{
    accepts_spec, next_spec, ActionView, InstallError, AssetView, EventView, OutcomeView, Phase, Source,
};

verus! {

/// What the filesystem holds for one version on one platform, and how much
/// work was done on it. Directories and archives are given by the relative
/// paths of the files in them.
pub struct Store {
    /// Files under the install directory; `None` when the directory is absent.
    pub install: Option<Set<Seq<char>>>,
    /// Entries of the cached archive; `None` when it is absent.
    pub cache: Option<Set<Seq<char>>>,
    /// Entries of the archive last downloaded into memory.
    pub pending: Set<Seq<char>>,
    /// Number of downloads made.
    pub fetches: nat,
    /// Number of extractions made.
    pub extractions: nat,
}

/// What the release index holds for the version's tag, and the archive that
/// any of its asset URLs serves.
pub struct Remote {
    pub release: Option<Seq<AssetView>>,
    pub archive: Set<Seq<char>>,
}

/// The store after the install directory has been removed.
pub open spec fn uninstalled(s: Store) -> Store {
    Store { install: None, ..s }
}

/// Whether the binary, named `bin` relative to the install directory, is there.
pub open spec fn binary_present(s: Store, bin: Seq<char>) -> bool {
    s.install matches Some(files) && files.contains(bin)
}

/// The files under the install directory, none when it is absent.
pub open spec fn installed_files(s: Store) -> Set<Seq<char>> {
    match s.install {
        Some(files) => files,
        None => Set::empty(),
    }
}

/// What performing an action does to the store, with every operation
/// succeeding, and the event it reports.
pub open spec fn perform(s: Store, r: Remote, bin: Seq<char>, a: ActionView) -> (Store, EventView) {
    match a {
        ActionView::CheckBinary(_) => (s, EventView::Present(binary_present(s, bin))),
        ActionView::RemoveDir(_) => (uninstalled(s), EventView::Removed(true)),
        ActionView::CheckArchive(_) => (s, EventView::Present(s.cache is Some)),
        ActionView::QueryRelease(_) => (s, EventView::Release(r.release)),
        ActionView::Download(_) => (
            Store { pending: r.archive, fetches: s.fetches + 1, ..s },
            EventView::Downloaded(true),
        ),
        ActionView::SaveArchive { .. } => (Store { cache: Some(s.pending), ..s }, EventView::Stored(true)),
        ActionView::Extract { source, .. } => {
            let entries = match source {
                Source::Cache => s.cache.unwrap(),
                Source::Download => s.pending,
            };
            (
                Store {
                    install: Some(installed_files(s).union(entries)),
                    extractions: s.extractions + 1,
                    ..s
                },
                EventView::Extracted(true),
            )
        },
        ActionView::WriteMarker(_) => (
            Store { install: Some(installed_files(s).insert(marker_name())), ..s },
            EventView::MarkerWritten(true),
        ),
        ActionView::Finish(_) => (s, EventView::Begin),
    }
}

/// Runs the machine from a phase and an event for at most `fuel` steps; the
/// outcome is `None` when it did not finish.
pub open spec fn run(
    phase: Phase,
    force: bool,
    p: PathsView,
    s: Store,
    r: Remote,
    bin: Seq<char>,
    ev: EventView,
    fuel: nat,
) -> (Store, Option<OutcomeView>)
    decreases fuel,
{
    if fuel == 0 || !accepts_spec(phase, ev) {
        (s, None)
    } else {
        let (next_phase, a) = next_spec(phase, force, p, ev);
        match a {
            ActionView::Finish(o) => (s, Some(o)),
            _ => {
                let (s2, ev2) = perform(s, r, bin, a);
                run(next_phase, force, p, s2, r, bin, ev2, (fuel - 1) as nat)
            },
        }
    }
}

/// A whole install: the machine run from `Start` against the store.
pub open spec fn install(p: PathsView, s: Store, r: Remote, bin: Seq<char>, force: bool) -> (Store, Option<OutcomeView>) {
    run(Phase::Start, force, p, s, r, bin, EventView::Begin, 10)
}

/// An archive fit for the version holds its binary.
pub open spec fn holds_binary(s: Store, r: Remote, bin: Seq<char>) -> bool {
    &&& r.archive.contains(bin)
    &&& (s.cache matches Some(c) ==> c.contains(bin))
}

/// Installing twice without force does the work at most once: the second
/// install reports that the version is already installed and leaves the store,
/// its download and extraction counts included, as it was.
pub proof fn install_is_idempotent(p: PathsView, s0: Store, r: Remote, bin: Seq<char>, force: bool)
    requires
        holds_binary(s0, r, bin),
        install(p, s0, r, bin, force).1 == Some(OutcomeView::Installed(p.root_dir)),
    ensures
        install(p, install(p, s0, r, bin, force).0, r, bin, false) == (
            install(p, s0, r, bin, force).0,
            Some(OutcomeView::AlreadyInstalled),
        ),
{
    reveal_with_fuel(run, 11);
}

/// Reinstalling after only the install directory was removed is served from
/// the cache: no download is made, the cached archive stays as it was, and the
/// install directory holds exactly its entries and the marker, the same files
/// as the first install left where that one started from no install
/// directory or was forced.
pub proof fn reinstall_uses_cache(p: PathsView, s0: Store, r: Remote, bin: Seq<char>, force: bool)
    requires
        install(p, s0, r, bin, force).1 == Some(OutcomeView::Installed(p.root_dir)),
    ensures
        ({
            let s1 = install(p, s0, r, bin, force).0;
            let (s3, o3) = install(p, uninstalled(s1), r, bin, false);
            &&& s1.cache is Some
            &&& o3 == Some(OutcomeView::Installed(p.root_dir))
            &&& s3.fetches == s1.fetches
            &&& s3.cache == s1.cache
            &&& s3.install == Some(s1.cache.unwrap().insert(marker_name()))
            &&& (s0.install is None || force) ==> s3.install == s1.install
        }),
{
    reveal_with_fuel(run, 11);
    assert(Set::<Seq<char>>::empty().union(install(p, s0, r, bin, force).0.cache.unwrap())
        =~= install(p, s0, r, bin, force).0.cache.unwrap());
}

/// A forced install removes the previous install directory before extracting:
/// afterwards the directory holds the archive's entries and the marker, and
/// nothing else.
pub proof fn forced_install_leaves_nothing_behind(p: PathsView, s0: Store, r: Remote, bin: Seq<char>)
    requires
        install(p, s0, r, bin, true).1 == Some(OutcomeView::Installed(p.root_dir)),
    ensures
        ({
            let s1 = install(p, s0, r, bin, true).0;
            &&& s1.cache is Some
            &&& s1.install == Some(s1.cache.unwrap().insert(marker_name()))
        }),
{
    reveal_with_fuel(run, 11);
    assert(Set::<Seq<char>>::empty().union(install(p, s0, r, bin, true).0.cache.unwrap())
        =~= install(p, s0, r, bin, true).0.cache.unwrap());
}

/// Uninstalling and installing again, without force, ends in the same
/// installed state and outcome as the single install before it, with no
/// further download.
pub proof fn uninstall_then_install_round_trip(p: PathsView, s0: Store, r: Remote, bin: Seq<char>)
    requires
        s0.install is None,
        install(p, s0, r, bin, false).1 == Some(OutcomeView::Installed(p.root_dir)),
    ensures
        ({
            let s1 = install(p, s0, r, bin, false).0;
            let (s3, o3) = install(p, uninstalled(s1), r, bin, false);
            &&& o3 == install(p, s0, r, bin, false).1
            &&& s3.install == s1.install
            &&& s3.cache == s1.cache
            &&& s3.fetches == s1.fetches
        }),
{
    reveal_with_fuel(run, 11);
    let s1 = install(p, s0, r, bin, false).0;
    assert(Set::<Seq<char>>::empty().union(s1.cache.unwrap()) =~= s1.cache.unwrap());
}

/// When the index has no release with the tag, an install that finds neither
/// the binary nor a cached archive fails with `VersionNotFound` and leaves
/// the store as it was.
pub proof fn missing_release_writes_nothing(p: PathsView, s0: Store, r: Remote, bin: Seq<char>)
    requires
        r.release is None,
        s0.cache is None,
        !binary_present(s0, bin),
    ensures
        install(p, s0, r, bin, false) == (s0, Some(OutcomeView::Failed(InstallError::VersionNotFound))),
{
    reveal_with_fuel(run, 11);
}

} // verus!
