use vstd::prelude::*;
use vstd::string::*;

use crate::platform::{package_of, Platform};
use crate::version::{canonical_of, VersionSpec};

verus! {

/// File name of a version's binary on a platform: `Engine_v<canonical>_<suffix>`.
pub open spec fn binary_name_of(canonical: Seq<char>, p: Platform) -> Seq<char> {
    "Engine_v"@ + canonical + "_"@ + package_of(p)
}

/// File name of the archive that packages that binary.
pub open spec fn archive_name_of(canonical: Seq<char>, p: Platform) -> Seq<char> {
    binary_name_of(canonical, p) + ".zip"@
}

/// `<base>/engines/<canonical>/`: a version's directory under a base directory.
pub open spec fn version_dir_of(base: Seq<char>, canonical: Seq<char>) -> Seq<char> {
    base + "/engines/"@ + canonical + "/"@
}

/// Name of the self-contained-mode marker file.
pub open spec fn marker_name() -> Seq<char> {
    "_sc_"@
}

/// The two base directories of the store: extracted installs and cached archives.
pub struct StoreLayout {
    pub data_dir: String,
    pub cache_dir: String,
}

/// Every path the store uses for one version on one platform.
pub struct InstallPaths {
    /// Tag of the release in the remote index.
    pub tag: String,
    /// Name of the release asset, which is also the cached archive's file name.
    pub asset_name: String,
    /// `<data>/engines/<canonical>/`
    pub root_dir: String,
    /// `<data>/engines/<canonical>/<binary name>`
    pub binary_path: String,
    /// `<data>/engines/<canonical>/_sc_`
    pub marker_path: String,
    /// `<cache>/engines/<canonical>/`
    pub cache_dir: String,
    /// `<cache>/engines/<canonical>/<binary name>.zip`
    pub archive_path: String,
}

/// The paths of `InstallPaths` as text.
pub struct PathsView {
    pub tag: Seq<char>,
    pub asset_name: Seq<char>,
    pub root_dir: Seq<char>,
    pub binary_path: Seq<char>,
    pub marker_path: Seq<char>,
    pub cache_dir: Seq<char>,
    pub archive_path: Seq<char>,
}

impl View for InstallPaths {
    type V = PathsView;

    open spec fn view(&self) -> PathsView {
        PathsView {
            tag: self.tag@,
            asset_name: self.asset_name@,
            root_dir: self.root_dir@,
            binary_path: self.binary_path@,
            marker_path: self.marker_path@,
            cache_dir: self.cache_dir@,
            archive_path: self.archive_path@,
        }
    }
}

/// The paths of a canonical identifier on a platform under two base directories.
pub open spec fn paths_of(data: Seq<char>, cache: Seq<char>, canonical: Seq<char>, p: Platform) -> PathsView {
    PathsView {
        tag: canonical,
        asset_name: archive_name_of(canonical, p),
        root_dir: version_dir_of(data, canonical),
        binary_path: version_dir_of(data, canonical) + binary_name_of(canonical, p),
        marker_path: version_dir_of(data, canonical) + marker_name(),
        cache_dir: version_dir_of(cache, canonical),
        archive_path: version_dir_of(cache, canonical) + archive_name_of(canonical, p),
    }
}

/// `base/engines/<canonical>/`
fn version_dir(base: &String, canonical: &str) -> (r: String)
    ensures
        r@ == version_dir_of(base@, canonical@),
{
    let mut s = base.clone();
    s.append("/engines/");
    s.append(canonical);
    s.append("/");
    s
}

/// The binary's file name for a canonical identifier on a platform.
pub fn binary_name(canonical: &str, p: Platform) -> (r: String)
    ensures
        r@ == binary_name_of(canonical@, p),
{
    let mut s = String::from_str("Engine_v");
    s.append(canonical);
    s.append("_");
    s.append(p.to_package());
    s
}

/// The archive's file name for a canonical identifier on a platform.
pub fn archive_name(canonical: &str, p: Platform) -> (r: String)
    ensures
        r@ == archive_name_of(canonical@, p),
{
    binary_name(canonical, p).concat(".zip")
}

impl StoreLayout {
    /// A layout over a data directory and a cache directory.
    pub fn new(data_dir: String, cache_dir: String) -> (r: StoreLayout)
        ensures
            r.data_dir@ == data_dir@,
            r.cache_dir@ == cache_dir@,
    {
        StoreLayout { data_dir, cache_dir }
    }

    /// All paths of an already canonical identifier; used as well for the
    /// directories found under `engines/`, whose names are canonical.
    pub fn paths_for_tag(&self, canonical: &str, p: Platform) -> (r: InstallPaths)
        ensures
            r@ == paths_of(self.data_dir@, self.cache_dir@, canonical@, p),
    {
        let root_dir = version_dir(&self.data_dir, canonical);
        let cache_dir = version_dir(&self.cache_dir, canonical);
        let bin = binary_name(canonical, p);
        let asset_name = archive_name(canonical, p);
        let binary_path = root_dir.clone().concat(bin.as_str());
        let marker_path = root_dir.clone().concat("_sc_");
        let archive_path = cache_dir.clone().concat(asset_name.as_str());
        InstallPaths {
            tag: String::from_str(canonical),
            asset_name,
            root_dir,
            binary_path,
            marker_path,
            cache_dir,
            archive_path,
        }
    }

    /// All paths of a version on a platform.
    pub fn paths(&self, v: &VersionSpec, p: Platform) -> (r: InstallPaths)
        ensures
            r@ == paths_of(self.data_dir@, self.cache_dir@, canonical_of(v@), p),
    {
        self.paths_for_tag(v.canonical(), p)
    }

    /// `<data>/engines/<canonical>/`, the directory that uninstalling removes.
    pub fn installed_root_dir(&self, v: &VersionSpec) -> (r: String)
        ensures
            r@ == version_dir_of(self.data_dir@, canonical_of(v@)),
    {
        version_dir(&self.data_dir, v.canonical())
    }

    /// `<data>/engines/<canonical>/<binary name>`, the file that launching runs.
    pub fn installed_binary_path(&self, v: &VersionSpec, p: Platform) -> (r: String)
        ensures
            r@ == version_dir_of(self.data_dir@, canonical_of(v@)) + binary_name_of(canonical_of(v@), p),
    {
        let dir = version_dir(&self.data_dir, v.canonical());
        let bin = binary_name(v.canonical(), p);
        dir.concat(bin.as_str())
    }

    /// `<cache>/engines/<canonical>/<binary name>.zip`, the cached archive.
    pub fn cached_archive_path(&self, v: &VersionSpec, p: Platform) -> (r: String)
        ensures
            r@ == version_dir_of(self.cache_dir@, canonical_of(v@)) + archive_name_of(canonical_of(v@), p),
    {
        let dir = version_dir(&self.cache_dir, v.canonical());
        let name = archive_name(v.canonical(), p);
        dir.concat(name.as_str())
    }

    /// `<cache>/engines/<canonical>/`, the directory that removing a version
    /// from the cache deletes.
    pub fn cached_version_dir(&self, v: &VersionSpec) -> (r: String)
        ensures
            r@ == version_dir_of(self.cache_dir@, canonical_of(v@)),
    {
        version_dir(&self.cache_dir, v.canonical())
    }
}

/// Paths depend on the base directories, the requested text and the platform
/// alone: two layouts over the same directories give two requests with the
/// same text the same paths.
pub proof fn paths_are_stable(l1: StoreLayout, l2: StoreLayout, v1: VersionSpec, v2: VersionSpec, p: Platform)
    requires
        l1.data_dir@ == l2.data_dir@,
        l1.cache_dir@ == l2.cache_dir@,
        v1@ == v2@,
    ensures
        paths_of(l1.data_dir@, l1.cache_dir@, canonical_of(v1@), p)
            == paths_of(l2.data_dir@, l2.cache_dir@, canonical_of(v2@), p),
{
}

} // verus!
