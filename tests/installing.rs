use std::collections::{HashMap, HashSet};

use fyg::layout::StoreLayout;
use fyg::pipeline::{locate, Action, Event, InstallError, Installer, Outcome, ReleaseAsset, Source};
use fyg::platform::Platform;
use fyg::version::VersionSpec;

const BIN: &str = "Engine_v3.5.1-stable_x11.64";
const ASSET: &str = "Engine_v3.5.1-stable_x11.64.zip";
const URL: &str = "https://example.org/Engine_v3.5.1-stable_x11.64.zip";

/// An in-memory filesystem and release index that performs the machine's actions.
struct World {
    files: HashSet<String>,
    archives: HashMap<String, Vec<String>>,
    pending: Vec<String>,
    release: Option<Vec<(String, String)>>,
    served: Vec<String>,
    fetches: usize,
    extractions: usize,
    log: Vec<String>,
}

impl World {
    fn new(release: Option<Vec<(String, String)>>) -> World {
        World {
            files: HashSet::new(),
            archives: HashMap::new(),
            pending: Vec::new(),
            release,
            served: vec![BIN.to_string(), "data.pck".to_string()],
            fetches: 0,
            extractions: 0,
            log: Vec::new(),
        }
    }

    fn with_asset() -> World {
        World::new(Some(vec![
            ("Engine_v3.5.1-stable_win64.exe.zip".to_string(), "https://example.org/w".to_string()),
            (ASSET.to_string(), URL.to_string()),
        ]))
    }

    fn install(&mut self, version: &str, force: bool) -> Outcome {
        let layout = StoreLayout::new("/d".to_string(), "/c".to_string());
        let v = VersionSpec::new(version);
        let mut m = Installer::new(layout.paths(&v, Platform::Linux64), force);
        let mut ev = Event::Begin;
        loop {
            assert!(m.accepts(&ev));
            let a = m.step(ev);
            ev = match a {
                Action::CheckBinary(p) => {
                    self.log.push(format!("check {}", p));
                    Event::Present(self.files.contains(&p))
                }
                Action::RemoveDir(d) => {
                    self.log.push(format!("remove {}", d));
                    self.files.retain(|f| !f.starts_with(&d));
                    Event::Removed(true)
                }
                Action::CheckArchive(p) => {
                    self.log.push(format!("check {}", p));
                    Event::Present(self.archives.contains_key(&p))
                }
                Action::QueryRelease(t) => {
                    self.log.push(format!("query {}", t));
                    Event::Release(self.release.as_ref().map(|assets| {
                        assets
                            .iter()
                            .map(|(n, u)| ReleaseAsset { name: n.clone(), url: u.clone() })
                            .collect()
                    }))
                }
                Action::Download(u) => {
                    self.log.push(format!("download {}", u));
                    self.fetches += 1;
                    self.pending = self.served.clone();
                    Event::Downloaded(true)
                }
                Action::SaveArchive { dir, path } => {
                    self.log.push(format!("save {} {}", dir, path));
                    self.archives.insert(path, self.pending.clone());
                    Event::Stored(true)
                }
                Action::Extract { source, archive, dest } => {
                    self.log.push(format!("extract {}", dest));
                    self.extractions += 1;
                    let entries = match source {
                        Source::Cache => self.archives[&archive].clone(),
                        Source::Download => self.pending.clone(),
                    };
                    for e in entries {
                        self.files.insert(format!("{}{}", dest, e));
                    }
                    Event::Extracted(true)
                }
                Action::WriteMarker(p) => {
                    self.log.push(format!("marker {}", p));
                    self.files.insert(p);
                    Event::MarkerWritten(true)
                }
                Action::Finish(o) => return o,
            };
        }
    }
}

fn installed_at(o: &Outcome) -> Option<String> {
    match o {
        Outcome::Installed(d) => Some(d.clone()),
        _ => None,
    }
}

fn assets(list: &[(&str, &str)]) -> Vec<ReleaseAsset> {
    list.iter().map(|(n, u)| ReleaseAsset { name: n.to_string(), url: u.to_string() }).collect()
}

#[test]
fn locate_picks_first_matching_asset() {
    let a = assets(&[("x.zip", "u1"), (ASSET, "u2"), (ASSET, "u3")]);
    assert_eq!(locate(&a, &ASSET.to_string()).unwrap(), "u2");
}

#[test]
fn locate_without_matching_asset_is_unsupported() {
    let a = assets(&[("x.zip", "u1")]);
    assert!(matches!(locate(&a, &ASSET.to_string()), Err(InstallError::PlatformUnsupported)));
    assert!(matches!(locate(&Vec::new(), &ASSET.to_string()), Err(InstallError::PlatformUnsupported)));
}

#[test]
fn fresh_install_fetches_caches_extracts_and_marks() {
    let mut w = World::with_asset();
    let o = w.install("3.5.1", false);
    assert_eq!(installed_at(&o).unwrap(), "/d/engines/3.5.1-stable/");
    assert_eq!(
        w.log,
        vec![
            format!("check /d/engines/3.5.1-stable/{}", BIN),
            format!("check /c/engines/3.5.1-stable/{}", ASSET),
            "query 3.5.1-stable".to_string(),
            format!("download {}", URL),
            format!("save /c/engines/3.5.1-stable/ /c/engines/3.5.1-stable/{}", ASSET),
            "extract /d/engines/3.5.1-stable/".to_string(),
            "marker /d/engines/3.5.1-stable/_sc_".to_string(),
        ]
    );
    assert!(w.archives.contains_key(&format!("/c/engines/3.5.1-stable/{}", ASSET)));
    assert!(w.files.contains("/d/engines/3.5.1-stable/_sc_"));
    assert!(w.files.contains(&format!("/d/engines/3.5.1-stable/{}", BIN)));
}

#[test]
fn unknown_version_is_not_found_and_writes_nothing() {
    let mut w = World::new(None);
    let o = w.install("9.9.9", false);
    assert!(matches!(o, Outcome::Failed(InstallError::VersionNotFound)));
    assert!(w.files.is_empty());
    assert!(w.archives.is_empty());
    assert_eq!(w.fetches, 0);
    assert_eq!(w.log.last().unwrap(), "query 9.9.9-stable");
}

#[test]
fn release_without_platform_asset_is_unsupported() {
    let mut w = World::new(Some(vec![("other.zip".to_string(), "u".to_string())]));
    let o = w.install("3.5.1", false);
    assert!(matches!(o, Outcome::Failed(InstallError::PlatformUnsupported)));
    assert!(w.files.is_empty());
    assert_eq!(w.fetches, 0);
}

#[test]
fn second_install_is_a_no_op() {
    let mut w = World::with_asset();
    w.install("3.5.1", false);
    let files = w.files.clone();
    let o = w.install("3.5.1", false);
    assert!(matches!(o, Outcome::AlreadyInstalled));
    assert_eq!(w.fetches, 1);
    assert_eq!(w.extractions, 1);
    assert_eq!(w.files, files);
}

#[test]
fn reinstall_after_removing_install_dir_uses_cache() {
    let mut w = World::with_asset();
    w.install("3.5.1", false);
    let files = w.files.clone();
    w.files.clear();
    let o = w.install("3.5.1", false);
    assert_eq!(installed_at(&o).unwrap(), "/d/engines/3.5.1-stable/");
    assert_eq!(w.fetches, 1);
    assert_eq!(w.extractions, 2);
    assert_eq!(w.files, files);
}

#[test]
fn forced_install_removes_old_files() {
    let mut w = World::with_asset();
    w.install("3.5.1", false);
    w.files.insert("/d/engines/3.5.1-stable/leftover.txt".to_string());
    let o = w.install("3.5.1", true);
    assert_eq!(installed_at(&o).unwrap(), "/d/engines/3.5.1-stable/");
    assert!(!w.files.contains("/d/engines/3.5.1-stable/leftover.txt"));
    assert!(w.files.contains("/d/engines/3.5.1-stable/_sc_"));
    assert_eq!(w.fetches, 1);
    assert_eq!(w.log[w.log.len() - 4], "remove /d/engines/3.5.1-stable/");
}

#[test]
fn uninstall_then_install_round_trip() {
    let mut w = World::with_asset();
    let first = w.install("3.5.1", false);
    let files = w.files.clone();
    w.files.retain(|f| !f.starts_with("/d/engines/3.5.1-stable/"));
    let again = w.install("3.5.1", false);
    assert_eq!(installed_at(&first), installed_at(&again));
    assert_eq!(w.files, files);
    assert_eq!(w.fetches, 1);
}

fn run_with(events: Vec<Event>, force: bool) -> Action {
    let layout = StoreLayout::new("/d".to_string(), "/c".to_string());
    let mut m = Installer::new(layout.paths(&VersionSpec::new("3.5.1"), Platform::Linux64), force);
    let mut last = None;
    for ev in events {
        assert!(m.accepts(&ev));
        last = Some(m.step(ev));
    }
    last.unwrap()
}

fn release() -> Event {
    Event::Release(Some(assets(&[(ASSET, URL)])))
}

#[test]
fn failed_download_is_transport_failure() {
    let a = run_with(
        vec![Event::Begin, Event::Present(false), Event::Present(false), release(), Event::Downloaded(false)],
        false,
    );
    assert!(matches!(a, Action::Finish(Outcome::Failed(InstallError::TransportFailure))));
}

#[test]
fn failed_cache_write_is_io_failure() {
    let a = run_with(
        vec![
            Event::Begin,
            Event::Present(false),
            Event::Present(false),
            release(),
            Event::Downloaded(true),
            Event::Stored(false),
        ],
        false,
    );
    assert!(matches!(a, Action::Finish(Outcome::Failed(InstallError::IoFailure))));
}

#[test]
fn failed_removal_is_io_failure() {
    let a = run_with(vec![Event::Begin, Event::Removed(false)], true);
    assert!(matches!(a, Action::Finish(Outcome::Failed(InstallError::IoFailure))));
}

#[test]
fn cache_hit_extracts_from_cache() {
    let a = run_with(vec![Event::Begin, Event::Present(false), Event::Present(true)], false);
    match a {
        Action::Extract { source, archive, dest } => {
            assert_eq!(source, Source::Cache);
            assert_eq!(archive, format!("/c/engines/3.5.1-stable/{}", ASSET));
            assert_eq!(dest, "/d/engines/3.5.1-stable/");
        }
        other => panic!("unexpected action {:?}", other),
    }
}

#[test]
fn machine_refuses_out_of_order_events() {
    let layout = StoreLayout::new("/d".to_string(), "/c".to_string());
    let m = Installer::new(layout.paths(&VersionSpec::new("3.5.1"), Platform::Linux64), false);
    assert!(m.accepts(&Event::Begin));
    assert!(!m.accepts(&Event::Downloaded(true)));
    assert!(!m.accepts(&Event::Present(true)));
}
