use gc_roots::path::push_path;
use gc_roots::roots::{
    Action, AddRoot, AddRootError, CollectorEnv, Event, IoError, IoErrorKind, Roots, Stage,
};
use std::collections::HashMap;

#[derive(Clone, Debug, PartialEq)]
enum Node {
    File,
    Dir,
    Link(String),
}

#[derive(Debug)]
enum Ended {
    Finished(Result<String, AddRootError>),
    Aborted(String),
}

/// A filesystem held in memory, keyed by full path.
#[derive(Clone, Debug, PartialEq)]
struct MemFs {
    entries: HashMap<String, Node>,
}

fn fail(kind: IoErrorKind) -> IoError {
    IoError { kind, message: String::from("simulated") }
}

impl MemFs {
    fn with_dirs(dirs: &[&str]) -> MemFs {
        let mut entries = HashMap::new();
        for d in dirs {
            entries.insert(d.to_string(), Node::Dir);
        }
        MemFs { entries }
    }

    fn parent_is_dir(&self, p: &str) -> bool {
        match p.rsplit_once('/') {
            Some((q, _)) => self.resolves_to_dir(if q.is_empty() { "/" } else { q }),
            None => true,
        }
    }

    fn resolves_to_dir(&self, p: &str) -> bool {
        matches!(self.resolve(p), Ok(Some(Node::Dir)))
    }

    fn resolve(&self, p: &str) -> Result<Option<Node>, ()> {
        let mut cur = p.to_string();
        for _ in 0..=40 {
            match self.entries.get(&cur) {
                None => return Ok(None),
                Some(Node::Link(t)) => cur = t.clone(),
                Some(n) => return Ok(Some(n.clone())),
            }
        }
        Err(())
    }

    /// Performs `a`: its outcome, or how the registration ended.
    fn perform(&mut self, a: Action) -> Result<Event, Ended> {
        match a {
            Action::RemoveFile(p) => Ok(Event::Removed(match self.entries.get(&p) {
                None => Err(fail(IoErrorKind::NotFound)),
                Some(Node::Dir) => Err(fail(IoErrorKind::IsADirectory)),
                Some(_) => {
                    self.entries.remove(&p);
                    Ok(())
                }
            })),
            Action::Symlink { src, dest } => Ok(Event::Linked(if self.entries.contains_key(&dest) {
                Err(fail(IoErrorKind::AlreadyExists))
            } else if !self.parent_is_dir(&dest) {
                Err(fail(IoErrorKind::NotFound))
            } else {
                self.entries.insert(dest, Node::Link(src));
                Ok(())
            })),
            Action::Inspect(p) => Ok(Event::Inspected(match self.resolve(&p) {
                Ok(None) => Err(fail(IoErrorKind::NotFound)),
                Ok(Some(n)) => Ok(n == Node::Dir),
                Err(()) => Err(fail(IoErrorKind::Other)),
            })),
            Action::CreateDir(p) => Ok(Event::Created(if self.entries.contains_key(&p) {
                Err(fail(IoErrorKind::AlreadyExists))
            } else if !self.parent_is_dir(&p) {
                Err(fail(IoErrorKind::NotFound))
            } else {
                self.entries.insert(p, Node::Dir);
                Ok(())
            })),
            Action::Finish(r) => Err(Ended::Finished(r)),
            Action::Abort(m) => Err(Ended::Aborted(m)),
        }
    }

    fn get(&self, p: &str) -> Option<Node> {
        self.entries.get(p).cloned()
    }
}

/// Runs a whole registration against `fs`.
fn run(fs: &mut MemFs, roots: &Roots, name: &str, store_path: &str, env: &CollectorEnv) -> Ended {
    let (mut reg, mut action) = roots.add(name, store_path, env);
    loop {
        match fs.perform(action) {
            Ok(e) => {
                assert!(reg.awaits(&e));
                action = reg.step(e);
            }
            Err(end) => {
                assert_eq!(reg.stage(), Stage::Over);
                return end;
            }
        }
    }
}

/// Runs a whole registration against `fs` that is expected to finish.
fn add(fs: &mut MemFs, roots: &Roots, name: &str, store_path: &str, env: &CollectorEnv) -> Result<String, AddRootError> {
    match run(fs, roots, name, store_path, env) {
        Ended::Finished(r) => r,
        Ended::Aborted(m) => panic!("aborted: {}", m),
    }
}

/// Runs a whole registration against `fs` that is expected to abort.
fn abort_message(fs: &mut MemFs, roots: &Roots, name: &str, store_path: &str, env: &CollectorEnv) -> String {
    match run(fs, roots, name, store_path, env) {
        Ended::Finished(r) => panic!("finished: {:?}", r),
        Ended::Aborted(m) => m,
    }
}

fn env(state_dir: Option<&str>, user: Option<&str>) -> CollectorEnv {
    CollectorEnv {
        state_dir: state_dir.map(|s| s.to_string()),
        user: user.map(|s| s.to_string()),
    }
}

fn standard() -> (MemFs, Roots, CollectorEnv) {
    let fs = MemFs::with_dirs(&["/", "/R", "/state", "/state/gcroots", "/state/gcroots/per-user", "/state/gcroots/per-user/alice"]);
    (fs, Roots::new("/R".to_string(), "P123".to_string()), env(Some("/state"), Some("alice")))
}

fn link(t: &str) -> Option<Node> {
    Some(Node::Link(t.to_string()))
}

fn context(e: &AddRootError) -> (IoErrorKind, String) {
    match e {
        AddRootError::Io(err, c) => (err.kind, c.clone()),
    }
}

#[test]
fn push_path_joins() {
    assert_eq!(push_path("/a", "b"), "/a/b");
    assert_eq!(push_path("/a/", "b"), "/a/b");
    assert_eq!(push_path("", "b"), "b");
    assert_eq!(push_path("/a", "/b"), "/b");
    assert_eq!(push_path("/nix/var/nix/", "gcroots"), "/nix/var/nix/gcroots");
}

#[test]
fn from_project_passes_error_on() {
    let ok: Result<Roots, u8> = Roots::from_project(Ok("/R".to_string()), "id".to_string());
    assert!(ok.is_ok());
    let err: Result<Roots, u8> = Roots::from_project(Err(7), "id".to_string());
    assert!(matches!(err, Err(7)));
}

#[test]
fn remove_ignores_absence_only() {
    assert!(AddRootError::remove(fail(IoErrorKind::NotFound), "/x").is_ok());
    let e = AddRootError::remove(fail(IoErrorKind::PermissionDenied), "/x").unwrap_err();
    assert_eq!(context(&e), (IoErrorKind::PermissionDenied, "Failed to delete /x".to_string()));
}

#[test]
fn symlink_error_names_both_paths() {
    let e = AddRootError::symlink(fail(IoErrorKind::AlreadyExists), "/s", "/d");
    assert_eq!(context(&e), (IoErrorKind::AlreadyExists, "Failed to symlink /s to /d".to_string()));
}

#[test]
fn first_action_removes_local_link() {
    let (_, roots, e) = standard();
    let (reg, action) = roots.add("out", "/store/abc", &e);
    assert_eq!(reg.stage(), Stage::RemoveLink);
    assert!(matches!(action, Action::RemoveFile(p) if p == "/R/out"));
}

#[test]
fn add_twice_same_store_path() {
    let (mut fs, roots, e) = standard();
    assert_eq!(add(&mut fs, &roots, "out", "/store/abc", &e).unwrap(), "/R/out");
    let once = fs.clone();
    assert_eq!(add(&mut fs, &roots, "out", "/store/abc", &e).unwrap(), "/R/out");
    assert_eq!(fs, once);
}

#[test]
fn add_replaces_store_path() {
    let (mut fs, roots, e) = standard();
    add(&mut fs, &roots, "out", "/store/abc", &e).unwrap();
    assert_eq!(add(&mut fs, &roots, "out", "/store/def", &e).unwrap(), "/R/out");
    assert_eq!(fs.get("/R/out"), link("/store/def"));
    assert_eq!(fs.get("/state/gcroots/per-user/alice/P123-out"), link("/R/out"));
}

#[test]
fn two_hop_resolution() {
    let (mut fs, roots, e) = standard();
    assert_eq!(add(&mut fs, &roots, "out", "/store/abc", &e).unwrap(), "/R/out");
    assert_eq!(fs.get("/R/out"), link("/store/abc"));
    assert_eq!(fs.get("/state/gcroots/per-user/alice/P123-out"), link("/R/out"));
}

#[test]
fn default_state_dir() {
    let mut fs = MemFs::with_dirs(&["/", "/R", "/nix/var/nix/gcroots/per-user"]);
    let roots = Roots::new("/R".to_string(), "P".to_string());
    add(&mut fs, &roots, "out", "/store/abc", &env(None, Some("bob"))).unwrap();
    assert_eq!(fs.get("/nix/var/nix/gcroots/per-user/bob"), Some(Node::Dir));
    assert_eq!(fs.get("/nix/var/nix/gcroots/per-user/bob/P-out"), link("/R/out"));
}

#[test]
fn missing_user_dir_is_created() {
    let (mut fs, roots, e) = standard();
    fs.entries.remove("/state/gcroots/per-user/alice");
    assert_eq!(add(&mut fs, &roots, "out", "/store/abc", &e).unwrap(), "/R/out");
    assert_eq!(fs.get("/state/gcroots/per-user/alice"), Some(Node::Dir));
    assert_eq!(fs.get("/state/gcroots/per-user/alice/P123-out"), link("/R/out"));
}

#[test]
fn user_dir_without_parent_aborts() {
    let (mut fs, roots, e) = standard();
    fs.entries.remove("/state/gcroots/per-user/alice");
    fs.entries.remove("/state/gcroots/per-user");
    assert_eq!(abort_message(&mut fs, &roots, "out", "/store/abc", &e), "directory /state/gcroots/per-user/alice does not exist and we can’t create it");
}

#[test]
fn user_dir_as_file_aborts() {
    let (mut fs, roots, e) = standard();
    fs.entries.insert("/state/gcroots/per-user/alice".to_string(), Node::File);
    assert_eq!(abort_message(&mut fs, &roots, "out", "/store/abc", &e), "/state/gcroots/per-user/alice is not a directory");
}

#[test]
fn unknown_user_aborts() {
    let (mut fs, roots, _) = standard();
    let m = abort_message(&mut fs, &roots, "out", "/store/abc", &env(Some("/state"), None));
    assert_eq!(m, "env var 'USER' must be set");
    assert_eq!(fs.get("/R/out"), link("/store/abc"));
}

#[test]
fn unknown_user_aborts_after_local_link() {
    let (_, roots, _) = standard();
    let (mut reg, _) = roots.add("out", "/store/abc", &env(Some("/state"), None));
    let a = reg.step(Event::Removed(Ok(())));
    assert!(matches!(a, Action::Symlink { ref src, ref dest } if src == "/store/abc" && dest == "/R/out"));
    let a = reg.step(Event::Linked(Ok(())));
    assert!(matches!(a, Action::Abort(ref m) if m == "env var 'USER' must be set"));
    assert_eq!(reg.stage(), Stage::Over);
}

#[test]
fn uninspectable_user_dir_aborts() {
    let (_, roots, e) = standard();
    let (mut reg, _) = roots.add("out", "/store/abc", &e);
    reg.step(Event::Removed(Ok(())));
    let a = reg.step(Event::Linked(Ok(())));
    assert!(matches!(a, Action::Inspect(ref d) if d == "/state/gcroots/per-user/alice"));
    let a = reg.step(Event::Inspected(Err(fail(IoErrorKind::PermissionDenied))));
    assert!(matches!(a, Action::Abort(ref m) if m == "directory /state/gcroots/per-user/alice cannot be inspected"));
}

#[test]
fn file_at_link_paths_is_replaced() {
    let (mut fs, roots, e) = standard();
    fs.entries.insert("/R/out".to_string(), Node::File);
    fs.entries.insert("/state/gcroots/per-user/alice/P123-out".to_string(), Node::File);
    assert_eq!(add(&mut fs, &roots, "out", "/store/abc", &e).unwrap(), "/R/out");
    assert_eq!(fs.get("/R/out"), link("/store/abc"));
    assert_eq!(fs.get("/state/gcroots/per-user/alice/P123-out"), link("/R/out"));
}

#[test]
fn directory_at_local_link_fails() {
    let (mut fs, roots, e) = standard();
    fs.entries.insert("/R/out".to_string(), Node::Dir);
    let before = fs.clone();
    let err = add(&mut fs, &roots, "out", "/store/abc", &e).unwrap_err();
    assert_eq!(context(&err), (IoErrorKind::IsADirectory, "Failed to delete /R/out".to_string()));
    assert_eq!(fs, before);
}

#[test]
fn directory_at_collector_link_fails() {
    let (mut fs, roots, e) = standard();
    fs.entries.insert("/state/gcroots/per-user/alice/P123-out".to_string(), Node::Dir);
    let err = add(&mut fs, &roots, "out", "/store/abc", &e).unwrap_err();
    assert_eq!(
        context(&err),
        (IoErrorKind::IsADirectory, "Failed to delete /state/gcroots/per-user/alice/P123-out".to_string())
    );
    assert_eq!(fs.get("/R/out"), link("/store/abc"));
}

#[test]
fn absent_local_link_is_no_error() {
    let (_, roots, e) = standard();
    let (mut reg, _) = roots.add("out", "/store/abc", &e);
    let a = reg.step(Event::Removed(Err(fail(IoErrorKind::NotFound))));
    assert_eq!(reg.stage(), Stage::MakeLink);
    assert!(matches!(a, Action::Symlink { ref src, ref dest } if src == "/store/abc" && dest == "/R/out"));
}

#[test]
fn failed_symlink_reports_both_paths() {
    let (_, roots, e) = standard();
    let (mut reg, _) = roots.add("out", "/store/abc", &e);
    reg.step(Event::Removed(Ok(())));
    let a = reg.step(Event::Linked(Err(fail(IoErrorKind::AlreadyExists))));
    match a {
        Action::Finish(Err(err)) => assert_eq!(
            context(&err),
            (IoErrorKind::AlreadyExists, "Failed to symlink /store/abc to /R/out".to_string())
        ),
        other => panic!("unexpected {:?}", other),
    }
}

#[test]
fn fresh_root_with_existing_user_dir() {
    let (mut fs, roots, e) = standard();
    let (mut reg, mut action) = roots.add("dev", "/store/xyz", &e);
    let mut created_dir = false;
    let result = loop {
        if matches!(action, Action::CreateDir(_)) {
            created_dir = true;
        }
        match fs.perform(action) {
            Ok(ev) => action = reg.step(ev),
            Err(end) => break end,
        }
    };
    assert!(matches!(result, Ended::Finished(Ok(ref p)) if p == "/R/dev"));
    assert!(!created_dir);
    assert_eq!(fs.get("/R/dev"), link("/store/xyz"));
    assert_eq!(fs.get("/state/gcroots/per-user/alice/P123-dev"), link("/R/dev"));
}

#[test]
fn linked_root_and_user_dirs() {
    let mut fs = MemFs::with_dirs(&["/", "/real", "/state", "/state/gcroots", "/state/gcroots/per-user", "/homes", "/homes/alice"]);
    fs.entries.insert("/R".to_string(), Node::Link("/real".to_string()));
    fs.entries.insert("/state/gcroots/per-user/alice".to_string(), Node::Link("/homes/alice".to_string()));
    let roots = Roots::new("/R".to_string(), "P123".to_string());
    let e = env(Some("/state"), Some("alice"));
    assert_eq!(add(&mut fs, &roots, "out", "/store/abc", &e).unwrap(), "/R/out");
    assert_eq!(fs.get("/state/gcroots/per-user/alice"), link("/homes/alice"));
    assert_eq!(fs.get("/state/gcroots/per-user/alice/P123-out"), link("/R/out"));
    let once = fs.clone();
    assert_eq!(add(&mut fs, &roots, "out", "/store/abc", &e).unwrap(), "/R/out");
    assert_eq!(fs, once);
}
