//! The root-registration protocol.
//!
//! Registering a root takes a short, fixed sequence of filesystem calls. The
//! caller performs each call that an [`Action`] asks for and hands its outcome
//! back as an [`Event`]; [`AddRoot::step`] decides what comes next.

use vstd::prelude::*;
use crate::path::{pushed, push_path};

verus! {

/// The kinds of filesystem failure that registration tells apart.
#[derive(Clone, Copy, Debug, PartialEq, Eq, Structural)]
pub enum IoErrorKind {
    NotFound,
    PermissionDenied,
    AlreadyExists,
    IsADirectory,
    DirectoryNotEmpty,
    Other,
}

/// A failed filesystem call: its kind and the system's description of it.
#[derive(Clone, Debug)]
pub struct IoError {
    pub kind: IoErrorKind,
    pub message: String,
}

impl View for IoError {
    type V = (IoErrorKind, Seq<char>);

    open spec fn view(&self) -> (IoErrorKind, Seq<char>) {
        (self.kind, self.message@)
    }
}

/// Error conditions encountered when adding roots.
#[derive(Clone, Debug)]
pub enum AddRootError {
    /// A failed filesystem call, with a description of what was attempted.
    Io(IoError, String),
}

/// The error, the context: what was attempted.
pub struct AddRootErrorView {
    pub error: (IoErrorKind, Seq<char>),
    pub context: Seq<char>,
}

impl View for AddRootError {
    type V = AddRootErrorView;

    open spec fn view(&self) -> AddRootErrorView {
        match self {
            AddRootError::Io(e, c) => AddRootErrorView { error: e@, context: c@ },
        }
    }
}

/// Context of a failed removal of `path`.
pub open spec fn delete_context(path: Seq<char>) -> Seq<char> {
    "Failed to delete "@ + path
}

/// Context of a failed creation of a link at `dest` to `src`.
pub open spec fn symlink_context(src: Seq<char>, dest: Seq<char>) -> Seq<char> {
    "Failed to symlink "@ + src + " to "@ + dest
}

impl AddRootError {
    /// Ignores a failure because nothing was there (it is after all a
    /// removal); any other failure becomes an error saying that deleting
    /// `path` failed.
    pub fn remove(err: IoError, path: &str) -> (r: Result<(), AddRootError>)
        ensures
            r is Ok <==> err.kind == IoErrorKind::NotFound,
            r matches Err(e) ==> e@ == (AddRootErrorView {
                error: err@,
                context: delete_context(path@),
            }),
    {
        if err.kind == IoErrorKind::NotFound {
            Ok(())
        } else {
            let mut context = String::from_str("Failed to delete ");
            context.append(path);
            Err(AddRootError::Io(err, context))
        }
    }

    /// The error saying that linking `dest` to `src` failed.
    pub fn symlink(err: IoError, src: &str, dest: &str) -> (r: AddRootError)
        ensures
            r@ == (AddRootErrorView { error: err@, context: symlink_context(src@, dest@) }),
    {
        let mut context = String::from_str("Failed to symlink ");
        context.append(src);
        context.append(" to ");
        context.append(dest);
        AddRootError::Io(err, context)
    }
}

/// The named roots of one project checkout, kept under one directory.
#[derive(Clone, Debug)]
pub struct Roots {
    root_dir: String,
    id: String,
}

/// The directory holding a project's roots, and the project's identifier.
pub struct RootsView {
    pub root_dir: Seq<char>,
    pub id: Seq<char>,
}

impl View for Roots {
    type V = RootsView;

    closed spec fn view(&self) -> RootsView {
        RootsView { root_dir: self.root_dir@, id: self.id@ }
    }
}

/// What the environment says of the collector: an override of its state
/// directory, and the current user, each where known.
pub struct CollectorEnv {
    pub state_dir: Option<String>,
    pub user: Option<String>,
}

pub open spec fn opt_view(o: Option<String>) -> Option<Seq<char>> {
    match o {
        Some(s) => Some(s@),
        None => None,
    }
}

impl View for CollectorEnv {
    type V = (Option<Seq<char>>, Option<Seq<char>>);

    open spec fn view(&self) -> (Option<Seq<char>>, Option<Seq<char>>) {
        (opt_view(self.state_dir), opt_view(self.user))
    }
}

/// The project-local link of root `name`.
pub open spec fn link_path(roots: RootsView, name: Seq<char>) -> Seq<char> {
    pushed(roots.root_dir, name)
}

/// The collector's state directory: the override where there is one.
pub open spec fn state_dir_of(state_dir: Option<Seq<char>>) -> Seq<char> {
    match state_dir {
        Some(d) => d,
        None => "/nix/var/nix/"@,
    }
}

/// The collector-visible directory of `user`'s roots.
pub open spec fn user_dir_path(state_dir: Seq<char>, user: Seq<char>) -> Seq<char> {
    pushed(pushed(pushed(state_dir, "gcroots"@), "per-user"@), user)
}

/// The collector-visible link of root `name` of project `id`.
pub open spec fn collector_link_path(user_dir: Seq<char>, id: Seq<char>, name: Seq<char>) -> Seq<char> {
    pushed(user_dir, id + "-"@ + name)
}

impl Roots {
    /// Manages the roots within the `root_dir` directory; `id` is a unique
    /// identifier for this project's checkout.
    pub fn new(root_dir: String, id: String) -> (r: Roots)
        ensures
            r@ == (RootsView { root_dir: root_dir@, id: id@ }),
    {
        Roots { root_dir, id }
    }

    /// Manages the roots of a project, from its root directory (or the error
    /// met while locating it) and its identifier.
    pub fn from_project<E>(gc_root_path: Result<String, E>, id: String) -> (r: Result<Roots, E>)
        ensures
            match gc_root_path {
                Ok(d) => r matches Ok(roots) && roots@ == (RootsView { root_dir: d@, id: id@ }),
                Err(e) => r == Err::<Roots, E>(e),
            },
    {
        match gc_root_path {
            Ok(d) => Ok(Roots::new(d, id)),
            Err(e) => Err(e),
        }
    }
}

/// Where a registration stands: the filesystem call whose outcome it awaits.
#[derive(Clone, Copy, Debug, PartialEq, Eq, Structural)]
pub enum Stage {
    /// Removal of whatever is at the project-local link.
    RemoveLink,
    /// Creation of the project-local link.
    MakeLink,
    /// Inspection of the collector-visible per-user directory.
    InspectDir,
    /// Creation of that directory.
    CreateDir,
    /// Removal of whatever is at the collector-visible link.
    RemoveCollector,
    /// Creation of the collector-visible link.
    MakeCollector,
    /// Nothing: the registration has finished or aborted.
    Over,
}

/// The outcome of the filesystem call that an [`Action`] asked for.
#[derive(Debug)]
pub enum Event {
    /// Outcome of removing a file or link.
    Removed(Result<(), IoError>),
    /// Outcome of creating a symbolic link.
    Linked(Result<(), IoError>),
    /// Outcome of inspecting a path (following links): whether it is a
    /// directory.
    Inspected(Result<bool, IoError>),
    /// Outcome of creating a directory (its parent must exist).
    Created(Result<(), IoError>),
}

pub type IoErrorView = (IoErrorKind, Seq<char>);

pub enum EventView {
    Removed(Result<(), IoErrorView>),
    Linked(Result<(), IoErrorView>),
    Inspected(Result<bool, IoErrorView>),
    Created(Result<(), IoErrorView>),
}

pub open spec fn unit_view(r: Result<(), IoError>) -> Result<(), IoErrorView> {
    match r {
        Ok(u) => Ok(u),
        Err(e) => Err(e@),
    }
}

impl View for Event {
    type V = EventView;

    open spec fn view(&self) -> EventView {
        match self {
            Event::Removed(r) => EventView::Removed(unit_view(*r)),
            Event::Linked(r) => EventView::Linked(unit_view(*r)),
            Event::Inspected(r) => EventView::Inspected(
                match r {
                    Ok(b) => Ok(*b),
                    Err(e) => Err(e@),
                },
            ),
            Event::Created(r) => EventView::Created(unit_view(*r)),
        }
    }
}

/// What the caller is to do next.
#[derive(Debug)]
pub enum Action {
    /// Remove the file or link at this path.
    RemoveFile(String),
    /// Create a symbolic link at `dest` pointing at `src`.
    Symlink { src: String, dest: String },
    /// Inspect this path, following links.
    Inspect(String),
    /// Create this directory, not its parents.
    CreateDir(String),
    /// The registration is over: the project-local link, or the error.
    Finish(Result<String, AddRootError>),
    /// The environment cannot hold roots: stop the process with this message.
    Abort(String),
}

pub enum ActionView {
    RemoveFile(Seq<char>),
    Symlink { src: Seq<char>, dest: Seq<char> },
    Inspect(Seq<char>),
    CreateDir(Seq<char>),
    Finish(Result<Seq<char>, AddRootErrorView>),
    Abort(Seq<char>),
}

impl View for Action {
    type V = ActionView;

    open spec fn view(&self) -> ActionView {
        match self {
            Action::RemoveFile(p) => ActionView::RemoveFile(p@),
            Action::Symlink { src, dest } => ActionView::Symlink { src: src@, dest: dest@ },
            Action::Inspect(p) => ActionView::Inspect(p@),
            Action::CreateDir(p) => ActionView::CreateDir(p@),
            Action::Finish(r) => ActionView::Finish(
                match r {
                    Ok(p) => Ok(p@),
                    Err(e) => Err(e@),
                },
            ),
            Action::Abort(m) => ActionView::Abort(m@),
        }
    }
}

pub open spec fn no_user_message() -> Seq<char> {
    "env var 'USER' must be set"@
}

pub open spec fn not_dir_message(dir: Seq<char>) -> Seq<char> {
    dir + " is not a directory"@
}

pub open spec fn uninspectable_message(dir: Seq<char>) -> Seq<char> {
    "directory "@ + dir + " cannot be inspected"@
}

pub open spec fn uncreatable_message(dir: Seq<char>) -> Seq<char> {
    "directory "@ + dir + " does not exist and we can’t create it"@
}

/// One registration in progress.
pub struct AddRoot {
    link: String,
    store_path: String,
    /// The per-user directory and the collector-visible link, where the
    /// current user is known.
    collector: Option<(String, String)>,
    stage: Stage,
}

pub struct AddRootView {
    pub link: Seq<char>,
    pub store_path: Seq<char>,
    pub collector: Option<(Seq<char>, Seq<char>)>,
    pub stage: Stage,
}

impl View for AddRoot {
    type V = AddRootView;

    closed spec fn view(&self) -> AddRootView {
        AddRootView {
            link: self.link@,
            store_path: self.store_path@,
            collector: match self.collector {
                Some((d, l)) => Some((d@, l@)),
                None => None,
            },
            stage: self.stage,
        }
    }
}

/// The registration of root `name` for `store_path`, before any filesystem call.
pub open spec fn start(
    roots: RootsView,
    name: Seq<char>,
    store_path: Seq<char>,
    env: (Option<Seq<char>>, Option<Seq<char>>),
) -> AddRootView {
    AddRootView {
        link: link_path(roots, name),
        store_path,
        collector: match env.1 {
            Some(user) => {
                let dir = user_dir_path(state_dir_of(env.0), user);
                Some((dir, collector_link_path(dir, roots.id, name)))
            },
            None => None,
        },
        stage: Stage::RemoveLink,
    }
}

/// Whether a registration at `stage` awaits event `e`.
pub open spec fn awaits(stage: Stage, e: EventView) -> bool {
    match e {
        EventView::Removed(_) => stage == Stage::RemoveLink || stage == Stage::RemoveCollector,
        EventView::Linked(_) => stage == Stage::MakeLink || stage == Stage::MakeCollector,
        EventView::Inspected(_) => stage == Stage::InspectDir,
        EventView::Created(_) => stage == Stage::CreateDir,
    }
}

/// Whether action `a` is the one that a registration at `stage` has asked
/// for: a filesystem call whose outcome that stage awaits, or the end.
pub open spec fn fits(stage: Stage, a: ActionView) -> bool {
    match a {
        ActionView::RemoveFile(_) => stage == Stage::RemoveLink || stage == Stage::RemoveCollector,
        ActionView::Symlink { .. } => stage == Stage::MakeLink || stage == Stage::MakeCollector,
        ActionView::Inspect(_) => stage == Stage::InspectDir,
        ActionView::CreateDir(_) => stage == Stage::CreateDir,
        ActionView::Finish(_) | ActionView::Abort(_) => stage == Stage::Over,
    }
}

/// The per-user directory is known from the inspection stage on.
pub open spec fn consistent(s: AddRootView) -> bool {
    s.collector is None ==> (s.stage == Stage::RemoveLink || s.stage == Stage::MakeLink
        || s.stage == Stage::Over)
}

/// A removal succeeded, or found nothing to remove.
pub open spec fn removal_done(r: Result<(), IoErrorView>) -> bool {
    r matches Err(e) ==> e.0 == IoErrorKind::NotFound
}

/// The stage after event `e`, and the action asked for then.
pub open spec fn next(s: AddRootView, e: EventView) -> (Stage, ActionView) {
    let (dir, clink) = match s.collector {
        Some(c) => c,
        None => (Seq::empty(), Seq::empty()),
    };
    match e {
        EventView::Removed(r) => if s.stage == Stage::RemoveLink {
            if removal_done(r) {
                (Stage::MakeLink, ActionView::Symlink { src: s.store_path, dest: s.link })
            } else {
                (Stage::Over, ActionView::Finish(
                    Err(AddRootErrorView { error: r->Err_0, context: delete_context(s.link) }),
                ))
            }
        } else {
            if removal_done(r) {
                (Stage::MakeCollector, ActionView::Symlink { src: s.link, dest: clink })
            } else {
                (Stage::Over, ActionView::Finish(
                    Err(AddRootErrorView { error: r->Err_0, context: delete_context(clink) }),
                ))
            }
        },
        EventView::Linked(r) => if s.stage == Stage::MakeLink {
            match r {
                Ok(_) => if s.collector is None {
                    (Stage::Over, ActionView::Abort(no_user_message()))
                } else {
                    (Stage::InspectDir, ActionView::Inspect(dir))
                },
                Err(err) => (Stage::Over, ActionView::Finish(
                    Err(AddRootErrorView { error: err, context: symlink_context(s.store_path, s.link) }),
                )),
            }
        } else {
            match r {
                Ok(_) => (Stage::Over, ActionView::Finish(Ok(s.link))),
                Err(err) => (Stage::Over, ActionView::Finish(
                    Err(AddRootErrorView { error: err, context: symlink_context(s.link, clink) }),
                )),
            }
        },
        EventView::Inspected(r) => match r {
            Ok(true) => (Stage::RemoveCollector, ActionView::RemoveFile(clink)),
            Ok(false) => (Stage::Over, ActionView::Abort(not_dir_message(dir))),
            Err(err) => if err.0 == IoErrorKind::NotFound {
                (Stage::CreateDir, ActionView::CreateDir(dir))
            } else {
                (Stage::Over, ActionView::Abort(uninspectable_message(dir)))
            },
        },
        EventView::Created(r) => match r {
            Ok(_) => (Stage::RemoveCollector, ActionView::RemoveFile(clink)),
            Err(_) => (Stage::Over, ActionView::Abort(uncreatable_message(dir))),
        },
    }
}

/// The registration after event `e`.
pub open spec fn after(s: AddRootView, e: EventView) -> AddRootView {
    AddRootView { stage: next(s, e).0, ..s }
}

impl Roots {
    /// Starts registering root `name` for `store_path`: the first action
    /// removes whatever is at the project-local link.
    pub fn add(&self, name: &str, store_path: &str, env: &CollectorEnv) -> (r: (AddRoot, Action))
        ensures
            r.0@ == start(self@, name@, store_path@, env@),
            r.1@ == ActionView::RemoveFile(link_path(self@, name@)),
            fits(r.0@.stage, r.1@),
            consistent(r.0@),
    {
        let link = push_path(self.root_dir.as_str(), name);
        let collector = match &env.user {
            Some(user) => {
                let state = match &env.state_dir {
                    Some(d) => d.clone(),
                    None => String::from_str("/nix/var/nix/"),
                };
                let gcroots = push_path(state.as_str(), "gcroots");
                let per_user = push_path(gcroots.as_str(), "per-user");
                let dir = push_path(per_user.as_str(), user.as_str());
                let mut entry = self.id.clone();
                entry.append("-");
                entry.append(name);
                let clink = push_path(dir.as_str(), entry.as_str());
                Some((dir, clink))
            },
            None => None,
        };
        let action = Action::RemoveFile(link.clone());
        let r = AddRoot {
            link,
            store_path: store_path.to_string(),
            collector,
            stage: Stage::RemoveLink,
        };
        assert(r@ =~= start(self@, name@, store_path@, env@)) by {
            assert(r@.link =~= start(self@, name@, store_path@, env@).link);
        }
        (r, action)
    }
}

impl AddRoot {
    #[verifier::type_invariant]
    spec fn inv(&self) -> bool {
        consistent(self@)
    }

    /// Whether this registration awaits event `e`.
    pub fn awaits(&self, e: &Event) -> (r: bool)
        ensures
            r == awaits(self@.stage, e@),
    {
        match e {
            Event::Removed(_) => self.stage == Stage::RemoveLink || self.stage == Stage::RemoveCollector,
            Event::Linked(_) => self.stage == Stage::MakeLink || self.stage == Stage::MakeCollector,
            Event::Inspected(_) => self.stage == Stage::InspectDir,
            Event::Created(_) => self.stage == Stage::CreateDir,
        }
    }

    /// The stage this registration is at.
    pub fn stage(&self) -> (r: Stage)
        ensures
            r == self@.stage,
    {
        self.stage
    }

    /// Takes the outcome of the last action and returns the next one.
    pub fn step(&mut self, e: Event) -> (a: Action)
        requires
            awaits(old(self)@.stage, e@),
        ensures
            final(self)@ == after(old(self)@, e@),
            a@ == next(old(self)@, e@).1,
            consistent(final(self)@),
            fits(final(self)@.stage, a@),
    {
        proof {
            use_type_invariant(&*self);
        }
        match e {
            Event::Removed(r) => {
                let failed = match r {
                    Ok(()) => None,
                    Err(err) => {
                        let path = if self.stage == Stage::RemoveLink {
                            self.link.as_str()
                        } else {
                            self.collector.as_ref().unwrap().1.as_str()
                        };
                        match AddRootError::remove(err, path) {
                            Ok(()) => None,
                            Err(e) => Some(e),
                        }
                    },
                };
                match failed {
                    Some(e) => {
                        self.stage = Stage::Over;
                        Action::Finish(Err(e))
                    },
                    None => if self.stage == Stage::RemoveLink {
                        self.stage = Stage::MakeLink;
                        Action::Symlink { src: self.store_path.clone(), dest: self.link.clone() }
                    } else {
                        self.stage = Stage::MakeCollector;
                        Action::Symlink {
                            src: self.link.clone(),
                            dest: self.collector.as_ref().unwrap().1.clone(),
                        }
                    },
                }
            },
            Event::Linked(r) => {
                let making_link = self.stage == Stage::MakeLink;
                self.stage = Stage::Over;
                match r {
                    Ok(()) => if !making_link {
                        Action::Finish(Ok(self.link.clone()))
                    } else {
                        match &self.collector {
                            None => Action::Abort(String::from_str("env var 'USER' must be set")),
                            Some((dir, _)) => {
                                self.stage = Stage::InspectDir;
                                Action::Inspect(dir.clone())
                            },
                        }
                    },
                    Err(err) => if making_link {
                        Action::Finish(
                            Err(AddRootError::symlink(err, self.store_path.as_str(), self.link.as_str())),
                        )
                    } else {
                        let clink = self.collector.as_ref().unwrap().1.as_str();
                        Action::Finish(Err(AddRootError::symlink(err, self.link.as_str(), clink)))
                    },
                }
            },
            Event::Inspected(r) => {
                let dir = self.collector.as_ref().unwrap().0.clone();
                match r {
                    Ok(true) => {
                        self.stage = Stage::RemoveCollector;
                        Action::RemoveFile(self.collector.as_ref().unwrap().1.clone())
                    },
                    Ok(false) => {
                        self.stage = Stage::Over;
                        let mut m = dir;
                        m.append(" is not a directory");
                        Action::Abort(m)
                    },
                    Err(err) => if err.kind == IoErrorKind::NotFound {
                        self.stage = Stage::CreateDir;
                        Action::CreateDir(dir)
                    } else {
                        self.stage = Stage::Over;
                        let mut m = String::from_str("directory ");
                        m.append(dir.as_str());
                        m.append(" cannot be inspected");
                        Action::Abort(m)
                    },
                }
            },
            Event::Created(r) => {
                let dir = self.collector.as_ref().unwrap().0.as_str();
                match r {
                    Ok(()) => {
                        self.stage = Stage::RemoveCollector;
                        Action::RemoveFile(self.collector.as_ref().unwrap().1.clone())
                    },
                    Err(_) => {
                        self.stage = Stage::Over;
                        let mut m = String::from_str("directory ");
                        m.append(dir);
                        m.append(" does not exist and we can’t create it");
                        Action::Abort(m)
                    },
                }
            },
        }
    }
}

} // verus!
