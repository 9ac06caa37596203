//! A model of the filesystem calls that registration asks for, and what
//! follows from running the protocol against it.

use vstd::prelude::*;
use crate::path::{ends_with_separator, is_segment, no_separator, pushed};
use crate::roots::{
    after, collector_link_path, link_path, next, start, state_dir_of, user_dir_path, ActionView,
    AddRootView, EventView, IoErrorKind, IoErrorView, RootsView,
};

verus! {

/// An entry of the filesystem.
pub enum Node {
    File,
    Dir,
    Link(Seq<char>),
}

/// A filesystem: the entry at each path that holds one.
pub type Fs = Map<Seq<char>, Node>;

/// What a path leads to once symbolic links are followed.
pub enum Resolved {
    Missing,
    Found(Node),
    TooManyLinks,
}

/// How many links a lookup follows before it gives up.
pub open spec fn max_hops() -> nat {
    40
}

/// Follows links from `p`, at most `hops` of them.
pub open spec fn resolve(fs: Fs, p: Seq<char>, hops: nat) -> Resolved
    decreases hops,
{
    if !fs.contains_key(p) {
        Resolved::Missing
    } else {
        match fs[p] {
            Node::Link(t) => if hops == 0 {
                Resolved::TooManyLinks
            } else {
                resolve(fs, t, (hops - 1) as nat)
            },
            n => Resolved::Found(n),
        }
    }
}

/// Whether `p` leads to a directory.
pub open spec fn leads_to_dir(fs: Fs, p: Seq<char>) -> bool {
    resolve(fs, p, max_hops()) == Resolved::Found(Node::Dir)
}

/// Whether the directory that would hold `p` exists.
pub open spec fn parent_is_dir(fs: Fs, p: Seq<char>) -> bool {
    exists|q: Seq<char>, s: Seq<char>|
        #![trigger pushed(q, s)]
        is_segment(s) && pushed(q, s) == p && leads_to_dir(fs, q)
}

/// A failure of the given kind (the system's wording is left open).
pub open spec fn failure(kind: IoErrorKind) -> IoErrorView {
    (kind, Seq::empty())
}

/// Performs the filesystem call that `a` asks for: the filesystem after
/// it, and its outcome.
pub open spec fn perform(fs: Fs, a: ActionView) -> (Fs, EventView) {
    match a {
        ActionView::RemoveFile(p) => if !fs.contains_key(p) {
            (fs, EventView::Removed(Err(failure(IoErrorKind::NotFound))))
        } else if fs[p] is Dir {
            (fs, EventView::Removed(Err(failure(IoErrorKind::IsADirectory))))
        } else {
            (fs.remove(p), EventView::Removed(Ok(())))
        },
        ActionView::Symlink { src, dest } => if fs.contains_key(dest) {
            (fs, EventView::Linked(Err(failure(IoErrorKind::AlreadyExists))))
        } else if !parent_is_dir(fs, dest) {
            (fs, EventView::Linked(Err(failure(IoErrorKind::NotFound))))
        } else {
            (fs.insert(dest, Node::Link(src)), EventView::Linked(Ok(())))
        },
        ActionView::Inspect(p) => (
            fs,
            EventView::Inspected(
                match resolve(fs, p, max_hops()) {
                    Resolved::Missing => Err(failure(IoErrorKind::NotFound)),
                    Resolved::Found(Node::Dir) => Ok(true),
                    Resolved::Found(_) => Ok(false),
                    Resolved::TooManyLinks => Err(failure(IoErrorKind::Other)),
                },
            ),
        ),
        ActionView::CreateDir(p) => if fs.contains_key(p) {
            (fs, EventView::Created(Err(failure(IoErrorKind::AlreadyExists))))
        } else if !parent_is_dir(fs, p) {
            (fs, EventView::Created(Err(failure(IoErrorKind::NotFound))))
        } else {
            (fs.insert(p, Node::Dir), EventView::Created(Ok(())))
        },
        _ => (fs, EventView::Removed(Ok(()))),
    }
}

/// Runs registration `s` from action `a`, performing at most `fuel` calls:
/// the filesystem at the end, and the last action.
pub open spec fn run(fs: Fs, s: AddRootView, a: ActionView, fuel: nat) -> (Fs, ActionView)
    decreases fuel,
{
    if fuel == 0 || a is Finish || a is Abort {
        (fs, a)
    } else {
        let (fs2, e) = perform(fs, a);
        run(fs2, after(s, e), next(s, e).1, (fuel - 1) as nat)
    }
}

/// The number of filesystem calls that one registration makes at most.
pub open spec fn max_calls() -> nat {
    6
}

/// A whole registration of root `name` for `store_path` against `fs`.
pub open spec fn register(
    fs: Fs,
    roots: RootsView,
    name: Seq<char>,
    store_path: Seq<char>,
    env: (Option<Seq<char>>, Option<Seq<char>>),
) -> (Fs, ActionView) {
    run(
        fs,
        start(roots, name, store_path, env),
        ActionView::RemoveFile(link_path(roots, name)),
        max_calls(),
    )
}

/// Whether `p` holds a directory itself (not a link to one).
pub open spec fn is_dir_entry(fs: Fs, p: Seq<char>) -> bool {
    fs.contains_key(p) && fs[p] == Node::Dir
}

/// Whether following links from `p`, at most `hops` of them, reaches a
/// directory without passing through any path of `avoid` (`p` included).
pub open spec fn dir_avoiding(fs: Fs, p: Seq<char>, hops: nat, avoid: Set<Seq<char>>) -> bool
    decreases hops,
{
    &&& !avoid.contains(p)
    &&& fs.contains_key(p)
    &&& match fs[p] {
        Node::Dir => true,
        Node::File => false,
        Node::Link(t) => hops > 0 && dir_avoiding(fs, t, (hops - 1) as nat, avoid),
    }
}

/// Whether `fs2` keeps every entry of `fs` outside `avoid`.
pub open spec fn keeps_outside(fs: Fs, fs2: Fs, avoid: Set<Seq<char>>) -> bool {
    forall|q: Seq<char>|
        #![trigger fs2.contains_key(q)]
        fs.contains_key(q) && !avoid.contains(q) ==> fs2.contains_key(q) && fs2[q] == fs[q]
}

/// A path that leads to a directory avoiding `avoid` still does so in any
/// filesystem that keeps the entries outside `avoid`.
proof fn lemma_dir_avoiding_kept(fs: Fs, fs2: Fs, p: Seq<char>, hops: nat, avoid: Set<Seq<char>>)
    requires
        dir_avoiding(fs, p, hops, avoid),
        keeps_outside(fs, fs2, avoid),
    ensures
        dir_avoiding(fs2, p, hops, avoid),
        resolve(fs2, p, hops) == Resolved::Found(Node::Dir),
    decreases hops,
{
    assert(fs2.contains_key(p));
    if let Node::Link(t) = fs[p] {
        lemma_dir_avoiding_kept(fs, fs2, t, (hops - 1) as nat, avoid);
    }
}

/// Whether whatever is at `p` can be removed as a file: nothing, a file or a link.
pub open spec fn removable(fs: Fs, p: Seq<char>) -> bool {
    !(fs.contains_key(p) && fs[p] is Dir)
}

/// The directory that holds the per-user directories.
pub open spec fn per_user_parent(state_dir: Seq<char>) -> Seq<char> {
    pushed(pushed(state_dir, "gcroots"@), "per-user"@)
}

/// The conditions under which registration reaches the collector-visible
/// link: the user is known, the root's name is a single segment, the
/// project's identifier holds no separator, the project-local link path
/// holds no directory, and the project's root directory and the per-user
/// directory lead to directories without passing through either link path;
/// where the per-user directory is missing, the user's name is a single
/// segment, its parent leads to a directory in the same way, and it is not
/// the project-local link path.
pub open spec fn prepared(
    fs: Fs,
    roots: RootsView,
    name: Seq<char>,
    env: (Option<Seq<char>>, Option<Seq<char>>),
) -> bool {
    match env.1 {
        None => false,
        Some(user) => {
            let state = state_dir_of(env.0);
            let dir = user_dir_path(state, user);
            let link = link_path(roots, name);
            let avoid = set![link, collector_link_path(dir, roots.id, name)];
            &&& is_segment(name)
            &&& no_separator(roots.id)
            &&& dir_avoiding(fs, roots.root_dir, max_hops(), avoid)
            &&& if fs.contains_key(dir) {
                dir_avoiding(fs, dir, max_hops(), avoid)
            } else {
                &&& is_segment(user)
                &&& dir_avoiding(fs, per_user_parent(state), max_hops(), avoid)
                &&& link != dir
            }
            &&& removable(fs, link)
        },
    }
}

/// The path of the per-user directory, where the user is known.
pub open spec fn env_user_dir(env: (Option<Seq<char>>, Option<Seq<char>>)) -> Seq<char> {
    user_dir_path(state_dir_of(env.0), env.1->0)
}

/// The collector-visible link of root `name`, where the user is known.
pub open spec fn env_collector_link(
    roots: RootsView,
    name: Seq<char>,
    env: (Option<Seq<char>>, Option<Seq<char>>),
) -> Seq<char> {
    collector_link_path(env_user_dir(env), roots.id, name)
}

/// The conditions under which registering root `name` succeeds: those of
/// `prepared`, and the collector-visible link path holds no directory.
pub open spec fn ready(
    fs: Fs,
    roots: RootsView,
    name: Seq<char>,
    env: (Option<Seq<char>>, Option<Seq<char>>),
) -> bool {
    prepared(fs, roots, name, env) && removable(fs, env_collector_link(roots, name, env))
}

/// `fs` with a directory at `dir` where nothing was there.
pub open spec fn with_dir(fs: Fs, dir: Seq<char>) -> Fs {
    if fs.contains_key(dir) {
        fs
    } else {
        fs.insert(dir, Node::Dir)
    }
}

/// The filesystem after a successful registration: the per-user directory
/// is there (created only where nothing was), the project-local link points
/// at the store path, and the collector-visible link points at the
/// project-local link.
pub open spec fn registered(
    fs: Fs,
    roots: RootsView,
    name: Seq<char>,
    store_path: Seq<char>,
    env: (Option<Seq<char>>, Option<Seq<char>>),
) -> Fs {
    let dir = user_dir_path(state_dir_of(env.0), env.1->0);
    let link = link_path(roots, name);
    with_dir(fs, dir).insert(link, Node::Link(store_path)).insert(
        collector_link_path(dir, roots.id, name),
        Node::Link(link),
    )
}

proof fn lemma_link_shape(root_dir: Seq<char>, name: Seq<char>)
    requires
        is_segment(name),
    ensures
        pushed(root_dir, name).len() >= name.len(),
        pushed(root_dir, name).len() > name.len() ==> pushed(root_dir, name)[pushed(root_dir, name).len() - name.len() - 1] == '/',
{
    let link = pushed(root_dir, name);
    if root_dir.len() > 0 && ends_with_separator(root_dir) {
        assert(link[root_dir.len() - 1] == root_dir[root_dir.len() - 1]);
    } else if root_dir.len() > 0 {
        assert(link[root_dir.len() as int] == '/');
    }
}

proof fn lemma_user_dir_shape(state: Seq<char>, user: Seq<char>)
    ensures
        user_dir_path(state, user).len() > 0,
        user_dir_path(state, user) == pushed(per_user_parent(state), user),
{
    reveal_strlit("per-user");
    assert(per_user_parent(state).len() >= "per-user"@.len());
}

proof fn lemma_collector_shape(dir: Seq<char>, id: Seq<char>, name: Seq<char>)
    requires
        is_segment(name),
        no_separator(id),
        dir.len() > 0,
    ensures
        is_segment(id + "-"@ + name),
        collector_link_path(dir, id, name).len() > dir.len(),
        collector_link_path(dir, id, name).len() > name.len(),
        collector_link_path(dir, id, name)[collector_link_path(dir, id, name).len() - name.len() - 1] == '-',
{
    reveal_strlit("-");
    let seg = id + "-"@ + name;
    assert(seg[id.len() as int] == '-');
    assert forall|i: int| 0 <= i < seg.len() implies seg[i] != '/' by {
        if i < id.len() {
            assert(seg[i] == id[i]);
        } else if i > id.len() {
            assert(seg[i] == name[i - id.len() - 1]);
        }
    }
    let clink = collector_link_path(dir, id, name);
    if ends_with_separator(dir) {
        assert(clink == dir + seg);
    } else {
        assert(clink == dir + seq!['/'] + seg);
    }
    assert(clink[clink.len() - name.len() - 1] == seg[id.len() as int]);
}

/// The first calls of a registration under the conditions of `prepared`:
/// the project-local link is replaced and the per-user directory is there;
/// what remains is to replace the collector-visible link.
proof fn lemma_first_calls(
    fs: Fs,
    roots: RootsView,
    name: Seq<char>,
    store_path: Seq<char>,
    env: (Option<Seq<char>>, Option<Seq<char>>),
) -> (r: (Fs, AddRootView, nat))
    requires
        prepared(fs, roots, name, env),
    ensures
        register(fs, roots, name, store_path, env) == run(
            r.0,
            r.1,
            ActionView::RemoveFile(env_collector_link(roots, name, env)),
            r.2,
        ),
        r.2 >= 2,
        r.1.link == link_path(roots, name),
        r.1.collector == Some((env_user_dir(env), env_collector_link(roots, name, env))),
        r.1.stage == crate::roots::Stage::RemoveCollector,
        r.0 == with_dir(fs, env_user_dir(env)).insert(link_path(roots, name), Node::Link(store_path)),
{
    let user = env.1->0;
    let state = state_dir_of(env.0);
    let dir = user_dir_path(state, user);
    let link = link_path(roots, name);
    let clink = collector_link_path(dir, roots.id, name);
    lemma_link_shape(roots.root_dir, name);
    lemma_user_dir_shape(state, user);
    lemma_collector_shape(dir, roots.id, name);
    let avoid = set![link, clink];
    assert(link != clink);
    assert(dir != clink);
    assert(link != dir);

    let s0 = start(roots, name, store_path, env);
    let a0 = ActionView::RemoveFile(link);
    assert(s0.collector == Some((dir, clink)));
    // remove the project-local link
    let (fs1, e1) = perform(fs, a0);
    assert(fs1 =~= fs.remove(link));
    let s1 = after(s0, e1);
    let a1 = next(s0, e1).1;
    assert(a1 == ActionView::Symlink { src: store_path, dest: link });
    assert(run(fs, s0, a0, 6) == run(fs1, s1, a1, 5));
    // link it to the store path
    assert(keeps_outside(fs, fs1, avoid));
    lemma_dir_avoiding_kept(fs, fs1, roots.root_dir, max_hops(), avoid);
    assert(leads_to_dir(fs1, roots.root_dir));
    assert(pushed(roots.root_dir, name) == link);
    assert(parent_is_dir(fs1, link));
    let (fs2, e2) = perform(fs1, a1);
    assert(fs2 == fs1.insert(link, Node::Link(store_path)));
    let s2 = after(s1, e2);
    let a2 = next(s1, e2).1;
    assert(a2 == ActionView::Inspect(dir));
    assert(run(fs1, s1, a1, 5) == run(fs2, s2, a2, 4));
    // inspect the per-user directory, create it where missing
    let (fs3, e3) = perform(fs2, a2);
    let s3 = after(s2, e3);
    let a3 = next(s2, e3).1;
    assert(run(fs2, s2, a2, 4) == run(fs3, s3, a3, 3));
    assert(keeps_outside(fs, fs2, avoid));
    if fs.contains_key(dir) {
        lemma_dir_avoiding_kept(fs, fs2, dir, max_hops(), avoid);
        assert(fs3 == fs2);
        assert(a3 == ActionView::RemoveFile(clink));
        assert(fs3 =~= with_dir(fs, dir).insert(link, Node::Link(store_path)));
        (fs3, s3, 3)
    } else {
        assert(a3 == ActionView::CreateDir(dir));
        lemma_dir_avoiding_kept(fs, fs2, per_user_parent(state), max_hops(), avoid);
        assert(leads_to_dir(fs2, per_user_parent(state)));
        assert(parent_is_dir(fs2, dir));
        let (fs4, e4) = perform(fs3, a3);
        let s4 = after(s3, e4);
        let a4 = next(s3, e4).1;
        assert(fs4 == fs2.insert(dir, Node::Dir));
        assert(a4 == ActionView::RemoveFile(clink));
        assert(run(fs3, s3, a3, 3) == run(fs4, s4, a4, 2));
        assert(fs4 =~= with_dir(fs, dir).insert(link, Node::Link(store_path)));
        (fs4, s4, 2)
    }
}

/// When the conditions of `ready` hold, registering root `name` succeeds,
/// returns the project-local link, and leaves the filesystem as
/// `registered` describes: the per-user directory is created only where it
/// was missing, and whatever stood at either link path is replaced.
pub proof fn law_ready_registers(
    fs: Fs,
    roots: RootsView,
    name: Seq<char>,
    store_path: Seq<char>,
    env: (Option<Seq<char>>, Option<Seq<char>>),
)
    requires
        ready(fs, roots, name, env),
    ensures
        register(fs, roots, name, store_path, env) == (
        registered(fs, roots, name, store_path, env),
        ActionView::Finish(Ok(link_path(roots, name))),
        ),
{
    let (fs4, s4, fuel) = lemma_first_calls(fs, roots, name, store_path, env);
    lemma_registered_tail(fs, roots, name, store_path, env, fs4, s4, fuel);
}

/// The last two calls of a registration that `law_ready_registers` speaks of.
proof fn lemma_registered_tail(
    fs: Fs,
    roots: RootsView,
    name: Seq<char>,
    store_path: Seq<char>,
    env: (Option<Seq<char>>, Option<Seq<char>>),
    fs4: Fs,
    s4: AddRootView,
    fuel: nat,
)
    requires
        ready(fs, roots, name, env),
        fuel >= 2,
        s4.link == link_path(roots, name),
        s4.collector == Some(
            (
                user_dir_path(state_dir_of(env.0), env.1->0),
                collector_link_path(user_dir_path(state_dir_of(env.0), env.1->0), roots.id, name),
            ),
        ),
        s4.stage == crate::roots::Stage::RemoveCollector,
        fs4 == with_dir(fs, user_dir_path(state_dir_of(env.0), env.1->0)).insert(
            link_path(roots, name),
            Node::Link(store_path),
        ),
    ensures
        run(
            fs4,
            s4,
            ActionView::RemoveFile(
                collector_link_path(user_dir_path(state_dir_of(env.0), env.1->0), roots.id, name),
            ),
            fuel,
        ) == (registered(fs, roots, name, store_path, env), ActionView::Finish(Ok(link_path(roots, name)))),
{
    let user = env.1->0;
    let state = state_dir_of(env.0);
    let dir = user_dir_path(state, user);
    let link = link_path(roots, name);
    let clink = collector_link_path(dir, roots.id, name);
    let seg = roots.id + "-"@ + name;
    lemma_link_shape(roots.root_dir, name);
    lemma_user_dir_shape(state, user);
    lemma_collector_shape(dir, roots.id, name);
    assert(link != clink);
    assert(dir != clink);
    let a4 = ActionView::RemoveFile(clink);
    // remove the collector-visible link
    let (fs5, e5) = perform(fs4, a4);
    let s5 = after(s4, e5);
    let a5 = next(s4, e5).1;
    assert(fs5 =~= fs4.remove(clink));
    assert(a5 == ActionView::Symlink { src: link, dest: clink });
    assert(run(fs4, s4, a4, fuel) == run(fs5, s5, a5, (fuel - 1) as nat));
    // link it to the project-local link
    let avoid = set![link, clink];
    if fs.contains_key(dir) {
        assert(keeps_outside(fs, fs5, avoid));
        lemma_dir_avoiding_kept(fs, fs5, dir, max_hops(), avoid);
    }
    assert(leads_to_dir(fs5, dir));
    assert(pushed(dir, seg) == clink);
    assert(parent_is_dir(fs5, clink));
    let (fs6, e6) = perform(fs5, a5);
    let a6 = next(s5, e6).1;
    assert(a6 == ActionView::Finish(Ok(link)));
    assert(run(fs5, s5, a5, (fuel - 1) as nat) == run(fs6, after(s5, e6), a6, (fuel - 2) as nat));
    assert(fs6 =~= registered(fs, roots, name, store_path, env));
}

/// Where the conditions of `ready` hold, a registration succeeds, and
/// registering the same root again for any store path succeeds too: the
/// project-local link then points at the new store path, and the
/// collector-visible link still points at the (unchanged) project-local link.
pub proof fn law_replace(
    fs: Fs,
    roots: RootsView,
    name: Seq<char>,
    store_path: Seq<char>,
    new_store_path: Seq<char>,
    env: (Option<Seq<char>>, Option<Seq<char>>),
)
    requires
        ready(fs, roots, name, env),
    ensures
        register(registered(fs, roots, name, store_path, env), roots, name, new_store_path, env) == (
        registered(fs, roots, name, new_store_path, env),
        ActionView::Finish(Ok(link_path(roots, name))),
        ),
        registered(fs, roots, name, new_store_path, env)[link_path(roots, name)] == Node::Link(
            new_store_path,
        ),
        registered(fs, roots, name, new_store_path, env)[env_collector_link(roots, name, env)]
            == Node::Link(link_path(roots, name)),
{
    let user = env.1->0;
    let state = state_dir_of(env.0);
    let dir = user_dir_path(state, user);
    let link = link_path(roots, name);
    let clink = collector_link_path(dir, roots.id, name);
    lemma_link_shape(roots.root_dir, name);
    lemma_user_dir_shape(state, user);
    lemma_collector_shape(dir, roots.id, name);
    assert(link != clink);
    assert(dir != clink);
    let fs1 = registered(fs, roots, name, store_path, env);
    let avoid = set![link, clink];
    law_ready_registers(fs, roots, name, store_path, env);
    assert(keeps_outside(fs, fs1, avoid));
    lemma_dir_avoiding_kept(fs, fs1, roots.root_dir, max_hops(), avoid);
    if fs.contains_key(dir) {
        lemma_dir_avoiding_kept(fs, fs1, dir, max_hops(), avoid);
    }
    assert(dir_avoiding(fs1, dir, max_hops(), avoid));
    assert(ready(fs1, roots, name, env));
    law_ready_registers(fs1, roots, name, new_store_path, env);
    assert(registered(fs1, roots, name, new_store_path, env) =~= registered(
        fs,
        roots,
        name,
        new_store_path,
        env,
    ));
}

/// Where the conditions of `ready` hold, registering the same root twice for
/// the same store path succeeds both times, and the second call leaves the
/// filesystem as the first left it.
pub proof fn law_add_twice(
    fs: Fs,
    roots: RootsView,
    name: Seq<char>,
    store_path: Seq<char>,
    env: (Option<Seq<char>>, Option<Seq<char>>),
)
    requires
        ready(fs, roots, name, env),
    ensures
        register(fs, roots, name, store_path, env).1 == ActionView::Finish(Ok(link_path(roots, name))),
        register(register(fs, roots, name, store_path, env).0, roots, name, store_path, env) == register(
            fs,
            roots,
            name,
            store_path,
            env,
        ),
{
    law_ready_registers(fs, roots, name, store_path, env);
    law_replace(fs, roots, name, store_path, store_path, env);
}

/// Where the conditions of `ready` hold, registration succeeds and then the
/// project-local link points at the store path, and the collector-visible
/// link points at the project-local link: two hops lead from the collector
/// to the store path.
pub proof fn law_two_hops(
    fs: Fs,
    roots: RootsView,
    name: Seq<char>,
    store_path: Seq<char>,
    env: (Option<Seq<char>>, Option<Seq<char>>),
)
    requires
        ready(fs, roots, name, env),
    ensures
        register(fs, roots, name, store_path, env).1 == ActionView::Finish(Ok(link_path(roots, name))),
        register(fs, roots, name, store_path, env).0[link_path(roots, name)] == Node::Link(store_path),
        register(fs, roots, name, store_path, env).0[env_collector_link(roots, name, env)] == Node::Link(
            link_path(roots, name),
        ),
{
    let dir = env_user_dir(env);
    lemma_link_shape(roots.root_dir, name);
    lemma_user_dir_shape(state_dir_of(env.0), env.1->0);
    lemma_collector_shape(dir, roots.id, name);
    law_ready_registers(fs, roots, name, store_path, env);
}

/// Where the per-user directory is missing and the conditions of `ready`
/// hold (among them, that its parent exists), registration creates it and
/// succeeds.
pub proof fn law_missing_user_dir(
    fs: Fs,
    roots: RootsView,
    name: Seq<char>,
    store_path: Seq<char>,
    env: (Option<Seq<char>>, Option<Seq<char>>),
)
    requires
        ready(fs, roots, name, env),
        !fs.contains_key(env_user_dir(env)),
    ensures
        register(fs, roots, name, store_path, env).1 == ActionView::Finish(Ok(link_path(roots, name))),
        is_dir_entry(register(fs, roots, name, store_path, env).0, env_user_dir(env)),
{
    let user = env.1->0;
    let state = state_dir_of(env.0);
    let dir = user_dir_path(state, user);
    lemma_link_shape(roots.root_dir, name);
    lemma_user_dir_shape(state, user);
    lemma_collector_shape(dir, roots.id, name);
    law_ready_registers(fs, roots, name, store_path, env);
}

/// A directory at the project-local link path is not removed: registration
/// stops at once with a removal error naming that path.
pub proof fn law_directory_at_link(
    fs: Fs,
    roots: RootsView,
    name: Seq<char>,
    store_path: Seq<char>,
    env: (Option<Seq<char>>, Option<Seq<char>>),
)
    requires
        fs.contains_key(link_path(roots, name)),
        fs[link_path(roots, name)] is Dir,
    ensures
        register(fs, roots, name, store_path, env) == (
        fs,
        ActionView::Finish(
            Err(
                crate::roots::AddRootErrorView {
                    error: failure(IoErrorKind::IsADirectory),
                    context: crate::roots::delete_context(link_path(roots, name)),
                },
            ),
        ),
        ),
{
    let s0 = start(roots, name, store_path, env);
    let a0 = ActionView::RemoveFile(link_path(roots, name));
    let (fs1, e1) = perform(fs, a0);
    assert(run(fs, s0, a0, 6) == run(fs1, after(s0, e1), next(s0, e1).1, 5));
}

/// A directory at the collector-visible link path is not removed:
/// registration stops with a removal error naming that path, after
/// replacing the project-local link.
pub proof fn law_directory_at_collector_link(
    fs: Fs,
    roots: RootsView,
    name: Seq<char>,
    store_path: Seq<char>,
    env: (Option<Seq<char>>, Option<Seq<char>>),
)
    requires
        prepared(fs, roots, name, env),
        fs.contains_key(env_collector_link(roots, name, env)),
        fs[env_collector_link(roots, name, env)] is Dir,
    ensures
        register(fs, roots, name, store_path, env).1 == ActionView::Finish(
            Err(
                crate::roots::AddRootErrorView {
                    error: failure(IoErrorKind::IsADirectory),
                    context: crate::roots::delete_context(env_collector_link(roots, name, env)),
                },
            ),
        ),
        register(fs, roots, name, store_path, env).0[link_path(roots, name)] == Node::Link(store_path),
{
    let user = env.1->0;
    let state = state_dir_of(env.0);
    let dir = user_dir_path(state, user);
    let link = link_path(roots, name);
    let clink = collector_link_path(dir, roots.id, name);
    lemma_link_shape(roots.root_dir, name);
    lemma_user_dir_shape(state, user);
    lemma_collector_shape(dir, roots.id, name);
    assert(link != clink);
    assert(dir != clink);
    let (fs4, s4, fuel) = lemma_first_calls(fs, roots, name, store_path, env);
    let a4 = ActionView::RemoveFile(clink);
    let (fs5, e5) = perform(fs4, a4);
    assert(fs5 == fs4);
    assert(run(fs4, s4, a4, fuel) == run(fs5, after(s4, e5), next(s4, e5).1, (fuel - 1) as nat));
}

/// Removing a project-local link that is absent is no error: registration
/// goes on to create the link.
pub proof fn law_absent_link(
    fs: Fs,
    roots: RootsView,
    name: Seq<char>,
    store_path: Seq<char>,
    env: (Option<Seq<char>>, Option<Seq<char>>),
)
    requires
        !fs.contains_key(link_path(roots, name)),
    ensures
        next(
            start(roots, name, store_path, env),
            perform(fs, ActionView::RemoveFile(link_path(roots, name))).1,
        ) == (crate::roots::Stage::MakeLink, ActionView::Symlink {
            src: store_path,
            dest: link_path(roots, name),
        }),
{
}

} // verus!
