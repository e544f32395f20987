//! What holds of whole operations when their requests are carried out on the
//! tree of [`crate::model`].

use crate::config::ConfigView;
use crate::create::{CreateStateView, CreateStepView, Outcome, SubVersionView};
use crate::error::ErrorKind;
use crate::install::{chosen_child, InstallStateView, InstallStepView, LeafTargetView};
use crate::model::{run_create, run_ensure, run_install, Fate, Tree};
use crate::navigator::ProvisionView;
use crate::protocol::RequestView;
use vstd::prelude::*;

verus! {

/// The reply that a tree gives to a request is of the kind that answers it,
/// so every request that is carried out moves an engine on.
pub proof fn lemma_reply_answers(tree: Tree, request: RequestView, fate: Fate)
    ensures
        request.accepts(tree.reply(request, fate)),
{
}

/// Once a directory was made sure of, making sure of it again succeeds,
/// makes nothing and leaves the tree as it is, whatever the fates.
pub proof fn lemma_ensure_directory_twice(
    tree: Tree,
    path: Seq<Seq<char>>,
    first: Seq<Fate>,
    second: Seq<Fate>,
)
    requires
        run_ensure(tree, ProvisionView::start(path), first).1 matches Some(Ok(_)),
        second.len() > 0,
    ensures
        ({
            let once = run_ensure(tree, ProvisionView::start(path), first).0;
            &&& once.directories.contains(path)
            &&& run_ensure(once, ProvisionView::start(path), second) == (
                once,
                Some(Ok::<bool, ErrorKind>(false)),
            )
        }),
{
    reveal_with_fuel(run_ensure, 3);
}

/// The sub-version `job` is the child `name` of the version at `base`, whose
/// record in `origin` is the parent that `job` holds and does not list `name`.
pub open spec fn child_of(
    origin: Tree,
    job: SubVersionView,
    name: Seq<char>,
    base: Seq<Seq<char>>,
) -> bool {
    &&& job.base == base
    &&& job.name == name
    &&& origin.load(base) == Ok::<ConfigView, ErrorKind>(job.parent)
    &&& !job.parent.has_child(name)
}

/// `tree` is `origin` with the directory at `path` made sure of: made if and
/// only if it was missing, and no record touched but perhaps the one at `path`.
pub open spec fn directory_settled(
    origin: Tree,
    tree: Tree,
    path: Seq<Seq<char>>,
    made_directory: bool,
) -> bool {
    &&& made_directory == !origin.directories.contains(path)
    &&& tree.directories == origin.directories.insert(path)
    &&& tree.records.remove(path) == origin.records.remove(path)
}

/// What holds between the tree `origin` in which the creation of `name` at
/// `base` began and the tree `tree` in which it has come to `state`.
pub open spec fn create_underway(
    origin: Tree,
    tree: Tree,
    state: CreateStateView,
    name: Seq<char>,
    base: Seq<Seq<char>>,
) -> bool {
    match state {
        CreateStateView::LoadBase { base: at, name: called } => {
            &&& at == base
            &&& called == name
            &&& tree == origin
        },
        CreateStateView::RootDialogue { base: at, .. } => {
            &&& at == base
            &&& tree == origin
            &&& !origin.has_record(base)
        },
        CreateStateView::RootSave { base: at, record } => {
            &&& at == base
            &&& tree == origin
            &&& !origin.has_record(base)
            &&& record.is_leaf()
        },
        CreateStateView::Directory { job, provision } => {
            &&& child_of(origin, job, name, base)
            &&& tree == origin
            &&& provision.path() == job.path()
            &&& provision is Create ==> !origin.directories.contains(job.path())
        },
        CreateStateView::ProbeRecord { job, made_directory } => {
            &&& child_of(origin, job, name, base)
            &&& directory_settled(origin, tree, job.path(), made_directory)
            &&& tree.records == origin.records
        },
        CreateStateView::ChildDialogue { job, made_directory, .. } => {
            &&& child_of(origin, job, name, base)
            &&& directory_settled(origin, tree, job.path(), made_directory)
            &&& tree.records == origin.records
            &&& !origin.has_record(job.path())
        },
        CreateStateView::ChildSave { job, made_directory, record } => {
            &&& child_of(origin, job, name, base)
            &&& directory_settled(origin, tree, job.path(), made_directory)
            &&& tree.records == origin.records
            &&& !origin.has_record(job.path())
            &&& record.is_leaf()
        },
        CreateStateView::ParentSave { job, made_directory, made_record } => {
            &&& child_of(origin, job, name, base)
            &&& directory_settled(origin, tree, job.path(), made_directory)
            &&& tree.has_record(job.path())
            &&& made_record == !origin.has_record(job.path())
            &&& !made_record ==> tree.records == origin.records
            &&& made_record ==> tree.load(job.path()) is Ok && tree.load(job.path())->Ok_0.is_leaf()
        },
        CreateStateView::Rollback { job } => {
            &&& child_of(origin, job, name, base)
            &&& directory_settled(origin, tree, job.path(), true)
        },
    }
}

/// What a creation of `name` at `base` that began in the tree `origin` and
/// ended with `result` has left as the tree `end`.
pub open spec fn create_ended(
    origin: Tree,
    end: Tree,
    result: Result<Outcome, ErrorKind>,
    name: Seq<char>,
    base: Seq<Seq<char>>,
) -> bool {
    let child = base.push(name);
    match result {
        // A root version: the directory had no record and has a leaf's now.
        Ok(Outcome::RootCreated) => {
            &&& !origin.has_record(base)
            &&& end.load(base) is Ok
            &&& end.load(base)->Ok_0.is_leaf()
            &&& end.directories == origin.directories
            &&& end.records.remove(base) == origin.records.remove(base)
        },
        // A sub-version: the child directory is there with a record, made
        // if and only if it had none, and the parent lists the child last.
        Ok(outcome) => {
            &&& origin.load(base) is Ok
            &&& !origin.load(base)->Ok_0.has_child(name)
            &&& end.load(base) == Ok::<ConfigView, ErrorKind>(
                origin.load(base)->Ok_0.with_child(name),
            )
            &&& end.directories == origin.directories.insert(child)
            &&& end.has_record(child)
            &&& (outcome is ChildAdopted) == origin.has_record(child)
            &&& outcome is ChildAdopted ==> end.records[child] == origin.records[child]
            &&& outcome is ChildCreated ==> end.load(child) is Ok && end.load(child)->Ok_0.is_leaf()
            &&& end.records.remove(base).remove(child) == origin.records.remove(base).remove(
                child,
            )
        },
        // The name is taken: nothing was touched.
        Err(ErrorKind::DuplicateName) => {
            &&& end == origin
            &&& origin.load(base) is Ok
            &&& origin.load(base)->Ok_0.has_child(name)
        },
        // The record of the directory is no record: nothing was touched.
        Err(ErrorKind::Malformed) => {
            &&& end == origin
            &&& origin.load(base) == Err::<ConfigView, ErrorKind>(ErrorKind::Malformed)
        },
        // A directory or a record could not be made: no record was changed,
        // and at most the child directory was made.
        Err(ErrorKind::IOFailure) => {
            &&& end.records == origin.records
            &&& end.directories == origin.directories || end.directories
                == origin.directories.insert(child)
        },
        // The parent's record could not be written: it is as it was. A child
        // directory that was there before is left, one that was made is
        // removed again unless the removal failed.
        Err(ErrorKind::PersistFailure { rollback_failed }) => {
            &&& origin.load(base) is Ok
            &&& end.load(base) == origin.load(base)
            &&& if origin.directories.contains(child) {
                &&& !rollback_failed
                &&& end.directories == origin.directories
                &&& end.records.remove(child) == origin.records.remove(child)
            } else if rollback_failed {
                &&& end.directories == origin.directories.insert(child)
                &&& end.records.remove(child) == origin.records.remove(child)
            } else {
                end == origin.without(child)
            }
        },
        // A creation ends in no other way.
        Err(_) => false,
    }
}

/// A place is not the place of one of its children.
pub proof fn lemma_child_is_elsewhere(base: Seq<Seq<char>>, name: Seq<char>)
    ensures
        base.push(name) != base,
        !base.push(name).is_prefix_of(base),
{
    assert(base.push(name).len() == base.len() + 1);
}

/// Two trees whose records differ at one place at most read the same at
/// every other place.
pub proof fn lemma_same_elsewhere(
    one: Tree,
    other: Tree,
    place: Seq<Seq<char>>,
    elsewhere: Seq<Seq<char>>,
)
    requires
        one.records.remove(place) == other.records.remove(place),
        elsewhere != place,
    ensures
        one.has_record(elsewhere) == other.has_record(elsewhere),
        one.has_record(elsewhere) ==> one.records[elsewhere] == other.records[elsewhere],
        one.load(elsewhere) == other.load(elsewhere),
{
    assert(one.records.remove(place).dom().contains(elsewhere) == one.has_record(elsewhere));
    assert(other.records.remove(place).dom().contains(elsewhere) == other.has_record(elsewhere));
    if one.has_record(elsewhere) {
        assert(one.records.remove(place)[elsewhere] == one.records[elsewhere]);
        assert(other.records.remove(place)[elsewhere] == other.records[elsewhere]);
    }
}

/// One request carried out keeps a creation on its way, or ends it as
/// [`create_ended`] says.
pub proof fn lemma_create_step(
    origin: Tree,
    tree: Tree,
    state: CreateStateView,
    fate: Fate,
    name: Seq<char>,
    base: Seq<Seq<char>>,
)
    requires
        create_underway(origin, tree, state, name, base),
    ensures
        match state.next(tree.reply(state.request(), fate)) {
            CreateStepView::Continue(state_after) => create_underway(
                origin,
                tree.after(state.request(), fate),
                state_after,
                name,
                base,
            ),
            CreateStepView::Finish(result) => create_ended(
                origin,
                tree.after(state.request(), fate),
                result,
                name,
                base,
            ),
        },
{
    let child = base.push(name);
    let request = state.request();
    let reply = tree.reply(request, fate);
    let tree_after = tree.after(request, fate);
    lemma_child_is_elsewhere(base, name);
    match state {
        CreateStateView::LoadBase { .. } => {
            assert(tree_after == origin);
        },
        CreateStateView::RootDialogue { .. } => {
            assert(tree_after == origin);
        },
        CreateStateView::RootSave { record, .. } => {
            if fate.succeeds {
                assert(tree_after.records.remove(base) =~= origin.records.remove(base));
                assert(tree_after.load(base) == Ok::<ConfigView, ErrorKind>(record));
            }
        },
        CreateStateView::Directory { job, provision } => {
            assert(job.path() == child);
            match provision {
                ProvisionView::Probe { .. } => {
                    assert(tree_after == origin);
                    if origin.directories.contains(child) {
                        assert(origin.directories.insert(child) =~= origin.directories);
                    }
                },
                ProvisionView::Create { .. } => {},
            }
        },
        CreateStateView::ProbeRecord { job, .. } => {
            assert(tree_after == tree);
        },
        CreateStateView::ChildDialogue { job, .. } => {
            assert(tree_after == tree);
        },
        CreateStateView::ChildSave { job, record, .. } => {
            assert(job.path() == child);
            if fate.succeeds {
                assert(tree_after.records.remove(child) =~= origin.records.remove(child));
                assert(tree_after.load(child) == Ok::<ConfigView, ErrorKind>(record));
            }
        },
        CreateStateView::ParentSave { job, made_directory, made_record } => {
            assert(job.path() == child);
            lemma_same_elsewhere(tree, origin, child, base);
            if fate.succeeds {
                assert(tree_after.records.remove(base).remove(child) =~= tree.records.remove(
                    child,
                ).remove(base));
                assert(origin.records.remove(base).remove(child) =~= origin.records.remove(
                    child,
                ).remove(base));
                assert(tree_after.load(child) == tree.load(child));
                assert(tree_after.load(base) == Ok::<ConfigView, ErrorKind>(job.parent_record()));
            } else if !made_directory {
                assert(origin.directories.insert(child) =~= origin.directories);
            }
        },
        CreateStateView::Rollback { job } => {
            assert(job.path() == child);
            lemma_same_elsewhere(tree, origin, child, base);
            if fate.succeeds {
                assert forall|place: Seq<Seq<char>>| !child.is_prefix_of(place) implies (
                tree.has_record(place) == origin.has_record(place) && (tree.has_record(place)
                    ==> tree.records[place] == origin.records[place])) by {
                    assert(child.is_prefix_of(child));
                    lemma_same_elsewhere(tree, origin, child, place);
                }
                assert(tree.without(child).directories =~= origin.without(child).directories);
                assert(tree.without(child).records =~= origin.without(child).records);
                assert(tree_after == origin.without(child));
                assert(origin.without(child).load(base) == origin.load(base));
            }
        },
    }
}

/// From any state that a creation has come to, it ends as [`create_ended`]
/// says, if it ends.
pub proof fn lemma_create_goes_on(
    origin: Tree,
    tree: Tree,
    state: CreateStateView,
    fates: Seq<Fate>,
    name: Seq<char>,
    base: Seq<Seq<char>>,
)
    requires
        create_underway(origin, tree, state, name, base),
    ensures
        run_create(tree, state, fates).1 matches Some(result) ==> create_ended(
            origin,
            run_create(tree, state, fates).0,
            result,
            name,
            base,
        ),
    decreases fates.len(),
{
    if fates.len() > 0 {
        let tree_after = tree.after(state.request(), fates[0]);
        lemma_create_step(origin, tree, state, fates[0], name, base);
        match state.next(tree.reply(state.request(), fates[0])) {
            CreateStepView::Continue(state_after) => {
                lemma_create_goes_on(origin, tree_after, state_after, fates.drop_first(), name, base);
            },
            CreateStepView::Finish(result) => {},
        }
    }
}

/// A creation of `name` at `base` that ends has done to the tree what
/// [`create_ended`] says of its result, whatever the fates.
pub proof fn lemma_create_ends(
    tree: Tree,
    name: Seq<char>,
    base: Seq<Seq<char>>,
    fates: Seq<Fate>,
)
    ensures
        run_create(tree, CreateStateView::start(name, base), fates).1 matches Some(result)
            ==> create_ended(
            tree,
            run_create(tree, CreateStateView::start(name, base), fates).0,
            result,
            name,
            base,
        ),
{
    lemma_create_goes_on(tree, tree, CreateStateView::start(name, base), fates, name, base);
}

/// The same sub-version cannot be made twice. After a creation of `name`
/// below the version at `base` has ended well, a second one ends with
/// `DuplicateName` on its first reply and leaves the tree, and so the
/// parent's list of children, as the first one left it.
pub proof fn lemma_create_twice(
    tree: Tree,
    name: Seq<char>,
    base: Seq<Seq<char>>,
    first: Seq<Fate>,
    second: Seq<Fate>,
)
    requires
        tree.has_record(base),
        run_create(tree, CreateStateView::start(name, base), first).1 matches Some(Ok(_)),
        second.len() > 0,
    ensures
        ({
            let once = run_create(tree, CreateStateView::start(name, base), first).0;
            run_create(once, CreateStateView::start(name, base), second) == (
                once,
                Some(Err::<Outcome, ErrorKind>(ErrorKind::DuplicateName)),
            )
        }),
{
    let start = CreateStateView::start(name, base);
    let once = run_create(tree, start, first).0;
    lemma_create_ends(tree, name, base, first);
    let parent = tree.load(base)->Ok_0;
    assert(once.load(base) == Ok::<ConfigView, ErrorKind>(parent.with_child(name)));
    assert(parent.with_child(name).children.last() == name);
    assert(parent.with_child(name).has_child(name));
    assert(once.after(start.request(), second[0]) == once);
}

/// A creation keeps the invariant of the parent's record: where no child
/// was listed twice before, none is listed twice after, and the new name is
/// the last of the list.
pub proof fn lemma_create_keeps_children_unique(
    tree: Tree,
    name: Seq<char>,
    base: Seq<Seq<char>>,
    fates: Seq<Fate>,
)
    requires
        tree.load(base) is Ok,
        tree.load(base)->Ok_0.unique_children(),
        run_create(tree, CreateStateView::start(name, base), fates).1 matches Some(Ok(_)),
    ensures
        ({
            let end = run_create(tree, CreateStateView::start(name, base), fates).0;
            &&& end.load(base) is Ok
            &&& end.load(base)->Ok_0.unique_children()
            &&& end.load(base)->Ok_0.children == tree.load(base)->Ok_0.children.push(name)
        }),
{
    lemma_create_ends(tree, name, base, fates);
    let parent = tree.load(base)->Ok_0;
    assert(!parent.children.contains(name));
    assert forall|i: int, j: int|
        0 <= i < parent.children.len() + 1 && 0 <= j < parent.children.len() + 1 && i
            != j implies parent.children.push(name)[i] != parent.children.push(name)[j] by {
        if i < parent.children.len() && j < parent.children.len() {
        } else if i < parent.children.len() {
            assert(parent.children.contains(parent.children[i]));
        } else {
            assert(parent.children.contains(parent.children[j]));
        }
    }
}

/// A parent never lists a child that was not made: after a creation below
/// the version at `base` has ended well, the child's directory is there and
/// holds a record.
pub proof fn lemma_listed_child_is_there(
    tree: Tree,
    name: Seq<char>,
    base: Seq<Seq<char>>,
    fates: Seq<Fate>,
)
    requires
        tree.has_record(base),
        run_create(tree, CreateStateView::start(name, base), fates).1 matches Some(Ok(_)),
    ensures
        ({
            let end = run_create(tree, CreateStateView::start(name, base), fates).0;
            &&& end.load(base) is Ok
            &&& end.load(base)->Ok_0.has_child(name)
            &&& end.directories.contains(base.push(name))
            &&& end.has_record(base.push(name))
        }),
{
    lemma_create_ends(tree, name, base, fates);
    let parent = tree.load(base)->Ok_0;
    assert(parent.with_child(name).children.last() == name);
}

/// Where the parent's record cannot be written after the child was made, the
/// record in the tree is the one from before the creation, and a child
/// directory that the creation made is gone again with all that was put in
/// it, unless its removal failed too. A child directory that was there before
/// the creation is not removed.
pub proof fn lemma_failed_parent_write(
    tree: Tree,
    name: Seq<char>,
    base: Seq<Seq<char>>,
    fates: Seq<Fate>,
)
    requires
        run_create(tree, CreateStateView::start(name, base), fates).1 matches Some(
            Err(ErrorKind::PersistFailure { .. }),
        ),
    ensures
        ({
            let (end, result) = run_create(tree, CreateStateView::start(name, base), fates);
            let rollback_failed = result->Some_0->Err_0->rollback_failed;
            let child = base.push(name);
            &&& end.load(base) == tree.load(base)
            &&& !tree.directories.contains(child) && !rollback_failed ==> {
                &&& !end.directories.contains(child)
                &&& !end.has_record(child)
                &&& end == tree.without(child)
            }
            &&& tree.directories.contains(child) ==> {
                &&& end.directories == tree.directories
                &&& !rollback_failed
            }
        }),
{
    lemma_create_ends(tree, name, base, fates);
    let child = base.push(name);
    assert(child.is_prefix_of(child));
}

/// The numbers from 1 to the number of children are the choices, and no
/// others: the number `k` stands for the `k`-th child in the order of the
/// record, and what is no number stands for none.
pub proof fn lemma_choice_follows_order(children: Seq<Seq<char>>, number: usize)
    ensures
        chosen_child(children, Some(number)) is Ok <==> 1 <= number <= children.len(),
        chosen_child(children, Some(number)) is Ok ==> chosen_child(children, Some(number))
            == Ok::<Seq<char>, ErrorKind>(children[number - 1]),
        chosen_child(children, Some(number)) is Err ==> chosen_child(children, Some(number))
            == Err::<Seq<char>, ErrorKind>(ErrorKind::InvalidSelection),
        chosen_child(children, None) == Err::<Seq<char>, ErrorKind>(ErrorKind::InvalidSelection),
{
}

/// Every step from `base` down to `path` goes from a version to a child
/// that its record in `tree` lists.
pub open spec fn descends(tree: Tree, base: Seq<Seq<char>>, path: Seq<Seq<char>>) -> bool {
    &&& base.is_prefix_of(path)
    &&& forall|depth: int|
        base.len() <= depth < path.len() ==> {
            &&& (#[trigger] tree.load(path.take(depth))) is Ok
            &&& tree.load(path.take(depth))->Ok_0.has_child(path[depth])
        }
}

/// The walk took the child that was asked for, if one was: `path` goes from
/// `base` through the child `requested`.
pub open spec fn goes_through(
    requested: Option<Seq<char>>,
    base: Seq<Seq<char>>,
    path: Seq<Seq<char>>,
) -> bool {
    &&& path.len() > base.len()
    &&& requested matches Some(name) ==> path[base.len() as int] == name
}

/// What holds between the tree `origin` in which the walk from `base` began
/// and the tree `tree` in which it has come to `state`.
pub open spec fn install_underway(
    origin: Tree,
    tree: Tree,
    state: InstallStateView,
    requested: Option<Seq<char>>,
    base: Seq<Seq<char>>,
) -> bool {
    &&& tree == origin
    &&& match state {
        InstallStateView::LoadRecord { path, requested: wanted } => {
            &&& descends(origin, base, path)
            &&& if path == base {
                wanted == requested
            } else {
                wanted is None && goes_through(requested, base, path)
            }
        },
        InstallStateView::Choose { path, record } => {
            &&& descends(origin, base, path)
            &&& origin.load(path) == Ok::<ConfigView, ErrorKind>(record)
            &&& if path == base {
                requested is None
            } else {
                goes_through(requested, base, path)
            }
        },
        InstallStateView::LoadChild { path } => {
            &&& descends(origin, base, path)
            &&& goes_through(requested, base, path)
        },
    }
}

/// What a walk from `base` that began in the tree `origin` and ended with
/// `result` has found, and that it has left the tree as it was.
pub open spec fn install_ended(
    origin: Tree,
    end: Tree,
    result: Result<LeafTargetView, ErrorKind>,
    requested: Option<Seq<char>>,
    base: Seq<Seq<char>>,
) -> bool {
    &&& end == origin
    &&& match result {
        // A leaf below `base`, reached from child to child, with its record.
        Ok(leaf) => {
            &&& origin.load(leaf.path) == Ok::<ConfigView, ErrorKind>(leaf.record)
            &&& leaf.record.is_leaf()
            &&& descends(origin, base, leaf.path)
            &&& goes_through(requested, base, leaf.path)
        },
        // The child that was asked for is not listed.
        Err(ErrorKind::UnknownVersion) => {
            &&& requested is Some
            &&& origin.load(base) is Ok
            &&& !origin.load(base)->Ok_0.has_child(requested->Some_0)
        },
        // A choice was no number of a listed child.
        Err(ErrorKind::InvalidSelection) => true,
        // A record on the way is missing or is no record.
        Err(ErrorKind::NotFound) | Err(ErrorKind::Malformed) => true,
        // A walk ends in no other way.
        Err(_) => false,
    }
}

/// A walk that goes one child further still descends from child to child.
pub proof fn lemma_descends_further(
    tree: Tree,
    base: Seq<Seq<char>>,
    path: Seq<Seq<char>>,
    name: Seq<char>,
)
    requires
        descends(tree, base, path),
        tree.load(path) is Ok,
        tree.load(path)->Ok_0.has_child(name),
    ensures
        descends(tree, base, path.push(name)),
        path.push(name) != base,
        path.push(name).len() > base.len(),
        path.len() > base.len() ==> path.push(name)[base.len() as int] == path[base.len() as int],
        path == base ==> path.push(name)[base.len() as int] == name,
{
    let longer = path.push(name);
    assert(longer.len() == path.len() + 1);
    assert forall|depth: int| base.len() <= depth < longer.len() implies (#[trigger] tree.load(
        longer.take(depth),
    )) is Ok && tree.load(longer.take(depth))->Ok_0.has_child(longer[depth]) by {
        if depth < path.len() {
            assert(longer.take(depth) =~= path.take(depth));
            assert(tree.load(path.take(depth)) is Ok);
        } else {
            assert(longer.take(depth) =~= path);
        }
    }
}

/// One request carried out keeps a walk on its way, or ends it as
/// [`install_ended`] says.
pub proof fn lemma_install_step(
    origin: Tree,
    tree: Tree,
    state: InstallStateView,
    fate: Fate,
    requested: Option<Seq<char>>,
    base: Seq<Seq<char>>,
)
    requires
        install_underway(origin, tree, state, requested, base),
    ensures
        match state.next(tree.reply(state.request(), fate)) {
            InstallStepView::Continue(state_after) => install_underway(
                origin,
                tree.after(state.request(), fate),
                state_after,
                requested,
                base,
            ),
            InstallStepView::Finish(result) => install_ended(
                origin,
                tree.after(state.request(), fate),
                result,
                requested,
                base,
            ),
        },
{
    let reply = tree.reply(state.request(), fate);
    assert(tree.after(state.request(), fate) == tree);
    match state {
        InstallStateView::LoadRecord { path, requested: wanted } => {
            if tree.load(path) is Ok {
                let record = tree.load(path)->Ok_0;
                if wanted is Some && record.has_child(wanted->Some_0) {
                    lemma_descends_further(tree, base, path, wanted->Some_0);
                }
            }
        },
        InstallStateView::Choose { path, record } => {
            if let Ok(name) = chosen_child(record.children, fate.choice) {
                assert(record.children.contains(name));
                lemma_descends_further(tree, base, path, name);
            }
        },
        InstallStateView::LoadChild { path } => {},
    }
}

/// From any state that a walk has come to, it ends as [`install_ended`]
/// says, if it ends.
pub proof fn lemma_install_goes_on(
    origin: Tree,
    tree: Tree,
    state: InstallStateView,
    fates: Seq<Fate>,
    requested: Option<Seq<char>>,
    base: Seq<Seq<char>>,
)
    requires
        install_underway(origin, tree, state, requested, base),
    ensures
        run_install(tree, state, fates).1 matches Some(result) ==> install_ended(
            origin,
            run_install(tree, state, fates).0,
            result,
            requested,
            base,
        ),
    decreases fates.len(),
{
    if fates.len() > 0 {
        let tree_after = tree.after(state.request(), fates[0]);
        lemma_install_step(origin, tree, state, fates[0], requested, base);
        match state.next(tree.reply(state.request(), fates[0])) {
            InstallStepView::Continue(state_after) => {
                lemma_install_goes_on(
                    origin,
                    tree_after,
                    state_after,
                    fates.drop_first(),
                    requested,
                    base,
                );
            },
            InstallStepView::Finish(result) => {},
        }
    }
}

/// A walk from `base` that ends has left the tree as it was, and has found
/// what [`install_ended`] says of its result: a leaf that lies below `base`,
/// is reached from child to child through the child that was asked for, and
/// comes with the record that the tree holds for it.
pub proof fn lemma_install_ends(
    tree: Tree,
    requested: Option<Seq<char>>,
    base: Seq<Seq<char>>,
    fates: Seq<Fate>,
)
    ensures
        run_install(tree, InstallStateView::start(requested, base), fates).0 == tree,
        run_install(tree, InstallStateView::start(requested, base), fates).1 matches Some(result)
            ==> install_ended(tree, tree, result, requested, base),
{
    let start = InstallStateView::start(requested, base);
    lemma_install_goes_on(tree, tree, start, fates, requested, base);
    lemma_install_reads_only(tree, start, fates);
}

/// A walk changes nothing in the tree, however far it gets.
pub proof fn lemma_install_reads_only(tree: Tree, state: InstallStateView, fates: Seq<Fate>)
    ensures
        run_install(tree, state, fates).0 == tree,
    decreases fates.len(),
{
    if fates.len() > 0 {
        assert(tree.after(state.request(), fates[0]) == tree);
        match state.next(tree.reply(state.request(), fates[0])) {
            InstallStepView::Continue(state_after) => {
                lemma_install_reads_only(tree, state_after, fates.drop_first());
            },
            InstallStepView::Finish(result) => {},
        }
    }
}

/// A name that the version at `base` does not list is turned down at once:
/// the walk ends with `UnknownVersion` on the reply to its first request, the
/// reading of that version's record, and the tree is as it was.
pub proof fn lemma_unknown_name(
    tree: Tree,
    name: Seq<char>,
    base: Seq<Seq<char>>,
    fates: Seq<Fate>,
)
    requires
        tree.load(base) is Ok,
        !tree.load(base)->Ok_0.has_child(name),
        fates.len() > 0,
    ensures
        InstallStateView::start(Some(name), base).request() == (RequestView::LoadRecord {
            path: base,
        }),
        run_install(tree, InstallStateView::start(Some(name), base), fates) == (
            tree,
            Some(Err::<LeafTargetView, ErrorKind>(ErrorKind::UnknownVersion)),
        ),
{
    let start = InstallStateView::start(Some(name), base);
    assert(tree.after(start.request(), fates[0]) == tree);
}

} // verus!
