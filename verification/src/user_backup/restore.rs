//! Restoring a backup: the current data is moved out of the way first, and moved back when anything
//! fails.
use vstd::prelude::*;

use crate::error;
use crate::error::{Error, Result};
use crate::paths;
use crate::text;
use crate::user_backup::manifest;
use crate::user_backup::manifest::{Manifest, UserBackupPaths};

verus! {

/// A restored backup.
#[derive(Debug, PartialEq, Eq)]
pub struct UserRestoreSummary {
    pub id: String,
    pub rollback_created: bool,
    pub restart_required: bool,
}

/// A part of the user's data that is replaced as a whole.
#[derive(Debug, Clone, Copy, PartialEq, Eq, Structural)]
pub enum Root {
    Database,
    Media,
    /// The pictures, where they are outside of the media directory.
    Pictures,
    /// The videos, where they are outside of the media directory.
    Videos,
}

/// A step of a restore.
#[derive(Debug, Clone, Copy, PartialEq, Eq, Structural)]
pub enum RestoreStep {
    /// Move what is there to where it is kept.
    MoveOut(Root),
    /// Put what was staged in place, or an empty directory where nothing was staged.
    Place(Root),
    /// Remove what is there.
    Remove(Root),
    /// Move what is kept back, if anything is.
    MoveBack(Root),
    /// Remove what is kept.
    DropOld(Root),
}

/// What there is and where the parts are.
#[derive(Debug, Clone, Copy, PartialEq, Eq, Structural)]
pub struct RestoreRoots {
    pub database_exists: bool,
    pub media_exists: bool,
    pub pictures_external: bool,
    pub pictures_exist: bool,
    pub videos_external: bool,
    pub videos_exist: bool,
}

/// A list with one step, or none.
pub open spec fn step_if(wanted: bool, step: RestoreStep) -> Seq<RestoreStep> {
    if wanted {
        seq![step]
    } else {
        Seq::empty()
    }
}

/// The steps that move the current data out of the way.
pub open spec fn move_steps_of(r: RestoreRoots) -> Seq<RestoreStep> {
    step_if(r.database_exists, RestoreStep::MoveOut(Root::Database)) + step_if(
        r.media_exists,
        RestoreStep::MoveOut(Root::Media),
    ) + step_if(
        r.pictures_external && r.pictures_exist,
        RestoreStep::MoveOut(Root::Pictures),
    ) + step_if(r.videos_external && r.videos_exist, RestoreStep::MoveOut(Root::Videos))
}

/// The step that takes a move back.
pub open spec fn undone(step: RestoreStep) -> RestoreStep {
    match step {
        RestoreStep::MoveOut(root) => RestoreStep::MoveBack(root),
        other => other,
    }
}

/// The steps that take moves back.
pub open spec fn undo_moves(moves: Seq<RestoreStep>) -> Seq<RestoreStep> {
    moves.map_values(|s: RestoreStep| undone(s))
}

/// The steps that put a backup in place.
pub open spec fn place_steps_of() -> Seq<RestoreStep> {
    seq![
        RestoreStep::Place(Root::Database),
        RestoreStep::Place(Root::Media),
        RestoreStep::Place(Root::Pictures),
        RestoreStep::Place(Root::Videos),
    ]
}

/// The steps that take a failed replacement back: what was put in place is removed, and what was
/// moved out is moved back.
pub open spec fn undo_steps_of(r: RestoreRoots) -> Seq<RestoreStep> {
    seq![RestoreStep::Remove(Root::Database), RestoreStep::Remove(Root::Media)] + step_if(
        r.pictures_external,
        RestoreStep::Remove(Root::Pictures),
    ) + step_if(r.videos_external, RestoreStep::Remove(Root::Videos)) + seq![
        RestoreStep::MoveBack(Root::Database),
        RestoreStep::MoveBack(Root::Media),
        RestoreStep::MoveBack(Root::Pictures),
        RestoreStep::MoveBack(Root::Videos),
    ]
}

/// The steps that clean up after a restore.
pub open spec fn cleanup_steps_of() -> Seq<RestoreStep> {
    seq![
        RestoreStep::DropOld(Root::Database),
        RestoreStep::DropOld(Root::Media),
        RestoreStep::DropOld(Root::Pictures),
        RestoreStep::DropOld(Root::Videos),
    ]
}

/// The steps that move the current data out of the way, in order.
pub fn move_steps(r: RestoreRoots) -> (steps: Vec<RestoreStep>)
    ensures
        steps@ == move_steps_of(r),
{
    let mut steps: Vec<RestoreStep> = Vec::new();
    if r.database_exists {
        steps.push(RestoreStep::MoveOut(Root::Database));
    }
    if r.media_exists {
        steps.push(RestoreStep::MoveOut(Root::Media));
    }
    if r.pictures_external && r.pictures_exist {
        steps.push(RestoreStep::MoveOut(Root::Pictures));
    }
    if r.videos_external && r.videos_exist {
        steps.push(RestoreStep::MoveOut(Root::Videos));
    }
    assert(steps@ =~= move_steps_of(r));
    steps
}

/// The steps that take back the first moves, after the next one failed.
pub fn rollback_roots(moves: &Vec<RestoreStep>, done: usize) -> (steps: Vec<RestoreStep>)
    requires
        done <= moves@.len(),
    ensures
        steps@ == undo_moves(moves@.subrange(0, done as int)),
{
    let mut steps: Vec<RestoreStep> = Vec::new();
    let mut i: usize = 0;
    while i < done
        invariant
            i <= done <= moves@.len(),
            steps@ == undo_moves(moves@.subrange(0, i as int)),
        decreases done - i,
    {
        let step = match moves[i] {
            RestoreStep::MoveOut(root) => RestoreStep::MoveBack(root),
            other => other,
        };
        steps.push(step);
        i = i + 1;
        assert(steps@ =~= undo_moves(moves@.subrange(0, i as int)));
    }
    steps
}

/// The steps that put a backup in place, in order.
pub fn place_steps() -> (steps: Vec<RestoreStep>)
    ensures
        steps@ == place_steps_of(),
{
    let mut steps: Vec<RestoreStep> = Vec::new();
    steps.push(RestoreStep::Place(Root::Database));
    steps.push(RestoreStep::Place(Root::Media));
    steps.push(RestoreStep::Place(Root::Pictures));
    steps.push(RestoreStep::Place(Root::Videos));
    assert(steps@ =~= place_steps_of());
    steps
}

/// The steps that take a failed replacement back, in order.
pub fn undo_steps(r: RestoreRoots) -> (steps: Vec<RestoreStep>)
    ensures
        steps@ == undo_steps_of(r),
{
    let mut steps: Vec<RestoreStep> = Vec::new();
    steps.push(RestoreStep::Remove(Root::Database));
    steps.push(RestoreStep::Remove(Root::Media));
    if r.pictures_external {
        steps.push(RestoreStep::Remove(Root::Pictures));
    }
    if r.videos_external {
        steps.push(RestoreStep::Remove(Root::Videos));
    }
    steps.push(RestoreStep::MoveBack(Root::Database));
    steps.push(RestoreStep::MoveBack(Root::Media));
    steps.push(RestoreStep::MoveBack(Root::Pictures));
    steps.push(RestoreStep::MoveBack(Root::Videos));
    assert(steps@ =~= undo_steps_of(r));
    steps
}

/// The steps that clean up after a restore, in order.
pub fn cleanup_steps() -> (steps: Vec<RestoreStep>)
    ensures
        steps@ == cleanup_steps_of(),
{
    let mut steps: Vec<RestoreStep> = Vec::new();
    steps.push(RestoreStep::DropOld(Root::Database));
    steps.push(RestoreStep::DropOld(Root::Media));
    steps.push(RestoreStep::DropOld(Root::Pictures));
    steps.push(RestoreStep::DropOld(Root::Videos));
    assert(steps@ =~= cleanup_steps_of());
    steps
}

/// The part that a root belongs to: pictures and videos that are not outside of the media directory
/// are in it.
pub open spec fn part_of(r: RestoreRoots, root: Root) -> Root {
    match root {
        Root::Pictures => if r.pictures_external {
            Root::Pictures
        } else {
            Root::Media
        },
        Root::Videos => if r.videos_external {
            Root::Videos
        } else {
            Root::Media
        },
        other => other,
    }
}

/// The data on the disk during a restore: what is in place, what is kept, and what is staged. Numbers
/// stand for the contents of a part; an empty directory has none.
pub struct Disk {
    pub live: Map<Root, Seq<nat>>,
    pub old: Map<Root, Seq<nat>>,
    pub staged: Map<Root, Seq<nat>>,
}

/// What was staged for a root.
pub open spec fn staged_for(d: Disk, root: Root) -> Seq<nat> {
    if d.staged.contains_key(root) {
        d.staged[root]
    } else {
        Seq::empty()
    }
}

/// What a step does to the data. A root that is no part of its own is put into its part, beside what
/// is there.
pub open spec fn applied(r: RestoreRoots, d: Disk, step: RestoreStep) -> Disk {
    match step {
        RestoreStep::MoveOut(root) => if d.live.contains_key(root) {
            Disk { live: d.live.remove(root), old: d.old.insert(root, d.live[root]), ..d }
        } else {
            d
        },
        RestoreStep::MoveBack(root) => if d.old.contains_key(root) {
            Disk { live: d.live.insert(root, d.old[root]), old: d.old.remove(root), ..d }
        } else {
            d
        },
        RestoreStep::Remove(root) => Disk { live: d.live.remove(root), ..d },
        RestoreStep::DropOld(root) => Disk { old: d.old.remove(root), ..d },
        RestoreStep::Place(root) => {
            let part = part_of(r, root);
            let beside = if part != root && d.live.contains_key(part) {
                d.live[part]
            } else {
                Seq::empty()
            };
            Disk {
                live: d.live.insert(part, beside + staged_for(d, root)),
                staged: d.staged.remove(root),
                ..d
            }
        },
    }
}

/// What steps do to the data, one after the other.
pub open spec fn run(r: RestoreRoots, d: Disk, steps: Seq<RestoreStep>) -> Disk
    decreases steps.len(),
{
    if steps.len() == 0 {
        d
    } else {
        applied(r, run(r, d, steps.drop_last()), steps.last())
    }
}

/// Whether the roots describe what is on the disk before a restore.
pub open spec fn describes(r: RestoreRoots, d: Disk) -> bool {
    &&& d.old == Map::<Root, Seq<nat>>::empty()
    &&& d.live.contains_key(Root::Database) == r.database_exists
    &&& d.live.contains_key(Root::Media) == r.media_exists
    &&& d.live.contains_key(Root::Pictures) == (r.pictures_external && r.pictures_exist)
    &&& d.live.contains_key(Root::Videos) == (r.videos_external && r.videos_exist)
}

proof fn lemma_run_append(r: RestoreRoots, d: Disk, a: Seq<RestoreStep>, b: Seq<RestoreStep>)
    ensures
        run(r, d, a + b) == run(r, run(r, d, a), b),
    decreases b.len(),
{
    if b.len() == 0 {
        assert(a + b =~= a);
    } else {
        lemma_run_append(r, d, a, b.drop_last());
        assert((a + b).drop_last() =~= a + b.drop_last());
    }
}

proof fn lemma_run_one(r: RestoreRoots, d: Disk, step: RestoreStep)
    ensures
        run(r, d, seq![step]) == applied(r, d, step),
{
    assert(seq![step].drop_last() =~= Seq::<RestoreStep>::empty());
    reveal_with_fuel(run, 2);
}

proof fn lemma_run_if(r: RestoreRoots, d: Disk, wanted: bool, step: RestoreStep)
    ensures
        run(r, d, step_if(wanted, step)) == if wanted {
            applied(r, d, step)
        } else {
            d
        },
{
    if wanted {
        lemma_run_one(r, d, step);
    }
}

/// The data after some moves: every part is where it was, or is kept, and none is lost.
pub open spec fn parted(before: Disk, d: Disk) -> bool {
    &&& d.staged == before.staged
    &&& forall|root: Root|
        #![trigger d.live.contains_key(root)]
        #![trigger d.old.contains_key(root)]
        {
            &&& before.live.contains_key(root) ==> (d.live.contains_key(root) && d.live[root]
                == before.live[root] && !d.old.contains_key(root)) || (!d.live.contains_key(root)
                && d.old.contains_key(root) && d.old[root] == before.live[root])
            &&& !before.live.contains_key(root) ==> !d.live.contains_key(root)
                && !d.old.contains_key(root)
        }
}

proof fn lemma_move_parts(r: RestoreRoots, before: Disk, moves: Seq<RestoreStep>)
    requires
        before.old == Map::<Root, Seq<nat>>::empty(),
        forall|i: int| 0 <= i < moves.len() ==> #[trigger] moves[i] is MoveOut,
    ensures
        parted(before, run(r, before, moves)),
        forall|root: Root| #[trigger]
            run(r, before, moves).old.contains_key(root) <==> (before.live.contains_key(root)
                && moves.contains(RestoreStep::MoveOut(root))),
    decreases moves.len(),
{
    if moves.len() > 0 {
        let earlier = moves.drop_last();
        assert forall|i: int| 0 <= i < earlier.len() implies #[trigger] earlier[i] is MoveOut by {
            assert(earlier[i] == moves[i]);
        }
        lemma_move_parts(r, before, earlier);
        let d = run(r, before, earlier);
        let after = run(r, before, moves);
        let last = moves.last();
        assert(moves[moves.len() - 1] is MoveOut);
        assert forall|root: Root| #[trigger] after.old.contains_key(root) <==> (
        before.live.contains_key(root) && moves.contains(RestoreStep::MoveOut(root))) by {
            let step = RestoreStep::MoveOut(root);
            if earlier.contains(step) {
                let k = choose|k: int| 0 <= k < earlier.len() && earlier[k] == step;
                assert(moves[k] == step);
            }
            if moves.contains(step) && last != step {
                let k = choose|k: int| 0 <= k < moves.len() && moves[k] == step;
                assert(earlier[k] == step);
            }
            if last == step {
                assert(moves[moves.len() - 1] == step);
                assert(d.live.contains_key(root) || !d.live.contains_key(root));
            }
        }
    } else {
        assert(run(r, before, moves) == before);
    }
}

proof fn lemma_back_restores(r: RestoreRoots, before: Disk, d: Disk, backs: Seq<RestoreStep>)
    requires
        parted(before, d),
        forall|i: int| 0 <= i < backs.len() ==> #[trigger] backs[i] is MoveBack,
    ensures
        parted(before, run(r, d, backs)),
        forall|root: Root| #[trigger]
            run(r, d, backs).old.contains_key(root) <==> (d.old.contains_key(root) && !backs.contains(
                RestoreStep::MoveBack(root),
            )),
    decreases backs.len(),
{
    if backs.len() > 0 {
        let earlier = backs.drop_last();
        assert forall|i: int| 0 <= i < earlier.len() implies #[trigger] earlier[i] is MoveBack by {
            assert(earlier[i] == backs[i]);
        }
        lemma_back_restores(r, before, d, earlier);
        let e = run(r, d, earlier);
        let after = run(r, d, backs);
        let last = backs.last();
        assert(backs[backs.len() - 1] is MoveBack);
        assert forall|root: Root| #[trigger] after.old.contains_key(root) <==> (d.old.contains_key(
            root,
        ) && !backs.contains(RestoreStep::MoveBack(root))) by {
            let step = RestoreStep::MoveBack(root);
            if earlier.contains(step) {
                let k = choose|k: int| 0 <= k < earlier.len() && earlier[k] == step;
                assert(backs[k] == step);
            }
            if backs.contains(step) && last != step {
                let k = choose|k: int| 0 <= k < backs.len() && backs[k] == step;
                assert(earlier[k] == step);
            }
            if last == step {
                assert(backs[backs.len() - 1] == step);
            }
        }
        assert(parted(before, after)) by {
            assert forall|root: Root|
                {
                    &&& before.live.contains_key(root) ==> (after.live.contains_key(root)
                        && after.live[root] == before.live[root] && !after.old.contains_key(root))
                        || (!after.live.contains_key(root) && after.old.contains_key(root)
                        && after.old[root] == before.live[root])
                    &&& !before.live.contains_key(root) ==> !after.live.contains_key(root)
                        && !after.old.contains_key(root)
                } by {
                assert(e.live.contains_key(root) || !e.live.contains_key(root));
            }
        }
    } else {
        assert(run(r, d, backs) == d);
    }
}

proof fn lemma_moves_are_moves(r: RestoreRoots)
    ensures
        forall|i: int|
            0 <= i < move_steps_of(r).len() ==> #[trigger] move_steps_of(r)[i] is MoveOut,
{
}

/// A move that fails changes nothing in the end: taking back the moves before it puts all data where
/// it was.
pub proof fn failed_move_is_undone(r: RestoreRoots, d: Disk, done: int)
    requires
        describes(r, d),
        0 <= done <= move_steps_of(r).len(),
    ensures
        run(
            r,
            run(r, d, move_steps_of(r).subrange(0, done)),
            undo_moves(move_steps_of(r).subrange(0, done)),
        ) == d,
{
    let moves = move_steps_of(r).subrange(0, done);
    let backs = undo_moves(moves);
    lemma_moves_are_moves(r);
    assert forall|i: int| 0 <= i < moves.len() implies #[trigger] moves[i] is MoveOut by {
        assert(moves[i] == move_steps_of(r)[i]);
    }
    lemma_move_parts(r, d, moves);
    let e = run(r, d, moves);
    assert forall|i: int| 0 <= i < backs.len() implies #[trigger] backs[i] is MoveBack by {
        assert(backs[i] == undone(moves[i]));
    }
    lemma_back_restores(r, d, e, backs);
    let f = run(r, e, backs);
    assert forall|root: Root| !#[trigger] f.old.contains_key(root) by {
        if e.old.contains_key(root) {
            let step = RestoreStep::MoveOut(root);
            let k = choose|k: int| 0 <= k < moves.len() && moves[k] == step;
            assert(backs[k] == RestoreStep::MoveBack(root));
        }
    }
    assert(f.old =~= d.old);
    assert forall|root: Root| #[trigger] f.live.contains_key(root) == d.live.contains_key(root) by {
        assert(!f.old.contains_key(root));
    }
    assert(f.live =~= d.live) by {
        assert forall|root: Root| #[trigger] f.live.contains_key(root) implies f.live[root]
            == d.live[root] by {
            assert(!f.old.contains_key(root));
        }
    }
}

/// Whether only parts of their own are in place.
pub open spec fn holds_parts(r: RestoreRoots, d: Disk) -> bool {
    forall|root: Root| #[trigger] d.live.contains_key(root) ==> part_of(r, root) == root
}

/// A replacement that fails changes nothing in the end, wherever it stopped: whatever is in place of
/// the moved parts then, removing it and moving the parts back puts all data where it was.
pub proof fn stopped_swap_is_undone(r: RestoreRoots, d: Disk, failed: Disk)
    requires
        describes(r, d),
        holds_parts(r, failed),
        failed.old == run(r, d, move_steps_of(r)).old,
    ensures
        run(r, failed, undo_steps_of(r)).live == d.live,
        run(r, failed, undo_steps_of(r)).old == d.old,
{
    let moves = move_steps_of(r);
    lemma_moves_are_moves(r);
    lemma_move_parts(r, d, moves);
    let moved = run(r, d, moves);
    assert forall|root: Root| #[trigger] failed.old.contains_key(root) == d.live.contains_key(
        root,
    ) by {
        if d.live.contains_key(root) {
            match root {
                Root::Database => {
                    assert(moves[0] == RestoreStep::MoveOut(root));
                },
                Root::Media => {
                    let k: int = if r.database_exists {
                        1
                    } else {
                        0
                    };
                    assert(moves[k] == RestoreStep::MoveOut(root));
                },
                Root::Pictures => {
                    let k: int = (if r.database_exists {
                        1int
                    } else {
                        0
                    }) + (if r.media_exists {
                        1int
                    } else {
                        0
                    });
                    assert(moves[k] == RestoreStep::MoveOut(root));
                },
                Root::Videos => {
                    assert(moves[moves.len() - 1] == RestoreStep::MoveOut(root));
                },
            }
        }
    }
    assert forall|root: Root| failed.old.contains_key(root) implies #[trigger] failed.old[root]
        == d.live[root] by {
        assert(moved.old.contains_key(root));
    }
    let head = seq![RestoreStep::Remove(Root::Database), RestoreStep::Remove(Root::Media)];
    let p = step_if(r.pictures_external, RestoreStep::Remove(Root::Pictures));
    let v = step_if(r.videos_external, RestoreStep::Remove(Root::Videos));
    let tail = seq![
        RestoreStep::MoveBack(Root::Database),
        RestoreStep::MoveBack(Root::Media),
        RestoreStep::MoveBack(Root::Pictures),
        RestoreStep::MoveBack(Root::Videos),
    ];
    lemma_run_append(r, failed, head + p + v, tail);
    lemma_run_append(r, failed, head + p, v);
    lemma_run_append(r, failed, head, p);
    let a = applied(
        r,
        applied(r, failed, RestoreStep::Remove(Root::Database)),
        RestoreStep::Remove(Root::Media),
    );
    lemma_run_append(
        r,
        failed,
        seq![RestoreStep::Remove(Root::Database)],
        seq![RestoreStep::Remove(Root::Media)],
    );
    assert(seq![RestoreStep::Remove(Root::Database)] + seq![RestoreStep::Remove(Root::Media)]
        =~= head);
    lemma_run_one(r, failed, RestoreStep::Remove(Root::Database));
    lemma_run_one(
        r,
        applied(r, failed, RestoreStep::Remove(Root::Database)),
        RestoreStep::Remove(Root::Media),
    );
    assert(run(r, failed, head) == a);
    lemma_run_if(r, a, r.pictures_external, RestoreStep::Remove(Root::Pictures));
    let b = run(r, a, p);
    lemma_run_if(r, b, r.videos_external, RestoreStep::Remove(Root::Videos));
    let c = run(r, b, v);
    assert(c.old == failed.old);
    assert(forall|root: Root| !#[trigger] c.live.contains_key(root));
    let t1 = seq![RestoreStep::MoveBack(Root::Database)];
    let t2 = seq![RestoreStep::MoveBack(Root::Media)];
    let t3 = seq![RestoreStep::MoveBack(Root::Pictures)];
    let t4 = seq![RestoreStep::MoveBack(Root::Videos)];
    assert(tail =~= t1 + t2 + t3 + t4);
    lemma_run_append(r, c, t1 + t2 + t3, t4);
    lemma_run_append(r, c, t1 + t2, t3);
    lemma_run_append(r, c, t1, t2);
    let c1 = applied(r, c, RestoreStep::MoveBack(Root::Database));
    let c2 = applied(r, c1, RestoreStep::MoveBack(Root::Media));
    let c3 = applied(r, c2, RestoreStep::MoveBack(Root::Pictures));
    let c4 = applied(r, c3, RestoreStep::MoveBack(Root::Videos));
    lemma_run_one(r, c, RestoreStep::MoveBack(Root::Database));
    lemma_run_one(r, c1, RestoreStep::MoveBack(Root::Media));
    lemma_run_one(r, c2, RestoreStep::MoveBack(Root::Pictures));
    lemma_run_one(r, c3, RestoreStep::MoveBack(Root::Videos));
    assert(run(r, failed, undo_steps_of(r)) == c4);
    assert forall|root: Root| !#[trigger] c4.old.contains_key(root) by {
        match root {
            Root::Database => {},
            Root::Media => {},
            Root::Pictures => {},
            Root::Videos => {},
        }
    }
    assert(c4.old =~= d.old);
    assert forall|root: Root| #[trigger] c4.live.contains_key(root) == d.live.contains_key(root) by {
        assert(failed.old.contains_key(root) == d.live.contains_key(root));
        match root {
            Root::Database => {},
            Root::Media => {},
            Root::Pictures => {},
            Root::Videos => {},
        }
    }
    assert forall|root: Root| #[trigger] c4.live.contains_key(root) implies c4.live[root]
        == d.live[root] by {
        assert(failed.old.contains_key(root) == d.live.contains_key(root));
        assert(failed.old[root] == d.live[root]);
        match root {
            Root::Database => {},
            Root::Media => {},
            Root::Pictures => {},
            Root::Videos => {},
        }
    }
    assert(c4.live =~= d.live);
}

proof fn lemma_place(r: RestoreRoots, d: Disk, done: int)
    requires
        holds_parts(r, d),
        0 <= done <= place_steps_of().len(),
    ensures
        holds_parts(r, run(r, d, place_steps_of().subrange(0, done))),
        run(r, d, place_steps_of().subrange(0, done)).old == d.old,
    decreases done,
{
    if done > 0 {
        lemma_place(r, d, done - 1);
        let steps = place_steps_of().subrange(0, done);
        assert(steps.drop_last() == place_steps_of().subrange(0, done - 1));
        let before = run(r, d, steps.drop_last());
        let after = run(r, d, steps);
        assert(after == applied(r, before, steps.last()));
        assert(steps.last() is Place);
        assert forall|root: Root| #[trigger] after.live.contains_key(root) implies part_of(r, root)
            == root by {
            assert(before.live.contains_key(root) || root == part_of(r, steps.last()->Place_0));
        }
    } else {
        assert(place_steps_of().subrange(0, done) == Seq::<RestoreStep>::empty());
    }
}

/// A replacement that fails changes nothing in the end, however far it came: after any number of the
/// steps that put a backup in place, the steps that take it back put all data where it was.
pub proof fn failed_swap_is_undone(r: RestoreRoots, d: Disk, done: int)
    requires
        describes(r, d),
        0 <= done <= place_steps_of().len(),
    ensures
        ({
            let moved = run(r, d, move_steps_of(r));
            let failed = run(r, moved, place_steps_of().subrange(0, done));
            &&& run(r, failed, undo_steps_of(r)).live == d.live
            &&& run(r, failed, undo_steps_of(r)).old == d.old
        }),
{
    let moved = run(r, d, move_steps_of(r));
    lemma_moves_are_moves(r);
    lemma_move_parts(r, d, move_steps_of(r));
    assert forall|root: Root| #[trigger] moved.live.contains_key(root) implies part_of(r, root)
        == root by {
        assert(d.live.contains_key(root));
    }
    lemma_place(r, moved, done);
    stopped_swap_is_undone(r, d, run(r, moved, place_steps_of().subrange(0, done)));
}

/// What is put into the media directory for a root that is not outside of it.
pub open spec fn in_media(d: Disk, root: Root, external: bool) -> Seq<nat> {
    if external {
        Seq::empty()
    } else {
        staged_for(d, root)
    }
}

/// A restore puts the backup in place of all data: each part then holds what was staged for it and
/// nothing else, and nothing is kept of what was there.
pub proof fn restored_data_is_in_place(r: RestoreRoots, d: Disk)
    requires
        describes(r, d),
    ensures
        ({
            let moved = run(r, d, move_steps_of(r));
            let placed = run(r, moved, place_steps_of());
            let end = run(r, placed, cleanup_steps_of());
            &&& end.old == Map::<Root, Seq<nat>>::empty()
            &&& end.live.contains_key(Root::Database)
            &&& end.live[Root::Database] == staged_for(d, Root::Database)
            &&& end.live.contains_key(Root::Media)
            &&& end.live[Root::Media] == staged_for(d, Root::Media) + in_media(
                d,
                Root::Pictures,
                r.pictures_external,
            ) + in_media(d, Root::Videos, r.videos_external)
            &&& end.live.contains_key(Root::Pictures) == r.pictures_external
            &&& r.pictures_external ==> end.live[Root::Pictures] == staged_for(d, Root::Pictures)
            &&& end.live.contains_key(Root::Videos) == r.videos_external
            &&& r.videos_external ==> end.live[Root::Videos] == staged_for(d, Root::Videos)
        }),
{
    let moves = move_steps_of(r);
    lemma_moves_are_moves(r);
    lemma_move_parts(r, d, moves);
    let m = run(r, d, moves);
    assert(m.live.contains_key(Root::Pictures) ==> d.live.contains_key(Root::Pictures));
    assert(m.live.contains_key(Root::Videos) ==> d.live.contains_key(Root::Videos));
    let p1 = applied(r, m, RestoreStep::Place(Root::Database));
    let p2 = applied(r, p1, RestoreStep::Place(Root::Media));
    let p3 = applied(r, p2, RestoreStep::Place(Root::Pictures));
    let p4 = applied(r, p3, RestoreStep::Place(Root::Videos));
    lemma_run_four(
        r,
        m,
        RestoreStep::Place(Root::Database),
        RestoreStep::Place(Root::Media),
        RestoreStep::Place(Root::Pictures),
        RestoreStep::Place(Root::Videos),
    );
    lemma_run_four(
        r,
        p4,
        RestoreStep::DropOld(Root::Database),
        RestoreStep::DropOld(Root::Media),
        RestoreStep::DropOld(Root::Pictures),
        RestoreStep::DropOld(Root::Videos),
    );
    let end = run(r, p4, cleanup_steps_of());
    assert forall|root: Root| !#[trigger] end.old.contains_key(root) by {
        match root {
            Root::Database => {},
            Root::Media => {},
            Root::Pictures => {},
            Root::Videos => {},
        }
    }
    assert(end.old =~= Map::<Root, Seq<nat>>::empty());
    assert(end.live[Root::Media] =~= staged_for(d, Root::Media) + in_media(
        d,
        Root::Pictures,
        r.pictures_external,
    ) + in_media(d, Root::Videos, r.videos_external));
    assert(end.live[Root::Database] =~= staged_for(d, Root::Database));
}

proof fn lemma_run_four(
    r: RestoreRoots,
    d: Disk,
    a: RestoreStep,
    b: RestoreStep,
    c: RestoreStep,
    e: RestoreStep,
)
    ensures
        run(r, d, seq![a, b, c, e]) == applied(
            r,
            applied(r, applied(r, applied(r, d, a), b), c),
            e,
        ),
{
    assert(seq![a, b, c, e].drop_last() == seq![a, b, c]);
    assert(seq![a, b, c].drop_last() == seq![a, b]);
    assert(seq![a, b].drop_last() == seq![a]);
    lemma_run_one(r, d, a);
    reveal_with_fuel(run, 4);
}

/// Checks that a backup has a database that is not empty.
pub fn check_database_entry(m: &Manifest) -> (r: Result<()>)
    ensures
        match r {
            Ok(_) => exists|i: int|
                first_database(m.files@, i) && (#[trigger] m.files@[i]).length > 0,
            Err(e) => if manifest::occurs_before(
                m.files@,
                m.files@.len() as int,
                "database/weiback.db"@,
            ) {
                error::is_format_error(e, "backup database is empty"@) && exists|i: int|
                    first_database(m.files@, i) && (#[trigger] m.files@[i]).length == 0
            } else {
                error::is_format_error(e, "backup has no database snapshot"@)
            },
        },
{
    let mut i: usize = 0;
    while i < m.files.len()
        invariant
            i <= m.files@.len(),
            forall|j: int| 0 <= j < i ==> (#[trigger] m.files@[j]).path@ != "database/weiback.db"@,
        decreases m.files@.len() - i,
    {
        if text::same_text(m.files[i].path.as_str(), "database/weiback.db") {
            assert(first_database(m.files@, i as int));
            if m.files[i].length == 0 {
                return Err(error::format_error("backup database is empty"));
            }
            return Ok(());
        }
        i = i + 1;
    }
    Err(error::format_error("backup has no database snapshot"))
}

/// Whether the database is listed at a place, and not before.
pub open spec fn first_database(files: Seq<manifest::ManifestFile>, i: int) -> bool {
    0 <= i < files.len() && files[i].path@ == "database/weiback.db"@ && forall|j: int|
        0 <= j < i ==> (#[trigger] files[j]).path@ != "database/weiback.db"@
}

/// Where a restore keeps things: what it stages, what it moves out of the way, and a snapshot of the
/// current database.
#[derive(Debug, PartialEq, Eq)]
pub struct OperationPaths {
    pub stage: String,
    pub old_db: String,
    pub old_media: String,
    pub old_pictures: String,
    pub old_videos: String,
    pub rollback_dir: String,
}

/// Where a restore keeps things, by the name of the operation.
pub fn operation_paths(p: &UserBackupPaths, operation: &str) -> (r: OperationPaths)
    ensures
        r.stage@ == paths::joined(manifest::backups_root(*p), ".restore-"@ + operation@),
        r.old_db@ == paths::joined(manifest::backups_root(*p), ".old-db-"@ + operation@),
        r.old_media@ == paths::joined(manifest::backups_root(*p), ".old-media-"@ + operation@),
        r.old_pictures@ == paths::joined(
            manifest::backups_root(*p),
            ".old-pictures-"@ + operation@,
        ),
        r.old_videos@ == paths::joined(manifest::backups_root(*p), ".old-videos-"@ + operation@),
        r.rollback_dir@ == paths::joined(manifest::backups_root(*p), "rollback-"@ + operation@),
{
    let root = p.backups_dir();
    let base = root.as_str();
    OperationPaths {
        stage: paths::join(base, text::join2(".restore-", operation).as_str()),
        old_db: paths::join(base, text::join2(".old-db-", operation).as_str()),
        old_media: paths::join(base, text::join2(".old-media-", operation).as_str()),
        old_pictures: paths::join(base, text::join2(".old-pictures-", operation).as_str()),
        old_videos: paths::join(base, text::join2(".old-videos-", operation).as_str()),
        rollback_dir: paths::join(base, text::join2("rollback-", operation).as_str()),
    }
}

/// The failure that a restore is given after everything was put in place, so that taking it back can
/// be tried.
pub fn restore_user_backup_with_fault_for_test(inject_failure: bool) -> (r: Result<()>)
    ensures
        r is Err == inject_failure,
        r matches Err(e) ==> e matches Error::Io(why) && why@ == "injected restore failure"@,
{
    if inject_failure {
        Err(Error::Io("injected restore failure".to_owned()))
    } else {
        Ok(())
    }
}

/// The summary of a restore: a snapshot of the database was made where there was one, and the
/// application has to be started again.
pub fn restore_user_backup(id: &str, database_existed: bool) -> (r: UserRestoreSummary)
    ensures
        r.id@ == id@,
        r.rollback_created == database_existed,
        r.restart_required,
{
    UserRestoreSummary {
        id: id.to_owned(),
        rollback_created: database_existed,
        restart_required: true,
    }
}

} // verus!
