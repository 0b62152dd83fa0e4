use vstd::prelude::*;
use crate::change::ChangeSet;
use crate::interrupt::{InterruptBus, Receipt};
use crate::outcome::{aggregate, any_failed, any_stopped, reported, Outcome, Product};
use crate::runner::{race_step, CommandOutput, CommandResult, RaceStep};
use vstd::utf8::encode_utf8;
use crate::store::{changed_at, changes, content_hash, replay};
use crate::tasks::{after_process, spawns, start_step, TaskStep};

verus! {

/// A cycle whose change set flags no category runs no toolchain, and its
/// outcome is success with no product, whatever is configured.
pub proof fn lemma_nothing_flagged(has_bin: bool, has_lib: bool, has_style: bool, c: ChangeSet)
    requires
        !c.server,
        !c.front,
        !c.style,
    ensures
        !spawns(start_step(has_bin, c.server)),
        !spawns(start_step(has_lib, c.front)),
        !spawns(start_step(has_style, c.style)),
        aggregate(
            seq![
                Outcome::Success(Product::Nothing),
                Outcome::Success(Product::Nothing),
                Outcome::Success(Product::Nothing),
            ],
        ) == Outcome::Success(Set::<Product>::empty()),
{
    let s = seq![
        Outcome::Success(Product::Nothing),
        Outcome::Success(Product::Nothing),
        Outcome::Success(Product::Nothing),
    ];
    assert(!any_stopped(s));
    assert(!any_failed(s));
    assert(reported(s) =~= Set::<Product>::empty());
}

/// A raise reaches every receipt taken before it: each running process is
/// then killed, its task stops, and a cycle in which some task stopped is
/// stopped as a whole.
pub proof fn lemma_interrupt_stops_cycle(
    before: InterruptBus,
    after: InterruptBus,
    r: Receipt,
    exited: Option<bool>,
    output: CommandOutput,
    next: TaskStep,
    outcomes: Seq<Outcome<Product>>,
    i: int,
)
    requires
        !r.consumed(),
        r.seen() <= before.raises(),
        after.raises() == before.raises() + 1,
        0 <= i < outcomes.len(),
        outcomes[i] is Stopped,
    ensures
        after.fires(&r),
        race_step(true, exited, output) == RaceStep::Kill(CommandResult::Interrupted),
        after_process(CommandResult::Interrupted, next) == TaskStep::Done(
            Outcome::<Product>::Stopped,
        ),
        aggregate(outcomes) == Outcome::<Set<Product>>::Stopped,
{
}

/// When exactly one task fails and the others succeed, the cycle fails,
/// and an output that a succeeding task wrote through the store stays
/// recorded with the hash of its bytes.
pub proof fn lemma_one_failure_fails_cycle(
    outcomes: Seq<Outcome<Product>>,
    i: int,
    m: Map<Seq<char>, u64>,
    path: Seq<char>,
    bytes: Seq<u8>,
)
    requires
        0 <= i < outcomes.len(),
        outcomes[i] is Failed,
        forall|j: int| 0 <= j < outcomes.len() && j != i ==> #[trigger] outcomes[j] is Success,
    ensures
        aggregate(outcomes) == Outcome::<Set<Product>>::Failed,
        m.insert(path, content_hash(bytes)).contains_key(path),
        m.insert(path, content_hash(bytes))[path] == content_hash(bytes),
{
}

/// A cycle in which every task succeeds succeeds, with the products that
/// the tasks reported.
pub proof fn lemma_all_success(outcomes: Seq<Outcome<Product>>)
    requires
        forall|j: int| 0 <= j < outcomes.len() ==> #[trigger] outcomes[j] is Success,
    ensures
        aggregate(outcomes) == Outcome::Success(reported(outcomes)),
{
}

/// Writing the same bytes to a path a second time is no change, needs no
/// write, and leaves the store as it was.
pub proof fn lemma_rewrite_is_unchanged(m: Map<Seq<char>, u64>, path: Seq<char>, bytes: Seq<u8>)
    ensures
        !changes(m.insert(path, content_hash(bytes)), path, content_hash(bytes)),
        m.insert(path, content_hash(bytes)).insert(path, content_hash(bytes)) == m.insert(
            path,
            content_hash(bytes),
        ),
{
    assert(m.insert(path, content_hash(bytes)).insert(path, content_hash(bytes)) =~= m.insert(
        path,
        content_hash(bytes),
    ));
}

/// After a write, a write of bytes with another hash is a change, and the
/// store then holds the new hash, so that writing those bytes once more is
/// no change.
pub proof fn lemma_store_round_trip(
    m: Map<Seq<char>, u64>,
    path: Seq<char>,
    first: Seq<u8>,
    second: Seq<u8>,
)
    requires
        content_hash(first) != content_hash(second),
    ensures
        changes(m.insert(path, content_hash(first)), path, content_hash(second)),
        m.insert(path, content_hash(first)).insert(path, content_hash(second))[path]
            == content_hash(second),
        !changes(
            m.insert(path, content_hash(first)).insert(path, content_hash(second)),
            path,
            content_hash(second),
        ),
{
}

/// The site paths of `files` are pairwise distinct.
pub open spec fn distinct_sites(files: Seq<(Seq<char>, Seq<char>, Seq<char>)>) -> bool {
    forall|a: int, b: int| 0 <= a < b < files.len() ==> files[a].0 != files[b].0
}

proof fn lemma_replay_untouched(
    m: Map<Seq<char>, u64>,
    files: Seq<(Seq<char>, Seq<char>, Seq<char>)>,
    k: Seq<char>,
)
    requires
        forall|j: int| 0 <= j < files.len() ==> files[j].0 != k,
    ensures
        replay(m, files).contains_key(k) == m.contains_key(k),
        replay(m, files)[k] == m[k],
    decreases files.len(),
{
    if files.len() > 0 {
        lemma_replay_untouched(m, files.drop_last(), k);
    }
}

proof fn lemma_replay_last_write(
    m: Map<Seq<char>, u64>,
    files: Seq<(Seq<char>, Seq<char>, Seq<char>)>,
    j: int,
)
    requires
        0 <= j < files.len(),
        forall|l: int| j < l < files.len() ==> files[l].0 != files[j].0,
    ensures
        replay(m, files).contains_key(files[j].0),
        replay(m, files)[files[j].0] == content_hash(encode_utf8(files[j].2)),
    decreases files.len(),
{
    if j < files.len() - 1 {
        lemma_replay_last_write(m, files.drop_last(), j);
    }
}

/// Writing the same files (with distinct site paths) a second time changes
/// nothing: no file has to be written again, and the store stays as it was.
pub proof fn lemma_second_write_is_idle(
    m: Map<Seq<char>, u64>,
    files: Seq<(Seq<char>, Seq<char>, Seq<char>)>,
)
    requires
        distinct_sites(files),
    ensures
        forall|i: int| 0 <= i < files.len() ==> !changed_at(replay(m, files), files, i),
        replay(replay(m, files), files) == replay(m, files),
{
    let m1 = replay(m, files);
    assert forall|i: int| 0 <= i < files.len() implies !changed_at(m1, files, i) by {
        lemma_replay_untouched(m1, files.take(i), files[i].0);
        lemma_replay_last_write(m, files, i);
    }
    assert forall|k: Seq<char>|
        #![trigger replay(m1, files).contains_key(k)]
        #![trigger replay(m1, files)[k]]
        replay(m1, files).contains_key(k) == m1.contains_key(k) && (m1.contains_key(k)
            ==> replay(m1, files)[k] == m1[k]) by {
        if exists|j: int| 0 <= j < files.len() && files[j].0 == k {
            let j = choose|j: int| 0 <= j < files.len() && files[j].0 == k;
            lemma_replay_last_write(m, files, j);
            lemma_replay_last_write(m1, files, j);
        } else {
            lemma_replay_untouched(m1, files, k);
        }
    }
    assert(replay(m1, files) =~= m1);
}

} // verus!
