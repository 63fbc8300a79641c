//! The action planner: walks the full cross product of destination and
//! source entries, classifies each pair, and compiles the matches into an
//! ordered list of pending actions plus a saved-space total.
//!
//! Iteration is destination-major: the outer walk is over destination
//! entries, the inner walk over source entries, and the compiled lists keep
//! that order. A pair whose two paths are byte-identical is skipped before
//! any comparison; a pair that fails the match but shares a base file name
//! is recorded as a name-collision diagnostic.

use vstd::prelude::*;

use crate::matching::entries_match;
use crate::matching::entries_match_spec;
use crate::matching::same_base_name;
use crate::matching::same_base_name_spec;
use crate::model::{CompareMode, Entry, FileCommand};

verus! {

/// The pair is skipped outright: its destination and source paths are the
/// same string, so the "source" is the archived file itself.
pub open spec fn pair_skipped(d: Entry, s: Entry) -> bool {
    d.path@ == s.path@
}

/// The pair counts as a duplicate: not skipped, and the records match.
pub open spec fn pair_matched(d: Entry, s: Entry, mode: CompareMode) -> bool {
    !pair_skipped(d, s) && entries_match_spec(d.metadata, s.metadata, mode)
}

/// The pair is reported as "same name, metadata mismatch": not skipped, no
/// match, but an identical base file name.
pub open spec fn pair_collided(d: Entry, s: Entry, mode: CompareMode) -> bool {
    &&& !pair_skipped(d, s)
    &&& !entries_match_spec(d.metadata, s.metadata, mode)
    &&& same_base_name_spec(d.metadata, s.metadata)
}

/// Source indices in `srcs` whose entry matches `dest`, in order.
pub open spec fn match_row(dest: Entry, srcs: Seq<Entry>, mode: CompareMode) -> Seq<int>
    decreases srcs.len(),
{
    if srcs.len() == 0 {
        seq![]
    } else if pair_matched(dest, srcs.last(), mode) {
        match_row(dest, srcs.drop_last(), mode).push(srcs.len() - 1)
    } else {
        match_row(dest, srcs.drop_last(), mode)
    }
}

/// All matched (destination index, source index) pairs, destination-major.
pub open spec fn matched_pairs(dests: Seq<Entry>, srcs: Seq<Entry>, mode: CompareMode) -> Seq<
    (int, int),
>
    decreases dests.len(),
{
    if dests.len() == 0 {
        seq![]
    } else {
        matched_pairs(dests.drop_last(), srcs, mode) + match_row(
            dests.last(),
            srcs,
            mode,
        ).map_values(|j: int| (dests.len() - 1, j))
    }
}

/// Source indices in `srcs` whose entry shares its path with `dest`.
pub open spec fn skip_row(dest: Entry, srcs: Seq<Entry>) -> Seq<int>
    decreases srcs.len(),
{
    if srcs.len() == 0 {
        seq![]
    } else if pair_skipped(dest, srcs.last()) {
        skip_row(dest, srcs.drop_last()).push(srcs.len() - 1)
    } else {
        skip_row(dest, srcs.drop_last())
    }
}

/// All skipped (destination index, source index) pairs, destination-major.
pub open spec fn skipped_pairs(dests: Seq<Entry>, srcs: Seq<Entry>) -> Seq<(int, int)>
    decreases dests.len(),
{
    if dests.len() == 0 {
        seq![]
    } else {
        skipped_pairs(dests.drop_last(), srcs) + skip_row(dests.last(), srcs).map_values(
            |j: int| (dests.len() - 1, j),
        )
    }
}

/// Source indices in `srcs` whose entry collides with `dest` by name.
pub open spec fn collide_row(dest: Entry, srcs: Seq<Entry>, mode: CompareMode) -> Seq<int>
    decreases srcs.len(),
{
    if srcs.len() == 0 {
        seq![]
    } else if pair_collided(dest, srcs.last(), mode) {
        collide_row(dest, srcs.drop_last(), mode).push(srcs.len() - 1)
    } else {
        collide_row(dest, srcs.drop_last(), mode)
    }
}

/// All name-collision (destination index, source index) pairs,
/// destination-major.
pub open spec fn collision_pairs(dests: Seq<Entry>, srcs: Seq<Entry>, mode: CompareMode) -> Seq<
    (int, int),
>
    decreases dests.len(),
{
    if dests.len() == 0 {
        seq![]
    } else {
        collision_pairs(dests.drop_last(), srcs, mode) + collide_row(
            dests.last(),
            srcs,
            mode,
        ).map_values(|j: int| (dests.len() - 1, j))
    }
}

/// The sum of the source file sizes over a sequence of matched pairs. A
/// source entry that appears in several pairs is counted once per pair.
pub open spec fn sum_matched_sizes(pairs: Seq<(int, int)>, srcs: Seq<Entry>) -> int
    decreases pairs.len(),
{
    if pairs.len() == 0 {
        0
    } else {
        sum_matched_sizes(pairs.drop_last(), srcs) + srcs[pairs.last().1].metadata.file_metadata.file_size
    }
}

/// A planned filesystem operation for one matched pair.
pub struct Action {
    /// The source entry the operation acts on.
    pub entry: Entry,
    /// The archived destination entry the match was made against.
    pub dest_entry: Entry,
    /// The requested operation.
    pub action: FileCommand,
}

/// The compiled outcome of one comparison run.
pub struct Plan {
    /// Every matched (destination index, source index) pair, in
    /// destination-major order. Recorded whether or not an operation was
    /// requested: matches are always reported, and a run without an
    /// operation is a dry run.
    pub duplicates: Vec<(usize, usize)>,
    /// One pending action per matched pair, in destination-major order;
    /// empty when no operation was requested.
    pub actions: Vec<Action>,
    /// Total bytes the matched source entries occupy, saturating at the
    /// largest representable value.
    pub saved_space: u64,
    /// Index pairs whose paths were byte-identical, skipped unevaluated.
    pub skipped: Vec<(usize, usize)>,
    /// Index pairs that failed the match but share a base file name.
    pub name_collisions: Vec<(usize, usize)>,
}

/// The exec-side index list `v` holds exactly the pairs of `pairs`.
pub open spec fn index_pairs_match(v: Seq<(usize, usize)>, pairs: Seq<(int, int)>) -> bool {
    &&& v.len() == pairs.len()
    &&& forall|k: int|
        0 <= k < v.len() ==> (#[trigger] v[k]).0 == pairs[k].0 && v[k].1 == pairs[k].1
}

/// The action list holds one action per matched pair, in order, each tying
/// the command `c` to the entries the pair indexes.
pub open spec fn actions_match(
    actions: Seq<Action>,
    pairs: Seq<(int, int)>,
    dests: Seq<Entry>,
    srcs: Seq<Entry>,
    c: FileCommand,
) -> bool {
    &&& actions.len() == pairs.len()
    &&& forall|k: int|
        0 <= k < actions.len() ==> {
            let a = #[trigger] actions[k];
            &&& a.action == c
            &&& a.dest_entry == dests[pairs[k].0]
            &&& a.entry == srcs[pairs[k].1]
        }
}

proof fn lemma_match_row_step(dest: Entry, srcs: Seq<Entry>, mode: CompareMode, s: int)
    requires
        0 <= s < srcs.len(),
    ensures
        match_row(dest, srcs.take(s + 1), mode) == if pair_matched(dest, srcs[s], mode) {
            match_row(dest, srcs.take(s), mode).push(s)
        } else {
            match_row(dest, srcs.take(s), mode)
        },
{
    assert(srcs.take(s + 1).drop_last() =~= srcs.take(s));
    assert(srcs.take(s + 1).last() == srcs[s]);
}

proof fn lemma_skip_row_step(dest: Entry, srcs: Seq<Entry>, s: int)
    requires
        0 <= s < srcs.len(),
    ensures
        skip_row(dest, srcs.take(s + 1)) == if pair_skipped(dest, srcs[s]) {
            skip_row(dest, srcs.take(s)).push(s)
        } else {
            skip_row(dest, srcs.take(s))
        },
{
    assert(srcs.take(s + 1).drop_last() =~= srcs.take(s));
    assert(srcs.take(s + 1).last() == srcs[s]);
}

proof fn lemma_collide_row_step(dest: Entry, srcs: Seq<Entry>, mode: CompareMode, s: int)
    requires
        0 <= s < srcs.len(),
    ensures
        collide_row(dest, srcs.take(s + 1), mode) == if pair_collided(dest, srcs[s], mode) {
            collide_row(dest, srcs.take(s), mode).push(s)
        } else {
            collide_row(dest, srcs.take(s), mode)
        },
{
    assert(srcs.take(s + 1).drop_last() =~= srcs.take(s));
    assert(srcs.take(s + 1).last() == srcs[s]);
}

proof fn lemma_matched_pairs_step(dests: Seq<Entry>, srcs: Seq<Entry>, mode: CompareMode, d: int)
    requires
        0 <= d < dests.len(),
    ensures
        matched_pairs(dests.take(d + 1), srcs, mode) == matched_pairs(dests.take(d), srcs, mode)
            + match_row(dests[d], srcs, mode).map_values(|j: int| (d, j)),
{
    let taken = dests.take(d + 1);
    assert(taken.drop_last() =~= dests.take(d));
    assert(taken.last() == dests[d]);
    assert(match_row(dests[d], srcs, mode).map_values(|j: int| (taken.len() - 1, j)) =~= match_row(
        dests[d],
        srcs,
        mode,
    ).map_values(|j: int| (d, j)));
}

proof fn lemma_skipped_pairs_step(dests: Seq<Entry>, srcs: Seq<Entry>, d: int)
    requires
        0 <= d < dests.len(),
    ensures
        skipped_pairs(dests.take(d + 1), srcs) == skipped_pairs(dests.take(d), srcs) + skip_row(
            dests[d],
            srcs,
        ).map_values(|j: int| (d, j)),
{
    let taken = dests.take(d + 1);
    assert(taken.drop_last() =~= dests.take(d));
    assert(taken.last() == dests[d]);
    assert(skip_row(dests[d], srcs).map_values(|j: int| (taken.len() - 1, j)) =~= skip_row(
        dests[d],
        srcs,
    ).map_values(|j: int| (d, j)));
}

proof fn lemma_collision_pairs_step(dests: Seq<Entry>, srcs: Seq<Entry>, mode: CompareMode, d: int)
    requires
        0 <= d < dests.len(),
    ensures
        collision_pairs(dests.take(d + 1), srcs, mode) == collision_pairs(
            dests.take(d),
            srcs,
            mode,
        ) + collide_row(dests[d], srcs, mode).map_values(|j: int| (d, j)),
{
    let taken = dests.take(d + 1);
    assert(taken.drop_last() =~= dests.take(d));
    assert(taken.last() == dests[d]);
    assert(collide_row(dests[d], srcs, mode).map_values(|j: int| (taken.len() - 1, j))
        =~= collide_row(dests[d], srcs, mode).map_values(|j: int| (d, j)));
}

proof fn lemma_map_pair_push(row: Seq<int>, d: int, s: int)
    ensures
        row.push(s).map_values(|j: int| (d, j)) == row.map_values(|j: int| (d, j)).push((d, s)),
{
    assert(row.push(s).map_values(|j: int| (d, j)) =~= row.map_values(|j: int| (d, j)).push(
        (d, s),
    ));
}

proof fn lemma_sum_push(pairs: Seq<(int, int)>, srcs: Seq<Entry>, p: (int, int))
    ensures
        sum_matched_sizes(pairs.push(p), srcs) == sum_matched_sizes(pairs, srcs)
            + srcs[p.1].metadata.file_metadata.file_size,
{
    assert(pairs.push(p).drop_last() =~= pairs);
    assert(pairs.push(p).last() == p);
}

/// Compiles the comparison of every (destination, source) pair into a plan:
/// the matched pairs are always recorded and feed the saved-space total,
/// and become actions when an operation was requested; byte-identical paths
/// are skipped before comparison; name collisions are recorded as
/// diagnostics.
pub fn build_plan(
    dest_entries: &Vec<Entry>,
    src_entries: &Vec<Entry>,
    mode: CompareMode,
    command: Option<FileCommand>,
) -> (plan: Plan)
    ensures
        plan.saved_space as int == vstd::math::min(
            sum_matched_sizes(matched_pairs(dest_entries@, src_entries@, mode), src_entries@),
            u64::MAX as int,
        ),
        index_pairs_match(
            plan.duplicates@,
            matched_pairs(dest_entries@, src_entries@, mode),
        ),
        (match command {
            Some(c) => actions_match(
                plan.actions@,
                matched_pairs(dest_entries@, src_entries@, mode),
                dest_entries@,
                src_entries@,
                c,
            ),
            None => plan.actions@.len() == 0,
        }),
        index_pairs_match(plan.skipped@, skipped_pairs(dest_entries@, src_entries@)),
        index_pairs_match(
            plan.name_collisions@,
            collision_pairs(dest_entries@, src_entries@, mode),
        ),
{
    let dn: usize = dest_entries.len();
    let sn: usize = src_entries.len();
    let mut duplicates: Vec<(usize, usize)> = Vec::new();
    let mut actions: Vec<Action> = Vec::new();
    let mut saved_space: u64 = 0;
    let mut skipped: Vec<(usize, usize)> = Vec::new();
    let mut name_collisions: Vec<(usize, usize)> = Vec::new();
    let mut d: usize = 0;
    proof {
        assert(dest_entries@.take(0) =~= Seq::<Entry>::empty());
    }
    while d < dn
        invariant
            dn == dest_entries@.len(),
            sn == src_entries@.len(),
            d <= dn,
            saved_space as int == vstd::math::min(
                sum_matched_sizes(
                    matched_pairs(dest_entries@.take(d as int), src_entries@, mode),
                    src_entries@,
                ),
                u64::MAX as int,
            ),
            index_pairs_match(
                duplicates@,
                matched_pairs(dest_entries@.take(d as int), src_entries@, mode),
            ),
            (match command {
                Some(c) => actions_match(
                    actions@,
                    matched_pairs(dest_entries@.take(d as int), src_entries@, mode),
                    dest_entries@,
                    src_entries@,
                    c,
                ),
                None => actions@.len() == 0,
            }),
            index_pairs_match(
                skipped@,
                skipped_pairs(dest_entries@.take(d as int), src_entries@),
            ),
            index_pairs_match(
                name_collisions@,
                collision_pairs(dest_entries@.take(d as int), src_entries@, mode),
            ),
        decreases dn - d,
    {
        let ghost d_pairs_m = matched_pairs(dest_entries@.take(d as int), src_entries@, mode);
        let ghost d_pairs_s = skipped_pairs(dest_entries@.take(d as int), src_entries@);
        let ghost d_pairs_c = collision_pairs(dest_entries@.take(d as int), src_entries@, mode);
        let mut s: usize = 0;
        proof {
            assert(src_entries@.take(0) =~= Seq::<Entry>::empty());
            assert(d_pairs_m + match_row(dest_entries@[d as int], src_entries@.take(0), mode)
                .map_values(|j: int| (d as int, j)) =~= d_pairs_m);
            assert(d_pairs_s + skip_row(dest_entries@[d as int], src_entries@.take(0)).map_values(
                |j: int| (d as int, j),
            ) =~= d_pairs_s);
            assert(d_pairs_c + collide_row(dest_entries@[d as int], src_entries@.take(0), mode)
                .map_values(|j: int| (d as int, j)) =~= d_pairs_c);
        }
        while s < sn
            invariant
                dn == dest_entries@.len(),
                sn == src_entries@.len(),
                d < dn,
                s <= sn,
                d_pairs_m == matched_pairs(dest_entries@.take(d as int), src_entries@, mode),
                d_pairs_s == skipped_pairs(dest_entries@.take(d as int), src_entries@),
                d_pairs_c == collision_pairs(dest_entries@.take(d as int), src_entries@, mode),
                saved_space as int == vstd::math::min(
                    sum_matched_sizes(
                        d_pairs_m + match_row(
                            dest_entries@[d as int],
                            src_entries@.take(s as int),
                            mode,
                        ).map_values(|j: int| (d as int, j)),
                        src_entries@,
                    ),
                    u64::MAX as int,
                ),
                index_pairs_match(
                    duplicates@,
                    d_pairs_m + match_row(
                        dest_entries@[d as int],
                        src_entries@.take(s as int),
                        mode,
                    ).map_values(|j: int| (d as int, j)),
                ),
                (match command {
                    Some(c) => actions_match(
                        actions@,
                        d_pairs_m + match_row(
                            dest_entries@[d as int],
                            src_entries@.take(s as int),
                            mode,
                        ).map_values(|j: int| (d as int, j)),
                        dest_entries@,
                        src_entries@,
                        c,
                    ),
                    None => actions@.len() == 0,
                }),
                index_pairs_match(
                    skipped@,
                    d_pairs_s + skip_row(dest_entries@[d as int], src_entries@.take(s as int))
                        .map_values(|j: int| (d as int, j)),
                ),
                index_pairs_match(
                    name_collisions@,
                    d_pairs_c + collide_row(
                        dest_entries@[d as int],
                        src_entries@.take(s as int),
                        mode,
                    ).map_values(|j: int| (d as int, j)),
                ),
            decreases sn - s,
        {
            let dest_entry = &dest_entries[d];
            let src_entry = &src_entries[s];
            proof {
                lemma_match_row_step(dest_entries@[d as int], src_entries@, mode, s as int);
                lemma_skip_row_step(dest_entries@[d as int], src_entries@, s as int);
                lemma_collide_row_step(dest_entries@[d as int], src_entries@, mode, s as int);
                lemma_map_pair_push(
                    match_row(dest_entries@[d as int], src_entries@.take(s as int), mode),
                    d as int,
                    s as int,
                );
                lemma_map_pair_push(
                    skip_row(dest_entries@[d as int], src_entries@.take(s as int)),
                    d as int,
                    s as int,
                );
                lemma_map_pair_push(
                    collide_row(dest_entries@[d as int], src_entries@.take(s as int), mode),
                    d as int,
                    s as int,
                );
            }
            if dest_entry.path == src_entry.path {
                skipped.push((d, s));
            } else if entries_match(&dest_entry.metadata, &src_entry.metadata, mode) {
                let size = src_entry.metadata.file_metadata.file_size;
                proof {
                    lemma_sum_push(
                        d_pairs_m + match_row(
                            dest_entries@[d as int],
                            src_entries@.take(s as int),
                            mode,
                        ).map_values(|j: int| (d as int, j)),
                        src_entries@,
                        (d as int, s as int),
                    );
                }
                saved_space = if saved_space <= u64::MAX - size {
                    saved_space + size
                } else {
                    u64::MAX
                };
                duplicates.push((d, s));
                if let Some(c) = command {
                    actions.push(
                        Action {
                            entry: src_entry.clone(),
                            dest_entry: dest_entry.clone(),
                            action: c,
                        },
                    );
                }
            } else if same_base_name(&dest_entry.metadata, &src_entry.metadata) {
                name_collisions.push((d, s));
            }
            s += 1;
        }
        proof {
            assert(src_entries@.take(sn as int) =~= src_entries@);
            lemma_matched_pairs_step(dest_entries@, src_entries@, mode, d as int);
            lemma_skipped_pairs_step(dest_entries@, src_entries@, d as int);
            lemma_collision_pairs_step(dest_entries@, src_entries@, mode, d as int);
        }
        d += 1;
    }
    proof {
        assert(dest_entries@.take(dn as int) =~= dest_entries@);
    }
    Plan { duplicates, actions, saved_space, skipped, name_collisions }
}

} // verus!
