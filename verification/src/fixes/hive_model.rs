//! What merging a script into a hive does, as facts about keys and
//! values, and the laws of repeated merges.
use vstd::prelude::*;
use crate::fixes::registry::{nonempty_parts, privacy_registry_edits, HiveOpView};
use crate::text::{join_with, split_on, starts_with};

verus! {

/// The data of a registry value.
pub enum RegData {
    Dword(u32),
    Text(Seq<char>),
    Strings(Seq<Seq<char>>),
}

/// One fact about a hive: a key exists, or a key holds a named value.
/// Keys are named by their paths as the script writes them.
pub enum Fact {
    Key(Seq<char>),
    Value(Seq<char>, Seq<char>, RegData),
}

/// The key a fact is about.
pub open spec fn fact_key(f: Fact) -> Seq<char> {
    match f {
        Fact::Key(k) => k,
        Fact::Value(k, _, _) => k,
    }
}

/// The non-empty components of a key path.
pub open spec fn components(p: Seq<char>) -> Seq<Seq<char>> {
    nonempty_parts(split_on(p, '\\'))
}

/// The key that the value lines of a set operation on `p` land in: the
/// last key line written before them, made of the non-empty components.
pub open spec fn value_key(p: Seq<char>) -> Seq<char> {
    join_with(components(p), seq!['\\'])
}

/// The keys that the key lines of a set operation on `p` open: each
/// leading run of its components.
pub open spec fn opened_keys(p: Seq<char>) -> Set<Fact> {
    Set::new(
        |f: Fact|
            exists|j: int|
                1 <= j <= components(p).len() && f == Fact::Key(
                    join_with(#[trigger] components(p).subrange(0, j), seq!['\\']),
                ),
    )
}

/// Whether key `k` is `p` or lies below it.
pub open spec fn in_subtree(k: Seq<char>, p: Seq<char>) -> bool {
    k == p || starts_with(k, p + seq!['\\'])
}

/// Whether merging `op` removes fact `f` (before adding what it writes):
/// deleting a key removes it with everything below it; deleting or
/// setting a value removes the value of that name in that key.
pub open spec fn removes(op: HiveOpView, f: Fact) -> bool {
    match op {
        HiveOpView::DeleteKey(p) => in_subtree(fact_key(f), p),
        HiveOpView::DeleteValue(p, n) => f matches Fact::Value(k, m, _) && k == p && m == n,
        HiveOpView::SetDword(p, n, _) => f matches Fact::Value(k, m, _) && k == value_key(p) && m
            == n,
        HiveOpView::SetString(p, n, _) => f matches Fact::Value(k, m, _) && k == value_key(p) && m
            == n,
        HiveOpView::SetMultiString(p, n, _) => f matches Fact::Value(k, m, _) && k == value_key(
            p,
        ) && m == n,
    }
}

/// The facts that merging `op` writes: deleting a key writes nothing,
/// deleting a value opens its key, setting a value opens the key and its
/// ancestors and stores the value.
pub open spec fn adds(op: HiveOpView) -> Set<Fact> {
    match op {
        HiveOpView::DeleteKey(_) => Set::empty(),
        HiveOpView::DeleteValue(p, _) => set![Fact::Key(p)],
        HiveOpView::SetDword(p, n, v) => opened_keys(p).insert(
            Fact::Value(value_key(p), n, RegData::Dword(v)),
        ),
        HiveOpView::SetString(p, n, v) => opened_keys(p).insert(
            Fact::Value(value_key(p), n, RegData::Text(v)),
        ),
        HiveOpView::SetMultiString(p, n, vs) => opened_keys(p).insert(
            Fact::Value(value_key(p), n, RegData::Strings(vs)),
        ),
    }
}

/// The hive after merging one operation into `h`.
pub open spec fn merge_op(h: Set<Fact>, op: HiveOpView) -> Set<Fact> {
    Set::new(|f: Fact| h.contains(f) && !removes(op, f)).union(adds(op))
}

/// The hive after merging the script of `ops` into `h`: the operations
/// one after another, in order.
pub open spec fn merge(h: Set<Fact>, ops: Seq<HiveOpView>) -> Set<Fact>
    decreases ops.len(),
{
    if ops.len() == 0 {
        h
    } else {
        merge_op(merge(h, ops.drop_last()), ops.last())
    }
}

/// Whether some operation of `ops` removes `f`.
pub open spec fn removed_by(ops: Seq<HiveOpView>, f: Fact) -> bool
    decreases ops.len(),
{
    ops.len() > 0 && (removed_by(ops.drop_last(), f) || removes(ops.last(), f))
}

/// The facts that the script of `ops` leaves written: what each operation
/// writes and no later one removes.
pub open spec fn written_by(ops: Seq<HiveOpView>) -> Set<Fact>
    decreases ops.len(),
{
    if ops.len() == 0 {
        Set::empty()
    } else {
        Set::new(|f: Fact| written_by(ops.drop_last()).contains(f) && !removes(ops.last(), f)).union(
            adds(ops.last()),
        )
    }
}

/// Merging a script keeps the facts of the hive that no operation
/// removes and adds what the script leaves written.
proof fn lemma_merge_shape(h: Set<Fact>, ops: Seq<HiveOpView>)
    ensures
        merge(h, ops) == Set::new(|f: Fact| h.contains(f) && !removed_by(ops, f)).union(
            written_by(ops),
        ),
    decreases ops.len(),
{
    if ops.len() == 0 {
        assert(Set::new(|f: Fact| h.contains(f) && !removed_by(ops, f)).union(written_by(ops))
            =~= h);
    } else {
        lemma_merge_shape(h, ops.drop_last());
        assert(merge(h, ops) =~= Set::new(|f: Fact| h.contains(f) && !removed_by(ops, f)).union(
            written_by(ops),
        ));
    }
}

/// Merging the same script twice leaves the hive as merging it once: every
/// operation sets a value to fixed data, opens a key, or deletes.
pub proof fn law_merge_is_idempotent(h: Set<Fact>, ops: Seq<HiveOpView>)
    ensures
        merge(merge(h, ops), ops) == merge(h, ops),
{
    let m = merge(h, ops);
    lemma_merge_shape(h, ops);
    lemma_merge_shape(m, ops);
    assert(merge(m, ops) =~= m);
}

/// Applying the privacy tweaks a second time changes none of the hives:
/// for each hive edit, merging its operations into the hive they already
/// went into leaves it as it was.
pub proof fn law_privacy_tweaks_idempotent(mount: Seq<char>, h: Set<Fact>, i: int)
    requires
        0 <= i < privacy_registry_edits(mount).len(),
    ensures
        merge(merge(h, privacy_registry_edits(mount)[i].ops), privacy_registry_edits(mount)[i].ops)
            == merge(h, privacy_registry_edits(mount)[i].ops),
{
    law_merge_is_idempotent(h, privacy_registry_edits(mount)[i].ops);
}

} // verus!
