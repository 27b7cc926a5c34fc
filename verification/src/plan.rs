use vstd::prelude::*;

use crate::seaql_migrations::{Model, ModelV};

verus! {

/// The views of a sequence of declared names.
pub open spec fn name_views(names: Seq<String>) -> Seq<Seq<char>> {
    names.map_values(|s: String| s@)
}

/// The views of a sequence of history rows.
pub open spec fn model_views(models: Seq<Model>) -> Seq<ModelV> {
    models.map_values(|m: Model| m@)
}

/// The version column of a sequence of history rows.
pub open spec fn versions_of(h: Seq<ModelV>) -> Seq<Seq<char>> {
    h.map_values(|m: ModelV| m.version)
}

/// The reconciliation invariant: the history rows are, name by name and
/// index by index, a prefix of the declared list.
pub open spec fn is_name_prefix(h: Seq<ModelV>, names: Seq<Seq<char>>) -> bool {
    h.len() <= names.len() && (forall|i: int|
        0 <= i < h.len() ==> (#[trigger] h[i]).version == names[i])
}

/// No two declared names are the same.
pub open spec fn unique_names(names: Seq<Seq<char>>) -> bool {
    forall|i: int, j: int| 0 <= i < j < names.len() ==> names[i] != names[j]
}

/// How many units an operation touches when `avail` are eligible under the
/// step limit: all of them for `None`, at most `k` for `Some(k)`.
pub open spec fn limited(avail: int, steps: Option<u32>) -> int {
    match steps {
        None => avail,
        Some(k) => if k <= avail {
            k as int
        } else {
            avail
        },
    }
}

/// The history's version column after applying pending units, starting from
/// `applied` recorded rows, under a step limit.
pub open spec fn up_versions(names: Seq<Seq<char>>, applied: int, steps: Option<u32>) -> Seq<
    Seq<char>,
> {
    names.take(applied + limited(names.len() - applied, steps))
}

/// How many rows remain after rolling back from `applied` recorded rows
/// under a step limit.
pub open spec fn down_remaining(applied: int, steps: Option<u32>) -> int {
    applied - limited(applied, steps)
}

/// The history rows right after installing the bookkeeping table: what
/// was there if the table existed, nothing if it was just created.
pub open spec fn post_install(h: Option<Seq<ModelV>>) -> Seq<ModelV> {
    if h is Some {
        h.unwrap()
    } else {
        Seq::<ModelV>::empty()
    }
}

/// What installing the bookkeeping table does to the modelled state: absent
/// history becomes present and empty, present history is kept, and the
/// table's name joins the table set.
pub open spec fn install_effect(
    h0: Option<Seq<ModelV>>,
    t0: Set<Seq<char>>,
    h1: Option<Seq<ModelV>>,
    t1: Set<Seq<char>>,
) -> bool {
    &&& h1 == (if h0 is Some {
        h0
    } else {
        Some(Seq::<ModelV>::empty())
    })
    &&& t1 == t0.insert("seaql_migrations"@)
}

/// Whatever the step limit, the history after applying or rolling back
/// stays a prefix of the declared list: applying yields a longer take of
/// the declared names, rolling back a shorter one, and every take of the
/// declared names satisfies the reconciliation invariant. This is the
/// engine-side half of the prefix invariant; the other half is that a
/// history that is not such a prefix is rejected as drift.
pub proof fn lemma_take_is_prefix(names: Seq<Seq<char>>, h: Seq<ModelV>, n: int)
    requires
        0 <= n <= names.len(),
        versions_of(h) == names.take(n),
    ensures
        is_name_prefix(h, names),
{
    assert(h.len() == versions_of(h).len());
    assert forall|i: int| 0 <= i < h.len() implies (#[trigger] h[i]).version == names[i] by {
        assert(versions_of(h)[i] == h[i].version);
        assert(names.take(n)[i] == names[i]);
    }
}

/// Applying pending units can only lengthen the history along the declared
/// list: whatever already-recorded count and step limit, the rows afterwards
/// still satisfy the reconciliation invariant.
pub proof fn lemma_up_preserves_prefix(
    names: Seq<Seq<char>>,
    h: Seq<ModelV>,
    applied: int,
    steps: Option<u32>,
)
    requires
        0 <= applied <= names.len(),
        versions_of(h) == up_versions(names, applied, steps),
    ensures
        is_name_prefix(h, names),
{
    lemma_take_is_prefix(names, h, applied + limited(names.len() - applied, steps));
}

/// Rolling back keeps the reconciliation invariant: a shorter take of a
/// history that was a prefix of the declared list is still one.
pub proof fn lemma_down_preserves_prefix(names: Seq<Seq<char>>, h: Seq<ModelV>, m: int)
    requires
        is_name_prefix(h, names),
        0 <= m <= h.len(),
    ensures
        is_name_prefix(h.take(m), names),
{
    assert forall|i: int| 0 <= i < m implies (#[trigger] h.take(m)[i]).version == names[i] by {
        assert(h.take(m)[i] == h[i]);
    }
}

/// Applying up to `k` units and then up to `m` more touches the same units
/// as applying up to `k + m` at once: the resulting history columns agree.
pub proof fn lemma_up_steps_compose(names: Seq<Seq<char>>, applied: int, k: u32, m: u32)
    requires
        0 <= applied <= names.len(),
        k + m <= u32::MAX,
    ensures
        up_versions(names, applied + limited(names.len() - applied, Some(k)), Some(m))
            == up_versions(names, applied, Some((k + m) as u32)),
{
}

/// A step limit at least the number of pending units behaves as no limit.
pub proof fn lemma_up_steps_saturate(names: Seq<Seq<char>>, applied: int, k: u32)
    requires
        0 <= applied <= names.len(),
        k >= names.len() - applied,
    ensures
        up_versions(names, applied, Some(k)) == up_versions(names, applied, None),
{
}

/// A step limit of zero applies nothing.
pub proof fn lemma_up_zero_steps(names: Seq<Seq<char>>, applied: int, h: Seq<ModelV>)
    requires
        0 <= applied <= names.len(),
        versions_of(h) == names.take(applied),
    ensures
        up_versions(names, applied, Some(0u32)) == versions_of(h),
{
}

/// A rollback limit at least the number of applied units behaves as no
/// limit, and a limit of zero rolls nothing back.
pub proof fn lemma_down_steps_saturate(applied: int, k: u32)
    requires
        0 <= applied,
    ensures
        k >= applied ==> down_remaining(applied, Some(k)) == down_remaining(applied, None),
        down_remaining(applied, Some(0u32)) == applied,
        down_remaining(applied, None) == 0,
{
}

/// Applying everything and then rolling everything back leaves the history
/// as empty as it began: from an empty history, `up` with no limit records
/// every declared name, and `down` with no limit then removes every row.
pub proof fn lemma_up_down_round_trip(names: Seq<Seq<char>>)
    ensures
        up_versions(names, 0, None) == names,
        down_remaining(up_versions(names, 0, None).len() as int, None) == 0,
{
    assert(names.take(names.len() as int) =~= names);
}

/// A filter that keeps every element leaves the sequence as it was.
pub proof fn lemma_filter_all_pass(s: Seq<ModelV>, pred: spec_fn(ModelV) -> bool)
    requires
        forall|i: int| 0 <= i < s.len() ==> pred(#[trigger] s[i]),
    ensures
        s.filter(pred) == s,
    decreases s.len(),
{
    reveal_with_fuel(Seq::filter, 2);
    if s.len() == 0 {
        assert(s.filter(pred) =~= s);
    } else {
        lemma_filter_all_pass(s.drop_last(), pred);
        assert(pred(s.last()));
        assert(s.filter(pred) =~= s);
    }
}

/// Deleting the history's newest row by its version removes exactly that
/// row, provided no older row carries the same version.
pub proof fn lemma_delete_last(h: Seq<ModelV>, v: Seq<char>)
    requires
        h.len() > 0,
        h[h.len() - 1].version == v,
        forall|i: int| 0 <= i < h.len() - 1 ==> (#[trigger] h[i]).version != v,
    ensures
        h.filter(|m: ModelV| m.version != v) == h.take(h.len() - 1),
{
    reveal_with_fuel(Seq::filter, 2);
    let pred = |m: ModelV| m.version != v;
    assert(!pred(h.last()));
    assert(h.filter(pred) == h.drop_last().filter(pred));
    assert forall|i: int| 0 <= i < h.drop_last().len() implies pred(
        #[trigger] h.drop_last()[i],
    ) by {
        assert(h.drop_last()[i] == h[i]);
    }
    lemma_filter_all_pass(h.drop_last(), pred);
    assert(h.drop_last() =~= h.take(h.len() - 1));
}

/// The history a destructive rebuild leaves behind — every declared name,
/// in order — does not depend on the state it started from, so running it
/// twice in a row leaves the same history as running it once.
pub proof fn lemma_fresh_idempotent(names: Seq<Seq<char>>)
    ensures
        up_versions(names, 0, None) == names,
{
    assert(names.take(names.len() as int) =~= names);
}

} // verus!
