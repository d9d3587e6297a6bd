//! What the store's contracts add up to, written down and proved. The
//! functions here speak of the abstract state that the CRUD contracts use: a
//! table from identifiers to payload characters and the last identifier
//! assigned. `create_step` is exactly the movement that `create`'s contract
//! gives; the proofs then say what runs of such steps guarantee.

use vstd::prelude::*;

verus! {

/// One `create` on the abstract state: the next identifier is assigned, the
/// payload filed under it, and the counter advanced to it.
pub open spec fn create_step(t: Map<usize, Seq<char>>, c: usize, p: Seq<char>) -> (
    Map<usize, Seq<char>>,
    usize,
) recommends c < usize::MAX {
    (t.insert((c + 1) as usize, p), (c + 1) as usize)
}

/// The abstract state after a whole run of `create` calls, one per payload,
/// in order.
pub open spec fn run_creates(t: Map<usize, Seq<char>>, c: usize, ps: Seq<Seq<char>>) -> (
    Map<usize, Seq<char>>,
    usize,
)
    decreases ps.len(),
{
    if ps.len() == 0 {
        (t, c)
    } else {
        let s = create_step(t, c, ps[0]);
        run_creates(s.0, s.1, ps.skip(1))
    }
}

/// The identifier handed out by the k-th call of such a run (counting
/// from 0): one more than the counter that the first k calls left behind.
pub open spec fn id_of_nth_create(
    t: Map<usize, Seq<char>>,
    c: usize,
    ps: Seq<Seq<char>>,
    k: int,
) -> int
    recommends 0 <= k < ps.len(),
{
    run_creates(t, c, ps.take(k)).1 + 1
}

/// A payload just created is read back exactly: after `create` files `p`
/// under the fresh identifier, the table holds `p` there. Together with
/// `read`'s contract, `read(create(p))` returns `p`.
pub proof fn created_entry_reads_back(t: Map<usize, Seq<char>>, c: usize, p: Seq<char>)
    requires
        c < usize::MAX,
    ensures
        create_step(t, c, p).0.contains_key(create_step(t, c, p).1),
        create_step(t, c, p).0[create_step(t, c, p).1] == p,
{
}

/// A run of creates drives the counter up by exactly one per call, whatever
/// the payloads are.
pub proof fn run_creates_counter(t: Map<usize, Seq<char>>, c: usize, ps: Seq<Seq<char>>)
    requires
        c + ps.len() <= usize::MAX,
    ensures
        run_creates(t, c, ps).1 == c + ps.len(),
    decreases ps.len(),
{
    if ps.len() > 0 {
        let s = create_step(t, c, ps[0]);
        run_creates_counter(s.0, s.1, ps.skip(1));
    }
}

/// In any sequence of `create` calls, the k-th call returns the starting
/// counter plus k plus one; so the identifiers handed out are strictly
/// increasing in call order, and in particular pairwise distinct.
pub proof fn create_ids_strictly_increase(
    t: Map<usize, Seq<char>>,
    c: usize,
    ps: Seq<Seq<char>>,
    i: int,
    j: int,
)
    requires
        c + ps.len() <= usize::MAX,
        0 <= i < j < ps.len(),
    ensures
        id_of_nth_create(t, c, ps, i) == c + i + 1,
        id_of_nth_create(t, c, ps, j) == c + j + 1,
        id_of_nth_create(t, c, ps, i) < id_of_nth_create(t, c, ps, j),
{
    run_creates_counter(t, c, ps.take(i));
    run_creates_counter(t, c, ps.take(j));
}

/// After a delete, the identifier has no entry, so a read of it misses; and
/// since the counter outlives the entry, every identifier that later creates
/// hand out is larger still: a deleted identifier never comes back.
pub proof fn deleted_id_stays_retired(
    t: Map<usize, Seq<char>>,
    c: usize,
    id: usize,
    ps: Seq<Seq<char>>,
    k: int,
)
    requires
        id <= c,
        c + ps.len() <= usize::MAX,
        0 <= k < ps.len(),
    ensures
        !t.remove(id).contains_key(id),
        id_of_nth_create(t.remove(id), c, ps, k) > id,
{
    run_creates_counter(t.remove(id), c, ps.take(k));
}

/// Updating an identifier that holds `p1` to `p2` makes a read of it return
/// `p2`, not `p1`: in the table, the update's insert wins.
pub proof fn updated_entry_reads_back(
    t: Map<usize, Seq<char>>,
    id: usize,
    p1: Seq<char>,
    p2: Seq<char>,
)
    ensures
        t.insert(id, p1).insert(id, p2).contains_key(id),
        t.insert(id, p1).insert(id, p2)[id] == p2,
{
}

} // verus!
