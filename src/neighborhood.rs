use vstd::prelude::*;

verus! {

/// The indices `b < k` other than `me` for which `row[b]` holds, in
/// increasing order.
pub open spec fn selected_upto(me: int, row: Seq<bool>, k: int) -> Seq<usize>
    decreases k,
{
    if k <= 0 {
        Seq::empty()
    } else {
        let prev = selected_upto(me, row, k - 1);
        if k - 1 != me && row[k - 1] {
            prev.push((k - 1) as usize)
        } else {
            prev
        }
    }
}

/// The neighbours of agent `me`, given the row of the neighbourhood
/// predicate that `me` observes: every other agent for which the predicate
/// holds, in index order. The agent itself is never among them.
pub open spec fn selected(me: int, row: Seq<bool>) -> Seq<usize> {
    selected_upto(me, row, row.len() as int)
}

/// Whether index `b` occurs in `s`.
pub open spec fn lists(s: Seq<usize>, b: int) -> bool {
    exists|i: int| 0 <= i < s.len() && s[i] == b
}

proof fn lemma_selected_upto(me: int, row: Seq<bool>, k: int)
    requires
        0 <= k <= row.len(),
        row.len() <= usize::MAX,
    ensures
        forall|i: int| 0 <= i < selected_upto(me, row, k).len()
            ==> selected_upto(me, row, k)[i] < k,
        forall|i: int, j: int| 0 <= i < j < selected_upto(me, row, k).len()
            ==> selected_upto(me, row, k)[i] < selected_upto(me, row, k)[j],
        forall|b: int| #[trigger] lists(selected_upto(me, row, k), b)
            <==> (0 <= b < k && b != me && row[b]),
    decreases k,
{
    if k > 0 {
        lemma_selected_upto(me, row, k - 1);
        let prev = selected_upto(me, row, k - 1);
        let cur = selected_upto(me, row, k);
        assert forall|b: int| #[trigger] lists(cur, b) <==> (0 <= b < k && b != me && row[b]) by {
            assert(lists(prev, b) <==> (0 <= b < k - 1 && b != me && row[b]));
            if lists(prev, b) {
                let i = choose|i: int| 0 <= i < prev.len() && prev[i] == b;
                assert(cur[i] == b);
            }
            if b == k - 1 && b != me && row[b] {
                assert(cur[cur.len() - 1] == b);
            }
            if lists(cur, b) {
                let i = choose|i: int| 0 <= i < cur.len() && cur[i] == b;
                if i < prev.len() {
                    assert(prev[i] == b);
                } else {
                    assert(cur.len() == prev.len() + 1);
                }
            }
        }
    }
}

/// The neighbour list holds exactly the other agents that the predicate
/// admits, each once, in strictly increasing index order.
pub proof fn lemma_selected_exact(me: int, row: Seq<bool>)
    requires
        row.len() <= usize::MAX,
    ensures
        forall|i: int, j: int| 0 <= i < j < selected(me, row).len()
            ==> selected(me, row)[i] < selected(me, row)[j],
        forall|b: int| #[trigger] lists(selected(me, row), b)
            <==> (0 <= b < row.len() && b != me && row[b]),
{
    lemma_selected_upto(me, row, row.len() as int);
}

/// An agent has no neighbours exactly when the predicate admits no other
/// agent from its point of view.
pub proof fn lemma_no_neighbors_iff_none_admitted(me: int, row: Seq<bool>)
    requires
        row.len() <= usize::MAX,
    ensures
        selected(me, row).len() == 0 <==> (forall|b: int| 0 <= b < row.len() && b != me ==> !row[b]),
{
    lemma_selected_upto(me, row, row.len() as int);
    let s = selected(me, row);
    if s.len() > 0 {
        assert(lists(s, s[0] as int));
    }
    if exists|b: int| 0 <= b < row.len() && b != me && row[b] {
        let b = choose|b: int| 0 <= b < row.len() && b != me && row[b];
        assert(lists(s, b));
    }
}

/// A lone agent has no neighbours, whatever the predicate says of it and
/// itself: the steering step then leaves its orientation as it is.
pub proof fn lemma_lone_agent_has_no_neighbors(row: Seq<bool>)
    requires
        row.len() == 1,
    ensures
        selected(0, row).len() == 0,
{
    reveal_with_fuel(selected_upto, 2);
}

/// Collects the neighbours of agent `me` from the row of the neighbourhood
/// predicate that `me` observes, skipping `me` itself.
pub fn neighbors_of(me: usize, row: &Vec<bool>) -> (r: Vec<usize>)
    ensures
        r@ == selected(me as int, row@),
{
    let mut r: Vec<usize> = Vec::new();
    let mut i: usize = 0;
    while i < row.len()
        invariant
            i <= row.len(),
            r@ == selected_upto(me as int, row@, i as int),
        decreases row.len() - i,
    {
        if i != me && row[i] {
            r.push(i);
        }
        i = i + 1;
    }
    r
}

/// What the steering step does for one agent.
#[derive(Debug, PartialEq, Eq)]
pub enum Steering {
    /// No neighbours: the orientation is left as it is.
    Hold,
    /// Steer by these neighbours (never empty), in index order.
    Steer(Vec<usize>),
}

/// The steering decision for agent `me` given its neighbour list.
pub open spec fn steering_matches(me: int, row: Seq<bool>, s: Steering) -> bool {
    match s {
        Steering::Hold => selected(me, row).len() == 0,
        Steering::Steer(v) => selected(me, row).len() > 0 && v@ == selected(me, row),
    }
}

/// Plans one steering step from the neighbourhood predicate evaluated on the
/// pre-step state: `matrix[a][b]` says whether `b` passes the distance and
/// field-of-view test as seen from `a`. Each agent holds its orientation
/// when it has no neighbours and steers by exactly its neighbours otherwise.
pub fn plan_steering(matrix: &Vec<Vec<bool>>) -> (r: Vec<Steering>)
    ensures
        r.len() == matrix.len(),
        forall|a: int| 0 <= a < r.len() ==> steering_matches(a, matrix[a]@, #[trigger] r[a]),
{
    let mut r: Vec<Steering> = Vec::new();
    let mut a: usize = 0;
    while a < matrix.len()
        invariant
            a <= matrix.len(),
            r.len() == a,
            forall|k: int| 0 <= k < a ==> steering_matches(k, matrix[k]@, #[trigger] r[k]),
        decreases matrix.len() - a,
    {
        let n = neighbors_of(a, &matrix[a]);
        if n.len() == 0 {
            r.push(Steering::Hold);
        } else {
            r.push(Steering::Steer(n));
        }
        a = a + 1;
    }
    r
}

} // verus!
