//! Boolean predicate expressions with structural interning.
//!
//! A predicate is a boolean expression over numbered field tests, combined
//! with `And`, `Or` and `Not`. All nodes of one generation run live in a
//! single shared pool; the pool deduplicates structurally identical
//! expressions, so two predicates with equal canonical keys are the same
//! node. `And` and `Or` canonicalize their operand order, so the operand
//! order at the call site does not matter.

use vstd::prelude::*;

verus! {

/// One predicate node, stored in a pool. Child predicates are referred to
/// by their pool handle.
#[derive(Debug)]
pub enum PredicateNode {
    /// A test on one numbered field.
    Leaf { field: u64 },
    /// True if all parts are true. Parts are kept in canonical (ascending)
    /// handle order.
    And { parts: Vec<usize> },
    /// True if any part is true. Parts are kept in canonical (ascending)
    /// handle order.
    Or { parts: Vec<usize> },
    /// True if the single part is false.
    Not { part: usize },
}

/// The canonical key of a predicate node: the ordered tuple of its
/// structural contents. Two nodes with equal keys are the same predicate.
pub enum PredicateKey {
    Leaf(u64),
    And(Seq<usize>),
    Or(Seq<usize>),
    Not(usize),
}

/// The canonical key of one stored node.
pub open spec fn key_of_node(n: PredicateNode) -> PredicateKey {
    match n {
        PredicateNode::Leaf { field } => PredicateKey::Leaf(field),
        PredicateNode::And { parts } => PredicateKey::And(parts@),
        PredicateNode::Or { parts } => PredicateKey::Or(parts@),
        PredicateNode::Not { part } => PredicateKey::Not(part),
    }
}

/// The canonical keys of a whole node sequence.
pub open spec fn keys_of(nodes: Seq<PredicateNode>) -> Seq<PredicateKey> {
    nodes.map_values(|n: PredicateNode| key_of_node(n))
}

/// The index of the first node with key `k`, or `-1` when no node has it.
pub open spec fn find_key(s: Seq<PredicateKey>, k: PredicateKey) -> int
    decreases s.len(),
{
    if s.len() == 0 {
        -1
    } else if s[0] == k {
        0
    } else {
        let r = find_key(s.drop_first(), k);
        if r < 0 {
            -1
        } else {
            r + 1
        }
    }
}

/// Interning a key into a pool: an existing node's handle is reused, a new
/// key is appended at the end.
pub open spec fn intern_spec(s: Seq<PredicateKey>, k: PredicateKey) -> (Seq<PredicateKey>, int) {
    let i = find_key(s, k);
    if i >= 0 {
        (s, i)
    } else {
        (s.push(k), s.len() as int)
    }
}

/// Insertion of one handle into an ascending handle sequence, keeping the
/// order.
pub open spec fn insert_sorted(s: Seq<usize>, x: usize) -> Seq<usize>
    decreases s.len(),
{
    if s.len() == 0 {
        seq![x]
    } else if x <= s[0] {
        seq![x] + s
    } else {
        seq![s[0]] + insert_sorted(s.drop_first(), x)
    }
}

/// The canonical (ascending) ordering of a handle sequence.
pub open spec fn sort_ids(s: Seq<usize>) -> Seq<usize>
    decreases s.len(),
{
    if s.len() == 0 {
        Seq::<usize>::empty()
    } else {
        insert_sorted(sort_ids(s.drop_last()), s.last())
    }
}

/// Whether a handle sequence is in ascending order.
pub open spec fn ids_sorted(s: Seq<usize>) -> bool {
    forall|i: int, j: int| 0 <= i < j < s.len() ==> s[i] <= s[j]
}

/// What `find_key` returns: the first index holding `k`, or `-1` when `k`
/// is absent.
pub proof fn lemma_find_key_props(s: Seq<PredicateKey>, k: PredicateKey)
    ensures
        find_key(s, k) == -1 ==> forall|m: int| 0 <= m < s.len() ==> s[m] != k,
        find_key(s, k) >= 0 ==> {
            &&& find_key(s, k) < s.len()
            &&& s[find_key(s, k)] == k
            &&& forall|m: int| 0 <= m < find_key(s, k) ==> s[m] != k
        },
    decreases s.len(),
{
    if s.len() > 0 && s[0] != k {
        lemma_find_key_props(s.drop_first(), k);
        assert forall|m: int| 1 <= m < s.len() implies s.drop_first()[m - 1] == s[m] by {}
    }
}

/// A key just pushed onto a pool that lacked it is found at the old end.
pub proof fn lemma_find_key_push(s: Seq<PredicateKey>, k: PredicateKey)
    requires
        find_key(s, k) == -1,
    ensures
        find_key(s.push(k), k) == s.len(),
    decreases s.len(),
{
    if s.len() == 0 {
        assert(s.push(k)[0] == k);
    } else {
        lemma_find_key_props(s, k);
        assert(s.push(k)[0] == s[0]);
        assert(s.push(k).drop_first() =~= s.drop_first().push(k));
        lemma_find_key_push(s.drop_first(), k);
    }
}

/// Interning the same key twice returns the same handle and leaves the
/// pool unchanged the second time.
pub proof fn lemma_intern_idempotent(s: Seq<PredicateKey>, k: PredicateKey)
    ensures
        ({
            let (s1, i1) = intern_spec(s, k);
            let (s2, i2) = intern_spec(s1, k);
            s2 == s1 && i2 == i1
        }),
{
    let i = find_key(s, k);
    if i < 0 {
        lemma_find_key_push(s, k);
        lemma_find_key_props(s.push(k), k);
    }
}

/// Sorting a two-element handle sequence ignores the order it was given
/// in.
pub proof fn lemma_sort_pair(a: usize, b: usize)
    ensures
        sort_ids(seq![a, b]) == sort_ids(seq![b, a]),
{
    reveal_with_fuel(sort_ids, 4);
    reveal_with_fuel(insert_sorted, 4);
    assert(seq![a, b].drop_last() =~= seq![a]);
    assert(seq![b, a].drop_last() =~= seq![b]);
    assert(seq![a].drop_last() =~= Seq::<usize>::empty());
    assert(seq![b].drop_last() =~= Seq::<usize>::empty());
    assert(sort_ids(seq![a]) =~= seq![a]);
    assert(sort_ids(seq![b]) =~= seq![b]);
    if b <= a {
        assert(sort_ids(seq![a, b]) =~= seq![b, a]);
    } else {
        assert(seq![a].drop_first() =~= Seq::<usize>::empty());
        assert(sort_ids(seq![a, b]) =~= seq![a, b]);
    }
    if a <= b {
        assert(sort_ids(seq![b, a]) =~= seq![a, b]);
    } else {
        assert(seq![b].drop_first() =~= Seq::<usize>::empty());
        assert(sort_ids(seq![b, a]) =~= seq![b, a]);
    }
}

/// Structural interning ignores the operand order of a binary `and`: the
/// combination of two predicate handles interns to the same node, with the
/// same handle, whichever way round the operands are given, and the second
/// interning allocates nothing.
pub proof fn lemma_and_order_insensitive(pool: Seq<PredicateKey>, a: usize, b: usize)
    ensures
        ({
            let (s1, i1) = intern_spec(pool, PredicateKey::And(sort_ids(seq![a, b])));
            let (s2, i2) = intern_spec(s1, PredicateKey::And(sort_ids(seq![b, a])));
            i2 == i1 && s2 == s1
        }),
{
    lemma_sort_pair(a, b);
    lemma_intern_idempotent(pool, PredicateKey::And(sort_ids(seq![a, b])));
}

/// Equality of two handle vectors.
fn vec_usize_eq(a: &Vec<usize>, b: &Vec<usize>) -> (r: bool)
    ensures
        r == (a@ == b@),
{
    if a.len() != b.len() {
        return false;
    }
    let n = a.len();
    let mut i: usize = 0;
    while i < n
        invariant
            i <= n,
            n == a@.len(),
            n == b@.len(),
            forall|m: int| 0 <= m < i ==> a@[m] == b@[m],
        decreases n - i,
    {
        if a[i] != b[i] {
            return false;
        }
        i += 1;
    }
    proof {
        assert(a@ =~= b@);
    }
    true
}

/// Whether two nodes share a canonical key.
fn nodes_match(a: &PredicateNode, b: &PredicateNode) -> (r: bool)
    ensures
        r == (key_of_node(*a) == key_of_node(*b)),
{
    match (a, b) {
        (PredicateNode::Leaf { field: f1 }, PredicateNode::Leaf { field: f2 }) => f1 == f2,
        (PredicateNode::And { parts: p1 }, PredicateNode::And { parts: p2 }) => vec_usize_eq(
            p1,
            p2,
        ),
        (PredicateNode::Or { parts: p1 }, PredicateNode::Or { parts: p2 }) => vec_usize_eq(p1, p2),
        (PredicateNode::Not { part: x }, PredicateNode::Not { part: y }) => x == y,
        _ => false,
    }
}

/// The shared pool that owns every predicate node of one generation run.
/// Handles into the pool are plain indices; interning guarantees that a
/// structurally identical node is never stored twice.
pub struct PredicatePool {
    nodes: Vec<PredicateNode>,
}

impl View for PredicatePool {
    type V = Seq<PredicateKey>;

    closed spec fn view(&self) -> Seq<PredicateKey> {
        keys_of(self.nodes@)
    }
}

impl PredicatePool {
    /// An empty pool.
    pub fn new() -> (r: Self)
        ensures
            r@ == Seq::<PredicateKey>::empty(),
    {
        let p = PredicatePool { nodes: Vec::new() };
        proof {
            assert(p@ =~= Seq::<PredicateKey>::empty());
        }
        p
    }

    /// How many distinct predicates the pool holds.
    pub fn len(&self) -> (r: usize)
        ensures
            r == self@.len(),
    {
        self.nodes.len()
    }

    /// The canonical stored node behind a handle: its structural contents
    /// are the predicate's canonical key.
    pub fn key(&self, id: usize) -> (r: &PredicateNode)
        requires
            id < self@.len(),
        ensures
            key_of_node(*r) == self@[id as int],
    {
        &self.nodes[id]
    }

    /// Return the handle of the node with `node`'s key, interning `node` if
    /// no such node exists yet.
    fn intern(&mut self, node: PredicateNode) -> (id: usize)
        ensures
            ({
                let (s2, i) = intern_spec(old(self)@, key_of_node(node));
                final(self)@ == s2 && id == i
            }),
            id < final(self)@.len(),
    {
        let n = self.nodes.len();
        let mut i: usize = 0;
        while i < n
            invariant
                i <= n,
                n == self@.len(),
                *self == *old(self),
                forall|m: int| 0 <= m < i ==> self@[m] != key_of_node(node),
            decreases n - i,
        {
            if nodes_match(&self.nodes[i], &node) {
                proof {
                    lemma_find_key_props(self@, key_of_node(node));
                    let f = find_key(self@, key_of_node(node));
                    assert(self@[i as int] == key_of_node(node));
                    assert(f >= 0);
                    assert(f <= i);
                    assert(f >= i);
                }
                return i;
            }
            proof {
                assert(self@[i as int] == key_of_node(self.nodes@[i as int]));
            }
            i += 1;
        }
        proof {
            lemma_find_key_props(self@, key_of_node(node));
            assert(find_key(self@, key_of_node(node)) == -1) by {
                lemma_find_key_props(self@, key_of_node(node));
                if find_key(self@, key_of_node(node)) >= 0 {
                    assert(self@[find_key(self@, key_of_node(node))] == key_of_node(node));
                }
            }
        }
        let ghost before = self.nodes@;
        self.nodes.push(node);
        proof {
            assert(keys_of(before.push(node)) =~= keys_of(before).push(key_of_node(node)));
        }
        n
    }

    /// A predicate testing one numbered field. Interns into the pool: an
    /// existing leaf over the same field is returned unchanged.
    pub fn leaf(&mut self, field: u64) -> (id: usize)
        ensures
            ({
                let (s2, i) = intern_spec(old(self)@, PredicateKey::Leaf(field))                ;
                final(self)@ == s2 && id == i
            }),
            id < final(self)@.len(),
    {
        self.intern(PredicateNode::Leaf { field })
    }

    /// The conjunction of the given predicate handles. The operand order is
    /// canonicalized before interning, so `and` of the same handles in any
    /// order returns the same node.
    pub fn and(&mut self, parts: Vec<usize>) -> (id: usize)
        ensures
            ({
                let (s2, i) = intern_spec(old(self)@, PredicateKey::And(sort_ids(parts@)));
                final(self)@ == s2 && id == i
            }),
            id < final(self)@.len(),
    {
        let sorted = sort_ids_exec(parts);
        self.intern(PredicateNode::And { parts: sorted })
    }

    /// The disjunction of the given predicate handles, with the operand
    /// order canonicalized before interning.
    pub fn or(&mut self, parts: Vec<usize>) -> (id: usize)
        ensures
            ({
                let (s2, i) = intern_spec(old(self)@, PredicateKey::Or(sort_ids(parts@)));
                final(self)@ == s2 && id == i
            }),
            id < final(self)@.len(),
    {
        let sorted = sort_ids_exec(parts);
        self.intern(PredicateNode::Or { parts: sorted })
    }

    /// The negation of the given predicate handle.
    pub fn not(&mut self, part: usize) -> (id: usize)
        ensures
            ({
                let (s2, i) = intern_spec(old(self)@, PredicateKey::Not(part));
                final(self)@ == s2 && id == i
            }),
            id < final(self)@.len(),
    {
        self.intern(PredicateNode::Not { part })
    }
}

/// Insert `x` into the ascending vector `out`, keeping the order.
fn insert_sorted_exec(out: &mut Vec<usize>, x: usize)
    requires
        ids_sorted(old(out)@),
    ensures
        final(out)@ == insert_sorted(old(out)@, x),
        ids_sorted(final(out)@),
{
    let n = out.len();
    let mut p: usize = 0;
    while p < n && out[p] < x
        invariant
            p <= n,
            n == out@.len(),
            *out == *old(out),
            forall|m: int| 0 <= m < p ==> out@[m] < x,
        decreases n - p,
    {
        p += 1;
    }
    proof {
        lemma_insert_sorted_is_insert(out@, x, p as int);
        lemma_insert_sorted_keeps_order(out@, x, p as int);
    }
    out.insert(p, x);
}

/// `insert_sorted` is insertion at the first position whose element is not
/// below `x`.
proof fn lemma_insert_sorted_is_insert(s: Seq<usize>, x: usize, p: int)
    requires
        0 <= p <= s.len(),
        forall|m: int| 0 <= m < p ==> s[m] < x,
        p < s.len() ==> x <= s[p],
    ensures
        insert_sorted(s, x) == s.insert(p, x),
    decreases s.len(),
{
    if s.len() == 0 {
        assert(insert_sorted(s, x) =~= s.insert(0, x));
    } else if x <= s[0] {
        assert(p == 0);
        assert(seq![x] + s =~= s.insert(0, x));
    } else {
        assert(p >= 1);
        let d = s.drop_first();
        assert(forall|m: int| 0 <= m < p - 1 ==> d[m] == s[m + 1] && d[m] < x);
        lemma_insert_sorted_is_insert(d, x, p - 1);
        assert(seq![s[0]] + d.insert(p - 1, x) =~= s.insert(p, x));
    }
}

/// Inserting at that position keeps the sequence ascending.
proof fn lemma_insert_sorted_keeps_order(s: Seq<usize>, x: usize, p: int)
    requires
        ids_sorted(s),
        0 <= p <= s.len(),
        forall|m: int| 0 <= m < p ==> s[m] < x,
        p < s.len() ==> x <= s[p],
    ensures
        ids_sorted(s.insert(p, x)),
{
    let t = s.insert(p, x);
    assert forall|i: int, j: int| 0 <= i < j < t.len() implies t[i] <= t[j] by {
        if i < p && j > p {
            assert(t[i] == s[i]);
            assert(t[j] == s[j - 1]);
        }
    }
}

/// Sort a handle vector into canonical ascending order.
fn sort_ids_exec(v: Vec<usize>) -> (r: Vec<usize>)
    ensures
        r@ == sort_ids(v@),
        ids_sorted(r@),
{
    let n = v.len();
    let mut out: Vec<usize> = Vec::new();
    let mut i: usize = 0;
    while i < n
        invariant
            i <= n,
            n == v@.len(),
            out@ == sort_ids(v@.take(i as int)),
            ids_sorted(out@),
        decreases n - i,
    {
        insert_sorted_exec(&mut out, v[i]);
        proof {
            assert(v@.take(i + 1 as int).drop_last() =~= v@.take(i as int));
            assert(v@.take(i + 1 as int).last() == v@[i as int]);
        }
        i += 1;
    }
    proof {
        assert(v@.take(n as int) =~= v@);
    }
    out
}

} // verus!
