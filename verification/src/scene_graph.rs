use vstd::prelude::*;

verus! {

/// The scene graph: a forest of nodes, each with an optional object (by
/// handle), a visibility flag, its children in order and its parent. A node
/// without a parent is a root.
pub struct SceneGraph {
    parents: Vec<Option<usize>>,
    children: Vec<Vec<usize>>,
    visible: Vec<bool>,
    objects: Vec<Option<u32>>,
    /// The ancestors of each node, nearest first.
    anc: Ghost<Seq<Seq<usize>>>,
}

/// Every ancestor of a node is a node, and the ancestors of an ancestor are
/// ancestors too, fewer of them.
proof fn lemma_ancestors(g: &SceneGraph, x: int)
    requires
        g.wf(),
        0 <= x < g.len(),
    ensures
        forall|k: int| 0 <= k < g.ancestors(x).len() ==> (#[trigger] g.ancestors(x)[k]) < g.len(),
        forall|y: usize, z: usize|
            g.ancestors(x).contains(y) && #[trigger] g.ancestors(y as int).contains(z) ==> #[trigger] g.ancestors(
                x,
            ).contains(z),
        forall|y: usize| #[trigger] g.ancestors(x).contains(y) ==> g.ancestors(y as int).len() < g.ancestors(x).len(),
    decreases g.ancestors(x).len(),
{
    let n = g.parents@.len();
    assert(g.parents@[x] == g.parents@[x]);
    match g.parents@[x] {
        None => {},
        Some(p) => {
            lemma_ancestors(g, p as int);
            let a = g.anc@[x];
            let ap = g.anc@[p as int];
            assert(a == seq![p].add(ap));
            assert forall|k: int| 0 <= k < a.len() implies (#[trigger] a[k]) < n by {
                if k > 0 {
                    assert(a[k] == ap[k - 1]);
                }
            }
            assert forall|y: usize| #[trigger] a.contains(y) implies y == p || ap.contains(y) by {
                let k = choose|k: int| 0 <= k < a.len() && a[k] == y;
                if k > 0 {
                    assert(ap[k - 1] == y);
                }
            }
            assert forall|z: usize| #[trigger] ap.contains(z) implies a.contains(z) by {
                let k = choose|k: int| 0 <= k < ap.len() && ap[k] == z;
                assert(a[k + 1] == z);
            }
            assert(a[0] == p);
            assert forall|y: usize, z: usize|
                a.contains(y) && #[trigger] g.ancestors(y as int).contains(z) implies #[trigger] a.contains(z) by {
                if y == p {
                } else {
                    assert(ap.contains(y));
                    assert(g.ancestors(p as int).contains(y));
                    assert(ap.contains(z));
                }
            }
        },
    }
}

/// The ancestors of a node end with an ancestor `x` of it and then the
/// ancestors of `x`.
proof fn lemma_ancestor_suffix(g: &SceneGraph, y: int, x: usize)
    requires
        g.wf(),
        0 <= y < g.len(),
        g.ancestors(y).contains(x),
    ensures
        g.ancestors(y).len() > g.ancestors(x as int).len(),
        g.ancestors(y).subrange(g.ancestors(y).len() - g.ancestors(x as int).len() - 1, g.ancestors(y).len() as int)
            == seq![x] + g.ancestors(x as int),
    decreases g.ancestors(y).len(),
{
    assert(g.parents@[y] == g.parents@[y]);
    match g.parents@[y] {
        None => {},
        Some(p) => {
            let a = g.anc@[y];
            let ap = g.anc@[p as int];
            assert(a == seq![p].add(ap));
            if p == x {
                assert(a.subrange(0, a.len() as int) =~= a);
            } else {
                let k = choose|k: int| 0 <= k < a.len() && a[k] == x;
                assert(k > 0);
                assert(ap[k - 1] == x);
                assert(ap.contains(x));
                lemma_ancestor_suffix(g, p as int, x);
                let lx = g.anc@[x as int].len() as int;
                assert(a.subrange(a.len() - lx - 1, a.len() as int) =~= ap.subrange(ap.len() - lx - 1, ap.len() as int));
            }
        },
    }
}

/// The last position of `x` in `v`, if it holds `x`.
fn rposition(v: &Vec<usize>, x: usize) -> (r: Option<usize>)
    ensures
        match r {
            Some(k) => k < v@.len() && v@[k as int] == x && forall|j: int| k < j < v@.len() ==> v@[j] != x,
            None => !v@.contains(x),
        },
{
    let mut k = v.len();
    while k > 0
        invariant
            k <= v@.len(),
            forall|j: int| k <= j < v@.len() ==> v@[j] != x,
        decreases k,
    {
        if v[k - 1] == x {
            return Some(k - 1);
        }
        k = k - 1;
    }
    None
}

/// The ancestors of a node are distinct.
proof fn lemma_ancestors_distinct(g: &SceneGraph, x: int)
    requires
        g.wf(),
        0 <= x < g.len(),
    ensures
        g.ancestors(x).no_duplicates(),
    decreases g.ancestors(x).len(),
{
    assert(g.parents@[x] == g.parents@[x]);
    match g.parents@[x] {
        None => {},
        Some(p) => {
            lemma_ancestors(g, x);
            lemma_ancestors_distinct(g, p as int);
            let a = g.anc@[x];
            let ap = g.anc@[p as int];
            assert(a == seq![p].add(ap));
            assert(!ap.contains(p));
            assert forall|i: int, j: int| 0 <= i < a.len() && 0 <= j < a.len() && i != j implies a[i] != a[j] by {
                if i == 0 && j > 0 {
                    assert(a[j] == ap[j - 1]);
                } else if j == 0 && i > 0 {
                    assert(a[i] == ap[i - 1]);
                } else if i > 0 && j > 0 {
                    assert(a[i] == ap[i - 1]);
                    assert(a[j] == ap[j - 1]);
                }
            }
        },
    }
}

/// A sequence of distinct numbers below `n` has at most `n` elements.
proof fn lemma_distinct_bounded(s: Seq<usize>, n: nat)
    requires
        s.no_duplicates(),
        forall|k: int| 0 <= k < s.len() ==> #[trigger] s[k] < n,
    ensures
        s.len() <= n,
    decreases n,
{
    if n == 0 {
        if s.len() > 0 {
            assert(s[0] < 0);
        }
    } else {
        let m = (n - 1) as usize;
        if s.contains(m) {
            let j = choose|j: int| 0 <= j < s.len() && s[j] == m;
            let t = s.subrange(0, j) + s.subrange(j + 1, s.len() as int);
            assert forall|k: int| 0 <= k < t.len() implies #[trigger] t[k] < (n - 1) as nat by {
                if k < j {
                    assert(t[k] == s[k]);
                } else {
                    assert(t[k] == s[k + 1]);
                }
            }
            assert(t.no_duplicates()) by {
                assert forall|a: int, b: int| 0 <= a < t.len() && 0 <= b < t.len() && a != b implies t[a] != t[b] by {
                    let sa = if a < j { a } else { a + 1 };
                    let sb = if b < j { b } else { b + 1 };
                    assert(t[a] == s[sa]);
                    assert(t[b] == s[sb]);
                }
            }
            lemma_distinct_bounded(t, (n - 1) as nat);
        } else {
            assert forall|k: int| 0 <= k < s.len() implies #[trigger] s[k] < (n - 1) as nat by {
                assert(s[k] != m);
            }
            lemma_distinct_bounded(s, (n - 1) as nat);
        }
    }
}

/// A node has fewer ancestors than there are nodes.
proof fn lemma_depth_bound(g: &SceneGraph, x: int)
    requires
        g.wf(),
        0 <= x < g.len(),
    ensures
        g.ancestors(x).len() < g.len(),
{
    lemma_ancestors(g, x);
    lemma_ancestors_distinct(g, x);
    let a = g.ancestors(x);
    let s = a.push(x as usize);
    assert(!a.contains(x as usize));
    assert(s.no_duplicates()) by {
        assert forall|i: int, j: int| 0 <= i < s.len() && 0 <= j < s.len() && i != j implies s[i] != s[j] by {
            if i == a.len() {
                assert(s[j] == a[j]);
            } else if j == a.len() {
                assert(s[i] == a[i]);
            } else {
                assert(s[i] == a[i]);
                assert(s[j] == a[j]);
            }
        }
    }
    assert forall|k: int| 0 <= k < s.len() implies #[trigger] s[k] < g.len() by {
        if k < a.len() {
            assert(s[k] == a[k]);
        }
    }
    lemma_distinct_bounded(s, g.len());
}

/// Whether the `k`-th ancestor of `y` is `x`, reading the ancestors of `y`
/// through those of its ancestor `x`.
proof fn lemma_ancestor_position(g: &SceneGraph, y: int, x: usize)
    requires
        g.wf(),
        0 <= y < g.len(),
        g.ancestors(y).contains(x),
    ensures
        g.ancestors(y)[g.ancestors(y).len() - g.ancestors(x as int).len() - 1] == x,
        forall|k: int|
            0 <= k < g.ancestors(x as int).len() ==> g.ancestors(y)[g.ancestors(y).len() - g.ancestors(
                x as int,
            ).len() + k] == #[trigger] g.ancestors(x as int)[k],
{
    lemma_ancestor_suffix(g, y, x);
    let a = g.ancestors(y);
    let lx = g.ancestors(x as int).len() as int;
    let sub = a.subrange(a.len() - lx - 1, a.len() as int);
    assert(sub == seq![x] + g.ancestors(x as int));
    assert(sub[0] == x);
    assert forall|k: int| 0 <= k < lx implies a[a.len() - lx + k] == #[trigger] g.ancestors(x as int)[k] by {
        assert(sub[k + 1] == g.ancestors(x as int)[k]);
    }
}

/// The child of `x` on the path from `y` up to `x`.
spec fn path_child(g: &SceneGraph, x: int, y: int) -> usize {
    let l = g.ancestors(y).len() - g.ancestors(x).len();
    if l == 1 {
        y as usize
    } else {
        g.ancestors(y)[l - 2]
    }
}

/// A node of the subtree of `x` other than `x` lies in the subtree of the
/// child of `x` on its path.
proof fn lemma_path_child(g: &SceneGraph, x: int, y: int)
    requires
        g.wf(),
        0 <= x < g.len(),
        0 <= y < g.len(),
        y != x,
        g.in_subtree(y, x),
    ensures
        ({
            let c = path_child(g, x, y);
            &&& c < g.len()
            &&& g.children_of(x).contains(c)
            &&& g.parent(c as int) == Some(x as usize)
            &&& g.ancestors(c as int) == seq![x as usize] + g.ancestors(x)
            &&& g.in_subtree(y, c as int)
        }),
{
    lemma_ancestors(g, y);
    let xu = x as usize;
    lemma_ancestor_position(g, y, xu);
    let a = g.ancestors(y);
    let lx = g.ancestors(x).len() as int;
    let pos = a.len() - lx - 1;
    if pos == 0 {
        assert(g.parents@[y] == g.parents@[y]);
        assert(a[0] == x);
        match g.parents@[y] {
            Some(p) => {
                assert(g.anc@[y] == seq![p].add(g.anc@[p as int]));
                assert(p == xu);
                assert(g.anc@[y] =~= seq![xu] + g.ancestors(x));
                assert(g.children@[p as int]@.contains(y as usize));
            },
            None => {},
        }
    } else {
        let c = a[pos - 1];
        assert(a.contains(c));
        lemma_ancestor_position(g, y, c);
        lemma_ancestors(g, c as int);
        let lc = g.ancestors(c as int).len() as int;
        lemma_ancestors_distinct(g, y);
        assert(a[a.len() - lc - 1] == c);
        assert(a.len() - lc - 1 == pos - 1);
        assert(g.ancestors(c as int) =~= seq![xu] + g.ancestors(x)) by {
            assert forall|k: int| 0 <= k < lc implies g.ancestors(c as int)[k] == (seq![xu] + g.ancestors(x))[k] by {
                assert(a[a.len() - lc + k] == g.ancestors(c as int)[k]);
                if k == 0 {
                } else {
                    assert(a[a.len() - lx + (k - 1)] == g.ancestors(x)[k - 1]);
                }
            }
        }
        assert(g.parents@[c as int] == g.parents@[c as int]);
        match g.parents@[c as int] {
            Some(p) => {
                assert(g.anc@[c as int] == seq![p].add(g.anc@[p as int]));
                assert(g.anc@[c as int][0] == p);
                assert(g.children@[p as int]@.contains(c));
            },
            None => {},
        }
    }
}

/// The subtrees of two children of a node are disjoint, and the node lies in
/// neither.
proof fn lemma_children_disjoint(g: &SceneGraph, x: int, c1: int, c2: int, y: int)
    requires
        g.wf(),
        0 <= x < g.len(),
        0 <= c1 < g.len(),
        0 <= c2 < g.len(),
        0 <= y < g.len(),
        g.parent(c1) == Some(x as usize),
        g.parent(c2) == Some(x as usize),
    ensures
        g.in_subtree(y, c1) && g.in_subtree(y, c2) ==> c1 == c2,
        !g.in_subtree(x, c1),
{
    assert(g.parents@[c1] == g.parents@[c1]);
    assert(g.parents@[c2] == g.parents@[c2]);
    let lx = g.ancestors(x).len() as int;
    assert(g.ancestors(c1).len() == lx + 1);
    assert(g.ancestors(c2).len() == lx + 1);
    assert(g.ancestors(c1)[0] == x);
    lemma_ancestors(g, x);
    lemma_ancestors(g, y);
    lemma_ancestors(g, c1);
    if g.in_subtree(x, c1) {
        if x == c1 {
            assert(g.ancestors(c1).contains(c1 as usize));
        } else {
            assert(g.ancestors(x).contains(c1 as usize));
            let c1u = c1 as usize;
            assert(g.ancestors(c1u as int).len() < g.ancestors(x).len());
        }
    }
    if g.in_subtree(y, c1) && g.in_subtree(y, c2) {
        let c1u = c1 as usize;
        let c2u = c2 as usize;
        if y == c1 {
            if y != c2 {
                assert(g.ancestors(y).contains(c2u));
                assert(g.ancestors(c2u as int).len() < g.ancestors(y).len());
            }
        } else if y == c2 {
            assert(g.ancestors(y).contains(c1u));
            assert(g.ancestors(c1u as int).len() < g.ancestors(y).len());
        } else {
            lemma_ancestor_position(g, y, c1u);
            lemma_ancestor_position(g, y, c2u);
        }
    }
}

/// Ancestry is transitive over subtrees.
proof fn lemma_subtree_trans(g: &SceneGraph, y: int, z: int, w: int)
    requires
        g.wf(),
        0 <= y < g.len(),
        0 <= z < g.len(),
        0 <= w < g.len(),
        g.in_subtree(y, z),
        g.in_subtree(z, w),
    ensures
        g.in_subtree(y, w),
{
    lemma_ancestors(g, y);
    if y != z && z != w {
        let zu = z as usize;
        assert(g.ancestors(y).contains(zu));
        assert(g.ancestors(zu as int).contains(w as usize));
    }
}

/// Through a child `c` of `x`: a node of the subtree of `c` is shown from `x`
/// exactly when `x` is visible and it is shown from `c`.
proof fn lemma_shown_via_child(g: &SceneGraph, x: int, c: int, y: int)
    requires
        g.wf(),
        0 <= x < g.len(),
        0 <= c < g.len(),
        0 <= y < g.len(),
        g.parent(c) == Some(x as usize),
        g.in_subtree(y, c),
    ensures
        g.in_subtree(y, x),
        y != x,
        g.shown(x, y) == (g.visible(x) && g.shown(c, y)),
{
    assert(g.parents@[c] == g.parents@[c]);
    assert(g.ancestors(c) == seq![x as usize].add(g.ancestors(x)));
    assert(g.ancestors(c)[0] == x);
    lemma_children_disjoint(g, x, c, c, y);
    lemma_subtree_trans(g, y, c, x);
    let a = g.ancestors(y);
    let lx = g.ancestors(x).len() as int;
    let lc = lx + 1;
    assert(a.len() >= lc) by {
        if y != c {
            let cu = c as usize;
            lemma_ancestors(g, y);
            assert(g.ancestors(cu as int).len() < a.len());
        }
    }
    // the node just above the path to `c` is `x`
    assert(a[a.len() - lx - 1] == x) by {
        if y == c {
        } else {
            lemma_ancestor_position(g, y, c as usize);
            assert(a[a.len() - lc - 1] == c);
            assert(a[a.len() - lc + 0] == g.ancestors(c)[0]);
        }
    }
    if g.shown(x, y) {
        assert forall|k: int| 0 <= k < a.len() - lc implies g.visible(#[trigger] a[k] as int) by {
            assert(0 <= k < a.len() - lx);
        }
        assert(g.visible(a[a.len() - lx - 1] as int));
    }
    if g.visible(x) && g.shown(c, y) {
        assert forall|k: int| 0 <= k < a.len() - lx implies g.visible(#[trigger] a[k] as int) by {
            if k == a.len() - lx - 1 {
            } else {
                assert(0 <= k < a.len() - lc);
            }
        }
    }
}

/// Through a child `c` of `x`: a node of the subtree of `c` is listed from `x`
/// exactly when it is listed from `c` and, when visibility counts, `x` is
/// visible.
proof fn lemma_listed_via_child(g: &SceneGraph, x: int, c: int, y: int, respect: bool)
    requires
        g.wf(),
        0 <= x < g.len(),
        0 <= c < g.len(),
        0 <= y < g.len(),
        g.parent(c) == Some(x as usize),
        g.in_subtree(y, c),
    ensures
        g.in_subtree(y, x),
        y != x,
        g.listed(x, y, respect) == ((respect ==> g.visible(x)) && g.listed(c, y, respect)),
{
    lemma_shown_via_child(g, x, c, y);
}

/// The nodes shown from an invisible node: none.
proof fn lemma_hidden_shows_nothing(g: &SceneGraph, x: int, y: int)
    requires
        g.wf(),
        0 <= x < g.len(),
        0 <= y < g.len(),
        !g.visible(x),
    ensures
        !g.shown(x, y),
{
    if g.shown(x, y) && y != x {
        lemma_ancestor_suffix(g, y, x as usize);
        lemma_ancestor_position(g, y, x as usize);
        let a = g.ancestors(y);
        let k = a.len() - g.ancestors(x).len() - 1;
        assert(g.visible(a[k] as int));
    }
}

/// What the list `seg` of the nodes drawn from `x` holds once the subtrees of
/// the first `j` children of `x` are done.
spec fn render_prefix(g: &SceneGraph, x: int, seg: Seq<usize>, j: int, respect: bool) -> bool {
    &&& forall|k: int|
        0 <= k < seg.len() ==> {
            &&& #[trigger] seg[k] < g.len()
            &&& g.listed(x, seg[k] as int, respect)
            &&& g.object(seg[k] as int) is Some
            &&& (seg[k] == x || (g.in_subtree(seg[k] as int, x) && g.children_of(x).take(j).contains(
                path_child(g, x, seg[k] as int),
            )))
        }
    &&& forall|y: int|
        0 <= y < g.len() && #[trigger] g.listed(x, y, respect) && g.object(y) is Some && (y == x || (y != x
            && g.children_of(x).take(j).contains(path_child(g, x, y)))) ==> seg.contains(y as usize)
    &&& seg.no_duplicates()
    &&& forall|a: int, b: int|
        0 <= a < b < seg.len() ==> !#[trigger] g.ancestors(seg[a] as int).contains(#[trigger] seg[b])
    &&& forall|k: int| 0 < k < seg.len() ==> #[trigger] seg[k] != x
}

/// A node of the subtree of a child `c` of `x` reaches `x` through `c`.
proof fn lemma_path_child_of_child(g: &SceneGraph, x: int, c: int, y: int)
    requires
        g.wf(),
        0 <= x < g.len(),
        0 <= c < g.len(),
        0 <= y < g.len(),
        g.parent(c) == Some(x as usize),
        g.in_subtree(y, c),
    ensures
        y != x,
        g.in_subtree(y, x),
        path_child(g, x, y) == c,
{
    lemma_shown_via_child(g, x, c, y);
    lemma_path_child(g, x, y);
    let pc = path_child(g, x, y);
    lemma_children_disjoint(g, x, c, pc as int, y);
}


/// Whether `g1` is `g0` with the root `node` added as the last child of
/// `parent`: only that link changes, and the nodes of the subtree of `node`
/// gain `parent` and its ancestors as ancestors.
pub open spec fn child_added(g0: SceneGraph, g1: SceneGraph, parent: usize, node: usize) -> bool {
    &&& g1.len() == g0.len()
    &&& g1.parent(node as int) == Some(parent)
    &&& g1.children_of(parent as int) == g0.children_of(parent as int).push(node)
    &&& forall|i: int|
        0 <= i < g0.len() ==> {
            &&& (i != node ==> #[trigger] g1.parent(i) == g0.parent(i))
            &&& (i != parent ==> g1.children_of(i) == g0.children_of(i))
            &&& g1.visible(i) == g0.visible(i)
            &&& g1.object(i) == g0.object(i)
            &&& g1.ancestors(i) == if g0.in_subtree(i, node as int) {
                g0.ancestors(i) + seq![parent] + g0.ancestors(parent as int)
            } else {
                g0.ancestors(i)
            }
        }
}

/// Whether `g1` is `g0` with `node` cut from its parent (if any): the last
/// child of the parent takes its place, and the nodes of its subtree keep
/// only the ancestors up to `node`.
pub open spec fn node_unlinked(g0: SceneGraph, g1: SceneGraph, node: usize) -> bool {
    &&& g1.len() == g0.len()
    &&& g1.parent(node as int) is None
    &&& match g0.parent(node as int) {
        Some(q) => exists|k: int|
            0 <= k < g0.children_of(q as int).len() && #[trigger] g0.children_of(q as int)[k] == node
                && g1.children_of(q as int) == g0.children_of(q as int).update(
                k,
                g0.children_of(q as int).last(),
            ).drop_last(),
        None => true,
    }
    &&& forall|i: int|
        0 <= i < g0.len() ==> {
            &&& (i != node ==> #[trigger] g1.parent(i) == g0.parent(i))
            &&& (Some(i as usize) != g0.parent(node as int) ==> g1.children_of(i) == g0.children_of(i))
            &&& g1.visible(i) == g0.visible(i)
            &&& g1.object(i) == g0.object(i)
            &&& g1.ancestors(i) == if i == node {
                Seq::<usize>::empty()
            } else if g0.in_subtree(i, node as int) {
                g0.ancestors(i).take(g0.ancestors(i).len() - g0.ancestors(node as int).len())
            } else {
                g0.ancestors(i)
            }
        }
}


impl SceneGraph {
    /// The number of nodes.
    pub closed spec fn len(&self) -> nat {
        self.parents@.len()
    }

    /// The parent of node `i`, if any.
    pub closed spec fn parent(&self, i: int) -> Option<usize> {
        self.parents@[i]
    }

    /// The children of node `i`, in order.
    pub closed spec fn children_of(&self, i: int) -> Seq<usize> {
        self.children@[i]@
    }

    /// Whether node `i` is visible.
    pub closed spec fn visible(&self, i: int) -> bool {
        self.visible@[i]
    }

    /// The object of node `i`, if any.
    pub closed spec fn object(&self, i: int) -> Option<u32> {
        self.objects@[i]
    }

    /// The ancestors of node `i`: its parent, its parent's parent, and so on.
    pub closed spec fn ancestors(&self, i: int) -> Seq<usize> {
        self.anc@[i]
    }

    /// Whether node `y` lies in the subtree of node `x` (itself included).
    pub open spec fn in_subtree(&self, y: int, x: int) -> bool {
        y == x || self.ancestors(y).contains(x as usize)
    }

    /// Whether node `y` is drawn when the subtree of `root` is rendered: it
    /// lies in that subtree, and it and every node on its path up to `root`
    /// (included) are visible.
    pub open spec fn shown(&self, root: int, y: int) -> bool {
        &&& self.in_subtree(y, root)
        &&& self.visible(y)
        &&& forall|k: int|
            0 <= k < self.ancestors(y).len() - self.ancestors(root).len() ==> self.visible(
                #[trigger] self.ancestors(y)[k] as int,
            )
    }

    /// Whether node `y` is listed from `root`: shown, when visibility counts
    /// (`respect`), or else merely in the subtree of `root`.
    pub open spec fn listed(&self, root: int, y: int, respect: bool) -> bool {
        if respect {
            self.shown(root, y)
        } else {
            self.in_subtree(y, root)
        }
    }

    /// Whether `seg` lists the nodes with an object drawn when the subtree of
    /// `root` is rendered, each once, every node after its ancestors.
    pub open spec fn is_render_list(&self, root: int, seg: Seq<usize>) -> bool {
        self.is_listing(root, seg, true)
    }

    /// How deep the subtree of `x` can go: the number of nodes less the
    /// number of ancestors of `x`.
    pub open spec fn depth_fuel(&self, x: int) -> nat {
        (self.len() - self.ancestors(x).len()) as nat
    }

    /// The nodes with an object listed from `x` in the order a depth-first
    /// walk meets them: `x` (when it has an object) then the subtree of each
    /// child in order; nothing below a hidden node when visibility counts
    /// (`respect`). `fuel` bounds the depth of the walk.
    pub open spec fn listing(&self, x: int, respect: bool, fuel: nat) -> Seq<usize>
        decreases fuel, 0nat,
    {
        if fuel == 0 {
            Seq::empty()
        } else if respect && !self.visible(x) {
            Seq::empty()
        } else {
            (if self.object(x) is Some {
                seq![x as usize]
            } else {
                Seq::empty()
            }) + self.listing_children(self.children_of(x), respect, (fuel - 1) as nat)
        }
    }

    /// The listings of the nodes `cs`, one after the other.
    pub open spec fn listing_children(&self, cs: Seq<usize>, respect: bool, fuel: nat) -> Seq<usize>
        decreases fuel, cs.len() + 1,
    {
        if cs.len() == 0 {
            Seq::empty()
        } else {
            self.listing_children(cs.drop_last(), respect, fuel) + self.listing(cs.last() as int, respect, fuel)
        }
    }

    /// Whether `seg` lists the nodes with an object listed from `root` (see
    /// [`Self::listed`]), each once, every node after its ancestors.
    pub open spec fn is_listing(&self, root: int, seg: Seq<usize>, respect: bool) -> bool {
        &&& forall|k: int|
            0 <= k < seg.len() ==> #[trigger] seg[k] < self.len() && self.listed(root, seg[k] as int, respect)
                && self.object(seg[k] as int) is Some
        &&& forall|y: int|
            0 <= y < self.len() && #[trigger] self.listed(root, y, respect) && self.object(y) is Some ==> seg.contains(
                y as usize,
            )
        &&& seg.no_duplicates()
        &&& forall|a: int, b: int|
            0 <= a < b < seg.len() ==> !#[trigger] self.ancestors(seg[a] as int).contains(#[trigger] seg[b])
    }

    /// The graph's links are consistent: each parent lists its child once, each
    /// listed child names its parent, and following parents never comes back
    /// to where it started.
    pub closed spec fn wf(&self) -> bool {
        let n = self.parents@.len();
        &&& n <= usize::MAX
        &&& self.children@.len() == n
        &&& self.visible@.len() == n
        &&& self.objects@.len() == n
        &&& self.anc@.len() == n
        &&& forall|i: int|
            0 <= i < n ==> match #[trigger] self.parents@[i] {
                Some(p) => p < n && self.children@[p as int]@.contains(i as usize) && self.anc@[i]
                    == seq![p].add(self.anc@[p as int]),
                None => self.anc@[i] == Seq::<usize>::empty(),
            }
        &&& forall|p: int, k: int|
            0 <= p < n && 0 <= k < self.children@[p]@.len() ==> {
                let c = #[trigger] self.children@[p]@[k];
                c < n && self.parents@[c as int] == Some(p as usize)
            }
        &&& forall|p: int| 0 <= p < n ==> (#[trigger] self.children@[p]@).no_duplicates()
        &&& forall|i: int| 0 <= i < n ==> !(#[trigger] self.anc@[i]).contains(i as usize)
    }

    /// An empty graph.
    pub fn new() -> (r: SceneGraph)
        ensures
            r.wf(),
            r.len() == 0,
    {
        SceneGraph {
            parents: Vec::new(),
            children: Vec::new(),
            visible: Vec::new(),
            objects: Vec::new(),
            anc: Ghost(Seq::empty()),
        }
    }

    /// Creates a new node that is not rooted: visible, without children, with
    /// the given object. Returns its index.
    pub fn new_node(&mut self, object: Option<u32>) -> (r: usize)
        requires
            old(self).wf(),
            old(self).len() < usize::MAX,
        ensures
            final(self).wf(),
            r == old(self).len(),
            final(self).len() == old(self).len() + 1,
            final(self).parent(r as int) is None,
            final(self).children_of(r as int).len() == 0,
            final(self).visible(r as int),
            final(self).object(r as int) == object,
            final(self).ancestors(r as int).len() == 0,
            forall|i: int|
                0 <= i < old(self).len() ==> {
                    &&& #[trigger] final(self).parent(i) == old(self).parent(i)
                    &&& final(self).children_of(i) == old(self).children_of(i)
                    &&& final(self).visible(i) == old(self).visible(i)
                    &&& final(self).object(i) == old(self).object(i)
                    &&& final(self).ancestors(i) == old(self).ancestors(i)
                },
    {
        let r = self.parents.len();
        self.parents.push(None);
        self.children.push(Vec::new());
        self.visible.push(true);
        self.objects.push(object);
        self.anc = Ghost(self.anc@.push(Seq::empty()));
        proof {
            let n = self.parents@.len();
            assert forall|p: int, k: int|
                0 <= p < n && 0 <= k < self.children@[p]@.len() implies {
                    let c = #[trigger] self.children@[p]@[k];
                    c < n && self.parents@[c as int] == Some(p as usize)
                } by {
                if p < r {
                    assert(self.children@[p] == old(self).children@[p]);
                }
            }
            assert forall|p: int| 0 <= p < n implies (#[trigger] self.children@[p]@).no_duplicates() by {
                if p < r {
                    assert(self.children@[p] == old(self).children@[p]);
                }
            }
            assert forall|i: int| 0 <= i < n implies match #[trigger] self.parents@[i] {
                Some(p) => p < n && self.children@[p as int]@.contains(i as usize) && self.anc@[i]
                    == seq![p].add(self.anc@[p as int]),
                None => self.anc@[i] == Seq::<usize>::empty(),
            } by {
                if i < r {
                    match self.parents@[i] {
                        Some(p) => {
                            assert(self.children@[p as int] == old(self).children@[p as int]);
                        },
                        None => {},
                    }
                }
            }
        }
        r
    }

    /// Adds the root node `node` (with its subtree) as the last child of
    /// `parent`. `parent` must not lie in the subtree of `node`, which would
    /// close a cycle.
    pub fn add_child(&mut self, parent: usize, node: usize)
        requires
            old(self).wf(),
            parent < old(self).len(),
            node < old(self).len(),
            old(self).parent(node as int) is None,
            !old(self).in_subtree(parent as int, node as int),
        ensures
            final(self).wf(),
            child_added(*old(self), *final(self), parent, node),
    {
        let ghost g0 = *old(self);
        let n_nodes = self.parents.len();
        let ghost n = g0.parents@.len();
        proof {
            lemma_ancestors(&g0, parent as int);
        }
        self.parents.set(node, Some(parent));
        self.children[parent].push(node);
        let ghost new_anc = Seq::new(
            n,
            |y: int|
                if g0.in_subtree(y, node as int) {
                    g0.anc@[y] + seq![parent] + g0.anc@[parent as int]
                } else {
                    g0.anc@[y]
                },
        );
        self.anc = Ghost(new_anc);
        proof {
            // `node` is no child of anyone, being a root.
            assert(!g0.children@[parent as int]@.contains(node)) by {
                if g0.children@[parent as int]@.contains(node) {
                    let k = choose|k: int| 0 <= k < g0.children@[parent as int]@.len() && g0.children@[parent as int]@[k] == node;
                    assert(g0.parents@[node as int] == Some(parent));
                }
            }
            assert forall|i: int| 0 <= i < n implies match #[trigger] self.parents@[i] {
                Some(p) => p < n && self.children@[p as int]@.contains(i as usize) && self.anc@[i]
                    == seq![p].add(self.anc@[p as int]),
                None => self.anc@[i] == Seq::<usize>::empty(),
            } by {
                assert(g0.parents@[i] == g0.parents@[i]);
                if i == node {
                    assert(self.children@[parent as int]@ == g0.children@[parent as int]@.push(node));
                    assert(self.children@[parent as int]@.last() == node);
                    assert(!g0.in_subtree(parent as int, node as int));
                    assert(g0.anc@[i] == Seq::<usize>::empty());
                    assert(self.anc@[i] =~= seq![parent].add(self.anc@[parent as int]));
                } else {
                    match g0.parents@[i] {
                        Some(q) => {
                            if q == parent {
                                assert(self.children@[q as int]@ == g0.children@[q as int]@.push(node));
                                let k = choose|k: int| 0 <= k < g0.children@[q as int]@.len() && g0.children@[q as int]@[k] == i as usize;
                                assert(self.children@[q as int]@[k] == i as usize);
                            } else {
                                assert(self.children@[q as int] == g0.children@[q as int]);
                            }
                            assert(g0.anc@[i] == seq![q].add(g0.anc@[q as int]));
                            assert(g0.anc@[i].contains(node) == (q == node || g0.anc@[q as int].contains(node))) by {
                                if g0.anc@[i].contains(node) {
                                    let k = choose|k: int| 0 <= k < g0.anc@[i].len() && g0.anc@[i][k] == node;
                                    if k > 0 {
                                        assert(g0.anc@[q as int][k - 1] == node);
                                    }
                                }
                                if g0.anc@[q as int].contains(node) {
                                    let k = choose|k: int| 0 <= k < g0.anc@[q as int].len() && g0.anc@[q as int][k] == node;
                                    assert(g0.anc@[i][k + 1] == node);
                                }
                                assert(g0.anc@[i][0] == q);
                            }
                            if g0.in_subtree(i, node as int) {
                                assert(self.anc@[i] =~= seq![q].add(self.anc@[q as int]));
                            }
                        },
                        None => {},
                    }
                }
            }
            assert forall|p: int, k: int|
                0 <= p < n && 0 <= k < self.children@[p]@.len() implies {
                    let c = #[trigger] self.children@[p]@[k];
                    c < n && self.parents@[c as int] == Some(p as usize)
                } by {
                if p == parent {
                    assert(self.children@[p]@ == g0.children@[p]@.push(node));
                    if k < g0.children@[p]@.len() {
                        let c = g0.children@[p]@[k];
                        assert(g0.parents@[c as int] == Some(p as usize));
                    }
                } else {
                    assert(self.children@[p] == g0.children@[p]);
                    let c = g0.children@[p]@[k];
                    assert(g0.parents@[c as int] == Some(p as usize));
                }
            }
            assert forall|p: int| 0 <= p < n implies (#[trigger] self.children@[p]@).no_duplicates() by {
                if p == parent {
                    assert(self.children@[p]@ == g0.children@[p]@.push(node));
                    assert(g0.children@[p]@.no_duplicates());
                } else {
                    assert(self.children@[p] == g0.children@[p]);
                }
            }
            assert forall|i: int| 0 <= i < n implies !(#[trigger] self.anc@[i]).contains(i as usize) by {
                assert(!g0.anc@[i].contains(i as usize));
                if g0.in_subtree(i, node as int) {
                    let a = self.anc@[i];
                    let l0 = g0.anc@[i].len() as int;
                    assert(a == g0.anc@[i] + seq![parent] + g0.anc@[parent as int]);
                    assert(parent != i);
                    if a.contains(i as usize) {
                        let k = choose|k: int| 0 <= k < a.len() && a[k] == i as usize;
                        if k < l0 {
                            assert(a[k] == g0.anc@[i][k]);
                        } else if k == l0 {
                            assert(a[k] == parent);
                        } else {
                            assert(a[k] == g0.anc@[parent as int][k - l0 - 1]);
                            assert(g0.ancestors(parent as int).contains(i as usize));
                            if i != node {
                                let iu = i as usize;
                                assert(g0.ancestors(iu as int).contains(node));
                                assert(g0.ancestors(parent as int).contains(node));
                            }
                        }
                    }
                }
            }
        }
    }

    #[verifier::rlimit(60)]
    /// Removes `node` (with its subtree) from its parent's children, making it
    /// a root; the last child takes its place. A root is left as it is.
    pub fn unlink(&mut self, node: usize)
        requires
            old(self).wf(),
            node < old(self).len(),
        ensures
            final(self).wf(),
            node_unlinked(*old(self), *final(self), node),
    {
        let ghost g0 = *old(self);
        let n_nodes = self.parents.len();
        let ghost n = g0.parents@.len();
        let q = match self.parents[node] {
            Some(q) => q,
            None => {
                proof {
                    assert(g0.anc@[node as int] == Seq::<usize>::empty());
                    assert forall|i: int| 0 <= i < n implies #[trigger] g0.anc@[i].take(
                        g0.anc@[i].len() - g0.anc@[node as int].len(),
                    ) == g0.anc@[i] by {
                        assert(g0.anc@[i].take(g0.anc@[i].len() as int) =~= g0.anc@[i]);
                    }
                }
                return;
            },
        };
        assert(g0.parents@[node as int] == Some(q));
        let ghost cs = g0.children@[q as int]@;
        let pos = rposition(&self.children[q], node);
        let k = match pos {
            Some(k) => k,
            None => {
                proof {
                    assert(cs.contains(node));
                }
                return;
            },
        };
        let _ = self.children[q].swap_remove(k);
        self.parents.set(node, None);
        let ghost new_anc = Seq::new(
            n,
            |y: int|
                if y == node {
                    Seq::<usize>::empty()
                } else if g0.in_subtree(y, node as int) {
                    g0.anc@[y].take(g0.anc@[y].len() - g0.anc@[node as int].len())
                } else {
                    g0.anc@[y]
                },
        );
        self.anc = Ghost(new_anc);
        proof {
            let cs2 = self.children@[q as int]@;
            assert(cs2 == cs.update(k as int, cs.last()).drop_last());
            // the children of `q` are those it had but `node`
            assert forall|c: usize| #[trigger] cs2.contains(c) <==> (cs.contains(c) && c != node) by {
                if cs2.contains(c) {
                    let j = choose|j: int| 0 <= j < cs2.len() && cs2[j] == c;
                    if j == k {
                        assert(cs[cs.len() - 1] == c);
                        assert(cs.len() - 1 != k);
                    } else {
                        assert(cs[j] == c);
                    }
                }
                if cs.contains(c) && c != node {
                    let j = choose|j: int| 0 <= j < cs.len() && cs[j] == c;
                    assert(j != k);
                    if j == cs.len() - 1 {
                        assert(cs2[k as int] == c);
                    } else {
                        assert(cs2[j] == c);
                    }
                }
            }
            assert(cs2.no_duplicates()) by {
                assert forall|a: int, b: int| 0 <= a < cs2.len() && 0 <= b < cs2.len() && a != b implies cs2[a] != cs2[b] by {
                    if a == k {
                        assert(cs2[a] == cs[cs.len() - 1]);
                        assert(cs2[b] == cs[b]);
                    } else if b == k {
                        assert(cs2[b] == cs[cs.len() - 1]);
                        assert(cs2[a] == cs[a]);
                    } else {
                        assert(cs2[a] == cs[a]);
                        assert(cs2[b] == cs[b]);
                    }
                }
            }
            // membership in the subtree of `node` before the cut
            assert forall|i: int| 0 <= i < n && #[trigger] g0.parents@[i] is Some && i != node implies
                (g0.in_subtree(i, node as int) <==> g0.in_subtree(g0.parents@[i]->0 as int, node as int)) by {
                let pq = g0.parents@[i]->0;
                let ai = g0.anc@[i];
                assert(ai == seq![pq].add(g0.anc@[pq as int]));
                if ai.contains(node) {
                    let j = choose|j: int| 0 <= j < ai.len() && ai[j] == node;
                    if j > 0 {
                        assert(g0.anc@[pq as int][j - 1] == node);
                    }
                }
                if g0.anc@[pq as int].contains(node) {
                    let j = choose|j: int| 0 <= j < g0.anc@[pq as int].len() && g0.anc@[pq as int][j] == node;
                    assert(ai[j + 1] == node);
                }
                assert(ai[0] == pq);
            }
            assert forall|i: int| 0 <= i < n implies match #[trigger] self.parents@[i] {
                Some(p) => p < n && self.children@[p as int]@.contains(i as usize) && self.anc@[i]
                    == seq![p].add(self.anc@[p as int]),
                None => self.anc@[i] == Seq::<usize>::empty(),
            } by {
                assert(g0.parents@[i] == g0.parents@[i]);
                if i != node {
                    match g0.parents@[i] {
                        Some(p) => {
                            if p == q {
                                assert(cs.contains(i as usize));
                                assert(i as usize != node);
                                assert(cs2.contains(i as usize));
                            } else {
                                assert(self.children@[p as int] == g0.children@[p as int]);
                            }
                            assert(g0.anc@[i] == seq![p].add(g0.anc@[p as int]));
                            if g0.in_subtree(i, node as int) {
                                let iu = i as usize;
                                lemma_ancestor_suffix(&g0, iu as int, node);
                                let ln = g0.anc@[node as int].len() as int;
                                if p == node {
                                    assert(g0.anc@[i].len() == ln + 1);
                                    assert(self.anc@[i] =~= seq![p].add(self.anc@[p as int]));
                                } else {
                                    lemma_ancestor_suffix(&g0, p as int, node);
                                    assert(self.anc@[i] =~= seq![p].add(self.anc@[p as int]));
                                }
                            }
                        },
                        None => {
                            assert(g0.anc@[i] == Seq::<usize>::empty());
                        },
                    }
                }
            }
            assert forall|p: int, j: int|
                0 <= p < n && 0 <= j < self.children@[p]@.len() implies {
                    let c = #[trigger] self.children@[p]@[j];
                    c < n && self.parents@[c as int] == Some(p as usize)
                } by {
                let c = self.children@[p]@[j];
                if p == q {
                    assert(cs2.contains(c));
                    assert(cs.contains(c) && c != node);
                    let jj = choose|jj: int| 0 <= jj < cs.len() && cs[jj] == c;
                    assert(g0.parents@[c as int] == Some(p as usize));
                } else {
                    assert(self.children@[p] == g0.children@[p]);
                    assert(g0.parents@[c as int] == Some(p as usize));
                    assert(c != node);
                }
            }
            assert forall|p: int| 0 <= p < n implies (#[trigger] self.children@[p]@).no_duplicates() by {
                if p != q {
                    assert(self.children@[p] == g0.children@[p]);
                }
            }
            assert forall|i: int| 0 <= i < n implies !(#[trigger] self.anc@[i]).contains(i as usize) by {
                assert(!g0.anc@[i].contains(i as usize));
                if i != node && g0.in_subtree(i, node as int) {
                    let a = self.anc@[i];
                    let iu = i as usize;
                    lemma_ancestor_suffix(&g0, iu as int, node);
                    assert(a == g0.anc@[i].take(g0.anc@[i].len() - g0.anc@[node as int].len()));
                    if a.contains(i as usize) {
                        let j = choose|j: int| 0 <= j < a.len() && a[j] == i as usize;
                        assert(g0.anc@[i][j] == i as usize);
                    }
                }
            }
            assert(self.children@[q as int]@ == cs.update(k as int, cs.last()).drop_last());
            assert(g0.children_of(q as int)[k as int] == node);
            assert(self.children_of(q as int) == g0.children_of(q as int).update(k as int, g0.children_of(q as int).last()).drop_last());
        }
    }

    /// The number of nodes.
    pub fn node_count(&self) -> (r: usize)
        ensures
            r == self.len(),
    {
        self.parents.len()
    }

    /// Whether node `i` has no parent.
    pub fn is_root(&self, i: usize) -> (r: bool)
        requires
            self.wf(),
            i < self.len(),
        ensures
            r == self.parent(i as int) is None,
    {
        self.parents[i].is_none()
    }

    /// The parent of node `i`, if any.
    pub fn parent_of(&self, i: usize) -> (r: Option<usize>)
        requires
            self.wf(),
            i < self.len(),
        ensures
            r == self.parent(i as int),
    {
        self.parents[i]
    }

    /// The children of node `i`, in order.
    pub fn children(&self, i: usize) -> (r: &Vec<usize>)
        requires
            self.wf(),
            i < self.len(),
        ensures
            r@ == self.children_of(i as int),
    {
        &self.children[i]
    }

    /// Whether node `i` holds an object.
    pub fn has_object(&self, i: usize) -> (r: bool)
        requires
            self.wf(),
            i < self.len(),
        ensures
            r == self.object(i as int) is Some,
    {
        self.objects[i].is_some()
    }

    /// The object of node `i`, if any.
    pub fn object_of(&self, i: usize) -> (r: Option<u32>)
        requires
            self.wf(),
            i < self.len(),
        ensures
            r == self.object(i as int),
    {
        self.objects[i]
    }

    /// Whether node `i` is visible (an invisible node hides its subtree).
    pub fn is_visible(&self, i: usize) -> (r: bool)
        requires
            self.wf(),
            i < self.len(),
        ensures
            r == self.visible(i as int),
    {
        self.visible[i]
    }

    /// Shows or hides node `i` and, with it, its subtree.
    pub fn set_visible(&mut self, i: usize, visible: bool)
        requires
            old(self).wf(),
            i < old(self).len(),
        ensures
            final(self).wf(),
            final(self).len() == old(self).len(),
            final(self).visible(i as int) == visible,
            forall|j: int|
                0 <= j < old(self).len() ==> {
                    &&& (j != i ==> #[trigger] final(self).visible(j) == old(self).visible(j))
                    &&& final(self).parent(j) == old(self).parent(j)
                    &&& final(self).children_of(j) == old(self).children_of(j)
                    &&& final(self).object(j) == old(self).object(j)
                    &&& final(self).ancestors(j) == old(self).ancestors(j)
                },
    {
        self.visible.set(i, visible);
    }

    /// Creates a node without object as the last child of `parent` (a group).
    pub fn add_group(&mut self, parent: usize) -> (r: usize)
        requires
            old(self).wf(),
            parent < old(self).len(),
            old(self).len() < usize::MAX,
        ensures
            final(self).wf(),
            r == old(self).len(),
            final(self).len() == old(self).len() + 1,
            final(self).parent(r as int) == Some(parent),
            final(self).children_of(r as int).len() == 0,
            final(self).visible(r as int),
            final(self).object(r as int) is None,
            final(self).children_of(parent as int) == old(self).children_of(parent as int).push(r),
            forall|i: int|
                0 <= i < old(self).len() ==> {
                    &&& #[trigger] final(self).parent(i) == old(self).parent(i)
                    &&& (i != parent ==> final(self).children_of(i) == old(self).children_of(i))
                    &&& final(self).visible(i) == old(self).visible(i)
                    &&& final(self).object(i) == old(self).object(i)
                },
    {
        self.add_object(parent, None)
    }

    /// Creates a node holding `object` (or none) as the last child of
    /// `parent`.
    pub fn add_object(&mut self, parent: usize, object: Option<u32>) -> (r: usize)
        requires
            old(self).wf(),
            parent < old(self).len(),
            old(self).len() < usize::MAX,
        ensures
            final(self).wf(),
            r == old(self).len(),
            final(self).len() == old(self).len() + 1,
            final(self).parent(r as int) == Some(parent),
            final(self).children_of(r as int).len() == 0,
            final(self).visible(r as int),
            final(self).object(r as int) == object,
            final(self).children_of(parent as int) == old(self).children_of(parent as int).push(r),
            forall|i: int|
                0 <= i < old(self).len() ==> {
                    &&& #[trigger] final(self).parent(i) == old(self).parent(i)
                    &&& (i != parent ==> final(self).children_of(i) == old(self).children_of(i))
                    &&& final(self).visible(i) == old(self).visible(i)
                    &&& final(self).object(i) == old(self).object(i)
                },
    {
        let r = self.new_node(object);
        proof {
            assert(self.parent(parent as int) == old(self).parent(parent as int));
            assert forall|i: int| 0 <= i < old(self).len() implies #[trigger] self.parent(i) == old(self).parent(i)
                && self.children_of(i) == old(self).children_of(i) && self.visible(i) == old(self).visible(i)
                && self.object(i) == old(self).object(i) by {
                assert(self.parent(i) == old(self).parent(i));
            }
            assert(!self.in_subtree(parent as int, r as int)) by {
                assert(self.ancestors(parent as int) == old(self).ancestors(parent as int));
                lemma_ancestors(old(self), parent as int);
                if self.ancestors(parent as int).contains(r) {
                    let k = choose|k: int| 0 <= k < self.ancestors(parent as int).len() && self.ancestors(parent as int)[k] == r;
                    assert(old(self).ancestors(parent as int)[k] < old(self).len());
                }
            }
        }
        self.add_child(parent, r);
        r
    }

    /// Appends to `out` the nodes with an object listed from `x`: nothing when
    /// visibility counts and `x` is hidden; otherwise `x` (when it has an
    /// object), then the subtree of each child in order.
    fn collect(&self, x: usize, out: &mut Vec<usize>, respect: bool)
        requires
            self.wf(),
            x < self.len(),
        ensures
            final(out)@.len() >= old(out)@.len(),
            final(out)@.take(old(out)@.len() as int) == old(out)@,
            self.is_listing(x as int, final(out)@.skip(old(out)@.len() as int), respect),
            final(out)@ == old(out)@ + self.listing(x as int, respect, self.depth_fuel(x as int)),
        decreases self.len() - self.ancestors(x as int).len(),
    {
        proof {
            lemma_depth_bound(self, x as int);
        }
        let ghost orig = out@;
        let ghost start = out@.len() as int;
        let ghost xi = x as int;
        let ghost fuel = self.depth_fuel(xi);
        if respect && !self.visible[x] {
            proof {
                assert(self.listing(xi, respect, fuel) == Seq::<usize>::empty());
                assert(out@ =~= orig + self.listing(xi, respect, fuel));
                assert forall|y: int| 0 <= y < self.len() implies !#[trigger] self.listed(xi, y, respect) by {
                    lemma_hidden_shows_nothing(self, xi, y);
                }
                assert(out@.skip(start) =~= Seq::<usize>::empty());
                assert(out@.take(start) =~= out@);
            }
            return;
        }
        if self.objects[x].is_some() {
            out.push(x);
        }
        proof {
            let seg = out@.skip(start);
            assert(out@.take(start) =~= orig);
            assert forall|y: int|
                0 <= y < self.len() && #[trigger] self.listed(xi, y, respect) && self.object(y) is Some && (y == xi
                    || (y != xi && self.children_of(xi).take(0).contains(path_child(self, xi, y)))) implies seg.contains(
                y as usize,
            ) by {
                if y == xi {
                    assert(seg[0] == x);
                }
            }
            assert(render_prefix(self, xi, seg, 0, respect));
            let own = if self.object(xi) is Some { seq![x] } else { Seq::<usize>::empty() };
            assert(self.children_of(xi).take(0) =~= Seq::<usize>::empty());
            assert(out@ =~= orig + own + self.listing_children(self.children_of(xi).take(0), respect, (fuel - 1) as nat));
        }
        let ghost own = if self.object(xi) is Some { seq![x] } else { Seq::<usize>::empty() };
        let children = &self.children[x];
        let nc = children.len();
        let mut j: usize = 0;
        while j < nc
            invariant
                self.wf(),
                x < self.len(),
                xi == x,
                respect ==> self.visible(xi),
                children@ == self.children_of(xi),
                nc == children@.len(),
                j <= nc,
                start == orig.len(),
                out@.len() >= start,
                out@.take(start) == orig,
                render_prefix(self, xi, out@.skip(start), j as int, respect),
                fuel == self.depth_fuel(xi),
                fuel >= 1,
                out@ == orig + own + self.listing_children(children@.take(j as int), respect, (fuel - 1) as nat),
            decreases nc - j,
        {
            let c = children[j];
            let ghost ci = c as int;
            let ghost before = out@;
            proof {
                assert(children@.contains(c));
                assert(self.parent(ci) == Some(x));
                assert(self.parents@[ci] == self.parents@[ci]);
                assert(self.ancestors(ci) == seq![x].add(self.ancestors(xi)));
                lemma_depth_bound(self, ci);
            }
            self.collect(c, out, respect);
            proof {
                assert(self.depth_fuel(ci) == (fuel - 1) as nat);
                let kids_j1 = children@.take(j as int + 1);
                assert(kids_j1.drop_last() =~= children@.take(j as int));
                assert(kids_j1.last() == c);
                assert(self.listing_children(kids_j1, respect, (fuel - 1) as nat) == self.listing_children(
                    children@.take(j as int),
                    respect,
                    (fuel - 1) as nat,
                ) + self.listing(ci, respect, (fuel - 1) as nat));
                assert(out@ =~= orig + own + self.listing_children(kids_j1, respect, (fuel - 1) as nat));
            }
            proof {
                let seg0 = before.skip(start);
                let segc = out@.skip(before.len() as int);
                let seg1 = out@.skip(start);
                assert(out@.take(before.len() as int) == before);
                assert(seg1 =~= seg0 + segc) by {
                    assert forall|k: int| 0 <= k < seg1.len() implies seg1[k] == (seg0 + segc)[k] by {
                        if k < seg0.len() {
                            assert(out@.take(before.len() as int)[start + k] == before[start + k]);
                        }
                    }
                }
                assert(out@.take(start) =~= orig) by {
                    assert forall|k: int| 0 <= k < start implies out@[k] == orig[k] by {
                        assert(out@.take(before.len() as int)[k] == before[k]);
                        assert(before.take(start)[k] == orig[k]);
                    }
                }
                let kids = self.children_of(xi);
                assert(kids.take(j as int + 1) =~= kids.take(j as int).push(c));
                assert(!kids.take(j as int).contains(c)) by {
                    if kids.take(j as int).contains(c) {
                        let i = choose|i: int| 0 <= i < j && kids.take(j as int)[i] == c;
                        assert(kids[i] == kids[j as int]);
                    }
                }
                lemma_children_disjoint(self, xi, ci, ci, xi);
                // what the child's subtree adds
                assert forall|k: int| 0 <= k < segc.len() implies {
                    &&& #[trigger] segc[k] < self.len()
                    &&& self.listed(xi, segc[k] as int, respect)
                    &&& self.object(segc[k] as int) is Some
                    &&& segc[k] != x
                    &&& self.in_subtree(segc[k] as int, xi)
                    &&& path_child(self, xi, segc[k] as int) == c
                } by {
                    let y = segc[k] as int;
                    assert(self.listed(ci, y, respect));
                    lemma_path_child_of_child(self, xi, ci, y);
                    lemma_listed_via_child(self, xi, ci, y, respect);
                }
                assert forall|k: int| 0 <= k < seg1.len() implies {
                    &&& #[trigger] seg1[k] < self.len()
                    &&& self.listed(xi, seg1[k] as int, respect)
                    &&& self.object(seg1[k] as int) is Some
                    &&& (seg1[k] == x || (self.in_subtree(seg1[k] as int, xi) && kids.take(j as int + 1).contains(
                        path_child(self, xi, seg1[k] as int),
                    )))
                } by {
                    if k < seg0.len() {
                        assert(seg1[k] == seg0[k]);
                        if seg0[k] != x {
                            let pc = path_child(self, xi, seg0[k] as int);
                            assert(kids.take(j as int).contains(pc));
                            let i = choose|i: int| 0 <= i < j && kids.take(j as int)[i] == pc;
                            assert(kids.take(j as int + 1)[i] == pc);
                        }
                    } else {
                        assert(seg1[k] == segc[k - seg0.len()]);
                        assert(kids.take(j as int + 1)[j as int] == c);
                    }
                }
                assert forall|y: int|
                    0 <= y < self.len() && #[trigger] self.listed(xi, y, respect) && self.object(y) is Some && (y == xi
                        || (y != xi && kids.take(j as int + 1).contains(path_child(self, xi, y)))) implies seg1.contains(
                    y as usize,
                ) by {
                    if y == xi || kids.take(j as int).contains(path_child(self, xi, y)) {
                        assert(seg0.contains(y as usize));
                        let k = choose|k: int| 0 <= k < seg0.len() && seg0[k] == y as usize;
                        assert(seg1[k] == y as usize);
                    } else {
                        assert(path_child(self, xi, y) == c);
                        lemma_path_child(self, xi, y);
                        lemma_listed_via_child(self, xi, ci, y, respect);
                        assert(segc.contains(y as usize));
                        let k = choose|k: int| 0 <= k < segc.len() && segc[k] == y as usize;
                        assert(seg1[seg0.len() + k] == y as usize);
                    }
                }
                assert(seg1.no_duplicates()) by {
                    assert forall|a: int, b: int| 0 <= a < seg1.len() && 0 <= b < seg1.len() && a != b implies seg1[a] != seg1[b] by {
                        if a < seg0.len() && b >= seg0.len() {
                            assert(seg1[a] == seg0[a]);
                            assert(seg1[b] == segc[b - seg0.len()]);
                        } else if b < seg0.len() && a >= seg0.len() {
                            assert(seg1[b] == seg0[b]);
                            assert(seg1[a] == segc[a - seg0.len()]);
                        } else if a < seg0.len() {
                            assert(seg1[a] == seg0[a]);
                            assert(seg1[b] == seg0[b]);
                        } else {
                            assert(seg1[a] == segc[a - seg0.len()]);
                            assert(seg1[b] == segc[b - seg0.len()]);
                        }
                    }
                }
                assert forall|a: int, b: int|
                    0 <= a < b < seg1.len() implies !#[trigger] self.ancestors(seg1[a] as int).contains(#[trigger] seg1[b]) by {
                    if b < seg0.len() {
                        assert(seg1[a] == seg0[a]);
                        assert(seg1[b] == seg0[b]);
                    } else if a >= seg0.len() {
                        assert(seg1[a] == segc[a - seg0.len()]);
                        assert(seg1[b] == segc[b - seg0.len()]);
                    } else {
                        let ya = seg0[a] as int;
                        let yb = segc[b - seg0.len()] as int;
                        assert(seg1[a] == ya);
                        assert(seg1[b] == yb);
                        if self.ancestors(ya).contains(yb as usize) {
                            assert(self.in_subtree(yb, ci));
                            lemma_subtree_trans(self, ya, yb, ci);
                            if ya == xi {
                            } else {
                                lemma_path_child_of_child(self, xi, ci, ya);
                            }
                        }
                    }
                }
                assert forall|k: int| 0 < k < seg1.len() implies #[trigger] seg1[k] != x by {
                    if k < seg0.len() {
                        assert(seg1[k] == seg0[k]);
                    } else {
                        assert(seg1[k] == segc[k - seg0.len()]);
                    }
                }
            }
            j = j + 1;
        }
        proof {
            let seg = out@.skip(start);
            let kids = self.children_of(xi);
            assert(kids.take(nc as int) =~= kids);
            assert(self.listing(xi, respect, fuel) == own + self.listing_children(kids, respect, (fuel - 1) as nat));
            assert(out@ =~= orig + self.listing(xi, respect, fuel));
            assert forall|y: int| 0 <= y < self.len() && #[trigger] self.listed(xi, y, respect) && self.object(y) is Some implies seg.contains(
                y as usize,
            ) by {
                if y != xi {
                    lemma_path_child(self, xi, y);
                }
            }
        }
    }

    /// The nodes with an object drawn when the subtree of `root` is rendered,
    /// in depth-first order, children in order, each once: a hidden node hides
    /// its whole subtree.
    pub fn render_list(&self, root: usize) -> (r: Vec<usize>)
        requires
            self.wf(),
            root < self.len(),
        ensures
            self.is_render_list(root as int, r@),
            r@ == self.listing(root as int, true, self.depth_fuel(root as int)),
    {
        let mut r: Vec<usize> = Vec::new();
        self.collect(root, &mut r, true);
        assert(r@.skip(0) =~= r@);
        assert(r@ =~= Seq::<usize>::empty() + self.listing(root as int, true, self.depth_fuel(root as int)));
        r
    }

    /// The nodes with an object in the subtree of `root`, hidden or not, each
    /// once, every node after its ancestors: what a change applied to a whole
    /// group reaches.
    pub fn objects_in_subtree(&self, root: usize) -> (r: Vec<usize>)
        requires
            self.wf(),
            root < self.len(),
        ensures
            self.is_listing(root as int, r@, false),
            r@ == self.listing(root as int, false, self.depth_fuel(root as int)),
    {
        let mut r: Vec<usize> = Vec::new();
        self.collect(root, &mut r, false);
        assert(r@.skip(0) =~= r@);
        assert(r@ =~= Seq::<usize>::empty() + self.listing(root as int, false, self.depth_fuel(root as int)));
        r
    }

    /// Adds the objects loaded from one model file under `parent`: a single
    /// object becomes a child of `parent` and is returned; several (or none)
    /// are gathered under a new group child of `parent`, which is returned.
    /// Whoever scales the model scales the returned node.
    pub fn add_obj(&mut self, parent: usize, objects: &Vec<u32>) -> (r: usize)
        requires
            old(self).wf(),
            parent < old(self).len(),
            old(self).len() + objects@.len() + 1 < usize::MAX,
        ensures
            final(self).wf(),
            r == old(self).len(),
            final(self).parent(r as int) == Some(parent),
            final(self).children_of(parent as int) == old(self).children_of(parent as int).push(r),
            objects@.len() == 1 ==> {
                &&& final(self).len() == old(self).len() + 1
                &&& final(self).object(r as int) == Some(objects@[0])
                &&& final(self).children_of(r as int).len() == 0
            },
            objects@.len() != 1 ==> {
                &&& final(self).len() == old(self).len() + 1 + objects@.len()
                &&& final(self).object(r as int) is None
                &&& final(self).children_of(r as int) == Seq::new(objects@.len(), |k: int| (r + 1 + k) as usize)
                &&& forall|k: int|
                    0 <= k < objects@.len() ==> {
                        &&& #[trigger] final(self).object(r + 1 + k) == Some(objects@[k])
                        &&& final(self).parent(r + 1 + k) == Some(r)
                        &&& final(self).children_of(r + 1 + k).len() == 0
                    }
            },
            forall|i: int|
                0 <= i < old(self).len() ==> {
                    &&& #[trigger] final(self).parent(i) == old(self).parent(i)
                    &&& (i != parent ==> final(self).children_of(i) == old(self).children_of(i))
                    &&& final(self).visible(i) == old(self).visible(i)
                    &&& final(self).object(i) == old(self).object(i)
                },
    {
        if objects.len() == 1 {
            return self.add_object(parent, Some(objects[0]));
        }
        let group = self.add_group(parent);
        let ghost g1 = *self;
        let mut k: usize = 0;
        while k < objects.len()
            invariant
                self.wf(),
                group == old(self).len(),
                parent < old(self).len(),
                old(self).len() + objects@.len() + 1 < usize::MAX,
                k <= objects@.len(),
                self.len() == group + 1 + k,
                self.parent(group as int) == Some(parent),
                self.object(group as int) is None,
                self.children_of(parent as int) == old(self).children_of(parent as int).push(group),
                self.children_of(group as int) == Seq::new(k as nat, |i: int| (group + 1 + i) as usize),
                forall|i: int|
                    0 <= i < k ==> {
                        &&& #[trigger] self.object(group + 1 + i) == Some(objects@[i])
                        &&& self.parent(group + 1 + i) == Some(group)
                        &&& self.children_of(group + 1 + i).len() == 0
                    },
                forall|i: int|
                    0 <= i < old(self).len() ==> {
                        &&& #[trigger] self.parent(i) == old(self).parent(i)
                        &&& (i != parent ==> self.children_of(i) == old(self).children_of(i))
                        &&& self.visible(i) == old(self).visible(i)
                        &&& self.object(i) == old(self).object(i)
                    },
            decreases objects@.len() - k,
        {
            let ghost before = *self;
            let c = self.add_object(group, Some(objects[k]));
            proof {
                assert(self.parent(parent as int) == before.parent(parent as int));
                assert(self.parent(group as int) == before.parent(group as int));
                assert(self.children_of(group as int) =~= Seq::new((k + 1) as nat, |i: int| (group + 1 + i) as usize));
                assert forall|i: int| 0 <= i < k + 1 implies {
                    &&& #[trigger] self.object(group + 1 + i) == Some(objects@[i])
                    &&& self.parent(group + 1 + i) == Some(group)
                    &&& self.children_of(group + 1 + i).len() == 0
                } by {
                    if i < k {
                        assert(self.parent(group + 1 + i) == before.parent(group + 1 + i));
                    }
                }
                assert forall|i: int| 0 <= i < old(self).len() implies {
                    &&& #[trigger] self.parent(i) == old(self).parent(i)
                    &&& (i != parent ==> self.children_of(i) == old(self).children_of(i))
                    &&& self.visible(i) == old(self).visible(i)
                    &&& self.object(i) == old(self).object(i)
                } by {
                    assert(self.parent(i) == before.parent(i));
                    assert(before.parent(i) == old(self).parent(i));
                }
            }
            k = k + 1;
        }
        group
    }
}

/// Unlinking a node just added as a child of `parent` gives the graph back as
/// it was.
pub proof fn lemma_unlink_undoes_add_child(g0: SceneGraph, g1: SceneGraph, g2: SceneGraph, parent: usize, node: usize)
    requires
        g0.wf(),
        g1.wf(),
        parent < g0.len(),
        node < g0.len(),
        g0.parent(node as int) is None,
        !g0.in_subtree(parent as int, node as int),
        child_added(g0, g1, parent, node),
        node_unlinked(g1, g2, node),
    ensures
        g2.len() == g0.len(),
        forall|i: int|
            0 <= i < g0.len() ==> {
                &&& #[trigger] g2.parent(i) == g0.parent(i)
                &&& g2.children_of(i) == g0.children_of(i)
                &&& g2.visible(i) == g0.visible(i)
                &&& g2.object(i) == g0.object(i)
                &&& g2.ancestors(i) == g0.ancestors(i)
            },
{
    let n = g0.len();
    let cs = g1.children_of(parent as int);
    assert(cs == g0.children_of(parent as int).push(node));
    assert(g1.parent(node as int) == Some(parent));
    // `node` sits last among the children of `parent`
    let k = choose|k: int|
        0 <= k < cs.len() && #[trigger] cs[k] == node && g2.children_of(parent as int) == cs.update(k, cs.last()).drop_last();
    assert(cs.no_duplicates()) by {
        assert(g1.children@[parent as int]@.no_duplicates());
    }
    assert(k == cs.len() - 1) by {
        if k != cs.len() - 1 {
            assert(cs[cs.len() - 1] == node);
        }
    }
    assert(g2.children_of(parent as int) =~= g0.children_of(parent as int));
    assert(g0.ancestors(node as int) == Seq::<usize>::empty()) by {
        assert(g0.parents@[node as int] == g0.parents@[node as int]);
    }
    assert(g1.ancestors(node as int) =~= seq![parent] + g0.ancestors(parent as int)) by {
        assert(g1.parent(node as int) == g1.parent(node as int));
    }
    assert forall|i: int| 0 <= i < n implies {
        &&& #[trigger] g2.parent(i) == g0.parent(i)
        &&& g2.children_of(i) == g0.children_of(i)
        &&& g2.visible(i) == g0.visible(i)
        &&& g2.object(i) == g0.object(i)
        &&& g2.ancestors(i) == g0.ancestors(i)
    } by {
        assert(g1.parent(i) == g1.parent(i));
        if i == node {
        } else {
            if g0.in_subtree(i, node as int) {
                let a0 = g0.ancestors(i);
                let a1 = g1.ancestors(i);
                assert(a1 == a0 + seq![parent] + g0.ancestors(parent as int));
                assert(a1[a0.len() as int] == parent);
                assert(g0.ancestors(i).contains(node));
                let j = choose|j: int| 0 <= j < a0.len() && a0[j] == node;
                assert(a1[j] == node);
                assert(g1.in_subtree(i, node as int));
                assert(a1.take(a1.len() - g1.ancestors(node as int).len()) =~= a0);
            } else {
                assert(g1.ancestors(i) == g0.ancestors(i));
                assert(!g1.in_subtree(i, node as int));
            }
        }
    }
}

/// A hidden node and its whole subtree are not rendered: no node of the
/// subtree of a hidden node is shown from any node above it.
pub proof fn lemma_hidden_node_hides_subtree(g: SceneGraph, root: int, i: int, y: int)
    requires
        g.wf(),
        0 <= root < g.len(),
        0 <= i < g.len(),
        0 <= y < g.len(),
        !g.visible(i),
        g.in_subtree(y, i),
        g.in_subtree(i, root),
    ensures
        !g.shown(root, y),
{
    if y != i && g.shown(root, y) {
        lemma_ancestor_suffix(&g, y, i as usize);
        lemma_ancestor_position(&g, y, i as usize);
        let a = g.ancestors(y);
        let li = g.ancestors(i).len() as int;
        let lr = g.ancestors(root).len() as int;
        assert(li >= lr) by {
            if i != root {
                lemma_ancestors(&g, i);
                let ru = root as usize;
                assert(g.ancestors(ru as int).len() < g.ancestors(i).len());
            }
        }
        let k = a.len() - li - 1;
        assert(0 <= k < a.len() - lr);
        assert(g.visible(a[k] as int));
    }
}

} // verus!
