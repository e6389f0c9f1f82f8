//! The model behind `TreeView`: registered nodes with their children, walked
//! in depth-first pre-order to find nodes by value, as the outline data
//! source and the controlled selection do.
use vstd::prelude::*;

use crate::keys::{is_registration_key, new_registration_key};
use crate::registry::{Registration, place_keyed, placed, remove_registrations, without_key};

verus! {

/// One node registered by a tree item, with the nodes registered beneath it.
#[derive(Debug)]
pub struct TreeNodeDefinition {
    pub registration_id: String,
    pub value: String,
    pub label: String,
    pub enabled: bool,
    pub children: Vec<TreeNodeDefinition>,
}

impl Registration for TreeNodeDefinition {
    open spec fn key_view(&self) -> Seq<char> {
        self.registration_id@
    }

    fn key(&self) -> (k: &String) {
        &self.registration_id
    }
}

impl TreeNodeDefinition {
    /// A node for `value` under a fresh registration id. Like the native
    /// definition it starts disabled, with an empty label and no children,
    /// until its item reports a label and an enabled state.
    pub fn new(value: String) -> (n: Self)
        ensures
            is_registration_key(n.registration_id@),
            n.value == value,
            n.label@.len() == 0,
            !n.enabled,
            n.children@.len() == 0,
    {
        TreeNodeDefinition {
            registration_id: new_registration_key(),
            value,
            label: String::new(),
            enabled: false,
            children: Vec::new(),
        }
    }
}

impl TreeNodeDefinition {
    /// Places `child` among this node's children at `index`, as a child item
    /// does when it is placed beneath this node.
    pub fn place_child(&mut self, child: TreeNodeDefinition, index: Option<usize>)
        ensures
            final(self).children@ == placed(old(self).children@, child, index),
            final(self).registration_id == old(self).registration_id,
            final(self).value == old(self).value,
            final(self).label == old(self).label,
            final(self).enabled == old(self).enabled,
    {
        place_keyed(&mut self.children, child, index);
    }

    /// Removes the child registered as `registration_id`, as a child item does
    /// when it unmounts.
    pub fn remove_child(&mut self, registration_id: &String)
        ensures
            final(self).children@ == without_key(old(self).children@, registration_id@),
            final(self).registration_id == old(self).registration_id,
            final(self).value == old(self).value,
            final(self).label == old(self).label,
            final(self).enabled == old(self).enabled,
    {
        remove_registrations(&mut self.children, registration_id);
    }

    /// Gives the node the value its item now holds, returning whether it
    /// changed (the outline is then reloaded).
    pub fn set_value(&mut self, value: String) -> (changed: bool)
        ensures
            changed == (old(self).value@ != value@),
            final(self).value@ == value@,
            final(self).registration_id == old(self).registration_id,
            final(self).label == old(self).label,
            final(self).enabled == old(self).enabled,
            final(self).children == old(self).children,
    {
        if self.value == value {
            false
        } else {
            self.value = value;
            true
        }
    }
}

/// All nodes of the forest `nodes` in depth-first pre-order: each node is
/// followed by its descendants, then by its next sibling.
pub open spec fn flatten(nodes: Seq<TreeNodeDefinition>) -> Seq<TreeNodeDefinition>
    decreases nodes,
{
    if nodes.len() == 0 {
        Seq::empty()
    } else {
        proof {
            assert(decreases_to!(nodes => nodes[0]));
            assert(decreases_to!(nodes[0] => nodes[0].children));
            assert(decreases_to!(nodes[0].children => nodes[0].children@));
        }
        seq![nodes[0]] + flatten(nodes[0].children@) + flatten(nodes.drop_first())
    }
}

/// Whether node `n` is one the search for `value` looks for.
pub open spec fn node_matches(n: TreeNodeDefinition, value: Seq<char>, enabled_only: bool) -> bool {
    n.value@ == value && (!enabled_only || n.enabled)
}

/// Whether some node of `s` matches.
pub open spec fn any_matches(s: Seq<TreeNodeDefinition>, value: Seq<char>, enabled_only: bool) -> bool {
    exists|i: int| 0 <= i < s.len() && node_matches(#[trigger] s[i], value, enabled_only)
}

/// Whether `n` is the first node of `s` that matches.
pub open spec fn is_first_match(
    s: Seq<TreeNodeDefinition>,
    value: Seq<char>,
    enabled_only: bool,
    n: TreeNodeDefinition,
) -> bool {
    exists|i: int|
        0 <= i < s.len() && s[i] == n && node_matches(n, value, enabled_only) && !any_matches(
            s.take(i),
            value,
            enabled_only,
        )
}

proof fn lemma_flatten_push(s: Seq<TreeNodeDefinition>, x: TreeNodeDefinition)
    ensures
        flatten(s.push(x)) == flatten(s) + seq![x] + flatten(x.children@),
    decreases s.len(),
{
    if s.len() == 0 {
        assert(s.push(x).drop_first() =~= Seq::<TreeNodeDefinition>::empty());
        assert(flatten(Seq::<TreeNodeDefinition>::empty()) == Seq::<TreeNodeDefinition>::empty());
        assert(flatten(s.push(x)) =~= seq![x] + flatten(x.children@));
        assert(flatten(s) + seq![x] + flatten(x.children@) =~= seq![x] + flatten(x.children@));
    } else {
        assert(s.push(x).drop_first() =~= s.drop_first().push(x));
        assert(s.push(x)[0] == s[0]);
        lemma_flatten_push(s.drop_first(), x);
        assert(flatten(s.push(x)) =~= flatten(s) + seq![x] + flatten(x.children@));
    }
}

proof fn lemma_any_matches_concat(
    a: Seq<TreeNodeDefinition>,
    b: Seq<TreeNodeDefinition>,
    value: Seq<char>,
    enabled_only: bool,
)
    ensures
        any_matches(a + b, value, enabled_only) == (any_matches(a, value, enabled_only)
            || any_matches(b, value, enabled_only)),
{
    let c = a + b;
    if any_matches(c, value, enabled_only) {
        let i = choose|i: int| 0 <= i < c.len() && node_matches(#[trigger] c[i], value, enabled_only);
        if i < a.len() {
            assert(c[i] == a[i]);
        } else {
            assert(c[i] == b[i - a.len()]);
        }
    }
    if any_matches(a, value, enabled_only) {
        let i = choose|i: int| 0 <= i < a.len() && node_matches(#[trigger] a[i], value, enabled_only);
        assert(c[i] == a[i]);
    }
    if any_matches(b, value, enabled_only) {
        let i = choose|i: int| 0 <= i < b.len() && node_matches(#[trigger] b[i], value, enabled_only);
        assert(c[a.len() + i] == b[i]);
    }
}

/// The first node of the forest, in pre-order, whose value is `value` (and
/// that is enabled, when `enabled_only`).
pub fn find_node<'a>(nodes: &'a Vec<TreeNodeDefinition>, value: &String, enabled_only: bool) -> (r:
    Option<&'a TreeNodeDefinition>)
    ensures
        match r {
            Some(n) => is_first_match(flatten(nodes@), value@, enabled_only, *n),
            None => !any_matches(flatten(nodes@), value@, enabled_only),
        },
    decreases nodes@,
{
    let mut i: usize = 0;
    proof {
        assert(nodes@.take(0) =~= Seq::<TreeNodeDefinition>::empty());
    }
    while i < nodes.len()
        invariant
            i <= nodes@.len(),
            !any_matches(flatten(nodes@.take(i as int)), value@, enabled_only),
        decreases nodes@.len() - i,
    {
        let node = &nodes[i];
        let ghost before = flatten(nodes@.take(i as int));
        proof {
            assert(nodes@.take(i + 1) =~= nodes@.take(i as int).push(*node));
            lemma_flatten_push(nodes@.take(i as int), *node);
            lemma_flatten_prefix(nodes@, i + 1);
        }
        if node.value == *value && (!enabled_only || node.enabled) {
            proof {
                let f = flatten(nodes@);
                let k = before.len() as int;
                let pre = flatten(nodes@.take(i + 1));
                assert(pre == before + seq![*node] + flatten(node.children@));
                assert(pre[k] == *node);
                assert(f[k] == *node);
                assert forall|t: int| 0 <= t < k implies #[trigger] f.take(k)[t] == before[t] by {
                    assert(pre[t] == before[t]);
                }
                assert(f.take(k) =~= before);
            }
            return Some(node);
        }
        proof {
            assert(decreases_to!(nodes@ => nodes@[i as int]));
            assert(decreases_to!(nodes@[i as int] => nodes@[i as int].children));
            assert(decreases_to!(nodes@[i as int].children => nodes@[i as int].children@));
        }
        let found = find_node(&node.children, value, enabled_only);
        match found {
            Some(n) => {
                proof {
                    let f = flatten(nodes@);
                    let pre = flatten(nodes@.take(i + 1));
                    let ch = flatten(node.children@);
                    let j = choose|j: int|
                        0 <= j < ch.len() && ch[j] == *n && node_matches(*n, value@, enabled_only)
                            && !any_matches(ch.take(j), value@, enabled_only);
                    let k = before.len() + 1 + j;
                    assert(pre == before + seq![*node] + ch);
                    assert(pre[k] == ch[j]);
                    assert(f[k] == *n);
                    let expected = before + seq![*node] + ch.take(j);
                    assert forall|t: int| 0 <= t < k implies #[trigger] f.take(k)[t] == expected[t] by {
                        assert(pre[t] == f[t]);
                        if t < before.len() {
                            assert(pre[t] == before[t]);
                        } else if t == before.len() {
                            assert(pre[t] == *node);
                        } else {
                            assert(pre[t] == ch[t - before.len() - 1]);
                        }
                    }
                    assert(f.take(k) =~= expected);
                    lemma_any_matches_concat(before, seq![*node], value@, enabled_only);
                    lemma_any_matches_concat(before + seq![*node], ch.take(j), value@, enabled_only);
                    assert(!node_matches(seq![*node][0], value@, enabled_only));
                }
                return Some(n);
            },
            None => {},
        }
        proof {
            lemma_any_matches_concat(before, seq![*node], value@, enabled_only);
            lemma_any_matches_concat(
                before + seq![*node],
                flatten(node.children@),
                value@,
                enabled_only,
            );
            assert(!node_matches(seq![*node][0], value@, enabled_only));
        }
        i += 1;
    }
    proof {
        assert(nodes@.take(i as int) =~= nodes@);
    }
    None
}

/// The pre-order of a prefix of a forest is a prefix of its pre-order.
proof fn lemma_flatten_prefix(s: Seq<TreeNodeDefinition>, n: int)
    requires
        0 <= n <= s.len(),
    ensures
        flatten(s.take(n)).len() <= flatten(s).len(),
        forall|k: int|
            0 <= k < flatten(s.take(n)).len() ==> #[trigger] flatten(s.take(n))[k] == flatten(
                s,
            )[k],
    decreases s.len() - n,
{
    if n < s.len() {
        lemma_flatten_prefix(s, n + 1);
        assert(s.take(n + 1) =~= s.take(n).push(s[n]));
        lemma_flatten_push(s.take(n), s[n]);
        let a = flatten(s.take(n));
        let b = flatten(s.take(n + 1));
        assert forall|k: int| 0 <= k < a.len() implies #[trigger] a[k] == flatten(s)[k] by {
            assert(b[k] == a[k]);
        }
    } else {
        assert(s.take(n) =~= s);
    }
}

/// The values of all nodes of the forest in pre-order.
pub fn all_values(nodes: &Vec<TreeNodeDefinition>) -> (r: Vec<String>)
    ensures
        r.deep_view() == flatten(nodes@).map_values(|n: TreeNodeDefinition| n.value@),
    decreases nodes@,
{
    let mut out: Vec<String> = Vec::new();
    let mut i: usize = 0;
    proof {
        assert(nodes@.take(0) =~= Seq::<TreeNodeDefinition>::empty());
        assert(out.deep_view() =~= flatten(nodes@.take(0)).map_values(
            |n: TreeNodeDefinition| n.value@,
        ));
    }
    while i < nodes.len()
        invariant
            i <= nodes@.len(),
            out.deep_view() == flatten(nodes@.take(i as int)).map_values(
                |n: TreeNodeDefinition| n.value@,
            ),
        decreases nodes@.len() - i,
    {
        let node = &nodes[i];
        proof {
            assert(decreases_to!(nodes@ => nodes@[i as int]));
            assert(decreases_to!(nodes@[i as int] => nodes@[i as int].children));
            assert(decreases_to!(nodes@[i as int].children => nodes@[i as int].children@));
        }
        let ghost before = out.deep_view();
        out.push(node.value.clone());
        proof {
            assert(out.deep_view() =~= before.push(node.value@));
        }
        let ghost mid = out.deep_view();
        let mut below = all_values(&node.children);
        let ghost below_view = below.deep_view();
        let ghost below_seq = below@;
        let ghost mid_seq = out@;
        out.append(&mut below);
        proof {
            assert(out@ == mid_seq + below_seq);
            assert(out.deep_view() =~= mid + below_view);
            assert(nodes@.take(i + 1) =~= nodes@.take(i as int).push(*node));
            lemma_flatten_push(nodes@.take(i as int), *node);
            let fl = flatten(nodes@.take(i + 1));
            let f0 = flatten(nodes@.take(i as int));
            let fc = flatten(node.children@);
            assert(fl == f0 + seq![*node] + fc);
            let target = fl.map_values(|n: TreeNodeDefinition| n.value@);
            assert forall|t: int| 0 <= t < target.len() implies #[trigger] target[t]
                == out.deep_view()[t] by {
                if t < f0.len() {
                    assert(fl[t] == f0[t]);
                } else if t == f0.len() {
                    assert(fl[t] == *node);
                } else {
                    assert(fl[t] == fc[t - f0.len() - 1]);
                }
            }
            assert(out.deep_view() =~= target);
        }
        i += 1;
    }
    proof {
        assert(nodes@.take(i as int) =~= nodes@);
    }
    out
}

/// The state of one mounted tree view.
#[derive(Debug)]
pub struct TreeHandler {
    pub roots: Vec<TreeNodeDefinition>,
    pub enabled: bool,
}

impl TreeHandler {
    pub fn new(enabled: bool) -> (h: Self)
        ensures
            h.enabled == enabled,
            h.roots@.len() == 0,
    {
        TreeHandler { roots: Vec::new(), enabled }
    }

    /// Places a top-level node at `index`.
    pub fn place_root(&mut self, node: TreeNodeDefinition, index: Option<usize>)
        ensures
            final(self).roots@ == placed(old(self).roots@, node, index),
            final(self).enabled == old(self).enabled,
    {
        place_keyed(&mut self.roots, node, index);
    }

    /// Removes the top-level node registered as `registration_id`.
    pub fn remove_root(&mut self, registration_id: &String)
        ensures
            final(self).roots@ == without_key(old(self).roots@, registration_id@),
            final(self).enabled == old(self).enabled,
    {
        remove_registrations(&mut self.roots, registration_id);
    }

    /// The node the outline shows for the item `value`: the first node in
    /// pre-order with that value.
    pub fn node_for(&self, value: &String) -> (r: Option<&TreeNodeDefinition>)
        ensures
            match r {
                Some(n) => is_first_match(flatten(self.roots@), value@, false, *n),
                None => !any_matches(flatten(self.roots@), value@, false),
            },
    {
        find_node(&self.roots, value, false)
    }

    /// The children the outline shows beneath `item`: the children of its
    /// node, or the roots for the top level and for an unknown item.
    pub fn children_for(&self, item: Option<&String>) -> (r: &Vec<TreeNodeDefinition>)
        ensures
            match item {
                None => r@ == self.roots@,
                Some(v) => (!any_matches(flatten(self.roots@), v@, false) ==> r@ == self.roots@)
                    && (any_matches(flatten(self.roots@), v@, false) ==> exists|n: TreeNodeDefinition|
                    is_first_match(flatten(self.roots@), v@, false, n) && r@ == n.children@),
            },
    {
        match item {
            Some(v) => match self.node_for(v) {
                Some(n) => &n.children,
                None => &self.roots,
            },
            None => &self.roots,
        }
    }

    /// Whether the outline shows a disclosure triangle for `item`.
    pub fn is_expandable(&self, item: &String) -> (r: bool)
        ensures
            r == exists|n: TreeNodeDefinition|
                is_first_match(flatten(self.roots@), item@, false, n) && n.children@.len() > 0,
    {
        match self.node_for(item) {
            Some(n) => {
                proof {
                    assert forall|m: TreeNodeDefinition|
                        is_first_match(flatten(self.roots@), item@, false, m) implies m == *n by {
                        lemma_first_match_unique(flatten(self.roots@), item@, false, m, *n);
                    }
                }
                n.children.len() > 0
            },
            None => false,
        }
    }

    /// The value a selected or activated row reports: the value of the node
    /// shown in that row (`item`), when the view, the row and the node are
    /// enabled.
    pub fn value_at_row(&self, row: isize, item: Option<&String>) -> (r: Option<String>)
        ensures
            (!self.enabled || row < 0 || item is None) ==> r is None,
            (self.enabled && row >= 0 && item is Some) ==> match r {
                Some(v) => exists|n: TreeNodeDefinition|
                    is_first_match(flatten(self.roots@), item.unwrap()@, false, n) && n.enabled
                        && v@ == n.value@,
                None => !any_matches(flatten(self.roots@), item.unwrap()@, false) || exists|
                    n: TreeNodeDefinition,
                |
                    is_first_match(flatten(self.roots@), item.unwrap()@, false, n) && !n.enabled,
            },
    {
        if !self.enabled || row < 0 {
            return None;
        }
        let item = match item {
            Some(i) => i,
            None => return None,
        };
        match self.node_for(item) {
            Some(n) => if n.enabled {
                Some(n.value.clone())
            } else {
                None
            },
            None => None,
        }
    }

    /// The node a controlled value selects: the first enabled node in
    /// pre-order holding it. `None` clears the selection, which is also what a
    /// disabled view does.
    pub fn apply_selection(&self, value: Option<&String>) -> (r: Option<&TreeNodeDefinition>)
        ensures
            (!self.enabled || value is None) ==> r is None,
            (self.enabled && value is Some) ==> match r {
                Some(n) => is_first_match(flatten(self.roots@), value.unwrap()@, true, *n),
                None => !any_matches(flatten(self.roots@), value.unwrap()@, true),
            },
    {
        if !self.enabled {
            return None;
        }
        match value {
            Some(v) => find_node(&self.roots, v, true),
            None => None,
        }
    }
}

proof fn lemma_first_match_unique(
    s: Seq<TreeNodeDefinition>,
    value: Seq<char>,
    enabled_only: bool,
    a: TreeNodeDefinition,
    b: TreeNodeDefinition,
)
    requires
        is_first_match(s, value, enabled_only, a),
        is_first_match(s, value, enabled_only, b),
    ensures
        a == b,
{
    let i = choose|i: int|
        0 <= i < s.len() && s[i] == a && node_matches(a, value, enabled_only) && !any_matches(
            s.take(i),
            value,
            enabled_only,
        );
    let j = choose|j: int|
        0 <= j < s.len() && s[j] == b && node_matches(b, value, enabled_only) && !any_matches(
            s.take(j),
            value,
            enabled_only,
        );
    if i < j {
        assert(s.take(j)[i] == a);
    } else if j < i {
        assert(s.take(i)[j] == b);
    }
}

} // verus!
