//! The in-memory file tree shown in the tree pane: nodes carry
//! repository-relative paths, directories carry an expansion flag and
//! lazily loaded children.  Reading directories and mutating the
//! filesystem belong to the surrounding application; this module holds
//! the pure tree logic: flattening the expanded tree into the visible
//! list, updating a directory's expansion state, and removing a node.

use vstd::prelude::*;
use crate::buffer::clone_chars;

verus! {

/// What the tree is sorted by.
#[derive(Clone, Copy, PartialEq, Eq, Structural, Debug)]
pub enum SortBy {
    Name,
    Modified,
}

/// One node of the tree.
pub enum TreeNode {
    File(Vec<char>),
    Dir { path: Vec<char>, expanded: bool, children: Vec<TreeNode> },
}

/// One row of the flattened, visible tree.
#[derive(Clone)]
pub struct TreeItem {
    pub path: Vec<char>,
    pub is_dir: bool,
    pub expanded: bool,
    pub depth: usize,
}

/// A visible row at the specification level.
pub struct ItemModel {
    pub path: Seq<char>,
    pub is_dir: bool,
    pub expanded: bool,
    pub depth: int,
}

impl TreeItem {
    pub open spec fn model(&self) -> ItemModel {
        ItemModel {
            path: self.path@,
            is_dir: self.is_dir,
            expanded: self.expanded,
            depth: self.depth as int,
        }
    }
}

/// The visible rows of `items`, as models.
pub open spec fn item_models(items: Seq<TreeItem>) -> Seq<ItemModel> {
    Seq::new(items.len(), |i: int| items[i].model())
}

/// The views of a list of paths.
pub open spec fn path_views(ps: Seq<Vec<char>>) -> Seq<Seq<char>> {
    Seq::new(ps.len(), |i: int| ps[i]@)
}

/// The paths of the non-directory rows of `items` in positions
/// `[i, max]`, in order.
pub open spec fn spec_range_paths(items: Seq<ItemModel>, i: int, max: int) -> Seq<Seq<char>>
    decreases
            if i <= max {
                max + 1 - i
            } else {
                0
            },
{
    if i < 0 || i > max || i >= items.len() {
        Seq::empty()
    } else {
        (if !items[i].is_dir {
            seq![items[i].path]
        } else {
            Seq::empty()
        }) + spec_range_paths(items, i + 1, max)
    }
}

/// The depth one level further down; it saturates at the largest
/// machine value, which no real tree can reach.
pub open spec fn next_depth(d: int) -> int {
    if d < usize::MAX {
        d + 1
    } else {
        d
    }
}

/// The visible rows a single node contributes: itself, and, for an
/// expanded directory, its children one level deeper.
pub open spec fn visible_of_node(n: TreeNode, depth: int) -> Seq<ItemModel>
    decreases n,
{
    match n {
        TreeNode::File(p) => seq![ItemModel { path: p@, is_dir: false, expanded: false, depth }],
        TreeNode::Dir { path, expanded, children } => {
            let own = seq![ItemModel { path: path@, is_dir: true, expanded, depth }];
            if expanded {
                own + visible_from(children, 0, next_depth(depth))
            } else {
                own
            }
        },
    }
}

/// The visible rows of the nodes of `nodes` from index `i` on.
pub open spec fn visible_from(nodes: Vec<TreeNode>, i: int, depth: int) -> Seq<ItemModel>
    decreases nodes, nodes@.len() - i,
{
    if i < 0 || i >= nodes@.len() {
        Seq::empty()
    } else {
        visible_of_node(nodes@[i], depth) + visible_from(nodes, i + 1, depth)
    }
}

/// The visible rows of the whole tree.
pub open spec fn spec_visible(nodes: Vec<TreeNode>) -> Seq<ItemModel> {
    visible_from(nodes, 0, 0)
}

/// Appends the visible rows of `nodes` at `depth` to `out`.
fn add_visible(nodes: &Vec<TreeNode>, depth: usize, out: &mut Vec<TreeItem>)
    ensures
        final(out)@.len() == old(out)@.len() + visible_from(*nodes, 0, depth as int).len(),
        forall|k: int| 0 <= k < old(out)@.len() ==> #[trigger] final(out)@[k] == old(out)@[k],
        item_models(final(out)@.skip(old(out)@.len() as int)) =~= visible_from(
            *nodes,
            0,
            depth as int,
        ),
    decreases nodes,
{
    let mut i: usize = 0;
    while i < nodes.len()
        invariant
            0 <= i <= nodes@.len(),
            out@.len() >= old(out)@.len(),
            forall|k: int| 0 <= k < old(out)@.len() ==> #[trigger] out@[k] == old(out)@[k],
            item_models(out@.skip(old(out)@.len() as int)) + visible_from(
                *nodes,
                i as int,
                depth as int,
            ) =~= visible_from(*nodes, 0, depth as int),
        decreases nodes@.len() - i,
    {
        let ghost pre = out@;
        match &nodes[i] {
            TreeNode::File(p) => {
                out.push(TreeItem { path: clone_chars(p), is_dir: false, expanded: false, depth });
                proof {
                    assert(item_models(out@.skip(old(out)@.len() as int)) =~= item_models(
                        pre.skip(old(out)@.len() as int),
                    ) + visible_of_node(nodes@[i as int], depth as int));
                }
            },
            TreeNode::Dir { path, expanded, children } => {
                out.push(
                    TreeItem { path: clone_chars(path), is_dir: true, expanded: *expanded, depth },
                );
                if *expanded {
                    let ghost mid = out@;
                    let deeper = if depth < usize::MAX {
                        depth + 1
                    } else {
                        depth
                    };
                    add_visible(children, deeper, out);
                    proof {
                        assert(item_models(out@.skip(old(out)@.len() as int)) =~= item_models(
                            pre.skip(old(out)@.len() as int),
                        ) + visible_of_node(nodes@[i as int], depth as int)) by {
                            assert(item_models(out@.skip(mid.len() as int)) =~= visible_from(
                                *children,
                                0,
                                next_depth(depth as int),
                            ));
                            assert(forall|k: int|
                                0 <= k < mid.len() ==> #[trigger] out@[k] == mid[k]);
                        }
                    }
                } else {
                    proof {
                        assert(item_models(out@.skip(old(out)@.len() as int)) =~= item_models(
                            pre.skip(old(out)@.len() as int),
                        ) + visible_of_node(nodes@[i as int], depth as int));
                    }
                }
            },
        }
        i = i + 1;
    }
    proof {
        assert(visible_from(*nodes, nodes@.len() as int, depth as int) =~= Seq::<
            ItemModel,
        >::empty());
    }
}

/// The visible rows of the whole tree, flattened in order.
pub fn flatten_tree(nodes: &Vec<TreeNode>) -> (r: Vec<TreeItem>)
    ensures
        item_models(r@) =~= spec_visible(*nodes),
{
    let mut out: Vec<TreeItem> = Vec::new();
    add_visible(nodes, 0, &mut out);
    proof {
        assert(out@.skip(0) =~= out@);
    }
    out
}

/// A tree node at the specification level: paths as character
/// sequences, children as a sequence of models.
pub enum NodeModel {
    File { path: Seq<char> },
    Dir { path: Seq<char>, expanded: bool, children: Seq<NodeModel> },
}

/// The model of one node.
pub open spec fn model_of_node(n: TreeNode) -> NodeModel
    decreases n,
{
    match n {
        TreeNode::File(p) => NodeModel::File { path: p@ },
        TreeNode::Dir { path, expanded, children } => NodeModel::Dir {
            path: path@,
            expanded,
            children: models_from(children, 0),
        },
    }
}

/// The models of the nodes of `nodes` from index `i` on.
pub open spec fn models_from(nodes: Vec<TreeNode>, i: int) -> Seq<NodeModel>
    decreases nodes, nodes@.len() - i,
{
    if i < 0 || i >= nodes@.len() {
        Seq::empty()
    } else {
        seq![model_of_node(nodes@[i])] + models_from(nodes, i + 1)
    }
}

/// The model of a whole tree level.
pub open spec fn tree_models(nodes: Vec<TreeNode>) -> Seq<NodeModel> {
    models_from(nodes, 0)
}

/// `models_from` is the elementwise model of the suffix.
proof fn lemma_models_from(nodes: Vec<TreeNode>, j: int)
    requires
        0 <= j <= nodes@.len(),
    ensures
        models_from(nodes, j).len() == nodes@.len() - j,
        forall|k: int|
            0 <= k < nodes@.len() - j ==> #[trigger] models_from(nodes, j)[k] == model_of_node(
                nodes@[j + k],
            ),
    decreases nodes@.len() - j,
{
    if j < nodes@.len() {
        lemma_models_from(nodes, j + 1);
    }
}

/// The tree with the directory at `path` given the new expansion
/// state and, when supplied, the new children, at the specification
/// level.
pub open spec fn spec_with_dir(
    ms: Seq<NodeModel>,
    path: Seq<char>,
    expanded: bool,
    kids: Option<Seq<NodeModel>>,
) -> Seq<NodeModel>
    decreases ms,
{
    if ms.len() == 0 {
        Seq::empty()
    } else {
        let l = ms[ms.len() - 1];
        spec_with_dir(ms.drop_last(), path, expanded, kids) + seq![
            match l {
                NodeModel::File { path: p } => l,
                NodeModel::Dir { path: p, expanded: e, children: ch } => {
                    if p == path {
                        NodeModel::Dir {
                            path: p,
                            expanded,
                            children: match kids {
                                Some(k) => k,
                                None => ch,
                            },
                        }
                    } else {
                        NodeModel::Dir {
                            path: p,
                            expanded: e,
                            children: spec_with_dir(ch, path, expanded, kids),
                        }
                    }
                },
            },
        ]
    }
}

/// The tree without the node at `path`, at the specification level.
pub open spec fn spec_without(ms: Seq<NodeModel>, path: Seq<char>) -> Seq<NodeModel>
    decreases ms,
{
    if ms.len() == 0 {
        Seq::empty()
    } else {
        let l = ms[ms.len() - 1];
        spec_without(ms.drop_last(), path) + (match l {
            NodeModel::File { path: p } => if p == path {
                Seq::empty()
            } else {
                seq![l]
            },
            NodeModel::Dir { path: p, expanded: e, children: ch } => {
                if p == path {
                    Seq::empty()
                } else {
                    seq![
                        NodeModel::Dir { path: p, expanded: e, children: spec_without(ch, path) },
                    ]
                }
            },
        })
    }
}

/// An owned copy of a whole subtree: the copy has the same model.
pub fn clone_nodes(nodes: &Vec<TreeNode>) -> (r: Vec<TreeNode>)
    ensures
        r@.len() == nodes@.len(),
        tree_models(r) =~= tree_models(*nodes),
    decreases nodes,
{
    let mut out: Vec<TreeNode> = Vec::new();
    let mut i: usize = 0;
    while i < nodes.len()
        invariant
            0 <= i <= nodes@.len(),
            out@.len() == i,
            forall|k: int|
                0 <= k < i ==> #[trigger] model_of_node(out@[k]) == model_of_node(nodes@[k]),
        decreases nodes@.len() - i,
    {
        match &nodes[i] {
            TreeNode::File(p) => {
                out.push(TreeNode::File(clone_chars(p)));
                proof {
                    assert(model_of_node(out@[i as int]) == model_of_node(nodes@[i as int]));
                }
            },
            TreeNode::Dir { path, expanded, children } => {
                let kids = clone_nodes(children);
                out.push(
                    TreeNode::Dir { path: clone_chars(path), expanded: *expanded, children: kids },
                );
                proof {
                    assert(tree_models(kids) == tree_models(*children));
                    assert(model_of_node(out@[i as int]) == model_of_node(nodes@[i as int]));
                }
            },
        }
        i = i + 1;
    }
    proof {
        lemma_models_from(out, 0);
        lemma_models_from(*nodes, 0);
        assert(tree_models(out) =~= tree_models(*nodes));
    }
    out
}

/// Rebuilds the tree with the directory at `path` set to the given
/// expansion state and, when supplied, to the given children; every
/// other node is kept as it was.  The number of nodes at every level
/// is preserved.
pub fn with_dir_state(
    nodes: &Vec<TreeNode>,
    path: &Vec<char>,
    expanded: bool,
    children: Option<&Vec<TreeNode>>,
) -> (r: Vec<TreeNode>)
    ensures
        r@.len() == nodes@.len(),
        tree_models(r) =~= spec_with_dir(
            tree_models(*nodes),
            path@,
            expanded,
            match children {
                Some(cs) => Some(tree_models(*cs)),
                None => None,
            },
        ),
    decreases nodes,
{
    let ghost kids_spec: Option<Seq<NodeModel>> = match children {
        Some(cs) => Some(tree_models(*cs)),
        None => None,
    };
    let ghost full = tree_models(*nodes);
    proof {
        lemma_models_from(*nodes, 0);
        assert(spec_with_dir(full.take(0), path@, expanded, kids_spec) =~= Seq::<
            NodeModel,
        >::empty());
    }
    let mut out: Vec<TreeNode> = Vec::new();
    let mut i: usize = 0;
    while i < nodes.len()
        invariant
            0 <= i <= nodes@.len(),
            out@.len() == i,
            full == tree_models(*nodes),
            full.len() == nodes@.len(),
            forall|k: int| 0 <= k < nodes@.len() ==> #[trigger] full[k] == model_of_node(nodes@[k]),
            kids_spec == (match children {
                Some(cs) => Some(tree_models(*cs)),
                None => None,
            }),
            tree_models(out) =~= spec_with_dir(full.take(i as int), path@, expanded, kids_spec),
        decreases nodes@.len() - i,
    {
        let ghost pre_vec = out;
        proof {
            assert(full.take(i + 1).drop_last() =~= full.take(i as int));
            assert(full.take(i + 1)[i as int] == full[i as int]);
        }
        match &nodes[i] {
            TreeNode::File(p) => {
                out.push(TreeNode::File(clone_chars(p)));
            },
            TreeNode::Dir { path: own_path, expanded: was_expanded, children: own_children } => {
                if crate::text::eq_chars(own_path, path) {
                    let new_children = match children {
                        Some(cs) => clone_nodes(cs),
                        None => clone_nodes(own_children),
                    };
                    out.push(
                        TreeNode::Dir {
                            path: clone_chars(own_path),
                            expanded,
                            children: new_children,
                        },
                    );
                } else {
                    let rebuilt = with_dir_state(own_children, path, expanded, children);
                    out.push(
                        TreeNode::Dir {
                            path: clone_chars(own_path),
                            expanded: *was_expanded,
                            children: rebuilt,
                        },
                    );
                }
            },
        }
        proof {
            lemma_models_from(pre_vec, 0);
            lemma_models_from(out, 0);
            assert(forall|k: int|
                0 <= k < i ==> #[trigger] tree_models(out)[k] == tree_models(pre_vec)[k]);
            assert(tree_models(out)[i as int] == model_of_node(out@[i as int]));
            assert(tree_models(out) =~= spec_with_dir(
                full.take(i + 1),
                path@,
                expanded,
                kids_spec,
            ));
        }
        i = i + 1;
    }
    proof {
        assert(full.take(nodes@.len() as int) =~= full);
    }
    out
}

/// Rebuilds the tree without the node at `path`; nodes elsewhere are
/// kept.
pub fn without_node(nodes: &Vec<TreeNode>, path: &Vec<char>) -> (r: Vec<TreeNode>)
    ensures
        r@.len() <= nodes@.len(),
        tree_models(r) =~= spec_without(tree_models(*nodes), path@),
    decreases nodes,
{
    let ghost full = tree_models(*nodes);
    proof {
        lemma_models_from(*nodes, 0);
        assert(spec_without(full.take(0), path@) =~= Seq::<NodeModel>::empty());
    }
    let mut out: Vec<TreeNode> = Vec::new();
    let mut i: usize = 0;
    while i < nodes.len()
        invariant
            0 <= i <= nodes@.len(),
            out@.len() <= i,
            full == tree_models(*nodes),
            full.len() == nodes@.len(),
            forall|k: int| 0 <= k < nodes@.len() ==> #[trigger] full[k] == model_of_node(nodes@[k]),
            tree_models(out) =~= spec_without(full.take(i as int), path@),
        decreases nodes@.len() - i,
    {
        let ghost pre_vec = out;
        proof {
            assert(full.take(i + 1).drop_last() =~= full.take(i as int));
            assert(full.take(i + 1)[i as int] == full[i as int]);
        }
        match &nodes[i] {
            TreeNode::File(p) => {
                if !crate::text::eq_chars(p, path) {
                    out.push(TreeNode::File(clone_chars(p)));
                }
            },
            TreeNode::Dir { path: own_path, expanded, children } => {
                if !crate::text::eq_chars(own_path, path) {
                    let rebuilt = without_node(children, path);
                    out.push(
                        TreeNode::Dir {
                            path: clone_chars(own_path),
                            expanded: *expanded,
                            children: rebuilt,
                        },
                    );
                }
            },
        }
        proof {
            lemma_models_from(pre_vec, 0);
            lemma_models_from(out, 0);
            assert(forall|k: int|
                0 <= k < pre_vec@.len() ==> #[trigger] tree_models(out)[k] == tree_models(
                    pre_vec,
                )[k]);
            if out@.len() > pre_vec@.len() {
                assert(tree_models(out)[pre_vec@.len() as int] == model_of_node(
                    out@[pre_vec@.len() as int],
                ));
            }
            assert(tree_models(out) =~= spec_without(full.take(i + 1), path@));
        }
        i = i + 1;
    }
    proof {
        assert(full.take(nodes@.len() as int) =~= full);
    }
    out
}

/// A directory listing entry as the surrounding application reports
/// it: the entry's repository-relative path, whether it is a
/// directory, and its modification time.
pub struct DirEntry {
    pub path: Vec<char>,
    pub is_dir: bool,
    pub modified: i64,
}

/// Turns a directory listing into tree nodes, in the given order:
/// directories become collapsed nodes with no children loaded yet.
pub fn entries_to_nodes(entries: &Vec<DirEntry>) -> (r: Vec<TreeNode>)
    ensures
        r@.len() == entries@.len(),
        forall|k: int|
            0 <= k < entries@.len() && entries@[k].is_dir ==> (#[trigger] r@[k] matches
                TreeNode::Dir { path, expanded, children } && path@ == entries@[k].path@
                && !expanded && children@.len() == 0),
        forall|k: int|
            0 <= k < entries@.len() && !entries@[k].is_dir ==> (#[trigger] r@[k] matches
                TreeNode::File(p) && p@ == entries@[k].path@),
{
    let mut out: Vec<TreeNode> = Vec::new();
    let mut i: usize = 0;
    while i < entries.len()
        invariant
            0 <= i <= entries@.len(),
            out@.len() == i,
            forall|k: int|
                0 <= k < i && entries@[k].is_dir ==> (#[trigger] out@[k] matches
                    TreeNode::Dir { path, expanded, children } && path@ == entries@[k].path@
                    && !expanded && children@.len() == 0),
            forall|k: int|
                0 <= k < i && !entries@[k].is_dir ==> (#[trigger] out@[k] matches
                    TreeNode::File(p) && p@ == entries@[k].path@),
        decreases entries@.len() - i,
    {
        let e = &entries[i];
        if e.is_dir {
            let empty_children: Vec<TreeNode> = Vec::new();
            out.push(
                TreeNode::Dir {
                    path: clone_chars(&e.path),
                    expanded: false,
                    children: empty_children,
                },
            );
        } else {
            out.push(TreeNode::File(clone_chars(&e.path)));
        }
        i = i + 1;
    }
    out
}

/// A directory entry at the specification level.
pub struct EntryModel {
    pub path: Seq<char>,
    pub is_dir: bool,
    pub modified: int,
}

impl DirEntry {
    pub open spec fn model(&self) -> EntryModel {
        EntryModel { path: self.path@, is_dir: self.is_dir, modified: self.modified as int }
    }
}

/// The entries as models.
pub open spec fn entry_models(entries: Seq<DirEntry>) -> Seq<EntryModel> {
    Seq::new(entries.len(), |i: int| entries[i].model())
}

/// Lexicographic order on character sequences, by code point.
pub open spec fn lex_le(a: Seq<char>, b: Seq<char>) -> bool
    decreases a.len(),
{
    if a.len() == 0 {
        true
    } else if b.len() == 0 {
        false
    } else if a[0] != b[0] {
        (a[0] as u32) < (b[0] as u32)
    } else {
        lex_le(a.drop_first(), b.drop_first())
    }
}

/// The lexicographic order is total.
pub proof fn lemma_lex_total(a: Seq<char>, b: Seq<char>)
    ensures
        lex_le(a, b) || lex_le(b, a),
    decreases a.len(),
{
    if a.len() == 0 {
    } else if b.len() == 0 {
    } else if a[0] == b[0] {
        lemma_lex_total(a.drop_first(), b.drop_first());
    } else {
        vstd::utf8::char_u32_cast(a[0], a[0] as u32);
        vstd::utf8::char_u32_cast(b[0], b[0] as u32);
        assert((a[0] as u32) != (b[0] as u32));
        assert(lex_le(a, b) == ((a[0] as u32) < (b[0] as u32)));
        assert(lex_le(b, a) == ((b[0] as u32) < (a[0] as u32)));
    }
}

/// The tree ordering: directories before files; within a group, by
/// name or by modification time, rising or falling.
pub open spec fn entry_le(sort_by: SortBy, asc: bool, a: EntryModel, b: EntryModel) -> bool {
    if a.is_dir != b.is_dir {
        a.is_dir
    } else if sort_by == SortBy::Name {
        if asc {
            lex_le(a.path, b.path)
        } else {
            lex_le(b.path, a.path)
        }
    } else {
        if asc {
            a.modified <= b.modified
        } else {
            b.modified <= a.modified
        }
    }
}

/// The tree ordering is total.
pub proof fn lemma_entry_le_total(sort_by: SortBy, asc: bool, a: EntryModel, b: EntryModel)
    ensures
        entry_le(sort_by, asc, a, b) || entry_le(sort_by, asc, b, a),
{
    if a.is_dir == b.is_dir && sort_by == SortBy::Name {
        lemma_lex_total(a.path, b.path);
    }
}

/// Compares two lines lexicographically.
fn lex_le_of(a: &Vec<char>, b: &Vec<char>) -> (r: bool)
    ensures
        r == lex_le(a@, b@),
{
    let n = if a.len() < b.len() {
        a.len()
    } else {
        b.len()
    };
    proof {
        assert(a@.skip(0) =~= a@);
        assert(b@.skip(0) =~= b@);
    }
    let mut i: usize = 0;
    while i < n
        invariant
            0 <= i <= n,
            n == vstd::math::min(a@.len() as int, b@.len() as int),
            lex_le(a@, b@) == lex_le(a@.skip(i as int), b@.skip(i as int)),
            forall|k: int| 0 <= k < i ==> a@[k] == b@[k],
        decreases n - i,
    {
        let x = a[i];
        let y = b[i];
        if x != y {
            proof {
                assert(a@.skip(i as int).len() > 0 && b@.skip(i as int).len() > 0);
                assert(a@.skip(i as int)[0] == x && b@.skip(i as int)[0] == y);
                assert(lex_le(a@.skip(i as int), b@.skip(i as int)) == ((x as u32) < (y as u32)));
            }
            return (x as u32) < (y as u32);
        }
        proof {
            assert(a@.skip(i as int).drop_first() =~= a@.skip(i + 1));
            assert(b@.skip(i as int).drop_first() =~= b@.skip(i + 1));
            assert(a@.skip(i as int)[0] == a@[i as int] && b@.skip(i as int)[0] == b@[i as int]);
        }
        i = i + 1;
    }
    proof {
        if a@.len() <= b@.len() {
            assert(a@.skip(i as int).len() == 0);
        } else {
            assert(b@.skip(i as int).len() == 0 && a@.skip(i as int).len() > 0);
        }
    }
    a.len() <= b.len()
}

/// Compares two entries in the tree ordering.
fn entry_le_of(sort_by: SortBy, asc: bool, a: &DirEntry, b: &DirEntry) -> (r: bool)
    ensures
        r == entry_le(sort_by, asc, a.model(), b.model()),
{
    if a.is_dir != b.is_dir {
        a.is_dir
    } else if match sort_by {
        SortBy::Name => true,
        SortBy::Modified => false,
    } {
        if asc {
            lex_le_of(&a.path, &b.path)
        } else {
            lex_le_of(&b.path, &a.path)
        }
    } else {
        if asc {
            a.modified <= b.modified
        } else {
            b.modified <= a.modified
        }
    }
}

/// A sequence-level insert carries over to the multiset of elements.
proof fn lemma_insert_to_multiset(s: Seq<EntryModel>, j: int, x: EntryModel)
    requires
        0 <= j <= s.len(),
    ensures
        s.insert(j, x).to_multiset() =~= s.to_multiset().insert(x),
{
    broadcast use vstd::seq_lib::group_seq_properties;

    let t = s.insert(j, x);
    assert(t.remove(j) =~= s);
    assert(t[j] == x);
    assert(t.remove(j).to_multiset() =~= t.to_multiset().remove(x));
    assert(t.to_multiset().contains(x)) by {
        assert(t.contains(x));
    }
    assert forall|y: EntryModel| #[trigger] t.to_multiset().count(y) == s.to_multiset().insert(
        x,
    ).count(y) by {
        if y == x {
            assert(s.to_multiset().count(x) == t.to_multiset().remove(x).count(x));
        } else {
            assert(s.to_multiset().count(y) == t.to_multiset().remove(x).count(y));
        }
    }
}

/// Sorts a directory listing in the tree ordering: the result is a
/// reordering of the input (the same entries, as a multiset) whose
/// neighbours each stand in the ordering.  The sort is by insertion,
/// keeping the earlier of equal entries first.
pub fn sort_entries(entries: &Vec<DirEntry>, sort_by: SortBy, asc: bool) -> (r: Vec<DirEntry>)
    ensures
        r@.len() == entries@.len(),
        forall|i: int|
            0 <= i < r@.len() - 1 ==> entry_le(
                sort_by,
                asc,
                (#[trigger] r@[i]).model(),
                r@[i + 1].model(),
            ),
        entry_models(r@).to_multiset() =~= entry_models(entries@).to_multiset(),
{
    let mut out: Vec<DirEntry> = Vec::new();
    proof {
        assert(entry_models(out@) =~= Seq::<EntryModel>::empty());
        assert(entries@.take(0) =~= Seq::<DirEntry>::empty());
        assert(entry_models(entries@.take(0)) =~= Seq::<EntryModel>::empty());
    }
    let mut i: usize = 0;
    while i < entries.len()
        invariant
            0 <= i <= entries@.len(),
            out@.len() == i,
            forall|k: int|
                0 <= k < out@.len() - 1 ==> entry_le(
                    sort_by,
                    asc,
                    (#[trigger] out@[k]).model(),
                    out@[k + 1].model(),
                ),
            entry_models(out@).to_multiset() =~= entry_models(entries@.take(i as int)).to_multiset(),
        decreases entries@.len() - i,
    {
        let e = &entries[i];
        let item = DirEntry {
            path: clone_chars(&e.path),
            is_dir: e.is_dir,
            modified: e.modified,
        };
        proof {
            assert(item.model() == entries@[i as int].model());
        }
        let mut j: usize = 0;
        while j < out.len() && entry_le_of(sort_by, asc, &out[j], &item)
            invariant
                0 <= j <= out@.len(),
                i < entries@.len(),
                item.model() == entries@[i as int].model(),
                forall|k: int|
                    0 <= k < j ==> entry_le(sort_by, asc, (#[trigger] out@[k]).model(), item.model()),
            decreases out@.len() - j,
        {
            j = j + 1;
        }
        let ghost pre = out@;
        let ghost jj = j as int;
        proof {
            if jj < pre.len() {
                lemma_entry_le_total(sort_by, asc, pre[jj].model(), item.model());
            }
        }
        out.insert(j, item);
        proof {
            assert(out@ == pre.insert(jj, out@[jj]));
            assert forall|k: int|
                0 <= k < out@.len() - 1 implies entry_le(
                sort_by,
                asc,
                (#[trigger] out@[k]).model(),
                out@[k + 1].model(),
            ) by {
                if k < jj - 1 {
                    assert(out@[k] == pre[k] && out@[k + 1] == pre[k + 1]);
                } else if k == jj - 1 {
                    assert(out@[k] == pre[k]);
                } else if k == jj {
                    if k + 1 < out@.len() {
                        assert(out@[k + 1] == pre[k]);
                    }
                } else {
                    assert(out@[k] == pre[k - 1] && out@[k + 1] == pre[k]);
                }
            }
            assert(entry_models(out@) =~= entry_models(pre).insert(jj, out@[jj].model()));
            lemma_insert_to_multiset(entry_models(pre), jj, out@[jj].model());
            assert(entry_models(entries@.take(i + 1)) =~= entry_models(entries@.take(i as int)).push(
                entries@[i as int].model(),
            ));
            broadcast use vstd::seq_lib::group_seq_properties;

            assert(entry_models(entries@.take(i + 1)).to_multiset() =~= entry_models(
                entries@.take(i as int),
            ).to_multiset().insert(entries@[i as int].model()));
        }
        i = i + 1;
    }
    proof {
        assert(entries@.take(entries@.len() as int) =~= entries@);
    }
    out
}

/// Whether a directory entry belongs in the tree: hidden entries
/// (whose name starts with `.`) are left out, and files must carry
/// the note suffix; directories always qualify.
pub open spec fn spec_keep_entry(e: EntryModel) -> bool {
    let name = crate::wikilink::spec_basename(e.path);
    &&& !(name.len() > 0 && name[0] == '.')
    &&& (e.is_dir || crate::wikilink::ends_in_md(e.path))
}

/// The entries that belong in the tree, in order.
pub open spec fn spec_filtered_entries(es: Seq<EntryModel>) -> Seq<EntryModel>
    decreases es.len(),
{
    if es.len() == 0 {
        Seq::empty()
    } else {
        spec_filtered_entries(es.drop_last()) + (if spec_keep_entry(es.last()) {
            seq![es.last()]
        } else {
            Seq::empty()
        })
    }
}

/// Checks whether one entry belongs in the tree.
fn keep_entry(e: &DirEntry) -> (r: bool)
    ensures
        r == spec_keep_entry(e.model()),
{
    let mut slash: Vec<char> = Vec::new();
    slash.push('/');
    proof {
        assert(slash@ =~= seq!['/']);
    }
    let name_start = match crate::text::rfind_sub_before(&e.path, &slash, e.path.len()) {
        Some(i) => i + 1,
        None => 0,
    };
    proof {
        assert(crate::wikilink::spec_basename(e.path@) =~= e.path@.subrange(
            name_start as int,
            e.path@.len() as int,
        ));
    }
    if name_start < e.path.len() && e.path[name_start] == '.' {
        return false;
    }
    if e.is_dir {
        return true;
    }
    let n = e.path.len();
    let has_md = n >= 3 && e.path[n - 3] == '.' && e.path[n - 2] == 'm' && e.path[n - 1] == 'd';
    proof {
        if has_md {
            assert(e.path@.subrange(e.path@.len() - 3, e.path@.len() as int) =~= seq![
                '.',
                'm',
                'd',
            ]);
        } else {
            if e.path@.len() >= 3 {
                assert(e.path@.subrange(e.path@.len() - 3, e.path@.len() as int) != seq![
                    '.',
                    'm',
                    'd',
                ]) by {
                    let t = e.path@.subrange(e.path@.len() - 3, e.path@.len() as int);
                    assert(t[0] == e.path@[e.path@.len() - 3]);
                    assert(t[1] == e.path@[e.path@.len() - 2]);
                    assert(t[2] == e.path@[e.path@.len() - 1]);
                }
            }
        }
    }
    has_md
}

/// Keeps the entries that belong in the tree: hidden entries and
/// non-note files are dropped, directories and notes stay, in order.
pub fn filter_entries(entries: &Vec<DirEntry>) -> (r: Vec<DirEntry>)
    ensures
        entry_models(r@) =~= spec_filtered_entries(entry_models(entries@)),
{
    let mut out: Vec<DirEntry> = Vec::new();
    proof {
        assert(entry_models(out@) =~= Seq::<EntryModel>::empty());
        assert(entry_models(entries@).take(0) =~= Seq::<EntryModel>::empty());
        assert(spec_filtered_entries(entry_models(entries@).take(0)) =~= Seq::<
            EntryModel,
        >::empty());
    }
    let mut i: usize = 0;
    while i < entries.len()
        invariant
            0 <= i <= entries@.len(),
            entry_models(out@) =~= spec_filtered_entries(entry_models(entries@).take(i as int)),
        decreases entries@.len() - i,
    {
        let e = &entries[i];
        proof {
            assert(entry_models(entries@).take(i + 1).drop_last() =~= entry_models(
                entries@,
            ).take(i as int));
            assert(entry_models(entries@).take(i + 1).last() == entries@[i as int].model());
        }
        if keep_entry(e) {
            let kept = DirEntry {
                path: clone_chars(&e.path),
                is_dir: e.is_dir,
                modified: e.modified,
            };
            proof {
                assert(kept.model() == entries@[i as int].model());
            }
            out.push(kept);
            proof {
                assert(entry_models(out@) =~= spec_filtered_entries(
                    entry_models(entries@).take(i + 1),
                ));
            }
        } else {
            proof {
                assert(entry_models(out@) =~= spec_filtered_entries(
                    entry_models(entries@).take(i + 1),
                ));
            }
        }
        i = i + 1;
    }
    proof {
        assert(entry_models(entries@).take(entries@.len() as int) =~= entry_models(entries@));
    }
    out
}

} // verus!
