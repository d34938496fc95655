//! The annotation column.
//!
//! An annotation tree names the fields that a schema found in the data. It is
//! laid out one node to the line, a node before its children and the children
//! in their order, each level indented by two columns more than its parent.

use vstd::prelude::*;
use crate::text::spaces;

verus! {

/// Columns by which the name of a node is shifted for each level of depth.
pub const INDENT_WIDTH: usize = 2;

/// One field or region of the interpreted data.
#[derive(Debug, PartialEq, Eq)]
pub struct AnnotationNode {
    /// The label of the field.
    pub name: String,
    /// The value of the field as text, where it has one.
    pub value: Option<String>,
    /// The fields inside this one, in their order.
    pub children: Vec<AnnotationNode>,
}

/// An annotation tree as a mathematical value.
pub struct Tree {
    pub name: Seq<char>,
    pub value: Option<Seq<char>>,
    pub children: Seq<Tree>,
}

/// The tree that `node` stands for.
pub open spec fn tree_of(node: AnnotationNode) -> Tree
    decreases node,
{
    Tree {
        name: node.name@,
        value: match node.value {
            Some(text) => Some(text@),
            None => None,
        },
        children: Seq::new(
            node.children.len() as nat,
            |i: int|
                if 0 <= i < node.children.len() {
                    tree_of(node.children[i])
                } else {
                    arbitrary()
                },
        ),
    }
}

impl View for AnnotationNode {
    type V = Tree;

    open spec fn view(&self) -> Tree {
        tree_of(*self)
    }
}

/// What follows the name on the line of a node: a colon, a space and the
/// value, or nothing where the node has no value.
pub open spec fn value_suffix(value: Option<Seq<char>>) -> Seq<char> {
    match value {
        Some(text) => seq![':', ' '] + text,
        None => Seq::empty(),
    }
}

/// The column at which the name of a node at `depth` starts.
pub open spec fn name_column(depth: nat) -> nat {
    INDENT_WIDTH as nat * depth
}

/// The line of one node at `depth`: the indentation, the name, the value.
pub open spec fn node_line(tree: Tree, depth: nat) -> Seq<char> {
    spaces(name_column(depth)) + tree.name + value_suffix(tree.value)
}

/// The lines of `tree` at `depth`: its own line, then the lines of its
/// children, one level deeper.
pub open spec fn flatten(tree: Tree, depth: nat) -> Seq<Seq<char>>
    decreases tree, tree.children.len() + 1,
{
    seq![node_line(tree, depth)] + flatten_children(tree, depth, tree.children.len())
}

/// The lines of the first `count` children of `tree`, which itself stands at
/// `depth`.
pub open spec fn flatten_children(tree: Tree, depth: nat, count: nat) -> Seq<Seq<char>>
    decreases tree, count,
{
    if count == 0 || count > tree.children.len() {
        Seq::empty()
    } else {
        flatten_children(tree, depth, (count - 1) as nat) + flatten(
            tree.children[count - 1],
            depth + 1,
        )
    }
}

/// Number of nodes in `tree`.
pub open spec fn node_count(tree: Tree) -> nat
    decreases tree, tree.children.len() + 1,
{
    1 + children_node_count(tree, tree.children.len())
}

/// Number of nodes in the first `count` children of `tree`.
pub open spec fn children_node_count(tree: Tree, count: nat) -> nat
    decreases tree, count,
{
    if count == 0 || count > tree.children.len() {
        0
    } else {
        children_node_count(tree, (count - 1) as nat) + node_count(tree.children[count - 1])
    }
}

/// The nodes of `tree` in pre-order, each with its depth.
pub open spec fn preorder(tree: Tree, depth: nat) -> Seq<(Tree, nat)>
    decreases tree, tree.children.len() + 1,
{
    seq![(tree, depth)] + preorder_children(tree, depth, tree.children.len())
}

/// The nodes of the first `count` children of `tree` in pre-order.
pub open spec fn preorder_children(tree: Tree, depth: nat, count: nat) -> Seq<(Tree, nat)>
    decreases tree, count,
{
    if count == 0 || count > tree.children.len() {
        Seq::empty()
    } else {
        preorder_children(tree, depth, (count - 1) as nat) + preorder(
            tree.children[count - 1],
            depth + 1,
        )
    }
}

/// The layout has exactly one line for each node, and the lines stand in
/// pre-order: line `k` is the line of the `k`-th node met when every node is
/// visited before its children and the children in their order.
pub proof fn lemma_flatten_preorder(tree: Tree, depth: nat)
    ensures
        flatten(tree, depth).len() == node_count(tree),
        preorder(tree, depth).len() == node_count(tree),
        flatten(tree, depth)[0] == node_line(tree, depth),
        forall|k: int|
            0 <= k < node_count(tree) ==> #[trigger] flatten(tree, depth)[k] == node_line(
                preorder(tree, depth)[k].0,
                preorder(tree, depth)[k].1,
            ),
    decreases tree, tree.children.len() + 1,
{
    lemma_flatten_children_preorder(tree, depth, tree.children.len());
}

/// The same, of the first `count` children of a node.
pub proof fn lemma_flatten_children_preorder(tree: Tree, depth: nat, count: nat)
    requires
        count <= tree.children.len(),
    ensures
        flatten_children(tree, depth, count).len() == children_node_count(tree, count),
        preorder_children(tree, depth, count).len() == children_node_count(tree, count),
        forall|k: int|
            0 <= k < children_node_count(tree, count) ==> #[trigger] flatten_children(
                tree,
                depth,
                count,
            )[k] == node_line(
                preorder_children(tree, depth, count)[k].0,
                preorder_children(tree, depth, count)[k].1,
            ),
    decreases tree, count,
{
    if count > 0 {
        lemma_flatten_children_preorder(tree, depth, (count - 1) as nat);
        lemma_flatten_preorder(tree.children[count - 1], depth + 1);
    }
}

/// On the line of a node at `depth` the name starts at column
/// `INDENT_WIDTH * depth`, after that many spaces; at depth 0 the line starts
/// with the name. The value, where there is one, follows the name after a
/// colon and a space.
pub proof fn lemma_node_line_layout(tree: Tree, depth: nat)
    ensures
        name_column(depth) == 2 * depth,
        node_line(tree, depth).len() == name_column(depth) + tree.name.len() + value_suffix(
            tree.value,
        ).len(),
        node_line(tree, depth).subrange(0, name_column(depth) as int) == spaces(
            name_column(depth),
        ),
        node_line(tree, depth).subrange(
            name_column(depth) as int,
            (name_column(depth) + tree.name.len()) as int,
        ) == tree.name,
        node_line(tree, depth).subrange(
            (name_column(depth) + tree.name.len()) as int,
            node_line(tree, depth).len() as int,
        ) == value_suffix(tree.value),
        depth == 0 ==> node_line(tree, depth) == tree.name + value_suffix(tree.value),
        tree.value is None ==> node_line(tree, depth) == spaces(name_column(depth)) + tree.name,
        tree.value matches Some(text) ==> node_line(tree, depth) == spaces(name_column(depth))
            + tree.name + seq![':', ' '] + text,
{
}

/// Appends the indentation of one level to `text`.
fn push_indent(text: &mut String)
    ensures
        final(text)@ == old(text)@ + spaces(INDENT_WIDTH as nat),
{
    let mut pushed: usize = 0;
    while pushed < INDENT_WIDTH
        invariant
            pushed <= INDENT_WIDTH,
            text@ == old(text)@ + spaces(pushed as nat),
        decreases INDENT_WIDTH - pushed,
    {
        text.push(' ');
        pushed = pushed + 1;
    }
}

/// Appends the lines of `node` to `lines`, with `indent` as the indentation
/// of the node itself.
fn flatten_into(
    node: &AnnotationNode,
    lines: &mut Vec<String>,
    indent: &str,
    Ghost(depth): Ghost<nat>,
)
    requires
        indent@ == spaces(name_column(depth)),
    ensures
        final(lines).deep_view() == old(lines).deep_view() + flatten(node@, depth),
    decreases node,
{
    let mut line = indent.to_owned();
    line.append(node.name.as_str());
    match &node.value {
        Some(text) => {
            proof {
                reveal_strlit(": ");
            }
            line.append(": ");
            line.append(text.as_str());
        },
        None => {},
    }
    assert(line@ =~= node_line(node@, depth));
    lines.push(line);

    let mut deeper = indent.to_owned();
    push_indent(&mut deeper);
    let mut i: usize = 0;
    while i < node.children.len()
        invariant
            i <= node.children.len(),
            deeper@ == spaces(name_column(depth + 1)),
            lines.deep_view() == old(lines).deep_view() + seq![node_line(node@, depth)]
                + flatten_children(node@, depth, i as nat),
        decreases node.children.len() - i,
    {
        flatten_into(&node.children[i], lines, deeper.as_str(), Ghost(depth + 1));
        i = i + 1;
    }
}

/// Appends the lines of `nugget` to `lines`, the node itself at depth
/// `level` and every child one level deeper than its parent.
pub fn build_nugget_buffer_recursive(nugget: &AnnotationNode, lines: &mut Vec<String>, level: usize)
    ensures
        final(lines).deep_view() == old(lines).deep_view() + flatten(nugget@, level as nat),
{
    let mut indent = String::new();
    let mut done: usize = 0;
    while done < level
        invariant
            done <= level,
            indent@ == spaces(name_column(done as nat)),
        decreases level - done,
    {
        push_indent(&mut indent);
        done = done + 1;
    }
    flatten_into(nugget, lines, indent.as_str(), Ghost(level as nat));
}

/// Lays the tree under `nugget` out as lines: one line for each node, in
/// pre-order, the root without indentation.
pub fn build_nugget_buffer(nugget: &AnnotationNode) -> (lines: Vec<String>)
    ensures
        lines.deep_view() == flatten(nugget@, 0),
{
    let mut lines: Vec<String> = Vec::new();
    build_nugget_buffer_recursive(nugget, &mut lines, 0);
    lines
}

} // verus!
