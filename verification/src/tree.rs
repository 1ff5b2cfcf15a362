//! Depth-bounded rendering of a directory snapshot as an indented,
//! connector-prefixed tree, entries sorted by name at every level.

use vstd::prelude::*;
use vstd::string::StringExecFns;

use crate::text::{lex_le, push_char, str_le};

verus! {

/// The coarse kind of a directory entry, as the filesystem reports it.
/// `Unknown` stands for an entry whose type could not be read.
#[derive(Clone, Copy, Debug, PartialEq, Eq, Structural)]
pub enum EntryKind {
    Directory,
    File,
    Symlink,
    Unknown,
}

/// One entry of a directory snapshot. `children` holds the snapshot of
/// the subtree that the walk entered under this entry, and stays empty
/// for entries it did not enter. `name_decoded` says whether the entry's
/// real name decoded cleanly into `name`; an entry whose name did not
/// sorts as if its key were absent, in front of everything named.
pub struct TreeNode {
    pub name: String,
    pub name_decoded: bool,
    pub kind: EntryKind,
    pub children: Vec<TreeNode>,
}

/// Sort order of two entries: an undecoded name counts as an absent key
/// and comes first; decoded names compare lexicographically.
pub open spec fn node_le(x: TreeNode, y: TreeNode) -> bool {
    if !x.name_decoded {
        true
    } else if !y.name_decoded {
        false
    } else {
        lex_le(x.name@, y.name@)
    }
}

/// Inserts `x` in front of the first entry that does not sort before it.
pub open spec fn insert_by_name(x: TreeNode, s: Seq<TreeNode>) -> Seq<TreeNode>
    decreases s.len(),
{
    if s.len() == 0 {
        seq![x]
    } else if node_le(x, s[0]) {
        seq![x] + s
    } else {
        seq![s[0]] + insert_by_name(x, s.subrange(1, s.len() as int))
    }
}

/// The entries reordered by name, ascending.
pub open spec fn sort_by_name(s: Seq<TreeNode>) -> Seq<TreeNode>
    decreases s.len(),
{
    if s.len() == 0 {
        s
    } else {
        insert_by_name(s[0], sort_by_name(s.subrange(1, s.len() as int)))
    }
}

/// The glyph that ties an entry to its parent: the closing form for the
/// last entry of a level, the continuing form for every other.
pub open spec fn connector(is_last: bool) -> Seq<char> {
    if is_last {
        "└── "@
    } else {
        "├── "@
    }
}

/// What a level appends to the indentation prefix of its children.
pub open spec fn child_extension(is_last: bool) -> Seq<char> {
    if is_last {
        "    "@
    } else {
        "│   "@
    }
}

/// The marker put before an entry's name: directories are tagged, entries
/// of unreadable type flagged, everything else bare.
pub open spec fn kind_marker(kind: EntryKind) -> Seq<char> {
    match kind {
        EntryKind::Directory => "[DIR] "@,
        EntryKind::Unknown => "[?] "@,
        EntryKind::File => ""@,
        EntryKind::Symlink => ""@,
    }
}

/// The rendering of already sorted entries: one line per entry, then,
/// while `remaining` levels are left, the entry's children under an
/// extended prefix, then the following entries.
pub open spec fn spec_render_sorted(
    entries: Seq<TreeNode>,
    remaining: int,
    prefix: Seq<char>,
) -> Seq<char>
    decreases remaining, entries.len(),
{
    if entries.len() == 0 {
        Seq::empty()
    } else {
        let node = entries[0];
        let is_last = entries.len() == 1;
        let line = prefix + connector(is_last) + kind_marker(node.kind) + node.name@ + seq!['\n'];
        let below = if remaining > 0 {
            spec_render_sorted(
                sort_by_name(node.children@),
                remaining - 1,
                prefix + child_extension(is_last),
            )
        } else {
            Seq::empty()
        };
        line + below + spec_render_sorted(
            entries.subrange(1, entries.len() as int),
            remaining,
            prefix,
        )
    }
}

/// The full rendering of a directory snapshot, depth-bounded: level zero
/// is always rendered, and `max_depth` further levels below it.
pub open spec fn spec_render_tree(nodes: Seq<TreeNode>, max_depth: int) -> Seq<char> {
    spec_render_sorted(sort_by_name(nodes), max_depth, Seq::empty())
}

/// Inserting at the position the scan found is what `insert_by_name`
/// does.
proof fn lemma_insert_at(x: TreeNode, s: Seq<TreeNode>, p: int)
    requires
        0 <= p <= s.len(),
        forall|m: int| 0 <= m < p ==> !node_le(x, #[trigger] s[m]),
        p < s.len() ==> node_le(x, s[p]),
    ensures
        insert_by_name(x, s) == s.insert(p, x),
    decreases s.len(),
{
    if s.len() == 0 {
        assert(insert_by_name(x, s) =~= s.insert(0, x));
    } else if p == 0 {
        assert(insert_by_name(x, s) =~= s.insert(0, x));
    } else {
        let rest = s.subrange(1, s.len() as int);
        assert forall|m: int| 0 <= m < p - 1 implies !node_le(x, #[trigger] rest[m]) by {
            assert(rest[m] == s[m + 1]);
        }
        lemma_insert_at(x, rest, p - 1);
        assert(seq![s[0]] + rest.insert(p - 1, x) =~= s.insert(p, x));
    }
}

/// Sort order of two entries, as `node_le` defines it.
fn node_le_exec(x: &TreeNode, y: &TreeNode) -> (r: bool)
    ensures
        r == node_le(*x, *y),
{
    if !x.name_decoded {
        true
    } else if !y.name_decoded {
        false
    } else {
        str_le(x.name.as_str(), y.name.as_str())
    }
}

/// The order in which the entries must be listed: indices into `nodes`,
/// arranged so that the names come out ascending.
fn sorted_indices(nodes: &Vec<TreeNode>) -> (order: Vec<usize>)
    ensures
        order@.len() == nodes@.len(),
        forall|j: int| 0 <= j < order@.len() ==> #[trigger] order@[j] < nodes@.len(),
        order@.map_values(|u: usize| nodes@[u as int]) == sort_by_name(nodes@),
{
    let len = nodes.len();
    let mut order: Vec<usize> = Vec::new();
    let mut k = len;
    proof {
        assert(order@.map_values(|u: usize| nodes@[u as int]) =~= sort_by_name(
            nodes@.subrange(len as int, len as int),
        ));
    }
    while k > 0
        invariant
            len == nodes@.len(),
            k <= len,
            order@.len() == len - k,
            forall|j: int| 0 <= j < order@.len() ==> #[trigger] order@[j] < len,
            order@.map_values(|u: usize| nodes@[u as int]) == sort_by_name(
                nodes@.subrange(k as int, len as int),
            ),
        decreases k,
    {
        k -= 1;
        let ghost mapped = order@.map_values(|u: usize| nodes@[u as int]);
        let mut p: usize = 0;
        loop
            invariant
                len == nodes@.len(),
                k < len,
                order@.len() == len - k - 1,
                forall|j: int| 0 <= j < order@.len() ==> #[trigger] order@[j] < len,
                mapped == order@.map_values(|u: usize| nodes@[u as int]),
                p <= order@.len(),
                forall|m: int| 0 <= m < p ==> !node_le(nodes@[k as int], #[trigger] mapped[m]),
            ensures
                p <= order@.len(),
                forall|m: int| 0 <= m < p ==> !node_le(nodes@[k as int], #[trigger] mapped[m]),
                p < order@.len() ==> node_le(nodes@[k as int], mapped[p as int]),
            decreases order@.len() - p,
        {
            if p == order.len() {
                break ;
            }
            let candidate = order[p];
            if node_le_exec(&nodes[k], &nodes[candidate]) {
                proof {
                    assert(mapped[p as int] == nodes@[candidate as int]);
                }
                break ;
            }
            proof {
                assert(mapped[p as int] == nodes@[order@[p as int] as int]);
            }
            p += 1;
        }
        order.insert(p, k);
        proof {
            lemma_insert_at(nodes@[k as int], mapped, p as int);
            assert(order@.map_values(|u: usize| nodes@[u as int]) =~= mapped.insert(
                p as int,
                nodes@[k as int],
            ));
            let tail = nodes@.subrange(k as int, len as int);
            assert(tail[0] == nodes@[k as int]);
            assert(tail.subrange(1, tail.len() as int) =~= nodes@.subrange(k + 1, len as int));
        }
    }
    proof {
        assert(nodes@.subrange(0, len as int) =~= nodes@);
    }
    order
}

/// Renders the (unsorted) entries of one level and everything below them,
/// appending to `out`.
fn render_into(nodes: &Vec<TreeNode>, remaining: u32, prefix: &String, out: &mut String)
    ensures
        final(out)@ == old(out)@ + spec_render_sorted(
            sort_by_name(nodes@),
            remaining as int,
            prefix@,
        ),
    decreases remaining,
{
    let order = sorted_indices(nodes);
    let ghost sorted = sort_by_name(nodes@);
    let count = order.len();
    let mut idx: usize = 0;
    proof {
        assert(sorted.subrange(0, count as int) =~= sorted);
    }
    while idx < count
        invariant
            count == sorted.len(),
            idx <= count,
            order@.len() == count,
            forall|j: int| 0 <= j < count ==> #[trigger] order@[j] < nodes@.len(),
            order@.map_values(|u: usize| nodes@[u as int]) == sorted,
            sorted == sort_by_name(nodes@),
            out@ + spec_render_sorted(sorted.subrange(idx as int, count as int), remaining as int, prefix@)
                == old(out)@ + spec_render_sorted(sorted, remaining as int, prefix@),
        decreases count - idx,
    {
        let ghost out_entry = out@;
        let ghost tail = sorted.subrange(idx as int, count as int);
        let i = order[idx];
        let node = &nodes[i];
        proof {
            let ghost oi = order@[idx as int] as int;
            assert(order@.map_values(|u: usize| nodes@[u as int])[idx as int] == nodes@[oi]);
            assert(*node == sorted[idx as int]);
            assert(tail[0] == sorted[idx as int]);
        }
        let is_last = idx == count - 1;
        out.append(prefix.as_str());
        out.append(if is_last { "└── " } else { "├── " });
        out.append(
            match node.kind {
                EntryKind::Directory => "[DIR] ",
                EntryKind::Unknown => "[?] ",
                EntryKind::File => "",
                EntryKind::Symlink => "",
            },
        );
        out.append(node.name.as_str());
        push_char(out, '\n');
        let ghost line = prefix@ + connector(is_last) + kind_marker(node.kind) + node.name@ + seq![
            '\n',
        ];
        proof {
            assert(out@ =~= out_entry + line);
        }
        let ghost below = if remaining as int > 0 {
            spec_render_sorted(
                sort_by_name(node.children@),
                remaining as int - 1,
                prefix@ + child_extension(is_last),
            )
        } else {
            Seq::<char>::empty()
        };
        if remaining > 0 {
            let child_prefix = prefix.clone().concat(if is_last { "    " } else { "│   " });
            proof {
                assert(child_prefix@ == prefix@ + child_extension(is_last));
            }
            render_into(&node.children, remaining - 1, &child_prefix, out);
        }
        proof {
            assert(out@ =~= out_entry + line + below);
            assert(tail.len() == count - idx);
            assert((tail.len() == 1) == is_last);
            assert(tail.subrange(1, tail.len() as int) =~= sorted.subrange(
                idx + 1,
                count as int,
            ));
            assert(spec_render_sorted(tail, remaining as int, prefix@) == line + below
                + spec_render_sorted(
                sorted.subrange(idx + 1, count as int),
                remaining as int,
                prefix@,
            ));
            assert(out@ + spec_render_sorted(
                sorted.subrange(idx + 1, count as int),
                remaining as int,
                prefix@,
            ) =~= out_entry + spec_render_sorted(tail, remaining as int, prefix@));
        }
        idx += 1;
    }
    proof {
        assert(sorted.subrange(count as int, count as int) =~= Seq::<TreeNode>::empty());
        assert(out@ + spec_render_sorted(Seq::<TreeNode>::empty(), remaining as int, prefix@)
            =~= out@);
    }
}

/// Renders a directory snapshot as an indented tree: entries sorted by
/// name at every level, one line per entry with its connector glyph and
/// kind marker, children indented below their parent, and levels beyond
/// `max_depth` left out.
pub fn render_tree(nodes: &Vec<TreeNode>, max_depth: u32) -> (r: String)
    ensures
        r@ == spec_render_tree(nodes@, max_depth as int),
{
    let mut out = String::new();
    let prefix = String::new();
    render_into(nodes, max_depth, &prefix, &mut out);
    out
}

} // verus!
