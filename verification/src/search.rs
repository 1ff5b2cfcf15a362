//! Recursive file-name search over a directory snapshot: collects the
//! paths of entries whose name contains a pattern, case-insensitively,
//! in traversal order (not sorted, unlike the tree renderer).

use vstd::prelude::*;
use vstd::string::StringExecFns;

use crate::text::{contains_substring, lower_of, push_char, spec_contains, to_lower};
use crate::tree::TreeNode;

verus! {

/// A path joined with an entry name: a separator goes between them unless
/// the directory part is empty or already ends with one.
pub open spec fn joined(dir: Seq<char>, name: Seq<char>) -> Seq<char> {
    if dir.len() == 0 {
        name
    } else if dir[dir.len() - 1] == '/' {
        dir + name
    } else {
        dir + seq!['/'] + name
    }
}

/// The paths found under `dir` among `nodes` and their subtrees, in
/// pre-order: an entry is recorded when its lower-cased name contains the
/// (already lower-cased) pattern, and its children are walked either way.
pub open spec fn spec_search_entries(
    dir: Seq<char>,
    nodes: Seq<TreeNode>,
    pat_low: Seq<char>,
) -> Seq<Seq<char>>
    decreases nodes,
{
    if nodes.len() == 0 {
        Seq::empty()
    } else {
        let node = nodes[0];
        let path = joined(dir, node.name@);
        let hit: Seq<Seq<char>> = if spec_contains(lower_of(node.name@), pat_low) {
            seq![path]
        } else {
            Seq::empty()
        };
        hit + spec_search_entries(path, node.children@, pat_low) + spec_search_entries(
            dir,
            nodes.subrange(1, nodes.len() as int),
            pat_low,
        )
    }
}

/// Joins a directory path and an entry name with a separator where one is
/// needed.
fn join_path(dir: &str, name: &str) -> (r: String)
    ensures
        r@ == joined(dir@, name@),
{
    let dlen = dir.unicode_len();
    if dlen == 0 {
        name.to_owned()
    } else if dir.get_char(dlen - 1) == '/' {
        dir.to_owned().concat(name)
    } else {
        let r = dir.to_owned().concat("/").concat(name);
        proof {
            reveal_strlit("/");
            assert("/"@ =~= seq!['/']);
            assert(r@ =~= joined(dir@, name@));
        }
        r
    }
}

/// Walks `nodes` under `dir`, appending every found path to `out`.
fn search_into(dir: &str, nodes: &Vec<TreeNode>, pat_low: &str, out: &mut Vec<String>)
    ensures
        final(out)@.map_values(|s: String| s@) == old(out)@.map_values(|s: String| s@)
            + spec_search_entries(dir@, nodes@, pat_low@),
    decreases nodes@,
{
    let len = nodes.len();
    let mut i: usize = 0;
    proof {
        assert(nodes@.subrange(0, len as int) =~= nodes@);
    }
    while i < len
        invariant
            len == nodes@.len(),
            i <= len,
            out@.map_values(|s: String| s@) + spec_search_entries(
                dir@,
                nodes@.subrange(i as int, len as int),
                pat_low@,
            ) == old(out)@.map_values(|s: String| s@) + spec_search_entries(
                dir@,
                nodes@,
                pat_low@,
            ),
        decreases len - i,
    {
        let ghost tail = nodes@.subrange(i as int, len as int);
        let ghost out_entry = out@.map_values(|s: String| s@);
        let node = &nodes[i];
        proof {
            assert(tail[0] == nodes@[i as int]);
            assert(tail.subrange(1, tail.len() as int) =~= nodes@.subrange(i + 1, len as int));
        }
        let path = join_path(dir, node.name.as_str());
        let name_low = to_lower(node.name.as_str());
        let ghost hit: Seq<Seq<char>> = if spec_contains(lower_of(node.name@), pat_low@) {
            seq![path@]
        } else {
            Seq::<Seq<char>>::empty()
        };
        if contains_substring(name_low.as_str(), pat_low) {
            let ghost prev = out@.map_values(|s: String| s@);
            let recorded = path.clone();
            out.push(recorded);
            proof {
                assert(out@.map_values(|s: String| s@) =~= prev.push(path@));
                assert(prev.push(path@) =~= prev + hit);
            }
        } else {
            proof {
                assert(out@.map_values(|s: String| s@) =~= out_entry + hit);
            }
        }
        proof {
            assert(decreases_to!(nodes@ => nodes@[i as int]));
        }
        search_into(path.as_str(), &node.children, pat_low, out);
        proof {
            assert(out@.map_values(|s: String| s@) =~= out_entry + hit + spec_search_entries(
                path@,
                nodes@[i as int].children@,
                pat_low@,
            ));
            assert(spec_search_entries(dir@, tail, pat_low@) == hit + spec_search_entries(
                path@,
                nodes@[i as int].children@,
                pat_low@,
            ) + spec_search_entries(dir@, nodes@.subrange(i + 1, len as int), pat_low@));
            assert(out@.map_values(|s: String| s@) + spec_search_entries(
                dir@,
                nodes@.subrange(i + 1, len as int),
                pat_low@,
            ) =~= out_entry + spec_search_entries(dir@, tail, pat_low@));
        }
        i += 1;
    }
    proof {
        assert(nodes@.subrange(len as int, len as int) =~= Seq::<TreeNode>::empty());
        assert(out@.map_values(|s: String| s@) + spec_search_entries(
            dir@,
            Seq::<TreeNode>::empty(),
            pat_low@,
        ) =~= out@.map_values(|s: String| s@));
    }
}

/// Collects, in traversal order, the full path of every entry of the
/// snapshot whose name contains `pattern` as a case-insensitive
/// substring; directories are searched further whether they match or not.
pub fn search_tree(root: &str, nodes: &Vec<TreeNode>, pattern: &str) -> (r: Vec<String>)
    ensures
        r@.map_values(|s: String| s@) == spec_search_entries(root@, nodes@, lower_of(pattern@)),
{
    let pat_low = to_lower(pattern);
    let mut out: Vec<String> = Vec::new();
    search_into(root, nodes, pat_low.as_str(), &mut out);
    proof {
        assert(Seq::<String>::empty().map_values(|s: String| s@) =~= Seq::<Seq<char>>::empty());
        assert(out@.map_values(|s: String| s@) =~= spec_search_entries(
            root@,
            nodes@,
            lower_of(pattern@),
        ));
    }
    out
}

/// The newline-joined form of found paths: the empty join is empty, one
/// path stands alone, and a newline goes between neighbours.
pub open spec fn spec_join_lines(s: Seq<Seq<char>>) -> Seq<char>
    decreases s.len(),
{
    if s.len() == 0 {
        Seq::empty()
    } else if s.len() == 1 {
        s[0]
    } else {
        s[0] + seq!['\n'] + spec_join_lines(s.subrange(1, s.len() as int))
    }
}

/// Appending one more line extends the join by a newline and the line.
proof fn lemma_join_lines_push(s: Seq<Seq<char>>, x: Seq<char>)
    requires
        s.len() >= 1,
    ensures
        spec_join_lines(s.push(x)) == spec_join_lines(s) + seq!['\n'] + x,
    decreases s.len(),
{
    if s.len() == 1 {
        assert(s.push(x)[0] == s[0]);
        assert(s.push(x).subrange(1, 2) =~= seq![x]);
        assert(spec_join_lines(seq![x]) == x);
    } else {
        let rest = s.subrange(1, s.len() as int);
        assert(s.push(x).subrange(1, s.push(x).len() as int) =~= rest.push(x));
        assert(s.push(x)[0] == s[0]);
        lemma_join_lines_push(rest, x);
        assert(s[0] + seq!['\n'] + (spec_join_lines(rest) + seq!['\n'] + x) =~= (s[0] + seq!['\n']
            + spec_join_lines(rest)) + seq!['\n'] + x);
    }
}

/// Turns the found paths into the search operation's success string: the
/// paths joined by newlines, or a message naming the pattern and the
/// searched path when nothing matched.
pub fn format_search_results(results: &Vec<String>, pattern: &str, path: &str) -> (r: String)
    ensures
        results@.len() == 0 ==> r@ == "No files matching pattern '"@ + pattern@ + "' found in '"@
            + path@ + "'"@,
        results@.len() > 0 ==> r@ == spec_join_lines(results@.map_values(|s: String| s@)),
{
    let len = results.len();
    if len == 0 {
        return "No files matching pattern '".to_owned().concat(pattern).concat(
            "' found in '",
        ).concat(path).concat("'");
    }
    let ghost views = results@.map_values(|s: String| s@);
    let mut out = results[0].clone();
    let mut i: usize = 1;
    proof {
        assert(views.subrange(0, 1) =~= seq![views[0]]);
        assert(spec_join_lines(seq![views[0]]) == views[0]);
    }
    while i < len
        invariant
            len == results@.len(),
            1 <= i <= len,
            views == results@.map_values(|s: String| s@),
            out@ == spec_join_lines(views.subrange(0, i as int)),
        decreases len - i,
    {
        let ghost done = views.subrange(0, i as int);
        push_char(&mut out, '\n');
        out.append(results[i].as_str());
        proof {
            lemma_join_lines_push(done, views[i as int]);
            assert(done.push(views[i as int]) =~= views.subrange(0, i + 1));
            assert(out@ =~= spec_join_lines(done) + seq!['\n'] + views[i as int]);
        }
        i += 1;
    }
    proof {
        assert(views.subrange(0, len as int) =~= views);
    }
    out
}

} // verus!
