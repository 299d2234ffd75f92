//! The path resolver: walks a slash-delimited key through a value tree and
//! returns the sub-node at that path, or an error naming the exact prefix of
//! the key that was consumed when the walk diverged.

use vstd::prelude::*;
use vstd::string::*;
use crate::value::{lookup_entry, ValueNode};

verus! {

/// Length of the first slash-delimited segment of `s`: the number of
/// characters before the first `/`, or all of `s` when it has none.
pub open spec fn seg_len(s: Seq<char>) -> int
    decreases s.len(),
{
    if s.len() == 0 {
        0
    } else if s[0] == '/' {
        0
    } else {
        1 + seg_len(s.drop_first())
    }
}

pub proof fn lemma_seg_len_bounds(s: Seq<char>)
    ensures
        0 <= seg_len(s) <= s.len(),
    decreases s.len(),
{
    if s.len() > 0 && s[0] != '/' {
        lemma_seg_len_bounds(s.drop_first());
    }
}

proof fn lemma_seg_len_at(s: Seq<char>, k: int)
    requires
        0 <= k <= s.len(),
        forall|j: int| 0 <= j < k ==> s[j] != '/',
        k == s.len() || s[k] == '/',
    ensures
        seg_len(s) == k,
    decreases k,
{
    if k == 0 {
    } else {
        assert(s[0] != '/');
        lemma_seg_len_at(s.drop_first(), k - 1);
    }
}

/// What resolving a key against a tree yields: the node at the path, or the
/// exact prefix of the key consumed when the walk failed.
pub enum PathOutcome {
    /// The node the full key leads to.
    Found(ValueNode),
    /// No member with the segment's name; carries the consumed prefix, the
    /// failing segment included.
    NotFound(Seq<char>),
    /// An intermediate node is not an object; carries the prefix consumed
    /// before the failing segment.
    NotAnObject(Seq<char>),
}

/// Resolution of the segments of `key` starting at `pos` against `node`,
/// where `key[..pos]` has already been consumed.
pub open spec fn resolve_from(node: ValueNode, key: Seq<char>, pos: int) -> PathOutcome
    decreases key.len() - pos,
    when 0 <= pos <= key.len()
    via resolve_from_decreases
{
    let sl = seg_len(key.subrange(pos, key.len() as int));
    let seg = key.subrange(pos, pos + sl);
    let segend = pos + sl;
    if !(node matches ValueNode::Object(_)) {
        PathOutcome::NotAnObject(key.subrange(0, if pos == 0 { 0int } else { pos - 1 }))
    } else {
        match lookup_entry(node->Object_0@, seg) {
            Option::None => PathOutcome::NotFound(key.subrange(0, segend)),
            Option::Some(child) => if segend == key.len() {
                PathOutcome::Found(child)
            } else {
                resolve_from(child, key, segend + 1)
            },
        }
    }
}

#[via_fn]
proof fn resolve_from_decreases(node: ValueNode, key: Seq<char>, pos: int) {
    lemma_seg_len_bounds(key.subrange(pos, key.len() as int));
}

/// Resolution of a whole key: the empty key names the root itself.
pub open spec fn resolve_spec(root: ValueNode, key: Seq<char>) -> PathOutcome {
    if key.len() == 0 {
        PathOutcome::Found(root)
    } else {
        resolve_from(root, key, 0)
    }
}

/// The message reporting a missing member, naming the consumed prefix.
pub open spec fn not_found_msg(prefix: Seq<char>) -> Seq<char> {
    "Key \""@ + prefix + "\" not found."@
}

/// The message reporting a non-object intermediate node, naming the
/// consumed prefix.
pub open spec fn not_object_msg(prefix: Seq<char>) -> Seq<char> {
    "Key \""@ + prefix + "\" is not an object."@
}

/// End of the segment of `s` that starts at `pos`: the index of the next
/// `/`, or the end of `s`.
fn seg_end(s: &str, pos: usize) -> (end: usize)
    requires
        pos <= s@.len(),
    ensures
        pos <= end <= s@.len(),
        seg_len(s@.subrange(pos as int, s@.len() as int)) == end - pos,
        end < s@.len() ==> s@[end as int] == '/',
    decreases s@.len() - pos,
{
    let len: usize = s.unicode_len();
    let mut end: usize = pos;
    while end < len
        invariant
            pos <= end <= len,
            len == s@.len(),
            forall|j: int| pos <= j < end ==> s@[j] != '/',
        decreases len - end,
    {
        if s.get_char(end) == '/' {
            proof {
                lemma_seg_len_at(s@.subrange(pos as int, s@.len() as int), end - pos);
            }
            return end;
        }
        end = end + 1;
    }
    proof {
        lemma_seg_len_at(s@.subrange(pos as int, s@.len() as int), end - pos);
    }
    end
}

/// Builds the error message of [`PathOutcome::NotFound`].
fn make_not_found_msg(prefix: &str) -> (r: String)
    ensures
        r@ == not_found_msg(prefix@),
{
    let mut msg = String::from_str("Key \"");
    msg.append(prefix);
    msg.append("\" not found.");
    proof {
        assert(msg@ =~= not_found_msg(prefix@));
    }
    msg
}

/// Builds the error message of [`PathOutcome::NotAnObject`].
fn make_not_object_msg(prefix: &str) -> (r: String)
    ensures
        r@ == not_object_msg(prefix@),
{
    let mut msg = String::from_str("Key \"");
    msg.append(prefix);
    msg.append("\" is not an object.");
    proof {
        assert(msg@ =~= not_object_msg(prefix@));
    }
    msg
}

/// Walks `key`, split on `/`, from `root`: requires each intermediate node
/// to be an object holding the next segment, and returns the node the full
/// key leads to. The empty key resolves to `root` itself. On failure the
/// error names the exact prefix of the key that was consumed.
pub fn find_node_by_path<'root_lifetime>(
    root: &'root_lifetime ValueNode,
    key: &String,
) -> (r: Result<&'root_lifetime ValueNode, String>)
    ensures
        match resolve_spec(*root, key@) {
            PathOutcome::Found(v) => r matches Ok(p) && *p == v,
            PathOutcome::NotFound(pre) => r matches Err(m) && m@ == not_found_msg(pre),
            PathOutcome::NotAnObject(pre) => r matches Err(m) && m@ == not_object_msg(pre),
        },
{
    let klen: usize = key.as_str().unicode_len();
    if klen == 0 {
        return Ok(root);
    }
    let mut ret: &ValueNode = root;
    let mut pos: usize = 0;
    loop
        invariant
            0 <= pos <= klen,
            klen == key@.len(),
            klen > 0,
            resolve_spec(*root, key@) == resolve_from(*ret, key@, pos as int),
        decreases klen - pos,
    {
        let end: usize = seg_end(key.as_str(), pos);
        let ghost sl: int = end - pos;
        let ghost segend: int = end as int;
        if !ret.is_object() {
            let prefix_end: usize = if pos == 0 { 0 } else { pos - 1 };
            let prefix = key.as_str().substring_char(0, prefix_end);
            return Err(make_not_object_msg(prefix));
        }
        let seg = key.as_str().substring_char(pos, end);
        proof {
            assert(seg@ =~= key@.subrange(pos as int, pos as int + sl));
        }
        match ret.get_child(seg) {
            Option::Some(child) => {
                if end == klen {
                    return Ok(child);
                }
                ret = child;
                pos = end + 1;
            },
            Option::None => {
                let prefix = key.as_str().substring_char(0, end);
                proof {
                    assert(prefix@ =~= key@.subrange(0, segend));
                }
                return Err(make_not_found_msg(prefix));
            },
        }
    }
}

} // verus!
