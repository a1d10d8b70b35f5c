//! Paths as text.
//!
//! A path is a sequence of characters in which `/` separates the segments.
//! Everything here is computed on the text alone; nothing looks at a
//! filesystem.

use vstd::prelude::*;
use vstd::relations::{sorted_by, total_ordering};
use vstd::seq_lib::lemma_sorted_unique;

verus! {

/// The characters of `text`, in order.
pub fn chars_of(text: &str) -> (chars: Vec<char>)
    ensures
        chars@ == text@,
{
    let mut chars: Vec<char> = Vec::new();
    for c in iter: text.chars()
        invariant
            chars@ == iter.seq().take(iter.index() as int),
            iter.seq() == text@,
    {
        chars.push(c);
    }
    chars
}

/// A path is relative unless it starts at the root.
pub open spec fn relative(path: Seq<char>) -> bool {
    path.len() == 0 || path[0] != '/'
}

/// `path` placed under `base`: an absolute `path` stands for itself, and a
/// separator is added only where `base` does not already end in one.
pub open spec fn joined(base: Seq<char>, path: Seq<char>) -> Seq<char> {
    if !relative(path) || base.len() == 0 {
        path
    } else if base.last() == '/' {
        base + path
    } else {
        base + seq!['/'] + path
    }
}

/// What follows the last separator of `path`; the whole of `path` where it
/// has none.
pub open spec fn final_segment(path: Seq<char>) -> Seq<char>
    decreases path.len(),
{
    if path.len() == 0 || path.last() == '/' {
        Seq::empty()
    } else {
        final_segment(path.drop_last()).push(path.last())
    }
}

/// The name by which `path` appears in its parent directory: its final
/// segment, unless that is empty, `.` or `..`.
pub open spec fn file_name_of(path: Seq<char>) -> Option<Seq<char>> {
    let name = final_segment(path);
    if name.len() == 0 || name == seq!['.'] || name == seq!['.', '.'] {
        None
    } else {
        Some(name)
    }
}

/// The characters that make a path argument a pattern.
pub open spec fn glob_char(c: char) -> bool {
    c == '*' || c == '?' || c == '['
}

/// Whether `path` holds a pattern character anywhere.
pub open spec fn has_glob_chars(path: Seq<char>) -> bool {
    exists|i: int| 0 <= i < path.len() && glob_char(#[trigger] path[i])
}

/// Where a character sorts: the separator before every other character, the
/// others by code point.
pub open spec fn rank(c: char) -> int {
    if c == '/' {
        0
    } else {
        c as int + 1
    }
}

/// The order in which paths are listed: segment by segment, so that a
/// directory's own path comes before everything beneath it and before any
/// sibling whose name merely starts with the directory's name.
pub open spec fn path_le(a: Seq<char>, b: Seq<char>) -> bool
    decreases a.len(),
{
    if a.len() == 0 {
        true
    } else if b.len() == 0 {
        false
    } else if rank(a[0]) != rank(b[0]) {
        rank(a[0]) < rank(b[0])
    } else {
        path_le(a.drop_first(), b.drop_first())
    }
}

/// `path_le` as a relation.
pub open spec fn path_order() -> spec_fn(Seq<char>, Seq<char>) -> bool {
    |a: Seq<char>, b: Seq<char>| path_le(a, b)
}

/// The texts of a list of strings.
pub open spec fn texts(strings: Seq<String>) -> Seq<Seq<char>> {
    strings.map_values(|s: String| s@)
}

proof fn lemma_rank_injective(x: char, y: char)
    requires
        rank(x) == rank(y),
    ensures
        x == y,
{
    assert(x as u32 == y as u32);
    assert(x as u32 as char == x);
    assert(y as u32 as char == y);
}

proof fn lemma_path_le_reflexive(a: Seq<char>)
    ensures
        path_le(a, a),
    decreases a.len(),
{
    if a.len() > 0 {
        lemma_path_le_reflexive(a.drop_first());
    }
}

proof fn lemma_path_le_antisymmetric(a: Seq<char>, b: Seq<char>)
    requires
        path_le(a, b),
        path_le(b, a),
    ensures
        a == b,
    decreases a.len(),
{
    if a.len() == 0 || b.len() == 0 {
        assert(a =~= b);
    } else {
        lemma_path_le_antisymmetric(a.drop_first(), b.drop_first());
        lemma_rank_injective(a[0], b[0]);
        assert(a =~= seq![a[0]] + a.drop_first());
        assert(b =~= seq![b[0]] + b.drop_first());
    }
}

proof fn lemma_path_le_transitive(a: Seq<char>, b: Seq<char>, c: Seq<char>)
    requires
        path_le(a, b),
        path_le(b, c),
    ensures
        path_le(a, c),
    decreases a.len(),
{
    if a.len() > 0 && b.len() > 0 && c.len() > 0 {
        if rank(a[0]) == rank(b[0]) && rank(b[0]) == rank(c[0]) {
            lemma_path_le_transitive(a.drop_first(), b.drop_first(), c.drop_first());
        }
    }
}

proof fn lemma_path_le_connected(a: Seq<char>, b: Seq<char>)
    ensures
        path_le(a, b) || path_le(b, a),
    decreases a.len(),
{
    if a.len() > 0 && b.len() > 0 {
        lemma_path_le_connected(a.drop_first(), b.drop_first());
    }
}

/// The listing order is a total order on paths.
pub proof fn lemma_path_order_total()
    ensures
        total_ordering(path_order()),
{
    let r = path_order();
    assert forall|x: Seq<char>| #[trigger] r(x, x) by {
        lemma_path_le_reflexive(x);
    }
    assert forall|x: Seq<char>, y: Seq<char>| #[trigger] r(x, y) && #[trigger] r(y, x) implies x
        == y by {
        lemma_path_le_antisymmetric(x, y);
    }
    assert forall|x: Seq<char>, y: Seq<char>, z: Seq<char>| #[trigger]
        r(x, y) && #[trigger] r(y, z) implies r(x, z) by {
        lemma_path_le_transitive(x, y, z);
    }
    assert forall|x: Seq<char>, y: Seq<char>| #[trigger] r(x, y) || #[trigger] r(y, x) by {
        lemma_path_le_connected(x, y);
    }
}

/// Whether `path` is relative.
pub fn is_relative(path: &str) -> (answer: bool)
    ensures
        answer == relative(path@),
{
    let n: usize = path.unicode_len();
    n == 0 || path.get_char(0) != '/'
}

/// `path` placed under `base`.
pub fn join(base: &str, path: &str) -> (whole: String)
    ensures
        whole@ == joined(base@, path@),
{
    let n: usize = base.unicode_len();
    if !is_relative(path) || n == 0 {
        path.to_owned()
    } else {
        let mut whole: String = base.to_owned();
        if base.get_char(n - 1) != '/' {
            proof {
                reveal_strlit("/");
            }
            whole.append("/");
            assert("/"@ =~= seq!['/']);
        }
        whole.append(path);
        whole
    }
}

/// The name by which `path` appears in its parent directory, if it has one.
pub fn file_name(path: &str) -> (name: Option<String>)
    ensures
        match name {
            Some(text) => file_name_of(path@) == Some(text@),
            None => file_name_of(path@) is None,
        },
{
    let chars: Vec<char> = chars_of(path);
    let n: usize = chars.len();
    let mut start: usize = n;
    proof {
        assert(path@.take(n as int) =~= path@);
        assert(final_segment(path@) + path@.skip(n as int) =~= final_segment(path@));
    }
    while start > 0 && chars[start - 1] != '/'
        invariant
            n == chars.len(),
            chars@ == path@,
            start <= n,
            final_segment(path@) == final_segment(path@.take(start as int)) + path@.skip(
                start as int,
            ),
        decreases start,
    {
        proof {
            let head = path@.take(start as int);
            assert(head.drop_last() == path@.take(start - 1));
            assert(head.last() == path@[start - 1]);
            assert(final_segment(head) == final_segment(path@.take(start - 1)).push(
                path@[start - 1],
            ));
            assert(final_segment(path@.take(start - 1)).push(path@[start - 1]) + path@.skip(
                start as int,
            ) =~= final_segment(path@.take(start - 1)) + path@.skip(start - 1));
        }
        start -= 1;
    }
    proof {
        let head = path@.take(start as int);
        assert(final_segment(head) =~= Seq::<char>::empty()) by {
            if start > 0 {
                assert(head.last() == path@[start - 1]);
            }
        }
        assert(final_segment(path@) =~= path@.skip(start as int));
        assert(path@.skip(start as int) =~= path@.subrange(start as int, n as int));
    }
    let len: usize = n - start;
    if len == 0 {
        None
    } else if len == 1 && chars[start] == '.' {
        assert(final_segment(path@) =~= seq!['.']);
        None
    } else if len == 2 && chars[start] == '.' && chars[start + 1] == '.' {
        assert(final_segment(path@) =~= seq!['.', '.']);
        None
    } else {
        proof {
            let name = final_segment(path@);
            if name == seq!['.'] {
                assert(name.len() == 1 && name[0] == '.');
            }
            if name == seq!['.', '.'] {
                assert(name.len() == 2 && name[0] == '.' && name[1] == '.');
            }
        }
        Some(path.substring_char(start, n).to_owned())
    }
}

/// Whether `path` is a pattern rather than a plain path.
pub fn is_glob_pattern(path: &str) -> (answer: bool)
    ensures
        answer == has_glob_chars(path@),
{
    let chars: Vec<char> = chars_of(path);
    let mut i: usize = 0;
    while i < chars.len()
        invariant
            chars@ == path@,
            i <= chars.len(),
            forall|j: int| 0 <= j < i ==> !glob_char(#[trigger] path@[j]),
        decreases chars.len() - i,
    {
        let c: char = chars[i];
        if c == '*' || c == '?' || c == '[' {
            return true;
        }
        i += 1;
    }
    false
}

/// Whether one of two different characters sorts before the other.
fn sorts_before(x: char, y: char) -> (answer: bool)
    requires
        x != y,
    ensures
        answer == (rank(x) < rank(y)),
        rank(x) != rank(y),
{
    proof {
        if rank(x) == rank(y) {
            lemma_rank_injective(x, y);
        }
    }
    if x == '/' {
        true
    } else if y == '/' {
        false
    } else {
        x < y
    }
}

/// Whether `a` comes no later than `b` in the listing order.
pub fn path_precedes(a: &str, b: &str) -> (answer: bool)
    ensures
        answer == path_le(a@, b@),
{
    let left: Vec<char> = chars_of(a);
    let right: Vec<char> = chars_of(b);
    let mut i: usize = 0;
    proof {
        assert(a@.skip(0) =~= a@);
        assert(b@.skip(0) =~= b@);
    }
    loop
        invariant
            left@ == a@,
            right@ == b@,
            i <= left.len(),
            i <= right.len(),
            path_le(a@, b@) == path_le(a@.skip(i as int), b@.skip(i as int)),
        decreases left.len() - i,
    {
        if i >= left.len() {
            return true;
        }
        if i >= right.len() {
            return false;
        }
        let x: char = left[i];
        let y: char = right[i];
        proof {
            assert(a@.skip(i as int)[0] == x);
            assert(b@.skip(i as int)[0] == y);
            assert(a@.skip(i as int).drop_first() =~= a@.skip(i + 1));
            assert(b@.skip(i as int).drop_first() =~= b@.skip(i + 1));
        }
        if x != y {
            return sorts_before(x, y);
        }
        i += 1;
    }
}

/// The paths in listing order.
pub fn sort_paths(paths: &Vec<String>) -> (sorted: Vec<String>)
    ensures
        texts(sorted@) == texts(paths@).sort_by(path_order()),
{
    let mut sorted: Vec<String> = Vec::new();
    let mut i: usize = 0;
    proof {
        lemma_path_order_total();
        assert(texts(paths@).take(0) =~= texts(sorted@));
    }
    while i < paths.len()
        invariant
            i <= paths.len(),
            total_ordering(path_order()),
            sorted_by(texts(sorted@), path_order()),
            texts(sorted@).to_multiset() == texts(paths@).take(i as int).to_multiset(),
        decreases paths.len() - i,
    {
        let item: String = paths[i].clone();
        let mut k: usize = sorted.len();
        while k > 0 && !path_precedes(sorted[k - 1].as_str(), item.as_str())
            invariant
                k <= sorted.len(),
                forall|j: int| k <= j < sorted.len() ==> !path_le(#[trigger] sorted@[j]@, item@),
            decreases k,
        {
            k -= 1;
        }
        let ghost before = sorted@;
        sorted.insert(k, item);
        proof {
            let order = path_order();
            let old_texts = texts(before);
            let new_texts = texts(sorted@);
            assert(new_texts =~= old_texts.insert(k as int, item@));
            assert forall|x: int, y: int| 0 <= x < y < new_texts.len() implies #[trigger] order(
                new_texts[x],
                new_texts[y],
            ) by {
                if y == k {
                    assert(order(old_texts[k - 1], item@));
                    if x < k - 1 {
                        assert(order(old_texts[x], old_texts[k - 1]));
                    }
                } else if x == k {
                    assert(!path_le(before[y - 1]@, item@));
                    assert(order(old_texts[y - 1], item@) || order(item@, old_texts[y - 1]));
                } else if x < k && y > k {
                    assert(order(old_texts[x], old_texts[y - 1]));
                } else if x < k {
                    assert(order(old_texts[x], old_texts[y]));
                } else {
                    assert(order(old_texts[x - 1], old_texts[y - 1]));
                }
            }
            broadcast use vstd::seq_lib::group_to_multiset_ensures;
            broadcast use vstd::multiset::group_multiset_axioms;

            assert(new_texts.remove(k as int) =~= old_texts);
            assert(new_texts.to_multiset().remove(item@) =~= old_texts.to_multiset());
            assert(new_texts.to_multiset() =~= old_texts.to_multiset().insert(item@));
            let done = texts(paths@).take(i as int);
            assert(texts(paths@).take(i + 1) =~= done.push(item@));
        }
        i += 1;
    }
    proof {
        let all = texts(paths@);
        assert(all.take(paths.len() as int) =~= all);
        all.lemma_sort_by_ensures(path_order());
        lemma_sorted_unique(texts(sorted@), all.sort_by(path_order()), path_order());
    }
    sorted
}

} // verus!
