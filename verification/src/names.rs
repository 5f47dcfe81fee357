//! Module names: the set that a list of names stands for, and the segment of
//! a dotted path by which a module is matched.

use vstd::prelude::*;
use vstd::string::*;

verus! {

/// The set of names that occur in a list, whatever their order or number.
pub open spec fn name_set(names: Seq<String>) -> Set<Seq<char>> {
    Set::new(|m: Seq<char>| exists|i: int| 0 <= i < names.len() && (#[trigger] names[i])@ == m)
}

/// No name occurs twice in the list.
pub open spec fn distinct_names(names: Seq<String>) -> bool {
    forall|i: int, j: int|
        0 <= i < j < names.len() ==> (#[trigger] names[i])@ != (#[trigger] names[j])@
}

/// Where the last segment of a dotted path begins: behind its last
/// separator, or at 0 where it has none.
pub open spec fn segment_start(path: Seq<char>) -> int
    decreases path.len(),
{
    if path.len() == 0 {
        0
    } else if path.last() == '.' {
        path.len() as int
    } else {
        segment_start(path.drop_last())
    }
}

/// The last segment of a dotted path: what follows its last separator, or
/// the whole path where it has none.
pub open spec fn last_segment_of(path: Seq<char>) -> Seq<char> {
    path.subrange(segment_start(path), path.len() as int)
}

/// The last segment holds no separator, and it begins the path or stands
/// right behind a separator.
pub proof fn last_segment_is_final(path: Seq<char>)
    ensures
        0 <= segment_start(path) <= path.len(),
        forall|i: int| segment_start(path) <= i < path.len() ==> path[i] != '.',
        segment_start(path) == 0 || path[segment_start(path) - 1] == '.',
        !last_segment_of(path).contains('.'),
    decreases path.len(),
{
    if path.len() > 0 && path.last() != '.' {
        let front = path.drop_last();
        last_segment_is_final(front);
        assert forall|i: int| segment_start(path) <= i < path.len() implies path[i] != '.' by {
            if i < front.len() {
                assert(path[i] == front[i]);
            }
        }
        if segment_start(path) > 0 {
            assert(path[segment_start(path) - 1] == front[segment_start(front) - 1]);
        }
    }
    let segment = last_segment_of(path);
    assert forall|k: int| 0 <= k < segment.len() implies segment[k] != '.' by {
        assert(segment[k] == path[segment_start(path) + k]);
    }
}

/// One step of the search for the last separator, from the end of the path.
proof fn lemma_segment_step(path: Seq<char>)
    requires
        path.len() > 0,
    ensures
        path.last() == '.' ==> segment_start(path) == path.len(),
        path.last() != '.' ==> segment_start(path) == segment_start(path.drop_last()),
{
}

/// Whether `name` occurs in `names`.
pub fn contains_name(names: &Vec<String>, name: &String) -> (found: bool)
    ensures
        found == name_set(names@).contains(name@),
{
    let mut i: usize = 0;
    while i < names.len()
        invariant
            i <= names.len(),
            forall|k: int| 0 <= k < i ==> (#[trigger] names@[k])@ != name@,
        decreases names.len() - i,
    {
        if names[i] == *name {
            return true;
        }
        i += 1;
    }
    false
}

/// Whether every name of `a` occurs in `b`.
pub fn all_names_in(a: &Vec<String>, b: &Vec<String>) -> (all: bool)
    ensures
        all == name_set(a@).subset_of(name_set(b@)),
{
    let mut i: usize = 0;
    while i < a.len()
        invariant
            i <= a.len(),
            forall|k: int| 0 <= k < i ==> name_set(b@).contains((#[trigger] a@[k])@),
        decreases a.len() - i,
    {
        if !contains_name(b, &a[i]) {
            assert(name_set(a@).contains(a@[i as int]@));
            return false;
        }
        i += 1;
    }
    true
}

/// Whether two lists stand for the same set of names.
pub fn same_names(a: &Vec<String>, b: &Vec<String>) -> (same: bool)
    ensures
        same == (name_set(a@) == name_set(b@)),
{
    let same = all_names_in(a, b) && all_names_in(b, a);
    proof {
        if same {
            assert(name_set(a@) =~= name_set(b@));
        }
    }
    same
}

/// The names of a list in their order of first occurrence, each once.
pub open spec fn first_occurrences(names: Seq<String>) -> Seq<String>
    decreases names.len(),
{
    if names.len() == 0 {
        Seq::empty()
    } else if name_set(names.drop_last()).contains(names.last()@) {
        first_occurrences(names.drop_last())
    } else {
        first_occurrences(names.drop_last()).push(names.last())
    }
}

/// The names of `names` in their order of first occurrence, each once.
pub fn without_repeats(names: Vec<String>) -> (kept: Vec<String>)
    ensures
        kept@ == first_occurrences(names@),
        distinct_names(kept@),
        name_set(kept@) == name_set(names@),
{
    let mut kept: Vec<String> = Vec::new();
    let mut i: usize = 0;
    while i < names.len()
        invariant
            i <= names.len(),
            kept@ == first_occurrences(names@.take(i as int)),
            distinct_names(kept@),
            forall|k: int| 0 <= k < i ==> name_set(kept@).contains((#[trigger] names@[k])@),
            forall|k: int|
                0 <= k < kept.len() ==> name_set(names@.take(i as int)).contains(
                    (#[trigger] kept@[k])@,
                ),
        decreases names.len() - i,
    {
        let ghost before = kept@;
        let ghost seen = names@.take(i as int);
        let ghost next = names@.take(i + 1);
        proof {
            assert(next.drop_last() =~= seen);
            assert(next.last() == names@[i as int]);
            assert(name_set(before).contains(names@[i as int]@) == name_set(seen).contains(
                names@[i as int]@,
            )) by {
                if name_set(seen).contains(names@[i as int]@) {
                    let w = choose|w: int| 0 <= w < seen.len() && seen[w]@ == names@[i as int]@;
                    assert(seen[w] == names@[w]);
                    assert(name_set(before).contains(names@[w]@));
                }
                if name_set(before).contains(names@[i as int]@) {
                    let w = choose|w: int|
                        0 <= w < before.len() && before[w]@ == names@[i as int]@;
                    assert(name_set(seen).contains(before[w]@));
                }
            }
            assert forall|k: int| 0 <= k < before.len() implies name_set(next).contains(
                (#[trigger] before[k])@,
            ) by {
                let w = choose|w: int| 0 <= w < seen.len() && seen[w]@ == before[k]@;
                assert(next[w] == seen[w]);
            }
        }
        if !contains_name(&kept, &names[i]) {
            let name = names[i].clone();
            kept.push(name);
            proof {
                assert(kept@ == before.push(names@[i as int]));
                assert forall|k: int| 0 <= k < i + 1 implies name_set(kept@).contains(
                    (#[trigger] names@[k])@,
                ) by {
                    if k < i {
                        let w = choose|w: int| 0 <= w < before.len() && before[w]@ == names@[k]@;
                        assert(kept@[w] == before[w]);
                    } else {
                        assert(kept@[before.len() as int] == names@[i as int]);
                    }
                }
                assert forall|k: int| 0 <= k < kept.len() implies name_set(next).contains(
                    (#[trigger] kept@[k])@,
                ) by {
                    if k < before.len() {
                        assert(kept@[k] == before[k]);
                    } else {
                        assert(next[i as int] == names@[i as int]);
                    }
                }
                assert forall|p: int, q: int| 0 <= p < q < kept.len() implies (
                #[trigger] kept@[p])@ != (#[trigger] kept@[q])@ by {
                    if q < before.len() {
                        assert(kept@[p] == before[p] && kept@[q] == before[q]);
                    } else {
                        assert(kept@[p] == before[p]);
                    }
                }
            }
        }
        i += 1;
    }
    proof {
        assert(names@.take(names.len() as int) =~= names@);
        assert(name_set(kept@) =~= name_set(names@));
    }
    kept
}

/// The last segment of a dotted path, by which a module is matched.
pub fn last_segment(path: &str) -> (segment: String)
    ensures
        segment@ == last_segment_of(path@),
{
    let len = path.unicode_len();
    let mut start: usize = len;
    proof {
        assert(path@.take(len as int) =~= path@);
    }
    while start > 0
        invariant_except_break
            start <= len,
            len == path@.len(),
            segment_start(path@) == segment_start(path@.take(start as int)),
        ensures
            start <= len,
            segment_start(path@) == start,
        decreases start,
    {
        let c = path.get_char(start - 1);
        proof {
            lemma_segment_step(path@.take(start as int));
            assert(path@.take(start as int).last() == c);
            assert(path@.take(start as int).drop_last() =~= path@.take(start - 1));
        }
        if c == '.' {
            break;
        }
        start -= 1;
    }
    path.substring_char(start, len).to_owned()
}

} // verus!
