//! Finding the value of a column in a record.
//!
//! A name with a `.` in it is a path: each part names a member of the value
//! that the parts before it led to. A name without one is looked up in the
//! record itself and, failing that, in the record's `properties` bag.

use crate::json::Json;
use vstd::prelude::*;
use vstd::string::*;

verus! {

/// The index of the first `.` in `name`; the length of `name` where it has
/// none.
pub open spec fn first_dot(name: Seq<char>) -> nat
    decreases name.len(),
{
    if name.len() == 0 || name[0] == '.' {
        0
    } else {
        1 + first_dot(name.skip(1))
    }
}

/// Whether `name` is a path.
pub open spec fn is_dotted(name: Seq<char>) -> bool {
    first_dot(name) < name.len()
}

/// The parts of `name` between its dots, in order. A name without a dot is
/// its own single part; two dots in a row enclose an empty part.
pub open spec fn segments(name: Seq<char>) -> Seq<Seq<char>>
    decreases name.len(),
{
    let cut = first_dot(name);
    if cut < name.len() {
        seq![name.take(cut as int)] + segments(name.skip(cut as int + 1))
    } else {
        seq![name]
    }
}

/// The value reached from `value` by taking the member that each part of
/// `path` names, one after the other.
pub open spec fn descend(value: Json, path: Seq<Seq<char>>) -> Option<Json>
    decreases path.len(),
{
    if path.len() == 0 {
        Some(value)
    } else {
        match value.member(path[0]) {
            Some(inner) => descend(inner, path.drop_first()),
            None => None,
        }
    }
}

/// The value of the flat column `name`: a member of the record, else a
/// member of its `properties` bag.
pub open spec fn resolve_flat(record: Json, name: Seq<char>) -> Option<Json> {
    match record.member(name) {
        Some(value) => Some(value),
        None => match record.member("properties"@) {
            Some(bag) => bag.member(name),
            None => None,
        },
    }
}

/// The value that the column `name` has in `record`, if it has one.
pub open spec fn resolve(record: Json, name: Seq<char>) -> Option<Json> {
    if is_dotted(name) {
        descend(record, segments(name))
    } else {
        resolve_flat(record, name)
    }
}

/// `first_dot` is the least index that holds a dot.
pub proof fn lemma_first_dot(name: Seq<char>)
    ensures
        first_dot(name) <= name.len(),
        forall|j: int| 0 <= j < first_dot(name) ==> name[j] != '.',
        first_dot(name) < name.len() ==> name[first_dot(name) as int] == '.',
    decreases name.len(),
{
    if name.len() != 0 && name[0] != '.' {
        let rest = name.skip(1);
        lemma_first_dot(rest);
        assert forall|j: int| 0 <= j < first_dot(name) implies name[j] != '.' by {
            if j > 0 {
                assert(rest[j - 1] == name[j]);
            }
        }
    }
}

/// A name is dotted exactly when it contains a dot.
pub proof fn lemma_dotted_iff_contains(name: Seq<char>)
    ensures
        is_dotted(name) <==> name.contains('.'),
{
    lemma_first_dot(name);
}

/// The index that holds a dot and has none before it is `first_dot`; so is
/// the length of a name without a dot.
pub proof fn lemma_first_dot_at(name: Seq<char>, index: int)
    requires
        0 <= index <= name.len(),
        forall|j: int| 0 <= j < index ==> name[j] != '.',
        index < name.len() ==> name[index] == '.',
    ensures
        first_dot(name) == index,
{
    lemma_first_dot(name);
}

/// The text that `parts` spell when a dot stands between each two of them.
pub open spec fn joined(parts: Seq<Seq<char>>) -> Seq<char>
    decreases parts.len(),
{
    if parts.len() == 0 {
        Seq::empty()
    } else if parts.len() == 1 {
        parts[0]
    } else {
        parts[0] + seq!['.'] + joined(parts.drop_first())
    }
}

/// The parts of a name hold no dot, and with a dot between each two of them
/// they spell the name.
pub proof fn lemma_segments_split(name: Seq<char>)
    ensures
        segments(name).len() >= 1,
        joined(segments(name)) == name,
        forall|i: int, j: int|
            0 <= i < segments(name).len() && 0 <= j < segments(name)[i].len() ==> segments(
                name,
            )[i][j] != '.',
    decreases name.len(),
{
    lemma_first_dot(name);
    let cut = first_dot(name) as int;
    if cut < name.len() {
        let head = name.take(cut);
        let rest = name.skip(cut + 1);
        lemma_segments_split(rest);
        let parts = seq![head] + segments(rest);
        assert(parts.drop_first() == segments(rest));
        assert forall|i: int, j: int|
            0 <= i < parts.len() && 0 <= j < parts[i].len() implies parts[i][j] != '.' by {}
    }
}

/// A path of two parts leads to the member that the second part names in
/// the member that the first part names; the `properties` bag plays no part.
pub proof fn lemma_two_part_path(record: Json, first: Seq<char>, second: Seq<char>)
    requires
        forall|j: int| 0 <= j < first.len() ==> first[j] != '.',
        forall|j: int| 0 <= j < second.len() ==> second[j] != '.',
    ensures
        resolve(record, first + seq!['.'] + second) == match record.member(first) {
            Some(inner) => inner.member(second),
            None => None,
        },
{
    let name = first + seq!['.'] + second;
    lemma_first_dot_at(name, first.len() as int);
    lemma_first_dot_at(second, second.len() as int);
    assert(name.take(first.len() as int) == first);
    assert(name.skip(first.len() as int + 1) == second);
    assert(segments(name) == seq![name.take(first.len() as int)] + segments(
        name.skip(first.len() as int + 1),
    ));
    reveal_with_fuel(descend, 3);
}

/// A flat name that the record itself holds is found there, whatever the
/// `properties` bag holds.
pub proof fn lemma_direct_member_wins(record: Json, name: Seq<char>, value: Json)
    requires
        !is_dotted(name),
        record.member(name) == Some(value),
    ensures
        resolve(record, name) == Some(value),
{
}

/// A flat name that the record itself does not hold is looked up in its
/// `properties` bag.
pub proof fn lemma_falls_back_to_properties(record: Json, name: Seq<char>)
    requires
        !is_dotted(name),
        record.member(name) is None,
    ensures
        resolve(record, name) == match record.member("properties"@) {
            Some(bag) => bag.member(name),
            None => None,
        },
{
}

/// Where the part of `name` from `start` on runs without a dot up to `end`,
/// where a dot stands, the parts from `start` are that stretch and then the
/// parts after the dot.
proof fn lemma_segments_cut(name: Seq<char>, start: int, end: int)
    requires
        0 <= start <= end < name.len(),
        forall|j: int| start <= j < end ==> name[j] != '.',
        name[end] == '.',
    ensures
        segments(name.skip(start)) == seq![name.subrange(start, end)] + segments(
            name.skip(end + 1),
        ),
{
    let tail = name.skip(start);
    lemma_first_dot_at(tail, end - start);
    assert(tail.take(end - start) == name.subrange(start, end));
    assert(tail.skip(end - start + 1) == name.skip(end + 1));
}

/// Where the part of `name` from `start` on holds no dot, it is the only
/// part from `start`.
proof fn lemma_segments_last(name: Seq<char>, start: int)
    requires
        0 <= start <= name.len(),
        forall|j: int| start <= j < name.len() ==> name[j] != '.',
    ensures
        segments(name.skip(start)) == seq![name.skip(start)],
        !is_dotted(name.skip(start)),
{
    let tail = name.skip(start);
    lemma_first_dot_at(tail, tail.len() as int);
}

/// Looks a column up in a record.
pub fn resolve_column<'a>(record: &'a Json, name: &str) -> (found: Option<&'a Json>)
    ensures
        match found {
            Some(value) => resolve(*record, name@) == Some(*value),
            None => resolve(*record, name@) is None,
        },
{
    let n = name.unicode_len();
    let mut current: &Json = record;
    let mut start: usize = 0;
    let mut i: usize = 0;
    assert(name@.skip(0) == name@);
    while i < n
        invariant
            n == name@.len(),
            start <= i <= n,
            forall|j: int| start <= j < i ==> name@[j] != '.',
            start > 0 ==> is_dotted(name@),
            descend(*record, segments(name@)) == descend(
                *current,
                segments(name@.skip(start as int)),
            ),
        decreases n - i,
    {
        if name.get_char(i) == '.' {
            let segment = name.substring_char(start, i);
            proof {
                lemma_first_dot(name@);
                lemma_segments_cut(name@, start as int, i as int);
                let rest = segments(name@.skip(i + 1));
                assert((seq![segment@] + rest).drop_first() == rest);
            }
            match current.get(segment) {
                Some(inner) => {
                    current = inner;
                },
                None => {
                    return None;
                },
            }
            start = i + 1;
        }
        i = i + 1;
    }
    if start > 0 {
        let segment = name.substring_char(start, n);
        proof {
            lemma_segments_last(name@, start as int);
            reveal_with_fuel(descend, 2);
        }
        current.get(segment)
    } else {
        proof {
            lemma_segments_last(name@, 0);
        }
        match record.get(name) {
            Some(value) => Some(value),
            None => match record.get("properties") {
                Some(bag) => bag.get(name),
                None => None,
            },
        }
    }
}

} // verus!
