//! Text helpers shared by the configuration resolver and the error messages.

use vstd::prelude::*;
use vstd::string::StringExecFns;
use vstd::utf8::encode_utf8;
use vstd::utf8::encode_utf8_decode_utf8;

verus! {

/// Whether two string slices hold the same characters.
pub fn str_eq(a: &str, b: &str) -> (equal: bool)
    ensures
        equal == (a@ == b@),
{
    let x = a.as_bytes();
    let y = b.as_bytes();
    proof {
        // Encoding is injective: decoding gives the characters back.
        encode_utf8_decode_utf8(a@);
        encode_utf8_decode_utf8(b@);
    }
    if x.len() != y.len() {
        return false;
    }
    let mut i: usize = 0;
    while i < x.len()
        invariant
            i <= x.len(),
            x.len() == y.len(),
            x@ == encode_utf8(a@),
            y@ == encode_utf8(b@),
            forall|j: int| 0 <= j < i ==> x@[j] == y@[j],
        decreases x.len() - i,
    {
        if x[i] != y[i] {
            return false;
        }
        i += 1;
    }
    assert(x@ =~= y@);
    true
}

/// The characters of an optional text.
pub open spec fn option_view(text: Option<String>) -> Option<Seq<char>> {
    match text {
        Some(text) => Some(text@),
        None => None,
    }
}

/// The characters of each text of a list.
pub open spec fn str_views(parts: Seq<&'static str>) -> Seq<Seq<char>> {
    Seq::new(parts.len(), |i: int| parts[i]@)
}

/// The parts in order, with the separator between each two neighbours.
pub open spec fn joined(parts: Seq<Seq<char>>, separator: Seq<char>) -> Seq<char>
    decreases parts.len(),
{
    if parts.len() == 0 {
        Seq::empty()
    } else if parts.len() == 1 {
        parts[0]
    } else {
        joined(parts.drop_last(), separator) + separator + parts.last()
    }
}

/// Concatenates the parts, with the separator between each two neighbours.
pub fn join(parts: &Vec<&'static str>, separator: &str) -> (text: String)
    ensures
        text@ == joined(str_views(parts@), separator@),
{
    let ghost views = str_views(parts@);
    let mut text = String::new();
    let mut i: usize = 0;
    while i < parts.len()
        invariant
            i <= parts.len(),
            views == str_views(parts@),
            text@ == joined(views.take(i as int), separator@),
        decreases parts.len() - i,
    {
        proof {
            assert(views.take(i + 1).drop_last() =~= views.take(i as int));
            assert(views.take(i + 1).last() == parts@[i as int]@);
            if i == 0 {
                assert(text@ =~= Seq::<char>::empty());
            }
        }
        if i > 0 {
            text.append(separator);
        }
        text.append(parts[i]);
        proof {
            if i == 0 {
                assert(text@ =~= parts@[0]@);
            }
        }
        i += 1;
    }
    assert(views.take(parts@.len() as int) =~= views);
    text
}

/// The greatest index below `limit` at which `holds` is true, if there is one.
pub open spec fn last_where(limit: int, holds: spec_fn(int) -> bool) -> Option<int>
    decreases limit,
{
    if limit <= 0 {
        None
    } else if holds(limit - 1) {
        Some(limit - 1)
    } else {
        last_where(limit - 1, holds)
    }
}

/// `last_where` finds an index exactly when one exists below the limit, and
/// then it is the greatest such index.
pub proof fn lemma_last_where(limit: int, holds: spec_fn(int) -> bool)
    ensures
        match last_where(limit, holds) {
            Some(found) => {
                &&& 0 <= found < limit
                &&& holds(found)
                &&& forall|j: int| found < j < limit ==> !#[trigger] holds(j)
            },
            None => forall|j: int| 0 <= j < limit ==> !#[trigger] holds(j),
        },
    decreases limit,
{
    if limit > 0 && !holds(limit - 1) {
        lemma_last_where(limit - 1, holds);
    }
}

/// The greatest index at which `holds` is true is what `last_where` finds.
pub proof fn lemma_last_where_is(limit: int, holds: spec_fn(int) -> bool, found: int)
    requires
        0 <= found < limit,
        holds(found),
        forall|j: int| found < j < limit ==> !#[trigger] holds(j),
    ensures
        last_where(limit, holds) == Some(found),
    decreases limit,
{
    if found < limit - 1 {
        lemma_last_where_is(limit - 1, holds, found);
    }
}

/// The least index below `limit` at which `holds` is true, if there is one.
pub open spec fn first_where(limit: int, holds: spec_fn(int) -> bool) -> Option<int>
    decreases limit,
{
    if limit <= 0 {
        None
    } else {
        match first_where(limit - 1, holds) {
            Some(found) => Some(found),
            None => if holds(limit - 1) {
                Some(limit - 1)
            } else {
                None
            },
        }
    }
}

/// `first_where` finds an index exactly when one exists below the limit, and
/// then it is the least such index.
pub proof fn lemma_first_where(limit: int, holds: spec_fn(int) -> bool)
    ensures
        match first_where(limit, holds) {
            Some(found) => {
                &&& 0 <= found < limit
                &&& holds(found)
                &&& forall|j: int| 0 <= j < found ==> !#[trigger] holds(j)
            },
            None => forall|j: int| 0 <= j < limit ==> !#[trigger] holds(j),
        },
    decreases limit,
{
    if limit > 0 {
        lemma_first_where(limit - 1, holds);
    }
}

/// The least index at which `holds` is true is what `first_where` finds.
pub proof fn lemma_first_where_is(limit: int, holds: spec_fn(int) -> bool, found: int)
    requires
        0 <= found < limit,
        holds(found),
        forall|j: int| 0 <= j < found ==> !#[trigger] holds(j),
    ensures
        first_where(limit, holds) == Some(found),
    decreases limit,
{
    if found < limit - 1 {
        lemma_first_where_is(limit - 1, holds, found);
    } else {
        lemma_first_where(limit - 1, holds);
    }
}

/// Where `holds` is true nowhere below the limit, `first_where` finds nothing.
pub proof fn lemma_first_where_none(limit: int, holds: spec_fn(int) -> bool)
    requires
        forall|j: int| 0 <= j < limit ==> !#[trigger] holds(j),
    ensures
        first_where(limit, holds) is None,
    decreases limit,
{
    if limit > 0 {
        lemma_first_where_none(limit - 1, holds);
    }
}

/// Two conditions that agree below the limit have the same first index.
pub proof fn lemma_first_where_agree(
    limit: int,
    holds: spec_fn(int) -> bool,
    other: spec_fn(int) -> bool,
)
    requires
        forall|j: int| 0 <= j < limit ==> #[trigger] holds(j) == #[trigger] other(j),
    ensures
        first_where(limit, holds) == first_where(limit, other),
    decreases limit,
{
    if limit > 0 {
        lemma_first_where_agree(limit - 1, holds, other);
    }
}

} // verus!
