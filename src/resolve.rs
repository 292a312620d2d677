//! Resolution of one constructor: the field matcher and the fallback policy.
use crate::shape::{FieldsKind, GenError, GenErrorView, Resolution, ShapeDecl, ShapeView, result_view};
use vstd::prelude::*;

verus! {

/// The constructor path as diagnostics print it: `::` before each segment.
pub open spec fn path_text(segments: Seq<Seq<char>>) -> Seq<char>
    decreases segments.len(),
{
    if segments.len() == 0 {
        Seq::empty()
    } else {
        path_text(segments.drop_last()) + seq![':', ':'] + segments.last()
    }
}

/// Which fields, in declaration order, have the target type: the printed
/// field type is the printed target type.
pub open spec fn field_hits(types: Seq<Seq<char>>, target: Seq<char>) -> Seq<bool> {
    Seq::new(types.len(), |i: int| types[i] == target)
}

/// The number of fields marked in `hits`.
pub open spec fn match_count(hits: Seq<bool>) -> nat
    decreases hits.len(),
{
    if hits.len() == 0 {
        0
    } else {
        match_count(hits.drop_last()) + if hits.last() {
            1nat
        } else {
            0nat
        }
    }
}

/// An index of a marked field (the only one, where `match_count` is 1).
pub open spec fn matching_index(hits: Seq<bool>) -> int {
    choose|i: int| 0 <= i < hits.len() && hits[i]
}

/// The body chosen for a constructor with the given path and kind of fields,
/// where `hits` marks the fields of the target type, or why there is none.
///
/// Two or more marked fields are ambiguous; a single one is referenced; with
/// none, a constructor with exactly one positional field delegates to it,
/// else the fallback is used if configured, else nothing applies.
pub open spec fn decide_spec(
    kind: FieldsKind,
    path: Seq<Seq<char>>,
    hits: Seq<bool>,
    has_fallback: bool,
) -> Result<Resolution, GenErrorView> {
    let n = match_count(hits);
    if n >= 2 {
        Err(GenErrorView::AmbiguousField(path_text(path)))
    } else if n == 1 {
        Ok(Resolution::Field(matching_index(hits) as usize))
    } else if kind == FieldsKind::Unnamed && hits.len() == 1 {
        Ok(Resolution::Delegate)
    } else if has_fallback {
        Ok(Resolution::Fallback)
    } else {
        Err(GenErrorView::NoMatchingField(path_text(path)))
    }
}

/// The body chosen for one constructor, given the printed target type, or
/// why there is none.
pub open spec fn resolve_spec(shape: ShapeView, target: Seq<char>, has_fallback: bool) -> Result<
    Resolution,
    GenErrorView,
> {
    decide_spec(shape.kind, shape.path, field_hits(shape.field_types, target), has_fallback)
}

pub(crate) proof fn lemma_count_pos(hits: Seq<bool>, i: int)
    requires
        0 <= i < hits.len(),
        hits[i],
    ensures
        match_count(hits) >= 1,
    decreases hits.len(),
{
    if i < hits.len() - 1 {
        lemma_count_pos(hits.drop_last(), i);
    }
}

pub(crate) proof fn lemma_count_two(hits: Seq<bool>, i: int, j: int)
    requires
        0 <= i < j < hits.len(),
        hits[i],
        hits[j],
    ensures
        match_count(hits) >= 2,
    decreases hits.len(),
{
    if j == hits.len() - 1 {
        lemma_count_pos(hits.drop_last(), i);
    } else {
        lemma_count_two(hits.drop_last(), i, j);
    }
}

pub(crate) proof fn lemma_count_none(hits: Seq<bool>)
    requires
        forall|j: int| 0 <= j < hits.len() ==> !#[trigger] hits[j],
    ensures
        match_count(hits) == 0,
    decreases hits.len(),
{
    if hits.len() > 0 {
        lemma_count_none(hits.drop_last());
    }
}

pub(crate) proof fn lemma_count_single(hits: Seq<bool>, i: int)
    requires
        0 <= i < hits.len(),
        hits[i],
        forall|j: int| 0 <= j < hits.len() && j != i ==> !#[trigger] hits[j],
    ensures
        match_count(hits) == 1,
    decreases hits.len(),
{
    let front = hits.drop_last();
    if i == hits.len() - 1 {
        assert forall|j: int| 0 <= j < front.len() implies !#[trigger] front[j] by {
            assert(front[j] == hits[j]);
        }
        lemma_count_none(front);
    } else {
        assert forall|j: int| 0 <= j < front.len() && j != i implies !#[trigger] front[j] by {
            assert(front[j] == hits[j]);
        }
        lemma_count_single(front, i);
    }
}

pub(crate) proof fn lemma_count_prefix(hits: Seq<bool>, k: int)
    requires
        0 <= k <= hits.len(),
    ensures
        match_count(hits.take(k)) <= match_count(hits),
    decreases hits.len(),
{
    if k == hits.len() {
        assert(hits.take(k) == hits);
    } else {
        assert(hits.drop_last().take(k) == hits.take(k));
        lemma_count_prefix(hits.drop_last(), k);
    }
}

/// The constructor path as diagnostics print it: `::` before each segment.
pub fn constructor_path_to_string(path: &Vec<String>) -> (r: String)
    ensures
        r@ == path_text(path.deep_view()),
{
    let ghost segs = path.deep_view();
    let mut acc = String::new();
    let mut i: usize = 0;
    while i < path.len()
        invariant
            i <= path.len(),
            segs == path.deep_view(),
            acc@ == path_text(segs.take(i as int)),
        decreases path.len() - i,
    {
        proof {
            reveal_strlit("::");
        }
        acc.append("::");
        acc.append(path[i].as_str());
        proof {
            assert(segs.take(i + 1).drop_last() == segs.take(i as int));
            assert(segs[i as int] == path[i as int]@);
        }
        i = i + 1;
    }
    proof {
        assert(segs.take(i as int) == segs);
    }
    acc
}

/// Chooses the accessor body for a constructor with the given path and kind
/// of fields, where `hits[i]` tells whether field `i` has the target type.
pub fn decide(kind: FieldsKind, path: &Vec<String>, hits: &Vec<bool>, has_fallback: bool) -> (r:
    Result<Resolution, GenError>)
    ensures
        result_view(r) == decide_spec(kind, path.deep_view(), hits@, has_fallback),
{
    let n = hits.len();
    let mut found: Option<usize> = None;
    let mut i: usize = 0;
    while i < n
        invariant
            n == hits.len(),
            i <= n,
            match found {
                None => match_count(hits@.take(i as int)) == 0,
                Some(k) => k < i && hits@[k as int] && match_count(hits@.take(i as int)) == 1,
            },
        decreases n - i,
    {
        proof {
            assert(hits@.take(i + 1).drop_last() == hits@.take(i as int));
            assert(hits@.take(i + 1).last() == hits@[i as int]);
        }
        if hits[i] {
            if let Some(k) = found {
                proof {
                    assert(hits@.take(i + 1)[k as int] == hits@[k as int]);
                    lemma_count_two(hits@.take(i + 1), k as int, i as int);
                    lemma_count_prefix(hits@, i + 1);
                }
                return Err(GenError::AmbiguousField(constructor_path_to_string(path)));
            }
            found = Some(i);
        }
        i = i + 1;
    }
    proof {
        assert(hits@.take(n as int) == hits@);
    }
    match found {
        Some(k) => {
            proof {
                let c = matching_index(hits@);
                assert(0 <= c < hits@.len() && hits@[c]);
                if c < k {
                    lemma_count_two(hits@, c, k as int);
                } else if k < c {
                    lemma_count_two(hits@, k as int, c);
                }
            }
            Ok(Resolution::Field(k))
        },
        None => {
            if kind == FieldsKind::Unnamed && n == 1 {
                Ok(Resolution::Delegate)
            } else if has_fallback {
                Ok(Resolution::Fallback)
            } else {
                Err(GenError::NoMatchingField(constructor_path_to_string(path)))
            }
        },
    }
}

/// Chooses the accessor body for one constructor, given the target type
/// printed as its field types are, and whether a fallback statement is
/// configured.
pub fn resolve_shape(shape: &ShapeDecl, target: &String, has_fallback: bool) -> (r: Result<
    Resolution,
    GenError,
>)
    ensures
        result_view(r) == resolve_spec(shape@, target@, has_fallback),
{
    let ghost types = shape@.field_types;
    let mut hits: Vec<bool> = Vec::new();
    let mut i: usize = 0;
    while i < shape.field_types.len()
        invariant
            i <= shape.field_types.len(),
            types == shape@.field_types,
            hits@ == field_hits(types, target@).take(i as int),
        decreases shape.field_types.len() - i,
    {
        let hit = shape.field_types[i] == *target;
        proof {
            assert(types[i as int] == shape.field_types[i as int]@);
        }
        hits.push(hit);
        proof {
            assert(hits@ == field_hits(types, target@).take(i + 1));
        }
        i = i + 1;
    }
    proof {
        assert(hits@ == field_hits(types, target@));
    }
    decide(shape.kind, &shape.path, &hits, has_fallback)
}

} // verus!
