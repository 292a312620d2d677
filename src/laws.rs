//! Properties of the resolution policy that hold for every constructor and
//! every list of constructors.
use crate::derive::arms_spec;
use crate::resolve::{
    decide_spec, field_hits, lemma_count_none, lemma_count_single, lemma_count_two, matching_index,
    path_text, resolve_spec,
};
use crate::shape::{FieldsKind, GenErrorView, Resolution, ShapeView};
use vstd::prelude::*;

verus! {

/// A constructor with exactly one field of the target type (`hits` marks
/// those fields) resolves to a reference to that field, whatever its kind of
/// fields and the fallback.
pub proof fn law_single_match_is_referenced(
    kind: FieldsKind,
    path: Seq<Seq<char>>,
    hits: Seq<bool>,
    has_fallback: bool,
    i: usize,
)
    requires
        i < hits.len(),
        hits[i as int],
        forall|j: int| 0 <= j < hits.len() && j != i ==> !#[trigger] hits[j],
    ensures
        decide_spec(kind, path, hits, has_fallback) == Ok::<Resolution, GenErrorView>(
            Resolution::Field(i),
        ),
{
    lemma_count_single(hits, i as int);
    let c = matching_index(hits);
    assert(0 <= c < hits.len() && hits[c]);
}

/// A constructor with two or more fields of the target type fails as
/// ambiguous, naming its constructor path, whatever the fallback.
pub proof fn law_two_matches_are_ambiguous(
    kind: FieldsKind,
    path: Seq<Seq<char>>,
    hits: Seq<bool>,
    has_fallback: bool,
    i: int,
    j: int,
)
    requires
        0 <= i < hits.len(),
        0 <= j < hits.len(),
        i != j,
        hits[i],
        hits[j],
    ensures
        decide_spec(kind, path, hits, has_fallback) == Err::<Resolution, GenErrorView>(
            GenErrorView::AmbiguousField(path_text(path)),
        ),
{
    if i < j {
        lemma_count_two(hits, i, j);
    } else {
        lemma_count_two(hits, j, i);
    }
}

/// A constructor whose only field is positional and not of the target type
/// delegates to that field, even where a fallback is configured: the field's
/// own type is not examined any further.
pub proof fn law_sole_positional_field_delegates(
    path: Seq<Seq<char>>,
    hits: Seq<bool>,
    has_fallback: bool,
)
    requires
        hits.len() == 1,
        !hits[0],
    ensures
        decide_spec(FieldsKind::Unnamed, path, hits, has_fallback) == Ok::<
            Resolution,
            GenErrorView,
        >(Resolution::Delegate),
{
    lemma_count_none(hits);
}

/// A constructor with several fields, none of the target type, uses the
/// configured fallback statement.
pub proof fn law_no_match_uses_fallback(kind: FieldsKind, path: Seq<Seq<char>>, hits: Seq<bool>)
    requires
        hits.len() > 1,
        forall|j: int| 0 <= j < hits.len() ==> !#[trigger] hits[j],
    ensures
        decide_spec(kind, path, hits, true) == Ok::<Resolution, GenErrorView>(Resolution::Fallback),
{
    lemma_count_none(hits);
}

/// A constructor with several fields, none of the target type, and no
/// fallback fails, naming its constructor path.
pub proof fn law_no_match_without_fallback_fails(
    kind: FieldsKind,
    path: Seq<Seq<char>>,
    hits: Seq<bool>,
)
    requires
        hits.len() > 1,
        forall|j: int| 0 <= j < hits.len() ==> !#[trigger] hits[j],
    ensures
        decide_spec(kind, path, hits, false) == Err::<Resolution, GenErrorView>(
            GenErrorView::NoMatchingField(path_text(path)),
        ),
{
    lemma_count_none(hits);
}

/// A field is referenced only if its printed type is exactly the printed
/// target type: types written with another generic argument or another path
/// never match.
pub proof fn law_referenced_field_has_target_type(
    shape: ShapeView,
    target: Seq<char>,
    has_fallback: bool,
)
    requires
        shape.field_types.len() <= usize::MAX,
        resolve_spec(shape, target, has_fallback) is Ok,
        resolve_spec(shape, target, has_fallback)->Ok_0 is Field,
    ensures
        ({
            let i = resolve_spec(shape, target, has_fallback)->Ok_0->Field_0 as int;
            0 <= i < shape.field_types.len() && shape.field_types[i] == target
        }),
{
    let hits = field_hits(shape.field_types, target);
    if exists|i: int| 0 <= i < hits.len() && hits[i] {
        let c = matching_index(hits);
        assert(0 <= c < hits.len() && hits[c]);
    } else {
        lemma_count_none(hits);
    }
}

/// Each constructor of an enum is resolved on its own: when every one of them
/// resolves, the derivation has one arm per constructor, in order, each the
/// constructor's own resolution.
pub proof fn law_every_variant_resolved_independently(
    shapes: Seq<ShapeView>,
    target: Seq<char>,
    has_fallback: bool,
)
    requires
        forall|k: int| 0 <= k < shapes.len() ==> (#[trigger] resolve_spec(shapes[k], target, has_fallback)) is Ok,
    ensures
        arms_spec(shapes, target, has_fallback) is Ok,
        arms_spec(shapes, target, has_fallback)->Ok_0.len() == shapes.len(),
        forall|k: int|
            0 <= k < shapes.len() ==> arms_spec(shapes, target, has_fallback)->Ok_0[k]
                == (#[trigger] resolve_spec(shapes[k], target, has_fallback))->Ok_0,
    decreases shapes.len(),
{
    if shapes.len() > 0 {
        let front = shapes.drop_last();
        assert forall|k: int| 0 <= k < front.len() implies (#[trigger] resolve_spec(
            front[k],
            target,
            has_fallback,
        )) is Ok by {
            assert(front[k] == shapes[k]);
        }
        law_every_variant_resolved_independently(front, target, has_fallback);
        assert(resolve_spec(shapes[shapes.len() - 1], target, has_fallback) is Ok);
        assert forall|k: int| 0 <= k < shapes.len() implies arms_spec(
            shapes,
            target,
            has_fallback,
        )->Ok_0[k] == (#[trigger] resolve_spec(shapes[k], target, has_fallback))->Ok_0 by {
            if k < front.len() {
                assert(front[k] == shapes[k]);
            }
        }
    }
}

/// One constructor that cannot be resolved makes the whole derivation fail,
/// with the failure of the first such constructor, even where all the others
/// would resolve.
pub proof fn law_one_failing_variant_fails_all(
    shapes: Seq<ShapeView>,
    target: Seq<char>,
    has_fallback: bool,
    k: int,
)
    requires
        0 <= k < shapes.len(),
        resolve_spec(shapes[k], target, has_fallback) is Err,
        forall|j: int| 0 <= j < k ==> (#[trigger] resolve_spec(shapes[j], target, has_fallback)) is Ok,
    ensures
        arms_spec(shapes, target, has_fallback) == Err::<Seq<Resolution>, GenErrorView>(
            resolve_spec(shapes[k], target, has_fallback)->Err_0,
        ),
    decreases shapes.len(),
{
    let front = shapes.drop_last();
    if k == shapes.len() - 1 {
        assert forall|j: int| 0 <= j < front.len() implies (#[trigger] resolve_spec(
            front[j],
            target,
            has_fallback,
        )) is Ok by {
            assert(front[j] == shapes[j]);
        }
        law_every_variant_resolved_independently(front, target, has_fallback);
    } else {
        assert(front[k] == shapes[k]);
        assert forall|j: int| 0 <= j < k implies (#[trigger] resolve_spec(
            front[j],
            target,
            has_fallback,
        )) is Ok by {
            assert(front[j] == shapes[j]);
        }
        law_one_failing_variant_fails_all(front, target, has_fallback, k);
    }
}

} // verus!
