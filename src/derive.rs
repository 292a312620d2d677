//! The whole derivation: reading the configuration attributes and resolving
//! every constructor.
use crate::resolve::{resolve_shape, resolve_spec};
use crate::shape::{GenError, GenErrorView, Resolution, ShapeDecl, ShapeView};
use crate::syntax::{parse_stmt, parse_type};
use vstd::prelude::*;

verus! {

/// The attribute that names the target type: `#[get_field_by_type_target(T)]`.
pub const TARGET_ATTRIBUTE: &'static str = "get_field_by_type_target";

/// The attribute that gives the body used when no field has the target type:
/// `#[get_field_no_type_behavior(stmt)]`.
pub const FALLBACK_ATTRIBUTE: &'static str = "get_field_no_type_behavior";

/// An attribute on the decorated type: its path when that path is a single
/// identifier, and for the form `#[path(...)]` the text between the
/// parentheses, else the message of why the attribute has no such arguments.
#[derive(Debug)]
pub struct AttrDecl {
    pub ident: Option<String>,
    pub args: Result<String, String>,
}

/// The mathematical value of an `AttrDecl`.
pub struct AttrView {
    pub ident: Option<Seq<char>>,
    pub args: Result<Seq<char>, Seq<char>>,
}

impl View for AttrDecl {
    type V = AttrView;

    open spec fn view(&self) -> AttrView {
        AttrView {
            ident: match self.ident {
                Some(i) => Some(i@),
                None => None,
            },
            args: match self.args {
                Ok(a) => Ok(a@),
                Err(m) => Err(m@),
            },
        }
    }
}

/// The views of a list of attributes.
pub open spec fn attrs_view(attrs: Seq<AttrDecl>) -> Seq<AttrView> {
    attrs.map_values(|a: AttrDecl| a@)
}

/// The views of a list of constructors.
pub open spec fn shapes_view(shapes: Seq<ShapeDecl>) -> Seq<ShapeView> {
    shapes.map_values(|s: ShapeDecl| s@)
}

/// Whether the attribute's path is the single identifier `name`.
pub open spec fn attr_named(a: AttrView, name: Seq<char>) -> bool {
    a.ident == Some(name)
}

/// Whether `i` is the first attribute named `name`.
pub open spec fn is_first_named(attrs: Seq<AttrView>, name: Seq<char>, i: int) -> bool {
    &&& 0 <= i < attrs.len()
    &&& attr_named(attrs[i], name)
    &&& forall|j: int| 0 <= j < i ==> !attr_named(#[trigger] attrs[j], name)
}

/// The index of the first attribute named `name`, if there is one.
pub open spec fn first_named(attrs: Seq<AttrView>, name: Seq<char>) -> Option<int> {
    if exists|i: int| is_first_named(attrs, name, i) {
        Some(choose|i: int| is_first_named(attrs, name, i))
    } else {
        None
    }
}

/// The arguments of the first attribute named `name`, if there is one.
pub open spec fn args_of(attrs: Seq<AttrView>, name: Seq<char>) -> Option<
    Result<Seq<char>, Seq<char>>,
> {
    match first_named(attrs, name) {
        Some(i) => Some(attrs[i].args),
        None => None,
    }
}

/// The resolution of every constructor in order, or the failure of the first
/// one that cannot be resolved.
pub open spec fn arms_spec(shapes: Seq<ShapeView>, target: Seq<char>, has_fallback: bool) -> Result<
    Seq<Resolution>,
    GenErrorView,
>
    decreases shapes.len(),
{
    if shapes.len() == 0 {
        Ok(Seq::empty())
    } else {
        match arms_spec(shapes.drop_last(), target, has_fallback) {
            Err(e) => Err(e),
            Ok(arms) => match resolve_spec(shapes.last(), target, has_fallback) {
                Ok(r) => Ok(arms.push(r)),
                Err(e) => Err(e),
            },
        }
    }
}

/// Everything needed to emit the accessor: the printed target type, the
/// printed fallback statement if one is configured, and one body per
/// constructor.
#[derive(Clone, Debug)]
pub struct Plan {
    pub target: String,
    pub fallback: Option<String>,
    pub arms: Vec<Resolution>,
}

/// The mathematical value of a `Plan`.
pub struct PlanView {
    pub target: Seq<char>,
    pub fallback: Option<Seq<char>>,
    pub arms: Seq<Resolution>,
}

impl View for Plan {
    type V = PlanView;

    open spec fn view(&self) -> PlanView {
        PlanView {
            target: self.target@,
            fallback: match self.fallback {
                Some(s) => Some(s@),
                None => None,
            },
            arms: self.arms@,
        }
    }
}

/// The outcome of the derivation for these constructors (one for a struct,
/// one per variant for an enum), given the printed target type and the
/// printed fallback statement.
pub open spec fn plan_with_spec(
    shapes: Seq<ShapeView>,
    target: Seq<char>,
    fallback: Option<Seq<char>>,
) -> Result<PlanView, GenErrorView> {
    match arms_spec(shapes, target, fallback is Some) {
        Err(e) => Err(e),
        Ok(arms) => Ok(PlanView { target, fallback, arms }),
    }
}

/// The view of a derivation outcome.
pub open spec fn plan_result_view(r: Result<Plan, GenError>) -> Result<PlanView, GenErrorView> {
    match r {
        Ok(p) => Ok(p@),
        Err(e) => Err(e@),
    }
}

/// The index of the first attribute whose path is the single identifier
/// `name`.
pub fn find_attribute(attrs: &Vec<AttrDecl>, name: &str) -> (r: Option<usize>)
    ensures
        match r {
            Some(i) => first_named(attrs_view(attrs@), name@) == Some(i as int),
            None => first_named(attrs_view(attrs@), name@) is None,
        },
{
    let ghost av = attrs_view(attrs@);
    let wanted = String::from_str(name);
    let mut i: usize = 0;
    while i < attrs.len()
        invariant
            i <= attrs.len(),
            av == attrs_view(attrs@),
            wanted@ == name@,
            forall|j: int| 0 <= j < i ==> !attr_named(#[trigger] av[j], name@),
        decreases attrs.len() - i,
    {
        let a = &attrs[i];
        proof {
            assert(av[i as int] == a@);
        }
        if let Some(id) = &a.ident {
            if *id == wanted {
                proof {
                    assert(is_first_named(av, name@, i as int));
                    let c = choose|c: int| is_first_named(av, name@, c);
                    assert(is_first_named(av, name@, c));
                    if c < i {
                        assert(!attr_named(av[c], name@));
                    } else if c > i {
                        assert(!attr_named(av[i as int], name@));
                    }
                }
                return Some(i);
            }
        }
        i = i + 1;
    }
    proof {
        assert forall|c: int| !is_first_named(av, name@, c) by {
            if 0 <= c < av.len() {
                assert(!attr_named(av[c], name@));
            }
        }
    }
    None
}

/// Reads the target type attribute and parses its argument as a type,
/// giving the printed type.
pub fn read_target(attrs: &Vec<AttrDecl>) -> (r: Result<String, GenError>)
    ensures
        match args_of(attrs_view(attrs@), TARGET_ATTRIBUTE@) {
            None => r matches Err(GenError::MissingTargetAttribute),
            Some(Err(m)) => r matches Err(GenError::AttributeParse(e)) && e@ == m,
            Some(Ok(_)) => r is Ok || r matches Err(GenError::AttributeParse(_)),
        },
{
    match find_attribute(attrs, TARGET_ATTRIBUTE) {
        None => Err(GenError::MissingTargetAttribute),
        Some(i) => {
            proof {
                assert(attrs_view(attrs@)[i as int] == attrs[i as int]@);
            }
            match &attrs[i].args {
                Err(m) => Err(GenError::AttributeParse(m.clone())),
                Ok(text) => match parse_type(text.as_str()) {
                    Ok(t) => Ok(t),
                    Err(m) => Err(GenError::AttributeParse(m)),
                },
            }
        },
    }
}

/// Reads the optional fallback attribute and parses its argument as a
/// statement, giving the printed statement.
pub fn read_fallback(attrs: &Vec<AttrDecl>) -> (r: Result<Option<String>, GenError>)
    ensures
        match args_of(attrs_view(attrs@), FALLBACK_ATTRIBUTE@) {
            None => r matches Ok(None),
            Some(Err(m)) => r matches Err(GenError::AttributeParse(e)) && e@ == m,
            Some(Ok(_)) => r matches Ok(Some(_)) || r matches Err(GenError::AttributeParse(_)),
        },
{
    match find_attribute(attrs, FALLBACK_ATTRIBUTE) {
        None => Ok(None),
        Some(i) => {
            proof {
                assert(attrs_view(attrs@)[i as int] == attrs[i as int]@);
            }
            match &attrs[i].args {
                Err(m) => Err(GenError::AttributeParse(m.clone())),
                Ok(text) => match parse_stmt(text.as_str()) {
                    Ok(s) => Ok(Some(s)),
                    Err(m) => Err(GenError::AttributeParse(m)),
                },
            }
        },
    }
}

proof fn lemma_arms_prefix_failure(
    shapes: Seq<ShapeView>,
    target: Seq<char>,
    has_fallback: bool,
    k: int,
    e: GenErrorView,
)
    requires
        0 <= k <= shapes.len(),
        arms_spec(shapes.take(k), target, has_fallback) == Err::<Seq<Resolution>, GenErrorView>(e),
    ensures
        arms_spec(shapes, target, has_fallback) == Err::<Seq<Resolution>, GenErrorView>(e),
    decreases shapes.len(),
{
    if k == shapes.len() {
        assert(shapes.take(k) == shapes);
    } else {
        assert(shapes.drop_last().take(k) == shapes.take(k));
        lemma_arms_prefix_failure(shapes.drop_last(), target, has_fallback, k, e);
    }
}

/// Resolves every constructor in order, stopping at the first failure.
pub fn resolve_all(shapes: &Vec<ShapeDecl>, target: &String, has_fallback: bool) -> (r: Result<
    Vec<Resolution>,
    GenError,
>)
    ensures
        match r {
            Ok(arms) => arms_spec(shapes_view(shapes@), target@, has_fallback) == Ok::<Seq<Resolution>, GenErrorView>(arms@),
            Err(e) => arms_spec(shapes_view(shapes@), target@, has_fallback) == Err::<Seq<Resolution>, GenErrorView>(e@),
        },
{
    let ghost sv = shapes_view(shapes@);
    let mut arms: Vec<Resolution> = Vec::new();
    let mut i: usize = 0;
    while i < shapes.len()
        invariant
            i <= shapes.len(),
            sv == shapes_view(shapes@),
            arms_spec(sv.take(i as int), target@, has_fallback) == Ok::<Seq<Resolution>, GenErrorView>(arms@),
        decreases shapes.len() - i,
    {
        let res = resolve_shape(&shapes[i], target, has_fallback);
        proof {
            assert(sv.take(i + 1).drop_last() == sv.take(i as int));
            assert(sv.take(i + 1).last() == shapes[i as int]@);
        }
        match res {
            Ok(one) => arms.push(one),
            Err(e) => {
                proof {
                    lemma_arms_prefix_failure(sv, target@, has_fallback, i + 1, e@);
                }
                return Err(e);
            },
        }
        i = i + 1;
    }
    proof {
        assert(sv.take(i as int) == sv);
    }
    Ok(arms)
}

/// Plans the accessor for these constructors (one for a struct, one per
/// variant for an enum), given the printed target type and the printed
/// fallback statement: every constructor must resolve, or the whole
/// derivation fails.
pub fn plan_with(target: String, fallback: Option<String>, shapes: &Vec<ShapeDecl>) -> (r: Result<
    Plan,
    GenError,
>)
    ensures
        plan_result_view(r) == plan_with_spec(
            shapes_view(shapes@),
            target@,
            match fallback {
                Some(s) => Some(s@),
                None => None,
            },
        ),
{
    let arms = match resolve_all(shapes, &target, fallback.is_some()) {
        Ok(a) => a,
        Err(e) => return Err(e),
    };
    Ok(Plan { target, fallback, arms })
}

/// Resolving constructors fails only as ambiguous or as having no matching
/// field.
proof fn lemma_arms_errors(shapes: Seq<ShapeView>, target: Seq<char>, has_fallback: bool)
    ensures
        arms_spec(shapes, target, has_fallback) matches Err(e) ==> e is AmbiguousField
            || e is NoMatchingField,
    decreases shapes.len(),
{
    if shapes.len() > 0 {
        lemma_arms_errors(shapes.drop_last(), target, has_fallback);
    }
}

/// Plans the accessor for a type with these attributes and constructors: the
/// target type attribute must be present and parse, the fallback attribute,
/// if present, must parse, and then the plan is that of `plan_with` for the
/// printed target and fallback.
pub fn plan_derive(attrs: &Vec<AttrDecl>, shapes: &Vec<ShapeDecl>) -> (r: Result<Plan, GenError>)
    ensures
        match args_of(attrs_view(attrs@), TARGET_ATTRIBUTE@) {
            None => r matches Err(GenError::MissingTargetAttribute),
            Some(Err(m)) => r matches Err(GenError::AttributeParse(e)) && e@ == m,
            Some(Ok(_)) => r matches Err(GenError::AttributeParse(_)) || (!(args_of(
                attrs_view(attrs@),
                FALLBACK_ATTRIBUTE@,
            ) matches Some(Err(_))) && exists|t: Seq<char>, f: Option<Seq<char>>|
                (f is Some <==> args_of(attrs_view(attrs@), FALLBACK_ATTRIBUTE@) is Some)
                    && #[trigger] plan_with_spec(shapes_view(shapes@), t, f) == plan_result_view(
                    r,
                )),
        },
        r matches Err(GenError::MissingTargetAttribute) <==> args_of(
            attrs_view(attrs@),
            TARGET_ATTRIBUTE@,
        ) is None,
        r matches Ok(p) ==> plan_with_spec(shapes_view(shapes@), p@.target, p@.fallback) == Ok::<
            PlanView,
            GenErrorView,
        >(p@),
{
    let target = match read_target(attrs) {
        Ok(t) => t,
        Err(e) => return Err(e),
    };
    let fallback = match read_fallback(attrs) {
        Ok(f) => f,
        Err(e) => return Err(e),
    };
    let ghost t = target@;
    let ghost f = if fallback is Some {
        Some(fallback->Some_0@)
    } else {
        None::<Seq<char>>
    };
    let r = plan_with(target, fallback, shapes);
    proof {
        assert(plan_with_spec(shapes_view(shapes@), t, f) == plan_result_view(r));
        if r is Err {
            lemma_arms_errors(shapes_view(shapes@), t, f is Some);
        }
    }
    r
}

} // verus!
