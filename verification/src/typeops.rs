//! Operations on type references: template-parameter detection, structural
//! equality, deep copies, and template-argument substitution.

use vstd::prelude::*;
use crate::model::{lemma_view_type_seq, view_type, view_type_seq, view_type_seq_opt, CppType, CppTypeBase, CppTypeBaseV, CppTypeClassBase, CppTypeClassBaseV, CppTypeIndirection, CppTypeV};

verus! {

broadcast use lemma_view_type_seq;

/// Whether the base of `t` is a template parameter.
pub open spec fn spec_is_template_parameter(t: CppTypeV) -> bool {
    t.base is TemplateParameter
}

/// Whether `t` is or contains, anywhere in its template arguments, a
/// template parameter.
pub open spec fn spec_contains_template_parameter(t: CppTypeV) -> bool
    decreases t,
{
    match t.base {
        CppTypeBaseV::TemplateParameter { .. } => true,
        CppTypeBaseV::Class(c) => if c.template_arguments is Some {
            spec_seq_contains_template_parameter(c.template_arguments->0)
        } else {
            false
        },
        _ => false,
    }
}

pub open spec fn spec_seq_contains_template_parameter(ts: Seq<CppTypeV>) -> bool
    decreases ts,
{
    if ts.len() == 0 {
        false
    } else {
        spec_contains_template_parameter(ts.last()) || spec_seq_contains_template_parameter(
            ts.drop_last(),
        )
    }
}

/// `spec_seq_contains_template_parameter` holds exactly when some element
/// contains a template parameter.
pub proof fn lemma_seq_contains_template_parameter(ts: Seq<CppTypeV>)
    ensures
        spec_seq_contains_template_parameter(ts) <==> exists|i: int|
            0 <= i < ts.len() && spec_contains_template_parameter(ts[i]),
    decreases ts,
{
    if ts.len() > 0 {
        lemma_seq_contains_template_parameter(ts.drop_last());
        if spec_contains_template_parameter(ts.last()) {
            assert(spec_contains_template_parameter(ts[ts.len() - 1]));
        }
        if exists|i: int| 0 <= i < ts.len() && spec_contains_template_parameter(ts[i]) {
            let i = choose|i: int| 0 <= i < ts.len() && spec_contains_template_parameter(ts[i]);
            if i < ts.len() - 1 {
                assert(ts.drop_last()[i] == ts[i]);
            }
        }
    }
}

impl CppType {
    /// Whether this type reference is itself a template parameter.
    pub fn is_template_parameter(&self) -> (r: bool)
        ensures
            r == spec_is_template_parameter(self@),
    {
        matches!(self.base, CppTypeBase::TemplateParameter { .. })
    }

    /// Whether this type is or contains a template parameter anywhere in
    /// its template arguments.
    #[verifier::loop_isolation(false)]
    pub fn is_or_contains_template_parameter(&self) -> (r: bool)
        ensures
            r == spec_contains_template_parameter(self@),
        decreases self,
    {
        match &self.base {
            CppTypeBase::TemplateParameter { .. } => true,
            CppTypeBase::Class(c) => {
                match &c.template_arguments {
                    Some(args) => {
                        let mut i: usize = 0;
                        let mut found = false;
                        proof {
                            lemma_seq_contains_template_parameter(view_type_seq(args@));
                        }
                        while i < args.len()
                            invariant
                                0 <= i <= args.len(),
                                found <==> exists|j: int|
                                    0 <= j < i && spec_contains_template_parameter(
                                        view_type_seq(args@)[j],
                                    ),
                                self.base is Class,
                                self@.base->Class_0.template_arguments == Some(view_type_seq(args@)),
                            decreases args.len() - i,
                        {
                            proof {
                                lemma_view_type_seq(args@);
                                assert(decreases_to!(*self => self.base));
                                assert(decreases_to!(self.base => self.base->Class_0));
                                assert(decreases_to!(
                                    self.base->Class_0 => self.base->Class_0.template_arguments));
                                assert(decreases_to!(self.base->Class_0.template_arguments
                                    => self.base->Class_0.template_arguments->0));
                                assert(decreases_to!(self.base->Class_0.template_arguments->0
                                    => self.base->Class_0.template_arguments->0@));
                                assert(*args == self.base->Class_0.template_arguments->0);
                                assert(i < self.base->Class_0.template_arguments->0@.len());
                                assert(decreases_to!(self.base->Class_0.template_arguments->0@
                                    => self.base->Class_0.template_arguments->0@[i as int]));
                                assert(decreases_to!(*self => args@[i as int]));
                            }
                            proof {
                                assert(spec_contains_template_parameter(
                                    view_type_seq(args@)[i as int],
                                ) == spec_contains_template_parameter(view_type(args@[i as int])));
                            }
                            if args[i].is_or_contains_template_parameter() {
                                found = true;
                            }
                            i += 1;
                        }
                        found
                    },
                    None => false,
                }
            },
            _ => false,
        }
    }
}

/// Whether every element of `ts` is itself a template parameter.
pub open spec fn spec_all_template_parameters(ts: Seq<CppTypeV>) -> bool {
    forall|i: int| 0 <= i < ts.len() ==> spec_is_template_parameter(ts[i])
}

/// Whether every element of `ts` is a template parameter reference.
#[verifier::loop_isolation(false)]
pub fn all_template_parameters(ts: &Vec<CppType>) -> (r: bool)
    ensures
        r == spec_all_template_parameters(view_type_seq(ts@)),
{
    proof {
        lemma_view_type_seq(ts@);
    }
    let mut i: usize = 0;
    while i < ts.len()
        invariant
            0 <= i <= ts.len(),
            forall|j: int| 0 <= j < i ==> spec_is_template_parameter(view_type_seq(ts@)[j]),
        decreases ts.len() - i,
    {
        if !ts[i].is_template_parameter() {
            proof {
                assert(!spec_is_template_parameter(view_type_seq(ts@)[i as int]));
            }
            return false;
        }
        i += 1;
    }
    true
}

/// Structural equality of two type references, at the level of their views.
#[verifier::loop_isolation(false)]
pub fn type_eq(a: &CppType, b: &CppType) -> (r: bool)
    ensures
        r == (a@ == b@),
    decreases a,
{
    if a.is_const != b.is_const {
        return false;
    }
    if a.indirection != b.indirection {
        return false;
    }
    match (&a.base, &b.base) {
        (CppTypeBase::Void, CppTypeBase::Void) => {
            assert(a@ =~= b@);
            true
        },
        (
            CppTypeBase::TemplateParameter { nested_level: nla, index: ia },
            CppTypeBase::TemplateParameter { nested_level: nlb, index: ib },
        ) => {
            let r = *nla == *nlb && *ia == *ib;
            assert(r == (a@ =~= b@));
            r
        },
        (CppTypeBase::Other(sa), CppTypeBase::Other(sb)) => {
            let r = *sa == *sb;
            assert(r == (a@ =~= b@));
            r
        },
        (CppTypeBase::Class(ca), CppTypeBase::Class(cb)) => {
            if !(ca.name == cb.name) {
                assert(a@ != b@);
                return false;
            }
            match (&ca.template_arguments, &cb.template_arguments) {
                (None, None) => {
                    assert(a@ =~= b@);
                    true
                },
                (Some(va), Some(vb)) => {
                    if va.len() != vb.len() {
                        proof {
                            lemma_view_type_seq(va@);
                            lemma_view_type_seq(vb@);
                        }
                        assert(a@ != b@);
                        return false;
                    }
                    let mut i: usize = 0;
                    while i < va.len()
                        invariant
                            0 <= i <= va.len(),
                            forall|j: int|
                                0 <= j < i ==> view_type_seq(va@)[j] == view_type_seq(vb@)[j],
                        decreases va.len() - i,
                    {
                        proof {
                            lemma_view_type_seq(va@);
                            lemma_view_type_seq(vb@);
                            assert(decreases_to!(*a => a.base));
                            assert(decreases_to!(a.base => a.base->Class_0));
                            assert(decreases_to!(
                                a.base->Class_0 => a.base->Class_0.template_arguments));
                            assert(decreases_to!(a.base->Class_0.template_arguments
                                => a.base->Class_0.template_arguments->0));
                            assert(decreases_to!(a.base->Class_0.template_arguments->0
                                => a.base->Class_0.template_arguments->0@));
                            assert(decreases_to!(a.base->Class_0.template_arguments->0@
                                => a.base->Class_0.template_arguments->0@[i as int]));
                            assert(decreases_to!(*a => va@[i as int]));
                        }
                        if !type_eq(&va[i], &vb[i]) {
                            proof {
                                assert(view_type_seq(va@)[i as int] != view_type_seq(vb@)[i as int]);
                                assert(view_type_seq(va@) != view_type_seq(vb@));
                            }
                            assert(a@ != b@);
                            return false;
                        }
                        i += 1;
                    }
                    proof {
                        lemma_view_type_seq(va@);
                        lemma_view_type_seq(vb@);
                        assert(view_type_seq(va@) =~= view_type_seq(vb@));
                    }
                    assert(a@ =~= b@);
                    true
                },
                _ => {
                    assert(a@ != b@);
                    false
                },
            }
        },
        _ => {
            assert(a@ != b@);
            false
        },
    }
}

/// Structural equality of two lists of type references.
#[verifier::loop_isolation(false)]
pub fn type_vec_eq(a: &Vec<CppType>, b: &Vec<CppType>) -> (r: bool)
    ensures
        r == (view_type_seq(a@) == view_type_seq(b@)),
{
    if a.len() != b.len() {
        return false;
    }
    let mut i: usize = 0;
    while i < a.len()
        invariant
            0 <= i <= a.len(),
            forall|j: int| 0 <= j < i ==> view_type_seq(a@)[j] == view_type_seq(b@)[j],
        decreases a.len() - i,
    {
        proof {
            lemma_view_type_seq(a@);
            lemma_view_type_seq(b@);
        }
        if !type_eq(&a[i], &b[i]) {
            assert(view_type_seq(a@)[i as int] != view_type_seq(b@)[i as int]);
            return false;
        }
        i += 1;
    }
    proof {
        lemma_view_type_seq(a@);
        lemma_view_type_seq(b@);
        assert(view_type_seq(a@) =~= view_type_seq(b@));
    }
    true
}

/// Structural equality of two optional lists of type references.
pub fn opt_type_vec_eq(a: &Option<Vec<CppType>>, b: &Option<Vec<CppType>>) -> (r: bool)
    ensures
        r == (view_type_seq_opt(*a) == view_type_seq_opt(*b)),
{
    match (a, b) {
        (None, None) => true,
        (Some(va), Some(vb)) => type_vec_eq(va, vb),
        _ => false,
    }
}

/// Deep copy of a type reference; the copy has the same view.
pub fn copy_type(t: &CppType) -> (r: CppType)
    ensures
        r@ == t@,
    decreases t,
{
    let r = CppType {
        is_const: t.is_const,
        indirection: t.indirection,
        base: copy_type_base(&t.base),
    };
    assert(r@ =~= t@);
    r
}

/// Deep copy of a type base; the copy has the same view.
pub fn copy_type_base(b: &CppTypeBase) -> (r: CppTypeBase)
    ensures
        r@ == b@,
    decreases b,
{
    match b {
        CppTypeBase::Void => CppTypeBase::Void,
        CppTypeBase::TemplateParameter { nested_level, index } => CppTypeBase::TemplateParameter {
            nested_level: *nested_level,
            index: *index,
        },
        CppTypeBase::Other(s) => CppTypeBase::Other(s.clone()),
        CppTypeBase::Class(c) => CppTypeBase::Class(copy_class_base(c)),
    }
}

/// Deep copy of a class base; the copy has the same view.
pub fn copy_class_base(c: &CppTypeClassBase) -> (r: CppTypeClassBase)
    ensures
        r@ == c@,
    decreases c,
{
    let r = CppTypeClassBase {
        name: c.name.clone(),
        template_arguments: copy_opt_type_vec(&c.template_arguments),
    };
    assert(r@ =~= c@);
    r
}

/// Deep copy of an optional list of type references.
pub fn copy_opt_type_vec(o: &Option<Vec<CppType>>) -> (r: Option<Vec<CppType>>)
    ensures
        view_type_seq_opt(r) == view_type_seq_opt(*o),
    decreases o,
{
    match o {
        None => None,
        Some(v) => Some(copy_type_vec(v)),
    }
}

/// Deep copy of a list of type references.
#[verifier::loop_isolation(false)]
pub fn copy_type_vec(v: &Vec<CppType>) -> (r: Vec<CppType>)
    ensures
        view_type_seq(r@) == view_type_seq(v@),
    decreases v,
{
    let mut out: Vec<CppType> = Vec::new();
    let mut i: usize = 0;
    while i < v.len()
        invariant
            0 <= i <= v.len(),
            out@.len() == i,
            forall|j: int| 0 <= j < i ==> view_type(out@[j]) == view_type(v@[j]),
        decreases v.len() - i,
    {
        proof {
            assert(decreases_to!(*v => v@));
            assert(decreases_to!(v@ => v@[i as int]));
        }
        out.push(copy_type(&v[i]));
        i += 1;
    }
    proof {
        lemma_view_type_seq(out@);
        lemma_view_type_seq(v@);
        assert(view_type_seq(out@) =~= view_type_seq(v@));
    }
    out
}

/// How the indirection of a substituted argument combines with the
/// indirection of the template-parameter reference it replaces: a plain
/// value adopts the other side's indirection; stacking two indirections
/// is rejected.
pub open spec fn spec_combine_indirection(
    arg: CppTypeIndirection,
    site: CppTypeIndirection,
) -> Option<CppTypeIndirection> {
    if site == CppTypeIndirection::Value {
        Some(arg)
    } else if arg == CppTypeIndirection::Value {
        Some(site)
    } else {
        None
    }
}

/// Substitution of the concrete arguments `args` for every template
/// parameter of nesting level `nl` contained in `t`. `None` marks a
/// rejected substitution: an argument index out of range, or indirections
/// that cannot be combined.
pub open spec fn spec_instantiate_type(t: CppTypeV, nl: u64, args: Seq<CppTypeV>) -> Option<
    CppTypeV,
>
    decreases t,
{
    match t.base {
        CppTypeBaseV::TemplateParameter { nested_level, index } => {
            if nested_level == nl {
                if index < args.len() {
                    let arg = args[index as int];
                    match spec_combine_indirection(arg.indirection, t.indirection) {
                        Some(ind) => Some(
                            CppTypeV {
                                is_const: t.is_const || arg.is_const,
                                indirection: ind,
                                base: arg.base,
                            },
                        ),
                        None => None,
                    }
                } else {
                    None
                }
            } else {
                Some(t)
            }
        },
        CppTypeBaseV::Class(c) => {
            if c.template_arguments is Some {
                match spec_instantiate_seq(t.base->Class_0.template_arguments->0, nl, args) {
                    Some(ts) => Some(
                        CppTypeV {
                            is_const: t.is_const,
                            indirection: t.indirection,
                            base: CppTypeBaseV::Class(
                                CppTypeClassBaseV { name: c.name, template_arguments: Some(ts) },
                            ),
                        },
                    ),
                    None => None,
                }
            } else {
                Some(t)
            }
        },
        _ => Some(t),
    }
}

pub open spec fn spec_instantiate_seq(ts: Seq<CppTypeV>, nl: u64, args: Seq<CppTypeV>) -> Option<
    Seq<CppTypeV>,
>
    decreases ts,
{
    if ts.len() == 0 {
        Some(Seq::empty())
    } else {
        match (
            spec_instantiate_seq(ts.drop_last(), nl, args),
            spec_instantiate_type(ts.last(), nl, args),
        ) {
            (Some(init), Some(last)) => Some(init.push(last)),
            _ => None,
        }
    }
}

/// Substituting a sequence succeeds exactly when it succeeds pointwise,
/// and then acts pointwise.
pub proof fn lemma_spec_instantiate_seq(ts: Seq<CppTypeV>, nl: u64, args: Seq<CppTypeV>)
    ensures
        (spec_instantiate_seq(ts, nl, args) is Some) <==> (forall|i: int|
            0 <= i < ts.len() ==> spec_instantiate_type(ts[i], nl, args) is Some),
        spec_instantiate_seq(ts, nl, args) is Some ==> {
            &&& spec_instantiate_seq(ts, nl, args)->0.len() == ts.len()
            &&& forall|i: int|
                0 <= i < ts.len() ==> spec_instantiate_seq(ts, nl, args)->0[i]
                    == spec_instantiate_type(ts[i], nl, args)->0
        },
    decreases ts,
{
    if ts.len() > 0 {
        lemma_spec_instantiate_seq(ts.drop_last(), nl, args);
        assert(forall|i: int| 0 <= i < ts.len() - 1 ==> ts.drop_last()[i] == ts[i]);
        assert(ts.last() == ts[ts.len() - 1]);
    }
}

/// Replaces, in `t`, every template parameter of nesting level
/// `nested_level` with the corresponding element of `args`. An argument
/// index out of range or an impossible indirection combination is an
/// error.
#[verifier::loop_isolation(false)]
pub fn instantiate_type(t: &CppType, nested_level: u64, args: &Vec<CppType>) -> (r: Result<
    CppType,
    String,
>)
    ensures
        r is Ok <==> spec_instantiate_type(t@, nested_level, view_type_seq(args@)) is Some,
        r is Ok ==> (r->Ok_0)@ == spec_instantiate_type(t@, nested_level, view_type_seq(args@))->0,
    decreases t,
{
    let ghost gargs = view_type_seq(args@);
    match &t.base {
        CppTypeBase::TemplateParameter { nested_level: nl, index } => {
            if *nl == nested_level {
                proof {
                    lemma_view_type_seq(args@);
                }
                if *index < args.len() as u64 {
                    let arg = &args[*index as usize];
                    let site = t.indirection;
                    let combined: Option<CppTypeIndirection> = if matches!(
                        site,
                        CppTypeIndirection::Value,
                    ) {
                        Some(arg.indirection)
                    } else if matches!(arg.indirection, CppTypeIndirection::Value) {
                        Some(site)
                    } else {
                        None
                    };
                    match combined {
                        Some(ind) => {
                            let r = CppType {
                                is_const: t.is_const || arg.is_const,
                                indirection: ind,
                                base: copy_type_base(&arg.base),
                            };
                            assert(r@ =~= spec_instantiate_type(t@, nested_level, gargs)->0);
                            Ok(r)
                        },
                        None => Err(String::from_str("cannot combine indirections")),
                    }
                } else {
                    Err(String::from_str("template argument index out of range"))
                }
            } else {
                Ok(copy_type(t))
            }
        },
        CppTypeBase::Class(c) => {
            match &c.template_arguments {
                None => Ok(copy_type(t)),
                Some(v) => {
                    proof {
                        lemma_view_type_seq(v@);
                        lemma_spec_instantiate_seq(view_type_seq(v@), nested_level, gargs);
                    }
                    let mut out: Vec<CppType> = Vec::new();
                    let mut i: usize = 0;
                    while i < v.len()
                        invariant
                            0 <= i <= v.len(),
                            out@.len() == i,
                            forall|j: int|
                                0 <= j < i ==> spec_instantiate_type(
                                    view_type_seq(v@)[j],
                                    nested_level,
                                    gargs,
                                ) is Some,
                            forall|j: int|
                                0 <= j < i ==> view_type(out@[j]) == spec_instantiate_type(
                                    view_type_seq(v@)[j],
                                    nested_level,
                                    gargs,
                                )->0,
                        decreases v.len() - i,
                    {
                        proof {
                            assert(decreases_to!(*t => t.base));
                            assert(decreases_to!(t.base => t.base->Class_0));
                            assert(decreases_to!(
                                t.base->Class_0 => t.base->Class_0.template_arguments));
                            assert(decreases_to!(t.base->Class_0.template_arguments
                                => t.base->Class_0.template_arguments->0));
                            assert(decreases_to!(t.base->Class_0.template_arguments->0
                                => t.base->Class_0.template_arguments->0@));
                            assert(decreases_to!(t.base->Class_0.template_arguments->0@
                                => t.base->Class_0.template_arguments->0@[i as int]));
                            assert(decreases_to!(*t => v@[i as int]));
                        }
                        match instantiate_type(&v[i], nested_level, args) {
                            Ok(nt) => {
                                out.push(nt);
                            },
                            Err(e) => {
                                proof {
                                    assert(spec_instantiate_type(
                                        view_type_seq(v@)[i as int],
                                        nested_level,
                                        gargs,
                                    ) is None);
                                }
                                return Err(e);
                            },
                        }
                        i += 1;
                    }
                    let ghost sub = spec_instantiate_seq(view_type_seq(v@), nested_level, gargs);
                    proof {
                        lemma_view_type_seq(out@);
                        assert(sub is Some);
                        assert(view_type_seq(out@) =~= sub->0);
                    }
                    let r = CppType {
                        is_const: t.is_const,
                        indirection: t.indirection,
                        base: CppTypeBase::Class(
                            CppTypeClassBase {
                                name: c.name.clone(),
                                template_arguments: Some(out),
                            },
                        ),
                    };
                    assert(r@ =~= spec_instantiate_type(t@, nested_level, gargs)->0);
                    Ok(r)
                },
            }
        },
        _ => Ok(copy_type(t)),
    }
}

/// Substitution applied to the template arguments of a class base, as for
/// the owning type of a method's class membership. A class base without
/// template arguments is returned unchanged.
pub open spec fn spec_instantiate_class_base(
    c: CppTypeClassBaseV,
    nl: u64,
    args: Seq<CppTypeV>,
) -> Option<CppTypeClassBaseV> {
    if c.template_arguments is Some {
        match spec_instantiate_seq(c.template_arguments->0, nl, args) {
            Some(ts) => Some(CppTypeClassBaseV { name: c.name, template_arguments: Some(ts) }),
            None => None,
        }
    } else {
        Some(c)
    }
}

/// Replaces template parameters of level `nested_level` inside the
/// template arguments of a class base.
#[verifier::loop_isolation(false)]
pub fn instantiate_class_base(
    c: &CppTypeClassBase,
    nested_level: u64,
    args: &Vec<CppType>,
) -> (r: Result<CppTypeClassBase, String>)
    ensures
        r is Ok <==> spec_instantiate_class_base(c@, nested_level, view_type_seq(args@)) is Some,
        r is Ok ==> (r->Ok_0)@ == spec_instantiate_class_base(
            c@,
            nested_level,
            view_type_seq(args@),
        )->0,
{
    let ghost gargs = view_type_seq(args@);
    match &c.template_arguments {
        None => {
            let r = CppTypeClassBase { name: c.name.clone(), template_arguments: None };
            assert(r@ =~= c@);
            Ok(r)
        },
        Some(v) => {
            proof {
                lemma_view_type_seq(v@);
                lemma_spec_instantiate_seq(view_type_seq(v@), nested_level, gargs);
            }
            let mut out: Vec<CppType> = Vec::new();
            let mut i: usize = 0;
            while i < v.len()
                invariant
                    0 <= i <= v.len(),
                    out@.len() == i,
                    forall|j: int|
                        0 <= j < i ==> spec_instantiate_type(
                            view_type_seq(v@)[j],
                            nested_level,
                            gargs,
                        ) is Some,
                    forall|j: int|
                        0 <= j < i ==> view_type(out@[j]) == spec_instantiate_type(
                            view_type_seq(v@)[j],
                            nested_level,
                            gargs,
                        )->0,
                decreases v.len() - i,
            {
                match instantiate_type(&v[i], nested_level, args) {
                    Ok(nt) => {
                        out.push(nt);
                    },
                    Err(e) => {
                        proof {
                            assert(spec_instantiate_type(
                                view_type_seq(v@)[i as int],
                                nested_level,
                                gargs,
                            ) is None);
                        }
                        return Err(e);
                    },
                }
                i += 1;
            }
            let ghost sub = spec_instantiate_seq(view_type_seq(v@), nested_level, gargs);
            proof {
                lemma_view_type_seq(out@);
                assert(sub is Some);
                assert(view_type_seq(out@) =~= sub->0);
            }
            let r = CppTypeClassBase { name: c.name.clone(), template_arguments: Some(out) };
            assert(r@ =~= spec_instantiate_class_base(c@, nested_level, gargs)->0);
            Ok(r)
        },
    }
}

} // verus!
