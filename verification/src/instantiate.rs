//! Template instantiation: methods declared against a template class are
//! rewritten into concrete methods for each registered instantiation.

use vstd::prelude::*;
use crate::model::{lemma_view_type_seq, view_method_seq, view_type, view_type_seq, CppData, CppDataV, CppFunctionArgument, CppFunctionArgumentV, CppMethod, CppMethodClassMembership, CppMethodV, CppOperator, CppOperatorV, CppTemplateInstantiation, CppTemplateInstantiationV, CppTemplateInstantiationsV, CppType, CppTypeBase, CppTypeBaseV, CppTypeIndirection, CppTypeV};
use crate::database::{copy_operator_opt, copy_origin_opt, spec_arg_types, spec_find_first};
use crate::typeops::{copy_class_base, copy_opt_type_vec, copy_type, instantiate_class_base, instantiate_type, spec_contains_template_parameter, spec_instantiate_class_base, spec_instantiate_type, spec_is_template_parameter, all_template_parameters, spec_all_template_parameters};
use vstd::string::StringExecFns;

verus! {

broadcast use lemma_view_type_seq;

/// Text rendering of a type reference, used to name an instantiated
/// conversion operator after its concrete target type: an optional
/// `const ` prefix, the base text (class name with `<...>` arguments,
/// `void`, the kept name of another base, or `T` for a template
/// parameter), and `*` or `&` for the indirection.
pub open spec fn spec_text_of_type(t: CppTypeV) -> Seq<char>
    decreases t,
{
    (if t.is_const {
        "const "@
    } else {
        Seq::empty()
    }) + spec_text_of_base(t.base) + (match t.indirection {
        CppTypeIndirection::Value => Seq::<char>::empty(),
        CppTypeIndirection::Ptr => "*"@,
        CppTypeIndirection::Ref => "&"@,
    })
}

pub open spec fn spec_text_of_base(b: CppTypeBaseV) -> Seq<char>
    decreases b,
{
    match b {
        CppTypeBaseV::Void => "void"@,
        CppTypeBaseV::Other(s) => s,
        CppTypeBaseV::TemplateParameter { .. } => "T"@,
        CppTypeBaseV::Class(c) => c.name + (if c.template_arguments is Some {
            "<"@ + spec_text_of_list(c.template_arguments->0) + ">"@
        } else {
            Seq::empty()
        }),
    }
}

pub open spec fn spec_text_of_list(ts: Seq<CppTypeV>) -> Seq<char>
    decreases ts,
{
    if ts.len() == 0 {
        Seq::empty()
    } else if ts.len() == 1 {
        spec_text_of_type(ts[0])
    } else {
        spec_text_of_list(ts.drop_last()) + ","@ + spec_text_of_type(ts.last())
    }
}

/// Renders a type reference as text.
#[verifier::loop_isolation(false)]
#[verifier::rlimit(60)]
pub fn type_text(t: &CppType) -> (r: String)
    ensures
        r@ == spec_text_of_type(t@),
    decreases t,
{
    let mut s = String::new();
    if t.is_const {
        s.append("const ");
    }
    match &t.base {
        CppTypeBase::Void => {
            s.append("void");
        },
        CppTypeBase::Other(o) => {
            s.append(o.as_str());
        },
        CppTypeBase::TemplateParameter { .. } => {
            s.append("T");
        },
        CppTypeBase::Class(c) => {
            s.append(c.name.as_str());
            match &c.template_arguments {
                None => {},
                Some(args) => {
                    let ghost before = s@;
                    s.append("<");
                    let n = args.len();
                    let mut i: usize = 0;
                    while i < n
                        invariant
                            0 <= i <= n,
                            n == args@.len(),
                            s@ == before + "<"@ + spec_text_of_list(
                                view_type_seq(args@).take(i as int),
                            ) + (if 0 < i < n {
                                ","@
                            } else {
                                Seq::<char>::empty()
                            }),
                        decreases n - i,
                    {
                        proof {
                            assert(decreases_to!(*t => t.base));
                            assert(decreases_to!(t.base => t.base->Class_0));
                            assert(decreases_to!(
                                t.base->Class_0 => t.base->Class_0.template_arguments));
                            assert(decreases_to!(t.base->Class_0.template_arguments
                                => t.base->Class_0.template_arguments->0));
                            assert(decreases_to!(t.base->Class_0.template_arguments->0
                                => t.base->Class_0.template_arguments->0@));
                            assert(decreases_to!(t.base->Class_0.template_arguments->0@
                                => t.base->Class_0.template_arguments->0@[i as int]));
                            assert(decreases_to!(*t => args@[i as int]));
                        }
                        let piece = type_text(&args[i]);
                        s.append(piece.as_str());
                        proof {
                            let gl = view_type_seq(args@);
                            assert(gl.take(i + 1).drop_last() =~= gl.take(i as int));
                            assert(gl.take(i + 1).last() == gl[i as int]);
                            assert(gl[i as int] == view_type(args@[i as int]));
                            if i == 0 {
                                assert(spec_text_of_list(gl.take(1)) == spec_text_of_type(gl[0]));
                            }
                            assert(s@ =~= before + "<"@ + spec_text_of_list(gl.take(i + 1)) + (
                            if i + 1 < n {
                                Seq::<char>::empty()
                            } else {
                                Seq::<char>::empty()
                            }));
                        }
                        if i + 1 < n {
                            s.append(",");
                        }
                        proof {
                            let gl = view_type_seq(args@);
                            assert(s@ =~= before + "<"@ + spec_text_of_list(gl.take(i + 1)) + (
                            if 0 < i + 1 < n {
                                ","@
                            } else {
                                Seq::<char>::empty()
                            }));
                        }
                        i += 1;
                    }
                    s.append(">");
                    proof {
                        assert(view_type_seq(args@).take(n as int) =~= view_type_seq(args@));
                    }
                },
            }
        },
    }
    match t.indirection {
        CppTypeIndirection::Value => {},
        CppTypeIndirection::Ptr => {
            s.append("*");
        },
        CppTypeIndirection::Ref => {
            s.append("&");
        },
    }
    proof {
        assert(s@ =~= spec_text_of_type(t@));
    }
    s
}

/// The type references a method involves, in a fixed scan order: return
/// type, parameter types, the conversion target of a conversion
/// operator, and the owning class of its class membership.
pub open spec fn spec_involved_types(m: CppMethodV) -> Seq<CppTypeV> {
    seq![m.return_type] + spec_arg_types(m) + (match m.operator {
        Some(CppOperatorV::Conversion(t)) => seq![t],
        _ => Seq::<CppTypeV>::empty(),
    }) + (match m.class_membership {
        Some(info) => seq![
            CppTypeV {
                is_const: false,
                indirection: CppTypeIndirection::Value,
                base: CppTypeBaseV::Class(info.class_type),
            },
        ],
        None => Seq::<CppTypeV>::empty(),
    })
}

impl CppMethod {
    /// All type references this method involves.
    #[verifier::loop_isolation(false)]
    pub fn all_involved_types(&self) -> (r: Vec<CppType>)
        ensures
            view_type_seq(r@) == spec_involved_types(self@),
    {
        let mut out: Vec<CppType> = Vec::new();
        out.push(copy_type(&self.return_type));
        let mut i: usize = 0;
        while i < self.arguments.len()
            invariant
                0 <= i <= self.arguments.len(),
                out@.len() == 1 + i,
                view_type(out@[0]) == self@.return_type,
                forall|j: int| 0 <= j < i ==> view_type(out@[1 + j]) == spec_arg_types(self@)[j],
            decreases self.arguments.len() - i,
        {
            out.push(copy_type(&self.arguments[i].argument_type));
            i += 1;
        }
        match &self.operator {
            Some(CppOperator::Conversion(t)) => {
                out.push(copy_type(t));
            },
            _ => {},
        }
        match &self.class_membership {
            Some(info) => {
                out.push(
                    CppType {
                        is_const: false,
                        indirection: CppTypeIndirection::Value,
                        base: CppTypeBase::Class(copy_class_base(&info.class_type)),
                    },
                );
            },
            None => {},
        }
        proof {
            lemma_view_type_seq(out@);
            assert(view_type_seq(out@) =~= spec_involved_types(self@));
        }
        out
    }
}

/// Substitution applied to a parameter list: each parameter keeps its
/// name and default-value flag and has its type substituted.
pub open spec fn spec_instantiate_args(
    args: Seq<CppFunctionArgumentV>,
    nl: u64,
    targs: Seq<CppTypeV>,
) -> Option<Seq<CppFunctionArgumentV>>
    decreases args,
{
    if args.len() == 0 {
        Some(Seq::empty())
    } else {
        match (
            spec_instantiate_args(args.drop_last(), nl, targs),
            spec_instantiate_type(args.last().argument_type, nl, targs),
        ) {
            (Some(init), Some(t)) => Some(
                init.push(CppFunctionArgumentV { argument_type: t, ..args.last() }),
            ),
            _ => None,
        }
    }
}

pub proof fn lemma_spec_instantiate_args(args: Seq<CppFunctionArgumentV>, nl: u64, targs: Seq<CppTypeV>)
    ensures
        (spec_instantiate_args(args, nl, targs) is Some) <==> (forall|i: int|
            0 <= i < args.len() ==> spec_instantiate_type(args[i].argument_type, nl, targs)
                is Some),
        spec_instantiate_args(args, nl, targs) is Some ==> {
            &&& spec_instantiate_args(args, nl, targs)->0.len() == args.len()
            &&& forall|i: int|
                0 <= i < args.len() ==> spec_instantiate_args(args, nl, targs)->0[i]
                    == (CppFunctionArgumentV {
                    argument_type: spec_instantiate_type(args[i].argument_type, nl, targs)->0,
                    ..args[i]
                })
        },
    decreases args,
{
    if args.len() > 0 {
        lemma_spec_instantiate_args(args.drop_last(), nl, targs);
        assert(forall|i: int| 0 <= i < args.len() - 1 ==> args.drop_last()[i] == args[i]);
        assert(args.last() == args[args.len() - 1]);
    }
}

/// Whether some involved type of `m` still contains a template
/// parameter.
pub open spec fn spec_has_residual_parameter(m: CppMethodV) -> bool {
    exists|j: int|
        0 <= j < spec_involved_types(m).len() && spec_contains_template_parameter(
            spec_involved_types(m)[j],
        )
}

/// One registered instantiation applied to `m`: every involved type has
/// the concrete arguments substituted for the template parameters of
/// nesting level `nl`; a conversion operator is renamed after its
/// concrete target. `None` marks a failed substitution or residual
/// template parameters; the whole candidate is then rejected.
pub open spec fn spec_apply_one(m: CppMethodV, nl: u64, targs: Seq<CppTypeV>) -> Option<
    CppMethodV,
> {
    match (
        spec_instantiate_args(m.arguments, nl, targs),
        spec_instantiate_type(m.return_type, nl, targs),
    ) {
        (Some(new_args), Some(new_ret)) => {
            let memb_ok = match m.class_membership {
                Some(info) => spec_instantiate_class_base(info.class_type, nl, targs) is Some,
                None => true,
            };
            let oper_ok = match m.operator {
                Some(CppOperatorV::Conversion(t)) => spec_instantiate_type(t, nl, targs) is Some,
                _ => true,
            };
            if memb_ok && oper_ok {
                let new_memb = match m.class_membership {
                    Some(info) => Some(
                        crate::model::CppMethodClassMembershipV {
                            class_type: spec_instantiate_class_base(info.class_type, nl, targs)->0,
                            ..info
                        },
                    ),
                    None => None,
                };
                let new_oper = match m.operator {
                    Some(CppOperatorV::Conversion(t)) => Some(
                        CppOperatorV::Conversion(spec_instantiate_type(t, nl, targs)->0),
                    ),
                    other => other,
                };
                let new_name = match m.operator {
                    Some(CppOperatorV::Conversion(t)) => "operator "@ + spec_text_of_type(
                        spec_instantiate_type(t, nl, targs)->0,
                    ),
                    _ => m.name,
                };
                let new_m = CppMethodV {
                    name: new_name,
                    return_type: new_ret,
                    arguments: new_args,
                    operator: new_oper,
                    class_membership: new_memb,
                    ..m
                };
                if spec_has_residual_parameter(new_m) {
                    None
                } else {
                    Some(new_m)
                }
            } else {
                None
            }
        },
        _ => None,
    }
}

/// All registered instantiations applied to `m`; one failure rejects
/// them all.
pub open spec fn spec_apply_all(
    m: CppMethodV,
    nl: u64,
    inss: Seq<CppTemplateInstantiationV>,
) -> Option<Seq<CppMethodV>>
    decreases inss,
{
    if inss.len() == 0 {
        Some(Seq::empty())
    } else {
        match (
            spec_apply_all(m, nl, inss.drop_last()),
            spec_apply_one(m, nl, inss.last().template_arguments),
        ) {
            (Some(init), Some(nm)) => Some(init.push(nm)),
            _ => None,
        }
    }
}

/// Template instantiation is exact: success yields one method per
/// registered instantiation — the corresponding substitution — and every
/// produced method involves no template parameter anywhere; any failure
/// yields no method at all.
pub proof fn lemma_instantiation_exact(m: CppMethodV, nl: u64, inss: Seq<CppTemplateInstantiationV>)
    ensures
        (spec_apply_all(m, nl, inss) is Some) <==> (forall|i: int|
            0 <= i < inss.len() ==> spec_apply_one(m, nl, inss[i].template_arguments) is Some),
        spec_apply_all(m, nl, inss) is Some ==> {
            &&& spec_apply_all(m, nl, inss)->0.len() == inss.len()
            &&& forall|i: int|
                0 <= i < inss.len() ==> spec_apply_all(m, nl, inss)->0[i] == spec_apply_one(
                    m,
                    nl,
                    inss[i].template_arguments,
                )->0
            &&& forall|i: int|
                0 <= i < inss.len() ==> !spec_has_residual_parameter(
                    #[trigger] spec_apply_all(m, nl, inss)->0[i],
                )
        },
    decreases inss,
{
    if inss.len() > 0 {
        lemma_instantiation_exact(m, nl, inss.drop_last());
        assert(forall|i: int| 0 <= i < inss.len() - 1 ==> inss.drop_last()[i] == inss[i]);
        assert(inss.last() == inss[inss.len() - 1]);
    }
}

/// Applies every registered instantiation of `template_instantiations`
/// to `method`: substitutes the concrete arguments at nesting level
/// `nested_level` into all involved types, renaming instantiated
/// conversion operators. Fails — producing no method — when a
/// substitution fails or leaves a template parameter behind.
#[verifier::loop_isolation(false)]
#[verifier::rlimit(60)]
pub fn apply_instantiations_to_method(
    method: &CppMethod,
    nested_level: u64,
    template_instantiations: &Vec<CppTemplateInstantiation>,
) -> (r: Result<Vec<CppMethod>, String>)
    ensures
        r is Ok <==> spec_apply_all(
            method@,
            nested_level,
            crate::model::view_instantiation_seq(template_instantiations@),
        ) is Some,
        r is Ok ==> view_method_seq((r->Ok_0)@) == spec_apply_all(
            method@,
            nested_level,
            crate::model::view_instantiation_seq(template_instantiations@),
        )->0,
{
    let ghost ginss = crate::model::view_instantiation_seq(template_instantiations@);
    let mut out: Vec<CppMethod> = Vec::new();
    let n = template_instantiations.len();
    let mut idx: usize = 0;
    proof {
        lemma_instantiation_exact(method@, nested_level, ginss);
    }
    while idx < n
        invariant
            0 <= idx <= n,
            n == template_instantiations@.len(),
            forall|j: int|
                0 <= j < idx ==> spec_apply_one(
                    method@,
                    nested_level,
                    ginss[j].template_arguments,
                ) is Some,
            view_method_seq(out@).len() == idx,
            forall|j: int|
                0 <= j < idx ==> view_method_seq(out@)[j] == spec_apply_one(
                    method@,
                    nested_level,
                    ginss[j].template_arguments,
                )->0,
        decreases n - idx,
    {
        let ins = &template_instantiations[idx];
        let ghost gtargs = crate::model::view_type_seq(ins.template_arguments@);
        proof {
            assert(ginss[idx as int].template_arguments == gtargs);
            lemma_spec_instantiate_args(method@.arguments, nested_level, gtargs);
        }
        // arguments
        let mut new_args: Vec<CppFunctionArgument> = Vec::new();
        let na = method.arguments.len();
        let mut ai: usize = 0;
        while ai < na
            invariant
                0 <= ai <= na,
                na == method.arguments@.len(),
                new_args@.len() == ai,
                forall|j: int|
                    0 <= j < ai ==> spec_instantiate_type(
                        method@.arguments[j].argument_type,
                        nested_level,
                        gtargs,
                    ) is Some,
                forall|j: int|
                    0 <= j < ai ==> crate::model::view_argument(new_args@[j])
                        == (CppFunctionArgumentV {
                        argument_type: spec_instantiate_type(
                            method@.arguments[j].argument_type,
                            nested_level,
                            gtargs,
                        )->0,
                        ..method@.arguments[j]
                    }),
            decreases na - ai,
        {
            let a = &method.arguments[ai];
            match instantiate_type(&a.argument_type, nested_level, &ins.template_arguments) {
                Ok(t) => {
                    let c = CppFunctionArgument {
                        name: a.name.clone(),
                        argument_type: t,
                        has_default_value: a.has_default_value,
                    };
                    proof {
                        assert(crate::model::view_argument(c) =~= (CppFunctionArgumentV {
                            argument_type: spec_instantiate_type(
                                method@.arguments[ai as int].argument_type,
                                nested_level,
                                gtargs,
                            )->0,
                            ..method@.arguments[ai as int]
                        }));
                    }
                    new_args.push(c);
                },
                Err(e) => {
                    proof {
                        assert(spec_apply_one(method@, nested_level, gtargs) is None);
                    }
                    return Err(e);
                },
            }
            ai += 1;
        }
        proof {
            assert(spec_instantiate_args(method@.arguments, nested_level, gtargs) is Some);
            assert(crate::model::view_argument_seq(new_args@) =~= spec_instantiate_args(
                method@.arguments,
                nested_level,
                gtargs,
            )->0);
        }
        // return type
        let new_ret = match instantiate_type(
            &method.return_type,
            nested_level,
            &ins.template_arguments,
        ) {
            Ok(t) => t,
            Err(e) => {
                proof {
                    assert(spec_apply_one(method@, nested_level, gtargs) is None);
                }
                return Err(e);
            },
        };
        // class membership
        let new_memb: Option<CppMethodClassMembership> = match &method.class_membership {
            Some(info) => {
                match instantiate_class_base(&info.class_type, nested_level, &ins.template_arguments) {
                    Ok(ct) => Some(
                        CppMethodClassMembership {
                            class_type: ct,
                            kind: info.kind,
                            visibility: info.visibility,
                            is_virtual: info.is_virtual,
                            is_pure_virtual: info.is_pure_virtual,
                            is_const: info.is_const,
                            is_static: info.is_static,
                            is_signal: info.is_signal,
                            is_slot: info.is_slot,
                        },
                    ),
                    Err(e) => {
                        proof {
                            assert(spec_apply_one(method@, nested_level, gtargs) is None);
                        }
                        return Err(e);
                    },
                }
            },
            None => None,
        };
        // operator and conversion target
        let mut conversion: Option<CppType> = None;
        let new_oper: Option<CppOperator> = match &method.operator {
            Some(CppOperator::Conversion(t)) => {
                match instantiate_type(t, nested_level, &ins.template_arguments) {
                    Ok(t2) => {
                        conversion = Some(copy_type(&t2));
                        Some(CppOperator::Conversion(t2))
                    },
                    Err(e) => {
                        proof {
                            assert(spec_apply_one(method@, nested_level, gtargs) is None);
                        }
                        return Err(e);
                    },
                }
            },
            _ => copy_operator_opt(&method.operator),
        };
        // name, embedding the concrete conversion target
        let new_name: String = match &conversion {
            Some(ct) => {
                let mut s = String::from_str("operator ");
                let txt = type_text(ct);
                s.append(txt.as_str());
                s
            },
            None => method.name.clone(),
        };
        let new_method = CppMethod {
            name: new_name,
            return_type: new_ret,
            arguments: new_args,
            operator: new_oper,
            class_membership: new_memb,
            template_arguments: copy_opt_type_vec(&method.template_arguments),
            include_file: method.include_file.clone(),
            origin_location: copy_origin_opt(&method.origin_location),
        };
        let ghost m1 = (match spec_apply_one(method@, nested_level, gtargs) {
            Some(x) => x,
            None => new_method@,
        });
        proof {
            assert(spec_instantiate_args(method@.arguments, nested_level, gtargs) is Some);
            assert(spec_instantiate_type(method@.return_type, nested_level, gtargs) is Some);
        }
        // residual template parameters reject the whole candidate set
        let involved = new_method.all_involved_types();
        let ghost ginv = crate::model::view_type_seq(involved@);
        let ni = involved.len();
        let mut vi: usize = 0;
        while vi < ni
            invariant
                0 <= vi <= ni,
                ni == involved@.len(),
                forall|j: int| 0 <= j < vi ==> !spec_contains_template_parameter(ginv[j]),
            decreases ni - vi,
        {
            proof {
                lemma_view_type_seq(involved@);
            }
            if involved[vi].is_or_contains_template_parameter() {
                proof {
                    assert(spec_contains_template_parameter(ginv[vi as int]));
                    assert(spec_has_residual_parameter(new_method@));
                    assert(spec_apply_one(method@, nested_level, gtargs) is None);
                }
                return Err(String::from_str("found remaining template parameters"));
            }
            vi += 1;
        }
        proof {
            lemma_view_type_seq(involved@);
            assert(!spec_has_residual_parameter(new_method@));
            assert(new_method@ =~~= m1);
            assert(spec_apply_one(method@, nested_level, gtargs) == Some(new_method@));
        }
        let ghost outb = out@;
        let ghost nmv = new_method@;
        out.push(new_method);
        proof {
            assert(view_method_seq(out@) =~= view_method_seq(outb).push(nmv));
        }
        idx += 1;
    }
    proof {
        assert(spec_apply_all(method@, nested_level, ginss) is Some);
        assert(view_method_seq(out@) =~= spec_apply_all(method@, nested_level, ginss)->0);
    }
    Ok(out)
}

/// The registered instantiation set of the class called `name`, if any.
pub open spec fn spec_registered(
    tis: Seq<CppTemplateInstantiationsV>,
    name: Seq<char>,
) -> Option<CppTemplateInstantiationsV> {
    spec_find_first(tis, |e: CppTemplateInstantiationsV| e.class_name == name)
}

/// The scan of a method's involved types, in order: the first class type
/// reference with template arguments that are all template parameters
/// and a registered class name is the one candidate; its substitution
/// result (or nothing, when rejected) is the method's contribution, and
/// the scan stops there. A class type reference carrying an empty
/// template-argument list is an internal-consistency fault (`None`): a
/// template use must name its arguments.
pub open spec fn spec_scan_list(d: CppDataV, m: CppMethodV, invs: Seq<CppTypeV>) -> Option<
    Seq<CppMethodV>,
>
    decreases invs,
{
    if invs.len() == 0 {
        Some(Seq::empty())
    } else {
        let t = invs[0];
        if t.base is Class && t.base->Class_0.template_arguments is Some {
            let targs = t.base->Class_0.template_arguments->0;
            if targs.len() == 0 {
                None
            } else if spec_all_template_parameters(targs) && spec_registered(
                d.template_instantiations,
                t.base->Class_0.name,
            ) is Some {
                let nl = targs[0].base->TemplateParameter_nested_level;
                match spec_apply_all(
                    m,
                    nl,
                    spec_registered(d.template_instantiations, t.base->Class_0.name)->0.instantiations,
                ) {
                    Some(ms) => Some(ms),
                    None => Some(Seq::empty()),
                }
            } else {
                spec_scan_list(d, m, invs.drop_first())
            }
        } else {
            spec_scan_list(d, m, invs.drop_first())
        }
    }
}

/// What template instantiation contributes for one method.
pub open spec fn spec_method_contrib(d: CppDataV, m: CppMethodV) -> Option<Seq<CppMethodV>> {
    spec_scan_list(d, m, spec_involved_types(m))
}

/// What the pass contributes for the first `i` methods; `None` when any
/// of them hits an internal-consistency fault.
pub open spec fn spec_pass_contrib(d: CppDataV, i: int) -> Option<Seq<CppMethodV>>
    decreases i,
{
    if i <= 0 {
        Some(Seq::empty())
    } else {
        match (spec_pass_contrib(d, i - 1), spec_method_contrib(d, d.methods[i - 1])) {
            (Some(init), Some(ms)) => Some(init + ms),
            _ => None,
        }
    }
}

/// A fault at one method is a fault of the pass.
proof fn lemma_pass_contrib_none_mono(d: CppDataV, i: int, k: int)
    requires
        0 <= i <= k,
        spec_pass_contrib(d, i) is None,
    ensures
        spec_pass_contrib(d, k) is None,
    decreases k - i,
{
    if i < k {
        lemma_pass_contrib_none_mono(d, i, k - 1);
    }
}

impl CppData {
    /// The index of the registered instantiation set of the class called
    /// `name`, if any.
    #[verifier::loop_isolation(false)]
    pub fn find_instantiations_index(&self, name: &String) -> (r: Option<usize>)
        ensures
            match r {
                Some(i) => i < self@.template_instantiations.len() && spec_registered(
                    self@.template_instantiations,
                    name@,
                ) == Some(self@.template_instantiations[i as int]),
                None => spec_registered(self@.template_instantiations, name@) is None,
            },
    {
        let ghost pred = |e: CppTemplateInstantiationsV| e.class_name == name@;
        let mut i: usize = 0;
        while i < self.template_instantiations.len()
            invariant
                0 <= i <= self.template_instantiations.len(),
                forall|j: int| 0 <= j < i ==> !pred(self@.template_instantiations[j]),
            decreases self.template_instantiations.len() - i,
        {
            if self.template_instantiations[i].class_name == *name {
                proof {
                    crate::database::lemma_find_first_at(
                        self@.template_instantiations,
                        pred,
                        i as int,
                    );
                }
                return Some(i);
            }
            i += 1;
        }
        proof {
            crate::database::lemma_find_first_none(self@.template_instantiations, pred);
        }
        None
    }

    /// The methods that template instantiation produces for method
    /// `mi`, or the internal-consistency fault that stops the pass.
    #[verifier::loop_isolation(false)]
    fn method_contribution(&self, mi: usize) -> (r: Result<Vec<CppMethod>, String>)
        requires
            mi < self@.methods.len(),
        ensures
            r is Ok <==> spec_method_contrib(self@, self@.methods[mi as int]) is Some,
            r is Ok ==> view_method_seq((r->Ok_0)@) == spec_method_contrib(
                self@,
                self@.methods[mi as int],
            )->0,
    {
        let ghost m = self@.methods[mi as int];
        let involved = self.methods[mi].all_involved_types();
        let ghost ginv = crate::model::view_type_seq(involved@);
        proof {
            assert(ginv.skip(0) =~= ginv);
        }
        let n = involved.len();
        let mut j: usize = 0;
        while j < n
            invariant
                0 <= j <= n,
                n == involved@.len(),
                ginv == spec_involved_types(m),
                spec_scan_list(self@, m, ginv.skip(j as int)) == spec_scan_list(self@, m, ginv),
            decreases n - j,
        {
            proof {
                lemma_view_type_seq(involved@);
                assert(ginv.skip(j as int)[0] == ginv[j as int]);
                assert(ginv.skip(j as int).drop_first() =~= ginv.skip(j + 1));
            }
            let t = &involved[j];
            match &t.base {
                CppTypeBase::Class(cb) => {
                    match &cb.template_arguments {
                        Some(targs) => {
                            if targs.len() == 0 {
                                proof {
                                    assert(spec_scan_list(self@, m, ginv.skip(j as int)) is None);
                                }
                                return Err(
                                    String::from_str("template use with empty argument list"),
                                );
                            }
                            if all_template_parameters(targs) {
                                match self.find_instantiations_index(&cb.name) {
                                    Some(ei) => {
                                        let ghost gtargs = view_type_seq(targs@);
                                        let nl: u64 = match &targs[0].base {
                                            CppTypeBase::TemplateParameter { nested_level, .. } => {
                                                *nested_level
                                            },
                                            _ => {
                                                proof {
                                                    assert(spec_is_template_parameter(gtargs[0]));
                                                    assert(false);
                                                }
                                                0
                                            },
                                        };
                                        proof {
                                            assert(nl == gtargs[0]
                                                .base->TemplateParameter_nested_level);
                                        }
                                        let res = apply_instantiations_to_method(
                                            &self.methods[mi],
                                            nl,
                                            &self.template_instantiations[ei].instantiations,
                                        );
                                        match res {
                                            Ok(ms) => {
                                                proof {
                                                    assert(spec_scan_list(
                                                        self@,
                                                        m,
                                                        ginv.skip(j as int),
                                                    ) == Some(view_method_seq(ms@)));
                                                }
                                                return Ok(ms);
                                            },
                                            Err(_) => {
                                                proof {
                                                    assert(spec_scan_list(
                                                        self@,
                                                        m,
                                                        ginv.skip(j as int),
                                                    ) == Some(Seq::<CppMethodV>::empty()));
                                                }
                                                return Ok(Vec::new());
                                            },
                                        }
                                    },
                                    None => {
                                        proof {
                                            assert(spec_scan_list(self@, m, ginv.skip(j as int))
                                                == spec_scan_list(self@, m, ginv.skip(j + 1)));
                                        }
                                    },
                                }
                            } else {
                                proof {
                                    assert(spec_scan_list(self@, m, ginv.skip(j as int))
                                        == spec_scan_list(self@, m, ginv.skip(j + 1)));
                                }
                            }
                        },
                        None => {
                            proof {
                                assert(spec_scan_list(self@, m, ginv.skip(j as int))
                                    == spec_scan_list(self@, m, ginv.skip(j + 1)));
                            }
                        },
                    }
                },
                _ => {
                    proof {
                        assert(spec_scan_list(self@, m, ginv.skip(j as int)) == spec_scan_list(
                            self@,
                            m,
                            ginv.skip(j + 1),
                        ));
                    }
                },
            }
            j += 1;
        }
        proof {
            assert(ginv.skip(n as int).len() == 0);
            assert(spec_scan_list(self@, m, ginv.skip(n as int)) == Some(
                Seq::<CppMethodV>::empty(),
            ));
        }
        Ok(Vec::new())
    }

    /// Rewrites every method that is generic over a registered template
    /// class into concrete methods, one per registered instantiation,
    /// and appends them; candidates whose substitution fails or leaves
    /// template parameters produce nothing. A class type reference with
    /// an empty template-argument list is an internal-consistency fault:
    /// the pass stops with an error and the database is unchanged.
    #[verifier::loop_isolation(false)]
    pub fn instantiate_templates(&mut self) -> (r: Result<(), String>)
        ensures
            r is Ok <==> spec_pass_contrib(old(self)@, old(self)@.methods.len() as int) is Some,
            r is Ok ==> final(self)@.types == old(self)@.types
                && final(self)@.template_instantiations == old(self)@.template_instantiations
                && final(self)@.methods == old(self)@.methods + spec_pass_contrib(
                old(self)@,
                old(self)@.methods.len() as int,
            )->0,
            r is Err ==> final(self)@ == old(self)@,
    {
        let ghost d0 = old(self)@;
        let mut new_methods: Vec<CppMethod> = Vec::new();
        let n = self.methods.len();
        let mut i: usize = 0;
        while i < n
            invariant
                0 <= i <= n,
                n == self.methods@.len(),
                *self == *old(self),
                spec_pass_contrib(d0, i as int) is Some,
                view_method_seq(new_methods@) == spec_pass_contrib(d0, i as int)->0,
            decreases n - i,
        {
            match self.method_contribution(i) {
                Ok(mut ms) => {
                    let ghost before = new_methods@;
                    let ghost msv = ms@;
                    new_methods.append(&mut ms);
                    proof {
                        assert(new_methods@ =~= before + msv);
                        crate::model::lemma_view_method_seq_add(before, msv);
                        assert(view_method_seq(new_methods@) =~= spec_pass_contrib(d0, i + 1)->0);
                    }
                },
                Err(e) => {
                    proof {
                        assert(spec_pass_contrib(d0, i + 1) is None);
                        lemma_pass_contrib_none_mono(d0, i + 1, n as int);
                    }
                    return Err(e);
                },
            }
            i += 1;
        }
        let ghost appended = new_methods@;
        self.methods.append(&mut new_methods);
        proof {
            assert(self.methods@ =~= old(self).methods@ + appended);
            crate::model::lemma_view_method_seq_add(old(self).methods@, appended);
            assert(self@.methods =~= d0.methods + spec_pass_contrib(d0, n as int)->0);
        }
        Ok(())
    }
}

} // verus!
