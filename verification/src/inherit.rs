//! Inheritance propagation: non-overridden, non-special base-class
//! methods are copied into derived classes, transitively through the
//! hierarchy.

use vstd::prelude::*;
use crate::model::{view_method_seq, view_string_seq, view_type_seq_opt, CppData, CppMethod, CppMethodClassMembership, CppMethodKind, CppMethodV, CppOperator, CppOperatorV, CppType, CppTypeBase, CppTypeData, CppTypeDataV, CppTypeKind, CppTypeV};
use crate::database::{spec_class_name, spec_default_class_type, spec_is_class, spec_kind_bases};
use crate::typeops::opt_type_vec_eq;

verus! {

/// Whether a method of the class called `derived_name` with name `mname`
/// already stands in `methods`: a name-only match that suppresses
/// inheritance of a base method of the same name.
pub open spec fn spec_shadowed(
    methods: Seq<CppMethodV>,
    derived_name: Seq<char>,
    mname: Seq<char>,
) -> bool {
    exists|k: int|
        0 <= k < methods.len() && spec_class_name(methods[k]) == Some(derived_name)
            && methods[k].name == mname
}

/// Whether C++ would let a derived class inherit this method at all:
/// it must be a class member and neither a constructor, a destructor,
/// nor an assignment operator.
pub open spec fn spec_inheritable(m: CppMethodV) -> bool {
    &&& m.class_membership is Some
    &&& m.class_membership->0.kind != CppMethodKind::Constructor
    &&& m.class_membership->0.kind != CppMethodKind::Destructor
    &&& m.operator != Some(CppOperatorV::Assignment)
}

/// The candidate predicate of one inheritance edge: the method belongs
/// exactly to the base class (name and template-argument binding), is
/// inheritable, and is not name-shadowed in the derived class.
pub open spec fn spec_edge_pred(
    methods: Seq<CppMethodV>,
    derived_name: Seq<char>,
    base_name: Seq<char>,
    targs: Option<Seq<CppTypeV>>,
) -> spec_fn(CppMethodV) -> bool {
    |m: CppMethodV|
        {
            &&& spec_inheritable(m)
            &&& m.class_membership->0.class_type.name == base_name
            &&& m.class_membership->0.class_type.template_arguments == targs
            &&& !spec_shadowed(methods, derived_name, m.name)
        }
}

/// A base method copied into the derived class declared by `t`: the
/// class membership is rebound to the derived class's default
/// instantiation, the include file becomes the derived class's, and the
/// origin is cleared (the copy is synthesized).
pub open spec fn spec_rebind(m: CppMethodV, t: CppTypeDataV) -> CppMethodV {
    CppMethodV {
        class_membership: match m.class_membership {
            Some(info) => Some(
                crate::model::CppMethodClassMembershipV {
                    class_type: spec_default_class_type(t),
                    ..info
                },
            ),
            None => None,
        },
        include_file: t.include_file,
        origin_location: None,
        ..m
    }
}

/// The methods one inheritance edge contributes to the derived class
/// declared by `t`.
pub open spec fn spec_inherited_for_edge(
    methods: Seq<CppMethodV>,
    t: CppTypeDataV,
    base_name: Seq<char>,
    targs: Option<Seq<CppTypeV>>,
) -> Seq<CppMethodV> {
    methods.filter(spec_edge_pred(methods, t.name, base_name, targs)).map_values(
        |m: CppMethodV| spec_rebind(m, t),
    )
}

/// Whether base edge `b` is an edge to the class called `base_name`.
pub open spec fn spec_edge_matches(b: crate::model::CppBaseSpecifierV, base_name: Seq<char>) -> bool {
    b.base_type.base is Class && b.base_type.base->Class_0.name == base_name
}

/// What the first `k` base edges of `t` contribute.
pub open spec fn spec_edges_contrib(
    methods: Seq<CppMethodV>,
    t: CppTypeDataV,
    base_name: Seq<char>,
    k: int,
) -> Seq<CppMethodV>
    decreases k,
{
    if k <= 0 {
        Seq::empty()
    } else {
        spec_edges_contrib(methods, t, base_name, k - 1) + (if spec_edge_matches(
            spec_kind_bases(t.kind)[k - 1],
            base_name,
        ) {
            spec_inherited_for_edge(
                methods,
                t,
                base_name,
                spec_kind_bases(t.kind)[k - 1].base_type.base->Class_0.template_arguments,
            )
        } else {
            Seq::empty()
        })
    }
}

/// How many derived-class entries the first `k` base edges of `t`
/// register: one per matching edge.
pub open spec fn spec_edge_names(t: CppTypeDataV, base_name: Seq<char>, k: int) -> Seq<Seq<char>>
    decreases k,
{
    if k <= 0 {
        Seq::empty()
    } else {
        spec_edge_names(t, base_name, k - 1) + (if spec_edge_matches(
            spec_kind_bases(t.kind)[k - 1],
            base_name,
        ) {
            seq![t.name]
        } else {
            Seq::empty()
        })
    }
}

/// What the first `i` type declarations contribute when inheriting from
/// the class called `base_name`.
pub open spec fn spec_types_contrib(
    types: Seq<CppTypeDataV>,
    methods: Seq<CppMethodV>,
    base_name: Seq<char>,
    i: int,
) -> Seq<CppMethodV>
    decreases i,
{
    if i <= 0 {
        Seq::empty()
    } else {
        spec_types_contrib(types, methods, base_name, i - 1) + (if types[i - 1].kind is Class {
            spec_edges_contrib(
                methods,
                types[i - 1],
                base_name,
                spec_kind_bases(types[i - 1].kind).len() as int,
            )
        } else {
            Seq::empty()
        })
    }
}

/// The derived-class names registered by the first `i` type
/// declarations.
pub open spec fn spec_types_names(
    types: Seq<CppTypeDataV>,
    base_name: Seq<char>,
    i: int,
) -> Seq<Seq<char>>
    decreases i,
{
    if i <= 0 {
        Seq::empty()
    } else {
        spec_types_names(types, base_name, i - 1) + (if types[i - 1].kind is Class {
            spec_edge_names(types[i - 1], base_name, spec_kind_bases(types[i - 1].kind).len() as int)
        } else {
            Seq::empty()
        })
    }
}

/// The full method list after one propagation step from `base_name` and
/// its recursive continuation into the classes that just inherited,
/// bounded by `fuel` recursion levels; any `fuel` at least the depth of
/// the (acyclic) hierarchy gives the exact result.
pub open spec fn spec_inherit_from(
    types: Seq<CppTypeDataV>,
    methods: Seq<CppMethodV>,
    base_name: Seq<char>,
    fuel: nat,
) -> Seq<CppMethodV>
    decreases fuel, 1nat, 0nat,
{
    let grown = methods + spec_types_contrib(types, methods, base_name, types.len() as int);
    if fuel == 0 {
        grown
    } else {
        spec_inherit_list(
            types,
            grown,
            spec_types_names(types, base_name, types.len() as int),
            (fuel - 1) as nat,
        )
    }
}

/// Propagation continued from each name in `names`, in order.
pub open spec fn spec_inherit_list(
    types: Seq<CppTypeDataV>,
    methods: Seq<CppMethodV>,
    names: Seq<Seq<char>>,
    fuel: nat,
) -> Seq<CppMethodV>
    decreases fuel, 2nat, names.len(),
{
    if names.len() == 0 {
        methods
    } else {
        spec_inherit_list(
            types,
            spec_inherit_from(types, methods, names[0], fuel),
            names.drop_first(),
            fuel,
        )
    }
}

/// The whole pass: propagation run from every type name, in database
/// order, each with recursion bound `types.len()`.
pub open spec fn spec_inherit_all(
    types: Seq<CppTypeDataV>,
    methods: Seq<CppMethodV>,
    i: int,
) -> Seq<CppMethodV>
    decreases i,
{
    if i <= 0 {
        methods
    } else {
        spec_inherit_from(
            types,
            spec_inherit_all(types, methods, i - 1),
            types[i - 1].name,
            types.len() as nat,
        )
    }
}

impl CppData {
    /// Whether some method of the class called `derived_name` in this
    /// database already has the name `mname`.
    #[verifier::loop_isolation(false)]
    pub fn method_shadowed(&self, derived_name: &String, mname: &String) -> (r: bool)
        ensures
            r == spec_shadowed(self@.methods, derived_name@, mname@),
    {
        let mut k: usize = 0;
        while k < self.methods.len()
            invariant
                0 <= k <= self.methods.len(),
                forall|j: int|
                    0 <= j < k ==> !(spec_class_name(self@.methods[j]) == Some(derived_name@)
                        && self@.methods[j].name == mname@),
            decreases self.methods.len() - k,
        {
            let m = &self.methods[k];
            if m.is_member_of(derived_name) && m.name == *mname {
                proof {
                    assert(spec_class_name(self@.methods[k as int]) == Some(derived_name@)
                        && self@.methods[k as int].name == mname@);
                }
                return true;
            }
            k += 1;
        }
        false
    }
}

/// The copy of `m` inserted into the derived class declared by `t`.
pub fn rebind_method(m: &CppMethod, t: &CppTypeData) -> (r: CppMethod)
    requires
        spec_is_class(t@),
    ensures
        r@ == spec_rebind(m@, t@),
{
    let membership: Option<CppMethodClassMembership> = match &m.class_membership {
        Some(info) => Some(
            CppMethodClassMembership {
                class_type: t.default_class_type(),
                kind: info.kind,
                visibility: info.visibility,
                is_virtual: info.is_virtual,
                is_pure_virtual: info.is_pure_virtual,
                is_const: info.is_const,
                is_static: info.is_static,
                is_signal: info.is_signal,
                is_slot: info.is_slot,
            },
        ),
        None => None,
    };
    let r = CppMethod {
        name: m.name.clone(),
        return_type: crate::typeops::copy_type(&m.return_type),
        arguments: crate::database::copy_argument_vec(&m.arguments),
        operator: crate::database::copy_operator_opt(&m.operator),
        class_membership: membership,
        template_arguments: crate::typeops::copy_opt_type_vec(&m.template_arguments),
        include_file: t.include_file.clone(),
        origin_location: None,
    };
    proof {
        assert(r@ =~~= spec_rebind(m@, t@));
    }
    r
}

impl CppData {
    /// The methods one matching inheritance edge of type `ti` with the
    /// given base template-argument binding contributes.
    #[verifier::loop_isolation(false)]
    fn inherited_for_edge(
        &self,
        ti: usize,
        base_name: &String,
        targs: &Option<Vec<CppType>>,
    ) -> (r: Vec<CppMethod>)
        requires
            ti < self@.types.len(),
            spec_is_class(self@.types[ti as int]),
        ensures
            view_method_seq(r@) == spec_inherited_for_edge(
                self@.methods,
                self@.types[ti as int],
                base_name@,
                view_type_seq_opt(*targs),
            ),
    {
        let ghost t = self@.types[ti as int];
        let ghost pred = spec_edge_pred(self@.methods, t.name, base_name@, view_type_seq_opt(*targs));
        let ghost rebindf = |m: CppMethodV| spec_rebind(m, t);
        let mut out: Vec<CppMethod> = Vec::new();
        let mut mi: usize = 0;
        while mi < self.methods.len()
            invariant
                0 <= mi <= self.methods.len(),
                view_method_seq(out@) == self@.methods.take(mi as int).filter(pred).map_values(
                    rebindf,
                ),
            decreases self.methods.len() - mi,
        {
            let m = &self.methods[mi];
            let ghost mv = self@.methods[mi as int];
            let mut keep = false;
            match &m.class_membership {
                Some(info) => {
                    if info.class_type.name == *base_name && opt_type_vec_eq(
                        &info.class_type.template_arguments,
                        targs,
                    ) && !matches!(info.kind, CppMethodKind::Constructor) && !matches!(
                        info.kind,
                        CppMethodKind::Destructor,
                    ) && !matches!(&m.operator, Some(CppOperator::Assignment)) {
                        let derived_name = &self.types[ti].name;
                        if !self.method_shadowed(derived_name, &m.name) {
                            keep = true;
                        }
                    }
                },
                None => {},
            }
            proof {
                assert(keep == pred(mv));
                reveal_with_fuel(Seq::<CppMethodV>::filter, 2);
                assert(self@.methods.take(mi + 1) =~= self@.methods.take(mi as int) + seq![mv]);
                Seq::<CppMethodV>::filter_distributes_over_add(
                    self@.methods.take(mi as int),
                    seq![mv],
                    pred,
                );
            }
            if keep {
                let nm = rebind_method(m, &self.types[ti]);
                let ghost out_before = out@;
                out.push(nm);
                proof {
                    reveal_with_fuel(Seq::<CppMethodV>::filter, 2);
                    let prevf = self@.methods.take(mi as int).filter(pred);
                    assert(seq![mv].filter(pred) =~= seq![mv]);
                    assert(self@.methods.take(mi + 1).filter(pred) =~= prevf.push(mv));
                    assert(out@ =~= out_before.push(nm));
                    assert(view_method_seq(out@) =~= view_method_seq(out_before).push(nm@));
                    assert(nm@ == rebindf(mv));
                    assert(view_method_seq(out_before) == prevf.map_values(rebindf));
                    assert(view_method_seq(out@) =~= prevf.push(mv).map_values(rebindf));
                }
            } else {
                proof {
                    assert(seq![mv].filter(pred) =~= Seq::<CppMethodV>::empty());
                    assert(self@.methods.take(mi + 1).filter(pred) =~= self@.methods.take(
                        mi as int,
                    ).filter(pred));
                }
            }
            mi += 1;
        }
        proof {
            assert(self@.methods.take(self@.methods.len() as int) =~= self@.methods);
        }
        out
    }
}

impl CppData {
    /// One propagation step from the class called `base_name`, continued
    /// recursively into the classes that inherited, with `fuel` bounding
    /// the recursion depth.
    #[verifier::loop_isolation(false)]
    fn add_inherited_methods_from_fueled(&mut self, base_name: &String, fuel: usize)
        ensures
            final(self)@.types == old(self)@.types,
            final(self)@.template_instantiations == old(self)@.template_instantiations,
            final(self)@.methods == spec_inherit_from(
                old(self)@.types,
                old(self)@.methods,
                base_name@,
                fuel as nat,
            ),
        decreases fuel,
    {
        let ghost d0 = old(self)@;
        let mut new_methods: Vec<CppMethod> = Vec::new();
        let mut derived_types: Vec<String> = Vec::new();
        let n = self.types.len();
        let mut i: usize = 0;
        while i < n
            invariant
                0 <= i <= n,
                n == self.types@.len(),
                *self == *old(self),
                view_method_seq(new_methods@) == spec_types_contrib(
                    d0.types,
                    d0.methods,
                    base_name@,
                    i as int,
                ),
                view_string_seq(derived_types@) == spec_types_names(d0.types, base_name@, i as int),
            decreases n - i,
        {
            let ghost t = d0.types[i as int];
            let ghost contrib0 = spec_types_contrib(d0.types, d0.methods, base_name@, i as int);
            let ghost names0 = spec_types_names(d0.types, base_name@, i as int);
            match &self.types[i].kind {
                CppTypeKind::Class { bases, .. } => {
                    let nb = bases.len();
                    let mut k: usize = 0;
                    while k < nb
                        invariant
                            0 <= k <= nb,
                            nb == bases@.len(),
                            view_method_seq(new_methods@) == contrib0 + spec_edges_contrib(
                                d0.methods,
                                t,
                                base_name@,
                                k as int,
                            ),
                            view_string_seq(derived_types@) == names0 + spec_edge_names(
                                t,
                                base_name@,
                                k as int,
                            ),
                        decreases nb - k,
                    {
                        let ghost ec = spec_edges_contrib(d0.methods, t, base_name@, k as int);
                        let ghost en = spec_edge_names(t, base_name@, k as int);
                        proof {
                            assert(spec_kind_bases(t.kind) == crate::model::view_base_seq(bases@));
                        }
                        if let CppTypeBase::Class(cb) = &bases[k].base_type.base {
                            if cb.name == *base_name {
                                proof {
                                    assert(spec_edge_matches(
                                        spec_kind_bases(t.kind)[k as int],
                                        base_name@,
                                    ));
                                }
                                let dname = self.types[i].name.clone();
                                let ghost dbefore = derived_types@;
                                derived_types.push(dname);
                                proof {
                                    assert(view_string_seq(derived_types@) =~= view_string_seq(
                                        dbefore,
                                    ).push(t.name));
                                    assert(spec_edge_names(t, base_name@, k + 1) =~= en + seq![
                                        t.name,
                                    ]);
                                    assert(view_string_seq(derived_types@) =~= names0
                                        + spec_edge_names(t, base_name@, k + 1));
                                }
                                let mut add = self.inherited_for_edge(
                                    i,
                                    base_name,
                                    &cb.template_arguments,
                                );
                                proof {
                                    assert(view_type_seq_opt(cb.template_arguments)
                                        == spec_kind_bases(t.kind)[k as int].base_type.base
                                        ->Class_0.template_arguments);
                                    assert(view_method_seq(add@) == spec_inherited_for_edge(
                                        d0.methods,
                                        t,
                                        base_name@,
                                        spec_kind_bases(t.kind)[k as int].base_type.base
                                            ->Class_0.template_arguments,
                                    ));
                                }
                                let ghost before = new_methods@;
                                let ghost addv = add@;
                                new_methods.append(&mut add);
                                proof {
                                    assert(new_methods@ =~= before + addv);
                                    crate::model::lemma_view_method_seq_add(before, addv);
                                    assert(view_method_seq(new_methods@) == view_method_seq(before)
                                        + view_method_seq(addv));
                                    assert(spec_edges_contrib(d0.methods, t, base_name@, k + 1)
                                        =~= ec + view_method_seq(addv));
                                    assert(view_method_seq(new_methods@) =~= contrib0
                                        + spec_edges_contrib(d0.methods, t, base_name@, k + 1));
                                }
                            } else {
                                proof {
                                    assert(!spec_edge_matches(
                                        spec_kind_bases(t.kind)[k as int],
                                        base_name@,
                                    ));
                                    assert(view_method_seq(new_methods@) =~= contrib0
                                        + spec_edges_contrib(d0.methods, t, base_name@, k + 1));
                                    assert(view_string_seq(derived_types@) =~= names0
                                        + spec_edge_names(t, base_name@, k + 1));
                                }
                            }
                        } else {
                            proof {
                                assert(!spec_edge_matches(
                                    spec_kind_bases(t.kind)[k as int],
                                    base_name@,
                                ));
                                assert(view_method_seq(new_methods@) =~= contrib0
                                    + spec_edges_contrib(d0.methods, t, base_name@, k + 1));
                                assert(view_string_seq(derived_types@) =~= names0
                                    + spec_edge_names(t, base_name@, k + 1));
                            }
                        }
                        k += 1;
                    }
                    proof {
                        assert(view_method_seq(new_methods@) =~= spec_types_contrib(
                            d0.types,
                            d0.methods,
                            base_name@,
                            i + 1,
                        ));
                        assert(view_string_seq(derived_types@) =~= spec_types_names(
                            d0.types,
                            base_name@,
                            i + 1,
                        ));
                    }
                },
                _ => {
                    proof {
                        assert(view_method_seq(new_methods@) =~= spec_types_contrib(
                            d0.types,
                            d0.methods,
                            base_name@,
                            i + 1,
                        ));
                        assert(view_string_seq(derived_types@) =~= spec_types_names(
                            d0.types,
                            base_name@,
                            i + 1,
                        ));
                    }
                },
            }
            i += 1;
        }
        let ghost grown = d0.methods + spec_types_contrib(
            d0.types,
            d0.methods,
            base_name@,
            d0.types.len() as int,
        );
        let ghost appended = new_methods@;
        self.methods.append(&mut new_methods);
        proof {
            assert(self.methods@ =~= old(self).methods@ + appended);
            crate::model::lemma_view_method_seq_add(old(self).methods@, appended);
            assert(self@.methods =~= grown);
        }
        if fuel > 0 {
            let ghost names = spec_types_names(d0.types, base_name@, d0.types.len() as int);
            let ghost subfuel = (fuel - 1) as nat;
            proof {
                assert(names.skip(0) =~= names);
                assert(self@.methods == grown);
            }
            let nd = derived_types.len();
            let mut idx: usize = 0;
            while idx < nd
                invariant
                    0 <= idx <= nd,
                    nd == derived_types@.len(),
                    view_string_seq(derived_types@) == names,
                    self@.types == d0.types,
                    self@.template_instantiations == d0.template_instantiations,
                    spec_inherit_list(d0.types, self@.methods, names.skip(idx as int), subfuel)
                        == spec_inherit_list(d0.types, grown, names, subfuel),
                decreases nd - idx,
            {
                let ghost cur = self@.methods;
                proof {
                    assert(names.skip(idx as int)[0] == names[idx as int]);
                    assert(names.skip(idx as int).drop_first() =~= names.skip(idx + 1));
                    assert(names[idx as int] == derived_types@[idx as int]@);
                }
                self.add_inherited_methods_from_fueled(&derived_types[idx], fuel - 1);
                proof {
                    assert(self@.methods == spec_inherit_from(
                        d0.types,
                        cur,
                        names[idx as int],
                        subfuel,
                    ));
                    assert(spec_inherit_list(d0.types, cur, names.skip(idx as int), subfuel)
                        == spec_inherit_list(
                        d0.types,
                        spec_inherit_from(d0.types, cur, names[idx as int], subfuel),
                        names.skip(idx as int).drop_first(),
                        subfuel,
                    ));
                }
                idx += 1;
            }
            proof {
                assert(names.skip(nd as int).len() == 0);
                assert(spec_inherit_list(d0.types, self@.methods, names.skip(nd as int), subfuel)
                    == self@.methods);
            }
        }
    }

    /// Adds, to every derived class, the methods it inherits from its
    /// base classes, transitively: a base method is not copied when the
    /// derived class already declares a method of the same name, and
    /// constructors, destructors and assignment operators are never
    /// copied, as in C++.
    #[verifier::loop_isolation(false)]
    pub fn add_inherited_methods(&mut self)
        ensures
            final(self)@.types == old(self)@.types,
            final(self)@.template_instantiations == old(self)@.template_instantiations,
            final(self)@.methods == spec_inherit_all(
                old(self)@.types,
                old(self)@.methods,
                old(self)@.types.len() as int,
            ),
    {
        let ghost d0 = old(self)@;
        let n = self.types.len();
        let mut i: usize = 0;
        while i < n
            invariant
                0 <= i <= n,
                n == self.types@.len(),
                self@.types == d0.types,
                self@.template_instantiations == d0.template_instantiations,
                self@.methods == spec_inherit_all(d0.types, d0.methods, i as int),
            decreases n - i,
        {
            let name = self.types[i].name.clone();
            let fuel = self.types.len();
            self.add_inherited_methods_from_fueled(&name, fuel);
            i += 1;
        }
    }
}

/// `a` is an unchanged prefix of `b`.
pub open spec fn spec_prefix_of(a: Seq<CppMethodV>, b: Seq<CppMethodV>) -> bool {
    a.len() <= b.len() && forall|j: int| 0 <= j < a.len() ==> b[j] == a[j]
}

/// What propagation promises of its result relative to the method list
/// it started from: the original methods stand unchanged in front, and
/// every appended method is inheritable (a member, no constructor,
/// destructor or assignment operator) and does not share its name with
/// any method its class already declared in the original list.
pub open spec fn spec_propagated_ok(methods: Seq<CppMethodV>, result: Seq<CppMethodV>) -> bool {
    &&& spec_prefix_of(methods, result)
    &&& forall|j: int|
        methods.len() <= j < result.len() ==> spec_inheritable(#[trigger] result[j])
    &&& forall|j: int|
        methods.len() <= j < result.len() ==> !spec_shadowed(
            methods,
            spec_class_name(#[trigger] result[j])->0,
            result[j].name,
        )
}

/// Name shadowing only grows with the method list.
proof fn lemma_shadowed_monotone(
    a: Seq<CppMethodV>,
    b: Seq<CppMethodV>,
    cname: Seq<char>,
    mname: Seq<char>,
)
    requires
        spec_prefix_of(a, b),
        spec_shadowed(a, cname, mname),
    ensures
        spec_shadowed(b, cname, mname),
{
    let k = choose|k: int|
        0 <= k < a.len() && spec_class_name(a[k]) == Some(cname) && a[k].name == mname;
    assert(spec_class_name(b[k]) == Some(cname) && b[k].name == mname);
}

/// The promise composes across consecutive propagation steps.
proof fn lemma_propagated_ok_trans(a: Seq<CppMethodV>, b: Seq<CppMethodV>, c: Seq<CppMethodV>)
    requires
        spec_propagated_ok(a, b),
        spec_propagated_ok(b, c),
    ensures
        spec_propagated_ok(a, c),
{
    assert forall|j: int| a.len() <= j < c.len() implies spec_inheritable(#[trigger] c[j])
        && !spec_shadowed(a, spec_class_name(c[j])->0, c[j].name) by {
        if j < b.len() {
            assert(c[j] == b[j]);
        }
        if spec_shadowed(a, spec_class_name(c[j])->0, c[j].name) {
            lemma_shadowed_monotone(a, b, spec_class_name(c[j])->0, c[j].name);
        }
    }
}

/// Every method an edge contributes is inheritable and unshadowed.
proof fn lemma_edge_ok(
    methods: Seq<CppMethodV>,
    t: CppTypeDataV,
    base_name: Seq<char>,
    targs: Option<Seq<CppTypeV>>,
)
    ensures
        forall|j: int|
            0 <= j < spec_inherited_for_edge(methods, t, base_name, targs).len() ==> {
                let m = #[trigger] spec_inherited_for_edge(methods, t, base_name, targs)[j];
                spec_inheritable(m) && !spec_shadowed(methods, spec_class_name(m)->0, m.name)
            },
{
    let pred = spec_edge_pred(methods, t.name, base_name, targs);
    let filtered = methods.filter(pred);
    assert forall|j: int|
        0 <= j < spec_inherited_for_edge(methods, t, base_name, targs).len() implies {
        let m = #[trigger] spec_inherited_for_edge(methods, t, base_name, targs)[j];
        spec_inheritable(m) && !spec_shadowed(methods, spec_class_name(m)->0, m.name)
    } by {
        Seq::lemma_filter_pred(methods, pred, j);
        let m0 = filtered[j];
        let m = spec_inherited_for_edge(methods, t, base_name, targs)[j];
        assert(m == spec_rebind(m0, t));
        assert(pred(m0));
        assert(spec_class_name(m) == Some(t.name));
        assert(m.name == m0.name);
    }
}

/// Every method the local step appends is inheritable and unshadowed.
proof fn lemma_edges_contrib_ok(
    methods: Seq<CppMethodV>,
    t: CppTypeDataV,
    base_name: Seq<char>,
    k: int,
)
    ensures
        forall|j: int|
            0 <= j < spec_edges_contrib(methods, t, base_name, k).len() ==> {
                let m = #[trigger] spec_edges_contrib(methods, t, base_name, k)[j];
                spec_inheritable(m) && !spec_shadowed(methods, spec_class_name(m)->0, m.name)
            },
    decreases k,
{
    if k > 0 {
        lemma_edges_contrib_ok(methods, t, base_name, k - 1);
        if spec_edge_matches(spec_kind_bases(t.kind)[k - 1], base_name) {
            lemma_edge_ok(
                methods,
                t,
                base_name,
                spec_kind_bases(t.kind)[k - 1].base_type.base->Class_0.template_arguments,
            );
        }
    }
}

proof fn lemma_types_contrib_ok(
    types: Seq<CppTypeDataV>,
    methods: Seq<CppMethodV>,
    base_name: Seq<char>,
    i: int,
)
    ensures
        forall|j: int|
            0 <= j < spec_types_contrib(types, methods, base_name, i).len() ==> {
                let m = #[trigger] spec_types_contrib(types, methods, base_name, i)[j];
                spec_inheritable(m) && !spec_shadowed(methods, spec_class_name(m)->0, m.name)
            },
    decreases i,
{
    if i > 0 {
        lemma_types_contrib_ok(types, methods, base_name, i - 1);
        if types[i - 1].kind is Class {
            lemma_edges_contrib_ok(
                methods,
                types[i - 1],
                base_name,
                spec_kind_bases(types[i - 1].kind).len() as int,
            );
        }
    }
}

/// One propagation step keeps the promise.
proof fn lemma_inherit_from_ok(
    types: Seq<CppTypeDataV>,
    methods: Seq<CppMethodV>,
    base_name: Seq<char>,
    fuel: nat,
)
    ensures
        spec_propagated_ok(methods, spec_inherit_from(types, methods, base_name, fuel)),
    decreases fuel, 1nat, 0nat,
{
    let grown = methods + spec_types_contrib(types, methods, base_name, types.len() as int);
    lemma_types_contrib_ok(types, methods, base_name, types.len() as int);
    assert(spec_propagated_ok(methods, grown));
    if fuel > 0 {
        lemma_inherit_list_ok(
            types,
            grown,
            spec_types_names(types, base_name, types.len() as int),
            (fuel - 1) as nat,
        );
        lemma_propagated_ok_trans(
            methods,
            grown,
            spec_inherit_list(
                types,
                grown,
                spec_types_names(types, base_name, types.len() as int),
                (fuel - 1) as nat,
            ),
        );
    }
}

/// Continuing propagation through a list of names keeps the promise.
proof fn lemma_inherit_list_ok(
    types: Seq<CppTypeDataV>,
    methods: Seq<CppMethodV>,
    names: Seq<Seq<char>>,
    fuel: nat,
)
    ensures
        spec_propagated_ok(methods, spec_inherit_list(types, methods, names, fuel)),
    decreases fuel, 2nat, names.len(),
{
    if names.len() == 0 {
    } else {
        lemma_inherit_from_ok(types, methods, names[0], fuel);
        let mid = spec_inherit_from(types, methods, names[0], fuel);
        lemma_inherit_list_ok(types, mid, names.drop_first(), fuel);
        lemma_propagated_ok_trans(
            methods,
            mid,
            spec_inherit_list(types, mid, names.drop_first(), fuel),
        );
    }
}

/// Inheritance propagation never inserts a method into a derived class
/// that shares a name with a method that class already declared, and it
/// never propagates constructors, destructors or assignment operators;
/// the original methods are kept unchanged in front of the result.
pub proof fn lemma_propagation_respects_shadowing(
    types: Seq<CppTypeDataV>,
    methods: Seq<CppMethodV>,
    i: int,
)
    requires
        0 <= i,
    ensures
        spec_propagated_ok(methods, spec_inherit_all(types, methods, i)),
    decreases i,
{
    if i > 0 {
        lemma_propagation_respects_shadowing(types, methods, i - 1);
        let mid = spec_inherit_all(types, methods, i - 1);
        lemma_inherit_from_ok(types, mid, types[i - 1].name, types.len() as nat);
        lemma_propagated_ok_trans(
            methods,
            mid,
            spec_inherit_from(types, mid, types[i - 1].name, types.len() as nat),
        );
    }
}

} // verus!
