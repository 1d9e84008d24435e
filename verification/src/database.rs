//! The API item database and its read-only hierarchy queries, together
//! with helpers on methods and type declarations.

use vstd::prelude::*;
use crate::model::{lemma_view_type_seq, view_argument, view_argument_seq, view_base_seq, view_class_base, view_method_seq, view_membership, view_operator, view_origin, view_type, view_type_seq, view_type_seq_opt, CppBaseSpecifierV, CppData, CppDataV, CppFunctionArgument, CppMethod, CppMethodClassMembership, CppMethodKind, CppMethodV, CppOperator, CppOriginLocation, CppType, CppTypeBase, CppTypeBaseV, CppTypeClassBase, CppTypeClassBaseV, CppTypeData, CppTypeDataV, CppTypeIndirection, CppTypeKind, CppTypeKindV, CppTypeV};
use crate::typeops::{copy_class_base, copy_opt_type_vec, copy_type, type_eq};

verus! {

broadcast use lemma_view_type_seq;

/// Whether a method item is a destructor: its class membership exists and
/// has destructor kind.
pub open spec fn spec_is_destructor(m: CppMethodV) -> bool {
    &&& m.class_membership is Some
    &&& m.class_membership->0.kind == CppMethodKind::Destructor
}

/// Whether a method item is a constructor.
pub open spec fn spec_is_constructor(m: CppMethodV) -> bool {
    &&& m.class_membership is Some
    &&& m.class_membership->0.kind == CppMethodKind::Constructor
}

/// The name of the class a method belongs to, when it has class
/// membership.
pub open spec fn spec_class_name(m: CppMethodV) -> Option<Seq<char>> {
    match m.class_membership {
        Some(i) => Some(i.class_type.name),
        None => None,
    }
}

/// The sequence of a method's parameter types, in order.
pub open spec fn spec_arg_types(m: CppMethodV) -> Seq<CppTypeV> {
    m.arguments.map(|i: int, a: crate::model::CppFunctionArgumentV| a.argument_type)
}

impl CppMethod {
    /// Whether this method is a destructor.
    pub fn is_destructor(&self) -> (r: bool)
        ensures
            r == spec_is_destructor(self@),
    {
        match &self.class_membership {
            Some(i) => matches!(i.kind, CppMethodKind::Destructor),
            None => false,
        }
    }

    /// Whether this method is a constructor.
    pub fn is_constructor(&self) -> (r: bool)
        ensures
            r == spec_is_constructor(self@),
    {
        match &self.class_membership {
            Some(i) => matches!(i.kind, CppMethodKind::Constructor),
            None => false,
        }
    }

    /// Whether this method belongs to the class called `name`.
    pub fn is_member_of(&self, name: &String) -> (r: bool)
        ensures
            r == (spec_class_name(self@) == Some(name@)),
    {
        match &self.class_membership {
            Some(i) => i.class_type.name == *name,
            None => false,
        }
    }

    /// Whether this method has the same parameter-type list as `other`.
    #[verifier::loop_isolation(false)]
    pub fn argument_types_equal(&self, other: &CppMethod) -> (r: bool)
        ensures
            r == (spec_arg_types(self@) == spec_arg_types(other@)),
    {
        if self.arguments.len() != other.arguments.len() {
            assert(spec_arg_types(self@).len() != spec_arg_types(other@).len());
            return false;
        }
        let mut i: usize = 0;
        while i < self.arguments.len()
            invariant
                0 <= i <= self.arguments.len(),
                forall|j: int|
                    0 <= j < i ==> spec_arg_types(self@)[j] == spec_arg_types(other@)[j],
            decreases self.arguments.len() - i,
        {
            if !type_eq(&self.arguments[i].argument_type, &other.arguments[i].argument_type) {
                assert(spec_arg_types(self@)[i as int] != spec_arg_types(other@)[i as int]);
                return false;
            }
            i += 1;
        }
        proof {
            assert(spec_arg_types(self@) =~= spec_arg_types(other@));
        }
        true
    }
}

/// Deep copy of an optional origin location.
pub fn copy_origin_opt(o: &Option<CppOriginLocation>) -> (r: Option<CppOriginLocation>)
    ensures
        crate::model::view_origin_opt(r) == crate::model::view_origin_opt(*o),
{
    match o {
        None => None,
        Some(l) => {
            let c = CppOriginLocation {
                include_file_path: l.include_file_path.clone(),
                line: l.line,
            };
            assert(view_origin(c) =~= view_origin(*l));
            Some(c)
        },
    }
}

/// Deep copy of an optional operator tag.
pub fn copy_operator_opt(o: &Option<CppOperator>) -> (r: Option<CppOperator>)
    ensures
        crate::model::view_operator_opt(r) == crate::model::view_operator_opt(*o),
{
    match o {
        None => None,
        Some(CppOperator::Assignment) => Some(CppOperator::Assignment),
        Some(CppOperator::Conversion(t)) => {
            let c = CppOperator::Conversion(copy_type(t));
            assert(view_operator(c) =~= view_operator(CppOperator::Conversion(*t)));
            Some(c)
        },
        Some(CppOperator::Other(s)) => Some(CppOperator::Other(s.clone())),
    }
}

/// Deep copy of a class-membership record.
pub fn copy_membership(m: &CppMethodClassMembership) -> (r: CppMethodClassMembership)
    ensures
        view_membership(r) == view_membership(*m),
{
    let c = CppMethodClassMembership {
        class_type: copy_class_base(&m.class_type),
        kind: m.kind,
        visibility: m.visibility,
        is_virtual: m.is_virtual,
        is_pure_virtual: m.is_pure_virtual,
        is_const: m.is_const,
        is_static: m.is_static,
        is_signal: m.is_signal,
        is_slot: m.is_slot,
    };
    assert(view_membership(c) =~= view_membership(*m));
    c
}

/// Deep copy of an optional class-membership record.
pub fn copy_membership_opt(m: &Option<CppMethodClassMembership>) -> (r: Option<
    CppMethodClassMembership,
>)
    ensures
        crate::model::view_membership_opt(r) == crate::model::view_membership_opt(*m),
{
    match m {
        None => None,
        Some(i) => Some(copy_membership(i)),
    }
}

/// Deep copy of a parameter list.
#[verifier::loop_isolation(false)]
pub fn copy_argument_vec(v: &Vec<CppFunctionArgument>) -> (r: Vec<CppFunctionArgument>)
    ensures
        view_argument_seq(r@) == view_argument_seq(v@),
{
    let mut out: Vec<CppFunctionArgument> = Vec::new();
    let mut i: usize = 0;
    while i < v.len()
        invariant
            0 <= i <= v.len(),
            out@.len() == i,
            forall|j: int| 0 <= j < i ==> view_argument(out@[j]) == view_argument(v@[j]),
        decreases v.len() - i,
    {
        let a = &v[i];
        let c = CppFunctionArgument {
            name: a.name.clone(),
            argument_type: copy_type(&a.argument_type),
            has_default_value: a.has_default_value,
        };
        assert(view_argument(c) =~= view_argument(*a));
        out.push(c);
        i += 1;
    }
    proof {
        assert(view_argument_seq(out@) =~= view_argument_seq(v@));
    }
    out
}

/// Deep copy of a method item; the copy has the same view.
pub fn copy_method(m: &CppMethod) -> (r: CppMethod)
    ensures
        r@ == m@,
{
    let c = CppMethod {
        name: m.name.clone(),
        return_type: copy_type(&m.return_type),
        arguments: copy_argument_vec(&m.arguments),
        operator: copy_operator_opt(&m.operator),
        class_membership: copy_membership_opt(&m.class_membership),
        template_arguments: copy_opt_type_vec(&m.template_arguments),
        include_file: m.include_file.clone(),
        origin_location: copy_origin_opt(&m.origin_location),
    };
    assert(c@ =~= m@);
    c
}

/// The base-class edges recorded by a type kind; empty for an enum.
pub open spec fn spec_kind_bases(k: CppTypeKindV) -> Seq<CppBaseSpecifierV> {
    match k {
        CppTypeKindV::Class { bases, .. } => bases,
        CppTypeKindV::Enum => Seq::empty(),
    }
}

/// The declared template parameter names of a type kind, when it is a
/// template class.
pub open spec fn spec_kind_template_arguments(k: CppTypeKindV) -> Option<Seq<Seq<char>>> {
    match k {
        CppTypeKindV::Class { template_arguments, .. } => template_arguments,
        CppTypeKindV::Enum => None,
    }
}

/// Whether a type declaration declares a class.
pub open spec fn spec_is_class(t: CppTypeDataV) -> bool {
    t.kind is Class
}

/// The placeholder template parameters standing in for a class's own
/// declared template parameters: one level-0 parameter per declared name,
/// in declaration order.
pub open spec fn spec_default_template_parameters(t: CppTypeDataV) -> Option<Seq<CppTypeV>> {
    match spec_kind_template_arguments(t.kind) {
        Some(names) => Some(
            Seq::new(
                names.len(),
                |i: int|
                    CppTypeV {
                        is_const: false,
                        indirection: CppTypeIndirection::Value,
                        base: CppTypeBaseV::TemplateParameter {
                            nested_level: 0,
                            index: i as u64,
                        },
                    },
            ),
        ),
        None => None,
    }
}

/// The default instantiation of a class: its own name applied to its
/// placeholder template parameters.
pub open spec fn spec_default_class_type(t: CppTypeDataV) -> CppTypeClassBaseV {
    CppTypeClassBaseV { name: t.name, template_arguments: spec_default_template_parameters(t) }
}

/// Whether a class declaration has a direct base class called `name`.
pub open spec fn spec_inherits_directly(t: CppTypeDataV, name: Seq<char>) -> bool {
    exists|i: int|
        0 <= i < spec_kind_bases(t.kind).len() && spec_kind_bases(t.kind)[i].base_type.base
            is Class && spec_kind_bases(t.kind)[i].base_type.base->Class_0.name == name
}

impl CppTypeData {
    /// Whether this declaration declares a class.
    pub fn is_class(&self) -> (r: bool)
        ensures
            r == spec_is_class(self@),
    {
        matches!(self.kind, CppTypeKind::Class { .. })
    }

    /// The placeholder template parameters expected for this type: for a
    /// template class, one level-0 template parameter per declared
    /// parameter name; otherwise nothing.
    #[verifier::loop_isolation(false)]
    pub fn default_template_parameters(&self) -> (r: Option<Vec<CppType>>)
        ensures
            view_type_seq_opt(r) == spec_default_template_parameters(self@),
    {
        match &self.kind {
            CppTypeKind::Class { template_arguments: Some(names), .. } => {
                let ghost wanted = spec_default_template_parameters(self@)->0;
                let mut out: Vec<CppType> = Vec::new();
                let mut i: usize = 0;
                while i < names.len()
                    invariant
                        0 <= i <= names.len(),
                        out@.len() == i,
                        forall|j: int| 0 <= j < i ==> view_type(out@[j]) == wanted[j],
                    decreases names.len() - i,
                {
                    out.push(
                        CppType {
                            is_const: false,
                            indirection: CppTypeIndirection::Value,
                            base: CppTypeBase::TemplateParameter {
                                nested_level: 0,
                                index: i as u64,
                            },
                        },
                    );
                    i += 1;
                }
                proof {
                    assert(view_type_seq(out@) =~= wanted);
                }
                Some(out)
            },
            _ => None,
        }
    }

    /// The default instantiation of this class, usable as the owning type
    /// of its members' class membership.
    pub fn default_class_type(&self) -> (r: CppTypeClassBase)
        requires
            spec_is_class(self@),
        ensures
            r@ == spec_default_class_type(self@),
    {
        let r = CppTypeClassBase {
            name: self.name.clone(),
            template_arguments: self.default_template_parameters(),
        };
        assert(r@ =~= spec_default_class_type(self@));
        r
    }

    /// Whether this type was directly derived from the class called
    /// `class_name`.
    #[verifier::loop_isolation(false)]
    pub fn inherits(&self, class_name: &String) -> (r: bool)
        ensures
            r == spec_inherits_directly(self@, class_name@),
    {
        match &self.kind {
            CppTypeKind::Class { bases, .. } => {
                let mut i: usize = 0;
                while i < bases.len()
                    invariant
                        0 <= i <= bases.len(),
                        forall|j: int|
                            0 <= j < i ==> !(spec_kind_bases(self@.kind)[j].base_type.base
                                is Class && spec_kind_bases(self@.kind)[j].base_type.base
                                ->Class_0.name == class_name@),
                    decreases bases.len() - i,
                {
                    if let CppTypeBase::Class(cb) = &bases[i].base_type.base {
                        if cb.name == *class_name {
                            proof {
                                assert(spec_kind_bases(self@.kind)[i as int].base_type.base
                                    is Class);
                            }
                            return true;
                        }
                    }
                    proof {
                        assert(spec_kind_bases(self@.kind)[i as int] == view_base_seq(bases@)[
                            i as int]);
                    }
                    i += 1;
                }
                false
            },
            _ => false,
        }
    }
}

/// The first element of `s` satisfying `pred`, scanning from the front.
pub open spec fn spec_find_first<A>(s: Seq<A>, pred: spec_fn(A) -> bool) -> Option<A>
    decreases s.len(),
{
    if s.len() == 0 {
        None
    } else if pred(s[0]) {
        Some(s[0])
    } else {
        spec_find_first(s.drop_first(), pred)
    }
}

/// When index `i` is the first match, the scan returns `s[i]`.
pub proof fn lemma_find_first_at<A>(s: Seq<A>, pred: spec_fn(A) -> bool, i: int)
    requires
        0 <= i < s.len(),
        pred(s[i]),
        forall|j: int| 0 <= j < i ==> !pred(s[j]),
    ensures
        spec_find_first(s, pred) == Some(s[i]),
    decreases s.len(),
{
    if i > 0 {
        lemma_find_first_at(s.drop_first(), pred, i - 1);
    }
}

/// When the scan finds something, a match exists.
pub proof fn lemma_find_first_exists<A>(s: Seq<A>, pred: spec_fn(A) -> bool)
    requires
        spec_find_first(s, pred) is Some,
    ensures
        exists|i: int| 0 <= i < s.len() && pred(s[i]),
    decreases s.len(),
{
    if s.len() > 0 {
        if pred(s[0]) {
        } else {
            lemma_find_first_exists(s.drop_first(), pred);
            let i = choose|i: int| 0 <= i < s.drop_first().len() && pred(s.drop_first()[i]);
            assert(s.drop_first()[i] == s[i + 1]);
        }
    }
}

/// When nothing matches, the scan returns nothing.
pub proof fn lemma_find_first_none<A>(s: Seq<A>, pred: spec_fn(A) -> bool)
    requires
        forall|j: int| 0 <= j < s.len() ==> !pred(s[j]),
    ensures
        spec_find_first(s, pred) is None,
    decreases s.len(),
{
    if s.len() > 0 {
        lemma_find_first_none(s.drop_first(), pred);
    }
}

/// The first type declaration called `name`, in database order.
pub open spec fn spec_find_type(types: Seq<CppTypeDataV>, name: Seq<char>) -> Option<
    CppTypeDataV,
> {
    spec_find_first(types, |t: CppTypeDataV| t.name == name)
}

/// The destructor predicate used by the virtual-destructor query: a
/// destructor belonging to the class called `name`.
pub open spec fn spec_is_dtor_of(name: Seq<char>) -> spec_fn(CppMethodV) -> bool {
    |m: CppMethodV| spec_is_destructor(m) && spec_class_name(m) == Some(name)
}

/// The virtual-destructor query, bounded by `fuel` levels of recursion
/// into base classes: when the class has its own destructor, that
/// destructor's virtuality; otherwise true exactly when some direct base
/// class's query is true. `fuel` bounds only the recursion; any value at
/// least the depth of the (acyclic) hierarchy gives the exact answer.
pub open spec fn spec_hvd(d: CppDataV, name: Seq<char>, fuel: nat) -> bool
    decreases fuel,
{
    match spec_find_first(d.methods, spec_is_dtor_of(name)) {
        Some(m) => m.class_membership->0.is_virtual,
        None => match spec_find_type(d.types, name) {
            Some(t) => fuel > 0 && exists|i: int|
                0 <= i < spec_kind_bases(t.kind).len() && spec_kind_bases(t.kind)[i].base_type.base
                    is Class && spec_hvd(
                    d,
                    spec_kind_bases(t.kind)[i].base_type.base->Class_0.name,
                    (fuel - 1) as nat,
                ),
            None => false,
        },
    }
}

/// The virtual-destructor query over the whole database: the recursion
/// bound is the number of type declarations, which covers every acyclic
/// hierarchy the database can describe.
pub open spec fn spec_has_virtual_destructor(d: CppDataV, name: Seq<char>) -> bool {
    spec_hvd(d, name, d.types.len())
}

impl CppData {
    /// The index of the first type declaration called `name`, if any.
    #[verifier::loop_isolation(false)]
    pub fn find_type_index(&self, name: &String) -> (r: Option<usize>)
        ensures
            match r {
                Some(i) => i < self.types@.len() && spec_find_type(self@.types, name@) == Some(
                    self@.types[i as int],
                ) && self@.types[i as int].name == name@,
                None => spec_find_type(self@.types, name@) is None,
            },
    {
        let mut i: usize = 0;
        while i < self.types.len()
            invariant
                0 <= i <= self.types.len(),
                forall|j: int| 0 <= j < i ==> self@.types[j].name != name@,
            decreases self.types.len() - i,
        {
            if self.types[i].name == *name {
                proof {
                    lemma_find_first_at(
                        self@.types,
                        |t: CppTypeDataV| t.name == name@,
                        i as int,
                    );
                }
                return Some(i);
            }
            i += 1;
        }
        proof {
            lemma_find_first_none(self@.types, |t: CppTypeDataV| t.name == name@);
        }
        None
    }

    /// The virtual-destructor query, bounded by `fuel` recursion levels.
    #[verifier::loop_isolation(false)]
    pub fn has_virtual_destructor_fueled(&self, class_name: &String, fuel: usize) -> (r: bool)
        ensures
            r == spec_hvd(self@, class_name@, fuel as nat),
        decreases fuel,
    {
        let ghost pred = spec_is_dtor_of(class_name@);
        let mut i: usize = 0;
        while i < self.methods.len()
            invariant
                0 <= i <= self.methods.len(),
                forall|j: int| 0 <= j < i ==> !pred(self@.methods[j]),
            decreases self.methods.len() - i,
        {
            let m = &self.methods[i];
            if m.is_destructor() && m.is_member_of(class_name) {
                proof {
                    lemma_find_first_at(self@.methods, pred, i as int);
                }
                let info = m.class_membership.as_ref().unwrap();
                return info.is_virtual;
            }
            proof {
                assert(!pred(self@.methods[i as int]));
            }
            i += 1;
        }
        proof {
            lemma_find_first_none(self@.methods, pred);
        }
        match self.find_type_index(class_name) {
            None => false,
            Some(ti) => {
                if fuel == 0 {
                    return false;
                }
                let t = &self.types[ti];
                match &t.kind {
                    CppTypeKind::Class { bases, .. } => {
                        let ghost gbases = spec_kind_bases(self@.types[ti as int].kind);
                        let mut k: usize = 0;
                        while k < bases.len()
                            invariant
                                0 <= k <= bases.len(),
                                forall|j: int|
                                    0 <= j < k ==> !(gbases[j].base_type.base is Class
                                        && spec_hvd(
                                        self@,
                                        gbases[j].base_type.base->Class_0.name,
                                        (fuel - 1) as nat,
                                    )),
                            decreases bases.len() - k,
                        {
                            proof {
                                assert(gbases[k as int] == view_base_seq(bases@)[k as int]);
                            }
                            if let CppTypeBase::Class(cb) = &bases[k].base_type.base {
                                if self.has_virtual_destructor_fueled(&cb.name, fuel - 1) {
                                    return true;
                                }
                            }
                            k += 1;
                        }
                        false
                    },
                    _ => false,
                }
            },
        }
    }

    /// Whether the list of names built so far already holds `s`.
    #[verifier::loop_isolation(false)]
    pub fn string_vec_contains(v: &Vec<String>, s: &String) -> (r: bool)
        ensures
            r == crate::model::view_string_seq(v@).contains(s@),
    {
        let mut i: usize = 0;
        while i < v.len()
            invariant
                0 <= i <= v.len(),
                forall|j: int| 0 <= j < i ==> crate::model::view_string_seq(v@)[j] != s@,
            decreases v.len() - i,
        {
            if v[i] == *s {
                proof {
                    assert(crate::model::view_string_seq(v@)[i as int] == s@);
                }
                return true;
            }
            i += 1;
        }
        proof {
            assert(!crate::model::view_string_seq(v@).contains(s@)) by {
                if crate::model::view_string_seq(v@).contains(s@) {
                    let j = choose|j: int|
                        0 <= j < v@.len() && crate::model::view_string_seq(v@)[j] == s@;
                }
            }
        }
        false
    }

    /// Whether the class called `class_name` has a virtual destructor,
    /// its own or inherited from any base.
    pub fn has_virtual_destructor(&self, class_name: &String) -> (r: bool)
        ensures
            r == spec_has_virtual_destructor(self@, class_name@),
    {
        let fuel = self.types.len();
        self.has_virtual_destructor_fueled(class_name, fuel)
    }
}

/// The template-class query, bounded by `fuel` levels of recursion into
/// base classes: a class is a template class when it declares template
/// parameters, when a direct base is used with template arguments, or
/// when a direct base class is itself a template class. An unknown name
/// is taken to be non-template.
pub open spec fn spec_itc_fueled(d: CppDataV, name: Seq<char>, fuel: nat) -> bool
    decreases fuel,
{
    match spec_find_type(d.types, name) {
        Some(t) => t.kind is Class && (spec_kind_template_arguments(t.kind) is Some || exists|
            i: int,
        |
            0 <= i < spec_kind_bases(t.kind).len() && spec_kind_bases(t.kind)[i].base_type.base
                is Class && (spec_kind_bases(t.kind)[i].base_type.base
                ->Class_0.template_arguments is Some || (fuel > 0 && spec_itc_fueled(
                d,
                spec_kind_bases(t.kind)[i].base_type.base->Class_0.name,
                (fuel - 1) as nat,
            )))),
        None => false,
    }
}

/// The template-class query over the whole database.
pub open spec fn spec_is_template_class(d: CppDataV, name: Seq<char>) -> bool {
    spec_itc_fueled(d, name, d.types.len())
}

impl CppData {
    #[verifier::loop_isolation(false)]
    fn is_template_class_fueled(&self, name: &String, fuel: usize) -> (r: bool)
        ensures
            r == spec_itc_fueled(self@, name@, fuel as nat),
        decreases fuel,
    {
        match self.find_type_index(name) {
            None => false,
            Some(ti) => {
                match &self.types[ti].kind {
                    CppTypeKind::Class { bases, template_arguments } => {
                        if template_arguments.is_some() {
                            proof {
                                assert(spec_kind_template_arguments(self@.types[ti as int].kind)
                                    is Some);
                            }
                            return true;
                        }
                        let ghost gbases = spec_kind_bases(self@.types[ti as int].kind);
                        let nb = bases.len();
                        let mut k: usize = 0;
                        while k < nb
                            invariant
                                0 <= k <= nb,
                                nb == bases@.len(),
                                gbases == view_base_seq(bases@),
                                forall|j: int|
                                    0 <= j < k ==> !(gbases[j].base_type.base is Class
                                        && (gbases[j].base_type.base->Class_0.template_arguments
                                        is Some || (fuel as nat > 0 && spec_itc_fueled(
                                        self@,
                                        gbases[j].base_type.base->Class_0.name,
                                        (fuel - 1) as nat,
                                    )))),
                            decreases nb - k,
                        {
                            if let CppTypeBase::Class(cb) = &bases[k].base_type.base {
                                proof {
                                    assert(gbases[k as int].base_type.base is Class);
                                    assert(gbases[k as int].base_type.base->Class_0
                                        == view_class_base(*cb));
                                }
                                if cb.template_arguments.is_some() {
                                    return true;
                                }
                                if fuel > 0 {
                                    if self.is_template_class_fueled(&cb.name, fuel - 1) {
                                        return true;
                                    }
                                }
                            }
                            k += 1;
                        }
                        false
                    },
                    _ => false,
                }
            },
        }
    }

    /// Whether the class called `name` is a template class: it declares
    /// template parameters, or some direct or transitive base does.
    pub fn is_template_class(&self, name: &String) -> (r: bool)
        ensures
            r == spec_is_template_class(self@, name@),
    {
        let fuel = self.types.len();
        self.is_template_class_fueled(name, fuel)
    }
}

/// Membership in the class called `name`.
pub open spec fn spec_member_pred(name: Seq<char>) -> spec_fn(CppMethodV) -> bool {
    |m: CppMethodV| spec_class_name(m) == Some(name)
}

/// The methods declared by the class called `name`, in database order.
pub open spec fn spec_own_methods(methods: Seq<CppMethodV>, name: Seq<char>) -> Seq<CppMethodV> {
    methods.filter(spec_member_pred(name))
}

/// Whether some method of `own` has the same name and the same
/// parameter-type list as `bm`: a true override, which suppresses the
/// inherited method in the query result.
pub open spec fn spec_overridden(own: Seq<CppMethodV>, bm: CppMethodV) -> bool {
    exists|k: int|
        0 <= k < own.len() && own[k].name == bm.name && spec_arg_types(own[k]) == spec_arg_types(
            bm,
        )
}

pub open spec fn spec_not_overridden_pred(own: Seq<CppMethodV>) -> spec_fn(CppMethodV) -> bool {
    |bm: CppMethodV| !spec_overridden(own, bm)
}

/// Pure virtuality of a method.
pub open spec fn spec_pure_virtual_pred() -> spec_fn(CppMethodV) -> bool {
    |m: CppMethodV| m.class_membership is Some && m.class_membership->0.is_pure_virtual
}

/// Whether the method-set queries can run from the class called `name`
/// without meeting an internal-consistency fault: every name reached —
/// this one and, within `fuel` levels, its transitive base-class names —
/// either has no declaration or declares a class.
pub open spec fn spec_query_safe(d: CppDataV, name: Seq<char>, fuel: nat) -> bool
    decreases fuel, 1nat, 0nat,
{
    match spec_find_type(d.types, name) {
        Some(t) => t.kind is Class && (fuel == 0 || spec_qs_bases(
            d,
            spec_kind_bases(t.kind),
            (fuel - 1) as nat,
        )),
        None => true,
    }
}

pub open spec fn spec_qs_bases(d: CppDataV, bases: Seq<CppBaseSpecifierV>, fuel: nat) -> bool
    decreases fuel, 2nat, bases.len(),
{
    if bases.len() == 0 {
        true
    } else {
        spec_qs_bases(d, bases.drop_last(), fuel) && (bases.last().base_type.base is Class
            ==> spec_query_safe(d, bases.last().base_type.base->Class_0.name, fuel))
    }
}

/// Safety of a base list means safety of each class base.
proof fn lemma_qs_bases(d: CppDataV, bases: Seq<CppBaseSpecifierV>, fuel: nat)
    requires
        spec_qs_bases(d, bases, fuel),
    ensures
        forall|k: int|
            0 <= k < bases.len() && bases[k].base_type.base is Class ==> spec_query_safe(
                d,
                bases[k].base_type.base->Class_0.name,
                fuel,
            ),
    decreases bases.len(),
{
    if bases.len() > 0 {
        lemma_qs_bases(d, bases.drop_last(), fuel);
        assert(forall|k: int| 0 <= k < bases.len() - 1 ==> bases.drop_last()[k] == bases[k]);
        assert(bases.last() == bases[bases.len() - 1]);
    }
}

/// The full method set of the class called `name`, bounded by `fuel`
/// levels of recursion into bases: each base's full set, kept unless the
/// class truly overrides it (same name and parameter types), followed by
/// the class's own methods.
pub open spec fn spec_get_all(d: CppDataV, name: Seq<char>, fuel: nat) -> Seq<CppMethodV>
    decreases fuel, 1nat, 0nat,
{
    let own = spec_own_methods(d.methods, name);
    (match spec_find_type(d.types, name) {
        Some(t) => if t.kind is Class && fuel > 0 {
            spec_gam_bases(d, own, spec_kind_bases(t.kind), (fuel - 1) as nat)
        } else {
            Seq::empty()
        },
        None => Seq::empty(),
    }) + own
}

pub open spec fn spec_gam_bases(
    d: CppDataV,
    own: Seq<CppMethodV>,
    bases: Seq<CppBaseSpecifierV>,
    fuel: nat,
) -> Seq<CppMethodV>
    decreases fuel, 2nat, bases.len(),
{
    if bases.len() == 0 {
        Seq::empty()
    } else {
        spec_gam_bases(d, own, bases.drop_last(), fuel) + (if bases.last().base_type.base
            is Class {
            spec_get_all(d, bases.last().base_type.base->Class_0.name, fuel).filter(
                spec_not_overridden_pred(own),
            )
        } else {
            Seq::empty()
        })
    }
}

/// The pure-virtual method set of the class called `name`: each base's
/// pure-virtual set, kept unless the class overrides it, followed by the
/// class's own pure-virtual methods.
pub open spec fn spec_get_pure(d: CppDataV, name: Seq<char>, fuel: nat) -> Seq<CppMethodV>
    decreases fuel, 1nat, 0nat,
{
    let own = spec_own_methods(d.methods, name);
    (match spec_find_type(d.types, name) {
        Some(t) => if t.kind is Class && fuel > 0 {
            spec_gpv_bases(d, own, spec_kind_bases(t.kind), (fuel - 1) as nat)
        } else {
            Seq::empty()
        },
        None => Seq::empty(),
    }) + own.filter(spec_pure_virtual_pred())
}

pub open spec fn spec_gpv_bases(
    d: CppDataV,
    own: Seq<CppMethodV>,
    bases: Seq<CppBaseSpecifierV>,
    fuel: nat,
) -> Seq<CppMethodV>
    decreases fuel, 2nat, bases.len(),
{
    if bases.len() == 0 {
        Seq::empty()
    } else {
        spec_gpv_bases(d, own, bases.drop_last(), fuel) + (if bases.last().base_type.base
            is Class {
            spec_get_pure(d, bases.last().base_type.base->Class_0.name, fuel).filter(
                spec_not_overridden_pred(own),
            )
        } else {
            Seq::empty()
        })
    }
}

/// The full method set over the whole database.
pub open spec fn spec_get_all_methods(d: CppDataV, name: Seq<char>) -> Seq<CppMethodV> {
    spec_get_all(d, name, d.types.len())
}

/// The pure-virtual method set over the whole database.
pub open spec fn spec_get_pure_virtual_methods(d: CppDataV, name: Seq<char>) -> Seq<CppMethodV> {
    spec_get_pure(d, name, d.types.len())
}

/// Query safety over the whole database: the starting name and every
/// transitively reached base name either has no declaration or declares
/// a class.
pub open spec fn spec_hierarchy_query_safe(d: CppDataV, name: Seq<char>) -> bool {
    spec_query_safe(d, name, d.types.len())
}

impl CppData {
    /// The methods the class called `name` declares itself.
    #[verifier::loop_isolation(false)]
    fn own_methods_of(&self, name: &String) -> (r: Vec<CppMethod>)
        ensures
            view_method_seq(r@) == spec_own_methods(self@.methods, name@),
    {
        let ghost pred = spec_member_pred(name@);
        let mut out: Vec<CppMethod> = Vec::new();
        let mut i: usize = 0;
        proof {
            reveal_with_fuel(Seq::<CppMethodV>::filter, 2);
            assert(self@.methods.take(0).filter(pred) =~= Seq::<CppMethodV>::empty());
            assert(view_method_seq(out@) =~= Seq::<CppMethodV>::empty());
        }
        while i < self.methods.len()
            invariant
                0 <= i <= self.methods.len(),
                view_method_seq(out@) == self@.methods.take(i as int).filter(pred),
            decreases self.methods.len() - i,
        {
            let ghost mv = self@.methods[i as int];
            proof {
                reveal_with_fuel(Seq::<CppMethodV>::filter, 2);
                assert(self@.methods.take(i + 1).drop_last() =~= self@.methods.take(i as int));
                assert(self@.methods.take(i + 1).last() == mv);
            }
            if self.methods[i].is_member_of(name) {
                let ghost before = view_method_seq(out@);
                out.push(copy_method(&self.methods[i]));
                proof {
                    assert(view_method_seq(out@) =~= before.push(mv));
                }
            }
            i += 1;
        }
        proof {
            assert(self@.methods.take(self@.methods.len() as int) =~= self@.methods);
        }
        out
    }

    /// Whether `own` holds a method with the same name and parameter
    /// types as `bm`.
    #[verifier::loop_isolation(false)]
    fn overridden_in(own: &Vec<CppMethod>, bm: &CppMethod) -> (r: bool)
        ensures
            r == spec_overridden(view_method_seq(own@), bm@),
    {
        let ghost gown = view_method_seq(own@);
        let mut k: usize = 0;
        while k < own.len()
            invariant
                0 <= k <= own.len(),
                forall|j: int|
                    0 <= j < k ==> !(gown[j].name == bm@.name && spec_arg_types(gown[j])
                        == spec_arg_types(bm@)),
            decreases own.len() - k,
        {
            if own[k].name == bm.name && own[k].argument_types_equal(bm) {
                proof {
                    assert(gown[k as int].name == bm@.name && spec_arg_types(gown[k as int])
                        == spec_arg_types(bm@));
                }
                return true;
            }
            k += 1;
        }
        false
    }

    #[verifier::loop_isolation(false)]
    #[verifier::rlimit(60)]
    fn get_all_methods_fueled(&self, class_name: &String, fuel: usize) -> (r: Vec<CppMethod>)
        requires
            spec_query_safe(self@, class_name@, fuel as nat),
        ensures
            view_method_seq(r@) == spec_get_all(self@, class_name@, fuel as nat),
        decreases fuel,
    {
        let own = self.own_methods_of(class_name);
        let ghost gown = spec_own_methods(self@.methods, class_name@);
        let ghost nop = spec_not_overridden_pred(gown);
        let mut result: Vec<CppMethod> = Vec::new();
        match self.find_type_index(class_name) {
            None => {},
            Some(ti) => {
                if fuel > 0 {
                    match &self.types[ti].kind {
                        CppTypeKind::Class { bases, .. } => {
                            let ghost gbases = spec_kind_bases(self@.types[ti as int].kind);
                            proof {
                                lemma_qs_bases(self@, gbases, (fuel - 1) as nat);
                                assert(gbases.take(0) =~= Seq::<CppBaseSpecifierV>::empty());
                            }
                            let nb = bases.len();
                            let mut k: usize = 0;
                            while k < nb
                                invariant
                                    0 <= k <= nb,
                                    nb == bases@.len(),
                                    gbases == view_base_seq(bases@),
                                    view_method_seq(result@) == spec_gam_bases(
                                        self@,
                                        gown,
                                        gbases.take(k as int),
                                        (fuel - 1) as nat,
                                    ),
                                decreases nb - k,
                            {
                                proof {
                                    assert(gbases.take(k + 1).drop_last() =~= gbases.take(
                                        k as int,
                                    ));
                                    assert(gbases.take(k + 1).last() == gbases[k as int]);
                                }
                                if let CppTypeBase::Class(cb) = &bases[k].base_type.base {
                                    proof {
                                        assert(gbases[k as int].base_type.base is Class);
                                        assert(gbases[k as int].base_type.base->Class_0.name
                                            == cb.name@);
                                    }
                                    let bms = self.get_all_methods_fueled(&cb.name, fuel - 1);
                                    let ghost gbms = view_method_seq(bms@);
                                    let nbm = bms.len();
                                    let mut x: usize = 0;
                                    proof {
                                        reveal_with_fuel(Seq::<CppMethodV>::filter, 2);
                                        assert(gbms.take(0).filter(nop) =~= Seq::<
                                            CppMethodV,
                                        >::empty());
                                    }
                                    let ghost base_res = view_method_seq(result@);
                                    while x < nbm
                                        invariant
                                            0 <= x <= nbm,
                                            nbm == bms@.len(),
                                            gbms == view_method_seq(bms@),
                                            view_method_seq(result@) == base_res + gbms.take(
                                                x as int,
                                            ).filter(nop),
                                        decreases nbm - x,
                                    {
                                        let ghost bmv = gbms[x as int];
                                        proof {
                                            reveal_with_fuel(Seq::<CppMethodV>::filter, 2);
                                            assert(gbms.take(x + 1).drop_last() =~= gbms.take(
                                                x as int,
                                            ));
                                            assert(gbms.take(x + 1).last() == bmv);
                                        }
                                        if !Self::overridden_in(&own, &bms[x]) {
                                            let ghost before = view_method_seq(result@);
                                            result.push(copy_method(&bms[x]));
                                            proof {
                                                assert(view_method_seq(result@) =~= before.push(
                                                    bmv,
                                                ));
                                                assert(gbms.take(x + 1).filter(nop)
                                                    =~= gbms.take(x as int).filter(nop).push(bmv));
                                            }
                                        } else {
                                            proof {
                                                assert(gbms.take(x + 1).filter(nop) =~= gbms.take(
                                                    x as int,
                                                ).filter(nop));
                                            }
                                        }
                                        x += 1;
                                    }
                                    proof {
                                        assert(gbms.take(nbm as int) =~= gbms);
                                        assert(view_method_seq(result@) =~= spec_gam_bases(
                                            self@,
                                            gown,
                                            gbases.take(k + 1),
                                            (fuel - 1) as nat,
                                        ));
                                    }
                                } else {
                                    proof {
                                        assert(view_method_seq(result@) =~= spec_gam_bases(
                                            self@,
                                            gown,
                                            gbases.take(k + 1),
                                            (fuel - 1) as nat,
                                        ));
                                    }
                                }
                                k += 1;
                            }
                            proof {
                                assert(gbases.take(nb as int) =~= gbases);
                            }
                        },
                        _ => {
                            proof {
                                assert(false);
                            }
                        },
                    }
                }
            },
        }
        let mut own_tail = own;
        let ghost before = view_method_seq(result@);
        let ghost ownv = own_tail@;
        result.append(&mut own_tail);
        proof {
            crate::model::lemma_view_method_seq_add(result@.subrange(0, before.len() as int), ownv);
            assert(view_method_seq(result@) =~= before + gown);
        }
        result
    }

    #[verifier::loop_isolation(false)]
    #[verifier::rlimit(60)]
    fn get_pure_virtual_methods_fueled(&self, class_name: &String, fuel: usize) -> (r: Vec<
        CppMethod,
    >)
        requires
            spec_query_safe(self@, class_name@, fuel as nat),
        ensures
            view_method_seq(r@) == spec_get_pure(self@, class_name@, fuel as nat),
        decreases fuel,
    {
        let own = self.own_methods_of(class_name);
        let ghost gown = spec_own_methods(self@.methods, class_name@);
        let ghost nop = spec_not_overridden_pred(gown);
        let ghost pv = spec_pure_virtual_pred();
        let mut result: Vec<CppMethod> = Vec::new();
        match self.find_type_index(class_name) {
            None => {},
            Some(ti) => {
                if fuel > 0 {
                    match &self.types[ti].kind {
                        CppTypeKind::Class { bases, .. } => {
                            let ghost gbases = spec_kind_bases(self@.types[ti as int].kind);
                            proof {
                                lemma_qs_bases(self@, gbases, (fuel - 1) as nat);
                                assert(gbases.take(0) =~= Seq::<CppBaseSpecifierV>::empty());
                            }
                            let nb = bases.len();
                            let mut k: usize = 0;
                            while k < nb
                                invariant
                                    0 <= k <= nb,
                                    nb == bases@.len(),
                                    gbases == view_base_seq(bases@),
                                    view_method_seq(result@) == spec_gpv_bases(
                                        self@,
                                        gown,
                                        gbases.take(k as int),
                                        (fuel - 1) as nat,
                                    ),
                                decreases nb - k,
                            {
                                proof {
                                    assert(gbases.take(k + 1).drop_last() =~= gbases.take(
                                        k as int,
                                    ));
                                    assert(gbases.take(k + 1).last() == gbases[k as int]);
                                }
                                if let CppTypeBase::Class(cb) = &bases[k].base_type.base {
                                    proof {
                                        assert(gbases[k as int].base_type.base is Class);
                                        assert(gbases[k as int].base_type.base->Class_0.name
                                            == cb.name@);
                                    }
                                    let bms = self.get_pure_virtual_methods_fueled(
                                        &cb.name,
                                        fuel - 1,
                                    );
                                    let ghost gbms = view_method_seq(bms@);
                                    let nbm = bms.len();
                                    let mut x: usize = 0;
                                    proof {
                                        reveal_with_fuel(Seq::<CppMethodV>::filter, 2);
                                        assert(gbms.take(0).filter(nop) =~= Seq::<
                                            CppMethodV,
                                        >::empty());
                                    }
                                    let ghost base_res = view_method_seq(result@);
                                    while x < nbm
                                        invariant
                                            0 <= x <= nbm,
                                            nbm == bms@.len(),
                                            gbms == view_method_seq(bms@),
                                            view_method_seq(result@) == base_res + gbms.take(
                                                x as int,
                                            ).filter(nop),
                                        decreases nbm - x,
                                    {
                                        let ghost bmv = gbms[x as int];
                                        proof {
                                            reveal_with_fuel(Seq::<CppMethodV>::filter, 2);
                                            assert(gbms.take(x + 1).drop_last() =~= gbms.take(
                                                x as int,
                                            ));
                                            assert(gbms.take(x + 1).last() == bmv);
                                        }
                                        if !Self::overridden_in(&own, &bms[x]) {
                                            let ghost before = view_method_seq(result@);
                                            result.push(copy_method(&bms[x]));
                                            proof {
                                                assert(view_method_seq(result@) =~= before.push(
                                                    bmv,
                                                ));
                                                assert(gbms.take(x + 1).filter(nop)
                                                    =~= gbms.take(x as int).filter(nop).push(bmv));
                                            }
                                        } else {
                                            proof {
                                                assert(gbms.take(x + 1).filter(nop) =~= gbms.take(
                                                    x as int,
                                                ).filter(nop));
                                            }
                                        }
                                        x += 1;
                                    }
                                    proof {
                                        assert(gbms.take(nbm as int) =~= gbms);
                                        assert(view_method_seq(result@) =~= spec_gpv_bases(
                                            self@,
                                            gown,
                                            gbases.take(k + 1),
                                            (fuel - 1) as nat,
                                        ));
                                    }
                                } else {
                                    proof {
                                        assert(view_method_seq(result@) =~= spec_gpv_bases(
                                            self@,
                                            gown,
                                            gbases.take(k + 1),
                                            (fuel - 1) as nat,
                                        ));
                                    }
                                }
                                k += 1;
                            }
                            proof {
                                assert(gbases.take(nb as int) =~= gbases);
                            }
                        },
                        _ => {
                            proof {
                                assert(false);
                            }
                        },
                    }
                }
            },
        }
        // the class's own pure-virtual methods come last
        let ghost base_res = view_method_seq(result@);
        let nown = own.len();
        let mut y: usize = 0;
        proof {
            reveal_with_fuel(Seq::<CppMethodV>::filter, 2);
            assert(gown.take(0).filter(pv) =~= Seq::<CppMethodV>::empty());
        }
        while y < nown
            invariant
                0 <= y <= nown,
                nown == own@.len(),
                gown == view_method_seq(own@),
                view_method_seq(result@) == base_res + gown.take(y as int).filter(pv),
            decreases nown - y,
        {
            let ghost ov = gown[y as int];
            proof {
                reveal_with_fuel(Seq::<CppMethodV>::filter, 2);
                assert(gown.take(y + 1).drop_last() =~= gown.take(y as int));
                assert(gown.take(y + 1).last() == ov);
            }
            let mut is_pure = false;
            match &own[y].class_membership {
                Some(info) => {
                    if info.is_pure_virtual {
                        is_pure = true;
                    }
                },
                None => {},
            }
            proof {
                assert(is_pure == pv(ov));
            }
            if is_pure {
                let ghost before = view_method_seq(result@);
                result.push(copy_method(&own[y]));
                proof {
                    assert(view_method_seq(result@) =~= before.push(ov));
                    assert(gown.take(y + 1).filter(pv) =~= gown.take(y as int).filter(pv).push(
                        ov,
                    ));
                }
            } else {
                proof {
                    assert(gown.take(y + 1).filter(pv) =~= gown.take(y as int).filter(pv));
                }
            }
            y += 1;
        }
        proof {
            assert(gown.take(nown as int) =~= gown);
        }
        result
    }

    /// The pure-virtual methods the class exposes: those of its bases
    /// that it does not override, then its own, used to detect abstract
    /// classes. Every name reached must be undeclared or declare a
    /// class.
    pub fn get_pure_virtual_methods(&self, class_name: &String) -> (r: Vec<CppMethod>)
        requires
            spec_hierarchy_query_safe(self@, class_name@),
        ensures
            view_method_seq(r@) == spec_get_pure_virtual_methods(self@, class_name@),
    {
        let fuel = self.types.len();
        self.get_pure_virtual_methods_fueled(class_name, fuel)
    }

    /// The class's own methods together with every non-overridden method
    /// of its direct and transitive bases: base methods come first, in
    /// hierarchy order, and a base method is dropped exactly when the
    /// class declares a method with the same name and parameter types.
    /// Every name reached must be undeclared or declare a class.
    pub fn get_all_methods(&self, class_name: &String) -> (r: Vec<CppMethod>)
        requires
            spec_hierarchy_query_safe(self@, class_name@),
        ensures
            view_method_seq(r@) == spec_get_all_methods(self@, class_name@),
    {
        let fuel = self.types.len();
        self.get_all_methods_fueled(class_name, fuel)
    }
}

/// `s` appended to `acc` unless already present.
pub open spec fn spec_add_unique(acc: Seq<Seq<char>>, s: Seq<char>) -> Seq<Seq<char>> {
    if acc.contains(s) {
        acc
    } else {
        acc.push(s)
    }
}

/// The names of `names` folded into `acc` in order, first occurrences
/// kept.
pub open spec fn spec_dedup_names(acc: Seq<Seq<char>>, names: Seq<Seq<char>>) -> Seq<Seq<char>>
    decreases names.len(),
{
    if names.len() == 0 {
        acc
    } else {
        spec_dedup_names(spec_add_unique(acc, names[0]), names.drop_first())
    }
}

/// Every include file the database names: the methods' files in order,
/// then the type declarations' files, each kept at its first occurrence.
pub open spec fn spec_all_include_files(d: CppDataV) -> Seq<Seq<char>> {
    spec_dedup_names(
        Seq::empty(),
        d.methods.map_values(|m: CppMethodV| m.include_file) + d.types.map_values(
            |t: CppTypeDataV| t.include_file,
        ),
    )
}

impl CppData {
    /// The distinct include files named by the database's methods and
    /// type declarations, in first-occurrence order.
    #[verifier::loop_isolation(false)]
    pub fn all_include_files(&self) -> (r: Vec<String>)
        ensures
            crate::model::view_string_seq(r@) == spec_all_include_files(self@),
    {
        let ghost all = self@.methods.map_values(|m: CppMethodV| m.include_file)
            + self@.types.map_values(|t: CppTypeDataV| t.include_file);
        let ghost target = spec_dedup_names(Seq::empty(), all);
        let mut out: Vec<String> = Vec::new();
        proof {
            assert(all.skip(0) =~= all);
            assert(crate::model::view_string_seq(out@) =~= Seq::<Seq<char>>::empty());
        }
        let nm = self.methods.len();
        let mut i: usize = 0;
        while i < nm
            invariant
                0 <= i <= nm,
                nm == self.methods@.len(),
                spec_dedup_names(crate::model::view_string_seq(out@), all.skip(i as int))
                    == target,
            decreases nm - i,
        {
            proof {
                assert(all.skip(i as int)[0] == self@.methods[i as int].include_file);
                assert(all.skip(i as int).drop_first() =~= all.skip(i + 1));
            }
            let ghost acc = crate::model::view_string_seq(out@);
            if !Self::string_vec_contains(&out, &self.methods[i].include_file) {
                out.push(self.methods[i].include_file.clone());
                proof {
                    assert(crate::model::view_string_seq(out@) =~= acc.push(
                        self@.methods[i as int].include_file,
                    ));
                }
            }
            proof {
                assert(crate::model::view_string_seq(out@) =~= spec_add_unique(
                    acc,
                    all.skip(i as int)[0],
                ));
            }
            i += 1;
        }
        let nt = self.types.len();
        let mut k: usize = 0;
        while k < nt
            invariant
                0 <= k <= nt,
                nt == self.types@.len(),
                spec_dedup_names(
                    crate::model::view_string_seq(out@),
                    all.skip(nm + k),
                ) == target,
            decreases nt - k,
        {
            proof {
                assert(all.skip(nm + k)[0] == self@.types[k as int].include_file);
                assert(all.skip(nm + k).drop_first() =~= all.skip(nm + k + 1));
            }
            let ghost acc = crate::model::view_string_seq(out@);
            if !Self::string_vec_contains(&out, &self.types[k].include_file) {
                out.push(self.types[k].include_file.clone());
                proof {
                    assert(crate::model::view_string_seq(out@) =~= acc.push(
                        self@.types[k as int].include_file,
                    ));
                }
            }
            proof {
                assert(crate::model::view_string_seq(out@) =~= spec_add_unique(
                    acc,
                    all.skip(nm + k)[0],
                ));
            }
            k += 1;
        }
        proof {
            assert(all.skip(nm + nt).len() == 0);
        }
        out
    }
}

} // verus!
