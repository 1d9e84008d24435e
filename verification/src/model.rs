//! Data model of the API item database: type references, type declarations,
//! methods with class membership, provenance, and registered template
//! instantiations, together with their mathematical views.

use vstd::prelude::*;

verus! {

/// Indirection of a type reference: plain value, pointer, or reference.
#[derive(Clone, Copy, PartialEq, Eq, Structural, Debug)]
pub enum CppTypeIndirection {
    Value,
    Ptr,
    Ref,
}

/// C++ access specifier of a member or of a base-class edge.
#[derive(Clone, Copy, PartialEq, Eq, Structural, Debug)]
pub enum CppVisibility {
    Public,
    Protected,
    Private,
}

/// Kind of a class member function.
#[derive(Clone, Copy, PartialEq, Eq, Structural, Debug)]
pub enum CppMethodKind {
    Regular,
    Constructor,
    Destructor,
}

/// A class base identity: class name plus optional template arguments.
pub struct CppTypeClassBase {
    pub name: String,
    pub template_arguments: Option<Vec<CppType>>,
}

/// Base identity of a type reference.
pub enum CppTypeBase {
    /// The `void` type.
    Void,
    /// A class type, possibly with template arguments.
    Class(CppTypeClassBase),
    /// A template parameter, identified by the nesting depth of the
    /// template declaration that binds it and its position there.
    TemplateParameter { nested_level: u64, index: u64 },
    /// Any other built-in or unknown type, kept by name.
    Other(String),
}

/// A type reference: base identity, indirection, const qualifier.
pub struct CppType {
    pub is_const: bool,
    pub indirection: CppTypeIndirection,
    pub base: CppTypeBase,
}

/// Mathematical view of `CppTypeClassBase`.
#[verifier::ext_equal]
pub ghost struct CppTypeClassBaseV {
    pub name: Seq<char>,
    pub template_arguments: Option<Seq<CppTypeV>>,
}

/// Mathematical view of `CppTypeBase`.
#[verifier::ext_equal]
pub ghost enum CppTypeBaseV {
    Void,
    Class(CppTypeClassBaseV),
    TemplateParameter { nested_level: u64, index: u64 },
    Other(Seq<char>),
}

/// Mathematical view of `CppType`.
#[verifier::ext_equal]
pub ghost struct CppTypeV {
    pub is_const: bool,
    pub indirection: CppTypeIndirection,
    pub base: CppTypeBaseV,
}

pub open spec fn view_type(t: CppType) -> CppTypeV
    decreases t,
{
    CppTypeV { is_const: t.is_const, indirection: t.indirection, base: view_type_base(t.base) }
}

pub open spec fn view_type_base(b: CppTypeBase) -> CppTypeBaseV
    decreases b,
{
    match b {
        CppTypeBase::Void => CppTypeBaseV::Void,
        CppTypeBase::Class(c) => CppTypeBaseV::Class(view_class_base(c)),
        CppTypeBase::TemplateParameter { nested_level, index } => CppTypeBaseV::TemplateParameter {
            nested_level,
            index,
        },
        CppTypeBase::Other(s) => CppTypeBaseV::Other(s@),
    }
}

pub open spec fn view_class_base(c: CppTypeClassBase) -> CppTypeClassBaseV
    decreases c,
{
    CppTypeClassBaseV {
        name: c.name@,
        template_arguments: if c.template_arguments is Some {
            Some(view_type_seq(c.template_arguments->0@))
        } else {
            None
        },
    }
}

pub open spec fn view_type_seq(ts: Seq<CppType>) -> Seq<CppTypeV>
    decreases ts,
{
    if ts.len() == 0 {
        Seq::empty()
    } else {
        view_type_seq(ts.drop_last()).push(view_type(ts.last()))
    }
}

/// The view of a sequence of type references is the sequence of their views.
pub broadcast proof fn lemma_view_type_seq(ts: Seq<CppType>)
    ensures
        #[trigger] view_type_seq(ts).len() == ts.len(),
        forall|i: int| 0 <= i < ts.len() ==> view_type_seq(ts)[i] == view_type(ts[i]),
    decreases ts,
{
    if ts.len() > 0 {
        lemma_view_type_seq(ts.drop_last());
    }
}

/// Where a parsed item came from: the header file it was declared in and
/// its line there (0-based). Synthesized items carry no location.
pub struct CppOriginLocation {
    pub include_file_path: String,
    pub line: u64,
}

/// Mathematical view of `CppOriginLocation`.
#[verifier::ext_equal]
pub ghost struct CppOriginLocationV {
    pub include_file_path: Seq<char>,
    pub line: u64,
}

pub open spec fn view_origin(o: CppOriginLocation) -> CppOriginLocationV {
    CppOriginLocationV { include_file_path: o.include_file_path@, line: o.line }
}

pub open spec fn view_origin_opt(o: Option<CppOriginLocation>) -> Option<CppOriginLocationV> {
    match o {
        Some(l) => Some(view_origin(l)),
        None => None,
    }
}

/// One function parameter: name, type, and whether the declaration gives
/// it a default value.
pub struct CppFunctionArgument {
    pub name: String,
    pub argument_type: CppType,
    pub has_default_value: bool,
}

/// Mathematical view of `CppFunctionArgument`.
#[verifier::ext_equal]
pub ghost struct CppFunctionArgumentV {
    pub name: Seq<char>,
    pub argument_type: CppTypeV,
    pub has_default_value: bool,
}

pub open spec fn view_argument(a: CppFunctionArgument) -> CppFunctionArgumentV {
    CppFunctionArgumentV {
        name: a.name@,
        argument_type: view_type(a.argument_type),
        has_default_value: a.has_default_value,
    }
}

pub open spec fn view_argument_seq(args: Seq<CppFunctionArgument>) -> Seq<CppFunctionArgumentV> {
    args.map(|i: int, a: CppFunctionArgument| view_argument(a))
}

/// A method's record of the class that owns it.
pub struct CppMethodClassMembership {
    pub class_type: CppTypeClassBase,
    pub kind: CppMethodKind,
    pub visibility: CppVisibility,
    pub is_virtual: bool,
    pub is_pure_virtual: bool,
    pub is_const: bool,
    pub is_static: bool,
    pub is_signal: bool,
    pub is_slot: bool,
}

/// Mathematical view of `CppMethodClassMembership`.
#[verifier::ext_equal]
pub ghost struct CppMethodClassMembershipV {
    pub class_type: CppTypeClassBaseV,
    pub kind: CppMethodKind,
    pub visibility: CppVisibility,
    pub is_virtual: bool,
    pub is_pure_virtual: bool,
    pub is_const: bool,
    pub is_static: bool,
    pub is_signal: bool,
    pub is_slot: bool,
}

pub open spec fn view_membership(m: CppMethodClassMembership) -> CppMethodClassMembershipV {
    CppMethodClassMembershipV {
        class_type: view_class_base(m.class_type),
        kind: m.kind,
        visibility: m.visibility,
        is_virtual: m.is_virtual,
        is_pure_virtual: m.is_pure_virtual,
        is_const: m.is_const,
        is_static: m.is_static,
        is_signal: m.is_signal,
        is_slot: m.is_slot,
    }
}

/// Operator tag of a method that overloads an operator.
pub enum CppOperator {
    /// The assignment operator, which C++ never inherits.
    Assignment,
    /// A conversion operator to the given target type.
    Conversion(CppType),
    /// Any other operator, kept by its token.
    Other(String),
}

/// Mathematical view of `CppOperator`.
#[verifier::ext_equal]
pub ghost enum CppOperatorV {
    Assignment,
    Conversion(CppTypeV),
    Other(Seq<char>),
}

pub open spec fn view_operator(o: CppOperator) -> CppOperatorV {
    match o {
        CppOperator::Assignment => CppOperatorV::Assignment,
        CppOperator::Conversion(t) => CppOperatorV::Conversion(view_type(t)),
        CppOperator::Other(s) => CppOperatorV::Other(s@),
    }
}

pub open spec fn view_operator_opt(o: Option<CppOperator>) -> Option<CppOperatorV> {
    match o {
        Some(op) => Some(view_operator(op)),
        None => None,
    }
}

/// A method item of the database.
pub struct CppMethod {
    pub name: String,
    pub return_type: CppType,
    pub arguments: Vec<CppFunctionArgument>,
    pub operator: Option<CppOperator>,
    pub class_membership: Option<CppMethodClassMembership>,
    pub template_arguments: Option<Vec<CppType>>,
    pub include_file: String,
    pub origin_location: Option<CppOriginLocation>,
}

/// Mathematical view of `CppMethod`.
#[verifier::ext_equal]
pub ghost struct CppMethodV {
    pub name: Seq<char>,
    pub return_type: CppTypeV,
    pub arguments: Seq<CppFunctionArgumentV>,
    pub operator: Option<CppOperatorV>,
    pub class_membership: Option<CppMethodClassMembershipV>,
    pub template_arguments: Option<Seq<CppTypeV>>,
    pub include_file: Seq<char>,
    pub origin_location: Option<CppOriginLocationV>,
}

pub open spec fn view_membership_opt(m: Option<CppMethodClassMembership>) -> Option<
    CppMethodClassMembershipV,
> {
    match m {
        Some(i) => Some(view_membership(i)),
        None => None,
    }
}

pub open spec fn view_type_seq_opt(ts: Option<Vec<CppType>>) -> Option<Seq<CppTypeV>> {
    match ts {
        Some(v) => Some(view_type_seq(v@)),
        None => None,
    }
}

pub open spec fn view_method(m: CppMethod) -> CppMethodV {
    CppMethodV {
        name: m.name@,
        return_type: view_type(m.return_type),
        arguments: view_argument_seq(m.arguments@),
        operator: view_operator_opt(m.operator),
        class_membership: view_membership_opt(m.class_membership),
        template_arguments: view_type_seq_opt(m.template_arguments),
        include_file: m.include_file@,
        origin_location: view_origin_opt(m.origin_location),
    }
}

pub open spec fn view_method_seq(ms: Seq<CppMethod>) -> Seq<CppMethodV> {
    ms.map(|i: int, m: CppMethod| view_method(m))
}

/// The view of concatenated method lists is the concatenation of their
/// views.
pub proof fn lemma_view_method_seq_add(a: Seq<CppMethod>, b: Seq<CppMethod>)
    ensures
        view_method_seq(a + b) == view_method_seq(a) + view_method_seq(b),
{
    assert(view_method_seq(a + b) =~= view_method_seq(a) + view_method_seq(b));
}

/// A base-class edge of a class declaration: the base type reference and
/// the access with which it is inherited.
pub struct CppBaseSpecifier {
    pub base_type: CppType,
    pub visibility: CppVisibility,
}

/// Mathematical view of `CppBaseSpecifier`.
#[verifier::ext_equal]
pub ghost struct CppBaseSpecifierV {
    pub base_type: CppTypeV,
    pub visibility: CppVisibility,
}

pub open spec fn view_base_specifier(b: CppBaseSpecifier) -> CppBaseSpecifierV {
    CppBaseSpecifierV { base_type: view_type(b.base_type), visibility: b.visibility }
}

pub open spec fn view_base_seq(bs: Seq<CppBaseSpecifier>) -> Seq<CppBaseSpecifierV> {
    bs.map(|i: int, b: CppBaseSpecifier| view_base_specifier(b))
}

/// What a type declaration declares: an enum, or a class with its base
/// edges and, for a template class, its declared template parameter names.
pub enum CppTypeKind {
    Enum,
    Class { bases: Vec<CppBaseSpecifier>, template_arguments: Option<Vec<String>> },
}

/// Mathematical view of `CppTypeKind`.
#[verifier::ext_equal]
pub ghost enum CppTypeKindV {
    Enum,
    Class { bases: Seq<CppBaseSpecifierV>, template_arguments: Option<Seq<Seq<char>>> },
}

pub open spec fn view_string_seq(ss: Seq<String>) -> Seq<Seq<char>> {
    ss.map(|i: int, s: String| s@)
}

pub open spec fn view_type_kind(k: CppTypeKind) -> CppTypeKindV {
    match k {
        CppTypeKind::Enum => CppTypeKindV::Enum,
        CppTypeKind::Class { bases, template_arguments } => CppTypeKindV::Class {
            bases: view_base_seq(bases@),
            template_arguments: match template_arguments {
                Some(names) => Some(view_string_seq(names@)),
                None => None,
            },
        },
    }
}

/// A type declaration item of the database.
pub struct CppTypeData {
    pub name: String,
    pub include_file: String,
    pub origin_location: Option<CppOriginLocation>,
    pub kind: CppTypeKind,
}

/// Mathematical view of `CppTypeData`.
#[verifier::ext_equal]
pub ghost struct CppTypeDataV {
    pub name: Seq<char>,
    pub include_file: Seq<char>,
    pub origin_location: Option<CppOriginLocationV>,
    pub kind: CppTypeKindV,
}

pub open spec fn view_type_data(t: CppTypeData) -> CppTypeDataV {
    CppTypeDataV {
        name: t.name@,
        include_file: t.include_file@,
        origin_location: view_origin_opt(t.origin_location),
        kind: view_type_kind(t.kind),
    }
}

pub open spec fn view_type_data_seq(ts: Seq<CppTypeData>) -> Seq<CppTypeDataV> {
    ts.map(|i: int, t: CppTypeData| view_type_data(t))
}

/// One registered concrete instantiation of a template class: the ordered
/// concrete arguments it is to be expanded with.
pub struct CppTemplateInstantiation {
    pub template_arguments: Vec<CppType>,
}

/// Mathematical view of `CppTemplateInstantiation`.
#[verifier::ext_equal]
pub ghost struct CppTemplateInstantiationV {
    pub template_arguments: Seq<CppTypeV>,
}

pub open spec fn view_instantiation(i: CppTemplateInstantiation) -> CppTemplateInstantiationV {
    CppTemplateInstantiationV { template_arguments: view_type_seq(i.template_arguments@) }
}

pub open spec fn view_instantiation_seq(is: Seq<CppTemplateInstantiation>) -> Seq<
    CppTemplateInstantiationV,
> {
    is.map(|i: int, x: CppTemplateInstantiation| view_instantiation(x))
}

/// The registered instantiation set of one template class, keyed by the
/// class name.
pub struct CppTemplateInstantiations {
    pub class_name: String,
    pub instantiations: Vec<CppTemplateInstantiation>,
}

/// Mathematical view of `CppTemplateInstantiations`.
#[verifier::ext_equal]
pub ghost struct CppTemplateInstantiationsV {
    pub class_name: Seq<char>,
    pub instantiations: Seq<CppTemplateInstantiationV>,
}

pub open spec fn view_instantiations(e: CppTemplateInstantiations) -> CppTemplateInstantiationsV {
    CppTemplateInstantiationsV {
        class_name: e.class_name@,
        instantiations: view_instantiation_seq(e.instantiations@),
    }
}

pub open spec fn view_instantiations_seq(es: Seq<CppTemplateInstantiations>) -> Seq<
    CppTemplateInstantiationsV,
> {
    es.map(|i: int, e: CppTemplateInstantiations| view_instantiations(e))
}

/// The shared API item database: type declarations, methods, and the
/// registered template instantiation sets.
pub struct CppData {
    pub types: Vec<CppTypeData>,
    pub methods: Vec<CppMethod>,
    pub template_instantiations: Vec<CppTemplateInstantiations>,
}

/// Mathematical view of `CppData`.
#[verifier::ext_equal]
pub ghost struct CppDataV {
    pub types: Seq<CppTypeDataV>,
    pub methods: Seq<CppMethodV>,
    pub template_instantiations: Seq<CppTemplateInstantiationsV>,
}

pub open spec fn view_data(d: CppData) -> CppDataV {
    CppDataV {
        types: view_type_data_seq(d.types@),
        methods: view_method_seq(d.methods@),
        template_instantiations: view_instantiations_seq(d.template_instantiations@),
    }
}

impl View for CppMethod {
    type V = CppMethodV;

    open spec fn view(&self) -> CppMethodV {
        view_method(*self)
    }
}

impl View for CppTypeData {
    type V = CppTypeDataV;

    open spec fn view(&self) -> CppTypeDataV {
        view_type_data(*self)
    }
}

impl View for CppData {
    type V = CppDataV;

    open spec fn view(&self) -> CppDataV {
        view_data(*self)
    }
}

impl View for CppType {
    type V = CppTypeV;

    open spec fn view(&self) -> CppTypeV {
        view_type(*self)
    }
}

impl View for CppTypeBase {
    type V = CppTypeBaseV;

    open spec fn view(&self) -> CppTypeBaseV {
        view_type_base(*self)
    }
}

impl View for CppTypeClassBase {
    type V = CppTypeClassBaseV;

    open spec fn view(&self) -> CppTypeClassBaseV {
        view_class_base(*self)
    }
}

} // verus!
