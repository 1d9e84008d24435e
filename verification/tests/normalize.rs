use cpp_model::model::{
    CppData, CppFunctionArgument, CppMethod, CppMethodClassMembership, CppMethodKind,
    CppOperator, CppOriginLocation, CppTemplateInstantiation, CppTemplateInstantiations,
    CppType, CppTypeBase, CppTypeClassBase, CppTypeData, CppTypeIndirection, CppTypeKind,
    CppVisibility,
};

fn ty(base: CppTypeBase) -> CppType {
    CppType { is_const: false, indirection: CppTypeIndirection::Value, base }
}

fn named(name: &str) -> CppType {
    ty(CppTypeBase::Other(name.to_string()))
}

fn void() -> CppType {
    ty(CppTypeBase::Void)
}

fn arg(name: &str, t: CppType, default: bool) -> CppFunctionArgument {
    CppFunctionArgument { name: name.to_string(), argument_type: t, has_default_value: default }
}

fn membership(class: &str, kind: CppMethodKind) -> CppMethodClassMembership {
    CppMethodClassMembership {
        class_type: CppTypeClassBase { name: class.to_string(), template_arguments: None },
        kind,
        visibility: CppVisibility::Public,
        is_virtual: false,
        is_pure_virtual: false,
        is_const: false,
        is_static: false,
        is_signal: false,
        is_slot: false,
    }
}

fn method(name: &str, class: Option<&str>, args: Vec<CppFunctionArgument>) -> CppMethod {
    CppMethod {
        name: name.to_string(),
        return_type: void(),
        arguments: args,
        operator: None,
        class_membership: class.map(|c| membership(c, CppMethodKind::Regular)),
        template_arguments: None,
        include_file: "a.h".to_string(),
        origin_location: None,
    }
}

fn class_decl(name: &str, bases: Vec<&str>) -> CppTypeData {
    CppTypeData {
        name: name.to_string(),
        include_file: "a.h".to_string(),
        origin_location: None,
        kind: CppTypeKind::Class {
            bases: bases
                .into_iter()
                .map(|b| cpp_model::model::CppBaseSpecifier {
                    base_type: ty(CppTypeBase::Class(CppTypeClassBase {
                        name: b.to_string(),
                        template_arguments: None,
                    })),
                    visibility: CppVisibility::Public,
                })
                .collect(),
            template_arguments: None,
        },
    }
}

fn db(types: Vec<CppTypeData>, methods: Vec<CppMethod>) -> CppData {
    CppData { types, methods, template_instantiations: Vec::new() }
}

fn destructor(class: &str, is_virtual: bool) -> CppMethod {
    let mut m = method(&format!("~{}", class), Some(class), Vec::new());
    if let Some(info) = &mut m.class_membership {
        info.kind = CppMethodKind::Destructor;
        info.is_virtual = is_virtual;
    }
    m
}

fn dtor_count(d: &CppData, class: &str) -> usize {
    d.methods
        .iter()
        .filter(|m| {
            m.is_destructor()
                && m.class_membership.as_ref().map(|i| i.class_type.name.as_str()) == Some(class)
        })
        .count()
}

#[test]
fn synthesizes_missing_destructor() {
    let mut d = db(vec![class_decl("A", vec![])], vec![]);
    d.ensure_explicit_destructors();
    assert_eq!(dtor_count(&d, "A"), 1);
    let m = &d.methods[0];
    assert_eq!(m.name, "~A");
    let info = m.class_membership.as_ref().unwrap();
    assert!(!info.is_virtual);
    assert!(!info.is_pure_virtual);
    assert!(matches!(info.visibility, CppVisibility::Public));
    assert!(m.origin_location.is_none());
}

#[test]
fn existing_destructor_is_kept_alone() {
    let mut d = db(vec![class_decl("A", vec![])], vec![destructor("A", false)]);
    d.ensure_explicit_destructors();
    assert_eq!(d.methods.len(), 1);
    assert_eq!(dtor_count(&d, "A"), 1);
}

#[test]
fn derived_gets_virtual_destructor_from_base() {
    // Base has a virtual destructor; Derived declares none: the
    // synthesized destructor of Derived is virtual.
    let mut d = db(
        vec![class_decl("Base", vec![]), class_decl("Derived", vec!["Base"])],
        vec![destructor("Base", true)],
    );
    d.ensure_explicit_destructors();
    assert_eq!(dtor_count(&d, "Derived"), 1);
    let m = d
        .methods
        .iter()
        .find(|m| m.name == "~Derived")
        .expect("synthesized destructor missing");
    assert!(m.class_membership.as_ref().unwrap().is_virtual);
    assert!(m.origin_location.is_none());
}

#[test]
fn has_virtual_destructor_walks_the_hierarchy() {
    let d = db(
        vec![
            class_decl("A", vec![]),
            class_decl("B", vec!["A"]),
            class_decl("C", vec!["B"]),
        ],
        vec![destructor("A", true)],
    );
    assert!(d.has_virtual_destructor(&"C".to_string()));
    assert!(d.has_virtual_destructor(&"A".to_string()));
    let d2 = db(vec![class_decl("A", vec![])], vec![destructor("A", false)]);
    assert!(!d2.has_virtual_destructor(&"A".to_string()));
}

#[test]
fn omitted_args_expansion_exact() {
    // foo(int a, int b = 5, int c = 10) expands to foo(int, int) and
    // foo(int); the original stays.
    let foo = method(
        "foo",
        None,
        vec![
            arg("a", named("int"), false),
            arg("b", named("int"), true),
            arg("c", named("int"), true),
        ],
    );
    let mut d = db(vec![], vec![foo]);
    d.generate_methods_with_omitted_args();
    assert_eq!(d.methods.len(), 3);
    assert_eq!(d.methods[0].arguments.len(), 3);
    assert_eq!(d.methods[1].name, "foo");
    assert_eq!(d.methods[1].arguments.len(), 2);
    assert_eq!(d.methods[2].arguments.len(), 1);
    assert_eq!(d.methods[2].arguments[0].name, "a");
}

#[test]
fn no_trailing_default_no_expansion() {
    let foo = method("foo", None, vec![arg("a", named("int"), true), arg("b", named("int"), false)]);
    let mut d = db(vec![], vec![foo]);
    d.generate_methods_with_omitted_args();
    assert_eq!(d.methods.len(), 1);
}

#[test]
fn inherited_methods_respect_name_shadowing() {
    // Base::m1 is copied into Derived; Base::shared is not, because
    // Derived declares a method of that name; the constructor stays.
    let mut ctor = method("Base", Some("Base"), vec![]);
    if let Some(info) = &mut ctor.class_membership {
        info.kind = CppMethodKind::Constructor;
    }
    let mut assign = method("operator=", Some("Base"), vec![]);
    assign.operator = Some(CppOperator::Assignment);
    let mut d = db(
        vec![class_decl("Base", vec![]), class_decl("Derived", vec!["Base"])],
        vec![
            method("m1", Some("Base"), vec![]),
            method("shared", Some("Base"), vec![]),
            method("shared", Some("Derived"), vec![]),
            ctor,
            assign,
        ],
    );
    d.add_inherited_methods();
    let derived_names: Vec<&str> = d
        .methods
        .iter()
        .filter(|m| {
            m.class_membership.as_ref().map(|i| i.class_type.name.as_str()) == Some("Derived")
        })
        .map(|m| m.name.as_str())
        .collect();
    assert_eq!(derived_names, vec!["shared", "m1"]);
    let copied = d
        .methods
        .iter()
        .find(|m| {
            m.name == "m1"
                && m.class_membership.as_ref().map(|i| i.class_type.name.as_str())
                    == Some("Derived")
        })
        .unwrap();
    assert!(copied.origin_location.is_none());
}

#[test]
fn inheritance_is_transitive() {
    let mut d = db(
        vec![
            class_decl("A", vec![]),
            class_decl("B", vec!["A"]),
            class_decl("C", vec!["B"]),
        ],
        vec![method("top", Some("A"), vec![])],
    );
    d.add_inherited_methods();
    for class in ["B", "C"] {
        assert!(
            d.methods.iter().any(|m| m.name == "top"
                && m.class_membership.as_ref().map(|i| i.class_type.name.as_str())
                    == Some(class)),
            "top not propagated into {}",
            class
        );
    }
}

fn template_param(nested_level: u64, index: u64) -> CppType {
    ty(CppTypeBase::TemplateParameter { nested_level, index })
}

fn box_db() -> CppData {
    // template class Box<T> with registered instantiation Box<int>,
    // and a generic method get() -> T on Box.
    let box_decl = CppTypeData {
        name: "Box".to_string(),
        include_file: "box.h".to_string(),
        origin_location: None,
        kind: CppTypeKind::Class { bases: vec![], template_arguments: Some(vec!["T".to_string()]) },
    };
    let mut get = method("get", Some("Box"), vec![]);
    get.return_type = template_param(0, 0);
    if let Some(info) = &mut get.class_membership {
        info.class_type.template_arguments = Some(vec![template_param(0, 0)]);
    }
    CppData {
        types: vec![box_decl],
        methods: vec![get],
        template_instantiations: vec![CppTemplateInstantiations {
            class_name: "Box".to_string(),
            instantiations: vec![CppTemplateInstantiation {
                template_arguments: vec![named("int")],
            }],
        }],
    }
}

#[test]
fn template_instantiation_produces_concrete_method() {
    let mut d = box_db();
    assert!(d.instantiate_templates().is_ok());
    assert_eq!(d.methods.len(), 2);
    let inst = &d.methods[1];
    assert_eq!(inst.name, "get");
    match &inst.return_type.base {
        CppTypeBase::Other(s) => assert_eq!(s, "int"),
        _ => panic!("instantiated return type is not the concrete argument"),
    }
    let info = inst.class_membership.as_ref().unwrap();
    let targs = info.class_type.template_arguments.as_ref().unwrap();
    assert_eq!(targs.len(), 1);
    assert!(matches!(&targs[0].base, CppTypeBase::Other(s) if s == "int"));
}

#[test]
fn residual_parameters_yield_no_method() {
    // The method is generic at nesting level 0, but its return type uses
    // a level-1 parameter that no substitution covers.
    let mut d = box_db();
    d.methods[0].return_type = template_param(1, 0);
    assert!(d.instantiate_templates().is_ok());
    assert_eq!(d.methods.len(), 1);
}

#[test]
fn empty_template_argument_list_is_a_fault() {
    let mut d = box_db();
    if let Some(info) = &mut d.methods[0].class_membership {
        info.class_type.template_arguments = Some(vec![]);
    }
    let before_len = d.methods.len();
    assert!(d.instantiate_templates().is_err());
    assert_eq!(d.methods.len(), before_len);
}

#[test]
fn conversion_operator_is_renamed() {
    let mut d = box_db();
    d.methods[0].name = "operator T".to_string();
    d.methods[0].operator = Some(CppOperator::Conversion(template_param(0, 0)));
    d.methods[0].return_type = template_param(0, 0);
    assert!(d.instantiate_templates().is_ok());
    assert_eq!(d.methods.len(), 2);
    assert_eq!(d.methods[1].name, "operator int");
}

#[test]
fn all_include_files_deduplicates() {
    let mut m1 = method("a", None, vec![]);
    m1.include_file = "x.h".to_string();
    let mut m2 = method("b", None, vec![]);
    m2.include_file = "y.h".to_string();
    let mut m3 = method("c", None, vec![]);
    m3.include_file = "x.h".to_string();
    let mut t = class_decl("C", vec![]);
    t.include_file = "z.h".to_string();
    let d = db(vec![t], vec![m1, m2, m3]);
    let files = d.all_include_files();
    assert_eq!(files, vec!["x.h".to_string(), "y.h".to_string(), "z.h".to_string()]);
}

#[test]
fn post_process_runs_all_passes() {
    let mut d = db(
        vec![class_decl("Base", vec![]), class_decl("Derived", vec!["Base"])],
        vec![method(
            "f",
            Some("Base"),
            vec![arg("a", named("int"), false), arg("b", named("int"), true)],
        )],
    );
    assert!(d.post_process().is_ok());
    // destructors for both classes
    assert_eq!(dtor_count(&d, "Base"), 1);
    assert_eq!(dtor_count(&d, "Derived"), 1);
    // the reduced-arity overload of f exists
    assert!(d.methods.iter().any(|m| m.name == "f" && m.arguments.len() == 1));
    // f is propagated into Derived
    assert!(d.methods.iter().any(|m| m.name == "f"
        && m.class_membership.as_ref().map(|i| i.class_type.name.as_str()) == Some("Derived")));
}

#[test]
fn get_all_methods_suppresses_true_overrides() {
    // Derived overrides f(int) exactly, so the base f(int) is dropped;
    // the base g and the differently-typed f(char) survive.
    let d = db(
        vec![class_decl("Base", vec![]), class_decl("Derived", vec!["Base"])],
        vec![
            method("f", Some("Base"), vec![arg("a", named("int"), false)]),
            method("f", Some("Base"), vec![arg("a", named("char"), false)]),
            method("g", Some("Base"), vec![]),
            method("f", Some("Derived"), vec![arg("a", named("int"), false)]),
        ],
    );
    let all = d.get_all_methods(&"Derived".to_string());
    let mut sigs: Vec<(String, usize, String)> = all
        .iter()
        .map(|m| {
            let owner = m.class_membership.as_ref().unwrap().class_type.name.clone();
            (m.name.clone(), m.arguments.len(), owner)
        })
        .collect();
    sigs.sort();
    assert_eq!(
        sigs,
        vec![
            ("f".to_string(), 1, "Base".to_string()),     // f(char)
            ("f".to_string(), 1, "Derived".to_string()),  // own f(int)
            ("g".to_string(), 0, "Base".to_string()),
        ]
    );
    let base_f = all
        .iter()
        .find(|m| m.class_membership.as_ref().unwrap().class_type.name == "Base" && m.name == "f")
        .unwrap();
    assert!(matches!(&base_f.arguments[0].argument_type.base,
        CppTypeBase::Other(s) if s == "char"));
}

#[test]
fn pure_virtual_methods_mark_abstract_classes() {
    let mut pv = method("draw", Some("Shape"), vec![]);
    if let Some(info) = &mut pv.class_membership {
        info.is_virtual = true;
        info.is_pure_virtual = true;
    }
    let d = db(
        vec![class_decl("Shape", vec![]), class_decl("Circle", vec!["Shape"])],
        vec![pv, method("area", Some("Shape"), vec![])],
    );
    let shape_pure = d.get_pure_virtual_methods(&"Shape".to_string());
    assert_eq!(shape_pure.len(), 1);
    assert_eq!(shape_pure[0].name, "draw");
    // Circle does not override draw, so it is still abstract.
    let circle_pure = d.get_pure_virtual_methods(&"Circle".to_string());
    assert_eq!(circle_pure.len(), 1);
    // A class that overrides draw is concrete.
    let d2 = db(
        vec![class_decl("Shape", vec![]), class_decl("Square", vec!["Shape"])],
        vec![
            {
                let mut m = method("draw", Some("Shape"), vec![]);
                if let Some(info) = &mut m.class_membership {
                    info.is_pure_virtual = true;
                }
                m
            },
            method("draw", Some("Square"), vec![]),
        ],
    );
    assert_eq!(d2.get_pure_virtual_methods(&"Square".to_string()).len(), 0);
}

#[test]
fn template_class_detection_walks_bases() {
    let plain = class_decl("Plain", vec![]);
    let tmpl = CppTypeData {
        name: "List".to_string(),
        include_file: "l.h".to_string(),
        origin_location: None,
        kind: CppTypeKind::Class { bases: vec![], template_arguments: Some(vec!["T".to_string()]) },
    };
    let derived = class_decl("OfList", vec!["List"]);
    let d = db(vec![plain, tmpl, derived], vec![]);
    assert!(d.is_template_class(&"List".to_string()));
    assert!(d.is_template_class(&"OfList".to_string()));
    assert!(!d.is_template_class(&"Plain".to_string()));
    assert!(!d.is_template_class(&"Unknown".to_string()));
}

#[test]
fn default_class_type_uses_placeholder_parameters() {
    let t = CppTypeData {
        name: "Pair".to_string(),
        include_file: "p.h".to_string(),
        origin_location: None,
        kind: CppTypeKind::Class {
            bases: vec![],
            template_arguments: Some(vec!["K".to_string(), "V".to_string()]),
        },
    };
    assert!(t.is_class());
    let ct = t.default_class_type();
    assert_eq!(ct.name, "Pair");
    let args = ct.template_arguments.unwrap();
    assert_eq!(args.len(), 2);
    assert!(matches!(
        args[1].base,
        CppTypeBase::TemplateParameter { nested_level: 0, index: 1 }
    ));
}
