use cpp_model::classify::{
    detect_signals_and_slots, inherits, scan_header_sections, section_for_line,
    sections_for_class, signal_slot_include_files, HeaderFile, Section, SectionType,
};
use cpp_model::model::{
    CppBaseSpecifier, CppData, CppMethod, CppMethodClassMembership, CppMethodKind,
    CppOriginLocation, CppType, CppTypeBase, CppTypeClassBase, CppTypeData, CppTypeIndirection,
    CppTypeKind, CppVisibility,
};

fn header(path: &str, text: &str) -> HeaderFile {
    HeaderFile { include_file_path: path.to_string(), text: text.as_bytes().to_vec() }
}

fn class_at(name: &str, bases: Vec<&str>, path: &str, line: u64) -> CppTypeData {
    CppTypeData {
        name: name.to_string(),
        include_file: path.to_string(),
        origin_location: Some(CppOriginLocation {
            include_file_path: path.to_string(),
            line,
        }),
        kind: CppTypeKind::Class {
            bases: bases
                .into_iter()
                .map(|b| CppBaseSpecifier {
                    base_type: CppType {
                        is_const: false,
                        indirection: CppTypeIndirection::Value,
                        base: CppTypeBase::Class(CppTypeClassBase {
                            name: b.to_string(),
                            template_arguments: None,
                        }),
                    },
                    visibility: CppVisibility::Public,
                })
                .collect(),
            template_arguments: None,
        },
    }
}

fn member_at(name: &str, class: &str, path: &str, line: u64) -> CppMethod {
    CppMethod {
        name: name.to_string(),
        return_type: CppType {
            is_const: false,
            indirection: CppTypeIndirection::Value,
            base: CppTypeBase::Void,
        },
        arguments: vec![],
        operator: None,
        class_membership: Some(CppMethodClassMembership {
            class_type: CppTypeClassBase { name: class.to_string(), template_arguments: None },
            kind: CppMethodKind::Regular,
            visibility: CppVisibility::Public,
            is_virtual: false,
            is_pure_virtual: false,
            is_const: false,
            is_static: false,
            is_signal: false,
            is_slot: false,
        }),
        template_arguments: None,
        include_file: path.to_string(),
        origin_location: Some(CppOriginLocation {
            include_file_path: path.to_string(),
            line,
        }),
    }
}

fn flags(d: &CppData, name: &str) -> (bool, bool) {
    let m = d.methods.iter().find(|m| m.name == name).unwrap();
    let info = m.class_membership.as_ref().unwrap();
    (info.is_signal, info.is_slot)
}

#[test]
fn scan_finds_markers_in_order() {
    let text = b"class X {\npublic:\n  int f();\nsignals:\n  void s();\nQ_SLOTS:\n".to_vec();
    let ms = scan_header_sections(&text);
    assert_eq!(
        ms,
        vec![
            Section { line: 1, section_type: SectionType::Other },
            Section { line: 3, section_type: SectionType::Signals },
            Section { line: 5, section_type: SectionType::Slots },
        ]
    );
}

#[test]
fn scan_accepts_space_before_colon() {
    let ms = scan_header_sections(&b"Q_SIGNALS \t:\n".to_vec());
    assert_eq!(ms.len(), 1);
    assert_eq!(ms[0].section_type, SectionType::Signals);
    // no colon, no marker
    assert_eq!(scan_header_sections(&b"signals\n".to_vec()).len(), 0);
}

#[test]
fn private_slots_line_is_a_slots_marker() {
    let ms = scan_header_sections(&b"private slots:\n".to_vec());
    assert_eq!(ms.len(), 1);
    assert_eq!(ms[0].section_type, SectionType::Slots);
}

#[test]
fn section_lookup_takes_last_marker_strictly_before() {
    let ms = vec![
        Section { line: 0, section_type: SectionType::Other },
        Section { line: 2, section_type: SectionType::Signals },
    ];
    assert_eq!(section_for_line(&ms, 1), Some(SectionType::Other));
    assert_eq!(section_for_line(&ms, 2), Some(SectionType::Other));
    assert_eq!(section_for_line(&ms, 3), Some(SectionType::Signals));
    assert_eq!(section_for_line(&ms, 0), None);
    let scoped = sections_for_class(&ms, 1);
    assert_eq!(scoped, vec![Section { line: 2, section_type: SectionType::Signals }]);
}

#[test]
fn inherits_is_transitive() {
    let d = CppData {
        types: vec![
            class_at("QObject", vec![], "qobject.h", 0),
            class_at("QWidget", vec!["QObject"], "qwidget.h", 0),
            class_at("MyView", vec!["QWidget"], "myview.h", 0),
        ],
        methods: vec![],
        template_instantiations: vec![],
    };
    assert!(inherits(&d, &"MyView".to_string(), &"QObject".to_string()));
    assert!(inherits(&d, &"QWidget".to_string(), &"QObject".to_string()));
    assert!(!inherits(&d, &"QObject".to_string(), &"MyView".to_string()));
}

#[test]
fn include_files_cover_object_classes_only() {
    let d = CppData {
        types: vec![
            class_at("QObject", vec![], "qobject.h", 0),
            class_at("Widget", vec!["QObject"], "widget.h", 0),
            class_at("Plain", vec![], "plain.h", 0),
        ],
        methods: vec![],
        template_instantiations: vec![],
    };
    let files = signal_slot_include_files(&d, &"QObject".to_string());
    assert_eq!(files, vec!["widget.h".to_string()]);
}

#[test]
fn three_sections_classify_three_methods() {
    // Header text "public:\nvoid a();\nsignals:\nvoid b();\nslots:\nvoid c();\n"
    // with the class scope starting at line 0: a is unclassified, b is a
    // signal, c is a slot.
    let text = "public:\nvoid a();\nsignals:\nvoid b();\nslots:\nvoid c();\n";
    let mut d = CppData {
        types: vec![
            class_at("QObject", vec![], "qobject.h", 0),
            class_at("Widget", vec!["QObject"], "widget.h", 0),
        ],
        methods: vec![
            member_at("a", "Widget", "widget.h", 1),
            member_at("b", "Widget", "widget.h", 3),
            member_at("c", "Widget", "widget.h", 5),
        ],
        template_instantiations: vec![],
    };
    let headers = vec![header("widget.h", text), header("qobject.h", "")];
    let r = detect_signals_and_slots(&mut d, &headers, &"QObject".to_string());
    assert!(r.is_ok());
    assert_eq!(flags(&d, "a"), (false, false));
    assert_eq!(flags(&d, "b"), (true, false));
    assert_eq!(flags(&d, "c"), (false, true));
}

#[test]
fn missing_header_aborts_with_its_path() {
    let mut d = CppData {
        types: vec![
            class_at("QObject", vec![], "qobject.h", 0),
            class_at("Widget", vec!["QObject"], "widget.h", 0),
        ],
        methods: vec![member_at("a", "Widget", "widget.h", 1)],
        template_instantiations: vec![],
    };
    let r = detect_signals_and_slots(&mut d, &vec![], &"QObject".to_string());
    assert_eq!(r.unwrap_err(), "widget.h".to_string());
    assert_eq!(flags(&d, "a"), (false, false));
}

#[test]
fn markers_before_class_scope_are_ignored() {
    // The signals marker on line 0 lies before the class's own
    // declaration line, so the method stays unclassified.
    let text = "signals:\nclass Widget {\nvoid b();\n";
    let mut d = CppData {
        types: vec![
            class_at("QObject", vec![], "qobject.h", 0),
            class_at("Widget", vec!["QObject"], "widget.h", 1),
        ],
        methods: vec![member_at("b", "Widget", "widget.h", 2)],
        template_instantiations: vec![],
    };
    let headers = vec![header("widget.h", text), header("qobject.h", "")];
    assert!(detect_signals_and_slots(&mut d, &headers, &"QObject".to_string()).is_ok());
    assert_eq!(flags(&d, "b"), (false, false));
}

#[test]
fn synthesized_methods_are_never_classified() {
    let text = "signals:\nvoid b();\n";
    let mut unlocated = member_at("b", "Widget", "widget.h", 1);
    unlocated.origin_location = None;
    let mut d = CppData {
        types: vec![
            class_at("QObject", vec![], "qobject.h", 0),
            class_at("Widget", vec!["QObject"], "widget.h", 0),
        ],
        methods: vec![unlocated],
        template_instantiations: vec![],
    };
    let headers = vec![header("widget.h", text), header("qobject.h", "")];
    assert!(detect_signals_and_slots(&mut d, &headers, &"QObject".to_string()).is_ok());
    assert_eq!(flags(&d, "b"), (false, false));
}
