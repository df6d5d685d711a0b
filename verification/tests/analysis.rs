use tilgen::GeneratorParams;
use tilgen::analyzer::Analyzer;
use tilgen::components::JsonComponent;
use tilgen::components::JsonType;
use tilgen::file_manager::TemplateType;
use tilgen::generator::Generator;
use tilgen::generator::GeneratorError;
use tilgen::json_value::JsonVal;
use tilgen::names::EntityName;
use tilgen::names::NameReg;
use tilgen::til::Generic;
use tilgen::til::GenericKind;
use tilgen::til::StreamType;
use tilgen::til::TilStreamlet;
use tilgen::type_manager::TypeManager;

fn params() -> GeneratorParams {
    GeneratorParams::new(4, 8, 64, "ns", "schema_parser")
}

fn obj(fields: Vec<(&str, JsonVal)>) -> JsonVal {
    JsonVal::Object(fields.into_iter().map(|(k, v)| (k.to_string(), v)).collect())
}

fn base_names(ents: &Vec<TilStreamlet>) -> Vec<String> {
    ents.iter().map(|e| e.name.base.clone()).collect()
}

fn triple(n: &EntityName) -> (String, usize, usize) {
    (n.base.clone(), n.depth, n.serial)
}

#[test]
fn scenario_voltage_array() {
    // {"voltage":[1128,1213,1850,429]}: one Object with one Record whose
    // value is an Array of one Integer Value; emission order is integer,
    // array, matcher, key, record.
    let doc = obj(vec![(
        "voltage",
        JsonVal::Array(vec![
            JsonVal::Number,
            JsonVal::Number,
            JsonVal::Number,
            JsonVal::Number,
        ]),
    )]);
    let mut analyzer = Analyzer::new();
    analyzer.analyze(&doc, params());
    let (_types, ents) = analyzer.get_definitions();
    assert_eq!(
        base_names(ents),
        vec![
            "int_parser".to_string(),
            "array_parser".to_string(),
            "voltage_parser".to_string(),
            "key_parser".to_string(),
            "record_parser".to_string(),
        ]
    );
    match analyzer.get_root() {
        Ok(JsonComponent::Object(o)) => {
            assert_eq!(o.records.len(), 1);
            let rec = &o.records[0];
            assert_eq!(rec.key.matcher.get_matcher(), "voltage");
            match rec.key.child.as_deref() {
                Some(JsonComponent::Array(a)) => match a.child.as_deref() {
                    Some(JsonComponent::Value(v)) => {
                        assert_eq!(v.data_type, JsonType::Integer)
                    }
                    other => panic!("array child is not an integer value: {:?}", other.is_some()),
                },
                _ => panic!("record value is not an array"),
            }
        }
        _ => panic!("no object root"),
    }
}

#[test]
fn scenario_valid_boolean() {
    // {"valid":true}: the Boolean entity comes before the matcher, key
    // and record triple.
    let doc = obj(vec![("valid", JsonVal::Boolean)]);
    let mut analyzer = Analyzer::new();
    analyzer.analyze(&doc, params());
    let (_types, ents) = analyzer.get_definitions();
    assert_eq!(
        base_names(ents),
        vec![
            "bool_parser".to_string(),
            "valid_parser".to_string(),
            "key_parser".to_string(),
            "record_parser".to_string(),
        ]
    );
}

#[test]
fn scenario_empty_array_field() {
    // {"a":[],"b":1}: the empty array contributes no entity, but its
    // matcher/key/record triple is still emitted; depth bookkeeping
    // stays sound.
    let doc = obj(vec![("a", JsonVal::Array(vec![])), ("b", JsonVal::Number)]);
    let mut analyzer = Analyzer::new();
    analyzer.analyze(&doc, params());
    let (_types, ents) = analyzer.get_definitions();
    let names = base_names(ents);
    assert_eq!(
        names,
        vec![
            "a_parser".to_string(),
            "key_parser".to_string(),
            "record_parser".to_string(),
            "int_parser".to_string(),
            "b_parser".to_string(),
            "key_parser".to_string(),
            "record_parser".to_string(),
        ]
    );
    assert!(!names.contains(&"array_parser".to_string()));
}

#[test]
fn scenario_shared_scalar_type() {
    // {"temperature":1,"other":2}: one deduplicated integer stream type,
    // two distinct instance names.
    let doc = obj(vec![("temperature", JsonVal::Number), ("other", JsonVal::Number)]);
    let mut analyzer = Analyzer::new();
    analyzer.analyze(&doc, params());
    let (types, ents) = analyzer.get_definitions();
    let int_count = types.iter().filter(|t| **t == StreamType::Int).count();
    assert_eq!(int_count, 1);
    let ints: Vec<&TilStreamlet> =
        ents.iter().filter(|e| e.name.base == "int_parser").collect();
    assert_eq!(ints.len(), 2);
    assert_ne!(triple(&ints[0].name), triple(&ints[1].name));
}

#[test]
fn array_sampling_single_child() {
    // [1128,1213,1850,429]: exactly one integer child schema, not four.
    let doc = JsonVal::Array(vec![
        JsonVal::Number,
        JsonVal::Number,
        JsonVal::Number,
        JsonVal::Number,
    ]);
    let mut analyzer = Analyzer::new();
    analyzer.analyze(&doc, params());
    let (_types, ents) = analyzer.get_definitions();
    assert_eq!(
        base_names(ents),
        vec!["int_parser".to_string(), "array_parser".to_string()]
    );
}

#[test]
fn record_completeness_null_value() {
    // A record whose value is null still yields matcher, key and record.
    let doc = obj(vec![("k", JsonVal::Null)]);
    let mut analyzer = Analyzer::new();
    analyzer.analyze(&doc, params());
    let (_types, ents) = analyzer.get_definitions();
    assert_eq!(
        base_names(ents),
        vec![
            "k_parser".to_string(),
            "key_parser".to_string(),
            "record_parser".to_string(),
        ]
    );
}

#[test]
fn name_uniqueness_nested_document() {
    // All instance names of a nested multi-key run are pairwise distinct.
    let inner = || {
        JsonVal::Array(vec![
            obj(vec![("voltage", JsonVal::Number)]),
            obj(vec![("voltage", JsonVal::Number)]),
        ])
    };
    let doc = obj(vec![
        ("temperature", inner()),
        ("valid", JsonVal::Boolean),
        ("humidity", inner()),
    ]);
    let mut analyzer = Analyzer::new();
    analyzer.analyze(&doc, params());
    let (_types, ents) = analyzer.get_definitions();
    let names: Vec<(String, usize, usize)> = ents.iter().map(|e| triple(&e.name)).collect();
    for i in 0..names.len() {
        for j in (i + 1)..names.len() {
            assert_ne!(names[i], names[j], "duplicate entity name");
        }
    }
}

#[test]
fn type_list_dedup_and_coverage() {
    let doc = obj(vec![
        ("a", JsonVal::Number),
        ("b", JsonVal::Boolean),
        ("c", JsonVal::Text),
        ("d", JsonVal::Array(vec![JsonVal::Number])),
    ]);
    let mut analyzer = Analyzer::new();
    analyzer.analyze(&doc, params());
    let (types, ents) = analyzer.get_definitions();
    for i in 0..types.len() {
        for j in (i + 1)..types.len() {
            assert_ne!(types[i], types[j], "duplicate stream type declaration");
        }
    }
    for e in ents.iter() {
        for s in e.interface.streams.iter() {
            assert!(types.contains(&s.stream_type), "referenced type missing");
        }
    }
}

#[test]
fn determinism_two_runs() {
    let doc = obj(vec![
        ("temperature", JsonVal::Number),
        ("tags", JsonVal::Array(vec![JsonVal::Text])),
    ]);
    let mut a1 = Analyzer::new();
    let mut a2 = Analyzer::new();
    a1.analyze(&doc, params());
    a2.analyze(&doc, params());
    let (t1, e1) = a1.get_definitions();
    let (t2, e2) = a2.get_definitions();
    assert_eq!(t1, t2);
    assert_eq!(e1.len(), e2.len());
    for (x, y) in e1.iter().zip(e2.iter()) {
        assert_eq!(triple(&x.name), triple(&y.name));
        assert_eq!(x.interface.generics, y.interface.generics);
        assert_eq!(x.interface.streams, y.interface.streams);
    }
    let s1 = a1.get_signals();
    let s2 = a2.get_signals();
    assert_eq!(s1.len(), s2.len());
    for (x, y) in s1.iter().zip(s2.iter()) {
        assert_eq!(triple(&x.source), triple(&y.source));
        assert_eq!(triple(&x.dest), triple(&y.dest));
        assert_eq!(x.source_port, y.source_port);
        assert_eq!(x.dest_port, y.dest_port);
    }
}

#[test]
fn post_order_child_before_parent() {
    // The matcher precedes its key, the key its record, and a value
    // entity precedes the key holding it.
    let doc = obj(vec![("voltage", JsonVal::Number)]);
    let mut analyzer = Analyzer::new();
    analyzer.analyze(&doc, params());
    let (_types, ents) = analyzer.get_definitions();
    let pos = |base: &str| {
        ents.iter()
            .position(|e| e.name.base == base)
            .expect("entity missing")
    };
    assert!(pos("int_parser") < pos("key_parser"));
    assert!(pos("voltage_parser") < pos("key_parser"));
    assert!(pos("key_parser") < pos("record_parser"));
}

#[test]
fn name_registry_disambiguates() {
    let mut reg = NameReg::new();
    let a = reg.register("record_parser".to_string(), 1);
    let b = reg.register("record_parser".to_string(), 1);
    let c = reg.register("record_parser".to_string(), 2);
    assert_eq!(triple(&a), ("record_parser".to_string(), 1, 0));
    assert_eq!(triple(&b), ("record_parser".to_string(), 1, 1));
    assert_eq!(triple(&c), ("record_parser".to_string(), 2, 0));
}

#[test]
fn type_registry_first_registration_only() {
    let mut types = TypeManager::new();
    assert!(types.register(StreamType::Json));
    assert!(!types.register(StreamType::Json));
    assert!(types.register(StreamType::Int));
    assert_eq!(
        types.get_stream_types(),
        vec![StreamType::Json, StreamType::Int]
    );
}

#[test]
fn template_catalog() {
    assert_eq!(
        TemplateType::Array.get_template(),
        Some("array_parser.vhd".to_string())
    );
    assert_eq!(
        TemplateType::Text.get_template(),
        Some("string_parser.vhd".to_string())
    );
    assert_eq!(TemplateType::Matcher("x".to_string()).get_template(), None);
}

#[test]
fn matcher_graph_node_label() {
    let mut reg = NameReg::new();
    let name = reg.register("voltage_parser".to_string(), 2);
    let holder = reg.register("key_parser".to_string(), 2);
    let m = tilgen::components::Matcher::new(name, holder, "voltage".to_string(), 2);
    assert_eq!(m.to_graph_node(), "Regex matcher\n\"voltage\"");
    assert_eq!(m.get_matcher(), "voltage");
    assert_eq!(m.num_children(), 0);
    assert_eq!(m.num_outgoing_signals(), 1);
}

#[test]
fn generator_parses_and_analyzes() {
    // Through the real outside parser: structure, key order and scalar
    // kinds must all arrive in the analysis.
    let mut g = Generator::new("schema_parser", 4, 64, 64);
    g.analyze("{\"voltage\":[1128,1213,1850,429],\"valid\":true}")
        .expect("analysis failed");
    let (_types, ents) = g.get_analyzer().get_definitions();
    assert_eq!(
        base_names(ents),
        vec![
            "int_parser".to_string(),
            "array_parser".to_string(),
            "voltage_parser".to_string(),
            "key_parser".to_string(),
            "record_parser".to_string(),
            "bool_parser".to_string(),
            "valid_parser".to_string(),
            "key_parser".to_string(),
            "record_parser".to_string(),
        ]
    );
}

#[test]
fn generator_rejects_bad_json() {
    let mut g = Generator::new("schema_parser", 4, 64, 64);
    match g.analyze("{\"voltage\": nonsense}") {
        Err(GeneratorError::JsonError(_)) => {}
        other => panic!("expected a parse error, got ok={:?}", other.is_ok()),
    }
}

#[test]
fn visualize_outline() {
    let mut g = Generator::new("schema_parser", 4, 64, 64);
    match g.visualize() {
        Err(GeneratorError::NoRoot) => {}
        _ => panic!("expected the no-schema error before analysis"),
    }
    g.analyze("{\"valid\":true}").expect("analysis failed");
    let outline = g.visualize().expect("no root after analysis");
    assert_eq!(
        outline,
        "Object\nRecord parser\nKey parser\nRegex matcher \"valid\"\nBool parser\n"
    );
}

#[test]
fn signals_wire_children_to_parents() {
    let doc = obj(vec![("voltage", JsonVal::Number)]);
    let mut analyzer = Analyzer::new();
    analyzer.analyze(&doc, params());
    let sigs = analyzer.get_signals();
    // value -> key, matcher -> key, key -> record.
    assert_eq!(sigs.len(), 3);
    assert_eq!(sigs[0].source.base, "int_parser");
    assert_eq!(sigs[0].dest.base, "key_parser");
    assert_eq!(sigs[1].source.base, "voltage_parser");
    assert_eq!(sigs[1].dest.base, "key_parser");
    assert_eq!(sigs[2].source.base, "key_parser");
    assert_eq!(sigs[2].dest.base, "record_parser");
}

#[test]
fn file_schedule_matches_entities() {
    let doc = obj(vec![("valid", JsonVal::Boolean)]);
    let mut analyzer = Analyzer::new();
    analyzer.analyze(&doc, params());
    let files = analyzer.get_file_manager().entries();
    assert_eq!(files.len(), 4);
    assert!(matches!(files[0].template_type, TemplateType::Bool));
    match &files[1].template_type {
        TemplateType::Matcher(lit) => assert_eq!(lit, "valid"),
        _ => panic!("second scheduled file is not the matcher"),
    }
    assert!(matches!(files[2].template_type, TemplateType::Key));
    assert!(matches!(files[3].template_type, TemplateType::Record));
}

#[test]
fn empty_object_root() {
    // An object with no fields yields an object root with no records and
    // no entities.
    let doc = obj(vec![]);
    let mut analyzer = Analyzer::new();
    analyzer.analyze(&doc, params());
    let (types, ents) = analyzer.get_definitions();
    assert!(ents.is_empty());
    assert!(types.is_empty());
    match analyzer.get_root() {
        Ok(JsonComponent::Object(o)) => assert!(o.records.is_empty()),
        _ => panic!("no object root"),
    }
}

#[test]
fn record_graph_node_label() {
    let doc = obj(vec![("voltage", JsonVal::Number)]);
    let mut analyzer = Analyzer::new();
    analyzer.analyze(&doc, params());
    match analyzer.get_root() {
        Ok(JsonComponent::Object(o)) => {
            let rec = &o.records[0];
            assert_eq!(rec.to_graph_node(), "Record parser\nO: 1, I: 0");
            let children = rec.get_children();
            assert_eq!(children.len(), 1);
            assert!(matches!(children[0], JsonComponent::Key(_)));
        }
        _ => panic!("no object root"),
    }
}

#[test]
fn decimal_rendering() {
    assert_eq!(tilgen::text::dec_str(0), "0");
    assert_eq!(tilgen::text::dec_str(7), "7");
    assert_eq!(tilgen::text::dec_str(10), "10");
    assert_eq!(tilgen::text::dec_str(90210), "90210");
}

#[test]
fn non_object_root_reports_no_schema() {
    // A document whose root is not an object yields the no-schema error,
    // though the scalar's entity is still emitted.
    let doc = JsonVal::Number;
    let mut analyzer = Analyzer::new();
    analyzer.analyze(&doc, params());
    assert!(matches!(
        analyzer.get_root(),
        Err(tilgen::analyzer::AnalyzerError::NoTop)
    ));
    let (_types, ents) = analyzer.get_definitions();
    assert_eq!(base_names(ents), vec!["int_parser".to_string()]);
}

#[test]
fn generator_non_object_root_has_no_schema() {
    let mut g = Generator::new("schema_parser", 4, 64, 64);
    g.analyze("[1,2]").expect("analysis failed");
    assert!(matches!(g.visualize(), Err(GeneratorError::NoRoot)));
    assert!(matches!(
        g.get_analyzer().get_root(),
        Err(tilgen::analyzer::AnalyzerError::NoTop)
    ));
}

#[test]
fn dimensionality_generic_carries_inner_depth() {
    // {"voltage":[[1]]}: the inner array wraps a scalar (dimensionality
    // 0), the outer array wraps the inner (1), the record sits above
    // both (2).
    let doc = obj(vec![(
        "voltage",
        JsonVal::Array(vec![JsonVal::Array(vec![JsonVal::Number])]),
    )]);
    let mut analyzer = Analyzer::new();
    analyzer.analyze(&doc, params());
    let (_types, ents) = analyzer.get_definitions();
    let dims: Vec<usize> = ents
        .iter()
        .filter(|e| e.name.base == "array_parser" || e.name.base == "record_parser")
        .map(|e| {
            match e
                .interface
                .generics
                .iter()
                .find(|g| g.kind == GenericKind::Dimensionality)
            {
                Some(Generic { value, .. }) => *value,
                None => panic!("dimensionality generic missing"),
            }
        })
        .collect();
    assert_eq!(dims, vec![0, 1, 2]);
}
