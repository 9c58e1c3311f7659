use metrics_tree::analysis::analyze;
use metrics_tree::error::AnalysisError;
use metrics_tree::lang::{language_from_extension, resolve_language, supported_languages, Language};
use metrics_tree::metrics::{
    aggregate_metrics, convert_cyclomatic, CodeMetrics, CognitiveMetrics, CyclomaticMetrics,
    HalsteadMetrics, LocMetrics, MaintainabilityIndex, AbcMetrics, NomMetrics, NargsMetrics,
    NexitsMetrics, WmcMetrics, NpmMetrics, NpaMetrics,
};
use metrics_tree::space::{build_space_tree, RawSpace, SpaceKind, SpaceNode};

fn group_bits(node: &SpaceNode) -> Vec<u64> {
    let m = &node.metrics;
    vec![
        m.cyclomatic.sum,
        m.cyclomatic.average,
        m.cyclomatic.min,
        m.cyclomatic.max,
        m.cognitive.sum,
        m.cognitive.average,
        m.cognitive.min,
        m.cognitive.max,
        m.halstead.n1,
        m.halstead.big_n1,
        m.halstead.n2,
        m.halstead.big_n2,
        m.halstead.length,
        m.halstead.estimated_program_length,
        m.halstead.purity_ratio,
        m.halstead.vocabulary,
        m.halstead.volume,
        m.halstead.difficulty,
        m.halstead.level,
        m.halstead.effort,
        m.halstead.time,
        m.halstead.bugs,
        m.loc.sloc,
        m.loc.ploc,
        m.loc.lloc,
        m.loc.cloc,
        m.loc.blank,
        m.loc.sloc_average,
        m.loc.ploc_average,
        m.loc.lloc_average,
        m.loc.cloc_average,
        m.loc.blank_average,
        m.loc.sloc_min,
        m.loc.sloc_max,
        m.loc.ploc_min,
        m.loc.ploc_max,
        m.loc.lloc_min,
        m.loc.lloc_max,
        m.loc.cloc_min,
        m.loc.cloc_max,
        m.loc.blank_min,
        m.loc.blank_max,
        m.mi.mi_original,
        m.mi.mi_sei,
        m.mi.mi_visual_studio,
        m.abc.assignments,
        m.abc.branches,
        m.abc.conditions,
        m.abc.magnitude,
        m.abc.assignments_average,
        m.abc.branches_average,
        m.abc.conditions_average,
        m.abc.assignments_min,
        m.abc.assignments_max,
        m.abc.branches_min,
        m.abc.branches_max,
        m.abc.conditions_min,
        m.abc.conditions_max,
        m.nom.functions,
        m.nom.closures,
        m.nom.total,
        m.nom.functions_average,
        m.nom.closures_average,
        m.nom.average,
        m.nom.functions_min,
        m.nom.functions_max,
        m.nom.closures_min,
        m.nom.closures_max,
        m.nargs.total_functions,
        m.nargs.total_closures,
        m.nargs.average_functions,
        m.nargs.average_closures,
        m.nargs.total,
        m.nargs.average,
        m.nargs.functions_min,
        m.nargs.functions_max,
        m.nargs.closures_min,
        m.nargs.closures_max,
        m.nexits.sum,
        m.nexits.average,
        m.nexits.min,
        m.nexits.max,
        m.wmc.classes,
        m.wmc.interfaces,
        m.wmc.total,
        m.npm.classes,
        m.npm.interfaces,
        m.npm.total,
        m.npa.classes,
        m.npa.interfaces,
        m.npa.total,
    ]
}

fn node_count(node: &SpaceNode) -> usize {
    let mut n = 1;
    for c in &node.spaces {
        n += node_count(c);
    }
    n
}

fn sample_metrics(bits: u64) -> CodeMetrics {
    CodeMetrics {
        cyclomatic: CyclomaticMetrics { sum: bits, average: bits, min: bits, max: bits },
        cognitive: CognitiveMetrics { sum: bits, average: bits, min: bits, max: bits },
        halstead: HalsteadMetrics {
            n1: bits,
            big_n1: bits,
            n2: bits,
            big_n2: bits,
            length: bits,
            estimated_program_length: bits,
            purity_ratio: bits,
            vocabulary: bits,
            volume: bits,
            difficulty: bits,
            level: bits,
            effort: bits,
            time: bits,
            bugs: bits,
        },
        loc: LocMetrics {
            sloc: bits,
            ploc: bits,
            lloc: bits,
            cloc: bits,
            blank: bits,
            sloc_average: bits,
            ploc_average: bits,
            lloc_average: bits,
            cloc_average: bits,
            blank_average: bits,
            sloc_min: bits,
            sloc_max: bits,
            ploc_min: bits,
            ploc_max: bits,
            lloc_min: bits,
            lloc_max: bits,
            cloc_min: bits,
            cloc_max: bits,
            blank_min: bits,
            blank_max: bits,
        },
        mi: MaintainabilityIndex { mi_original: bits, mi_sei: bits, mi_visual_studio: bits },
        abc: AbcMetrics {
            assignments: bits,
            branches: bits,
            conditions: bits,
            magnitude: bits,
            assignments_average: bits,
            branches_average: bits,
            conditions_average: bits,
            assignments_min: bits,
            assignments_max: bits,
            branches_min: bits,
            branches_max: bits,
            conditions_min: bits,
            conditions_max: bits,
        },
        nom: NomMetrics {
            functions: bits,
            closures: bits,
            total: bits,
            functions_average: bits,
            closures_average: bits,
            average: bits,
            functions_min: bits,
            functions_max: bits,
            closures_min: bits,
            closures_max: bits,
        },
        nargs: NargsMetrics {
            total_functions: bits,
            total_closures: bits,
            average_functions: bits,
            average_closures: bits,
            total: bits,
            average: bits,
            functions_min: bits,
            functions_max: bits,
            closures_min: bits,
            closures_max: bits,
        },
        nexits: NexitsMetrics { sum: bits, average: bits, min: bits, max: bits },
        wmc: WmcMetrics { classes: bits, interfaces: bits, total: bits },
        npm: NpmMetrics { classes: bits, interfaces: bits, total: bits },
        npa: NpaMetrics { classes: bits, interfaces: bits, total: bits },
    }
}

#[test]
fn test_analyze_python() {
    let source = "def foo():\n    pass";
    let result = analyze(source, "test.py", None).unwrap();
    assert!(f64::from_bits(result.metrics.nom.functions) >= 1.0);
}

#[test]
fn test_analyze_rust() {
    let source = "fn main() { }";
    let result = analyze(source, "test.rs", None).unwrap();
    assert!(f64::from_bits(result.metrics.nom.functions) >= 1.0);
}

#[test]
fn test_language_detection() {
    assert_eq!(language_from_extension("py"), Some("python"));
    assert_eq!(language_from_extension("rs"), Some("rust"));
    assert_eq!(language_from_extension("unknown"), None);
}

#[test]
fn test_unknown_extension_absent() {
    assert_eq!(language_from_extension("unknown-ext"), None);
}

#[test]
fn test_extension_table_matches_engine_inference() {
    assert_eq!(language_from_extension("jsm"), Some("javascript"));
    assert_eq!(language_from_extension("jsw"), Some("typescript"));
    assert_eq!(language_from_extension("jsmw"), Some("typescript"));
    assert_eq!(language_from_extension("hh"), Some("cpp"));
    assert_eq!(language_from_extension("inc"), Some("cpp"));
    assert_eq!(language_from_extension("mm"), Some("cpp"));
    assert_eq!(language_from_extension("m"), Some("cpp"));
    assert_eq!(language_from_extension("jsx"), None);
    assert_eq!(language_from_extension("mjs"), None);
}

#[test]
fn test_absent_categories_report_zero() {
    let tree = analyze("def foo():\n    pass", "zero.py", None).unwrap();
    for node in tree.get_all_spaces() {
        assert_eq!(f64::from_bits(node.metrics.wmc.classes), 0.0);
        assert_eq!(f64::from_bits(node.metrics.wmc.interfaces), 0.0);
        assert_eq!(f64::from_bits(node.metrics.wmc.total), 0.0);
        assert_eq!(f64::from_bits(node.metrics.npm.total), 0.0);
        assert_eq!(f64::from_bits(node.metrics.npa.total), 0.0);
        assert_eq!(f64::from_bits(node.metrics.abc.magnitude), 0.0);
        assert_eq!(f64::from_bits(node.metrics.loc.sloc_average), 0.0);
        assert_eq!(f64::from_bits(node.metrics.nom.average), 0.0);
    }
}

#[test]
fn test_supported_languages_list() {
    let langs = supported_languages();
    assert_eq!(
        langs,
        vec!["python", "rust", "java", "javascript", "typescript", "tsx", "cpp", "c"]
    );
}

#[test]
fn test_resolve_language_from_path() {
    let lang = resolve_language(None, "example.py", b"def foo():\n    pass").unwrap();
    assert_eq!(lang, Language::Python);
}

#[test]
fn test_analyze_with_explicit_token() {
    let tree = analyze("def foo():\n    pass", "no_extension_here", Some("python")).unwrap();
    assert!(f64::from_bits(tree.metrics.nom.functions) >= 1.0);
}

#[test]
fn test_resolve_language_explicit_token() {
    let lang = resolve_language(Some("rust"), "whatever.txt", b"").unwrap();
    assert_eq!(lang, Language::Rust);
}

#[test]
fn test_analyze_example_py() {
    let result = analyze("def foo():\n    pass", "example.py", None).unwrap();
    assert!(f64::from_bits(result.metrics.nom.functions) >= 1.0);
}

#[test]
fn test_single_function_snippets_have_cyclomatic_and_nom() {
    let cases: Vec<(&str, &str)> = vec![
        ("def foo():\n    pass", "a.py"),
        ("fn foo() { }", "a.rs"),
        ("class A { void foo() { } }", "A.java"),
        ("function foo() { }", "a.js"),
        ("function foo(): void { }", "a.ts"),
        ("void foo() { }", "a.cpp"),
        ("void foo() { }", "a.c"),
        ("function foo(): void { }", "a.tsx"),
    ];
    for (src, path) in cases {
        let tree = analyze(src, path, None).unwrap();
        assert!(
            f64::from_bits(tree.metrics.cyclomatic.sum) >= 1.0,
            "cyclomatic sum for {}",
            path
        );
        assert!(f64::from_bits(tree.metrics.nom.functions) >= 1.0, "nom for {}", path);
    }
}

#[test]
fn test_unsupported_language_token() {
    let err = analyze("x", "a.py", Some("cobol")).unwrap_err();
    match &err {
        AnalysisError::UnsupportedLanguage { token } => assert_eq!(token, "cobol"),
        other => panic!("unexpected error: {:?}", other),
    }
    assert!(err.message().contains("cobol"));
}

#[test]
fn test_language_undetermined() {
    let err = analyze("hello there", "notes.zzz", None).unwrap_err();
    match &err {
        AnalysisError::LanguageUndetermined { path } => assert_eq!(path, "notes.zzz"),
        other => panic!("unexpected error: {:?}", other),
    }
}

#[test]
fn test_error_messages() {
    let e = AnalysisError::UnsupportedLanguage { token: String::from("cobol") };
    assert_eq!(
        e.message(),
        "Unsupported language: 'cobol'. Use supported_languages() to see available options."
    );
    let e = AnalysisError::LanguageUndetermined { path: String::from("a.zzz") };
    assert_eq!(e.message(), "Could not determine language from file extension: 'a.zzz'");
    assert_eq!(AnalysisError::ParseFailure.message(), "Failed to parse source code");
    let e = AnalysisError::IoFailure {
        path: String::from("gone.py"),
        cause: String::from("missing"),
    };
    assert_eq!(e.message(), "Failed to read file 'gone.py': missing");
}

#[test]
fn test_select_all_root_first_and_counts() {
    let source = "def foo():\n    pass\n\ndef bar():\n    if True:\n        pass\n";
    let tree = analyze(source, "two.py", None).unwrap();
    let all = tree.get_all_spaces();
    assert_eq!(all[0], &tree);
    assert_eq!(all.len(), node_count(&tree));
    assert!(all.len() >= 3);
}

#[test]
fn test_select_by_kind_is_filtered_select_all() {
    let source = "class A:\n    def m(self):\n        pass\n\ndef f():\n    pass\n";
    let tree = analyze(source, "mix.py", None).unwrap();
    let all = tree.get_all_spaces();
    let functions = tree.get_functions();
    for f in &functions {
        assert_eq!(f.kind, SpaceKind::Function);
    }
    let expected: Vec<(Option<String>, usize)> = all
        .iter()
        .filter(|n| n.kind == SpaceKind::Function)
        .map(|n| (n.name.clone(), n.start_line))
        .collect();
    let got: Vec<(Option<String>, usize)> =
        functions.iter().map(|n| (n.name.clone(), n.start_line)).collect();
    assert_eq!(got, expected);
    assert_eq!(tree.get_classes().len(), 1);
    assert_eq!(tree.get_classes()[0].kind, SpaceKind::Class);
    assert!(functions.len() >= 2);
    assert_eq!(tree.select_by_kind(SpaceKind::Trait).len(), 0);
    assert_eq!(tree.select_by_kind(SpaceKind::Interface).len(), 0);
}

#[test]
fn test_every_node_has_finite_metrics() {
    let source = "def outer():\n    def inner():\n        pass\n    return inner\n";
    let tree = analyze(source, "nested.py", None).unwrap();
    for node in tree.get_all_spaces() {
        let bits = group_bits(node);
        assert_eq!(bits.len(), 91);
        for b in bits {
            assert!(f64::from_bits(b).is_finite());
        }
    }
}

#[test]
fn test_analyze_is_deterministic() {
    let source = "def foo():\n    return 1\n\nclass C:\n    def m(self):\n        pass\n";
    let first = analyze(source, "same.py", None).unwrap();
    let second = analyze(source, "same.py", None).unwrap();
    assert_eq!(first, second);
}

#[test]
fn test_convert_normalizes_non_finite_values() {
    let raw = CyclomaticMetrics {
        sum: f64::NAN.to_bits(),
        average: f64::INFINITY.to_bits(),
        min: f64::NEG_INFINITY.to_bits(),
        max: 2.5f64.to_bits(),
    };
    let out = convert_cyclomatic(raw);
    assert_eq!(f64::from_bits(out.sum), 0.0);
    assert_eq!(f64::from_bits(out.average), 0.0);
    assert_eq!(f64::from_bits(out.min), 0.0);
    assert_eq!(f64::from_bits(out.max), 2.5);
}

#[test]
fn test_aggregate_keeps_finite_values_verbatim() {
    let raw = sample_metrics(7.25f64.to_bits());
    let out = aggregate_metrics(raw);
    assert_eq!(out, raw);
    let raw = sample_metrics(f64::NAN.to_bits());
    let out = aggregate_metrics(raw);
    assert_eq!(out, sample_metrics(0.0f64.to_bits()));
}

#[test]
fn test_build_space_tree_normalizes_and_keeps_order() {
    let child_a = RawSpace {
        name: Some(String::from("alpha")),
        start_line: 2,
        end_line: 3,
        kind: SpaceKind::Function,
        metrics: sample_metrics(f64::NAN.to_bits()),
        spaces: vec![],
    };
    let child_b = RawSpace {
        name: None,
        start_line: 4,
        end_line: 9,
        kind: SpaceKind::Class,
        metrics: sample_metrics(1.0f64.to_bits()),
        spaces: vec![],
    };
    let raw = RawSpace {
        name: Some(String::from("root")),
        start_line: 1,
        end_line: 9,
        kind: SpaceKind::Unit,
        metrics: sample_metrics(f64::INFINITY.to_bits()),
        spaces: vec![child_a, child_b],
    };
    let tree = build_space_tree(&raw);
    assert_eq!(tree.name.as_deref(), Some("root"));
    assert_eq!(tree.start_line, 1);
    assert_eq!(tree.end_line, 9);
    assert_eq!(tree.kind, SpaceKind::Unit);
    assert_eq!(tree.metrics, sample_metrics(0.0f64.to_bits()));
    assert_eq!(tree.spaces.len(), 2);
    assert_eq!(tree.spaces[0].name.as_deref(), Some("alpha"));
    assert_eq!(tree.spaces[0].metrics, sample_metrics(0.0f64.to_bits()));
    assert_eq!(tree.spaces[1].name, None);
    assert_eq!(tree.spaces[1].metrics, sample_metrics(1.0f64.to_bits()));
    let all = tree.get_all_spaces();
    assert_eq!(all.len(), 3);
    assert_eq!(all[1].start_line, 2);
    assert_eq!(all[2].start_line, 4);
    let rebuilt = build_space_tree(&raw);
    assert_eq!(tree, rebuilt);
}
