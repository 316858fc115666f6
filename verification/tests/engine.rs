use papyrus::fragment::{Fragment, Statement};
use papyrus::linking::LinkingConfiguration;
use papyrus::construct::DataHandling;
use papyrus::session::{EvaluationResult, RoundOutcome, Session};

fn expr_fragment(expr: &str) -> Fragment {
    Fragment {
        items: vec![],
        stmts: vec![Statement { expr: expr.to_string(), semi: false }],
        crates: vec![],
    }
}

fn stmt_fragment(expr: &str) -> Fragment {
    Fragment {
        items: vec![],
        stmts: vec![Statement { expr: expr.to_string(), semi: true }],
        crates: vec![],
    }
}

#[test]
fn expression_round_commits_with_value() {
    let mut session = Session::new();
    let frag = expr_fragment("2+2");
    let plan = session.begin_round(&frag);
    assert!(plan.source.contains("\nlet out0 = 2+2;"));
    assert_eq!(
        plan.source,
        "#[no_mangle]\npub fn __intern_eval(app_data: ()) -> String {\nlet out0 = 2+2;\nformat!(\"{:?}\", out0)\n}\n"
    );
    let r = session.resolve_round(frag, RoundOutcome::Evaluated("4".to_string()));
    assert!(matches!(r, EvaluationResult::Success(v) if v == "4"));
    assert_eq!(session.history().len(), 1);
}

#[test]
fn failed_compile_leaves_history_empty() {
    let mut session = Session::new();
    let frag = expr_fragment("2+");
    let plan = session.begin_round(&frag);
    assert!(plan.source.contains("\nlet out0 = 2+;"));
    let r = session.resolve_round(
        frag,
        RoundOutcome::BuildFailed("expected expression".to_string()),
    );
    assert!(matches!(r, EvaluationResult::CompileError(_)));
    assert_eq!(session.history().len(), 0);
}

#[test]
fn panicked_round_is_survivable() {
    let mut session = Session::new();
    let frag = expr_fragment("panic!(\"eval panic\")");
    let _plan = session.begin_round(&frag);
    let r = session.resolve_round(frag, RoundOutcome::Panicked);
    assert!(matches!(r, EvaluationResult::ExecutionFailure));
    assert_eq!(session.history().len(), 0);

    // The engine accepts the next submission as if nothing had happened.
    let frag = expr_fragment("2+2");
    let plan = session.begin_round(&frag);
    assert!(plan.source.contains("\nlet out0 = 2+2;"));
    let r = session.resolve_round(frag, RoundOutcome::Evaluated("4".to_string()));
    assert!(matches!(r, EvaluationResult::Success(v) if v == "4"));
    assert_eq!(session.history().len(), 1);
}

#[test]
fn statements_persist_across_rounds() {
    let mut session = Session::new();
    let first = stmt_fragment("let x = 5");
    let plan = session.begin_round(&first);
    // No value-producing statement: the entry point returns the empty
    // representation.
    assert!(plan.source.contains("\nlet x = 5;"));
    assert!(plan.source.contains("String::new()"));
    let r = session.resolve_round(first, RoundOutcome::Evaluated(String::new()));
    assert!(matches!(r, EvaluationResult::Success(v) if v.is_empty()));

    let second = expr_fragment("x+1");
    let plan = session.begin_round(&second);
    assert!(plan.source.contains("\nlet x = 5;\nlet out1 = x+1;"));
    assert!(plan.source.contains("format!(\"{:?}\", out1)"));
    let r = session.resolve_round(second, RoundOutcome::Evaluated("6".to_string()));
    assert!(matches!(r, EvaluationResult::Success(v) if v == "6"));
    assert_eq!(session.history().len(), 2);
}

#[test]
fn items_precede_the_evaluation_function() {
    let mut session = Session::new();
    let frag = Fragment {
        items: vec!["fn double(n: i32) -> i32 { n * 2 }".to_string()],
        stmts: vec![Statement { expr: "double(21)".to_string(), semi: false }],
        crates: vec![],
    };
    let plan = session.begin_round(&frag);
    assert_eq!(
        plan.source,
        "fn double(n: i32) -> i32 { n * 2 }\n#[no_mangle]\npub fn __intern_eval(app_data: ()) -> String {\nlet out0 = double(21);\nformat!(\"{:?}\", out0)\n}\n"
    );
    let r = session.resolve_round(frag, RoundOutcome::Evaluated("42".to_string()));
    assert!(matches!(r, EvaluationResult::Success(v) if v == "42"));
}

#[test]
fn replay_is_deterministic() {
    let build = || {
        let mut session = Session::new();
        let first = stmt_fragment("let x = 5");
        let _ = session.resolve_round(first, RoundOutcome::Evaluated(String::new()));
        let second = expr_fragment("x+1");
        session.begin_round(&second)
    };
    let a = build();
    let b = build();
    assert_eq!(a.source, b.source);
    assert_eq!(a.manifest, b.manifest);
}

#[test]
fn fragment_crates_enter_the_manifest() {
    let mut session = Session::new();
    let frag = Fragment {
        items: vec![],
        stmts: vec![Statement { expr: "rand::random::<u8>()".to_string(), semi: false }],
        crates: vec!["rand".to_string()],
    };
    let plan = session.begin_round(&frag);
    assert!(plan.manifest.starts_with("[package]\nname = \"papyrus-eval\""));
    assert!(plan.manifest.ends_with("[dependencies]\nrand = \"*\"\n"));
    let r = session.resolve_round(frag, RoundOutcome::Evaluated("7".to_string()));
    assert!(matches!(r, EvaluationResult::Success(_)));
    assert_eq!(session.dependencies().len(), 1);
    assert_eq!(session.dependencies()[0].name, "rand");
    assert_eq!(session.dependencies()[0].path, None);
}

#[test]
fn construction_and_link_failures_abort_the_round() {
    let mut session = Session::new();
    let frag = expr_fragment("2+2");
    let r = session.resolve_round(frag, RoundOutcome::WriteFailed("disk full".to_string()));
    assert!(matches!(r, EvaluationResult::ConstructionError(e) if e == "disk full"));
    assert_eq!(session.history().len(), 0);

    let frag = expr_fragment("2+2");
    let r = session.resolve_round(frag, RoundOutcome::LinkFailed("missing rlib".to_string()));
    assert!(matches!(r, EvaluationResult::LinkError(e) if e == "missing rlib"));
    assert_eq!(session.history().len(), 0);
    assert_eq!(session.dependencies().len(), 0);
}

#[test]
fn redeclaring_same_path_is_idempotent() {
    let mut config = LinkingConfiguration::new();
    let path = "test-resources/external_crate/target/debug/libexternal_crate.rlib";
    let r = config.declare("papyrus_extern_test".to_string(), Some(path.to_string()));
    assert!(r.is_ok());
    let r = config.declare("papyrus_extern_test".to_string(), Some(path.to_string()));
    assert!(r.is_ok());
    assert_eq!(config.dependencies().len(), 1);
    assert_eq!(config.dependencies()[0].name, "papyrus_extern_test");
    assert_eq!(config.dependencies()[0].path.as_deref(), Some(path));
}

#[test]
fn conflicting_paths_are_a_configuration_error() {
    let mut config = LinkingConfiguration::new();
    let r = config.declare("ext".to_string(), Some("first.rlib".to_string()));
    assert!(r.is_ok());
    let r = config.declare("ext".to_string(), Some("second.rlib".to_string()));
    let e = r.err().expect("conflicting path must be refused");
    assert_eq!(e.dependency, "ext");
    assert_eq!(config.dependencies().len(), 1);
    assert_eq!(config.dependencies()[0].path.as_deref(), Some("first.rlib"));
}

#[test]
fn declaring_without_path_is_a_no_op_on_known_names() {
    let mut config = LinkingConfiguration::new();
    assert!(config.declare("ext".to_string(), Some("first.rlib".to_string())).is_ok());
    assert!(config.declare("ext".to_string(), None).is_ok());
    assert_eq!(config.dependencies().len(), 1);
    assert_eq!(config.dependencies()[0].path.as_deref(), Some("first.rlib"));
}

#[test]
fn explicit_path_dependencies_stay_out_of_the_manifest() {
    let mut session = Session::new();
    let r = session.declare_dependency(
        "papyrus_extern_test".to_string(),
        Some("test-resources/external_crate/target/debug/libexternal_crate.rlib".to_string()),
    );
    assert!(r.is_ok());
    let frag = expr_fragment("2+2");
    let plan = session.begin_round(&frag);
    assert!(!plan.manifest.contains("papyrus_extern_test"));
    assert!(plan.manifest.ends_with("[dependencies]\n"));
}

#[test]
fn data_handle_shapes_the_entry_point() {
    let session = Session::with_data("String".to_string(), DataHandling::BorrowMut);
    let plan = session.begin_round(&expr_fragment("app_data.len()"));
    assert!(plan.source.contains("\n#[no_mangle]\npub fn __intern_eval(app_data: &mut String) -> String {\n")
        || plan.source.starts_with("#[no_mangle]\npub fn __intern_eval(app_data: &mut String) -> String {\n"));

    let session = Session::with_data("u32".to_string(), DataHandling::Borrow);
    let plan = session.begin_round(&expr_fragment("*app_data"));
    assert!(plan.source.contains("(app_data: &u32) -> String {"));

    let session = Session::with_data("MyData".to_string(), DataHandling::Value);
    let plan = session.begin_round(&expr_fragment("1"));
    assert!(plan.source.contains("(app_data: MyData) -> String {"));
}

#[test]
fn decimal_rendering_is_exact() {
    assert_eq!(papyrus::construct::usize_dec(0), "0");
    assert_eq!(papyrus::construct::usize_dec(7), "7");
    assert_eq!(papyrus::construct::usize_dec(10), "10");
    assert_eq!(papyrus::construct::usize_dec(90210), "90210");
}

#[test]
fn late_rounds_number_their_bindings_by_fragment() {
    let mut session = Session::new();
    for _ in 0..10 {
        let frag = stmt_fragment("let _ = 0");
        let r = session.resolve_round(frag, RoundOutcome::Evaluated(String::new()));
        assert!(matches!(r, EvaluationResult::Success(_)));
    }
    let frag = expr_fragment("1+1");
    let plan = session.begin_round(&frag);
    assert!(plan.source.contains("\nlet out10 = 1+1;"));
    assert!(plan.source.contains("format!(\"{:?}\", out10)"));
}

#[test]
fn valueless_round_displays_no_stale_value() {
    let mut session = Session::new();
    let frag = expr_fragment("2+2");
    let r = session.resolve_round(frag, RoundOutcome::Evaluated("4".to_string()));
    assert!(matches!(r, EvaluationResult::Success(v) if v == "4"));

    // The next round discards its value: the entry point must return the
    // empty representation, not the previous round's "4" again.
    let frag = stmt_fragment("let y = 10");
    let plan = session.begin_round(&frag);
    assert!(plan.source.contains("\nlet y = 10;"));
    assert!(plan.source.ends_with("String::new()\n}\n"));
    assert!(!plan.source.contains("format!"));
    let r = session.resolve_round(frag, RoundOutcome::Evaluated(String::new()));
    assert!(matches!(r, EvaluationResult::Success(v) if v.is_empty()));
}
