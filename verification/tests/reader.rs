use orb::error::{ErrorKind, FlowError};
use orb::model::{Decision, DecisionKind, DecisionRef, Payload, Rule, SourceFile};
use orb::reader::{
    make_expression_unit, make_function_unit, make_table_unit, maybe_opt, parse_kind, read_flow,
    resolve, rule_file, rule_files, slurp_function,
};
use orb::rules::RulesError;

fn names(list: &[&str]) -> Vec<String> {
    list.iter().map(|name| name.to_string()).collect()
}

fn unit_ref(id: &str, kind: &str, rules: &str, inputs: Option<&[&str]>) -> DecisionRef {
    DecisionRef {
        id: id.to_string(),
        kind: kind.to_string(),
        rules: rules.to_string(),
        inputs: inputs.map(names),
        outputs: None,
        sources: Vec::new(),
        targets: Vec::new(),
    }
}

fn source_file(path: &str, text: &str) -> SourceFile {
    SourceFile { path: path.to_string(), text: text.to_string() }
}

fn rule(cells: &[(&str, &str)]) -> Rule {
    let mut rule = Rule::new();
    for (field, value) in cells {
        rule.insert(field.to_string(), value.to_string());
    }
    rule
}

#[test]
fn parse_kind_knows_the_three_kinds() {
    assert_eq!(parse_kind("table"), Some(DecisionKind::Table));
    assert_eq!(parse_kind("expression"), Some(DecisionKind::Expression));
    assert_eq!(parse_kind("function"), Some(DecisionKind::Function));
}

#[test]
fn parse_kind_refuses_anything_else() {
    assert_eq!(parse_kind("Table"), None);
    assert_eq!(parse_kind("tables"), None);
    assert_eq!(parse_kind(" function"), None);
    assert_eq!(parse_kind(""), None);
}

#[test]
fn maybe_opt_keeps_a_given_list() {
    assert_eq!(maybe_opt(Some(names(&["a", "b"]))), names(&["a", "b"]));
    assert_eq!(maybe_opt(Some(Vec::new())), Vec::<String>::new());
}

#[test]
fn maybe_opt_of_none_is_empty() {
    assert_eq!(maybe_opt(None), Vec::<String>::new());
}

#[test]
fn expression_is_keyed_on_first_input() {
    let unit = resolve(unit_ref("e", "expression", "x > 5", Some(&["x"])), &Vec::new()).unwrap();
    assert_eq!(
        unit.payload,
        Payload::Expression { key: "x".to_string(), text: "x > 5".to_string() }
    );
    assert_eq!(unit.id, "e");
    assert_eq!(unit.inputs, names(&["x"]));
    assert_eq!(unit.kind(), DecisionKind::Expression);
}

#[test]
fn expression_with_several_inputs_takes_the_first() {
    let unit = make_expression_unit(unit_ref("e", "expression", "a + b", Some(&["a", "b"]))).unwrap();
    assert_eq!(
        unit.payload,
        Payload::Expression { key: "a".to_string(), text: "a + b".to_string() }
    );
    assert_eq!(unit.inputs, names(&["a", "b"]));
}

#[test]
fn expression_with_empty_inputs_fails() {
    let outcome = resolve(unit_ref("e", "expression", "x > 5", Some(&[])), &Vec::new());
    assert_eq!(outcome, Err(FlowError::MissingInput { unit: "e".to_string() }));
}

#[test]
fn expression_without_inputs_fails() {
    let outcome = resolve(unit_ref("e", "expression", "x > 5", None), &Vec::new());
    assert_eq!(outcome, Err(FlowError::MissingInput { unit: "e".to_string() }));
}

#[test]
fn expression_reads_no_file() {
    let files = vec![source_file("x.json", "not json")];
    let unit = resolve(unit_ref("e", "expression", "x.json", Some(&["x"])), &files).unwrap();
    assert_eq!(
        unit.payload,
        Payload::Expression { key: "x".to_string(), text: "x.json".to_string() }
    );
    assert_eq!(rule_file(&unit_ref("e", "expression", "x.json", Some(&["x"]))), None);
}

#[test]
fn table_from_csv_file() {
    let files = vec![source_file("t.csv", "a,b\n1,2\n")];
    let unit = resolve(unit_ref("t", "table", "t.csv", Some(&["a"])), &files).unwrap();
    assert_eq!(unit.payload, Payload::Table { rows: vec![rule(&[("a", "1"), ("b", "2")])] });
    assert_eq!(unit.kind(), DecisionKind::Table);
}

#[test]
fn table_from_json_file() {
    let files = vec![source_file("t.json", r#"[{"a": "1", "b": "2"}]"#)];
    let unit = resolve(unit_ref("t", "table", "t.json", None), &files).unwrap();
    assert_eq!(unit.payload, Payload::Table { rows: vec![rule(&[("a", "1"), ("b", "2")])] });
}

#[test]
fn table_with_txt_extension_has_no_rows() {
    let unit = resolve(unit_ref("t", "table", "t.txt", None), &Vec::new()).unwrap();
    assert_eq!(unit.payload, Payload::Table { rows: Vec::new() });
}

#[test]
fn table_defaults_missing_lists_to_empty() {
    let unit = resolve(unit_ref("t", "table", "t.txt", None), &Vec::new()).unwrap();
    assert_eq!(unit.inputs, Vec::<String>::new());
    assert_eq!(unit.outputs, Vec::<String>::new());
}

#[test]
fn table_keeps_declared_lists() {
    let declared = DecisionRef {
        id: "t".to_string(),
        kind: "table".to_string(),
        rules: "t.txt".to_string(),
        inputs: Some(names(&["in1", "in2"])),
        outputs: Some(names(&["out"])),
        sources: names(&["request"]),
        targets: names(&["response", "other"]),
    };
    let unit = resolve(declared, &Vec::new()).unwrap();
    assert_eq!(
        unit,
        Decision {
            id: "t".to_string(),
            payload: Payload::Table { rows: Vec::new() },
            inputs: names(&["in1", "in2"]),
            outputs: names(&["out"]),
            sources: names(&["request"]),
            targets: names(&["response", "other"]),
        }
    );
}

#[test]
fn table_with_missing_file_fails() {
    let outcome = resolve(unit_ref("t", "table", "t.csv", None), &Vec::new());
    assert_eq!(
        outcome,
        Err(FlowError::RuleFileUnreadable { unit: "t".to_string(), path: "t.csv".to_string() })
    );
}

#[test]
fn table_with_malformed_file_fails() {
    let files = vec![source_file("t.csv", "a,b\n1\n")];
    let outcome = resolve(unit_ref("t", "table", "t.csv", None), &files);
    assert_eq!(
        outcome,
        Err(FlowError::MalformedRules { unit: "t".to_string(), path: "t.csv".to_string() })
    );
}

#[test]
fn make_table_unit_maps_each_outcome() {
    let declared = unit_ref("t", "table", "t.csv", None);
    assert_eq!(
        make_table_unit(declared.clone(), Ok(vec![rule(&[("a", "1")])])).unwrap().payload,
        Payload::Table { rows: vec![rule(&[("a", "1")])] }
    );
    assert_eq!(
        make_table_unit(declared.clone(), Err(RulesError::Unreadable)),
        Err(FlowError::RuleFileUnreadable { unit: "t".to_string(), path: "t.csv".to_string() })
    );
    assert_eq!(
        make_table_unit(declared, Err(RulesError::Malformed)),
        Err(FlowError::MalformedRules { unit: "t".to_string(), path: "t.csv".to_string() })
    );
}

#[test]
fn function_source_is_taken_verbatim() {
    let source = "export default (input) => {\n  return { ok: true };\n};\n";
    let files = vec![source_file("f.js", source)];
    let unit = resolve(unit_ref("f", "function", "f.js", None), &files).unwrap();
    assert_eq!(unit.payload, Payload::Function { source: source.to_string() });
    assert_eq!(unit.kind(), DecisionKind::Function);
}

#[test]
fn function_file_is_not_parsed_as_rules() {
    let files = vec![source_file("f.json", "not json at all")];
    let unit = resolve(unit_ref("f", "function", "f.json", None), &files).unwrap();
    assert_eq!(unit.payload, Payload::Function { source: "not json at all".to_string() });
}

#[test]
fn function_with_missing_file_fails() {
    let outcome = resolve(unit_ref("f", "function", "f.js", None), &Vec::new());
    assert_eq!(
        outcome,
        Err(FlowError::RuleFileUnreadable { unit: "f".to_string(), path: "f.js".to_string() })
    );
    assert_eq!(
        make_function_unit(unit_ref("f", "function", "f.js", None), None),
        Err(FlowError::RuleFileUnreadable { unit: "f".to_string(), path: "f.js".to_string() })
    );
}

#[test]
fn slurp_function_gives_the_file_text() {
    let files = vec![source_file("f.js", "a\n"), source_file("g.js", "")];
    assert_eq!(slurp_function("f.js", &files), Some("a\n".to_string()));
    assert_eq!(slurp_function("g.js", &files), Some(String::new()));
    assert_eq!(slurp_function("h.js", &files), None);
}

#[test]
fn unknown_kind_fails() {
    let outcome = resolve(unit_ref("u", "lookup", "u.csv", Some(&["x"])), &Vec::new());
    assert_eq!(
        outcome,
        Err(FlowError::UnknownKind { unit: "u".to_string(), kind: "lookup".to_string() })
    );
    assert_eq!(outcome.unwrap_err().kind(), ErrorKind::LoadError);
}

#[test]
fn rule_file_of_each_kind() {
    assert_eq!(rule_file(&unit_ref("t", "table", "t.csv", None)), Some("t.csv".to_string()));
    assert_eq!(rule_file(&unit_ref("t", "table", "t.json", None)), Some("t.json".to_string()));
    assert_eq!(rule_file(&unit_ref("t", "table", "t.txt", None)), None);
    assert_eq!(rule_file(&unit_ref("f", "function", "f.js", None)), Some("f.js".to_string()));
    assert_eq!(rule_file(&unit_ref("e", "expression", "e.csv", None)), None);
    assert_eq!(rule_file(&unit_ref("u", "unknown", "u.csv", None)), None);
}

#[test]
fn rule_files_lists_in_unit_order() {
    let refs = vec![
        unit_ref("t1", "table", "t1.csv", None),
        unit_ref("e", "expression", "x > 1", Some(&["x"])),
        unit_ref("t2", "table", "t2.txt", None),
        unit_ref("f", "function", "f.js", None),
        unit_ref("t3", "table", "t1.csv", None),
    ];
    assert_eq!(rule_files(&refs), names(&["t1.csv", "f.js", "t1.csv"]));
    assert_eq!(rule_files(&Vec::new()), Vec::<String>::new());
}

#[test]
fn read_flow_resolves_units_in_order() {
    let refs = vec![
        unit_ref("t", "table", "t.csv", None),
        unit_ref("e", "expression", "x > 1", Some(&["x"])),
        unit_ref("f", "function", "f.js", None),
    ];
    let files = vec![source_file("f.js", "code"), source_file("t.csv", "a\n1\n")];
    let flow = read_flow(refs, &files).unwrap();
    assert_eq!(flow.len(), 3);
    assert_eq!(flow[0].id, "t");
    assert_eq!(flow[0].payload, Payload::Table { rows: vec![rule(&[("a", "1")])] });
    assert_eq!(flow[1].id, "e");
    assert_eq!(
        flow[1].payload,
        Payload::Expression { key: "x".to_string(), text: "x > 1".to_string() }
    );
    assert_eq!(flow[2].id, "f");
    assert_eq!(flow[2].payload, Payload::Function { source: "code".to_string() });
}

#[test]
fn read_flow_of_no_units_is_empty() {
    assert_eq!(read_flow(Vec::new(), &Vec::new()), Ok(Vec::new()));
}

#[test]
fn read_flow_stops_at_first_error() {
    let refs = vec![
        unit_ref("e", "expression", "x > 1", Some(&["x"])),
        unit_ref("t", "table", "t.csv", None),
        unit_ref("u", "nonsense", "", None),
        unit_ref("f", "function", "missing.js", None),
    ];
    let files = vec![source_file("t.csv", "a,b\n1\n")];
    assert_eq!(
        read_flow(refs, &files),
        Err(FlowError::MalformedRules { unit: "t".to_string(), path: "t.csv".to_string() })
    );
}

#[test]
fn read_flow_reports_unknown_kind_where_it_stands() {
    let refs = vec![
        unit_ref("u", "nonsense", "", None),
        unit_ref("f", "function", "missing.js", None),
    ];
    assert_eq!(
        read_flow(refs, &Vec::new()),
        Err(FlowError::UnknownKind { unit: "u".to_string(), kind: "nonsense".to_string() })
    );
}

#[test]
fn read_flow_needs_only_the_rule_files() {
    let refs = vec![
        unit_ref("t", "table", "t.json", None),
        unit_ref("f", "function", "f.js", None),
    ];
    let needed = vec![source_file("t.json", "[]"), source_file("f.js", "code")];
    let mut more = vec![source_file("unrelated.csv", "a\n")];
    more.extend(needed.clone());
    assert_eq!(rule_files(&refs), names(&["t.json", "f.js"]));
    assert_eq!(read_flow(refs.clone(), &needed), read_flow(refs, &more));
}
