use orb::compiler::compile;
use orb::error::{ErrorKind, FlowError};
use orb::graph::{build, GraphEdge, NodeKind};
use orb::model::{DecisionRef, Rule, SourceFile};
use orb::reader::read_flow;

fn names(list: &[&str]) -> Vec<String> {
    list.iter().map(|name| name.to_string()).collect()
}

fn declared(id: &str, kind: &str, rules: &str, sources: &[&str], targets: &[&str]) -> DecisionRef {
    DecisionRef {
        id: id.to_string(),
        kind: kind.to_string(),
        rules: rules.to_string(),
        inputs: Some(names(&["amount"])),
        outputs: Some(names(&["discount"])),
        sources: names(sources),
        targets: names(targets),
    }
}

fn stored(path: &str, text: &str) -> SourceFile {
    SourceFile { path: path.to_string(), text: text.to_string() }
}

#[test]
fn compile_single_expression_flow() {
    let refs = vec![declared("e1", "expression", "amount > 100", &[], &[])];
    let graph = compile(refs, &Vec::new()).unwrap();
    let ids: Vec<&str> = graph.nodes.iter().map(|node| node.id.as_str()).collect();
    assert_eq!(ids, vec!["request", "e1", "response"]);
    assert_eq!(graph.nodes[0].kind, NodeKind::Entry);
    assert_eq!(graph.nodes[2].kind, NodeKind::Exit);
    assert!(graph.edges.is_empty());
}

#[test]
fn compile_flow_of_all_kinds() {
    let refs = vec![
        declared("tiers", "table", "tiers.csv", &["request"], &["bonus"]),
        declared("bonus", "expression", "discount + 1", &[], &["final"]),
        declared("final", "function", "final.js", &[], &["response"]),
    ];
    let files = vec![
        stored("tiers.csv", "amount,discount\n100,5\n200,10\n"),
        stored("final.js", "export default (x) => x;\n"),
    ];
    let graph = compile(refs.clone(), &files).unwrap();
    assert_eq!(graph.nodes.len(), 5);
    let mut first = Rule::new();
    first.insert("amount".to_string(), "100".to_string());
    first.insert("discount".to_string(), "5".to_string());
    let mut second = Rule::new();
    second.insert("amount".to_string(), "200".to_string());
    second.insert("discount".to_string(), "10".to_string());
    match &graph.nodes[1].kind {
        NodeKind::Table { rows, inputs, outputs, .. } => {
            assert_eq!(rows, &vec![first, second]);
            assert_eq!(inputs.len(), 1);
            assert_eq!(inputs[0].field, "amount");
            assert_eq!(outputs.len(), 1);
            assert_eq!(outputs[0].field, "discount");
        }
        other => panic!("not a table: {:?}", other),
    }
    assert_eq!(
        graph.nodes[3].kind,
        NodeKind::Function { source: "export default (x) => x;\n".to_string() }
    );
    let edge = |s: &str, t: &str| GraphEdge { source_id: s.to_string(), target_id: t.to_string() };
    assert_eq!(
        graph.edges,
        vec![
            edge("request", "tiers"),
            edge("tiers", "bonus"),
            edge("bonus", "final"),
            edge("final", "response"),
        ]
    );
    assert_eq!(Ok(graph), build(read_flow(refs, &files).unwrap()));
}

#[test]
fn compile_gives_the_resolution_error_before_any_build_error() {
    let refs = vec![
        declared("request", "function", "f.js", &["nowhere"], &[]),
        declared("t", "table", "t.json", &[], &[]),
    ];
    let files = vec![stored("f.js", ""), stored("t.json", "{}")];
    let outcome = compile(refs, &files);
    assert_eq!(
        outcome,
        Err(FlowError::MalformedRules { unit: "t".to_string(), path: "t.json".to_string() })
    );
    assert_eq!(outcome.unwrap_err().kind(), ErrorKind::ResolutionError);
}

#[test]
fn compile_gives_the_build_error_of_resolved_units() {
    let refs = vec![declared("a", "function", "f.js", &["nowhere"], &[])];
    let files = vec![stored("f.js", "")];
    assert_eq!(
        compile(refs, &files),
        Err(FlowError::DanglingEdge { source: "nowhere".to_string(), target: "a".to_string() })
    );
}
