use orb::command::{EvalArgs, QuerySource, ResolveArgs, RunArgs};
use orb::error::{ErrorKind, FlowError};

fn text(s: &str) -> String {
    s.to_string()
}

#[test]
fn load_errors() {
    assert_eq!(FlowError::FlowUnreadable { path: text("f.json") }.kind(), ErrorKind::LoadError);
    assert_eq!(FlowError::FlowMalformed { path: text("f.json") }.kind(), ErrorKind::LoadError);
    assert_eq!(
        FlowError::UnknownKind { unit: text("u"), kind: text("k") }.kind(),
        ErrorKind::LoadError
    );
}

#[test]
fn resolution_errors() {
    assert_eq!(
        FlowError::RuleFileUnreadable { unit: text("u"), path: text("p") }.kind(),
        ErrorKind::ResolutionError
    );
    assert_eq!(
        FlowError::MalformedRules { unit: text("u"), path: text("p") }.kind(),
        ErrorKind::ResolutionError
    );
    assert_eq!(FlowError::MissingInput { unit: text("u") }.kind(), ErrorKind::ResolutionError);
}

#[test]
fn build_errors() {
    assert_eq!(FlowError::ReservedIdentifier { unit: text("u") }.kind(), ErrorKind::BuildError);
    assert_eq!(
        FlowError::DanglingEdge { source: text("a"), target: text("b") }.kind(),
        ErrorKind::BuildError
    );
}

#[test]
fn messages_name_the_context() {
    assert_eq!(
        FlowError::FlowUnreadable { path: text("flow.json") }.message(),
        "cannot read flow file flow.json"
    );
    assert_eq!(
        FlowError::FlowMalformed { path: text("flow.json") }.message(),
        "malformed flow file flow.json"
    );
    assert_eq!(
        FlowError::UnknownKind { unit: text("u1"), kind: text("lookup") }.message(),
        "unit u1: unknown kind lookup"
    );
    assert_eq!(
        FlowError::RuleFileUnreadable { unit: text("u1"), path: text("r.csv") }.message(),
        "unit u1: cannot read rule file r.csv"
    );
    assert_eq!(
        FlowError::MalformedRules { unit: text("u1"), path: text("r.csv") }.message(),
        "unit u1: malformed rules in r.csv"
    );
    assert_eq!(
        FlowError::MissingInput { unit: text("u1") }.message(),
        "unit u1: expression declares no input field"
    );
    assert_eq!(
        FlowError::ReservedIdentifier { unit: text("request") }.message(),
        "unit request: identifier is reserved"
    );
    assert_eq!(
        FlowError::DanglingEdge { source: text("a"), target: text("b") }.message(),
        "edge a -> b: endpoint names no node"
    );
}

#[test]
fn run_evaluates_file_then_text() {
    let args = RunArgs {
        flow: text("flow.json"),
        input: Some(text("in.json")),
        expression: Some(text("{\"a\": 1}")),
    };
    assert_eq!(
        args.queries(),
        vec![QuerySource::File(text("in.json")), QuerySource::Text(text("{\"a\": 1}"))]
    );
}

#[test]
fn run_with_one_input_evaluates_once() {
    let args = RunArgs { flow: text("flow.json"), input: Some(text("in.json")), expression: None };
    assert_eq!(args.queries(), vec![QuerySource::File(text("in.json"))]);
    let args = RunArgs { flow: text("flow.json"), input: None, expression: Some(text("{}")) };
    assert_eq!(args.queries(), vec![QuerySource::Text(text("{}"))]);
}

#[test]
fn run_without_input_evaluates_nothing() {
    let args = RunArgs { flow: text("flow.json"), input: None, expression: None };
    assert_eq!(args.queries(), Vec::new());
}

#[test]
fn eval_takes_given_data_or_standard_input() {
    let args = EvalArgs { expression: text("a + 1"), data: Some(text("{\"a\": 1}")) };
    assert_eq!(args.query(), QuerySource::Text(text("{\"a\": 1}")));
    let args = EvalArgs { expression: text("a + 1"), data: None };
    assert_eq!(args.query(), QuerySource::StandardInput);
}

#[test]
fn resolve_names_the_flow() {
    let args = ResolveArgs { flow: text("flow.json") };
    assert_eq!(args.clone(), args);
    assert_eq!(args.flow, "flow.json");
}
