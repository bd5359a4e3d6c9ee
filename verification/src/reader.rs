//! Resolution: from the units a flow declares to the units with their payload.

use crate::error::{FlowError, FlowErrorView};
use crate::model::{
    find_file, lookup, Decision, DecisionKind, DecisionRef, DecisionRefView, DecisionView, Payload,
    PayloadView, Rule, RuleView, SourceFile, SourceFileView,
};
use crate::rules::{read_rules, rule_format, rule_format_of, rules_of, RuleFormat, RulesError};
use vstd::prelude::*;
use vstd::string::*;

verus! {

/// The kind that the text `kind` names, case sensitively.
pub open spec fn kind_of(kind: Seq<char>) -> Option<DecisionKind> {
    if kind == "table"@ {
        Some(DecisionKind::Table)
    } else if kind == "expression"@ {
        Some(DecisionKind::Expression)
    } else if kind == "function"@ {
        Some(DecisionKind::Function)
    } else {
        None
    }
}

/// A list of field names that may be left out stands for the empty list.
pub open spec fn or_empty(names: Option<Seq<Seq<char>>>) -> Seq<Seq<char>> {
    match names {
        Some(names) => names,
        None => Seq::empty(),
    }
}

/// The unit that `r` declares, with `payload` as what its rule location holds.
pub open spec fn unit_of(r: DecisionRefView, payload: PayloadView) -> DecisionView {
    DecisionView {
        id: r.id,
        payload,
        inputs: or_empty(r.inputs),
        outputs: or_empty(r.outputs),
        sources: r.sources,
        targets: r.targets,
    }
}

/// The table that `r` declares, given what reading its rule file gave.
pub open spec fn table_unit_of(
    r: DecisionRefView,
    rows: Result<Seq<RuleView>, RulesError>,
) -> Result<DecisionView, FlowErrorView> {
    match rows {
        Ok(rows) => Ok(unit_of(r, PayloadView::Table { rows })),
        Err(RulesError::Unreadable) => Err(
            FlowErrorView::RuleFileUnreadable { unit: r.id, path: r.rules },
        ),
        Err(RulesError::Malformed) => Err(
            FlowErrorView::MalformedRules { unit: r.id, path: r.rules },
        ),
    }
}

/// The expression that `r` declares: its rule location is the expression
/// itself, keyed on the first declared input field.
pub open spec fn expression_unit_of(r: DecisionRefView) -> Result<DecisionView, FlowErrorView> {
    if or_empty(r.inputs).len() == 0 {
        Err(FlowErrorView::MissingInput { unit: r.id })
    } else {
        Ok(unit_of(r, PayloadView::Expression { key: or_empty(r.inputs)[0], text: r.rules }))
    }
}

/// The function that `r` declares, given the text of its source file if it
/// could be read.
pub open spec fn function_unit_of(r: DecisionRefView, source: Option<Seq<char>>) -> Result<
    DecisionView,
    FlowErrorView,
> {
    match source {
        Some(source) => Ok(unit_of(r, PayloadView::Function { source })),
        None => Err(FlowErrorView::RuleFileUnreadable { unit: r.id, path: r.rules }),
    }
}

/// What resolving `r` gives, with `files` as the files that could be read.
pub open spec fn resolution(r: DecisionRefView, files: Seq<SourceFileView>) -> Result<
    DecisionView,
    FlowErrorView,
> {
    match kind_of(r.kind) {
        None => Err(FlowErrorView::UnknownKind { unit: r.id, kind: r.kind }),
        Some(DecisionKind::Table) => table_unit_of(r, rules_of(r.rules, files)),
        Some(DecisionKind::Expression) => expression_unit_of(r),
        Some(DecisionKind::Function) => function_unit_of(r, lookup(files, r.rules)),
    }
}

/// The file that resolving `r` reads, if it reads one: the rule file of a
/// table whose format is known, or the source file of a function.
pub open spec fn rule_file_of(r: DecisionRefView) -> Option<Seq<char>> {
    match kind_of(r.kind) {
        Some(DecisionKind::Table) => if rule_format_of(r.rules) == RuleFormat::Unknown {
            None
        } else {
            Some(r.rules)
        },
        Some(DecisionKind::Function) => Some(r.rules),
        _ => None,
    }
}

/// The files that resolving the units of `refs` reads, in the order of the
/// units.
pub open spec fn rule_files_of(refs: Seq<DecisionRefView>) -> Seq<Seq<char>> {
    refs.filter(|r: DecisionRefView| rule_file_of(r) is Some).map_values(
        |r: DecisionRefView| rule_file_of(r).unwrap(),
    )
}

/// Every unit of `refs` can be resolved.
pub open spec fn resolves(refs: Seq<DecisionRefView>, files: Seq<SourceFileView>) -> bool {
    forall|i: int| 0 <= i < refs.len() ==> resolution(#[trigger] refs[i], files) is Ok
}

/// The resolved units of `refs`, in the order of `refs`, where all of them
/// can be resolved.
pub open spec fn resolved(refs: Seq<DecisionRefView>, files: Seq<SourceFileView>) -> Seq<
    DecisionView,
> {
    refs.map_values(|r: DecisionRefView| resolution(r, files)->Ok_0)
}

/// `e` is the error of the first unit of `refs` that cannot be resolved.
pub open spec fn first_failure(
    refs: Seq<DecisionRefView>,
    files: Seq<SourceFileView>,
    e: FlowErrorView,
) -> bool {
    exists|i: int|
        {
            &&& 0 <= i < refs.len()
            &&& resolution(#[trigger] refs[i], files) == Err::<DecisionView, FlowErrorView>(e)
            &&& forall|j: int| 0 <= j < i ==> resolution(#[trigger] refs[j], files) is Ok
        }
}

/// The view of an outcome of resolution.
pub open spec fn outcome_view(outcome: Result<Decision, FlowError>) -> Result<
    DecisionView,
    FlowErrorView,
> {
    match outcome {
        Ok(unit) => Ok(unit@),
        Err(e) => Err(e@),
    }
}

/// The view of what reading a rule file gave.
pub open spec fn rows_view(rows: Result<Vec<Rule>, RulesError>) -> Result<
    Seq<RuleView>,
    RulesError,
> {
    match rows {
        Ok(rows) => Ok(rows.deep_view()),
        Err(e) => Err(e),
    }
}

/// Resolution looks at no file but the one that `rule_file_of` names: file
/// lists that agree on it resolve a unit alike. A unit for which it names
/// none, such as an expression, resolves alike whatever the files are.
pub proof fn lemma_resolution_reads_rule_file(
    r: DecisionRefView,
    files: Seq<SourceFileView>,
    others: Seq<SourceFileView>,
)
    requires
        rule_file_of(r) matches Some(path) ==> lookup(files, path) == lookup(others, path),
    ensures
        resolution(r, files) == resolution(r, others),
{
}

/// The file that resolving a unit of `refs` reads is among the files listed
/// for `refs`.
pub proof fn lemma_rule_file_listed(refs: Seq<DecisionRefView>, i: int)
    requires
        0 <= i < refs.len(),
        rule_file_of(refs[i]) is Some,
    ensures
        rule_files_of(refs).contains(rule_file_of(refs[i]).unwrap()),
{
    let reads = |r: DecisionRefView| rule_file_of(r) is Some;
    let path = |r: DecisionRefView| rule_file_of(r).unwrap();
    let kept = refs.filter(reads);
    kept.lemma_filter_len(reads);
    refs.lemma_filter_contains(reads, i);
    let k = choose|k: int| 0 <= k < kept.len() && kept[k] == refs[i];
    assert(kept.map_values(path)[k] == path(refs[i]));
}

/// A flow is resolved from the files listed for it and from no others: file
/// lists that agree on each listed path resolve every unit alike.
pub proof fn lemma_flow_reads_rule_files(
    refs: Seq<DecisionRefView>,
    files: Seq<SourceFileView>,
    others: Seq<SourceFileView>,
)
    requires
        forall|path: Seq<char>|
            rule_files_of(refs).contains(path) ==> lookup(files, path) == lookup(others, path),
    ensures
        forall|i: int|
            0 <= i < refs.len() ==> resolution(#[trigger] refs[i], files) == resolution(
                refs[i],
                others,
            ),
        resolves(refs, files) == resolves(refs, others),
        resolved(refs, files) == resolved(refs, others),
        forall|e: FlowErrorView| first_failure(refs, files, e) == first_failure(refs, others, e),
{
    assert forall|i: int| 0 <= i < refs.len() implies resolution(#[trigger] refs[i], files)
        == resolution(refs[i], others) by {
        if rule_file_of(refs[i]) is Some {
            lemma_rule_file_listed(refs, i);
        }
        lemma_resolution_reads_rule_file(refs[i], files, others);
    }
    assert(resolved(refs, files) =~= resolved(refs, others));
}

/// A table whose rule location ends in neither `.json` nor `.csv` resolves to
/// a table without rows, whatever the files are: this is no error.
pub proof fn lemma_unknown_format_has_no_rows(r: DecisionRefView, files: Seq<SourceFileView>)
    requires
        kind_of(r.kind) == Some(DecisionKind::Table),
        rule_format_of(r.rules) == RuleFormat::Unknown,
    ensures
        resolution(r, files) == Ok::<DecisionView, FlowErrorView>(
            unit_of(r, PayloadView::Table { rows: Seq::empty() }),
        ),
{
}

/// An expression is resolved from its declaration alone: it is keyed on its
/// first declared input field, and fails exactly where it declares none.
pub proof fn lemma_expression_resolution(r: DecisionRefView, files: Seq<SourceFileView>)
    requires
        kind_of(r.kind) == Some(DecisionKind::Expression),
    ensures
        resolution(r, files) is Ok <==> or_empty(r.inputs).len() > 0,
        resolution(r, files) matches Ok(unit) ==> unit.payload == (PayloadView::Expression {
            key: or_empty(r.inputs)[0],
            text: r.rules,
        }),
        resolution(r, files) matches Err(e) ==> e == (FlowErrorView::MissingInput { unit: r.id }),
{
}

/// Tells the kind that `kind` names: `table`, `expression` or `function`.
pub fn parse_kind(kind: &str) -> (parsed: Option<DecisionKind>)
    ensures
        parsed == kind_of(kind@),
{
    let kind = kind.to_owned();
    if kind == "table".to_owned() {
        Some(DecisionKind::Table)
    } else if kind == "expression".to_owned() {
        Some(DecisionKind::Expression)
    } else if kind == "function".to_owned() {
        Some(DecisionKind::Function)
    } else {
        None
    }
}

/// Gives the declared list, or the empty list where none was declared.
pub fn maybe_opt(s: Option<Vec<String>>) -> (names: Vec<String>)
    ensures
        names.deep_view() == or_empty(s.deep_view()),
        s matches Some(v) ==> names == v,
{
    match s {
        Some(v) => v,
        None => {
            let names: Vec<String> = Vec::new();
            assert(names.deep_view() =~= Seq::empty());
            names
        },
    }
}

/// Makes the table that `r` declares from what reading its rule file gave.
pub fn make_table_unit(r: DecisionRef, rows: Result<Vec<Rule>, RulesError>) -> (unit: Result<
    Decision,
    FlowError,
>)
    ensures
        outcome_view(unit) == table_unit_of(r@, rows_view(rows)),
{
    let DecisionRef { id, kind: _, rules, inputs, outputs, sources, targets } = r;
    match rows {
        Ok(rows) => Ok(
            Decision {
                id,
                payload: Payload::Table { rows },
                inputs: maybe_opt(inputs),
                outputs: maybe_opt(outputs),
                sources,
                targets,
            },
        ),
        Err(RulesError::Unreadable) => Err(FlowError::RuleFileUnreadable { unit: id, path: rules }),
        Err(RulesError::Malformed) => Err(FlowError::MalformedRules { unit: id, path: rules }),
    }
}

/// Makes the expression that `r` declares. Its rule location is the
/// expression itself; its first declared input field is the key. Fails where
/// no input field is declared.
pub fn make_expression_unit(r: DecisionRef) -> (unit: Result<Decision, FlowError>)
    ensures
        outcome_view(unit) == expression_unit_of(r@),
{
    let DecisionRef { id, kind: _, rules, inputs, outputs, sources, targets } = r;
    let inputs = maybe_opt(inputs);
    if inputs.len() == 0 {
        Err(FlowError::MissingInput { unit: id })
    } else {
        let key = inputs[0].clone();
        Ok(
            Decision {
                id,
                payload: Payload::Expression { key, text: rules },
                inputs,
                outputs: maybe_opt(outputs),
                sources,
                targets,
            },
        )
    }
}

/// Makes the function that `r` declares from the text of its source file.
/// Fails where the file could not be read.
pub fn make_function_unit(r: DecisionRef, source: Option<String>) -> (unit: Result<
    Decision,
    FlowError,
>)
    ensures
        outcome_view(unit) == function_unit_of(r@, source.deep_view()),
{
    let DecisionRef { id, kind: _, rules, inputs, outputs, sources, targets } = r;
    match source {
        Some(source) => Ok(
            Decision {
                id,
                payload: Payload::Function { source },
                inputs: maybe_opt(inputs),
                outputs: maybe_opt(outputs),
                sources,
                targets,
            },
        ),
        None => Err(FlowError::RuleFileUnreadable { unit: id, path: rules }),
    }
}

/// Gives the source text of the function at `path`, whole and unchanged, or
/// `None` where that file is not among `files`.
pub fn slurp_function(path: &str, files: &Vec<SourceFile>) -> (source: Option<String>)
    ensures
        source.deep_view() == lookup(files.deep_view(), path@),
{
    match find_file(files, path) {
        Some(text) => Some(text.clone()),
        None => None,
    }
}

/// Resolves one declared unit: tells its kind and turns its rule location
/// into the payload of that kind, with `files` as the files that could be
/// read.
pub fn resolve(r: DecisionRef, files: &Vec<SourceFile>) -> (unit: Result<Decision, FlowError>)
    ensures
        outcome_view(unit) == resolution(r@, files.deep_view()),
{
    match parse_kind(r.kind.as_str()) {
        None => {
            let DecisionRef { id, kind, .. } = r;
            Err(FlowError::UnknownKind { unit: id, kind })
        },
        Some(DecisionKind::Table) => {
            let rows = read_rules(r.rules.as_str(), files);
            make_table_unit(r, rows)
        },
        Some(DecisionKind::Expression) => make_expression_unit(r),
        Some(DecisionKind::Function) => {
            let source = slurp_function(r.rules.as_str(), files);
            make_function_unit(r, source)
        },
    }
}

/// Tells which file the resolution of `r` reads, if any.
pub fn rule_file(r: &DecisionRef) -> (path: Option<String>)
    ensures
        path.deep_view() == rule_file_of(r@),
{
    match parse_kind(r.kind.as_str()) {
        Some(DecisionKind::Table) => match rule_format(r.rules.as_str()) {
            RuleFormat::Unknown => None,
            _ => Some(r.rules.clone()),
        },
        Some(DecisionKind::Function) => Some(r.rules.clone()),
        _ => None,
    }
}

/// Lists the files that resolving `refs` reads, in the order of the units.
/// Resolution looks at no other file.
pub fn rule_files(refs: &Vec<DecisionRef>) -> (paths: Vec<String>)
    ensures
        paths.deep_view() == rule_files_of(refs.deep_view()),
{
    let ghost reads = |r: DecisionRefView| rule_file_of(r) is Some;
    let ghost path = |r: DecisionRefView| rule_file_of(r).unwrap();
    let mut paths: Vec<String> = Vec::new();
    let mut i: usize = 0;
    proof {
        reveal(Seq::filter);
        assert(refs.deep_view().take(0) =~= Seq::empty());
        assert(paths.deep_view() =~= Seq::empty());
    }
    while i < refs.len()
        invariant
            i <= refs.len(),
            reads == |r: DecisionRefView| rule_file_of(r) is Some,
            path == |r: DecisionRefView| rule_file_of(r).unwrap(),
            paths.deep_view() == refs.deep_view().take(i as int).filter(reads).map_values(path),
        decreases refs.len() - i,
    {
        let ghost before = paths.deep_view();
        let ghost seen = refs.deep_view().take(i as int);
        let ghost next = refs.deep_view().take(i + 1);
        proof {
            reveal(Seq::filter);
            assert(next.drop_last() =~= seen);
            assert(next.last() == refs[i as int]@);
        }
        match rule_file(&refs[i]) {
            Some(p) => {
                paths.push(p);
                assert(paths.deep_view() =~= before.push(p@));
                assert(next.filter(reads).map_values(path) =~= seen.filter(reads).map_values(
                    path,
                ).push(p@));
            },
            None => {},
        }
        i = i + 1;
    }
    assert(refs.deep_view().take(i as int) =~= refs.deep_view());
    paths
}

/// Resolves the units of a flow in their order, with `files` as the files
/// that could be read. The first unit that cannot be resolved ends the work:
/// its error is returned and no later unit is looked at.
pub fn read_flow(refs: Vec<DecisionRef>, files: &Vec<SourceFile>) -> (flow: Result<
    Vec<Decision>,
    FlowError,
>)
    ensures
        flow is Ok <==> resolves(refs.deep_view(), files.deep_view()),
        match flow {
            Ok(flow) => flow.deep_view() == resolved(refs.deep_view(), files.deep_view()),
            Err(e) => first_failure(refs.deep_view(), files.deep_view(), e@),
        },
{
    let ghost declared = refs.deep_view();
    let mut flow: Vec<Decision> = Vec::new();
    for r in it: refs
        invariant
            it.seq() == refs@,
            declared == refs.deep_view(),
            flow.len() == it.index(),
            forall|i: int|
                0 <= i < flow.len() ==> resolution(#[trigger] declared[i], files.deep_view())
                    == Ok::<DecisionView, FlowErrorView>(flow[i]@),
    {
        let ghost at = flow.len() as int;
        assert(declared[at] == r@);
        match resolve(r, files) {
            Ok(unit) => {
                flow.push(unit);
            },
            Err(e) => {
                assert(resolution(declared[at], files.deep_view()) is Err);
                return Err(e);
            },
        }
    }
    assert(flow.deep_view() =~= resolved(declared, files.deep_view()));
    Ok(flow)
}

} // verus!
