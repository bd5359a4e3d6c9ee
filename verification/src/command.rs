//! The commands of the tool, as plain values, and what each evaluates.

use vstd::prelude::*;

verus! {

/// Where the input of an evaluation is taken from.
#[derive(Debug, Clone, PartialEq, Eq)]
pub enum QuerySource {
    /// The JSON document in the file at this path.
    File(String),
    /// This JSON text.
    Text(String),
    /// One line of JSON text, read from standard input.
    StandardInput,
}

pub enum QuerySourceView {
    File(Seq<char>),
    Text(Seq<char>),
    StandardInput,
}

impl View for QuerySource {
    type V = QuerySourceView;

    open spec fn view(&self) -> QuerySourceView {
        match *self {
            QuerySource::File(path) => QuerySourceView::File(path@),
            QuerySource::Text(text) => QuerySourceView::Text(text@),
            QuerySource::StandardInput => QuerySourceView::StandardInput,
        }
    }
}

impl DeepView for QuerySource {
    type V = QuerySourceView;

    open spec fn deep_view(&self) -> QuerySourceView {
        self@
    }
}

/// Compile the flow at `flow` and evaluate it: on the document in the file
/// `input`, if given, and on the text `expression`, if given.
#[derive(Debug, Clone, PartialEq, Eq)]
pub struct RunArgs {
    pub flow: String,
    pub input: Option<String>,
    pub expression: Option<String>,
}

/// Compile the flow at `flow` and show its graph.
#[derive(Debug, Clone, PartialEq, Eq)]
pub struct ResolveArgs {
    pub flow: String,
}

/// Evaluate `expression` on the document `data`, or on one read from
/// standard input where none is given.
#[derive(Debug, Clone, PartialEq, Eq)]
pub struct EvalArgs {
    pub expression: String,
    pub data: Option<String>,
}

/// The inputs that a run with the given options evaluates the flow on.
pub open spec fn queries_of(input: Option<Seq<char>>, expression: Option<Seq<char>>) -> Seq<
    QuerySourceView,
> {
    let from_file = match input {
        Some(path) => seq![QuerySourceView::File(path)],
        None => Seq::empty(),
    };
    let from_text = match expression {
        Some(text) => seq![QuerySourceView::Text(text)],
        None => Seq::empty(),
    };
    from_file + from_text
}

impl RunArgs {
    /// Lists the inputs on which the flow is evaluated, in the order of the
    /// evaluations: the input file first, then the inline text.
    pub fn queries(&self) -> (sources: Vec<QuerySource>)
        ensures
            sources.deep_view() == queries_of(self.input.deep_view(), self.expression.deep_view()),
    {
        let mut sources: Vec<QuerySource> = Vec::new();
        if let Some(path) = &self.input {
            sources.push(QuerySource::File(path.clone()));
        }
        if let Some(text) = &self.expression {
            sources.push(QuerySource::Text(text.clone()));
        }
        assert(sources.deep_view() =~= queries_of(
            self.input.deep_view(),
            self.expression.deep_view(),
        ));
        sources
    }
}

impl EvalArgs {
    /// Tells where the document comes from that the expression is evaluated
    /// on: the given text, or standard input where none is given.
    pub fn query(&self) -> (source: QuerySource)
        ensures
            source@ == match self.data {
                Some(text) => QuerySourceView::Text(text@),
                None => QuerySourceView::StandardInput,
            },
    {
        match &self.data {
            Some(text) => QuerySource::Text(text.clone()),
            None => QuerySource::StandardInput,
        }
    }
}

} // verus!
