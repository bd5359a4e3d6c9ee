//! The data of a flow: units as declared, units as resolved, and rule files.

use std::collections::HashMap;
use vstd::prelude::*;

verus! {

/// One rule row of a table: field name to raw cell text.
pub type Rule = HashMap<String, String>;

/// A rule row in specifications.
pub type RuleView = Map<Seq<char>, Seq<char>>;

/// The kind of a decision unit.
#[derive(Debug, Clone, Copy, PartialEq, Eq, Structural)]
pub enum DecisionKind {
    Table,
    Expression,
    Function,
}

/// A decision unit as the flow definition declares it.
#[derive(Debug, Clone, PartialEq, Eq)]
pub struct DecisionRef {
    pub id: String,
    pub kind: String,
    pub rules: String,
    pub inputs: Option<Vec<String>>,
    pub outputs: Option<Vec<String>>,
    pub sources: Vec<String>,
    pub targets: Vec<String>,
}

pub struct DecisionRefView {
    pub id: Seq<char>,
    pub kind: Seq<char>,
    pub rules: Seq<char>,
    pub inputs: Option<Seq<Seq<char>>>,
    pub outputs: Option<Seq<Seq<char>>>,
    pub sources: Seq<Seq<char>>,
    pub targets: Seq<Seq<char>>,
}

impl View for DecisionRef {
    type V = DecisionRefView;

    open spec fn view(&self) -> DecisionRefView {
        DecisionRefView {
            id: self.id@,
            kind: self.kind@,
            rules: self.rules@,
            inputs: self.inputs.deep_view(),
            outputs: self.outputs.deep_view(),
            sources: self.sources.deep_view(),
            targets: self.targets.deep_view(),
        }
    }
}

impl DeepView for DecisionRef {
    type V = DecisionRefView;

    open spec fn deep_view(&self) -> DecisionRefView {
        self@
    }
}

/// What resolution found at a unit's rule location.
#[derive(Debug, Clone, PartialEq, Eq)]
pub enum Payload {
    /// The rule rows of a table, in file order.
    Table { rows: Vec<Rule> },
    /// An expression and the input field it is keyed on.
    Expression { key: String, text: String },
    /// The source text of a function, as it stands in its file.
    Function { source: String },
}

pub enum PayloadView {
    Table { rows: Seq<RuleView> },
    Expression { key: Seq<char>, text: Seq<char> },
    Function { source: Seq<char> },
}

impl View for Payload {
    type V = PayloadView;

    open spec fn view(&self) -> PayloadView {
        match *self {
            Payload::Table { rows } => PayloadView::Table { rows: rows.deep_view() },
            Payload::Expression { key, text } => PayloadView::Expression { key: key@, text: text@ },
            Payload::Function { source } => PayloadView::Function { source: source@ },
        }
    }
}

impl PayloadView {
    pub open spec fn kind(self) -> DecisionKind {
        match self {
            PayloadView::Table { .. } => DecisionKind::Table,
            PayloadView::Expression { .. } => DecisionKind::Expression,
            PayloadView::Function { .. } => DecisionKind::Function,
        }
    }
}

/// A resolved decision unit.
#[derive(Debug, Clone, PartialEq, Eq)]
pub struct Decision {
    pub id: String,
    pub payload: Payload,
    pub inputs: Vec<String>,
    pub outputs: Vec<String>,
    pub sources: Vec<String>,
    pub targets: Vec<String>,
}

pub struct DecisionView {
    pub id: Seq<char>,
    pub payload: PayloadView,
    pub inputs: Seq<Seq<char>>,
    pub outputs: Seq<Seq<char>>,
    pub sources: Seq<Seq<char>>,
    pub targets: Seq<Seq<char>>,
}

impl View for Decision {
    type V = DecisionView;

    open spec fn view(&self) -> DecisionView {
        DecisionView {
            id: self.id@,
            payload: self.payload@,
            inputs: self.inputs.deep_view(),
            outputs: self.outputs.deep_view(),
            sources: self.sources.deep_view(),
            targets: self.targets.deep_view(),
        }
    }
}

impl DeepView for Decision {
    type V = DecisionView;

    open spec fn deep_view(&self) -> DecisionView {
        self@
    }
}

impl Decision {
    /// The kind of the unit, read off its payload.
    pub fn kind(&self) -> (k: DecisionKind)
        ensures
            k == self@.payload.kind(),
    {
        match &self.payload {
            Payload::Table { .. } => DecisionKind::Table,
            Payload::Expression { .. } => DecisionKind::Expression,
            Payload::Function { .. } => DecisionKind::Function,
        }
    }
}

/// The text of one file, as it was read from `path`.
#[derive(Debug, Clone, PartialEq, Eq)]
pub struct SourceFile {
    pub path: String,
    pub text: String,
}

pub struct SourceFileView {
    pub path: Seq<char>,
    pub text: Seq<char>,
}

impl View for SourceFile {
    type V = SourceFileView;

    open spec fn view(&self) -> SourceFileView {
        SourceFileView { path: self.path@, text: self.text@ }
    }
}

impl DeepView for SourceFile {
    type V = SourceFileView;

    open spec fn deep_view(&self) -> SourceFileView {
        self@
    }
}

/// The text of the first file of `files` that was read from `path`.
pub open spec fn lookup(files: Seq<SourceFileView>, path: Seq<char>) -> Option<Seq<char>>
    decreases files.len(),
{
    if files.len() == 0 {
        None
    } else if files[0].path == path {
        Some(files[0].text)
    } else {
        lookup(files.drop_first(), path)
    }
}

/// Finds the text of the file that was read from `path`; where several were,
/// the first of them.
pub fn find_file<'a>(files: &'a Vec<SourceFile>, path: &str) -> (found: Option<&'a String>)
    ensures
        match found {
            Some(text) => lookup(files.deep_view(), path@) == Some(text@),
            None => lookup(files.deep_view(), path@) is None,
        },
{
    let wanted = path.to_owned();
    let mut i: usize = 0;
    assert(files.deep_view().skip(0) == files.deep_view());
    while i < files.len()
        invariant
            i <= files.len(),
            wanted@ == path@,
            lookup(files.deep_view(), path@) == lookup(files.deep_view().skip(i as int), path@),
        decreases files.len() - i,
    {
        proof {
            let rest = files.deep_view().skip(i as int);
            assert(rest[0] == files[i as int]@);
            assert(rest.drop_first() == files.deep_view().skip(i + 1));
        }
        if files[i].path == wanted {
            return Some(&files[i].text);
        }
        i = i + 1;
    }
    None
}

} // verus!
