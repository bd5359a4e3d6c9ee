//! What can stop the compilation of a flow, and at which stage.

use vstd::prelude::*;
use vstd::string::*;

verus! {

/// The stage at which a flow was given up.
#[derive(Debug, Clone, Copy, PartialEq, Eq, Structural)]
pub enum ErrorKind {
    /// The flow definition itself could not be taken in.
    LoadError,
    /// A unit's rule location could not be turned into its payload.
    ResolutionError,
    /// The resolved units do not form a graph.
    BuildError,
}

/// Why a flow was given up. Every error is fatal to the flow it arose in.
#[derive(Debug, Clone, PartialEq, Eq)]
pub enum FlowError {
    /// The flow definition at `path` is missing or cannot be read.
    FlowUnreadable { path: String },
    /// The flow definition at `path` is not a list of decision units.
    FlowMalformed { path: String },
    /// Unit `unit` declares a kind that is none of table, expression, function.
    UnknownKind { unit: String, kind: String },
    /// The rule file `path` of unit `unit` is missing or cannot be read.
    RuleFileUnreadable { unit: String, path: String },
    /// The rule file `path` of table `unit` does not hold rule rows.
    MalformedRules { unit: String, path: String },
    /// Expression `unit` declares no input field to be keyed on.
    MissingInput { unit: String },
    /// Unit `unit` bears an identifier that is kept for the entry and exit node.
    ReservedIdentifier { unit: String },
    /// An edge from `source` to `target` has an endpoint that names no node.
    DanglingEdge { source: String, target: String },
}

pub enum FlowErrorView {
    FlowUnreadable { path: Seq<char> },
    FlowMalformed { path: Seq<char> },
    UnknownKind { unit: Seq<char>, kind: Seq<char> },
    RuleFileUnreadable { unit: Seq<char>, path: Seq<char> },
    MalformedRules { unit: Seq<char>, path: Seq<char> },
    MissingInput { unit: Seq<char> },
    ReservedIdentifier { unit: Seq<char> },
    DanglingEdge { source: Seq<char>, target: Seq<char> },
}

impl View for FlowError {
    type V = FlowErrorView;

    open spec fn view(&self) -> FlowErrorView {
        match *self {
            FlowError::FlowUnreadable { path } => FlowErrorView::FlowUnreadable { path: path@ },
            FlowError::FlowMalformed { path } => FlowErrorView::FlowMalformed { path: path@ },
            FlowError::UnknownKind { unit, kind } => FlowErrorView::UnknownKind {
                unit: unit@,
                kind: kind@,
            },
            FlowError::RuleFileUnreadable { unit, path } => FlowErrorView::RuleFileUnreadable {
                unit: unit@,
                path: path@,
            },
            FlowError::MalformedRules { unit, path } => FlowErrorView::MalformedRules {
                unit: unit@,
                path: path@,
            },
            FlowError::MissingInput { unit } => FlowErrorView::MissingInput { unit: unit@ },
            FlowError::ReservedIdentifier { unit } => FlowErrorView::ReservedIdentifier {
                unit: unit@,
            },
            FlowError::DanglingEdge { source, target } => FlowErrorView::DanglingEdge {
                source: source@,
                target: target@,
            },
        }
    }
}

impl FlowErrorView {
    /// The stage an error belongs to.
    pub open spec fn kind(self) -> ErrorKind {
        match self {
            FlowErrorView::FlowUnreadable { .. } => ErrorKind::LoadError,
            FlowErrorView::FlowMalformed { .. } => ErrorKind::LoadError,
            FlowErrorView::UnknownKind { .. } => ErrorKind::LoadError,
            FlowErrorView::RuleFileUnreadable { .. } => ErrorKind::ResolutionError,
            FlowErrorView::MalformedRules { .. } => ErrorKind::ResolutionError,
            FlowErrorView::MissingInput { .. } => ErrorKind::ResolutionError,
            FlowErrorView::ReservedIdentifier { .. } => ErrorKind::BuildError,
            FlowErrorView::DanglingEdge { .. } => ErrorKind::BuildError,
        }
    }

    /// The diagnostic text of an error.
    pub open spec fn message(self) -> Seq<char> {
        match self {
            FlowErrorView::FlowUnreadable { path } => "cannot read flow file "@ + path,
            FlowErrorView::FlowMalformed { path } => "malformed flow file "@ + path,
            FlowErrorView::UnknownKind { unit, kind } => "unit "@ + unit + ": unknown kind "@
                + kind,
            FlowErrorView::RuleFileUnreadable { unit, path } => "unit "@ + unit
                + ": cannot read rule file "@ + path,
            FlowErrorView::MalformedRules { unit, path } => "unit "@ + unit
                + ": malformed rules in "@ + path,
            FlowErrorView::MissingInput { unit } => "unit "@ + unit
                + ": expression declares no input field"@,
            FlowErrorView::ReservedIdentifier { unit } => "unit "@ + unit
                + ": identifier is reserved"@,
            FlowErrorView::DanglingEdge { source, target } => "edge "@ + source + " -> "@ + target
                + ": endpoint names no node"@,
        }
    }
}

/// `head`, then `tail`.
fn join2(head: &str, tail: &str) -> (text: String)
    ensures
        text@ == head@ + tail@,
{
    let mut text = head.to_owned();
    text.append(tail);
    text
}

/// `head`, then `middle`, then `tail`.
fn join3(head: &str, middle: &str, tail: &str) -> (text: String)
    ensures
        text@ == head@ + middle@ + tail@,
{
    let mut text = head.to_owned();
    text.append(middle);
    text.append(tail);
    text
}

impl FlowError {
    /// The stage at which the error arose.
    pub fn kind(&self) -> (k: ErrorKind)
        ensures
            k == self@.kind(),
    {
        match self {
            FlowError::FlowUnreadable { .. } => ErrorKind::LoadError,
            FlowError::FlowMalformed { .. } => ErrorKind::LoadError,
            FlowError::UnknownKind { .. } => ErrorKind::LoadError,
            FlowError::RuleFileUnreadable { .. } => ErrorKind::ResolutionError,
            FlowError::MalformedRules { .. } => ErrorKind::ResolutionError,
            FlowError::MissingInput { .. } => ErrorKind::ResolutionError,
            FlowError::ReservedIdentifier { .. } => ErrorKind::BuildError,
            FlowError::DanglingEdge { .. } => ErrorKind::BuildError,
        }
    }

    /// The diagnostic text of the error.
    pub fn message(&self) -> (text: String)
        ensures
            text@ == self@.message(),
    {
        match self {
            FlowError::FlowUnreadable { path } => join2("cannot read flow file ", path.as_str()),
            FlowError::FlowMalformed { path } => join2("malformed flow file ", path.as_str()),
            FlowError::UnknownKind { unit, kind } => {
                let mut text = join3("unit ", unit.as_str(), ": unknown kind ");
                text.append(kind.as_str());
                text
            },
            FlowError::RuleFileUnreadable { unit, path } => {
                let mut text = join3("unit ", unit.as_str(), ": cannot read rule file ");
                text.append(path.as_str());
                text
            },
            FlowError::MalformedRules { unit, path } => {
                let mut text = join3("unit ", unit.as_str(), ": malformed rules in ");
                text.append(path.as_str());
                text
            },
            FlowError::MissingInput { unit } => join3(
                "unit ",
                unit.as_str(),
                ": expression declares no input field",
            ),
            FlowError::ReservedIdentifier { unit } => join3(
                "unit ",
                unit.as_str(),
                ": identifier is reserved",
            ),
            FlowError::DanglingEdge { source, target } => {
                let mut text = join3("edge ", source.as_str(), " -> ");
                text.append(target.as_str());
                text.append(": endpoint names no node");
                text
            },
        }
    }
}

} // verus!
