//! Tabular rules: the format of a rule file and the rows it holds.

use crate::model::{find_file, lookup, Rule, RuleView, SourceFile, SourceFileView};
use crate::text::{ends_with, find_ext, lemma_dotted_suffix, lemma_tail_len};
use vstd::prelude::*;
use vstd::string::*;

verus! {

/// The format of a tabular rule file, told by the suffix of its path.
#[derive(Debug, Clone, Copy, PartialEq, Eq, Structural)]
pub enum RuleFormat {
    /// A path that ends in `.json`.
    Json,
    /// A path that ends in `.csv`.
    Csv,
    /// Any other path, with or without an extension.
    Unknown,
}

/// Why the rows of a rule file could not be had.
#[derive(Debug, Clone, Copy, PartialEq, Eq, Structural)]
pub enum RulesError {
    /// The file is missing or cannot be read.
    Unreadable,
    /// The file does not hold rule rows in its format.
    Malformed,
}

/// The error type of the `csv` crate, carried from its reader to the place
/// where it is mapped. Nothing is known of what it holds.
#[verifier::external_type_specification]
#[verifier::external_body]
pub struct ExCsvError(csv::Error);

/// The error type of `serde_json`, carried from its parser to the place where
/// it is mapped. Nothing is known of what it holds.
#[verifier::external_type_specification]
#[verifier::external_body]
pub struct ExJsonError(serde_json::Error);

/// The rows that the `csv` crate reads from `text`: the first record names the
/// fields, every later record is one row. `None` where it reports an error.
pub uninterp spec fn csv_rows(text: Seq<char>) -> Option<Seq<Map<Seq<char>, Seq<char>>>>;

/// The rows that `serde_json` reads from `text`, a list of objects with text
/// values. `None` where it reports an error.
pub uninterp spec fn json_rows(text: Seq<char>) -> Option<Seq<Map<Seq<char>, Seq<char>>>>;

/// Calls `csv::Reader::from_reader` on the bytes of `text` and collects what
/// `into_deserialize` yields, up to its first error. The contract only names
/// the outcome: the same text always gives the same rows or fails.
#[verifier::external_body]
fn parse_csv(text: &str) -> (parsed: Result<Vec<Rule>, csv::Error>)
    ensures
        match parsed {
            Ok(rows) => csv_rows(text@) == Some(rows.deep_view()),
            Err(_) => csv_rows(text@) is None,
        },
{
    csv::Reader::from_reader(text.as_bytes()).into_deserialize().collect()
}

/// Calls `serde_json::from_str` for a list of rows. The contract only names
/// the outcome: the same text always gives the same rows or fails.
#[verifier::external_body]
fn parse_json(text: &str) -> (parsed: Result<Vec<Rule>, serde_json::Error>)
    ensures
        match parsed {
            Ok(rows) => json_rows(text@) == Some(rows.deep_view()),
            Err(_) => json_rows(text@) is None,
        },
{
    serde_json::from_str(text)
}

/// The format that the suffix of `uri` tells.
pub open spec fn rule_format_of(uri: Seq<char>) -> RuleFormat {
    if ends_with(uri, ".json"@) {
        RuleFormat::Json
    } else if ends_with(uri, ".csv"@) {
        RuleFormat::Csv
    } else {
        RuleFormat::Unknown
    }
}

/// The rows that a file of `format` with content `text` holds.
pub open spec fn rows_in(format: RuleFormat, text: Seq<char>) -> Option<Seq<RuleView>> {
    match format {
        RuleFormat::Json => json_rows(text),
        RuleFormat::Csv => csv_rows(text),
        RuleFormat::Unknown => Some(Seq::empty()),
    }
}

/// The rows of the rule location `uri`, given the files that could be read.
pub open spec fn rules_of(uri: Seq<char>, files: Seq<SourceFileView>) -> Result<
    Seq<RuleView>,
    RulesError,
> {
    if rule_format_of(uri) == RuleFormat::Unknown {
        Ok(Seq::empty())
    } else {
        match lookup(files, uri) {
            None => Err(RulesError::Unreadable),
            Some(text) => match rows_in(rule_format_of(uri), text) {
                None => Err(RulesError::Malformed),
                Some(rows) => Ok(rows),
            },
        }
    }
}

/// Tells the format of the rule file at `uri` by its extension, case
/// sensitively. A path without an extension has no known format.
pub fn rule_format(uri: &str) -> (format: RuleFormat)
    ensures
        format == rule_format_of(uri@),
{
    let ext = find_ext(uri);
    proof {
        reveal_strlit(".json");
        reveal_strlit("json");
        reveal_strlit(".csv");
        reveal_strlit("csv");
        assert(".json"@ =~= seq!['.'] + "json"@);
        assert(".csv"@ =~= seq!['.'] + "csv"@);
        assert(!"json"@.contains('.'));
        assert(!"csv"@.contains('.'));
        lemma_tail_len(uri@);
        lemma_dotted_suffix(uri@, "json"@);
        lemma_dotted_suffix(uri@, "csv"@);
    }
    if ext.as_str().unicode_len() == uri.unicode_len() {
        RuleFormat::Unknown
    } else if ext == "json".to_owned() {
        RuleFormat::Json
    } else if ext == "csv".to_owned() {
        RuleFormat::Csv
    } else {
        RuleFormat::Unknown
    }
}

/// Reads the rows of a CSV rule file from its content. The first record names
/// the fields, and each later record gives one row; a record of another length
/// than the first makes the file malformed.
pub fn read_rules_csv(text: &str) -> (rows: Result<Vec<Rule>, RulesError>)
    ensures
        match rows {
            Ok(rows) => csv_rows(text@) == Some(rows.deep_view()),
            Err(e) => e == RulesError::Malformed && csv_rows(text@) is None,
        },
{
    match parse_csv(text) {
        Ok(rows) => Ok(rows),
        Err(_) => Err(RulesError::Malformed),
    }
}

/// Reads the rows of a JSON rule file from its content: a list of objects
/// whose values are text.
pub fn read_rules_json(text: &str) -> (rows: Result<Vec<Rule>, RulesError>)
    ensures
        match rows {
            Ok(rows) => json_rows(text@) == Some(rows.deep_view()),
            Err(e) => e == RulesError::Malformed && json_rows(text@) is None,
        },
{
    match parse_json(text) {
        Ok(rows) => Ok(rows),
        Err(_) => Err(RulesError::Malformed),
    }
}

/// Reads the rows of the rule file at `uri`. A path that ends in neither
/// `.json` nor `.csv` gives no rows and needs no file; otherwise the file must
/// be among `files` and hold rows in its format.
pub fn read_rules(uri: &str, files: &Vec<SourceFile>) -> (rows: Result<Vec<Rule>, RulesError>)
    ensures
        match rows {
            Ok(rows) => rules_of(uri@, files.deep_view()) == Ok::<Seq<RuleView>, RulesError>(
                rows.deep_view(),
            ),
            Err(e) => rules_of(uri@, files.deep_view()) == Err::<Seq<RuleView>, RulesError>(e),
        },
{
    let format = rule_format(uri);
    match format {
        RuleFormat::Unknown => {
            let rows: Vec<Rule> = Vec::new();
            assert(rows.deep_view() =~= Seq::empty());
            Ok(rows)
        },
        RuleFormat::Json => match find_file(files, uri) {
            None => Err(RulesError::Unreadable),
            Some(text) => read_rules_json(text.as_str()),
        },
        RuleFormat::Csv => match find_file(files, uri) {
            None => Err(RulesError::Unreadable),
            Some(text) => read_rules_csv(text.as_str()),
        },
    }
}

} // verus!
