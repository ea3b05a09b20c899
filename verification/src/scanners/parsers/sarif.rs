//! SARIF reports, as Snyk Code and CodeQL write them.

use vstd::prelude::*;
use crate::json::{
    contents, document, get_in, member_of, parse, text_of, view_of_ref, Json, JsonValue,
};
use crate::scanners::parsers::route::{collect, route_texts, Step};
use crate::scanners::parsers::{result_view, ParseResult, ParseResultView, ScanParser};
use crate::text::{contains, has_substring, same, strings};

verus! {

pub struct SarifParser;

/// The text names a SARIF schema: it is JSON whose `$schema` member is a string
/// that holds `sarif`.
pub open spec fn names_sarif_schema(input: Seq<char>) -> bool {
    match document(input) {
        Some(doc) => match doc.text_member("$schema"@) {
            Some(schema) => has_substring(schema, "sarif"@),
            None => false,
        },
        None => false,
    }
}

/// The first of the report's runs.
pub open spec fn first_run(doc: JsonValue) -> Option<JsonValue> {
    match doc.array_member("runs"@) {
        Some(runs) => if runs.len() > 0 {
            Some(runs[0])
        } else {
            None
        },
        None => None,
    }
}

/// The name of the tool that made the first run: `runs[0].tool.driver.name`.
pub open spec fn tool_name(doc: JsonValue) -> Option<Seq<char>> {
    text_of(member_of(member_of(member_of(first_run(doc), "tool"@), "driver"@), "name"@))
}

/// The scanner that a tool name stands for.
pub open spec fn scanner_of_tool(tool: Option<Seq<char>>) -> Option<Seq<char>> {
    if tool == Some("SnykCode"@) {
        Some("snyk"@)
    } else if tool == Some("CodeQL"@) {
        Some("codeql"@)
    } else {
        None
    }
}

/// Where a report keeps its file references:
/// `runs[].results[].locations[].physicalLocation.artifactLocation`.
pub open spec fn sarif_route() -> Seq<Step> {
    seq![
        Step::Each("runs"),
        Step::Each("results"),
        Step::Each("locations"),
        Step::Member("physicalLocation"),
        Step::Member("artifactLocation"),
    ]
}

/// The `uri` of every location of every result of every run, in report order.
pub open spec fn sarif_paths(doc: JsonValue) -> Seq<Seq<char>> {
    route_texts(doc, sarif_route(), "uri"@, false)
}

/// What a SARIF document yields: nothing unless its tool is one of the two
/// supported.
pub open spec fn sarif_result(doc: JsonValue) -> Option<ParseResultView> {
    match scanner_of_tool(tool_name(doc)) {
        Some(scanner) => Some(ParseResultView { paths: sarif_paths(doc), scanner }),
        None => None,
    }
}

impl SarifParser {
    /// The name of the tool that made the first run.
    pub fn tool(doc: &Json) -> (name: Option<&str>)
        ensures
            match name {
                Some(n) => tool_name(doc@) == Some(n@),
                None => tool_name(doc@) is None,
            },
    {
        let run: Option<&Json> = match doc.get_array("runs") {
            Some(runs) => if runs.len() > 0 {
                assert(contents(runs@)[0] == runs@[0]@);
                Some(&runs[0])
            } else {
                None
            },
            None => None,
        };
        assert(view_of_ref(run) == first_run(doc@));
        match get_in(get_in(get_in(run, "tool"), "driver"), "name") {
            Some(name) => name.as_str(),
            None => None,
        }
    }

    /// The result for a report that has been read as JSON.
    pub fn extract(doc: &Json) -> (out: Option<ParseResult>)
        ensures
            result_view(out) == sarif_result(doc@),
    {
        let scanner = match SarifParser::tool(doc) {
            Some(name) => if same(name, "SnykCode") {
                "snyk".to_owned()
            } else if same(name, "CodeQL") {
                "codeql".to_owned()
            } else {
                return None;
            },
            None => {
                return None;
            },
        };
        let mut steps: Vec<Step> = Vec::new();
        steps.push(Step::Each("runs"));
        steps.push(Step::Each("results"));
        steps.push(Step::Each("locations"));
        steps.push(Step::Member("physicalLocation"));
        steps.push(Step::Member("artifactLocation"));
        assert(steps@.skip(0) =~= sarif_route());
        let mut paths: Vec<String> = Vec::new();
        assert(strings(paths@) =~= Seq::<Seq<char>>::empty());
        collect(doc, &steps, 0, "uri", false, &mut paths);
        assert(strings(paths@) =~= sarif_paths(doc@));
        Some(ParseResult { paths, scanner })
    }
}

impl ScanParser for SarifParser {
    open spec fn detects(&self, input: Seq<char>) -> bool {
        names_sarif_schema(input)
    }

    open spec fn parsed(&self, input: Seq<char>) -> Option<ParseResultView> {
        match document(input) {
            Some(doc) => sarif_result(doc),
            None => None,
        }
    }

    open spec fn name(&self) -> Seq<char> {
        "sarif"@
    }

    fn detect(&self, input: &str) -> (hit: bool) {
        match parse(input) {
            Some(doc) => match doc.get_str("$schema") {
                Some(schema) => contains(schema, "sarif"),
                None => false,
            },
            None => false,
        }
    }

    fn parse(&self, input: &str) -> (out: Option<ParseResult>) {
        match parse(input) {
            Some(doc) => SarifParser::extract(&doc),
            None => None,
        }
    }

    fn scanner_name(&self) -> (name: &str) {
        "sarif"
    }
}

/// A SARIF report made by a tool other than Snyk Code and CodeQL, or one that
/// names no tool, yields no result.
pub proof fn lemma_other_tool_yields_nothing(input: Seq<char>)
    requires
        document(input) matches Some(doc) ==> tool_name(doc) != Some("SnykCode"@) && tool_name(doc)
            != Some("CodeQL"@),
    ensures
        SarifParser.parsed(input) is None,
{
}

/// A result of the SARIF parser names `snyk` or `codeql`, never another
/// scanner.
pub proof fn lemma_sarif_scanner(input: Seq<char>)
    requires
        SarifParser.parsed(input) is Some,
    ensures
        SarifParser.parsed(input)->Some_0.scanner == "snyk"@ || SarifParser.parsed(
            input,
        )->Some_0.scanner == "codeql"@,
{
}

} // verus!
