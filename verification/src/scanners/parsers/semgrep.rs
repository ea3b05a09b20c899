//! Semgrep's JSON report.

use vstd::prelude::*;
use crate::json::{document, parse, Json, JsonValue};
use crate::scanners::parsers::route::{collect, route_texts, Step};
use crate::scanners::parsers::{ParseResult, ParseResultView, ScanParser};
use crate::text::{contains, has_substring, strings};

verus! {

pub struct SemgrepParser;

/// Where a report keeps its findings: `results[]`.
pub open spec fn semgrep_route() -> Seq<Step> {
    seq![Step::Each("results")]
}

/// The `path` of every finding under `results`, in report order.
pub open spec fn semgrep_paths(doc: JsonValue) -> Seq<Seq<char>> {
    route_texts(doc, semgrep_route(), "path"@, false)
}

impl SemgrepParser {
    /// The result for a report that has been read as JSON.
    pub fn extract(doc: &Json) -> (out: ParseResult)
        ensures
            out@ == (ParseResultView { paths: semgrep_paths(doc@), scanner: "semgrep"@ }),
    {
        let mut steps: Vec<Step> = Vec::new();
        steps.push(Step::Each("results"));
        assert(steps@.skip(0) =~= semgrep_route());
        let mut paths: Vec<String> = Vec::new();
        assert(strings(paths@) =~= Seq::<Seq<char>>::empty());
        collect(doc, &steps, 0, "path", false, &mut paths);
        assert(strings(paths@) =~= semgrep_paths(doc@));
        ParseResult { paths, scanner: "semgrep".to_owned() }
    }
}

impl ScanParser for SemgrepParser {
    /// The text holds `semgrep.dev` somewhere.
    open spec fn detects(&self, input: Seq<char>) -> bool {
        has_substring(input, "semgrep.dev"@)
    }

    open spec fn parsed(&self, input: Seq<char>) -> Option<ParseResultView> {
        match document(input) {
            Some(doc) => Some(ParseResultView { paths: semgrep_paths(doc), scanner: "semgrep"@ }),
            None => None,
        }
    }

    open spec fn name(&self) -> Seq<char> {
        "semgrep"@
    }

    fn detect(&self, input: &str) -> (hit: bool) {
        contains(input, "semgrep.dev")
    }

    fn parse(&self, input: &str) -> (out: Option<ParseResult>) {
        match parse(input) {
            Some(doc) => Some(SemgrepParser::extract(&doc)),
            None => None,
        }
    }

    fn scanner_name(&self) -> (name: &str) {
        "semgrep"
    }
}

} // verus!
