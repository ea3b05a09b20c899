//! Recognising a scan report and finding the files it refers to.

use vstd::prelude::*;
use crate::scanners::parsers::checkmarx::{
    CheckmarxCliParser, CheckmarxWebParser, CheckmarxXmlParser,
};
use crate::scanners::parsers::sarif::SarifParser;
use crate::scanners::parsers::semgrep::SemgrepParser;
use crate::text::strings;

pub mod checkmarx;
pub mod route;
pub mod sarif;
pub mod semgrep;

verus! {

/// What a report yields: the files it refers to and the scanner that wrote it.
#[derive(Debug)]
pub struct ParseResult {
    pub paths: Vec<String>,
    pub scanner: String,
}

/// The content of a [`ParseResult`]: the paths in report order, duplicates
/// included, and the scanner's canonical name.
pub struct ParseResultView {
    pub paths: Seq<Seq<char>>,
    pub scanner: Seq<char>,
}

impl View for ParseResult {
    type V = ParseResultView;

    open spec fn view(&self) -> ParseResultView {
        ParseResultView { paths: strings(self.paths@), scanner: self.scanner@ }
    }
}

/// The content of a result that may be absent.
pub open spec fn result_view(out: Option<ParseResult>) -> Option<ParseResultView> {
    match out {
        Some(r) => Some(r@),
        None => None,
    }
}

/// One report format: how to recognise it and how to read it.
pub trait ScanParser {
    /// Whether `input` looks like a report of this format.
    spec fn detects(&self, input: Seq<char>) -> bool;

    /// What a report of this format yields, or nothing where `input` cannot be
    /// read as one.
    spec fn parsed(&self, input: Seq<char>) -> Option<ParseResultView>;

    /// The name of the format.
    spec fn name(&self) -> Seq<char>;

    fn detect(&self, input: &str) -> (hit: bool)
        ensures
            hit == self.detects(input@),
    ;

    fn parse(&self, input: &str) -> (out: Option<ParseResult>)
        ensures
            result_view(out) == self.parsed(input@),
    ;

    fn scanner_name(&self) -> (name: &str)
        ensures
            name@ == self.name(),
    ;
}

/// Any of the supported formats.
pub enum Detector {
    Semgrep(SemgrepParser),
    Sarif(SarifParser),
    CheckmarxCli(CheckmarxCliParser),
    CheckmarxWeb(CheckmarxWebParser),
    CheckmarxXml(CheckmarxXmlParser),
}

impl ScanParser for Detector {
    open spec fn detects(&self, input: Seq<char>) -> bool {
        match self {
            Detector::Semgrep(p) => p.detects(input),
            Detector::Sarif(p) => p.detects(input),
            Detector::CheckmarxCli(p) => p.detects(input),
            Detector::CheckmarxWeb(p) => p.detects(input),
            Detector::CheckmarxXml(p) => p.detects(input),
        }
    }

    open spec fn parsed(&self, input: Seq<char>) -> Option<ParseResultView> {
        match self {
            Detector::Semgrep(p) => p.parsed(input),
            Detector::Sarif(p) => p.parsed(input),
            Detector::CheckmarxCli(p) => p.parsed(input),
            Detector::CheckmarxWeb(p) => p.parsed(input),
            Detector::CheckmarxXml(p) => p.parsed(input),
        }
    }

    open spec fn name(&self) -> Seq<char> {
        match self {
            Detector::Semgrep(p) => p.name(),
            Detector::Sarif(p) => p.name(),
            Detector::CheckmarxCli(p) => p.name(),
            Detector::CheckmarxWeb(p) => p.name(),
            Detector::CheckmarxXml(p) => p.name(),
        }
    }

    fn detect(&self, input: &str) -> (hit: bool) {
        match self {
            Detector::Semgrep(p) => p.detect(input),
            Detector::Sarif(p) => p.detect(input),
            Detector::CheckmarxCli(p) => p.detect(input),
            Detector::CheckmarxWeb(p) => p.detect(input),
            Detector::CheckmarxXml(p) => p.detect(input),
        }
    }

    fn parse(&self, input: &str) -> (out: Option<ParseResult>) {
        match self {
            Detector::Semgrep(p) => p.parse(input),
            Detector::Sarif(p) => p.parse(input),
            Detector::CheckmarxCli(p) => p.parse(input),
            Detector::CheckmarxWeb(p) => p.parse(input),
            Detector::CheckmarxXml(p) => p.parse(input),
        }
    }

    fn scanner_name(&self) -> (name: &str) {
        match self {
            Detector::Semgrep(p) => p.scanner_name(),
            Detector::Sarif(p) => p.scanner_name(),
            Detector::CheckmarxCli(p) => p.scanner_name(),
            Detector::CheckmarxWeb(p) => p.scanner_name(),
            Detector::CheckmarxXml(p) => p.scanner_name(),
        }
    }
}

/// The order in which the formats are tried: the loose textual signature of
/// Semgrep first, then the structural ones.
pub open spec fn priority_order() -> Seq<Detector> {
    seq![
        Detector::Semgrep(SemgrepParser),
        Detector::Sarif(SarifParser),
        Detector::CheckmarxCli(CheckmarxCliParser),
        Detector::CheckmarxWeb(CheckmarxWebParser),
        Detector::CheckmarxXml(CheckmarxXmlParser),
    ]
}

/// What is said of a report that no format yields a result for.
pub open spec fn unsupported_message() -> Seq<char> {
    "Unsupported scan report format. Please check if your scanner is supported. Supported formats: JSON (Semgrep, SARIF, Checkmarx), XML (Checkmarx)."@
}

/// The first of `parsers` that recognises `input`.
pub open spec fn first_detecting(parsers: Seq<Detector>, input: Seq<char>) -> Option<Detector>
    decreases parsers.len(),
{
    if parsers.len() == 0 {
        None
    } else if parsers[0].detects(input) {
        Some(parsers[0])
    } else {
        first_detecting(parsers.drop_first(), input)
    }
}

/// The result of the first of `parsers` that both recognises `input` and
/// reads it.
pub open spec fn first_result(parsers: Seq<Detector>, input: Seq<char>) -> Option<ParseResultView>
    decreases parsers.len(),
{
    if parsers.len() == 0 {
        None
    } else if parsers[0].detects(input) && parsers[0].parsed(input) is Some {
        parsers[0].parsed(input)
    } else {
        first_result(parsers.drop_first(), input)
    }
}

/// The formats, in the order in which they are tried.
pub struct ScanParserFactory {
    parsers: Vec<Detector>,
}

impl ScanParserFactory {
    /// The formats in the order in which they are tried.
    pub closed spec fn order(&self) -> Seq<Detector> {
        self.parsers@
    }

    pub fn new() -> (factory: Self)
        ensures
            factory.order() == priority_order(),
    {
        let mut parsers: Vec<Detector> = Vec::new();
        parsers.push(Detector::Semgrep(SemgrepParser));
        parsers.push(Detector::Sarif(SarifParser));
        parsers.push(Detector::CheckmarxCli(CheckmarxCliParser));
        parsers.push(Detector::CheckmarxWeb(CheckmarxWebParser));
        parsers.push(Detector::CheckmarxXml(CheckmarxXmlParser));
        assert(parsers@ =~= priority_order());
        Self { parsers }
    }

    /// The first format that recognises `input`.
    pub fn find_parser(&self, input: &str) -> (found: Option<&Detector>)
        ensures
            match found {
                Some(parser) => first_detecting(self.order(), input@) == Some(*parser),
                None => first_detecting(self.order(), input@) is None,
            },
    {
        let mut i: usize = 0;
        assert(self.parsers@.skip(0) =~= self.parsers@);
        while i < self.parsers.len()
            invariant
                i <= self.parsers@.len(),
                first_detecting(self.parsers@, input@) == first_detecting(
                    self.parsers@.skip(i as int),
                    input@,
                ),
            decreases self.parsers@.len() - i,
        {
            assert(self.parsers@.skip(i as int).drop_first() =~= self.parsers@.skip(i as int + 1));
            if self.parsers[i].detect(input) {
                return Some(&self.parsers[i]);
            }
            i = i + 1;
        }
        None
    }

    /// Reads a report of any supported format: the result of the first
    /// format that recognises the text and reads it. A format that recognises
    /// the text and cannot read it is passed over.
    pub fn parse_scan_data(&self, input: &str) -> (out: Result<ParseResult, String>)
        ensures
            match out {
                Ok(result) => first_result(self.order(), input@) == Some(result@),
                Err(message) => first_result(self.order(), input@) is None && message@
                    == unsupported_message(),
            },
            first_detecting(self.order(), input@) is None ==> out is Err,
    {
        let mut i: usize = 0;
        assert(self.parsers@.skip(0) =~= self.parsers@);
        while i < self.parsers.len()
            invariant
                i <= self.parsers@.len(),
                first_result(self.parsers@, input@) == first_result(
                    self.parsers@.skip(i as int),
                    input@,
                ),
            decreases self.parsers@.len() - i,
        {
            assert(self.parsers@.skip(i as int).drop_first() =~= self.parsers@.skip(i as int + 1));
            if self.parsers[i].detect(input) {
                match self.parsers[i].parse(input) {
                    Some(result) => {
                        proof {
                            lemma_result_needs_detection(self.parsers@, input@);
                        }
                        return Ok(result);
                    },
                    None => {},
                }
            }
            i = i + 1;
        }
        Err(
            "Unsupported scan report format. Please check if your scanner is supported. Supported formats: JSON (Semgrep, SARIF, Checkmarx), XML (Checkmarx).".to_owned(),
        )
    }
}

/// A report yields a result only where some format recognises it.
pub proof fn lemma_result_needs_detection(parsers: Seq<Detector>, input: Seq<char>)
    requires
        first_result(parsers, input) is Some,
    ensures
        first_detecting(parsers, input) is Some,
    decreases parsers.len(),
{
    if parsers.len() > 0 && !parsers[0].detects(input) {
        lemma_result_needs_detection(parsers.drop_first(), input);
    }
}

/// A report that no format recognises yields no result, whatever the order
/// of the formats.
pub proof fn lemma_unrecognized_is_rejected(parsers: Seq<Detector>, input: Seq<char>)
    requires
        forall|i: int| 0 <= i < parsers.len() ==> !(#[trigger] parsers[i]).detects(input),
    ensures
        first_result(parsers, input) is None,
        first_detecting(parsers, input) is None,
    decreases parsers.len(),
{
    if parsers.len() > 0 {
        assert forall|i: int| 0 <= i < parsers.drop_first().len() implies !(
        #[trigger] parsers.drop_first()[i]).detects(input) by {
            assert(parsers.drop_first()[i] == parsers[i + 1]);
        }
        lemma_unrecognized_is_rejected(parsers.drop_first(), input);
    }
}

/// The result of a report names one of the scanners `semgrep`, `snyk`,
/// `codeql` and `checkmarx`.
pub proof fn lemma_scanner_is_canonical(input: Seq<char>)
    requires
        first_result(priority_order(), input) is Some,
    ensures
        ({
            let scanner = first_result(priority_order(), input)->Some_0.scanner;
            scanner == "semgrep"@ || scanner == "snyk"@ || scanner == "codeql"@ || scanner
                == "checkmarx"@
        }),
{
    reveal_with_fuel(first_result, 6);
}

} // verus!
