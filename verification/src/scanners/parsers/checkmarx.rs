//! Checkmarx reports: the JSON that the command line tool and the web
//! application write, and the XML export.

use vstd::prelude::*;
use crate::json::{document, parse, Json, JsonValue};
use crate::scanners::parsers::route::{collect, route_texts, Step};
use crate::scanners::parsers::{ParseResult, ParseResultView, ScanParser};
use crate::text::{
    contains, has_substring, lemma_strings_push, same, starts_with, strings, trim,
    trim_start_matches, trimmed, without_leading,
};
use crate::xml::{
    attribute_view, document_events, next_event, open_reader, pending, AttributeView, ElementView,
    EventView, XmlElement, XmlEvent,
};

verus! {

pub struct CheckmarxCliParser;

pub struct CheckmarxWebParser;

pub struct CheckmarxXmlParser;

/// The document has the three members that mark a report of the command line
/// tool.
pub open spec fn has_cli_members(doc: JsonValue) -> bool {
    &&& doc.member("totalCount"@) is Some
    &&& doc.member("results"@) is Some
    &&& doc.member("scanID"@) is Some
}

/// Where a report of the command line tool keeps its file references:
/// `results[].data.nodes[]`.
pub open spec fn cli_route() -> Seq<Step> {
    seq![Step::Each("results"), Step::Member("data"), Step::Each("nodes")]
}

/// The `fileName` of every node of every result, in report order, each
/// without its first character.
pub open spec fn cli_paths(doc: JsonValue) -> Seq<Seq<char>> {
    route_texts(doc, cli_route(), "fileName"@, true)
}

impl CheckmarxCliParser {
    /// The result for a report that has been read as JSON.
    pub fn extract(doc: &Json) -> (out: ParseResult)
        ensures
            out@ == (ParseResultView { paths: cli_paths(doc@), scanner: "checkmarx"@ }),
    {
        let mut steps: Vec<Step> = Vec::new();
        steps.push(Step::Each("results"));
        steps.push(Step::Member("data"));
        steps.push(Step::Each("nodes"));
        assert(steps@.skip(0) =~= cli_route());
        let mut paths: Vec<String> = Vec::new();
        assert(strings(paths@) =~= Seq::<Seq<char>>::empty());
        collect(doc, &steps, 0, "fileName", true, &mut paths);
        assert(strings(paths@) =~= cli_paths(doc@));
        ParseResult { paths, scanner: "checkmarx".to_owned() }
    }
}

impl ScanParser for CheckmarxCliParser {
    /// The text is JSON with the members `totalCount`, `results` and `scanID`.
    open spec fn detects(&self, input: Seq<char>) -> bool {
        match document(input) {
            Some(doc) => has_cli_members(doc),
            None => false,
        }
    }

    open spec fn parsed(&self, input: Seq<char>) -> Option<ParseResultView> {
        match document(input) {
            Some(doc) => Some(ParseResultView { paths: cli_paths(doc), scanner: "checkmarx"@ }),
            None => None,
        }
    }

    open spec fn name(&self) -> Seq<char> {
        "checkmarx-cli"@
    }

    fn detect(&self, input: &str) -> (hit: bool) {
        match parse(input) {
            Some(doc) => doc.get("totalCount").is_some() && doc.get("results").is_some() && doc.get(
                "scanID",
            ).is_some(),
            None => false,
        }
    }

    fn parse(&self, input: &str) -> (out: Option<ParseResult>) {
        match parse(input) {
            Some(doc) => Some(CheckmarxCliParser::extract(&doc)),
            None => None,
        }
    }

    fn scanner_name(&self) -> (name: &str) {
        "checkmarx-cli"
    }
}

/// The document has the two members that mark a report of the web application.
pub open spec fn has_web_members(doc: JsonValue) -> bool {
    &&& doc.member("scanResults"@) is Some
    &&& doc.member("reportId"@) is Some
}

/// Where a report of the web application keeps its file references:
/// `scanResults.sast.languages[].queries[].vulnerabilities[].nodes[]`.
pub open spec fn web_route() -> Seq<Step> {
    seq![
        Step::Member("scanResults"),
        Step::Member("sast"),
        Step::Each("languages"),
        Step::Each("queries"),
        Step::Each("vulnerabilities"),
        Step::Each("nodes"),
    ]
}

/// The `fileName` of every node along the route, in report order, each without
/// its first character.
pub open spec fn web_paths(doc: JsonValue) -> Seq<Seq<char>> {
    route_texts(doc, web_route(), "fileName"@, true)
}

impl CheckmarxWebParser {
    /// The result for a report that has been read as JSON.
    pub fn extract(doc: &Json) -> (out: ParseResult)
        ensures
            out@ == (ParseResultView { paths: web_paths(doc@), scanner: "checkmarx"@ }),
    {
        let mut steps: Vec<Step> = Vec::new();
        steps.push(Step::Member("scanResults"));
        steps.push(Step::Member("sast"));
        steps.push(Step::Each("languages"));
        steps.push(Step::Each("queries"));
        steps.push(Step::Each("vulnerabilities"));
        steps.push(Step::Each("nodes"));
        assert(steps@.skip(0) =~= web_route());
        let mut paths: Vec<String> = Vec::new();
        assert(strings(paths@) =~= Seq::<Seq<char>>::empty());
        collect(doc, &steps, 0, "fileName", true, &mut paths);
        assert(strings(paths@) =~= web_paths(doc@));
        ParseResult { paths, scanner: "checkmarx".to_owned() }
    }
}

impl ScanParser for CheckmarxWebParser {
    /// The text is JSON with the members `scanResults` and `reportId`.
    open spec fn detects(&self, input: Seq<char>) -> bool {
        match document(input) {
            Some(doc) => has_web_members(doc),
            None => false,
        }
    }

    open spec fn parsed(&self, input: Seq<char>) -> Option<ParseResultView> {
        match document(input) {
            Some(doc) => Some(ParseResultView { paths: web_paths(doc), scanner: "checkmarx"@ }),
            None => None,
        }
    }

    open spec fn name(&self) -> Seq<char> {
        "checkmarx-web"@
    }

    fn detect(&self, input: &str) -> (hit: bool) {
        match parse(input) {
            Some(doc) => doc.get("scanResults").is_some() && doc.get("reportId").is_some(),
            None => false,
        }
    }

    fn parse(&self, input: &str) -> (out: Option<ParseResult>) {
        match parse(input) {
            Some(doc) => Some(CheckmarxWebParser::extract(&doc)),
            None => None,
        }
    }

    fn scanner_name(&self) -> (name: &str) {
        "checkmarx-web"
    }
}

/// A file name without the separators it begins with: first every leading
/// `/`, then every leading `\`.
pub open spec fn clean_path(file_name: Seq<char>) -> Seq<char> {
    without_leading(without_leading(file_name, '/'), '\\')
}

/// The path that one attribute contributes: the cleaned value of a
/// well-formed `FileName` attribute, unless nothing is left of it.
pub open spec fn attribute_paths(attribute: Option<AttributeView>) -> Seq<Seq<char>> {
    match attribute {
        Some(a) => if a.key == "FileName"@ && clean_path(a.value).len() > 0 {
            seq![clean_path(a.value)]
        } else {
            Seq::empty()
        },
        None => Seq::empty(),
    }
}

/// The paths that a list of attributes contributes, in order.
pub open spec fn attributes_paths(attributes: Seq<Option<AttributeView>>) -> Seq<Seq<char>>
    decreases attributes.len(),
{
    if attributes.len() == 0 {
        Seq::empty()
    } else {
        attributes_paths(attributes.drop_last()) + attribute_paths(attributes.last())
    }
}

/// The paths that one tag contributes: those of its attributes where it is a
/// `Result` element.
pub open spec fn element_paths(element: ElementView) -> Seq<Seq<char>> {
    if element.name == "Result"@ {
        attributes_paths(element.attributes)
    } else {
        Seq::empty()
    }
}

/// The paths that one event contributes.
pub open spec fn event_paths(event: EventView) -> Seq<Seq<char>> {
    match event {
        EventView::Start(e) => element_paths(e),
        EventView::Empty(e) => element_paths(e),
        _ => Seq::empty(),
    }
}

/// The paths of a document given as its events: those of every event before
/// the end, or nothing where the document ends in an error.
pub open spec fn events_paths(events: Seq<EventView>) -> Option<Seq<Seq<char>>>
    decreases events.len(),
{
    if events.len() == 0 {
        None
    } else {
        match events[0] {
            EventView::Eof => Some(Seq::empty()),
            EventView::Failure => None,
            event => match events_paths(events.drop_first()) {
                Some(rest) => Some(event_paths(event) + rest),
                None => None,
            },
        }
    }
}

/// `found` put in front of the paths of the rest of a document.
pub open spec fn paths_after(found: Seq<Seq<char>>, rest: Option<Seq<Seq<char>>>) -> Option<
    Seq<Seq<char>>,
> {
    match rest {
        Some(more) => Some(found + more),
        None => None,
    }
}

/// What an XML export yields.
pub open spec fn xml_result(input: Seq<char>) -> Option<ParseResultView> {
    match events_paths(document_events(input)) {
        Some(paths) => Some(ParseResultView { paths, scanner: "checkmarx"@ }),
        None => None,
    }
}

impl CheckmarxXmlParser {
    /// Appends to `paths` what the event contributes.
    pub fn note_event(event: &XmlEvent, paths: &mut Vec<String>)
        ensures
            strings(final(paths)@) == strings(old(paths)@) + event_paths(event@),
    {
        let ghost start = strings(paths@);
        match event {
            XmlEvent::Start(element) | XmlEvent::Empty(element) => {
                CheckmarxXmlParser::note_element(element, paths);
            },
            _ => {
                assert(start =~= start + Seq::<Seq<char>>::empty());
            },
        }
    }

    /// Appends to `paths` what the tag contributes.
    pub fn note_element(element: &XmlElement, paths: &mut Vec<String>)
        ensures
            strings(final(paths)@) == strings(old(paths)@) + element_paths(element@),
    {
        let ghost start = strings(paths@);
        if !same(element.name.as_str(), "Result") {
            assert(start =~= start + Seq::<Seq<char>>::empty());
            return ;
        }
        let ghost all = element@.attributes;
        let mut i: usize = 0;
        assert(start =~= start + attributes_paths(all.take(0)));
        while i < element.attributes.len()
            invariant
                i <= element.attributes@.len(),
                all == element@.attributes,
                all.len() == element.attributes@.len(),
                strings(paths@) == start + attributes_paths(all.take(i as int)),
            decreases element.attributes@.len() - i,
        {
            let ghost done = attributes_paths(all.take(i as int));
            proof {
                assert(all.take(i as int + 1).drop_last() =~= all.take(i as int));
                assert(all.take(i as int + 1).last() == attribute_view(
                    element.attributes@[i as int],
                ));
            }
            match &element.attributes[i] {
                Some(attribute) => {
                    if same(attribute.key.as_str(), "FileName") {
                        let clean = trim_start_matches(
                            trim_start_matches(attribute.value.as_str(), '/'),
                            '\\',
                        );
                        if clean.unicode_len() > 0 {
                            let owned = clean.to_owned();
                            proof {
                                lemma_strings_push(paths@, owned);
                                assert((start + done) + seq![owned@] =~= (start + done).push(
                                    owned@,
                                ));
                                assert((start + done) + seq![owned@] =~= start + (done
                                    + seq![owned@]));
                            }
                            paths.push(owned);
                        } else {
                            assert(start + done =~= start + (done + Seq::<Seq<char>>::empty()));
                        }
                    } else {
                        assert(start + done =~= start + (done + Seq::<Seq<char>>::empty()));
                    }
                },
                None => {
                    assert(start + done =~= start + (done + Seq::<Seq<char>>::empty()));
                },
            }
            i = i + 1;
        }
        assert(all.take(i as int) =~= all);
    }

    /// Reads the export event by event and gathers the file names of its
    /// `Result` elements.
    fn parse_xml_content(&self, input: &str) -> (out: Option<ParseResult>)
        ensures
            crate::scanners::parsers::result_view(out) == xml_result(input@),
    {
        let mut paths: Vec<String> = Vec::new();
        let mut reader = open_reader(input);
        assert(strings(paths@) =~= Seq::<Seq<char>>::empty());
        assert(events_paths(document_events(input@)) == paths_after(
            strings(paths@),
            events_paths(pending(reader)),
        )) by {
            let rest = events_paths(pending(reader));
            if rest is Some {
                assert(Seq::<Seq<char>>::empty() + rest->Some_0 =~= rest->Some_0);
            }
        }
        loop
            invariant
                events_paths(document_events(input@)) == paths_after(
                    strings(paths@),
                    events_paths(pending(reader)),
                ),
            decreases pending(reader).len(),
        {
            let ghost before = pending(reader);
            let ghost found = strings(paths@);
            let event = next_event(&mut reader);
            match event {
                XmlEvent::Eof => {
                    assert(found + Seq::<Seq<char>>::empty() =~= found);
                    return Some(ParseResult { paths, scanner: "checkmarx".to_owned() });
                },
                XmlEvent::Failure => {
                    return None;
                },
                _ => {
                    CheckmarxXmlParser::note_event(&event, &mut paths);
                    proof {
                        let rest = events_paths(pending(reader));
                        if rest is Some {
                            assert((found + event_paths(event@)) + rest->Some_0 =~= found + (
                            event_paths(event@) + rest->Some_0));
                        }
                    }
                },
            }
        }
    }
}

impl ScanParser for CheckmarxXmlParser {
    /// The text, white space at its ends aside, begins with `<?xml`, and it
    /// holds `<CxXMLResults` somewhere.
    open spec fn detects(&self, input: Seq<char>) -> bool {
        "<?xml"@.is_prefix_of(trimmed(input)) && has_substring(input, "<CxXMLResults"@)
    }

    open spec fn parsed(&self, input: Seq<char>) -> Option<ParseResultView> {
        xml_result(input)
    }

    open spec fn name(&self) -> Seq<char> {
        "checkmarx-xml"@
    }

    fn detect(&self, input: &str) -> (hit: bool) {
        starts_with(trim(input), "<?xml") && contains(input, "<CxXMLResults")
    }

    fn parse(&self, input: &str) -> (out: Option<ParseResult>) {
        self.parse_xml_content(input)
    }

    fn scanner_name(&self) -> (name: &str) {
        "checkmarx-xml"
    }
}

} // verus!
