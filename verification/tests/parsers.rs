use corgea::json::{parse, Json, JsonField};
use corgea::scanners::parsers::checkmarx::{
    CheckmarxCliParser, CheckmarxWebParser, CheckmarxXmlParser,
};
use corgea::scanners::parsers::sarif::SarifParser;
use corgea::scanners::parsers::semgrep::SemgrepParser;
use corgea::scanners::parsers::{Detector, ScanParser, ScanParserFactory};
use corgea::xml::{XmlAttribute, XmlElement, XmlEvent};

const UNSUPPORTED: &str = "Unsupported scan report format. Please check if your scanner is supported. Supported formats: JSON (Semgrep, SARIF, Checkmarx), XML (Checkmarx).";

const SEMGREP: &str = r#"{"version":"1.0","results":[
    {"check_id":"a","path":"src/app.py","extra":{"metadata":{"source":"https://semgrep.dev/r/a"}}},
    {"check_id":"b","path":"src/db.py"},
    {"check_id":"c","path":"src/app.py"},
    {"check_id":"d","path":7},
    {"check_id":"e"}]}"#;

fn sarif(tool: &str) -> String {
    format!(
        r#"{{"$schema":"https://json.schemastore.org/sarif-2.1.0.json","version":"2.1.0","runs":[
        {{"tool":{{"driver":{{"name":"{}"}}}},"results":[
            {{"ruleId":"r1","locations":[
                {{"physicalLocation":{{"artifactLocation":{{"uri":"web/index.js"}}}}}},
                {{"physicalLocation":{{"artifactLocation":{{"uri":"web/auth.js"}}}}}}]}},
            {{"ruleId":"r2","locations":[
                {{"physicalLocation":{{"artifactLocation":{{"uri":"web/index.js"}}}}}},
                {{"physicalLocation":{{}}}}]}},
            {{"ruleId":"r3"}}]}},
        {{"tool":{{"driver":{{"name":"Other"}}}},"results":[
            {{"locations":[{{"physicalLocation":{{"artifactLocation":{{"uri":"api/main.go"}}}}}}]}}]}}]}}"#,
        tool
    )
}

const CHECKMARX_CLI: &str = r#"{"totalCount":2,"scanID":"abc","results":[
    {"type":"sast","data":{"nodes":[{"fileName":"/src/app.py"},{"fileName":"/src/util.py"}]}},
    {"type":"sast","data":{"nodes":[{"fileName":"/src/app.py"},{"fileName":5},{"line":1}]}},
    {"type":"sca","data":{}},
    {"type":"kics"}]}"#;

const CHECKMARX_WEB: &str = r#"{"reportId":"r-1","scanResults":{"sast":{"languages":[
    {"languageName":"Python","queries":[
        {"queryName":"SQLi","vulnerabilities":[
            {"nodes":[{"fileName":"/src/app.py"},{"fileName":"/src/db.py"}]},
            {"nodes":[{"fileName":"/src/app.py"}]}]},
        {"queryName":"XSS","vulnerabilities":[]}]},
    {"languageName":"Go","queries":[
        {"queryName":"Cmd","vulnerabilities":[{"nodes":[{"fileName":"/cmd/run.go"}]}]}]}]}}}"#;

const CHECKMARX_XML: &str = r#"<?xml version="1.0" encoding="utf-8"?>
<CxXMLResults InitiatorName="admin" ScanId="1">
  <Query id="1" name="SQL_Injection">
    <Result NodeId="1" FileName="/src/app.py" Line="3">
      <Path ResultId="1"><PathNode><FileName>/ignored/inner.py</FileName></PathNode></Path>
    </Result>
    <Result NodeId="2" FileName="\src\win.py" Line="4"/>
    <Result NodeId="3" FileName="/" Line="5"/>
    <Result NodeId="4" Line="6"/>
    <Other FileName="/not/a/result.py"/>
  </Query>
</CxXMLResults>"#;

fn sorted_unique(paths: &[String]) -> Vec<String> {
    let mut all: Vec<String> = paths.to_vec();
    all.sort();
    all.dedup();
    all
}

fn texts(values: &[&str]) -> Vec<String> {
    values.iter().map(|v| v.to_string()).collect()
}

fn field(name: &str, value: Json) -> JsonField {
    JsonField { name: name.to_string(), value }
}

fn text(value: &str) -> Json {
    Json::Text(value.to_string())
}

#[test]
fn semgrep_report_yields_its_paths() {
    let result = ScanParserFactory::new().parse_scan_data(SEMGREP).unwrap();
    assert_eq!(result.scanner, "semgrep");
    assert_eq!(result.paths, texts(&["src/app.py", "src/db.py", "src/app.py"]));
    assert_eq!(sorted_unique(&result.paths), texts(&["src/app.py", "src/db.py"]));
}

#[test]
fn snyk_sarif_report_yields_its_paths() {
    let result = ScanParserFactory::new().parse_scan_data(&sarif("SnykCode")).unwrap();
    assert_eq!(result.scanner, "snyk");
    assert_eq!(
        result.paths,
        texts(&["web/index.js", "web/auth.js", "web/index.js", "api/main.go"])
    );
    assert_eq!(
        sorted_unique(&result.paths),
        texts(&["api/main.go", "web/auth.js", "web/index.js"])
    );
}

#[test]
fn codeql_sarif_report_yields_its_paths() {
    let result = ScanParserFactory::new().parse_scan_data(&sarif("CodeQL")).unwrap();
    assert_eq!(result.scanner, "codeql");
    assert_eq!(
        sorted_unique(&result.paths),
        texts(&["api/main.go", "web/auth.js", "web/index.js"])
    );
}

#[test]
fn checkmarx_cli_report_yields_its_paths() {
    let result = ScanParserFactory::new().parse_scan_data(CHECKMARX_CLI).unwrap();
    assert_eq!(result.scanner, "checkmarx");
    assert_eq!(result.paths, texts(&["src/app.py", "src/util.py", "src/app.py"]));
    assert_eq!(sorted_unique(&result.paths), texts(&["src/app.py", "src/util.py"]));
}

#[test]
fn checkmarx_web_report_yields_its_paths() {
    let result = ScanParserFactory::new().parse_scan_data(CHECKMARX_WEB).unwrap();
    assert_eq!(result.scanner, "checkmarx");
    assert_eq!(
        result.paths,
        texts(&["src/app.py", "src/db.py", "src/app.py", "cmd/run.go"])
    );
    assert_eq!(
        sorted_unique(&result.paths),
        texts(&["cmd/run.go", "src/app.py", "src/db.py"])
    );
}

#[test]
fn checkmarx_xml_report_yields_its_paths() {
    let result = ScanParserFactory::new().parse_scan_data(CHECKMARX_XML).unwrap();
    assert_eq!(result.scanner, "checkmarx");
    assert_eq!(result.paths, texts(&["src/app.py", "src\\win.py"]));
}

#[test]
fn unrelated_json_is_unsupported() {
    let error = ScanParserFactory::new().parse_scan_data(r#"{"foo":1}"#).unwrap_err();
    assert_eq!(error, UNSUPPORTED);
}

#[test]
fn text_that_is_no_report_is_unsupported() {
    let factory = ScanParserFactory::new();
    assert_eq!(factory.parse_scan_data("").unwrap_err(), UNSUPPORTED);
    assert_eq!(factory.parse_scan_data("not json at all").unwrap_err(), UNSUPPORTED);
    assert_eq!(factory.parse_scan_data("<html></html>").unwrap_err(), UNSUPPORTED);
    assert!(factory.find_parser("not json at all").is_none());
}

#[test]
fn sarif_of_another_tool_yields_nothing() {
    let report = sarif("ESLint");
    assert!(SarifParser.detect(&report));
    assert!(SarifParser.parse(&report).is_none());
    assert_eq!(ScanParserFactory::new().parse_scan_data(&report).unwrap_err(), UNSUPPORTED);
}

#[test]
fn sarif_without_runs_yields_nothing() {
    let report = r#"{"$schema":"https://json.schemastore.org/sarif-2.1.0.json","runs":[]}"#;
    assert!(SarifParser.detect(report));
    assert!(SarifParser.parse(report).is_none());
}

#[test]
fn semgrep_report_without_results_has_no_paths() {
    let report = r#"{"results":[],"docs":"https://semgrep.dev"}"#;
    let result = ScanParserFactory::new().parse_scan_data(report).unwrap();
    assert_eq!(result.scanner, "semgrep");
    assert!(result.paths.is_empty());
}

#[test]
fn checkmarx_file_name_loses_its_leading_separator() {
    let report = r#"{"totalCount":1,"scanID":"x","results":[{"data":{"nodes":[{"fileName":"/src/app.py"}]}}]}"#;
    let result = CheckmarxCliParser.parse(report).unwrap();
    assert_eq!(result.paths, texts(&["src/app.py"]));
}

#[test]
fn checkmarx_file_name_loses_exactly_one_character() {
    let report = r#"{"reportId":"r","scanResults":{"sast":{"languages":[{"queries":[{"vulnerabilities":[
        {"nodes":[{"fileName":"//a.py"},{"fileName":""},{"fileName":"x"},{"fileName":"été.py"}]}]}]}]}}}"#;
    let result = CheckmarxWebParser.parse(report).unwrap();
    assert_eq!(result.paths, texts(&["/a.py", "", "", "t\u{e9}.py"]));
}

#[test]
fn detectors_are_tried_in_priority_order() {
    let factory = ScanParserFactory::new();
    assert!(matches!(factory.find_parser(SEMGREP), Some(Detector::Semgrep(_))));
    assert!(matches!(factory.find_parser(&sarif("SnykCode")), Some(Detector::Sarif(_))));
    assert!(matches!(factory.find_parser(CHECKMARX_CLI), Some(Detector::CheckmarxCli(_))));
    assert!(matches!(factory.find_parser(CHECKMARX_WEB), Some(Detector::CheckmarxWeb(_))));
    assert!(matches!(factory.find_parser(CHECKMARX_XML), Some(Detector::CheckmarxXml(_))));
}

#[test]
fn a_loose_signature_wins_over_a_structural_one() {
    // A SARIF report that mentions semgrep.dev is read as a Semgrep report.
    let report = r#"{"$schema":"https://json.schemastore.org/sarif-2.1.0.json","help":"see semgrep.dev",
        "runs":[{"tool":{"driver":{"name":"SnykCode"}},"results":[{"locations":[
        {"physicalLocation":{"artifactLocation":{"uri":"a.js"}}}]}]}]}"#;
    let result = ScanParserFactory::new().parse_scan_data(report).unwrap();
    assert_eq!(result.scanner, "semgrep");
    assert!(result.paths.is_empty());
}

#[test]
fn a_detector_that_cannot_read_the_report_is_passed_over() {
    // The text names semgrep.dev and is no JSON; the XML reader takes it.
    let report = "<?xml version=\"1.0\"?><CxXMLResults note=\"semgrep.dev\"><Result FileName=\"/a.py\"/></CxXMLResults>";
    assert!(SemgrepParser.detect(report));
    assert!(SemgrepParser.parse(report).is_none());
    let result = ScanParserFactory::new().parse_scan_data(report).unwrap();
    assert_eq!(result.scanner, "checkmarx");
    assert_eq!(result.paths, texts(&["a.py"]));
}

#[test]
fn each_detector_recognises_only_its_own_signature() {
    assert!(!SemgrepParser.detect(r#"{"results":[]}"#));
    assert!(!SarifParser.detect(r#"{"$schema":"https://example.org/other.json"}"#));
    assert!(!SarifParser.detect(r#"{"$schema":5}"#));
    assert!(!SarifParser.detect("sarif"));
    assert!(!CheckmarxCliParser.detect(r#"{"totalCount":1,"results":[]}"#));
    assert!(CheckmarxCliParser.detect(r#"{"totalCount":null,"results":null,"scanID":null}"#));
    assert!(!CheckmarxWebParser.detect(r#"{"scanResults":{}}"#));
    assert!(CheckmarxWebParser.detect(r#"{"scanResults":{},"reportId":1}"#));
    assert!(!CheckmarxXmlParser.detect("<CxXMLResults></CxXMLResults>"));
    assert!(!CheckmarxXmlParser.detect("<?xml version=\"1.0\"?><Other/>"));
    assert!(CheckmarxXmlParser.detect("  \n<?xml version=\"1.0\"?><CxXMLResults/>  "));
}

#[test]
fn scanner_names_are_the_formats() {
    assert_eq!(SemgrepParser.scanner_name(), "semgrep");
    assert_eq!(SarifParser.scanner_name(), "sarif");
    assert_eq!(CheckmarxCliParser.scanner_name(), "checkmarx-cli");
    assert_eq!(CheckmarxWebParser.scanner_name(), "checkmarx-web");
    assert_eq!(CheckmarxXmlParser.scanner_name(), "checkmarx-xml");
    assert_eq!(Detector::Sarif(SarifParser).scanner_name(), "sarif");
}

#[test]
fn malformed_xml_yields_nothing() {
    let report = "<?xml version=\"1.0\"?><CxXMLResults><Result FileName=\"/a.py\"></Wrong></CxXMLResults>";
    assert!(CheckmarxXmlParser.detect(report));
    assert!(CheckmarxXmlParser.parse(report).is_none());
}

#[test]
fn json_is_read_into_plain_data() {
    let doc = parse(r#"{"b":[1,-2,3.5,18446744073709551615,"x",true,null],"a":{"c":"d"}}"#).unwrap();
    assert_eq!(doc.get_str("missing"), None);
    let items = doc.get_array("b").unwrap();
    assert_eq!(items.len(), 7);
    assert_eq!(items[0].as_i64(), Some(1));
    assert_eq!(items[1].as_i64(), Some(-2));
    assert_eq!(items[2].as_i64(), None);
    assert!(matches!(items[2], Json::Number(None)));
    assert!(matches!(items[3], Json::Number(None)));
    assert_eq!(items[4].as_str(), Some("x"));
    assert!(matches!(items[5], Json::Bool(true)));
    assert!(matches!(items[6], Json::Null));
    assert_eq!(doc.get("a").unwrap().get_str("c"), Some("d"));
    assert!(doc.is_object());
    assert!(!items[0].is_object());
    assert!(parse("{").is_none());
    assert!(parse("").is_none());
    assert!(parse("{} trailing").is_none());
}

#[test]
fn a_member_is_found_by_its_name() {
    let doc = Json::Object(vec![
        field("a", text("first")),
        field("b", Json::Array(vec![text("x"), Json::Null])),
        field("a", text("second")),
    ]);
    assert_eq!(doc.get_str("a"), Some("first"));
    assert_eq!(doc.get_array("b").map(|items| items.len()), Some(2));
    assert!(doc.get("c").is_none());
    assert!(doc.get_array("a").is_none());
    assert!(text("a").get("a").is_none());
}

#[test]
fn paths_are_extracted_from_a_document_built_by_hand() {
    let doc = Json::Object(vec![field(
        "results",
        Json::Array(vec![
            Json::Object(vec![field("path", text("a.py"))]),
            Json::Object(vec![field("path", Json::Number(Some(1)))]),
            text("stray"),
            Json::Object(vec![field("path", text("b.py"))]),
        ]),
    )]);
    let result = SemgrepParser::extract(&doc);
    assert_eq!(result.paths, texts(&["a.py", "b.py"]));
    assert_eq!(result.scanner, "semgrep");
    assert!(SemgrepParser::extract(&Json::Null).paths.is_empty());
}

#[test]
fn the_tool_of_a_sarif_document_is_that_of_its_first_run() {
    let run = |name: &str| {
        Json::Object(vec![field(
            "tool",
            Json::Object(vec![field("driver", Json::Object(vec![field("name", text(name))]))]),
        )])
    };
    let doc = Json::Object(vec![field("runs", Json::Array(vec![run("CodeQL"), run("SnykCode")]))]);
    assert_eq!(SarifParser::tool(&doc), Some("CodeQL"));
    let result = SarifParser::extract(&doc).unwrap();
    assert_eq!(result.scanner, "codeql");
    assert!(result.paths.is_empty());
    let other = Json::Object(vec![field("runs", Json::Array(vec![run("Bandit"), run("CodeQL")]))]);
    assert!(SarifParser::extract(&other).is_none());
    assert_eq!(SarifParser::tool(&Json::Object(vec![])), None);
}

#[test]
fn an_xml_event_contributes_the_file_names_of_a_result() {
    let attribute = |key: &str, value: &str| {
        Some(XmlAttribute { key: key.to_string(), value: value.to_string(), normalized: None })
    };
    let element = |name: &str| XmlElement {
        name: name.to_string(),
        attributes: vec![
            attribute("Line", "3"),
            None,
            attribute("FileName", "//\\\\/src/a.py"),
            attribute("FileName", "\\/b.py"),
            attribute("FileName", "///"),
        ],
    };
    let mut paths = vec!["seen.py".to_string()];
    CheckmarxXmlParser::note_event(&XmlEvent::Start(element("Result")), &mut paths);
    assert_eq!(paths, texts(&["seen.py", "/src/a.py", "/b.py"]));
    CheckmarxXmlParser::note_event(&XmlEvent::Empty(element("Result")), &mut paths);
    assert_eq!(paths.len(), 5);
    CheckmarxXmlParser::note_event(&XmlEvent::Start(element("Query")), &mut paths);
    CheckmarxXmlParser::note_event(&XmlEvent::End("Result".to_string()), &mut paths);
    CheckmarxXmlParser::note_event(&XmlEvent::Other, &mut paths);
    assert_eq!(paths.len(), 5);
}
