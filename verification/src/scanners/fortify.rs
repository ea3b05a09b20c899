//! Fortify's audit file: the XML document inside a project's result
//! archive.

use vstd::prelude::*;
use crate::text::{contains_text, lemma_strings_push, same, strings};
use crate::xml::{
    attribute_view, document_events, next_event, open_reader, pending, AttributeView, EventView,
    XmlElement, XmlEvent,
};

verus! {

/// What has been gathered from the events read so far.
pub struct AuditView {
    /// Whether the events stand inside a `Vulnerability` element.
    pub in_vulnerability: bool,
    /// The paths found, each once, in the order in which they first occur.
    pub paths: Seq<Seq<char>>,
}

/// `paths` and then `path`, unless `path` is among them already.
pub open spec fn with_path(paths: Seq<Seq<char>>, path: Seq<char>) -> Seq<Seq<char>> {
    if paths.contains(path) {
        paths
    } else {
        paths.push(path)
    }
}

/// The paths after one attribute: the value of a well-formed `path`
/// attribute is added, with its references resolved, where they can be.
pub open spec fn paths_after_attribute(paths: Seq<Seq<char>>, attribute: Option<AttributeView>) -> Seq<
    Seq<char>,
> {
    match attribute {
        Some(a) => if a.key == "path"@ {
            match a.normalized {
                Some(value) => with_path(paths, value),
                None => paths,
            }
        } else {
            paths
        },
        None => paths,
    }
}

/// The paths after a list of attributes, taken in order.
pub open spec fn paths_after_attributes(
    paths: Seq<Seq<char>>,
    attributes: Seq<Option<AttributeView>>,
) -> Seq<Seq<char>>
    decreases attributes.len(),
{
    if attributes.len() == 0 {
        paths
    } else {
        paths_after_attribute(
            paths_after_attributes(paths, attributes.drop_last()),
            attributes.last(),
        )
    }
}

/// What has been gathered after one more event. A `Vulnerability` element
/// opens and closes the part of the document that counts; inside it, every
/// `SourceLocation` contributes its paths.
pub open spec fn audit_after(audit: AuditView, event: EventView) -> AuditView {
    match event {
        EventView::Start(e) => if e.name == "Vulnerability"@ {
            AuditView { in_vulnerability: true, ..audit }
        } else if e.name == "SourceLocation"@ && audit.in_vulnerability {
            AuditView { paths: paths_after_attributes(audit.paths, e.attributes), ..audit }
        } else {
            audit
        },
        EventView::Empty(e) => if e.name == "SourceLocation"@ && audit.in_vulnerability {
            AuditView { paths: paths_after_attributes(audit.paths, e.attributes), ..audit }
        } else {
            audit
        },
        EventView::End(name) => if name == "Vulnerability"@ {
            AuditView { in_vulnerability: false, ..audit }
        } else {
            audit
        },
        _ => audit,
    }
}

/// The paths of a document given as its events, gathered from `audit` on:
/// nothing where the document ends in an error.
pub open spec fn audit_paths(audit: AuditView, events: Seq<EventView>) -> Option<Seq<Seq<char>>>
    decreases events.len(),
{
    if events.len() == 0 {
        None
    } else {
        match events[0] {
            EventView::Eof => Some(audit.paths),
            EventView::Failure => None,
            event => audit_paths(audit_after(audit, event), events.drop_first()),
        }
    }
}

/// The files that an audit document refers to.
pub open spec fn audit_file_paths(contents: Seq<char>) -> Option<Seq<Seq<char>>> {
    audit_paths(
        AuditView { in_vulnerability: false, paths: Seq::empty() },
        document_events(contents),
    )
}

/// Attributes add no path that is there already.
proof fn lemma_attributes_keep_distinct(
    paths: Seq<Seq<char>>,
    attributes: Seq<Option<AttributeView>>,
)
    requires
        paths.no_duplicates(),
    ensures
        paths_after_attributes(paths, attributes).no_duplicates(),
    decreases attributes.len(),
{
    if attributes.len() > 0 {
        lemma_attributes_keep_distinct(paths, attributes.drop_last());
    }
}

/// Events add no path that is there already.
proof fn lemma_events_keep_distinct(audit: AuditView, events: Seq<EventView>)
    requires
        audit.paths.no_duplicates(),
    ensures
        audit_paths(audit, events) matches Some(paths) ==> paths.no_duplicates(),
    decreases events.len(),
{
    if events.len() > 0 {
        match events[0] {
            EventView::Eof => {},
            EventView::Failure => {},
            EventView::Start(e) => {
                lemma_attributes_keep_distinct(audit.paths, e.attributes);
                lemma_events_keep_distinct(audit_after(audit, events[0]), events.drop_first());
            },
            EventView::Empty(e) => {
                lemma_attributes_keep_distinct(audit.paths, e.attributes);
                lemma_events_keep_distinct(audit_after(audit, events[0]), events.drop_first());
            },
            _ => {
                lemma_events_keep_distinct(audit_after(audit, events[0]), events.drop_first());
            },
        }
    }
}

/// The files that an audit document refers to hold no path twice.
pub proof fn lemma_no_path_twice(contents: Seq<char>)
    ensures
        audit_file_paths(contents) matches Some(paths) ==> paths.no_duplicates(),
{
    lemma_events_keep_distinct(
        AuditView { in_vulnerability: false, paths: Seq::empty() },
        document_events(contents),
    );
}

/// Adds to `paths` what the attributes of a `SourceLocation` contribute.
pub fn note_location(element: &XmlElement, paths: &mut Vec<String>)
    ensures
        strings(final(paths)@) == paths_after_attributes(strings(old(paths)@), element@.attributes),
{
    let ghost start = strings(paths@);
    let ghost all = element@.attributes;
    let mut i: usize = 0;
    assert(all.take(0) =~= Seq::<Option<AttributeView>>::empty());
    while i < element.attributes.len()
        invariant
            i <= element.attributes@.len(),
            all == element@.attributes,
            all.len() == element.attributes@.len(),
            strings(paths@) == paths_after_attributes(start, all.take(i as int)),
        decreases element.attributes@.len() - i,
    {
        proof {
            assert(all.take(i as int + 1).drop_last() =~= all.take(i as int));
            assert(all.take(i as int + 1).last() == attribute_view(element.attributes@[i as int]));
        }
        match &element.attributes[i] {
            Some(attribute) => {
                if same(attribute.key.as_str(), "path") {
                    match &attribute.normalized {
                        Some(value) => {
                            if !contains_text(paths, value.as_str()) {
                                let owned = value.clone();
                                proof {
                                    lemma_strings_push(paths@, owned);
                                }
                                paths.push(owned);
                            }
                        },
                        None => {},
                    }
                }
            },
            None => {},
        }
        i = i + 1;
    }
    assert(all.take(i as int) =~= all);
}

/// The files that an audit document refers to, each once, in the order in
/// which they first occur; nothing where the document cannot be read to its
/// end.
pub fn extract_file_path(contents: &str) -> (found: Option<Vec<String>>)
    ensures
        match found {
            Some(paths) => audit_file_paths(contents@) == Some(strings(paths@)) && strings(
                paths@,
            ).no_duplicates(),
            None => audit_file_paths(contents@) is None,
        },
{
    let mut paths: Vec<String> = Vec::new();
    let mut in_vulnerability = false;
    let mut reader = open_reader(contents);
    assert(strings(paths@) =~= Seq::<Seq<char>>::empty());
    loop
        invariant
            audit_file_paths(contents@) == audit_paths(
                AuditView { in_vulnerability, paths: strings(paths@) },
                pending(reader),
            ),
        decreases pending(reader).len(),
    {
        let event = next_event(&mut reader);
        match event {
            XmlEvent::Eof => {
                proof {
                    lemma_no_path_twice(contents@);
                }
                return Some(paths);
            },
            XmlEvent::Failure => {
                return None;
            },
            XmlEvent::Start(element) => {
                if same(element.name.as_str(), "Vulnerability") {
                    in_vulnerability = true;
                } else if same(element.name.as_str(), "SourceLocation") && in_vulnerability {
                    note_location(&element, &mut paths);
                }
            },
            XmlEvent::Empty(element) => {
                if same(element.name.as_str(), "SourceLocation") && in_vulnerability {
                    note_location(&element, &mut paths);
                }
            },
            XmlEvent::End(name) => {
                if same(name.as_str(), "Vulnerability") {
                    in_vulnerability = false;
                }
            },
            XmlEvent::Other => {},
        }
    }
}

} // verus!
