//! XML documents as a stream of plain events.
//!
//! The text is read by `quick_xml`, one event at a time. What the rest of the
//! library looks at is [`XmlEvent`]: the kind of each event, the name of an
//! element and its attributes.

use vstd::prelude::*;

verus! {

/// One attribute of an element.
pub struct XmlAttribute {
    pub key: String,
    /// The value as it stands in the document.
    pub value: String,
    /// The value with character and entity references resolved, where they
    /// can be.
    pub normalized: Option<String>,
}

/// An element's opening tag.
pub struct XmlElement {
    pub name: String,
    /// The attributes in document order; `None` stands for one that is
    /// malformed.
    pub attributes: Vec<Option<XmlAttribute>>,
}

/// One event of a document.
pub enum XmlEvent {
    /// An opening tag.
    Start(XmlElement),
    /// A tag that opens and closes an element at once.
    Empty(XmlElement),
    /// A closing tag, with the element's name.
    End(String),
    /// Text, a comment, a declaration and the like.
    Other,
    /// The end of the document.
    Eof,
    /// The document cannot be read any further.
    Failure,
}

/// The content of an [`XmlAttribute`].
pub struct AttributeView {
    pub key: Seq<char>,
    pub value: Seq<char>,
    pub normalized: Option<Seq<char>>,
}

/// The content of an [`XmlElement`].
pub struct ElementView {
    pub name: Seq<char>,
    pub attributes: Seq<Option<AttributeView>>,
}

/// The content of an [`XmlEvent`].
pub enum EventView {
    Start(ElementView),
    Empty(ElementView),
    End(Seq<char>),
    Other,
    Eof,
    Failure,
}

impl View for XmlAttribute {
    type V = AttributeView;

    open spec fn view(&self) -> AttributeView {
        AttributeView {
            key: self.key@,
            value: self.value@,
            normalized: match self.normalized {
                Some(s) => Some(s@),
                None => None,
            },
        }
    }
}

/// The content of an attribute that may be malformed.
pub open spec fn attribute_view(attribute: Option<XmlAttribute>) -> Option<AttributeView> {
    match attribute {
        Some(a) => Some(a@),
        None => None,
    }
}

impl View for XmlElement {
    type V = ElementView;

    open spec fn view(&self) -> ElementView {
        ElementView {
            name: self.name@,
            attributes: Seq::new(
                self.attributes@.len(),
                |i: int| attribute_view(self.attributes@[i]),
            ),
        }
    }
}

impl View for XmlEvent {
    type V = EventView;

    open spec fn view(&self) -> EventView {
        match self {
            XmlEvent::Start(e) => EventView::Start(e@),
            XmlEvent::Empty(e) => EventView::Empty(e@),
            XmlEvent::End(name) => EventView::End(name@),
            XmlEvent::Other => EventView::Other,
            XmlEvent::Eof => EventView::Eof,
            XmlEvent::Failure => EventView::Failure,
        }
    }
}

impl EventView {
    /// No event follows this one.
    pub open spec fn is_last(self) -> bool {
        self is Eof || self is Failure
    }
}

#[verifier::external_type_specification]
#[verifier::external_body]
#[verifier::reject_recursive_types(R)]
pub struct ExReader<R>(quick_xml::Reader<R>);

#[verifier::external_type_specification]
#[verifier::external_body]
pub struct ExBytesStart<'a>(quick_xml::events::BytesStart<'a>);

#[verifier::external_type_specification]
#[verifier::external_body]
pub struct ExAttribute<'a>(quick_xml::events::attributes::Attribute<'a>);

/// The events that a reader made by `Reader::from_str` yields for `text`, up
/// to and including the first that ends the document or reports an error.
pub uninterp spec fn document_events(text: Seq<char>) -> Seq<EventView>;

/// The events that `reader` has yet to yield, up to and including the first
/// that ends the document or reports an error.
pub uninterp spec fn pending(reader: quick_xml::Reader<&[u8]>) -> Seq<EventView>;

/// `Reader::from_str`: a reader at the start of `text`, with the default
/// configuration.
#[verifier::external_body]
pub(crate) fn open_reader<'a>(text: &'a str) -> (reader: quick_xml::Reader<&'a [u8]>)
    ensures
        pending(reader) == document_events(text@),
{
    quick_xml::Reader::from_str(text)
}

/// `Reader::read_event_into`, with a fresh buffer: the next event of the
/// document. A reader always has an event to yield, the last one being the
/// end of the document or an error; after any other event the reader stands
/// before the rest. The event is copied out of the buffer as plain data.
#[verifier::external_body]
pub(crate) fn next_event(reader: &mut quick_xml::Reader<&[u8]>) -> (event: XmlEvent)
    ensures
        pending(*old(reader)).len() > 0,
        event@ == pending(*old(reader))[0],
        !event@.is_last() ==> pending(*final(reader)) == pending(*old(reader)).drop_first(),
{
    match reader.read_event_into(&mut Vec::new()) {
        Ok(quick_xml::events::Event::Start(tag)) => XmlEvent::Start(copy_tag(&tag)),
        Ok(quick_xml::events::Event::Empty(tag)) => XmlEvent::Empty(copy_tag(&tag)),
        Ok(quick_xml::events::Event::End(tag)) => XmlEvent::End(tag.name().0.to_string()),
        Ok(quick_xml::events::Event::Eof) => XmlEvent::Eof,
        Ok(_) => XmlEvent::Other,
        Err(_) => XmlEvent::Failure,
    }
}

/// Copies `BytesStart::name` and every item of `BytesStart::attributes` out
/// of a tag, an item that is an error as `None`.
#[verifier::external_body]
fn copy_tag(tag: &quick_xml::events::BytesStart) -> (element: XmlElement) {
    XmlElement {
        name: tag.name().0.to_string(),
        attributes: tag.attributes().map(|a| a.ok().map(|a| copy_attribute(&a))).collect(),
    }
}

/// Copies key and value out of an attribute, and beside them what
/// `Attribute::normalized_value` gives for XML 1.0, an error as `None`.
#[verifier::external_body]
fn copy_attribute(attribute: &quick_xml::events::attributes::Attribute) -> (copy: XmlAttribute) {
    XmlAttribute {
        key: attribute.key.0.to_string(),
        value: attribute.value.to_string(),
        normalized: attribute.normalized_value(quick_xml::XmlVersion::Implicit1_0).ok().map(
            |v| v.into_owned(),
        ),
    }
}

} // verus!
