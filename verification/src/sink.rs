//! The sink: an event writer of the `xml` crate, together with the record
//! of what it was offered.

use crate::trace::{characters, offer, raw, start, Event, Offer};
use std::io::Write;
use vstd::prelude::*;
use xml::writer::events::StartElementBuilder;
use xml::writer::{Error, XmlEvent};
use xml::EventWriter;

verus! {

/// `xml::EventWriter`, the writer that turns events into markup on an
/// output `W`. Nothing is known of what is in one.
#[verifier::external_type_specification]
#[verifier::external_body]
#[verifier::reject_recursive_types(W)]
pub struct ExEventWriter<W>(EventWriter<W>);

/// `xml::writer::Error`, the failure of an event writer: of the output
/// underneath, or of the writer's own rules. Nothing is known of what is in
/// one.
#[verifier::external_type_specification]
#[verifier::external_body]
pub struct ExError(Error);

/// `xml::writer::events::StartElementBuilder`, a start tag under
/// construction. What it carries is named by `pending_name` and
/// `pending_attributes`.
#[verifier::external_type_specification]
#[verifier::external_body]
pub struct ExStartElementBuilder<'a>(StartElementBuilder<'a>);

/// `xml::writer::XmlEvent`, an event for an event writer. What it says is
/// named by `meaning`.
#[verifier::external_type_specification]
#[verifier::external_body]
pub struct ExXmlEvent<'a>(XmlEvent<'a>);

/// The name that a start tag under construction carries, as it was written.
pub uninterp spec fn pending_name(builder: StartElementBuilder<'_>) -> Seq<char>;

/// The attributes that a start tag under construction carries, each a name
/// and a value, in the order in which they were added.
pub uninterp spec fn pending_attributes(builder: StartElementBuilder<'_>) -> Seq<
    (Seq<char>, Seq<char>),
>;

/// What an event of the writer says, for the three kinds that this crate
/// makes: a start tag without namespaces, character data, an end tag
/// without a name.
pub uninterp spec fn meaning(event: XmlEvent<'_>) -> Event;

/// `XmlEvent::start_element`: a start tag of the given name, with no
/// attribute yet.
#[verifier::external_body]
fn start_tag<'a>(name: &'a str) -> (builder: StartElementBuilder<'a>)
    ensures
        pending_name(builder) == name@,
        pending_attributes(builder) == Seq::<(Seq<char>, Seq<char>)>::empty(),
{
    XmlEvent::start_element(name)
}

/// `StartElementBuilder::attr`: the same start tag with one more attribute,
/// after those it had.
#[verifier::external_body]
fn add_attribute<'a>(
    builder: StartElementBuilder<'a>,
    name: &'a str,
    value: &'a str,
) -> (extended: StartElementBuilder<'a>)
    ensures
        pending_name(extended) == pending_name(builder),
        pending_attributes(extended) == pending_attributes(builder).push((name@, value@)),
{
    builder.attr(name, value)
}

/// `XmlEvent::from` on a start tag under construction: the event of a start
/// tag with the builder's name and attributes.
#[verifier::external_body]
fn start_event<'a>(builder: StartElementBuilder<'a>) -> (event: XmlEvent<'a>)
    ensures
        meaning(event) == start(pending_name(builder), pending_attributes(builder)),
{
    XmlEvent::from(builder)
}

/// `XmlEvent::characters`: the event of character data `text`.
#[verifier::external_body]
fn characters_event<'a>(text: &'a str) -> (event: XmlEvent<'a>)
    ensures
        meaning(event) == characters(text@),
{
    XmlEvent::characters(text)
}

/// `XmlEvent::end_element`, made into an event: an end tag that names no
/// element, for the writer to close the innermost one that is open.
#[verifier::external_body]
fn end_event<'a>() -> (event: XmlEvent<'a>)
    ensures
        meaning(event) == Event::End,
{
    XmlEvent::end_element().into()
}

/// `EventWriter::write`. Whether the writer takes the event rests with the
/// writer and with the output underneath: nothing is claimed of the answer.
#[verifier::external_body]
fn emit<W: Write>(writer: &mut EventWriter<W>, event: XmlEvent<'_>) -> Result<(), Error> {
    writer.write(event)
}

/// `Write::write_all` on the output that `EventWriter::inner_mut` hands out,
/// with the bytes of `text`; a failure comes back as the writer's own error.
/// Nothing is claimed of the answer.
#[verifier::external_body]
fn emit_raw<W: Write>(writer: &mut EventWriter<W>, text: &str) -> Result<(), Error> {
    writer.inner_mut().write_all(text.as_bytes()).map_err(Error::from)
}

/// An event writer and the record of every event offered to it.
///
/// The writer is reached through the sink alone, so that the record is
/// complete: an event is offered by `start_element`, `characters`,
/// `end_element` or `raw`, each of which adds one offer to the record,
/// taken where the writer answered `Ok` and refused where it failed.
#[verifier::reject_recursive_types(W)]
pub struct Sink<W> {
    writer: EventWriter<W>,
    offers: Ghost<Seq<Offer>>,
}

impl<W> Sink<W> {
    /// Every offer made to this sink since it was made, oldest first.
    pub closed spec fn offers(&self) -> Seq<Offer> {
        self.offers@
    }

    /// The writer inside.
    pub closed spec fn writer(&self) -> EventWriter<W> {
        self.writer
    }

    /// A sink around `writer`, with nothing offered yet.
    pub fn new(writer: EventWriter<W>) -> (sink: Self)
        ensures
            sink.offers() == Seq::<Offer>::empty(),
            sink.writer() == writer,
    {
        Sink { writer, offers: Ghost(Seq::empty()) }
    }

    /// Gives the writer back, as it is after all that it was offered.
    pub fn into_inner(self) -> (writer: EventWriter<W>)
        ensures
            writer == self.writer(),
    {
        self.writer
    }
}

impl<W: Write> Sink<W> {
    /// Offers `event` to the writer and records the offer.
    fn submit(&mut self, event: XmlEvent<'_>) -> (answer: Result<(), Error>)
        ensures
            final(self).offers() == old(self).offers().push(offer(meaning(event), answer is Ok)),
    {
        let ghost said = meaning(event);
        let answer = emit(&mut self.writer, event);
        proof {
            self.offers@ = self.offers@.push(offer(said, answer is Ok));
        }
        answer
    }

    /// Offers the start tag of an element `name` with `attributes`, in
    /// their order.
    pub fn start_element(&mut self, name: &str, attributes: &Vec<(String, String)>) -> (answer:
        Result<(), Error>)
        ensures
            final(self).offers() == old(self).offers().push(
                offer(start(name@, attributes.deep_view()), answer is Ok),
            ),
    {
        let mut builder = start_tag(name);
        let mut i: usize = 0;
        while i < attributes.len()
            invariant
                i <= attributes.len(),
                pending_name(builder) == name@,
                pending_attributes(builder) == attributes.deep_view().take(i as int),
            decreases attributes.len() - i,
        {
            let pair = &attributes[i];
            builder = add_attribute(builder, pair.0.as_str(), pair.1.as_str());
            assert(attributes.deep_view().take(i + 1) =~= attributes.deep_view().take(
                i as int,
            ).push((pair.0@, pair.1@)));
            i += 1;
        }
        assert(attributes.deep_view().take(i as int) =~= attributes.deep_view());
        self.submit(start_event(builder))
    }

    /// Offers character data.
    pub fn characters(&mut self, text: &str) -> (answer: Result<(), Error>)
        ensures
            final(self).offers() == old(self).offers().push(
                offer(characters(text@), answer is Ok),
            ),
    {
        self.submit(characters_event(text))
    }

    /// Offers the end tag of the innermost open element.
    pub fn end_element(&mut self) -> (answer: Result<(), Error>)
        ensures
            final(self).offers() == old(self).offers().push(offer(Event::End, answer is Ok)),
    {
        self.submit(end_event())
    }

    /// Offers `text` to the output underneath, past the event writer.
    pub fn raw(&mut self, text: &str) -> (answer: Result<(), Error>)
        ensures
            final(self).offers() == old(self).offers().push(offer(raw(text@), answer is Ok)),
    {
        let answer = emit_raw(&mut self.writer, text);
        proof {
            self.offers@ = self.offers@.push(offer(raw(text@), answer is Ok));
        }
        answer
    }
}

} // verus!
