//! The element builder: a name and attributes that wait to be written, and
//! the writes that put an element around its content.

use crate::sink::Sink;
use crate::trace::{
    characters, element_events, enclosed, ends, lemma_enclosed_well_nested, offer, offered,
    refused, start, starts, taken, well_nested, Event, Offer,
};
use std::io::Write;
use vstd::prelude::*;
use xml::writer::Error;

verus! {

/// An element that waits to be written: its name, its attributes so far, and
/// the sink that it will be written to.
///
/// The builder has the sink to itself as long as it lives, and offers it
/// nothing before `write`, `write_res`, `empty` or `text` consumes it.
#[verifier::reject_recursive_types(W)]
pub struct Element<'a, W> {
    out: &'a mut Sink<W>,
    name: String,
    attributes: Vec<(String, String)>,
}

/// `error` is a failure of the sink, carried over into the error type `E`.
pub open spec fn from_sink<E: From<Error>>(error: E) -> bool {
    exists|failure: Error| call_ensures(E::from, (failure,), error)
}

/// What a write leaves behind once its content has run. `content` is what
/// the content returned and `inside` what the sink had been offered by then;
/// `result` is what the write returns and `after` what the sink has been
/// offered in the end.
///
/// Content that failed is handed back as it is, and no end tag is offered.
/// After content that succeeded the end tag is offered: taken, the write
/// returns what the content returned; refused, the write fails with the
/// sink's failure.
pub open spec fn closes<T, E: From<Error>>(
    content: Result<T, E>,
    inside: Seq<Offer>,
    result: Result<T, E>,
    after: Seq<Offer>,
) -> bool {
    match content {
        Err(e) => result == Err::<T, E>(e) && after == inside,
        Ok(v) => after == inside.push(offer(Event::End, result is Ok)) && match result {
            Ok(r) => r == v,
            Err(e) => from_sink(e),
        },
    }
}

/// Ends an element on `out` whose content returned `content`.
///
/// Content that failed is handed back as it is and `out` is left alone.
/// After content that succeeded the end tag is offered, and the content's
/// value is returned if the sink takes it, the sink's failure if not.
pub fn close<W: Write, T, E: From<Error>>(out: &mut Sink<W>, content: Result<T, E>) -> (result:
    Result<T, E>)
    ensures
        closes(content, old(out).offers(), result, final(out).offers()),
        content is Err ==> *final(out) == *old(out),
{
    match content {
        Err(e) => Err(e),
        Ok(value) => match out.end_element() {
            Err(failure) => Err(E::from(failure)),
            Ok(()) => Ok(value),
        },
    }
}

/// What becomes of `attributes` when `attr` is called once for each of
/// `added`, in order.
pub open spec fn attr_each(
    attributes: Seq<(Seq<char>, Seq<char>)>,
    added: Seq<(Seq<char>, Seq<char>)>,
) -> Seq<(Seq<char>, Seq<char>)>
    decreases added.len(),
{
    if added.len() == 0 {
        attributes
    } else {
        attr_each(attributes, added.drop_last()).push(added.last())
    }
}

impl<'a, W> Element<'a, W> {
    /// The sink that the element will be written to.
    pub closed spec fn sink(&self) -> &mut Sink<W> {
        self.out
    }

    /// The element's name.
    pub closed spec fn name(&self) -> Seq<char> {
        self.name@
    }

    /// The element's attributes, each a name and a value, in the order in
    /// which they were added.
    pub closed spec fn attributes(&self) -> Seq<(Seq<char>, Seq<char>)> {
        self.attributes.deep_view()
    }

    /// The start tag that a write of this element offers.
    pub open spec fn start_event(&self) -> Event {
        start(self.name(), self.attributes())
    }

    /// An element `name` without attributes, to be written to `out`.
    pub fn new(out: &'a mut Sink<W>, name: &str) -> (element: Self)
        ensures
            element.name() == name@,
            element.attributes() == Seq::<(Seq<char>, Seq<char>)>::empty(),
            *element.sink() == *old(out),
            *final(element.sink()) == *final(out),
    {
        let element = Element { out, name: name.to_owned(), attributes: Vec::new() };
        assert(element.attributes.deep_view() =~= Seq::empty());
        element
    }

    /// Adds an attribute after those that the element has. A name that the
    /// element has already is added again.
    pub fn attr(self, name: &str, value: &str) -> (element: Self)
        ensures
            element.name() == self.name(),
            element.attributes() == self.attributes().push((name@, value@)),
            element.sink() == self.sink(),
    {
        let mut element = self;
        let ghost before = element.attributes.deep_view();
        element.attributes.push((name.to_owned(), value.to_owned()));
        assert(element.attributes.deep_view() =~= before.push((name@, value@)));
        element
    }
}

impl<'a, W: Write> Element<'a, W> {
    /// Writes the element: its start tag, then what `f` writes, then its end
    /// tag. This is `write_res` for content that fails with the sink's own
    /// error.
    pub fn write<F>(self, f: F) -> (result: Result<(), Error>) where
        F: FnOnce(&mut Sink<W>) -> Result<(), Error>,

        requires
            forall|inner: &mut Sink<W>|
                inner.offers() == self.sink().offers().push(taken(self.start_event()))
                    ==> call_requires(f, (inner,)),
        ensures
            (result is Err && from_sink(result->Err_0) && final(self.sink()).offers()
                == self.sink().offers().push(refused(self.start_event()))) || (exists|
                inner: &mut Sink<W>,
                content: Result<(), Error>,
            |
                inner.offers() == self.sink().offers().push(taken(self.start_event()))
                    && #[trigger] call_ensures(f, (inner,), content) && closes(
                    content,
                    final(inner).offers(),
                    result,
                    final(self.sink()).offers(),
                )),
    {
        self.write_res(f)
    }

    /// Writes the element: its start tag, then what `f` writes, then its end
    /// tag. A failure of the sink is carried over into the error type of `f`.
    ///
    /// The first failure ends the write. Either the sink refused the start
    /// tag, and nothing else was offered and `f` was not called. Or the sink
    /// took the start tag and `f` was called, once, on the sink as it then
    /// was; what follows the content is what `closes` says.
    pub fn write_res<F, T, E>(self, f: F) -> (result: Result<T, E>) where
        F: FnOnce(&mut Sink<W>) -> Result<T, E>,
        E: From<Error>,

        requires
            forall|inner: &mut Sink<W>|
                inner.offers() == self.sink().offers().push(taken(self.start_event()))
                    ==> call_requires(f, (inner,)),
        ensures
            (result is Err && from_sink(result->Err_0) && final(self.sink()).offers()
                == self.sink().offers().push(refused(self.start_event()))) || (exists|
                inner: &mut Sink<W>,
                content: Result<T, E>,
            |
                inner.offers() == self.sink().offers().push(taken(self.start_event()))
                    && #[trigger] call_ensures(f, (inner,), content) && closes(
                    content,
                    final(inner).offers(),
                    result,
                    final(self.sink()).offers(),
                )),
    {
        match self.out.start_element(self.name.as_str(), &self.attributes) {
            Err(failure) => Err(E::from(failure)),
            Ok(()) => {
                let content = f(self.out);
                close(self.out, content)
            },
        }
    }

    /// Writes the element without content: its start tag and its end tag,
    /// as far as the sink takes them.
    pub fn empty(self) -> (result: Result<(), Error>)
        ensures
            exists|n: nat|
                n <= 2 && (result is Ok <==> n == 2) && final(self.sink()).offers()
                    == self.sink().offers() + #[trigger] offered(
                    element_events(self.start_event(), Seq::empty()),
                    n,
                ),
    {
        let ghost before = self.out.offers();
        let ghost events = element_events(self.start_event(), Seq::empty());
        let ghost after = final(self.out).offers();
        let result = self.write(
            |out: &mut Sink<W>| -> (content: Result<(), Error>)
                ensures
                    content is Ok,
                    *final(out) == *old(out),
                { Ok(()) }
        );
        assert(after.len() == before.len() + 1 ==> after =~= before + offered(events, 0));
        assert(after.len() == before.len() + 2 && result is Err ==> after =~= before + offered(
            events,
            1,
        ));
        assert(result is Ok ==> after =~= before + offered(events, 2));
        result
    }

    /// Writes the element with `s` as its only content: its start tag, `s`
    /// as character data and its end tag, as far as the sink takes them.
    pub fn text(self, s: &str) -> (result: Result<(), Error>)
        ensures
            exists|n: nat|
                n <= 3 && (result is Ok <==> n == 3) && final(self.sink()).offers()
                    == self.sink().offers() + #[trigger] offered(
                    element_events(self.start_event(), seq![characters(s@)]),
                    n,
                ),
    {
        let ghost before = self.out.offers();
        let ghost events = element_events(self.start_event(), seq![characters(s@)]);
        let ghost after = final(self.out).offers();
        let result = self.write(
            |out: &mut Sink<W>| -> (content: Result<(), Error>)
                ensures
                    final(out).offers() == old(out).offers().push(
                        offer(characters(s@), content is Ok),
                    ),
                { out.characters(s) }
        );
        assert(after.len() == before.len() + 1 ==> after =~= before + offered(events, 0));
        assert(after.len() == before.len() + 2 ==> after =~= before + offered(events, 1));
        assert(after.len() == before.len() + 3 && result is Err ==> after =~= before + offered(
            events,
            2,
        ));
        assert(result is Ok ==> after =~= before + offered(events, 3));
        result
    }
}

/// An element `name` without attributes, to be written to `out`.
pub fn element<'a, W>(out: &'a mut Sink<W>, name: &str) -> (element: Element<'a, W>)
    ensures
        element.name() == name@,
        element.attributes() == Seq::<(Seq<char>, Seq<char>)>::empty(),
        *element.sink() == *old(out),
        *final(element.sink()) == *final(out),
{
    Element::new(out, name)
}

/// An element that is dropped unwritten leaves its sink as it found it:
/// nothing is offered on its account. With what `new` and `attr` ensure, the
/// sink is then what it was when the element was made.
pub proof fn lemma_unwritten<W>(element: Element<'_, W>)
    requires
        has_resolved(element),
    ensures
        *final(element.sink()) == *element.sink(),
{
}

/// Attributes stand in the order of the calls that added them: after one
/// call of `attr` for each of `added`, in order, an element has the
/// attributes it had, and then `added`. The start tag of an element that
/// was new before those calls lists `added`, and nothing else.
pub proof fn lemma_attr_order(
    name: Seq<char>,
    attributes: Seq<(Seq<char>, Seq<char>)>,
    added: Seq<(Seq<char>, Seq<char>)>,
)
    ensures
        attr_each(attributes, added) == attributes + added,
        start(name, attr_each(Seq::empty(), added)) == start(name, added),
{
    lemma_attr_each(attributes, added);
    lemma_attr_each(Seq::empty(), added);
    assert(Seq::<(Seq<char>, Seq<char>)>::empty() + added =~= added);
}

/// One call of `attr` for each of `added` appends `added`.
proof fn lemma_attr_each(attributes: Seq<(Seq<char>, Seq<char>)>, added: Seq<(Seq<char>, Seq<char>)>)
    ensures
        attr_each(attributes, added) == attributes + added,
    decreases added.len(),
{
    if added.len() > 0 {
        lemma_attr_each(attributes, added.drop_last());
        assert(attributes + added =~= (attributes + added.drop_last()).push(added.last()));
    } else {
        assert(attributes + added =~= attributes);
    }
}

/// A write that succeeded has offered an element, taken whole, around what
/// its content offered. Where the content's offers are well nested, so are
/// the element's, and as many start tags as end tags were taken.
pub proof fn lemma_write_well_nested<T, E: From<Error>>(
    before: Seq<Offer>,
    tag: Event,
    added: Seq<Offer>,
    content: Result<T, E>,
    result: Result<T, E>,
    after: Seq<Offer>,
)
    requires
        tag is Start,
        result is Ok,
        closes(content, before.push(taken(tag)) + added, result, after),
    ensures
        after == before + enclosed(tag, added),
        well_nested(added) ==> well_nested(enclosed(tag, added)) && starts(enclosed(tag, added))
            == ends(enclosed(tag, added)),
{
    assert(after =~= before + enclosed(tag, added));
    if well_nested(added) {
        lemma_enclosed_well_nested(tag, added);
    }
}

} // verus!
