//! The elements of HTML by name, and the doctype line.
//!
//! Each function here gives the element of its own name, without
//! attributes, to be written to `out`.

use crate::element::Element;
use crate::sink::Sink;
use crate::trace::{offer, raw};
use std::io::Write;
use vstd::prelude::*;
use xml::writer::Error;

verus! {

/// The `a` element.
pub fn a<'a, W>(out: &'a mut Sink<W>) -> (element: Element<'a, W>)
    ensures
        element.name() == "a"@,
        element.attributes() == Seq::<(Seq<char>, Seq<char>)>::empty(),
        *element.sink() == *old(out),
        *final(element.sink()) == *final(out),
{
    Element::new(out, "a")
}

/// The `b` element.
pub fn b<'a, W>(out: &'a mut Sink<W>) -> (element: Element<'a, W>)
    ensures
        element.name() == "b"@,
        element.attributes() == Seq::<(Seq<char>, Seq<char>)>::empty(),
        *element.sink() == *old(out),
        *final(element.sink()) == *final(out),
{
    Element::new(out, "b")
}

/// The `body` element.
pub fn body<'a, W>(out: &'a mut Sink<W>) -> (element: Element<'a, W>)
    ensures
        element.name() == "body"@,
        element.attributes() == Seq::<(Seq<char>, Seq<char>)>::empty(),
        *element.sink() == *old(out),
        *final(element.sink()) == *final(out),
{
    Element::new(out, "body")
}

/// The `br` element.
pub fn br<'a, W>(out: &'a mut Sink<W>) -> (element: Element<'a, W>)
    ensures
        element.name() == "br"@,
        element.attributes() == Seq::<(Seq<char>, Seq<char>)>::empty(),
        *element.sink() == *old(out),
        *final(element.sink()) == *final(out),
{
    Element::new(out, "br")
}

/// The `button` element.
pub fn button<'a, W>(out: &'a mut Sink<W>) -> (element: Element<'a, W>)
    ensures
        element.name() == "button"@,
        element.attributes() == Seq::<(Seq<char>, Seq<char>)>::empty(),
        *element.sink() == *old(out),
        *final(element.sink()) == *final(out),
{
    Element::new(out, "button")
}

/// The `canvas` element.
pub fn canvas<'a, W>(out: &'a mut Sink<W>) -> (element: Element<'a, W>)
    ensures
        element.name() == "canvas"@,
        element.attributes() == Seq::<(Seq<char>, Seq<char>)>::empty(),
        *element.sink() == *old(out),
        *final(element.sink()) == *final(out),
{
    Element::new(out, "canvas")
}

/// The `caption` element.
pub fn caption<'a, W>(out: &'a mut Sink<W>) -> (element: Element<'a, W>)
    ensures
        element.name() == "caption"@,
        element.attributes() == Seq::<(Seq<char>, Seq<char>)>::empty(),
        *element.sink() == *old(out),
        *final(element.sink()) == *final(out),
{
    Element::new(out, "caption")
}

/// The `code` element.
pub fn code<'a, W>(out: &'a mut Sink<W>) -> (element: Element<'a, W>)
    ensures
        element.name() == "code"@,
        element.attributes() == Seq::<(Seq<char>, Seq<char>)>::empty(),
        *element.sink() == *old(out),
        *final(element.sink()) == *final(out),
{
    Element::new(out, "code")
}

/// The `div` element.
pub fn div<'a, W>(out: &'a mut Sink<W>) -> (element: Element<'a, W>)
    ensures
        element.name() == "div"@,
        element.attributes() == Seq::<(Seq<char>, Seq<char>)>::empty(),
        *element.sink() == *old(out),
        *final(element.sink()) == *final(out),
{
    Element::new(out, "div")
}

/// The `em` element.
pub fn em<'a, W>(out: &'a mut Sink<W>) -> (element: Element<'a, W>)
    ensures
        element.name() == "em"@,
        element.attributes() == Seq::<(Seq<char>, Seq<char>)>::empty(),
        *element.sink() == *old(out),
        *final(element.sink()) == *final(out),
{
    Element::new(out, "em")
}

/// The `form` element.
pub fn form<'a, W>(out: &'a mut Sink<W>) -> (element: Element<'a, W>)
    ensures
        element.name() == "form"@,
        element.attributes() == Seq::<(Seq<char>, Seq<char>)>::empty(),
        *element.sink() == *old(out),
        *final(element.sink()) == *final(out),
{
    Element::new(out, "form")
}

/// The `h1` element.
pub fn h1<'a, W>(out: &'a mut Sink<W>) -> (element: Element<'a, W>)
    ensures
        element.name() == "h1"@,
        element.attributes() == Seq::<(Seq<char>, Seq<char>)>::empty(),
        *element.sink() == *old(out),
        *final(element.sink()) == *final(out),
{
    Element::new(out, "h1")
}

/// The `h2` element.
pub fn h2<'a, W>(out: &'a mut Sink<W>) -> (element: Element<'a, W>)
    ensures
        element.name() == "h2"@,
        element.attributes() == Seq::<(Seq<char>, Seq<char>)>::empty(),
        *element.sink() == *old(out),
        *final(element.sink()) == *final(out),
{
    Element::new(out, "h2")
}

/// The `h3` element.
pub fn h3<'a, W>(out: &'a mut Sink<W>) -> (element: Element<'a, W>)
    ensures
        element.name() == "h3"@,
        element.attributes() == Seq::<(Seq<char>, Seq<char>)>::empty(),
        *element.sink() == *old(out),
        *final(element.sink()) == *final(out),
{
    Element::new(out, "h3")
}

/// The `h4` element.
pub fn h4<'a, W>(out: &'a mut Sink<W>) -> (element: Element<'a, W>)
    ensures
        element.name() == "h4"@,
        element.attributes() == Seq::<(Seq<char>, Seq<char>)>::empty(),
        *element.sink() == *old(out),
        *final(element.sink()) == *final(out),
{
    Element::new(out, "h4")
}

/// The `h5` element.
pub fn h5<'a, W>(out: &'a mut Sink<W>) -> (element: Element<'a, W>)
    ensures
        element.name() == "h5"@,
        element.attributes() == Seq::<(Seq<char>, Seq<char>)>::empty(),
        *element.sink() == *old(out),
        *final(element.sink()) == *final(out),
{
    Element::new(out, "h5")
}

/// The `h6` element.
pub fn h6<'a, W>(out: &'a mut Sink<W>) -> (element: Element<'a, W>)
    ensures
        element.name() == "h6"@,
        element.attributes() == Seq::<(Seq<char>, Seq<char>)>::empty(),
        *element.sink() == *old(out),
        *final(element.sink()) == *final(out),
{
    Element::new(out, "h6")
}

/// The `head` element.
pub fn head<'a, W>(out: &'a mut Sink<W>) -> (element: Element<'a, W>)
    ensures
        element.name() == "head"@,
        element.attributes() == Seq::<(Seq<char>, Seq<char>)>::empty(),
        *element.sink() == *old(out),
        *final(element.sink()) == *final(out),
{
    Element::new(out, "head")
}

/// The `html` element.
pub fn html<'a, W>(out: &'a mut Sink<W>) -> (element: Element<'a, W>)
    ensures
        element.name() == "html"@,
        element.attributes() == Seq::<(Seq<char>, Seq<char>)>::empty(),
        *element.sink() == *old(out),
        *final(element.sink()) == *final(out),
{
    Element::new(out, "html")
}

/// The `i` element.
pub fn i<'a, W>(out: &'a mut Sink<W>) -> (element: Element<'a, W>)
    ensures
        element.name() == "i"@,
        element.attributes() == Seq::<(Seq<char>, Seq<char>)>::empty(),
        *element.sink() == *old(out),
        *final(element.sink()) == *final(out),
{
    Element::new(out, "i")
}

/// The `iframe` element.
pub fn iframe<'a, W>(out: &'a mut Sink<W>) -> (element: Element<'a, W>)
    ensures
        element.name() == "iframe"@,
        element.attributes() == Seq::<(Seq<char>, Seq<char>)>::empty(),
        *element.sink() == *old(out),
        *final(element.sink()) == *final(out),
{
    Element::new(out, "iframe")
}

/// The `img` element.
pub fn img<'a, W>(out: &'a mut Sink<W>) -> (element: Element<'a, W>)
    ensures
        element.name() == "img"@,
        element.attributes() == Seq::<(Seq<char>, Seq<char>)>::empty(),
        *element.sink() == *old(out),
        *final(element.sink()) == *final(out),
{
    Element::new(out, "img")
}

/// The `input` element.
pub fn input<'a, W>(out: &'a mut Sink<W>) -> (element: Element<'a, W>)
    ensures
        element.name() == "input"@,
        element.attributes() == Seq::<(Seq<char>, Seq<char>)>::empty(),
        *element.sink() == *old(out),
        *final(element.sink()) == *final(out),
{
    Element::new(out, "input")
}

/// The `label` element.
pub fn label<'a, W>(out: &'a mut Sink<W>) -> (element: Element<'a, W>)
    ensures
        element.name() == "label"@,
        element.attributes() == Seq::<(Seq<char>, Seq<char>)>::empty(),
        *element.sink() == *old(out),
        *final(element.sink()) == *final(out),
{
    Element::new(out, "label")
}

/// The `li` element.
pub fn li<'a, W>(out: &'a mut Sink<W>) -> (element: Element<'a, W>)
    ensures
        element.name() == "li"@,
        element.attributes() == Seq::<(Seq<char>, Seq<char>)>::empty(),
        *element.sink() == *old(out),
        *final(element.sink()) == *final(out),
{
    Element::new(out, "li")
}

/// The `link` element.
pub fn link<'a, W>(out: &'a mut Sink<W>) -> (element: Element<'a, W>)
    ensures
        element.name() == "link"@,
        element.attributes() == Seq::<(Seq<char>, Seq<char>)>::empty(),
        *element.sink() == *old(out),
        *final(element.sink()) == *final(out),
{
    Element::new(out, "link")
}

/// The `meta` element.
pub fn meta<'a, W>(out: &'a mut Sink<W>) -> (element: Element<'a, W>)
    ensures
        element.name() == "meta"@,
        element.attributes() == Seq::<(Seq<char>, Seq<char>)>::empty(),
        *element.sink() == *old(out),
        *final(element.sink()) == *final(out),
{
    Element::new(out, "meta")
}

/// The `nav` element.
pub fn nav<'a, W>(out: &'a mut Sink<W>) -> (element: Element<'a, W>)
    ensures
        element.name() == "nav"@,
        element.attributes() == Seq::<(Seq<char>, Seq<char>)>::empty(),
        *element.sink() == *old(out),
        *final(element.sink()) == *final(out),
{
    Element::new(out, "nav")
}

/// The `noscript` element.
pub fn noscript<'a, W>(out: &'a mut Sink<W>) -> (element: Element<'a, W>)
    ensures
        element.name() == "noscript"@,
        element.attributes() == Seq::<(Seq<char>, Seq<char>)>::empty(),
        *element.sink() == *old(out),
        *final(element.sink()) == *final(out),
{
    Element::new(out, "noscript")
}

/// The `ol` element.
pub fn ol<'a, W>(out: &'a mut Sink<W>) -> (element: Element<'a, W>)
    ensures
        element.name() == "ol"@,
        element.attributes() == Seq::<(Seq<char>, Seq<char>)>::empty(),
        *element.sink() == *old(out),
        *final(element.sink()) == *final(out),
{
    Element::new(out, "ol")
}

/// The `p` element.
pub fn p<'a, W>(out: &'a mut Sink<W>) -> (element: Element<'a, W>)
    ensures
        element.name() == "p"@,
        element.attributes() == Seq::<(Seq<char>, Seq<char>)>::empty(),
        *element.sink() == *old(out),
        *final(element.sink()) == *final(out),
{
    Element::new(out, "p")
}

/// The `pre` element.
pub fn pre<'a, W>(out: &'a mut Sink<W>) -> (element: Element<'a, W>)
    ensures
        element.name() == "pre"@,
        element.attributes() == Seq::<(Seq<char>, Seq<char>)>::empty(),
        *element.sink() == *old(out),
        *final(element.sink()) == *final(out),
{
    Element::new(out, "pre")
}

/// The `q` element.
pub fn q<'a, W>(out: &'a mut Sink<W>) -> (element: Element<'a, W>)
    ensures
        element.name() == "q"@,
        element.attributes() == Seq::<(Seq<char>, Seq<char>)>::empty(),
        *element.sink() == *old(out),
        *final(element.sink()) == *final(out),
{
    Element::new(out, "q")
}

/// The `script` element.
pub fn script<'a, W>(out: &'a mut Sink<W>) -> (element: Element<'a, W>)
    ensures
        element.name() == "script"@,
        element.attributes() == Seq::<(Seq<char>, Seq<char>)>::empty(),
        *element.sink() == *old(out),
        *final(element.sink()) == *final(out),
{
    Element::new(out, "script")
}

/// The `span` element.
pub fn span<'a, W>(out: &'a mut Sink<W>) -> (element: Element<'a, W>)
    ensures
        element.name() == "span"@,
        element.attributes() == Seq::<(Seq<char>, Seq<char>)>::empty(),
        *element.sink() == *old(out),
        *final(element.sink()) == *final(out),
{
    Element::new(out, "span")
}

/// The `strong` element.
pub fn strong<'a, W>(out: &'a mut Sink<W>) -> (element: Element<'a, W>)
    ensures
        element.name() == "strong"@,
        element.attributes() == Seq::<(Seq<char>, Seq<char>)>::empty(),
        *element.sink() == *old(out),
        *final(element.sink()) == *final(out),
{
    Element::new(out, "strong")
}

/// The `style` element.
pub fn style<'a, W>(out: &'a mut Sink<W>) -> (element: Element<'a, W>)
    ensures
        element.name() == "style"@,
        element.attributes() == Seq::<(Seq<char>, Seq<char>)>::empty(),
        *element.sink() == *old(out),
        *final(element.sink()) == *final(out),
{
    Element::new(out, "style")
}

/// The `sub` element.
pub fn sub<'a, W>(out: &'a mut Sink<W>) -> (element: Element<'a, W>)
    ensures
        element.name() == "sub"@,
        element.attributes() == Seq::<(Seq<char>, Seq<char>)>::empty(),
        *element.sink() == *old(out),
        *final(element.sink()) == *final(out),
{
    Element::new(out, "sub")
}

/// The `sup` element.
pub fn sup<'a, W>(out: &'a mut Sink<W>) -> (element: Element<'a, W>)
    ensures
        element.name() == "sup"@,
        element.attributes() == Seq::<(Seq<char>, Seq<char>)>::empty(),
        *element.sink() == *old(out),
        *final(element.sink()) == *final(out),
{
    Element::new(out, "sup")
}

/// The `svg` element.
pub fn svg<'a, W>(out: &'a mut Sink<W>) -> (element: Element<'a, W>)
    ensures
        element.name() == "svg"@,
        element.attributes() == Seq::<(Seq<char>, Seq<char>)>::empty(),
        *element.sink() == *old(out),
        *final(element.sink()) == *final(out),
{
    Element::new(out, "svg")
}

/// The `table` element.
pub fn table<'a, W>(out: &'a mut Sink<W>) -> (element: Element<'a, W>)
    ensures
        element.name() == "table"@,
        element.attributes() == Seq::<(Seq<char>, Seq<char>)>::empty(),
        *element.sink() == *old(out),
        *final(element.sink()) == *final(out),
{
    Element::new(out, "table")
}

/// The `td` element.
pub fn td<'a, W>(out: &'a mut Sink<W>) -> (element: Element<'a, W>)
    ensures
        element.name() == "td"@,
        element.attributes() == Seq::<(Seq<char>, Seq<char>)>::empty(),
        *element.sink() == *old(out),
        *final(element.sink()) == *final(out),
{
    Element::new(out, "td")
}

/// The `textarea` element.
pub fn textarea<'a, W>(out: &'a mut Sink<W>) -> (element: Element<'a, W>)
    ensures
        element.name() == "textarea"@,
        element.attributes() == Seq::<(Seq<char>, Seq<char>)>::empty(),
        *element.sink() == *old(out),
        *final(element.sink()) == *final(out),
{
    Element::new(out, "textarea")
}

/// The `th` element.
pub fn th<'a, W>(out: &'a mut Sink<W>) -> (element: Element<'a, W>)
    ensures
        element.name() == "th"@,
        element.attributes() == Seq::<(Seq<char>, Seq<char>)>::empty(),
        *element.sink() == *old(out),
        *final(element.sink()) == *final(out),
{
    Element::new(out, "th")
}

/// The `title` element.
pub fn title<'a, W>(out: &'a mut Sink<W>) -> (element: Element<'a, W>)
    ensures
        element.name() == "title"@,
        element.attributes() == Seq::<(Seq<char>, Seq<char>)>::empty(),
        *element.sink() == *old(out),
        *final(element.sink()) == *final(out),
{
    Element::new(out, "title")
}

/// The `tr` element.
pub fn tr<'a, W>(out: &'a mut Sink<W>) -> (element: Element<'a, W>)
    ensures
        element.name() == "tr"@,
        element.attributes() == Seq::<(Seq<char>, Seq<char>)>::empty(),
        *element.sink() == *old(out),
        *final(element.sink()) == *final(out),
{
    Element::new(out, "tr")
}

/// The `ul` element.
pub fn ul<'a, W>(out: &'a mut Sink<W>) -> (element: Element<'a, W>)
    ensures
        element.name() == "ul"@,
        element.attributes() == Seq::<(Seq<char>, Seq<char>)>::empty(),
        *element.sink() == *old(out),
        *final(element.sink()) == *final(out),
{
    Element::new(out, "ul")
}

/// The doctype line of an HTML document.
pub open spec fn doctype() -> Seq<char> {
    "<!DOCTYPE html>\n"@
}

/// Writes the doctype line to the output underneath, past the event writer.
pub fn write_doctype<W: Write>(out: &mut Sink<W>) -> (answer: Result<(), Error>)
    ensures
        final(out).offers() == old(out).offers().push(offer(raw(doctype()), answer is Ok)),
{
    out.raw("<!DOCTYPE html>\n")
}

} // verus!
