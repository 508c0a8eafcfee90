use nestxml::{element, html, Sink};
use std::cell::Cell;
use std::io::{self, Write};
use xml::writer::Error;
use xml::EmitterConfig;

/// An output with room for so many bytes; a write that does not fit fails.
struct Limited {
    room: usize,
    written: Vec<u8>,
}

impl Write for Limited {
    fn write(&mut self, buf: &[u8]) -> io::Result<usize> {
        if buf.len() > self.room {
            self.room = 0;
            return Err(io::Error::new(io::ErrorKind::Other, "no room"));
        }
        self.room -= buf.len();
        self.written.extend_from_slice(buf);
        Ok(buf.len())
    }

    fn flush(&mut self) -> io::Result<()> {
        Ok(())
    }
}

fn limited(room: usize) -> Sink<Limited> {
    Sink::new(
        EmitterConfig::new()
            .write_document_declaration(false)
            .normalize_empty_elements(false)
            .create_writer(Limited { room, written: Vec::new() }),
    )
}

fn written(sink: Sink<Limited>) -> String {
    String::from_utf8(sink.into_inner().into_inner().written).unwrap()
}

fn plain() -> Sink<Vec<u8>> {
    Sink::new(
        EmitterConfig::new()
            .write_document_declaration(false)
            .normalize_empty_elements(false)
            .create_writer(Vec::new()),
    )
}

#[derive(Debug)]
enum Failure {
    Sink(Error),
    Own(u32),
}

impl From<Error> for Failure {
    fn from(error: Error) -> Self {
        Failure::Sink(error)
    }
}

#[test]
fn failed_content_leaves_the_element_open() {
    let mut sink = plain();
    let result: Result<(), Failure> = element(&mut sink, "a").write_res(|out| {
        element(out, "b").text("x")?;
        Err(Failure::Own(7))
    });
    assert!(matches!(result, Err(Failure::Own(7))));
    let bytes = sink.into_inner().into_inner();
    assert_eq!(String::from_utf8(bytes).unwrap(), "<a><b>x</b>");
}

#[test]
fn failure_deep_inside_closes_nothing_on_the_way_out() {
    let mut sink = plain();
    let result: Result<u8, Failure> = element(&mut sink, "a").write_res(|out| {
        element(out, "b").write_res(|out| {
            element(out, "c").empty()?;
            Err(Failure::Own(1))
        })?;
        element(out, "never").empty()?;
        Ok(0)
    });
    assert!(matches!(result, Err(Failure::Own(1))));
    let bytes = sink.into_inner().into_inner();
    assert_eq!(String::from_utf8(bytes).unwrap(), "<a><b><c></c>");
}

#[test]
fn refused_start_tag_ends_the_write() {
    let mut sink = limited(0);
    let called = Cell::new(false);
    let result = element(&mut sink, "a").write(|_| {
        called.set(true);
        Ok(())
    });
    assert!(matches!(result, Err(Error::Io(_))));
    assert!(!called.get());
    assert_eq!(written(sink), "");
}

#[test]
fn refused_start_tag_may_be_written_in_part() {
    let mut sink = limited(4);
    let called = Cell::new(false);
    let result = element(&mut sink, "a").attr("k", "v").write(|_| {
        called.set(true);
        Ok(())
    });
    assert!(matches!(result, Err(Error::Io(_))));
    assert!(!called.get());
    assert_eq!(written(sink), "<a k");
}

#[test]
fn refused_end_tag_fails_the_write() {
    let mut sink = limited(3);
    let called = Cell::new(false);
    let result = element(&mut sink, "a").write(|_| {
        called.set(true);
        Ok(())
    });
    assert!(matches!(result, Err(Error::Io(_))));
    assert!(called.get());
    assert_eq!(written(sink), "<a>");
}

#[test]
fn sink_failure_is_carried_into_the_callers_error() {
    let mut sink = limited(0);
    let result: Result<u32, Failure> = element(&mut sink, "a").write_res(|_| Ok(1));
    assert!(matches!(result, Err(Failure::Sink(Error::Io(_)))));
}

#[test]
fn refused_end_tag_is_carried_into_the_callers_error() {
    let mut sink = limited(3);
    let result: Result<u32, Failure> = element(&mut sink, "a").write_res(|_| Ok(1));
    assert!(matches!(result, Err(Failure::Sink(Error::Io(_)))));
    assert_eq!(written(sink), "<a>");
}

#[test]
fn text_stops_at_the_first_refusal() {
    let mut sink = limited(3);
    let result = element(&mut sink, "a").text("hello");
    assert!(matches!(result, Err(Error::Io(_))));
    assert_eq!(written(sink), "<a>");
}

#[test]
fn text_without_room_for_the_end_tag() {
    let mut sink = limited(8);
    let result = element(&mut sink, "a").text("hello");
    assert!(matches!(result, Err(Error::Io(_))));
    assert_eq!(written(sink), "<a>hello");
}

#[test]
fn text_with_just_enough_room() {
    let mut sink = limited(12);
    element(&mut sink, "a").text("hello").unwrap();
    assert_eq!(written(sink), "<a>hello</a>");
}

#[test]
fn empty_stops_at_a_refused_start_tag() {
    let mut sink = limited(2);
    let result = element(&mut sink, "a").empty();
    assert!(matches!(result, Err(Error::Io(_))));
    assert_eq!(written(sink), "<a");
}

#[test]
fn empty_without_room_for_the_end_tag() {
    let mut sink = limited(3);
    let result = element(&mut sink, "a").empty();
    assert!(matches!(result, Err(Error::Io(_))));
    assert_eq!(written(sink), "<a>");
}

#[test]
fn second_child_fails_and_the_parent_stays_open() {
    let mut sink = limited(14);
    let result = element(&mut sink, "p").write(|out| {
        element(out, "a").text("1")?;
        element(out, "b").text("2")
    });
    assert!(matches!(result, Err(Error::Io(_))));
    assert_eq!(written(sink), "<p><a>1</a><b>");
}

#[test]
fn end_tag_with_nothing_open_is_the_writers_error() {
    let mut sink = plain();
    let result = sink.end_element();
    assert!(matches!(result, Err(Error::LastElementNameNotAvailable)));
}

#[test]
fn content_that_closes_its_parent_makes_the_end_tag_fail() {
    let mut sink = plain();
    let result = element(&mut sink, "a").write(|out| out.end_element());
    assert!(matches!(result, Err(Error::LastElementNameNotAvailable)));
    let bytes = sink.into_inner().into_inner();
    assert_eq!(String::from_utf8(bytes).unwrap(), "<a></a>");
}

#[test]
fn end_tag_without_a_name_needs_the_writers_name_stack() {
    let mut sink = Sink::new(
        EmitterConfig::new()
            .write_document_declaration(false)
            .keep_element_names_stack(false)
            .create_writer(Vec::new()),
    );
    let result = element(&mut sink, "a").empty();
    assert!(matches!(result, Err(Error::EndElementNameIsNotSpecified)));
}

#[test]
fn raw_text_fails_with_the_outputs_failure() {
    let mut sink = limited(2);
    let result = sink.raw("abc");
    assert!(matches!(result, Err(Error::Io(_))));
    assert_eq!(written(sink), "");
}

#[test]
fn doctype_fails_with_the_outputs_failure() {
    let mut sink = limited(5);
    let result = html::write_doctype(&mut sink);
    assert!(matches!(result, Err(Error::Io(_))));
}

#[test]
fn characters_fail_when_the_output_is_full() {
    let mut sink = limited(3);
    sink.start_element("a", &Vec::new()).unwrap();
    assert!(matches!(sink.characters("x"), Err(Error::Io(_))));
    assert_eq!(written(sink), "<a>");
}

#[test]
fn close_hands_failed_content_back_and_writes_nothing() {
    let mut sink = plain();
    sink.start_element("a", &Vec::new()).unwrap();
    let result: Result<u8, Failure> = nestxml::close(&mut sink, Err(Failure::Own(3)));
    assert!(matches!(result, Err(Failure::Own(3))));
    let bytes = sink.into_inner().into_inner();
    assert_eq!(String::from_utf8(bytes).unwrap(), "<a>");
}

#[test]
fn close_ends_the_element_after_content_that_succeeded() {
    let mut sink = plain();
    sink.start_element("a", &Vec::new()).unwrap();
    let result: Result<u8, Failure> = nestxml::close(&mut sink, Ok(9));
    assert!(matches!(result, Ok(9)));
    let bytes = sink.into_inner().into_inner();
    assert_eq!(String::from_utf8(bytes).unwrap(), "<a></a>");
}

#[test]
fn close_fails_with_the_sinks_failure_when_the_end_tag_is_refused() {
    let mut sink = limited(3);
    sink.start_element("a", &Vec::new()).unwrap();
    let result: Result<u8, Failure> = nestxml::close(&mut sink, Ok(9));
    assert!(matches!(result, Err(Failure::Sink(Error::Io(_)))));
    assert_eq!(written(sink), "<a>");
}

#[test]
fn close_with_nothing_open_is_the_writers_error() {
    let mut sink = plain();
    let result: Result<(), Error> = nestxml::close(&mut sink, Ok(()));
    assert!(matches!(result, Err(Error::LastElementNameNotAvailable)));
}
