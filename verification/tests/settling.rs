use std::io::{Error, ErrorKind};

use lines::settle;

#[test]
fn settle_strips_the_terminator() {
    let mut buffer = String::from("line\n");
    assert_eq!(settle(&mut buffer, Ok(5)).unwrap().unwrap(), "line");
    assert_eq!(buffer, "line");
}

#[test]
fn settle_strips_one_terminator_only() {
    let mut buffer = String::from("line\n\n");
    assert_eq!(settle(&mut buffer, Ok(6)).unwrap().unwrap(), "line\n");
    assert_eq!(buffer, "line\n");
}

#[test]
fn settle_keeps_a_line_without_terminator() {
    let mut buffer = String::from("line");
    assert_eq!(settle(&mut buffer, Ok(4)).unwrap().unwrap(), "line");
    assert_eq!(buffer, "line");
}

#[test]
fn settle_keeps_terminators_inside_the_line() {
    let mut buffer = String::from("a\nb");
    assert_eq!(settle(&mut buffer, Ok(3)).unwrap().unwrap(), "a\nb");
}

#[test]
fn settle_yields_an_empty_line_for_a_terminator() {
    let mut buffer = String::from("\n");
    let pulled = settle(&mut buffer, Ok(1));
    assert_eq!(pulled.unwrap().unwrap(), "");
    assert_eq!(buffer, "");
}

#[test]
fn settle_is_done_on_an_empty_buffer() {
    let mut buffer = String::new();
    assert!(settle(&mut buffer, Ok(0)).is_none());
    assert_eq!(buffer, "");
}

#[test]
fn settle_goes_by_the_buffer_not_the_count() {
    let mut buffer = String::from("text\n");
    assert_eq!(settle(&mut buffer, Ok(0)).unwrap().unwrap(), "text");
    let mut empty = String::new();
    assert!(settle(&mut empty, Ok(7)).is_none());
}

#[test]
fn settle_passes_the_failure_on() {
    let mut buffer = String::from("half a li");
    let cause = Error::new(ErrorKind::UnexpectedEof, "cut short");
    let passed = settle(&mut buffer, Err(cause)).unwrap().unwrap_err();
    assert_eq!(passed.kind(), ErrorKind::UnexpectedEof);
    assert_eq!(passed.to_string(), "cut short");
    assert_eq!(buffer, "half a li");
}

#[test]
fn settle_passes_the_failure_on_with_a_terminated_buffer() {
    let mut buffer = String::from("whole\n");
    let cause = Error::new(ErrorKind::Other, "late");
    assert!(settle(&mut buffer, Err(cause)).unwrap().is_err());
    assert_eq!(buffer, "whole\n");
}
