//! Rendering of events as output lines.

use smallvectune::{handle, render_line, write_id, write_num, write_opt, ArrayInfo, Message};

fn info(id: usize, item_size: usize, array_size: usize) -> ArrayInfo {
    ArrayInfo { id, item_size, array_size }
}

#[test]
fn write_num_zero() {
    let mut out: Vec<u8> = Vec::new();
    write_num(0, &mut out);
    assert_eq!(out, b"0".to_vec());
}

#[test]
fn write_num_multi_digit() {
    let mut out: Vec<u8> = Vec::new();
    write_num(90437, &mut out);
    assert_eq!(out, b"90437".to_vec());
}

#[test]
fn write_id_appends_separator() {
    let mut out: Vec<u8> = Vec::new();
    write_id(&mut out, 17);
    assert_eq!(out, b"17;".to_vec());
}

#[test]
fn write_opt_present_and_absent() {
    let mut out: Vec<u8> = Vec::new();
    write_opt(&mut out, Some(12), b';');
    write_opt(&mut out, None, b'\n');
    assert_eq!(out, b"12;\n".to_vec());
}

#[test]
fn created_line_layout() {
    let line = render_line(info(3, 1, 2), b'+', None, Some(2));
    assert_eq!(line, b"3;1;2;+;;2\n".to_vec());
}

#[test]
fn resized_line_layout() {
    let line = render_line(info(0, 8, 4), b' ', Some(4), Some(16));
    assert_eq!(line, b"0;8;4; ;4;16\n".to_vec());
}

#[test]
fn destroyed_line_layout() {
    let line = render_line(info(12, 2, 8), b'-', Some(8), None);
    assert_eq!(line, b"12;2;8;-;8;\n".to_vec());
}

#[test]
fn handle_renders_each_event_kind() {
    let i = info(5, 1, 2);
    assert_eq!(handle(&Message::New(i, 2)).unwrap(), b"5;1;2;+;;2\n".to_vec());
    assert_eq!(handle(&Message::Resize(i, 2, 4)).unwrap(), b"5;1;2; ;2;4\n".to_vec());
    assert_eq!(handle(&Message::Drop(i, 4)).unwrap(), b"5;1;2;-;4;\n".to_vec());
}

#[test]
fn handle_stops_on_quit() {
    assert!(handle(&Message::Quit).is_none());
}
