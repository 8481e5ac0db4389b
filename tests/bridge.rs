use tcpp::boundary::{decode_terminated, encode_terminated, read_prefix, EncodingError};
use tcpp::diagnostic::{MessageLease, TErrorInfo};
use tcpp::session::{Callback, Holding, Phase, Resource, Session};
use tcpp::stream::IInputStream;

#[test]
fn encode_appends_terminator() {
    let r = encode_terminated("#define X 10\nint main(){}");
    let mut expected = b"#define X 10\nint main(){}".to_vec();
    expected.push(0);
    assert_eq!(r, Ok(expected));
}

#[test]
fn encode_empty_text() {
    assert_eq!(encode_terminated(""), Ok(vec![0u8]));
}

#[test]
fn encode_keeps_multibyte_characters() {
    assert_eq!(encode_terminated("é"), Ok(vec![0xc3u8, 0xa9, 0]));
}

#[test]
fn encode_rejects_embedded_terminator() {
    assert_eq!(encode_terminated("ab\0cd\0"), Err(EncodingError { position: 2 }));
    assert_eq!(encode_terminated("\0"), Err(EncodingError { position: 0 }));
}

#[test]
fn encode_is_repeatable() {
    let text = "#define X 10\nint main(){}";
    assert_eq!(encode_terminated(text), encode_terminated(text));
}

#[test]
fn read_prefix_stops_at_terminator() {
    assert_eq!(read_prefix(&[1u8, 2, 0, 3]), vec![1u8, 2]);
    assert_eq!(read_prefix(&[0u8, 3]), Vec::<u8>::new());
    assert_eq!(read_prefix(&[4u8, 5]), vec![4u8, 5]);
}

#[test]
fn decode_reads_up_to_terminator() {
    assert_eq!(decode_terminated(b"int x;\0garbage"), Some(String::from("int x;")));
    assert_eq!(decode_terminated(b"\xc3\xa9\0"), Some(String::from("é")));
    assert_eq!(decode_terminated(b"\0"), Some(String::new()));
}

#[test]
fn decode_rejects_malformed_utf8() {
    assert_eq!(decode_terminated(&[0xffu8, 0x41, 0]), None);
    assert_eq!(decode_terminated(&[0xc3u8, 0]), None);
}

#[test]
fn decode_after_encode_gives_text_back() {
    let text = "int main(){ return 0; } // ü";
    let bytes = encode_terminated(text).unwrap();
    assert_eq!(decode_terminated(&bytes), Some(String::from(text)));
}

#[test]
fn null_stream_is_null() {
    assert!(IInputStream::null().is_null());
    assert!(IInputStream::default().is_null());
    assert_eq!(IInputStream::null().into_source(), None);
}

#[test]
fn stream_from_text_holds_boundary_form() {
    let s = IInputStream::try_from(String::from("int y;")).ok().unwrap();
    assert!(!s.is_null());
    assert_eq!(s.into_source(), Some(b"int y;\0".to_vec()));
}

#[test]
fn stream_from_text_with_terminator_fails() {
    let r = IInputStream::try_from(String::from("a\0b"));
    assert_eq!(r.err(), Some(EncodingError { position: 1 }));
}

#[test]
fn diagnostic_accessors() {
    let d = TErrorInfo::new(3, 17);
    assert_eq!(d.get_line(), 17);
    assert_eq!(d.get_kind(), 3);
}

#[test]
fn message_copy_then_release() {
    let mut lease = MessageLease::resolved();
    assert_eq!(lease.buffer, Holding::Live);
    let text = lease.copy_out(b"unknown directive\0");
    assert_eq!(text, Some(String::from("unknown directive")));
    assert_eq!(lease.buffer, Holding::Live);
    assert!(lease.copied);
    lease.release();
    assert_eq!(lease.buffer, Holding::Freed);
}

#[test]
fn message_copy_failure_still_releases() {
    let mut lease = MessageLease::resolved();
    assert_eq!(lease.copy_out(&[0xfeu8, 0]), None);
    lease.release();
    assert_eq!(lease.buffer, Holding::Freed);
}

#[test]
fn message_resolved_twice_is_equal() {
    let raw = b"bad directive\0";
    let mut first = MessageLease::resolved();
    let a = first.copy_out(raw);
    first.release();
    let mut second = MessageLease::resolved();
    let b = second.copy_out(raw);
    second.release();
    assert_eq!(a, b);
    assert_eq!(first.buffer, Holding::Freed);
    assert_eq!(second.buffer, Holding::Freed);
}

#[test]
fn plain_run_releases_input() {
    let mut s = Session::new(false);
    let input = s.convert_input("#define X 10\nint main(){}").unwrap();
    assert_eq!(input.last(), Some(&0u8));
    assert_eq!(s.phase, Phase::InputConverted);
    s.enter_engine();
    assert_eq!(s.context, Holding::Absent);
    let out = s.engine_returned(b"\nint main(){}\0");
    assert_eq!(out, Some(String::from("\nint main(){}")));
    assert_eq!(s.release(), vec![Resource::Input]);
    assert_eq!(s.phase, Phase::Released);
    assert_eq!(s.input, Holding::Freed);
}

#[test]
fn failed_conversion_calls_nothing() {
    let mut s = Session::new(true);
    assert_eq!(s.convert_input("x\0y"), Err(EncodingError { position: 1 }));
    assert_eq!(s.phase, Phase::Released);
    assert!(!s.engine_called);
    assert_eq!(s.input, Holding::Absent);
    assert_eq!(s.context, Holding::Absent);
}

#[test]
fn quiet_run_releases_context_and_behaviors() {
    let mut s = Session::new(true);
    s.convert_input("#define X 10\nint main(){}").unwrap();
    s.enter_engine();
    assert_eq!(s.context, Holding::Live);
    s.engine_returned(b"int main(){}\0");
    assert_eq!(s.diagnostics, 0);
    assert_eq!(s.inclusions, 0);
    assert_eq!(
        s.release(),
        vec![
            Resource::Input,
            Resource::ErrorBehavior,
            Resource::InclusionBehavior,
            Resource::Context
        ]
    );
    assert_eq!(s.context, Holding::Freed);
    assert_eq!(s.error_behavior, Holding::Freed);
    assert_eq!(s.inclusion_behavior, Holding::Freed);
}

#[test]
fn every_diagnostic_is_dispatched_once() {
    let mut s = Session::new(true);
    s.convert_input("#defined X 1\nint main(){}").unwrap();
    s.enter_engine();
    let mut lines: Vec<usize> = Vec::new();
    for line in [1usize, 1, 2] {
        s.dispatch(Callback::Diagnostic);
        assert_eq!(s.phase, Phase::CallbackDispatch);
        assert_eq!(s.error_behavior, Holding::Live);
        lines.push(TErrorInfo::new(0, line).get_line());
        s.resume();
    }
    s.dispatch(Callback::Inclusion);
    s.resume();
    assert_eq!(s.diagnostics, 3);
    assert_eq!(s.inclusions, 1);
    assert_eq!(lines, vec![1usize, 1, 2]);
    assert_eq!(s.engine_returned(&[0xffu8, 0]), None);
    assert_eq!(s.release().len(), 4);
    assert_eq!(s.phase, Phase::Released);
}

#[test]
fn diagnostic_on_first_line_has_message() {
    let mut s = Session::new(true);
    s.convert_input("#defined X 1\nint main(){}").unwrap();
    s.enter_engine();
    s.dispatch(Callback::Diagnostic);
    let info = TErrorInfo::new(7, 1);
    let mut lease = MessageLease::resolved();
    let message = lease.copy_out(b"unknown directive\0");
    lease.release();
    let sink = vec![(info.get_line(), message.unwrap())];
    s.resume();
    s.engine_returned(b"\nint main(){}\0");
    s.release();
    assert_eq!(sink[0].0, 1);
    assert!(!sink[0].1.is_empty());
    assert_eq!(s.input, Holding::Freed);
    assert_eq!(s.context, Holding::Freed);
}
