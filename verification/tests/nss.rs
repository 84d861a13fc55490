use libnss::buffer::{CBuffer, EncodeError};
use libnss::cursor::{
    enumeration_yields_in_order, interleaved_streams_progress, open_close_next_yields_none, Cursor,
};
use libnss::dispatch::{
    close_enumeration, encode_lookup_result, lookup_by_name, lookup_by_uid, next_enumeration,
    open_enumeration,
};
use libnss::passwd::{CPasswd, Passwd, PasswdHooks};
use libnss::status::{NssStatus, ENOENT_ERRNO, ERANGE_ERRNO};

fn alice() -> Passwd {
    Passwd {
        name: "alice".to_string(),
        passwd: "x".to_string(),
        uid: 1000,
        gid: 1000,
        gecos: "Alice".to_string(),
        dir: "/home/alice".to_string(),
        shell: "/bin/bash".to_string(),
    }
}

struct AliceHooks;

impl PasswdHooks for AliceHooks {
    fn get_all_entries() -> Vec<Passwd> {
        vec![alice()]
    }

    fn get_entry_by_uid(uid: u32) -> Option<Passwd> {
        if uid == 1000 {
            Some(alice())
        } else {
            None
        }
    }

    fn get_entry_by_name(name: String) -> Option<Passwd> {
        if name == "alice" {
            Some(alice())
        } else {
            None
        }
    }
}

/// Hooks whose record cannot be encoded: an interior nul in a textual field.
struct NulHooks;

impl PasswdHooks for NulHooks {
    fn get_all_entries() -> Vec<Passwd> {
        Vec::new()
    }

    fn get_entry_by_uid(_uid: u32) -> Option<Passwd> {
        let mut p = alice();
        p.gecos = "bad\u{0}text".to_string();
        Some(p)
    }

    fn get_entry_by_name(_name: String) -> Option<Passwd> {
        None
    }
}

/// Reads the terminated byte string that starts at `off`, terminator included.
fn read_cstr(buffer: &CBuffer, off: usize) -> Vec<u8> {
    let bytes = buffer.contents_bytes();
    let mut out = Vec::new();
    let mut i = off;
    loop {
        out.push(bytes[i]);
        if bytes[i] == 0 {
            break;
        }
        i += 1;
    }
    out
}

#[test]
fn status_codes_match_platform() {
    assert_eq!(NssStatus::Success.to_c(), 1);
    assert_eq!(NssStatus::NotFound.to_c(), 0);
    assert_eq!(NssStatus::Unavail.to_c(), -1);
    assert_eq!(NssStatus::TryAgain.to_c(), -2);
}

#[test]
fn write_str_lays_out_terminated_bytes() {
    let mut buffer = CBuffer::new(16);
    let off = buffer.write_str("hi").unwrap();
    assert_eq!(off, 0);
    assert_eq!(buffer.cursor_pos(), 3);
    assert_eq!(&buffer.contents_bytes()[0..3], b"hi\0");
}

#[test]
fn write_str_empty_string_consumes_one_byte() {
    let mut buffer = CBuffer::new(4);
    let off = buffer.write_str("").unwrap();
    assert_eq!(off, 0);
    assert_eq!(buffer.cursor_pos(), 1);
    assert_eq!(buffer.contents_bytes()[0], 0);
    let off2 = buffer.write_str("a").unwrap();
    assert_eq!(off2, 1);
    assert_eq!(buffer.cursor_pos(), 3);
}

#[test]
fn write_str_fails_on_zero_capacity() {
    let mut buffer = CBuffer::new(0);
    assert_eq!(buffer.write_str("a"), Err(EncodeError::InsufficientSpace));
    assert_eq!(buffer.cursor_pos(), 0);
}

#[test]
fn write_str_rejects_interior_nul() {
    let mut buffer = CBuffer::new(16);
    assert_eq!(
        buffer.write_str("a\u{0}b"),
        Err(EncodeError::EncodingFailure)
    );
    assert_eq!(buffer.cursor_pos(), 0);
}

#[test]
fn write_str_is_all_or_nothing() {
    let mut buffer = CBuffer::new(4);
    assert_eq!(
        buffer.write_str("toolong"),
        Err(EncodeError::InsufficientSpace)
    );
    assert_eq!(buffer.cursor_pos(), 0);
    assert_eq!(buffer.contents_bytes(), &[0u8; 4]);
}

#[test]
fn encode_round_trips_every_textual_field() {
    let mut buffer = CBuffer::new(64);
    let mut out = CPasswd::new();
    assert_eq!(alice().to_c_passwd(&mut out, &mut buffer), Ok(()));
    assert_eq!(out.uid, 1000);
    assert_eq!(out.gid, 1000);
    assert_eq!(read_cstr(&buffer, out.name), b"alice\0");
    assert_eq!(read_cstr(&buffer, out.passwd), b"x\0");
    assert_eq!(read_cstr(&buffer, out.gecos), b"Alice\0");
    assert_eq!(read_cstr(&buffer, out.dir), b"/home/alice\0");
    assert_eq!(read_cstr(&buffer, out.shell), b"/bin/bash\0");
    assert_eq!(out.name, 0);
    assert_eq!(out.passwd, 6);
    assert_eq!(out.gecos, 8);
    assert_eq!(out.dir, 14);
    assert_eq!(out.shell, 26);
    assert_eq!(buffer.cursor_pos(), 36);
}

#[test]
fn encode_writes_nothing_when_first_field_does_not_fit() {
    let mut buffer = CBuffer::new(4);
    let mut out = CPasswd::new();
    assert_eq!(
        alice().to_c_passwd(&mut out, &mut buffer),
        Err(EncodeError::InsufficientSpace)
    );
    assert_eq!(buffer.cursor_pos(), 0);
    assert_eq!(buffer.contents_bytes(), &[0u8; 4]);
}

#[test]
fn enumeration_preserves_order() {
    let mut stream: Cursor<i32> = Cursor::new();
    stream.open(vec![1, 2, 3]);
    assert_eq!(stream.next(), Some(1));
    assert_eq!(stream.next(), Some(2));
    assert_eq!(stream.next(), Some(3));
    assert_eq!(stream.next(), None);
    assert_eq!(enumeration_yields_in_order(vec![10, 20, 30], 1), Some(20));
    assert_eq!(enumeration_yields_in_order(vec![10, 20, 30], 3), None);
}

#[test]
fn open_then_close_leaves_no_residual_state() {
    let mut stream: Cursor<i32> = Cursor::new();
    stream.open(vec![1, 2]);
    stream.close();
    assert_eq!(stream.next(), None);
    assert_eq!(open_close_next_yields_none(vec![5, 6, 7]), None);
}

#[test]
fn repeated_open_replaces_the_stream() {
    let mut stream: Cursor<i32> = Cursor::new();
    stream.open(vec![1, 2]);
    assert_eq!(stream.next(), Some(1));
    stream.open(vec![7]);
    assert_eq!(stream.next(), Some(7));
    assert_eq!(stream.next(), None);
}

#[test]
fn independent_streams_make_independent_progress() {
    let mut users: Cursor<i32> = Cursor::new();
    let mut groups: Cursor<&str> = Cursor::new();
    users.open(vec![1, 2]);
    groups.open(vec!["wheel", "audio"]);
    assert_eq!(users.next(), Some(1));
    assert_eq!(groups.next(), Some("wheel"));
    users.close();
    assert_eq!(groups.next(), Some("audio"));
    assert_eq!(users.next(), None);
    assert_eq!(groups.next(), None);
    let (a, b) = interleaved_streams_progress(vec![4, 5], vec!["x"]);
    assert_eq!(a, Some(4));
    assert_eq!(b, Some("x"));
}

#[test]
fn dispatch_enumeration_walks_all_entries() {
    let mut stream: Cursor<Passwd> = Cursor::new();
    let mut buffer = CBuffer::new(64);
    let mut out = CPasswd::new();
    let mut errno: i32 = -7;
    assert_eq!(
        open_enumeration::<AliceHooks>(&mut stream),
        NssStatus::Success
    );
    assert_eq!(
        next_enumeration(&mut stream, &mut out, &mut buffer, &mut errno),
        NssStatus::Success
    );
    assert_eq!(errno, 0);
    assert_eq!(read_cstr(&buffer, out.name), b"alice\0");
    errno = 99;
    assert_eq!(
        next_enumeration(&mut stream, &mut out, &mut buffer, &mut errno),
        NssStatus::NotFound
    );
    assert_eq!(errno, 99);
    assert_eq!(close_enumeration(&mut stream), NssStatus::Success);
    assert_eq!(
        next_enumeration(&mut stream, &mut out, &mut buffer, &mut errno),
        NssStatus::NotFound
    );
}

#[test]
fn lookup_by_uid_success_with_enough_room() {
    let mut buffer = CBuffer::new(64);
    let mut out = CPasswd::new();
    let mut errno: i32 = -7;
    let status = lookup_by_uid::<AliceHooks>(1000, &mut out, &mut buffer, &mut errno);
    assert_eq!(status, NssStatus::Success);
    assert_eq!(errno, 0);
    assert_eq!(read_cstr(&buffer, out.name), b"alice\0");
}

#[test]
fn lookup_by_uid_try_again_when_buffer_is_short() {
    let mut buffer = CBuffer::new(4);
    let mut out = CPasswd::new();
    let mut errno: i32 = 0;
    let status = lookup_by_uid::<AliceHooks>(1000, &mut out, &mut buffer, &mut errno);
    assert_eq!(status, NssStatus::TryAgain);
    assert_eq!(errno, ERANGE_ERRNO);
    assert_eq!(ERANGE_ERRNO, 34);
}

#[test]
fn lookup_by_uid_not_found_for_unknown_id() {
    let mut buffer = CBuffer::new(64);
    let mut out = CPasswd::new();
    let mut errno: i32 = 5;
    let status = lookup_by_uid::<AliceHooks>(1, &mut out, &mut buffer, &mut errno);
    assert_eq!(status, NssStatus::NotFound);
    assert_eq!(errno, 5);
}

#[test]
fn lookup_reports_unavailable_when_a_field_cannot_be_encoded() {
    let mut buffer = CBuffer::new(64);
    let mut out = CPasswd::new();
    let mut errno: i32 = 0;
    let status = lookup_by_uid::<NulHooks>(1000, &mut out, &mut buffer, &mut errno);
    assert_eq!(status, NssStatus::Unavail);
    assert_eq!(errno, ENOENT_ERRNO);
    assert_eq!(ENOENT_ERRNO, 2);
}

#[test]
fn lookup_by_name_success_for_known_name() {
    let mut buffer = CBuffer::new(64);
    let mut out = CPasswd::new();
    let mut errno: i32 = -7;
    let status = lookup_by_name::<AliceHooks>(b"alice", &mut out, &mut buffer, &mut errno);
    assert_eq!(status, NssStatus::Success);
    assert_eq!(errno, 0);
    assert_eq!(read_cstr(&buffer, out.name), b"alice\0");
}

#[test]
fn lookup_by_name_not_found_for_unknown_name() {
    let mut buffer = CBuffer::new(64);
    let mut out = CPasswd::new();
    let mut errno: i32 = 5;
    let status = lookup_by_name::<AliceHooks>(b"bob", &mut out, &mut buffer, &mut errno);
    assert_eq!(status, NssStatus::NotFound);
    assert_eq!(errno, 5);
}

#[test]
fn lookup_by_name_treats_malformed_text_as_not_found() {
    let malformed: Vec<Vec<u8>> = vec![
        vec![0xff],
        vec![0xc3, 0x28],
        vec![0x80, 0x80, 0x80, 0x80, 0x80],
        vec![0xf0, 0x28, 0x8c, 0x28],
        vec![0xed, 0xa0, 0x80],
    ];
    for bytes in malformed {
        let mut buffer = CBuffer::new(64);
        let mut out = CPasswd::new();
        let mut errno: i32 = 5;
        let status = lookup_by_name::<AliceHooks>(&bytes, &mut out, &mut buffer, &mut errno);
        assert_eq!(status, NssStatus::NotFound);
        assert_eq!(errno, 5);
    }
}

#[test]
fn encode_lookup_result_reports_not_found_for_nothing() {
    let mut buffer = CBuffer::new(8);
    let mut out = CPasswd::new();
    let mut errno: i32 = 3;
    let status = encode_lookup_result(None, &mut out, &mut buffer, &mut errno);
    assert_eq!(status, NssStatus::NotFound);
    assert_eq!(errno, 3);
    assert_eq!(buffer.cursor_pos(), 0);
}

#[test]
fn buffer_is_cleared_between_calls() {
    let mut buffer = CBuffer::new(64);
    let mut out = CPasswd::new();
    let mut errno: i32 = 0;
    assert_eq!(
        lookup_by_uid::<AliceHooks>(1000, &mut out, &mut buffer, &mut errno),
        NssStatus::Success
    );
    let first_cursor = buffer.cursor_pos();
    assert_eq!(
        lookup_by_uid::<AliceHooks>(1000, &mut out, &mut buffer, &mut errno),
        NssStatus::Success
    );
    assert_eq!(buffer.cursor_pos(), first_cursor);
    assert_eq!(out.name, 0);
}
