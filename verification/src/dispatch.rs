//! The entry-point logic behind the five calls the platform dispatcher makes:
//! enumerate-open, enumerate-next, enumerate-close, lookup-by-id and
//! lookup-by-name. Each binds the integrator's lookup hooks to the scratch
//! buffer, the output record and the status vocabulary; every internal
//! failure is converted here into a status plus an error number, and nothing
//! escapes otherwise.

use vstd::prelude::*;
use vstd::string::StringSliceAdditionalSpecFns;
use vstd::utf8::valid_utf8;
use crate::buffer::{CBuffer, EncodeError};
use crate::cursor::Cursor;
use crate::passwd::{carve_outcome, encoded_at, text_fields, CPasswd, Passwd, PasswdHooks};
use crate::status::{NssStatus, ENOENT_ERRNO, ERANGE_ERRNO};

verus! {

/// How a call that found a record reports the encode of that record: success
/// with error number zero and the record laid out from the buffer's start; or
/// try-again with the range error number when the buffer is too small; or
/// unavailable with the no-entry error number when the record cannot be
/// encoded at all. A non-success report leaves the output record and buffer
/// contents unspecified: the dispatcher contract says not to trust them.
pub open spec fn lookup_reported(
    rec: Passwd,
    pw: CPasswd,
    buf: CBuffer,
    errno: i32,
    r: NssStatus,
) -> bool {
    match carve_outcome(text_fields(rec), 0, buf.capacity()) {
        Ok(end) => r == NssStatus::Success && errno == 0 && encoded_at(rec, pw, buf, 0)
            && buf.cursor() == end,
        Err(EncodeError::InsufficientSpace) => r == NssStatus::TryAgain && errno == ERANGE_ERRNO,
        Err(EncodeError::EncodingFailure) => r == NssStatus::Unavail && errno == ENOENT_ERRNO,
    }
}

/// Turns what a lookup produced into what the dispatcher is owed: nothing
/// found reports not-found and touches nothing; a found record is encoded
/// into a freshly cleared buffer and reported as `lookup_reported` says.
pub fn encode_lookup_result(
    found: Option<Passwd>,
    pwbuf: &mut CPasswd,
    buffer: &mut CBuffer,
    errnop: &mut i32,
) -> (r: NssStatus)
    requires
        old(buffer).wf(),
    ensures
        final(buffer).wf(),
        final(buffer).capacity() == old(buffer).capacity(),
        match found {
            None => r == NssStatus::NotFound && *final(buffer) == *old(buffer) && *final(pwbuf)
                == *old(pwbuf) && *final(errnop) == *old(errnop),
            Some(rec) => lookup_reported(rec, *final(pwbuf), *final(buffer), *final(errnop), r),
        },
{
    match found {
        None => NssStatus::NotFound,
        Some(entry) => {
            buffer.clear();
            match entry.to_c_passwd(pwbuf, buffer) {
                Ok(()) => {
                    *errnop = 0;
                    NssStatus::Success
                },
                Err(EncodeError::InsufficientSpace) => {
                    *errnop = ERANGE_ERRNO;
                    NssStatus::TryAgain
                },
                Err(EncodeError::EncodingFailure) => {
                    *errnop = ENOENT_ERRNO;
                    NssStatus::Unavail
                },
            }
        },
    }
}

/// Enumerate-open: fills the stream with whatever the hooks' enumerate-all
/// produced — a possibly empty sequence, assumed never to fail — resets the
/// position, and reports success unconditionally. An open with no close in
/// between simply replaces the stream's state.
pub fn open_enumeration<H: PasswdHooks>(stream: &mut Cursor<Passwd>) -> (r: NssStatus)
    ensures
        r == NssStatus::Success,
        final(stream).wf(),
        final(stream).taken() == 0,
{
    let entries = H::get_all_entries();
    stream.open(entries);
    NssStatus::Success
}

/// Enumerate-close: discards the stream's records and position, and reports
/// success unconditionally.
pub fn close_enumeration(stream: &mut Cursor<Passwd>) -> (r: NssStatus)
    ensures
        r == NssStatus::Success,
        final(stream).wf(),
        final(stream).remaining().len() == 0,
        final(stream).taken() == 0,
{
    stream.close();
    NssStatus::Success
}

/// Enumerate-next: an exhausted (or closed) stream reports not-found and
/// touches nothing; otherwise the front record is taken off the stream,
/// encoded into the cleared buffer, and reported as `lookup_reported` says.
pub fn next_enumeration(
    stream: &mut Cursor<Passwd>,
    pwbuf: &mut CPasswd,
    buffer: &mut CBuffer,
    errnop: &mut i32,
) -> (r: NssStatus)
    requires
        old(stream).wf(),
        old(buffer).wf(),
    ensures
        final(stream).wf(),
        final(buffer).wf(),
        final(buffer).capacity() == old(buffer).capacity(),
        old(stream).remaining().len() == 0 ==> r == NssStatus::NotFound && *final(stream) == *old(
            stream,
        ) && *final(buffer) == *old(buffer) && *final(pwbuf) == *old(pwbuf) && *final(errnop)
            == *old(errnop),
        old(stream).remaining().len() > 0 ==> final(stream).remaining() == old(
            stream,
        ).remaining().drop_first() && final(stream).taken() == old(stream).taken() + 1
            && lookup_reported(
            old(stream).remaining()[0],
            *final(pwbuf),
            *final(buffer),
            *final(errnop),
            r,
        ),
{
    match stream.next() {
        None => NssStatus::NotFound,
        Some(entry) => encode_lookup_result(Some(entry), pwbuf, buffer, errnop),
    }
}

/// Lookup-by-id: asks the hooks for the record with this numeric identifier.
/// Nothing found reports not-found and touches nothing; a found record is
/// encoded and reported as `lookup_reported` says, whichever record the hooks
/// chose to return.
pub fn lookup_by_uid<H: PasswdHooks>(
    uid: u32,
    pwbuf: &mut CPasswd,
    buffer: &mut CBuffer,
    errnop: &mut i32,
) -> (r: NssStatus)
    requires
        old(buffer).wf(),
    ensures
        final(buffer).wf(),
        final(buffer).capacity() == old(buffer).capacity(),
        r == NssStatus::NotFound ==> *final(buffer) == *old(buffer) && *final(pwbuf) == *old(pwbuf)
            && *final(errnop) == *old(errnop),
        r != NssStatus::NotFound ==> (exists|rec: Passwd|
            lookup_reported(rec, *final(pwbuf), *final(buffer), *final(errnop), r)),
{
    match H::get_entry_by_uid(uid) {
        None => NssStatus::NotFound,
        Some(entry) => encode_lookup_result(Some(entry), pwbuf, buffer, errnop),
    }
}

/// Relies on `core::str::from_utf8`: it succeeds exactly on well-formed
/// UTF-8 input, and the text it returns is the text those bytes encode.
#[verifier::external_body]
fn bytes_to_str(bytes: &[u8]) -> (r: Option<&str>)
    ensures
        match r {
            Some(s) => valid_utf8(bytes@) && s.spec_bytes() == bytes@,
            None => !valid_utf8(bytes@),
        },
{
    core::str::from_utf8(bytes).ok()
}

/// Lookup-by-name: validates the raw key bytes as well-formed text — a
/// malformed key reports not-found, never a crash or an undefined read — then
/// asks the hooks for the record under that name. Nothing found reports
/// not-found and touches nothing; a found record is encoded and reported as
/// `lookup_reported` says, whichever record the hooks chose to return.
pub fn lookup_by_name<H: PasswdHooks>(
    name: &[u8],
    pwbuf: &mut CPasswd,
    buffer: &mut CBuffer,
    errnop: &mut i32,
) -> (r: NssStatus)
    requires
        old(buffer).wf(),
    ensures
        final(buffer).wf(),
        final(buffer).capacity() == old(buffer).capacity(),
        !valid_utf8(name@) ==> r == NssStatus::NotFound,
        r == NssStatus::NotFound ==> *final(buffer) == *old(buffer) && *final(pwbuf) == *old(pwbuf)
            && *final(errnop) == *old(errnop),
        r != NssStatus::NotFound ==> valid_utf8(name@) && (exists|rec: Passwd|
            lookup_reported(rec, *final(pwbuf), *final(buffer), *final(errnop), r)),
{
    match bytes_to_str(name) {
        None => NssStatus::NotFound,
        Some(decoded) => {
            let key = decoded.to_owned();
            match H::get_entry_by_name(key) {
                None => NssStatus::NotFound,
                Some(entry) => encode_lookup_result(Some(entry), pwbuf, buffer, errnop),
            }
        },
    }
}

} // verus!
