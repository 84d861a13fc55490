//! The password-style identity record, the fixed-layout output record the
//! platform expects, the encoder that lays one into the other through the
//! scratch buffer, and the lookup capability an integrator supplies.

use vstd::prelude::*;
use vstd::utf8::encode_utf8;
use crate::buffer::{CBuffer, EncodeError};

verus! {

/// One identity record as the integrator's lookup logic produces it: a
/// primary textual key, two numeric identifiers, and free-form or path-like
/// textual attributes. Read-only once produced; consumed by one encode.
pub struct Passwd {
    pub name: String,
    pub passwd: String,
    pub uid: u32,
    pub gid: u32,
    pub gecos: String,
    pub dir: String,
    pub shell: String,
}

/// The fixed-layout output record handed back across the platform boundary.
/// Numeric fields sit inline; each textual field is the offset, within the
/// scratch buffer of the same call, of its terminated bytes. Valid only while
/// that buffer's contents stand.
pub struct CPasswd {
    pub name: usize,
    pub passwd: usize,
    pub uid: u32,
    pub gid: u32,
    pub gecos: usize,
    pub dir: usize,
    pub shell: usize,
}

impl CPasswd {
    /// An output record with every field zeroed, ready to be filled by one
    /// encode.
    pub fn new() -> (r: CPasswd)
        ensures
            r.name == 0 && r.passwd == 0 && r.uid == 0 && r.gid == 0 && r.gecos == 0 && r.dir == 0
                && r.shell == 0,
    {
        CPasswd { name: 0, passwd: 0, uid: 0, gid: 0, gecos: 0, dir: 0, shell: 0 }
    }
}

/// The lookup capability an integrator implements against [`Passwd`]: one
/// operation per entry-point family. Enumerate-all returns a possibly empty
/// sequence and is assumed always to succeed; the keyed lookups return one
/// record or nothing, and never raise.
pub trait PasswdHooks {
    fn get_all_entries() -> Vec<Passwd>;

    fn get_entry_by_uid(uid: u32) -> Option<Passwd>;

    fn get_entry_by_name(name: String) -> Option<Passwd>;
}

/// The byte encodings of a record's textual fields, in the fixed order in
/// which they are laid into the scratch buffer.
pub open spec fn text_fields(p: Passwd) -> Seq<Seq<u8>> {
    seq![
        encode_utf8(p.name@),
        encode_utf8(p.passwd@),
        encode_utf8(p.gecos@),
        encode_utf8(p.dir@),
        encode_utf8(p.shell@),
    ]
}

/// The buffer bytes the fields require: each field's length plus one
/// terminator.
pub open spec fn needed_bytes(fields: Seq<Seq<u8>>) -> int
    decreases fields.len(),
{
    if fields.len() == 0 {
        0
    } else {
        fields[0].len() + 1 + needed_bytes(fields.drop_first())
    }
}

/// What carving `fields`, in order, out of a buffer of capacity `cap`
/// starting at `cursor` comes to: the final cursor on success, or the first
/// failure — a field with an interior terminator byte, or one whose required
/// bytes exceed what is left.
pub open spec fn carve_outcome(fields: Seq<Seq<u8>>, cursor: int, cap: int) -> Result<
    int,
    EncodeError,
>
    decreases fields.len(),
{
    if fields.len() == 0 {
        Ok(cursor)
    } else if fields[0].contains(0) {
        Err(EncodeError::EncodingFailure)
    } else if cursor + fields[0].len() + 1 > cap {
        Err(EncodeError::InsufficientSpace)
    } else {
        carve_outcome(fields.drop_first(), cursor + fields[0].len() + 1, cap)
    }
}

/// The very first field already fails: encode then writes nothing at all.
pub open spec fn first_field_fails(fields: Seq<Seq<u8>>, cursor: int, cap: int) -> bool {
    fields.len() > 0 && (fields[0].contains(0) || cursor + fields[0].len() + 1 > cap)
}

/// `bytes` followed by a terminator stand in `buf` at offset `off`.
pub open spec fn holds_text_at(buf: CBuffer, off: int, bytes: Seq<u8>) -> bool {
    &&& 0 <= off
    &&& off + bytes.len() < buf.capacity()
    &&& forall|i: int| 0 <= i < bytes.len() ==> buf.contents()[off + i] == bytes[i]
    &&& buf.contents()[off + bytes.len()] == 0
}

/// The output record `pw` holds `p` encoded into `buf` from offset `start`:
/// numeric fields copied inline, each textual field's offset naming its
/// terminated bytes, the fields laid back to back in the fixed order.
pub open spec fn encoded_at(p: Passwd, pw: CPasswd, buf: CBuffer, start: int) -> bool {
    let name_b = encode_utf8(p.name@);
    let passwd_b = encode_utf8(p.passwd@);
    let gecos_b = encode_utf8(p.gecos@);
    let dir_b = encode_utf8(p.dir@);
    &&& pw.uid == p.uid
    &&& pw.gid == p.gid
    &&& pw.name == start
    &&& pw.passwd == start + name_b.len() + 1
    &&& pw.gecos == pw.passwd + passwd_b.len() + 1
    &&& pw.dir == pw.gecos + gecos_b.len() + 1
    &&& pw.shell == pw.dir + dir_b.len() + 1
    &&& holds_text_at(buf, pw.name as int, name_b)
    &&& holds_text_at(buf, pw.passwd as int, passwd_b)
    &&& holds_text_at(buf, pw.gecos as int, gecos_b)
    &&& holds_text_at(buf, pw.dir as int, dir_b)
    &&& holds_text_at(buf, pw.shell as int, encode_utf8(p.shell@))
}

/// The `len` buffer bytes starting at `off`, as a caller reading an encoded
/// field back out of the buffer sees them.
pub open spec fn read_back(buf: CBuffer, off: int, len: int) -> Seq<u8> {
    buf.contents().subrange(off, off + len)
}

/// The fields' required bytes are never negative.
pub proof fn lemma_needed_bytes_nonneg(fields: Seq<Seq<u8>>)
    ensures
        needed_bytes(fields) >= 0,
    decreases fields.len(),
{
    if fields.len() > 0 {
        lemma_needed_bytes_nonneg(fields.drop_first());
    }
}

/// Law: a sufficiently large buffer guarantees the encode succeeds. If no
/// field holds an interior terminator and the capacity left past the cursor
/// covers every field's required bytes, carving ends in success, with the
/// cursor advanced by exactly those bytes.
pub proof fn lemma_sufficient_capacity(fields: Seq<Seq<u8>>, cursor: int, cap: int)
    requires
        forall|k: int| 0 <= k < fields.len() ==> !(#[trigger] fields[k]).contains(0),
        0 <= cursor,
        cursor + needed_bytes(fields) <= cap,
    ensures
        carve_outcome(fields, cursor, cap) == Ok::<int, EncodeError>(cursor + needed_bytes(fields)),
    decreases fields.len(),
{
    if fields.len() > 0 {
        lemma_needed_bytes_nonneg(fields.drop_first());
        assert(fields.drop_first().len() == fields.len() - 1);
        assert(forall|k: int|
            0 <= k < fields.drop_first().len() ==> !(#[trigger] fields.drop_first()[k]).contains(
                0,
            ));
        lemma_sufficient_capacity(fields.drop_first(), cursor + fields[0].len() + 1, cap);
    }
}

/// Law: a buffer whose room past the cursor is strictly smaller than the
/// first field's required bytes makes the encode fail with
/// `InsufficientSpace` — and, by `to_c_passwd`'s contract, write nothing.
pub proof fn lemma_first_field_short(fields: Seq<Seq<u8>>, cursor: int, cap: int)
    requires
        fields.len() > 0,
        !fields[0].contains(0),
        cap - cursor < fields[0].len() + 1,
    ensures
        carve_outcome(fields, cursor, cap) == Err::<int, EncodeError>(
            EncodeError::InsufficientSpace,
        ),
        first_field_fails(fields, cursor, cap),
{
}

/// Law: the encode round-trips. After a successful encode, reading each
/// offset in the output record back through the buffer reproduces the
/// record's textual fields byte for byte, terminator included.
pub proof fn lemma_encode_round_trip(p: Passwd, pw: CPasswd, buf: CBuffer, start: int)
    requires
        buf.wf(),
        encoded_at(p, pw, buf, start),
    ensures
        read_back(buf, pw.name as int, encode_utf8(p.name@).len() as int + 1) == encode_utf8(
            p.name@,
        ).push(0),
        read_back(buf, pw.passwd as int, encode_utf8(p.passwd@).len() as int + 1) == encode_utf8(
            p.passwd@,
        ).push(0),
        read_back(buf, pw.gecos as int, encode_utf8(p.gecos@).len() as int + 1) == encode_utf8(
            p.gecos@,
        ).push(0),
        read_back(buf, pw.dir as int, encode_utf8(p.dir@).len() as int + 1) == encode_utf8(p.dir@).push(
            0,
        ),
        read_back(buf, pw.shell as int, encode_utf8(p.shell@).len() as int + 1) == encode_utf8(
            p.shell@,
        ).push(0),
{
    assert(read_back(buf, pw.name as int, encode_utf8(p.name@).len() as int + 1) =~= encode_utf8(
        p.name@,
    ).push(0));
    assert(read_back(buf, pw.passwd as int, encode_utf8(p.passwd@).len() as int + 1) =~= encode_utf8(
        p.passwd@,
    ).push(0));
    assert(read_back(buf, pw.gecos as int, encode_utf8(p.gecos@).len() as int + 1) =~= encode_utf8(
        p.gecos@,
    ).push(0));
    assert(read_back(buf, pw.dir as int, encode_utf8(p.dir@).len() as int + 1) =~= encode_utf8(
        p.dir@,
    ).push(0));
    assert(read_back(buf, pw.shell as int, encode_utf8(p.shell@).len() as int + 1) =~= encode_utf8(
        p.shell@,
    ).push(0));
}

impl Passwd {
    /// Lays this record into `pwbuf`, carving each textual field out of
    /// `buffer` in the fixed field order and copying the numeric fields
    /// inline. Fails fast on the first field that does not fit or cannot be
    /// terminated, leaving the output record partially populated — a caller
    /// must not trust it unless the result is success. Bytes the buffer
    /// carved before this call are never touched.
    pub fn to_c_passwd(self, pwbuf: &mut CPasswd, buffer: &mut CBuffer) -> (r: Result<
        (),
        EncodeError,
    >)
        requires
            old(buffer).wf(),
        ensures
            final(buffer).wf(),
            final(buffer).capacity() == old(buffer).capacity(),
            forall|i: int|
                0 <= i < old(buffer).cursor() ==> final(buffer).contents()[i] == old(
                    buffer,
                ).contents()[i],
            match r {
                Ok(()) => carve_outcome(
                    text_fields(self),
                    old(buffer).cursor(),
                    old(buffer).capacity(),
                ) == Ok::<int, EncodeError>(final(buffer).cursor()) && encoded_at(
                    self,
                    *final(pwbuf),
                    *final(buffer),
                    old(buffer).cursor(),
                ),
                Err(e) => carve_outcome(
                    text_fields(self),
                    old(buffer).cursor(),
                    old(buffer).capacity(),
                ) == Err::<int, EncodeError>(e),
            },
            first_field_fails(text_fields(self), old(buffer).cursor(), old(buffer).capacity())
                ==> r is Err && *final(buffer) == *old(buffer),
    {
        let ghost fields = text_fields(self);
        let ghost cap = old(buffer).capacity();
        let ghost c0 = old(buffer).cursor();
        let ghost rest1 = fields.drop_first();
        let ghost rest2 = rest1.drop_first();
        let ghost rest3 = rest2.drop_first();
        let ghost rest4 = rest3.drop_first();
        proof {
            assert(fields[0] == encode_utf8(self.name@));
            assert(rest1[0] == encode_utf8(self.passwd@));
            assert(rest2[0] == encode_utf8(self.gecos@));
            assert(rest3[0] == encode_utf8(self.dir@));
            assert(rest4[0] == encode_utf8(self.shell@));
            assert(rest4.drop_first().len() == 0);
        }

        let name_off = match buffer.write_str(self.name.as_str()) {
            Ok(off) => off,
            Err(e) => {
                return Err(e);
            },
        };
        pwbuf.name = name_off;
        let ghost c1 = buffer.cursor();
        proof {
            assert(carve_outcome(fields, c0, cap) == carve_outcome(rest1, c1, cap));
        }

        let passwd_off = match buffer.write_str(self.passwd.as_str()) {
            Ok(off) => off,
            Err(e) => {
                return Err(e);
            },
        };
        pwbuf.passwd = passwd_off;
        pwbuf.uid = self.uid;
        pwbuf.gid = self.gid;
        let ghost c2 = buffer.cursor();
        proof {
            assert(carve_outcome(rest1, c1, cap) == carve_outcome(rest2, c2, cap));
        }

        let gecos_off = match buffer.write_str(self.gecos.as_str()) {
            Ok(off) => off,
            Err(e) => {
                return Err(e);
            },
        };
        pwbuf.gecos = gecos_off;
        let ghost c3 = buffer.cursor();
        proof {
            assert(carve_outcome(rest2, c2, cap) == carve_outcome(rest3, c3, cap));
        }

        let dir_off = match buffer.write_str(self.dir.as_str()) {
            Ok(off) => off,
            Err(e) => {
                return Err(e);
            },
        };
        pwbuf.dir = dir_off;
        let ghost c4 = buffer.cursor();
        proof {
            assert(carve_outcome(rest3, c3, cap) == carve_outcome(rest4, c4, cap));
        }

        let shell_off = match buffer.write_str(self.shell.as_str()) {
            Ok(off) => off,
            Err(e) => {
                return Err(e);
            },
        };
        pwbuf.shell = shell_off;
        proof {
            assert(carve_outcome(rest4.drop_first(), c4 + rest4[0].len() + 1, cap)
                == Ok::<int, EncodeError>(buffer.cursor()));
            assert(carve_outcome(rest4, c4, cap) == Ok::<int, EncodeError>(buffer.cursor()));
            assert(holds_text_at(*buffer, name_off as int, encode_utf8(self.name@)));
            assert(holds_text_at(*buffer, passwd_off as int, encode_utf8(self.passwd@)));
            assert(holds_text_at(*buffer, gecos_off as int, encode_utf8(self.gecos@)));
            assert(holds_text_at(*buffer, dir_off as int, encode_utf8(self.dir@)));
            assert(holds_text_at(*buffer, shell_off as int, encode_utf8(self.shell@)));
        }

        Ok(())
    }
}

} // verus!
