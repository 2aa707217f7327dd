//! Events and replies as the display server sends them: fixed 32-byte records
//! whose first byte tells their kind. Each is decoded once, by that tag, into
//! an owned value.

use vstd::prelude::*;
use vstd::slice::{slice_subrange, slice_to_vec};
use crate::wire::{u16_at, u32_at, read_u16, read_u32};

verus! {

/// Length of an event, error or fixed-size reply record.
pub const RECORD_LEN: usize = 32;

/// Tag of an error record.
pub const XCB_ERROR: u8 = 0;

/// Tag of a reply record.
pub const XCB_REPLY: u8 = 1;

/// Tag of a client message event.
pub const XCB_CLIENT_MESSAGE: u8 = 33;

/// An interned atom.
pub type Atom = u32;

/// The kind of a record: its tag without the bit that marks events sent by
/// another client.
pub open spec fn response_kind(raw: Seq<u8>) -> u8 {
    (raw[0] % 128) as u8
}

/// The signed 16-bit field at `off`, least significant byte first.
pub open spec fn i16_at(s: Seq<u8>, off: int) -> int {
    if u16_at(s, off) >= 32768 {
        u16_at(s, off) - 65536
    } else {
        u16_at(s, off)
    }
}

fn read_i16(buf: &[u8], off: usize) -> (r: i16)
    requires
        off + 2 <= buf@.len(),
    ensures
        r as int == i16_at(buf@, off as int),
{
    let v = read_u16(buf, off);
    if v >= 32768 {
        (v as i32 - 65536) as i16
    } else {
        v as i16
    }
}

/// An event record.
#[derive(Debug)]
pub struct GenericEvent {
    raw: Vec<u8>,
}

impl GenericEvent {
    #[verifier::type_invariant]
    spec fn inv(&self) -> bool {
        self.raw@.len() == RECORD_LEN
    }

    /// The bytes of the record.
    pub closed spec fn bytes(&self) -> Seq<u8> {
        self.raw@
    }

    /// Takes an event record; `None` unless it is exactly one record long.
    pub fn from_bytes(raw: &[u8]) -> (r: Option<GenericEvent>)
        ensures
            r is Some <==> raw@.len() == RECORD_LEN,
            r matches Some(e) ==> e.bytes() == raw@,
    {
        if raw.len() == RECORD_LEN {
            Some(GenericEvent { raw: slice_to_vec(raw) })
        } else {
            None
        }
    }

    /// The kind of the event.
    pub fn response_type(&self) -> (r: u8)
        ensures
            r == response_kind(self.bytes()),
    {
        proof {
            use_type_invariant(self);
        }
        let t = self.raw[0];
        assert(t & 0x7f == t % 128) by (bit_vector);
        t & 0x7f
    }

    /// The event as a client message, where that is its kind.
    pub fn as_client_message(&self) -> (r: Option<ClientMessageEvent>)
        ensures
            r is Some <==> response_kind(self.bytes()) == XCB_CLIENT_MESSAGE,
            r matches Some(m) ==> m.bytes() == self.bytes(),
    {
        proof {
            use_type_invariant(self);
        }
        if self.response_type() == XCB_CLIENT_MESSAGE {
            Some(ClientMessageEvent { raw: slice_to_vec(self.raw.as_slice()) })
        } else {
            None
        }
    }

    /// The record as an error, where that is its kind.
    pub fn as_error(&self) -> (r: Option<GenericError>)
        ensures
            r is Some <==> self.bytes()[0] == XCB_ERROR,
            r matches Some(e) ==> e.bytes() == self.bytes(),
    {
        proof {
            use_type_invariant(self);
        }
        if self.raw[0] == XCB_ERROR {
            Some(GenericError { raw: slice_to_vec(self.raw.as_slice()) })
        } else {
            None
        }
    }
}

/// A message that one client sends another through the server, such as the
/// window manager's request to close a window.
#[derive(Debug)]
pub struct ClientMessageEvent {
    raw: Vec<u8>,
}

impl ClientMessageEvent {
    #[verifier::type_invariant]
    spec fn inv(&self) -> bool {
        self.raw@.len() == RECORD_LEN && response_kind(self.raw@) == XCB_CLIENT_MESSAGE
    }

    /// The bytes of the record.
    pub closed spec fn bytes(&self) -> Seq<u8> {
        self.raw@
    }

    /// The window the message is about.
    pub fn window(&self) -> (r: u32)
        ensures
            r as int == u32_at(self.bytes(), 4),
    {
        proof {
            use_type_invariant(self);
        }
        read_u32(self.raw.as_slice(), 4)
    }

    /// The atom that names what the message means.
    pub fn msg_type(&self) -> (r: Atom)
        ensures
            r as int == u32_at(self.bytes(), 8),
    {
        proof {
            use_type_invariant(self);
        }
        read_u32(self.raw.as_slice(), 8)
    }

    /// The first 32-bit word of the message data.
    pub fn data_as_u32(&self) -> (r: u32)
        ensures
            r as int == u32_at(self.bytes(), 12),
    {
        proof {
            use_type_invariant(self);
        }
        read_u32(self.raw.as_slice(), 12)
    }

    /// The first 64 bits of the message data.
    pub fn data_as_u64(&self) -> (r: u64)
        ensures
            r as int == u32_at(self.bytes(), 12) + 4294967296 * u32_at(self.bytes(), 16),
    {
        proof {
            use_type_invariant(self);
        }
        let lo = read_u32(self.raw.as_slice(), 12) as u64;
        let hi = read_u32(self.raw.as_slice(), 16) as u64;
        lo + hi * 4294967296
    }
}

/// An error record: the server's answer to a request it could not carry out.
#[derive(Debug)]
pub struct GenericError {
    raw: Vec<u8>,
}

impl GenericError {
    #[verifier::type_invariant]
    spec fn inv(&self) -> bool {
        self.raw@.len() == RECORD_LEN && self.raw@[0] == XCB_ERROR
    }

    /// The bytes of the record.
    pub closed spec fn bytes(&self) -> Seq<u8> {
        self.raw@
    }

    /// What went wrong.
    pub fn error_code(&self) -> (r: u8)
        ensures
            r == self.bytes()[1],
    {
        proof {
            use_type_invariant(self);
        }
        self.raw[1]
    }

    /// The request that failed.
    pub fn major_code(&self) -> (r: u8)
        ensures
            r == self.bytes()[10],
    {
        proof {
            use_type_invariant(self);
        }
        self.raw[10]
    }

    /// The extension request that failed, where the request belongs to one.
    pub fn minor_code(&self) -> (r: u16)
        ensures
            r as int == u16_at(self.bytes(), 8),
    {
        proof {
            use_type_invariant(self);
        }
        read_u16(self.raw.as_slice(), 8)
    }
}

/// Why a reply could not be read.
#[derive(Debug)]
pub enum ReplyError {
    /// The server answered with an error record.
    Protocol(GenericError),
    /// The record is too short or carries neither tag.
    Malformed,
}

/// Splits a reply record by its tag: the record itself where it is a reply,
/// the error where it is an error.
fn classify_reply(raw: &[u8]) -> (r: Result<(), ReplyError>)
    ensures
        raw@.len() >= RECORD_LEN && raw@[0] == XCB_REPLY ==> r is Ok,
        raw@.len() >= RECORD_LEN && raw@[0] == XCB_ERROR ==> (r matches Err(
            ReplyError::Protocol(e),
        ) && e.bytes() == raw@.subrange(0, RECORD_LEN as int)),
        !(raw@.len() >= RECORD_LEN && (raw@[0] == XCB_REPLY || raw@[0] == XCB_ERROR)) ==> r
            matches Err(ReplyError::Malformed),
{
    if raw.len() < RECORD_LEN {
        Err(ReplyError::Malformed)
    } else if raw[0] == XCB_REPLY {
        Ok(())
    } else if raw[0] == XCB_ERROR {
        let rec = slice_to_vec(slice_subrange(raw, 0, RECORD_LEN));
        Err(ReplyError::Protocol(GenericError { raw: rec }))
    } else {
        Err(ReplyError::Malformed)
    }
}

/// The position and size of a drawable.
#[derive(Clone, Copy, Debug)]
pub struct Geometry {
    pub pos: (i16, i16),
    pub size: (u16, u16),
}

impl Geometry {
    /// Reads the reply to a geometry query.
    pub fn from_reply(raw: &[u8]) -> (r: Result<Geometry, ReplyError>)
        ensures
            raw@.len() >= RECORD_LEN && raw@[0] == XCB_REPLY ==> (r matches Ok(g) && g.pos.0
                == i16_at(raw@, 12) && g.pos.1 == i16_at(raw@, 14) && g.size.0 == u16_at(raw@, 16)
                && g.size.1 == u16_at(raw@, 18)),
            raw@.len() >= RECORD_LEN && raw@[0] == XCB_ERROR ==> (r matches Err(
                ReplyError::Protocol(e),
            ) && e.bytes() == raw@.subrange(0, RECORD_LEN as int)),
            !(raw@.len() >= RECORD_LEN && (raw@[0] == XCB_REPLY || raw@[0] == XCB_ERROR)) ==> r
                matches Err(ReplyError::Malformed),
    {
        match classify_reply(raw) {
            Ok(()) => Ok(
                Geometry {
                    pos: (read_i16(raw, 12), read_i16(raw, 14)),
                    size: (read_u16(raw, 16), read_u16(raw, 18)),
                },
            ),
            Err(e) => Err(e),
        }
    }

    /// The width and height.
    pub fn client_size(&self) -> (r: (usize, usize))
        ensures
            r.0 == self.size.0,
            r.1 == self.size.1,
    {
        (self.size.0 as usize, self.size.1 as usize)
    }
}

/// Reads the reply to an atom interning request.
pub fn atom_from_reply(raw: &[u8]) -> (r: Result<Atom, ReplyError>)
    ensures
        raw@.len() >= RECORD_LEN && raw@[0] == XCB_REPLY ==> (r matches Ok(a) && a == u32_at(
            raw@,
            8,
        )),
        raw@.len() >= RECORD_LEN && raw@[0] == XCB_ERROR ==> (r matches Err(ReplyError::Protocol(e))
            && e.bytes() == raw@.subrange(0, RECORD_LEN as int)),
        !(raw@.len() >= RECORD_LEN && (raw@[0] == XCB_REPLY || raw@[0] == XCB_ERROR)) ==> r
            matches Err(ReplyError::Malformed),
{
    match classify_reply(raw) {
        Ok(()) => Ok(read_u32(raw, 8)),
        Err(e) => Err(e),
    }
}

} // verus!
