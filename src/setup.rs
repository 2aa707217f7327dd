//! The connection setup block and the three cursors over its nested records:
//! screens, the depths a screen allows, and the visual types of a depth.
//!
//! A cursor walks the setup bytes in place. Each step yields a view of the
//! record under the cursor, then moves past it and counts it off; when the
//! count reaches zero the cursor is exhausted for good.

use vstd::prelude::*;
use crate::wire::{u16_at, u32_at, read_u16, read_u32};

verus! {

/// Length of the fixed part of the setup block.
pub const SETUP_FIXED_LEN: usize = 40;

/// Length of the fixed part of a screen record.
pub const SCREEN_FIXED_LEN: usize = 40;

/// Length of the fixed part of a depth record.
pub const DEPTH_FIXED_LEN: usize = 8;

/// Length of a visual type record.
pub const VISUALTYPE_LEN: usize = 24;

/// Length of a pixmap format record.
pub const PIXMAP_FORMAT_LEN: usize = 8;

/// The kinds of record that the setup block nests.
#[derive(PartialEq, Eq, Structural, Clone, Copy, Debug)]
pub enum RecordKind {
    Screen,
    Depth,
    VisualType,
}

pub open spec fn kind_rank(k: RecordKind) -> int {
    match k {
        RecordKind::VisualType => 0,
        RecordKind::Depth => 1,
        RecordKind::Screen => 2,
    }
}

/// Where the record of kind `k` that starts at `off` ends, if it lies within `s`.
pub open spec fn record_end(k: RecordKind, s: Seq<u8>, off: int) -> Option<int>
    decreases kind_rank(k), 0int,
{
    match k {
        RecordKind::VisualType => if 0 <= off && off + 24 <= s.len() {
            Some(off + 24)
        } else {
            None
        },
        RecordKind::Depth => if 0 <= off && off + 8 <= s.len() && off + 8 + 24 * u16_at(s, off + 2)
            <= s.len() {
            Some(off + 8 + 24 * u16_at(s, off + 2))
        } else {
            None
        },
        RecordKind::Screen => if 0 <= off && off + 40 <= s.len() {
            records_end(RecordKind::Depth, s, off + 40, s[off + 39] as nat)
        } else {
            None
        },
    }
}

/// Where `n` consecutive records of kind `k` starting at `off` end, if they all
/// lie within `s`.
pub open spec fn records_end(k: RecordKind, s: Seq<u8>, off: int, n: nat) -> Option<int>
    decreases kind_rank(k), n + 1,
{
    if n == 0 {
        if 0 <= off <= s.len() {
            Some(off)
        } else {
            None
        }
    } else {
        match record_end(k, s, off) {
            Some(e) => records_end(k, s, e, (n - 1) as nat),
            None => None,
        }
    }
}

/// The offsets of `n` consecutive records of kind `k` starting at `off`.
pub open spec fn record_offsets(k: RecordKind, s: Seq<u8>, off: int, n: nat) -> Seq<int>
    decreases n,
{
    if n == 0 {
        Seq::empty()
    } else {
        match record_end(k, s, off) {
            Some(e) => seq![off].add(record_offsets(k, s, e, (n - 1) as nat)),
            None => Seq::empty(),
        }
    }
}

pub proof fn lemma_record_offsets_len(k: RecordKind, s: Seq<u8>, off: int, n: nat)
    requires
        records_end(k, s, off, n) is Some,
    ensures
        record_offsets(k, s, off, n).len() == n,
    decreases n,
{
    if n > 0 {
        let e = record_end(k, s, off)->0;
        lemma_record_offsets_len(k, s, e, (n - 1) as nat);
    }
}

/// Where the depth record at `off` ends, checked against the bounds of `buf`.
fn depth_end_checked(buf: &[u8], off: usize) -> (r: Option<usize>)
    ensures
        r matches Some(e) ==> record_end(RecordKind::Depth, buf@, off as int) == Some(e as int),
        r is None ==> record_end(RecordKind::Depth, buf@, off as int) is None,
{
    if off > buf.len() || buf.len() - off < DEPTH_FIXED_LEN {
        return None;
    }
    let nvis = read_u16(buf, off + 2) as usize;
    if buf.len() - off - DEPTH_FIXED_LEN < VISUALTYPE_LEN * nvis {
        None
    } else {
        Some(off + DEPTH_FIXED_LEN + VISUALTYPE_LEN * nvis)
    }
}

/// Where `n` depth records starting at `off` end, checked against the bounds of `buf`.
fn depths_end_checked(buf: &[u8], off: usize, n: u8) -> (r: Option<usize>)
    ensures
        r matches Some(e) ==> records_end(RecordKind::Depth, buf@, off as int, n as nat) == Some(
            e as int,
        ),
        r is None ==> records_end(RecordKind::Depth, buf@, off as int, n as nat) is None,
{
    if off > buf.len() {
        proof {
            assert(record_end(RecordKind::Depth, buf@, off as int) is None);
        }
        return None;
    }
    let mut cur: usize = off;
    let mut i: u8 = 0;
    while i < n
        invariant
            i <= n,
            cur <= buf@.len(),
            records_end(RecordKind::Depth, buf@, off as int, n as nat) == records_end(
                RecordKind::Depth,
                buf@,
                cur as int,
                (n - i) as nat,
            ),
        decreases n - i,
    {
        match depth_end_checked(buf, cur) {
            Some(e) => {
                cur = e;
            },
            None => {
                return None;
            },
        }
        i = i + 1;
    }
    Some(cur)
}

/// Where the record of kind `k` at `off` ends, checked against the bounds of `buf`.
fn record_end_checked(buf: &[u8], k: RecordKind, off: usize) -> (r: Option<usize>)
    ensures
        r matches Some(e) ==> record_end(k, buf@, off as int) == Some(e as int),
        r is None ==> record_end(k, buf@, off as int) is None,
{
    match k {
        RecordKind::VisualType => {
            if off > buf.len() || buf.len() - off < VISUALTYPE_LEN {
                None
            } else {
                Some(off + VISUALTYPE_LEN)
            }
        },
        RecordKind::Depth => depth_end_checked(buf, off),
        RecordKind::Screen => {
            if off > buf.len() || buf.len() - off < SCREEN_FIXED_LEN {
                None
            } else {
                depths_end_checked(buf, off + SCREEN_FIXED_LEN, buf[off + 39])
            }
        },
    }
}

pub proof fn lemma_visuals_end(s: Seq<u8>, off: int, n: nat)
    requires
        0 <= off,
        off + 24 * n <= s.len(),
    ensures
        records_end(RecordKind::VisualType, s, off, n) == Some(off + 24 * n),
    decreases n,
{
    if n > 0 {
        assert(record_end(RecordKind::VisualType, s, off) == Some(off + 24));
        lemma_visuals_end(s, off + 24, (n - 1) as nat);
        assert(off + 24 + 24 * (n - 1) == off + 24 * n);
    } else {
        assert(records_end(RecordKind::VisualType, s, off, 0) == Some(off));
    }
}

/// What one step of a cursor yields: the first offset ahead of it, if any.
pub open spec fn cursor_head(rest: Seq<int>) -> Option<int> {
    if rest.len() > 0 {
        Some(rest[0])
    } else {
        None
    }
}

/// What is ahead of a cursor after one step.
pub open spec fn cursor_tail(rest: Seq<int>) -> Seq<int> {
    if rest.len() > 0 {
        rest.drop_first()
    } else {
        rest
    }
}

/// What `k` successive steps of a cursor yield, starting with `rest` ahead of it.
pub open spec fn cursor_yields(rest: Seq<int>, k: nat) -> Seq<Option<int>>
    decreases k,
{
    if k == 0 {
        Seq::empty()
    } else {
        seq![cursor_head(rest)].add(cursor_yields(cursor_tail(rest), (k - 1) as nat))
    }
}

/// A cursor with `n` records ahead of it yields each of them once, in order, on
/// its first `n` steps, and nothing on every step after those: once exhausted
/// it stays exhausted.
pub proof fn lemma_cursor_exhaustion(rest: Seq<int>, k: nat)
    ensures
        cursor_yields(rest, k).len() == k,
        forall|i: int|
            0 <= i < k ==> #[trigger] cursor_yields(rest, k)[i] == if i < rest.len() {
                Some(rest[i])
            } else {
                None
            },
    decreases k,
{
    if k > 0 {
        let tail = cursor_tail(rest);
        lemma_cursor_exhaustion(tail, (k - 1) as nat);
        let ys = cursor_yields(rest, k);
        assert(ys == seq![cursor_head(rest)].add(cursor_yields(tail, (k - 1) as nat)));
        assert forall|i: int| 0 <= i < k implies #[trigger] ys[i] == if i < rest.len() {
            Some(rest[i])
        } else {
            None
        } by {
            if i > 0 {
                assert(ys[i] == cursor_yields(tail, (k - 1) as nat)[i - 1]);
            }
        }
    }
}

/// The cursor record: the offset of the record under it and how many records
/// remain from there, or nothing once it is exhausted.
struct Cursor<'a> {
    buf: &'a [u8],
    kind: RecordKind,
    pos: Option<(usize, usize)>,
}

impl<'a> Cursor<'a> {
    spec fn rest(&self) -> Seq<int> {
        match self.pos {
            None => Seq::empty(),
            Some((off, rem)) => record_offsets(self.kind, self.buf@, off as int, rem as nat),
        }
    }

    spec fn wf(&self) -> bool {
        match self.pos {
            None => true,
            Some((off, rem)) => rem > 0 && records_end(
                self.kind,
                self.buf@,
                off as int,
                rem as nat,
            ) is Some,
        }
    }

    fn start(buf: &'a [u8], kind: RecordKind, off: usize, n: usize) -> (c: Cursor<'a>)
        requires
            records_end(kind, buf@, off as int, n as nat) is Some,
        ensures
            c.wf(),
            c.buf == buf,
            c.kind == kind,
            c.rest() == record_offsets(kind, buf@, off as int, n as nat),
    {
        if n == 0 {
            Cursor { buf, kind, pos: None }
        } else {
            Cursor { buf, kind, pos: Some((off, n)) }
        }
    }

    fn advance(&mut self) -> (r: Option<usize>)
        requires
            old(self).wf(),
        ensures
            final(self).wf(),
            final(self).buf == old(self).buf,
            final(self).kind == old(self).kind,
            r matches Some(o) ==> cursor_head(old(self).rest()) == Some(o as int),
            r is None ==> cursor_head(old(self).rest()) is None,
            final(self).rest() == cursor_tail(old(self).rest()),
            r matches Some(o) ==> record_end(old(self).kind, old(self).buf@, o as int) is Some,
    {
        match self.pos {
            None => None,
            Some((off, rem)) => {
                let ghost s = self.buf@;
                let ghost k = self.kind;
                let e = match record_end_checked(self.buf, self.kind, off) {
                    Some(e) => e,
                    // Not taken: the cursor stands on a whole record.
                    None => off,
                };
                proof {
                    assert(record_offsets(k, s, off as int, rem as nat) == seq![off as int].add(
                        record_offsets(k, s, e as int, (rem - 1) as nat),
                    ));
                    assert(seq![off as int].add(record_offsets(k, s, e as int, (rem - 1) as nat)).drop_first()
                        =~= record_offsets(k, s, e as int, (rem - 1) as nat));
                }
                if rem == 1 {
                    self.pos = None;
                } else {
                    self.pos = Some((e, rem - 1));
                }
                Some(off)
            },
        }
    }
}

/// `n` rounded up to a multiple of four.
pub open spec fn pad4(n: int) -> int {
    (n + 3) / 4 * 4
}

/// Where the screen records of the setup block `s` start: after the fixed part,
/// the padded vendor string and the pixmap formats.
pub open spec fn roots_offset(s: Seq<u8>) -> int {
    40 + pad4(u16_at(s, 24)) + 8 * (s[29] as int)
}

/// The number of screens that the setup block `s` announces.
pub open spec fn roots_len(s: Seq<u8>) -> nat {
    s[28] as nat
}

/// `s` holds a setup block whose screens, with all their depths and visual
/// types, lie within it.
pub open spec fn setup_valid(s: Seq<u8>) -> bool {
    s.len() >= 40 && records_end(RecordKind::Screen, s, roots_offset(s), roots_len(s)) is Some
}

/// The setup block that the display server sends when a connection opens.
pub struct Setup<'a> {
    buf: &'a [u8],
    roots: usize,
}

impl<'a> Setup<'a> {
    #[verifier::type_invariant]
    spec fn inv(&self) -> bool {
        setup_valid(self.buf@) && self.roots as int == roots_offset(self.buf@)
    }

    /// The bytes of the block.
    pub closed spec fn bytes(&self) -> Seq<u8> {
        self.buf@
    }

    /// Checks that `buf` holds a well-formed setup block and wraps it.
    pub fn parse(buf: &'a [u8]) -> (r: Option<Setup<'a>>)
        ensures
            r is Some <==> setup_valid(buf@),
            r matches Some(x) ==> x.bytes() == buf@,
    {
        if buf.len() < SETUP_FIXED_LEN {
            return None;
        }
        let vendor_len = read_u16(buf, 24) as usize;
        let roots = SETUP_FIXED_LEN + (vendor_len + 3) / 4 * 4 + PIXMAP_FORMAT_LEN * (buf[29] as usize);
        let n = buf[28];
        assert(roots as int == roots_offset(buf@));
        let mut cur: usize = roots;
        let mut i: u8 = 0;
        while i < n
            invariant
                i <= n,
                n as nat == roots_len(buf@),
                roots as int == roots_offset(buf@),
                buf@.len() >= 40,
                records_end(RecordKind::Screen, buf@, roots as int, n as nat) == records_end(
                    RecordKind::Screen,
                    buf@,
                    cur as int,
                    (n - i) as nat,
                ),
            decreases n - i,
        {
            match record_end_checked(buf, RecordKind::Screen, cur) {
                Some(e) => {
                    cur = e;
                },
                None => {
                    proof {
                        assert(records_end(RecordKind::Screen, buf@, cur as int, (n - i) as nat) is None);
                    }
                    return None;
                },
            }
            i = i + 1;
        }
        if cur > buf.len() {
            return None;
        }
        Some(Setup { buf, roots })
    }

    /// A cursor over the screens of the block.
    pub fn iterate_setup_roots(&self) -> (r: ScreenIterator<'a>)
        ensures
            r.bytes() == self.bytes(),
            r.wf(),
            r.rest() == record_offsets(
                RecordKind::Screen,
                self.bytes(),
                roots_offset(self.bytes()),
                roots_len(self.bytes()),
            ),
            r.rest().len() == roots_len(self.bytes()),
    {
        proof {
            use_type_invariant(self);
            assert(self.buf@.len() == self.buf.len());
            lemma_record_offsets_len(RecordKind::Screen, self.buf@, self.roots as int, roots_len(self.buf@));
        }
        ScreenIterator { cursor: Cursor::start(self.buf, RecordKind::Screen, self.roots, self.buf[28] as usize) }
    }
}

/// A screen record, read in place in the setup block.
pub struct Screen<'a> {
    buf: &'a [u8],
    off: usize,
}

impl<'a> Screen<'a> {
    #[verifier::type_invariant]
    spec fn inv(&self) -> bool {
        record_end(RecordKind::Screen, self.buf@, self.off as int) is Some
    }

    /// The setup bytes the record lies in.
    pub closed spec fn bytes(&self) -> Seq<u8> {
        self.buf@
    }

    /// Where the record starts.
    pub closed spec fn offset(&self) -> int {
        self.off as int
    }

    /// The root window of the screen.
    pub fn root(&self) -> (r: u32)
        ensures
            r as int == u32_at(self.bytes(), self.offset()),
    {
        proof {
            use_type_invariant(self);
            assert(self.buf@.len() == self.buf.len());
        }
        read_u32(self.buf, self.off)
    }

    /// The colormap the screen starts with.
    pub fn default_colormap(&self) -> (r: u32)
        ensures
            r as int == u32_at(self.bytes(), self.offset() + 4),
    {
        proof {
            use_type_invariant(self);
            assert(self.buf@.len() == self.buf.len());
        }
        read_u32(self.buf, self.off + 4)
    }

    /// The visual of the root window.
    pub fn root_visual(&self) -> (r: u32)
        ensures
            r as int == u32_at(self.bytes(), self.offset() + 32),
    {
        proof {
            use_type_invariant(self);
            assert(self.buf@.len() == self.buf.len());
        }
        read_u32(self.buf, self.off + 32)
    }

    /// The depth of the root window.
    pub fn root_depth(&self) -> (r: u8)
        ensures
            r == self.bytes()[self.offset() + 38],
    {
        proof {
            use_type_invariant(self);
            assert(self.buf@.len() == self.buf.len());
        }
        self.buf[self.off + 38]
    }

    /// A cursor over the depths the screen allows.
    pub fn iterate_allowed_depths(&self) -> (r: DepthIterator<'a>)
        ensures
            r.bytes() == self.bytes(),
            r.wf(),
            r.rest() == record_offsets(
                RecordKind::Depth,
                self.bytes(),
                self.offset() + 40,
                self.bytes()[self.offset() + 39] as nat,
            ),
            r.rest().len() == self.bytes()[self.offset() + 39],
    {
        proof {
            use_type_invariant(self);
            assert(self.buf@.len() == self.buf.len());
            lemma_record_offsets_len(RecordKind::Depth, self.buf@, self.off + 40, self.buf@[self.off + 39] as nat);
        }
        DepthIterator {
            cursor: Cursor::start(
                self.buf,
                RecordKind::Depth,
                self.off + SCREEN_FIXED_LEN,
                self.buf[self.off + 39] as usize,
            ),
        }
    }
}

/// A depth record, read in place in the setup block.
pub struct Depth<'a> {
    buf: &'a [u8],
    off: usize,
}

impl<'a> Depth<'a> {
    #[verifier::type_invariant]
    spec fn inv(&self) -> bool {
        record_end(RecordKind::Depth, self.buf@, self.off as int) is Some
    }

    /// The setup bytes the record lies in.
    pub closed spec fn bytes(&self) -> Seq<u8> {
        self.buf@
    }

    /// Where the record starts.
    pub closed spec fn offset(&self) -> int {
        self.off as int
    }

    /// The number of bits per pixel.
    pub fn depth(&self) -> (r: u8)
        ensures
            r == self.bytes()[self.offset()],
    {
        proof {
            use_type_invariant(self);
            assert(self.buf@.len() == self.buf.len());
        }
        self.buf[self.off]
    }

    /// A cursor over the visual types of this depth.
    pub fn iterate_visuals(&self) -> (r: VisualTypeIterator<'a>)
        ensures
            r.bytes() == self.bytes(),
            r.wf(),
            r.rest() == record_offsets(
                RecordKind::VisualType,
                self.bytes(),
                self.offset() + 8,
                u16_at(self.bytes(), self.offset() + 2) as nat,
            ),
            r.rest().len() == u16_at(self.bytes(), self.offset() + 2),
    {
        proof {
            use_type_invariant(self);
            assert(self.buf@.len() == self.buf.len());
        }
        let n = read_u16(self.buf, self.off + 2) as usize;
        proof {
            lemma_visuals_end(self.buf@, self.off + 8, n as nat);
            lemma_record_offsets_len(RecordKind::VisualType, self.buf@, self.off + 8, n as nat);
        }
        VisualTypeIterator {
            cursor: Cursor::start(self.buf, RecordKind::VisualType, self.off + DEPTH_FIXED_LEN, n),
        }
    }
}

/// A visual type record, read in place in the setup block.
pub struct VisualType<'a> {
    buf: &'a [u8],
    off: usize,
}

impl<'a> VisualType<'a> {
    #[verifier::type_invariant]
    spec fn inv(&self) -> bool {
        record_end(RecordKind::VisualType, self.buf@, self.off as int) is Some
    }

    /// The setup bytes the record lies in.
    pub closed spec fn bytes(&self) -> Seq<u8> {
        self.buf@
    }

    /// Where the record starts.
    pub closed spec fn offset(&self) -> int {
        self.off as int
    }

    pub fn id(&self) -> (r: u32)
        ensures
            r as int == u32_at(self.bytes(), self.offset()),
    {
        proof {
            use_type_invariant(self);
            assert(self.buf@.len() == self.buf.len());
        }
        read_u32(self.buf, self.off)
    }

    pub fn class(&self) -> (r: u8)
        ensures
            r == self.bytes()[self.offset() + 4],
    {
        proof {
            use_type_invariant(self);
            assert(self.buf@.len() == self.buf.len());
        }
        self.buf[self.off + 4]
    }

    pub fn bits_per_rgb_value(&self) -> (r: u8)
        ensures
            r == self.bytes()[self.offset() + 5],
    {
        proof {
            use_type_invariant(self);
            assert(self.buf@.len() == self.buf.len());
        }
        self.buf[self.off + 5]
    }

    pub fn colormap_entries(&self) -> (r: u16)
        ensures
            r as int == u16_at(self.bytes(), self.offset() + 6),
    {
        proof {
            use_type_invariant(self);
            assert(self.buf@.len() == self.buf.len());
        }
        read_u16(self.buf, self.off + 6)
    }

    pub fn red_mask(&self) -> (r: u32)
        ensures
            r as int == u32_at(self.bytes(), self.offset() + 8),
    {
        proof {
            use_type_invariant(self);
            assert(self.buf@.len() == self.buf.len());
        }
        read_u32(self.buf, self.off + 8)
    }

    pub fn green_mask(&self) -> (r: u32)
        ensures
            r as int == u32_at(self.bytes(), self.offset() + 12),
    {
        proof {
            use_type_invariant(self);
            assert(self.buf@.len() == self.buf.len());
        }
        read_u32(self.buf, self.off + 12)
    }

    pub fn blue_mask(&self) -> (r: u32)
        ensures
            r as int == u32_at(self.bytes(), self.offset() + 16),
    {
        proof {
            use_type_invariant(self);
            assert(self.buf@.len() == self.buf.len());
        }
        read_u32(self.buf, self.off + 16)
    }
}

/// A cursor over the screens of a setup block.
pub struct ScreenIterator<'a> {
    cursor: Cursor<'a>,
}

impl<'a> ScreenIterator<'a> {
    /// The cursor stands on a whole record, or is exhausted.
    pub closed spec fn wf(&self) -> bool {
        self.cursor.wf() && self.cursor.kind == RecordKind::Screen
    }

    /// The setup bytes the cursor walks.
    pub closed spec fn bytes(&self) -> Seq<u8> {
        self.cursor.buf@
    }

    /// The offsets of the screens still ahead of the cursor.
    pub closed spec fn rest(&self) -> Seq<int> {
        self.cursor.rest()
    }

    /// Yields the screen under the cursor and moves past it, or yields nothing
    /// once every screen has been yielded.
    pub fn next(&mut self) -> (r: Option<Screen<'a>>)
        requires
            old(self).wf(),
        ensures
            final(self).wf(),
            final(self).bytes() == old(self).bytes(),
            final(self).rest() == cursor_tail(old(self).rest()),
            r is Some <==> cursor_head(old(self).rest()) is Some,
            r matches Some(x) ==> x.bytes() == old(self).bytes() && cursor_head(old(self).rest())
                == Some(x.offset()),
    {
        match self.cursor.advance() {
            Some(off) => Some(Screen { buf: self.cursor.buf, off }),
            None => None,
        }
    }
}

/// A cursor over the depths of a screen.
pub struct DepthIterator<'a> {
    cursor: Cursor<'a>,
}

impl<'a> DepthIterator<'a> {
    /// The cursor stands on a whole record, or is exhausted.
    pub closed spec fn wf(&self) -> bool {
        self.cursor.wf() && self.cursor.kind == RecordKind::Depth
    }

    /// The setup bytes the cursor walks.
    pub closed spec fn bytes(&self) -> Seq<u8> {
        self.cursor.buf@
    }

    /// The offsets of the depths still ahead of the cursor.
    pub closed spec fn rest(&self) -> Seq<int> {
        self.cursor.rest()
    }

    /// Yields the depth under the cursor and moves past it, or yields nothing
    /// once every depth has been yielded.
    pub fn next(&mut self) -> (r: Option<Depth<'a>>)
        requires
            old(self).wf(),
        ensures
            final(self).wf(),
            final(self).bytes() == old(self).bytes(),
            final(self).rest() == cursor_tail(old(self).rest()),
            r is Some <==> cursor_head(old(self).rest()) is Some,
            r matches Some(x) ==> x.bytes() == old(self).bytes() && cursor_head(old(self).rest())
                == Some(x.offset()),
    {
        match self.cursor.advance() {
            Some(off) => Some(Depth { buf: self.cursor.buf, off }),
            None => None,
        }
    }
}

/// A cursor over the visual types of a depth.
pub struct VisualTypeIterator<'a> {
    cursor: Cursor<'a>,
}

impl<'a> VisualTypeIterator<'a> {
    /// The cursor stands on a whole record, or is exhausted.
    pub closed spec fn wf(&self) -> bool {
        self.cursor.wf() && self.cursor.kind == RecordKind::VisualType
    }

    /// The setup bytes the cursor walks.
    pub closed spec fn bytes(&self) -> Seq<u8> {
        self.cursor.buf@
    }

    /// The offsets of the visual types still ahead of the cursor.
    pub closed spec fn rest(&self) -> Seq<int> {
        self.cursor.rest()
    }

    /// Yields the visual type under the cursor and moves past it, or yields
    /// nothing once every visual type has been yielded.
    pub fn next(&mut self) -> (r: Option<VisualType<'a>>)
        requires
            old(self).wf(),
        ensures
            final(self).wf(),
            final(self).bytes() == old(self).bytes(),
            final(self).rest() == cursor_tail(old(self).rest()),
            r is Some <==> cursor_head(old(self).rest()) is Some,
            r matches Some(x) ==> x.bytes() == old(self).bytes() && cursor_head(old(self).rest())
                == Some(x.offset()),
    {
        match self.cursor.advance() {
            Some(off) => Some(VisualType { buf: self.cursor.buf, off }),
            None => None,
        }
    }
}

} // verus!
