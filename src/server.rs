//! The window server state: the visual chosen from the connection setup, its
//! colormap, the atoms of the close protocol, and the decisions of the event
//! loop.

use vstd::prelude::*;
use crate::event::{Atom, GenericEvent, XCB_CLIENT_MESSAGE, response_kind};
use crate::setup::{
    RecordKind,
    Setup,
    DepthIterator,
    Depth,
    VisualTypeIterator,
    VisualType,
    cursor_head,
    cursor_tail,
    record_offsets,
    roots_offset,
    roots_len,
};
use crate::window::{
    Colormap,
    Window,
    WindowBuilder,
    CreateWindowRequest,
    ChangePropertyRequest,
    XCB_ATOM_WM_NAME,
};
use crate::window::mask_has;
use crate::window::selected_values;
use crate::wire::{u16_at, u32_at};
use vstd::string::StringSliceAdditionalSpecFns;

verus! {

/// Visual class of a visual whose pixels hold their colours directly.
pub const XCB_VISUAL_CLASS_TRUE_COLOR: u8 = 4;

/// The depth a window of this library has.
pub const WINDOW_DEPTH: u8 = 32;

/// The atoms of the close protocol.
#[derive(PartialEq, Eq, Structural, Clone, Copy, Debug)]
pub struct Atoms {
    pub wm_protocols: Atom,
    pub wm_delete_window: Atom,
}

/// Why no window server can be set up on a display.
#[derive(PartialEq, Eq, Structural, Clone, Copy, Debug)]
pub enum InitError {
    /// The setup lists no screen.
    NoScreen,
    /// The first screen allows no 32-bit depth.
    No32bppDepth,
    /// The 32-bit depth has no TrueColor visual.
    NoTrueColorVisual,
}

/// What the setup offers a window of this library: the root window of the
/// first screen and a 32-bit TrueColor visual on it.
#[derive(PartialEq, Eq, Structural, Clone, Copy, Debug)]
pub struct VisualSelection {
    pub root: u32,
    pub visual: u32,
}

/// The first of `offs` whose byte at `delta` past it is `v`.
pub open spec fn first_with_byte(s: Seq<u8>, offs: Seq<int>, delta: int, v: u8) -> Option<int>
    decreases offs.len(),
{
    if offs.len() == 0 {
        None
    } else if s[offs[0] + delta] == v {
        Some(offs[0])
    } else {
        first_with_byte(s, offs.drop_first(), delta, v)
    }
}

/// The offset of the first screen of setup `s`.
pub open spec fn first_screen(s: Seq<u8>) -> Option<int> {
    cursor_head(record_offsets(RecordKind::Screen, s, roots_offset(s), roots_len(s)))
}

/// The offset of the first 32-bit depth of the screen at `scr`.
pub open spec fn depth_32_of(s: Seq<u8>, scr: int) -> Option<int> {
    first_with_byte(
        s,
        record_offsets(RecordKind::Depth, s, scr + 40, s[scr + 39] as nat),
        0,
        WINDOW_DEPTH,
    )
}

/// The offset of the first TrueColor visual of the depth at `d`.
pub open spec fn true_color_of(s: Seq<u8>, d: int) -> Option<int> {
    first_with_byte(
        s,
        record_offsets(RecordKind::VisualType, s, d + 8, u16_at(s, d + 2) as nat),
        4,
        XCB_VISUAL_CLASS_TRUE_COLOR,
    )
}

/// What the selection gives for setup `s`.
pub open spec fn selection_of(s: Seq<u8>) -> Result<VisualSelection, InitError> {
    match first_screen(s) {
        None => Err(InitError::NoScreen),
        Some(scr) => match depth_32_of(s, scr) {
            None => Err(InitError::No32bppDepth),
            Some(d) => match true_color_of(s, d) {
                None => Err(InitError::NoTrueColorVisual),
                Some(v) => Ok(
                    VisualSelection { root: u32_at(s, scr) as u32, visual: u32_at(s, v) as u32 },
                ),
            },
        },
    }
}

proof fn lemma_first_with_byte_tail(s: Seq<u8>, offs: Seq<int>, delta: int, v: u8)
    requires
        offs.len() > 0,
        s[offs[0] + delta] != v,
    ensures
        first_with_byte(s, offs, delta, v) == first_with_byte(s, cursor_tail(offs), delta, v),
{
}

/// Moves `it` to just past its first depth of `want` bits and yields it.
fn find_depth<'a>(it: &mut DepthIterator<'a>, want: u8) -> (r: Option<Depth<'a>>)
    requires
        old(it).wf(),
    ensures
        r is Some <==> first_with_byte(old(it).bytes(), old(it).rest(), 0, want) is Some,
        r matches Some(d) ==> d.bytes() == old(it).bytes() && first_with_byte(
            old(it).bytes(),
            old(it).rest(),
            0,
            want,
        ) == Some(d.offset()),
{
    let ghost s = it.bytes();
    let ghost target = first_with_byte(s, it.rest(), 0, want);
    loop
        invariant
            it.wf(),
            it.bytes() == s,
            first_with_byte(s, it.rest(), 0, want) == target,
            s == old(it).bytes(),
            target == first_with_byte(old(it).bytes(), old(it).rest(), 0, want),
        decreases it.rest().len(),
    {
        let ghost before = it.rest();
        match it.next() {
            None => {
                return None;
            },
            Some(d) => {
                if d.depth() == want {
                    return Some(d);
                }
                proof {
                    lemma_first_with_byte_tail(s, before, 0, want);
                }
            },
        }
    }
}

/// Moves `it` to just past its first visual type of class `class` and yields it.
fn find_visual<'a>(it: &mut VisualTypeIterator<'a>, class: u8) -> (r: Option<VisualType<'a>>)
    requires
        old(it).wf(),
    ensures
        r is Some <==> first_with_byte(old(it).bytes(), old(it).rest(), 4, class) is Some,
        r matches Some(v) ==> v.bytes() == old(it).bytes() && first_with_byte(
            old(it).bytes(),
            old(it).rest(),
            4,
            class,
        ) == Some(v.offset()),
{
    let ghost s = it.bytes();
    let ghost target = first_with_byte(s, it.rest(), 4, class);
    loop
        invariant
            it.wf(),
            it.bytes() == s,
            first_with_byte(s, it.rest(), 4, class) == target,
            s == old(it).bytes(),
            target == first_with_byte(old(it).bytes(), old(it).rest(), 4, class),
        decreases it.rest().len(),
    {
        let ghost before = it.rest();
        match it.next() {
            None => {
                return None;
            },
            Some(v) => {
                if v.class() == class {
                    return Some(v);
                }
                proof {
                    lemma_first_with_byte_tail(s, before, 4, class);
                }
            },
        }
    }
}

/// Takes the first screen of the setup, the first 32-bit depth it allows and
/// the first TrueColor visual of that depth.
pub fn choose_visual(setup: &Setup) -> (r: Result<VisualSelection, InitError>)
    ensures
        r == selection_of(setup.bytes()),
{
    let mut screens = setup.iterate_setup_roots();
    let screen = match screens.next() {
        Some(x) => x,
        None => {
            return Err(InitError::NoScreen);
        },
    };
    let mut depths = screen.iterate_allowed_depths();
    let depth = match find_depth(&mut depths, WINDOW_DEPTH) {
        Some(d) => d,
        None => {
            return Err(InitError::No32bppDepth);
        },
    };
    let mut visuals = depth.iterate_visuals();
    match find_visual(&mut visuals, XCB_VISUAL_CLASS_TRUE_COLOR) {
        Some(v) => Ok(VisualSelection { root: screen.root(), visual: v.id() }),
        None => Err(InitError::NoTrueColorVisual),
    }
}

/// `ev` is the window manager's request to close a window: a client message
/// of the protocols atom whose first data word is the delete-window atom.
pub open spec fn is_close_request(atoms: Atoms, ev: Seq<u8>) -> bool {
    response_kind(ev) == XCB_CLIENT_MESSAGE && u32_at(ev, 8) == atoms.wm_protocols && u32_at(ev, 12)
        == atoms.wm_delete_window
}

/// The state of a ready window server: the chosen root window, visual and
/// colormap, and the atoms of the close protocol.
#[derive(PartialEq, Eq, Structural, Clone, Copy, Debug)]
pub struct WindowServer {
    pub root: u32,
    pub visual: u32,
    pub cmap: Colormap,
    pub atom: Atoms,
}

/// What a native window needs sent: the request that creates it and the one
/// that sets its title.
#[derive(Debug)]
pub struct NativeWindowRequests {
    pub create: CreateWindowRequest,
    pub title: ChangePropertyRequest,
}

impl WindowServer {
    pub fn new(choice: VisualSelection, cmap: Colormap, atom: Atoms) -> (r: Self)
        ensures
            r == (WindowServer { root: choice.root, visual: choice.visual, cmap, atom }),
    {
        WindowServer { root: choice.root, visual: choice.visual, cmap, atom }
    }

    /// One turn of the event loop: whether to wait for another event after
    /// `e`. The loop ends when the event stream ends and when a close request
    /// arrives; every other event is passed over.
    pub fn process_event(&self, e: Option<&GenericEvent>) -> (keep_waiting: bool)
        ensures
            keep_waiting == (e matches Some(ev) && !is_close_request(self.atom, ev.bytes())),
    {
        match e {
            None => false,
            Some(ev) => match ev.as_client_message() {
                Some(m) => !(m.msg_type() == self.atom.wm_protocols && m.data_as_u32()
                    == self.atom.wm_delete_window),
                None => true,
            },
        }
    }

    /// The window `id`, a 32-bit child of the root with the chosen visual and
    /// colormap, black background and border, of `initial_size`, titled
    /// `caption`; owned by the caller.
    pub fn new_native_window(&self, id: u32, initial_size: (u16, u16), caption: &str) -> (r: (
        Window,
        NativeWindowRequests,
    ))
        ensures
            r.0 == Window::Owned(id),
            r.1.create.wid == id,
            r.1.create.parent == self.root,
            r.1.create.depth == WINDOW_DEPTH,
            r.1.create.visual == self.visual,
            r.1.create.x == 0 && r.1.create.y == 0,
            r.1.create.width == initial_size.0,
            r.1.create.height == initial_size.1,
            r.1.create.border_width == 0,
            r.1.create.class == crate::window::XCB_WINDOW_CLASS_INPUT_OUTPUT,
            r.1.create.value_mask == crate::window::XCB_CW_BACK_PIXEL
                | crate::window::XCB_CW_BORDER_PIXEL | crate::window::XCB_CW_COLORMAP,
            r.1.create.value_list@ == seq![0u32, 0u32, self.cmap.id],
            r.1.title.window == id,
            r.1.title.property == XCB_ATOM_WM_NAME,
            r.1.title.mode == crate::window::XCB_PROP_MODE_REPLACE,
            r.1.title.type_ == crate::window::XCB_ATOM_STRING,
            r.1.title.format == 8,
            r.1.title.data@ == caption.spec_bytes(),
    {
        let mut b = WindowBuilder::on_parent(self.root, WINDOW_DEPTH, self.visual);
        b.size(initial_size).back_pixel(0).border_pixel(0).colormap(&self.cmap);
        let (w, create) = b.create(id);
        proof {
            let vals = b.attribute_list.values();
            let m = b.attributes;
            assert(m == 8202u32) by (bit_vector)
                requires
                    m == ((0u32 | 2u32) | 8u32) | 8192u32,
            ;
            assert(mask_has(m, 0) == false) by (bit_vector) requires m == 8202u32;
            assert(mask_has(m, 1)) by (bit_vector) requires m == 8202u32;
            assert(mask_has(m, 2) == false) by (bit_vector) requires m == 8202u32;
            assert(mask_has(m, 3)) by (bit_vector) requires m == 8202u32;
            assert(mask_has(m, 4) == false) by (bit_vector) requires m == 8202u32;
            assert(mask_has(m, 5) == false) by (bit_vector) requires m == 8202u32;
            assert(mask_has(m, 6) == false) by (bit_vector) requires m == 8202u32;
            assert(mask_has(m, 7) == false) by (bit_vector) requires m == 8202u32;
            assert(mask_has(m, 8) == false) by (bit_vector) requires m == 8202u32;
            assert(mask_has(m, 9) == false) by (bit_vector) requires m == 8202u32;
            assert(mask_has(m, 10) == false) by (bit_vector) requires m == 8202u32;
            assert(mask_has(m, 11) == false) by (bit_vector) requires m == 8202u32;
            assert(mask_has(m, 12) == false) by (bit_vector) requires m == 8202u32;
            assert(mask_has(m, 13)) by (bit_vector) requires m == 8202u32;
            assert(mask_has(m, 14) == false) by (bit_vector) requires m == 8202u32;
            assert((2u32 | 8u32) | 8192u32 == 8202u32) by (bit_vector);
            reveal_with_fuel(selected_values, 16);
            assert(selected_values(vals, m, 15) =~= seq![0u32, 0u32, self.cmap.id]);
        }
        let title = w.replace_property(XCB_ATOM_WM_NAME, caption);
        (w, NativeWindowRequests { create, title })
    }
}

} // verus!
