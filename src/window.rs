//! Window descriptions and the requests that create, name, show and destroy
//! windows and colormaps.

use vstd::prelude::*;
use vstd::slice::slice_to_vec;
use vstd::string::StringSliceAdditionalSpecFns;
use crate::setup::Screen;
use crate::wire::u32_at;

verus! {

/// Window class of a window that both draws and takes input.
pub const XCB_WINDOW_CLASS_INPUT_OUTPUT: u16 = 1;

/// Attribute bit: background pixel.
pub const XCB_CW_BACK_PIXEL: u32 = 2;

/// Attribute bit: border pixel.
pub const XCB_CW_BORDER_PIXEL: u32 = 8;

/// Attribute bit: colormap.
pub const XCB_CW_COLORMAP: u32 = 8192;

/// Number of window attributes, one bit of the mask each.
pub const WINDOW_ATTRIBUTE_COUNT: u32 = 15;

/// Property mode that replaces the old value.
pub const XCB_PROP_MODE_REPLACE: u8 = 0;

/// The predefined atom of the string type.
pub const XCB_ATOM_STRING: u32 = 31;

/// The predefined atom of the window title property.
pub const XCB_ATOM_WM_NAME: u32 = 39;

/// Colormap allocation policy that allocates no entries.
pub const XCB_COLORMAP_ALLOC_NONE: u8 = 0;

/// The values of the window attributes, in the order of their mask bits.
#[allow(non_camel_case_types)]
#[derive(PartialEq, Eq, Structural, Clone, Copy, Debug)]
pub struct xcb_create_window_value_list_t {
    pub background_pixmap: u32,
    pub background_pixel: u32,
    pub border_pixmap: u32,
    pub border_pixel: u32,
    pub bit_gravity: u32,
    pub win_gravity: u32,
    pub backing_store: u32,
    pub backing_planes: u32,
    pub backing_pixel: u32,
    pub override_redirect: u32,
    pub save_under: u32,
    pub event_mask: u32,
    pub do_not_propagate_mask: u32,
    pub colormap: u32,
    pub cursor: u32,
}

/// Whether bit `i` of `mask` is set.
pub open spec fn mask_has(mask: u32, i: u32) -> bool {
    mask & (1u32 << i) != 0
}

/// The values among the first `n` of `vals` whose bits `mask` sets, in bit order.
pub open spec fn selected_values(vals: Seq<u32>, mask: u32, n: nat) -> Seq<u32>
    decreases n,
{
    if n == 0 {
        Seq::empty()
    } else if mask_has(mask, (n - 1) as u32) {
        selected_values(vals, mask, (n - 1) as nat).push(vals[n - 1])
    } else {
        selected_values(vals, mask, (n - 1) as nat)
    }
}

impl xcb_create_window_value_list_t {
    /// All attribute values, in the order of their mask bits.
    pub open spec fn values(&self) -> Seq<u32> {
        seq![
            self.background_pixmap,
            self.background_pixel,
            self.border_pixmap,
            self.border_pixel,
            self.bit_gravity,
            self.win_gravity,
            self.backing_store,
            self.backing_planes,
            self.backing_pixel,
            self.override_redirect,
            self.save_under,
            self.event_mask,
            self.do_not_propagate_mask,
            self.colormap,
            self.cursor,
        ]
    }

    /// A list with every value zero.
    pub fn zeroed() -> (r: Self)
        ensures
            forall|i: int| 0 <= i < 15 ==> #[trigger] r.values()[i] == 0,
    {
        xcb_create_window_value_list_t {
            background_pixmap: 0,
            background_pixel: 0,
            border_pixmap: 0,
            border_pixel: 0,
            bit_gravity: 0,
            win_gravity: 0,
            backing_store: 0,
            backing_planes: 0,
            backing_pixel: 0,
            override_redirect: 0,
            save_under: 0,
            event_mask: 0,
            do_not_propagate_mask: 0,
            colormap: 0,
            cursor: 0,
        }
    }

    /// The values whose bits `mask` sets, in bit order, as the create request
    /// carries them.
    pub fn serialize(&self, mask: u32) -> (r: Vec<u32>)
        ensures
            r@ == selected_values(self.values(), mask, 15),
    {
        let vals: [u32; 15] = [
            self.background_pixmap,
            self.background_pixel,
            self.border_pixmap,
            self.border_pixel,
            self.bit_gravity,
            self.win_gravity,
            self.backing_store,
            self.backing_planes,
            self.backing_pixel,
            self.override_redirect,
            self.save_under,
            self.event_mask,
            self.do_not_propagate_mask,
            self.colormap,
            self.cursor,
        ];
        assert(vals@ == self.values());
        let mut out: Vec<u32> = Vec::new();
        let mut i: u32 = 0;
        while i < WINDOW_ATTRIBUTE_COUNT
            invariant
                i <= 15,
                vals@ == self.values(),
                out@ == selected_values(self.values(), mask, i as nat),
            decreases 15 - i,
        {
            if mask & (1u32 << i) != 0 {
                out.push(vals[i as usize]);
            }
            i = i + 1;
        }
        out
    }
}

/// The request that creates a window.
#[derive(Debug)]
pub struct CreateWindowRequest {
    pub depth: u8,
    pub wid: u32,
    pub parent: u32,
    pub x: i16,
    pub y: i16,
    pub width: u16,
    pub height: u16,
    pub border_width: u16,
    pub class: u16,
    pub visual: u32,
    pub value_mask: u32,
    pub value_list: Vec<u32>,
}

/// Describes a top-level window: its depth and visual, parent, position, size,
/// border, class, and the attributes set so far.
#[derive(Debug)]
pub struct WindowBuilder {
    pub depth: u8,
    pub parent: u32,
    pub pos: (i16, i16),
    pub sz: (u16, u16),
    pub border: u16,
    pub class: u16,
    pub visual: u32,
    pub attributes: u32,
    pub attribute_list: xcb_create_window_value_list_t,
}

impl WindowBuilder {
    /// A 128 by 128 window at the origin of the screen's root window, with the
    /// root's depth and visual and no attributes set.
    pub fn new(base_screen: &Screen) -> (r: Self)
        ensures
            r.depth == base_screen.bytes()[base_screen.offset() + 38],
            r.visual as int == u32_at(base_screen.bytes(), base_screen.offset() + 32),
            r.parent as int == u32_at(base_screen.bytes(), base_screen.offset()),
            r.pos == (0i16, 0i16),
            r.sz == (128u16, 128u16),
            r.border == 0,
            r.class == XCB_WINDOW_CLASS_INPUT_OUTPUT,
            r.attributes == 0,
            forall|i: int| 0 <= i < 15 ==> #[trigger] r.attribute_list.values()[i] == 0,
    {
        WindowBuilder::on_parent(base_screen.root(), base_screen.root_depth(), base_screen.root_visual())
    }

    /// A 128 by 128 child of `parent` at its origin, with the given depth and
    /// visual and no attributes set.
    pub fn on_parent(parent: u32, depth: u8, visual: u32) -> (r: Self)
        ensures
            r.depth == depth,
            r.visual == visual,
            r.parent == parent,
            r.pos == (0i16, 0i16),
            r.sz == (128u16, 128u16),
            r.border == 0,
            r.class == XCB_WINDOW_CLASS_INPUT_OUTPUT,
            r.attributes == 0,
            forall|i: int| 0 <= i < 15 ==> #[trigger] r.attribute_list.values()[i] == 0,
    {
        WindowBuilder {
            depth,
            visual,
            parent,
            pos: (0, 0),
            sz: (128, 128),
            border: 0,
            class: XCB_WINDOW_CLASS_INPUT_OUTPUT,
            attributes: 0,
            attribute_list: xcb_create_window_value_list_t::zeroed(),
        }
    }

    /// Sets the width and height.
    pub fn size(&mut self, s: (u16, u16)) -> (r: &mut Self)
        ensures
            *r == (WindowBuilder { sz: s, ..*old(self) }),
            *final(self) == *final(r),
    {
        self.sz = s;
        self
    }

    /// Sets the depth and the visual.
    pub fn visual(&mut self, depth: u8, vid: u32) -> (r: &mut Self)
        ensures
            *r == (WindowBuilder { depth: depth, visual: vid, ..*old(self) }),
            *final(self) == *final(r),
    {
        self.depth = depth;
        self.visual = vid;
        self
    }

    /// Sets the border pixel attribute.
    pub fn border_pixel(&mut self, p: u32) -> (r: &mut Self)
        ensures
            *r == (WindowBuilder {
                attributes: old(self).attributes | XCB_CW_BORDER_PIXEL,
                attribute_list: xcb_create_window_value_list_t {
                    border_pixel: p,
                    ..old(self).attribute_list
                },
                ..*old(self)
            }),
            *final(self) == *final(r),
    {
        self.attributes = self.attributes | XCB_CW_BORDER_PIXEL;
        self.attribute_list.border_pixel = p;
        self
    }

    /// Sets the background pixel attribute.
    pub fn back_pixel(&mut self, p: u32) -> (r: &mut Self)
        ensures
            *r == (WindowBuilder {
                attributes: old(self).attributes | XCB_CW_BACK_PIXEL,
                attribute_list: xcb_create_window_value_list_t {
                    background_pixel: p,
                    ..old(self).attribute_list
                },
                ..*old(self)
            }),
            *final(self) == *final(r),
    {
        self.attributes = self.attributes | XCB_CW_BACK_PIXEL;
        self.attribute_list.background_pixel = p;
        self
    }

    /// Sets the colormap attribute.
    pub fn colormap(&mut self, c: &Colormap) -> (r: &mut Self)
        ensures
            *r == (WindowBuilder {
                attributes: old(self).attributes | XCB_CW_COLORMAP,
                attribute_list: xcb_create_window_value_list_t {
                    colormap: c.id,
                    ..old(self).attribute_list
                },
                ..*old(self)
            }),
            *final(self) == *final(r),
    {
        self.attributes = self.attributes | XCB_CW_COLORMAP;
        self.attribute_list.colormap = c.id;
        self
    }

    /// The window `id` as this builder describes it: owned by the caller, and
    /// the request that creates it, with the attribute values that the mask
    /// selects.
    pub fn create(&self, id: u32) -> (r: (Window, CreateWindowRequest))
        ensures
            r.0 == Window::Owned(id),
            r.1.depth == self.depth,
            r.1.wid == id,
            r.1.parent == self.parent,
            r.1.x == self.pos.0,
            r.1.y == self.pos.1,
            r.1.width == self.sz.0,
            r.1.height == self.sz.1,
            r.1.border_width == self.border,
            r.1.class == self.class,
            r.1.visual == self.visual,
            r.1.value_mask == self.attributes,
            r.1.value_list@ == selected_values(self.attribute_list.values(), self.attributes, 15),
    {
        let value_list = self.attribute_list.serialize(self.attributes);
        (
            Window::Owned(id),
            CreateWindowRequest {
                depth: self.depth,
                wid: id,
                parent: self.parent,
                x: self.pos.0,
                y: self.pos.1,
                width: self.sz.0,
                height: self.sz.1,
                border_width: self.border,
                class: self.class,
                visual: self.visual,
                value_mask: self.attributes,
                value_list,
            },
        )
    }
}

/// The request that replaces a property of a window.
#[derive(Debug)]
pub struct ChangePropertyRequest {
    pub mode: u8,
    pub window: u32,
    pub property: u32,
    pub type_: u32,
    pub format: u8,
    pub data: Vec<u8>,
}

/// A window handle: owned, so that this value destroys the window when it
/// goes, or borrowed from a holder that manages its lifetime.
#[derive(PartialEq, Eq, Structural, Debug)]
pub enum Window {
    Owned(u32),
    Borrowed(u32),
}

impl Window {
    pub open spec fn spec_id(&self) -> u32 {
        match *self {
            Window::Owned(w) => w,
            Window::Borrowed(w) => w,
        }
    }

    /// The window's identifier.
    pub fn id(&self) -> (r: u32)
        ensures
            r == self.spec_id(),
    {
        match *self {
            Window::Owned(w) => w,
            Window::Borrowed(w) => w,
        }
    }

    /// Whether this handle may change the window: only an owned one may.
    pub fn is_owned(&self) -> (r: bool)
        ensures
            r == self is Owned,
    {
        match *self {
            Window::Owned(_) => true,
            Window::Borrowed(_) => false,
        }
    }

    /// The request that replaces `property` of the window with the string `data`.
    pub fn replace_property(&self, property: u32, data: &str) -> (r: ChangePropertyRequest)
        requires
            self is Owned,
        ensures
            r.mode == XCB_PROP_MODE_REPLACE,
            r.window == self.spec_id(),
            r.property == property,
            r.type_ == XCB_ATOM_STRING,
            r.format == 8,
            r.data@ == data.spec_bytes(),
    {
        ChangePropertyRequest {
            mode: XCB_PROP_MODE_REPLACE,
            window: self.id(),
            property,
            type_: XCB_ATOM_STRING,
            format: 8,
            data: slice_to_vec(data.as_bytes()),
        }
    }

    /// The window to make visible.
    pub fn map(&self) -> (r: u32)
        requires
            self is Owned,
        ensures
            r == self.spec_id(),
    {
        self.id()
    }

    /// The window to destroy when this handle goes: its own where it is owned,
    /// none where it is borrowed.
    pub fn destroy_on_drop(&self) -> (r: Option<u32>)
        ensures
            self is Owned ==> r == Some(self.spec_id()),
            self is Borrowed ==> r is None,
    {
        match *self {
            Window::Owned(w) => Some(w),
            Window::Borrowed(_) => None,
        }
    }
}

/// The request that creates a colormap.
#[derive(PartialEq, Eq, Structural, Clone, Copy, Debug)]
pub struct CreateColormapRequest {
    pub alloc: u8,
    pub mid: u32,
    pub window: u32,
    pub visual: u32,
}

/// A colormap handle; it lives as long as the connection.
#[derive(PartialEq, Eq, Structural, Clone, Copy, Debug)]
pub struct Colormap {
    pub id: u32,
}

impl Colormap {
    /// The colormap `id` for `visual` on the screen of `window`, with the
    /// allocation policy `alloc`, and the request that creates it.
    pub fn new(id: u32, visual: u32, window: u32, alloc: u8) -> (r: (Colormap, CreateColormapRequest))
        ensures
            r.0.id == id,
            r.1 == (CreateColormapRequest { alloc, mid: id, window, visual }),
    {
        (Colormap { id }, CreateColormapRequest { alloc, mid: id, window, visual })
    }

    /// The colormap's identifier.
    pub fn id(&self) -> (r: u32)
        ensures
            r == self.id,
    {
        self.id
    }
}

} // verus!
