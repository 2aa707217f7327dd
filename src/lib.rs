//! A native window layer over the X11 protocol: the connection setup is read
//! through cursors over its records, a 32-bit TrueColor visual is chosen,
//! windows are described and requested, and close requests are detected in
//! the event stream. A Win32 backend shares the event-loop decisions.

mod wire;
pub mod setup;
pub mod event;
pub mod window;
pub mod server;
pub mod win32;

pub use setup::{Setup, Screen, Depth, VisualType, ScreenIterator, DepthIterator, VisualTypeIterator};
pub use event::{Atom, GenericEvent, ClientMessageEvent, GenericError, Geometry, ReplyError, atom_from_reply};
pub use window::{xcb_create_window_value_list_t, WindowBuilder, Window, Colormap, CreateWindowRequest, ChangePropertyRequest, CreateColormapRequest};
pub use server::{Atoms, WindowServer, VisualSelection, InitError, NativeWindowRequests, choose_visual};
