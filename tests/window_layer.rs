use ws_common::event::{XCB_CLIENT_MESSAGE, RECORD_LEN};
use ws_common::server::{XCB_VISUAL_CLASS_TRUE_COLOR, WINDOW_DEPTH};
use ws_common::win32::{client_rect_size, extended_style, keep_pumping, message_action, MessageAction, WM_DESTROY, WS_EX_NOREDIRECTIONBITMAP};
use ws_common::window::{XCB_ATOM_STRING, XCB_ATOM_WM_NAME, XCB_COLORMAP_ALLOC_NONE, XCB_CW_BACK_PIXEL, XCB_CW_BORDER_PIXEL, XCB_CW_COLORMAP, XCB_PROP_MODE_REPLACE, XCB_WINDOW_CLASS_INPUT_OUTPUT};
use ws_common::{
    atom_from_reply, choose_visual, xcb_create_window_value_list_t, Atoms, Colormap, GenericEvent, Geometry, InitError,
    ReplyError, Setup, VisualSelection, Window, WindowBuilder, WindowServer,
};

fn put_u16(b: &mut Vec<u8>, off: usize, v: u16) {
    b[off..off + 2].copy_from_slice(&v.to_le_bytes());
}

fn put_u32(b: &mut Vec<u8>, off: usize, v: u32) {
    b[off..off + 4].copy_from_slice(&v.to_le_bytes());
}

struct VisualSpec {
    id: u32,
    class: u8,
}

struct DepthSpec {
    depth: u8,
    visuals: Vec<VisualSpec>,
}

struct ScreenSpec {
    root: u32,
    default_colormap: u32,
    root_visual: u32,
    root_depth: u8,
    depths: Vec<DepthSpec>,
}

fn screen_bytes(s: &ScreenSpec) -> Vec<u8> {
    let mut b = vec![0u8; 40];
    put_u32(&mut b, 0, s.root);
    put_u32(&mut b, 4, s.default_colormap);
    put_u32(&mut b, 32, s.root_visual);
    b[38] = s.root_depth;
    b[39] = s.depths.len() as u8;
    for d in &s.depths {
        let mut db = vec![0u8; 8];
        db[0] = d.depth;
        put_u16(&mut db, 2, d.visuals.len() as u16);
        for v in &d.visuals {
            let mut vb = vec![0u8; 24];
            put_u32(&mut vb, 0, v.id);
            vb[4] = v.class;
            vb[5] = 8;
            put_u16(&mut vb, 6, 256);
            put_u32(&mut vb, 8, 0x00ff_0000);
            put_u32(&mut vb, 12, 0x0000_ff00);
            put_u32(&mut vb, 16, 0x0000_00ff);
            db.extend_from_slice(&vb);
        }
        b.extend_from_slice(&db);
    }
    b
}

fn setup_bytes(vendor: &[u8], formats: u8, screens: &[ScreenSpec]) -> Vec<u8> {
    let mut b = vec![0u8; 40];
    b[0] = 1;
    put_u16(&mut b, 24, vendor.len() as u16);
    b[28] = screens.len() as u8;
    b[29] = formats;
    b.extend_from_slice(vendor);
    while b.len() % 4 != 0 {
        b.push(0);
    }
    for _ in 0..formats {
        b.extend_from_slice(&[24, 32, 32, 0, 0, 0, 0, 0]);
    }
    for s in screens {
        b.extend_from_slice(&screen_bytes(s));
    }
    b
}

fn visual(id: u32, class: u8) -> VisualSpec {
    VisualSpec { id, class }
}

fn depth(depth: u8, visuals: Vec<VisualSpec>) -> DepthSpec {
    DepthSpec { depth, visuals }
}

fn screen(root: u32, depths: Vec<DepthSpec>) -> ScreenSpec {
    ScreenSpec { root, default_colormap: 0x20, root_visual: 0x21, root_depth: 24, depths }
}

fn typical_setup() -> Vec<u8> {
    setup_bytes(
        b"The X.Org Foundation",
        2,
        &[screen(
            0x1d5,
            vec![
                depth(24, vec![visual(0x21, 4), visual(0x22, 5)]),
                depth(1, vec![]),
                depth(32, vec![visual(0x60, 5), visual(0x61, 4), visual(0x62, 4)]),
            ],
        )],
    )
}

fn client_message(type_atom: u32, data0: u32) -> Vec<u8> {
    let mut b = vec![0u8; 32];
    b[0] = XCB_CLIENT_MESSAGE;
    b[1] = 32;
    put_u32(&mut b, 4, 0x0040_0001);
    put_u32(&mut b, 8, type_atom);
    put_u32(&mut b, 12, data0);
    b
}

fn atoms() -> Atoms {
    Atoms { wm_protocols: 300, wm_delete_window: 301 }
}

fn server() -> WindowServer {
    WindowServer::new(VisualSelection { root: 0x1d5, visual: 0x61 }, Colormap { id: 0x0040_0000 }, atoms())
}

#[test]
fn setup_rejects_short_block() {
    assert!(Setup::parse(&[0u8; 39]).is_none());
}

#[test]
fn setup_rejects_truncated_screen() {
    let mut b = typical_setup();
    b.pop();
    assert!(Setup::parse(&b).is_none());
}

#[test]
fn setup_accepts_no_screens() {
    let b = setup_bytes(b"v", 0, &[]);
    let setup = Setup::parse(&b).unwrap();
    let mut it = setup.iterate_setup_roots();
    assert!(it.next().is_none());
    assert!(it.next().is_none());
}

#[test]
fn screen_cursor_yields_each_screen_once_then_nothing() {
    let b = setup_bytes(
        b"abcde",
        1,
        &[
            screen(10, vec![depth(24, vec![visual(1, 4)])]),
            screen(20, vec![]),
            screen(30, vec![depth(32, vec![visual(2, 4), visual(3, 4)])]),
        ],
    );
    let setup = Setup::parse(&b).unwrap();
    let mut it = setup.iterate_setup_roots();
    assert_eq!(it.next().unwrap().root(), 10);
    assert_eq!(it.next().unwrap().root(), 20);
    assert_eq!(it.next().unwrap().root(), 30);
    for _ in 0..5 {
        assert!(it.next().is_none());
    }
}

#[test]
fn depth_and_visual_cursors_walk_in_order() {
    let b = typical_setup();
    let setup = Setup::parse(&b).unwrap();
    let scr = setup.iterate_setup_roots().next().unwrap();
    assert_eq!(scr.root(), 0x1d5);
    assert_eq!(scr.default_colormap(), 0x20);
    assert_eq!(scr.root_visual(), 0x21);
    assert_eq!(scr.root_depth(), 24);
    let mut depths = scr.iterate_allowed_depths();
    let d0 = depths.next().unwrap();
    assert_eq!(d0.depth(), 24);
    let d1 = depths.next().unwrap();
    assert_eq!(d1.depth(), 1);
    assert!(d1.iterate_visuals().next().is_none());
    let d2 = depths.next().unwrap();
    assert_eq!(d2.depth(), 32);
    assert!(depths.next().is_none());
    assert!(depths.next().is_none());
    let mut vis = d2.iterate_visuals();
    let ids: Vec<u32> = vec![vis.next().unwrap().id(), vis.next().unwrap().id(), vis.next().unwrap().id()];
    assert_eq!(ids, vec![0x60, 0x61, 0x62]);
    assert!(vis.next().is_none());
}

#[test]
fn visual_type_fields() {
    let b = typical_setup();
    let setup = Setup::parse(&b).unwrap();
    let scr = setup.iterate_setup_roots().next().unwrap();
    let d = scr.iterate_allowed_depths().next().unwrap();
    let v = d.iterate_visuals().next().unwrap();
    assert_eq!(v.id(), 0x21);
    assert_eq!(v.class(), 4);
    assert_eq!(v.bits_per_rgb_value(), 8);
    assert_eq!(v.colormap_entries(), 256);
    assert_eq!(v.red_mask(), 0x00ff_0000);
    assert_eq!(v.green_mask(), 0x0000_ff00);
    assert_eq!(v.blue_mask(), 0x0000_00ff);
}

#[test]
fn choose_visual_takes_first_true_color_of_first_32_bit_depth() {
    let b = typical_setup();
    let setup = Setup::parse(&b).unwrap();
    assert_eq!(choose_visual(&setup), Ok(VisualSelection { root: 0x1d5, visual: 0x61 }));
}

#[test]
fn choose_visual_without_screen() {
    let b = setup_bytes(b"", 0, &[]);
    assert_eq!(choose_visual(&Setup::parse(&b).unwrap()), Err(InitError::NoScreen));
}

#[test]
fn choose_visual_without_32_bit_depth() {
    let b = setup_bytes(b"", 0, &[screen(1, vec![depth(24, vec![visual(5, 4)])]), screen(2, vec![depth(32, vec![visual(6, 4)])])]);
    assert_eq!(choose_visual(&Setup::parse(&b).unwrap()), Err(InitError::No32bppDepth));
}

#[test]
fn choose_visual_without_true_color() {
    let b = setup_bytes(b"", 0, &[screen(1, vec![depth(32, vec![visual(5, 5), visual(6, 3)]), depth(32, vec![visual(7, 4)])])]);
    assert_eq!(choose_visual(&Setup::parse(&b).unwrap()), Err(InitError::NoTrueColorVisual));
}

#[test]
fn event_kind_drops_sent_bit() {
    let mut raw = client_message(1, 2);
    raw[0] = XCB_CLIENT_MESSAGE | 0x80;
    let e = GenericEvent::from_bytes(&raw).unwrap();
    assert_eq!(e.response_type(), XCB_CLIENT_MESSAGE);
    assert!(e.as_client_message().is_some());
    assert!(e.as_error().is_none());
}

#[test]
fn event_needs_whole_record() {
    assert!(GenericEvent::from_bytes(&[0u8; 31]).is_none());
    assert!(GenericEvent::from_bytes(&[0u8; 33]).is_none());
    assert!(GenericEvent::from_bytes(&[0u8; RECORD_LEN]).is_some());
}

#[test]
fn client_message_fields() {
    let mut raw = client_message(0x1234_5678, 0x9abc_def0);
    put_u32(&mut raw, 16, 0x0000_0001);
    let e = GenericEvent::from_bytes(&raw).unwrap();
    let m = e.as_client_message().unwrap();
    assert_eq!(m.window(), 0x0040_0001);
    assert_eq!(m.msg_type(), 0x1234_5678);
    assert_eq!(m.data_as_u32(), 0x9abc_def0);
    assert_eq!(m.data_as_u64(), 0x0000_0001_9abc_def0);
}

#[test]
fn error_record_fields() {
    let mut raw = vec![0u8; 32];
    raw[1] = 3;
    put_u16(&mut raw, 8, 0x0102);
    raw[10] = 14;
    let e = GenericEvent::from_bytes(&raw).unwrap();
    assert!(e.as_client_message().is_none());
    let err = e.as_error().unwrap();
    assert_eq!(err.error_code(), 3);
    assert_eq!(err.minor_code(), 0x0102);
    assert_eq!(err.major_code(), 14);
}

#[test]
fn close_request_ends_the_loop() {
    let s = server();
    let e = GenericEvent::from_bytes(&client_message(300, 301)).unwrap();
    assert!(!s.process_event(Some(&e)));
}

#[test]
fn other_client_messages_keep_the_loop_waiting() {
    let s = server();
    let wrong_type = GenericEvent::from_bytes(&client_message(299, 301)).unwrap();
    let wrong_data = GenericEvent::from_bytes(&client_message(300, 302)).unwrap();
    assert!(s.process_event(Some(&wrong_type)));
    assert!(s.process_event(Some(&wrong_data)));
}

#[test]
fn other_events_keep_the_loop_waiting() {
    let s = server();
    let mut raw = client_message(300, 301);
    raw[0] = 12;
    let expose = GenericEvent::from_bytes(&raw).unwrap();
    assert!(s.process_event(Some(&expose)));
}

#[test]
fn end_of_stream_ends_the_loop() {
    assert!(!server().process_event(None));
}

fn geometry_reply(x: i16, y: i16, w: u16, h: u16) -> Vec<u8> {
    let mut b = vec![0u8; 32];
    b[0] = 1;
    b[1] = 32;
    put_u32(&mut b, 8, 0x1d5);
    put_u16(&mut b, 12, x as u16);
    put_u16(&mut b, 14, y as u16);
    put_u16(&mut b, 16, w);
    put_u16(&mut b, 18, h);
    b
}

#[test]
fn geometry_reply_gives_client_size() {
    let g = Geometry::from_reply(&geometry_reply(0, 0, 800, 600)).unwrap();
    assert_eq!(g.client_size(), (800, 600));
}

#[test]
fn geometry_reply_reads_signed_position() {
    let g = Geometry::from_reply(&geometry_reply(-5, 7, 1, 2)).unwrap();
    assert_eq!(g.pos, (-5, 7));
    assert_eq!(g.size, (1, 2));
}

#[test]
fn geometry_error_reply() {
    let mut raw = vec![0u8; 32];
    raw[1] = 9;
    raw[10] = 14;
    match Geometry::from_reply(&raw) {
        Err(ReplyError::Protocol(e)) => {
            assert_eq!(e.error_code(), 9);
            assert_eq!(e.major_code(), 14);
        }
        _ => panic!("expected an error record"),
    }
}

#[test]
fn malformed_replies() {
    assert!(matches!(Geometry::from_reply(&[1u8; 31]), Err(ReplyError::Malformed)));
    let mut raw = geometry_reply(0, 0, 1, 1);
    raw[0] = 7;
    assert!(matches!(Geometry::from_reply(&raw), Err(ReplyError::Malformed)));
    assert!(matches!(atom_from_reply(&[]), Err(ReplyError::Malformed)));
}

#[test]
fn atom_reply() {
    let mut raw = vec![0u8; 32];
    raw[0] = 1;
    put_u32(&mut raw, 8, 0x0000_01a7);
    assert_eq!(atom_from_reply(&raw).unwrap(), 0x1a7);
    raw[0] = 0;
    raw[1] = 2;
    assert!(matches!(atom_from_reply(&raw), Err(ReplyError::Protocol(_))));
}

#[test]
fn value_list_follows_mask_bits() {
    let mut l = xcb_create_window_value_list_t::zeroed();
    l.background_pixel = 11;
    l.border_pixel = 22;
    l.colormap = 33;
    l.cursor = 44;
    assert_eq!(l.serialize(0), Vec::<u32>::new());
    assert_eq!(l.serialize(XCB_CW_COLORMAP | XCB_CW_BACK_PIXEL), vec![11, 33]);
    assert_eq!(l.serialize(0x7fff), vec![0, 11, 0, 22, 0, 0, 0, 0, 0, 0, 0, 0, 0, 33, 44]);
}

#[test]
fn builder_defaults_come_from_screen() {
    let b = typical_setup();
    let setup = Setup::parse(&b).unwrap();
    let scr = setup.iterate_setup_roots().next().unwrap();
    let wb = WindowBuilder::new(&scr);
    assert_eq!(wb.sz, (128, 128));
    assert_eq!(wb.pos, (0, 0));
    assert_eq!(wb.parent, 0x1d5);
    assert_eq!(wb.visual, 0x21);
    assert_eq!(wb.depth, 24);
    assert_eq!(wb.attributes, 0);
    assert_eq!(wb.class, XCB_WINDOW_CLASS_INPUT_OUTPUT);
}

#[test]
fn builder_create_request() {
    let mut wb = WindowBuilder::on_parent(7, 24, 0x21);
    let cmap = Colormap { id: 99 };
    wb.size((300, 200)).visual(32, 0x61).border_pixel(5).back_pixel(6).colormap(&cmap);
    let (w, req) = wb.create(0x0040_0002);
    assert_eq!(w, Window::Owned(0x0040_0002));
    assert_eq!(req.wid, 0x0040_0002);
    assert_eq!(req.parent, 7);
    assert_eq!((req.width, req.height), (300, 200));
    assert_eq!(req.depth, 32);
    assert_eq!(req.visual, 0x61);
    assert_eq!(req.value_mask, XCB_CW_BACK_PIXEL | XCB_CW_BORDER_PIXEL | XCB_CW_COLORMAP);
    assert_eq!(req.value_list, vec![6, 5, 99]);
}

#[test]
fn owned_window_may_change() {
    let w = Window::Owned(5);
    assert!(w.is_owned());
    let p = w.replace_property(XCB_ATOM_WM_NAME, "title");
    assert_eq!(p.window, 5);
    assert_eq!(p.mode, XCB_PROP_MODE_REPLACE);
    assert_eq!(p.type_, XCB_ATOM_STRING);
    assert_eq!(p.format, 8);
    assert_eq!(p.data, b"title".to_vec());
    assert_eq!(w.map(), 5);
    assert_eq!(w.destroy_on_drop(), Some(5));
}

#[test]
fn borrowed_window_may_not_change() {
    let w = Window::Borrowed(6);
    assert!(!w.is_owned());
    assert_eq!(w.id(), 6);
    assert_eq!(w.destroy_on_drop(), None);
}

#[test]
fn colormap_request() {
    let (c, req) = Colormap::new(40, 0x61, 0x1d5, XCB_COLORMAP_ALLOC_NONE);
    assert_eq!(c.id(), 40);
    assert_eq!((req.alloc, req.mid, req.window, req.visual), (0, 40, 0x1d5, 0x61));
}

#[test]
fn open_select_build_show_and_close() {
    let b = typical_setup();
    let setup = Setup::parse(&b).unwrap();
    let choice = choose_visual(&setup).unwrap();
    let (cmap, cmap_req) = Colormap::new(0x0040_0000, choice.visual, choice.root, XCB_COLORMAP_ALLOC_NONE);
    assert_eq!(cmap_req.visual, 0x61);
    let s = WindowServer::new(choice, cmap, atoms());
    let (w, reqs) = s.new_native_window(0x0040_0001, (640, 480), "Test");
    assert_eq!((reqs.create.width, reqs.create.height), (640, 480));
    assert_eq!(reqs.create.depth, WINDOW_DEPTH);
    assert_eq!(reqs.create.visual, 0x61);
    assert_eq!(reqs.create.parent, 0x1d5);
    assert_eq!(reqs.create.value_list, vec![0, 0, 0x0040_0000]);
    assert_eq!(reqs.title.data, b"Test".to_vec());
    assert_eq!(reqs.title.property, XCB_ATOM_WM_NAME);
    assert_eq!(w.map(), 0x0040_0001);
    let e = GenericEvent::from_bytes(&client_message(300, 301)).unwrap();
    assert!(!s.process_event(Some(&e)));
    assert_eq!(XCB_VISUAL_CLASS_TRUE_COLOR, 4);
}

#[test]
fn win32_window_procedure() {
    assert_eq!(message_action(WM_DESTROY), MessageAction::PostQuit);
    assert_eq!(message_action(0x0010), MessageAction::Default);
    assert!(keep_pumping(1));
    assert!(!keep_pumping(0));
    assert!(!keep_pumping(-1));
}

#[test]
fn win32_style_and_client_size() {
    assert_eq!(extended_style(true), WS_EX_NOREDIRECTIONBITMAP);
    assert_eq!(extended_style(false), 0);
    assert_eq!(client_rect_size(0, 0, 800, 600), (800, 600));
    assert_eq!(client_rect_size(-10, 5, 10, 25), (20, 20));
}
