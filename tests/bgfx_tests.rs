use bgfx::flags::{
    BUFFER_INDEX32, CLEAR_COLOR, CLEAR_DEPTH, DEBUG_TEXT, RESET_VSYNC, STATE_CULL_CW,
    STATE_DEFAULT, STATE_DEPTH_TEST_LESS, STATE_MSAA, STATE_WRITE_A, STATE_WRITE_RGB,
    STATE_WRITE_Z,
};
use bgfx::session::{Memory, NativeCall};
use bgfx::vertex::{AttribBase, AttribEncoding, DeclEntry};
use bgfx::{
    init, Attrib, AttribType, Bgfx, BgfxError, BufferFlags, ClearFlags, DebugFlags, IndexBuffer,
    Init, InitLimits, PlatformData, Program, RenderFrame, RendererType, ResetFlags, Resolution,
    Shader, StateFlags, TextureFormat, VertexBuffer, VertexDecl,
};

fn session<'b>() -> Bgfx<'b> {
    init(&Init::default().with_renderer(RendererType::Noop), true).expect("session")
}

fn count_releases(calls: &[NativeCall], h: u64) -> usize {
    calls
        .iter()
        .filter(|c| match c {
            NativeCall::DestroyShader { handle }
            | NativeCall::DestroyProgram { handle }
            | NativeCall::DestroyIndexBuffer { handle }
            | NativeCall::DestroyVertexBuffer { handle } => *handle == h,
            _ => false,
        })
        .count()
}

fn enc(base: AttribBase, normalized: bool, as_int: bool) -> AttribEncoding {
    AttribEncoding { base, normalized, as_int }
}

#[test]
fn attrib_type_table_every_variant() {
    for n in [true, false] {
        assert_eq!(AttribType::Uint8(n).encode(), enc(AttribBase::Uint8, n, false));
        assert_eq!(AttribType::Int8(n).encode(), enc(AttribBase::Uint8, n, true));
        assert_eq!(AttribType::Uint10(n).encode(), enc(AttribBase::Uint10, n, false));
        assert_eq!(AttribType::Int10(n).encode(), enc(AttribBase::Uint10, n, true));
        assert_eq!(AttribType::Uint16(n).encode(), enc(AttribBase::Int16, n, false));
        assert_eq!(AttribType::Int16(n).encode(), enc(AttribBase::Int16, n, true));
    }
    assert_eq!(AttribType::Half.encode(), enc(AttribBase::Half, false, false));
    assert_eq!(AttribType::Float.encode(), enc(AttribBase::Float, false, false));
}

#[test]
fn attrib_base_native_codes() {
    assert_eq!(AttribBase::Uint8.native_code(), 0);
    assert_eq!(AttribBase::Uint10.native_code(), 1);
    assert_eq!(AttribBase::Int16.native_code(), 2);
    assert_eq!(AttribBase::Half.native_code(), 3);
    assert_eq!(AttribBase::Float.native_code(), 4);
}

#[test]
fn vertex_decl_keeps_attribute_order() {
    let decl = VertexDecl::new(None)
        .add(Attrib::Position, 3, AttribType::Float)
        .add(Attrib::Color0, 4, AttribType::Uint8(true))
        .add(Attrib::Normal, 4, AttribType::Int16(false))
        .end();
    assert_eq!(decl.renderer_type(), RendererType::Noop);
    assert_eq!(
        decl.steps(),
        &[
            DeclEntry::Attribute {
                attrib: Attrib::Position,
                count: 3,
                encoding: enc(AttribBase::Float, false, false),
            },
            DeclEntry::Attribute {
                attrib: Attrib::Color0,
                count: 4,
                encoding: enc(AttribBase::Uint8, true, false),
            },
            DeclEntry::Attribute {
                attrib: Attrib::Normal,
                count: 4,
                encoding: enc(AttribBase::Int16, false, true),
            },
        ]
    );
}

#[test]
fn vertex_decl_every_type_crossed_with_normalized() {
    let kinds = [
        AttribType::Uint8(true),
        AttribType::Uint8(false),
        AttribType::Int8(true),
        AttribType::Int8(false),
        AttribType::Uint10(true),
        AttribType::Uint10(false),
        AttribType::Int10(true),
        AttribType::Int10(false),
        AttribType::Uint16(true),
        AttribType::Uint16(false),
        AttribType::Int16(true),
        AttribType::Int16(false),
        AttribType::Half,
        AttribType::Float,
    ];
    for kind in kinds {
        let decl = VertexDecl::new(Some(RendererType::Vulkan))
            .add(Attrib::Position, 3, AttribType::Float)
            .add(Attrib::TexCoord0, 2, kind)
            .add(Attrib::Color1, 4, AttribType::Uint8(false))
            .end();
        assert_eq!(decl.renderer_type(), RendererType::Vulkan);
        let steps = decl.steps();
        assert_eq!(steps.len(), 3);
        assert_eq!(
            steps[1],
            DeclEntry::Attribute { attrib: Attrib::TexCoord0, count: 2, encoding: kind.encode() }
        );
    }
}

#[test]
fn vertex_decl_skip_is_recorded_in_place() {
    let decl = VertexDecl::new(None)
        .add(Attrib::Position, 3, AttribType::Float)
        .skip(4)
        .add(Attrib::TexCoord1, 2, AttribType::Half)
        .end();
    let steps = decl.steps();
    assert_eq!(steps.len(), 3);
    assert_eq!(steps[1], DeclEntry::Skip { bytes: 4 });
}

#[test]
fn empty_vertex_decl() {
    let decl = VertexDecl::new(None).end();
    assert!(decl.steps().is_empty());
}

#[test]
fn platform_data_valid_applies() {
    let p = PlatformData::new().display(0x10).window(0x20).context(0x30);
    assert_eq!(p.apply(true), Ok(()));
    assert_eq!(p.apply(false), Ok(()));
    assert_eq!(p.display_handle(), 0x10);
    assert_eq!(p.window_handle(), 0x20);
    assert_eq!(p.context_handle(), 0x30);
}

#[test]
fn platform_data_missing_window() {
    let p = PlatformData::new().display(0x10);
    assert_eq!(p.apply(true), Err(BgfxError::InvalidWindow));
    assert_eq!(p.apply(false), Err(BgfxError::InvalidWindow));
}

#[test]
fn platform_data_missing_display() {
    let p = PlatformData::new().window(0x20);
    assert_eq!(p.apply(true), Err(BgfxError::InvalidDisplay));
    assert_eq!(p.apply(false), Ok(()));
}

#[test]
fn platform_data_missing_both_reports_window() {
    let p = PlatformData::new();
    assert_eq!(p.apply(true), Err(BgfxError::InvalidWindow));
    assert_eq!(p.apply(false), Err(BgfxError::InvalidWindow));
}

#[test]
fn init_outcome() {
    let params = Init::default();
    assert!(matches!(init(&params, false), Err(BgfxError::InitFailed)));
    let b = params.init(true).expect("session");
    assert_eq!(b.frames(), 0);
    assert!(matches!(Init::default().init(false), Err(BgfxError::InitFailed)));
}

#[test]
fn init_parameters() {
    let d = Init::default();
    assert_eq!(d.renderer(), RendererType::Default);
    assert_eq!(d.resolution(), None);
    assert_eq!(d.limits(), None);
    let res = Resolution::default().with_width(1).with_height(2).with_format(TextureFormat::RGBA8);
    let limits = InitLimits { max_encoders: 4, ..InitLimits::default() };
    let i = d.with_renderer(RendererType::OpenGL).with_resolution(res).with_limits(limits);
    assert_eq!(i.renderer(), RendererType::OpenGL);
    assert_eq!(i.resolution(), Some(res));
    assert_eq!(i.limits().map(|l| l.max_encoders), Some(4));
    assert_eq!(res.width, 1);
    assert_eq!(res.height, 2);
    assert_eq!(res.format, TextureFormat::RGBA8);
    assert_eq!(res.reset, 0);
}

#[test]
fn resolution_default() {
    let r = Resolution::default();
    assert_eq!(r.format, TextureFormat::Unknown);
    assert_eq!((r.width, r.height, r.num_back_buffers, r.max_frame_latency), (0, 0, 0, 0));
    let l = InitLimits::default();
    assert_eq!((l.max_encoders, l.transient_vb_size, l.transient_ib_size), (0, 0, 0));
}

#[test]
fn memory_copy_and_reference() {
    let b = session();
    let data = [1u8, 2, 3];
    let copied = Memory::copy(&b, &data);
    assert_eq!(copied.data(), &[1, 2, 3]);
    assert!(!copied.is_reference());
    let referenced = Memory::reference(&b, &data);
    assert_eq!(referenced.data(), &[1, 2, 3]);
    assert!(referenced.is_reference());
    assert_eq!(referenced.data().as_ptr(), data.as_ptr());
    assert_ne!(copied.data().as_ptr(), data.as_ptr());
}

#[test]
fn program_release_releases_each_handle_once() {
    let mut b = session();
    let vs = Memory::copy(&b, &[0u8; 8]);
    let fs = Memory::copy(&b, &[1u8; 8]);
    let vsh = Shader::new(&mut b, vs);
    let fsh = Shader::new(&mut b, fs);
    let (v, f) = (vsh.handle(), fsh.handle());
    let program = Program::new(&mut b, vsh, fsh);
    let p = program.handle();
    assert!(v != f && v != p && f != p);
    let created = b.take_calls();
    assert_eq!(created.len(), 3);
    assert!(matches!(created[2], NativeCall::CreateProgram { handle, vsh, fsh } if handle == p && vsh == v && fsh == f));
    program.release(&mut b);
    let released = b.take_calls();
    assert_eq!(released.len(), 3);
    assert_eq!(count_releases(&released, p), 1);
    assert_eq!(count_releases(&released, v), 1);
    assert_eq!(count_releases(&released, f), 1);
    assert!(matches!(released[0], NativeCall::DestroyProgram { handle } if handle == p));
    assert!(matches!(released[1], NativeCall::DestroyShader { handle } if handle == v));
    assert!(matches!(released[2], NativeCall::DestroyShader { handle } if handle == f));
    assert_eq!(count_releases(&created, p), 0);
}

#[test]
fn buffers_release_once() {
    let mut b = session();
    let decl = VertexDecl::new(None).add(Attrib::Position, 3, AttribType::Float).end();
    let vm = Memory::copy(&b, &[0u8; 12]);
    let im = Memory::copy(&b, &[0u8, 0, 1, 0, 2, 0]);
    let vb = VertexBuffer::new(&mut b, vm, &decl, BufferFlags::empty());
    let ib = IndexBuffer::new(&mut b, im, BufferFlags::from_bits(BUFFER_INDEX32));
    let (vh, ih) = (vb.handle(), ib.handle());
    assert_ne!(vh, ih);
    b.set_vertex_buffer(0, &vb);
    b.set_index_buffer(&ib);
    vb.release(&mut b);
    ib.release(&mut b);
    let calls = b.take_calls();
    assert_eq!(calls.len(), 6);
    assert!(matches!(&calls[1], NativeCall::CreateIndexBuffer { handle, flags, .. } if *handle == ih && *flags == 0x1000));
    assert!(matches!(calls[2], NativeCall::SetVertexBuffer { stream: 0, handle, first: 0, count: u32::MAX } if handle == vh));
    assert!(matches!(calls[3], NativeCall::SetIndexBuffer { handle, first: 0, count: u32::MAX } if handle == ih));
    assert_eq!(count_releases(&calls, vh), 1);
    assert_eq!(count_releases(&calls, ih), 1);
}

#[test]
fn draw_one_frame_with_noop_renderer() {
    let params = Init::default()
        .with_renderer(RendererType::Noop)
        .with_resolution(Resolution::default().with_width(1).with_height(1));
    let mut b = init(&params, true).expect("session");
    let decl = VertexDecl::new(Some(RendererType::Noop))
        .add(Attrib::Position, 3, AttribType::Float)
        .add(Attrib::Color0, 4, AttribType::Uint8(true))
        .end();
    // Three vertices of three floats and four color bytes each.
    let mut vertices: Vec<u8> = Vec::new();
    for i in 0..3u8 {
        for c in [0.0f32, 1.0, 0.5] {
            vertices.extend_from_slice(&(c + i as f32).to_le_bytes());
        }
        vertices.extend_from_slice(&[255, 0, 0, 255]);
    }
    assert_eq!(vertices.len(), 48);
    let mem = Memory::reference(&b, &vertices);
    let vb = VertexBuffer::new(&mut b, mem, &decl, BufferFlags::empty());
    let vs = Memory::copy(&b, &[1u8, 2, 3]);
    let fs = Memory::copy(&b, &[4u8, 5, 6]);
    let vsh = Shader::new(&mut b, vs);
    let fsh = Shader::new(&mut b, fs);
    let program = Program::new(&mut b, vsh, fsh);
    b.set_vertex_buffer(0, &vb);
    b.submit(0, &program, false);
    let before = b.frames();
    let after = b.frame(false);
    assert_eq!(after, before + 1);
    assert_eq!(b.frames(), after);
    let calls = b.take_calls();
    assert!(matches!(&calls[0], NativeCall::CreateVertexBuffer { layout, memory, renderer: RendererType::Noop, .. } if layout.len() == 2 && memory.data().len() == 48));
    assert!(matches!(calls[5], NativeCall::Submit { view: 0, depth: 0, preserve_state: false, .. }));
    assert!(matches!(calls[6], NativeCall::Frame { capture: false }));
    program.release(&mut b);
    vb.release(&mut b);
    let rest = b.shutdown();
    assert_eq!(rest.len(), 5);
    assert!(matches!(rest[4], NativeCall::Shutdown));
}

#[test]
fn frame_counter_counts_each_frame() {
    let mut b = session();
    assert_eq!(b.frame(false), 1);
    assert_eq!(b.frame(true), 2);
    assert_eq!(b.frame(false), 3);
    let calls = b.take_calls();
    assert!(matches!(calls[1], NativeCall::Frame { capture: true }));
    assert!(b.take_calls().is_empty());
}

#[test]
fn debug_text_calls() {
    let mut b = session();
    b.dbg_text_clear(None, None);
    b.dbg_text_clear(Some(0x4f), Some(true));
    b.dbg_text_print(1, 2, 0x0f, "hello");
    b.dbg_text_image(3, 4, 2, 1, &[9, 8, 7, 6], 4);
    b.set_debug(DebugFlags::from_bits(DEBUG_TEXT));
    let calls = b.take_calls();
    assert!(matches!(calls[0], NativeCall::DbgTextClear { attr: 0, small: false }));
    assert!(matches!(calls[1], NativeCall::DbgTextClear { attr: 0x4f, small: true }));
    assert!(matches!(&calls[2], NativeCall::DbgTextPrint { x: 1, y: 2, attr: 0x0f, text } if text == "hello"));
    assert!(matches!(&calls[3], NativeCall::DbgTextImage { x: 3, y: 4, width: 2, height: 1, data, pitch: 4 } if data == &vec![9u8, 8, 7, 6]));
    assert!(matches!(calls[4], NativeCall::SetDebug { flags: 8 }));
}

#[test]
fn view_and_state_calls() {
    let mut b = session();
    b.set_view_rect(1, 0, 0, 640, 480);
    b.touch(1);
    b.set_state(StateFlags::from_bits(STATE_DEFAULT), None);
    b.set_state(StateFlags::empty(), Some(0x11223344));
    b.reset(800, 600, ResetFlags::from_bits(RESET_VSYNC), TextureFormat::BGRA8);
    let calls = b.take_calls();
    assert!(matches!(calls[0], NativeCall::SetViewRect { view: 1, x: 0, y: 0, width: 640, height: 480 }));
    assert!(matches!(calls[1], NativeCall::Touch { view: 1 }));
    assert!(matches!(calls[2], NativeCall::SetState { state: 0x010000500000001f, rgba: 0 }));
    assert!(matches!(calls[3], NativeCall::SetState { state: 0, rgba: 0x11223344 }));
    assert!(matches!(calls[4], NativeCall::Reset { width: 800, height: 600, flags: 0x80, format: TextureFormat::BGRA8 }));
}

#[test]
fn flag_sets() {
    let default = StateFlags::from_bits(STATE_WRITE_RGB)
        .union(StateFlags::from_bits(STATE_WRITE_A))
        .union(StateFlags::from_bits(STATE_WRITE_Z))
        .union(StateFlags::from_bits(STATE_DEPTH_TEST_LESS))
        .union(StateFlags::from_bits(STATE_CULL_CW))
        .union(StateFlags::from_bits(STATE_MSAA));
    assert_eq!(default.bits(), STATE_DEFAULT);
    let clear = ClearFlags::from_bits(CLEAR_COLOR).union(ClearFlags::from_bits(CLEAR_DEPTH));
    assert_eq!(clear.bits(), 3);
    assert!(clear.contains(ClearFlags::from_bits(CLEAR_DEPTH)));
    assert!(!ClearFlags::from_bits(CLEAR_COLOR).contains(clear));
    assert!(clear.contains(ClearFlags::empty()));
    assert_eq!(BufferFlags::empty().bits(), 0);
}

#[test]
fn enum_native_codes() {
    assert_eq!(RendererType::Noop.native_code(), 0);
    assert_eq!(RendererType::Vulkan.native_code(), 8);
    assert_eq!(RendererType::Default.native_code(), 9);
    assert_eq!(RendererType::from_native(7), Some(RendererType::OpenGL));
    assert_eq!(RendererType::from_native(10), None);
    assert_eq!(RendererType::from_native(-1), None);
    assert_eq!(RenderFrame::from_native(1), Some(RenderFrame::Render));
    assert_eq!(RenderFrame::from_native(3), Some(RenderFrame::Exiting));
    assert_eq!(RenderFrame::from_native(4), None);
    assert_eq!(Attrib::Position.native_code(), 0);
    assert_eq!(Attrib::Color1.native_code(), 5);
    assert_eq!(Attrib::Indices.native_code(), 8);
    assert_eq!(Attrib::TexCoord7.native_code(), 17);
    assert_eq!(TextureFormat::BC1.native_code(), 0);
    assert_eq!(TextureFormat::ASTC10x5.native_code(), 25);
    assert_eq!(TextureFormat::Unknown.native_code(), 26);
    assert_eq!(TextureFormat::UnknownDepth.native_code(), 76);
    assert_eq!(TextureFormat::D0S8.native_code(), 84);
}
