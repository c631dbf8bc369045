//! The session with the native library: memory blocks, resource handles and the ordered record
//! of native calls.
//!
//! Every operation appends the [`NativeCall`] it stands for to the session; the owner of the
//! session hands the recorded calls, in order, to the native library. Resource values are
//! move-only, and releasing one consumes it, so each native handle is released at most once; the
//! session tracks in ghost state which handles are live and which have been released.
use vstd::prelude::*;
use vstd::slice::slice_to_vec;

use crate::flags::{BufferFlags, DebugFlags, ResetFlags, StateFlags};
use crate::platform::Init;
use crate::types::{BgfxError, RendererType, TextureFormat, ViewId};
use crate::vertex::{DeclEntry, VertexDecl};

verus! {

/// Where the bytes of a `Memory` live.
enum MemorySource<'b> {
    /// A copy owned by the block.
    Copied(Vec<u8>),
    /// The caller's buffer, read directly by the native library.
    Borrowed(&'b [u8]),
}

/// A block of memory handed to the native library.
///
/// It is created either by copying existing data through `copy`, or by referencing existing
/// memory directly through `reference`. A block is consumed by the resource created from it.
/// A copied block that is never passed into a resource is never freed by the native library.
pub struct Memory<'b> {
    source: MemorySource<'b>,
}

impl<'b> Memory<'b> {
    /// The bytes of the block.
    pub closed spec fn bytes(&self) -> Seq<u8> {
        match self.source {
            MemorySource::Copied(v) => v@,
            MemorySource::Borrowed(s) => s@,
        }
    }

    /// Whether the block refers to the caller's buffer rather than to a copy.
    pub closed spec fn is_ref(&self) -> bool {
        self.source is Borrowed
    }

    /// Copies the source data into a new block owned by the native library.
    pub fn copy(_bgfx: &Bgfx<'b>, data: &[u8]) -> (m: Memory<'b>)
        ensures
            m.bytes() == data@,
            !m.is_ref(),
    {
        Memory { source: MemorySource::Copied(slice_to_vec(data)) }
    }

    /// Creates a reference to the source data; no copy is made and the native library reads
    /// `data` directly. The borrow lasts as long as the session, so `data` outlives every use of
    /// it by the native library.
    pub fn reference(_bgfx: &Bgfx<'b>, data: &'b [u8]) -> (m: Memory<'b>)
        ensures
            m.bytes() == data@,
            m.is_ref(),
    {
        Memory { source: MemorySource::Borrowed(data) }
    }

    /// The bytes of the block.
    pub fn data(&self) -> (r: &[u8])
        ensures
            r@ == self.bytes(),
    {
        match &self.source {
            MemorySource::Copied(v) => v.as_slice(),
            MemorySource::Borrowed(s) => s,
        }
    }

    /// Whether the block refers to the caller's buffer rather than to a copy.
    pub fn is_reference(&self) -> (r: bool)
        ensures
            r == self.is_ref(),
    {
        match &self.source {
            MemorySource::Copied(_) => false,
            MemorySource::Borrowed(_) => true,
        }
    }
}

/// Shader.
pub struct Shader {
    handle: u64,
}

impl Shader {
    pub closed spec fn id(&self) -> u64 {
        self.handle
    }

    /// The handle of this shader in its session.
    pub fn handle(&self) -> (r: u64)
        ensures
            r == self.id(),
    {
        self.handle
    }

    /// Creates a new shader from a block of memory.
    pub fn new<'b>(bgfx: &mut Bgfx<'b>, data: Memory<'b>) -> (s: Shader)
        requires
            old(bgfx).wf(),
            old(bgfx).next_handle() < u64::MAX,
        ensures
            s.id() == old(bgfx).next_handle(),
            final(bgfx).creates(*old(bgfx), s.id()),
            final(bgfx).calls() == old(bgfx).calls().push(NativeCall::CreateShader { handle: s.id(), memory: data }),
    {
        let handle = bgfx.allocate();
        bgfx.record(NativeCall::CreateShader { handle, memory: data });
        Shader { handle }
    }

    /// Destroys the shader, releasing its native handle.
    pub fn release<'b>(self, bgfx: &mut Bgfx<'b>)
        requires
            old(bgfx).wf(),
            old(bgfx).live().contains(self.id()),
        ensures
            final(bgfx).releases(*old(bgfx), set![self.id()], seq![NativeCall::DestroyShader { handle: self.id() }]),
    {
        bgfx.retire(self.handle);
        bgfx.record(NativeCall::DestroyShader { handle: self.handle });
        proof {
            assert(final(bgfx).calls() =~= old(bgfx).calls() + seq![NativeCall::DestroyShader { handle: self.id() }]);
            assert(final(bgfx).live() =~= old(bgfx).live().difference(set![self.id()]));
            assert(final(bgfx).released() =~= old(bgfx).released().union(set![self.id()]));
        }
    }
}

/// Shader program: it owns a vertex shader and a fragment shader.
pub struct Program {
    handle: u64,
    vsh: Shader,
    fsh: Shader,
}

impl Program {
    #[verifier::type_invariant]
    closed spec fn distinct_handles(self) -> bool {
        &&& self.handle != self.vsh.handle
        &&& self.handle != self.fsh.handle
        &&& self.vsh.handle != self.fsh.handle
    }

    pub closed spec fn id(&self) -> u64 {
        self.handle
    }

    pub closed spec fn vertex_id(&self) -> u64 {
        self.vsh.handle
    }

    pub closed spec fn fragment_id(&self) -> u64 {
        self.fsh.handle
    }

    /// The handle of this program in its session.
    pub fn handle(&self) -> (r: u64)
        ensures
            r == self.id(),
    {
        self.handle
    }

    /// Creates a new program from a vertex shader and a fragment shader. Ownership of the
    /// shaders moves to the program.
    pub fn new<'b>(bgfx: &mut Bgfx<'b>, vsh: Shader, fsh: Shader) -> (p: Program)
        requires
            old(bgfx).wf(),
            old(bgfx).next_handle() < u64::MAX,
            old(bgfx).live().contains(vsh.id()),
            old(bgfx).live().contains(fsh.id()),
            vsh.id() != fsh.id(),
        ensures
            p.id() == old(bgfx).next_handle(),
            p.vertex_id() == vsh.id(),
            p.fragment_id() == fsh.id(),
            final(bgfx).creates(*old(bgfx), p.id()),
            final(bgfx).calls() == old(bgfx).calls().push(
                NativeCall::CreateProgram { handle: p.id(), vsh: vsh.id(), fsh: fsh.id() },
            ),
    {
        let handle = bgfx.allocate();
        bgfx.record(NativeCall::CreateProgram { handle, vsh: vsh.handle, fsh: fsh.handle });
        Program { handle, vsh, fsh }
    }

    /// Destroys the program, releasing its native handle and then those of its two shaders.
    pub fn release<'b>(self, bgfx: &mut Bgfx<'b>)
        requires
            old(bgfx).wf(),
            old(bgfx).live().contains(self.id()),
            old(bgfx).live().contains(self.vertex_id()),
            old(bgfx).live().contains(self.fragment_id()),
        ensures
            final(bgfx).releases(
                *old(bgfx),
                set![self.id(), self.vertex_id(), self.fragment_id()],
                seq![
                    NativeCall::DestroyProgram { handle: self.id() },
                    NativeCall::DestroyShader { handle: self.vertex_id() },
                    NativeCall::DestroyShader { handle: self.fragment_id() },
                ],
            ),
            self.id() != self.vertex_id(),
            self.id() != self.fragment_id(),
            self.vertex_id() != self.fragment_id(),
    {
        proof {
            use_type_invariant(&self);
        }
        let Program { handle, vsh, fsh } = self;
        bgfx.retire(handle);
        bgfx.record(NativeCall::DestroyProgram { handle });
        vsh.release(bgfx);
        fsh.release(bgfx);
        proof {
            let ids = set![self.id(), self.vertex_id(), self.fragment_id()];
            assert(final(bgfx).live() =~= old(bgfx).live().difference(ids));
            assert(final(bgfx).released() =~= old(bgfx).released().union(ids));
            assert(final(bgfx).calls() =~= old(bgfx).calls() + seq![
                NativeCall::DestroyProgram { handle: self.id() },
                NativeCall::DestroyShader { handle: self.vertex_id() },
                NativeCall::DestroyShader { handle: self.fragment_id() },
            ]);
        }
    }
}

/// Vertex index buffer.
pub struct IndexBuffer {
    handle: u64,
}

impl IndexBuffer {
    pub closed spec fn id(&self) -> u64 {
        self.handle
    }

    /// The handle of this buffer in its session.
    pub fn handle(&self) -> (r: u64)
        ensures
            r == self.id(),
    {
        self.handle
    }

    /// Creates a new index buffer from a block of memory.
    pub fn new<'b>(bgfx: &mut Bgfx<'b>, indices: Memory<'b>, flags: BufferFlags) -> (ib: IndexBuffer)
        requires
            old(bgfx).wf(),
            old(bgfx).next_handle() < u64::MAX,
        ensures
            ib.id() == old(bgfx).next_handle(),
            final(bgfx).creates(*old(bgfx), ib.id()),
            final(bgfx).calls() == old(bgfx).calls().push(
                NativeCall::CreateIndexBuffer { handle: ib.id(), memory: indices, flags: flags@ },
            ),
    {
        let handle = bgfx.allocate();
        bgfx.record(NativeCall::CreateIndexBuffer { handle, memory: indices, flags: flags.bits() });
        IndexBuffer { handle }
    }

    /// Destroys the buffer, releasing its native handle.
    pub fn release<'b>(self, bgfx: &mut Bgfx<'b>)
        requires
            old(bgfx).wf(),
            old(bgfx).live().contains(self.id()),
        ensures
            final(bgfx).releases(*old(bgfx), set![self.id()], seq![NativeCall::DestroyIndexBuffer { handle: self.id() }]),
    {
        bgfx.retire(self.handle);
        bgfx.record(NativeCall::DestroyIndexBuffer { handle: self.handle });
        proof {
            assert(final(bgfx).calls() =~= old(bgfx).calls() + seq![NativeCall::DestroyIndexBuffer { handle: self.id() }]);
            assert(final(bgfx).live() =~= old(bgfx).live().difference(set![self.id()]));
            assert(final(bgfx).released() =~= old(bgfx).released().union(set![self.id()]));
        }
    }
}

/// Vertex data buffer.
pub struct VertexBuffer {
    handle: u64,
}

impl VertexBuffer {
    pub closed spec fn id(&self) -> u64 {
        self.handle
    }

    /// The handle of this buffer in its session.
    pub fn handle(&self) -> (r: u64)
        ensures
            r == self.id(),
    {
        self.handle
    }

    /// Creates a new vertex buffer from a block of memory laid out as `decl` describes.
    pub fn new<'b>(bgfx: &mut Bgfx<'b>, verts: Memory<'b>, decl: &VertexDecl, flags: BufferFlags) -> (vb: VertexBuffer)
        requires
            old(bgfx).wf(),
            old(bgfx).next_handle() < u64::MAX,
        ensures
            vb.id() == old(bgfx).next_handle(),
            final(bgfx).creates(*old(bgfx), vb.id()),
            final(bgfx).calls().len() == old(bgfx).calls().len() + 1,
            final(bgfx).calls().drop_last() == old(bgfx).calls(),
            final(bgfx).calls().last() matches NativeCall::CreateVertexBuffer { handle, memory, renderer, layout, flags: f }
                && handle == vb.id() && memory == verts && renderer == decl.renderer()
                && layout@ == decl.entries() && f == flags@,
    {
        let handle = bgfx.allocate();
        let layout = slice_to_vec(decl.steps());
        let renderer = decl.renderer_type();
        bgfx.record(NativeCall::CreateVertexBuffer { handle, memory: verts, renderer, layout, flags: flags.bits() });
        VertexBuffer { handle }
    }

    /// Destroys the buffer, releasing its native handle.
    pub fn release<'b>(self, bgfx: &mut Bgfx<'b>)
        requires
            old(bgfx).wf(),
            old(bgfx).live().contains(self.id()),
        ensures
            final(bgfx).releases(*old(bgfx), set![self.id()], seq![NativeCall::DestroyVertexBuffer { handle: self.id() }]),
    {
        bgfx.retire(self.handle);
        bgfx.record(NativeCall::DestroyVertexBuffer { handle: self.handle });
        proof {
            assert(final(bgfx).calls() =~= old(bgfx).calls() + seq![NativeCall::DestroyVertexBuffer { handle: self.id() }]);
            assert(final(bgfx).live() =~= old(bgfx).live().difference(set![self.id()]));
            assert(final(bgfx).released() =~= old(bgfx).released().union(set![self.id()]));
        }
    }
}

/// One call into the native library, as a session records it.
#[allow(inconsistent_fields)]
pub enum NativeCall<'b> {
    /// Creates shader `handle` from `memory`.
    CreateShader { handle: u64, memory: Memory<'b> },
    /// Destroys shader `handle`.
    DestroyShader { handle: u64 },
    /// Creates program `handle` from shaders `vsh` and `fsh`, which it does not destroy.
    CreateProgram { handle: u64, vsh: u64, fsh: u64 },
    /// Destroys program `handle`.
    DestroyProgram { handle: u64 },
    /// Creates index buffer `handle` from `memory`.
    CreateIndexBuffer { handle: u64, memory: Memory<'b>, flags: u16 },
    /// Destroys index buffer `handle`.
    DestroyIndexBuffer { handle: u64 },
    /// Creates vertex buffer `handle` from `memory`, laid out by `layout` for `renderer`.
    CreateVertexBuffer {
        handle: u64,
        memory: Memory<'b>,
        renderer: RendererType,
        layout: Vec<DeclEntry>,
        flags: u16,
    },
    /// Destroys vertex buffer `handle`.
    DestroyVertexBuffer { handle: u64 },
    /// Clears the debug text overlay.
    DbgTextClear { attr: u8, small: bool },
    /// Draws an image to the debug text overlay.
    DbgTextImage { x: u16, y: u16, width: u16, height: u16, data: Vec<u8>, pitch: u16 },
    /// Prints text to the debug text overlay.
    DbgTextPrint { x: u16, y: u16, attr: u8, text: String },
    /// Finishes the frame.
    Frame { capture: bool },
    /// Resets the graphics device.
    Reset { width: u32, height: u32, flags: u32, format: TextureFormat },
    /// Sets the debug flags.
    SetDebug { flags: u32 },
    /// Selects `count` indices of index buffer `handle`, from `first`.
    SetIndexBuffer { handle: u64, first: u32, count: u32 },
    /// Sets the render state and blend factor.
    SetState { state: u64, rgba: u32 },
    /// Selects `count` vertices of vertex buffer `handle` on `stream`, from `first`.
    SetVertexBuffer { stream: u8, handle: u64, first: u32, count: u32 },
    /// Sets the rectangle of a view.
    SetViewRect { view: ViewId, x: u16, y: u16, width: u16, height: u16 },
    /// Submits a draw with `program` on `view`.
    Submit { view: ViewId, program: u64, depth: u32, preserve_state: bool },
    /// Touches a view.
    Touch { view: ViewId },
    /// Shuts the native library down.
    Shutdown,
}

/// The session with the native library. Calls meant for the main thread are methods of it.
///
/// It is created by `init`, and `shutdown` ends it. Handles are numbered from zero in the order
/// their resources are created.
pub struct Bgfx<'b> {
    calls: Vec<NativeCall<'b>>,
    next_handle: u64,
    frames: u32,
    live: Ghost<Set<u64>>,
    released: Ghost<Set<u64>>,
}

impl<'b> Bgfx<'b> {
    /// The calls recorded and not yet taken, in order.
    pub closed spec fn calls(&self) -> Seq<NativeCall<'b>> {
        self.calls@
    }

    /// The handle the next created resource receives.
    pub closed spec fn next_handle(&self) -> u64 {
        self.next_handle
    }

    /// The number of finished frames, modulo 2^32.
    pub closed spec fn frame_count(&self) -> u32 {
        self.frames
    }

    /// The handles of the resources created and not yet released.
    pub closed spec fn live(&self) -> Set<u64> {
        self.live@
    }

    /// The handles released so far.
    pub closed spec fn released(&self) -> Set<u64> {
        self.released@
    }

    /// Every handle given out is below the next one, and none is both live and released.
    pub open spec fn wf(&self) -> bool {
        &&& forall|h: u64| #[trigger] self.live().contains(h) ==> h < self.next_handle()
        &&& forall|h: u64| #[trigger] self.released().contains(h) ==> h < self.next_handle()
        &&& self.live().disjoint(self.released())
    }

    /// This session is `old` with nothing changed but its recorded calls.
    pub open spec fn keeps(&self, old: Bgfx<'b>) -> bool {
        &&& self.next_handle() == old.next_handle()
        &&& self.frame_count() == old.frame_count()
        &&& self.live() == old.live()
        &&& self.released() == old.released()
    }

    /// This session is `old` after `call` was recorded.
    pub open spec fn records(&self, old: Bgfx<'b>, call: NativeCall<'b>) -> bool {
        &&& self.calls() == old.calls().push(call)
        &&& self.keeps(old)
    }

    /// This session is `old` after the resource `handle`, fresh, became live.
    pub open spec fn creates(&self, old: Bgfx<'b>, handle: u64) -> bool {
        &&& handle == old.next_handle()
        &&& !old.live().contains(handle)
        &&& !old.released().contains(handle)
        &&& self.next_handle() == old.next_handle() + 1
        &&& self.frame_count() == old.frame_count()
        &&& self.live() == old.live().insert(handle)
        &&& self.released() == old.released()
        &&& self.wf()
    }

    /// This session is `old` after the live resources `ids` were released, each exactly once, by
    /// recording `added`.
    pub open spec fn releases(&self, old: Bgfx<'b>, ids: Set<u64>, added: Seq<NativeCall<'b>>) -> bool {
        &&& ids.subset_of(old.live())
        &&& ids.disjoint(old.released())
        &&& self.calls() == old.calls() + added
        &&& self.next_handle() == old.next_handle()
        &&& self.frame_count() == old.frame_count()
        &&& self.live() == old.live().difference(ids)
        &&& self.released() == old.released().union(ids)
        &&& self.live().disjoint(ids)
        &&& self.wf()
    }

    /// Gives out a fresh handle and marks it live.
    fn allocate(&mut self) -> (h: u64)
        requires
            old(self).wf(),
            old(self).next_handle() < u64::MAX,
        ensures
            final(self).creates(*old(self), h),
            final(self).calls() == old(self).calls(),
    {
        let h = self.next_handle;
        self.next_handle = self.next_handle + 1;
        self.live = Ghost(self.live@.insert(h));
        h
    }

    /// Moves a live handle to the released ones.
    fn retire(&mut self, h: u64)
        requires
            old(self).wf(),
            old(self).live().contains(h),
        ensures
            final(self).wf(),
            final(self).calls() == old(self).calls(),
            final(self).next_handle() == old(self).next_handle(),
            final(self).frame_count() == old(self).frame_count(),
            final(self).live() == old(self).live().remove(h),
            final(self).released() == old(self).released().insert(h),
    {
        self.live = Ghost(self.live@.remove(h));
        self.released = Ghost(self.released@.insert(h));
    }

    /// Appends a call to the record.
    fn record(&mut self, call: NativeCall<'b>)
        ensures
            final(self).records(*old(self), call),
    {
        self.calls.push(call);
    }

    /// Hands out the calls recorded so far, in order, and empties the record.
    pub fn take_calls(&mut self) -> (r: Vec<NativeCall<'b>>)
        ensures
            r@ == old(self).calls(),
            final(self).calls() == Seq::<NativeCall<'b>>::empty(),
            final(self).keeps(*old(self)),
    {
        let mut taken = Vec::new();
        std::mem::swap(&mut taken, &mut self.calls);
        taken
    }

    /// The number of finished frames, modulo 2^32.
    pub fn frames(&self) -> (r: u32)
        ensures
            r == self.frame_count(),
    {
        self.frames
    }

    /// Clears the debug text overlay.
    pub fn dbg_text_clear(&mut self, attr: Option<u8>, small: Option<bool>)
        ensures
            final(self).records(
                *old(self),
                NativeCall::DbgTextClear { attr: attr.unwrap_or(0), small: small.unwrap_or(false) },
            ),
    {
        self.record(NativeCall::DbgTextClear { attr: attr.unwrap_or(0), small: small.unwrap_or(false) });
    }

    /// Draws an image to the debug text overlay.
    pub fn dbg_text_image(&mut self, x: u16, y: u16, width: u16, height: u16, data: &[u8], pitch: u16)
        ensures
            final(self).keeps(*old(self)),
            final(self).calls().len() == old(self).calls().len() + 1,
            final(self).calls().drop_last() == old(self).calls(),
            final(self).calls().last() matches NativeCall::DbgTextImage { x: cx, y: cy, width: w, height: h, data: d, pitch: p }
                && cx == x && cy == y && w == width && h == height && d@ == data@ && p == pitch,
    {
        self.record(NativeCall::DbgTextImage { x, y, width, height, data: slice_to_vec(data), pitch });
    }

    /// Displays text in the debug text overlay. The text is handed over as a null-terminated
    /// string, so it may not hold a null character.
    pub fn dbg_text_print(&mut self, x: u16, y: u16, attr: u8, text: &str)
        requires
            !text@.contains('\0'),
        ensures
            final(self).keeps(*old(self)),
            final(self).calls().len() == old(self).calls().len() + 1,
            final(self).calls().drop_last() == old(self).calls(),
            final(self).calls().last() matches NativeCall::DbgTextPrint { x: cx, y: cy, attr: a, text: t }
                && cx == x && cy == y && a == attr && t@ == text@,
    {
        self.record(NativeCall::DbgTextPrint { x, y, attr, text: text.to_owned() });
    }

    /// Finishes the frame, syncing up with the render thread. Returns the incremented frame
    /// counter.
    pub fn frame(&mut self, capture: bool) -> (r: u32)
        ensures
            r as int == (old(self).frame_count() as int + 1) % 0x1_0000_0000,
            final(self).frame_count() == r,
            final(self).calls() == old(self).calls().push(NativeCall::Frame { capture }),
            final(self).next_handle() == old(self).next_handle(),
            final(self).live() == old(self).live(),
            final(self).released() == old(self).released(),
    {
        self.record(NativeCall::Frame { capture });
        self.frames = self.frames.wrapping_add(1);
        self.frames
    }

    /// Resets the graphics device to the given size, with the given flags.
    pub fn reset(&mut self, width: u16, height: u16, flags: ResetFlags, format: TextureFormat)
        ensures
            final(self).records(
                *old(self),
                NativeCall::Reset { width: width as u32, height: height as u32, flags: flags@, format },
            ),
    {
        self.record(NativeCall::Reset { width: width as u32, height: height as u32, flags: flags.bits(), format });
    }

    /// Sets the debug flags to use.
    pub fn set_debug(&mut self, debug: DebugFlags)
        ensures
            final(self).records(*old(self), NativeCall::SetDebug { flags: debug@ }),
    {
        self.record(NativeCall::SetDebug { flags: debug.bits() });
    }

    /// Sets the index buffer to use for rendering: all of its indices.
    pub fn set_index_buffer(&mut self, ibh: &IndexBuffer)
        ensures
            final(self).records(
                *old(self),
                NativeCall::SetIndexBuffer { handle: ibh.id(), first: 0, count: u32::MAX },
            ),
    {
        self.record(NativeCall::SetIndexBuffer { handle: ibh.handle, first: 0, count: u32::MAX });
    }

    /// Sets the render state; the blend factor `rgba` defaults to zero.
    pub fn set_state(&mut self, state: StateFlags, rgba: Option<u32>)
        ensures
            final(self).records(*old(self), NativeCall::SetState { state: state@, rgba: rgba.unwrap_or(0) }),
    {
        self.record(NativeCall::SetState { state: state.bits(), rgba: rgba.unwrap_or(0) });
    }

    /// Sets the vertex buffer to use for rendering on `stream`: all of its vertices.
    pub fn set_vertex_buffer(&mut self, stream: u8, vbh: &VertexBuffer)
        ensures
            final(self).records(
                *old(self),
                NativeCall::SetVertexBuffer { stream, handle: vbh.id(), first: 0, count: u32::MAX },
            ),
    {
        self.record(NativeCall::SetVertexBuffer { stream, handle: vbh.handle, first: 0, count: u32::MAX });
    }

    /// Sets the rectangle to display the given view in.
    pub fn set_view_rect(&mut self, id: ViewId, x: u16, y: u16, width: u16, height: u16)
        ensures
            final(self).records(*old(self), NativeCall::SetViewRect { view: id, x, y, width, height }),
    {
        self.record(NativeCall::SetViewRect { view: id, x, y, width, height });
    }

    /// Submits a primitive for rendering with `program` on `view`, at depth zero.
    pub fn submit(&mut self, view: ViewId, program: &Program, preserve_state: bool)
        ensures
            final(self).records(
                *old(self),
                NativeCall::Submit { view, program: program.id(), depth: 0, preserve_state },
            ),
    {
        self.record(NativeCall::Submit { view, program: program.handle, depth: 0, preserve_state });
    }

    /// Touches a view, so that it is processed even with no draw call submitted to it.
    pub fn touch(&mut self, id: ViewId)
        ensures
            final(self).records(*old(self), NativeCall::Touch { view: id }),
    {
        self.record(NativeCall::Touch { view: id });
    }

    /// Ends the session: returns the calls still recorded, followed by the native shutdown,
    /// which invalidates every resource handle of the session.
    pub fn shutdown(self) -> (r: Vec<NativeCall<'b>>)
        ensures
            r@ == self.calls().push(NativeCall::Shutdown),
    {
        let mut calls = self.calls;
        calls.push(NativeCall::Shutdown);
        calls
    }
}

/// A session that was just started: nothing recorded, no frame finished, no handle given out.
pub open spec fn is_fresh(b: Bgfx) -> bool {
    &&& b.calls() == Seq::<NativeCall>::empty()
    &&& b.next_handle() == 0
    &&& b.frame_count() == 0
    &&& b.live() == Set::<u64>::empty()
    &&& b.released() == Set::<u64>::empty()
    &&& b.wf()
}

/// Starts a session once the native library has been initialized with `params` (after the platform
/// data was applied). `native_ok` is what the native initialization reported: on failure no
/// session exists and `InitFailed` is returned.
pub fn init<'b>(params: &Init, native_ok: bool) -> (r: Result<Bgfx<'b>, BgfxError>)
    ensures
        r is Ok <==> native_ok,
        r matches Ok(b) ==> is_fresh(b),
        r matches Err(e) ==> e == BgfxError::InitFailed,
{
    if native_ok {
        Ok(Bgfx { calls: Vec::new(), next_handle: 0, frames: 0, live: Ghost(Set::empty()), released: Ghost(Set::empty()) })
    } else {
        Err(BgfxError::InitFailed)
    }
}

impl Init {
    /// Starts a session with these parameters; see `init`.
    pub fn init<'b>(self, native_ok: bool) -> (r: Result<Bgfx<'b>, BgfxError>)
        ensures
            r is Ok <==> native_ok,
            r matches Ok(b) ==> is_fresh(b),
            r matches Err(e) ==> e == BgfxError::InitFailed,
    {
        init(&self, native_ok)
    }
}

/// Whether `call` releases the native resource `h`.
pub open spec fn releases_handle(call: NativeCall, h: u64) -> bool {
    match call {
        NativeCall::DestroyShader { handle } => handle == h,
        NativeCall::DestroyProgram { handle } => handle == h,
        NativeCall::DestroyIndexBuffer { handle } => handle == h,
        NativeCall::DestroyVertexBuffer { handle } => handle == h,
        _ => false,
    }
}

/// How many of `calls` release the native resource `h`.
pub open spec fn release_count(calls: Seq<NativeCall>, h: u64) -> nat
    decreases calls.len(),
{
    if calls.len() == 0 {
        0
    } else {
        release_count(calls.drop_last(), h) + if releases_handle(calls.last(), h) {
            1nat
        } else {
            0nat
        }
    }
}

/// Creating two shaders, a program from them, and then releasing the program releases exactly
/// one program handle and two shader handles, each exactly once and nothing else: the three
/// handles are distinct, no longer live, and the session's live handles are those it had before.
pub proof fn lemma_program_lifecycle(
    s0: Bgfx,
    s1: Bgfx,
    s2: Bgfx,
    s3: Bgfx,
    s4: Bgfx,
    v: u64,
    f: u64,
    p: u64,
)
    requires
        s0.wf(),
        s1.creates(s0, v),
        s2.creates(s1, f),
        s3.creates(s2, p),
        s4.releases(
            s3,
            set![p, v, f],
            seq![
                NativeCall::DestroyProgram { handle: p },
                NativeCall::DestroyShader { handle: v },
                NativeCall::DestroyShader { handle: f },
            ],
        ),
    ensures
        v != f && v != p && f != p,
        release_count(s4.calls().skip(s3.calls().len() as int), p) == 1,
        release_count(s4.calls().skip(s3.calls().len() as int), v) == 1,
        release_count(s4.calls().skip(s3.calls().len() as int), f) == 1,
        forall|h: u64|
            h != p && h != v && h != f ==> release_count(
                #[trigger] s4.calls().skip(s3.calls().len() as int),
                h,
            ) == 0,
        s4.live() == s0.live(),
        s4.released() == s0.released().union(set![p, v, f]),
{
    let added = seq![
        NativeCall::DestroyProgram { handle: p },
        NativeCall::DestroyShader { handle: v },
        NativeCall::DestroyShader { handle: f },
    ];
    assert(s4.calls().skip(s3.calls().len() as int) =~= added);
    assert(added.drop_last() =~= seq![
        NativeCall::DestroyProgram { handle: p },
        NativeCall::DestroyShader { handle: v },
    ]);
    assert(added.drop_last().drop_last() =~= seq![NativeCall::DestroyProgram { handle: p }]);
    assert(added.drop_last().drop_last().drop_last() =~= Seq::<NativeCall>::empty());
    reveal_with_fuel(release_count, 4);
    assert(s4.live() =~= s0.live());
    assert(s4.released() =~= s0.released().union(set![p, v, f]));
}

} // verus!
