//! The terrain renderer's frame state machine.
//!
//! The renderer keeps a list of commands staged for the next submission.
//! Resizing appends the camera's copy to it. `render` takes the list out,
//! puts a fresh one in its place, and submits what it took with the
//! frame's draw at its end. A rebuild of the mesh that a frame makes goes
//! into the fresh list: the frame still draws the mesh as it was, and the
//! frame after it is the first to draw the new one. The caller records and
//! submits what `render` returns.

use vstd::prelude::*;
use crate::gpu::{
    PresentMode, SwapChainDescriptor, SwapChainError, TextureFormat, TextureUsage, swap_chain_for,
};
use crate::utils::{
    GRID_SIZE, VERTEX_SIZE, index_buffer_bytes, index_count, lemma_indices_valid, mesh_indices,
    mesh_vertices, vertex_buffer_bytes, vertex_count,
};

verus! {

/// Bit pattern of the double-precision float 10.0, the initial amplitude.
pub const INITIAL_AMPLITUDE: u64 = 0x4024_0000_0000_0000;

/// Bit pattern of the single-precision float 6.0, the initial frequency.
pub const INITIAL_FREQUENCY: u32 = 0x40C0_0000;

/// Side of the square placeholder texture, in texels.
pub const TEXTURE_SIZE: u32 = 256;

/// Bytes of the camera matrix: sixteen single-precision floats.
pub const CAMERA_BYTES: u64 = 64;

/// One GPU command as the renderer stages it.
#[derive(Clone, Copy, Debug, PartialEq, Eq, Structural)]
pub enum Command {
    /// Copy the texels of the square placeholder texture of side `size`
    /// into the texture, `bytes_per_row` bytes per row.
    CopyTexels { size: u32, bytes_per_row: u32 },
    /// Copy the camera matrix for a viewport of `width` by `height` into
    /// the first `len` bytes of the uniform buffer.
    CopyCamera { width: u32, height: u32, len: u64 },
    /// Copy `len` bytes of the vertices of the mesh for the given
    /// parameters over the vertex buffer.
    CopyVertices { amplitude: u64, frequency: u32, len: u64 },
    /// Copy `len` bytes of the indices of the mesh for the given
    /// parameters over the index buffer.
    CopyIndices { amplitude: u64, frequency: u32, len: u64 },
    /// Clear the frame and draw `index_count` indices of the mesh, one instance.
    Draw { index_count: u32 },
}

/// A change a caller may make between two frames.
#[derive(Clone, Copy, Debug, PartialEq, Eq, Structural)]
pub enum Mutation {
    SetAmplitude(u64),
    SetFrequency(u32),
    SetDirty,
}

/// The renderer's state as the contracts see it.
pub struct RenderState {
    /// Commands staged for the next submission, oldest first.
    pub pending: Seq<Command>,
    pub amplitude: u64,
    pub frequency: u32,
    /// The description of the current swap chain.
    pub swap_chain: SwapChainDescriptor,
    /// Bytes of the vertex buffer as recorded when it was made.
    pub vertex_buf_len: usize,
    /// Indices of the index buffer as recorded when it was made.
    pub index_buf_len: usize,
    /// Whether a rebuild of the mesh is wanted.
    pub dirty: bool,
}

impl RenderState {
    /// The state of a new renderer for a window of the given size.
    pub open spec fn initial(width: u32, height: u32) -> RenderState {
        RenderState {
            pending: Seq::empty(),
            amplitude: INITIAL_AMPLITUDE,
            frequency: INITIAL_FREQUENCY,
            swap_chain: swap_chain_for(width, height),
            vertex_buf_len: (vertex_count() * VERTEX_SIZE) as usize,
            index_buf_len: index_count() as usize,
            dirty: false,
        }
    }

    /// The recorded buffer lengths are those of the one mesh shape, count
    /// of vertices times vertex size and count of indices, and the swap
    /// chain has the renderer's fixed format, usage and present mode.
    pub open spec fn wf(self) -> bool {
        &&& self.vertex_buf_len == vertex_count() * VERTEX_SIZE
        &&& self.index_buf_len == index_count()
        &&& self.swap_chain == swap_chain_for(self.swap_chain.width, self.swap_chain.height)
    }

    /// After a resize: the new size, and the new camera matrix staged.
    pub open spec fn resized(self, width: u32, height: u32) -> RenderState {
        RenderState {
            swap_chain: SwapChainDescriptor { width, height, ..self.swap_chain },
            pending: self.pending.push(Command::CopyCamera { width, height, len: CAMERA_BYTES }),
            ..self
        }
    }

    /// After one change by the caller. Changing a parameter does not by
    /// itself ask for a rebuild.
    pub open spec fn mutated(self, mutation: Mutation) -> RenderState {
        match mutation {
            Mutation::SetAmplitude(amplitude) => RenderState { amplitude, ..self },
            Mutation::SetFrequency(frequency) => RenderState { frequency, ..self },
            Mutation::SetDirty => RenderState { dirty: true, ..self },
        }
    }

    /// After a run of changes, first to last.
    pub open spec fn mutated_all(self, mutations: Seq<Mutation>) -> RenderState
        decreases mutations.len(),
    {
        if mutations.len() == 0 {
            self
        } else {
            self.mutated_all(mutations.drop_last()).mutated(mutations.last())
        }
    }

    /// The two copies that overwrite the mesh buffers with the mesh for the
    /// current parameters: all its vertices, `VERTEX_SIZE` bytes each, and
    /// all its indices, four bytes each.
    pub open spec fn mesh_copies(self) -> Seq<Command> {
        seq![
            Command::CopyVertices {
                amplitude: self.amplitude,
                frequency: self.frequency,
                len: (vertex_count() * VERTEX_SIZE) as u64,
            },
            Command::CopyIndices {
                amplitude: self.amplitude,
                frequency: self.frequency,
                len: (index_count() * 4) as u64,
            },
        ]
    }

    /// After a rebuild of the mesh: its copies staged.
    pub open spec fn regenerated(self) -> RenderState {
        RenderState { pending: self.pending + self.mesh_copies(), ..self }
    }

    /// The frame's draw.
    pub open spec fn draw() -> Command {
        Command::Draw { index_count: index_count() as u32 }
    }

    /// What one frame submits: everything staged before it, then the
    /// draw, whether or not a rebuild is wanted.
    pub open spec fn submitted(self) -> Seq<Command> {
        self.pending.push(Self::draw())
    }

    /// After one frame: no rebuild wanted any more, and staged for the
    /// next frame the mesh copies if one was wanted, nothing if not.
    pub open spec fn rendered(self) -> RenderState {
        RenderState {
            pending: if self.dirty {
                self.mesh_copies()
            } else {
                Seq::empty()
            },
            dirty: false,
            ..self
        }
    }
}

/// Whether a run of changes asks for a rebuild.
pub open spec fn asks_rebuild(mutations: Seq<Mutation>) -> bool {
    exists|i: int| 0 <= i < mutations.len() && mutations[i] == Mutation::SetDirty
}

/// The viewport whose camera matrix the uniform buffer holds once
/// `commands` have run, given the one it held before.
pub open spec fn camera_after(commands: Seq<Command>, before: (u32, u32)) -> (u32, u32)
    decreases commands.len(),
{
    if commands.len() == 0 {
        before
    } else {
        match commands.last() {
            Command::CopyCamera { width, height, .. } => (width, height),
            _ => camera_after(commands.drop_last(), before),
        }
    }
}

/// The terrain renderer's own state. The GPU handles live with the caller.
pub struct RenderContext {
    next_frame: Vec<Command>,
    amplitude: u64,
    frequency: u32,
    vertex_buf_len: usize,
    index_buf_len: usize,
    sc_desc: SwapChainDescriptor,
    dirty: bool,
}

impl RenderContext {
    pub closed spec fn view(&self) -> RenderState {
        RenderState {
            pending: self.next_frame@,
            amplitude: self.amplitude,
            frequency: self.frequency,
            swap_chain: self.sc_desc,
            vertex_buf_len: self.vertex_buf_len,
            index_buf_len: self.index_buf_len,
            dirty: self.dirty,
        }
    }

    /// Whether the state is one that `create` and the methods after it
    /// can have left.
    pub open spec fn wf(&self) -> bool {
        self@.wf()
    }

    /// A renderer for a window of the given physical size: initial
    /// parameters, nothing staged, no rebuild wanted.
    pub fn create(width: u32, height: u32) -> (created: Option<RenderContext>)
        ensures
            created is Some,
            created->0.wf(),
            created->0@ == RenderState::initial(width, height),
    {
        let vertex_buf_len: usize = GRID_SIZE * GRID_SIZE * VERTEX_SIZE;
        let index_byte_len: usize = 6 * (GRID_SIZE - 1) * (GRID_SIZE - 1) * 4;
        Some(
            RenderContext {
                next_frame: Vec::new(),
                amplitude: INITIAL_AMPLITUDE,
                frequency: INITIAL_FREQUENCY,
                vertex_buf_len,
                index_buf_len: index_byte_len / 4,
                sc_desc: SwapChainDescriptor {
                    usage: TextureUsage::OutputAttachment,
                    format: TextureFormat::Bgra8UnormSrgb,
                    width,
                    height,
                    present_mode: PresentMode::Mailbox,
                },
                dirty: false,
            },
        )
    }

    /// The commands submitted once when the renderer is set up: the upload
    /// of the placeholder texture, four bytes per texel.
    pub fn setup_commands() -> (commands: Vec<Command>)
        ensures
            commands@ == seq![Command::CopyTexels { size: TEXTURE_SIZE, bytes_per_row: (4 * TEXTURE_SIZE) as u32 }],
    {
        let mut commands: Vec<Command> = Vec::new();
        commands.push(Command::CopyTexels { size: TEXTURE_SIZE, bytes_per_row: 4 * TEXTURE_SIZE });
        assert(commands@ =~= seq![Command::CopyTexels { size: TEXTURE_SIZE, bytes_per_row: (4 * TEXTURE_SIZE) as u32 }]);
        commands
    }

    /// Takes the new size and stages the camera matrix for it.
    pub fn resize(&mut self, width: u32, height: u32)
        ensures
            final(self)@ == old(self)@.resized(width, height),
            old(self).wf() ==> final(self).wf(),
    {
        self.sc_desc.width = width;
        self.sc_desc.height = height;
        self.next_frame.push(Command::CopyCamera { width, height, len: CAMERA_BYTES });
    }

    /// Renders one frame, given that its image was acquired: takes out
    /// the staged commands and returns them, in order, with the draw at
    /// their end. A rebuild that is wanted is staged for the frame after
    /// this one.
    pub fn render(&mut self) -> (submitted: Vec<Command>)
        requires
            old(self).wf(),
        ensures
            final(self).wf(),
            submitted@ == old(self)@.submitted(),
            final(self)@ == old(self)@.rendered(),
    {
        let mut submitted: Vec<Command> = Vec::new();
        core::mem::swap(&mut self.next_frame, &mut submitted);
        if self.dirty {
            self.regenerate_mesh();
            self.dirty = false;
            assert(self.next_frame@ =~= old(self)@.mesh_copies());
        }
        submitted.push(Command::Draw { index_count: self.index_buf_len as u32 });
        submitted
    }

    /// One frame, from the outcome of acquiring its image. Where the image
    /// was not acquired, the backend's reason is handed back and the
    /// renderer stays exactly as it was: nothing is submitted, nothing is
    /// staged. Where it was, the frame is rendered.
    pub fn render_acquired(&mut self, acquired: Result<(), SwapChainError>) -> (out: Result<
        Vec<Command>,
        SwapChainError,
    >)
        requires
            old(self).wf(),
        ensures
            final(self).wf(),
            acquired matches Err(e) ==> out == Err::<Vec<Command>, SwapChainError>(e) && *final(self)
                == *old(self),
            acquired is Ok ==> out is Ok && out->Ok_0@ == old(self)@.submitted() && final(self)@ == old(
                self,
            )@.rendered(),
    {
        match acquired {
            Err(reason) => Err(reason),
            Ok(_) => Ok(self.render()),
        }
    }

    /// The message with which the renderer gives up when a frame's image
    /// was not acquired.
    pub fn acquisition_failure_message() -> (text: &'static str)
        ensures
            text@ == "Timeout when acquiring next swap chain texture."@,
    {
        "Timeout when acquiring next swap chain texture."
    }

    /// Asks for a rebuild of the mesh when the next frame is rendered.
    pub fn set_dirty(&mut self)
        ensures
            final(self)@ == old(self)@.mutated(Mutation::SetDirty),
            old(self).wf() ==> final(self).wf(),
    {
        self.dirty = true;
    }

    /// The amplitude, as the bits of a double-precision float.
    pub fn amplitude(&self) -> (amplitude: u64)
        ensures
            amplitude == self@.amplitude,
    {
        self.amplitude
    }

    /// Sets the amplitude; a rebuild has to be asked for separately.
    pub fn set_amplitude(&mut self, amplitude: u64)
        ensures
            final(self)@ == old(self)@.mutated(Mutation::SetAmplitude(amplitude)),
            old(self).wf() ==> final(self).wf(),
    {
        self.amplitude = amplitude;
    }

    /// The frequency, as the bits of a single-precision float.
    pub fn frequency(&self) -> (frequency: u32)
        ensures
            frequency == self@.frequency,
    {
        self.frequency
    }

    /// Sets the frequency; a rebuild has to be asked for separately.
    pub fn set_frequency(&mut self, frequency: u32)
        ensures
            final(self)@ == old(self)@.mutated(Mutation::SetFrequency(frequency)),
            old(self).wf() ==> final(self).wf(),
    {
        self.frequency = frequency;
    }

    /// Whether a rebuild of the mesh is wanted.
    pub fn is_dirty(&self) -> (dirty: bool)
        ensures
            dirty == self@.dirty,
    {
        self.dirty
    }

    /// Width and height of the current swap chain.
    pub fn size(&self) -> (size: (u32, u32))
        ensures
            size == (self@.swap_chain.width, self@.swap_chain.height),
    {
        (self.sc_desc.width, self.sc_desc.height)
    }

    /// The description from which the swap chain is built.
    pub fn swap_chain_descriptor(&self) -> (descriptor: SwapChainDescriptor)
        ensures
            descriptor == self@.swap_chain,
    {
        self.sc_desc
    }

    /// The number of indices that a frame draws: the bytes of the index
    /// data divided by four.
    pub fn index_count(&self) -> (count: usize)
        ensures
            count == self@.index_buf_len,
            self.wf() ==> count == index_count(),
    {
        self.index_buf_len
    }

    /// The recorded length of the vertex buffer in bytes: the number of
    /// vertices times the size of one.
    pub fn vertex_buf_len(&self) -> (len: usize)
        ensures
            len == self@.vertex_buf_len,
            self.wf() ==> len == vertex_count() * VERTEX_SIZE,
    {
        self.vertex_buf_len
    }

    /// Number of commands staged for the next submission.
    pub fn pending_len(&self) -> (len: usize)
        ensures
            len == self@.pending.len(),
    {
        self.next_frame.len()
    }

    /// Stages the copies that overwrite the mesh buffers with the mesh
    /// for the current parameters. `render` does so when a rebuild is wanted.
    pub fn regenerate_mesh(&mut self)
        requires
            old(self).wf(),
        ensures
            final(self).wf(),
            final(self)@ == old(self)@.regenerated(),
    {
        let vertex_len: u64 = self.vertex_buf_len as u64;
        let index_len: u64 = (self.index_buf_len * 4) as u64;
        self.next_frame.push(
            Command::CopyVertices { amplitude: self.amplitude, frequency: self.frequency, len: vertex_len },
        );
        self.next_frame.push(
            Command::CopyIndices { amplitude: self.amplitude, frequency: self.frequency, len: index_len },
        );
        assert(self.next_frame@ =~= old(self).next_frame@ + old(self)@.mesh_copies());
    }
}

/// Changes by the caller stage nothing and leave the size alone. After
/// them a rebuild is wanted exactly if it was wanted before or one of
/// them asked for it.
pub proof fn lemma_mutations_stage_nothing(state: RenderState, mutations: Seq<Mutation>)
    ensures
        state.mutated_all(mutations).pending == state.pending,
        state.mutated_all(mutations).swap_chain == state.swap_chain,
        state.mutated_all(mutations).vertex_buf_len == state.vertex_buf_len,
        state.mutated_all(mutations).index_buf_len == state.index_buf_len,
        state.mutated_all(mutations).dirty == (state.dirty || asks_rebuild(mutations)),
    decreases mutations.len(),
{
    if mutations.len() > 0 {
        let front = mutations.drop_last();
        lemma_mutations_stage_nothing(state, front);
        if asks_rebuild(front) {
            let i = choose|i: int| 0 <= i < front.len() && front[i] == Mutation::SetDirty;
            assert(mutations[i] == Mutation::SetDirty);
        }
        if mutations.last() == Mutation::SetDirty {
            assert(mutations[mutations.len() - 1] == Mutation::SetDirty);
        }
        if asks_rebuild(mutations) && !asks_rebuild(front) {
            let i = choose|i: int| 0 <= i < mutations.len() && mutations[i] == Mutation::SetDirty;
            if i < front.len() {
                assert(front[i] == Mutation::SetDirty);
            }
        }
    }
}

/// However many changes are made between two frames, the frame that
/// follows them submits what was staged before them and its draw, and
/// no rebuild. If a rebuild is wanted by then, exactly one is staged for
/// the frame after it, for the parameters as they are when the frame is
/// rendered; if none is wanted, none is staged. The frame after stages
/// no further rebuild.
pub proof fn lemma_dirty_coalescing(state: RenderState, mutations: Seq<Mutation>)
    ensures
        ({
            let at_render = state.mutated_all(mutations);
            let draw = seq![RenderState::draw()];
            let wanted = state.dirty || asks_rebuild(mutations);
            &&& at_render.submitted() == state.pending + draw
            &&& wanted ==> at_render.rendered().pending == at_render.mesh_copies()
            &&& wanted ==> at_render.rendered().submitted() == at_render.mesh_copies() + draw
            &&& !wanted ==> at_render.rendered().pending == Seq::<Command>::empty()
            &&& !wanted ==> at_render.rendered().submitted() == draw
            &&& at_render.rendered().rendered().pending == Seq::<Command>::empty()
            &&& at_render.rendered().rendered().submitted() == draw
        }),
{
    lemma_mutations_stage_nothing(state, mutations);
    let at_render = state.mutated_all(mutations);
    let draw = seq![RenderState::draw()];
    assert(at_render.pending.push(RenderState::draw()) =~= state.pending + draw);
    assert(at_render.mesh_copies().push(RenderState::draw()) =~= at_render.mesh_copies() + draw);
    assert(Seq::<Command>::empty().push(RenderState::draw()) =~= draw);
}

/// A rebuild takes effect one frame late, never sooner and never later.
/// The frame that finds a rebuild wanted submits only what was staged
/// before it and its draw, so it draws the mesh as it was; the rebuild's
/// copies wait in the new list. The frame after it submits those copies
/// ahead of its draw and leaves nothing staged.
pub proof fn lemma_one_frame_latency(state: RenderState)
    requires
        state.dirty,
    ensures
        state.submitted() == state.pending.push(RenderState::draw()),
        state.submitted().len() == state.pending.len() + 1,
        state.rendered().pending == state.mesh_copies(),
        !state.rendered().dirty,
        state.rendered().submitted() == state.mesh_copies() + seq![RenderState::draw()],
        state.rendered().rendered().pending == Seq::<Command>::empty(),
{
    assert(state.mesh_copies().push(RenderState::draw()) =~= state.mesh_copies() + seq![
        RenderState::draw(),
    ]);
}

/// Of the commands of one frame, those that do not write the camera
/// matrix leave the uniform buffer as the commands before them left it.
proof fn lemma_camera_after_push(commands: Seq<Command>, last: Command, before: (u32, u32))
    ensures
        camera_after(commands.push(last), before) == match last {
            Command::CopyCamera { width, height, .. } => (width, height),
            _ => camera_after(commands, before),
        },
{
    assert(commands.push(last).drop_last() =~= commands);
    assert(commands.push(last).last() == last);
}

/// After two resizes in a row, the frame that follows leaves the
/// uniform buffer holding the camera matrix of the second size, whatever
/// was staged before and whether or not a rebuild is wanted.
pub proof fn lemma_resize_last_wins(state: RenderState, w1: u32, h1: u32, w2: u32, h2: u32, before: (u32, u32))
    ensures
        camera_after(state.resized(w1, h1).resized(w2, h2).submitted(), before) == (w2, h2),
        state.resized(w1, h1).resized(w2, h2).swap_chain == (SwapChainDescriptor {
            width: w2,
            height: h2,
            ..state.swap_chain
        }),
{
    let resized = state.resized(w1, h1).resized(w2, h2);
    let staged = state.resized(w1, h1).pending;
    let camera = Command::CopyCamera { width: w2, height: h2, len: CAMERA_BYTES };
    lemma_camera_after_push(staged, camera, before);
    lemma_camera_after_push(resized.pending, RenderState::draw(), before);
}

/// Everything staged before a frame is submitted with that frame, in the
/// order it was staged and ahead of the frame's draw, and nothing else is.
/// What the frame leaves staged is its own rebuild or nothing.
pub proof fn lemma_staged_work_precedes_draw(state: RenderState)
    ensures
        ({
            let submitted = state.submitted();
            let staged = state.pending.len() as int;
            &&& submitted.len() == staged + 1
            &&& submitted.last() == RenderState::draw()
            &&& submitted.drop_last() == state.pending
            &&& state.dirty ==> state.rendered().pending == state.mesh_copies()
            &&& !state.dirty ==> state.rendered().pending.len() == 0
        }),
{
    assert(state.submitted().drop_last() =~= state.pending);
}

/// What a rebuild stages depends on amplitude and frequency alone: two
/// states that agree on them stage the same copies, whatever else
/// differs, and a second rebuild stages the same copies once more.
pub proof fn lemma_rebuild_follows_parameters(first: RenderState, second: RenderState)
    requires
        first.amplitude == second.amplitude,
        first.frequency == second.frequency,
    ensures
        first.mesh_copies() == second.mesh_copies(),
        first.regenerated().pending == first.pending + first.mesh_copies(),
        first.regenerated().regenerated().pending == first.pending + first.mesh_copies()
            + first.mesh_copies(),
{
}

/// A rebuild stages one copy of the vertices and one of the indices, each
/// over the whole mesh, whatever the mesh's coordinates and elevations:
/// the vertex copy has the length of the mesh's vertex bytes, which is the
/// recorded vertex buffer length; the index copy has the length of its
/// index bytes, four for each recorded index. The indices copied are whole
/// triangles and each names a vertex of the mesh.
pub proof fn lemma_rebuild_covers_mesh(state: RenderState, axis: Seq<u32>, tex_axis: Seq<u32>, heights: Seq<u32>)
    requires
        state.wf(),
    ensures
        state.mesh_copies() == seq![
            Command::CopyVertices {
                amplitude: state.amplitude,
                frequency: state.frequency,
                len: vertex_buffer_bytes(mesh_vertices(axis, tex_axis, heights)).len() as u64,
            },
            Command::CopyIndices {
                amplitude: state.amplitude,
                frequency: state.frequency,
                len: index_buffer_bytes(mesh_indices()).len() as u64,
            },
        ],
        vertex_buffer_bytes(mesh_vertices(axis, tex_axis, heights)).len() == state.vertex_buf_len,
        vertex_buffer_bytes(mesh_vertices(axis, tex_axis, heights)).len() == mesh_vertices(
            axis,
            tex_axis,
            heights,
        ).len() * VERTEX_SIZE,
        index_buffer_bytes(mesh_indices()).len() == 4 * state.index_buf_len,
        mesh_indices().len() == state.index_buf_len,
        mesh_indices().len() % 3 == 0,
        forall|k: int|
            0 <= k < mesh_indices().len() ==> (#[trigger] mesh_indices()[k]) < mesh_vertices(
                axis,
                tex_axis,
                heights,
            ).len(),
{
    lemma_indices_valid();
}

} // verus!
