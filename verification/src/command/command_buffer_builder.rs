//! Recording of a command buffer, tracked through the builder's type state.
//!
//! A [`CommandBufferBuilder`] keeps, as plain values, the commands that it has
//! recorded and the resources that the command buffer holds on to. Every
//! method appends to these two sequences; the application layer performs each
//! appended command on the Vulkan device.
use vstd::prelude::*;
use core::marker::PhantomData;
use crate::vkraw::{
    IMAGE_LAYOUT_UNDEFINED,
    IMAGE_LAYOUT_SHADER_READ_ONLY_OPTIMAL,
    IMAGE_LAYOUT_TRANSFER_SRC_OPTIMAL,
    IMAGE_LAYOUT_TRANSFER_DST_OPTIMAL,
    ACCESS_NONE,
    ACCESS_SHADER_READ,
    ACCESS_TRANSFER_READ,
    ACCESS_TRANSFER_WRITE,
    PIPELINE_STAGE_TOP_OF_PIPE,
    PIPELINE_STAGE_FRAGMENT_SHADER,
    PIPELINE_STAGE_TRANSFER,
    IMAGE_ASPECT_COLOR,
    FILTER_LINEAR,
    SUBPASS_CONTENTS_INLINE,
};

verus! {

/// The recording state of a [`CommandBufferBuilder`].
pub trait BuilderState {
    /// A builder in this state has a pipeline bound.
    spec fn pipeline_bound() -> bool;

    /// A builder in this state records inside a render pass.
    spec fn in_render_pass() -> bool;
}

/// States in which a pipeline is bound.
pub trait PipelineBoundState: BuilderState {
    proof fn lemma_pipeline_bound()
        ensures
            Self::pipeline_bound(),
    ;
}

/// States inside a render pass.
pub trait RenderPassBound: BuilderState {
    proof fn lemma_in_render_pass()
        ensures
            Self::in_render_pass(),
    ;
}

/// States from which a command buffer can be finished.
pub trait Buildable: BuilderState {
    proof fn lemma_outside_render_pass()
        ensures
            !Self::in_render_pass(),
    ;
}

/// Nothing bound, outside any render pass.
pub struct Idle;

impl BuilderState for Idle {
    open spec fn pipeline_bound() -> bool {
        false
    }

    open spec fn in_render_pass() -> bool {
        false
    }
}

impl Buildable for Idle {
    proof fn lemma_outside_render_pass() {
    }
}

/// A pipeline bound, outside any render pass.
pub struct PipelineBound;

impl BuilderState for PipelineBound {
    open spec fn pipeline_bound() -> bool {
        true
    }

    open spec fn in_render_pass() -> bool {
        false
    }
}

impl PipelineBoundState for PipelineBound {
    proof fn lemma_pipeline_bound() {
    }
}

impl Buildable for PipelineBound {
    proof fn lemma_outside_render_pass() {
    }
}

/// Inside a render pass, no pipeline bound.
pub struct InRenderPass;

impl BuilderState for InRenderPass {
    open spec fn pipeline_bound() -> bool {
        false
    }

    open spec fn in_render_pass() -> bool {
        true
    }
}

impl RenderPassBound for InRenderPass {
    proof fn lemma_in_render_pass() {
    }
}

/// Inside a render pass with a pipeline bound.
pub struct InRenderPassWithPipeline;

impl BuilderState for InRenderPassWithPipeline {
    open spec fn pipeline_bound() -> bool {
        true
    }

    open spec fn in_render_pass() -> bool {
        true
    }
}

impl PipelineBoundState for InRenderPassWithPipeline {
    proof fn lemma_pipeline_bound() {
    }
}

impl RenderPassBound for InRenderPassWithPipeline {
    proof fn lemma_in_render_pass() {
    }
}

/// A pipeline as a command buffer uses it: its handle, the handle of its
/// layout and its bind point.
#[derive(Clone, Copy, PartialEq, Eq, Structural, Debug)]
pub struct PipelineRef {
    pub handle: u64,
    pub layout: u64,
    pub bind_point: i32,
}

/// An image as a command buffer uses it.
#[derive(Clone, Copy, PartialEq, Eq, Structural, Debug)]
pub struct ImageRef {
    pub handle: u64,
    pub width: u32,
    pub height: u32,
    /// The layout that the image is in before the command.
    pub layout: i32,
    pub mip_levels: u32,
    pub array_layers: u32,
}

/// A render target as a command buffer uses it: the render pass, one
/// framebuffer per presentable image, and the extent of its first attachment.
#[derive(Clone, Debug, PartialEq, Eq)]
pub struct RenderTargetRef {
    pub handle: u64,
    pub render_pass: u64,
    pub framebuffers: Vec<u64>,
    pub width: u32,
    pub height: u32,
}

/// A resource that the command buffer keeps alive until it is dropped.
#[derive(Clone, Copy, PartialEq, Eq, Structural, Debug)]
pub enum Binding {
    Pipeline(PipelineRef),
    PipelineLayout(u64),
    DescriptorSet(u64),
    Buffer(u64),
    Image(u64),
    RenderTarget(u64),
}

/// An image memory barrier on the colour aspect (queue family ownership is
/// never transferred, the first array layer is 0).
#[derive(Clone, Copy, PartialEq, Eq, Structural, Debug)]
pub struct ImageBarrier {
    pub image: u64,
    pub old_layout: i32,
    pub new_layout: i32,
    pub src_access: u32,
    pub dst_access: u32,
    pub src_stage: u32,
    pub dst_stage: u32,
    pub aspect_mask: u32,
    pub base_mip_level: u32,
    pub level_count: u32,
    pub layer_count: u32,
}

/// A corner of an image region.
#[derive(Clone, Copy, PartialEq, Eq, Structural, Debug)]
pub struct Offset3D {
    pub x: i32,
    pub y: i32,
    pub z: i32,
}

/// A blit between two mip levels of one image. Both regions start at the
/// origin; `src_end` and `dst_end` are their far corners.
#[derive(Clone, Copy, PartialEq, Eq, Structural, Debug)]
pub struct ImageBlit {
    pub image: u64,
    pub src_layout: i32,
    pub dst_layout: i32,
    pub aspect_mask: u32,
    pub src_mip_level: u32,
    pub dst_mip_level: u32,
    pub src_end: Offset3D,
    pub dst_end: Offset3D,
    pub filter: i32,
}

/// A copy between a buffer and the first mip level of an image (all offsets
/// zero, rows tightly packed).
#[derive(Clone, Copy, PartialEq, Eq, Structural, Debug)]
pub struct BufferImageCopy {
    pub image: u64,
    pub buffer: u64,
    pub image_layout: i32,
    pub aspect_mask: u32,
    pub layer_count: u32,
    pub width: u32,
    pub height: u32,
    pub depth: u32,
}

/// A command recorded into a command buffer.
#[derive(Clone, Debug, PartialEq, Eq)]
#[allow(inconsistent_fields)]
pub enum Command {
    BeginRenderPass { render_pass: u64, framebuffer: u64, width: u32, height: u32, contents: i32 },
    EndRenderPass,
    BindPipeline { bind_point: i32, pipeline: u64 },
    PushConstants { layout: u64, stages: u32, offset: u32, constants: Vec<u8> },
    BindDescriptorSets { bind_point: i32, layout: u64, first_set: u32, sets: Vec<u64> },
    Dispatch { x: u32, y: u32, z: u32 },
    BindIndexBuffer { buffer: u64, offset: u64, index_type: i32 },
    BindVertexBuffer { first_binding: u32, buffer: u64, offset: u64 },
    DrawIndexed {
        index_count: u32,
        instance_count: u32,
        first_index: u32,
        vertex_offset: i32,
        first_instance: u32,
    },
    DrawIndexedIndirect { buffer: u64, offset: u64, draw_count: u32, stride: u32 },
    PipelineBarrier(ImageBarrier),
    BlitImage(ImageBlit),
    CopyImageToBuffer(BufferImageCopy),
    CopyBufferToImage(BufferImageCopy),
}

/// Whether a command opens or closes a render pass.
pub open spec fn changes_render_pass(c: Command) -> bool {
    c is BeginRenderPass || c is EndRenderPass
}

/// Replays the render pass commands of `cmds`: `Some(open)` says whether a
/// render pass is open at the end, `None` that a render pass was begun while
/// one was open or ended while none was.
pub open spec fn render_pass_state(cmds: Seq<Command>) -> Option<bool>
    decreases cmds.len(),
{
    if cmds.len() == 0 {
        Some(false)
    } else {
        match render_pass_state(cmds.drop_last()) {
            None => None,
            Some(open) => match cmds.last() {
                Command::BeginRenderPass { .. } => if open {
                    None
                } else {
                    Some(true)
                },
                Command::EndRenderPass => if open {
                    Some(false)
                } else {
                    None
                },
                _ => Some(open),
            },
        }
    }
}

/// The pipeline bound last, that is the last pipeline in `bindings`.
pub open spec fn last_pipeline(bindings: Seq<Binding>) -> Option<PipelineRef>
    decreases bindings.len(),
{
    if bindings.len() == 0 {
        None
    } else {
        match bindings.last() {
            Binding::Pipeline(p) => Some(p),
            _ => last_pipeline(bindings.drop_last()),
        }
    }
}

proof fn lemma_render_pass_state_push(cmds: Seq<Command>, c: Command)
    ensures
        render_pass_state(cmds.push(c)) == match render_pass_state(cmds) {
            None => None,
            Some(open) => match c {
                Command::BeginRenderPass { .. } => if open {
                    None
                } else {
                    Some(true)
                },
                Command::EndRenderPass => if open {
                    Some(false)
                } else {
                    None
                },
                _ => Some(open),
            },
        },
{
    assert(cmds.push(c).drop_last() =~= cmds);
}

proof fn lemma_render_pass_state_neutral(cmds: Seq<Command>, more: Seq<Command>)
    requires
        forall|i: int| 0 <= i < more.len() ==> !changes_render_pass(#[trigger] more[i]),
    ensures
        render_pass_state(cmds + more) == render_pass_state(cmds),
    decreases more.len(),
{
    if more.len() > 0 {
        let init = more.drop_last();
        lemma_render_pass_state_neutral(cmds, init);
        assert((cmds + more).drop_last() =~= cmds + init);
        assert(!changes_render_pass(more[more.len() - 1]));
    } else {
        assert(cmds + more =~= cmds);
    }
}

proof fn lemma_last_pipeline_push(bindings: Seq<Binding>, b: Binding)
    ensures
        last_pipeline(bindings.push(b)) == match b {
            Binding::Pipeline(p) => Some(p),
            _ => last_pipeline(bindings),
        },
{
    assert(bindings.push(b).drop_last() =~= bindings);
}

/// Finds the pipeline bound last.
fn find_last_pipeline(bindings: &Vec<Binding>) -> (r: Option<PipelineRef>)
    ensures
        r == last_pipeline(bindings@),
{
    let mut i = bindings.len();
    assert(bindings@.take(i as int) =~= bindings@);
    while i > 0
        invariant
            i <= bindings@.len(),
            last_pipeline(bindings@) == last_pipeline(bindings@.take(i as int)),
        decreases i,
    {
        let ghost prefix = bindings@.take(i as int);
        assert(prefix.drop_last() =~= bindings@.take(i - 1));
        match bindings[i - 1] {
            Binding::Pipeline(p) => {
                return Some(p);
            },
            _ => {},
        }
        i = i - 1;
    }
    None
}

/// The value of a `u32` read as an `i32` (two's complement).
pub open spec fn wrap_i32(v: u32) -> int {
    if v < 0x8000_0000 {
        v as int
    } else {
        v - 0x1_0000_0000
    }
}

/// Integer division by two, rounding toward zero.
pub open spec fn half_toward_zero(v: int) -> int {
    if v >= 0 {
        v / 2
    } else {
        -((-v) / 2)
    }
}

/// The extent of the next mip level: halved while it is above one.
pub open spec fn next_mip_dim(d: u32) -> u32 {
    if d > 1 {
        (d / 2) as u32
    } else {
        d
    }
}

/// The extent of mip level `level` of an image whose first level is `d` wide.
pub open spec fn mip_dim(d: u32, level: nat) -> u32
    decreases level,
{
    if level == 0 {
        d
    } else {
        next_mip_dim(mip_dim(d, (level - 1) as nat))
    }
}

/// The far corner of a blit destination, along one axis.
pub open spec fn blit_dst_end(d: u32) -> int {
    if d > 1 {
        half_toward_zero(wrap_i32(d))
    } else {
        1
    }
}

/// A barrier on one mip level, in the transfer stage both ways.
pub open spec fn mip_barrier(
    image: u64,
    level: u32,
    old_layout: i32,
    new_layout: i32,
    src_access: u32,
    dst_access: u32,
    dst_stage: u32,
) -> ImageBarrier {
    ImageBarrier {
        image,
        old_layout,
        new_layout,
        src_access,
        dst_access,
        src_stage: PIPELINE_STAGE_TRANSFER,
        dst_stage,
        aspect_mask: IMAGE_ASPECT_COLOR,
        base_mip_level: level,
        level_count: 1,
        layer_count: 1,
    }
}

/// The three commands that produce mip level `level` from level `level - 1`:
/// make the source readable, blit it down, and hand it to the fragment shader.
pub open spec fn mip_level_commands(image: ImageRef, level: u32) -> Seq<Command>
    recommends
        level >= 1,
{
    let w = mip_dim(image.width, (level - 1) as nat);
    let h = mip_dim(image.height, (level - 1) as nat);
    seq![
        Command::PipelineBarrier(
            mip_barrier(
                image.handle,
                (level - 1) as u32,
                IMAGE_LAYOUT_TRANSFER_DST_OPTIMAL,
                IMAGE_LAYOUT_TRANSFER_SRC_OPTIMAL,
                ACCESS_TRANSFER_WRITE,
                ACCESS_TRANSFER_READ,
                PIPELINE_STAGE_TRANSFER,
            ),
        ),
        Command::BlitImage(
            ImageBlit {
                image: image.handle,
                src_layout: IMAGE_LAYOUT_TRANSFER_SRC_OPTIMAL,
                dst_layout: IMAGE_LAYOUT_TRANSFER_DST_OPTIMAL,
                aspect_mask: IMAGE_ASPECT_COLOR,
                src_mip_level: (level - 1) as u32,
                dst_mip_level: level,
                src_end: Offset3D { x: wrap_i32(w) as i32, y: wrap_i32(h) as i32, z: 1 },
                dst_end: Offset3D { x: blit_dst_end(w) as i32, y: blit_dst_end(h) as i32, z: 1 },
                filter: FILTER_LINEAR,
            },
        ),
        Command::PipelineBarrier(
            mip_barrier(
                image.handle,
                (level - 1) as u32,
                IMAGE_LAYOUT_TRANSFER_SRC_OPTIMAL,
                IMAGE_LAYOUT_SHADER_READ_ONLY_OPTIMAL,
                ACCESS_TRANSFER_READ,
                ACCESS_SHADER_READ,
                PIPELINE_STAGE_FRAGMENT_SHADER,
            ),
        ),
    ]
}

/// The commands for mip levels `1 .. levels`.
pub open spec fn mip_chain(image: ImageRef, levels: nat) -> Seq<Command>
    decreases levels,
{
    if levels <= 1 {
        Seq::empty()
    } else {
        mip_chain(image, (levels - 1) as nat) + mip_level_commands(image, (levels - 1) as u32)
    }
}

/// The barrier that hands the last mip level, written by the last blit, to the
/// fragment shader.
pub open spec fn last_mip_barrier(image: ImageRef) -> ImageBarrier {
    mip_barrier(
        image.handle,
        (image.mip_levels - 1) as u32,
        IMAGE_LAYOUT_TRANSFER_DST_OPTIMAL,
        IMAGE_LAYOUT_SHADER_READ_ONLY_OPTIMAL,
        ACCESS_TRANSFER_WRITE,
        ACCESS_SHADER_READ,
        PIPELINE_STAGE_FRAGMENT_SHADER,
    )
}

/// The access masks and pipeline stages of a layout transition: from
/// undefined to transfer destination, and from transfer destination to
/// shader read, get their own; any other pair waits on nothing and blocks the
/// transfer stage.
pub open spec fn transition_masks(old_layout: i32, new_layout: i32) -> (u32, u32, u32, u32) {
    if old_layout == IMAGE_LAYOUT_UNDEFINED && new_layout == IMAGE_LAYOUT_TRANSFER_DST_OPTIMAL {
        (ACCESS_NONE, ACCESS_TRANSFER_WRITE, PIPELINE_STAGE_TOP_OF_PIPE, PIPELINE_STAGE_TRANSFER)
    } else if old_layout == IMAGE_LAYOUT_TRANSFER_DST_OPTIMAL && new_layout
        == IMAGE_LAYOUT_SHADER_READ_ONLY_OPTIMAL {
        (
            ACCESS_TRANSFER_WRITE,
            ACCESS_SHADER_READ,
            PIPELINE_STAGE_TRANSFER,
            PIPELINE_STAGE_FRAGMENT_SHADER,
        )
    } else {
        (ACCESS_NONE, ACCESS_NONE, PIPELINE_STAGE_TOP_OF_PIPE, PIPELINE_STAGE_TRANSFER)
    }
}

/// The barrier that moves every mip level of `image` from its current layout
/// to `new_layout`.
pub open spec fn transition_barrier(image: ImageRef, new_layout: i32) -> ImageBarrier {
    let m = transition_masks(image.layout, new_layout);
    ImageBarrier {
        image: image.handle,
        old_layout: image.layout,
        new_layout,
        src_access: m.0,
        dst_access: m.1,
        src_stage: m.2,
        dst_stage: m.3,
        aspect_mask: IMAGE_ASPECT_COLOR,
        base_mip_level: 0,
        level_count: image.mip_levels,
        layer_count: 1,
    }
}

/// `image` once it is in `layout`.
pub open spec fn with_layout(image: ImageRef, layout: i32) -> ImageRef {
    ImageRef { layout, ..image }
}

/// The copy region between `buffer` and the whole first mip level of `image`.
pub open spec fn copy_region(image: ImageRef, buffer: u64, layout: i32) -> BufferImageCopy {
    BufferImageCopy {
        image: image.handle,
        buffer,
        image_layout: layout,
        aspect_mask: IMAGE_ASPECT_COLOR,
        layer_count: image.array_layers,
        width: image.width,
        height: image.height,
        depth: 1,
    }
}

/// Builds a command buffer. `State` says what is bound and whether a render
/// pass is open; methods exist only in the states in which they are valid.
pub struct CommandBufferBuilder<State: BuilderState = Idle> {
    handle: u64,
    bindings: Vec<Binding>,
    commands: Vec<Command>,
    _state: PhantomData<State>,
}

impl<State: BuilderState> CommandBufferBuilder<State> {
    #[verifier::type_invariant]
    spec fn well_formed(self) -> bool {
        &&& render_pass_state(self.commands@) == Some(State::in_render_pass())
        &&& State::pipeline_bound() ==> last_pipeline(self.bindings@) is Some
    }

    /// The raw handle of the command buffer.
    pub closed spec fn spec_handle(&self) -> u64 {
        self.handle
    }

    /// The resources that the command buffer holds, in the order they were bound.
    pub closed spec fn bound(&self) -> Seq<Binding> {
        self.bindings@
    }

    /// The commands recorded so far, in order.
    pub closed spec fn recorded(&self) -> Seq<Command> {
        self.commands@
    }

    pub fn handle(&self) -> (r: u64)
        ensures
            r == self.spec_handle(),
    {
        self.handle
    }

    pub fn bindings(&self) -> (r: &Vec<Binding>)
        ensures
            r@ == self.bound(),
    {
        &self.bindings
    }

    pub fn commands(&self) -> (r: &Vec<Command>)
        ensures
            r@ == self.recorded(),
    {
        &self.commands
    }

    /// Render passes are balanced: one is open exactly in the states inside a
    /// render pass. A pipeline is bound in every state that says so.
    pub fn check_well_formed(&self)
        ensures
            render_pass_state(self.recorded()) == Some(State::in_render_pass()),
            State::pipeline_bound() ==> last_pipeline(self.bound()) is Some,
    {
        proof {
            use_type_invariant(self);
        }
    }

    /// Moves the recording into state `T`, appending `binding` (if any) and
    /// `command`.
    fn advance<T: BuilderState>(self, binding: Option<Binding>, command: Command) -> (r:
        CommandBufferBuilder<T>)
        requires
            render_pass_state(self.recorded().push(command)) == Some(T::in_render_pass()),
            T::pipeline_bound() ==> last_pipeline(
                match binding {
                    Some(b) => self.bound().push(b),
                    None => self.bound(),
                },
            ) is Some,
        ensures
            r.spec_handle() == self.spec_handle(),
            r.recorded() == self.recorded().push(command),
            r.bound() == match binding {
                Some(b) => self.bound().push(b),
                None => self.bound(),
            },
    {
        let mut bindings = self.bindings;
        let mut commands = self.commands;
        match binding {
            Some(b) => bindings.push(b),
            None => {},
        }
        commands.push(command);
        CommandBufferBuilder { handle: self.handle, bindings, commands, _state: PhantomData }
    }

    fn begin_render_pass_in<T: RenderPassBound>(
        self,
        render_target: &RenderTargetRef,
        image_index: u32,
    ) -> (r: CommandBufferBuilder<T>)
        requires
            !State::in_render_pass(),
            T::pipeline_bound() ==> State::pipeline_bound(),
            (image_index as int) < render_target.framebuffers@.len(),
        ensures
            r.spec_handle() == self.spec_handle(),
            r.bound() == self.bound().push(Binding::RenderTarget(render_target.handle)),
            r.recorded() == self.recorded().push(
                Command::BeginRenderPass {
                    render_pass: render_target.render_pass,
                    framebuffer: render_target.framebuffers@[image_index as int],
                    width: render_target.width,
                    height: render_target.height,
                    contents: SUBPASS_CONTENTS_INLINE,
                },
            ),
    {
        proof {
            use_type_invariant(&self);
            T::lemma_in_render_pass();
        }
        let command = Command::BeginRenderPass {
            render_pass: render_target.render_pass,
            framebuffer: render_target.framebuffers[image_index as usize],
            width: render_target.width,
            height: render_target.height,
            contents: SUBPASS_CONTENTS_INLINE,
        };
        proof {
            lemma_render_pass_state_push(self.recorded(), command);
            lemma_last_pipeline_push(self.bound(), Binding::RenderTarget(render_target.handle));
        }
        self.advance(Some(Binding::RenderTarget(render_target.handle)), command)
    }

    fn bind_pipeline_in<T: PipelineBoundState>(self, pipeline: PipelineRef) -> (r:
        CommandBufferBuilder<T>)
        requires
            T::in_render_pass() == State::in_render_pass(),
        ensures
            r.spec_handle() == self.spec_handle(),
            r.bound() == self.bound().push(Binding::Pipeline(pipeline)),
            r.recorded() == self.recorded().push(
                Command::BindPipeline { bind_point: pipeline.bind_point, pipeline: pipeline.handle },
            ),
            last_pipeline(r.bound()) == Some(pipeline),
    {
        proof {
            use_type_invariant(&self);
            T::lemma_pipeline_bound();
        }
        let command = Command::BindPipeline {
            bind_point: pipeline.bind_point,
            pipeline: pipeline.handle,
        };
        proof {
            lemma_render_pass_state_push(self.recorded(), command);
            lemma_last_pipeline_push(self.bound(), Binding::Pipeline(pipeline));
        }
        self.advance(Some(Binding::Pipeline(pipeline)), command)
    }

    /// Appends a command that neither opens nor closes a render pass, keeping
    /// the state.
    fn record(self, binding: Option<Binding>, command: Command) -> (r: Self)
        requires
            !changes_render_pass(command),
            binding matches Some(b) ==> !(b is Pipeline),
        ensures
            r.spec_handle() == self.spec_handle(),
            r.recorded() == self.recorded().push(command),
            r.bound() == match binding {
                Some(b) => self.bound().push(b),
                None => self.bound(),
            },
            last_pipeline(r.bound()) == last_pipeline(self.bound()),
    {
        proof {
            use_type_invariant(&self);
            lemma_render_pass_state_push(self.recorded(), command);
            match binding {
                Some(b) => lemma_last_pipeline_push(self.bound(), b),
                None => {},
            }
        }
        self.advance(binding, command)
    }

    /// Appends a binding without recording a command.
    fn hold(self, binding: Binding) -> (r: Self)
        requires
            !(binding is Pipeline),
        ensures
            r.spec_handle() == self.spec_handle(),
            r.recorded() == self.recorded(),
            r.bound() == self.bound().push(binding),
            last_pipeline(r.bound()) == last_pipeline(self.bound()),
    {
        proof {
            use_type_invariant(&self);
            lemma_last_pipeline_push(self.bound(), binding);
        }
        let mut bindings = self.bindings;
        bindings.push(binding);
        CommandBufferBuilder {
            handle: self.handle,
            bindings,
            commands: self.commands,
            _state: PhantomData,
        }
    }
}

impl<State: Buildable> CommandBufferBuilder<State> {
    /// Ends the recording. Every render pass that was begun has been ended.
    pub fn build(self) -> (r: (u64, Vec<Binding>, Vec<Command>))
        ensures
            r.0 == self.spec_handle(),
            r.1@ == self.bound(),
            r.2@ == self.recorded(),
            render_pass_state(self.recorded()) == Some(false),
    {
        proof {
            use_type_invariant(&self);
            State::lemma_outside_render_pass();
        }
        (self.handle, self.bindings, self.commands)
    }
}

impl CommandBufferBuilder<Idle> {
    /// Starts recording into the command buffer `handle`.
    pub fn new(handle: u64) -> (r: Self)
        ensures
            r.spec_handle() == handle,
            r.bound() == Seq::<Binding>::empty(),
            r.recorded() == Seq::<Command>::empty(),
    {
        CommandBufferBuilder {
            handle,
            bindings: Vec::new(),
            commands: Vec::new(),
            _state: PhantomData,
        }
    }

    pub fn begin_render_pass(self, render_target: &RenderTargetRef, image_index: u32) -> (r:
        CommandBufferBuilder<InRenderPass>)
        requires
            (image_index as int) < render_target.framebuffers@.len(),
        ensures
            r.spec_handle() == self.spec_handle(),
            r.bound() == self.bound().push(Binding::RenderTarget(render_target.handle)),
            r.recorded() == self.recorded().push(
                Command::BeginRenderPass {
                    render_pass: render_target.render_pass,
                    framebuffer: render_target.framebuffers@[image_index as int],
                    width: render_target.width,
                    height: render_target.height,
                    contents: SUBPASS_CONTENTS_INLINE,
                },
            ),
    {
        self.begin_render_pass_in(render_target, image_index)
    }

    pub fn bind_pipeline(self, pipeline: PipelineRef) -> (r: CommandBufferBuilder<PipelineBound>)
        ensures
            r.spec_handle() == self.spec_handle(),
            r.bound() == self.bound().push(Binding::Pipeline(pipeline)),
            r.recorded() == self.recorded().push(
                Command::BindPipeline { bind_point: pipeline.bind_point, pipeline: pipeline.handle },
            ),
            last_pipeline(r.bound()) == Some(pipeline),
    {
        self.bind_pipeline_in(pipeline)
    }

    /// Generates the mip chain of `image` by blitting each level down from the
    /// one before it, and leaves every level readable by the fragment shader.
    pub fn generate_mipmaps(self, image: ImageRef) -> (r: Self)
        requires
            image.mip_levels >= 1,
        ensures
            r.spec_handle() == self.spec_handle(),
            r.bound() == self.bound().push(Binding::Image(image.handle)),
            r.recorded() == self.recorded() + mip_chain(image, image.mip_levels as nat) + seq![
                Command::PipelineBarrier(last_mip_barrier(image)),
            ],
    {
        let mut b = self.hold(Binding::Image(image.handle));
        let mut mip_width = image.width;
        let mut mip_height = image.height;
        let mut mip_level: u32 = 1;
        while mip_level < image.mip_levels
            invariant
                1 <= mip_level <= image.mip_levels,
                b.spec_handle() == self.spec_handle(),
                b.bound() == self.bound().push(Binding::Image(image.handle)),
                b.recorded() == self.recorded() + mip_chain(image, mip_level as nat),
                mip_width == mip_dim(image.width, (mip_level - 1) as nat),
                mip_height == mip_dim(image.height, (mip_level - 1) as nat),
            decreases image.mip_levels - mip_level,
        {
            let level_cmds = Ghost(mip_level_commands(image, mip_level));
            let to_src = ImageBarrier {
                image: image.handle,
                old_layout: IMAGE_LAYOUT_TRANSFER_DST_OPTIMAL,
                new_layout: IMAGE_LAYOUT_TRANSFER_SRC_OPTIMAL,
                src_access: ACCESS_TRANSFER_WRITE,
                dst_access: ACCESS_TRANSFER_READ,
                src_stage: PIPELINE_STAGE_TRANSFER,
                dst_stage: PIPELINE_STAGE_TRANSFER,
                aspect_mask: IMAGE_ASPECT_COLOR,
                base_mip_level: mip_level - 1,
                level_count: 1,
                layer_count: 1,
            };
            let blit = ImageBlit {
                image: image.handle,
                src_layout: IMAGE_LAYOUT_TRANSFER_SRC_OPTIMAL,
                dst_layout: IMAGE_LAYOUT_TRANSFER_DST_OPTIMAL,
                aspect_mask: IMAGE_ASPECT_COLOR,
                src_mip_level: mip_level - 1,
                dst_mip_level: mip_level,
                src_end: Offset3D { x: as_i32(mip_width), y: as_i32(mip_height), z: 1 },
                dst_end: Offset3D { x: blit_end(mip_width), y: blit_end(mip_height), z: 1 },
                filter: FILTER_LINEAR,
            };
            let to_shader = ImageBarrier {
                image: image.handle,
                old_layout: IMAGE_LAYOUT_TRANSFER_SRC_OPTIMAL,
                new_layout: IMAGE_LAYOUT_SHADER_READ_ONLY_OPTIMAL,
                src_access: ACCESS_TRANSFER_READ,
                dst_access: ACCESS_SHADER_READ,
                src_stage: PIPELINE_STAGE_TRANSFER,
                dst_stage: PIPELINE_STAGE_FRAGMENT_SHADER,
                aspect_mask: IMAGE_ASPECT_COLOR,
                base_mip_level: mip_level - 1,
                level_count: 1,
                layer_count: 1,
            };
            let ghost before = b.recorded();
            b = b.record(None, Command::PipelineBarrier(to_src));
            b = b.record(None, Command::BlitImage(blit));
            b = b.record(None, Command::PipelineBarrier(to_shader));
            proof {
                assert(before.push(Command::PipelineBarrier(to_src)).push(
                    Command::BlitImage(blit),
                ).push(Command::PipelineBarrier(to_shader)) =~= before + level_cmds@);
                assert(mip_chain(image, (mip_level + 1) as nat) == mip_chain(
                    image,
                    mip_level as nat,
                ) + level_cmds@);
                assert(self.recorded() + mip_chain(image, mip_level as nat) + level_cmds@
                    =~= self.recorded() + mip_chain(image, (mip_level + 1) as nat));
            }
            if mip_width > 1 {
                mip_width = mip_width / 2;
            }
            if mip_height > 1 {
                mip_height = mip_height / 2;
            }
            mip_level = mip_level + 1;
        }
        let last = ImageBarrier {
            image: image.handle,
            old_layout: IMAGE_LAYOUT_TRANSFER_DST_OPTIMAL,
            new_layout: IMAGE_LAYOUT_SHADER_READ_ONLY_OPTIMAL,
            src_access: ACCESS_TRANSFER_WRITE,
            dst_access: ACCESS_SHADER_READ,
            src_stage: PIPELINE_STAGE_TRANSFER,
            dst_stage: PIPELINE_STAGE_FRAGMENT_SHADER,
            aspect_mask: IMAGE_ASPECT_COLOR,
            base_mip_level: image.mip_levels - 1,
            level_count: 1,
            layer_count: 1,
        };
        let ghost before = b.recorded();
        b = b.record(None, Command::PipelineBarrier(last));
        proof {
            assert(b.recorded() =~= self.recorded() + mip_chain(image, image.mip_levels as nat)
                + seq![Command::PipelineBarrier(last_mip_barrier(image))]);
        }
        b
    }

    /// Moves every mip level of `image` from its current layout to
    /// `layout_new`; the image's layout is `layout_new` afterwards.
    pub fn transition_image_layout(self, image: &mut ImageRef, layout_new: i32) -> (r: Self)
        ensures
            r.spec_handle() == self.spec_handle(),
            r.bound() == self.bound().push(Binding::Image(old(image).handle)),
            r.recorded() == self.recorded().push(
                Command::PipelineBarrier(transition_barrier(*old(image), layout_new)),
            ),
            *final(image) == with_layout(*old(image), layout_new),
    {
        let layout_old = image.layout;
        let mut src_access = ACCESS_NONE;
        let mut dst_access = ACCESS_NONE;
        let mut src_stage = PIPELINE_STAGE_TOP_OF_PIPE;
        let mut dst_stage = PIPELINE_STAGE_TRANSFER;
        if layout_old == IMAGE_LAYOUT_UNDEFINED && layout_new == IMAGE_LAYOUT_TRANSFER_DST_OPTIMAL {
            dst_access = ACCESS_TRANSFER_WRITE;
        } else if layout_old == IMAGE_LAYOUT_TRANSFER_DST_OPTIMAL && layout_new
            == IMAGE_LAYOUT_SHADER_READ_ONLY_OPTIMAL {
            src_access = ACCESS_TRANSFER_WRITE;
            dst_access = ACCESS_SHADER_READ;
            src_stage = PIPELINE_STAGE_TRANSFER;
            dst_stage = PIPELINE_STAGE_FRAGMENT_SHADER;
        }
        let barrier = ImageBarrier {
            image: image.handle,
            old_layout: layout_old,
            new_layout: layout_new,
            src_access,
            dst_access,
            src_stage,
            dst_stage,
            aspect_mask: IMAGE_ASPECT_COLOR,
            base_mip_level: 0,
            level_count: image.mip_levels,
            layer_count: 1,
        };
        let handle = image.handle;
        image.layout = layout_new;
        self.record(Some(Binding::Image(handle)), Command::PipelineBarrier(barrier))
    }

    /// Copies the first mip level of `image` into `buffer`, after moving the
    /// image into the transfer source layout, which it is left in.
    pub fn copy_image_to_buffer(self, buffer: u64, image: &mut ImageRef) -> (r: Self)
        ensures
            r.spec_handle() == self.spec_handle(),
            r.bound() == self.bound().push(Binding::Image(old(image).handle)).push(
                Binding::Image(old(image).handle),
            ).push(Binding::Buffer(buffer)),
            r.recorded() == self.recorded().push(
                Command::PipelineBarrier(
                    transition_barrier(*old(image), IMAGE_LAYOUT_TRANSFER_SRC_OPTIMAL),
                ),
            ).push(
                Command::CopyImageToBuffer(
                    copy_region(*old(image), buffer, IMAGE_LAYOUT_TRANSFER_SRC_OPTIMAL),
                ),
            ),
            *final(image) == with_layout(*old(image), IMAGE_LAYOUT_TRANSFER_SRC_OPTIMAL),
    {
        let b = self.transition_image_layout(image, IMAGE_LAYOUT_TRANSFER_SRC_OPTIMAL);
        let b = b.hold(Binding::Image(image.handle));
        let b = b.hold(Binding::Buffer(buffer));
        let region = BufferImageCopy {
            image: image.handle,
            buffer,
            image_layout: IMAGE_LAYOUT_TRANSFER_SRC_OPTIMAL,
            aspect_mask: IMAGE_ASPECT_COLOR,
            layer_count: image.array_layers,
            width: image.width,
            height: image.height,
            depth: 1,
        };
        b.record(None, Command::CopyImageToBuffer(region))
    }

    /// Copies `buffer` into the first mip level of `image`, after moving the
    /// image into the transfer destination layout, which it is left in.
    pub fn copy_buffer_to_image(self, image: &mut ImageRef, buffer: u64) -> (r: Self)
        ensures
            r.spec_handle() == self.spec_handle(),
            r.bound() == self.bound().push(Binding::Image(old(image).handle)).push(
                Binding::Image(old(image).handle),
            ).push(Binding::Buffer(buffer)),
            r.recorded() == self.recorded().push(
                Command::PipelineBarrier(
                    transition_barrier(*old(image), IMAGE_LAYOUT_TRANSFER_DST_OPTIMAL),
                ),
            ).push(
                Command::CopyBufferToImage(
                    copy_region(*old(image), buffer, IMAGE_LAYOUT_TRANSFER_DST_OPTIMAL),
                ),
            ),
            *final(image) == with_layout(*old(image), IMAGE_LAYOUT_TRANSFER_DST_OPTIMAL),
    {
        let b = self.transition_image_layout(image, IMAGE_LAYOUT_TRANSFER_DST_OPTIMAL);
        let b = b.hold(Binding::Image(image.handle));
        let b = b.hold(Binding::Buffer(buffer));
        let region = BufferImageCopy {
            image: image.handle,
            buffer,
            image_layout: IMAGE_LAYOUT_TRANSFER_DST_OPTIMAL,
            aspect_mask: IMAGE_ASPECT_COLOR,
            layer_count: image.array_layers,
            width: image.width,
            height: image.height,
            depth: 1,
        };
        b.record(None, Command::CopyBufferToImage(region))
    }
}

/// `v` read as an `i32`, two's complement.
fn as_i32(v: u32) -> (r: i32)
    ensures
        r == wrap_i32(v),
{
    if v < 0x8000_0000 {
        v as i32
    } else {
        let w: i64 = v as i64 - 0x1_0000_0000;
        w as i32
    }
}

/// The far corner of a blit destination along an axis whose source extent is `d`.
fn blit_end(d: u32) -> (r: i32)
    ensures
        r == blit_dst_end(d),
{
    if d > 1 {
        let v: i64 = as_i32(d) as i64;
        let h: i64 = if v >= 0 {
            v / 2
        } else {
            -((-v) / 2)
        };
        h as i32
    } else {
        1
    }
}


/// `c` pushes `data` at `offset` for `stages` through `layout`.
pub open spec fn is_push_constants(c: Command, layout: u64, stages: u32, offset: u32, data: Seq<u8>) -> bool {
    c matches Command::PushConstants { layout: l, stages: s, offset: o, constants }
        && l == layout && s == stages && o == offset && constants@ == data
}

/// `c` binds `sets`, starting at set number `first_set`, with the bind point
/// and layout of `pipeline`.
pub open spec fn is_bind_descriptor_sets(c: Command, pipeline: PipelineRef, first_set: u32, sets: Seq<u64>) -> bool {
    c matches Command::BindDescriptorSets { bind_point, layout, first_set: f, sets: s }
        && bind_point == pipeline.bind_point && layout == pipeline.layout && f == first_set && s@ == sets
}

/// The bindings that holding each of `sets` appends.
pub open spec fn set_bindings(sets: Seq<u64>) -> Seq<Binding> {
    sets.map_values(|s: u64| Binding::DescriptorSet(s))
}

impl<State: PipelineBoundState> CommandBufferBuilder<State> {
    /// Pushes `constants` through the layout of the pipeline bound last.
    pub fn push_constants(self, stages: u32, offset: u32, constants: &[u8]) -> (r: Self)
        ensures
            r.spec_handle() == self.spec_handle(),
            r.bound() == self.bound(),
            last_pipeline(self.bound()) is Some,
            r.recorded().len() == self.recorded().len() + 1,
            r.recorded().drop_last() == self.recorded(),
            is_push_constants(r.recorded().last(), last_pipeline(self.bound())->0.layout, stages, offset, constants@),
    {
        proof {
            use_type_invariant(&self);
            State::lemma_pipeline_bound();
        }
        let pipeline = find_last_pipeline(&self.bindings).unwrap();
        let data = vstd::slice::slice_to_vec(constants);
        let command = Command::PushConstants { layout: pipeline.layout, stages, offset, constants: data };
        let r = self.record(None, command);
        proof {
            assert(r.recorded().drop_last() =~= self.recorded());
        }
        r
    }

    /// Binds `descriptor_sets`, starting at set number `first_set`, with the
    /// pipeline bound last; the sets and the pipeline's layout are held.
    pub fn bind_descriptor_sets(self, first_set: u32, descriptor_sets: Vec<u64>) -> (r: Self)
        ensures
            r.spec_handle() == self.spec_handle(),
            last_pipeline(self.bound()) is Some,
            r.bound() == self.bound() + set_bindings(descriptor_sets@)
                + seq![Binding::PipelineLayout(last_pipeline(self.bound())->0.layout)],
            r.recorded().len() == self.recorded().len() + 1,
            r.recorded().drop_last() == self.recorded(),
            is_bind_descriptor_sets(r.recorded().last(), last_pipeline(self.bound())->0, first_set, descriptor_sets@),
    {
        proof {
            use_type_invariant(&self);
            State::lemma_pipeline_bound();
        }
        let mut b = self;
        let mut i: usize = 0;
        while i < descriptor_sets.len()
            invariant
                i <= descriptor_sets@.len(),
                b.spec_handle() == self.spec_handle(),
                b.recorded() == self.recorded(),
                b.bound() == self.bound() + set_bindings(descriptor_sets@.take(i as int)),
                last_pipeline(b.bound()) == last_pipeline(self.bound()),
            decreases descriptor_sets@.len() - i,
        {
            let ghost prev = b.bound();
            b = b.hold(Binding::DescriptorSet(descriptor_sets[i]));
            proof {
                assert(set_bindings(descriptor_sets@.take(i + 1)) =~= set_bindings(descriptor_sets@.take(i as int)).push(Binding::DescriptorSet(descriptor_sets@[i as int])));
                assert(b.bound() =~= self.bound() + set_bindings(descriptor_sets@.take(i + 1)));
            }
            i = i + 1;
        }
        proof {
            assert(descriptor_sets@.take(descriptor_sets@.len() as int) =~= descriptor_sets@);
            use_type_invariant(&b);
        }
        let pipeline = find_last_pipeline(&b.bindings).unwrap();
        let b = b.hold(Binding::PipelineLayout(pipeline.layout));
        let command = Command::BindDescriptorSets {
            bind_point: pipeline.bind_point,
            layout: pipeline.layout,
            first_set,
            sets: descriptor_sets,
        };
        let r = b.record(None, command);
        proof {
            assert(r.recorded().drop_last() =~= self.recorded());
            assert(r.bound() =~= self.bound() + set_bindings(descriptor_sets@)
                + seq![Binding::PipelineLayout(last_pipeline(self.bound())->0.layout)]);
        }
        r
    }
}

impl CommandBufferBuilder<PipelineBound> {
    pub fn bind_pipeline(self, pipeline: PipelineRef) -> (r: CommandBufferBuilder<PipelineBound>)
        ensures
            r.spec_handle() == self.spec_handle(),
            r.bound() == self.bound().push(Binding::Pipeline(pipeline)),
            r.recorded() == self.recorded().push(
                Command::BindPipeline { bind_point: pipeline.bind_point, pipeline: pipeline.handle },
            ),
            last_pipeline(r.bound()) == Some(pipeline),
    {
        self.bind_pipeline_in(pipeline)
    }

    pub fn begin_render_pass(self, render_target: &RenderTargetRef, image_index: u32) -> (r:
        CommandBufferBuilder<InRenderPassWithPipeline>)
        requires
            (image_index as int) < render_target.framebuffers@.len(),
        ensures
            r.spec_handle() == self.spec_handle(),
            r.bound() == self.bound().push(Binding::RenderTarget(render_target.handle)),
            r.recorded() == self.recorded().push(
                Command::BeginRenderPass {
                    render_pass: render_target.render_pass,
                    framebuffer: render_target.framebuffers@[image_index as int],
                    width: render_target.width,
                    height: render_target.height,
                    contents: SUBPASS_CONTENTS_INLINE,
                },
            ),
            last_pipeline(r.bound()) == last_pipeline(self.bound()),
    {
        proof {
            lemma_last_pipeline_push(self.bound(), Binding::RenderTarget(render_target.handle));
        }
        self.begin_render_pass_in(render_target, image_index)
    }

    /// Dispatches `group_count` work groups of the bound compute pipeline.
    pub fn dispatch(self, group_count: [u32; 3]) -> (r: Self)
        ensures
            r.spec_handle() == self.spec_handle(),
            r.bound() == self.bound(),
            r.recorded() == self.recorded().push(
                Command::Dispatch { x: group_count[0], y: group_count[1], z: group_count[2] },
            ),
    {
        self.record(None, Command::Dispatch { x: group_count[0], y: group_count[1], z: group_count[2] })
    }
}

impl<State: RenderPassBound> CommandBufferBuilder<State> {
    /// Binds `buffer` as the index buffer, from its start; the buffer is held.
    pub fn bind_index_buffer(self, buffer: u64, index_type: i32) -> (r: Self)
        ensures
            r.spec_handle() == self.spec_handle(),
            r.bound() == self.bound().push(Binding::Buffer(buffer)),
            r.recorded() == self.recorded().push(
                Command::BindIndexBuffer { buffer, offset: 0, index_type },
            ),
    {
        self.record(Some(Binding::Buffer(buffer)), Command::BindIndexBuffer { buffer, offset: 0, index_type })
    }

    /// Binds `buffer` as vertex buffer 0, from its start; the buffer is held.
    pub fn bind_vertex_buffer(self, buffer: u64) -> (r: Self)
        ensures
            r.spec_handle() == self.spec_handle(),
            r.bound() == self.bound().push(Binding::Buffer(buffer)),
            r.recorded() == self.recorded().push(
                Command::BindVertexBuffer { first_binding: 0, buffer, offset: 0 },
            ),
    {
        self.record(Some(Binding::Buffer(buffer)), Command::BindVertexBuffer { first_binding: 0, buffer, offset: 0 })
    }
}

impl CommandBufferBuilder<InRenderPass> {
    pub fn bind_pipeline(self, pipeline: PipelineRef) -> (r: CommandBufferBuilder<InRenderPassWithPipeline>)
        ensures
            r.spec_handle() == self.spec_handle(),
            r.bound() == self.bound().push(Binding::Pipeline(pipeline)),
            r.recorded() == self.recorded().push(
                Command::BindPipeline { bind_point: pipeline.bind_point, pipeline: pipeline.handle },
            ),
            last_pipeline(r.bound()) == Some(pipeline),
    {
        self.bind_pipeline_in(pipeline)
    }
}

impl CommandBufferBuilder<InRenderPassWithPipeline> {
    pub fn bind_pipeline(self, pipeline: PipelineRef) -> (r: CommandBufferBuilder<InRenderPassWithPipeline>)
        ensures
            r.spec_handle() == self.spec_handle(),
            r.bound() == self.bound().push(Binding::Pipeline(pipeline)),
            r.recorded() == self.recorded().push(
                Command::BindPipeline { bind_point: pipeline.bind_point, pipeline: pipeline.handle },
            ),
            last_pipeline(r.bound()) == Some(pipeline),
    {
        self.bind_pipeline_in(pipeline)
    }

    /// Ends the render pass; the pipeline stays bound.
    pub fn end_render_pass(self) -> (r: CommandBufferBuilder<PipelineBound>)
        ensures
            r.spec_handle() == self.spec_handle(),
            r.bound() == self.bound(),
            r.recorded() == self.recorded().push(Command::EndRenderPass),
    {
        proof {
            use_type_invariant(&self);
            lemma_render_pass_state_push(self.recorded(), Command::EndRenderPass);
        }
        self.advance(None, Command::EndRenderPass)
    }

    pub fn draw_indexed(
        self,
        index_count: u32,
        instance_count: u32,
        first_index: u32,
        vertex_offset: i32,
        first_instance: u32,
    ) -> (r: Self)
        ensures
            r.spec_handle() == self.spec_handle(),
            r.bound() == self.bound(),
            r.recorded() == self.recorded().push(
                Command::DrawIndexed { index_count, instance_count, first_index, vertex_offset, first_instance },
            ),
    {
        self.record(None, Command::DrawIndexed { index_count, instance_count, first_index, vertex_offset, first_instance })
    }

    /// Draws with the parameters read from `buffer`; the buffer is not held.
    pub fn draw_indexed_inderect(self, buffer: u64, offset: u64, draw_count: u32, stride: u32) -> (r: Self)
        ensures
            r.spec_handle() == self.spec_handle(),
            r.bound() == self.bound(),
            r.recorded() == self.recorded().push(
                Command::DrawIndexedIndirect { buffer, offset, draw_count, stride },
            ),
    {
        self.record(None, Command::DrawIndexedIndirect { buffer, offset, draw_count, stride })
    }
}


/// Layout transitions chain: once `transition_image_layout` has moved an
/// image to `first`, the barrier of the next transition to `second` starts
/// from `first` and ends in `second`, and the image is then in `second`.
pub proof fn law_transitions_chain(image: ImageRef, first: i32, second: i32)
    ensures
        transition_barrier(with_layout(image, first), second).old_layout == first,
        transition_barrier(with_layout(image, first), second).new_layout == second,
        with_layout(with_layout(image, first), second) == with_layout(image, second),
{
}

/// The pipeline that push constants and descriptor sets go through is the one
/// bound last: resources bound after it do not change it.
pub proof fn law_last_bound_pipeline(bindings: Seq<Binding>, pipeline: PipelineRef, later: Seq<Binding>)
    requires
        forall|i: int| 0 <= i < later.len() ==> !(#[trigger] later[i] is Pipeline),
    ensures
        last_pipeline(bindings.push(Binding::Pipeline(pipeline)) + later) == Some(pipeline),
    decreases later.len(),
{
    let base = bindings.push(Binding::Pipeline(pipeline));
    if later.len() == 0 {
        assert(base + later =~= base);
        lemma_last_pipeline_push(bindings, Binding::Pipeline(pipeline));
    } else {
        let init = later.drop_last();
        assert(!(later[later.len() - 1] is Pipeline));
        law_last_bound_pipeline(bindings, pipeline, init);
        assert((base + later).drop_last() =~= base + init);
    }
}

/// Mip levels shrink: from a first level at least one wide, every level is at
/// least one wide, no wider than the level before it, and halved while wider
/// than one.
pub proof fn law_mip_levels_shrink(d: u32, level: nat)
    requires
        d >= 1,
    ensures
        1 <= mip_dim(d, level + 1) <= mip_dim(d, level) <= d,
        mip_dim(d, level) > 1 ==> mip_dim(d, level + 1) == mip_dim(d, level) / 2,
    decreases level,
{
    assert(mip_dim(d, level + 1) == next_mip_dim(mip_dim(d, level)));
    if level > 0 {
        law_mip_levels_shrink(d, (level - 1) as nat);
    }
}

/// The mip chain of `levels` levels holds three commands for each level after
/// the first, in level order: those of level `l` are the transfer source
/// barrier on level `l - 1`, the blit from level `l - 1` to level `l`, and the
/// barrier that hands level `l - 1` to the fragment shader.
pub proof fn law_mip_chain_levels(image: ImageRef, levels: nat, l: int)
    requires
        1 <= l < levels,
        levels <= u32::MAX,
    ensures
        mip_chain(image, levels).len() == 3 * (levels - 1),
        mip_chain(image, levels).subrange(3 * (l - 1), 3 * l) == mip_level_commands(image, l as u32),
    decreases levels,
{
    if levels >= 2 {
        let prev = (levels - 1) as nat;
        if l < prev {
            law_mip_chain_levels(image, prev, l);
            assert(mip_chain(image, levels).subrange(3 * (l - 1), 3 * l) =~= mip_chain(image, prev).subrange(3 * (l - 1), 3 * l));
        } else {
            if prev >= 2 {
                law_mip_chain_levels(image, prev, 1);
            }
            assert(mip_chain(image, prev).len() == 3 * (prev - 1));
            assert(mip_chain(image, levels).subrange(3 * (l - 1), 3 * l) =~= mip_level_commands(image, l as u32));
        }
    }
}

} // verus!
