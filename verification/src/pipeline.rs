//! The pipeline and binding manager: which render pipelines exist, what the
//! uniform buffer holds and what it should hold, how the two binding sets
//! are laid out, and the mirror of the atlas.
//!
//! The GPU objects themselves belong to the caller. This module decides what
//! has to be created and written, and keeps the record of it.

use crate::atlas::{AtlasSync, GpuTextureMirror, TextureAtlas, TextureAtlasView, TextureUpload};
use crate::bytes::{append_bytes, native_words, words_as_bytes};
use crate::geometry::{
    vertex_attributes, vertex_layout, vertex_stride, TexCoordConvention, VertexLayout,
};
use crate::scalar::Scalar;
use vstd::prelude::*;

verus! {

/// The color formats of the surfaces that the UI can be drawn to.
#[derive(Clone, Copy, Debug, PartialEq, Eq, Structural)]
pub enum ColorFormat {
    Rgba8Unorm,
    Rgba8UnormSrgb,
    Bgra8Unorm,
    Bgra8UnormSrgb,
    Rgb10a2Unorm,
    Rgba16Float,
}

/// The shader stages that a binding can be visible to.
#[derive(Clone, Copy, Debug, PartialEq, Eq, Structural)]
pub enum ShaderStage {
    Vertex,
    Fragment,
}

/// What a binding binds.
#[derive(Clone, Copy, Debug, PartialEq, Eq, Structural)]
pub enum BindingKind {
    /// A uniform buffer of at least `min_binding_size` bytes, at a fixed offset.
    UniformBuffer { min_binding_size: u64 },
    /// A sampler that does not compare.
    Sampler,
    /// A two-dimensional texture of unsigned integers, one sample per texel.
    SampledTexture,
}

/// One entry of a binding set layout.
#[derive(Clone, Copy, Debug, PartialEq, Eq, Structural)]
pub struct BindingEntry {
    pub binding: u32,
    pub visibility: ShaderStage,
    pub kind: BindingKind,
}

/// The name of the entry point of both shader stages.
pub const SHADER_ENTRY_POINT: &'static str = "main";

/// Number of bytes of the uniform buffer: four single-precision numbers.
pub const UNIFORM_SIZE: u64 = 16;

/// The layout of the binding set of the uniform buffer: one binding, which
/// only the vertex stage sees.
pub open spec fn uniform_binding_layout() -> Seq<BindingEntry> {
    seq![
        BindingEntry {
            binding: 0,
            visibility: ShaderStage::Vertex,
            kind: BindingKind::UniformBuffer { min_binding_size: UNIFORM_SIZE },
        },
    ]
}

/// The layout of the binding set of the atlas: the sampler, then the
/// texture view, which only the fragment stage sees.
pub open spec fn texture_binding_layout() -> Seq<BindingEntry> {
    seq![
        BindingEntry { binding: 0, visibility: ShaderStage::Fragment, kind: BindingKind::Sampler },
        BindingEntry {
            binding: 1,
            visibility: ShaderStage::Fragment,
            kind: BindingKind::SampledTexture,
        },
    ]
}

/// The layout of the binding set of the uniform buffer.
pub fn uniform_bindings() -> (entries: [BindingEntry; 1])
    ensures
        entries@ == uniform_binding_layout(),
{
    let entries = [
        BindingEntry {
            binding: 0,
            visibility: ShaderStage::Vertex,
            kind: BindingKind::UniformBuffer { min_binding_size: UNIFORM_SIZE },
        },
    ];
    assert(entries@ =~= uniform_binding_layout());
    entries
}

/// The layout of the binding set of the atlas.
pub fn texture_bindings() -> (entries: [BindingEntry; 2])
    ensures
        entries@ == texture_binding_layout(),
{
    let entries = [
        BindingEntry { binding: 0, visibility: ShaderStage::Fragment, kind: BindingKind::Sampler },
        BindingEntry {
            binding: 1,
            visibility: ShaderStage::Fragment,
            kind: BindingKind::SampledTexture,
        },
    ];
    assert(entries@ =~= texture_binding_layout());
    entries
}

/// The contents of the uniform buffer: the size of the screen and the size
/// of the render target, both in logical pixels.
#[derive(Clone, Copy, Debug, PartialEq, Eq, Structural)]
pub struct UniformData {
    pub screen_width: Scalar,
    pub screen_height: Scalar,
    pub target_width: Scalar,
    pub target_height: Scalar,
}

impl UniformData {
    /// The four numbers in the order in which the buffer holds them.
    pub open spec fn words(self) -> Seq<u32> {
        seq![
            self.screen_width.bits,
            self.screen_height.bits,
            self.target_width.bits,
            self.target_height.bits,
        ]
    }

    /// The same contents with another screen size.
    pub open spec fn with_screen_size(self, w: Scalar, h: Scalar) -> UniformData {
        UniformData { screen_width: w, screen_height: h, ..self }
    }

    /// The memory image of the contents: what is written to the buffer.
    pub fn to_bytes(&self) -> (bytes: Vec<u8>)
        ensures
            native_words(self.words(), bytes@),
            bytes@.len() == UNIFORM_SIZE,
    {
        let words: [u32; 4] = [
            self.screen_width.bits,
            self.screen_height.bits,
            self.target_width.bits,
            self.target_height.bits,
        ];
        assert(words@ =~= self.words());
        let image = words_as_bytes(words.as_slice());
        let mut bytes: Vec<u8> = Vec::new();
        append_bytes(&mut bytes, image);
        assert(bytes@ == image@);
        bytes
    }
}

/// A render pipeline of the manager: its place among the pipelines built so
/// far, and whether the request that returned the handle is the one that has
/// to build it.
#[derive(Clone, Copy, Debug, PartialEq, Eq, Structural)]
pub struct PipelineHandle {
    pub index: usize,
    pub built: bool,
}

/// Everything that has to be created on the GPU for a new manager.
#[derive(Debug)]
pub struct PipelineSetup {
    /// The color format of the first render pipeline.
    pub format: ColorFormat,
    /// The vertex buffer layout of every render pipeline.
    pub vertex_layout: VertexLayout,
    /// The layout of the binding set of the uniform buffer.
    pub uniform_bindings: [BindingEntry; 1],
    /// The layout of the binding set of the atlas.
    pub texture_bindings: [BindingEntry; 2],
    /// The first contents of the uniform buffer.
    pub uniform: Vec<u8>,
    /// The extent and the first contents of the texture.
    pub texture: TextureUpload,
}

impl PipelineSetup {
    /// The setup creates what a manager in the given state stands for: the
    /// render pipeline of its one format with the vertex layout of its
    /// convention, the two binding set layouts, a uniform buffer that holds
    /// what the state says it holds, and a texture of the extent of the atlas
    /// with the whole atlas written to it.
    pub open spec fn sets_up(self, state: PipelineView, tex: TextureAtlasView) -> bool {
        &&& state.formats == seq![self.format]
        &&& self.vertex_layout.stride == vertex_stride(state.convention)
        &&& self.vertex_layout.attributes@ == vertex_attributes(state.convention)
        &&& self.uniform_bindings@ == uniform_binding_layout()
        &&& self.texture_bindings@ == texture_binding_layout()
        &&& native_words(state.uniform_on_gpu.words(), self.uniform@)
        &&& self.uniform@.len() == UNIFORM_SIZE
        &&& self.texture.is_full_upload_of(tex)
    }
}

/// The state of a manager, as mathematics sees it.
pub struct PipelineView {
    /// What the GPU holds of the atlas.
    pub mirror: GpuTextureMirror,
    /// What the uniform buffer should hold.
    pub uniform: UniformData,
    /// What the uniform buffer holds, as far as writes were handed out.
    pub uniform_on_gpu: UniformData,
    /// The color formats of the render pipelines built, in the order of building.
    pub formats: Seq<ColorFormat>,
    /// The convention of the texture coordinates of the vertices.
    pub convention: TexCoordConvention,
}

impl PipelineView {
    /// There is a pipeline, and no two pipelines for one format.
    pub open spec fn wf(self) -> bool {
        &&& self.formats.len() > 0
        &&& self.formats.no_duplicates()
    }

    /// The state after a request for the pipeline of `format`: it is built
    /// where there is none yet.
    pub open spec fn with_pipeline(self, format: ColorFormat) -> PipelineView {
        if self.formats.contains(format) {
            self
        } else {
            PipelineView { formats: self.formats.push(format), ..self }
        }
    }
}

/// The pipeline and binding manager.
#[derive(Debug)]
pub struct Pipeline {
    mirror: GpuTextureMirror,
    uniform: UniformData,
    uniform_on_gpu: UniformData,
    formats: Vec<ColorFormat>,
    convention: TexCoordConvention,
}

impl View for Pipeline {
    type V = PipelineView;

    closed spec fn view(&self) -> PipelineView {
        PipelineView {
            mirror: self.mirror,
            uniform: self.uniform,
            uniform_on_gpu: self.uniform_on_gpu,
            formats: self.formats@,
            convention: self.convention,
        }
    }
}

impl Pipeline {
    /// The invariant of the type.
    #[verifier::type_invariant]
    pub open spec fn wf(&self) -> bool {
        self@.wf()
    }

    /// The state of a manager that was just set up.
    pub open spec fn initial(
        tex: TextureAtlasView,
        fmt: ColorFormat,
        convention: TexCoordConvention,
        screen_dims: (Scalar, Scalar),
        target_dims: (Scalar, Scalar),
    ) -> PipelineView {
        let uniform = UniformData {
            screen_width: screen_dims.0,
            screen_height: screen_dims.1,
            target_width: target_dims.0,
            target_height: target_dims.1,
        };
        PipelineView {
            mirror: GpuTextureMirror::of(tex),
            uniform,
            uniform_on_gpu: uniform,
            formats: seq![fmt],
            convention,
        }
    }

    /// Sets up a manager for an atlas and an output format, and says what
    /// has to be created for it: one render pipeline for `fmt` with the
    /// vertex layout of the convention, the uniform buffer with the two
    /// sizes, the two binding sets, and the texture with the whole atlas
    /// written to it.
    pub fn new(
        tex: &TextureAtlas,
        fmt: ColorFormat,
        convention: TexCoordConvention,
        screen_dims: (Scalar, Scalar),
        target_dims: (Scalar, Scalar),
    ) -> (r: (Pipeline, PipelineSetup))
        ensures
            r.0@ == Pipeline::initial(tex@, fmt, convention, screen_dims, target_dims),
            r.0@.wf(),
            r.1.sets_up(r.0@, tex@),
    {
        let uniform = UniformData {
            screen_width: screen_dims.0,
            screen_height: screen_dims.1,
            target_width: target_dims.0,
            target_height: target_dims.1,
        };
        let (mirror, texture) = GpuTextureMirror::new(tex);
        let mut formats: Vec<ColorFormat> = Vec::new();
        formats.push(fmt);
        assert(formats@ =~= seq![fmt]);
        let setup = PipelineSetup {
            format: fmt,
            vertex_layout: vertex_layout(convention),
            uniform_bindings: uniform_bindings(),
            texture_bindings: texture_bindings(),
            uniform: uniform.to_bytes(),
            texture,
        };
        let pipeline = Pipeline { mirror, uniform, uniform_on_gpu: uniform, formats, convention };
        (pipeline, setup)
    }

    /// The version of the atlas that the GPU texture holds.
    pub fn tex_hash(&self) -> (version: u64)
        ensures
            version == self@.mirror.last_version,
    {
        self.mirror.last_version
    }

    /// What the GPU holds of the atlas.
    pub fn mirror(&self) -> (mirror: GpuTextureMirror)
        ensures
            mirror == self@.mirror,
    {
        self.mirror
    }

    /// The convention of the texture coordinates of the vertices.
    pub fn convention(&self) -> (convention: TexCoordConvention)
        ensures
            convention == self@.convention,
    {
        self.convention
    }

    /// What the uniform buffer should hold.
    pub fn uniform(&self) -> (uniform: UniformData)
        ensures
            uniform == self@.uniform,
    {
        self.uniform
    }

    /// The vertex buffer layout that every render pipeline is built with.
    pub fn vertex_layout(&self) -> (layout: VertexLayout)
        ensures
            layout.stride == vertex_stride(self@.convention),
            layout.attributes@ == vertex_attributes(self@.convention),
    {
        vertex_layout(self.convention)
    }

    /// The number of render pipelines built so far.
    pub fn pipeline_count(&self) -> (n: usize)
        ensures
            n == self@.formats.len(),
            n > 0,
    {
        proof {
            use_type_invariant(self);
        }
        self.formats.len()
    }

    /// The render pipeline for an output format. The first request for a
    /// format builds the pipeline, every later one finds it: the handle
    /// then has the same index and `built` is false.
    pub fn get_or_build(&mut self, format: ColorFormat) -> (handle: PipelineHandle)
        ensures
            final(self)@ == old(self)@.with_pipeline(format),
            final(self)@.wf(),
            handle.index < final(self)@.formats.len(),
            final(self)@.formats[handle.index as int] == format,
            handle.built <==> !old(self)@.formats.contains(format),
    {
        proof {
            use_type_invariant(&*self);
        }
        let mut i: usize = 0;
        while i < self.formats.len()
            invariant
                i <= self.formats@.len(),
                *self == *old(self),
                self@.wf(),
                forall|j: int| 0 <= j < i ==> self.formats@[j] != format,
            decreases self.formats@.len() - i,
        {
            if self.formats[i] == format {
                return PipelineHandle { index: i, built: false };
            }
            i += 1;
        }
        assert(!self.formats@.contains(format));
        let formats = pushed(&self.formats, format);
        proof {
            lemma_pipeline_built_once(self@, format, format);
        }
        self.formats = formats;
        PipelineHandle { index: i, built: true }
    }

    /// Records the screen size that the uniform buffer should hold. The
    /// buffer itself is written with the next frame, see [`Pipeline::flush_uniform`].
    pub fn update_screen_size(&mut self, w: Scalar, h: Scalar)
        ensures
            final(self)@ == (PipelineView {
                uniform: old(self)@.uniform.with_screen_size(w, h),
                ..old(self)@
            }),
    {
        proof {
            use_type_invariant(&*self);
        }
        self.uniform.screen_width = w;
        self.uniform.screen_height = h;
    }

    /// Hands out the write that brings the uniform buffer to what it should
    /// hold, if it holds something else, and records it as done. All four
    /// numbers are written at once, so a draw sees either the old contents
    /// or the new, never a mixture.
    pub fn flush_uniform(&mut self) -> (write: Option<Vec<u8>>)
        ensures
            final(self)@ == (PipelineView { uniform_on_gpu: old(self)@.uniform, ..old(self)@ }),
            write is Some <==> old(self)@.uniform != old(self)@.uniform_on_gpu,
            write matches Some(bytes) ==> native_words(old(self)@.uniform.words(), bytes@)
                && bytes@.len() == UNIFORM_SIZE,
    {
        proof {
            use_type_invariant(&*self);
        }
        if self.uniform == self.uniform_on_gpu {
            None
        } else {
            self.uniform_on_gpu = self.uniform;
            Some(self.uniform.to_bytes())
        }
    }

    /// Writes the whole atlas to the GPU texture again, without looking at
    /// the version, and records the version written. Where the extent of
    /// the atlas is not that of the texture, the outcome is a replacement:
    /// a new texture object and, with it, a new binding set.
    pub fn rebuild_texture(&mut self, tex: &TextureAtlas) -> (action: AtlasSync)
        ensures
            final(self)@ == (PipelineView { mirror: GpuTextureMirror::of(tex@), ..old(self)@ }),
            action.kind() == old(self)@.mirror.rebuild_kind(tex@),
            action.writes(tex@),
    {
        proof {
            use_type_invariant(&*self);
        }
        let mut mirror = self.mirror;
        let action = mirror.rebuild(tex);
        self.mirror = mirror;
        action
    }

    /// Brings the GPU texture up to the atlas: nothing happens while the
    /// atlas has the version last written, and the whole atlas is written
    /// when it has another.
    pub fn sync_texture(&mut self, tex: &TextureAtlas) -> (action: AtlasSync)
        ensures
            final(self)@ == (PipelineView { mirror: old(self)@.mirror.synced(tex@), ..old(self)@ }),
            final(self)@.mirror.last_version == tex@.version,
            action.kind() == old(self)@.mirror.sync_kind(tex@),
            action.writes(tex@),
    {
        proof {
            use_type_invariant(&*self);
        }
        let mut mirror = self.mirror;
        let action = mirror.sync(tex);
        self.mirror = mirror;
        action
    }
}

/// A copy of `formats` with `format` at its end.
fn pushed(formats: &Vec<ColorFormat>, format: ColorFormat) -> (longer: Vec<ColorFormat>)
    ensures
        longer@ == formats@.push(format),
{
    let mut longer: Vec<ColorFormat> = Vec::new();
    let mut i: usize = 0;
    while i < formats.len()
        invariant
            i <= formats@.len(),
            longer@ == formats@.subrange(0, i as int),
        decreases formats@.len() - i,
    {
        longer.push(formats[i]);
        i += 1;
    }
    assert(formats@.subrange(0, i as int) == formats@);
    longer.push(format);
    longer
}

/// A pipeline is built once for each format: a request for a format makes
/// it present, no request for a present format builds, and no request
/// removes a pipeline or moves it to another index.
pub proof fn lemma_pipeline_built_once(state: PipelineView, first: ColorFormat, second: ColorFormat)
    requires
        state.wf(),
    ensures
        state.with_pipeline(first).wf(),
        state.with_pipeline(first).formats.contains(first),
        state.with_pipeline(first).with_pipeline(first) == state.with_pipeline(first),
        state.formats.is_prefix_of(state.with_pipeline(first).formats),
        state.with_pipeline(first).formats.is_prefix_of(
            state.with_pipeline(first).with_pipeline(second).formats,
        ),
{
    let next = state.with_pipeline(first);
    if !state.formats.contains(first) {
        assert(next.formats[state.formats.len() as int] == first);
        assert forall|a: int, b: int|
            0 <= a < next.formats.len() && 0 <= b < next.formats.len() && a
                != b implies next.formats[a] != next.formats[b] by {
            if a < state.formats.len() && b < state.formats.len() {
                assert(state.formats[a] != state.formats[b]);
            }
        }
    }
}

} // verus!
