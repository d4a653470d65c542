//! A render pass as a value: what it binds, what it draws into and which
//! draws it makes. The nodes of the frame return such values; the renderer
//! records them.

use crate::bind_group_utils::{
    BindGroupLayout, BindingResource, RenderPassColorAttachment, RenderPassDepthStencilAttachment,
    RenderPipeline, Uniform,
};
use crate::texture::Texture;
use vstd::prelude::*;

verus! {

/// One entry of a bind group: `resource` at binding number `binding`.
#[derive(Clone, Copy, Debug, PartialEq, Eq, Hash, Structural)]
pub struct BindGroupEntry {
    pub binding: u32,
    pub resource: BindingResource,
}

/// One draw: the first `vertices` vertices, once, with `pipeline`.
#[derive(Clone, Copy, Debug, PartialEq, Eq, Hash, Structural)]
pub struct Draw {
    pub pipeline: RenderPipeline,
    pub vertices: u32,
}

/// A render pass with one bind group, set at index 0, and the draws made in
/// it. Where the bind group holds the view uniform it is set with the view's
/// dynamic offset, and without an offset where it does not.
#[derive(Clone, Debug, PartialEq, Eq)]
pub struct RenderPass {
    pub label: &'static str,
    pub bind_group_label: &'static str,
    pub layout: BindGroupLayout,
    pub entries: Vec<BindGroupEntry>,
    pub color_attachments: Vec<Option<RenderPassColorAttachment>>,
    pub depth_stencil_attachment: Option<RenderPassDepthStencilAttachment>,
    pub draws: Vec<Draw>,
}

/// A `RenderPass` as a mathematical value.
pub struct RenderPassView {
    pub label: &'static str,
    pub bind_group_label: &'static str,
    pub layout: BindGroupLayout,
    pub entries: Seq<BindGroupEntry>,
    pub color_attachments: Seq<Option<RenderPassColorAttachment>>,
    pub depth_stencil_attachment: Option<RenderPassDepthStencilAttachment>,
    pub draws: Seq<Draw>,
}

impl DeepView for RenderPass {
    type V = RenderPassView;

    open spec fn deep_view(&self) -> RenderPassView {
        RenderPassView {
            label: self.label,
            bind_group_label: self.bind_group_label,
            layout: self.layout,
            entries: self.entries@,
            color_attachments: self.color_attachments@,
            depth_stencil_attachment: self.depth_stencil_attachment,
            draws: self.draws@,
        }
    }
}

impl RenderPass {
    /// Whether the pass binds the view uniform, and so takes the view's
    /// dynamic offset.
    pub fn binds_view(&self) -> (bound: bool)
        ensures
            bound == self.deep_view().binds_view(),
    {
        let mut i: usize = 0;
        while i < self.entries.len()
            invariant
                i <= self.entries.len(),
                forall|j: int|
                    0 <= j < i ==> (#[trigger] self.entries[j]).resource
                        != BindingResource::Uniform(Uniform::View),
            decreases self.entries.len() - i,
        {
            match self.entries[i].resource {
                BindingResource::Uniform(Uniform::View) => {
                    return true;
                },
                _ => {},
            }
            i = i + 1;
        }
        false
    }
}

impl RenderPassView {
    /// Whether the pass binds the view uniform.
    pub open spec fn binds_view(self) -> bool {
        exists|i: int|
            0 <= i < self.entries.len() && (#[trigger] self.entries[i]).resource
                == BindingResource::Uniform(Uniform::View)
    }

    /// Whether the pass binds `texture`.
    pub open spec fn reads(self, texture: Texture) -> bool {
        exists|i: int|
            0 <= i < self.entries.len() && (#[trigger] self.entries[i]).resource
                == BindingResource::TextureView(texture)
    }

    /// The texture of colour attachment `i`, if the pass has one there.
    pub open spec fn color_target(self, i: int) -> Option<Texture> {
        match self.color_attachments[i] {
            Some(attachment) => Some(attachment.view),
            None => None,
        }
    }

    /// The texture of the depth attachment, if the pass has one.
    pub open spec fn depth_target(self) -> Option<Texture> {
        match self.depth_stencil_attachment {
            Some(attachment) => Some(attachment.view),
            None => None,
        }
    }

    /// Whether the pass has `texture` as an attachment.
    pub open spec fn writes(self, texture: Texture) -> bool {
        ||| exists|i: int|
            0 <= i < self.color_attachments.len() && #[trigger] self.color_target(i) == Some(
                texture,
            )
        ||| self.depth_target() == Some(texture)
    }

    /// No texture is both bound and drawn into.
    pub open spec fn hazard_free(self) -> bool {
        forall|texture: Texture| !(self.reads(texture) && self.writes(texture))
    }

    /// The pipelines of the draws, in order.
    pub open spec fn pipelines(self) -> Seq<RenderPipeline> {
        Seq::new(self.draws.len(), |i: int| self.draws[i].pipeline)
    }

    /// The textures drawn into: the colour attachments in order, then the
    /// depth attachment.
    pub open spec fn targets(self) -> Seq<Option<Texture>> {
        let color = Seq::new(self.color_attachments.len(), |i: int| self.color_target(i));
        if self.depth_stencil_attachment.is_some() {
            color.push(self.depth_target())
        } else {
            color
        }
    }

    /// Whether the targets are the textures of `textures`, in order, with no
    /// attachment left empty.
    pub open spec fn targets_are(self, textures: Seq<Texture>) -> bool {
        self.targets() == Seq::new(textures.len(), |i: int| Some(textures[i]))
    }

    /// Whether the pass overwrites its targets: it has no depth test, and
    /// every draw is the full-screen triangle with a pipeline made for it.
    /// Such a pass writes every texel of its targets, so what the targets
    /// held before does not show in what they hold after.
    pub open spec fn covers_targets(self) -> bool {
        &&& self.depth_stencil_attachment.is_none()
        &&& self.draws.len() > 0
        &&& forall|i: int|
            0 <= i < self.draws.len() ==> (#[trigger] self.draws[i]).pipeline.spec_is_fullscreen()
                && self.draws[i].vertices == 3
    }

    /// What the draws of the pass can see of `contents`: what the bound
    /// textures and uniforms hold, in the order of the entries, and, unless
    /// the pass overwrites its targets, what the targets hold. A sampler holds
    /// nothing: it says how a texture is read and is the same in every frame.
    pub open spec fn inputs<C>(self, contents: Map<BindingResource, C>) -> Seq<Option<C>> {
        let bound = Seq::new(
            self.entries.len(),
            |i: int|
                match self.entries[i].resource {
                    BindingResource::Sampler(_) => None,
                    resource => Some(contents[resource]),
                },
        );
        if self.covers_targets() {
            bound
        } else {
            bound + Seq::new(
                self.targets().len(),
                |i: int|
                    match self.targets()[i] {
                        Some(texture) => Some(contents[BindingResource::TextureView(texture)]),
                        None => None,
                    },
            )
        }
    }

    /// What the targets hold after the pass, given what the shaders compute.
    pub open spec fn outputs<C>(
        self,
        shader: spec_fn(Seq<RenderPipeline>, int, Seq<Option<C>>) -> C,
        contents: Map<BindingResource, C>,
    ) -> Seq<C> {
        Seq::new(
            self.targets().len(),
            |i: int| shader(self.pipelines(), i, self.inputs(contents)),
        )
    }

    /// What the resources hold after the pass. `shader` stands for the
    /// shaders: it gives what the draws of the given pipelines leave in
    /// target number `i`, from what they can see.
    pub open spec fn run<C>(
        self,
        shader: spec_fn(Seq<RenderPipeline>, int, Seq<Option<C>>) -> C,
        contents: Map<BindingResource, C>,
    ) -> Map<BindingResource, C> {
        spec_store(contents, self.targets(), self.outputs(shader, contents))
    }
}

/// `contents` after `values` have been stored into `targets`, one by one.
pub open spec fn spec_store<C>(
    contents: Map<BindingResource, C>,
    targets: Seq<Option<Texture>>,
    values: Seq<C>,
) -> Map<BindingResource, C>
    decreases targets.len(),
{
    if targets.len() == 0 {
        contents
    } else {
        let before = spec_store(contents, targets.drop_last(), values.drop_last());
        match targets.last() {
            Some(texture) => before.insert(BindingResource::TextureView(texture), values.last()),
            None => before,
        }
    }
}

/// What the resources hold after `passes` have run in order.
pub open spec fn spec_run_passes<C>(
    shader: spec_fn(Seq<RenderPipeline>, int, Seq<Option<C>>) -> C,
    passes: Seq<RenderPassView>,
    contents: Map<BindingResource, C>,
) -> Map<BindingResource, C>
    decreases passes.len(),
{
    if passes.len() == 0 {
        contents
    } else {
        passes.last().run(shader, spec_run_passes(shader, passes.drop_last(), contents))
    }
}

/// Running passes and then one more is running the one more on what the
/// others leave.
pub proof fn lemma_run_passes_push<C>(
    shader: spec_fn(Seq<RenderPipeline>, int, Seq<Option<C>>) -> C,
    passes: Seq<RenderPassView>,
    pass: RenderPassView,
    contents: Map<BindingResource, C>,
)
    ensures
        spec_run_passes(shader, passes.push(pass), contents) == pass.run(
            shader,
            spec_run_passes(shader, passes, contents),
        ),
{
    assert(passes.push(pass).drop_last() =~= passes);
    assert(passes.push(pass).last() == pass);
}

/// No two of `targets` are the same texture.
pub open spec fn spec_distinct(targets: Seq<Texture>) -> bool {
    forall|i: int, j: int| 0 <= i < j < targets.len() ==> targets[i] != targets[j]
}

/// Storing changes nothing but the targets.
pub proof fn lemma_store_keeps<C>(
    contents: Map<BindingResource, C>,
    targets: Seq<Option<Texture>>,
    values: Seq<C>,
    resource: BindingResource,
)
    requires
        resource matches BindingResource::TextureView(texture) ==> forall|i: int|
            0 <= i < targets.len() ==> #[trigger] targets[i] != Some(texture),
    ensures
        spec_store(contents, targets, values)[resource] == contents[resource],
    decreases targets.len(),
{
    if targets.len() > 0 {
        lemma_store_keeps(contents, targets.drop_last(), values.drop_last(), resource);
        assert(targets.last() == targets[targets.len() - 1]);
    }
}

/// After storing into distinct targets, each target holds its value.
pub proof fn lemma_store_holds<C>(
    contents: Map<BindingResource, C>,
    textures: Seq<Texture>,
    values: Seq<C>,
    i: int,
)
    requires
        spec_distinct(textures),
        values.len() == textures.len(),
        0 <= i < textures.len(),
    ensures
        spec_store(
            contents,
            Seq::new(textures.len(), |k: int| Some(textures[k])),
            values,
        )[BindingResource::TextureView(textures[i])] == values[i],
    decreases textures.len(),
{
    let targets = Seq::new(textures.len(), |k: int| Some(textures[k]));
    let n = textures.len() - 1;
    assert(targets.last() == Some(textures[n]));
    assert(targets.drop_last() =~= Seq::new(
        textures.drop_last().len(),
        |k: int| Some(textures.drop_last()[k]),
    ));
    if i < n {
        lemma_store_holds(contents, textures.drop_last(), values.drop_last(), i);
    }
}

/// A pass draws into its targets and into nothing else.
pub proof fn lemma_writes_its_targets(
    pass: RenderPassView,
    textures: Seq<Texture>,
    texture: Texture,
)
    requires
        pass.targets_are(textures),
    ensures
        pass.writes(texture) <==> textures.contains(texture),
{
    let targets = pass.targets();
    let wanted = Seq::new(textures.len(), |i: int| Some(textures[i]));
    let colors = pass.color_attachments.len() as int;
    assert(targets == wanted);
    assert(wanted.len() == textures.len());
    assert(targets.len() == if pass.depth_stencil_attachment.is_some() {
        colors + 1
    } else {
        colors
    });
    if pass.writes(texture) {
        if pass.depth_target() == Some(texture) && pass.depth_stencil_attachment.is_some() {
            assert(targets[colors] == Some(texture));
            assert(wanted[colors] == Some(textures[colors]));
            assert(textures[colors] == texture);
        } else {
            let k = choose|k: int|
                0 <= k < pass.color_attachments.len() && #[trigger] pass.color_target(k) == Some(
                    texture,
                );
            assert(targets[k] == Some(texture));
            assert(wanted[k] == Some(textures[k]));
            assert(textures[k] == texture);
        }
    }
    if textures.contains(texture) {
        let k = choose|k: int| 0 <= k < textures.len() && textures[k] == texture;
        assert(wanted[k] == Some(texture));
        assert(targets[k] == Some(texture));
        if k < colors {
            assert(pass.color_target(k) == Some(texture));
        } else {
            assert(pass.depth_stencil_attachment.is_some());
            assert(targets[colors] == pass.depth_target());
        }
    }
}

/// A pass changes nothing but its targets: a texture that it does not draw
/// into, a uniform and a sampler hold after the pass what they held before.
pub proof fn lemma_run_keeps<C>(
    pass: RenderPassView,
    shader: spec_fn(Seq<RenderPipeline>, int, Seq<Option<C>>) -> C,
    contents: Map<BindingResource, C>,
    resource: BindingResource,
)
    requires
        resource matches BindingResource::TextureView(texture) ==> !pass.writes(texture),
    ensures
        pass.run(shader, contents)[resource] == contents[resource],
{
    let targets = pass.targets();
    if let BindingResource::TextureView(texture) = resource {
        assert forall|i: int| 0 <= i < targets.len() implies #[trigger] targets[i] != Some(
            texture,
        ) by {
            if targets[i] == Some(texture) && i < pass.color_attachments.len() {
                assert(pass.color_target(i) == Some(texture));
            }
        }
    }
    lemma_store_keeps(contents, targets, pass.outputs(shader, contents), resource);
}

/// A pass leaves every resource but its targets as it was.
pub proof fn lemma_run_keeps_the_rest<C>(
    pass: RenderPassView,
    textures: Seq<Texture>,
    shader: spec_fn(Seq<RenderPipeline>, int, Seq<Option<C>>) -> C,
    contents: Map<BindingResource, C>,
)
    requires
        pass.targets_are(textures),
    ensures
        forall|resource: BindingResource|
            (resource matches BindingResource::TextureView(texture) ==> !textures.contains(texture))
                ==> #[trigger] pass.run(shader, contents)[resource] == contents[resource],
{
    assert forall|resource: BindingResource|
        (resource matches BindingResource::TextureView(texture) ==> !textures.contains(
            texture,
        )) implies #[trigger] pass.run(shader, contents)[resource] == contents[resource] by {
        if let BindingResource::TextureView(texture) = resource {
            lemma_writes_its_targets(pass, textures, texture);
        }
        lemma_run_keeps(pass, shader, contents, resource);
    }
}

/// What a pass leaves in its targets depends on its pipelines and on what
/// its draws can see, and on nothing else: two passes with the same
/// pipelines that see the same leave the same in each target, whatever the
/// targets are called and whatever else the resources hold.
pub proof fn lemma_run_is_pure<C>(
    shader: spec_fn(Seq<RenderPipeline>, int, Seq<Option<C>>) -> C,
    first: RenderPassView,
    first_targets: Seq<Texture>,
    first_contents: Map<BindingResource, C>,
    second: RenderPassView,
    second_targets: Seq<Texture>,
    second_contents: Map<BindingResource, C>,
)
    requires
        first.targets_are(first_targets),
        second.targets_are(second_targets),
        spec_distinct(first_targets),
        spec_distinct(second_targets),
        first_targets.len() == second_targets.len(),
        first.pipelines() == second.pipelines(),
        first.inputs(first_contents) == second.inputs(second_contents),
    ensures
        forall|i: int|
            0 <= i < first_targets.len() ==> first.run(
                shader,
                first_contents,
            )[BindingResource::TextureView(#[trigger] first_targets[i])] == second.run(
                shader,
                second_contents,
            )[BindingResource::TextureView(second_targets[i])],
{
    assert forall|i: int| 0 <= i < first_targets.len() implies first.run(
        shader,
        first_contents,
    )[BindingResource::TextureView(#[trigger] first_targets[i])] == second.run(
        shader,
        second_contents,
    )[BindingResource::TextureView(second_targets[i])] by {
        lemma_store_holds(first_contents, first_targets, first.outputs(shader, first_contents), i);
        lemma_store_holds(
            second_contents,
            second_targets,
            second.outputs(shader, second_contents),
            i,
        );
    }
}

} // verus!
