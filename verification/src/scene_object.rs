use vstd::prelude::*;

verus! {

/// The shading model used by the path tracer for an object's surface.
///
/// The rasterizer always uses its metallic-roughness PBR shader; this only
/// selects which lobe set the path tracer's unified BSDF evaluates.
#[derive(Debug, Clone, Copy, PartialEq, Eq, Structural)]
pub enum Bsdf {
    /// Opaque metallic-roughness PBR (the default).
    Opaque,
    /// Dielectric glass: smooth or rough refraction governed by `ior`/`roughness`.
    Glass,
    /// Pure conductor: reflection only, tinted by `specular_tint`.
    Metal,
    /// Emitter; shaded as opaque but contributes light via its emissive color.
    Emissive,
}

impl Bsdf {
    /// The shader's `bsdf_type` tag for this model.
    pub open spec fn spec_tag(self) -> u32 {
        match self {
            Bsdf::Opaque => 0,
            Bsdf::Glass => 1,
            Bsdf::Metal => 2,
            Bsdf::Emissive => 3,
        }
    }

    /// The shader's `bsdf_type` tag for this model.
    pub fn tag(self) -> (r: u32)
        ensures
            r == self.spec_tag(),
    {
        match self {
            Bsdf::Opaque => 0,
            Bsdf::Glass => 1,
            Bsdf::Metal => 2,
            Bsdf::Emissive => 3,
        }
    }
}

/// Distinct models have distinct tags, so the shader tells them apart.
pub proof fn lemma_bsdf_tag_injective(a: Bsdf, b: Bsdf)
    ensures
        a.spec_tag() == b.spec_tag() ==> a == b,
        a.spec_tag() < 4,
{
}

/// How parallax mapping marches the height field.
#[derive(Debug, Clone, Copy, PartialEq, Eq, Structural)]
pub enum ParallaxMethod {
    /// Parallax-occlusion mapping: linear search + interpolation. Cheaper.
    Occlusion,
    /// Relief mapping: linear search + `max_steps` binary-search refinements.
    /// Sharper than occlusion at the cost of extra samples; more steps give a
    /// crisper crossing.
    Relief { max_steps: u32 },
}

impl ParallaxMethod {
    /// The default method: occlusion.
    pub fn default_method() -> (r: ParallaxMethod)
        ensures
            r == ParallaxMethod::Occlusion,
    {
        ParallaxMethod::Occlusion
    }

    /// The number the shader's `parallax.w` slot holds for this method: `0`
    /// selects occlusion, any positive value selects relief with that many
    /// binary-search steps (clamped to the shader's hard loop cap of 64).
    pub fn code(self) -> (r: u32)
        ensures
            r == match self {
                ParallaxMethod::Occlusion => 0,
                ParallaxMethod::Relief { max_steps } => if max_steps < 1 {
                    1
                } else if max_steps > 64 {
                    64
                } else {
                    max_steps
                },
            },
    {
        match self {
            ParallaxMethod::Occlusion => 0,
            ParallaxMethod::Relief { max_steps } => {
                if max_steps < 1 {
                    1
                } else if max_steps > 64 {
                    64
                } else {
                    max_steps
                }
            },
        }
    }
}

/// A relief method always selects relief in the shader (a code of at least 1)
/// with at most 64 steps; occlusion alone has the code 0.
pub proof fn lemma_parallax_code_range(m: ParallaxMethod)
    ensures
        match m {
            ParallaxMethod::Occlusion => true,
            ParallaxMethod::Relief { max_steps } => {
                let c = if max_steps < 1 {
                    1
                } else if max_steps > 64 {
                    64
                } else {
                    max_steps
                };
                1 <= c <= 64 && (1 <= max_steps <= 64 ==> c == max_steps)
            },
        },
{
}

/// Hands out a default segmentation id to each new object: 1, 2, 3, ... so that
/// 0 stays reserved for the background (empty pixels) of the segmentation
/// output. The counter wraps around past `u32::MAX`.
pub struct SegmentationIds {
    pub next: u32,
}

/// The counter's value after one id was handed out from `n`: it wraps past
/// `u32::MAX`.
pub open spec fn counter_after(n: u32) -> u32 {
    if n == u32::MAX {
        0
    } else {
        (n + 1) as u32
    }
}

impl SegmentationIds {
    /// The first id handed out is 1.
    pub fn new() -> (r: SegmentationIds)
        ensures
            r.next == 1,
    {
        SegmentationIds { next: 1 }
    }

    /// A fresh id for a newly created object.
    pub fn next_segmentation_id(&mut self) -> (r: u32)
        ensures
            r == old(self).next,
            final(self).next == counter_after(old(self).next),
    {
        let r = self.next;
        self.next = self.next.wrapping_add(1);
        r
    }
}

/// The counter states along a run of calls: `states[0]` is a fresh counter
/// and each call of `next_segmentation_id` took `states[i]` to `states[i + 1]`,
/// returning `ids[i]`.
pub open spec fn is_run_of_calls(states: Seq<SegmentationIds>, ids: Seq<u32>) -> bool {
    &&& states.len() == ids.len() + 1
    &&& states[0].next == 1
    &&& forall|i: int|
        0 <= i < ids.len() ==> #[trigger] ids[i] == states[i].next && states[i + 1].next
            == counter_after(states[i].next)
}

proof fn lemma_counter_steps(states: Seq<SegmentationIds>, ids: Seq<u32>, k: int)
    requires
        is_run_of_calls(states, ids),
        ids.len() < u32::MAX,
        0 <= k <= ids.len(),
    ensures
        forall|i: int| 0 <= i <= k ==> #[trigger] states[i].next == i + 1,
    decreases k,
{
    if k > 0 {
        lemma_counter_steps(states, ids, k - 1);
        assert(ids[k - 1] == states[k - 1].next);
    }
}

/// Ids from one counter, over fewer than `u32::MAX` calls from a fresh counter,
/// are 1, 2, 3, ... in call order: none is the background's 0, and no two calls
/// hand out the same id.
pub proof fn lemma_segmentation_ids_distinct(states: Seq<SegmentationIds>, ids: Seq<u32>)
    requires
        is_run_of_calls(states, ids),
        ids.len() < u32::MAX,
    ensures
        forall|i: int| 0 <= i < ids.len() ==> #[trigger] ids[i] == i + 1,
        forall|i: int| 0 <= i < ids.len() ==> #[trigger] ids[i] != 0,
        forall|i: int, j: int| 0 <= i < j < ids.len() ==> ids[i] != ids[j],
{
    lemma_counter_steps(states, ids, ids.len() as int);
    assert forall|i: int| 0 <= i < ids.len() implies #[trigger] ids[i] == i + 1 by {
        assert(states[i].next == i + 1);
    }
}

/// Rendering settings of an object that are plain flags and masks.
#[derive(Debug, Clone, Copy, PartialEq, Eq, Structural)]
pub struct ObjectFlags {
    /// Whether the surface is drawn.
    pub draw_surface: bool,
    /// Whether back faces are culled.
    pub cull: bool,
    /// The id written to the segmentation output.
    pub segmentation_id: u32,
    /// The object is drawn by a camera only when this shares a bit with the
    /// camera's mask.
    pub render_layers: u32,
    /// A light affects the object only when this shares a bit with the light's
    /// mask.
    pub light_layers: u32,
    /// Whether the object occludes lights in the shadow depth pass.
    pub casts_shadows: bool,
}

impl ObjectFlags {
    /// The settings of a new object: surface drawn and culled, on layer 0 only
    /// (`1`), lit by every light (`u32::MAX`), casting shadows.
    pub fn new(segmentation_id: u32) -> (r: ObjectFlags)
        ensures
            r == (ObjectFlags {
                draw_surface: true,
                cull: true,
                segmentation_id,
                render_layers: 1,
                light_layers: u32::MAX,
                casts_shadows: true,
            }),
    {
        ObjectFlags {
            draw_surface: true,
            cull: true,
            segmentation_id,
            render_layers: 1,
            light_layers: u32::MAX,
            casts_shadows: true,
        }
    }

    /// Whether a camera with the layer mask `camera_layers` draws the object.
    pub fn visible_to(&self, camera_layers: u32) -> (r: bool)
        ensures
            r == (self.render_layers & camera_layers != 0),
    {
        self.render_layers & camera_layers != 0
    }

    /// Whether a light with the layer mask `light_mask` affects the object.
    pub fn lit_by(&self, light_mask: u32) -> (r: bool)
        ensures
            r == (self.light_layers & light_mask != 0),
    {
        self.light_layers & light_mask != 0
    }

    /// Whether the object contributes surface geometry to the shadow pre-pass:
    /// only when its surface is drawn and shadow casting is on.
    pub fn casts_shadows(&self) -> (r: bool)
        ensures
            r == (self.casts_shadows && self.draw_surface),
    {
        self.casts_shadows && self.draw_surface
    }
}

/// A new object (on layer 0, lit on every channel) is drawn exactly by the
/// cameras that see layer 0, and lit by every light that has any channel.
pub proof fn lemma_new_object_layers(camera_layers: u32, light_mask: u32)
    ensures
        (1u32 & camera_layers != 0) == (camera_layers % 2 == 1),
        (u32::MAX & light_mask != 0) == (light_mask != 0),
{
    assert((1u32 & camera_layers != 0) == (camera_layers % 2 == 1)) by (bit_vector);
    assert((u32::MAX & light_mask != 0) == (light_mask != 0)) by (bit_vector);
}

/// The per-instance column of a setting that each instance may override: the
/// instance's value, or `use_object` (which tells the shader to use the
/// object's own setting) where it has none.
pub fn instance_override_column<T: Copy>(overrides: &[Option<T>], use_object: T) -> (r: Vec<T>)
    ensures
        r@.len() == overrides@.len(),
        forall|i: int|
            0 <= i < overrides@.len() ==> #[trigger] r@[i] == match overrides@[i] {
                Some(v) => v,
                None => use_object,
            },
{
    let mut r: Vec<T> = Vec::new();
    let mut i: usize = 0;
    while i < overrides.len()
        invariant
            i <= overrides@.len(),
            r@.len() == i,
            forall|k: int|
                0 <= k < i ==> #[trigger] r@[k] == match overrides@[k] {
                    Some(v) => v,
                    None => use_object,
                },
        decreases overrides@.len() - i,
    {
        let v = match overrides[i] {
            Some(v) => v,
            None => use_object,
        };
        r.push(v);
        i = i + 1;
    }
    r
}

/// The per-instance column of a setting every instance has, in instance order.
pub fn instance_column<T: Copy>(values: &[T]) -> (r: Vec<T>)
    ensures
        r@ == values@,
{
    let mut r: Vec<T> = Vec::new();
    let mut i: usize = 0;
    while i < values.len()
        invariant
            i <= values@.len(),
            r@ == values@.take(i as int),
        decreases values@.len() - i,
    {
        r.push(values[i]);
        assert(values@.take(i as int + 1) =~= values@.take(i as int).push(values@[i as int]));
        i = i + 1;
    }
    assert(values@.take(values@.len() as int) =~= values@);
    r
}

/// The deformation column: the three axes of each instance's deformation, one
/// after the other, instance after instance.
pub fn flatten_axes<T: Copy>(axes: &[(T, T, T)]) -> (r: Vec<T>)
    requires
        axes@.len() * 3 <= usize::MAX,
    ensures
        r@.len() == axes@.len() * 3,
        forall|i: int|
            0 <= i < axes@.len() ==> r@[3 * i] == (#[trigger] axes@[i]).0 && r@[3 * i + 1] == axes@[i].1
                && r@[3 * i + 2] == axes@[i].2,
{
    let mut r: Vec<T> = Vec::new();
    let mut i: usize = 0;
    while i < axes.len()
        invariant
            i <= axes@.len(),
            r@.len() == 3 * i,
            forall|k: int|
                0 <= k < i ==> r@[3 * k] == (#[trigger] axes@[k]).0 && r@[3 * k + 1] == axes@[k].1
                    && r@[3 * k + 2] == axes@[k].2,
        decreases axes@.len() - i,
    {
        let (x, y, z) = axes[i];
        r.push(x);
        r.push(y);
        r.push(z);
        i = i + 1;
    }
    r
}

/// How an object is drawn into the depth pre-pass.
#[derive(Debug, Clone, Copy, PartialEq, Eq, Structural)]
pub struct DepthPassPlan {
    /// Draw with the deforming pipeline (skinned or morphed geometry).
    pub deform: bool,
    /// Bind the texture coordinates (the transmittance pass samples the albedo).
    pub with_uvs: bool,
}

/// The depth pre-pass plan of an object: none when its surface is not drawn;
/// the deforming pipeline only when it exists and the object's deformation was
/// prepared this frame; texture coordinates only for the transmittance pass.
pub fn depth_pass_plan(
    draw_surface: bool,
    has_deform_pipeline: bool,
    has_deform_bind_group: bool,
    transmittance: bool,
) -> (r: Option<DepthPassPlan>)
    ensures
        r == (if draw_surface {
            Some(DepthPassPlan { deform: has_deform_pipeline && has_deform_bind_group, with_uvs: transmittance })
        } else {
            None
        }),
{
    if !draw_surface {
        return None;
    }
    Some(DepthPassPlan { deform: has_deform_pipeline && has_deform_bind_group, with_uvs: transmittance })
}

} // verus!
