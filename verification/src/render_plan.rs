use vstd::prelude::*;

verus! {

/// The number of milliseconds a frame may take at most under a limit of `fps`
/// frames per second: `1000 / fps`, or no limit for `None`.
pub open spec fn spec_ms_per_frame(fps: Option<u64>) -> Option<u64> {
    match fps {
        Some(f) => Some((1000u64 / f) as u64),
        None => None,
    }
}

/// The frame duration for a limit of `fps` frames per second. The limit cannot
/// be 0; `None` means there is no limit.
pub fn max_ms_per_frame(fps: Option<u64>) -> (r: Option<u64>)
    requires
        fps != Some(0u64),
    ensures
        r == spec_ms_per_frame(fps),
{
    match fps {
        Some(f) => Some(1000 / f),
        None => None,
    }
}

/// A limit of `f` frames per second gives frames of `d` whole milliseconds
/// with `d * f <= 1000 < (d + 1) * f`: the longest whole duration that still
/// fits `f` frames in a second. A lower limit never gives a shorter frame.
pub proof fn lemma_ms_per_frame(f: u64, g: u64)
    requires
        f > 0,
        g > 0,
    ensures
        spec_ms_per_frame(Some(f)) matches Some(d) && d * f <= 1000 < (d + 1) * f,
        f <= g ==> spec_ms_per_frame(Some(g))->0 <= spec_ms_per_frame(Some(f))->0,
        spec_ms_per_frame(None) is None,
{
    let d: u64 = 1000u64 / f;
    assert(d * f <= 1000 < (d + 1) * f) by (nonlinear_arith)
        requires
            f > 0,
            d == 1000int / (f as int),
    ;
    let e: u64 = 1000u64 / g;
    assert(f <= g ==> e <= d) by (nonlinear_arith)
        requires
            f > 0,
            g > 0,
            d == 1000int / (f as int),
            e == 1000int / (g as int),
    {
        if f <= g {
            assert(e * g <= 1000);
            assert(e * f <= e * g);
            assert(1000 < (d + 1) * f);
        }
    }
}

/// How long to sleep, in milliseconds, at the end of a frame that started at
/// `start_ns` and ends at `now_ns` (nanoseconds): what remains of the frame
/// duration `limit`, or nothing when there is no limit or the frame already
/// took at least that long.
pub fn frame_sleep_ms(limit: Option<u64>, start_ns: u64, now_ns: u64) -> (r: u64)
    requires
        start_ns <= now_ns,
    ensures
        r == match limit {
            None => 0,
            Some(ms) => if (now_ns - start_ns) / 1000000 < ms {
                (ms - (now_ns - start_ns) / 1000000) as int
            } else {
                0
            },
        },
{
    match limit {
        None => 0,
        Some(ms) => {
            let elapsed = (now_ns - start_ns) / 1000000;
            if elapsed < ms {
                ms - elapsed
            } else {
                0
            }
        },
    }
}

/// The number of depth layers the refractive objects are drawn in: `steps`
/// clamped to `1..=num`.
pub open spec fn glass_group_count(steps: int, num: int) -> int {
    if steps < 1 {
        1
    } else if steps > num {
        num
    } else {
        steps
    }
}

/// The objects `lo..hi` (sorted farthest first) drawn in layer `g` when `num`
/// objects are drawn in `groups` layers: the farthest share the first layer and
/// each of the nearest `groups - 1` objects has a layer of its own.
pub open spec fn glass_layer(g: int, groups: int, num: int) -> (int, int) {
    let first_len = num - groups + 1;
    if g == 0 {
        (0, first_len)
    } else {
        (first_len + g - 1, first_len + g)
    }
}

/// The layers, as ranges `lo..hi` of the `num` refractive objects sorted
/// farthest first, that they are drawn in when `steps` refinement steps are
/// asked for. Each layer is drawn after a fresh snapshot of the scene, so a
/// nearer object refracts the glass behind it.
pub fn glass_layers(steps: usize, num: usize) -> (r: Vec<(usize, usize)>)
    requires
        num > 0,
    ensures
        r@.len() == glass_group_count(steps as int, num as int),
        forall|g: int|
            0 <= g < r@.len() ==> (#[trigger] r@[g]).0 == glass_layer(g, r@.len() as int, num as int).0
                && r@[g].1 == glass_layer(g, r@.len() as int, num as int).1,
{
    let groups: usize = if steps < 1 {
        1
    } else if steps > num {
        num
    } else {
        steps
    };
    let first_len = num - groups + 1;
    let mut r: Vec<(usize, usize)> = Vec::new();
    let mut g: usize = 0;
    while g < groups
        invariant
            1 <= groups <= num,
            groups == glass_group_count(steps as int, num as int),
            first_len == num - groups + 1,
            g <= groups,
            r@.len() == g,
            forall|k: int|
                0 <= k < g ==> (#[trigger] r@[k]).0 == glass_layer(k, groups as int, num as int).0
                    && r@[k].1 == glass_layer(k, groups as int, num as int).1,
        decreases groups - g,
    {
        let lo = if g == 0 { 0 } else { first_len + (g - 1) };
        let hi = if g == 0 { first_len } else { first_len + g };
        r.push((lo, hi));
        g = g + 1;
    }
    r
}

/// Whether object `k` is drawn in one of the `groups` layers of `num` objects.
pub open spec fn in_some_layer(k: int, groups: int, num: int) -> bool {
    exists|g: int| 0 <= g < groups && #[trigger] glass_layer(g, groups, num).0 <= k < glass_layer(g, groups, num).1
}

/// The layers cover the objects exactly once, in order: the first starts at
/// the farthest object, each starts where the previous one ended, the last ends
/// after the nearest object, none is empty, and every layer but the first holds
/// a single object.
pub proof fn lemma_glass_layers_partition(steps: int, num: int)
    requires
        num > 0,
    ensures
        ({
            let groups = glass_group_count(steps, num);
            &&& 1 <= groups <= num
            &&& glass_layer(0, groups, num).0 == 0
            &&& glass_layer(groups - 1, groups, num).1 == num
            &&& forall|g: int| 0 <= g < groups ==> #[trigger] glass_layer(g, groups, num).0 < glass_layer(g, groups, num).1
            &&& forall|g: int|
                0 <= g < groups - 1 ==> #[trigger] glass_layer(g, groups, num).1 == glass_layer(g + 1, groups, num).0
            &&& forall|g: int|
                1 <= g < groups ==> #[trigger] glass_layer(g, groups, num).1 == glass_layer(g, groups, num).0 + 1
            &&& forall|g1: int, g2: int|
                0 <= g1 < g2 < groups ==> #[trigger] glass_layer(g1, groups, num).1 <= #[trigger] glass_layer(g2, groups, num).0
            &&& forall|k: int| 0 <= k < num ==> #[trigger] in_some_layer(k, groups, num)
        }),
{
    let groups = glass_group_count(steps, num);
    let first_len = num - groups + 1;
    assert forall|k: int| 0 <= k < num implies #[trigger] in_some_layer(k, groups, num) by {
        if k < first_len {
            assert(glass_layer(0, groups, num).0 <= k < glass_layer(0, groups, num).1);
        } else {
            let g = k - first_len + 1;
            assert(glass_layer(g, groups, num).0 <= k < glass_layer(g, groups, num).1);
        }
    }
}

/// The two off-screen targets the post-processing effects alternate between.
#[derive(Debug, Clone, Copy, PartialEq, Eq, Structural)]
pub enum PingPong {
    A,
    B,
}

/// Where a stage of the post-processing chain writes.
#[derive(Debug, Clone, Copy, PartialEq, Eq, Structural)]
pub enum PostOutput {
    /// One of the two off-screen targets.
    Target(PingPong),
    /// The frame that is presented.
    Frame,
}

/// The target effect `i` of a chain reads: even effects read A, odd ones B.
pub open spec fn post_input(i: int) -> PingPong {
    if i % 2 == 0 {
        PingPong::A
    } else {
        PingPong::B
    }
}

/// Where effect `i` of a chain of `n` writes: the frame for the last effect,
/// otherwise the target it does not read.
pub open spec fn post_output(i: int, n: int) -> PostOutput {
    if i == n - 1 {
        PostOutput::Frame
    } else if i % 2 == 0 {
        PostOutput::Target(PingPong::B)
    } else {
        PostOutput::Target(PingPong::A)
    }
}

/// Where the tonemapped scene is written: straight into the frame without
/// effects, otherwise into target A, which the first effect reads.
pub fn tonemap_output(n: usize) -> (r: PostOutput)
    ensures
        r == (if n == 0 { PostOutput::Frame } else { PostOutput::Target(PingPong::A) }),
{
    if n == 0 {
        PostOutput::Frame
    } else {
        PostOutput::Target(PingPong::A)
    }
}

/// The target each of a chain of `n` effects reads and where it writes, in
/// order.
pub fn post_chain(n: usize) -> (r: Vec<(PingPong, PostOutput)>)
    ensures
        r@.len() == n,
        forall|i: int| 0 <= i < n ==> #[trigger] r@[i] == (post_input(i), post_output(i, n as int)),
{
    let mut r: Vec<(PingPong, PostOutput)> = Vec::new();
    let mut i: usize = 0;
    while i < n
        invariant
            i <= n,
            r@.len() == i,
            forall|k: int| 0 <= k < i ==> #[trigger] r@[k] == (post_input(k), post_output(k, n as int)),
        decreases n - i,
    {
        let read_a = i % 2 == 0;
        let input = if read_a { PingPong::A } else { PingPong::B };
        let output = if i == n - 1 {
            PostOutput::Frame
        } else if read_a {
            PostOutput::Target(PingPong::B)
        } else {
            PostOutput::Target(PingPong::A)
        };
        r.push((input, output));
        i = i + 1;
    }
    r
}

/// The chain is connected: the first effect reads what the tonemapping wrote,
/// each later effect reads what the one before it wrote, only the last effect
/// writes the frame, and no effect writes the target it reads.
pub proof fn lemma_post_chain_connected(n: int)
    requires
        n > 0,
    ensures
        post_input(0) == PingPong::A,
        forall|i: int| 0 < i < n ==> post_output(i - 1, n) == PostOutput::Target(#[trigger] post_input(i)),
        post_output(n - 1, n) == PostOutput::Frame,
        forall|i: int| 0 <= i < n - 1 ==> #[trigger] post_output(i, n) != PostOutput::Frame,
        forall|i: int| 0 <= i < n ==> #[trigger] post_output(i, n) != PostOutput::Target(post_input(i)),
{
}

/// What to do with the surface texture of a frame.
#[derive(Debug, Clone, Copy, PartialEq, Eq, Structural)]
pub enum AcquireAction {
    /// A texture was acquired: render into it.
    Render,
    /// Skip this frame.
    Skip,
    /// Sleep a little, pump the window events and try again.
    Retry,
}

/// Decides what to do after asking the surface for a texture. Until a first
/// frame has been acquired, a failure is retried (pumping events between the
/// attempts) until `deadline_passed`, since a fresh window may need a few
/// turns of the event loop to become presentable; where the platform owns the
/// event loop (`platform_loop`), nothing can be pumped and the frame is
/// skipped. Once a frame has been acquired, a failure skips the frame at once.
pub struct FrameAcquirer {
    pub first_frame: bool,
}

impl FrameAcquirer {
    /// No frame acquired yet.
    pub fn new() -> (r: FrameAcquirer)
        ensures
            r.first_frame,
    {
        FrameAcquirer { first_frame: true }
    }

    /// The action for the outcome `available` of one attempt.
    pub fn on_attempt(&mut self, available: bool, platform_loop: bool, deadline_passed: bool) -> (r: AcquireAction)
        ensures
            available ==> r == AcquireAction::Render && !final(self).first_frame,
            !available ==> final(self).first_frame == old(self).first_frame,
            !available && !old(self).first_frame ==> r == AcquireAction::Skip,
            !available && old(self).first_frame ==> r == (if platform_loop || deadline_passed {
                AcquireAction::Skip
            } else {
                AcquireAction::Retry
            }),
    {
        if available {
            self.first_frame = false;
            AcquireAction::Render
        } else if !self.first_frame || platform_loop || deadline_passed {
            AcquireAction::Skip
        } else {
            AcquireAction::Retry
        }
    }
}


/// The settings and circumstances that decide which passes a frame runs.
#[derive(Debug, Clone, Copy, PartialEq, Eq, Structural)]
pub struct FrameSettings {
    /// The window is hidden and renders into an off-screen texture.
    pub hidden: bool,
    /// The canvas's number of anti-aliasing samples.
    pub canvas_samples: u32,
    pub ssao_enabled: bool,
    pub ssr_enabled: bool,
    /// The graphics backend supports clustered lighting (which SSR needs).
    pub supports_clustered_lighting: bool,
    pub dof_enabled: bool,
    pub transmission_enabled: bool,
    /// The scene holds refractive surfaces.
    pub has_refractive_surfaces: bool,
}

/// The passes a frame runs and how.
#[derive(Debug, Clone, Copy, PartialEq, Eq, Structural)]
pub struct FramePlan {
    /// Render off-screen rather than into a surface texture.
    pub offscreen: bool,
    /// The number of samples the scene is rasterized with.
    pub sample_count: u32,
    pub ssr_active: bool,
    pub dof_active: bool,
    pub glass_active: bool,
    /// The geometry prepass (shared by SSAO, SSR, depth of field and glass)
    /// runs, in the first camera pass.
    pub prepass: bool,
    /// The ambient-occlusion texture is bound for the opaque pass.
    pub bind_ao: bool,
    /// The presented image is forced opaque (a visible window composited by a
    /// browser); a hidden one keeps the scene's alpha.
    pub force_opaque: bool,
}

/// The plan of a frame: a hidden window renders off-screen with a single
/// sample (off-screen buffers are never multisampled); SSR runs only where
/// clustered lighting is supported; glass needs refractive surfaces; the
/// prepass runs when any of its consumers is active.
pub fn frame_plan(s: FrameSettings) -> (r: FramePlan)
    ensures
        r.offscreen == s.hidden,
        r.sample_count == (if s.hidden { 1 } else { s.canvas_samples }),
        r.ssr_active == (s.ssr_enabled && s.supports_clustered_lighting),
        r.dof_active == s.dof_enabled,
        r.glass_active == (s.transmission_enabled && s.has_refractive_surfaces),
        r.prepass == (s.ssao_enabled || r.ssr_active || r.dof_active || r.glass_active),
        r.bind_ao == s.ssao_enabled,
        r.force_opaque == !s.hidden,
{
    let ssr_active = s.ssr_enabled && s.supports_clustered_lighting;
    let dof_active = s.dof_enabled;
    let glass_active = s.transmission_enabled && s.has_refractive_surfaces;
    FramePlan {
        offscreen: s.hidden,
        sample_count: if s.hidden { 1 } else { s.canvas_samples },
        ssr_active,
        dof_active,
        glass_active,
        prepass: s.ssao_enabled || ssr_active || dof_active || glass_active,
        bind_ao: s.ssao_enabled,
        force_opaque: !s.hidden,
    }
}

/// Whether camera pass `pass` of a frame planned as `plan` runs the geometry
/// prepass: only the first, and only when the plan has one.
pub fn runs_prepass(plan: FramePlan, pass: u32) -> (r: bool)
    ensures
        r == (plan.prepass && pass == 0),
{
    plan.prepass && pass == 0
}

/// Every effect that reads the prepass's G-buffer gets it: when SSAO, SSR,
/// depth of field or glass is active, the prepass runs; and the AO texture is
/// bound only when SSAO itself is on.
pub proof fn lemma_prepass_serves_its_consumers(s: FrameSettings, plan: FramePlan)
    requires
        plan.ssr_active == (s.ssr_enabled && s.supports_clustered_lighting),
        plan.dof_active == s.dof_enabled,
        plan.glass_active == (s.transmission_enabled && s.has_refractive_surfaces),
        plan.prepass == (s.ssao_enabled || plan.ssr_active || plan.dof_active || plan.glass_active),
    ensures
        s.ssao_enabled ==> plan.prepass,
        plan.ssr_active ==> plan.prepass,
        plan.dof_active ==> plan.prepass,
        plan.glass_active ==> plan.prepass,
        !plan.prepass ==> !s.ssao_enabled && !plan.ssr_active && !plan.dof_active && !plan.glass_active,
{
}

} // verus!
