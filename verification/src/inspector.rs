use vstd::prelude::*;
use crate::samples::NumSamples;
use crate::scene_graph::SceneGraph;

verus! {

/// The inspector's top-level tab: global rendering settings, the 3D scene tree, or
/// the 2D scene tree. The scene tabs are only shown when their scene is present and
/// non-empty; see [`Inspector::set_tab`].
#[derive(Debug, Clone, Copy, PartialEq, Eq, Structural)]
pub enum InspectorTab {
    /// Renderer, common, rasterizer / path-tracer and timing settings.
    Global,
    /// The 3D scene tree and the selected node's editor.
    Scene3d,
    /// The 2D scene tree and the selected node's editor.
    Scene2d,
}

/// The state of the inspector panel that outlives a frame: whether it is open,
/// the active tab and the anti-aliasing choice.
pub struct Inspector {
    pub open: bool,
    pub tab: InspectorTab,
    pub samples: NumSamples,
}

impl Inspector {
    /// An open inspector on the global tab, anti-aliasing off.
    pub fn new() -> (r: Inspector)
        ensures
            r.open,
            r.tab == InspectorTab::Global,
            r.samples == NumSamples::One,
    {
        Inspector { open: true, tab: InspectorTab::Global, samples: NumSamples::One }
    }

    /// Whether the panel is shown.
    pub fn is_open(&self) -> (r: bool)
        ensures
            r == self.open,
    {
        self.open
    }

    /// Shows or hides the panel.
    pub fn set_open(&mut self, open: bool)
        ensures
            *final(self) == (Inspector { open, ..*old(self) }),
    {
        self.open = open;
    }

    /// The currently active top-level tab.
    pub fn tab(&self) -> (r: InspectorTab)
        ensures
            r == self.tab,
    {
        self.tab
    }

    /// Switches the active top-level tab. A scene tab whose scene is absent or
    /// empty is hidden, and selecting it falls back to [`InspectorTab::Global`] on
    /// the next frame.
    pub fn set_tab(&mut self, tab: InspectorTab)
        ensures
            *final(self) == (Inspector { tab, ..*old(self) }),
    {
        self.tab = tab;
    }

    /// At the start of a frame, falls back to the global tab when the active
    /// tab is a scene tab that is not shown (`show_3d`, `show_2d`: whether each
    /// scene is present and non-empty).
    pub fn resolve_tab(&mut self, show_3d: bool, show_2d: bool)
        ensures
            final(self).tab == (if (old(self).tab == InspectorTab::Scene3d && !show_3d) || (old(
                self,
            ).tab == InspectorTab::Scene2d && !show_2d) {
                InspectorTab::Global
            } else {
                old(self).tab
            }),
            final(self).open == old(self).open,
            final(self).samples == old(self).samples,
    {
        let hide = match self.tab {
            InspectorTab::Scene3d => !show_3d,
            InspectorTab::Scene2d => !show_2d,
            InspectorTab::Global => false,
        };
        if hide {
            self.tab = InspectorTab::Global;
        }
    }

    /// Takes the anti-aliasing choice from the window's current sample count:
    /// four samples shows as 4×, anything else as off.
    pub fn sync_samples(&mut self, current: u32)
        ensures
            final(self).samples == (if current == 4 { NumSamples::Four } else { NumSamples::One }),
            final(self).open == old(self).open,
            final(self).tab == old(self).tab,
    {
        self.samples = match NumSamples::from_u32(current) {
            Some(s) => s,
            None => NumSamples::One,
        };
    }
}

/// The tab always shows after [`Inspector::resolve_tab`]: the global tab, or a
/// scene tab whose scene is shown.
pub proof fn lemma_resolved_tab_shown(tab: InspectorTab, show_3d: bool, show_2d: bool)
    ensures
        ({
            let t = if (tab == InspectorTab::Scene3d && !show_3d) || (tab == InspectorTab::Scene2d
                && !show_2d) {
                InspectorTab::Global
            } else {
                tab
            };
            &&& t == InspectorTab::Scene3d ==> show_3d
            &&& t == InspectorTab::Scene2d ==> show_2d
            &&& (t == tab || t == InspectorTab::Global)
        }),
{
}

/// Whether a scene root is empty (no object and no children), which hides its
/// tab. A scene with lights or shapes has child nodes, so it is not empty.
pub fn node_is_empty(has_object: bool, child_count: usize) -> (r: bool)
    ensures
        r == (!has_object && child_count == 0),
{
    !has_object && child_count == 0
}

/// 2D analogue of [`node_is_empty`].
pub fn node_is_empty_2d(has_object: bool, child_count: usize) -> (r: bool)
    ensures
        r == (!has_object && child_count == 0),
{
    !has_object && child_count == 0
}

/// Whether the global sample count must be changed to `chosen` when the window
/// renders with `current` samples.
pub fn samples_need_update(chosen: NumSamples, current: u32) -> (r: bool)
    ensures
        r == (chosen.spec_count() != current),
{
    let n = chosen.count();
    let wanted = if n < 1 { 1 } else { n };
    wanted != current
}

/// The label of an anti-aliasing choice.
pub fn msaa_label(s: NumSamples) -> (r: &'static str)
    ensures
        r@ == (match s {
            NumSamples::One => "Off"@,
            NumSamples::Four => "4×"@,
        }),
{
    match s {
        NumSamples::One => "Off",
        NumSamples::Four => "4×",
    }
}

/// The tonemapping operator of the HDR resolve pass.
#[derive(Debug, Clone, Copy, PartialEq, Eq, Structural)]
pub enum Tonemap {
    /// No tonemapping: the HDR values are clamped.
    Disabled,
    Aces,
    Reinhard,
    AgX,
    Neutral,
    TonyMcMapface,
}

/// The label of a tonemapping operator.
pub fn tonemap_label(t: Tonemap) -> (r: &'static str)
    ensures
        r@ == (match t {
            Tonemap::Disabled => "None"@,
            Tonemap::Aces => "ACES"@,
            Tonemap::Reinhard => "Reinhard"@,
            Tonemap::AgX => "AgX"@,
            Tonemap::Neutral => "Neutral"@,
            Tonemap::TonyMcMapface => "Tony McMapface"@,
        }),
{
    match t {
        Tonemap::Disabled => "None",
        Tonemap::Aces => "ACES",
        Tonemap::Reinhard => "Reinhard",
        Tonemap::AgX => "AgX",
        Tonemap::Neutral => "Neutral",
        Tonemap::TonyMcMapface => "Tony McMapface",
    }
}

/// Which image map of the selected object the inspector's loader writes to.
#[derive(Debug, Clone, Copy, PartialEq, Eq, Structural)]
pub enum MapTarget {
    BaseColor,
    Normal,
    MetallicRoughness,
    Ao,
    Emissive,
    Height,
}

/// The label of a map target.
pub open spec fn map_target_label(t: MapTarget) -> Seq<char> {
    match t {
        MapTarget::BaseColor => "Base color"@,
        MapTarget::Normal => "Normal"@,
        MapTarget::MetallicRoughness => "Metallic / roughness"@,
        MapTarget::Ao => "Ambient occlusion"@,
        MapTarget::Emissive => "Emissive"@,
        MapTarget::Height => "Height (relief)"@,
    }
}

impl MapTarget {
    /// The label of the target.
    pub fn label(self) -> (r: &'static str)
        ensures
            r@ == map_target_label(self),
    {
        match self {
            MapTarget::BaseColor => "Base color",
            MapTarget::Normal => "Normal",
            MapTarget::MetallicRoughness => "Metallic / roughness",
            MapTarget::Ao => "Ambient occlusion",
            MapTarget::Emissive => "Emissive",
            MapTarget::Height => "Height (relief)",
        }
    }

    /// Every target, in the order the loader offers them.
    pub fn all() -> (r: Vec<MapTarget>)
        ensures
            r@ == seq![
                MapTarget::BaseColor,
                MapTarget::Normal,
                MapTarget::MetallicRoughness,
                MapTarget::Ao,
                MapTarget::Emissive,
                MapTarget::Height,
            ],
    {
        let r = vec![
            MapTarget::BaseColor,
            MapTarget::Normal,
            MapTarget::MetallicRoughness,
            MapTarget::Ao,
            MapTarget::Emissive,
            MapTarget::Height,
        ];
        assert(r@ =~= seq![
            MapTarget::BaseColor,
            MapTarget::Normal,
            MapTarget::MetallicRoughness,
            MapTarget::Ao,
            MapTarget::Emissive,
            MapTarget::Height,
        ]);
        r
    }
}

/// Whether an image map is loaded from the path `p`: only a non-empty path
/// naming an existing file (`is_file`) is; the result is what the loader
/// reports.
pub fn apply_map(p: &str, is_file: bool) -> (r: bool)
    ensures
        r == (p@.len() > 0 && is_file),
{
    !p.is_empty() && is_file
}

/// Whether a 2D base-color texture is loaded from the path `p`: only a
/// non-empty path naming an existing file (`is_file`) is.
pub fn apply_texture_2d(p: &str, is_file: bool) -> (r: bool)
    ensures
        r == (p@.len() > 0 && is_file),
{
    !p.is_empty() && is_file
}

/// The status line the loader shows after trying to load `p` into `target`.
pub fn load_map_status(ok: bool, p: &str, target: MapTarget) -> (r: String)
    ensures
        r@ == (if ok {
            "loaded "@ + p@ + " as "@ + map_target_label(target)
        } else {
            "not found: "@ + p@
        }),
{
    if ok {
        let mut s = String::from_str("loaded ");
        s.append(p);
        s.append(" as ");
        s.append(target.label());
        s
    } else {
        let mut s = String::from_str("not found: ");
        s.append(p);
        s
    }
}

/// Where an edit of the selected node goes.
#[derive(Debug, Clone, Copy, PartialEq, Eq, Structural)]
pub enum EditScope {
    /// The node's own object.
    Object,
    /// Every object of the node's subtree (a group is selected).
    Subtree,
}

/// Where an edit of a 2D node goes: its own object, or every object of its
/// subtree when a group is selected.
pub fn apply2d(recursive: bool) -> (r: EditScope)
    ensures
        r == (if recursive { EditScope::Subtree } else { EditScope::Object }),
{
    if recursive {
        EditScope::Subtree
    } else {
        EditScope::Object
    }
}

/// The node whose object the editor reads a representative value from, for
/// the node `node` of the scene graph `g`: its own object; or, for a group
/// (`recursive`), the first object a depth-first walk of its subtree meets,
/// hidden or not. `None` when there is no such object. The value is read once,
/// from the object of the node returned.
pub fn mat_get(g: &SceneGraph, node: usize, recursive: bool) -> (r: Option<usize>)
    requires
        g.wf(),
        node < g.len(),
    ensures
        r == (if recursive {
            let l = g.listing(node as int, false, g.depth_fuel(node as int));
            if l.len() > 0 {
                Some(l[0])
            } else {
                None::<usize>
            }
        } else if g.object(node as int) is Some {
            Some(node)
        } else {
            None::<usize>
        }),
{
    if recursive {
        let objects = g.objects_in_subtree(node);
        if objects.len() > 0 {
            Some(objects[0])
        } else {
            None
        }
    } else if g.has_object(node) {
        Some(node)
    } else {
        None
    }
}

/// 2D analogue of [`mat_get`], on the 2D scene graph.
pub fn mat_get_2d(g: &SceneGraph, node: usize, recursive: bool) -> (r: Option<usize>)
    requires
        g.wf(),
        node < g.len(),
    ensures
        r == (if recursive {
            let l = g.listing(node as int, false, g.depth_fuel(node as int));
            if l.len() > 0 {
                Some(l[0])
            } else {
                None::<usize>
            }
        } else if g.object(node as int) is Some {
            Some(node)
        } else {
            None::<usize>
        }),
{
    mat_get(g, node, recursive)
}

} // verus!
