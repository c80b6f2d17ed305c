use kiss3d::egui_input::{
    command_is_super, translate_key_to_egui, ui_modifiers, ui_pointer_button, EguiKey, HostPlatform,
    PassCounter, PointerEvent, TouchPointer, UiPassState, UiPointerButton,
};
use kiss3d::event::{Key, Modifiers, MouseButton, TouchAction};
use kiss3d::inspector::{
    apply2d, apply_map, apply_texture_2d, load_map_status, mat_get, mat_get_2d, msaa_label, node_is_empty,
    node_is_empty_2d, samples_need_update, tonemap_label, EditScope, Inspector, InspectorTab,
    MapTarget, Tonemap,
};
use kiss3d::scene_graph::SceneGraph;
use kiss3d::NumSamples;

#[test]
fn command_modifier() {
    assert!(command_is_super(HostPlatform::Native { macos: true }));
    assert!(!command_is_super(HostPlatform::Native { macos: false }));
    assert!(command_is_super(HostPlatform::Web { apple: true }));
    let mut m = Modifiers::empty();
    m.insert(Modifiers::super_());
    let mac = ui_modifiers(m, true);
    assert!(mac.mac_cmd && mac.command && !mac.ctrl);
    let other = ui_modifiers(m, false);
    assert!(!other.mac_cmd && !other.command);
    let ctrl = ui_modifiers(Modifiers::control(), false);
    assert!(ctrl.ctrl && ctrl.command && !ctrl.mac_cmd);
    let ctrl_mac = ui_modifiers(Modifiers::control(), true);
    assert!(ctrl_mac.ctrl && !ctrl_mac.command);
}

#[test]
fn pointer_buttons_and_keys() {
    assert_eq!(ui_pointer_button(MouseButton::Button1), Some(UiPointerButton::Primary));
    assert_eq!(ui_pointer_button(MouseButton::Button2), Some(UiPointerButton::Secondary));
    assert_eq!(ui_pointer_button(MouseButton::Button3), Some(UiPointerButton::Middle));
    assert_eq!(ui_pointer_button(MouseButton::Button4), None);
    assert_eq!(translate_key_to_egui(Key::Back), Some(EguiKey::Backspace));
    assert_eq!(translate_key_to_egui(Key::Return), Some(EguiKey::Enter));
    assert_eq!(translate_key_to_egui(Key::Left), Some(EguiKey::ArrowLeft));
    assert_eq!(translate_key_to_egui(Key::Q), Some(EguiKey::Q));
    assert_eq!(translate_key_to_egui(Key::F1), None);
}

#[test]
fn first_finger_drives_the_pointer() {
    let mut t = TouchPointer::new();
    assert_eq!(t.on_touch(5, TouchAction::Start), vec![PointerEvent::Moved, PointerEvent::Pressed]);
    assert_eq!(t.pointer_touch_id, Some(5));
    // a second finger makes no pointer event
    assert!(t.on_touch(6, TouchAction::Start).is_empty());
    assert!(t.on_touch(6, TouchAction::Move).is_empty());
    assert!(t.on_touch(6, TouchAction::End).is_empty());
    assert_eq!(t.on_touch(5, TouchAction::Move), vec![PointerEvent::Moved]);
    assert_eq!(t.on_touch(5, TouchAction::End), vec![PointerEvent::Released, PointerEvent::Gone]);
    assert_eq!(t.pointer_touch_id, None);
    t.on_touch(7, TouchAction::Start);
    assert_eq!(t.on_touch(7, TouchAction::Cancel), vec![PointerEvent::Gone]);
    assert_eq!(t.pointer_touch_id, None);
}

#[test]
fn ui_passes_are_bounded() {
    let mut p = PassCounter::new(true, 2);
    assert!(p.rerun(true));
    assert_eq!(p.passes, 2);
    assert!(!p.rerun(true));
    let mut q = PassCounter::new(false, 4);
    assert!(!q.rerun(true));
    let mut r = PassCounter::new(true, 4);
    assert!(!r.rerun(false));
}

#[test]
fn inspector_tabs() {
    let mut i = Inspector::new();
    assert!(i.is_open());
    assert_eq!(i.tab(), InspectorTab::Global);
    i.set_tab(InspectorTab::Scene3d);
    i.resolve_tab(true, false);
    assert_eq!(i.tab(), InspectorTab::Scene3d);
    i.resolve_tab(false, true);
    assert_eq!(i.tab(), InspectorTab::Global);
    i.set_tab(InspectorTab::Scene2d);
    i.resolve_tab(true, false);
    assert_eq!(i.tab(), InspectorTab::Global);
    i.set_open(false);
    assert!(!i.is_open());
    i.sync_samples(4);
    assert_eq!(i.samples, NumSamples::Four);
    i.sync_samples(2);
    assert_eq!(i.samples, NumSamples::One);
}

#[test]
fn inspector_labels() {
    assert_eq!(msaa_label(NumSamples::One), "Off");
    assert_eq!(msaa_label(NumSamples::Four), "4×");
    assert_eq!(tonemap_label(Tonemap::TonyMcMapface), "Tony McMapface");
    assert_eq!(tonemap_label(Tonemap::Aces), "ACES");
    assert_eq!(tonemap_label(Tonemap::Disabled), "None");
    assert_eq!(MapTarget::Height.label(), "Height (relief)");
    assert_eq!(MapTarget::all().len(), 6);
    assert_eq!(MapTarget::all()[2], MapTarget::MetallicRoughness);
    assert_eq!(load_map_status(true, "n.png", MapTarget::Normal), "loaded n.png as Normal");
    assert_eq!(load_map_status(false, "x.png", MapTarget::Ao), "not found: x.png");
}

#[test]
fn inspector_helpers() {
    assert!(node_is_empty(false, 0));
    assert!(!node_is_empty(true, 0));
    assert!(!node_is_empty(false, 2));
    assert!(node_is_empty_2d(false, 0));
    assert!(!apply_map("", true));
    assert!(!apply_map("a.png", false));
    assert!(apply_map("a.png", true));
    assert!(apply_texture_2d("b.png", true));
    assert!(!apply_texture_2d("", true));
    assert!(samples_need_update(NumSamples::Four, 1));
    assert!(!samples_need_update(NumSamples::One, 1));
    assert_eq!(apply2d(true), EditScope::Subtree);
    assert_eq!(apply2d(false), EditScope::Object);
    let mut g = SceneGraph::new();
    let group = g.new_node(None);
    let first = g.add_object(group, Some(1));
    g.add_object(group, Some(2));
    let empty = g.add_group(group);
    assert_eq!(mat_get_2d(&g, group, true), Some(first));
    assert_eq!(mat_get_2d(&g, group, false), None);
    assert_eq!(mat_get_2d(&g, first, false), Some(first));
    assert_eq!(mat_get_2d(&g, empty, true), None);
}

#[test]
fn ui_events_reach_the_next_pass_once() {
    let mut s: UiPassState<u32> = UiPassState::new();
    s.feed(1);
    s.feed(2);
    assert_eq!(s.open_pass(), Some(vec![1, 2]));
    // a second UI call in the same frame shares the pass
    assert_eq!(s.open_pass(), None);
    s.feed(3);
    assert!(s.finish_pass());
    assert!(!s.finish_pass());
    assert_eq!(s.open_pass(), Some(vec![3]));
}

#[test]
fn ui_passes_zero_max() {
    let mut p = PassCounter::new(true, 0);
    assert!(!p.rerun(true));
    assert_eq!(p.passes, 1);
}

#[test]
fn group_reads_the_first_object_of_its_subtree_even_if_hidden() {
    let mut g = SceneGraph::new();
    let root = g.new_node(None);
    let inner = g.add_group(root);
    let deep = g.add_object(inner, Some(7));
    let later = g.add_object(root, Some(8));
    g.set_visible(inner, false);
    assert_eq!(mat_get(&g, root, true), Some(deep));
    assert_eq!(mat_get(&g, later, true), Some(later));
    assert_eq!(mat_get(&g, root, false), None);
}
