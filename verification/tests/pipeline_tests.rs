use kiss3d::event::{Action, Key, Modifiers, WindowEvent};
use kiss3d::gl_state::{FramebuffersManager, GlCall, RenderTarget, Shader, ShadersManager};
use kiss3d::render_plan::{
    frame_plan, runs_prepass, FrameSettings,
    frame_sleep_ms, glass_layers, max_ms_per_frame, post_chain, tonemap_output, AcquireAction,
    FrameAcquirer, PingPong, PostOutput,
};
use kiss3d::window_loop::{begin_frame, dispatch_event, end_scene_for_post};

#[test]
fn framerate_limit() {
    assert_eq!(max_ms_per_frame(Some(60)), Some(16));
    assert_eq!(max_ms_per_frame(Some(1000)), Some(1));
    assert_eq!(max_ms_per_frame(Some(2000)), Some(0));
    assert_eq!(max_ms_per_frame(None), None);
}

#[test]
fn frame_sleep() {
    assert_eq!(frame_sleep_ms(None, 0, 5_000_000), 0);
    assert_eq!(frame_sleep_ms(Some(16), 0, 5_000_000), 11);
    assert_eq!(frame_sleep_ms(Some(16), 0, 5_999_999), 11);
    assert_eq!(frame_sleep_ms(Some(16), 1_000_000, 17_000_000), 0);
    assert_eq!(frame_sleep_ms(Some(16), 0, 40_000_000), 0);
}

#[test]
fn glass_layers_split() {
    // farthest objects share the first layer, the nearest get one each
    assert_eq!(glass_layers(3, 5), vec![(0, 3), (3, 4), (4, 5)]);
    assert_eq!(glass_layers(1, 4), vec![(0, 4)]);
    assert_eq!(glass_layers(0, 4), vec![(0, 4)]);
    assert_eq!(glass_layers(10, 3), vec![(0, 1), (1, 2), (2, 3)]);
}

#[test]
fn post_chain_ping_pongs() {
    assert_eq!(tonemap_output(0), PostOutput::Frame);
    assert_eq!(tonemap_output(3), PostOutput::Target(PingPong::A));
    assert_eq!(
        post_chain(3),
        vec![
            (PingPong::A, PostOutput::Target(PingPong::B)),
            (PingPong::B, PostOutput::Target(PingPong::A)),
            (PingPong::A, PostOutput::Frame),
        ]
    );
    assert_eq!(post_chain(1), vec![(PingPong::A, PostOutput::Frame)]);
    assert!(post_chain(0).is_empty());
}

#[test]
fn frame_acquisition() {
    let mut a = FrameAcquirer::new();
    assert_eq!(a.on_attempt(false, false, false), AcquireAction::Retry);
    assert_eq!(a.on_attempt(false, true, false), AcquireAction::Skip);
    assert_eq!(a.on_attempt(false, false, true), AcquireAction::Skip);
    assert!(a.first_frame);
    assert_eq!(a.on_attempt(true, false, false), AcquireAction::Render);
    assert!(!a.first_frame);
    // once a frame was acquired, failures skip at once
    assert_eq!(a.on_attempt(false, false, false), AcquireAction::Skip);
}

#[test]
fn framebuffer_selection_is_cached() {
    let (mut m, call) = FramebuffersManager::new(7);
    assert_eq!(call, GlCall::BindFramebuffer(0));
    assert!(m.select(RenderTarget::Screen).is_empty());
    assert_eq!(
        m.select(RenderTarget::Offscreen(3, 4)),
        vec![GlCall::BindFramebuffer(7), GlCall::AttachColor(3), GlCall::AttachDepth(4)]
    );
    assert!(m.select(RenderTarget::Offscreen(3, 4)).is_empty());
    assert_eq!(m.select(RenderTarget::Offscreen(3, 5)), vec![GlCall::AttachDepth(5)]);
    assert_eq!(m.select(RenderTarget::Screen), vec![GlCall::BindFramebuffer(0)]);
    // the attachments survive a trip to the screen
    assert_eq!(m.select(RenderTarget::Offscreen(3, 5)), vec![GlCall::BindFramebuffer(7)]);
}

#[test]
fn shader_equality_and_selection() {
    assert!(Shader::ObjectShader == Shader::ObjectShader);
    assert!(Shader::LinesShader == Shader::LinesShader);
    assert!(Shader::ObjectShader != Shader::LinesShader);
    assert!(Shader::Other != Shader::Other);
    let (mut s, call) = ShadersManager::new(10, 20);
    assert_eq!(call, GlCall::UseProgram(10));
    assert_eq!(s.select(Shader::LinesShader), Some(GlCall::UseProgram(20)));
    assert_eq!(s.select(Shader::ObjectShader), Some(GlCall::UseProgram(10)));
    assert_eq!(s.select(Shader::Other), None);
}

#[test]
fn event_dispatch() {
    let m = Modifiers::empty();
    let d = dispatch_event(WindowEvent::Key(Key::Escape, Action::Release, m), true);
    assert!(d.close && !d.to_camera);
    let d = dispatch_event(WindowEvent::Key(Key::Escape, Action::Press, m), true);
    assert!(!d.close && d.to_camera);
    let d = dispatch_event(WindowEvent::FramebufferSize(3, 4), true);
    assert_eq!(d.viewport, Some((3, 4)));
    assert!(d.to_camera);
    let d = dispatch_event(WindowEvent::Key(Key::Escape, Action::Release, m), false);
    assert!(!d.close && !d.to_camera && d.viewport.is_none());
}

#[test]
fn frame_target_selection() {
    let (mut m, _) = FramebuffersManager::new(2);
    assert_eq!(
        begin_frame(&mut m, Some(RenderTarget::Offscreen(5, 6))),
        vec![GlCall::BindFramebuffer(2), GlCall::AttachColor(5), GlCall::AttachDepth(6)]
    );
    let (calls, restore_fill) = end_scene_for_post(&mut m, true);
    assert_eq!(calls, vec![GlCall::BindFramebuffer(0)]);
    assert!(restore_fill);
    assert!(begin_frame(&mut m, None).is_empty());
}

#[test]
fn frame_plans() {
    let base = FrameSettings {
        hidden: false,
        canvas_samples: 4,
        ssao_enabled: false,
        ssr_enabled: true,
        supports_clustered_lighting: false,
        dof_enabled: false,
        transmission_enabled: true,
        has_refractive_surfaces: false,
    };
    let p = frame_plan(base);
    assert_eq!(p.sample_count, 4);
    assert!(!p.ssr_active && !p.glass_active && !p.prepass && p.force_opaque);
    assert!(!runs_prepass(p, 0));
    let hidden = frame_plan(FrameSettings { hidden: true, has_refractive_surfaces: true, ..base });
    assert_eq!(hidden.sample_count, 1);
    assert!(hidden.offscreen && !hidden.force_opaque);
    assert!(hidden.glass_active && hidden.prepass);
    assert!(runs_prepass(hidden, 0));
    assert!(!runs_prepass(hidden, 1));
    let ssao = frame_plan(FrameSettings { ssao_enabled: true, ..base });
    assert!(ssao.prepass && ssao.bind_ao);
}
