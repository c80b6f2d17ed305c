use vstd::prelude::*;
use crate::event::{Action, Key, WindowEvent};
use crate::gl_state::{FramebuffersManager, GlCall, RenderTarget, select_calls, selected};

verus! {

/// What the window does with a polled event after the user's handler saw it.
#[derive(Debug, Clone, Copy)]
pub struct Dispatch {
    /// Close the window.
    pub close: bool,
    /// Resize the viewport to this framebuffer size.
    pub viewport: Option<(u32, u32)>,
    /// Hand the event on to the camera.
    pub to_camera: bool,
}

/// The window's own handling of an event that the user's handler let through
/// (`handled`): releasing Escape closes the window and goes no further; a new
/// framebuffer size resizes the viewport; every other let-through event, and
/// the resize, reaches the camera. An event the handler kept does nothing.
pub fn dispatch_event(event: WindowEvent, handled: bool) -> (r: Dispatch)
    ensures
        r == (if !handled {
            Dispatch { close: false, viewport: None, to_camera: false }
        } else {
            match event {
                WindowEvent::Key(Key::Escape, Action::Release, _) => Dispatch {
                    close: true,
                    viewport: None,
                    to_camera: false,
                },
                WindowEvent::FramebufferSize(w, h) => Dispatch {
                    close: false,
                    viewport: Some((w, h)),
                    to_camera: true,
                },
                _ => Dispatch { close: false, viewport: None, to_camera: true },
            }
        }),
{
    if !handled {
        return Dispatch { close: false, viewport: None, to_camera: false };
    }
    match event {
        WindowEvent::Key(Key::Escape, Action::Release, _) => Dispatch {
            close: true,
            viewport: None,
            to_camera: false,
        },
        WindowEvent::FramebufferSize(w, h) => Dispatch { close: false, viewport: Some((w, h)), to_camera: true },
        _ => Dispatch { close: false, viewport: None, to_camera: true },
    }
}

/// Where a frame is drawn: the post-processing target when there is one, the
/// screen otherwise.
pub open spec fn frame_target(post_target: Option<RenderTarget>) -> RenderTarget {
    match post_target {
        Some(t) => t,
        None => RenderTarget::Screen,
    }
}

/// Selects where the scene of a frame is drawn, returning the calls to make.
pub fn begin_frame(fbm: &mut FramebuffersManager, post_target: Option<RenderTarget>) -> (calls: Vec<GlCall>)
    ensures
        *final(fbm) == selected(*old(fbm), frame_target(post_target)),
        calls@ == select_calls(*old(fbm), frame_target(post_target)),
{
    let target = match post_target {
        Some(t) => t,
        None => RenderTarget::Screen,
    };
    fbm.select(target)
}

/// After the scene of a frame drawn for post-processing: switches back to the
/// screen, which the effect draws into, returning the calls to make, and
/// whether filled polygons must be restored first (the scene was drawn in
/// wireframe).
pub fn end_scene_for_post(fbm: &mut FramebuffersManager, wireframe: bool) -> (r: (Vec<GlCall>, bool))
    ensures
        *final(fbm) == selected(*old(fbm), RenderTarget::Screen),
        r.0@ == select_calls(*old(fbm), RenderTarget::Screen),
        r.1 == wireframe,
{
    let calls = fbm.select(RenderTarget::Screen);
    (calls, wireframe)
}

} // verus!
