use vstd::prelude::*;

verus! {

/// A render target: the default (window) framebuffer, or an off-screen
/// framebuffer with the given color and depth textures attached.
#[derive(Debug, Clone, Copy, PartialEq, Eq, Structural)]
pub enum RenderTarget {
    Screen,
    Offscreen(u32, u32),
}

/// A call the graphics driver must make to carry out a selection.
#[derive(Debug, Clone, Copy, PartialEq, Eq, Structural)]
pub enum GlCall {
    /// Bind the framebuffer with this id (0 is the window's).
    BindFramebuffer(u32),
    /// Attach this texture as the color buffer of the bound framebuffer.
    AttachColor(u32),
    /// Attach this texture as the depth buffer of the bound framebuffer.
    AttachDepth(u32),
    /// Make this shader program the current one.
    UseProgram(u32),
}

/// A framebuffer manager: switches between an off-screen framebuffer and the
/// default (window) framebuffer, and remembers what is bound and attached so
/// that no call is made to select what is already selected.
pub struct FramebuffersManager {
    pub curr_fbo: u32,
    pub curr_color: u32,
    pub curr_depth: u32,
    pub fbo: u32,
}

/// The state after selecting `target` from `m`: the window framebuffer keeps
/// the attachments of the off-screen one; the off-screen one is bound with the
/// target's textures attached.
pub open spec fn selected(m: FramebuffersManager, target: RenderTarget) -> FramebuffersManager {
    match target {
        RenderTarget::Screen => FramebuffersManager { curr_fbo: 0, ..m },
        RenderTarget::Offscreen(color, depth) => FramebuffersManager {
            curr_fbo: m.fbo,
            curr_color: color,
            curr_depth: depth,
            ..m
        },
    }
}

/// The calls that select `target` from `m`: a bind when the framebuffer
/// changes, then, off-screen, an attachment for each texture that changes.
pub open spec fn select_calls(m: FramebuffersManager, target: RenderTarget) -> Seq<GlCall> {
    match target {
        RenderTarget::Screen => if m.curr_fbo != 0 {
            seq![GlCall::BindFramebuffer(0)]
        } else {
            Seq::empty()
        },
        RenderTarget::Offscreen(color, depth) => {
            let bind = if m.curr_fbo != m.fbo {
                seq![GlCall::BindFramebuffer(m.fbo)]
            } else {
                Seq::empty()
            };
            let attach_color = if m.curr_color != color {
                seq![GlCall::AttachColor(color)]
            } else {
                Seq::empty()
            };
            let attach_depth = if m.curr_depth != depth {
                seq![GlCall::AttachDepth(depth)]
            } else {
                Seq::empty()
            };
            bind + attach_color + attach_depth
        },
    }
}

impl FramebuffersManager {
    /// A manager of the off-screen framebuffer `fbo`, with the window's
    /// framebuffer bound; the call makes sure it is.
    pub fn new(fbo: u32) -> (r: (FramebuffersManager, GlCall))
        ensures
            r.0 == (FramebuffersManager { curr_fbo: 0, curr_color: 0, curr_depth: 0, fbo }),
            r.1 == GlCall::BindFramebuffer(0),
    {
        (FramebuffersManager { curr_fbo: 0, curr_color: 0, curr_depth: 0, fbo }, GlCall::BindFramebuffer(0))
    }

    fn do_select(&mut self, fbo: u32, calls: &mut Vec<GlCall>)
        ensures
            final(self).curr_fbo == fbo,
            final(self).curr_color == old(self).curr_color,
            final(self).curr_depth == old(self).curr_depth,
            final(self).fbo == old(self).fbo,
            final(calls)@ == old(calls)@ + (if old(self).curr_fbo != fbo {
                seq![GlCall::BindFramebuffer(fbo)]
            } else {
                Seq::empty()
            }),
    {
        if self.curr_fbo != fbo {
            calls.push(GlCall::BindFramebuffer(fbo));
            self.curr_fbo = fbo;
        } else {
            assert(calls@ =~= calls@ + Seq::<GlCall>::empty());
        }
    }

    /// Selects a render target, returning the calls the driver must make.
    pub fn select(&mut self, target: RenderTarget) -> (calls: Vec<GlCall>)
        ensures
            *final(self) == selected(*old(self), target),
            calls@ == select_calls(*old(self), target),
    {
        let mut calls: Vec<GlCall> = Vec::new();
        match target {
            RenderTarget::Screen => {
                self.do_select(0, &mut calls);
            },
            RenderTarget::Offscreen(color, depth) => {
                let fbo = self.fbo;
                self.do_select(fbo, &mut calls);
                if self.curr_color != color {
                    calls.push(GlCall::AttachColor(color));
                    self.curr_color = color;
                }
                if self.curr_depth != depth {
                    calls.push(GlCall::AttachDepth(depth));
                    self.curr_depth = depth;
                }
            },
        }
        assert(calls@ =~= select_calls(*old(self), target));
        calls
    }
}

/// Selecting a target a second time makes no call and changes nothing.
pub proof fn lemma_select_idempotent(m: FramebuffersManager, target: RenderTarget)
    ensures
        selected(selected(m, target), target) == selected(m, target),
        select_calls(selected(m, target), target).len() == 0,
{
}

/// The shaders a manager knows.
#[derive(Debug, Clone, Copy)]
pub enum Shader {
    ObjectShader,
    LinesShader,
    /// A user-defined shader, which the manager does not track.
    Other,
}

impl PartialEq for Shader {
    fn eq(&self, other: &Shader) -> (r: bool) {
        match (self, other) {
            (Shader::ObjectShader, Shader::ObjectShader) => true,
            (Shader::LinesShader, Shader::LinesShader) => true,
            _ => false,
        }
    }
}

impl vstd::std_specs::cmp::PartialEqSpecImpl for Shader {
    open spec fn obeys_eq_spec() -> bool {
        true
    }

    open spec fn eq_spec(&self, other: &Shader) -> bool {
        match (self, other) {
            (Shader::ObjectShader, Shader::ObjectShader) => true,
            (Shader::LinesShader, Shader::LinesShader) => true,
            _ => false,
        }
    }
}

/// The shaders manager: the programs of the built-in shaders and the shader
/// last selected.
pub struct ShadersManager {
    pub object_program: u32,
    pub lines_program: u32,
    pub shader: Shader,
}

impl ShadersManager {
    /// A manager of the given built-in programs, with the object shader
    /// selected; the call makes its program current.
    pub fn new(object_program: u32, lines_program: u32) -> (r: (ShadersManager, GlCall))
        ensures
            r.0 == (ShadersManager { object_program, lines_program, shader: Shader::ObjectShader }),
            r.1 == GlCall::UseProgram(object_program),
    {
        (
            ShadersManager { object_program, lines_program, shader: Shader::ObjectShader },
            GlCall::UseProgram(object_program),
        )
    }

    /// Selects a shader, returning the call that makes its program current: none
    /// for a user-defined shader, whose program its owner binds.
    pub fn select(&mut self, shader: Shader) -> (r: Option<GlCall>)
        ensures
            final(self).shader == shader,
            final(self).object_program == old(self).object_program,
            final(self).lines_program == old(self).lines_program,
            r == match shader {
                Shader::ObjectShader => Some(GlCall::UseProgram(old(self).object_program)),
                Shader::LinesShader => Some(GlCall::UseProgram(old(self).lines_program)),
                Shader::Other => None,
            },
    {
        self.shader = shader;
        match shader {
            Shader::ObjectShader => Some(GlCall::UseProgram(self.object_program)),
            Shader::LinesShader => Some(GlCall::UseProgram(self.lines_program)),
            Shader::Other => None,
        }
    }
}

} // verus!
