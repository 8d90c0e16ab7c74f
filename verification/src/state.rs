use vstd::prelude::*;

verus! {

/// The camera angle, exactly: its value is `num / den`. A cursor at
/// horizontal framebuffer pixel `x` in a framebuffer `width` pixels wide
/// maps to the angle (x / width) * 8, held here as the exact fraction
/// 8*x / width; the rendering layer divides out at the GPU boundary.
#[derive(Clone, Copy, PartialEq, Eq, Structural, Debug)]
pub struct Angle {
    pub num: u64,
    pub den: u64,
}

impl Angle {
    /// An angle is well formed when its denominator is positive, which
    /// keeps its value finite.
    pub open spec fn wf(self) -> bool {
        self.den > 0
    }

    /// The initial angle, zero.
    pub fn zero() -> (a: Angle)
        ensures
            a == (Angle { num: 0, den: 1 }),
            a.wf(),
    {
        Angle { num: 0, den: 1 }
    }
}

/// The angle a cursor at horizontal pixel `x` maps to in a framebuffer
/// `width` pixels wide: (x / width) * 8. No clamping is applied when `x`
/// falls outside [0, width].
pub open spec fn angle_of_cursor(x: u32, width: u32) -> Angle {
    Angle { num: (8 * x) as u64, den: width as u64 }
}

/// One platform event, as the loop sees it: a close request, a cursor
/// move to a framebuffer pixel position, or anything else (ignored).
#[derive(Clone, Copy, PartialEq, Eq, Structural, Debug)]
pub enum Event {
    CloseRequested,
    CursorMoved { x: u32, y: u32 },
    Other,
}

/// The loop's phase: it runs until a close request, then terminates.
#[derive(Clone, Copy, PartialEq, Eq, Structural, Debug)]
pub enum Phase {
    Running,
    Terminating,
}

/// The loop's whole mutable state: its phase and the camera angle.
#[derive(Clone, Copy, PartialEq, Eq, Structural, Debug)]
pub struct RenderState {
    pub phase: Phase,
    pub cam_angle: Angle,
}

/// The inputs one draw call binds: the framebuffer resolution and the
/// camera angle committed by the previous iteration's input step.
#[derive(Clone, Copy, PartialEq, Eq, Structural, Debug)]
pub struct FrameInputs {
    pub width: u32,
    pub height: u32,
    pub angle: Angle,
}

impl RenderState {
    /// A state is well formed when its angle is.
    pub open spec fn wf(self) -> bool {
        self.cam_angle.wf()
    }

    /// The state before the first iteration: running, angle zero.
    pub open spec fn init_spec() -> RenderState {
        RenderState { phase: Phase::Running, cam_angle: Angle { num: 0, den: 1 } }
    }

    pub fn init() -> (s: RenderState)
        ensures
            s == RenderState::init_spec(),
            s.wf(),
    {
        RenderState { phase: Phase::Running, cam_angle: Angle { num: 0, den: 1 } }
    }

    /// The input step: consume one event. A close request moves the loop
    /// to Terminating; a cursor move recomputes the angle from the
    /// horizontal position alone; every other event changes nothing.
    /// Once Terminating, the loop has exited and no event changes the
    /// state further.
    pub open spec fn step_spec(self, width: u32, e: Event) -> RenderState {
        if self.phase is Terminating {
            self
        } else {
            match e {
                Event::CloseRequested => RenderState {
                    phase: Phase::Terminating,
                    cam_angle: self.cam_angle,
                },
                Event::CursorMoved { x, y: _ } => RenderState {
                    phase: Phase::Running,
                    cam_angle: angle_of_cursor(x, width),
                },
                Event::Other => self,
            }
        }
    }

    /// Handles one event, as the input step of a loop iteration.
    pub fn step(&self, width: u32, e: Event) -> (next: RenderState)
        requires
            width > 0,
            self.wf(),
        ensures
            next == self.step_spec(width, e),
            next.wf(),
            next.phase == next_phase(self.phase, e),
            // A cursor move commits exactly (x / width) * 8, whatever the
            // vertical position.
            e matches Event::CursorMoved { x, .. } ==> next.cam_angle == (
                if self.phase is Running {
                    Angle { num: (8 * x) as u64, den: width as u64 }
                } else {
                    self.cam_angle
                }
            ),
            // Every other event leaves the angle untouched.
            !(e is CursorMoved) ==> next.cam_angle == self.cam_angle,
    {
        match self.phase {
            Phase::Terminating => *self,
            Phase::Running => match e {
                Event::CloseRequested => RenderState {
                    phase: Phase::Terminating,
                    cam_angle: self.cam_angle,
                },
                Event::CursorMoved { x, y: _ } => {
                    let num: u64 = 8 * (x as u64);
                    RenderState {
                        phase: Phase::Running,
                        cam_angle: Angle { num, den: width as u64 },
                    }
                },
                Event::Other => *self,
            },
        }
    }

    /// True while the loop should keep iterating: render one frame, then
    /// consume one event. False once a close request was handled.
    pub fn should_continue(&self) -> (r: bool)
        ensures
            r <==> self.phase is Running,
    {
        match self.phase {
            Phase::Running => true,
            Phase::Terminating => false,
        }
    }

    /// The uniforms for the current frame's draw call: the framebuffer
    /// resolution as queried this iteration, and the most recently
    /// committed camera angle.
    pub fn frame_inputs(&self, width: u32, height: u32) -> (u: FrameInputs)
        ensures
            u.width == width,
            u.height == height,
            u.angle == self.cam_angle,
    {
        FrameInputs { width, height, angle: self.cam_angle }
    }
}

/// The phase after one event: a close request terminates, nothing else
/// does, and Terminating is never left.
pub open spec fn next_phase(p: Phase, e: Event) -> Phase {
    if p is Terminating || e is CloseRequested {
        Phase::Terminating
    } else {
        Phase::Running
    }
}

/// How many frames the loop renders while consuming `events`, starting in
/// phase `p`: each iteration first draws one frame, then handles one
/// event; once Terminating, the loop has exited and draws nothing more.
pub open spec fn frames_rendered(p: Phase, events: Seq<Event>) -> nat
    decreases events.len(),
{
    if p is Terminating || events.len() == 0 {
        0
    } else {
        1 + frames_rendered(next_phase(p, events[0]), events.drop_first())
    }
}

/// Law: the committed angle depends on the cursor's horizontal position
/// alone; two cursor moves to the same x and different y leave the loop
/// in the same state.
pub proof fn lemma_cursor_vertical_ignored(
    s: RenderState,
    width: u32,
    x: u32,
    y1: u32,
    y2: u32,
)
    ensures
        s.step_spec(width, Event::CursorMoved { x, y: y1 })
            == s.step_spec(width, Event::CursorMoved { x, y: y2 }),
{
}

/// Law: every event other than a cursor move leaves the angle unchanged.
pub proof fn lemma_only_cursor_moves_angle(s: RenderState, width: u32, e: Event)
    requires
        !(e is CursorMoved),
    ensures
        s.step_spec(width, e).cam_angle == s.cam_angle,
{
}

/// Law: a repeated close request has no effect beyond the first; handling
/// it twice ends in exactly the state the first one produced.
pub proof fn lemma_close_request_idempotent(s: RenderState, w1: u32, w2: u32)
    ensures
        s.step_spec(w1, Event::CloseRequested).step_spec(w2, Event::CloseRequested)
            == s.step_spec(w1, Event::CloseRequested),
{
}

/// Law: once Terminating, the loop renders nothing more.
pub proof fn lemma_terminating_renders_nothing(events: Seq<Event>)
    ensures
        frames_rendered(Phase::Terminating, events) == 0,
{
}

/// Law: a close request stops rendering. If `events[i]` is a close
/// request, at most `i + 1` frames are rendered over the whole run: the
/// frame drawn before that event is handled is the last one.
pub proof fn lemma_close_stops_rendering(p: Phase, events: Seq<Event>, i: int)
    requires
        0 <= i < events.len(),
        events[i] is CloseRequested,
    ensures
        frames_rendered(p, events) <= i + 1,
    decreases i,
{
    if p is Terminating {
    } else if i == 0 {
        assert(next_phase(p, events[0]) is Terminating);
        assert(frames_rendered(next_phase(p, events[0]), events.drop_first()) == 0);
    } else {
        assert(events.drop_first()[i - 1] == events[i]);
        lemma_close_stops_rendering(next_phase(p, events[0]), events.drop_first(), i - 1);
    }
}

} // verus!
