use vstd::prelude::*;

verus! {

/// Vertices of the full-screen quad: two triangles.
pub const QUAD_VERTEX_COUNT: u32 = 6;

/// Bind group slot of the viewport-size uniform.
pub const VIEWPORT_BINDING: u32 = 0;

/// Bind group slot of the current frame's texture.
pub const CURRENT_BINDING: u32 = 1;

/// Bind group slot of the previous frame's texture.
pub const PREVIOUS_BINDING: u32 = 2;

/// Configured size of the output surface, in pixels.
#[derive(Debug, Clone, Copy, PartialEq, Eq, Structural)]
pub struct SurfaceSize {
    pub width: u32,
    pub height: u32,
}

/// A requested dimension raised to at least 1.
pub open spec fn clamp_dim(d: u32) -> u32 {
    if d < 1 { 1 } else { d }
}

/// The surface size configured for a requested size.
pub open spec fn clamped(width: u32, height: u32) -> SurfaceSize {
    SurfaceSize { width: clamp_dim(width), height: clamp_dim(height) }
}

/// The size a surface is configured with for a requested size: each
/// dimension is at least 1.
pub fn clamped_size(width: u32, height: u32) -> (r: SurfaceSize)
    ensures
        r == clamped(width, height),
        r.width >= 1 && r.height >= 1,
{
    let w: u32 = if width < 1 { 1 } else { width };
    let h: u32 = if height < 1 { 1 } else { height };
    SurfaceSize { width: w, height: h }
}

/// The four bytes of `x`, least significant first.
pub open spec fn le_bytes(x: u32) -> Seq<u8> {
    seq![
        (x % 256) as u8,
        ((x / 256) % 256) as u8,
        ((x / 65536) % 256) as u8,
        (x / 16777216) as u8,
    ]
}

/// The four bytes of `x`, most significant first.
pub open spec fn be_bytes(x: u32) -> Seq<u8> {
    seq![
        (x / 16777216) as u8,
        ((x / 65536) % 256) as u8,
        ((x / 256) % 256) as u8,
        (x % 256) as u8,
    ]
}

/// `r` is `a` then `b`, both in the same byte order, little- or big-endian.
pub open spec fn ne_pair(a: u32, b: u32, r: Seq<u8>) -> bool {
    r == le_bytes(a) + le_bytes(b) || r == be_bytes(a) + be_bytes(b)
}

/// Relies on bytemuck::cast_slice: the bytes of a slice of `u32` as they lie
/// in memory, four for each value in the machine's byte order.
#[verifier::external_body]
fn u32_pair_bytes(pair: &[u32; 2]) -> (r: Vec<u8>)
    ensures
        r@.len() == 8,
        ne_pair(pair[0], pair[1], r@),
{
    bytemuck::cast_slice::<u32, u8>(pair).to_vec()
}

/// Contents of the viewport-size uniform: the width, then the height, each
/// as a `u32` in the machine's byte order.
pub fn viewport_uniform(width: u32, height: u32) -> (r: Vec<u8>)
    ensures
        r@.len() == 8,
        ne_pair(width, height, r@),
{
    let pair: [u32; 2] = [width, height];
    u32_pair_bytes(&pair)
}

/// The one draw call of a redraw.
#[derive(Debug, Clone, Copy, PartialEq, Eq, Structural)]
pub struct DrawCall {
    pub vertex_count: u32,
    pub instance_count: u32,
    pub viewport_binding: u32,
    pub current_binding: u32,
    pub previous_binding: u32,
}

/// The full-screen quad, once, sampling the current and previous textures.
pub open spec fn quad_draw() -> DrawCall {
    DrawCall {
        vertex_count: QUAD_VERTEX_COUNT,
        instance_count: 1,
        viewport_binding: VIEWPORT_BINDING,
        current_binding: CURRENT_BINDING,
        previous_binding: PREVIOUS_BINDING,
    }
}

/// What the event loop delivers to the render loop.
#[derive(Debug, Clone, Copy, PartialEq, Eq, Structural)]
pub enum LoopEvent {
    /// The capture thread posted a wake-up: a new frame is in the textures.
    Wake,
    Resized { width: u32, height: u32 },
    RedrawRequested,
    CloseRequested,
    /// Any other event, which the render loop ignores.
    Other,
}

/// What the event loop must do in answer to an event.
#[derive(Debug, Clone, Copy, PartialEq, Eq, Structural)]
pub enum RenderAction {
    Nothing,
    /// Ask the windowing layer for a redraw.
    RequestRedraw,
    /// Configure the surface with `size`, then ask for a redraw.
    Reconfigure { size: SurfaceSize },
    /// Acquire the next surface image, issue `call`, submit and present.
    Draw { call: DrawCall },
    /// End the event loop and the process.
    Exit,
}

/// State of the render loop between events.
#[derive(Debug, Clone, Copy, PartialEq, Eq, Structural)]
pub struct RenderState {
    pub surface: SurfaceSize,
    /// A redraw has been asked for and not yet handled.
    pub redraw_pending: bool,
    pub closed: bool,
}

/// Each dimension of the surface is at least 1.
pub open spec fn render_wf(s: RenderState) -> bool {
    s.surface.width >= 1 && s.surface.height >= 1
}

/// The next state and the action for event `e` in state `s`. A wake-up asks
/// for a redraw only when none is pending, so that any number of them before
/// the next redraw give one redraw. A resize always reconfigures the surface
/// and asks for a redraw.
pub open spec fn next_state(s: RenderState, e: LoopEvent) -> (RenderState, RenderAction) {
    if s.closed {
        (s, RenderAction::Nothing)
    } else {
        match e {
            LoopEvent::Wake => if s.redraw_pending {
                (s, RenderAction::Nothing)
            } else {
                (RenderState { redraw_pending: true, ..s }, RenderAction::RequestRedraw)
            },
            LoopEvent::Resized { width, height } => (
                RenderState { surface: clamped(width, height), redraw_pending: true, ..s },
                RenderAction::Reconfigure { size: clamped(width, height) },
            ),
            LoopEvent::RedrawRequested => (
                RenderState { redraw_pending: false, ..s },
                RenderAction::Draw { call: quad_draw() },
            ),
            LoopEvent::CloseRequested => (
                RenderState { closed: true, ..s },
                RenderAction::Exit,
            ),
            LoopEvent::Other => (s, RenderAction::Nothing),
        }
    }
}

/// The state after `events`, in order, and the action given for each.
pub open spec fn run_events(s: RenderState, events: Seq<LoopEvent>) -> (
    RenderState,
    Seq<RenderAction>,
)
    decreases events.len(),
{
    if events.len() == 0 {
        (s, Seq::empty())
    } else {
        let before = run_events(s, events.drop_last());
        let step = next_state(before.0, events.last());
        (step.0, before.1.push(step.1))
    }
}

/// One action is given for each event.
pub proof fn lemma_one_action_per_event(s: RenderState, events: Seq<LoopEvent>)
    ensures
        run_events(s, events).1.len() == events.len(),
    decreases events.len(),
{
    if events.len() > 0 {
        lemma_one_action_per_event(s, events.drop_last());
    }
}

impl RenderState {
    /// The state for a surface first configured at `width` × `height`.
    pub fn new(width: u32, height: u32) -> (r: Self)
        ensures
            r.surface == clamped(width, height),
            !r.redraw_pending,
            !r.closed,
            render_wf(r),
    {
        RenderState { surface: clamped_size(width, height), redraw_pending: false, closed: false }
    }

    /// Handles one event and says what the event loop must do.
    pub fn handle(&mut self, event: LoopEvent) -> (r: RenderAction)
        ensures
            (*final(self), r) == next_state(*old(self), event),
    {
        if self.closed {
            return RenderAction::Nothing;
        }
        match event {
            LoopEvent::Wake => {
                if self.redraw_pending {
                    RenderAction::Nothing
                } else {
                    self.redraw_pending = true;
                    RenderAction::RequestRedraw
                }
            },
            LoopEvent::Resized { width, height } => {
                let size = clamped_size(width, height);
                self.surface = size;
                self.redraw_pending = true;
                RenderAction::Reconfigure { size }
            },
            LoopEvent::RedrawRequested => {
                self.redraw_pending = false;
                RenderAction::Draw {
                    call: DrawCall {
                        vertex_count: QUAD_VERTEX_COUNT,
                        instance_count: 1,
                        viewport_binding: VIEWPORT_BINDING,
                        current_binding: CURRENT_BINDING,
                        previous_binding: PREVIOUS_BINDING,
                    },
                }
            },
            LoopEvent::CloseRequested => {
                self.closed = true;
                RenderAction::Exit
            },
            LoopEvent::Other => RenderAction::Nothing,
        }
    }
}

/// Every event keeps each surface dimension at least 1.
pub proof fn lemma_surface_never_degenerate(s: RenderState, events: Seq<LoopEvent>)
    requires
        render_wf(s),
    ensures
        render_wf(run_events(s, events).0),
    decreases events.len(),
{
    if events.len() > 0 {
        lemma_surface_never_degenerate(s, events.drop_last());
    }
}

/// Resize events for the requested sizes `sizes`, in order.
pub open spec fn resizes(sizes: Seq<(u32, u32)>) -> Seq<LoopEvent> {
    sizes.map_values(|p: (u32, u32)| LoopEvent::Resized { width: p.0, height: p.1 })
}

/// After any sequence of resize events, 0 and large values included, the
/// surface is configured at max(1, requested) in each dimension, and every
/// resize is answered by reconfiguring at that size and asking for a redraw.
pub proof fn lemma_resize_clamps(s: RenderState, sizes: Seq<(u32, u32)>)
    requires
        !s.closed,
        sizes.len() >= 1,
    ensures
        run_events(s, resizes(sizes)).0.surface == clamped(
            sizes.last().0,
            sizes.last().1,
        ),
        !run_events(s, resizes(sizes)).0.closed,
        forall|i: int|
            0 <= i < sizes.len() ==> #[trigger] run_events(s, resizes(sizes)).1[i]
                == (RenderAction::Reconfigure { size: clamped(sizes[i].0, sizes[i].1) }),
    decreases sizes.len(),
{
    let init = sizes.drop_last();
    assert(resizes(sizes).drop_last() =~= resizes(init));
    if init.len() == 0 {
        assert(run_events(s, resizes(init)) == (s, Seq::<RenderAction>::empty()));
    } else {
        lemma_resize_clamps(s, init);
    }
    lemma_one_action_per_event(s, resizes(init));
    let before = run_events(s, resizes(init));
    let after = run_events(s, resizes(sizes));
    assert(resizes(sizes).last() == LoopEvent::Resized {
        width: sizes.last().0,
        height: sizes.last().1,
    });
    assert(after.1 == before.1.push(next_state(before.0, resizes(sizes).last()).1));
    assert forall|i: int| 0 <= i < sizes.len() implies #[trigger] after.1[i]
        == (RenderAction::Reconfigure { size: clamped(sizes[i].0, sizes[i].1) }) by {
        if i < init.len() {
            assert(init[i] == sizes[i]);
            assert(after.1[i] == before.1[i]);
        }
    }
}

/// `n` wake-ups in a row.
pub open spec fn wakes(n: nat) -> Seq<LoopEvent> {
    Seq::new(n, |i: int| LoopEvent::Wake)
}

/// Any number n >= 1 of wake-ups posted before the loop redraws ask for at
/// most one redraw: exactly one when none was pending, none when one already
/// was. The redraw that follows draws the quad once and leaves nothing
/// pending.
pub proof fn lemma_wakes_coalesce(s: RenderState, n: nat)
    requires
        !s.closed,
        n >= 1,
    ensures
        !s.redraw_pending ==> run_events(s, wakes(n)).1 == seq![RenderAction::RequestRedraw]
            + Seq::new((n - 1) as nat, |i: int| RenderAction::Nothing),
        s.redraw_pending ==> run_events(s, wakes(n)).1 == Seq::new(
            n,
            |i: int| RenderAction::Nothing,
        ),
        run_events(s, wakes(n)).0 == (RenderState { redraw_pending: true, ..s }),
        next_state(run_events(s, wakes(n)).0, LoopEvent::RedrawRequested) == (
            RenderState { redraw_pending: false, ..s },
            RenderAction::Draw { call: quad_draw() },
        ),
    decreases n,
{
    assert(wakes(n).drop_last() =~= wakes((n - 1) as nat));
    if n == 1 {
        assert(run_events(s, wakes(0)) == (s, Seq::<RenderAction>::empty()));
        assert(run_events(s, wakes(n)).1 =~= seq![RenderAction::RequestRedraw] + Seq::new(
            0,
            |i: int| RenderAction::Nothing,
        ) || s.redraw_pending);
        assert(s.redraw_pending ==> run_events(s, wakes(n)).1 =~= Seq::new(
            1,
            |i: int| RenderAction::Nothing,
        ));
    } else {
        lemma_wakes_coalesce(s, (n - 1) as nat);
        assert(!s.redraw_pending ==> run_events(s, wakes(n)).1 =~= seq![RenderAction::RequestRedraw]
            + Seq::new((n - 1) as nat, |i: int| RenderAction::Nothing));
        assert(s.redraw_pending ==> run_events(s, wakes(n)).1 =~= Seq::new(
            n,
            |i: int| RenderAction::Nothing,
        ));
    }
}

} // verus!
