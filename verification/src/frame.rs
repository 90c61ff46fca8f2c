use vstd::prelude::*;
use crate::geometry::TRIANGLE_COORDINATE_COUNT;
use crate::geometry::vertex_count;

verus! {

/// IEEE-754 single-precision bit pattern of 1.0, the alpha channel of the
/// opaque black clear color.
pub const ONE_BITS: u32 = 0x3F80_0000;

/// One command against the rendering context. Values that the context takes
/// as single-precision numbers are carried as their bit patterns, so that
/// the command plan itself stays in integer arithmetic; the thin host layer
/// reassembles the numbers when it performs a command.
#[derive(Debug)]
pub enum GpuAction {
    /// Set the clear color; one bit pattern per channel.
    SetClearColor { red_bits: u32, green_bits: u32, blue_bits: u32, alpha_bits: u32 },
    /// Clear the color buffer to the current clear color.
    ClearColorBuffer,
    /// Set the `u_time` uniform to the single-precision value with this bit
    /// pattern.
    SetTimeUniform { seconds_bits: u32 },
    /// Draw `count` vertices starting at `first` from the bound vertex
    /// array, as a triangle list.
    DrawTriangles { first: i32, count: i32 },
    /// Upload these bytes into the bound array buffer as static draw data.
    /// Only construction uploads; no frame does (see
    /// `lemma_frame_preserves_vertex_buffer`).
    UploadVertexData { bytes: Vec<u8> },
}

/// The slice of context state that the commands above touch, used to state
/// what a frame does and does not change.
pub ghost struct GpuState {
    /// Contents of the bound array buffer.
    pub vertex_buffer: Seq<u8>,
    /// The current clear color, one bit pattern per channel.
    pub clear_color_bits: (u32, u32, u32, u32),
    /// Bit pattern of the value most recently written to the time uniform.
    pub time_uniform_bits: u32,
    /// Every draw request issued so far, oldest first, as (first, count).
    pub draw_requests: Seq<(int, int)>,
}

/// What one command does to the modeled context state.
pub open spec fn apply_action(s: GpuState, a: GpuAction) -> GpuState {
    match a {
        GpuAction::SetClearColor { red_bits, green_bits, blue_bits, alpha_bits } => (GpuState {
            clear_color_bits: (red_bits, green_bits, blue_bits, alpha_bits),
            ..s
        }),
        GpuAction::ClearColorBuffer => s,
        GpuAction::SetTimeUniform { seconds_bits } => (GpuState {
            time_uniform_bits: seconds_bits,
            ..s
        }),
        GpuAction::DrawTriangles { first, count } => (GpuState {
            draw_requests: s.draw_requests.push((first as int, count as int)),
            ..s
        }),
        GpuAction::UploadVertexData { bytes } => (GpuState { vertex_buffer: bytes@, ..s }),
    }
}

/// What a command sequence does, applied front to back.
pub open spec fn apply_actions(s: GpuState, actions: Seq<GpuAction>) -> GpuState
    decreases actions.len(),
{
    if actions.len() == 0 {
        s
    } else {
        apply_actions(apply_action(s, actions[0]), actions.drop_first())
    }
}

/// The commands of one frame at time uniform value `seconds_bits`: clear to
/// opaque black, advance the clock uniform, draw the three triangle
/// vertices. No other command is ever part of a frame.
pub open spec fn frame_action_spec(seconds_bits: u32) -> Seq<GpuAction> {
    seq![
        GpuAction::SetClearColor { red_bits: 0, green_bits: 0, blue_bits: 0, alpha_bits: ONE_BITS },
        GpuAction::ClearColorBuffer,
        GpuAction::SetTimeUniform { seconds_bits },
        GpuAction::DrawTriangles { first: 0, count: 3 },
    ]
}

/// Builds the command plan of one frame. The draw count is the vertex count
/// of the fixed mesh: six coordinates, two per vertex.
pub fn frame_actions(seconds_bits: u32) -> (actions: Vec<GpuAction>)
    ensures
        actions@ == frame_action_spec(seconds_bits),
{
    let n = vertex_count(TRIANGLE_COORDINATE_COUNT);
    let count: i32 = n as i32;
    let mut actions: Vec<GpuAction> = Vec::new();
    actions.push(GpuAction::SetClearColor {
        red_bits: 0,
        green_bits: 0,
        blue_bits: 0,
        alpha_bits: ONE_BITS,
    });
    actions.push(GpuAction::ClearColorBuffer);
    actions.push(GpuAction::SetTimeUniform { seconds_bits });
    actions.push(GpuAction::DrawTriangles { first: 0, count });
    proof {
        assert(actions@ =~= frame_action_spec(seconds_bits));
    }
    actions
}

/// The full effect of one frame on the modeled context state: the clear
/// color becomes opaque black, the time uniform becomes exactly
/// `seconds_bits`, one draw request for three vertices starting at zero is
/// appended, and the vertex buffer is untouched.
pub proof fn lemma_apply_frame(s: GpuState, seconds_bits: u32)
    ensures
        apply_actions(s, frame_action_spec(seconds_bits)) == (GpuState {
            vertex_buffer: s.vertex_buffer,
            clear_color_bits: (0u32, 0u32, 0u32, ONE_BITS),
            time_uniform_bits: seconds_bits,
            draw_requests: s.draw_requests.push((0int, 3int)),
        }),
{
    let acts = frame_action_spec(seconds_bits);
    let r1 = acts.drop_first();
    let r2 = r1.drop_first();
    let r3 = r2.drop_first();
    let r4 = r3.drop_first();
    let s1 = apply_action(s, acts[0]);
    let s2 = apply_action(s1, r1[0]);
    let s3 = apply_action(s2, r2[0]);
    let s4 = apply_action(s3, r3[0]);
    assert(r4.len() == 0);
    assert(apply_actions(s, acts) == apply_actions(s1, r1));
    assert(apply_actions(s1, r1) == apply_actions(s2, r2));
    assert(apply_actions(s2, r2) == apply_actions(s3, r3));
    assert(apply_actions(s3, r3) == apply_actions(s4, r4));
    assert(apply_actions(s4, r4) == s4);
}

/// Law: the vertex data is write-once. A frame, at any time value, leaves
/// the contents of the array buffer exactly as they were.
pub proof fn lemma_frame_preserves_vertex_buffer(s: GpuState, seconds_bits: u32)
    ensures
        apply_actions(s, frame_action_spec(seconds_bits)).vertex_buffer == s.vertex_buffer,
{
    lemma_apply_frame(s, seconds_bits);
}

/// Law: a frame sets the time uniform to exactly the value it was asked
/// for, whatever the previous state held.
pub proof fn lemma_frame_sets_time_uniform(s: GpuState, seconds_bits: u32)
    ensures
        apply_actions(s, frame_action_spec(seconds_bits)).time_uniform_bits == seconds_bits,
{
    lemma_apply_frame(s, seconds_bits);
}

/// Law: every frame issues exactly one draw request, for three vertices
/// starting at zero, as a triangle list, regardless of the time value.
pub proof fn lemma_frame_draws_one_triangle_list(s: GpuState, seconds_bits: u32)
    ensures
        apply_actions(s, frame_action_spec(seconds_bits)).draw_requests == s.draw_requests.push(
            (0int, 3int),
        ),
        forall|i: int|
            (0 <= i < frame_action_spec(seconds_bits).len() && (frame_action_spec(
                seconds_bits,
            )[i] matches GpuAction::DrawTriangles { .. })) ==> frame_action_spec(seconds_bits)[i]
                == (GpuAction::DrawTriangles { first: 0i32, count: 3i32 }),
{
    lemma_apply_frame(s, seconds_bits);
}

} // verus!
