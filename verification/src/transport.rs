//! The light-transport evaluator, as a state machine.
//!
//! A path starts at depth 0 with a camera ray. At each level the ray is tested
//! against the scene. A miss ends the path with the background colour. A hit
//! is handed to the material, unless the path is already `MAX_DEPTH` levels
//! deep: then it ends black. A material that absorbs ends the path black too;
//! one that scatters sends the path one level deeper. The caller tests,
//! scatters and multiplies the colours; what comes next is decided here.
use vstd::prelude::*;
use crate::ray::Ray;
use crate::scalar::Scalar;
use crate::vec::Vec3;

verus! {

/// The deepest level at which a hit is still handed to its material.
pub const MAX_DEPTH: u8 = 50;

/// The pattern of `0.001`, the lower end of every hit test of a path. It keeps
/// a scattered ray from hitting the surface it starts on.
pub const SHADOW_EPSILON_BITS: u32 = 0x3a83_126f;

/// How a path ends.
#[derive(Clone, Copy, Debug, PartialEq, Eq, Structural)]
pub enum Ending {
    /// The ray left the scene: the path carries the background colour.
    Background,
    /// The path carries no light.
    Black,
}

/// What follows a hit test.
#[derive(Clone, Copy, Debug, PartialEq, Eq, Structural)]
pub enum Verdict {
    /// The path is over.
    End(Ending),
    /// The material of the hit is to be asked.
    Scatter,
}

/// What follows the material's answer.
#[derive(Clone, Copy, Debug)]
pub enum Bounce {
    /// The ray was absorbed: the path is over, and black.
    Absorbed,
    /// The path goes on at `depth` with `ray`; what it brings back is to be
    /// multiplied by `attenuation`.
    Deeper { depth: u8, attenuation: Vec3, ray: Ray },
}

/// What one level of a path meets.
#[derive(Clone, Copy, Debug, PartialEq, Eq, Structural)]
pub enum Event {
    /// The ray hits nothing.
    Miss,
    /// The ray hits a surface that absorbs it.
    Absorb,
    /// The ray hits a surface that scatters it.
    Scatter,
}

/// What `after_hit_test` answers.
pub open spec fn spec_after_hit_test(depth: u8, hit: bool) -> Verdict {
    if !hit {
        Verdict::End(Ending::Background)
    } else if depth < MAX_DEPTH {
        Verdict::Scatter
    } else {
        Verdict::End(Ending::Black)
    }
}

/// What `after_scatter` answers.
pub open spec fn spec_after_scatter(depth: u8, scattered: Option<(Vec3, Ray)>) -> Bounce {
    match scattered {
        Some((attenuation, ray)) => Bounce::Deeper { depth: (depth + 1) as u8, attenuation, ray },
        None => Bounce::Absorbed,
    }
}

/// How a path that is at `depth` ends when its levels meet `events` in turn,
/// and at which depth; `None` if the events run out before the path ends.
pub open spec fn ending(depth: u8, events: Seq<Event>) -> Option<(Ending, u8)>
    decreases events.len(),
{
    if events.len() == 0 {
        None
    } else {
        match spec_after_hit_test(depth, events[0] != Event::Miss) {
            Verdict::End(e) => Some((e, depth)),
            Verdict::Scatter => if events[0] == Event::Absorb {
                Some((Ending::Black, depth))
            } else {
                ending((depth + 1) as u8, events.skip(1))
            },
        }
    }
}

/// The lower end of a path's hit tests: `0.001`.
pub open spec fn spec_shadow_epsilon() -> Scalar {
    Scalar { bits: SHADOW_EPSILON_BITS }
}

/// The lower end of a path's hit tests: `0.001`. A hit at exactly this
/// parameter does not count.
#[verifier::when_used_as_spec(spec_shadow_epsilon)]
pub fn shadow_epsilon() -> (r: Scalar)
    ensures
        r == spec_shadow_epsilon(),
        Scalar::zero().lt(r),
{
    Scalar { bits: SHADOW_EPSILON_BITS }
}

/// The upper end of a path's hit tests: positive infinity, so that nothing is
/// too far away to be hit.
pub fn horizon() -> (r: Scalar)
    ensures
        r == Scalar::infinity(),
        shadow_epsilon().lt(r),
{
    Scalar::infinity()
}

/// Decides what follows the hit test of a ray at `depth`.
#[verifier::when_used_as_spec(spec_after_hit_test)]
pub fn after_hit_test(depth: u8, hit: bool) -> (r: Verdict)
    ensures
        r == spec_after_hit_test(depth, hit),
{
    if !hit {
        Verdict::End(Ending::Background)
    } else if depth < MAX_DEPTH {
        Verdict::Scatter
    } else {
        Verdict::End(Ending::Black)
    }
}

/// Decides what follows the answer of the material that a ray at `depth` has
/// hit. A material is asked only below `MAX_DEPTH`.
#[verifier::when_used_as_spec(spec_after_scatter)]
pub fn after_scatter(depth: u8, scattered: Option<(Vec3, Ray)>) -> (r: Bounce)
    requires
        depth < MAX_DEPTH,
    ensures
        r == spec_after_scatter(depth, scattered),
        (r matches Bounce::Deeper { depth: d, .. } ==> d == depth + 1 && d <= MAX_DEPTH),
{
    match scattered {
        Some((attenuation, ray)) => Bounce::Deeper { depth: depth + 1, attenuation, ray },
        None => Bounce::Absorbed,
    }
}

/// Every path ends: whatever its levels meet, a path that starts at `depth`
/// is over after at most `MAX_DEPTH - depth + 1` hit tests, and never gets
/// deeper than `MAX_DEPTH`.
pub proof fn law_path_ends(depth: u8, events: Seq<Event>)
    requires
        depth <= MAX_DEPTH,
        events.len() > MAX_DEPTH - depth,
    ensures
        (ending(depth, events) matches Some((_, d)) && depth <= d <= MAX_DEPTH),
    decreases events.len(),
{
    if events[0] == Event::Scatter && depth < MAX_DEPTH {
        law_path_ends((depth + 1) as u8, events.skip(1));
    }
}

/// A path that is scattered at every level ends black at `MAX_DEPTH`: a ray
/// caught between mirrors carries no light.
pub proof fn law_trapped_path_is_black(depth: u8, events: Seq<Event>)
    requires
        depth <= MAX_DEPTH,
        events.len() > MAX_DEPTH - depth,
        forall|i: int| 0 <= i <= MAX_DEPTH - depth ==> events[i] == Event::Scatter,
    ensures
        ending(depth, events) == Some((Ending::Black, MAX_DEPTH)),
    decreases events.len(),
{
    if depth < MAX_DEPTH {
        let rest = events.skip(1);
        assert forall|i: int| 0 <= i <= MAX_DEPTH - (depth + 1) implies rest[i]
            == Event::Scatter by {}
        law_trapped_path_is_black((depth + 1) as u8, rest);
    }
}

/// A path carries the background colour only if one of its rays hit nothing,
/// and then it ends at the first such level.
pub proof fn law_background_needs_miss(depth: u8, events: Seq<Event>)
    requires
        depth <= MAX_DEPTH,
    ensures
        (ending(depth, events) matches Some((Ending::Background, d)) ==> {
            &&& depth <= d
            &&& d - depth < events.len()
            &&& events[d - depth] == Event::Miss
            &&& forall|i: int| 0 <= i < d - depth ==> events[i] == Event::Scatter
        }),
    decreases events.len(),
{
    if events.len() > 0 && events[0] == Event::Scatter && depth < MAX_DEPTH {
        let rest = events.skip(1);
        law_background_needs_miss((depth + 1) as u8, rest);
        if let Some((Ending::Background, d)) = ending(depth, events) {
            assert forall|i: int| 0 <= i < d - depth implies events[i] == Event::Scatter by {
                if i > 0 {
                    assert(events[i] == rest[i - 1]);
                }
            }
        }
    }
}

} // verus!
