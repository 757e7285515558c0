use vstd::prelude::*;
use crate::waveform_mode::WaveformMode;
use crate::waveform_type::WaveformType;

verus! {

/// What happens to a generator's cached scalar when it evaluates a point.
#[derive(Debug, Clone, Copy, PartialEq, Eq, Structural)]
pub enum CacheStep {
    /// The cache keeps its value.
    Keep,
    /// The cache takes the bounce value of this tick.
    Bounce,
    /// The cache takes the shape's value at this point.
    Shape,
}

/// What a generator stores at a point and returns.
#[derive(Debug, Clone, Copy, PartialEq, Eq, Structural)]
pub enum StoreStep {
    /// The shape's value at this point's own phase.
    Shape,
    /// The cached scalar, shared by every point of the tick.
    Cache,
    /// Nothing is stored; the neutral value 0 is returned.
    Neutral,
}

/// The steps a generator takes to evaluate one point: first the cache, then
/// the stored value.
#[derive(Debug, Clone, Copy, PartialEq, Eq, Structural)]
pub struct PointPlan {
    pub cache: CacheStep,
    pub store: StoreStep,
}

/// The plan for point `index` of a generator with `points` sample points.
///
/// A point past the end is rejected: the cache is kept and the neutral value
/// returned. A bounce is computed once per tick, at point 0, and every point
/// takes it. In place, point 0 evaluates the shape into the cache and every
/// point takes the cache. Otherwise every point evaluates the shape at its own
/// phase.
pub open spec fn plan_spec(shape: WaveformType, mode: WaveformMode, index: int, points: int) -> PointPlan {
    if index < 0 || index >= points {
        PointPlan { cache: CacheStep::Keep, store: StoreStep::Neutral }
    } else {
        PointPlan {
            cache: if index == 0 && shape == WaveformType::Bounce {
                CacheStep::Bounce
            } else if index == 0 && mode == WaveformMode::InPlace {
                CacheStep::Shape
            } else {
                CacheStep::Keep
            },
            store: if shape == WaveformType::Bounce || mode == WaveformMode::InPlace {
                StoreStep::Cache
            } else {
                StoreStep::Shape
            },
        }
    }
}

/// Decides how point `index` of a generator with `points` sample points is
/// evaluated for the given shape and mode.
pub fn plan_point(shape: WaveformType, mode: WaveformMode, index: usize, points: usize) -> (r:
    PointPlan)
    ensures
        r == plan_spec(shape, mode, index as int, points as int),
{
    if index >= points {
        return PointPlan { cache: CacheStep::Keep, store: StoreStep::Neutral };
    }
    let bounce = match shape {
        WaveformType::Bounce => true,
        _ => false,
    };
    let in_place = match mode {
        WaveformMode::InPlace => true,
        WaveformMode::Dynamic => false,
    };
    let cache = if index == 0 && bounce {
        CacheStep::Bounce
    } else if index == 0 && in_place {
        CacheStep::Shape
    } else {
        CacheStep::Keep
    };
    let store = if bounce || in_place {
        StoreStep::Cache
    } else {
        StoreStep::Shape
    };
    PointPlan { cache, store }
}

/// Points of one tick depend on each other only through the cache that point
/// 0 fills: no later point changes the cache, and a point that takes the cache
/// belongs to a tick whose point 0 refreshed it. Every other point is evaluated
/// on its own.
pub proof fn lemma_only_first_point_refreshes_cache(
    shape: WaveformType,
    mode: WaveformMode,
    index: int,
    points: int,
)
    requires
        0 <= index < points,
    ensures
        index > 0 ==> plan_spec(shape, mode, index, points).cache == CacheStep::Keep,
        plan_spec(shape, mode, index, points).store == StoreStep::Cache ==> plan_spec(
            shape,
            mode,
            0,
            points,
        ).cache != CacheStep::Keep,
        plan_spec(shape, mode, index, points).store != StoreStep::Neutral,
{
}

} // verus!
