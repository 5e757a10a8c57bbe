//! What is measured when a setting is switched while the system runs.
use vstd::prelude::*;

use crate::time::duration::{Duration, Instant};

verus! {

/// Measures how long a switch takes. The host reads the clock.
#[derive(Clone, Copy, Debug)]
pub struct HotReloadApplyTimer {
    start: Instant,
}

impl HotReloadApplyTimer {
    pub closed spec fn started(&self) -> nat {
        self.start@
    }

    /// Starts to measure at the given point in time.
    pub fn start(now: Instant) -> (timer: HotReloadApplyTimer)
        ensures
            timer.started() == now@,
    {
        HotReloadApplyTimer { start: now }
    }

    /// How long it has taken up to the given point in time.
    pub fn elapsed(&self, now: Instant) -> (elapsed: Option<Duration>)
        ensures
            elapsed is Some,
            elapsed->0@ == if now@ >= self.started() {
                now@ - self.started()
            } else {
                0
            },
    {
        Some(now.saturating_duration_since(self.start))
    }
}

/// One measurement for the host to record.
#[derive(Debug, PartialEq, Eq)]
pub enum HotReloadPoint {
    /// The gauge of the configuration epoch is set.
    Epoch { component: String, epoch: u64 },
    /// The histogram of the time that a switch takes gets one value.
    Latency { component: String, latency: Duration },
}

/// What a measurement says, for the contracts.
pub enum PointView {
    Epoch { component: Seq<char>, epoch: u64 },
    Latency { component: Seq<char>, nanos: nat },
}

impl View for HotReloadPoint {
    type V = PointView;

    open spec fn view(&self) -> PointView {
        match self {
            HotReloadPoint::Epoch { component, epoch } => PointView::Epoch {
                component: component@,
                epoch: *epoch,
            },
            HotReloadPoint::Latency { component, latency } => PointView::Latency {
                component: component@,
                nanos: latency@,
            },
        }
    }
}

/// What some measurements say.
pub open spec fn point_views(points: Seq<HotReloadPoint>) -> Seq<PointView> {
    points.map_values(|point: HotReloadPoint| point@)
}

/// What is recorded about a switch: nothing without a component to record it under; otherwise
/// the epoch, and the time that it took where it was measured.
pub open spec fn recorded(
    component: Option<Seq<char>>,
    epoch: u64,
    latency: Option<nat>,
) -> Seq<PointView> {
    match component {
        None => Seq::empty(),
        Some(component) => match latency {
            None => seq![PointView::Epoch { component, epoch }],
            Some(nanos) => seq![
                PointView::Epoch { component, epoch },
                PointView::Latency { component, nanos },
            ],
        },
    }
}

/// Under which component switches are recorded, if at all.
#[derive(Debug)]
pub struct HotReloadObservability {
    component: Option<String>,
}

impl View for HotReloadObservability {
    type V = Option<Seq<char>>;

    closed spec fn view(&self) -> Option<Seq<char>> {
        match self.component {
            Some(component) => Some(component@),
            None => None,
        }
    }
}

impl HotReloadObservability {
    /// Nothing is recorded.
    pub fn new() -> (observability: HotReloadObservability)
        ensures
            observability@ is None,
    {
        HotReloadObservability { component: None }
    }

    /// Switches are recorded under the given component.
    pub fn with_component(component: String) -> (observability: HotReloadObservability)
        ensures
            observability@ == Some(component@),
    {
        HotReloadObservability { component: Some(component) }
    }

    /// The measurements of one switch.
    pub fn record(&self, epoch: u64, latency: Option<Duration>) -> (points: Vec<HotReloadPoint>)
        ensures
            point_views(points@) == recorded(
                self@,
                epoch,
                match latency {
                    Some(latency) => Some(latency@),
                    None => None,
                },
            ),
    {
        let mut points: Vec<HotReloadPoint> = Vec::new();
        if let Some(component) = &self.component {
            points.push(HotReloadPoint::Epoch { component: component.clone(), epoch });
            if let Some(latency) = latency {
                points.push(HotReloadPoint::Latency { component: component.clone(), latency });
            }
        }
        proof {
            assert(point_views(points@) =~= recorded(
                self@,
                epoch,
                match latency {
                    Some(latency) => Some(latency@),
                    None => None,
                },
            ));
        }
        points
    }
}

} // verus!
