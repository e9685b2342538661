//! What a component says of itself, and what the service says of all of them.

use vstd::prelude::*;

verus! {

/// How a component, or the whole service, is doing. The order of badness is
/// `Healthy`, then `Degraded`, then `Unhealthy`.
#[derive(Clone, Copy, Debug, PartialEq, Eq, Structural)]
pub enum HealthStatus {
    Healthy,
    Degraded,
    Unhealthy,
}

impl HealthStatus {
    /// The rank of the status in the order of badness.
    pub open spec fn severity(self) -> nat {
        match self {
            HealthStatus::Healthy => 0,
            HealthStatus::Degraded => 1,
            HealthStatus::Unhealthy => 2,
        }
    }

    /// The word that stands for the status on the wire.
    pub open spec fn label(self) -> Seq<char> {
        match self {
            HealthStatus::Healthy => "healthy"@,
            HealthStatus::Degraded => "degraded"@,
            HealthStatus::Unhealthy => "unhealthy"@,
        }
    }

    /// The word that stands for the status on the wire.
    pub fn as_str(&self) -> (word: &'static str)
        ensures
            word@ == self.label(),
    {
        match self {
            HealthStatus::Healthy => "healthy",
            HealthStatus::Degraded => "degraded",
            HealthStatus::Unhealthy => "unhealthy",
        }
    }
}

/// The verdict on one component.
#[derive(Debug)]
pub struct ComponentHealth {
    pub name: String,
    pub status: HealthStatus,
    pub message: Option<String>,
}

/// A [`ComponentHealth`] with its strings as sequences of characters.
pub struct ComponentHealthView {
    pub name: Seq<char>,
    pub status: HealthStatus,
    pub message: Option<Seq<char>>,
}

impl ComponentHealthView {
    /// The verdict says which component it is about.
    pub open spec fn is_named(self) -> bool {
        self.name.len() > 0
    }
}

impl View for ComponentHealth {
    type V = ComponentHealthView;

    open spec fn view(&self) -> ComponentHealthView {
        ComponentHealthView {
            name: self.name@,
            status: self.status,
            message: match self.message {
                Some(text) => Some(text@),
                None => None,
            },
        }
    }
}

/// The verdict on the whole service: the verdicts on its components, in the order in
/// which they are registered, the worst of their statuses, and when they were gathered
/// in seconds since the Unix epoch.
#[derive(Debug)]
pub struct SystemHealthResponse {
    pub status: HealthStatus,
    pub components: Vec<ComponentHealth>,
    pub timestamp: i64,
}

/// A [`SystemHealthResponse`] with the views of its components.
pub struct SystemHealthResponseView {
    pub status: HealthStatus,
    pub components: Seq<ComponentHealthView>,
    pub timestamp: i64,
}

/// The views of some verdicts, in their order.
pub open spec fn component_views(components: Seq<ComponentHealth>) -> Seq<ComponentHealthView> {
    components.map_values(|c: ComponentHealth| c@)
}

/// The statuses of some verdicts, in their order.
pub open spec fn statuses(components: Seq<ComponentHealthView>) -> Seq<HealthStatus> {
    components.map_values(|c: ComponentHealthView| c.status)
}

/// The worst of some statuses; `Healthy` where there is none.
pub open spec fn overall_status(statuses: Seq<HealthStatus>) -> HealthStatus {
    if statuses.contains(HealthStatus::Unhealthy) {
        HealthStatus::Unhealthy
    } else if statuses.contains(HealthStatus::Degraded) {
        HealthStatus::Degraded
    } else {
        HealthStatus::Healthy
    }
}

impl SystemHealthResponseView {
    /// The status is the worst among the components.
    pub open spec fn is_consistent(self) -> bool {
        self.status == overall_status(statuses(self.components))
    }
}

impl View for SystemHealthResponse {
    type V = SystemHealthResponseView;

    open spec fn view(&self) -> SystemHealthResponseView {
        SystemHealthResponseView {
            status: self.status,
            components: component_views(self.components@),
            timestamp: self.timestamp,
        }
    }
}

/// Anything that can say how it is doing.
///
/// A component never fails to answer: where its probe fails or hangs, the status and
/// the message of the answer say so.
pub trait HealthCheck: Send + Sync {
    /// The verdicts that `check` may come back with: any, unless the component says
    /// more of itself.
    open spec fn may_report(&self, verdict: ComponentHealthView) -> bool {
        true
    }

    /// Probes the component once and says how it is doing.
    fn check(&self) -> (verdict: ComponentHealth)
        ensures
            self.may_report(verdict@),
    ;
}

} // verus!
