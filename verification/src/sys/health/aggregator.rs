//! The verdicts of all components folded into one.

use super::models::{
    component_views, overall_status, statuses, ComponentHealth, ComponentHealthView, HealthCheck,
    HealthStatus, SystemHealthResponse, SystemHealthResponseView,
};
use vstd::prelude::*;

verus! {

/// The HTTP status code that tells a client of `status`: a degraded service still
/// serves, an unhealthy one does not.
pub open spec fn status_code(status: HealthStatus) -> u16 {
    match status {
        HealthStatus::Healthy => 200,
        HealthStatus::Degraded => 200,
        HealthStatus::Unhealthy => 503,
    }
}

/// The response that is owed for `verdicts` gathered at `timestamp`.
pub open spec fn response_of(verdicts: Seq<ComponentHealthView>, timestamp: i64) -> SystemHealthResponseView {
    SystemHealthResponseView {
        status: overall_status(statuses(verdicts)),
        components: verdicts,
        timestamp,
    }
}

/// The HTTP status code that tells a client of `status`.
pub fn http_status_code(status: HealthStatus) -> (code: u16)
    ensures
        code == status_code(status),
{
    match status {
        HealthStatus::Healthy | HealthStatus::Degraded => 200,
        HealthStatus::Unhealthy => 503,
    }
}

/// A status is among the first `i + 1` of `all` exactly if it is among the first `i`
/// or is the one at `i`.
proof fn lemma_take_one_more(all: Seq<HealthStatus>, i: int, status: HealthStatus)
    requires
        0 <= i < all.len(),
    ensures
        all.take(i + 1).contains(status) <==> all.take(i).contains(status) || all[i] == status,
{
    if all[i] == status {
        assert(all.take(i + 1)[i] == status);
    }
}

/// The worst status among `results`; `Healthy` where there is none.
pub fn fold_status(results: &Vec<ComponentHealth>) -> (status: HealthStatus)
    ensures
        status == overall_status(statuses(component_views(results@))),
{
    let ghost all = statuses(component_views(results@));
    let mut unhealthy = false;
    let mut degraded = false;
    let mut i: usize = 0;
    while i < results.len()
        invariant
            i <= results.len(),
            all == statuses(component_views(results@)),
            unhealthy <==> all.take(i as int).contains(HealthStatus::Unhealthy),
            degraded <==> all.take(i as int).contains(HealthStatus::Degraded),
        decreases results.len() - i,
    {
        proof {
            lemma_take_one_more(all, i as int, HealthStatus::Unhealthy);
            lemma_take_one_more(all, i as int, HealthStatus::Degraded);
        }
        match results[i].status {
            HealthStatus::Unhealthy => {
                unhealthy = true;
            },
            HealthStatus::Degraded => {
                degraded = true;
            },
            HealthStatus::Healthy => {},
        }
        i += 1;
    }
    assert(all.take(i as int) =~= all);
    if unhealthy {
        HealthStatus::Unhealthy
    } else if degraded {
        HealthStatus::Degraded
    } else {
        HealthStatus::Healthy
    }
}

/// The response for verdicts that were gathered at `timestamp`, with the HTTP status
/// code that goes with it. The verdicts stay in the order in which they came.
pub fn assemble(results: Vec<ComponentHealth>, timestamp: i64) -> (out: (u16, SystemHealthResponse))
    ensures
        out.1@ == response_of(component_views(results@), timestamp),
        out.1.components == results,
        out.0 == status_code(out.1.status),
{
    let status = fold_status(&results);
    let code = http_status_code(status);
    (code, SystemHealthResponse { status, components: results, timestamp })
}

/// Asks every component of `registry` in turn how it is doing. The verdicts come back
/// one for each component, in the order of the registry.
pub fn run_checks(registry: &Vec<Box<dyn HealthCheck>>) -> (results: Vec<ComponentHealth>)
    ensures
        results.len() == registry.len(),
        forall|i: int| 0 <= i < results.len() ==> registry[i].may_report(#[trigger] results[i]@),
{
    let mut results: Vec<ComponentHealth> = Vec::new();
    let mut i: usize = 0;
    while i < registry.len()
        invariant
            i <= registry.len(),
            results.len() == i,
            forall|j: int| 0 <= j < i ==> registry[j].may_report(#[trigger] results[j]@),
        decreases registry.len() - i,
    {
        let verdict = registry[i].check();
        results.push(verdict);
        i += 1;
    }
    results
}

/// Reads the clock with `chrono::Utc::now` and gives `DateTime::timestamp` of it, the
/// whole seconds since the Unix epoch. Trusted, and nothing is said of the number: it is
/// whatever the clock of the machine says. chrono panics where that clock stands
/// before 1970.
#[verifier::external_body]
fn unix_time() -> (seconds: i64) {
    chrono::Utc::now().timestamp()
}

/// The response for verdicts that have just been gathered, stamped with the time of
/// the call, and the HTTP status code that goes with it.
pub fn report(results: Vec<ComponentHealth>) -> (out: (u16, SystemHealthResponse))
    ensures
        out.1@ == response_of(component_views(results@), out.1.timestamp),
        out.1.components == results,
        out.0 == status_code(out.1.status),
{
    let now = unix_time();
    assemble(results, now)
}

/// Asks every component of `registry` how it is doing and reports on the service as
/// a whole: one verdict for each component, in the order of the registry, under the
/// worst of their statuses, with the HTTP status code that goes with it.
///
/// The components are asked one after the other. A host that asks them all at once
/// gathers the verdicts itself and hands them to [`report`].
pub fn aggregate_health(registry: &Vec<Box<dyn HealthCheck>>) -> (out: (u16, SystemHealthResponse))
    ensures
        out.1.components.len() == registry.len(),
        forall|i: int|
            0 <= i < registry.len() ==> registry[i].may_report(#[trigger] out.1.components[i]@),
        out.1@.is_consistent(),
        out.0 == status_code(out.1.status),
{
    let results = run_checks(registry);
    report(results)
}

/// The overall status is the worst status that occurs: no component is worse off
/// than it says, and unless it is `Healthy` some component is exactly that badly off.
pub proof fn lemma_overall_is_worst(all: Seq<HealthStatus>)
    ensures
        forall|i: int|
            0 <= i < all.len() ==> (#[trigger] all[i]).severity() <= overall_status(all).severity(),
        overall_status(all) != HealthStatus::Healthy ==> all.contains(overall_status(all)),
        all.len() == 0 ==> overall_status(all) == HealthStatus::Healthy,
{
    assert forall|i: int| 0 <= i < all.len() implies (#[trigger] all[i]).severity() <= overall_status(
        all,
    ).severity() by {
        assert(all.contains(all[i]));
    }
}

/// A response holds one entry for each verdict that went into it, in the same order,
/// whatever the order in which the components finished.
pub proof fn lemma_response_keeps_order(verdicts: Seq<ComponentHealthView>, timestamp: i64)
    ensures
        response_of(verdicts, timestamp).components.len() == verdicts.len(),
        forall|i: int|
            0 <= i < verdicts.len() ==> response_of(verdicts, timestamp).components[i] == verdicts[i],
{
}

/// A service without components is healthy: the response holds no entry, and it
/// answers 200.
pub proof fn lemma_empty_is_healthy(timestamp: i64)
    ensures
        response_of(Seq::<ComponentHealthView>::empty(), timestamp).status == HealthStatus::Healthy,
        response_of(Seq::<ComponentHealthView>::empty(), timestamp).components.len() == 0,
        response_of(Seq::<ComponentHealthView>::empty(), timestamp).timestamp == timestamp,
        status_code(response_of(Seq::<ComponentHealthView>::empty(), timestamp).status) == 200,
{
}

/// Where every component is healthy, so is the service, and it answers 200.
pub proof fn lemma_all_healthy(verdicts: Seq<ComponentHealthView>, timestamp: i64)
    requires
        forall|i: int| 0 <= i < verdicts.len() ==> verdicts[i].status == HealthStatus::Healthy,
    ensures
        response_of(verdicts, timestamp).status == HealthStatus::Healthy,
        status_code(response_of(verdicts, timestamp).status) == 200,
{
    let all = statuses(verdicts);
    assert(forall|i: int| 0 <= i < all.len() ==> all[i] == verdicts[i].status);
}

/// Where one component is unhealthy, so is the service, whatever the others say, and
/// it answers 503.
pub proof fn lemma_any_unhealthy(verdicts: Seq<ComponentHealthView>, timestamp: i64, i: int)
    requires
        0 <= i < verdicts.len(),
        verdicts[i].status == HealthStatus::Unhealthy,
    ensures
        response_of(verdicts, timestamp).status == HealthStatus::Unhealthy,
        status_code(response_of(verdicts, timestamp).status) == 503,
{
    let all = statuses(verdicts);
    assert(all.contains(all[i]));
}

/// Where one component is degraded and none is unhealthy, the service is degraded,
/// and it still answers 200.
pub proof fn lemma_worst_degraded(verdicts: Seq<ComponentHealthView>, timestamp: i64, i: int)
    requires
        0 <= i < verdicts.len(),
        verdicts[i].status == HealthStatus::Degraded,
        forall|j: int| 0 <= j < verdicts.len() ==> verdicts[j].status != HealthStatus::Unhealthy,
    ensures
        response_of(verdicts, timestamp).status == HealthStatus::Degraded,
        status_code(response_of(verdicts, timestamp).status) == 200,
{
    let all = statuses(verdicts);
    assert(all.contains(all[i]));
    assert(forall|j: int| 0 <= j < all.len() ==> all[j] == verdicts[j].status);
}

/// Two aggregations, one after the other: each response is consistent in itself and
/// made of its own verdicts and its own time alone, so nothing of the first shows in
/// the second.
pub proof fn lemma_aggregations_independent(
    first: Seq<ComponentHealthView>,
    first_at: i64,
    second: Seq<ComponentHealthView>,
    second_at: i64,
)
    ensures
        response_of(first, first_at).is_consistent(),
        response_of(second, second_at).is_consistent(),
        response_of(first, first_at).components == first,
        response_of(second, second_at).components == second,
        response_of(first, first_at).timestamp == first_at,
        response_of(second, second_at).timestamp == second_at,
        response_of(second, second_at).status == overall_status(statuses(second)),
{
}

} // verus!
