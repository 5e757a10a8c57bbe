//! What settings come to, stated on the entries of a configuration and on what is in force before
//! and after.
use std::sync::Arc;

use vstd::prelude::*;

use crate::contract_tests::hot_reload::{apply_update, wait_for_update, ReloadError};
use crate::runtime::configuration::{
    changed, ChangeQueue, ConfigChange, ConfigView, ResolvedConfiguration,
};
use crate::runtime::executor::{restore_output, TaskError};
use crate::runtime::hotreload::{
    point_views, HotReloadApplyTimer, HotReloadObservability, HotReloadPoint,
};
use crate::runtime::limits::{
    limit_key, LimitConfigError, LimitRuntimeConfig, LimitSettings, ResourceKind,
};
use crate::runtime::services::{CoreServices, DefaultObservabilityFacade};
use crate::runtime::timeouts::{
    TimeoutConfigError, TimeoutField, TimeoutRuntimeConfig, TimeoutSettings,
};
use crate::time::duration::{Duration, Instant};

verus! {

proof fn lemma_limit_name()
    ensures
        crate::runtime::limits::limit_entry(ResourceKind::Connections)
            == "limits.connections.limit"@,
{
    reveal_strlit("limits.");
    reveal_strlit("connections");
    reveal_strlit(".limit");
    reveal_strlit("limits.connections.limit");
    assert("limits."@ + "connections"@ + ".limit"@ =~= "limits.connections.limit"@);
}

/// The limit on connections is what the entry `limits.connections.limit` says, where that is a
/// whole number above zero. An entry that is missing, one of another type and one of zero or less
/// are told apart.
pub proof fn law_a_limit_is_what_its_entry_says(
    config: &ResolvedConfiguration,
    r: Result<LimitSettings, LimitConfigError>,
    key: String,
)
    requires
        call_ensures(LimitSettings::from_configuration, (config,), r),
        call_ensures(limit_key, (ResourceKind::Connections,), key),
    ensures
        key@ == "limits.connections.limit"@,
        !config@.dom().contains("limits.connections.limit"@) ==> r is Err && r->Err_0 is Missing,
        config@.dom().contains("limits.connections.limit"@) ==> match config@[
            "limits.connections.limit"@
        ] {
            ConfigView::Integer(limit) => if limit >= 1 {
                r is Ok && r->Ok_0.most(ResourceKind::Connections) == limit
            } else {
                r is Err && r->Err_0 is NonPositiveLimit && r->Err_0->provided == limit
            },
            ConfigView::Boolean(_) => r is Err && r->Err_0 is InvalidValueType,
            ConfigView::Text(_) => r is Err && r->Err_0 is InvalidValueType,
        },
{
    lemma_limit_name();
}

/// An update puts the limit of the entry in force and moves the epoch on by one, around the end of
/// the counter; one that cannot be read changes nothing and says why.
pub proof fn law_an_update_switches_the_limit(
    limits: &mut LimitRuntimeConfig,
    config: &ResolvedConfiguration,
    r: Result<(), LimitConfigError>,
    read: Result<LimitSettings, LimitConfigError>,
)
    requires
        call_ensures(LimitRuntimeConfig::update_from_configuration, (limits, config), r),
        call_ensures(LimitSettings::from_configuration, (config,), read),
    ensures
        read is Ok ==> r is Ok && final(limits)@.connections == read->Ok_0.most(
            ResourceKind::Connections,
        ),
        read is Ok && old(limits)@.epoch < u64::MAX ==> final(limits)@.epoch == old(limits)@.epoch
            + 1,
        read is Ok && old(limits)@.epoch == u64::MAX ==> final(limits)@.epoch == 0,
        read is Err ==> r is Err && r->Err_0 == read->Err_0,
        read is Err ==> final(limits)@.connections == old(limits)@.connections
            && final(limits)@.epoch == old(limits)@.epoch,
{
}

/// Each timeout is what its entry says in milliseconds, where that is a whole number above zero,
/// and five and sixty seconds where the entry is missing. What is wrong with the request timeout is
/// told before what is wrong with the idle timeout.
pub proof fn law_a_timeout_is_what_its_entry_says(
    config: &ResolvedConfiguration,
    r: Result<TimeoutSettings, TimeoutConfigError>,
)
    requires
        call_ensures(TimeoutSettings::from_configuration, (config,), r),
    ensures
        r is Ok <==> readable(config@, "timeouts.request_ms"@) && readable(
            config@,
            "timeouts.idle_ms"@,
        ),
        r is Ok ==> r->Ok_0@.request == nanos_of(config@, "timeouts.request_ms"@, 5_000_000_000),
        r is Ok ==> r->Ok_0@.idle == nanos_of(config@, "timeouts.idle_ms"@, 60_000_000_000),
        !readable(config@, "timeouts.request_ms"@) ==> r is Err && objects_to(
            config@,
            TimeoutField::Request,
            "timeouts.request_ms"@,
            r->Err_0,
        ),
        readable(config@, "timeouts.request_ms"@) && !readable(config@, "timeouts.idle_ms"@)
            ==> r is Err && objects_to(
            config@,
            TimeoutField::Idle,
            "timeouts.idle_ms"@,
            r->Err_0,
        ),
{
}

/// Whether an entry is missing or a whole number above zero.
pub open spec fn readable(config: Map<Seq<char>, ConfigView>, name: Seq<char>) -> bool {
    config.dom().contains(name) ==> config[name] is Integer && config[name]->Integer_0 >= 1
}

/// An entry in milliseconds as nanoseconds, or the given value where it is missing.
pub open spec fn nanos_of(
    config: Map<Seq<char>, ConfigView>,
    name: Seq<char>,
    missing: int,
) -> int {
    if config.dom().contains(name) {
        config[name]->Integer_0 * 1_000_000
    } else {
        missing
    }
}

/// Whether an error says of a timeout what is wrong with its entry.
pub open spec fn objects_to(
    config: Map<Seq<char>, ConfigView>,
    field: TimeoutField,
    name: Seq<char>,
    error: TimeoutConfigError,
) -> bool {
    match config[name] {
        ConfigView::Integer(millis) => error == (TimeoutConfigError::NonPositiveDuration {
            field,
            provided: millis,
        }),
        _ => error == (TimeoutConfigError::InvalidValueType { field, expected: "integer" }),
    }
}

/// The names of a timeout, as it is shown and as its entry is called.
pub proof fn law_timeouts_are_named(field: TimeoutField, shown: &'static str, entry: &'static str)
    requires
        call_ensures(TimeoutField::to_text, (&field,), shown),
        call_ensures(TimeoutField::entry_name, (&field,), entry),
    ensures
        field is Request ==> shown@ == "timeouts.request"@ && entry@ == "timeouts.request_ms"@,
        field is Idle ==> shown@ == "timeouts.idle"@ && entry@ == "timeouts.idle_ms"@,
{
}

/// A switch puts the given timeouts in force and moves the epoch on by one, around the end of the
/// counter; where it is recorded stays.
pub proof fn law_a_switch_takes_effect(timeouts: &mut TimeoutRuntimeConfig, settings: TimeoutSettings)
    requires
        call_ensures(TimeoutRuntimeConfig::replace, (timeouts, settings), ()),
    ensures
        final(timeouts)@.timeouts.request == settings@.request,
        final(timeouts)@.timeouts.idle == settings@.idle,
        final(timeouts)@.component == old(timeouts)@.component,
        old(timeouts)@.epoch < u64::MAX ==> final(timeouts)@.epoch == old(timeouts)@.epoch + 1,
        old(timeouts)@.epoch == u64::MAX ==> final(timeouts)@.epoch == 0,
{
}

/// An update puts the timeouts of a configuration in force and moves the epoch on by one; one that
/// cannot be read changes nothing and says why.
pub proof fn law_an_update_switches_the_timeouts(
    timeouts: &mut TimeoutRuntimeConfig,
    config: &ResolvedConfiguration,
    r: Result<(), TimeoutConfigError>,
    read: Result<TimeoutSettings, TimeoutConfigError>,
)
    requires
        call_ensures(TimeoutRuntimeConfig::update_from_configuration, (timeouts, config), r),
        call_ensures(TimeoutSettings::from_configuration, (config,), read),
    ensures
        final(timeouts)@.component == old(timeouts)@.component,
        read is Ok ==> r is Ok && final(timeouts)@.timeouts == read->Ok_0@,
        read is Ok && old(timeouts)@.epoch < u64::MAX ==> final(timeouts)@.epoch
            == old(timeouts)@.epoch + 1,
        read is Ok && old(timeouts)@.epoch == u64::MAX ==> final(timeouts)@.epoch == 0,
        read is Err ==> r is Err && r->Err_0 == read->Err_0,
        read is Err ==> final(timeouts)@ == old(timeouts)@,
{
}

/// Whether the measurements of a switch are its epoch and how long it took, under a component, and
/// none without one.
pub open spec fn measured(
    points: Seq<HotReloadPoint>,
    component: Option<Seq<char>>,
    epoch: int,
    nanos: int,
) -> bool {
    &&& component is None ==> points.len() == 0
    &&& component is Some ==> {
        &&& points.len() == 2
        &&& points[0] is Epoch
        &&& points[0]->Epoch_component@ == component->0
        &&& points[0]->epoch == epoch
        &&& points[1] is Latency
        &&& points[1]->Latency_component@ == component->0
        &&& points[1]->latency@ == nanos
    }
}

/// A switch while the fence is held does what a switch does, and is measured: the new epoch, and
/// the time since the timer was started, which is never below zero.
pub proof fn law_a_fenced_switch_is_measured(
    timeouts: &mut TimeoutRuntimeConfig,
    settings: TimeoutSettings,
    timer: HotReloadApplyTimer,
    now: Instant,
    points: Vec<HotReloadPoint>,
)
    requires
        call_ensures(
            TimeoutRuntimeConfig::replace_with_fence,
            (timeouts, settings, timer, now),
            points,
        ),
    ensures
        final(timeouts)@.timeouts == settings@,
        final(timeouts)@.component == old(timeouts)@.component,
        old(timeouts)@.epoch < u64::MAX ==> final(timeouts)@.epoch == old(timeouts)@.epoch + 1,
        now@ >= timer.started() ==> measured(
            points@,
            old(timeouts)@.component,
            final(timeouts)@.epoch as int,
            now@ - timer.started(),
        ),
        now@ < timer.started() ==> measured(
            points@,
            old(timeouts)@.component,
            final(timeouts)@.epoch as int,
            0,
        ),
{
    lemma_points(points@);
}

proof fn lemma_points(points: Seq<HotReloadPoint>)
    ensures
        point_views(points).len() == points.len(),
        forall|i: int| 0 <= i < points.len() ==> #[trigger] point_views(points)[i] == points[i]@,
{
}

/// An update while the fence is held does what an update does, and is measured as a switch is
/// where it takes place.
pub proof fn law_a_fenced_update_is_measured(
    timeouts: &mut TimeoutRuntimeConfig,
    config: &ResolvedConfiguration,
    timer: HotReloadApplyTimer,
    now: Instant,
    r: Result<Vec<HotReloadPoint>, TimeoutConfigError>,
    read: Result<TimeoutSettings, TimeoutConfigError>,
)
    requires
        call_ensures(
            TimeoutRuntimeConfig::update_from_configuration_with_fence,
            (timeouts, config, timer, now),
            r,
        ),
        call_ensures(TimeoutSettings::from_configuration, (config,), read),
        now@ >= timer.started(),
    ensures
        read is Ok ==> r is Ok && final(timeouts)@.timeouts == read->Ok_0@ && measured(
            r->Ok_0@,
            old(timeouts)@.component,
            final(timeouts)@.epoch as int,
            now@ - timer.started(),
        ),
        read is Ok && old(timeouts)@.epoch < u64::MAX ==> final(timeouts)@.epoch
            == old(timeouts)@.epoch + 1,
        final(timeouts)@.component == old(timeouts)@.component,
        read is Err ==> r is Err && r->Err_0 == read->Err_0 && final(timeouts)@ == old(timeouts)@,
{
    if r is Ok {
        lemma_points(r->Ok_0@);
    }
}

/// What is recorded of a switch: nothing without a component; otherwise its epoch, and then how
/// long it took where that was measured.
pub proof fn law_a_switch_is_recorded(
    observability: &HotReloadObservability,
    epoch: u64,
    latency: Option<Duration>,
    points: Vec<HotReloadPoint>,
)
    requires
        call_ensures(HotReloadObservability::record, (observability, epoch, latency), points),
    ensures
        observability@ is None ==> points@.len() == 0,
        observability@ is Some && latency is Some ==> measured(
            points@,
            observability@,
            epoch as int,
            latency->0@ as int,
        ),
        observability@ is Some && latency is None ==> {
            &&& points@.len() == 1
            &&& points@[0] is Epoch
            &&& points@[0]->Epoch_component@ == observability@->0
            &&& points@[0]->epoch == epoch
        },
{
    lemma_points(points@);
    if points@.len() > 0 {
        assert(point_views(points@)[0] == points@[0]@);
    }
}

/// Changes are made one after the other: what was set last counts, and an entry that none of them
/// names stays as it was.
pub proof fn law_the_last_change_counts(
    config: &mut ResolvedConfiguration,
    changes: &Vec<ConfigChange>,
    name: Seq<char>,
    k: int,
)
    requires
        call_ensures(ResolvedConfiguration::apply, (config, changes), ()),
    ensures
        (forall|i: int| 0 <= i < changes@.len() ==> (#[trigger] changes@[i]).name@ != name) ==> {
            &&& final(config)@.dom().contains(name) == old(config)@.dom().contains(name)
            &&& old(config)@.dom().contains(name) ==> final(config)@[name] == old(config)@[name]
        },
        0 <= k < changes@.len() && changes@[k].name@ == name && (forall|i: int|
            k < i < changes@.len() ==> (#[trigger] changes@[i]).name@ != name) ==> {
            &&& final(config)@.dom().contains(name)
            &&& final(config)@[name] == changes@[k].value@
        },
{
    lemma_changes(old(config)@, changes@, name, k);
}

proof fn lemma_changes(
    entries: Map<Seq<char>, ConfigView>,
    changes: Seq<ConfigChange>,
    name: Seq<char>,
    k: int,
)
    ensures
        (forall|i: int| 0 <= i < changes.len() ==> (#[trigger] changes[i]).name@ != name) ==> {
            &&& changed(entries, changes).dom().contains(name) == entries.dom().contains(name)
            &&& entries.dom().contains(name) ==> changed(entries, changes)[name] == entries[name]
        },
        0 <= k < changes.len() && changes[k].name@ == name && (forall|i: int|
            k < i < changes.len() ==> (#[trigger] changes[i]).name@ != name) ==> {
            &&& changed(entries, changes).dom().contains(name)
            &&& changed(entries, changes)[name] == changes[k].value@
        },
    decreases changes.len(),
{
    if changes.len() > 0 {
        let rest = changes.drop_last();
        lemma_changes(entries, rest, name, k);
        assert(changes.last() == changes[changes.len() - 1]);
        assert forall|i: int| 0 <= i < rest.len() implies rest[i] == changes[i] by {}
        if forall|i: int| 0 <= i < changes.len() ==> (#[trigger] changes[i]).name@ != name {
            assert(changes[changes.len() - 1].name@ != name);
            assert forall|i: int| 0 <= i < rest.len() implies (#[trigger] rest[i]).name@ != name by {
                assert(changes[i].name@ != name);
            }
        }
        if 0 <= k < rest.len() && changes[k].name@ == name && (forall|i: int|
            k < i < changes.len() ==> (#[trigger] changes[i]).name@ != name) {
            assert(changes[changes.len() - 1].name@ != name);
            assert forall|i: int| k < i < rest.len() implies (#[trigger] rest[i]).name@ != name by {
                assert(changes[i].name@ != name);
            }
        }
    }
}

/// A reload carries a configuration over to the limit first. Where that cannot be read, it says so
/// and leaves the timeouts alone; otherwise the timeouts are carried over too, and what is wrong
/// with them is told.
pub proof fn law_a_reload_starts_with_the_limit(
    config: &ResolvedConfiguration,
    limits: &mut LimitRuntimeConfig,
    timeouts: &mut TimeoutRuntimeConfig,
    r: Result<(), ReloadError>,
    limit: Result<LimitSettings, LimitConfigError>,
    read: Result<TimeoutSettings, TimeoutConfigError>,
)
    requires
        call_ensures(apply_update, (config, limits, timeouts), r),
        call_ensures(LimitSettings::from_configuration, (config,), limit),
        call_ensures(TimeoutSettings::from_configuration, (config,), read),
    ensures
        limit is Err ==> {
            &&& r == Err::<(), ReloadError>(ReloadError::Limits(limit->Err_0))
            &&& final(limits)@ == old(limits)@
            &&& final(timeouts)@ == old(timeouts)@
        },
        limit is Ok ==> final(limits)@.connections == limit->Ok_0.most(ResourceKind::Connections),
        limit is Ok && old(limits)@.epoch < u64::MAX ==> final(limits)@.epoch
            == old(limits)@.epoch + 1,
        limit is Ok && read is Err ==> {
            &&& r == Err::<(), ReloadError>(ReloadError::Timeouts(read->Err_0))
            &&& final(timeouts)@ == old(timeouts)@
        },
        limit is Ok && read is Ok ==> r is Ok && final(timeouts)@.timeouts == read->Ok_0@,
        limit is Ok && read is Ok && old(timeouts)@.epoch < u64::MAX ==> final(timeouts)@.epoch
            == old(timeouts)@.epoch + 1,
{
}

/// An update takes the first batch that waits off the queue and makes its changes; with none
/// waiting it says so and changes nothing.
pub proof fn law_batches_are_taken_in_order(
    queue: &mut ChangeQueue,
    config: &mut ResolvedConfiguration,
    r: Result<(), ReloadError>,
    name: Seq<char>,
    k: int,
)
    requires
        call_ensures(wait_for_update, (queue, config), r),
    ensures
        old(queue)@.len() == 0 ==> {
            &&& r is Err && r->Err_0 is NothingWaits
            &&& final(queue)@.len() == 0
            &&& final(config)@ == old(config)@
        },
        old(queue)@.len() > 0 ==> {
            let changes = old(queue)@[0]@;
            &&& r is Ok
            &&& final(queue)@ == old(queue)@.subrange(1, old(queue)@.len() as int)
            &&& (forall|i: int| 0 <= i < changes.len() ==> (#[trigger] changes[i]).name@ != name)
                ==> {
                &&& final(config)@.dom().contains(name) == old(config)@.dom().contains(name)
                &&& old(config)@.dom().contains(name) ==> final(config)@[name] == old(config)@[name]
            }
            &&& 0 <= k < changes.len() && changes[k].name@ == name && (forall|i: int|
                k < i < changes.len() ==> (#[trigger] changes[i]).name@ != name) ==> {
                &&& final(config)@.dom().contains(name)
                &&& final(config)@[name] == changes[k].value@
            }
        },
{
    if old(queue)@.len() > 0 {
        lemma_changes(old(config)@, old(queue)@[0]@, name, k);
        assert(old(queue)@.skip(1) =~= old(queue)@.subrange(1, old(queue)@.len() as int));
    }
}

/// A joined task gives its value. One of another type than promised is a failure that says so, and
/// any other outcome is passed on.
pub proof fn law_a_joined_task_gives_its_value<T>(
    joined: Result<Option<T>, TaskError>,
    r: Result<T, TaskError>,
)
    requires
        call_ensures(restore_output::<T>, (joined,), r),
    ensures
        joined is Ok && joined->Ok_0 is Some ==> r is Ok && r->Ok_0 == joined->Ok_0->0,
        joined is Ok && joined->Ok_0 is None ==> r is Err && r->Err_0 is Failed
            && r->Err_0->Failed_0@ == "join handle type mismatch"@,
        joined is Err ==> r is Err && r->Err_0 == joined->Err_0,
{
}

/// Services that are made with a facade are observable through the parts that it was made of, and
/// stand alone; the facade that they hand out again is made of the same parts.
pub proof fn law_services_are_observable_through_the_given_parts<R, B, M, L, C, D, O, H>(
    runtime: Arc<R>,
    pool: Arc<B>,
    facade: DefaultObservabilityFacade<M, L, O, H>,
    services: CoreServices<R, B, M, L, C, D, O, H>,
    again: DefaultObservabilityFacade<M, L, O, H>,
)
    requires
        call_ensures(
            CoreServices::<
                R,
                B,
                M,
                L,
                C,
                D,
                O,
                H,
            >::with_observability_facade::<DefaultObservabilityFacade<M, L, O, H>>,
            (runtime, pool, facade),
            services,
        ),
        call_ensures(
            CoreServices::<R, B, M, L, C, D, O, H>::observability_facade,
            (&services,),
            again,
        ),
    ensures
        services.runtime == runtime,
        services.buffer_pool == pool,
        services.membership is None,
        services.discovery is None,
        *services.logger == facade.parts().0,
        *services.metrics == facade.parts().1,
        *services.ops_bus == facade.parts().2,
        *services.health_checks == facade.parts().3,
        again.parts() == facade.parts(),
{
}

} // verus!
