//! What the case on settings that change does to them, value by value.
use vstd::prelude::*;

use crate::contract_tests::hot_reload::{
    first_changes, idle_timeout_key, initial_configuration, initial_settings, read_settings,
    reload_twice, request_timeout_key, second_changes, ReloadError, ReloadReadings,
    SettingsReading,
};
use crate::runtime::configuration::{
    ChangeQueue, ConfigChange, ConfigView, ResolvedConfiguration,
};
use crate::runtime::limits::{LimitRuntimeConfig, ResourceKind};
use crate::runtime::timeouts::TimeoutRuntimeConfig;
use crate::task::Poll;

verus! {

proof fn lemma_names()
    ensures
        crate::runtime::limits::limit_entry(ResourceKind::Connections)
            == "limits.connections.limit"@,
        "limits.connections.limit"@ != "timeouts.request_ms"@,
        "limits.connections.limit"@ != "timeouts.idle_ms"@,
        "timeouts.request_ms"@ != "timeouts.idle_ms"@,
{
    reveal_strlit("limits.");
    reveal_strlit("connections");
    reveal_strlit(".limit");
    reveal_strlit("limits.connections.limit");
    reveal_strlit("timeouts.request_ms");
    reveal_strlit("timeouts.idle_ms");
    assert("limits."@ + "connections"@ + ".limit"@ =~= "limits.connections.limit"@);
    assert("limits.connections.limit"@[0] == 'l');
    assert("timeouts.request_ms"@[0] == 't');
    assert("timeouts.idle_ms"@[0] == 't');
    assert("timeouts.request_ms"@.len() == 19);
    assert("timeouts.idle_ms"@.len() == 16);
}

/// The case begins with 4096 connections, five seconds for a request and a minute of idling, and
/// with both epochs at zero; the two batches change the limit and the request timeout at once, and
/// then the idle timeout.
pub proof fn law_the_case_begins_and_changes_as_told(
    config: ResolvedConfiguration,
    settings: Result<(LimitRuntimeConfig, TimeoutRuntimeConfig), ReloadError>,
    first: Vec<ConfigChange>,
    second: Vec<ConfigChange>,
    request: String,
    idle: String,
)
    requires
        call_ensures(initial_configuration, (), config),
        call_ensures(initial_settings, (), settings),
        call_ensures(first_changes, (), first),
        call_ensures(second_changes, (), second),
        call_ensures(request_timeout_key, (), request),
        call_ensures(idle_timeout_key, (), idle),
    ensures
        config@.dom().contains("limits.connections.limit"@) && config@["limits.connections.limit"@]
            == ConfigView::Integer(4_096),
        config@.dom().contains("timeouts.request_ms"@) && config@["timeouts.request_ms"@]
            == ConfigView::Integer(5_000),
        config@.dom().contains("timeouts.idle_ms"@) && config@["timeouts.idle_ms"@]
            == ConfigView::Integer(60_000),
        settings is Ok,
        (settings->Ok_0).0@.connections == 4_096 && (settings->Ok_0).0@.epoch == 0,
        (settings->Ok_0).1@.timeouts.request == 5_000_000_000,
        (settings->Ok_0).1@.timeouts.idle == 60_000_000_000,
        (settings->Ok_0).1@.epoch == 0,
        first@.len() == 2,
        first@[0].name@ == "limits.connections.limit"@ && first@[0].value@ == ConfigView::Integer(
            2_048,
        ),
        first@[1].name@ == "timeouts.request_ms"@ && first@[1].value@ == ConfigView::Integer(8_000),
        second@.len() == 1,
        second@[0].name@ == "timeouts.idle_ms"@ && second@[0].value@ == ConfigView::Integer(30_000),
        request@ == "timeouts.request_ms"@,
        idle@ == "timeouts.idle_ms"@,
{
    lemma_names();
}

/// A reading tells what limits and timeouts are in force, and which epochs they are at.
pub proof fn law_a_reading_tells_what_is_in_force(
    limits: &LimitRuntimeConfig,
    timeouts: &TimeoutRuntimeConfig,
    reading: SettingsReading,
)
    requires
        call_ensures(read_settings, (limits, timeouts), reading),
    ensures
        reading.limit_epoch == limits@.epoch,
        reading.timeout_epoch == timeouts@.epoch,
        reading.connections == limits@.connections,
        reading.request_timeout@ == timeouts@.timeouts.request,
        reading.idle_timeout@ == timeouts@.timeouts.idle,
{
}

/// Whatever was in force before, two reloads end at 2048 connections, eight seconds for a request
/// and half a minute of idling; after the first of them the limit and the request timeout are those
/// already and the idle timeout is a minute; each moves both epochs on by one.
pub proof fn law_two_reloads_end_at_the_latest_values(
    limits: &mut LimitRuntimeConfig,
    timeouts: &mut TimeoutRuntimeConfig,
    r: Result<ReloadReadings, ReloadError>,
)
    requires
        old(limits)@.epoch < u64::MAX - 1,
        old(timeouts)@.epoch < u64::MAX - 1,
        call_ensures(reload_twice, (limits, timeouts), r),
    ensures
        r is Ok,
        ({
            let (start, first, second) = (
                r->Ok_0.start,
                r->Ok_0.after_first,
                r->Ok_0.after_second,
            );
            &&& start.connections == old(limits)@.connections
            &&& start.limit_epoch == old(limits)@.epoch
            &&& start.timeout_epoch == old(timeouts)@.epoch
            &&& start.request_timeout@ == old(timeouts)@.timeouts.request
            &&& start.idle_timeout@ == old(timeouts)@.timeouts.idle
            &&& first.connections == 2_048
            &&& first.request_timeout@ == 8_000_000_000
            &&& first.idle_timeout@ == 60_000_000_000
            &&& first.limit_epoch == start.limit_epoch + 1
            &&& first.timeout_epoch == start.timeout_epoch + 1
            &&& second.connections == 2_048
            &&& second.request_timeout@ == 8_000_000_000
            &&& second.idle_timeout@ == 30_000_000_000
            &&& second.limit_epoch == start.limit_epoch + 2
            &&& second.timeout_epoch == start.timeout_epoch + 2
        }),
        final(limits)@.connections == 2_048,
        final(limits)@.epoch == old(limits)@.epoch + 2,
        final(timeouts)@.timeouts.request == 8_000_000_000,
        final(timeouts)@.timeouts.idle == 30_000_000_000,
        final(timeouts)@.epoch == old(timeouts)@.epoch + 2,
        final(timeouts)@.component == old(timeouts)@.component,
{
    lemma_names();
    crate::contract_tests::hot_reload::lemma_entries(2_048, 8_000, 60_000);
    crate::contract_tests::hot_reload::lemma_entries(2_048, 8_000, 30_000);
}

/// Batches wait in the order in which they were added, and are taken from the front.
pub proof fn law_batches_wait_in_order(
    longer: &mut ChangeQueue,
    batch: Vec<ConfigChange>,
    shorter: &mut ChangeQueue,
    polled: Poll<Vec<ConfigChange>>,
)
    requires
        call_ensures(ChangeQueue::push, (longer, batch), ()),
        call_ensures(ChangeQueue::poll_next, (shorter,), polled),
    ensures
        final(longer)@ == old(longer)@ + seq![batch],
        old(shorter)@.len() == 0 ==> polled is Pending && final(shorter)@ == old(shorter)@,
        old(shorter)@.len() > 0 ==> polled is Ready && seq![polled->Ready_0] + final(shorter)@
            == old(shorter)@,
{
    assert(final(longer)@ =~= old(longer)@ + seq![batch]);
    if old(shorter)@.len() > 0 {
        assert(seq![polled->Ready_0] + final(shorter)@ =~= old(shorter)@);
    }
}

} // verus!
