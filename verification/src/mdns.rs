//! The production adapter: binds the discovery capability to one live
//! mDNS daemon of the `mdns_sd` crate.

use vstd::prelude::*;

use crate::backend::MdnsDiscoveryTrait;

verus! {

/// Declares `mdns_sd::ServiceDaemon`, the cloneable handle to the daemon
/// thread that performs all multicast DNS work.
#[verifier::external_type_specification]
#[verifier::external_body]
pub struct ExServiceDaemon(mdns_sd::ServiceDaemon);

/// Declares `mdns_sd::Error`, the error type of the daemon's fallible
/// operations.
#[verifier::external_type_specification]
#[verifier::external_body]
pub struct ExMdnsError(mdns_sd::Error);

/// Declares `mdns_sd::ServiceEvent`, the events a browse operation reports.
#[verifier::external_type_specification]
#[verifier::external_body]
pub struct ExServiceEvent(mdns_sd::ServiceEvent);

/// Declares `mdns_sd::Receiver`, the channel receiver (a re-export of
/// `flume::Receiver`) on which the daemon delivers browse events.
#[verifier::external_type_specification]
#[verifier::external_body]
#[verifier::reject_recursive_types(T)]
pub struct ExReceiver<T>(mdns_sd::Receiver<T>);

/// One browse event, reduced to what the discovery logic reads.
pub(crate) enum BrowseEvent {
    /// A service was found; holds its full name.
    Found(String),
    /// Any other report from the daemon (search started or stopped, a
    /// service resolved or removed).
    Other,
}

/// Relies on `mdns_sd::ServiceDaemon::new`: starts a daemon thread and
/// returns a handle to it, or the error that kept it from starting. Whether
/// it succeeds depends on the machine, so nothing more is promised of the
/// outcome.
#[verifier::external_body]
pub(crate) fn daemon_new() -> (acquired: Result<mdns_sd::ServiceDaemon, mdns_sd::Error>) {
    mdns_sd::ServiceDaemon::new()
}

/// Relies on `mdns_sd::ServiceDaemon::browse`: asks the daemon to browse for
/// the given service type and returns the channel on which events about it
/// arrive, or the daemon's refusal (a malformed service type, a full command
/// queue, or a daemon already shut down).
#[verifier::external_body]
fn daemon_browse(
    daemon: &mdns_sd::ServiceDaemon,
    service_type: &str,
) -> (events: Result<mdns_sd::Receiver<mdns_sd::ServiceEvent>, mdns_sd::Error>) {
    daemon.browse(service_type)
}

/// Relies on `mdns_sd::ServiceDaemon::stop_browse`: asks the daemon to stop
/// browsing for the given service type.
#[verifier::external_body]
fn daemon_stop_browse(
    daemon: &mdns_sd::ServiceDaemon,
    service_type: &str,
) -> (stopped: Result<(), mdns_sd::Error>) {
    daemon.stop_browse(service_type)
}

/// Relies on `flume::Receiver::recv_timeout` (the receiver is re-exported by
/// `mdns_sd`): returns the next event if one arrives within `wait_ms`
/// milliseconds, and nothing once the wait runs out or the channel is closed.
/// Which event arrives depends on the network, so nothing more is promised
/// of the outcome.
#[verifier::external_body]
fn next_event(
    events: &mdns_sd::Receiver<mdns_sd::ServiceEvent>,
    wait_ms: u64,
) -> (event: Option<BrowseEvent>) {
    match events.recv_timeout(core::time::Duration::from_millis(wait_ms)) {
        Ok(mdns_sd::ServiceEvent::ServiceFound(_service_type, full_name)) => {
            Some(BrowseEvent::Found(full_name))
        },
        Ok(_) => Some(BrowseEvent::Other),
        Err(_) => None,
    }
}

/// Adapter that implements the discovery capability over one live daemon,
/// owned for the adapter's whole lifetime and fixed at construction.
pub struct MdnsDiscovery(pub(crate) mdns_sd::ServiceDaemon);

impl MdnsDiscovery {
    /// The daemon this adapter is bound to.
    pub open(crate) spec fn daemon(&self) -> mdns_sd::ServiceDaemon {
        self.0
    }
}

impl MdnsDiscoveryTrait for MdnsDiscovery {
    /// The daemon answers from live network state and may deliver any
    /// events, so no result sequence can be ruled out at the capability
    /// level. The binding statement — one `browse` reports exactly the
    /// `Found` names of the events actually received, in order, and the
    /// empty sequence when the daemon refuses the query — stands on
    /// `names_of_query_outcome` and `collect_found_names`, which are
    /// verified for every value the daemon can hand back.
    open spec fn may_return(&self, names: Seq<Seq<char>>) -> bool {
        true
    }

    /// Queries the daemon for the service types currently advertised on the
    /// network (the meta-query of DNS-SD) and returns their names. If the
    /// daemon refuses the query or has discovered nothing, the result is
    /// empty.
    fn browse(&self) -> (services: Vec<String>) {
        let outcome = daemon_browse(&self.0, "_services._dns-sd._udp.local.");
        let accepted = outcome.is_ok();
        let (services, _received) = names_of_query_outcome(outcome);
        if accepted {
            let _ = daemon_stop_browse(&self.0, "_services._dns-sd._udp.local.");
        }
        services
    }
}

/// The names of the `Found` events in `events`, in order; `Other` events
/// contribute nothing.
spec fn found_names(events: Seq<BrowseEvent>) -> Seq<Seq<char>>
    decreases events.len(),
{
    if events.len() == 0 {
        Seq::empty()
    } else {
        found_names(events.drop_last()) + (match events.last() {
            BrowseEvent::Found(name) => seq![name@],
            BrowseEvent::Other => Seq::<Seq<char>>::empty(),
        })
    }
}

/// Receiving one more event extends the found names by that event's name,
/// if it carries one.
proof fn lemma_found_names_push(events: Seq<BrowseEvent>, event: BrowseEvent)
    ensures
        found_names(events.push(event)) == (match event {
            BrowseEvent::Found(name) => found_names(events).push(name@),
            BrowseEvent::Other => found_names(events),
        }),
{
    let pushed = events.push(event);
    assert(pushed.drop_last() =~= events);
    assert(pushed.last() == event);
    match event {
        BrowseEvent::Found(name) => {
            assert(found_names(events) + seq![name@] =~= found_names(events).push(name@));
        },
        BrowseEvent::Other => {
            assert(found_names(events) + Seq::<Seq<char>>::empty() =~= found_names(events));
        },
    }
}

/// Turns one query outcome into the reported names: when the daemon accepted
/// the query, the names of the `Found` events received on its channel; when
/// it refused, the empty sequence — the failure is swallowed, never passed
/// to the caller, since absence of services is indistinguishable from
/// failure at this level. Also returns the record of the events received.
fn names_of_query_outcome(
    outcome: Result<mdns_sd::Receiver<mdns_sd::ServiceEvent>, mdns_sd::Error>,
) -> (reported: (Vec<String>, Ghost<Seq<BrowseEvent>>))
    ensures
        reported.0.deep_view() == found_names(reported.1@),
        outcome is Err ==> reported.0.deep_view() == Seq::<Seq<char>>::empty(),
{
    match outcome {
        Ok(events) => collect_found_names(&events),
        Err(_) => {
            let services: Vec<String> = Vec::new();
            proof {
                assert(services.deep_view() =~= Seq::<Seq<char>>::empty());
                assert(found_names(Seq::<BrowseEvent>::empty()) == Seq::<Seq<char>>::empty());
            }
            (services, Ghost(Seq::empty()))
        },
    }
}

/// Drains the browse channel and keeps the names of the services found:
/// exactly the names of the `Found` events received, in the order received.
/// Also returns the record of the events received. The drain is bounded: it
/// ends at the first quiet wait, and after a fixed number of events in any
/// case, so browsing never blocks indefinitely.
fn collect_found_names(
    events: &mdns_sd::Receiver<mdns_sd::ServiceEvent>,
) -> (reported: (Vec<String>, Ghost<Seq<BrowseEvent>>))
    ensures
        reported.0.deep_view() == found_names(reported.1@),
{
    let mut services: Vec<String> = Vec::new();
    let ghost mut received: Seq<BrowseEvent> = Seq::empty();
    let mut remaining: u32 = 64;
    proof {
        assert(services.deep_view() =~= Seq::<Seq<char>>::empty());
    }
    while remaining > 0
        invariant
            services.deep_view() == found_names(received),
        decreases remaining,
    {
        match next_event(events, 100) {
            None => {
                return (services, Ghost(received));
            },
            Some(event) => {
                let ghost prev_received = received;
                let ghost prev_names = services.deep_view();
                proof {
                    lemma_found_names_push(prev_received, event);
                    received = prev_received.push(event);
                }
                match event {
                    BrowseEvent::Found(full_name) => {
                        services.push(full_name);
                        proof {
                            assert(services.deep_view() =~= prev_names.push(full_name@));
                        }
                    },
                    BrowseEvent::Other => {},
                }
            },
        }
        remaining = remaining - 1;
    }
    (services, Ghost(received))
}

} // verus!
