use service_discovery::backend::StubMdnsDiscovery;
use service_discovery::facade::InitializationError;
use service_discovery::facade::ServiceDiscovery;
use service_discovery::facade::wrap_daemon_result;

#[test]
fn no_available_services() {
    let service_discovery = ServiceDiscovery::new_null();

    let services = service_discovery.browse();
    assert!(services.is_empty());
}

#[test]
fn empty_stub_browses_empty() {
    let stub = StubMdnsDiscovery::new(Vec::new());
    let discovery = ServiceDiscovery::with_backend(stub);
    let services = discovery.browse();
    assert_eq!(services, Vec::<String>::new());
}

#[test]
fn stub_names_come_back_unchanged_and_in_order() {
    let names = vec!["printer._mdns".to_string(), "camera._mdns".to_string()];
    let discovery = ServiceDiscovery::with_backend(StubMdnsDiscovery::new(names));
    let services = discovery.browse();
    assert_eq!(
        services,
        vec!["printer._mdns".to_string(), "camera._mdns".to_string()]
    );
}

#[test]
fn repeated_browse_on_fixed_stub_is_identical() {
    let names = vec!["printer._mdns".to_string(), "camera._mdns".to_string()];
    let discovery = ServiceDiscovery::with_backend(StubMdnsDiscovery::new(names));
    let first = discovery.browse();
    let second = discovery.browse();
    assert_eq!(first, second);
    assert_eq!(first.len(), 2);
}

#[test]
fn failed_acquisition_becomes_the_uniform_error() {
    let failed: Result<mdns_sd::ServiceDaemon, mdns_sd::Error> =
        Err(mdns_sd::Error::Msg("no usable network interface".to_string()));
    let discovery = wrap_daemon_result(failed);
    assert!(matches!(discovery, Err(InitializationError)));
}

#[test]
fn successful_acquisition_becomes_a_facade() {
    if let Ok(daemon) = mdns_sd::ServiceDaemon::new() {
        let discovery = wrap_daemon_result(Ok(daemon));
        assert!(discovery.is_ok());
    }
}

#[test]
fn production_construction_never_panics() {
    match ServiceDiscovery::new() {
        Ok(discovery) => {
            let _services = discovery.browse();
        }
        Err(error) => assert_eq!(error, InitializationError),
    }
}
