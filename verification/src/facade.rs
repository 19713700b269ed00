//! The backend-agnostic discovery facade.

use vstd::prelude::*;

use crate::backend::MdnsDiscoveryTrait;
use crate::backend::StubMdnsDiscovery;
use crate::mdns::MdnsDiscovery;
use crate::mdns::daemon_new;

verus! {

/// The uniform error of the production constructor: the discovery mechanism
/// could not be made available. It is deliberately opaque — the facade does
/// not expose backend-specific error shapes.
#[derive(Clone, Copy, Debug, PartialEq, Eq, Structural)]
pub struct InitializationError;

/// A service discovery facade. It owns exactly one backend, fixed at
/// construction and never swapped afterward, and holds no other state:
/// `browse` is pure delegation to that backend.
pub struct ServiceDiscovery<M: MdnsDiscoveryTrait> {
    mdns_discovery: M,
}

impl<M: MdnsDiscoveryTrait> ServiceDiscovery<M> {
    /// The backend this facade holds.
    pub closed spec fn backend(&self) -> M {
        self.mdns_discovery
    }

    /// Builds a facade over the given backend: the substitution path, open
    /// to any implementation of the capability.
    pub fn with_backend(backend: M) -> (discovery: Self)
        ensures
            discovery.backend() == backend,
    {
        ServiceDiscovery { mdns_discovery: backend }
    }

    /// Returns the names of the services the held backend currently knows
    /// of: exactly a sequence the backend's own `browse` may yield, with no
    /// filtering, reordering, deduplication or caching at this layer.
    pub fn browse(&self) -> (services: Vec<String>)
        ensures
            self.backend().may_return(services.deep_view()),
    {
        self.mdns_discovery.browse()
    }
}

impl ServiceDiscovery<StubMdnsDiscovery> {
    /// Builds a null facade: a stub backend fixed to the empty sequence, so
    /// `browse` always reports no services.
    pub fn new_null() -> (discovery: Self)
        ensures
            discovery.backend().fixed() == Seq::<Seq<char>>::empty(),
    {
        ServiceDiscovery::with_backend(StubMdnsDiscovery::empty())
    }
}

impl ServiceDiscovery<MdnsDiscovery> {
    /// Builds the production facade over a freshly acquired mDNS daemon.
    /// This is the sole fallible operation: when the daemon cannot be
    /// started, the uniform `InitializationError` is returned, and a facade
    /// is returned only over a backend that did acquire its daemon.
    pub fn new() -> (discovery: Result<Self, InitializationError>)
        ensures
            discovery matches Err(error) ==> error == InitializationError,
    {
        wrap_daemon_result(daemon_new())
    }
}

/// Turns the outcome of acquiring a daemon into the facade's own terms: a
/// facade over the acquired daemon exactly when acquisition succeeded, and
/// the uniform `InitializationError` exactly when it failed — an acquisition
/// failure is never passed off as a working facade, and never a panic.
pub fn wrap_daemon_result(
    acquired: Result<mdns_sd::ServiceDaemon, mdns_sd::Error>,
) -> (discovery: Result<ServiceDiscovery<MdnsDiscovery>, InitializationError>)
    ensures
        discovery is Ok <==> acquired is Ok,
        acquired matches Ok(daemon) ==> (discovery matches Ok(facade)
            && facade.backend().daemon() == daemon),
        discovery matches Err(error) ==> error == InitializationError,
{
    match acquired {
        Ok(daemon) => Ok(ServiceDiscovery::with_backend(MdnsDiscovery(daemon))),
        Err(_) => Err(InitializationError),
    }
}

/// Law: a facade over a stub reports nothing but the stub's fixed sequence —
/// delegation adds, drops and reorders nothing.
pub proof fn lemma_stub_facade_returns_fixed(
    discovery: ServiceDiscovery<StubMdnsDiscovery>,
    names: Seq<Seq<char>>,
)
    requires
        discovery.backend().may_return(names),
    ensures
        names == discovery.backend().fixed(),
{
}

/// Law: a facade over a stub fixed to the empty sequence can only report the
/// empty sequence, however many times `browse` is called.
pub proof fn lemma_null_facade_browses_empty(
    discovery: ServiceDiscovery<StubMdnsDiscovery>,
    names: Seq<Seq<char>>,
)
    requires
        discovery.backend().fixed() == Seq::<Seq<char>>::empty(),
        discovery.backend().may_return(names),
    ensures
        names == Seq::<Seq<char>>::empty(),
{
}

} // verus!
