//! The discovery capability and its deterministic stub backend.

use vstd::prelude::*;

verus! {

/// Capability contract for mDNS service discovery.
///
/// An implementation reports the names of the services it currently knows
/// of. `may_return` is the implementation's model of its own behaviour: the
/// set of name sequences one `browse` call may yield in the backend's current
/// state. A deterministic backend admits exactly one sequence; a backend
/// bound to live network state admits any, since "nothing discovered" and
/// "nothing discoverable" are indistinguishable at this level. Browsing
/// cannot fail: a backend that cannot determine the current state reports
/// the empty sequence.
pub trait MdnsDiscoveryTrait {
    /// Which sequences of service names one `browse` call may yield.
    spec fn may_return(&self, names: Seq<Seq<char>>) -> bool;

    /// Returns the names of the services currently known to this backend,
    /// in the order the backend yields them; possibly empty.
    fn browse(&self) -> (services: Vec<String>)
        ensures
            self.may_return(services.deep_view()),
    ;
}

/// A stub backend with no network interaction: `browse` always returns the
/// fixed sequence of names the stub was built with.
pub struct StubMdnsDiscovery {
    names: Vec<String>,
}

impl StubMdnsDiscovery {
    /// The one sequence this stub ever returns.
    pub closed spec fn fixed(&self) -> Seq<Seq<char>> {
        self.names.deep_view()
    }

    /// Builds a stub that always reports exactly `names`.
    pub fn new(names: Vec<String>) -> (stub: Self)
        ensures
            stub.fixed() == names.deep_view(),
    {
        StubMdnsDiscovery { names }
    }

    /// Builds a stub that always reports no services at all.
    pub fn empty() -> (stub: Self)
        ensures
            stub.fixed() == Seq::<Seq<char>>::empty(),
    {
        let names: Vec<String> = Vec::new();
        proof {
            assert(names.deep_view() =~= Seq::<Seq<char>>::empty());
        }
        StubMdnsDiscovery { names }
    }
}

impl MdnsDiscoveryTrait for StubMdnsDiscovery {
    /// A stub is deterministic: the fixed sequence is the only possible result.
    open spec fn may_return(&self, names: Seq<Seq<char>>) -> bool {
        names == self.fixed()
    }

    fn browse(&self) -> (services: Vec<String>) {
        let services = self.names.clone();
        proof {
            assert forall|i: int| 0 <= i < services@.len() implies services@[i]@
                == self.names@[i]@ by {
                assert(cloned::<String>(self.names@[i], services@[i]));
            }
            assert(services.deep_view() =~= self.names.deep_view());
        }
        services
    }
}

/// Law: a stub backend is deterministic — any two sequences its `browse`
/// may yield are equal, so repeated calls cannot differ.
pub proof fn lemma_stub_browse_deterministic(
    stub: StubMdnsDiscovery,
    first: Seq<Seq<char>>,
    second: Seq<Seq<char>>,
)
    requires
        stub.may_return(first),
        stub.may_return(second),
    ensures
        first == second,
{
}

} // verus!
