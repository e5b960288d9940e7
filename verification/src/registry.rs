//! The registry of probes.
//!
//! A registry is an explicit value: it is built once, handed to whoever
//! runs a detection, and read from then on. A detection works on a
//! snapshot of it, so that a registration made while a run is under way
//! does not reach that run.

use crate::provider_id::{lemma_names_distinct, ProviderId};
use crate::providers::{lemma_one_probe_per_provider, Probe};
use vstd::prelude::*;

verus! {

/// The probes that a registry holds when nothing else was asked for, in
/// the order in which they are registered.
pub open spec fn default_probes() -> Seq<Probe> {
    seq![
        Probe::Alibaba,
        Probe::Aws,
        Probe::Azure,
        Probe::DigitalOcean,
        Probe::Gcp,
        Probe::Oci,
        Probe::OpenStack,
        Probe::Vultr,
    ]
}

/// The identifiers of the providers that `probes` recognise, in order.
pub open spec fn identifiers_of(probes: Seq<Probe>) -> Seq<ProviderId> {
    probes.map_values(|probe: Probe| probe.id())
}

/// The names of the providers that `probes` recognise, in order.
pub open spec fn names_of(probes: Seq<Probe>) -> Seq<Seq<char>> {
    probes.map_values(|probe: Probe| probe.id().name())
}

/// The texts that a list of strings holds, in order.
pub open spec fn texts_of(strings: Seq<String>) -> Seq<Seq<char>> {
    strings.map_values(|string: String| string@)
}

/// An ordered collection of probes in which no probe occurs twice.
pub struct Registry {
    probes: Vec<Probe>,
}

impl View for Registry {
    type V = Seq<Probe>;

    closed spec fn view(&self) -> Seq<Probe> {
        self.probes@
    }
}

impl Registry {
    #[verifier::type_invariant]
    spec fn no_probe_twice(self) -> bool {
        self.probes@.no_duplicates()
    }

    /// A registry without probes.
    pub fn new() -> (registry: Registry)
        ensures
            registry@ == Seq::<Probe>::empty(),
    {
        Registry { probes: Vec::new() }
    }

    /// The registry of the probes that are supported out of the box.
    pub fn with_default_probes() -> (registry: Registry)
        ensures
            registry@ == default_probes(),
    {
        let mut probes: Vec<Probe> = Vec::new();
        probes.push(Probe::Alibaba);
        probes.push(Probe::Aws);
        probes.push(Probe::Azure);
        probes.push(Probe::DigitalOcean);
        probes.push(Probe::Gcp);
        probes.push(Probe::Oci);
        probes.push(Probe::OpenStack);
        probes.push(Probe::Vultr);
        assert(probes@ =~= default_probes());
        Registry { probes }
    }

    /// The number of registered probes.
    pub fn len(&self) -> (n: usize)
        ensures
            n == self@.len(),
    {
        self.probes.len()
    }

    /// Whether no probe is registered.
    pub fn is_empty(&self) -> (empty: bool)
        ensures
            empty == (self@.len() == 0),
    {
        self.probes.len() == 0
    }

    /// Whether `probe` is registered.
    pub fn contains(&self, probe: Probe) -> (found: bool)
        ensures
            found == self@.contains(probe),
    {
        let mut i: usize = 0;
        while i < self.probes.len()
            invariant
                i <= self.probes@.len(),
                forall|j: int| 0 <= j < i ==> self.probes@[j] != probe,
            decreases self.probes@.len() - i,
        {
            if self.probes[i] == probe {
                return true;
            }
            i += 1;
        }
        false
    }

    /// Registers `probe` behind the probes that are there already. A
    /// probe that is registered already is not registered again.
    pub fn register(&mut self, probe: Probe) -> (added: bool)
        ensures
            added == !old(self)@.contains(probe),
            final(self)@ == if added {
                old(self)@.push(probe)
            } else {
                old(self)@
            },
    {
        proof {
            use_type_invariant(&*self);
        }
        if self.contains(probe) {
            false
        } else {
            let mut probes = self.snapshot_probes();
            probes.push(probe);
            *self = Registry { probes };
            true
        }
    }

    /// The identifier of every registered probe, in the order of
    /// registration. No identifier comes twice.
    pub fn list_identifiers(&self) -> (identifiers: Vec<ProviderId>)
        ensures
            identifiers@ == identifiers_of(self@),
            identifiers@.no_duplicates(),
    {
        let mut identifiers: Vec<ProviderId> = Vec::new();
        let mut i: usize = 0;
        while i < self.probes.len()
            invariant
                i <= self.probes@.len(),
                identifiers@ == identifiers_of(self.probes@.take(i as int)),
            decreases self.probes@.len() - i,
        {
            identifiers.push(self.probes[i].identifier());
            i += 1;
            assert(identifiers@ =~= identifiers_of(self.probes@.take(i as int)));
        }
        proof {
            use_type_invariant(self);
            assert(self.probes@.take(i as int) =~= self.probes@);
            lemma_listing_is_exact(self@);
        }
        identifiers
    }

    /// The name of every registered probe's provider, in the order of
    /// registration. No name comes twice.
    pub fn supported_providers(&self) -> (names: Vec<String>)
        ensures
            texts_of(names@) == names_of(self@),
            texts_of(names@).no_duplicates(),
    {
        let mut names: Vec<String> = Vec::new();
        let mut i: usize = 0;
        while i < self.probes.len()
            invariant
                i <= self.probes@.len(),
                names@.len() == i,
                texts_of(names@) == names_of(self.probes@.take(i as int)),
            decreases self.probes@.len() - i,
        {
            let ghost before = names@;
            let name = self.probes[i].identifier().to_string();
            names.push(name);
            i += 1;
            assert forall|j: int| 0 <= j < names@.len() implies texts_of(names@)[j] == names_of(
                self.probes@.take(i as int),
            )[j] by {
                if j < i - 1 {
                    assert(texts_of(before)[j] == names_of(self.probes@.take(i - 1))[j]);
                }
            }
            assert(texts_of(names@) =~= names_of(self.probes@.take(i as int)));
        }
        proof {
            use_type_invariant(self);
            assert(self.probes@.take(i as int) =~= self.probes@);
            lemma_listing_is_exact(self@);
        }
        names
    }

    /// A copy of the registered probes, in the order of registration. The
    /// copy is the caller's own: what is registered later does not show in
    /// it.
    pub fn snapshot_probes(&self) -> (snapshot: Vec<Probe>)
        ensures
            snapshot@ == self@,
            snapshot@.no_duplicates(),
    {
        let mut snapshot: Vec<Probe> = Vec::new();
        let mut i: usize = 0;
        while i < self.probes.len()
            invariant
                i <= self.probes@.len(),
                snapshot@ == self.probes@.take(i as int),
            decreases self.probes@.len() - i,
        {
            snapshot.push(self.probes[i]);
            i += 1;
            assert(snapshot@ =~= self.probes@.take(i as int));
        }
        proof {
            use_type_invariant(self);
            assert(self.probes@.take(i as int) =~= self.probes@);
        }
        snapshot
    }
}

/// Returns a list of currently supported providers: the names of the
/// providers whose probes are registered out of the box.
pub fn supported_providers() -> (names: Vec<String>)
    ensures
        texts_of(names@) == names_of(default_probes()),
        texts_of(names@).no_duplicates(),
{
    Registry::with_default_probes().supported_providers()
}

/// The listing of a registry is exact: it names every registered probe's
/// provider and no other, and where no probe is registered twice, no
/// identifier and no name is listed twice.
pub proof fn lemma_listing_is_exact(probes: Seq<Probe>)
    requires
        probes.no_duplicates(),
    ensures
        identifiers_of(probes).len() == probes.len(),
        names_of(probes).len() == probes.len(),
        identifiers_of(probes).no_duplicates(),
        names_of(probes).no_duplicates(),
        forall|id: ProviderId|
            identifiers_of(probes).contains(id) <==> exists|probe: Probe|
                probes.contains(probe) && probe.id() == id,
        forall|name: Seq<char>|
            names_of(probes).contains(name) <==> exists|probe: Probe|
                probes.contains(probe) && probe.id().name() == name,
{
    let ids = identifiers_of(probes);
    let names = names_of(probes);
    assert forall|i: int, j: int| 0 <= i < ids.len() && 0 <= j < ids.len() && i != j implies ids[i]
        != ids[j] by {
        lemma_one_probe_per_provider(probes[i], probes[j]);
    }
    assert forall|i: int, j: int|
        0 <= i < names.len() && 0 <= j < names.len() && i != j implies names[i] != names[j] by {
        lemma_one_probe_per_provider(probes[i], probes[j]);
        lemma_names_distinct(probes[i].id(), probes[j].id());
    }
    assert forall|id: ProviderId| ids.contains(id) <==> exists|probe: Probe|
        probes.contains(probe) && probe.id() == id by {
        if ids.contains(id) {
            let i = choose|i: int| 0 <= i < ids.len() && ids[i] == id;
            assert(probes.contains(probes[i]) && probes[i].id() == id);
        }
        if exists|probe: Probe| probes.contains(probe) && probe.id() == id {
            let probe = choose|probe: Probe| probes.contains(probe) && probe.id() == id;
            let i = choose|i: int| 0 <= i < probes.len() && probes[i] == probe;
            assert(ids[i] == id);
        }
    }
    assert forall|name: Seq<char>| names.contains(name) <==> exists|probe: Probe|
        probes.contains(probe) && probe.id().name() == name by {
        if names.contains(name) {
            let i = choose|i: int| 0 <= i < names.len() && names[i] == name;
            assert(probes.contains(probes[i]) && probes[i].id().name() == name);
        }
        if exists|probe: Probe| probes.contains(probe) && probe.id().name() == name {
            let probe = choose|probe: Probe| probes.contains(probe) && probe.id().name() == name;
            let i = choose|i: int| 0 <= i < probes.len() && probes[i] == probe;
            assert(names[i] == name);
        }
    }
}

/// The listing depends on nothing but the registered probes: two
/// registries that hold the same probes in the same order list the same
/// names, however often they are asked.
pub proof fn lemma_listing_is_stable(first: Seq<Probe>, second: Seq<Probe>)
    requires
        first == second,
    ensures
        names_of(first) == names_of(second),
        identifiers_of(first) == identifiers_of(second),
{
}

/// A registration that is accepted adds one name at the end of the
/// listing and leaves the others where they were.
pub proof fn lemma_registration_extends_listing(probes: Seq<Probe>, probe: Probe)
    ensures
        names_of(probes.push(probe)) == names_of(probes).push(probe.id().name()),
        identifiers_of(probes.push(probe)) == identifiers_of(probes).push(probe.id()),
{
    assert(names_of(probes.push(probe)) =~= names_of(probes).push(probe.id().name()));
    assert(identifiers_of(probes.push(probe)) =~= identifiers_of(probes).push(probe.id()));
}

} // verus!
