//! The probes, one module for each provider, and the closed set of them.

pub mod akamai;
pub mod alibaba;
pub mod aws;
pub mod azure;
pub mod digitalocean;
pub mod gcp;
pub mod oci;
pub mod openstack;
pub mod vultr;

use crate::probe::{Action, ActionView, Evidence, EvidenceView, FileEvidenceView};
use crate::provider_id::ProviderId;
use akamai::Akamai;
use alibaba::Alibaba;
use aws::Aws;
use azure::Azure;
use digitalocean::DigitalOcean;
use gcp::Gcp;
use oci::Oci;
use openstack::OpenStack;
use vstd::prelude::*;
use vultr::Vultr;

verus! {

/// A probe: the stateless procedure that recognises one provider. Each
/// probe is bound to the provider it recognises, and to no other.
#[derive(Debug, Clone, Copy, PartialEq, Eq, Structural, Hash)]
pub enum Probe {
    Alibaba,
    Aws,
    Azure,
    DigitalOcean,
    Gcp,
    Oci,
    OpenStack,
    Vultr,
    Akamai,
}

impl Probe {
    /// The provider that the probe identifies.
    pub open spec fn id(self) -> ProviderId {
        match self {
            Probe::Alibaba => ProviderId::Alibaba,
            Probe::Aws => ProviderId::AWS,
            Probe::Azure => ProviderId::Azure,
            Probe::DigitalOcean => ProviderId::DigitalOcean,
            Probe::Gcp => ProviderId::GCP,
            Probe::Oci => ProviderId::OCI,
            Probe::OpenStack => ProviderId::OpenStack,
            Probe::Vultr => ProviderId::Vultr,
            Probe::Akamai => ProviderId::Akamai,
        }
    }

    /// The provider that the probe identifies.
    pub fn identifier(&self) -> (id: ProviderId)
        ensures
            id == self.id(),
    {
        match self {
            Probe::Alibaba => Alibaba.identifier(),
            Probe::Aws => Aws.identifier(),
            Probe::Azure => Azure.identifier(),
            Probe::DigitalOcean => DigitalOcean.identifier(),
            Probe::Gcp => Gcp.identifier(),
            Probe::Oci => Oci.identifier(),
            Probe::OpenStack => OpenStack.identifier(),
            Probe::Vultr => Vultr.identifier(),
            Probe::Akamai => Akamai.identifier(),
        }
    }

    /// The number of local files that the probe looks at before it turns
    /// to the network.
    pub open spec fn local_checks(self) -> int {
        match self {
            Probe::Akamai => 0,
            Probe::Aws | Probe::OpenStack => 2,
            _ => 1,
        }
    }

    /// Whether the probe's local check number `index` finds its provider
    /// in what was found at the file it reads.
    pub open spec fn local_check_matches(self, index: int, file: FileEvidenceView) -> bool {
        match self {
            Probe::Alibaba => index == 0 && Alibaba::vendor_file_matches(file),
            Probe::Aws => (index == 0 || index == 1) && Aws::names_amazon(file),
            Probe::Azure => index == 0 && Azure::vendor_file_matches(file),
            Probe::DigitalOcean => index == 0 && DigitalOcean::vendor_file_matches(file),
            Probe::Gcp => index == 0 && Gcp::vendor_file_matches(file),
            Probe::Oci => index == 0 && Oci::vendor_file_matches(file),
            Probe::OpenStack => (index == 0 && OpenStack::product_name_matches(file)) || (index
                == 1 && OpenStack::chassis_asset_tag_matches(file)),
            Probe::Vultr => index == 0 && Vultr::vendor_file_matches(file),
            Probe::Akamai => false,
        }
    }

    /// What the probe does next, given a time budget for each request and
    /// the evidence gathered so far.
    pub open spec fn next_action(self, timeout: u64, evidence: EvidenceView) -> ActionView {
        match self {
            Probe::Alibaba => Alibaba::next_action(timeout, evidence),
            Probe::Aws => Aws::next_action(timeout, evidence),
            Probe::Azure => Azure::next_action(timeout, evidence),
            Probe::DigitalOcean => DigitalOcean::next_action(timeout, evidence),
            Probe::Gcp => Gcp::next_action(timeout, evidence),
            Probe::Oci => Oci::next_action(timeout, evidence),
            Probe::OpenStack => OpenStack::next_action(timeout, evidence),
            Probe::Vultr => Vultr::next_action(timeout, evidence),
            Probe::Akamai => Akamai::next_action(timeout, evidence),
        }
    }

    /// Runs the probe one step: says what to do next, given a time budget
    /// for each request and the evidence gathered so far. The driver
    /// performs the action, adds what it observed to the evidence and asks
    /// again, until the answer is `Done`.
    pub fn identify(&self, timeout: u64, evidence: &Evidence) -> (action: Action)
        ensures
            action@ == self.next_action(timeout, evidence@),
    {
        match self {
            Probe::Alibaba => Alibaba.identify(timeout, evidence),
            Probe::Aws => Aws.identify(timeout, evidence),
            Probe::Azure => Azure.identify(timeout, evidence),
            Probe::DigitalOcean => DigitalOcean.identify(timeout, evidence),
            Probe::Gcp => Gcp.identify(timeout, evidence),
            Probe::Oci => Oci.identify(timeout, evidence),
            Probe::OpenStack => OpenStack.identify(timeout, evidence),
            Probe::Vultr => Vultr.identify(timeout, evidence),
            Probe::Akamai => Akamai.identify(timeout, evidence),
        }
    }
}

/// No probe identifies the unknown provider.
pub proof fn lemma_probe_identifies_a_provider(probe: Probe)
    ensures
        probe.id() != ProviderId::Unknown,
{
}

/// Probes and providers are bound one to one: two probes that identify the
/// same provider are the same probe.
pub proof fn lemma_one_probe_per_provider(a: Probe, b: Probe)
    ensures
        a.id() == b.id() <==> a == b,
{
}

/// A local check that matches settles the probe: whatever else the
/// evidence holds, the probe stops with a positive verdict and asks for
/// nothing more.
pub proof fn lemma_local_match_short_circuits(
    probe: Probe,
    timeout: u64,
    evidence: EvidenceView,
    index: int,
)
    requires
        0 <= index < probe.local_checks(),
        index < evidence.files.len(),
        probe.local_check_matches(index, evidence.files[index]),
    ensures
        probe.next_action(timeout, evidence) == ActionView::Done(true),
{
}

/// A probe turns to the network only when every one of its local checks
/// has been made and none of them matched.
pub proof fn lemma_fetch_only_after_local_checks_fail(
    probe: Probe,
    timeout: u64,
    evidence: EvidenceView,
)
    requires
        probe.next_action(timeout, evidence) is Fetch,
    ensures
        evidence.files.len() >= probe.local_checks(),
        forall|index: int|
            0 <= index < probe.local_checks() ==> !probe.local_check_matches(
                index,
                #[trigger] evidence.files[index],
            ),
{
}

/// Until its local checks are exhausted a probe only reads files or
/// stops: it asks for the next file, or it has its verdict.
pub proof fn lemma_local_checks_come_first(probe: Probe, timeout: u64, evidence: EvidenceView)
    requires
        evidence.files.len() < probe.local_checks(),
    ensures
        !(probe.next_action(timeout, evidence) is Fetch),
{
}

/// Every request that a probe asks for carries the time budget that the
/// probe was given.
pub proof fn lemma_fetch_keeps_the_time_budget(
    probe: Probe,
    timeout: u64,
    evidence: EvidenceView,
)
    ensures
        probe.next_action(timeout, evidence) matches ActionView::Fetch(request)
            ==> request.timeout == timeout,
{
}

/// A probe reaches its verdict after at most two files and three replies.
pub proof fn lemma_probe_settles(probe: Probe, timeout: u64, evidence: EvidenceView)
    requires
        evidence.files.len() >= 2,
        evidence.replies.len() >= 3,
    ensures
        probe.next_action(timeout, evidence) is Done,
{
}

} // verus!
