//! Identifiers of the cloud service providers.

use vstd::prelude::*;
use vstd::string::StringExecFns;

verus! {

/// Represents an identifier for a cloud service provider.
#[non_exhaustive]
#[derive(Debug, Clone, Copy, PartialEq, Eq, Structural, Hash)]
pub enum ProviderId {
    /// Unknown cloud service provider.
    Unknown,
    /// Alibaba Cloud.
    Alibaba,
    /// Amazon Web Services (AWS).
    AWS,
    /// Microsoft Azure.
    Azure,
    /// DigitalOcean.
    DigitalOcean,
    /// Google Cloud Platform (GCP).
    GCP,
    /// Oracle Cloud Infrastructure (OCI).
    OCI,
    /// OpenStack.
    OpenStack,
    /// Vultr.
    Vultr,
    /// Akamai Cloud.
    Akamai,
}

impl Default for ProviderId {
    fn default() -> (id: ProviderId)
        ensures
            id == ProviderId::Unknown,
    {
        ProviderId::Unknown
    }
}

impl ProviderId {
    /// The stable, human-readable name of the provider.
    pub open spec fn name(self) -> Seq<char> {
        match self {
            ProviderId::Unknown => "unknown"@,
            ProviderId::Alibaba => "alibaba"@,
            ProviderId::AWS => "aws"@,
            ProviderId::Azure => "azure"@,
            ProviderId::DigitalOcean => "digitalocean"@,
            ProviderId::GCP => "gcp"@,
            ProviderId::OCI => "oci"@,
            ProviderId::OpenStack => "openstack"@,
            ProviderId::Vultr => "vultr"@,
            ProviderId::Akamai => "akamai"@,
        }
    }

    /// The name of the provider as a string slice.
    pub fn as_str(&self) -> (s: &'static str)
        ensures
            s@ == self.name(),
    {
        match self {
            ProviderId::Unknown => "unknown",
            ProviderId::Alibaba => "alibaba",
            ProviderId::AWS => "aws",
            ProviderId::Azure => "azure",
            ProviderId::DigitalOcean => "digitalocean",
            ProviderId::GCP => "gcp",
            ProviderId::OCI => "oci",
            ProviderId::OpenStack => "openstack",
            ProviderId::Vultr => "vultr",
            ProviderId::Akamai => "akamai",
        }
    }

    /// The name of the provider as an owned string.
    pub fn to_string(&self) -> (s: String)
        ensures
            s@ == self.name(),
    {
        String::from_str(self.as_str())
    }

    /// Whether this is the sentinel for "no positive identification".
    pub fn is_unknown(&self) -> (b: bool)
        ensures
            b == (*self == ProviderId::Unknown),
    {
        match self {
            ProviderId::Unknown => true,
            _ => false,
        }
    }
}

/// Distinct providers have distinct names.
pub proof fn lemma_names_distinct(a: ProviderId, b: ProviderId)
    ensures
        a.name() == b.name() <==> a == b,
{
    reveal_strlit("unknown");
    reveal_strlit("alibaba");
    reveal_strlit("aws");
    reveal_strlit("azure");
    reveal_strlit("digitalocean");
    reveal_strlit("gcp");
    reveal_strlit("oci");
    reveal_strlit("openstack");
    reveal_strlit("vultr");
    reveal_strlit("akamai");
    if a != b && a.name() == b.name() {
        assert(a.name().len() == b.name().len());
        assert(a.name()[0] == b.name()[0]);
    }
}

} // verus!
