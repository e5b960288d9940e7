//! A host as the probes see it, and what a probe finds on it.
//!
//! The library never touches a host. A driver does: it asks a probe for
//! its next action, performs it on the host and adds what it observed to
//! the evidence, until the probe is done. This module says what such a
//! driver gathers and where it ends, for a host that answers the same
//! question the same way each time.

use crate::probe::{ActionView, EvidenceView, FileEvidenceView, ReplyView, RequestView};
use crate::providers::{
    lemma_local_checks_come_first, lemma_local_match_short_circuits, lemma_probe_settles, Probe,
};
use vstd::prelude::*;

verus! {

/// A host: what is found at each path of its file system, and what comes
/// of each request sent from it. Paths and requests that are not listed
/// lead to nothing.
pub struct Host {
    pub files: Map<Seq<char>, FileEvidenceView>,
    pub replies: Map<RequestView, ReplyView>,
}

impl Host {
    /// What is found at `path`.
    pub open spec fn found_at(self, path: Seq<char>) -> FileEvidenceView {
        if self.files.contains_key(path) {
            self.files[path]
        } else {
            FileEvidenceView::Absent
        }
    }

    /// What comes of `request`.
    pub open spec fn reply_to(self, request: RequestView) -> ReplyView {
        if self.replies.contains_key(request) {
            self.replies[request]
        } else {
            ReplyView::Unreachable
        }
    }

    /// The host holds no file that can be read, and no request sent from
    /// it is answered.
    pub open spec fn bare(self) -> bool {
        &&& forall|path: Seq<char>| !(#[trigger] self.found_at(path) is Content)
        &&& forall|request: RequestView| #[trigger] self.reply_to(request) is Unreachable
    }
}

/// The evidence after one more step of a driver: the probe's next action
/// is performed on the host, and what it brings is added. A probe that is
/// done is left alone.
pub open spec fn observe(
    probe: Probe,
    timeout: u64,
    host: Host,
    evidence: EvidenceView,
) -> EvidenceView {
    match probe.next_action(timeout, evidence) {
        ActionView::ReadFile(path) => EvidenceView {
            files: evidence.files.push(host.found_at(path)),
            ..evidence
        },
        ActionView::Fetch(request) => EvidenceView {
            replies: evidence.replies.push(host.reply_to(request)),
            ..evidence
        },
        ActionView::Done(_) => evidence,
    }
}

/// The evidence that a driver has gathered on `host` after `steps` steps.
pub open spec fn gathered(probe: Probe, timeout: u64, host: Host, steps: nat) -> EvidenceView
    decreases steps,
{
    if steps == 0 {
        EvidenceView::empty()
    } else {
        observe(probe, timeout, host, gathered(probe, timeout, host, (steps - 1) as nat))
    }
}

/// The number of steps after which every probe is done: two files and
/// three requests at the most.
pub open spec fn enough_steps() -> nat {
    5
}

/// Whether `probe` identifies its provider on `host`: the verdict that a
/// driver ends with.
pub open spec fn identifies(probe: Probe, timeout: u64, host: Host) -> bool {
    probe.next_action(timeout, gathered(probe, timeout, host, enough_steps()))
        == ActionView::Done(true)
}

/// For each probe of a snapshot, whether it identifies its provider on
/// `host`.
pub open spec fn matches_on(probes: Seq<Probe>, timeout: u64, host: Host) -> Seq<bool> {
    Seq::new(probes.len(), |task: int| identifies(probes[task], timeout, host))
}

/// The file that a probe reads for its local check number `index`.
pub open spec fn local_file(probe: Probe, index: int) -> Seq<char> {
    match probe {
        Probe::Alibaba => crate::providers::alibaba::VENDOR_FILE@,
        Probe::Aws => if index == 0 {
            crate::providers::aws::PRODUCT_VERSION_FILE@
        } else {
            crate::providers::aws::BIOS_VENDOR_FILE@
        },
        Probe::Azure => crate::providers::azure::VENDOR_FILE@,
        Probe::DigitalOcean => crate::providers::digitalocean::VENDOR_FILE@,
        Probe::Gcp => crate::providers::gcp::VENDOR_FILE@,
        Probe::Oci => crate::providers::oci::VENDOR_FILE@,
        Probe::OpenStack => if index == 0 {
            crate::providers::openstack::PRODUCT_NAME_FILE@
        } else {
            crate::providers::openstack::CHASSIS_ASSET_TAG_FILE@
        },
        Probe::Vultr => crate::providers::vultr::VENDOR_FILE@,
        Probe::Akamai => Seq::empty(),
    }
}

/// A probe asks for a file only while it has local checks left, and then
/// for the file of the next one; it asks for a request only while it has
/// had fewer than three replies. While local checks are left, a probe
/// that stops has found its provider.
pub proof fn lemma_actions_are_in_order(probe: Probe, timeout: u64, evidence: EvidenceView)
    ensures
        probe.next_action(timeout, evidence) matches ActionView::ReadFile(path) ==> {
            &&& evidence.files.len() < probe.local_checks()
            &&& path == local_file(probe, evidence.files.len() as int)
        },
        probe.next_action(timeout, evidence) is Fetch ==> evidence.replies.len() < 3,
        evidence.files.len() < probe.local_checks() ==> !(probe.next_action(timeout, evidence)
            is Fetch) && probe.next_action(timeout, evidence) != ActionView::Done(false),
{
}

/// What a driver has gathered after `steps` steps: the files of the
/// probe's local checks, in order, as the host holds them, and no more
/// replies than the probe ever asks for. Every step of a probe that is
/// not done adds one observation.
pub proof fn lemma_gathered_in_order(probe: Probe, timeout: u64, host: Host, steps: nat)
    ensures
        ({
            let evidence = gathered(probe, timeout, host, steps);
            &&& evidence.files.len() <= probe.local_checks()
            &&& evidence.files.len() <= 2
            &&& evidence.replies.len() <= 3
            &&& evidence.files.len() + evidence.replies.len() <= steps
            &&& !(probe.next_action(timeout, evidence) is Done) ==> evidence.files.len()
                + evidence.replies.len() == steps
            &&& forall|index: int|
                0 <= index < evidence.files.len() ==> #[trigger] evidence.files[index]
                    == host.found_at(local_file(probe, index))
        }),
    decreases steps,
{
    if steps > 0 {
        let before = gathered(probe, timeout, host, (steps - 1) as nat);
        lemma_gathered_in_order(probe, timeout, host, (steps - 1) as nat);
        lemma_actions_are_in_order(probe, timeout, before);
    }
}

/// A probe that is done stays done: a driver that goes on adds nothing.
pub proof fn lemma_done_stays_done(
    probe: Probe,
    timeout: u64,
    host: Host,
    evidence: EvidenceView,
)
    requires
        probe.next_action(timeout, evidence) is Done,
    ensures
        observe(probe, timeout, host, evidence) == evidence,
{
}

/// Every probe is done after two files and three requests at the most,
/// on every host: a driver needs no more than five steps.
pub proof fn lemma_probe_run_ends(probe: Probe, timeout: u64, host: Host)
    ensures
        probe.next_action(timeout, gathered(probe, timeout, host, enough_steps())) is Done,
{
    let evidence = gathered(probe, timeout, host, enough_steps());
    lemma_gathered_in_order(probe, timeout, host, enough_steps());
    if !(probe.next_action(timeout, evidence) is Done) {
        assert(evidence.files.len() == 2 && evidence.replies.len() == 3);
        lemma_probe_settles(probe, timeout, evidence);
    }
}

/// Where a local check of a probe matches what the host holds, the probe
/// identifies its provider, and at no step does it ask for a request: the
/// match short-circuits the network checks.
pub proof fn lemma_local_match_means_no_request(
    probe: Probe,
    timeout: u64,
    host: Host,
    index: int,
    steps: nat,
)
    requires
        0 <= index < probe.local_checks(),
        probe.local_check_matches(index, host.found_at(local_file(probe, index))),
    ensures
        identifies(probe, timeout, host),
        !(probe.next_action(timeout, gathered(probe, timeout, host, steps)) is Fetch),
        gathered(probe, timeout, host, steps).replies.len() == 0,
    decreases steps,
{
    lemma_never_fetched(probe, timeout, host, index, steps);
    lemma_never_fetched(probe, timeout, host, index, enough_steps());
    lemma_probe_run_ends(probe, timeout, host);
    let end = gathered(probe, timeout, host, enough_steps());
    lemma_gathered_in_order(probe, timeout, host, enough_steps());
    if end.files.len() > index {
        lemma_local_match_short_circuits(probe, timeout, end, index);
    } else {
        lemma_actions_are_in_order(probe, timeout, end);
    }
}

proof fn lemma_never_fetched(probe: Probe, timeout: u64, host: Host, index: int, steps: nat)
    requires
        0 <= index < probe.local_checks(),
        probe.local_check_matches(index, host.found_at(local_file(probe, index))),
    ensures
        !(probe.next_action(timeout, gathered(probe, timeout, host, steps)) is Fetch),
        gathered(probe, timeout, host, steps).replies.len() == 0,
    decreases steps,
{
    let evidence = gathered(probe, timeout, host, steps);
    if steps > 0 {
        lemma_never_fetched(probe, timeout, host, index, (steps - 1) as nat);
    }
    lemma_gathered_in_order(probe, timeout, host, steps);
    if evidence.files.len() > index {
        lemma_local_match_short_circuits(probe, timeout, evidence, index);
    } else {
        lemma_local_checks_come_first(probe, timeout, evidence);
    }
}

/// On a bare host no probe identifies its provider.
pub proof fn lemma_bare_host_matches_nothing(probe: Probe, timeout: u64, host: Host)
    requires
        host.bare(),
    ensures
        !identifies(probe, timeout, host),
{
    lemma_nothing_found(probe, timeout, host, enough_steps());
    lemma_probe_run_ends(probe, timeout, host);
    let end = gathered(probe, timeout, host, enough_steps());
    lemma_bare_evidence_is_no_match(probe, timeout, end);
}

/// What a bare host has shown after `steps` steps: no file with content
/// and no reply from a server.
proof fn lemma_nothing_found(probe: Probe, timeout: u64, host: Host, steps: nat)
    requires
        host.bare(),
    ensures
        ({
            let evidence = gathered(probe, timeout, host, steps);
            &&& forall|i: int|
                0 <= i < evidence.files.len() ==> !(#[trigger] evidence.files[i] is Content)
            &&& forall|i: int|
                0 <= i < evidence.replies.len() ==> #[trigger] evidence.replies[i] is Unreachable
        }),
    decreases steps,
{
    if steps > 0 {
        lemma_nothing_found(probe, timeout, host, (steps - 1) as nat);
        let before = gathered(probe, timeout, host, (steps - 1) as nat);
        match probe.next_action(timeout, before) {
            ActionView::ReadFile(path) => {
                assert(!(host.found_at(path) is Content));
            },
            ActionView::Fetch(request) => {
                assert(host.reply_to(request) is Unreachable);
            },
            ActionView::Done(_) => {},
        }
    }
}

/// Evidence that shows no file with content and no reply from a server
/// never leads a probe to a positive verdict.
pub proof fn lemma_bare_evidence_is_no_match(probe: Probe, timeout: u64, evidence: EvidenceView)
    requires
        forall|i: int|
            0 <= i < evidence.files.len() ==> !(#[trigger] evidence.files[i] is Content),
        forall|i: int|
            0 <= i < evidence.replies.len() ==> #[trigger] evidence.replies[i] is Unreachable,
    ensures
        probe.next_action(timeout, evidence) != ActionView::Done(true),
{
}

} // verus!
