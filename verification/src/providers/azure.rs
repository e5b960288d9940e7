//! Microsoft Azure.

use crate::probe::{
    action_of, arrived, into_action, join, Action, ActionView, Body, BodyView, Evidence,
    EvidenceView, Exchange, ExchangeView, Expect, FileEvidence, FileEvidenceView, HeaderView,
    Reply, ReplyView, Request, RequestView,
};
use crate::provider_id::ProviderId;
use crate::text::{contains, occurs_in};
use vstd::prelude::*;

verus! {

pub const METADATA_URI: &'static str = "http://169.254.169.254";

pub const METADATA_PATH: &'static str = "/metadata/instance?api-version=2017-12-01";

pub const VENDOR_FILE: &'static str = "/sys/class/dmi/id/sys_vendor";

pub const IDENTIFIER: ProviderId = ProviderId::Azure;

/// The probe for Microsoft Azure.
#[derive(Debug, Clone, Copy, PartialEq, Eq, Structural)]
pub struct Azure;

impl Azure {
    /// The provider that this probe identifies.
    pub fn identifier(&self) -> (id: ProviderId)
        ensures
            id == ProviderId::Azure,
    {
        IDENTIFIER
    }

    /// The vendor file names Microsoft Azure: it was read and mentions
    /// `Microsoft Corporation`.
    pub open spec fn vendor_file_matches(file: FileEvidenceView) -> bool {
        file matches FileEvidenceView::Content(text) && occurs_in(text, "Microsoft Corporation"@)
    }

    /// Tries to identify Microsoft Azure by what was found at the vendor file.
    pub fn check_vendor_file(&self, file: &FileEvidence) -> (matched: bool)
        ensures
            matched == Self::vendor_file_matches(file@),
    {
        match file {
            FileEvidence::Content(text) => contains(text.as_str(), "Microsoft Corporation"),
            _ => false,
        }
    }

    /// The request that asks the metadata server at `metadata_uri` for
    /// the description of the instance.
    pub open spec fn metadata_request(metadata_uri: Seq<char>, timeout: u64) -> RequestView {
        RequestView {
            url: metadata_uri + METADATA_PATH@,
            headers: seq![HeaderView { name: "Metadata"@, value: "true"@ }],
            timeout,
            expect: Expect::AzureInstance,
        }
    }

    /// The reply names Microsoft Azure: it describes an instance whose
    /// virtual machine has an identifier.
    pub open spec fn metadata_matches(reply: ReplyView) -> bool {
        reply matches ReplyView::Received { body: BodyView::AzureInstance { vm_id }, .. }
            && vm_id.len() > 0
    }

    /// Where the check against the metadata server stands, given the reply
    /// to its request if there is one.
    pub open spec fn metadata_check(
        metadata_uri: Seq<char>,
        timeout: u64,
        reply: Option<ReplyView>,
    ) -> ExchangeView {
        match reply {
            None => ExchangeView::Ask(Self::metadata_request(metadata_uri, timeout)),
            Some(r) => ExchangeView::Decided(Self::metadata_matches(r)),
        }
    }

    /// Tries to identify Microsoft Azure via the metadata server.
    pub fn check_metadata_server(
        &self,
        metadata_uri: &str,
        timeout: u64,
        reply: Option<&Reply>,
    ) -> (exchange: Exchange)
        ensures
            exchange@ == Self::metadata_check(metadata_uri@, timeout, arrived(reply)),
    {
        match reply {
            None => Exchange::Ask(
                Request::get(
                    join(metadata_uri, METADATA_PATH),
                    timeout,
                    Expect::AzureInstance,
                ).header("Metadata", "true"),
            ),
            Some(Reply::Received { body: Body::AzureInstance { vm_id }, .. }) => Exchange::Decided(
                !vm_id.as_str().is_empty(),
            ),
            Some(_) => Exchange::Decided(false),
        }
    }

    /// What the probe does next, given the evidence so far: the vendor
    /// file first, the metadata server only if the file did not settle it.
    pub open spec fn next_action(timeout: u64, evidence: EvidenceView) -> ActionView {
        if evidence.files.len() == 0 {
            ActionView::ReadFile(VENDOR_FILE@)
        } else if Self::vendor_file_matches(evidence.files[0]) {
            ActionView::Done(true)
        } else {
            action_of(Self::metadata_check(METADATA_URI@, timeout, evidence.reply(0)))
        }
    }

    /// Tries to identify Microsoft Azure using all the implemented options.
    pub fn identify(&self, timeout: u64, evidence: &Evidence) -> (action: Action)
        ensures
            action@ == Self::next_action(timeout, evidence@),
    {
        if evidence.files.len() == 0 {
            Action::ReadFile(VENDOR_FILE.to_owned())
        } else if self.check_vendor_file(&evidence.files[0]) {
            Action::Done(true)
        } else {
            into_action(self.check_metadata_server(METADATA_URI, timeout, evidence.reply(0)))
        }
    }
}

} // verus!
