//! OpenStack.

use crate::probe::{
    action_of, arrived, into_action, is_success, join, success_status, Action, ActionView,
    Evidence, EvidenceView, Exchange, ExchangeView, Expect, FileEvidence, FileEvidenceView,
    Reply, ReplyView, Request, RequestView,
};
use crate::provider_id::ProviderId;
use crate::text::{mentions_any, mentions_one_of};
use vstd::prelude::*;

verus! {

pub const METADATA_URI: &'static str = "http://169.254.169.254";

pub const METADATA_PATH: &'static str = "/openstack/";

pub const PRODUCT_NAME_FILE: &'static str = "/sys/class/dmi/id/product_name";

pub const PRODUCT_NAMES: [&'static str; 2] = ["Openstack Nova", "OpenStack Compute"];

pub const CHASSIS_ASSET_TAG_FILE: &'static str = "/sys/class/dmi/id/chassis_asset_tag";

pub const CHASSIS_ASSET_TAGS: [&'static str; 5] = [
    "HUAWEICLOUD",
    "OpenTelekomCloud",
    "SAP CCloud VM",
    "OpenStack Nova",
    "OpenStack Compute",
];

pub const IDENTIFIER: ProviderId = ProviderId::OpenStack;

/// The probe for OpenStack.
#[derive(Debug, Clone, Copy, PartialEq, Eq, Structural)]
pub struct OpenStack;

impl OpenStack {
    /// The provider that this probe identifies.
    pub fn identifier(&self) -> (id: ProviderId)
        ensures
            id == ProviderId::OpenStack,
    {
        IDENTIFIER
    }

    /// The text mentions one of the product names of OpenStack.
    pub open spec fn mentions_product_name(text: Seq<char>) -> bool {
        mentions_one_of(text, PRODUCT_NAMES@)
    }

    /// The text mentions one of the chassis asset tags of the clouds that
    /// are built on OpenStack.
    pub open spec fn mentions_chassis_asset_tag(text: Seq<char>) -> bool {
        mentions_one_of(text, CHASSIS_ASSET_TAGS@)
    }

    /// The product name file names OpenStack.
    pub open spec fn product_name_matches(file: FileEvidenceView) -> bool {
        file matches FileEvidenceView::Content(text) && Self::mentions_product_name(text)
    }

    /// The chassis asset tag file names OpenStack.
    pub open spec fn chassis_asset_tag_matches(file: FileEvidenceView) -> bool {
        file matches FileEvidenceView::Content(text) && Self::mentions_chassis_asset_tag(text)
    }

    /// Tries to identify OpenStack by what was found at the product name
    /// file.
    pub fn check_product_name_file(&self, file: &FileEvidence) -> (matched: bool)
        ensures
            matched == Self::product_name_matches(file@),
    {
        match file {
            FileEvidence::Content(text) => mentions_any(text.as_str(), &PRODUCT_NAMES),
            _ => false,
        }
    }

    /// Tries to identify OpenStack by what was found at the chassis asset
    /// tag file.
    pub fn check_chassis_asset_tag_file(&self, file: &FileEvidence) -> (matched: bool)
        ensures
            matched == Self::chassis_asset_tag_matches(file@),
    {
        match file {
            FileEvidence::Content(text) => mentions_any(text.as_str(), &CHASSIS_ASSET_TAGS),
            _ => false,
        }
    }

    /// Tries to identify OpenStack using vendor file(s): the product name
    /// file settles it, or else the chassis asset tag file does.
    pub fn check_vendor_files(
        &self,
        product_name_file: &FileEvidence,
        chassis_asset_tag_file: &FileEvidence,
    ) -> (matched: bool)
        ensures
            matched == (Self::product_name_matches(product_name_file@)
                || Self::chassis_asset_tag_matches(chassis_asset_tag_file@)),
    {
        self.check_product_name_file(product_name_file) || self.check_chassis_asset_tag_file(
            chassis_asset_tag_file,
        )
    }

    /// The request that asks the metadata server at `metadata_uri` for the
    /// versions of the OpenStack metadata that it offers.
    pub open spec fn metadata_request(metadata_uri: Seq<char>, timeout: u64) -> RequestView {
        RequestView {
            url: metadata_uri + METADATA_PATH@,
            headers: Seq::empty(),
            timeout,
            expect: Expect::Status,
        }
    }

    /// The reply names OpenStack: the server answered with a status of
    /// success.
    pub open spec fn metadata_matches(reply: ReplyView) -> bool {
        reply matches ReplyView::Received { status, .. } && success_status(status)
    }

    /// Where the check against the metadata server stands, given the reply
    /// to its request if there is one.
    pub open spec fn metadata_check(
        metadata_uri: Seq<char>,
        timeout: u64,
        reply: Option<ReplyView>,
    ) -> ExchangeView {
        match reply {
            None => ExchangeView::Ask(Self::metadata_request(metadata_uri, timeout)),
            Some(r) => ExchangeView::Decided(Self::metadata_matches(r)),
        }
    }

    /// Tries to identify OpenStack via the metadata server.
    pub fn check_metadata_server(
        &self,
        metadata_uri: &str,
        timeout: u64,
        reply: Option<&Reply>,
    ) -> (exchange: Exchange)
        ensures
            exchange@ == Self::metadata_check(metadata_uri@, timeout, arrived(reply)),
    {
        match reply {
            None => Exchange::Ask(
                Request::get(join(metadata_uri, METADATA_PATH), timeout, Expect::Status),
            ),
            Some(Reply::Received { status, .. }) => Exchange::Decided(is_success(*status)),
            Some(_) => Exchange::Decided(false),
        }
    }

    /// What the probe does next, given the evidence so far: the product
    /// name file, then the chassis asset tag file, then the metadata
    /// server, each only if nothing before it settled the matter.
    pub open spec fn next_action(timeout: u64, evidence: EvidenceView) -> ActionView {
        if evidence.files.len() == 0 {
            ActionView::ReadFile(PRODUCT_NAME_FILE@)
        } else if Self::product_name_matches(evidence.files[0]) {
            ActionView::Done(true)
        } else if evidence.files.len() == 1 {
            ActionView::ReadFile(CHASSIS_ASSET_TAG_FILE@)
        } else if Self::chassis_asset_tag_matches(evidence.files[1]) {
            ActionView::Done(true)
        } else {
            action_of(Self::metadata_check(METADATA_URI@, timeout, evidence.reply(0)))
        }
    }

    /// Tries to identify OpenStack using all the implemented options.
    pub fn identify(&self, timeout: u64, evidence: &Evidence) -> (action: Action)
        ensures
            action@ == Self::next_action(timeout, evidence@),
    {
        if evidence.files.len() == 0 {
            Action::ReadFile(PRODUCT_NAME_FILE.to_owned())
        } else if self.check_product_name_file(&evidence.files[0]) {
            Action::Done(true)
        } else if evidence.files.len() == 1 {
            Action::ReadFile(CHASSIS_ASSET_TAG_FILE.to_owned())
        } else if self.check_chassis_asset_tag_file(&evidence.files[1]) {
            Action::Done(true)
        } else {
            into_action(self.check_metadata_server(METADATA_URI, timeout, evidence.reply(0)))
        }
    }
}

} // verus!
