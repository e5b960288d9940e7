//! Amazon Web Services (AWS).

use crate::probe::{
    action_of, arrived, into_action, join, Action, ActionView, Body, BodyView, Evidence,
    EvidenceView, Exchange, ExchangeView, Expect, FileEvidence, FileEvidenceView, HeaderView,
    Reply, ReplyView, Request, RequestView,
};
use crate::provider_id::ProviderId;
use crate::text::{begins_with, contains, lowercase, occurs_in, starts_with, to_lowercase};
use vstd::prelude::*;

verus! {

pub const METADATA_URI: &'static str = "http://169.254.169.254";

pub const METADATA_PATH: &'static str = "/latest/dynamic/instance-identity/document";

pub const METADATA_TOKEN_PATH: &'static str = "/latest/api/token";

pub const PRODUCT_VERSION_FILE: &'static str = "/sys/class/dmi/id/product_version";

pub const BIOS_VENDOR_FILE: &'static str = "/sys/class/dmi/id/bios_vendor";

pub const IDENTIFIER: ProviderId = ProviderId::AWS;

/// The probe for Amazon Web Services.
#[derive(Debug, Clone, Copy, PartialEq, Eq, Structural)]
pub struct Aws;

impl Aws {
    /// The provider that this probe identifies.
    pub fn identifier(&self) -> (id: ProviderId)
        ensures
            id == ProviderId::AWS,
    {
        IDENTIFIER
    }

    /// The file names Amazon: it was read and its content, in lowercase,
    /// mentions `amazon`.
    pub open spec fn names_amazon(file: FileEvidenceView) -> bool {
        file matches FileEvidenceView::Content(text) && occurs_in(lowercase(text), "amazon"@)
    }

    /// Whether a text that has been brought to lowercase mentions `amazon`.
    pub fn mentions_amazon(lowered: &str) -> (found: bool)
        ensures
            found == occurs_in(lowered@, "amazon"@),
    {
        contains(lowered, "amazon")
    }

    /// Tries to identify AWS by what was found at the product version file.
    pub fn check_product_version_file(&self, file: &FileEvidence) -> (matched: bool)
        ensures
            matched == Self::names_amazon(file@),
    {
        match file {
            FileEvidence::Content(text) => {
                let lowered = to_lowercase(text.as_str());
                Self::mentions_amazon(lowered.as_str())
            },
            _ => false,
        }
    }

    /// Tries to identify AWS by what was found at the BIOS vendor file.
    pub fn check_bios_vendor_file(&self, file: &FileEvidence) -> (matched: bool)
        ensures
            matched == Self::names_amazon(file@),
    {
        match file {
            FileEvidence::Content(text) => {
                let lowered = to_lowercase(text.as_str());
                Self::mentions_amazon(lowered.as_str())
            },
            _ => false,
        }
    }

    /// The request that asks the metadata server at `metadata_uri` for a
    /// session token that is good for a minute.
    pub open spec fn token_request(metadata_uri: Seq<char>, timeout: u64) -> RequestView {
        RequestView {
            url: metadata_uri + METADATA_TOKEN_PATH@,
            headers: seq![
                HeaderView { name: "X-aws-ec2-metadata-token-ttl-seconds"@, value: "60"@ },
            ],
            timeout,
            expect: Expect::Text,
        }
    }

    /// The session token that a reply carries. It is empty where the
    /// request failed or the reply holds no text.
    pub open spec fn token_of(reply: ReplyView) -> Seq<char> {
        match reply {
            ReplyView::Received { body: BodyView::Text(token), .. } => token,
            _ => Seq::empty(),
        }
    }

    /// The request that asks the metadata server at `metadata_uri` for the
    /// instance identity document, without a session token.
    pub open spec fn document_request(metadata_uri: Seq<char>, timeout: u64) -> RequestView {
        RequestView {
            url: metadata_uri + METADATA_PATH@,
            headers: Seq::empty(),
            timeout,
            expect: Expect::AwsIdentity,
        }
    }

    /// The request that asks the metadata server at `metadata_uri` for the
    /// instance identity document, presenting a session token.
    pub open spec fn document_request_with_token(
        metadata_uri: Seq<char>,
        token: Seq<char>,
        timeout: u64,
    ) -> RequestView {
        RequestView {
            url: metadata_uri + METADATA_PATH@,
            headers: seq![HeaderView { name: "X-aws-ec2-metadata-token"@, value: token }],
            timeout,
            expect: Expect::AwsIdentity,
        }
    }

    /// The reply names AWS: it carries an identity document whose image
    /// and instance identifiers have the forms that AWS gives them.
    pub open spec fn document_matches(reply: ReplyView) -> bool {
        reply matches ReplyView::Received {
            body: BodyView::AwsIdentity { image_id, instance_id },
            ..
        } && begins_with(image_id, "ami-"@) && begins_with(instance_id, "i-"@)
    }

    /// Judges a reply to a request for the instance identity document.
    pub fn check_document(reply: &Reply) -> (matched: bool)
        ensures
            matched == Self::document_matches(reply@),
    {
        match reply {
            Reply::Received { body: Body::AwsIdentity { image_id, instance_id }, .. } => {
                starts_with(image_id.as_str(), "ami-") && starts_with(instance_id.as_str(), "i-")
            },
            _ => false,
        }
    }

    /// Where the check with a session token (IMDSv2) stands, given the
    /// replies to its two requests as far as they have arrived. Without a
    /// token there is no second request: the check has failed.
    pub open spec fn imdsv2_check(
        metadata_uri: Seq<char>,
        timeout: u64,
        token_reply: Option<ReplyView>,
        document_reply: Option<ReplyView>,
    ) -> ExchangeView {
        match token_reply {
            None => ExchangeView::Ask(Self::token_request(metadata_uri, timeout)),
            Some(t) => if Self::token_of(t).len() == 0 {
                ExchangeView::Decided(false)
            } else {
                match document_reply {
                    None => ExchangeView::Ask(
                        Self::document_request_with_token(metadata_uri, Self::token_of(t), timeout),
                    ),
                    Some(d) => ExchangeView::Decided(Self::document_matches(d)),
                }
            },
        }
    }

    /// The number of replies that the check with a session token takes up
    /// once the reply to its first request is known.
    pub open spec fn imdsv2_replies(token_reply: ReplyView) -> int {
        if Self::token_of(token_reply).len() == 0 {
            1
        } else {
            2
        }
    }

    /// Tries to identify AWS via the metadata server, using IMDSv2.
    pub fn check_metadata_server_imdsv2(
        &self,
        metadata_uri: &str,
        timeout: u64,
        token_reply: Option<&Reply>,
        document_reply: Option<&Reply>,
    ) -> (exchange: Exchange)
        ensures
            exchange@ == Self::imdsv2_check(
                metadata_uri@,
                timeout,
                arrived(token_reply),
                arrived(document_reply),
            ),
    {
        match token_reply {
            None => Exchange::Ask(
                Request::get(join(metadata_uri, METADATA_TOKEN_PATH), timeout, Expect::Text).header(
                    "X-aws-ec2-metadata-token-ttl-seconds",
                    "60",
                ),
            ),
            Some(Reply::Received { body: Body::Text(token), .. }) => {
                if token.as_str().is_empty() {
                    Exchange::Decided(false)
                } else {
                    match document_reply {
                        None => Exchange::Ask(
                            Request::get(
                                join(metadata_uri, METADATA_PATH),
                                timeout,
                                Expect::AwsIdentity,
                            ).header("X-aws-ec2-metadata-token", token.as_str()),
                        ),
                        Some(d) => Exchange::Decided(Self::check_document(d)),
                    }
                }
            },
            Some(_) => Exchange::Decided(false),
        }
    }

    /// Where the check without a session token (IMDSv1) stands, given the
    /// reply to its request if there is one.
    pub open spec fn imdsv1_check(
        metadata_uri: Seq<char>,
        timeout: u64,
        reply: Option<ReplyView>,
    ) -> ExchangeView {
        match reply {
            None => ExchangeView::Ask(Self::document_request(metadata_uri, timeout)),
            Some(d) => ExchangeView::Decided(Self::document_matches(d)),
        }
    }

    /// Tries to identify AWS via the metadata server, using IMDSv1.
    pub fn check_metadata_server_imdsv1(
        &self,
        metadata_uri: &str,
        timeout: u64,
        reply: Option<&Reply>,
    ) -> (exchange: Exchange)
        ensures
            exchange@ == Self::imdsv1_check(metadata_uri@, timeout, arrived(reply)),
    {
        match reply {
            None => Exchange::Ask(
                Request::get(join(metadata_uri, METADATA_PATH), timeout, Expect::AwsIdentity),
            ),
            Some(d) => Exchange::Decided(Self::check_document(d)),
        }
    }

    /// What the probe does next, given the evidence so far: the product
    /// version file, then the BIOS vendor file, then IMDSv2, then IMDSv1,
    /// each only if nothing before it settled the matter.
    pub open spec fn next_action(timeout: u64, evidence: EvidenceView) -> ActionView {
        if evidence.files.len() == 0 {
            ActionView::ReadFile(PRODUCT_VERSION_FILE@)
        } else if Self::names_amazon(evidence.files[0]) {
            ActionView::Done(true)
        } else if evidence.files.len() == 1 {
            ActionView::ReadFile(BIOS_VENDOR_FILE@)
        } else if Self::names_amazon(evidence.files[1]) {
            ActionView::Done(true)
        } else {
            match Self::imdsv2_check(METADATA_URI@, timeout, evidence.reply(0), evidence.reply(1)) {
                ExchangeView::Ask(request) => ActionView::Fetch(request),
                ExchangeView::Decided(true) => ActionView::Done(true),
                ExchangeView::Decided(false) => action_of(
                    Self::imdsv1_check(
                        METADATA_URI@,
                        timeout,
                        evidence.reply(Self::imdsv2_replies(evidence.replies[0])),
                    ),
                ),
            }
        }
    }

    /// Tries to identify AWS using all the implemented options.
    pub fn identify(&self, timeout: u64, evidence: &Evidence) -> (action: Action)
        ensures
            action@ == Self::next_action(timeout, evidence@),
    {
        if evidence.files.len() == 0 {
            return Action::ReadFile(PRODUCT_VERSION_FILE.to_owned());
        }
        if self.check_product_version_file(&evidence.files[0]) {
            return Action::Done(true);
        }
        if evidence.files.len() == 1 {
            return Action::ReadFile(BIOS_VENDOR_FILE.to_owned());
        }
        if self.check_bios_vendor_file(&evidence.files[1]) {
            return Action::Done(true);
        }
        let token_reply = evidence.reply(0);
        match self.check_metadata_server_imdsv2(
            METADATA_URI,
            timeout,
            token_reply,
            evidence.reply(1),
        ) {
            Exchange::Ask(request) => Action::Fetch(request),
            Exchange::Decided(true) => Action::Done(true),
            Exchange::Decided(false) => {
                let used: usize = match token_reply {
                    Some(Reply::Received { body: Body::Text(token), .. }) => {
                        if token.as_str().is_empty() {
                            1
                        } else {
                            2
                        }
                    },
                    _ => 1,
                };
                into_action(
                    self.check_metadata_server_imdsv1(METADATA_URI, timeout, evidence.reply(used)),
                )
            },
        }
    }
}

} // verus!
