//! Akamai Cloud.

use crate::probe::{
    action_of, arrived, into_action, join, Action, ActionView, Body, BodyView, Evidence,
    EvidenceView, Exchange, ExchangeView, Expect, HeaderView, Reply, ReplyView, Request,
    RequestView,
};
use crate::provider_id::ProviderId;
use vstd::prelude::*;

verus! {

pub const METADATA_URI: &'static str = "http://169.254.169.254";

pub const METADATA_PATH: &'static str = "/v1/instance";

pub const METADATA_TOKEN_PATH: &'static str = "/v1/token";

pub const IDENTIFIER: ProviderId = ProviderId::Akamai;

/// The probe for Akamai Cloud.
#[derive(Debug, Clone, Copy, PartialEq, Eq, Structural)]
pub struct Akamai;

impl Akamai {
    /// The provider that this probe identifies.
    pub fn identifier(&self) -> (id: ProviderId)
        ensures
            id == ProviderId::Akamai,
    {
        IDENTIFIER
    }

    /// The request that asks the metadata server at `metadata_uri` for a
    /// token that is good for a minute.
    pub open spec fn token_request(metadata_uri: Seq<char>, timeout: u64) -> RequestView {
        RequestView {
            url: metadata_uri + METADATA_TOKEN_PATH@,
            headers: seq![HeaderView { name: "Metadata-Token-Expiry-Seconds"@, value: "60"@ }],
            timeout,
            expect: Expect::Text,
        }
    }

    /// The token that a reply carries. It is empty where the request
    /// failed or the reply holds no text.
    pub open spec fn token_of(reply: ReplyView) -> Seq<char> {
        match reply {
            ReplyView::Received { body: BodyView::Text(token), .. } => token,
            _ => Seq::empty(),
        }
    }

    /// The request that asks the metadata server at `metadata_uri` for the
    /// description of the instance, presenting a token.
    pub open spec fn instance_request(
        metadata_uri: Seq<char>,
        token: Seq<char>,
        timeout: u64,
    ) -> RequestView {
        RequestView {
            url: metadata_uri + METADATA_PATH@,
            headers: seq![HeaderView { name: "Metadata-Token"@, value: token }],
            timeout,
            expect: Expect::AkamaiInstance,
        }
    }

    /// The reply names Akamai: it describes an instance with a positive
    /// identifier on a host that has an identifier.
    pub open spec fn instance_matches(reply: ReplyView) -> bool {
        reply matches ReplyView::Received { body: BodyView::AkamaiInstance { id, host_uuid }, .. }
            && id > 0 && host_uuid.len() > 0
    }

    /// Where the check against the metadata server stands, given the
    /// replies to its two requests as far as they have arrived. Without a
    /// token there is no second request: the check has failed.
    pub open spec fn metadata_check(
        metadata_uri: Seq<char>,
        timeout: u64,
        token_reply: Option<ReplyView>,
        instance_reply: Option<ReplyView>,
    ) -> ExchangeView {
        match token_reply {
            None => ExchangeView::Ask(Self::token_request(metadata_uri, timeout)),
            Some(t) => if Self::token_of(t).len() == 0 {
                ExchangeView::Decided(false)
            } else {
                match instance_reply {
                    None => ExchangeView::Ask(
                        Self::instance_request(metadata_uri, Self::token_of(t), timeout),
                    ),
                    Some(i) => ExchangeView::Decided(Self::instance_matches(i)),
                }
            },
        }
    }

    /// Tries to identify Akamai via the metadata server.
    pub fn check_metadata_server(
        &self,
        metadata_uri: &str,
        timeout: u64,
        token_reply: Option<&Reply>,
        instance_reply: Option<&Reply>,
    ) -> (exchange: Exchange)
        ensures
            exchange@ == Self::metadata_check(
                metadata_uri@,
                timeout,
                arrived(token_reply),
                arrived(instance_reply),
            ),
    {
        match token_reply {
            None => Exchange::Ask(
                Request::get(join(metadata_uri, METADATA_TOKEN_PATH), timeout, Expect::Text).header(
                    "Metadata-Token-Expiry-Seconds",
                    "60",
                ),
            ),
            Some(Reply::Received { body: Body::Text(token), .. }) => {
                if token.as_str().is_empty() {
                    Exchange::Decided(false)
                } else {
                    match instance_reply {
                        None => Exchange::Ask(
                            Request::get(
                                join(metadata_uri, METADATA_PATH),
                                timeout,
                                Expect::AkamaiInstance,
                            ).header("Metadata-Token", token.as_str()),
                        ),
                        Some(Reply::Received {
                            body: Body::AkamaiInstance { id, host_uuid },
                            ..
                        }) => Exchange::Decided(*id > 0 && !host_uuid.as_str().is_empty()),
                        Some(_) => Exchange::Decided(false),
                    }
                }
            },
            Some(_) => Exchange::Decided(false),
        }
    }

    /// What the probe does next, given the evidence so far. Akamai leaves
    /// no mark in a local file, so the metadata server is all there is.
    pub open spec fn next_action(timeout: u64, evidence: EvidenceView) -> ActionView {
        action_of(
            Self::metadata_check(METADATA_URI@, timeout, evidence.reply(0), evidence.reply(1)),
        )
    }

    /// Tries to identify Akamai using all the implemented options.
    pub fn identify(&self, timeout: u64, evidence: &Evidence) -> (action: Action)
        ensures
            action@ == Self::next_action(timeout, evidence@),
    {
        into_action(
            self.check_metadata_server(METADATA_URI, timeout, evidence.reply(0), evidence.reply(1)),
        )
    }
}

} // verus!
