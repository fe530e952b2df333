//! The link issuance coordinator: a time-limited signed read link is asked
//! for `{project_name}/{object_name}`; only when the object store grants it is
//! a metadata record written, and that record holds the granted link.
use vstd::prelude::*;
use vstd::string::StringExecFns;
use aws_sdk_s3::presigning::config::{Error as PresigningConfigError, PresigningConfig};
use crate::decimal::{decimal, decimal_text};
use crate::paths::{join_path, joined};
use crate::{STATUS_NOT_FOUND, STATUS_OK};

verus! {

/// How long a signed link stays valid: ten hours, in seconds.
pub const LINK_LIFETIME_SECS: u64 = 36000;

/// The longest lifetime that the object store's client signs, in seconds (one week).
pub const MAX_LINK_LIFETIME_SECS: u64 = 604800;

#[verifier::external_type_specification]
#[verifier::external_body]
pub struct ExPresigningConfig(PresigningConfig);

#[verifier::external_type_specification]
#[verifier::external_body]
pub struct ExPresigningConfigError(PresigningConfigError);

/// Relies on aws_sdk_s3's `PresigningConfig::expires_in`, which fails exactly
/// when the lifetime is longer than one week.
#[verifier::external_body]
fn presigning_config(lifetime_secs: u64) -> (r: Result<PresigningConfig, PresigningConfigError>)
    ensures
        r is Ok <==> lifetime_secs <= MAX_LINK_LIFETIME_SECS,
{
    PresigningConfig::expires_in(std::time::Duration::from_secs(lifetime_secs))
}

/// A request for a signed link, with the metadata that its record is to carry.
#[derive(Debug, Clone, PartialEq, Eq)]
pub struct UrlInfo<M> {
    pub address: String,
    pub contract_address: String,
    pub metadata: M,
    pub project_name: String,
    pub object_name: String,
}

/// The metadata record of one issued link.
#[derive(Debug, Clone, PartialEq, Eq)]
pub struct AssetRecord<M> {
    pub address: String,
    pub contract_address: String,
    pub metadata: M,
    /// Seconds since the epoch at issuance, in decimal.
    pub blocktime: String,
    /// The signed link.
    pub file: String,
}

/// What to ask the object store to sign.
pub struct SignedLinkRequest {
    pub key: String,
    /// How long the link stays valid, in seconds; `config` is built from it.
    pub lifetime_secs: u64,
    pub config: PresigningConfig,
}

/// The decision on a link request, once the object store has answered.
pub enum LinkOutcome<M> {
    /// The link was granted: write `record`, then reply with `uri`.
    Granted { record: AssetRecord<M>, uri: String },
    /// The link was refused: write nothing, reply not found with the error's text.
    Refused { error: String },
}

impl<M> UrlInfo<M> {
    /// The key of the object whose link is asked for.
    pub open spec fn key(&self) -> Seq<char> {
        joined(self.project_name@, self.object_name@)
    }

    /// The signed-link request for this object, valid for ten hours.
    pub fn signed_link_request(&self) -> (r: Result<SignedLinkRequest, PresigningConfigError>)
        ensures
            r matches Ok(req) && req.key@ == self.key() && req.lifetime_secs == LINK_LIFETIME_SECS,
    {
        let key = join_path(self.project_name.as_str(), self.object_name.as_str());
        let lifetime_secs = LINK_LIFETIME_SECS;
        match presigning_config(lifetime_secs) {
            Ok(config) => Ok(SignedLinkRequest { key, lifetime_secs, config }),
            Err(e) => Err(e),
        }
    }
}

/// `o` is the decision on `info` when the object store answered `signed`
/// at `now_secs`.
pub open spec fn decided<M>(
    info: UrlInfo<M>,
    signed: Result<String, String>,
    now_secs: u64,
    o: LinkOutcome<M>,
) -> bool {
    match signed {
        Ok(uri) => o matches LinkOutcome::Granted { record, uri: reply } && {
            &&& reply@ == uri@
            &&& record.address@ == info.address@
            &&& record.contract_address@ == info.contract_address@
            &&& record.metadata == info.metadata
            &&& record.blocktime@ == decimal(now_secs as nat)
            &&& record.file@ == uri@
        },
        Err(e) => o matches LinkOutcome::Refused { error } && error@ == e@,
    }
}

/// Decides on `info` once the object store has answered the signed-link
/// request: with the link (`Ok`) or with the error's text (`Err`).
pub fn issue_link<M>(info: UrlInfo<M>, signed: Result<String, String>, now_secs: u64) -> (r:
    LinkOutcome<M>)
    ensures
        decided(info, signed, now_secs, r),
{
    match signed {
        Ok(uri) => {
            let record = AssetRecord {
                address: info.address,
                contract_address: info.contract_address,
                metadata: info.metadata,
                blocktime: decimal_text(now_secs),
                file: uri.clone(),
            };
            LinkOutcome::Granted { record, uri }
        },
        Err(error) => LinkOutcome::Refused { error },
    }
}

impl<M> LinkOutcome<M> {
    /// The status of the reply.
    pub open spec fn status_of(&self) -> u16 {
        match self {
            LinkOutcome::Granted { .. } => STATUS_OK,
            LinkOutcome::Refused { .. } => STATUS_NOT_FOUND,
        }
    }

    /// The body of the reply.
    pub open spec fn body_of(&self) -> Seq<char> {
        match self {
            LinkOutcome::Granted { uri, .. } => uri@,
            LinkOutcome::Refused { error } => error@,
        }
    }

    /// The metadata records once the decision is carried out on `store`.
    pub open spec fn records_after(&self, store: Seq<AssetRecord<M>>) -> Seq<AssetRecord<M>> {
        match self {
            LinkOutcome::Granted { record, .. } => store.push(*record),
            LinkOutcome::Refused { .. } => store,
        }
    }

    /// The status of the reply: found when the link was granted.
    pub fn status(&self) -> (r: u16)
        ensures
            r == self.status_of(),
    {
        match self {
            LinkOutcome::Granted { .. } => STATUS_OK,
            LinkOutcome::Refused { .. } => STATUS_NOT_FOUND,
        }
    }

    /// The body of the reply: the link, or the error's text.
    pub fn body(&self) -> (r: &str)
        ensures
            r@ == self.body_of(),
    {
        match self {
            LinkOutcome::Granted { uri, .. } => uri.as_str(),
            LinkOutcome::Refused { error } => error.as_str(),
        }
    }

    /// The record to write before replying, if any.
    pub fn record(&self) -> (r: Option<&AssetRecord<M>>)
        ensures
            r == (match self {
                LinkOutcome::Granted { record, .. } => Some(record),
                LinkOutcome::Refused { .. } => None::<&AssetRecord<M>>,
            }),
    {
        match self {
            LinkOutcome::Granted { record, .. } => Some(record),
            LinkOutcome::Refused { .. } => None,
        }
    }
}

/// A granted link is recorded: once the decision is carried out, the metadata
/// store holds a record whose link is the one the caller gets, and the reply
/// is found.
pub proof fn granted_link_is_recorded<M>(
    store: Seq<AssetRecord<M>>,
    info: UrlInfo<M>,
    uri: String,
    now_secs: u64,
    o: LinkOutcome<M>,
)
    requires
        decided(info, Ok(uri), now_secs, o),
    ensures
        o.status_of() == STATUS_OK,
        o.body_of() == uri@,
        exists|i: int|
            0 <= i < o.records_after(store).len() && (#[trigger] o.records_after(store)[i]).file@
                == o.body_of(),
{
    let i = store.len() as int;
    assert(o.records_after(store)[i].file@ == o.body_of());
}

/// A refused link leaves the metadata store as it was, and the reply is not found.
pub proof fn refused_link_is_not_recorded<M>(
    store: Seq<AssetRecord<M>>,
    info: UrlInfo<M>,
    error: String,
    now_secs: u64,
    o: LinkOutcome<M>,
)
    requires
        decided(info, Err(error), now_secs, o),
    ensures
        o.status_of() == STATUS_NOT_FOUND,
        o.body_of() == error@,
        o.records_after(store) == store,
{
}

} // verus!
