//! Errors answered to announces, and their bencoded failure responses.
use vstd::prelude::*;
use vstd::string::StringSliceAdditionalSpecFns;

use crate::bytes::{extend_bytes, extend_str};
use crate::number::{decimal, push_decimal};
use crate::user::string_bytes;

verus! {

/// Why an announce is refused.
#[derive(Clone, Debug)]
pub enum AnnounceError {
    InternalTrackerError,
    InvalidQueryStringKey,
    InvalidQueryStringValue,
    InvalidPeerId,
    InvalidInfoHash,
    InvalidPort,
    InvalidUploaded,
    InvalidDownloaded,
    InvalidLeft,
    InvalidCompact,
    UnsupportedEvent,
    InvalidNumwant,
    MissingInfoHash,
    MissingPeerId,
    MissingPort,
    MissingUploaded,
    MissingDownloaded,
    MissingLeft,
    AbnormalAccess,
    InvalidUserAgent,
    UserAgentTooLong,
    BlacklistedClient,
    NotAClient,
    InvalidPasskey,
    PasskeyNotFound,
    UserNotFound,
    DownloadPrivilegesRevoked,
    BlacklistedPort(u16),
    InfoHashNotFound,
    TorrentNotFound,
    TorrentIsDeleted,
    TorrentIsPendingModeration,
    TorrentIsRejected,
    TorrentIsPostponed,
    TorrentUnknownModerationStatus,
    GroupNotFound,
    GroupNotEnabled(String),
    PeersPerTorrentPerUserLimit(u16),
}

/// Why a stored value could not be decoded.
#[derive(Clone, Copy, Debug, PartialEq, Eq, Structural)]
pub enum DecodeError {
    InfoHash,
    Ip,
}

/// The message of a decode error.
pub fn decode_error_message(e: DecodeError) -> (r: &'static str)
    ensures
        r@ == match e {
            DecodeError::InfoHash => "Invalid infohash."@,
            DecodeError::Ip => "Invalid ip address."@,
        },
{
    match e {
        DecodeError::InfoHash => "Invalid infohash.",
        DecodeError::Ip => "Invalid ip address.",
    }
}

/// The text of an error without arguments (empty for those with one).
pub open spec fn fixed_message(e: AnnounceError) -> Seq<u8> {
    match e {
        AnnounceError::InternalTrackerError => "Internal tracker error.".spec_bytes(),
        AnnounceError::InvalidQueryStringKey => "Invalid query string parameter.".spec_bytes(),
        AnnounceError::InvalidQueryStringValue => "Invalid query string value.".spec_bytes(),
        AnnounceError::InvalidPeerId => "Invalid 'peer_id'.".spec_bytes(),
        AnnounceError::InvalidInfoHash => "Invalid 'info_hash'.".spec_bytes(),
        AnnounceError::InvalidPort => "Invalid 'port' (must be greater than or equal to 0).".spec_bytes(),
        AnnounceError::InvalidUploaded => "Invalid 'uploaded' (must be greater than or equal to 0).".spec_bytes(),
        AnnounceError::InvalidDownloaded => "Invalid 'downloaded' (must be greater than or equal to 0).".spec_bytes(),
        AnnounceError::InvalidLeft => "Invalid 'left' (must be greater than or equal to 0).".spec_bytes(),
        AnnounceError::InvalidCompact => "Your client does not support compact announces.".spec_bytes(),
        AnnounceError::UnsupportedEvent => "Unsupported 'event' type.".spec_bytes(),
        AnnounceError::InvalidNumwant => "Invalid 'numwant' (must be greater than or equal to 0).".spec_bytes(),
        AnnounceError::MissingInfoHash => "Query parameter 'info_hash' is missing.".spec_bytes(),
        AnnounceError::MissingPeerId => "Query parameter 'peer_id' is missing.".spec_bytes(),
        AnnounceError::MissingPort => "Query parameter 'port' is missing.".spec_bytes(),
        AnnounceError::MissingUploaded => "Query parameter 'uploaded' is missing.".spec_bytes(),
        AnnounceError::MissingDownloaded => "Query parameter 'downloaded' is missing.".spec_bytes(),
        AnnounceError::MissingLeft => "Query parameter 'left' is missing.".spec_bytes(),
        AnnounceError::AbnormalAccess => "Abnormal access blocked.".spec_bytes(),
        AnnounceError::InvalidUserAgent => "Invalid user agent.".spec_bytes(),
        AnnounceError::UserAgentTooLong => "The user agent of this client is too long.".spec_bytes(),
        AnnounceError::BlacklistedClient => "Client is not acceptable. Please check our blacklist.".spec_bytes(),
        AnnounceError::NotAClient => "Browser, crawler or cheater is not allowed.".spec_bytes(),
        AnnounceError::InvalidPasskey => "Invalid passkey.".spec_bytes(),
        AnnounceError::PasskeyNotFound => "Passkey does not exist. Please re-download the .torrent file.".spec_bytes(),
        AnnounceError::UserNotFound => "User does not exist. Please re-download the .torrent file.".spec_bytes(),
        AnnounceError::DownloadPrivilegesRevoked => "Your downloading privileges have been disabled.".spec_bytes(),
        AnnounceError::InfoHashNotFound => "InfoHash not found.".spec_bytes(),
        AnnounceError::TorrentNotFound => "Torrent not found.".spec_bytes(),
        AnnounceError::TorrentIsDeleted => "Torrent has been deleted.".spec_bytes(),
        AnnounceError::TorrentIsPendingModeration => "Torrent is pending moderation.".spec_bytes(),
        AnnounceError::TorrentIsRejected => "Torrent has been rejected.".spec_bytes(),
        AnnounceError::TorrentIsPostponed => "Torrent has been postponed.".spec_bytes(),
        AnnounceError::TorrentUnknownModerationStatus => "Torrent not approved.".spec_bytes(),
        AnnounceError::GroupNotFound => "Group not found.".spec_bytes(),
        _ => Seq::empty(),
    }
}

/// The text of an announce error, as shown to the client.
pub open spec fn error_message(e: AnnounceError) -> Seq<u8> {
    match e {
        AnnounceError::BlacklistedPort(port) => "Illegal port: ".spec_bytes() + decimal(port as nat)
            + ". Port should be between 6881-64999.".spec_bytes(),
        AnnounceError::GroupNotEnabled(slug) => "Your account is not enabled. (Current: ".spec_bytes()
            + string_bytes(slug) + ").".spec_bytes(),
        AnnounceError::PeersPerTorrentPerUserLimit(n) => "You already have ".spec_bytes() + decimal(n as nat)
            + " peers on this torrent. Ignoring.".spec_bytes(),
        _ => fixed_message(e),
    }
}

/// The bencoded body answered for an announce error: the failure reason, and a
/// short interval for torrents waiting on moderation, a long one otherwise.
pub open spec fn failure_response(e: AnnounceError) -> Seq<u8> {
    let message = error_message(e);
    "d14:failure reason".spec_bytes() + decimal(message.len()) + ":".spec_bytes() + message + (match e {
        AnnounceError::TorrentIsPendingModeration
        | AnnounceError::TorrentIsPostponed
        | AnnounceError::TorrentIsRejected => "8:intervali30e12:min intervali30ee".spec_bytes(),
        _ => "8:intervali5400e12:min intervali5400ee".spec_bytes(),
    })
}

impl AnnounceError {
    fn fixed_text(&self) -> (r: &'static str)
        ensures
            r.spec_bytes() == fixed_message(*self),
    {
        proof {
            reveal_strlit("");
        }
        match self {
            AnnounceError::InternalTrackerError => "Internal tracker error.",
            AnnounceError::InvalidQueryStringKey => "Invalid query string parameter.",
            AnnounceError::InvalidQueryStringValue => "Invalid query string value.",
            AnnounceError::InvalidPeerId => "Invalid 'peer_id'.",
            AnnounceError::InvalidInfoHash => "Invalid 'info_hash'.",
            AnnounceError::InvalidPort => "Invalid 'port' (must be greater than or equal to 0).",
            AnnounceError::InvalidUploaded => "Invalid 'uploaded' (must be greater than or equal to 0).",
            AnnounceError::InvalidDownloaded => "Invalid 'downloaded' (must be greater than or equal to 0).",
            AnnounceError::InvalidLeft => "Invalid 'left' (must be greater than or equal to 0).",
            AnnounceError::InvalidCompact => "Your client does not support compact announces.",
            AnnounceError::UnsupportedEvent => "Unsupported 'event' type.",
            AnnounceError::InvalidNumwant => "Invalid 'numwant' (must be greater than or equal to 0).",
            AnnounceError::MissingInfoHash => "Query parameter 'info_hash' is missing.",
            AnnounceError::MissingPeerId => "Query parameter 'peer_id' is missing.",
            AnnounceError::MissingPort => "Query parameter 'port' is missing.",
            AnnounceError::MissingUploaded => "Query parameter 'uploaded' is missing.",
            AnnounceError::MissingDownloaded => "Query parameter 'downloaded' is missing.",
            AnnounceError::MissingLeft => "Query parameter 'left' is missing.",
            AnnounceError::AbnormalAccess => "Abnormal access blocked.",
            AnnounceError::InvalidUserAgent => "Invalid user agent.",
            AnnounceError::UserAgentTooLong => "The user agent of this client is too long.",
            AnnounceError::BlacklistedClient => "Client is not acceptable. Please check our blacklist.",
            AnnounceError::NotAClient => "Browser, crawler or cheater is not allowed.",
            AnnounceError::InvalidPasskey => "Invalid passkey.",
            AnnounceError::PasskeyNotFound => "Passkey does not exist. Please re-download the .torrent file.",
            AnnounceError::UserNotFound => "User does not exist. Please re-download the .torrent file.",
            AnnounceError::DownloadPrivilegesRevoked => "Your downloading privileges have been disabled.",
            AnnounceError::InfoHashNotFound => "InfoHash not found.",
            AnnounceError::TorrentNotFound => "Torrent not found.",
            AnnounceError::TorrentIsDeleted => "Torrent has been deleted.",
            AnnounceError::TorrentIsPendingModeration => "Torrent is pending moderation.",
            AnnounceError::TorrentIsRejected => "Torrent has been rejected.",
            AnnounceError::TorrentIsPostponed => "Torrent has been postponed.",
            AnnounceError::TorrentUnknownModerationStatus => "Torrent not approved.",
            AnnounceError::GroupNotFound => "Group not found.",
            _ => "",
        }
    }

    /// The text of the error, as shown to the client.
    pub fn message(&self) -> (r: Vec<u8>)
        ensures
            r@ == error_message(*self),
    {
        let mut out: Vec<u8> = Vec::new();
        match self {
            AnnounceError::BlacklistedPort(port) => {
                extend_str(&mut out, "Illegal port: ");
                push_decimal(*port as u64, &mut out);
                extend_str(&mut out, ". Port should be between 6881-64999.");
            },
            AnnounceError::GroupNotEnabled(slug) => {
                extend_str(&mut out, "Your account is not enabled. (Current: ");
                extend_str(&mut out, slug.as_str());
                extend_str(&mut out, ").");
            },
            AnnounceError::PeersPerTorrentPerUserLimit(n) => {
                extend_str(&mut out, "You already have ");
                push_decimal(*n as u64, &mut out);
                extend_str(&mut out, " peers on this torrent. Ignoring.");
            },
            _ => {
                proof {
                    reveal_strlit("");
                }
                extend_str(&mut out, self.fixed_text());
            },
        }
        proof {
            assert(out@ =~= error_message(*self));
        }
        out
    }

    /// The bencoded body answered to the client for this error.
    pub fn failure_response(&self) -> (r: Vec<u8>)
        ensures
            r@ == failure_response(*self),
    {
        let message = self.message();
        let mut response: Vec<u8> = Vec::new();
        extend_str(&mut response, "d14:failure reason");
        push_decimal(message.len() as u64, &mut response);
        extend_str(&mut response, ":");
        extend_bytes(&mut response, message.as_slice());
        match self {
            AnnounceError::TorrentIsPendingModeration
            | AnnounceError::TorrentIsPostponed
            | AnnounceError::TorrentIsRejected => {
                extend_str(&mut response, "8:intervali30e12:min intervali30ee");
            },
            _ => {
                extend_str(&mut response, "8:intervali5400e12:min intervali5400ee");
            },
        }
        proof {
            assert(response@ =~= failure_response(*self));
        }
        response
    }
}

} // verus!
