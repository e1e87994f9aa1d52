//! The tracker settings that the announce and expiry logic reads.
use vstd::prelude::*;

use crate::number::{parse_signed, parse_signed_bytes, parse_unsigned, parse_unsigned_bytes};

verus! {

/// Tracker settings (read from the environment by the application).
#[derive(Clone, Copy, Debug)]
pub struct Config {
    /// The interval (in milliseconds) between when history, peers, torrents and
    /// users are flushed to the main mysql database.
    pub flush_interval_milliseconds: u64,
    /// The amount of peers that should be sent back if the peer does not
    /// include a numwant.
    pub numwant_default: usize,
    /// The max amount of peers that should be sent back if the peer's numwant
    /// is too high.
    pub numwant_max: usize,
    /// A random amount of seconds between announce_min and announce_max will
    /// be returned to the peer for the next time they should announce.
    pub announce_min: u32,
    /// Upper end of the announce interval, in seconds.
    pub announce_max: u32,
    /// Peers announcing again sooner than this many seconds get an empty peer
    /// list. Optional: when it is not set, `announce_min` is enforced.
    pub announce_min_enforced: u32,
    /// Percentage credited on uploads; 200 means global double upload.
    pub upload_factor: u8,
    /// Percentage charged on downloads; 0 means global freeleech.
    pub download_factor: u8,
    /// Seconds between scheduled batches where peers are marked as inactive
    /// or erased from memory.
    pub peer_expiry_interval: u64,
    /// Seconds since the last announce before a peer is considered inactive.
    pub active_peer_ttl: u64,
    /// Seconds since the last announce before a peer is erased from memory.
    pub inactive_peer_ttl: u64,
    /// Max amount of active peers a user is allowed to have on a torrent.
    pub max_peers_per_torrent_per_user: u16,
    /// Open a connection to the incoming peer and record if its socket
    /// accepts the connection.
    pub is_connectivity_check_enabled: bool,
    /// Seconds a socket's connectivity status is cached for.
    pub connectivity_check_interval: i64,
    /// Restrict peer lists to peers with open ports.
    pub require_peer_connectivity: bool,
    /// Record every successful announce.
    pub is_announce_logging_enabled: bool,
    /// Overrides the immune status of a donor's group.
    pub donor_immunity_override: Option<bool>,
    /// Overrides (upwards) the upload factor of a donor's group.
    pub donor_upload_factor_override: Option<u8>,
    /// Overrides (downwards) the download factor of a donor's group.
    pub donor_download_factor_override: Option<u8>,
    /// Overrides the immune status of a lifetime donor's group.
    pub lifetime_donor_immunity_override: Option<bool>,
    /// Overrides (upwards) the upload factor of a lifetime donor's group.
    pub lifetime_donor_upload_factor_override: Option<u8>,
    /// Overrides (downwards) the download factor of a lifetime donor's group.
    pub lifetime_donor_download_factor_override: Option<u8>,
}

/// One of the settings of a [`Config`], named after its field.
#[derive(Clone, Copy, Debug, PartialEq, Eq)]
pub enum Setting {
    FlushIntervalMilliseconds,
    NumwantDefault,
    NumwantMax,
    AnnounceMin,
    AnnounceMax,
    AnnounceMinEnforced,
    UploadFactor,
    DownloadFactor,
    PeerExpiryInterval,
    ActivePeerTtl,
    InactivePeerTtl,
    MaxPeersPerTorrentPerUser,
    IsConnectivityCheckEnabled,
    ConnectivityCheckInterval,
    RequirePeerConnectivity,
    IsAnnounceLoggingEnabled,
    DonorImmunityOverride,
    DonorUploadFactorOverride,
    DonorDownloadFactorOverride,
    LifetimeDonorImmunityOverride,
    LifetimeDonorUploadFactorOverride,
    LifetimeDonorDownloadFactorOverride,
}

/// Why the settings could not be read.
#[derive(Clone, Copy, Debug, PartialEq, Eq)]
pub enum ConfigError {
    /// A required setting is not set.
    Missing(Setting),
    /// A setting's text is not a value of its type.
    Invalid(Setting),
}

/// The text of each setting as it was found, `None` where it is not set.
#[derive(Clone, Debug)]
pub struct ConfigVars {
    pub flush_interval_milliseconds: Option<Vec<u8>>,
    pub numwant_default: Option<Vec<u8>>,
    pub numwant_max: Option<Vec<u8>>,
    pub announce_min: Option<Vec<u8>>,
    pub announce_max: Option<Vec<u8>>,
    pub announce_min_enforced: Option<Vec<u8>>,
    pub upload_factor: Option<Vec<u8>>,
    pub download_factor: Option<Vec<u8>>,
    pub peer_expiry_interval: Option<Vec<u8>>,
    pub active_peer_ttl: Option<Vec<u8>>,
    pub inactive_peer_ttl: Option<Vec<u8>>,
    pub max_peers_per_torrent_per_user: Option<Vec<u8>>,
    pub is_connectivity_check_enabled: Option<Vec<u8>>,
    pub connectivity_check_interval: Option<Vec<u8>>,
    pub require_peer_connectivity: Option<Vec<u8>>,
    pub is_announce_logging_enabled: Option<Vec<u8>>,
    pub donor_immunity_override: Option<Vec<u8>>,
    pub donor_upload_factor_override: Option<Vec<u8>>,
    pub donor_download_factor_override: Option<Vec<u8>>,
    pub lifetime_donor_immunity_override: Option<Vec<u8>>,
    pub lifetime_donor_upload_factor_override: Option<Vec<u8>>,
    pub lifetime_donor_download_factor_override: Option<Vec<u8>>,
}

/// The text of a setting that is set.
pub open spec fn text_of(raw: Option<Vec<u8>>) -> Option<Seq<u8>> {
    match raw {
        Some(t) => Some(t@),
        None => None,
    }
}

/// The boolean that `t` denotes, as std's `FromStr` for `bool` reads it:
/// exactly `true` or `false`.
pub open spec fn parse_bool(t: Seq<u8>) -> Option<bool> {
    if t == seq![116u8, 114, 117, 101] {
        Some(true)
    } else if t == seq![102u8, 97, 108, 115, 101] {
        Some(false)
    } else {
        None
    }
}

/// A required unsigned setting: its value between `min` and `max`.
pub open spec fn read_unsigned(raw: Option<Seq<u8>>, min: nat, max: nat, s: Setting) -> Result<nat, ConfigError> {
    match raw {
        None => Err(ConfigError::Missing(s)),
        Some(t) => match parse_unsigned(t, max) {
            Some(n) => if n >= min { Ok(n) } else { Err(ConfigError::Invalid(s)) },
            None => Err(ConfigError::Invalid(s)),
        },
    }
}

/// A required `i64` setting.
pub open spec fn read_signed(raw: Option<Seq<u8>>, s: Setting) -> Result<int, ConfigError> {
    match raw {
        None => Err(ConfigError::Missing(s)),
        Some(t) => match parse_signed(t) {
            Some(n) => Ok(n),
            None => Err(ConfigError::Invalid(s)),
        },
    }
}

/// A required boolean setting.
pub open spec fn read_bool(raw: Option<Seq<u8>>, s: Setting) -> Result<bool, ConfigError> {
    match raw {
        None => Err(ConfigError::Missing(s)),
        Some(t) => match parse_bool(t) {
            Some(b) => Ok(b),
            None => Err(ConfigError::Invalid(s)),
        },
    }
}

/// An optional boolean setting: `None` where it is not set.
pub open spec fn read_optional_bool(raw: Option<Seq<u8>>, s: Setting) -> Result<Option<bool>, ConfigError> {
    match raw {
        None => Ok(None),
        Some(t) => match parse_bool(t) {
            Some(b) => Ok(Some(b)),
            None => Err(ConfigError::Invalid(s)),
        },
    }
}

/// An optional `u32` setting: `None` where it is not set.
pub open spec fn read_optional_u32(raw: Option<Seq<u8>>, s: Setting) -> Result<Option<u32>, ConfigError> {
    match raw {
        None => Ok(None),
        Some(t) => match parse_unsigned(t, u32::MAX as nat) {
            Some(n) => Ok(Some(n as u32)),
            None => Err(ConfigError::Invalid(s)),
        },
    }
}

/// An optional `u8` setting: `None` where it is not set.
pub open spec fn read_optional_u8(raw: Option<Seq<u8>>, s: Setting) -> Result<Option<u8>, ConfigError> {
    match raw {
        None => Ok(None),
        Some(t) => match parse_unsigned(t, u8::MAX as nat) {
            Some(n) => Ok(Some(n as u8)),
            None => Err(ConfigError::Invalid(s)),
        },
    }
}

/// The settings that `v` gives, or the first of them, in the order of the
/// fields, that is missing or not a value of its type. An unset
/// `announce_min_enforced` takes the value of `announce_min`.
pub open spec fn spec_config_from_vars(v: ConfigVars) -> Result<Config, ConfigError> {
    let flush = read_unsigned(text_of(v.flush_interval_milliseconds), 1, u64::MAX as nat, Setting::FlushIntervalMilliseconds);
    let numwant_default = read_unsigned(text_of(v.numwant_default), 0, usize::MAX as nat, Setting::NumwantDefault);
    let numwant_max = read_unsigned(text_of(v.numwant_max), 0, usize::MAX as nat, Setting::NumwantMax);
    let announce_min = read_unsigned(text_of(v.announce_min), 0, u32::MAX as nat, Setting::AnnounceMin);
    let announce_max = read_unsigned(text_of(v.announce_max), 0, u32::MAX as nat, Setting::AnnounceMax);
    let announce_min_enforced = read_optional_u32(text_of(v.announce_min_enforced), Setting::AnnounceMinEnforced);
    let upload_factor = read_unsigned(text_of(v.upload_factor), 0, u8::MAX as nat, Setting::UploadFactor);
    let download_factor = read_unsigned(text_of(v.download_factor), 0, u8::MAX as nat, Setting::DownloadFactor);
    let peer_expiry_interval = read_unsigned(text_of(v.peer_expiry_interval), 1, u64::MAX as nat, Setting::PeerExpiryInterval);
    let active_peer_ttl = read_unsigned(text_of(v.active_peer_ttl), 0, u64::MAX as nat, Setting::ActivePeerTtl);
    let inactive_peer_ttl = read_unsigned(text_of(v.inactive_peer_ttl), 0, u64::MAX as nat, Setting::InactivePeerTtl);
    let max_peers = read_unsigned(text_of(v.max_peers_per_torrent_per_user), 0, u16::MAX as nat, Setting::MaxPeersPerTorrentPerUser);
    let check_enabled = read_bool(text_of(v.is_connectivity_check_enabled), Setting::IsConnectivityCheckEnabled);
    let check_interval = read_signed(text_of(v.connectivity_check_interval), Setting::ConnectivityCheckInterval);
    let require_connectivity = read_bool(text_of(v.require_peer_connectivity), Setting::RequirePeerConnectivity);
    let logging = read_bool(text_of(v.is_announce_logging_enabled), Setting::IsAnnounceLoggingEnabled);
    let donor_immunity = read_optional_bool(text_of(v.donor_immunity_override), Setting::DonorImmunityOverride);
    let donor_upload = read_optional_u8(text_of(v.donor_upload_factor_override), Setting::DonorUploadFactorOverride);
    let donor_download = read_optional_u8(text_of(v.donor_download_factor_override), Setting::DonorDownloadFactorOverride);
    let lifetime_immunity = read_optional_bool(text_of(v.lifetime_donor_immunity_override), Setting::LifetimeDonorImmunityOverride);
    let lifetime_upload = read_optional_u8(text_of(v.lifetime_donor_upload_factor_override), Setting::LifetimeDonorUploadFactorOverride);
    let lifetime_download = read_optional_u8(text_of(v.lifetime_donor_download_factor_override), Setting::LifetimeDonorDownloadFactorOverride);
    if let Err(e) = flush { Err(e) }
    else if let Err(e) = numwant_default { Err(e) }
    else if let Err(e) = numwant_max { Err(e) }
    else if let Err(e) = announce_min { Err(e) }
    else if let Err(e) = announce_max { Err(e) }
    else if let Err(e) = announce_min_enforced { Err(e) }
    else if let Err(e) = upload_factor { Err(e) }
    else if let Err(e) = download_factor { Err(e) }
    else if let Err(e) = peer_expiry_interval { Err(e) }
    else if let Err(e) = active_peer_ttl { Err(e) }
    else if let Err(e) = inactive_peer_ttl { Err(e) }
    else if let Err(e) = max_peers { Err(e) }
    else if let Err(e) = check_enabled { Err(e) }
    else if let Err(e) = check_interval { Err(e) }
    else if let Err(e) = require_connectivity { Err(e) }
    else if let Err(e) = logging { Err(e) }
    else if let Err(e) = donor_immunity { Err(e) }
    else if let Err(e) = donor_upload { Err(e) }
    else if let Err(e) = donor_download { Err(e) }
    else if let Err(e) = lifetime_immunity { Err(e) }
    else if let Err(e) = lifetime_upload { Err(e) }
    else if let Err(e) = lifetime_download { Err(e) }
    else {
        Ok(Config {
            flush_interval_milliseconds: flush->Ok_0 as u64,
            numwant_default: numwant_default->Ok_0 as usize,
            numwant_max: numwant_max->Ok_0 as usize,
            announce_min: announce_min->Ok_0 as u32,
            announce_max: announce_max->Ok_0 as u32,
            announce_min_enforced: match announce_min_enforced->Ok_0 {
                Some(n) => n,
                None => announce_min->Ok_0 as u32,
            },
            upload_factor: upload_factor->Ok_0 as u8,
            download_factor: download_factor->Ok_0 as u8,
            peer_expiry_interval: peer_expiry_interval->Ok_0 as u64,
            active_peer_ttl: active_peer_ttl->Ok_0 as u64,
            inactive_peer_ttl: inactive_peer_ttl->Ok_0 as u64,
            max_peers_per_torrent_per_user: max_peers->Ok_0 as u16,
            is_connectivity_check_enabled: check_enabled->Ok_0,
            connectivity_check_interval: check_interval->Ok_0 as i64,
            require_peer_connectivity: require_connectivity->Ok_0,
            is_announce_logging_enabled: logging->Ok_0,
            donor_immunity_override: donor_immunity->Ok_0,
            donor_upload_factor_override: donor_upload->Ok_0,
            donor_download_factor_override: donor_download->Ok_0,
            lifetime_donor_immunity_override: lifetime_immunity->Ok_0,
            lifetime_donor_upload_factor_override: lifetime_upload->Ok_0,
            lifetime_donor_download_factor_override: lifetime_download->Ok_0,
        })
    }
}

/// Reads a required unsigned setting between `min` and `max`.
fn required_unsigned(raw: &Option<Vec<u8>>, min: u64, max: u64, s: Setting) -> (r: Result<u64, ConfigError>)
    ensures
        match r {
            Ok(n) => read_unsigned(text_of(*raw), min as nat, max as nat, s) == Ok::<nat, ConfigError>(n as nat),
            Err(e) => read_unsigned(text_of(*raw), min as nat, max as nat, s) == Err::<nat, ConfigError>(e),
        },
{
    match raw {
        None => Err(ConfigError::Missing(s)),
        Some(t) => match parse_unsigned_bytes(t.as_slice(), max) {
            Some(n) => if n >= min { Ok(n) } else { Err(ConfigError::Invalid(s)) },
            None => Err(ConfigError::Invalid(s)),
        },
    }
}

/// Reads a required `i64` setting.
fn required_signed(raw: &Option<Vec<u8>>, s: Setting) -> (r: Result<i64, ConfigError>)
    ensures
        match r {
            Ok(n) => read_signed(text_of(*raw), s) == Ok::<int, ConfigError>(n as int),
            Err(e) => read_signed(text_of(*raw), s) == Err::<int, ConfigError>(e),
        },
{
    match raw {
        None => Err(ConfigError::Missing(s)),
        Some(t) => match parse_signed_bytes(t.as_slice()) {
            Some(n) => Ok(n),
            None => Err(ConfigError::Invalid(s)),
        },
    }
}

/// Reads `true` or `false`.
fn bool_from_bytes(t: &[u8]) -> (r: Option<bool>)
    ensures
        r == parse_bool(t@),
{
    if t.len() == 4 && t[0] == 116 && t[1] == 114 && t[2] == 117 && t[3] == 101 {
        assert(t@ =~= seq![116u8, 114, 117, 101]);
        Some(true)
    } else if t.len() == 5 && t[0] == 102 && t[1] == 97 && t[2] == 108 && t[3] == 115 && t[4] == 101 {
        assert(t@ =~= seq![102u8, 97, 108, 115, 101]);
        Some(false)
    } else {
        proof {
            if t@ == seq![116u8, 114, 117, 101] {
                assert(t@[0] == 116 && t@[1] == 114 && t@[2] == 117 && t@[3] == 101);
            }
            if t@ == seq![102u8, 97, 108, 115, 101] {
                assert(t@[0] == 102 && t@[1] == 97 && t@[2] == 108 && t@[3] == 115 && t@[4] == 101);
            }
        }
        None
    }
}

/// Reads a required boolean setting.
fn required_bool(raw: &Option<Vec<u8>>, s: Setting) -> (r: Result<bool, ConfigError>)
    ensures
        r == read_bool(text_of(*raw), s),
{
    match raw {
        None => Err(ConfigError::Missing(s)),
        Some(t) => match bool_from_bytes(t.as_slice()) {
            Some(b) => Ok(b),
            None => Err(ConfigError::Invalid(s)),
        },
    }
}

/// Reads an optional boolean setting.
fn optional_bool(raw: &Option<Vec<u8>>, s: Setting) -> (r: Result<Option<bool>, ConfigError>)
    ensures
        r == read_optional_bool(text_of(*raw), s),
{
    match raw {
        None => Ok(None),
        Some(t) => match bool_from_bytes(t.as_slice()) {
            Some(b) => Ok(Some(b)),
            None => Err(ConfigError::Invalid(s)),
        },
    }
}

/// Reads an optional `u32` setting.
fn optional_u32(raw: &Option<Vec<u8>>, s: Setting) -> (r: Result<Option<u32>, ConfigError>)
    ensures
        r == read_optional_u32(text_of(*raw), s),
{
    match raw {
        None => Ok(None),
        Some(t) => match parse_unsigned_bytes(t.as_slice(), u32::MAX as u64) {
            Some(n) => Ok(Some(n as u32)),
            None => Err(ConfigError::Invalid(s)),
        },
    }
}

/// Reads an optional `u8` setting.
fn optional_u8(raw: &Option<Vec<u8>>, s: Setting) -> (r: Result<Option<u8>, ConfigError>)
    ensures
        r == read_optional_u8(text_of(*raw), s),
{
    match raw {
        None => Ok(None),
        Some(t) => match parse_unsigned_bytes(t.as_slice(), 255) {
            Some(n) => Ok(Some(n as u8)),
            None => Err(ConfigError::Invalid(s)),
        },
    }
}

impl Config {
    /// Reads the settings from their text: every required setting must be
    /// set, and every setting that is set must be a value of its type. The
    /// first setting, in the order of the fields, that fails is reported.
    pub fn from_vars(v: &ConfigVars) -> (r: Result<Config, ConfigError>)
        ensures
            r == spec_config_from_vars(*v),
    {
        let flush = required_unsigned(&v.flush_interval_milliseconds, 1, u64::MAX, Setting::FlushIntervalMilliseconds);
        let numwant_default = required_unsigned(&v.numwant_default, 0, usize::MAX as u64, Setting::NumwantDefault);
        let numwant_max = required_unsigned(&v.numwant_max, 0, usize::MAX as u64, Setting::NumwantMax);
        let announce_min = required_unsigned(&v.announce_min, 0, u32::MAX as u64, Setting::AnnounceMin);
        let announce_max = required_unsigned(&v.announce_max, 0, u32::MAX as u64, Setting::AnnounceMax);
        let announce_min_enforced = optional_u32(&v.announce_min_enforced, Setting::AnnounceMinEnforced);
        let upload_factor = required_unsigned(&v.upload_factor, 0, 255, Setting::UploadFactor);
        let download_factor = required_unsigned(&v.download_factor, 0, 255, Setting::DownloadFactor);
        let peer_expiry_interval = required_unsigned(&v.peer_expiry_interval, 1, u64::MAX, Setting::PeerExpiryInterval);
        let active_peer_ttl = required_unsigned(&v.active_peer_ttl, 0, u64::MAX, Setting::ActivePeerTtl);
        let inactive_peer_ttl = required_unsigned(&v.inactive_peer_ttl, 0, u64::MAX, Setting::InactivePeerTtl);
        let max_peers = required_unsigned(&v.max_peers_per_torrent_per_user, 0, u16::MAX as u64, Setting::MaxPeersPerTorrentPerUser);
        let check_enabled = required_bool(&v.is_connectivity_check_enabled, Setting::IsConnectivityCheckEnabled);
        let check_interval = required_signed(&v.connectivity_check_interval, Setting::ConnectivityCheckInterval);
        let require_connectivity = required_bool(&v.require_peer_connectivity, Setting::RequirePeerConnectivity);
        let logging = required_bool(&v.is_announce_logging_enabled, Setting::IsAnnounceLoggingEnabled);
        let donor_immunity = optional_bool(&v.donor_immunity_override, Setting::DonorImmunityOverride);
        let donor_upload = optional_u8(&v.donor_upload_factor_override, Setting::DonorUploadFactorOverride);
        let donor_download = optional_u8(&v.donor_download_factor_override, Setting::DonorDownloadFactorOverride);
        let lifetime_immunity = optional_bool(&v.lifetime_donor_immunity_override, Setting::LifetimeDonorImmunityOverride);
        let lifetime_upload = optional_u8(&v.lifetime_donor_upload_factor_override, Setting::LifetimeDonorUploadFactorOverride);
        let lifetime_download = optional_u8(&v.lifetime_donor_download_factor_override, Setting::LifetimeDonorDownloadFactorOverride);
        let flush = match flush { Ok(x) => x, Err(e) => return Err(e) };
        let numwant_default = match numwant_default { Ok(x) => x, Err(e) => return Err(e) };
        let numwant_max = match numwant_max { Ok(x) => x, Err(e) => return Err(e) };
        let announce_min = match announce_min { Ok(x) => x, Err(e) => return Err(e) };
        let announce_max = match announce_max { Ok(x) => x, Err(e) => return Err(e) };
        let announce_min_enforced = match announce_min_enforced { Ok(x) => x, Err(e) => return Err(e) };
        let upload_factor = match upload_factor { Ok(x) => x, Err(e) => return Err(e) };
        let download_factor = match download_factor { Ok(x) => x, Err(e) => return Err(e) };
        let peer_expiry_interval = match peer_expiry_interval { Ok(x) => x, Err(e) => return Err(e) };
        let active_peer_ttl = match active_peer_ttl { Ok(x) => x, Err(e) => return Err(e) };
        let inactive_peer_ttl = match inactive_peer_ttl { Ok(x) => x, Err(e) => return Err(e) };
        let max_peers = match max_peers { Ok(x) => x, Err(e) => return Err(e) };
        let check_enabled = match check_enabled { Ok(x) => x, Err(e) => return Err(e) };
        let check_interval = match check_interval { Ok(x) => x, Err(e) => return Err(e) };
        let require_connectivity = match require_connectivity { Ok(x) => x, Err(e) => return Err(e) };
        let logging = match logging { Ok(x) => x, Err(e) => return Err(e) };
        let donor_immunity = match donor_immunity { Ok(x) => x, Err(e) => return Err(e) };
        let donor_upload = match donor_upload { Ok(x) => x, Err(e) => return Err(e) };
        let donor_download = match donor_download { Ok(x) => x, Err(e) => return Err(e) };
        let lifetime_immunity = match lifetime_immunity { Ok(x) => x, Err(e) => return Err(e) };
        let lifetime_upload = match lifetime_upload { Ok(x) => x, Err(e) => return Err(e) };
        let lifetime_download = match lifetime_download { Ok(x) => x, Err(e) => return Err(e) };
        Ok(Config {
            flush_interval_milliseconds: flush,
            numwant_default: numwant_default as usize,
            numwant_max: numwant_max as usize,
            announce_min: announce_min as u32,
            announce_max: announce_max as u32,
            announce_min_enforced: match announce_min_enforced {
                Some(n) => n,
                None => announce_min as u32,
            },
            upload_factor: upload_factor as u8,
            download_factor: download_factor as u8,
            peer_expiry_interval,
            active_peer_ttl,
            inactive_peer_ttl,
            max_peers_per_torrent_per_user: max_peers as u16,
            is_connectivity_check_enabled: check_enabled,
            connectivity_check_interval: check_interval,
            require_peer_connectivity: require_connectivity,
            is_announce_logging_enabled: logging,
            donor_immunity_override: donor_immunity,
            donor_upload_factor_override: donor_upload,
            donor_download_factor_override: donor_download,
            lifetime_donor_immunity_override: lifetime_immunity,
            lifetime_donor_upload_factor_override: lifetime_upload,
            lifetime_donor_download_factor_override: lifetime_download,
        })
    }
}

/// Whether an api key is long enough: at least 32 bytes.
pub fn api_key_is_long_enough(apikey: &[u8]) -> (r: bool)
    ensures
        r == (apikey@.len() >= 32),
{
    apikey.len() >= 32
}

} // verus!
