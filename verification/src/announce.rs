//! Announces: reading the query string, admitting the request, updating the
//! torrent's peers, and writing the bencoded answer.
use vstd::prelude::*;
use vstd::string::StringSliceAdditionalSpecFns;

use crate::bytes::{bytes_eq_str};
use crate::config::Config;
use crate::error::AnnounceError;
use crate::number::{decimal, parse_unsigned, parse_unsigned_bytes, slice_range};
use crate::peer::PeerId;
use crate::torrent::InfoHash;
use crate::utils::{byte_positions, memchr_positions, spec_urlencoded_to_bytes, urlencoded_to_bytes};

verus! {

/// The event a client reports with its announce.
#[derive(Clone, Copy, Debug, PartialEq, Eq, Structural)]
pub enum Event {
    Completed,
    Empty,
    Started,
    Stopped,
}

/// An event's name reads back as that event.
pub proof fn lemma_event_name_roundtrip(e: Event)
    ensures
        spec_parse_event(event_name(e)) == Some(e),
{
    broadcast use vstd::string::is_ascii_spec_bytes;
    reveal_strlit("");
    reveal_strlit("empty");
    reveal_strlit("paused");
    reveal_strlit("completed");
    reveal_strlit("started");
    reveal_strlit("stopped");
    assert(vstd::string::is_ascii(""));
    assert(vstd::string::is_ascii("empty"));
    assert(vstd::string::is_ascii("paused"));
    assert(vstd::string::is_ascii("completed"));
    assert(vstd::string::is_ascii("started"));
    assert(vstd::string::is_ascii("stopped"));
    let c = "completed".spec_bytes();
    let st = "started".spec_bytes();
    let sp = "stopped".spec_bytes();
    assert(c.len() == 9 && st.len() == 7 && sp.len() == 7);
    assert("".spec_bytes().len() == 0 && "empty".spec_bytes().len() == 5 && "paused".spec_bytes().len() == 6);
    assert(st[3] != sp[3]);
}

/// The event a query string value names.
pub open spec fn spec_parse_event(s: Seq<u8>) -> Option<Event> {
    if s == "".spec_bytes() || s == "empty".spec_bytes() || s == "paused".spec_bytes() {
        Some(Event::Empty)
    } else if s == "completed".spec_bytes() {
        Some(Event::Completed)
    } else if s == "started".spec_bytes() {
        Some(Event::Started)
    } else if s == "stopped".spec_bytes() {
        Some(Event::Stopped)
    } else {
        None
    }
}

/// The bytes of an event's name: empty for no event.
pub open spec fn event_name(e: Event) -> Seq<u8> {
    match e {
        Event::Completed => "completed".spec_bytes(),
        Event::Empty => "".spec_bytes(),
        Event::Started => "started".spec_bytes(),
        Event::Stopped => "stopped".spec_bytes(),
    }
}

impl Event {
    /// Reads an event from its query string value; `paused` and the empty
    /// value count as no event.
    pub fn parse(s: &[u8]) -> (r: Result<Event, AnnounceError>)
        ensures
            match spec_parse_event(s@) {
                Some(e) => r == Ok::<Event, AnnounceError>(e),
                None => r == Err::<Event, AnnounceError>(AnnounceError::UnsupportedEvent),
            },
    {
        if bytes_eq_str(s, "") || bytes_eq_str(s, "empty") || bytes_eq_str(s, "paused") {
            Ok(Event::Empty)
        } else if bytes_eq_str(s, "completed") {
            Ok(Event::Completed)
        } else if bytes_eq_str(s, "started") {
            Ok(Event::Started)
        } else if bytes_eq_str(s, "stopped") {
            Ok(Event::Stopped)
        } else {
            Err(AnnounceError::UnsupportedEvent)
        }
    }

    /// The event's name as announces are logged (empty for no event).
    pub fn as_str(&self) -> (r: &'static str)
        ensures
            r@ == match self {
                Event::Completed => "completed"@,
                Event::Empty => ""@,
                Event::Started => "started"@,
                Event::Stopped => "stopped"@,
            },
            r.spec_bytes() == event_name(*self),
    {
        match self {
            Event::Completed => "completed",
            Event::Empty => "",
            Event::Started => "started",
            Event::Stopped => "stopped",
        }
    }
}

/// The parameters of an announce request.
#[derive(Clone, Debug)]
pub struct Announce {
    pub info_hash: InfoHash,
    pub peer_id: PeerId,
    pub port: u16,
    pub uploaded: u64,
    pub downloaded: u64,
    pub left: u64,
    pub event: Event,
    pub numwant: usize,
    pub corrupt: Option<u64>,
    pub key: Option<Vec<u8>>,
}

/// An extracted query string.
pub struct Query<T>(pub T);

/// The query string parameters read so far (values of later occurrences
/// replace earlier ones).
pub struct QueryParams {
    pub info_hash: Option<Seq<u8>>,
    pub peer_id: Option<Seq<u8>>,
    pub port: Option<u16>,
    pub uploaded: Option<u64>,
    pub downloaded: Option<u64>,
    pub left: Option<u64>,
    pub event: Option<Event>,
    pub numwant: Option<usize>,
    pub corrupt: Option<u64>,
    pub key: Option<Seq<u8>>,
}

/// No parameter read yet.
pub open spec fn no_params() -> QueryParams {
    QueryParams {
        info_hash: None,
        peer_id: None,
        port: None,
        uploaded: None,
        downloaded: None,
        left: None,
        event: None,
        numwant: None,
        corrupt: None,
        key: None,
    }
}

/// Reads one `name=value` pair into the parameters. Unknown names are
/// ignored; `corrupt` is dropped when it is not a number; `compact` must be 1.
pub open spec fn apply_param(p: QueryParams, name: Seq<u8>, value: Seq<u8>) -> Result<QueryParams, AnnounceError> {
    if name == "info_hash".spec_bytes() {
        match spec_urlencoded_to_bytes(value) {
            Some(b) => Ok(QueryParams { info_hash: Some(b), ..p }),
            None => Err(AnnounceError::InvalidInfoHash),
        }
    } else if name == "peer_id".spec_bytes() {
        match spec_urlencoded_to_bytes(value) {
            Some(b) => Ok(QueryParams { peer_id: Some(b), ..p }),
            None => Err(AnnounceError::InvalidPeerId),
        }
    } else if name == "port".spec_bytes() {
        match parse_unsigned(value, u16::MAX as nat) {
            Some(v) => Ok(QueryParams { port: Some(v as u16), ..p }),
            None => Err(AnnounceError::InvalidPort),
        }
    } else if name == "uploaded".spec_bytes() {
        match parse_unsigned(value, u64::MAX as nat) {
            Some(v) => Ok(QueryParams { uploaded: Some(v as u64), ..p }),
            None => Err(AnnounceError::InvalidUploaded),
        }
    } else if name == "downloaded".spec_bytes() {
        match parse_unsigned(value, u64::MAX as nat) {
            Some(v) => Ok(QueryParams { downloaded: Some(v as u64), ..p }),
            None => Err(AnnounceError::InvalidDownloaded),
        }
    } else if name == "left".spec_bytes() {
        match parse_unsigned(value, u64::MAX as nat) {
            Some(v) => Ok(QueryParams { left: Some(v as u64), ..p }),
            None => Err(AnnounceError::InvalidLeft),
        }
    } else if name == "compact".spec_bytes() {
        if value == "1".spec_bytes() {
            Ok(p)
        } else {
            Err(AnnounceError::InvalidCompact)
        }
    } else if name == "event".spec_bytes() {
        match spec_parse_event(value) {
            Some(e) => Ok(QueryParams { event: Some(e), ..p }),
            None => Err(AnnounceError::UnsupportedEvent),
        }
    } else if name == "numwant".spec_bytes() {
        match parse_unsigned(value, usize::MAX as nat) {
            Some(v) => Ok(QueryParams { numwant: Some(v as usize), ..p }),
            None => Err(AnnounceError::InvalidNumwant),
        }
    } else if name == "corrupt".spec_bytes() {
        match parse_unsigned(value, u64::MAX as nat) {
            Some(v) => Ok(QueryParams { corrupt: Some(v as u64), ..p }),
            None => Ok(QueryParams { corrupt: None, ..p }),
        }
    } else if name == "key".spec_bytes() {
        Ok(QueryParams { key: Some(value), ..p })
    } else {
        Ok(p)
    }
}

/// Reads the pairs of a query string. The `i`-th `=` ends the `i`-th name,
/// which starts at `pos`; its value runs to the `i`-th `&` (or to the end of
/// the string, which ends the reading). A name or value whose bounds cross is
/// refused.
pub open spec fn read_params(
    q: Seq<u8>,
    eqs: Seq<int>,
    amps: Seq<int>,
    i: nat,
    pos: int,
    p: QueryParams,
) -> Result<QueryParams, AnnounceError>
    decreases eqs.len() - i,
{
    if i >= eqs.len() {
        Ok(p)
    } else {
        let eq = eqs[i as int];
        let end = if i < amps.len() { amps[i as int] } else { q.len() as int };
        if pos > eq {
            Err(AnnounceError::InvalidQueryStringKey)
        } else if eq + 1 > end {
            Err(AnnounceError::InvalidQueryStringValue)
        } else {
            match apply_param(p, q.subrange(pos, eq), q.subrange(eq + 1, end)) {
                Err(e) => Err(e),
                Ok(p2) => if end == q.len() {
                    Ok(p2)
                } else {
                    read_params(q, eqs, amps, i + 1, end + 1, p2)
                },
            }
        }
    }
}

/// The parameters of a whole query string.
pub open spec fn query_params(q: Seq<u8>) -> Result<QueryParams, AnnounceError> {
    read_params(q, byte_positions(q, 61), byte_positions(q, 38), 0, 0, no_params())
}

/// The announce a query string describes, or why it is refused: the first
/// bad parameter, else the first missing one (in the order info_hash,
/// peer_id, port, uploaded, downloaded, left). A stopped peer wants no peers;
/// others get their numwant (or the default), at most the configured maximum.
pub open spec fn spec_announce_from_query(
    q: Seq<u8>,
    numwant_default: usize,
    numwant_max: usize,
) -> Result<(Seq<u8>, Seq<u8>, u16, u64, u64, u64, Event, usize, Option<u64>, Option<Seq<u8>>), AnnounceError> {
    match query_params(q) {
        Err(e) => Err(e),
        Ok(p) => if p.info_hash is None {
            Err(AnnounceError::MissingInfoHash)
        } else if p.peer_id is None {
            Err(AnnounceError::MissingPeerId)
        } else if p.port is None {
            Err(AnnounceError::MissingPort)
        } else if p.uploaded is None {
            Err(AnnounceError::MissingUploaded)
        } else if p.downloaded is None {
            Err(AnnounceError::MissingDownloaded)
        } else if p.left is None {
            Err(AnnounceError::MissingLeft)
        } else {
            let event = match p.event { Some(e) => e, None => Event::Empty };
            let numwant = if event == Event::Stopped {
                0
            } else {
                let n = match p.numwant { Some(n) => n, None => numwant_default };
                if n < numwant_max { n } else { numwant_max }
            };
            Ok((p.info_hash.unwrap(), p.peer_id.unwrap(), p.port.unwrap(), p.uploaded.unwrap(),
                p.downloaded.unwrap(), p.left.unwrap(), event, numwant, p.corrupt, p.key))
        },
    }
}

/// The parameters of an announce as a tuple, for comparing with
/// `spec_announce_from_query`.
pub open spec fn announce_fields(a: Announce) -> (Seq<u8>, Seq<u8>, u16, u64, u64, u64, Event, usize, Option<u64>, Option<Seq<u8>>) {
    (a.info_hash.0@, a.peer_id.0@, a.port, a.uploaded, a.downloaded, a.left, a.event, a.numwant, a.corrupt,
        match a.key { Some(k) => Some(k@), None => None })
}

/// An announce read from a query string wants at most the configured
/// maximum of peers, and a stopped one wants none.
pub proof fn lemma_numwant_bounded(q: Seq<u8>, numwant_default: usize, numwant_max: usize)
    ensures
        spec_announce_from_query(q, numwant_default, numwant_max) matches Ok(f) ==> {
            &&& f.7 <= numwant_max
            &&& f.6 == Event::Stopped ==> f.7 == 0
        },
{
}

/// An announce that is not a stop wants the number of peers its query asks
/// for (or the default, when it asks for none), but never more than the
/// configured maximum: exactly what it asked for when that is within the
/// maximum, and the maximum otherwise.
pub proof fn lemma_numwant_follows_request(q: Seq<u8>, numwant_default: usize, numwant_max: usize)
    ensures
        spec_announce_from_query(q, numwant_default, numwant_max) matches Ok(f) ==> {
            let asked = match query_params(q)->Ok_0.numwant {
                Some(n) => n,
                None => numwant_default,
            };
            f.6 != Event::Stopped ==> {
                &&& asked <= numwant_max ==> f.7 == asked
                &&& asked > numwant_max ==> f.7 == numwant_max
            }
        },
{
}

proof fn lemma_param_names()
    ensures
        "info_hash".spec_bytes().len() == 9,
        "peer_id".spec_bytes().len() == 7,
        "port".spec_bytes().len() == 4,
        "uploaded".spec_bytes().len() == 8,
        "downloaded".spec_bytes().len() == 10,
        "left".spec_bytes().len() == 4,
        "compact".spec_bytes().len() == 7,
        "event".spec_bytes().len() == 5,
        "numwant".spec_bytes().len() == 7,
        "peer_id".spec_bytes()[0] == 112,
        "port".spec_bytes()[0] == 112,
        "left".spec_bytes()[0] == 108,
        "compact".spec_bytes()[0] == 99,
        "numwant".spec_bytes()[0] == 110,
{
    broadcast use vstd::string::is_ascii_spec_bytes;
    reveal_strlit("numwant");
    reveal_strlit("info_hash");
    reveal_strlit("peer_id");
    reveal_strlit("port");
    reveal_strlit("uploaded");
    reveal_strlit("downloaded");
    reveal_strlit("left");
    reveal_strlit("compact");
    reveal_strlit("event");
    assert(vstd::string::is_ascii("numwant"));
    assert(vstd::string::is_ascii("info_hash"));
    assert(vstd::string::is_ascii("peer_id"));
    assert(vstd::string::is_ascii("port"));
    assert(vstd::string::is_ascii("uploaded"));
    assert(vstd::string::is_ascii("downloaded"));
    assert(vstd::string::is_ascii("left"));
    assert(vstd::string::is_ascii("compact"));
    assert(vstd::string::is_ascii("event"));
}

/// A `numwant` parameter is read as the number it writes in decimal.
pub proof fn lemma_numwant_param_read(p: QueryParams, n: usize)
    ensures
        apply_param(p, "numwant".spec_bytes(), decimal(n as nat)) == Ok::<QueryParams, AnnounceError>(
            QueryParams { numwant: Some(n), ..p },
        ),
{
    crate::number::lemma_parse_decimal(n as nat, usize::MAX as nat);
    lemma_param_names();
    let nw = "numwant".spec_bytes();
    assert(nw[0] != "peer_id".spec_bytes()[0]);
    assert(nw[0] != "compact".spec_bytes()[0]);
}

/// The transfer totals and the port are read as the numbers they write in
/// decimal.
pub proof fn lemma_numeric_params_read(p: QueryParams, n: u64)
    ensures
        apply_param(p, "uploaded".spec_bytes(), decimal(n as nat)) == Ok::<QueryParams, AnnounceError>(
            QueryParams { uploaded: Some(n), ..p },
        ),
        apply_param(p, "downloaded".spec_bytes(), decimal(n as nat)) == Ok::<QueryParams, AnnounceError>(
            QueryParams { downloaded: Some(n), ..p },
        ),
        apply_param(p, "left".spec_bytes(), decimal(n as nat)) == Ok::<QueryParams, AnnounceError>(
            QueryParams { left: Some(n), ..p },
        ),
        n <= u16::MAX ==> apply_param(p, "port".spec_bytes(), decimal(n as nat)) == Ok::<QueryParams, AnnounceError>(
            QueryParams { port: Some(n as u16), ..p },
        ),
{
    crate::number::lemma_parse_decimal(n as nat, u64::MAX as nat);
    if n <= u16::MAX {
        crate::number::lemma_parse_decimal(n as nat, u16::MAX as nat);
    }
    lemma_param_names();
    assert("left".spec_bytes()[0] != "port".spec_bytes()[0]);
}

/// Parameters being read, as executable values.
struct ParamsBuf {
    info_hash: Option<[u8; 20]>,
    peer_id: Option<[u8; 20]>,
    port: Option<u16>,
    uploaded: Option<u64>,
    downloaded: Option<u64>,
    left: Option<u64>,
    event: Option<Event>,
    numwant: Option<usize>,
    corrupt: Option<u64>,
    key: Option<Vec<u8>>,
}

impl ParamsBuf {
    spec fn view(self) -> QueryParams {
        QueryParams {
            info_hash: match self.info_hash { Some(b) => Some(b@), None => None },
            peer_id: match self.peer_id { Some(b) => Some(b@), None => None },
            port: self.port,
            uploaded: self.uploaded,
            downloaded: self.downloaded,
            left: self.left,
            event: self.event,
            numwant: self.numwant,
            corrupt: self.corrupt,
            key: match self.key { Some(k) => Some(k@), None => None },
        }
    }
}

/// Applies one pair to the buffer.
fn apply_param_exec(p: &mut ParamsBuf, name: &[u8], value: &[u8]) -> (r: Result<(), AnnounceError>)
    ensures
        match apply_param(old(p).view(), name@, value@) {
            Ok(p2) => r is Ok && final(p).view() == p2,
            Err(e) => r == Err::<(), AnnounceError>(e),
        },
{
    if bytes_eq_str(name, "info_hash") {
        match urlencoded_to_bytes(value) {
            Ok(b) => {
                p.info_hash = Some(b);
                Ok(())
            },
            Err(_) => Err(AnnounceError::InvalidInfoHash),
        }
    } else if bytes_eq_str(name, "peer_id") {
        match urlencoded_to_bytes(value) {
            Ok(b) => {
                p.peer_id = Some(b);
                Ok(())
            },
            Err(_) => Err(AnnounceError::InvalidPeerId),
        }
    } else if bytes_eq_str(name, "port") {
        match parse_unsigned_bytes(value, 65535) {
            Some(v) => {
                p.port = Some(v as u16);
                Ok(())
            },
            None => Err(AnnounceError::InvalidPort),
        }
    } else if bytes_eq_str(name, "uploaded") {
        match parse_unsigned_bytes(value, u64::MAX) {
            Some(v) => {
                p.uploaded = Some(v);
                Ok(())
            },
            None => Err(AnnounceError::InvalidUploaded),
        }
    } else if bytes_eq_str(name, "downloaded") {
        match parse_unsigned_bytes(value, u64::MAX) {
            Some(v) => {
                p.downloaded = Some(v);
                Ok(())
            },
            None => Err(AnnounceError::InvalidDownloaded),
        }
    } else if bytes_eq_str(name, "left") {
        match parse_unsigned_bytes(value, u64::MAX) {
            Some(v) => {
                p.left = Some(v);
                Ok(())
            },
            None => Err(AnnounceError::InvalidLeft),
        }
    } else if bytes_eq_str(name, "compact") {
        if bytes_eq_str(value, "1") {
            Ok(())
        } else {
            Err(AnnounceError::InvalidCompact)
        }
    } else if bytes_eq_str(name, "event") {
        match Event::parse(value) {
            Ok(e) => {
                p.event = Some(e);
                Ok(())
            },
            Err(e) => Err(e),
        }
    } else if bytes_eq_str(name, "numwant") {
        match parse_unsigned_bytes(value, usize::MAX as u64) {
            Some(v) => {
                p.numwant = Some(v as usize);
                Ok(())
            },
            None => Err(AnnounceError::InvalidNumwant),
        }
    } else if bytes_eq_str(name, "corrupt") {
        p.corrupt = parse_unsigned_bytes(value, u64::MAX);
        Ok(())
    } else if bytes_eq_str(name, "key") {
        let mut k: Vec<u8> = Vec::new();
        crate::bytes::extend_bytes(&mut k, value);
        assert(k@ =~= value@);
        p.key = Some(k);
        Ok(())
    } else {
        Ok(())
    }
}

impl Query<Announce> {
    /// Reads an announce from the bytes of an HTTP query string.
    pub fn from_query_string(query: &[u8], config: &Config) -> (r: Result<Query<Announce>, AnnounceError>)
        ensures
            match spec_announce_from_query(query@, config.numwant_default, config.numwant_max) {
                Ok(fields) => r is Ok && announce_fields(r->Ok_0.0) == fields,
                Err(e) => r == Err::<Query<Announce>, AnnounceError>(e),
            },
    {
        let query_length = query.len();
        let eqs = memchr_positions(61, query);
        let amps = memchr_positions(38, query);
        let ghost eqs_s = byte_positions(query@, 61);
        let ghost amps_s = byte_positions(query@, 38);
        proof {
            lemma_positions_in_bounds(query@, 61);
            lemma_positions_in_bounds(query@, 38);
        }
        let mut p = ParamsBuf {
            info_hash: None,
            peer_id: None,
            port: None,
            uploaded: None,
            downloaded: None,
            left: None,
            event: None,
            numwant: None,
            corrupt: None,
            key: None,
        };
        let mut pos: usize = 0;
        let mut i: usize = 0;
        let ghost mut done = false;
        proof {
            assert(p.view() == no_params());
        }
        while i < eqs.len()
            invariant_except_break
                0 <= i <= eqs@.len(),
                0 <= pos <= query_length,
                query_length == query@.len(),
                eqs@.len() == eqs_s.len(),
                amps@.len() == amps_s.len(),
                forall|k: int| 0 <= k < eqs@.len() ==> eqs@[k] as int == #[trigger] eqs_s[k],
                forall|k: int| 0 <= k < amps@.len() ==> amps@[k] as int == #[trigger] amps_s[k],
                forall|k: int| 0 <= k < eqs_s.len() ==> 0 <= #[trigger] eqs_s[k] < query@.len(),
                forall|k: int| 0 <= k < amps_s.len() ==> 0 <= #[trigger] amps_s[k] < query@.len(),
                eqs_s == byte_positions(query@, 61),
                amps_s == byte_positions(query@, 38),
                query_params(query@) == read_params(query@, eqs_s, amps_s, i as nat, pos as int, p.view()),
            ensures
                query_params(query@) == Ok::<QueryParams, AnnounceError>(p.view()),
            decreases eqs@.len() - i,
        {
            let equal_sign_pos = eqs[i];
            let value_end_pos = if i < amps.len() { amps[i] } else { query_length };
            if pos > equal_sign_pos {
                return Err(AnnounceError::InvalidQueryStringKey);
            }
            if equal_sign_pos + 1 > value_end_pos {
                return Err(AnnounceError::InvalidQueryStringValue);
            }
            let parameter = slice_range(query, pos, equal_sign_pos);
            let value = slice_range(query, equal_sign_pos + 1, value_end_pos);
            match apply_param_exec(&mut p, parameter, value) {
                Err(e) => {
                    return Err(e);
                },
                Ok(()) => {},
            }
            if value_end_pos == query_length {
                break;
            }
            pos = value_end_pos + 1;
            i = i + 1;
        }
        proof {
            if i >= eqs@.len() {
                assert(read_params(query@, eqs_s, amps_s, i as nat, pos as int, p.view()) == Ok::<QueryParams, AnnounceError>(p.view()));
            }
        }
        let info_hash = match p.info_hash {
            Some(b) => b,
            None => {
                return Err(AnnounceError::MissingInfoHash);
            },
        };
        let peer_id = match p.peer_id {
            Some(b) => b,
            None => {
                return Err(AnnounceError::MissingPeerId);
            },
        };
        let port = match p.port {
            Some(v) => v,
            None => {
                return Err(AnnounceError::MissingPort);
            },
        };
        let uploaded = match p.uploaded {
            Some(v) => v,
            None => {
                return Err(AnnounceError::MissingUploaded);
            },
        };
        let downloaded = match p.downloaded {
            Some(v) => v,
            None => {
                return Err(AnnounceError::MissingDownloaded);
            },
        };
        let left = match p.left {
            Some(v) => v,
            None => {
                return Err(AnnounceError::MissingLeft);
            },
        };
        let event = match p.event {
            Some(e) => e,
            None => Event::Empty,
        };
        let numwant = if event == Event::Stopped {
            0
        } else {
            let n = match p.numwant {
                Some(n) => n,
                None => config.numwant_default,
            };
            if n < config.numwant_max { n } else { config.numwant_max }
        };
        Ok(Query(Announce {
            info_hash: InfoHash(info_hash),
            peer_id: PeerId(peer_id),
            port,
            uploaded,
            downloaded,
            left,
            event,
            numwant,
            corrupt: p.corrupt,
            key: p.key,
        }))
    }
}

proof fn lemma_positions_in_bounds(s: Seq<u8>, b: u8)
    ensures
        forall|k: int| 0 <= k < byte_positions(s, b).len() ==> 0 <= #[trigger] byte_positions(s, b)[k] < s.len(),
    decreases s.len(),
{
    if s.len() > 0 {
        lemma_positions_in_bounds(s.drop_last(), b);
        let prev = byte_positions(s.drop_last(), b);
        assert forall|k: int| 0 <= k < byte_positions(s, b).len() implies 0 <= #[trigger] byte_positions(s, b)[k] < s.len() by {
            if k < prev.len() {
                assert(byte_positions(s, b)[k] == prev[k]);
            }
        }
    }
}

} // verus!
