//! The bencoded dictionary answered to a successful announce.
use vstd::prelude::*;
use vstd::string::StringSliceAdditionalSpecFns;

use crate::bytes::{extend_bytes, extend_str};
use crate::number::{decimal, push_decimal};

verus! {

/// A bencoded byte string: its length in decimal, a colon, its bytes.
pub open spec fn bencoded_string(s: Seq<u8>) -> Seq<u8> {
    decimal(s.len()) + ":".spec_bytes() + s
}

/// The `peers` value: the compact IPv4 list (an empty string when there is none).
pub open spec fn peers_entry(v4: Seq<u8>) -> Seq<u8> {
    if v4.len() == 0 {
        "0:".spec_bytes()
    } else {
        bencoded_string(v4)
    }
}

/// The `peers6` key and value, present only when there are IPv6 peers.
pub open spec fn peers6_entry(v6: Seq<u8>) -> Seq<u8> {
    if v6.len() == 0 {
        Seq::empty()
    } else {
        "6:peers6".spec_bytes() + bencoded_string(v6)
    }
}

/// The `warning message` key and value, present only when there is a message.
pub open spec fn warning_entry(message: Option<Seq<u8>>) -> Seq<u8> {
    match message {
        Some(m) => "15:warning message".spec_bytes() + bencoded_string(m),
        None => Seq::empty(),
    }
}

/// The announce response, its keys in the sorted order bencoding asks for.
pub open spec fn announce_response(
    complete: nat,
    downloaded: nat,
    incomplete: nat,
    interval: nat,
    min_interval: nat,
    v4: Seq<u8>,
    v6: Seq<u8>,
    message: Option<Seq<u8>>,
) -> Seq<u8> {
    "d8:completei".spec_bytes() + decimal(complete)
        + "e10:downloadedi".spec_bytes() + decimal(downloaded)
        + "e10:incompletei".spec_bytes() + decimal(incomplete)
        + "e8:intervali".spec_bytes() + decimal(interval)
        + "e12:min intervali".spec_bytes() + decimal(min_interval)
        + "e5:peers".spec_bytes() + peers_entry(v4)
        + peers6_entry(v6)
        + warning_entry(message)
        + "e".spec_bytes()
}

/// Appends a bencoded byte string.
fn push_bencoded_string(out: &mut Vec<u8>, s: &[u8])
    ensures
        final(out)@ == old(out)@ + bencoded_string(s@),
{
    push_decimal(s.len() as u64, out);
    extend_str(out, ":");
    extend_bytes(out, s);
    assert(final(out)@ =~= old(out)@ + bencoded_string(s@));
}

/// Writes the announce response: the torrent's counts, the interval until the
/// next announce, the compact peer lists and the warning message, if any.
pub fn write_announce_response(
    complete: u32,
    downloaded: u32,
    incomplete: u32,
    interval: u32,
    min_interval: u32,
    v4: &[u8],
    v6: &[u8],
    message: &Option<Vec<u8>>,
) -> (r: Vec<u8>)
    ensures
        r@ == announce_response(
            complete as nat,
            downloaded as nat,
            incomplete as nat,
            interval as nat,
            min_interval as nat,
            v4@,
            v6@,
            match message {
                Some(m) => Some(m@),
                None => None,
            },
        ),
{
    let mut response: Vec<u8> = Vec::new();
    extend_str(&mut response, "d8:completei");
    push_decimal(complete as u64, &mut response);
    extend_str(&mut response, "e10:downloadedi");
    push_decimal(downloaded as u64, &mut response);
    extend_str(&mut response, "e10:incompletei");
    push_decimal(incomplete as u64, &mut response);
    extend_str(&mut response, "e8:intervali");
    push_decimal(interval as u64, &mut response);
    extend_str(&mut response, "e12:min intervali");
    push_decimal(min_interval as u64, &mut response);
    extend_str(&mut response, "e5:peers");
    let ghost head = response@;
    if v4.len() == 0 {
        extend_str(&mut response, "0:");
    } else {
        push_bencoded_string(&mut response, v4);
    }
    assert(response@ == head + peers_entry(v4@));
    let ghost with_peers = response@;
    if v6.len() != 0 {
        extend_str(&mut response, "6:peers6");
        push_bencoded_string(&mut response, v6);
    }
    assert(response@ =~= with_peers + peers6_entry(v6@));
    let ghost with_peers6 = response@;
    match message {
        Some(m) => {
            extend_str(&mut response, "15:warning message");
            push_bencoded_string(&mut response, m.as_slice());
        },
        None => {},
    }
    let ghost msg = match message {
        Some(m) => Some(m@),
        None => None,
    };
    assert(response@ =~= with_peers6 + warning_entry(msg));
    extend_str(&mut response, "e");
    response
}

} // verus!
