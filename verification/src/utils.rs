use vstd::prelude::*;

verus! {

/// Error returned by the byte-level decoders.
#[derive(Debug, Clone, Copy)]
pub struct Error(pub &'static str);

/// Value of one ascii hex digit (either case), if it is one.
pub open spec fn hex_digit_value(c: u8) -> Option<u8> {
    if 48 <= c <= 57 {
        Some((c - 48) as u8)
    } else if 97 <= c <= 102 {
        Some((c - 97 + 10) as u8)
    } else if 65 <= c <= 70 {
        Some((c - 65 + 10) as u8)
    } else {
        None
    }
}

/// The byte that two ascii hex digits encode, high digit first.
pub open spec fn hex_pair_value(hi: u8, lo: u8) -> Option<u8> {
    match (hex_digit_value(hi), hex_digit_value(lo)) {
        (Some(h), Some(l)) => Some((h * 16 + l) as u8),
        _ => None,
    }
}

/// Upper-case ascii hex digit for a value below 16.
pub open spec fn hex_digit(v: u8) -> u8 {
    if v < 10 { (v + 48) as u8 } else { (v - 10 + 65) as u8 }
}

/// Decodes two ascii-encoded hex digits into one byte.
pub fn hex_decode(chars: [u8; 2]) -> (r: Result<u8, Error>)
    ensures
        r is Ok <==> hex_pair_value(chars@[0], chars@[1]) is Some,
        r matches Ok(b) ==> Some(b) == hex_pair_value(chars@[0], chars@[1]),
        r matches Err(e) ==> e.0@ == "Invalid URL encoding."@,
{
    let c0 = chars[0];
    let c1 = chars[1];
    let hi: u8 = if 48 <= c0 && c0 <= 57 {
        c0 - 48
    } else if 97 <= c0 && c0 <= 102 {
        c0 - 97 + 0xA
    } else if 65 <= c0 && c0 <= 70 {
        c0 - 65 + 0xA
    } else {
        return Err(Error("Invalid URL encoding."));
    };
    let lo: u8 = if 48 <= c1 && c1 <= 57 {
        c1 - 48
    } else if 97 <= c1 && c1 <= 102 {
        c1 - 97 + 0xA
    } else if 65 <= c1 && c1 <= 70 {
        c1 - 65 + 0xA
    } else {
        return Err(Error("Invalid URL encoding."));
    };
    Ok(hi * 16 + lo)
}

/// Encodes one byte into 2 ascii-encoded upper-case hex digits.
pub fn hex_encode(char: u8) -> (r: [u8; 2])
    ensures
        r@ == seq![hex_digit(char / 16), hex_digit(char % 16)],
{
    let char_1 = char / 16;
    let char_2 = char % 16;
    let d1 = if char_1 < 10 { char_1 + 48 } else { char_1 - 0xA + 65 };
    let d2 = if char_2 < 10 { char_2 + 48 } else { char_2 - 0xA + 65 };
    [d1, d2]
}

/// Decoding the two hex digits of a byte gives the byte back.
pub proof fn lemma_hex_roundtrip(b: u8)
    ensures
        hex_pair_value(hex_digit(b / 16), hex_digit(b % 16)) == Some(b),
{
}

} // verus!

verus! {

/// Number of occurrences of `b` in `s`.
pub open spec fn count_byte(s: Seq<u8>, b: u8) -> nat
    decreases s.len(),
{
    if s.len() == 0 {
        0
    } else {
        (if s[0] == b { 1nat } else { 0nat }) + count_byte(s.skip(1), b)
    }
}

/// Positions (ascending) at which `b` occurs in `s`.
pub open spec fn byte_positions(s: Seq<u8>, b: u8) -> Seq<int>
    decreases s.len(),
{
    if s.len() == 0 {
        Seq::empty()
    } else if s.last() == b {
        byte_positions(s.drop_last(), b).push(s.len() - 1)
    } else {
        byte_positions(s.drop_last(), b)
    }
}

/// Counts the occurrences of `needle` in `haystack` with `memchr::memchr_iter`.
///
/// Trusted: `memchr_iter` yields the index of every byte of `haystack`
/// equal to `needle`, once each, so the count is the number of such bytes.
#[verifier::external_body]
fn memchr_count(needle: u8, haystack: &[u8]) -> (r: usize)
    ensures
        r == count_byte(haystack@, needle),
{
    memchr::memchr_iter(needle, haystack).count()
}

/// Collects the positions of `needle` in `haystack` with `memchr::memchr_iter`.
///
/// Trusted: `memchr_iter` yields, in ascending order, each index at which
/// `haystack` holds `needle`.
#[verifier::external_body]
pub(crate) fn memchr_positions(needle: u8, haystack: &[u8]) -> (r: Vec<usize>)
    ensures
        r@.len() == byte_positions(haystack@, needle).len(),
        forall|i: int| 0 <= i < r@.len() ==> r@[i] as int == #[trigger] byte_positions(haystack@, needle)[i],
{
    memchr::memchr_iter(needle, haystack).collect()
}

/// Decodes `n` url-encoded bytes from the front of `s`: `%` followed by two
/// hex digits stands for the byte they encode, any other byte for itself.
/// Bytes after the `n`-th decoded one are not read.
pub open spec fn url_decode_prefix(s: Seq<u8>, n: nat) -> Option<Seq<u8>>
    decreases n,
{
    if n == 0 {
        Some(Seq::empty())
    } else if s.len() == 0 {
        None
    } else if s[0] == 37 {
        if s.len() < 3 {
            None
        } else {
            match (hex_pair_value(s[1], s[2]), url_decode_prefix(s.skip(3), (n - 1) as nat)) {
                (Some(b), Some(rest)) => Some(seq![b] + rest),
                _ => None,
            }
        }
    } else {
        match url_decode_prefix(s.skip(1), (n - 1) as nat) {
            Some(rest) => Some(seq![s[0]] + rest),
            None => None,
        }
    }
}

/// The 20 bytes that a url-encoded `info_hash` or `peer_id` stands for: the
/// input must be exactly 20 bytes long once each `%` escape is counted as one
/// byte, and every escape must hold two hex digits.
pub open spec fn spec_urlencoded_to_bytes(s: Seq<u8>) -> Option<Seq<u8>> {
    if s.len() == 20 + 2 * count_byte(s, 37) {
        url_decode_prefix(s, 20)
    } else {
        None
    }
}

proof fn lemma_count_skip(s: Seq<u8>, b: u8, p: int)
    requires
        0 <= p < s.len(),
    ensures
        count_byte(s.skip(p), b) == (if s[p] == b { 1nat } else { 0nat }) + count_byte(s.skip(p + 1), b),
{
    assert(s.skip(p).skip(1) =~= s.skip(p + 1));
}

/// Decodes a url-encoded string to 20 bytes.
///
/// Used for decoding the peer_id and infohash from the HTTP GET request query string.
pub fn urlencoded_to_bytes(input: &[u8]) -> (r: Result<[u8; 20], Error>)
    ensures
        r is Ok <==> spec_urlencoded_to_bytes(input@) is Some,
        r matches Ok(out) ==> Some(out@) == spec_urlencoded_to_bytes(input@),
        r matches Err(e) ==> if input@.len() == 20 + 2 * count_byte(input@, 37) {
            e.0@ == "Invalid URL encoding."@
        } else {
            e.0@ == "Invalid 'info_hash' or 'peer_id' (must be 20 bytes long)."@
        },
{
    let mut output: [u8; 20] = [0; 20];
    let percent_sign_count = memchr_count(37, input);

    let input_len = input.len();
    if percent_sign_count > (usize::MAX - 20) / 2 || input_len != 20 + 2 * percent_sign_count {
        assert(input_len == input@.len());
        return Err(Error("Invalid 'info_hash' or 'peer_id' (must be 20 bytes long)."));
    }

    let mut in_pos: usize = 0;
    let mut j: usize = 0;
    let ghost mut decoded: Seq<u8> = Seq::empty();
    proof {
        assert(input@.skip(0) =~= input@);
        match url_decode_prefix(input@, 20) {
            Some(rest) => {
                assert(Seq::<u8>::empty() + rest =~= rest);
            },
            None => {},
        }
    }
    while j < 20
        invariant
            0 <= j <= 20,
            0 <= in_pos <= input@.len(),
            input@.len() == 20 + 2 * count_byte(input@, 37),
            input@.len() - in_pos >= (20 - j) + 2 * count_byte(input@.skip(in_pos as int), 37),
            decoded.len() == j,
            forall|k: int| 0 <= k < j ==> output@[k] == decoded[k],
            output@.len() == 20,
            url_decode_prefix(input@, 20) == match url_decode_prefix(input@.skip(in_pos as int), (20 - j) as nat) {
                Some(rest) => Some(decoded + rest),
                None => None::<Seq<u8>>,
            },
        decreases 20 - j,
    {
        let byte = input[in_pos];
        proof {
            lemma_count_skip(input@, 37, in_pos as int);
        }
        if byte == 37 {
            let pair = [input[in_pos + 1], input[in_pos + 2]];
            let d = hex_decode(pair);
            proof {
                let t = input@.skip(in_pos as int);
                assert(t[0] == 37 && t[1] == input@[in_pos + 1] && t[2] == input@[in_pos + 2]);
                assert(t.skip(3) =~= input@.skip(in_pos + 3));
                lemma_count_skip(input@, 37, in_pos + 1);
                lemma_count_skip(input@, 37, in_pos + 2);
            }
            match d {
                Ok(b) => {
                    output[j] = b;
                    proof {
                        match url_decode_prefix(input@.skip(in_pos + 3), (20 - j - 1) as nat) {
                            Some(rest) => {
                                assert(decoded + (seq![b] + rest) =~= decoded.push(b) + rest);
                            },
                            None => {},
                        }
                        decoded = decoded.push(b);
                    }
                    in_pos = in_pos + 3;
                },
                Err(e) => {
                    return Err(e);
                },
            }
        } else {
            output[j] = byte;
            proof {
                let t = input@.skip(in_pos as int);
                assert(t.skip(1) =~= input@.skip(in_pos + 1));
                match url_decode_prefix(input@.skip(in_pos + 1), (20 - j - 1) as nat) {
                    Some(rest) => {
                        assert(decoded + (seq![byte] + rest) =~= decoded.push(byte) + rest);
                    },
                    None => {},
                }
                decoded = decoded.push(byte);
            }
            in_pos = in_pos + 1;
        }
        j = j + 1;
    }
    proof {
        assert(output@ =~= decoded);
        assert(decoded + Seq::<u8>::empty() =~= decoded);
    }
    Ok(output)
}


/// `b` url-encoded: where `escaped` holds, a byte is written as `%` and its
/// two upper-case hex digits, otherwise as itself.
pub open spec fn url_encoded(b: Seq<u8>, escaped: Seq<bool>) -> Seq<u8>
    decreases b.len(),
{
    if b.len() == 0 {
        Seq::empty()
    } else {
        let head = if escaped[0] {
            seq![37u8, hex_digit(b[0] / 16), hex_digit(b[0] % 16)]
        } else {
            seq![b[0]]
        };
        head + url_encoded(b.skip(1), escaped.skip(1))
    }
}

proof fn lemma_count_concat(a: Seq<u8>, c: Seq<u8>, x: u8)
    ensures
        count_byte(a + c, x) == count_byte(a, x) + count_byte(c, x),
    decreases a.len(),
{
    if a.len() > 0 {
        assert((a + c).skip(1) =~= a.skip(1) + c);
        lemma_count_concat(a.skip(1), c, x);
    } else {
        assert(a + c =~= c);
    }
}

proof fn lemma_url_encoded_len(b: Seq<u8>, escaped: Seq<bool>)
    requires
        escaped.len() == b.len(),
        forall|i: int| 0 <= i < b.len() && !escaped[i] ==> b[i] != 37,
    ensures
        url_encoded(b, escaped).len() == b.len() + 2 * count_byte(url_encoded(b, escaped), 37),
    decreases b.len(),
{
    if b.len() > 0 {
        let rest = url_encoded(b.skip(1), escaped.skip(1));
        assert forall|i: int| 0 <= i < b.skip(1).len() && !escaped.skip(1)[i] implies b.skip(1)[i] != 37 by {
            assert(b.skip(1)[i] == b[i + 1] && escaped.skip(1)[i] == escaped[i + 1]);
        }
        lemma_url_encoded_len(b.skip(1), escaped.skip(1));
        let head = if escaped[0] {
            seq![37u8, hex_digit(b[0] / 16), hex_digit(b[0] % 16)]
        } else {
            seq![b[0]]
        };
        lemma_count_concat(head, rest, 37);
        if escaped[0] {
            let h = hex_digit(b[0] / 16);
            let l = hex_digit(b[0] % 16);
            assert(head.skip(1) =~= seq![h, l]);
            assert(seq![h, l].skip(1) =~= seq![l]);
            assert(seq![l].skip(1) =~= Seq::<u8>::empty());
            assert(count_byte(Seq::<u8>::empty(), 37) == 0);
            assert(l != 37 && h != 37);
            assert(count_byte(seq![l], 37) == 0);
            assert(count_byte(seq![h, l], 37) == 0);
            assert(count_byte(head, 37) == 1);
        } else {
            assert(head.skip(1) =~= Seq::<u8>::empty());
            assert(count_byte(Seq::<u8>::empty(), 37) == 0);
            assert(b[0] != 37);
            assert(count_byte(head, 37) == 0);
        }
    }
}

proof fn lemma_url_decode_encoded(b: Seq<u8>, escaped: Seq<bool>, n: nat)
    requires
        escaped.len() == b.len(),
        n <= b.len(),
        forall|i: int| 0 <= i < b.len() && !escaped[i] ==> b[i] != 37,
    ensures
        url_decode_prefix(url_encoded(b, escaped), n) == Some(b.take(n as int)),
    decreases n,
{
    if n == 0 {
        assert(b.take(0) =~= Seq::<u8>::empty());
    } else {
        let e = url_encoded(b, escaped);
        let rest = url_encoded(b.skip(1), escaped.skip(1));
        assert forall|i: int| 0 <= i < b.skip(1).len() && !escaped.skip(1)[i] implies b.skip(1)[i] != 37 by {
            assert(b.skip(1)[i] == b[i + 1] && escaped.skip(1)[i] == escaped[i + 1]);
        }
        lemma_url_decode_encoded(b.skip(1), escaped.skip(1), (n - 1) as nat);
        assert(seq![b[0]] + b.skip(1).take(n - 1) =~= b.take(n as int));
        if escaped[0] {
            lemma_hex_roundtrip(b[0]);
            assert(e[0] == 37 && e[1] == hex_digit(b[0] / 16) && e[2] == hex_digit(b[0] % 16));
            assert(e.skip(3) =~= rest);
        } else {
            assert(e[0] == b[0]);
            assert(e.skip(1) =~= rest);
        }
    }
}

/// Url-decoding 20 url-encoded bytes gives them back, whichever bytes are
/// escaped, as long as no `%` is left unescaped.
pub proof fn lemma_urldecode_inverts_encoding(b: Seq<u8>, escaped: Seq<bool>)
    requires
        b.len() == 20,
        escaped.len() == 20,
        forall|i: int| 0 <= i < 20 && !escaped[i] ==> b[i] != 37,
    ensures
        spec_urlencoded_to_bytes(url_encoded(b, escaped)) == Some(b),
{
    lemma_url_encoded_len(b, escaped);
    lemma_url_decode_encoded(b, escaped, 20);
    assert(b.take(20) =~= b);
}

} // verus!
