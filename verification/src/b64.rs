//! Base64 encoding and decoding, in the standard and the URL-safe alphabets,
//! with padding. The two proof parameters of a run arrive in the standard
//! alphabet and are re-encoded URL-safe for the collection query string.
use vstd::prelude::*;
use crate::strutil::push_char;

verus! {

/// Character for a 6-bit value; `url` selects the URL-safe alphabet, which
/// differs from the standard one only at values 62 and 63.
pub open spec fn b64_char(v: int, url: bool) -> char {
    if v < 26 {
        ((65 + v) as u8) as char
    } else if v < 52 {
        ((97 + (v - 26)) as u8) as char
    } else if v < 62 {
        ((48 + (v - 52)) as u8) as char
    } else if v == 62 {
        if url { '-' } else { '+' }
    } else {
        if url { '_' } else { '/' }
    }
}

/// 6-bit value of a character, or -1 when it is not in the chosen alphabet.
pub open spec fn b64_val(c: char, url: bool) -> int {
    let x = c as int;
    if 65 <= x < 91 {
        x - 65
    } else if 97 <= x < 123 {
        x - 97 + 26
    } else if 48 <= x < 58 {
        x - 48 + 52
    } else if (!url && x == 43) || (url && x == 45) {
        62
    } else if (!url && x == 47) || (url && x == 95) {
        63
    } else {
        -1
    }
}

pub proof fn lemma_char_val_inverse(v: int, url: bool)
    requires
        0 <= v < 64,
    ensures
        b64_val(b64_char(v, url), url) == v,
{
}

/// The four characters encoding one full group of three bytes.
pub open spec fn enc3(x: int, y: int, z: int, url: bool) -> Seq<char> {
    seq![
        b64_char(x / 4, url),
        b64_char((x % 4) * 16 + y / 16, url),
        b64_char((y % 16) * 4 + z / 64, url),
        b64_char(z % 64, url),
    ]
}

/// The base64 rendering of a byte sequence, padded with '=' so that the
/// length is always a multiple of four.
pub open spec fn b64_encode(b: Seq<u8>, url: bool) -> Seq<char>
    decreases b.len(),
{
    if b.len() == 0 {
        Seq::<char>::empty()
    } else if b.len() == 1 {
        let x = b[0] as int;
        seq![b64_char(x / 4, url), b64_char((x % 4) * 16, url), '=', '=']
    } else if b.len() == 2 {
        let x = b[0] as int;
        let y = b[1] as int;
        seq![
            b64_char(x / 4, url),
            b64_char((x % 4) * 16 + y / 16, url),
            b64_char((y % 16) * 4, url),
            '=',
        ]
    } else {
        enc3(b[0] as int, b[1] as int, b[2] as int, url) + b64_encode(b.skip(3), url)
    }
}

/// Whether four characters are all in the alphabet (no padding).
pub open spec fn valid4(s: Seq<char>, url: bool) -> bool {
    b64_val(s[0], url) >= 0 && b64_val(s[1], url) >= 0 && b64_val(s[2], url) >= 0 && b64_val(
        s[3],
        url,
    ) >= 0
}

/// The three bytes encoded by one full group of four characters.
pub open spec fn dec3(s: Seq<char>, url: bool) -> Seq<u8> {
    let v0 = b64_val(s[0], url);
    let v1 = b64_val(s[1], url);
    let v2 = b64_val(s[2], url);
    let v3 = b64_val(s[3], url);
    seq![(v0 * 4 + v1 / 16) as u8, ((v1 % 16) * 16 + v2 / 4) as u8, ((v2 % 4) * 64 + v3) as u8]
}

/// Decoding of a final four-character group, honouring padding. Trailing
/// bits left over by the padding must be zero, as the strict decoders of
/// common engines require.
pub open spec fn dec_last(s: Seq<char>, url: bool) -> Option<Seq<u8>> {
    let v0 = b64_val(s[0], url);
    let v1 = b64_val(s[1], url);
    let v2 = b64_val(s[2], url);
    if valid4(s, url) {
        Some(dec3(s, url))
    } else if v0 >= 0 && v1 >= 0 && s[2] == '=' && s[3] == '=' {
        if v1 % 16 == 0 {
            Some(seq![(v0 * 4 + v1 / 16) as u8])
        } else {
            None
        }
    } else if v0 >= 0 && v1 >= 0 && v2 >= 0 && s[3] == '=' {
        if v2 % 4 == 0 {
            Some(seq![(v0 * 4 + v1 / 16) as u8, ((v1 % 16) * 16 + v2 / 4) as u8])
        } else {
            None
        }
    } else {
        None
    }
}

/// The bytes a padded base64 string decodes to, or None when it is not a
/// valid rendering.
pub open spec fn b64_decode(s: Seq<char>, url: bool) -> Option<Seq<u8>>
    decreases s.len(),
{
    if s.len() == 0 {
        Some(Seq::<u8>::empty())
    } else if s.len() == 4 {
        dec_last(s, url)
    } else if s.len() % 4 != 0 || s.len() < 4 {
        None
    } else {
        if valid4(s.take(4), url) {
            match b64_decode(s.skip(4), url) {
                Some(rest) => Some(dec3(s.take(4), url) + rest),
                None => None,
            }
        } else {
            None
        }
    }
}

fn char_of_val(v: u8, url: bool) -> (c: char)
    requires
        v < 64,
    ensures
        c == b64_char(v as int, url),
{
    if v < 26 {
        (65 + v) as char
    } else if v < 52 {
        (97 + (v - 26)) as char
    } else if v < 62 {
        (48 + (v - 52)) as char
    } else if v == 62 {
        if url { '-' } else { '+' }
    } else {
        if url { '_' } else { '/' }
    }
}

fn val_of_char(c: char, url: bool) -> (v: u8)
    ensures
        b64_val(c, url) >= 0 ==> v < 64 && v as int == b64_val(c, url),
        b64_val(c, url) < 0 ==> v == 255,
{
    let x = c as u32;
    if 65 <= x && x < 91 {
        (x - 65) as u8
    } else if 97 <= x && x < 123 {
        (x - 97 + 26) as u8
    } else if 48 <= x && x < 58 {
        (x - 48 + 52) as u8
    } else if (!url && x == 43) || (url && x == 45) {
        62
    } else if (!url && x == 47) || (url && x == 95) {
        63
    } else {
        255
    }
}

/// Renders a byte sequence in base64, in the chosen alphabet, with padding.
pub fn base64_encode(b: &Vec<u8>, url: bool) -> (s: String)
    ensures
        s@ == b64_encode(b@, url),
{
    let mut out = String::new();
    let mut i: usize = 0;
    proof {
        assert(b@.skip(0) =~= b@);
    }
    while b.len() - i >= 3
        invariant
            i <= b.len(),
            out@ + b64_encode(b@.skip(i as int), url) == b64_encode(b@, url),
        decreases b.len() - i,
    {
        let x = b[i];
        let y = b[i + 1];
        let z = b[i + 2];
        let ghost pre = out@;
        let c0 = char_of_val(x / 4, url);
        let c1 = char_of_val((x % 4) * 16 + y / 16, url);
        let c2 = char_of_val((y % 16) * 4 + z / 64, url);
        let c3 = char_of_val(z % 64, url);
        push_char(&mut out, c0);
        push_char(&mut out, c1);
        push_char(&mut out, c2);
        push_char(&mut out, c3);
        proof {
            let g = b@.skip(i as int);
            assert(g[0] == b@[i as int] && g[1] == b@[i as int + 1] && g[2] == b@[i as int + 2]);
            assert(g.skip(3) =~= b@.skip(i as int + 3));
            assert(out@ =~= pre + enc3(x as int, y as int, z as int, url));
        }
        i = i + 3;
    }
    let ghost pre = out@;
    if i == b.len() {
        proof {
            assert(b@.skip(i as int) =~= Seq::<u8>::empty());
            assert(out@ =~= b64_encode(b@, url));
        }
    } else if i + 1 == b.len() {
        let x = b[i];
        let c0 = char_of_val(x / 4, url);
        let c1 = char_of_val((x % 4) * 16, url);
        push_char(&mut out, c0);
        push_char(&mut out, c1);
        push_char(&mut out, '=');
        push_char(&mut out, '=');
        proof {
            let g = b@.skip(i as int);
            assert(g.len() == 1 && g[0] == b@[i as int]);
            assert(out@ =~= pre + b64_encode(g, url));
        }
    } else {
        let x = b[i];
        let y = b[i + 1];
        let c0 = char_of_val(x / 4, url);
        let c1 = char_of_val((x % 4) * 16 + y / 16, url);
        let c2 = char_of_val((y % 16) * 4, url);
        push_char(&mut out, c0);
        push_char(&mut out, c1);
        push_char(&mut out, c2);
        push_char(&mut out, '=');
        proof {
            let g = b@.skip(i as int);
            assert(g.len() == 2 && g[0] == b@[i as int] && g[1] == b@[i as int + 1]);
            assert(out@ =~= pre + b64_encode(g, url));
        }
    }
    out
}

fn decode_groups_into(s: &Vec<char>, i: usize, url: bool, out: &mut Vec<u8>) -> (ok: bool)
    requires
        i as int % 4 == 0,
        i <= s@.len(),
        s@.len() as int % 4 == 0,
    ensures
        match b64_decode(s@.skip(i as int), url) {
            Some(r) => ok && final(out)@ == old(out)@ + r,
            None => !ok,
        },
    decreases s@.len() - i,
{
    if i == s.len() {
        proof {
            assert(s@.skip(i as int) =~= Seq::<char>::empty());
            assert(out@ =~= out@ + Seq::<u8>::empty());
        }
        return true;
    }
    let ghost g = s@.skip(i as int);
    proof {
        assert(g.len() >= 4);
        assert(g[0] == s@[i as int] && g[1] == s@[i as int + 1] && g[2] == s@[i as int + 2] && g[3]
            == s@[i as int + 3]);
    }
    let v0 = val_of_char(s[i], url);
    let v1 = val_of_char(s[i + 1], url);
    let v2 = val_of_char(s[i + 2], url);
    let v3 = val_of_char(s[i + 3], url);
    if i + 4 == s.len() {
        if v0 < 64 && v1 < 64 && v2 < 64 && v3 < 64 {
            let ghost pre = out@;
            out.push(v0 * 4 + v1 / 16);
            out.push((v1 % 16) * 16 + v2 / 4);
            out.push((v2 % 4) * 64 + v3);
            proof {
                assert(valid4(g, url));
                assert(out@ =~= pre + dec3(g, url));
            }
            true
        } else if v0 < 64 && v1 < 64 && s[i + 2] == '=' && s[i + 3] == '=' {
            if v1 % 16 == 0 {
                let ghost pre = out@;
                out.push(v0 * 4 + v1 / 16);
                proof {
                    assert(out@ =~= pre + seq![
                        (b64_val(g[0], url) * 4 + b64_val(g[1], url) / 16) as u8,
                    ]);
                }
                true
            } else {
                false
            }
        } else if v0 < 64 && v1 < 64 && v2 < 64 && s[i + 3] == '=' {
            if v2 % 4 == 0 {
                let ghost pre = out@;
                out.push(v0 * 4 + v1 / 16);
                out.push((v1 % 16) * 16 + v2 / 4);
                proof {
                    assert(out@ =~= pre + seq![
                        (b64_val(g[0], url) * 4 + b64_val(g[1], url) / 16) as u8,
                        ((b64_val(g[1], url) % 16) * 16 + b64_val(g[2], url) / 4) as u8,
                    ]);
                }
                true
            } else {
                false
            }
        } else {
            false
        }
    } else {
        if v0 < 64 && v1 < 64 && v2 < 64 && v3 < 64 {
            let ghost pre = out@;
            out.push(v0 * 4 + v1 / 16);
            out.push((v1 % 16) * 16 + v2 / 4);
            out.push((v2 % 4) * 64 + v3);
            proof {
                assert(g.take(4)[0] == g[0] && g.take(4)[1] == g[1] && g.take(4)[2] == g[2]
                    && g.take(4)[3] == g[3]);
                assert(valid4(g.take(4), url));
                assert(g.skip(4) =~= s@.skip(i as int + 4));
                assert(out@ =~= pre + dec3(g.take(4), url));
            }
            let ghost mid = out@;
            let ok = decode_groups_into(s, i + 4, url, out);
            proof {
                if b64_decode(s@.skip(i as int + 4), url) is Some {
                    let rest = b64_decode(s@.skip(i as int + 4), url)->Some_0;
                    assert(out@ =~= pre + (dec3(g.take(4), url) + rest));
                }
            }
            ok
        } else {
            proof {
                assert(g.take(4)[0] == g[0] && g.take(4)[1] == g[1] && g.take(4)[2] == g[2]
                    && g.take(4)[3] == g[3]);
                assert(!valid4(g.take(4), url));
            }
            false
        }
    }
}

/// Decodes a padded base64 string in the chosen alphabet.
pub fn base64_decode(s: &str, url: bool) -> (r: Option<Vec<u8>>)
    ensures
        match r {
            Some(v) => b64_decode(s@, url) == Some(v@),
            None => b64_decode(s@, url) is None,
        },
{
    let chars = crate::strutil::str_to_chars(s);
    if chars.len() % 4 != 0 {
        return None;
    }
    let mut out: Vec<u8> = Vec::new();
    let ok = decode_groups_into(&chars, 0, url, &mut out);
    proof {
        assert(chars@.skip(0) =~= chars@);
        if b64_decode(s@, url) is Some {
            assert(Seq::<u8>::empty() + b64_decode(s@, url)->Some_0 =~= b64_decode(
                s@,
                url,
            )->Some_0);
        }
    }
    if ok {
        Some(out)
    } else {
        None
    }
}

/// Renders a raw byte buffer as a standard-alphabet base64 string; the
/// standalone utility operation of this library.
pub fn bytes_to_base64(bytes: &Vec<u8>) -> (s: String)
    ensures
        s@ == b64_encode(bytes@, false),
{
    base64_encode(bytes, false)
}

proof fn lemma_split(a: int, r: int, k: int)
    requires
        k > 0,
        0 <= r < k,
        0 <= a,
    ensures
        (a * k + r) / k == a,
        (a * k + r) % k == r,
{
    vstd::arithmetic::div_mod::lemma_fundamental_div_mod_converse(a * k + r, k, a, r);
}

proof fn lemma_enc3_roundtrip(x: int, y: int, z: int, url: bool)
    requires
        0 <= x < 256,
        0 <= y < 256,
        0 <= z < 256,
    ensures
        valid4(enc3(x, y, z, url), url),
        dec3(enc3(x, y, z, url), url) =~= seq![x as u8, y as u8, z as u8],
{
    let a0 = x / 4;
    let a1 = (x % 4) * 16 + y / 16;
    let a2 = (y % 16) * 4 + z / 64;
    let a3 = z % 64;
    lemma_char_val_inverse(a0, url);
    lemma_char_val_inverse(a1, url);
    lemma_char_val_inverse(a2, url);
    lemma_char_val_inverse(a3, url);
    lemma_split(x % 4, y / 16, 16);
    lemma_split(y % 16, z / 64, 4);
    vstd::arithmetic::div_mod::lemma_fundamental_div_mod(x, 4);
    vstd::arithmetic::div_mod::lemma_fundamental_div_mod(y, 16);
    vstd::arithmetic::div_mod::lemma_fundamental_div_mod(z, 64);
    assert(a1 / 16 == x % 4 && a1 % 16 == y / 16);
    assert(a2 / 4 == y % 16 && a2 % 4 == z / 64);
    assert(a0 * 4 + a1 / 16 == x);
    assert((a1 % 16) * 16 + a2 / 4 == y);
    assert((a2 % 4) * 64 + a3 == z);
}

proof fn lemma_rt_len1(b: Seq<u8>, url: bool)
    requires
        b.len() == 1,
    ensures
        b64_decode(b64_encode(b, url), url) == Some(b),
{
    let e = b64_encode(b, url);
    let x = b[0] as int;
    lemma_char_val_inverse(x / 4, url);
    lemma_char_val_inverse((x % 4) * 16, url);
    lemma_split(x % 4, 0, 16);
    vstd::arithmetic::div_mod::lemma_fundamental_div_mod(x, 4);
    assert(b64_val('=', url) == -1);
    assert(dec_last(e, url) == Some(seq![x as u8]));
    assert(seq![x as u8] =~= b);
}

proof fn lemma_rt_len2(b: Seq<u8>, url: bool)
    requires
        b.len() == 2,
    ensures
        b64_decode(b64_encode(b, url), url) == Some(b),
{
    let e = b64_encode(b, url);
    let x = b[0] as int;
    let y = b[1] as int;
    let a1 = (x % 4) * 16 + y / 16;
    let a2 = (y % 16) * 4;
    lemma_char_val_inverse(x / 4, url);
    lemma_char_val_inverse(a1, url);
    lemma_char_val_inverse(a2, url);
    lemma_split(x % 4, y / 16, 16);
    lemma_split(y % 16, 0, 4);
    vstd::arithmetic::div_mod::lemma_fundamental_div_mod(x, 4);
    vstd::arithmetic::div_mod::lemma_fundamental_div_mod(y, 16);
    assert(b64_val('=', url) == -1);
    assert(dec_last(e, url) == Some(seq![x as u8, y as u8]));
    assert(seq![x as u8, y as u8] =~= b);
}

/// Law: decoding an encoding, in either alphabet, yields exactly the bytes
/// that were encoded.
#[verifier::rlimit(100)]
pub proof fn lemma_encode_decode_round_trip(b: Seq<u8>, url: bool)
    ensures
        b64_decode(b64_encode(b, url), url) == Some(b),
    decreases b.len(),
{
    let e = b64_encode(b, url);
    if b.len() == 0 {
        assert(b =~= Seq::<u8>::empty());
    } else if b.len() == 1 {
        lemma_rt_len1(b, url);
    } else if b.len() == 2 {
        lemma_rt_len2(b, url);
    } else {
        let x = b[0] as int;
        let y = b[1] as int;
        let z = b[2] as int;
        let head = enc3(x, y, z, url);
        let rest = b64_encode(b.skip(3), url);
        lemma_enc3_roundtrip(x, y, z, url);
        lemma_encode_decode_round_trip(b.skip(3), url);
        lemma_encode_len(b.skip(3), url);
        if b.len() == 3 {
            assert(b.skip(3) =~= Seq::<u8>::empty());
            assert(e =~= head);
            assert(dec_last(head, url) == Some(dec3(head, url)));
            assert(dec3(head, url) =~= b);
        } else {
            assert(rest.len() >= 4 && rest.len() % 4 == 0);
            assert(e.len() == 4 + rest.len());
            assert(e.take(4) =~= head);
            assert(e.skip(4) =~= rest);
            assert(b64_decode(e.skip(4), url) == Some(b.skip(3)));
            assert(dec3(e.take(4), url) + b.skip(3) =~= b);
        }
    }
}

/// The encoded form is always a whole number of four-character groups, and
/// is empty exactly for empty input.
pub proof fn lemma_encode_len(b: Seq<u8>, url: bool)
    ensures
        b64_encode(b, url).len() % 4 == 0,
        b.len() == 0 <==> b64_encode(b, url).len() == 0,
    decreases b.len(),
{
    if b.len() > 2 {
        lemma_encode_len(b.skip(3), url);
    }
}

/// Law: a standard-alphabet rendering, re-encoded URL-safe from its decoded
/// bytes, decodes in the URL-safe alphabet back to those same bytes.
pub proof fn lemma_reencode_round_trip(s: Seq<char>, b: Seq<u8>)
    requires
        b64_decode(s, false) == Some(b),
    ensures
        b64_decode(b64_encode(b, true), true) == Some(b),
{
    lemma_encode_decode_round_trip(b, true);
}

/// Decodes a standard-alphabet parameter and re-encodes it URL-safe,
/// returning both the raw bytes and the URL-safe rendering; None when the
/// input is not valid standard base64.
pub fn reencode_to_url_safe(s: &str) -> (r: Option<(Vec<u8>, String)>)
    ensures
        match r {
            Some(p) => b64_decode(s@, false) == Some(p.0@) && p.1@ == b64_encode(p.0@, true),
            None => b64_decode(s@, false) is None,
        },
{
    match base64_decode(s, false) {
        Some(bytes) => {
            let re = base64_encode(&bytes, true);
            Some((bytes, re))
        },
        None => None,
    }
}

} // verus!
