//! Record codec for the key-value backend: users and sessions are stored
//! as length-prefixed binary records, and decoding is proved to invert
//! encoding.

use vstd::prelude::*;
use vstd::bytes::{spec_u64_from_le_bytes, spec_u64_to_le_bytes, u64_from_le_bytes, u64_to_le_bytes};
use vstd::slice::slice_subrange;
use vstd::string::StringSliceAdditionalSpecFns;
use vstd::utf8::{decode_utf8, encode_utf8, valid_utf8};
use crate::auth::models::{Session, SessionModel, User, UserModel};

verus! {

broadcast use vstd::utf8::group_utf8_lib;

/// A model user the codec can faithfully store: timestamps and ids within
/// `i64`, byte lengths within the 8-byte length prefix.
pub open spec fn valid_user_record(u: UserModel) -> bool {
    &&& i64::MIN <= u.id <= i64::MAX
    &&& i64::MIN <= u.created_at <= i64::MAX
    &&& encode_utf8(u.username).len() < 0x1_0000_0000_0000_0000
    &&& encode_utf8(u.password_hash).len() < 0x1_0000_0000_0000_0000
}

/// A model session the codec can faithfully store.
pub open spec fn valid_session_record(s: SessionModel) -> bool {
    &&& i64::MIN <= s.user_id <= i64::MAX
    &&& i64::MIN <= s.created_at <= i64::MAX
    &&& i64::MIN <= s.expires_at <= i64::MAX
    &&& encode_utf8(s.token).len() < 0x1_0000_0000_0000_0000
    &&& encode_utf8(s.username).len() < 0x1_0000_0000_0000_0000
}

/// The stored form of a user record.
pub open spec fn spec_enc_user(u: UserModel) -> Seq<u8> {
    spec_u64_to_le_bytes(u.id as u64) + spec_u64_to_le_bytes(u.created_at as u64)
        + spec_u64_to_le_bytes(encode_utf8(u.username).len() as u64) + encode_utf8(u.username)
        + spec_u64_to_le_bytes(encode_utf8(u.password_hash).len() as u64) + encode_utf8(
        u.password_hash,
    )
}

/// The stored form of a session record.
pub open spec fn spec_enc_session(s: SessionModel) -> Seq<u8> {
    spec_u64_to_le_bytes(s.user_id as u64) + spec_u64_to_le_bytes(s.created_at as u64)
        + spec_u64_to_le_bytes(s.expires_at as u64) + spec_u64_to_le_bytes(
        encode_utf8(s.token).len() as u64,
    ) + encode_utf8(s.token) + spec_u64_to_le_bytes(encode_utf8(s.username).len() as u64)
        + encode_utf8(s.username)
}

/// What a stored user record holds, if it parses.
pub open spec fn spec_dec_user(b: Seq<u8>) -> Option<UserModel> {
    if b.len() < 32 {
        None
    } else {
        let id64 = spec_u64_from_le_bytes(b.subrange(0, 8));
        let created64 = spec_u64_from_le_bytes(b.subrange(8, 16));
        let ulen = spec_u64_from_le_bytes(b.subrange(16, 24)) as int;
        if b.len() < 32 + ulen {
            None
        } else {
            let ub = b.subrange(24, 24 + ulen);
            let hlen = spec_u64_from_le_bytes(b.subrange(24 + ulen, 32 + ulen)) as int;
            if b.len() != 32 + ulen + hlen {
                None
            } else {
                let hb = b.subrange(32 + ulen, b.len() as int);
                if valid_utf8(ub) && valid_utf8(hb) {
                    Some(
                        UserModel {
                            id: (id64 as i64) as int,
                            username: decode_utf8(ub),
                            password_hash: decode_utf8(hb),
                            created_at: (created64 as i64) as int,
                        },
                    )
                } else {
                    None
                }
            }
        }
    }
}

/// What a stored session record holds, if it parses.
pub open spec fn spec_dec_session(b: Seq<u8>) -> Option<SessionModel> {
    if b.len() < 40 {
        None
    } else {
        let uid64 = spec_u64_from_le_bytes(b.subrange(0, 8));
        let created64 = spec_u64_from_le_bytes(b.subrange(8, 16));
        let expires64 = spec_u64_from_le_bytes(b.subrange(16, 24));
        let tlen = spec_u64_from_le_bytes(b.subrange(24, 32)) as int;
        if b.len() < 40 + tlen {
            None
        } else {
            let tb = b.subrange(32, 32 + tlen);
            let ulen = spec_u64_from_le_bytes(b.subrange(32 + tlen, 40 + tlen)) as int;
            if b.len() != 40 + tlen + ulen {
                None
            } else {
                let ub = b.subrange(40 + tlen, b.len() as int);
                if valid_utf8(tb) && valid_utf8(ub) {
                    Some(
                        SessionModel {
                            token: decode_utf8(tb),
                            user_id: (uid64 as i64) as int,
                            username: decode_utf8(ub),
                            created_at: (created64 as i64) as int,
                            expires_at: (expires64 as i64) as int,
                        },
                    )
                } else {
                    None
                }
            }
        }
    }
}

/// Round trip through the 64-bit two's complement image.
proof fn lemma_i64_u64_round_trip(x: i64)
    ensures
        ((x as u64) as i64) == x,
{
    assert(((x as u64) as i64) == x) by (bit_vector);
}

/// Append a byte slice.
fn push_bytes(out: &mut Vec<u8>, b: &[u8])
    ensures
        final(out)@ == old(out)@ + b@,
{
    let n = b.len();
    for i in 0..n
        invariant
            n == b@.len(),
            out@ == old(out)@ + b@.take(i as int),
    {
        out.push(b[i]);
        proof {
            assert(old(out)@ + b@.take(i + 1) =~= (old(out)@ + b@.take(i as int)).push(
                b@[i as int],
            ));
        }
    }
    proof {
        assert(old(out)@ + b@.take(n as int) =~= old(out)@ + b@);
    }
}

/// Append the 8-byte little-endian image of `x`.
fn push_u64(out: &mut Vec<u8>, x: u64)
    ensures
        final(out)@ == old(out)@ + spec_u64_to_le_bytes(x),
{
    let enc = u64_to_le_bytes(x);
    push_bytes(out, enc.as_slice());
}

/// Encode a user record.
pub fn encode_user(u: &User) -> (r: Vec<u8>)
    ensures
        r@ == spec_enc_user(u@),
        valid_user_record(u@),
{
    let mut out: Vec<u8> = Vec::new();
    push_u64(&mut out, #[verifier::truncate] (u.id as u64));
    push_u64(&mut out, #[verifier::truncate] (u.created_at as u64));
    let ub = u.username.as_str().as_bytes();
    push_u64(&mut out, ub.len() as u64);
    push_bytes(&mut out, ub);
    let hb = u.password_hash.as_str().as_bytes();
    push_u64(&mut out, hb.len() as u64);
    push_bytes(&mut out, hb);
    proof {
        assert(out@ =~= spec_enc_user(u@));
    }
    out
}

/// Encode a session record.
pub fn encode_session(s: &Session) -> (r: Vec<u8>)
    ensures
        r@ == spec_enc_session(s@),
        valid_session_record(s@),
{
    let mut out: Vec<u8> = Vec::new();
    push_u64(&mut out, #[verifier::truncate] (s.user_id as u64));
    push_u64(&mut out, #[verifier::truncate] (s.created_at as u64));
    push_u64(&mut out, #[verifier::truncate] (s.expires_at as u64));
    let tb = s.token.as_str().as_bytes();
    push_u64(&mut out, tb.len() as u64);
    push_bytes(&mut out, tb);
    let ub = s.username.as_str().as_bytes();
    push_u64(&mut out, ub.len() as u64);
    push_bytes(&mut out, ub);
    proof {
        assert(out@ =~= spec_enc_session(s@));
    }
    out
}

/// Read the 8 bytes at `at` as a little-endian u64.
fn read_u64(b: &[u8], at: usize) -> (x: u64)
    requires
        at + 8 <= b@.len(),
    ensures
        x == spec_u64_from_le_bytes(b@.subrange(at as int, at as int + 8)),
{
    let n = b.len();
    proof {
        assert(at + 8 <= n);
    }
    let part = slice_subrange(b, at, at + 8);
    u64_from_le_bytes(part)
}

/// Turn a two's complement image back into an i64.
fn u64_as_i64(v: u64) -> (x: i64)
    ensures
        x == v as i64,
{
    #[verifier::truncate] (v as i64)
}

/// Turn a byte slice into a string, when it is valid UTF-8.
///
/// Relies on String::from_utf8: succeeds exactly on valid UTF-8 and
/// decodes it.
#[verifier::external_body]
fn bytes_to_string(b: &[u8]) -> (r: Option<String>)
    ensures
        r matches Some(s) ==> valid_utf8(b@) && s@ == decode_utf8(b@),
        r is None ==> !valid_utf8(b@),
{
    String::from_utf8(b.to_vec()).ok()
}

/// Decode a user record.
pub fn decode_user(b: &[u8]) -> (r: Option<User>)
    ensures
        match r {
            Some(u) => spec_dec_user(b@) == Some(u@),
            None => spec_dec_user(b@) is None,
        },
{
    let n = b.len();
    if n < 32 {
        return None;
    }
    let id64 = read_u64(b, 0);
    let created64 = read_u64(b, 8);
    let ulen64 = read_u64(b, 16);
    if ulen64 > (n - 32) as u64 {
        return None;
    }
    let ulen = ulen64 as usize;
    let ub = slice_subrange(b, 24, 24 + ulen);
    let hlen64 = read_u64(b, 24 + ulen);
    if hlen64 != (n - 32 - ulen) as u64 {
        return None;
    }
    let hb = slice_subrange(b, 32 + ulen, n);
    let username = match bytes_to_string(ub) {
        Some(s) => s,
        None => {
            return None;
        },
    };
    let password_hash = match bytes_to_string(hb) {
        Some(s) => s,
        None => {
            return None;
        },
    };
    Some(
        User {
            id: u64_as_i64(id64),
            username,
            password_hash,
            created_at: u64_as_i64(created64),
        },
    )
}

/// Decode a session record.
pub fn decode_session(b: &[u8]) -> (r: Option<Session>)
    ensures
        match r {
            Some(s) => spec_dec_session(b@) == Some(s@),
            None => spec_dec_session(b@) is None,
        },
{
    let n = b.len();
    if n < 40 {
        return None;
    }
    let uid64 = read_u64(b, 0);
    let created64 = read_u64(b, 8);
    let expires64 = read_u64(b, 16);
    let tlen64 = read_u64(b, 24);
    if tlen64 > (n - 40) as u64 {
        return None;
    }
    let tlen = tlen64 as usize;
    let tb = slice_subrange(b, 32, 32 + tlen);
    let ulen64 = read_u64(b, 32 + tlen);
    if ulen64 != (n - 40 - tlen) as u64 {
        return None;
    }
    let ub = slice_subrange(b, 40 + tlen, n);
    let token = match bytes_to_string(tb) {
        Some(s) => s,
        None => {
            return None;
        },
    };
    let username = match bytes_to_string(ub) {
        Some(s) => s,
        None => {
            return None;
        },
    };
    Some(
        Session {
            token,
            user_id: u64_as_i64(uid64),
            username,
            created_at: u64_as_i64(created64),
            expires_at: u64_as_i64(expires64),
        },
    )
}

/// Decoding inverts encoding on storable user records.
pub proof fn lemma_user_codec_round_trip(u: UserModel)
    requires
        valid_user_record(u),
    ensures
        spec_dec_user(spec_enc_user(u)) == Some(u),
{
    vstd::bytes::lemma_auto_spec_u64_to_from_le_bytes();
    let e = spec_enc_user(u);
    let ub = encode_utf8(u.username);
    let hb = encode_utf8(u.password_hash);
    let ulen = ub.len() as int;
    let hlen = hb.len() as int;
    assert(e.len() == 32 + ulen + hlen);
    assert(e.subrange(0, 8) =~= spec_u64_to_le_bytes(u.id as u64));
    assert(e.subrange(8, 16) =~= spec_u64_to_le_bytes(u.created_at as u64));
    assert(e.subrange(16, 24) =~= spec_u64_to_le_bytes(ulen as u64));
    assert(e.subrange(24, 24 + ulen) =~= ub);
    assert(e.subrange(24 + ulen, 32 + ulen) =~= spec_u64_to_le_bytes(hlen as u64));
    assert(e.subrange(32 + ulen, e.len() as int) =~= hb);
    lemma_i64_u64_round_trip(u.id as i64);
    lemma_i64_u64_round_trip(u.created_at as i64);
    assert(decode_utf8(ub) == u.username);
    assert(decode_utf8(hb) == u.password_hash);
}

/// Decoding inverts encoding on storable session records.
pub proof fn lemma_session_codec_round_trip(s: SessionModel)
    requires
        valid_session_record(s),
    ensures
        spec_dec_session(spec_enc_session(s)) == Some(s),
{
    vstd::bytes::lemma_auto_spec_u64_to_from_le_bytes();
    let e = spec_enc_session(s);
    let tb = encode_utf8(s.token);
    let ub = encode_utf8(s.username);
    let tlen = tb.len() as int;
    let ulen = ub.len() as int;
    assert(e.len() == 40 + tlen + ulen);
    assert(e.subrange(0, 8) =~= spec_u64_to_le_bytes(s.user_id as u64));
    assert(e.subrange(8, 16) =~= spec_u64_to_le_bytes(s.created_at as u64));
    assert(e.subrange(16, 24) =~= spec_u64_to_le_bytes(s.expires_at as u64));
    assert(e.subrange(24, 32) =~= spec_u64_to_le_bytes(tlen as u64));
    assert(e.subrange(32, 32 + tlen) =~= tb);
    assert(e.subrange(32 + tlen, 40 + tlen) =~= spec_u64_to_le_bytes(ulen as u64));
    assert(e.subrange(40 + tlen, e.len() as int) =~= ub);
    lemma_i64_u64_round_trip(s.user_id as i64);
    lemma_i64_u64_round_trip(s.created_at as i64);
    lemma_i64_u64_round_trip(s.expires_at as i64);
    assert(decode_utf8(tb) == s.token);
    assert(decode_utf8(ub) == s.username);
}

} // verus!
