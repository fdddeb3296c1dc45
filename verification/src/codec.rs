//! Service-message codec: a length-prefixed byte envelope for the
//! typed payloads exchanged across the bridge.
//!
//! Every encoder has a mathematical mirror (`enc_*`), every decoder a
//! mirror (`dec_*`), and decoding an encoding is proved to give back
//! exactly what was encoded.  Decoders reject trailing garbage.

use vstd::prelude::*;
use vstd::utf8::{decode_utf8, encode_utf8, valid_utf8};
use crate::types::{Asset, AssetV, Response, ResponseV, ServiceMessage, ServiceType, TransferCoin,
    TransferCoinV};

verus! {

broadcast use {vstd::utf8::encode_utf8_valid_utf8, vstd::utf8::encode_utf8_decode_utf8};

// ---------------------------------------------------------------
// Mathematical encoders
// ---------------------------------------------------------------

/// A `u64` as eight little-endian bytes.
pub open spec fn enc_u64(v: u64) -> Seq<u8> {
    seq![
        (v & 0xff) as u8,
        ((v >> 8) & 0xff) as u8,
        ((v >> 16) & 0xff) as u8,
        ((v >> 24) & 0xff) as u8,
        ((v >> 32) & 0xff) as u8,
        ((v >> 40) & 0xff) as u8,
        ((v >> 48) & 0xff) as u8,
        ((v >> 56) & 0xff) as u8,
    ]
}

/// A byte string, length-prefixed.
pub open spec fn enc_bytes(b: Seq<u8>) -> Seq<u8>
    recommends
        b.len() <= u64::MAX,
{
    enc_u64(b.len() as u64) + b
}

/// A character string: its UTF-8 bytes, length-prefixed.
pub open spec fn enc_str(s: Seq<char>) -> Seq<u8> {
    enc_bytes(encode_utf8(s))
}

/// Can `s` be encoded, that is, does its UTF-8 image fit the length
/// prefix?  True of every string a program can hold.
pub open spec fn str_enc_ok(s: Seq<char>) -> bool {
    encode_utf8(s).len() <= u64::MAX
}

/// One asset: name, then amount.
pub open spec fn enc_asset(a: AssetV) -> Seq<u8> {
    enc_str(a.coin_name) + enc_u64(a.value)
}

pub open spec fn asset_enc_ok(a: AssetV) -> bool {
    str_enc_ok(a.coin_name)
}

/// A list of assets, one after the other (the count travels
/// separately).
pub open spec fn enc_assets(assets: Seq<AssetV>) -> Seq<u8>
    decreases assets.len(),
{
    if assets.len() == 0 {
        Seq::empty()
    } else {
        enc_asset(assets[0]) + enc_assets(assets.drop_first())
    }
}

pub open spec fn assets_enc_ok(assets: Seq<AssetV>) -> bool {
    forall|i: int| 0 <= i < assets.len() ==> asset_enc_ok(#[trigger] assets[i])
}

/// Payload of a `RequestCoinRegister` message.
pub open spec fn enc_transfer_coin(tc: TransferCoinV) -> Seq<u8> {
    enc_str(tc.from) + enc_str(tc.to) + enc_u64(tc.assets.len() as u64) + enc_assets(tc.assets)
}

pub open spec fn transfer_coin_enc_ok(tc: TransferCoinV) -> bool {
    &&& str_enc_ok(tc.from)
    &&& str_enc_ok(tc.to)
    &&& tc.assets.len() <= u64::MAX
    &&& assets_enc_ok(tc.assets)
}

/// Payload of a `ResponseHandleService` message.
pub open spec fn enc_response(r: ResponseV) -> Seq<u8> {
    enc_u64(r.code) + enc_str(r.message)
}

pub open spec fn response_enc_ok(r: ResponseV) -> bool {
    str_enc_ok(r.message)
}

/// The byte that tags each message kind on the wire.
pub open spec fn tag_of(t: ServiceType) -> u8 {
    match t {
        ServiceType::RequestCoinRegister => 0,
        ServiceType::ResponseHandleService => 1,
        ServiceType::UnknownType => 2,
    }
}

/// The envelope: a tag byte, then the length-prefixed payload.
pub open spec fn enc_envelope(t: ServiceType, data: Seq<u8>) -> Seq<u8>
    recommends
        data.len() <= u64::MAX,
{
    seq![tag_of(t)] + enc_bytes(data)
}

// ---------------------------------------------------------------
// Mathematical decoders; each returns the value and the rest of
// the input, or nothing where the input does not start with a
// well-formed encoding.
// ---------------------------------------------------------------

/// The `u64` held by eight little-endian bytes.
pub open spec fn dec_u64(b: Seq<u8>) -> u64
    recommends
        b.len() == 8,
{
    (b[0] as u64) | ((b[1] as u64) << 8) | ((b[2] as u64) << 16) | ((b[3] as u64) << 24) | (
    (b[4] as u64) << 32) | ((b[5] as u64) << 40) | ((b[6] as u64) << 48) | ((b[7] as u64) << 56)
}

/// An eight-byte word off the front of the input.
pub open spec fn dec_word(b: Seq<u8>) -> Option<(u64, Seq<u8>)> {
    if b.len() < 8 {
        None
    } else {
        Some((dec_u64(b.subrange(0, 8)), b.subrange(8, b.len() as int)))
    }
}

/// A length-prefixed byte string off the front of the input.
pub open spec fn dec_bytes(b: Seq<u8>) -> Option<(Seq<u8>, Seq<u8>)> {
    match dec_word(b) {
        None => None,
        Some((n, r)) => if r.len() < n {
            None
        } else {
            Some((r.subrange(0, n as int), r.subrange(n as int, r.len() as int)))
        },
    }
}

/// A length-prefixed character string off the front of the input.
pub open spec fn dec_str(b: Seq<u8>) -> Option<(Seq<char>, Seq<u8>)> {
    match dec_bytes(b) {
        None => None,
        Some((ub, r)) => if valid_utf8(ub) {
            Some((decode_utf8(ub), r))
        } else {
            None
        },
    }
}

/// One asset off the front of the input.
pub open spec fn dec_asset(b: Seq<u8>) -> Option<(AssetV, Seq<u8>)> {
    match dec_str(b) {
        None => None,
        Some((name, r)) => match dec_word(r) {
            None => None,
            Some((v, r2)) => Some((AssetV { coin_name: name, value: v }, r2)),
        },
    }
}

/// Exactly `n` assets off the front of the input.
pub open spec fn dec_assets(b: Seq<u8>, n: nat) -> Option<(Seq<AssetV>, Seq<u8>)>
    decreases n,
{
    if n == 0 {
        Some((Seq::empty(), b))
    } else {
        match dec_asset(b) {
            None => None,
            Some((a, r)) => match dec_assets(r, (n - 1) as nat) {
                None => None,
                Some((rest, r2)) => Some((seq![a] + rest, r2)),
            },
        }
    }
}

/// A whole `RequestCoinRegister` payload; the input must hold
/// nothing else.
pub open spec fn dec_transfer_coin(b: Seq<u8>) -> Option<TransferCoinV> {
    match dec_str(b) {
        None => None,
        Some((from, r1)) => match dec_str(r1) {
            None => None,
            Some((to, r2)) => match dec_word(r2) {
                None => None,
                Some((n, r3)) => match dec_assets(r3, n as nat) {
                    None => None,
                    Some((assets, r4)) => if r4.len() == 0 {
                        Some(TransferCoinV { from, to, assets })
                    } else {
                        None
                    },
                },
            },
        },
    }
}

/// A whole `ResponseHandleService` payload; the input must hold
/// nothing else.
pub open spec fn dec_response(b: Seq<u8>) -> Option<ResponseV> {
    match dec_word(b) {
        None => None,
        Some((code, r1)) => match dec_str(r1) {
            None => None,
            Some((message, r2)) => if r2.len() == 0 {
                Some(ResponseV { code, message })
            } else {
                None
            },
        },
    }
}

/// A whole envelope; the input must hold nothing else.
pub open spec fn dec_envelope(b: Seq<u8>) -> Option<(ServiceType, Seq<u8>)> {
    if b.len() == 0 {
        None
    } else {
        let t = if b[0] == 0 {
            Some(ServiceType::RequestCoinRegister)
        } else if b[0] == 1 {
            Some(ServiceType::ResponseHandleService)
        } else if b[0] == 2 {
            Some(ServiceType::UnknownType)
        } else {
            None
        };
        match t {
            None => None,
            Some(st) => match dec_bytes(b.subrange(1, b.len() as int)) {
                None => None,
                Some((data, rest)) => if rest.len() == 0 {
                    Some((st, data))
                } else {
                    None
                },
            },
        }
    }
}

// ---------------------------------------------------------------
// Round trips: decoding an encoding gives back what was encoded.
// ---------------------------------------------------------------

proof fn lemma_dec_enc_u64(v: u64)
    ensures
        dec_u64(enc_u64(v)) == v,
{
    assert(((v & 0xff) as u8 as u64) | ((((v >> 8) & 0xff) as u8 as u64) << 8) | ((((v >> 16)
        & 0xff) as u8 as u64) << 16) | ((((v >> 24) & 0xff) as u8 as u64) << 24) | ((((v >> 32)
        & 0xff) as u8 as u64) << 32) | ((((v >> 40) & 0xff) as u8 as u64) << 40) | ((((v >> 48)
        & 0xff) as u8 as u64) << 48) | ((((v >> 56) & 0xff) as u8 as u64) << 56) == v)
        by (bit_vector);
}

proof fn lemma_dec_word_enc(v: u64, rest: Seq<u8>)
    ensures
        dec_word(enc_u64(v) + rest) == Some((v, rest)),
{
    let b = enc_u64(v) + rest;
    assert(b.subrange(0, 8) =~= enc_u64(v));
    assert(b.subrange(8, b.len() as int) =~= rest);
    lemma_dec_enc_u64(v);
}

proof fn lemma_dec_bytes_enc(d: Seq<u8>, rest: Seq<u8>)
    requires
        d.len() <= u64::MAX,
    ensures
        dec_bytes(enc_bytes(d) + rest) == Some((d, rest)),
{
    let b = enc_bytes(d) + rest;
    assert(b =~= enc_u64(d.len() as u64) + (d + rest));
    lemma_dec_word_enc(d.len() as u64, d + rest);
    let r = d + rest;
    assert(r.subrange(0, d.len() as int) =~= d);
    assert(r.subrange(d.len() as int, r.len() as int) =~= rest);
}

proof fn lemma_dec_str_enc(s: Seq<char>, rest: Seq<u8>)
    requires
        str_enc_ok(s),
    ensures
        dec_str(enc_str(s) + rest) == Some((s, rest)),
{
    lemma_dec_bytes_enc(encode_utf8(s), rest);
}

proof fn lemma_dec_asset_enc(a: AssetV, rest: Seq<u8>)
    requires
        asset_enc_ok(a),
    ensures
        dec_asset(enc_asset(a) + rest) == Some((a, rest)),
{
    let b = enc_asset(a) + rest;
    assert(b =~= enc_str(a.coin_name) + (enc_u64(a.value) + rest));
    lemma_dec_str_enc(a.coin_name, enc_u64(a.value) + rest);
    lemma_dec_word_enc(a.value, rest);
}

#[verifier::rlimit(100)]
proof fn lemma_dec_assets_enc(assets: Seq<AssetV>, rest: Seq<u8>)
    requires
        assets_enc_ok(assets),
    ensures
        dec_assets(enc_assets(assets) + rest, assets.len()) == Some((assets, rest)),
    decreases assets.len(),
{
    if assets.len() == 0 {
        assert(enc_assets(assets) + rest =~= rest);
        assert(dec_assets(rest, 0) == Some((Seq::<AssetV>::empty(), rest)));
        assert(assets =~= Seq::<AssetV>::empty());
    } else {
        let tail = assets.drop_first();
        let b = enc_assets(assets) + rest;
        assert(b =~= enc_asset(assets[0]) + (enc_assets(tail) + rest));
        lemma_dec_asset_enc(assets[0], enc_assets(tail) + rest);
        lemma_dec_assets_enc(tail, rest);
        assert(seq![assets[0]] + tail =~= assets);
    }
}

/// Law: a `RequestCoinRegister` payload decodes to exactly the
/// transfer it encodes.
pub proof fn lemma_transfer_coin_round_trip(tc: TransferCoinV)
    requires
        transfer_coin_enc_ok(tc),
    ensures
        dec_transfer_coin(enc_transfer_coin(tc)) == Some(tc),
{
    let b = enc_transfer_coin(tc);
    let r1 = enc_str(tc.to) + enc_u64(tc.assets.len() as u64) + enc_assets(tc.assets);
    assert(b =~= enc_str(tc.from) + r1);
    lemma_dec_str_enc(tc.from, r1);
    let r2 = enc_u64(tc.assets.len() as u64) + enc_assets(tc.assets);
    assert(r1 =~= enc_str(tc.to) + r2);
    lemma_dec_str_enc(tc.to, r2);
    let r3 = enc_assets(tc.assets);
    assert(r2 =~= enc_u64(tc.assets.len() as u64) + r3);
    lemma_dec_word_enc(tc.assets.len() as u64, r3);
    assert(r3 =~= enc_assets(tc.assets) + Seq::<u8>::empty());
    lemma_dec_assets_enc(tc.assets, Seq::<u8>::empty());
}

/// Law: a `ResponseHandleService` payload decodes to exactly the
/// response it encodes.
pub proof fn lemma_response_round_trip(r: ResponseV)
    requires
        response_enc_ok(r),
    ensures
        dec_response(enc_response(r)) == Some(r),
{
    let b = enc_response(r);
    let r1 = enc_str(r.message);
    assert(b =~= enc_u64(r.code) + r1);
    lemma_dec_word_enc(r.code, r1);
    assert(r1 =~= enc_str(r.message) + Seq::<u8>::empty());
    lemma_dec_str_enc(r.message, Seq::<u8>::empty());
}

/// Law: an envelope decodes to exactly the kind and payload it
/// encodes.
pub proof fn lemma_envelope_round_trip(t: ServiceType, data: Seq<u8>)
    requires
        data.len() <= u64::MAX,
    ensures
        dec_envelope(enc_envelope(t, data)) == Some((t, data)),
{
    let b = enc_envelope(t, data);
    assert(b[0] == tag_of(t));
    assert(b.subrange(1, b.len() as int) =~= enc_bytes(data) + Seq::<u8>::empty());
    lemma_dec_bytes_enc(data, Seq::<u8>::empty());
}

// ---------------------------------------------------------------
// Executable encoders
// ---------------------------------------------------------------

fn push_u64(out: &mut Vec<u8>, v: u64)
    ensures
        final(out)@ == old(out)@ + enc_u64(v),
{
    out.push((v & 0xff) as u8);
    out.push(((v >> 8) & 0xff) as u8);
    out.push(((v >> 16) & 0xff) as u8);
    out.push(((v >> 24) & 0xff) as u8);
    out.push(((v >> 32) & 0xff) as u8);
    out.push(((v >> 40) & 0xff) as u8);
    out.push(((v >> 48) & 0xff) as u8);
    out.push(((v >> 56) & 0xff) as u8);
    assert(out@ =~= old(out)@ + enc_u64(v));
}

fn push_bytes(out: &mut Vec<u8>, b: &[u8])
    ensures
        final(out)@ == old(out)@ + enc_bytes(b@),
{
    push_u64(out, b.len() as u64);
    let ghost mid = out@;
    let mut i: usize = 0;
    while i < b.len()
        invariant
            i <= b@.len(),
            out@ == mid + b@.subrange(0, i as int),
        decreases b@.len() - i,
    {
        out.push(b[i]);
        assert(out@ =~= mid + b@.subrange(0, i as int + 1));
        i = i + 1;
    }
    assert(b@.subrange(0, b@.len() as int) =~= b@);
    assert(out@ =~= old(out)@ + enc_bytes(b@));
}

fn push_str(out: &mut Vec<u8>, s: &str)
    ensures
        final(out)@ == old(out)@ + enc_str(s@),
{
    let bytes = s.as_bytes();
    push_bytes(out, bytes);
}

/// Encode one envelope for the wire.
pub fn encode_service_message(m: &ServiceMessage) -> (r: Vec<u8>)
    ensures
        r@ == enc_envelope(m.service_type, m.data@),
{
    let mut out: Vec<u8> = Vec::new();
    let tag: u8 = match m.service_type {
        ServiceType::RequestCoinRegister => 0,
        ServiceType::ResponseHandleService => 1,
        ServiceType::UnknownType => 2,
    };
    out.push(tag);
    push_bytes(&mut out, m.data.as_slice());
    assert(out@ =~= enc_envelope(m.service_type, m.data@));
    out
}

/// Encode a `RequestCoinRegister` payload.
pub fn encode_transfer_coin(tc: &TransferCoin) -> (r: Vec<u8>)
    ensures
        r@ == enc_transfer_coin(tc@),
{
    let mut out: Vec<u8> = Vec::new();
    push_str(&mut out, tc.from.as_str());
    push_str(&mut out, tc.to.as_str());
    push_u64(&mut out, tc.assets.len() as u64);
    let ghost head = out@;
    let mut i: usize = 0;
    while i < tc.assets.len()
        invariant
            i <= tc.assets@.len(),
            tc@.assets.len() == tc.assets@.len(),
            forall|j: int| 0 <= j < tc.assets@.len() ==> tc@.assets[j] == tc.assets@[j]@,
            out@ == head + enc_assets(tc@.assets.take(i as int)),
        decreases tc.assets@.len() - i,
    {
        let a = &tc.assets[i];
        push_str(&mut out, a.coin_name.as_str());
        push_u64(&mut out, a.value);
        proof {
            lemma_enc_assets_snoc(tc@.assets.take(i as int + 1));
            assert(tc@.assets.take(i as int + 1).drop_last() =~= tc@.assets.take(i as int));
            assert(out@ =~= head + enc_assets(tc@.assets.take(i as int + 1)));
        }
        i = i + 1;
    }
    proof {
        assert(tc@.assets.take(tc.assets@.len() as int) =~= tc@.assets);
        assert(out@ =~= enc_transfer_coin(tc@));
    }
    out
}

/// Splitting off the last asset splits its encoding off the back.
proof fn lemma_enc_assets_snoc(assets: Seq<AssetV>)
    requires
        assets.len() > 0,
    ensures
        enc_assets(assets) == enc_assets(assets.drop_last()) + enc_asset(assets.last()),
    decreases assets.len(),
{
    if assets.len() == 1 {
        assert(assets.drop_first() =~= Seq::<AssetV>::empty());
        assert(assets.drop_last() =~= Seq::<AssetV>::empty());
        assert(enc_assets(assets) =~= enc_asset(assets[0]) + enc_assets(Seq::<AssetV>::empty()));
        assert(enc_assets(assets) =~= enc_assets(assets.drop_last()) + enc_asset(assets.last()));
    } else {
        let tail = assets.drop_first();
        lemma_enc_assets_snoc(tail);
        assert(tail.drop_last() =~= assets.drop_last().drop_first());
        assert(tail.last() == assets.last());
        assert(assets.drop_last()[0] == assets[0]);
        assert(assets.drop_last().len() > 0);
        assert(enc_assets(assets.drop_last()) == enc_asset(assets[0]) + enc_assets(
            assets.drop_last().drop_first(),
        ));
        assert(enc_assets(assets) =~= enc_assets(assets.drop_last()) + enc_asset(assets.last()));
    }
}

/// Encode a `ResponseHandleService` payload.
pub fn encode_response(r: &Response) -> (out: Vec<u8>)
    ensures
        out@ == enc_response(r@),
{
    let mut out: Vec<u8> = Vec::new();
    push_u64(&mut out, r.code);
    push_str(&mut out, r.message.as_str());
    assert(out@ =~= enc_response(r@));
    out
}

// ---------------------------------------------------------------
// Executable decoders.  Each reads at a byte position and reports
// the value and the next position; the contracts tie them to the
// mathematical decoders on the input's tail.
// ---------------------------------------------------------------

fn read_u64(b: &[u8], pos: usize) -> (r: Option<(u64, usize)>)
    requires
        pos <= b@.len(),
    ensures
        match r {
            Some(p) => {
                &&& dec_word(b@.skip(pos as int)) == Some((p.0, b@.skip(p.1 as int)))
                &&& pos < p.1 <= b@.len()
            },
            None => dec_word(b@.skip(pos as int)) is None,
        },
{
    if b.len() - pos < 8 {
        assert(b@.skip(pos as int).len() < 8);
        return None;
    }
    let v: u64 = (b[pos] as u64) | ((b[pos + 1] as u64) << 8) | ((b[pos + 2] as u64) << 16) | ((b[
        pos + 3] as u64) << 24) | ((b[pos + 4] as u64) << 32) | ((b[pos + 5] as u64) << 40) | ((b[
        pos + 6] as u64) << 48) | ((b[pos + 7] as u64) << 56);
    proof {
        let t = b@.skip(pos as int);
        assert(t.subrange(0, 8) =~= b@.subrange(pos as int, pos as int + 8));
        assert(t.subrange(8, t.len() as int) =~= b@.skip(pos as int + 8));
        assert(v == dec_u64(t.subrange(0, 8)));
    }
    Some((v, pos + 8))
}

fn read_bytes(b: &[u8], pos: usize) -> (r: Option<(Vec<u8>, usize)>)
    requires
        pos <= b@.len(),
    ensures
        match r {
            Some(p) => {
                &&& dec_bytes(b@.skip(pos as int)) == Some((p.0@, b@.skip(p.1 as int)))
                &&& pos < p.1 <= b@.len()
            },
            None => dec_bytes(b@.skip(pos as int)) is None,
        },
{
    let (n, p1) = match read_u64(b, pos) {
        None => { return None; },
        Some(p) => p,
    };
    if n > (b.len() - p1) as u64 {
        proof {
            let t = b@.skip(pos as int);
            assert(b@.skip(p1 as int).len() < n);
        }
        return None;
    }
    let k = n as usize;
    let mut data: Vec<u8> = Vec::new();
    let mut i: usize = 0;
    while i < k
        invariant
            i <= k,
            p1 + k <= b@.len(),
            b@.len() <= usize::MAX,
            data@ == b@.subrange(p1 as int, p1 as int + i as int),
        decreases k - i,
    {
        data.push(b[p1 + i]);
        assert(data@ =~= b@.subrange(p1 as int, p1 as int + i as int + 1));
        i = i + 1;
    }
    proof {
        let t = b@.skip(p1 as int);
        assert(t.subrange(0, k as int) =~= b@.subrange(p1 as int, p1 as int + k as int));
        assert(t.subrange(k as int, t.len() as int) =~= b@.skip(p1 as int + k as int));
    }
    Some((data, p1 + k))
}

/// Turns bytes back into a string.
/// Relies on `String::from_utf8`: it succeeds exactly on valid UTF-8
/// and decodes by the UTF-8 scalar-value encoding, the one
/// `vstd::utf8` specifies.
#[verifier::external_body]
fn bytes_to_string(v: Vec<u8>) -> (r: Option<String>)
    ensures
        r is Some <==> valid_utf8(v@),
        r matches Some(s) ==> s@ == decode_utf8(v@),
{
    match String::from_utf8(v) {
        Ok(s) => Some(s),
        Err(_) => None,
    }
}

fn read_str(b: &[u8], pos: usize) -> (r: Option<(String, usize)>)
    requires
        pos <= b@.len(),
    ensures
        match r {
            Some(p) => {
                &&& dec_str(b@.skip(pos as int)) == Some((p.0@, b@.skip(p.1 as int)))
                &&& pos < p.1 <= b@.len()
            },
            None => dec_str(b@.skip(pos as int)) is None,
        },
{
    let (data, p1) = match read_bytes(b, pos) {
        None => { return None; },
        Some(p) => p,
    };
    match bytes_to_string(data) {
        None => None,
        Some(s) => Some((s, p1)),
    }
}

fn read_asset(b: &[u8], pos: usize) -> (r: Option<(Asset, usize)>)
    requires
        pos <= b@.len(),
    ensures
        match r {
            Some(p) => {
                &&& dec_asset(b@.skip(pos as int)) == Some((p.0@, b@.skip(p.1 as int)))
                &&& pos < p.1 <= b@.len()
            },
            None => dec_asset(b@.skip(pos as int)) is None,
        },
{
    let (name, p1) = match read_str(b, pos) {
        None => { return None; },
        Some(p) => p,
    };
    let (value, p2) = match read_u64(b, p1) {
        None => { return None; },
        Some(p) => p,
    };
    Some((Asset { coin_name: name, value }, p2))
}

/// Decode a whole envelope; `None` where the bytes are not one
/// well-formed envelope.
pub fn decode_service_message(msg: &[u8]) -> (r: Option<ServiceMessage>)
    ensures
        match r {
            Some(sm) => dec_envelope(msg@) == Some((sm.service_type, sm.data@)),
            None => dec_envelope(msg@) is None,
        },
{
    if msg.len() == 0 {
        return None;
    }
    let tag = msg[0];
    let service_type = if tag == 0 {
        ServiceType::RequestCoinRegister
    } else if tag == 1 {
        ServiceType::ResponseHandleService
    } else if tag == 2 {
        ServiceType::UnknownType
    } else {
        return None;
    };
    let (data, p) = match read_bytes(msg, 1) {
        None => {
            proof {
                assert(msg@.subrange(1, msg@.len() as int) =~= msg@.skip(1));
            }
            return None;
        },
        Some(p) => p,
    };
    proof {
        assert(msg@.subrange(1, msg@.len() as int) =~= msg@.skip(1));
    }
    if p != msg.len() {
        proof {
            assert(msg@.skip(p as int).len() > 0);
        }
        return None;
    }
    proof {
        assert(msg@.skip(p as int).len() == 0);
    }
    Some(ServiceMessage { service_type, data })
}

/// Decode a whole `ResponseHandleService` payload.
pub fn decode_response(data: &[u8]) -> (r: Option<Response>)
    ensures
        match r {
            Some(resp) => dec_response(data@) == Some(resp@),
            None => dec_response(data@) is None,
        },
{
    proof {
        assert(data@.skip(0) =~= data@);
    }
    let (code, p1) = match read_u64(data, 0) {
        None => { return None; },
        Some(p) => p,
    };
    let (message, p2) = match read_str(data, p1) {
        None => { return None; },
        Some(p) => p,
    };
    if p2 != data.len() {
        proof {
            assert(data@.skip(p2 as int).len() > 0);
        }
        return None;
    }
    proof {
        assert(data@.skip(p2 as int).len() == 0);
    }
    Some(Response { code, message })
}

/// Decode a whole `RequestCoinRegister` payload.
#[verifier::loop_isolation(false)]
#[verifier::rlimit(100)]
pub fn decode_transfer_coin(data: &[u8]) -> (r: Option<TransferCoin>)
    ensures
        match r {
            Some(tc) => dec_transfer_coin(data@) == Some(tc@),
            None => dec_transfer_coin(data@) is None,
        },
{
    proof {
        assert(data@.skip(0) =~= data@);
    }
    let (from, p1) = match read_str(data, 0) {
        None => { return None; },
        Some(p) => p,
    };
    let (to, p2) = match read_str(data, p1) {
        None => { return None; },
        Some(p) => p,
    };
    let (n, p3) = match read_u64(data, p2) {
        None => { return None; },
        Some(p) => p,
    };
    let mut assets: Vec<Asset> = Vec::new();
    let mut pos = p3;
    let mut i: u64 = 0;
    while i < n
        invariant
            i <= n,
            pos <= data@.len(),
            assets@.len() == i,
            dec_assets(data@.skip(p3 as int), n as nat) == (match dec_assets(
                data@.skip(pos as int),
                (n - i) as nat,
            ) {
                None => None::<(Seq<AssetV>, Seq<u8>)>,
                Some(p) => Some(
                    (Seq::new(assets@.len(), |j: int| assets@[j]@) + p.0, p.1),
                ),
            }),
        decreases n - i,
    {
        let (a, p4) = match read_asset(data, pos) {
            None => {
                proof {
                    assert(dec_assets(data@.skip(pos as int), (n - i) as nat) is None);
                }
                return None;
            },
            Some(p) => p,
        };
        proof {
            let pre = Seq::new(assets@.len(), |j: int| assets@[j]@);
            let post = Seq::new(assets@.len() + 1, |j: int| assets@.push(a)[j]@);
            assert(post =~= pre + seq![a@]);
            let t = data@.skip(pos as int);
            let t2 = data@.skip(p4 as int);
            match dec_assets(t2, (n - i - 1) as nat) {
                Option::None => {
                    assert(dec_assets(t, (n - i) as nat) is None);
                },
                Option::Some(p) => {
                    assert(dec_assets(t, (n - i) as nat) == Some((seq![a@] + p.0, p.1)));
                    assert(pre + (seq![a@] + p.0) =~= post + p.0);
                },
            }
        }
        assets.push(a);
        pos = p4;
        i = i + 1;
    }
    if pos != data.len() {
        proof {
            assert(data@.skip(pos as int).len() > 0);
            assert(dec_assets(data@.skip(pos as int), 0) == Some(
                (Seq::<AssetV>::empty(), data@.skip(pos as int)),
            ));
            let pre = Seq::new(assets@.len(), |j: int| assets@[j]@);
            assert(pre + Seq::<AssetV>::empty() =~= pre);
        }
        return None;
    }
    proof {
        assert(data@.skip(pos as int).len() == 0);
        let pre = Seq::new(assets@.len(), |j: int| assets@[j]@);
        assert(pre + Seq::<AssetV>::empty() =~= pre);
    }
    Some(TransferCoin { from, to, assets })
}

} // verus!
