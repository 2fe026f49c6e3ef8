//! The wire payload of a measurement record.
//!
//! A record goes over the transport as a JSON object with the fields
//! `station_id`, `temperature_centi`, `humidity` and `ts_us`, in that order,
//! each an integer in decimal notation. `spec_record_json` is the wire
//! contract: `encode_record` returns exactly those bytes.

use crate::station::WeatherRecord;
use vstd::prelude::*;
use vstd::string::StringSliceAdditionalSpecFns;
use vstd::utf8::encode_utf8;

verus! {

/// The decimal digits of `n`, most significant first, as ASCII bytes.
pub open spec fn spec_udec(n: nat) -> Seq<u8>
    decreases n,
{
    if n < 10 {
        seq![(48 + n) as u8]
    } else {
        spec_udec(n / 10).push((48 + n % 10) as u8)
    }
}

/// The decimal notation of `v`: a minus sign before the digits when negative.
pub open spec fn spec_idec(v: int) -> Seq<u8> {
    if v < 0 {
        seq![45u8] + spec_udec((-v) as nat)
    } else {
        spec_udec(v as nat)
    }
}

/// The JSON payload of a record.
pub open spec fn spec_record_json(r: WeatherRecord) -> Seq<u8> {
    encode_utf8("{\"station_id\":"@) + spec_udec(r.station_id as nat)
        + encode_utf8(",\"temperature_centi\":"@) + spec_idec(r.temperature_centi as int)
        + encode_utf8(",\"humidity\":"@) + spec_udec(r.humidity as nat)
        + encode_utf8(",\"ts_us\":"@) + spec_idec(r.ts_us as int)
        + encode_utf8("}"@)
}

/// Appends the UTF-8 bytes of `s` to `out`.
fn push_str_bytes(out: &mut Vec<u8>, s: &str)
    ensures
        final(out)@ == old(out)@ + s.spec_bytes(),
{
    let bs: &[u8] = s.as_bytes();
    let mut i: usize = 0;
    while i < bs.len()
        invariant
            i <= bs@.len(),
            bs@ == s.spec_bytes(),
            out@ == old(out)@ + bs@.subrange(0, i as int),
        decreases bs@.len() - i,
    {
        out.push(bs[i]);
        i = i + 1;
        proof {
            assert(out@ =~= old(out)@ + bs@.subrange(0, i as int));
        }
    }
    proof {
        assert(out@ =~= old(out)@ + bs@);
    }
}

/// Appends the decimal digits of `n` to `out`.
fn push_u64_dec(out: &mut Vec<u8>, n: u64)
    ensures
        final(out)@ == old(out)@ + spec_udec(n as nat),
    decreases n,
{
    if n >= 10 {
        push_u64_dec(out, n / 10);
    }
    out.push(48 + (n % 10) as u8);
    proof {
        assert(out@ =~= old(out)@ + spec_udec(n as nat));
    }
}

/// Appends the decimal notation of `v` to `out`.
fn push_i64_dec(out: &mut Vec<u8>, v: i64)
    ensures
        final(out)@ == old(out)@ + spec_idec(v as int),
{
    if v < 0 {
        out.push(45);
        let mag: u64 = ((-(v + 1)) as u64) + 1;
        proof {
            assert(mag as nat == (-(v as int)) as nat);
        }
        push_u64_dec(out, mag);
        proof {
            assert(out@ =~= old(out)@ + spec_idec(v as int));
        }
    } else {
        push_u64_dec(out, v as u64);
    }
}

/// Serializes a record to its JSON payload, byte for byte as
/// `spec_record_json` states it.
pub fn encode_record(r: &WeatherRecord) -> (out: Vec<u8>)
    ensures
        out@ == spec_record_json(*r),
{
    let mut out: Vec<u8> = Vec::new();
    push_str_bytes(&mut out, "{\"station_id\":");
    push_u64_dec(&mut out, r.station_id as u64);
    push_str_bytes(&mut out, ",\"temperature_centi\":");
    push_i64_dec(&mut out, r.temperature_centi);
    push_str_bytes(&mut out, ",\"humidity\":");
    push_u64_dec(&mut out, r.humidity as u64);
    push_str_bytes(&mut out, ",\"ts_us\":");
    push_i64_dec(&mut out, r.ts_us);
    push_str_bytes(&mut out, "}");
    proof {
        assert(out@ =~= spec_record_json(*r));
    }
    out
}

} // verus!
