//! How a device is reached, and the identity derived from it.

use std::collections::hash_map::DefaultHasher;
use std::hash::Hasher;
use vstd::prelude::*;
use vstd::std_specs::hash::DefaultHasherAdditionalSpecFns;

verus! {

/// A UDP endpoint: IPv4 address as four octets, most significant first.
#[derive(Clone, Debug, Hash)]
pub struct SourceUdpStruct {
    pub ip: [u8; 4],
    pub port: u16,
}

/// A serial line and the baud rate to run it at.
#[derive(Clone, Debug, Hash)]
pub struct SourceSerialStruct {
    pub path: String,
    pub baudrate: u32,
}

/// How to reach a device.
#[derive(Clone, Debug, Hash)]
pub enum SourceSelection {
    UdpStream(SourceUdpStruct),
    SerialStream(SourceSerialStruct),
}

/// A device's identity: a 128-bit value, the zero-extended 64-bit digest
/// of its source. It is rendered as a UUID at the edges.
#[derive(Clone, Copy, Debug, PartialEq, Eq, Structural, Hash)]
pub struct DeviceId {
    pub value: u128,
}

pub open spec fn le_bytes_u16(x: u16) -> Seq<u8> {
    seq![(x % 256) as u8, (x / 256) as u8]
}

pub open spec fn le_bytes_u32(x: u32) -> Seq<u8> {
    seq![
        (x % 256) as u8,
        ((x / 256) % 256) as u8,
        ((x / 65536) % 256) as u8,
        (x / 16777216) as u8,
    ]
}

/// The writes fed to the hasher for a source: a variant tag, then each
/// field; a path is its UTF-8 bytes closed by 0xff, as `str` hashing does.
pub open spec fn hash_writes(s: SourceSelection) -> Seq<Seq<u8>> {
    match s {
        SourceSelection::UdpStream(u) => seq![seq![0u8], u.ip@, le_bytes_u16(u.port)],
        SourceSelection::SerialStream(p) => seq![
            seq![1u8],
            vstd::utf8::encode_utf8(p.path@),
            seq![0xffu8],
            le_bytes_u32(p.baudrate),
        ],
    }
}

/// The 64-bit digest of a source. `DefaultHasher::new` starts from fixed
/// keys, so the digest depends on the written bytes alone.
pub open spec fn source_hash(s: SourceSelection) -> u64 {
    DefaultHasher::spec_finish(hash_writes(s))
}

pub open spec fn source_id(s: SourceSelection) -> DeviceId {
    DeviceId { value: source_hash(s) as u128 }
}

/// Deterministic identity: the id is a function of the source's contents
/// alone, so equal sources get equal ids in every run and process.
pub proof fn lemma_identity_deterministic(a: SourceSelection, b: SourceSelection)
    requires
        match (a, b) {
            (SourceSelection::UdpStream(x), SourceSelection::UdpStream(y)) => x.ip@ == y.ip@
                && x.port == y.port,
            (SourceSelection::SerialStream(x), SourceSelection::SerialStream(y)) => x.path@
                == y.path@ && x.baudrate == y.baudrate,
            _ => false,
        },
    ensures
        source_id(a) == source_id(b),
{
    assert(hash_writes(a) =~= hash_writes(b));
}

/// The id holds the 64-bit digest in its low 64 bits; the high 64 bits are
/// zero.
pub proof fn lemma_id_encodes_hash(s: SourceSelection)
    ensures
        source_id(s).value % 0x1_0000_0000_0000_0000 == source_hash(s) as int,
        source_id(s).value / 0x1_0000_0000_0000_0000 == 0,
{
}

/// Baud rates a serial line is tried at when the device does not answer at
/// the requested one.
pub open spec fn fallback_baud_rates() -> Seq<u32> {
    seq![115200u32, 9600u32, 921600u32, 2000000u32, 3000000u32]
}

/// `s` without the occurrences of `x`, in order.
pub open spec fn without(s: Seq<u32>, x: u32) -> Seq<u32>
    decreases s.len(),
{
    if s.len() == 0 {
        seq![]
    } else if s.last() == x {
        without(s.drop_last(), x)
    } else {
        without(s.drop_last(), x).push(s.last())
    }
}

/// The order in which a serial line is probed for the rate its device
/// runs at: the requested rate first, then each fallback rate once.
pub open spec fn probe_rates(requested: u32) -> Seq<u32> {
    seq![requested] + without(fallback_baud_rates(), requested)
}

pub fn baud_rates_to_probe(requested: u32) -> (r: Vec<u32>)
    ensures
        r@ == probe_rates(requested),
{
    let fallback: Vec<u32> = vec![115200u32, 9600u32, 921600u32, 2000000u32, 3000000u32];
    assert(fallback@ == fallback_baud_rates());
    let mut kept: Vec<u32> = Vec::new();
    let mut i: usize = 0;
    while i < fallback.len()
        invariant
            i <= fallback@.len(),
            kept@ == without(fallback@.take(i as int), requested),
        decreases fallback@.len() - i,
    {
        proof {
            assert(fallback@.take(i + 1).drop_last() =~= fallback@.take(i as int));
        }
        if fallback[i] != requested {
            kept.push(fallback[i]);
        }
        i = i + 1;
    }
    proof {
        assert(fallback@.take(i as int) =~= fallback@);
    }
    let mut r: Vec<u32> = vec![requested];
    let mut j: usize = 0;
    while j < kept.len()
        invariant
            j <= kept@.len(),
            r@ == seq![requested] + kept@.take(j as int),
        decreases kept@.len() - j,
    {
        proof {
            assert(kept@.take(j + 1) =~= kept@.take(j as int).push(kept@[j as int]));
        }
        r.push(kept[j]);
        j = j + 1;
    }
    proof {
        assert(kept@.take(j as int) =~= kept@);
    }
    r
}

/// The identity of the device reached through `source`.
pub fn device_id(source: &SourceSelection) -> (r: DeviceId)
    ensures
        r == source_id(*source),
{
    let mut h = DefaultHasher::new();
    match source {
        SourceSelection::UdpStream(u) => {
            let tag: [u8; 1] = [0u8];
            let port: [u8; 2] = [(u.port % 256) as u8, (u.port / 256) as u8];
            h.write(tag.as_slice());
            h.write(u.ip.as_slice());
            h.write(port.as_slice());
            assert(tag@ =~= seq![0u8]);
            assert(port@ =~= le_bytes_u16(u.port));
        },
        SourceSelection::SerialStream(p) => {
            let tag: [u8; 1] = [1u8];
            let end: [u8; 1] = [0xffu8];
            let b = p.baudrate;
            let baud: [u8; 4] = [
                (b % 256) as u8,
                ((b / 256) % 256) as u8,
                ((b / 65536) % 256) as u8,
                (b / 16777216) as u8,
            ];
            h.write(tag.as_slice());
            h.write(p.path.as_str().as_bytes());
            h.write(end.as_slice());
            h.write(baud.as_slice());
            assert(tag@ =~= seq![1u8]);
            assert(end@ =~= seq![0xffu8]);
            assert(baud@ =~= le_bytes_u32(p.baudrate));
        },
    }
    assert(h@ =~= hash_writes(*source));
    DeviceId { value: h.finish() as u128 }
}

} // verus!
