//! The machine key: a symmetric key bound to stable properties of the host.
//!
//! The host's properties are read elsewhere and handed in as [`HostFacts`];
//! here they are written out as one summary line, hashed with SHA-256, and the
//! digest seeds the generator that yields the key. Only stable properties take
//! part, so the key is the same on every call on an unchanged host.
use rand::{RngCore, SeedableRng};
use rand::rngs::StdRng;
use sha2::{Digest, Sha256};
use vstd::prelude::*;
use vstd::utf8::encode_utf8;

pub mod aes256;

verus! {

/// Stable properties of the host, as plain values.
pub struct HostFacts {
    pub arch: String,
    pub sys_name: String,
    pub host_name: String,
    pub distro: String,
    /// Total physical memory, in bytes.
    pub total_memory: u64,
    /// Number of thermal sensors.
    pub component_count: u64,
    /// Sum of the sensors' critical temperatures, already written as text.
    pub critical_temp_text: String,
    /// Hardware addresses of the network interfaces.
    pub mac_addresses: Vec<[u8; 6]>,
}

pub open spec fn digit_char(d: nat) -> char {
    if d == 0 { '0' }
    else if d == 1 { '1' }
    else if d == 2 { '2' }
    else if d == 3 { '3' }
    else if d == 4 { '4' }
    else if d == 5 { '5' }
    else if d == 6 { '6' }
    else if d == 7 { '7' }
    else if d == 8 { '8' }
    else { '9' }
}

/// `n` in decimal, without leading zeros.
pub open spec fn decimal(n: nat) -> Seq<char>
    decreases n,
{
    if n < 10 {
        seq![digit_char(n)]
    } else {
        decimal(n / 10).push(digit_char(n % 10))
    }
}

/// Sum of the bytes of one hardware address.
pub open spec fn mac_bytes_sum(m: Seq<u8>) -> nat
    decreases m.len(),
{
    if m.len() == 0 {
        0
    } else {
        mac_bytes_sum(m.drop_last()) + m.last() as nat
    }
}

/// Sum of the bytes of all the hardware addresses in `macs`.
pub open spec fn mac_total(macs: Seq<[u8; 6]>) -> nat
    decreases macs.len(),
{
    if macs.len() == 0 {
        0
    } else {
        mac_total(macs.drop_last()) + mac_bytes_sum(macs.last()@)
    }
}

/// The summary line: the facts in a fixed order, separated by `|`.
pub open spec fn summary_of(f: HostFacts) -> Seq<char> {
    f.arch@ + seq!['|'] + f.sys_name@ + seq!['|'] + f.host_name@ + seq!['|'] + f.distro@ + seq!['|']
        + decimal(f.total_memory as nat) + seq!['|'] + decimal(f.component_count as nat) + seq!['|']
        + f.critical_temp_text@ + seq!['|'] + decimal(mac_total(f.mac_addresses@))
}

/// The SHA-256 digest of `data`.
pub uninterp spec fn sha256_of(data: Seq<u8>) -> Seq<u8>;

/// The first 32 bytes that `StdRng` yields when seeded with `seed`.
pub uninterp spec fn std_rng_bytes(seed: Seq<u8>) -> Seq<u8>;

/// The key derived from a machine summary.
pub open spec fn machine_key(summary: Seq<char>) -> Seq<u8> {
    std_rng_bytes(sha256_of(encode_utf8(summary)))
}

/// Relies on sha2's `Sha256::digest`: the 32-byte digest of the data.
#[verifier::external_body]
fn sha256_digest(data: &[u8]) -> (r: [u8; 32])
    ensures
        r@ == sha256_of(data@),
{
    Sha256::digest(data).into()
}

/// Relies on rand's `StdRng::from_seed` and `RngCore::fill_bytes`: a generator
/// seeded with `seed` yields the same bytes on every run.
#[verifier::external_body]
fn seeded_bytes(seed: [u8; 32]) -> (r: [u8; 32])
    ensures
        r@ == std_rng_bytes(seed@),
{
    let mut rng = StdRng::from_seed(seed);
    let mut out = [0u8; 32];
    rng.fill_bytes(&mut out);
    out
}

fn digit_text(d: u64) -> (r: &'static str)
    requires
        d < 10,
    ensures
        r@ == seq![digit_char(d as nat)],
{
    proof {
        reveal_strlit("0");
        reveal_strlit("1");
        reveal_strlit("2");
        reveal_strlit("3");
        reveal_strlit("4");
        reveal_strlit("5");
        reveal_strlit("6");
        reveal_strlit("7");
        reveal_strlit("8");
        reveal_strlit("9");
    }
    if d == 0 {
        "0"
    } else if d == 1 {
        "1"
    } else if d == 2 {
        "2"
    } else if d == 3 {
        "3"
    } else if d == 4 {
        "4"
    } else if d == 5 {
        "5"
    } else if d == 6 {
        "6"
    } else if d == 7 {
        "7"
    } else if d == 8 {
        "8"
    } else {
        "9"
    }
}

/// Appends `n` in decimal to `out`.
pub fn push_decimal(out: &mut String, n: u64)
    ensures
        final(out)@ == old(out)@ + decimal(n as nat),
    decreases n,
{
    if n >= 10 {
        push_decimal(out, n / 10);
    }
    out.append(digit_text(n % 10));
    assert(final(out)@ =~= old(out)@ + decimal(n as nat));
}

fn push_separator(out: &mut String)
    ensures
        final(out)@ == old(out)@ + seq!['|'],
{
    proof {
        reveal_strlit("|");
    }
    out.append("|");
}

/// Sums the bytes of all the hardware addresses.
pub fn mac_sum(macs: &Vec<[u8; 6]>) -> (r: u64)
    requires
        mac_total(macs@) <= u64::MAX,
    ensures
        r == mac_total(macs@),
{
    let mut total: u64 = 0;
    let mut i: usize = 0;
    while i < macs.len()
        invariant
            i <= macs@.len(),
            total == mac_total(macs@.subrange(0, i as int)),
            mac_total(macs@) <= u64::MAX,
        decreases macs@.len() - i,
    {
        let mac = macs[i];
        let mut j: usize = 0;
        let mut part: u64 = 0;
        while j < 6
            invariant
                j <= 6,
                part == mac_bytes_sum(mac@.subrange(0, j as int)),
                part <= 255 * j,
            decreases 6 - j,
        {
            assert(mac@.subrange(0, j + 1).drop_last() =~= mac@.subrange(0, j as int));
            part = part + mac[j] as u64;
            j = j + 1;
        }
        assert(mac@.subrange(0, 6) =~= mac@);
        assert(macs@.subrange(0, i + 1).drop_last() =~= macs@.subrange(0, i as int));
        proof {
            lemma_mac_total_prefix(macs@, i as int + 1);
        }
        total = total + part;
        i = i + 1;
    }
    assert(macs@.subrange(0, i as int) =~= macs@);
    total
}

/// Sums over a prefix are at most the sum over the whole.
proof fn lemma_mac_total_prefix(macs: Seq<[u8; 6]>, k: int)
    requires
        0 <= k <= macs.len(),
    ensures
        mac_total(macs.subrange(0, k)) <= mac_total(macs),
    decreases macs.len() - k,
{
    if k < macs.len() {
        lemma_mac_total_prefix(macs, k + 1);
        assert(macs.subrange(0, k + 1).drop_last() =~= macs.subrange(0, k));
    } else {
        assert(macs.subrange(0, k) =~= macs);
    }
}

/// Writes the host's facts out as one summary line.
pub fn get_machine_summary(facts: &HostFacts) -> (r: String)
    requires
        mac_total(facts.mac_addresses@) <= u64::MAX,
    ensures
        r@ == summary_of(*facts),
{
    let mut out = facts.arch.clone();
    push_separator(&mut out);
    out.append(facts.sys_name.as_str());
    push_separator(&mut out);
    out.append(facts.host_name.as_str());
    push_separator(&mut out);
    out.append(facts.distro.as_str());
    push_separator(&mut out);
    push_decimal(&mut out, facts.total_memory);
    push_separator(&mut out);
    push_decimal(&mut out, facts.component_count);
    push_separator(&mut out);
    out.append(facts.critical_temp_text.as_str());
    push_separator(&mut out);
    let macs = mac_sum(&facts.mac_addresses);
    push_decimal(&mut out, macs);
    out
}

/// Derives the 256-bit machine key from a summary line.
pub fn get_key(summary: &str) -> (r: [u8; 32])
    ensures
        r@ == machine_key(summary@),
{
    let digest = sha256_digest(summary.as_bytes());
    seeded_bytes(digest)
}

/// The facts of two reads of a host agree in every value.
pub open spec fn same_facts(a: HostFacts, b: HostFacts) -> bool {
    &&& a.arch@ == b.arch@
    &&& a.sys_name@ == b.sys_name@
    &&& a.host_name@ == b.host_name@
    &&& a.distro@ == b.distro@
    &&& a.total_memory == b.total_memory
    &&& a.component_count == b.component_count
    &&& a.critical_temp_text@ == b.critical_temp_text@
    &&& a.mac_addresses@ == b.mac_addresses@
}

/// On an unchanged host the summary, and so the key derived from it, is the
/// same on every call.
pub proof fn lemma_key_stable(a: HostFacts, b: HostFacts, key_a: Seq<u8>, key_b: Seq<u8>)
    requires
        same_facts(a, b),
        key_a == machine_key(summary_of(a)),
        key_b == machine_key(summary_of(b)),
    ensures
        summary_of(a) == summary_of(b),
        key_a == key_b,
{
}

} // verus!
