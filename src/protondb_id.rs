//! The bucket identifier under which the report collection of a title is
//! published: a string hash over a template built from the title's id and the
//! global report counts.
use vstd::prelude::*;
use crate::text::{decimal, push_char, push_decimal, to_decimal};

verus! {

pub const HASH_MODULUS: u64 = 0x1_0000_0000;

/// The 32-bit string hash `h = 31 * h + c` over the characters of `s`,
/// taken as an unsigned value below `2^32`.
pub open spec fn string_hash(s: Seq<char>) -> nat
    decreases s.len(),
{
    if s.len() == 0 {
        0
    } else {
        ((31 * string_hash(s.drop_last()) + (s.last() as u32)) % (HASH_MODULUS as int)) as nat
    }
}

/// The magnitude of the hash of `s` followed by `'m'`, the hash read as a
/// signed 32-bit number (the most negative one keeps its bit pattern).
pub open spec fn spec_protondb_id(s: Seq<char>) -> nat {
    let h = string_hash(s.push('m'));
    if h >= 0x8000_0000 {
        (HASH_MODULUS - h) as nat
    } else {
        h
    }
}

/// `n2`, a `W`, then the product of `n1` and `n2 mod timestamp`.
pub open spec fn spec_hash(n1: nat, n2: nat, timestamp: nat) -> Seq<char> {
    decimal(n2) + seq!['W'] + decimal(n1 * (n2 % timestamp))
}

/// The template whose hash gives the bucket identifier.
pub open spec fn spec_template(steam_id: nat, reports: nat, timestamp: nat) -> Seq<char> {
    seq!['p'] + spec_hash(steam_id, reports, timestamp) + "*vRT"@ + spec_hash(
        1,
        steam_id,
        timestamp,
    ) + "undefined"@
}

pub fn get_hash(n1: u32, n2: u32, timestamp: u32) -> (r: String)
    requires
        timestamp > 0,
    ensures
        r@ == spec_hash(n1 as nat, n2 as nat, timestamp as nat),
{
    let rem: u32 = n2 % timestamp;
    proof {
        assert((n1 as int) * (rem as int) <= 0xffff_ffff * 0xffff_ffff) by (nonlinear_arith)
            requires
                n1 <= 0xffff_ffff,
                rem <= 0xffff_ffff,
        ;
    }
    let product: u64 = (n1 as u64) * (rem as u64);
    let mut s = to_decimal(n2 as u64);
    push_char(&mut s, 'W');
    push_decimal(&mut s, product);
    assert(s@ =~= spec_hash(n1 as nat, n2 as nat, timestamp as nat));
    s
}

pub fn get_protondb_id(hash: &str) -> (r: u32)
    ensures
        r == spec_protondb_id(hash@),
{
    let mut s = String::from_str(hash);
    push_char(&mut s, 'm');
    let t = s.as_str();
    let n = t.unicode_len();
    let mut h: u64 = 0;
    let mut i: usize = 0;
    while i < n
        invariant
            n == t@.len(),
            t@ == hash@.push('m'),
            i <= n,
            h == string_hash(t@.take(i as int)),
            h < HASH_MODULUS,
        decreases n - i,
    {
        let c = t.get_char(i);
        proof {
            assert(t@.take(i as int + 1).drop_last() =~= t@.take(i as int));
            assert(31 * h + (c as u32) < 31 * HASH_MODULUS + HASH_MODULUS) by (nonlinear_arith)
                requires
                    h < HASH_MODULUS,
                    (c as u32) < HASH_MODULUS,
            ;
        }
        h = (31 * h + (c as u32) as u64) % HASH_MODULUS;
        i = i + 1;
    }
    assert(t@.take(n as int) =~= t@);
    if h >= 0x8000_0000 {
        (HASH_MODULUS - h) as u32
    } else {
        h as u32
    }
}

/// The bucket identifier of the title `steam_id`, given the global report
/// count and the timestamp of that count.
pub fn calculate_protondb_id(steam_id: u32, number_of_reports: u32, counts_timestamp: u32) -> (r:
    u32)
    requires
        counts_timestamp > 0,
    ensures
        r == spec_protondb_id(
            spec_template(steam_id as nat, number_of_reports as nat, counts_timestamp as nat),
        ),
{
    let hash1 = get_hash(steam_id, number_of_reports, counts_timestamp);
    let hash2 = get_hash(1, steam_id, counts_timestamp);
    let mut hash3 = String::new();
    push_char(&mut hash3, 'p');
    hash3.append(hash1.as_str());
    hash3.append("*vRT");
    hash3.append(hash2.as_str());
    hash3.append("undefined");
    assert(hash3@ =~= spec_template(
        steam_id as nat,
        number_of_reports as nat,
        counts_timestamp as nat,
    ));
    get_protondb_id(hash3.as_str())
}

/// The bucket identifier depends on the title id, the report count and the
/// count's timestamp alone: equal inputs give equal identifiers.
pub proof fn lemma_protondb_id_deterministic(
    steam_id: u32,
    number_of_reports: u32,
    counts_timestamp: u32,
    steam_id2: u32,
    number_of_reports2: u32,
    counts_timestamp2: u32,
)
    requires
        counts_timestamp > 0,
        steam_id == steam_id2,
        number_of_reports == number_of_reports2,
        counts_timestamp == counts_timestamp2,
    ensures
        spec_protondb_id(
            spec_template(steam_id as nat, number_of_reports as nat, counts_timestamp as nat),
        ) == spec_protondb_id(
            spec_template(steam_id2 as nat, number_of_reports2 as nat, counts_timestamp2 as nat),
        ),
{
}

} // verus!
