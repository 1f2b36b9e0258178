//! The digest of everything a generator reads: FNV-1a over the relative
//! path and the contents of each source file, in reading order.

use vstd::prelude::*;
use vstd::utf8::encode_utf8;

verus! {

broadcast use vstd::string::group_string_axioms;

/// The FNV-1a 64-bit offset basis.
pub open spec fn fnv_offset() -> u64 {
    0xcbf2_9ce4_8422_2325
}

/// The FNV-1a 64-bit prime.
pub open spec fn fnv_prime() -> u64 {
    0x0000_0100_0000_01b3
}

/// FNV-1a over `bytes`, starting from `hash`: each byte is XORed in, then
/// the hash is multiplied by the prime modulo 2^64.
pub open spec fn fnv(hash: u64, bytes: Seq<u8>) -> u64
    decreases bytes.len(),
{
    if bytes.len() == 0 {
        hash
    } else {
        vstd::wrapping::u64_specs::wrapping_mul(fnv(hash, bytes.drop_last()) ^ (bytes.last() as u64), fnv_prime())
    }
}

pub fn fnv_update(hash: u64, bytes: &[u8]) -> (r: u64)
    ensures
        r == fnv(hash, bytes@),
{
    let mut h = hash;
    let mut i: usize = 0;
    while i < bytes.len()
        invariant
            i <= bytes@.len(),
            h == fnv(hash, bytes@.take(i as int)),
        decreases bytes.len() - i,
    {
        assert(bytes@.take(i + 1).drop_last() =~= bytes@.take(i as int));
        h = (h ^ (bytes[i] as u64)).wrapping_mul(0x0000_0100_0000_01b3);
        i += 1;
    }
    assert(bytes@.take(i as int) =~= bytes@);
    h
}

/// The lowercase hexadecimal digit of `d`.
pub open spec fn hex_char(d: nat) -> char {
    if d < 10 {
        ((48 + d) as u8) as char
    } else {
        ((87 + d) as u8) as char
    }
}

/// The last `n` hexadecimal digits of `v`, most significant first.
pub open spec fn hex_digits(v: nat, n: nat) -> Seq<char>
    decreases n,
{
    if n == 0 {
        seq![]
    } else {
        hex_digits(v / 16, (n - 1) as nat).push(hex_char(v % 16))
    }
}

fn hex_chars(v: u64, n: usize) -> (r: Vec<char>)
    ensures
        r@ == hex_digits(v as nat, n as nat),
    decreases n,
{
    if n == 0 {
        return Vec::new();
    }
    let mut r = hex_chars(v / 16, n - 1);
    let d = (v % 16) as u8;
    let c = if d < 10 {
        (48u8 + d) as char
    } else {
        (87u8 + d) as char
    };
    r.push(c);
    r
}

/// The running digest of the files a generator has read.
pub struct Extractor {
    pub digest: u64,
}

impl Extractor {
    pub fn new() -> (r: Extractor)
        ensures
            r.digest == fnv_offset(),
    {
        Extractor { digest: 0xcbf2_9ce4_8422_2325 }
    }

    /// Takes in a file read at `relative`: its path, then its contents.
    pub fn record(&mut self, relative: &str, text: &str)
        ensures
            final(self).digest == fnv(fnv(old(self).digest, encode_utf8(relative@)), encode_utf8(text@)),
    {
        self.digest = fnv_update(self.digest, relative.as_bytes());
        self.digest = fnv_update(self.digest, text.as_bytes());
    }

    /// Takes in the relative path of a file that is listed but not read.
    pub fn record_path(&mut self, relative: &str)
        ensures
            final(self).digest == fnv(old(self).digest, encode_utf8(relative@)),
    {
        self.digest = fnv_update(self.digest, relative.as_bytes());
    }

    /// The digest text: `fnv1a64:` and sixteen lowercase hex digits.
    pub fn finish(&self) -> (r: String)
        ensures
            r@ == "fnv1a64:"@ + hex_digits(self.digest as nat, 16),
    {
        let mut r = "fnv1a64:".to_owned();
        let digits = hex_chars(self.digest, 16);
        let mut i: usize = 0;
        let ghost head = r@;
        while i < digits.len()
            invariant
                i <= digits@.len(),
                r@ == head + digits@.take(i as int),
            decreases digits.len() - i,
        {
            crate::chars::push_char(&mut r, digits[i]);
            i += 1;
            assert(r@ =~= head + digits@.take(i as int));
        }
        assert(digits@.take(i as int) =~= digits@);
        r
    }
}

} // verus!
