use vstd::prelude::*;

use crate::prefix::{mask_of, valid_prefix, Ipv6Net};
use sha2::Digest;

verus! {

/// The raw address of a client, by family.
#[derive(Debug, Clone, Copy, PartialEq, Eq)]
pub enum IpBytes {
    V4([u8; 4]),
    V6([u8; 16]),
}

/// A client's socket address: its raw address and its ephemeral port.
#[derive(Debug, Clone, Copy, PartialEq, Eq)]
pub struct ClientAddr {
    pub ip: IpBytes,
    pub port: u16,
}

/// The bytes that are hashed for a client: a family tag (4 or 6) followed
/// by the raw address. The port takes no part.
pub open spec fn hash_input_of(ip: IpBytes) -> Seq<u8> {
    match ip {
        IpBytes::V4(a) => seq![4u8] + a@,
        IpBytes::V6(a) => seq![6u8] + a@,
    }
}

/// SHA-256 of a byte sequence.
pub uninterp spec fn sha256_of(data: Seq<u8>) -> Seq<u8>;

/// The unsigned integer that `bytes` spell in big-endian order.
pub open spec fn be_value(bytes: Seq<u8>) -> nat
    decreases bytes.len(),
{
    if bytes.len() == 0 {
        0
    } else {
        be_value(bytes.drop_last()) * 256 + bytes.last() as nat
    }
}

/// `256` to the power `n`.
pub open spec fn pow256(n: nat) -> nat
    decreases n,
{
    if n == 0 {
        1
    } else {
        pow256((n - 1) as nat) * 256
    }
}

/// The first 128 bits of a digest, read big-endian.
pub open spec fn digest_head(digest: Seq<u8>) -> u128 {
    be_value(digest.subrange(0, 16)) as u128
}

/// The source address for hash value `h` in the network `addr/len`: the
/// network bits from the prefix, the host bits from `h`.
pub open spec fn source_of(addr: u128, len: u8, h: u128) -> u128 {
    addr | (h & !mask_of(len))
}

/// The source address derived for `client` inside `net`.
pub open spec fn derived_source(client: ClientAddr, net: Ipv6Net) -> u128 {
    source_of(net.network(), net.len(), digest_head(sha256_of(hash_input_of(client.ip))))
}

/// Relies on sha2's `Sha256::digest`: the 32-byte SHA-256 digest of the
/// input, a function of the input alone.
#[verifier::external_body]
fn sha256(data: &Vec<u8>) -> (r: Vec<u8>)
    ensures
        r@ == sha256_of(data@),
        r@.len() == 32,
{
    sha2::Sha256::digest(data.as_slice()).to_vec()
}

proof fn lemma_be_value_bound(bytes: Seq<u8>)
    ensures
        be_value(bytes) < pow256(bytes.len()),
    decreases bytes.len(),
{
    if bytes.len() > 0 {
        let rest = bytes.drop_last();
        lemma_be_value_bound(rest);
        let v = be_value(rest);
        let p = pow256(rest.len());
        let b = bytes.last() as nat;
        assert(v * 256 + b < p * 256) by (nonlinear_arith)
            requires
                v < p,
                b < 256,
        ;
    }
}

/// The hashed bytes for a client address.
pub fn hash_input(ip: &IpBytes) -> (r: Vec<u8>)
    ensures
        r@ == hash_input_of(*ip),
{
    let mut out: Vec<u8> = Vec::new();
    match ip {
        IpBytes::V4(a) => {
            out.push(4u8);
            for i in 0..4
                invariant
                    out@ == seq![4u8] + a@.subrange(0, i as int),
            {
                out.push(a[i]);
                assert(a@.subrange(0, i + 1) == a@.subrange(0, i as int).push(a@[i as int]));
            }
            assert(a@.subrange(0, 4) == a@);
        },
        IpBytes::V6(a) => {
            out.push(6u8);
            for i in 0..16
                invariant
                    out@ == seq![6u8] + a@.subrange(0, i as int),
            {
                out.push(a[i]);
                assert(a@.subrange(0, i + 1) == a@.subrange(0, i as int).push(a@[i as int]));
            }
            assert(a@.subrange(0, 16) == a@);
        },
    }
    out
}

/// Reads the first 16 bytes of `bytes` as a big-endian 128-bit integer.
pub fn u128_from_be_head(bytes: &Vec<u8>) -> (r: u128)
    requires
        bytes@.len() >= 16,
    ensures
        r == digest_head(bytes@),
{
    let mut acc: u128 = 0;
    let mut i: usize = 0;
    assert(pow256(16) == 0x1_0000_0000_0000_0000_0000_0000_0000_0000) by {
        reveal_with_fuel(pow256, 17);
    }
    while i < 16
        invariant
            i <= 16,
            bytes@.len() >= 16,
            acc as nat == be_value(bytes@.subrange(0, i as int)),
            pow256(16) == 0x1_0000_0000_0000_0000_0000_0000_0000_0000,
        decreases 16 - i,
    {
        let ghost prev = bytes@.subrange(0, i as int);
        let ghost next = bytes@.subrange(0, i + 1);
        assert(next.drop_last() == prev);
        proof {
            lemma_be_value_bound(next);
            lemma_pow256_mono((i + 1) as nat, 16);
        }
        acc = acc * 256 + bytes[i] as u128;
        i = i + 1;
    }
    acc
}

proof fn lemma_pow256_mono(a: nat, b: nat)
    requires
        a <= b,
    ensures
        pow256(a) <= pow256(b),
    decreases b - a,
{
    if a < b {
        lemma_pow256_mono(a, (b - 1) as nat);
    }
}

/// The source address for a digest inside `net`: the network bits of `net`
/// with the host bits taken from the first 128 bits of the digest.
pub fn source_from_digest(net: &Ipv6Net, digest: &Vec<u8>) -> (r: u128)
    requires
        digest@.len() >= 16,
    ensures
        r == source_of(net.network(), net.len(), digest_head(digest@)),
        r & net.mask() == net.network(),
{
    let h = u128_from_be_head(digest);
    let addr = net.addr();
    let len = net.prefix_len();
    let m = net.subnet_mask();
    let r = addr | (h & !m);
    proof { lemma_source_in_prefix(addr, len, h); }
    r
}

/// Derives the source address for `client` inside `net`. The result lies in
/// `net` and depends on the client's raw address only.
pub fn derive_source_addr(client: &ClientAddr, net: &Ipv6Net) -> (r: u128)
    ensures
        r == derived_source(*client, *net),
        r & net.mask() == net.network(),
{
    let input = hash_input(&client.ip);
    let digest = sha256(&input);
    source_from_digest(net, &digest)
}

/// A source address built from a valid prefix lies in that prefix: its
/// bits under the mask are exactly the network address.
pub proof fn lemma_source_in_prefix(addr: u128, len: u8, h: u128)
    requires
        valid_prefix(addr, len),
    ensures
        source_of(addr, len, h) & mask_of(len) == addr,
{
    let m = mask_of(len);
    assert((addr | (h & !m)) & m == addr) by (bit_vector)
        requires
            addr & !m == 0,
    ;
}

/// Every address derived inside a valid prefix lies in that prefix.
pub proof fn lemma_derived_in_prefix(client: ClientAddr, net: Ipv6Net)
    requires
        valid_prefix(net.network(), net.len()),
    ensures
        derived_source(client, net) & net.mask() == net.network(),
{
    lemma_source_in_prefix(
        net.network(),
        net.len(),
        digest_head(sha256_of(hash_input_of(client.ip))),
    );
}

/// Two clients with the same raw address get the same source address,
/// whatever their ports: the derivation is a function of the address alone.
pub proof fn lemma_same_address_same_source(c1: ClientAddr, c2: ClientAddr, net: Ipv6Net)
    requires
        c1.ip == c2.ip,
    ensures
        derived_source(c1, net) == derived_source(c2, net),
{
}

} // verus!
