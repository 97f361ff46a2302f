use vstd::prelude::*;

verus! {

/// The mask whose top `len` bits are set and whose other bits are clear.
pub open spec fn mask_of(len: u8) -> u128 {
    if len == 0 {
        0
    } else {
        u128::MAX << ((128 - len) as u128)
    }
}

/// Bit `i` (counted from the least significant end) of the mask of a
/// prefix of length `len` is set exactly when `i` is among the top `len`
/// bits.
pub proof fn lemma_mask_bits(len: u8, i: u128)
    requires
        len <= 128,
        i < 128,
    ensures
        ((mask_of(len) >> i) & 1 == 1) == (i + len >= 128),
{
    assert(((if len == 0 { 0u128 } else { u128::MAX << ((128 - len) as u128) }) >> i) & 1 == 1 <==> i
        + len >= 128) by (bit_vector)
        requires
            len <= 128,
            i < 128,
    ;
}

/// `addr` is the network address of a prefix of length `len`: the length
/// fits and every host bit of `addr` is clear.
pub open spec fn valid_prefix(addr: u128, len: u8) -> bool {
    &&& len <= 128
    &&& addr & !mask_of(len) == 0
}

/// Why a prefix was refused.
#[derive(Debug, Clone, Copy, PartialEq, Eq, Structural)]
pub enum PrefixError {
    /// The prefix length is above 128.
    InvalidPrefixLength,
    /// A host bit of the address is set.
    NonCanonicalAddress,
}

/// An IPv6 network: a network address (as a 128-bit integer) and a prefix
/// length. Every value is valid in the sense of `valid_prefix`.
#[derive(Debug, Clone, Copy)]
pub struct Ipv6Net {
    addr: u128,
    prefix_len: u8,
}

impl Ipv6Net {
    #[verifier::type_invariant]
    spec fn inv(self) -> bool {
        valid_prefix(self.addr, self.prefix_len)
    }

    /// The network address.
    pub closed spec fn network(self) -> u128 {
        self.addr
    }

    /// The prefix length.
    pub closed spec fn len(self) -> u8 {
        self.prefix_len
    }

    /// The mask of this network's prefix bits.
    pub open spec fn mask(self) -> u128 {
        mask_of(self.len())
    }

    /// Builds the network `addr/prefix_len`, refusing a length above 128 and
    /// an address with a host bit set.
    pub fn from_addr_prefix(addr: u128, prefix_len: u8) -> (r: Result<Ipv6Net, PrefixError>)
        ensures
            prefix_len > 128 <==> r == Err::<Ipv6Net, PrefixError>(PrefixError::InvalidPrefixLength),
            r == Err::<Ipv6Net, PrefixError>(PrefixError::NonCanonicalAddress) <==> (prefix_len
                <= 128 && !valid_prefix(addr, prefix_len)),
            r is Ok <==> valid_prefix(addr, prefix_len),
            r matches Ok(n) ==> n.network() == addr && n.len() == prefix_len,
    {
        if prefix_len > 128 {
            return Err(PrefixError::InvalidPrefixLength);
        }
        let host = !mask_for(prefix_len);
        if addr & host != 0 {
            return Err(PrefixError::NonCanonicalAddress);
        }
        Ok(Ipv6Net { addr, prefix_len })
    }

    /// The network address.
    pub fn addr(&self) -> (r: u128)
        ensures
            r == self.network(),
            valid_prefix(r, self.len()),
    {
        proof { use_type_invariant(self); }
        self.addr
    }

    /// The prefix length.
    pub fn prefix_len(&self) -> (r: u8)
        ensures
            r == self.len(),
            valid_prefix(self.network(), r),
    {
        proof { use_type_invariant(self); }
        self.prefix_len
    }

    /// The mask of the upper `prefix_len` bits: all ones for a length of
    /// 128, all zeros for a length of 0.
    pub fn subnet_mask(&self) -> (r: u128)
        ensures
            r == self.mask(),
            self.len() == 128 ==> r == u128::MAX,
            self.len() == 0 ==> r == 0,
    {
        proof {
            use_type_invariant(self);
            assert(u128::MAX << 0u128 == u128::MAX) by (bit_vector);
        }
        mask_for(self.prefix_len)
    }

    /// Whether `addr` lies in this network.
    pub fn contains_addr(&self, addr: u128) -> (r: bool)
        ensures
            r == (addr & self.mask() == self.network()),
    {
        addr & self.subnet_mask() == self.addr
    }
}

/// The mask of the top `len` bits, with the zero length taken apart so that
/// no shift reaches the full width.
fn mask_for(len: u8) -> (r: u128)
    requires
        len <= 128,
    ensures
        r == mask_of(len),
{
    if len == 0 {
        0
    } else {
        u128::MAX << (128 - len)
    }
}

} // verus!
