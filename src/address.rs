//! Hardware (MAC) addresses.

use vstd::prelude::*;

verus! {

broadcast use vstd::string::is_ascii_spec_bytes;

/// Why an address string was refused.
#[derive(Clone, Copy, Debug, PartialEq, Eq, Structural)]
pub enum AddressError {
    InvalidFormat,
}

/// A 48-bit Ethernet hardware address.
#[derive(Clone, Copy, Debug, Hash)]
pub struct MacAddress {
    bytes: [u8; 6],
}

impl PartialEq for MacAddress {
    fn eq(&self, other: &MacAddress) -> (r: bool) {
        let a = &self.bytes;
        let b = &other.bytes;
        let r = a[0] == b[0] && a[1] == b[1] && a[2] == b[2] && a[3] == b[3] && a[4] == b[4] && a[5]
            == b[5];
        assert(r ==> a@ =~= b@);
        r
    }
}

impl vstd::std_specs::cmp::PartialEqSpecImpl for MacAddress {
    open spec fn obeys_eq_spec() -> bool {
        true
    }

    open spec fn eq_spec(&self, other: &MacAddress) -> bool {
        self@ == other@
    }
}

impl Eq for MacAddress {

}

/// The vendor prefix given to every generated address.
pub open spec fn vendor_prefix() -> Seq<u8> {
    seq![0x00u8, 0x11u8, 0x22u8]
}

pub open spec fn is_hex_digit(c: char) -> bool {
    ('0' <= c <= '9') || ('a' <= c <= 'f') || ('A' <= c <= 'F')
}

pub open spec fn hex_value(c: char) -> nat {
    if '0' <= c <= '9' {
        (c as u32 - '0' as u32) as nat
    } else if 'a' <= c <= 'f' {
        (c as u32 - 'a' as u32 + 10) as nat
    } else {
        (c as u32 - 'A' as u32 + 10) as nat
    }
}

pub open spec fn is_mac_separator(c: char) -> bool {
    c == ':' || c == '-'
}

/// Six groups of two hex digits, each pair of groups split by `:` or `-`.
pub open spec fn is_mac_text(s: Seq<char>) -> bool {
    &&& s.len() == 17
    &&& forall|i: int| 0 <= i < 6 ==> is_hex_digit(#[trigger] s[3 * i]) && is_hex_digit(s[3 * i + 1])
    &&& forall|i: int| 0 <= i < 5 ==> is_mac_separator(#[trigger] s[3 * i + 2])
}

/// The octet that the `i`-th group of a MAC text stands for.
pub open spec fn mac_text_octet(s: Seq<char>, i: int) -> u8 {
    (hex_value(s[3 * i]) * 16 + hex_value(s[3 * i + 1])) as u8
}

/// The six octets that a MAC text stands for.
pub open spec fn mac_text_bytes(s: Seq<char>) -> Seq<u8> {
    Seq::new(6, |i: int| mac_text_octet(s, i))
}

fn hex_digit_value(b: u8) -> (r: Option<u8>)
    ensures
        r is Some <==> is_hex_digit(b as char),
        r is Some ==> r->0 as nat == hex_value(b as char) && r->0 < 16,
{
    if 0x30 <= b && b <= 0x39 {
        Some(b - 0x30)
    } else if 0x61 <= b && b <= 0x66 {
        Some(b - 0x61 + 10)
    } else if 0x41 <= b && b <= 0x46 {
        Some(b - 0x41 + 10)
    } else {
        None
    }
}

impl View for MacAddress {
    type V = Seq<u8>;

    closed spec fn view(&self) -> Seq<u8> {
        self.bytes@
    }
}

impl MacAddress {
    /// Parses six colon- or hyphen-separated groups of two hex digits.
    pub fn parse(s: &str) -> (r: Result<MacAddress, AddressError>)
        ensures
            r is Ok <==> is_mac_text(s@),
            r is Ok ==> r->Ok_0@ == mac_text_bytes(s@),
            r is Err ==> r->Err_0 == AddressError::InvalidFormat,
    {
        if !s.is_ascii() {
            proof {
                if is_mac_text(s@) {
                    lemma_mac_text_is_ascii(s@);
                }
            }
            return Err(AddressError::InvalidFormat);
        }
        let b = s.as_bytes();
        if b.len() != 17 {
            return Err(AddressError::InvalidFormat);
        }
        assert(forall|k: int| 0 <= k < 17 ==> (b@[k] as char) == s@[k]);
        let mut out: [u8; 6] = [0u8; 6];
        let mut i: usize = 0;
        while i < 6
            invariant
                0 <= i <= 6,
                b@.len() == 17,
                s@.len() == 17,
                forall|k: int| 0 <= k < 17 ==> (b@[k] as char) == s@[k],
                forall|j: int| 0 <= j < i ==> is_hex_digit(#[trigger] s@[3 * j]) && is_hex_digit(s@[3 * j + 1]),
                forall|j: int| 0 <= j < i && j < 5 ==> is_mac_separator(#[trigger] s@[3 * j + 2]),
                forall|j: int| 0 <= j < i ==> out@[j] == #[trigger] mac_text_octet(s@, j),
            decreases 6 - i,
        {
            assert(b@[3 * i as int] as char == s@[3 * i as int]);
            assert(b@[3 * i as int + 1] as char == s@[3 * i as int + 1]);
            assert(i < 5 ==> b@[3 * i as int + 2] as char == s@[3 * i as int + 2]);
            let hi = hex_digit_value(b[3 * i]);
            let lo = hex_digit_value(b[3 * i + 1]);
            match (hi, lo) {
                (Some(h), Some(l)) => {
                    out[i] = h * 16 + l;
                },
                _ => {
                    assert(!is_hex_digit(s@[3 * i as int]) || !is_hex_digit(s@[3 * i as int + 1]));
                    return Err(AddressError::InvalidFormat);
                },
            }
            if i < 5 {
                let sep = b[3 * i + 2];
                if sep != 0x3A && sep != 0x2D {
                    assert(!is_mac_separator(s@[3 * i as int + 2]));
                    return Err(AddressError::InvalidFormat);
                }
            }
            i = i + 1;
        }
        let r = MacAddress { bytes: out };
        assert(r@ =~= mac_text_bytes(s@));
        Ok(r)
    }

    /// Parses an owned address string; see [`MacAddress::parse`].
    pub fn new(address: String) -> (r: Result<MacAddress, AddressError>)
        ensures
            r is Ok <==> is_mac_text(address@),
            r is Ok ==> r->Ok_0@ == mac_text_bytes(address@),
            r is Err ==> r->Err_0 == AddressError::InvalidFormat,
    {
        MacAddress::parse(address.as_str())
    }

    /// The address built from six raw octets.
    pub fn from_bytes(bytes: [u8; 6]) -> (r: MacAddress)
        ensures
            r@ == bytes@,
    {
        MacAddress { bytes }
    }

    /// An address under the fixed vendor prefix with three random octets.
    pub fn random() -> (r: MacAddress)
        ensures
            r@.len() == 6,
            r@.subrange(0, 3) == vendor_prefix(),
    {
        let a: u8 = rand::random::<u8>();
        let b: u8 = rand::random::<u8>();
        let c: u8 = rand::random::<u8>();
        let r = MacAddress { bytes: [0x00u8, 0x11u8, 0x22u8, a, b, c] };
        assert(r@.subrange(0, 3) =~= vendor_prefix());
        r
    }

    /// Whether every octet is `0xFF`.
    pub fn is_broadcast(&self) -> (r: bool)
        ensures
            r == (self@ == broadcast_bytes()),
    {
        let mut i: usize = 0;
        while i < 6
            invariant
                0 <= i <= 6,
                self@.len() == 6,
                forall|j: int| 0 <= j < i ==> self@[j] == 0xFFu8,
            decreases 6 - i,
        {
            if self.bytes[i] != 0xFF {
                assert(self@[i as int] != broadcast_bytes()[i as int]);
                return false;
            }
            i = i + 1;
        }
        assert(self@ =~= broadcast_bytes());
        true
    }

    /// The all-ones broadcast address.
    pub fn broadcast() -> (r: MacAddress)
        ensures
            r@ == broadcast_bytes(),
    {
        let r = MacAddress { bytes: [0xFFu8; 6] };
        assert(r@ =~= broadcast_bytes());
        r
    }

    /// The all-zero address, standing for a hardware address not yet known.
    pub fn zero() -> (r: MacAddress)
        ensures
            r@ == Seq::new(6, |i: int| 0u8),
    {
        let r = MacAddress { bytes: [0u8; 6] };
        assert(r@ =~= Seq::new(6, |i: int| 0u8));
        r
    }

    /// The six octets in transmission order.
    pub fn to_bytes(&self) -> (r: [u8; 6])
        ensures
            r@ == self@,
    {
        self.bytes
    }

    /// Every address has six octets.
    pub proof fn lemma_len(&self)
        ensures
            self@.len() == 6,
    {
    }
}

proof fn lemma_mac_text_is_ascii(s: Seq<char>)
    requires
        is_mac_text(s),
    ensures
        vstd::utf8::is_ascii_chars(s),
{
    assert forall|k: int| 0 <= k < s.len() implies '\0' <= #[trigger] s[k] <= '\u{7f}' by {
        let i = k / 3;
        assert(0 <= i < 6 && 0 <= k - 3 * i < 3);
        if k % 3 == 2 {
            assert(is_mac_separator(s[3 * i + 2]));
        } else if k % 3 == 0 {
            assert(is_hex_digit(s[3 * i]));
        } else {
            assert(k == 3 * i + 1);
            assert(is_hex_digit(s[3 * i]) && is_hex_digit(s[3 * i + 1]));
        }
    }
}

pub open spec fn broadcast_bytes() -> Seq<u8> {
    Seq::new(6, |i: int| 0xFFu8)
}

/// Relies on rand::random, which draws from the thread-local generator:
/// nothing is promised of the value.
pub assume_specification<T>[ rand::random::<T> ]() -> (r: T)
    where
        rand::distributions::Standard: rand::distributions::Distribution<T>,
;

} // verus!
