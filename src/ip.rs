//! Network-layer (IPv4 and IPv6) addresses.

use crate::address::AddressError;
use vstd::prelude::*;

verus! {

broadcast use vstd::string::is_ascii_spec_bytes;

/// An IPv4 address as four octets, most significant first.
#[derive(Clone, Copy, Debug, Hash)]
pub struct Ipv4Addr {
    pub octets: [u8; 4],
}

impl PartialEq for Ipv4Addr {
    fn eq(&self, other: &Ipv4Addr) -> (r: bool) {
        let a = &self.octets;
        let b = &other.octets;
        let r = a[0] == b[0] && a[1] == b[1] && a[2] == b[2] && a[3] == b[3];
        assert(r ==> a@ =~= b@);
        r
    }
}

impl vstd::std_specs::cmp::PartialEqSpecImpl for Ipv4Addr {
    open spec fn obeys_eq_spec() -> bool {
        true
    }

    open spec fn eq_spec(&self, other: &Ipv4Addr) -> bool {
        self.octets@ == other.octets@
    }
}

impl Eq for Ipv4Addr {

}

pub open spec fn is_digit(c: char) -> bool {
    '0' <= c <= '9'
}

pub open spec fn all_digits(f: Seq<char>) -> bool {
    forall|i: int| 0 <= i < f.len() ==> is_digit(#[trigger] f[i])
}

/// The number that a run of decimal digits stands for.
pub open spec fn dec_value(f: Seq<char>) -> nat
    decreases f.len(),
{
    if f.len() == 0 {
        0
    } else {
        dec_value(f.drop_last()) * 10 + (f.last() as u32 - '0' as u32) as nat
    }
}

/// The fields of a text between its dots, in order.
pub open spec fn split_dots(s: Seq<char>) -> Seq<Seq<char>>
    decreases s.len(),
{
    if s.len() == 0 {
        seq![Seq::<char>::empty()]
    } else {
        let f = split_dots(s.drop_last());
        if s.last() == '.' {
            f.push(Seq::<char>::empty())
        } else {
            f.update(f.len() - 1, f.last().push(s.last()))
        }
    }
}

/// One to three decimal digits whose value fits an octet.
pub open spec fn is_octet_text(f: Seq<char>) -> bool {
    1 <= f.len() <= 3 && all_digits(f) && dec_value(f) <= 255
}

/// Four dot-separated decimal octets.
pub open spec fn is_ipv4_text(s: Seq<char>) -> bool {
    let f = split_dots(s);
    f.len() == 4 && forall|k: int| 0 <= k < 4 ==> is_octet_text(#[trigger] f[k])
}

/// The octets that an IPv4 text stands for.
pub open spec fn ipv4_text_octets(s: Seq<char>) -> Seq<u8> {
    Seq::new(4, |k: int| dec_value(split_dots(s)[k]) as u8)
}

/// The decimal text of an octet, without leading zeros.
pub open spec fn dec_text(n: u8) -> Seq<char> {
    if n >= 100 {
        seq![digit_char(n / 100), digit_char((n / 10) % 10), digit_char(n % 10)]
    } else if n >= 10 {
        seq![digit_char(n / 10), digit_char(n % 10)]
    } else {
        seq![digit_char(n)]
    }
}

pub open spec fn digit_char(d: u8) -> char {
    if d == 0 { '0' }
    else if d == 1 { '1' }
    else if d == 2 { '2' }
    else if d == 3 { '3' }
    else if d == 4 { '4' }
    else if d == 5 { '5' }
    else if d == 6 { '6' }
    else if d == 7 { '7' }
    else if d == 8 { '8' }
    else { '9' }
}

/// The dotted-decimal text of four octets.
pub open spec fn ipv4_text(o: Seq<u8>) -> Seq<char> {
    dec_text(o[0]) + seq!['.'] + dec_text(o[1]) + seq!['.'] + dec_text(o[2]) + seq!['.'] + dec_text(
        o[3],
    )
}

/// The octets as one big-endian 32-bit number.
pub open spec fn octets_key(o: Seq<u8>) -> u32 {
    ((o[0] as int) * 0x0100_0000 + (o[1] as int) * 0x0001_0000 + (o[2] as int) * 0x0100 + (
    o[3] as int)) as u32
}

proof fn lemma_split_nonempty(s: Seq<char>)
    ensures
        split_dots(s).len() >= 1,
    decreases s.len(),
{
    if s.len() > 0 {
        lemma_split_nonempty(s.drop_last());
    }
}

/// A text whose fields are all digits holds only ASCII.
proof fn lemma_digit_fields_ascii(s: Seq<char>)
    requires
        forall|k: int| 0 <= k < split_dots(s).len() ==> all_digits(#[trigger] split_dots(s)[k]),
    ensures
        vstd::utf8::is_ascii_chars(s),
    decreases s.len(),
{
    if s.len() > 0 {
        let p = s.drop_last();
        let f = split_dots(p);
        lemma_split_nonempty(p);
        let g = split_dots(s);
        if s.last() == '.' {
            assert forall|k: int| 0 <= k < f.len() implies all_digits(#[trigger] f[k]) by {
                assert(g[k] == f[k]);
            }
        } else {
            assert forall|k: int| 0 <= k < f.len() implies all_digits(#[trigger] f[k]) by {
                if k == f.len() - 1 {
                    assert(all_digits(g[k]));
                    assert forall|i: int| 0 <= i < f[k].len() implies is_digit(#[trigger] f[k][i]) by {
                        assert(g[k][i] == f[k][i]);
                    }
                } else {
                    assert(g[k] == f[k]);
                }
            }
            let last = g[f.len() - 1];
            assert(all_digits(last));
            assert(last[last.len() - 1] == s.last());
        }
        lemma_digit_fields_ascii(p);
        assert forall|i: int| 0 <= i < s.len() implies '\0' <= #[trigger] s[i] <= '\u{7f}' by {
            if i < p.len() {
                assert(s[i] == p[i]);
            }
        }
    }
}

fn digit_str(d: u8) -> (r: &'static str)
    requires
        d < 10,
    ensures
        r@ == seq![digit_char(d)],
{
    proof {
        reveal_strlit("0");
        reveal_strlit("1");
        reveal_strlit("2");
        reveal_strlit("3");
        reveal_strlit("4");
        reveal_strlit("5");
        reveal_strlit("6");
        reveal_strlit("7");
        reveal_strlit("8");
        reveal_strlit("9");
    }
    if d == 0 {
        "0"
    } else if d == 1 {
        "1"
    } else if d == 2 {
        "2"
    } else if d == 3 {
        "3"
    } else if d == 4 {
        "4"
    } else if d == 5 {
        "5"
    } else if d == 6 {
        "6"
    } else if d == 7 {
        "7"
    } else if d == 8 {
        "8"
    } else {
        "9"
    }
}

fn append_octet(s: &mut String, n: u8)
    ensures
        final(s)@ == old(s)@ + dec_text(n),
{
    if n >= 100 {
        s.append(digit_str(n / 100));
        s.append(digit_str((n / 10) % 10));
        s.append(digit_str(n % 10));
    } else if n >= 10 {
        s.append(digit_str(n / 10));
        s.append(digit_str(n % 10));
    } else {
        s.append(digit_str(n));
    }
    assert(final(s)@ =~= old(s)@ + dec_text(n));
}

impl Ipv4Addr {
    /// Parses four dot-separated decimal octets, each 0 to 255.
    pub fn new(value: &str) -> (r: Result<Ipv4Addr, AddressError>)
        ensures
            r is Ok <==> is_ipv4_text(value@),
            r is Ok ==> r->Ok_0.octets@ == ipv4_text_octets(value@),
            r is Err ==> r->Err_0 == AddressError::InvalidFormat,
    {
        if !value.is_ascii() {
            proof {
                if is_ipv4_text(value@) {
                    let f = split_dots(value@);
                    assert forall|k: int| 0 <= k < f.len() implies all_digits(#[trigger] f[k]) by {
                        assert(is_octet_text(f[k]));
                    }
                    lemma_digit_fields_ascii(value@);
                }
            }
            return Err(AddressError::InvalidFormat);
        }
        let b = value.as_bytes();
        let ghost s = value@;
        assert(forall|k: int| 0 <= k < s.len() ==> (b@[k] as char) == s[k]);
        let mut octets: [u8; 4] = [0u8; 4];
        // number of dots seen so far
        let mut dots: usize = 0;
        // every finished field is an octet, and there are at most three
        let mut ok: bool = true;
        // the field being read: its length, whether it is all digits, and its value
        let mut cur_len: usize = 0;
        let mut cur_digits: bool = true;
        let mut cur_val: u32 = 0;
        let mut i: usize = 0;
        while i < b.len()
            invariant
                0 <= i <= b@.len(),
                b@.len() == s.len(),
                forall|k: int| 0 <= k < s.len() ==> (b@[k] as char) == s[k],
                split_dots(s.subrange(0, i as int)).len() == dots + 1,
                dots <= i,
                ok == (dots <= 3 && forall|k: int|
                    0 <= k < dots ==> is_octet_text(#[trigger] split_dots(s.subrange(0, i as int))[k])),
                ok ==> forall|k: int|
                    0 <= k < dots ==> octets@[k] == dec_value(
                        #[trigger] split_dots(s.subrange(0, i as int))[k],
                    ),
                cur_len == split_dots(s.subrange(0, i as int))[dots as int].len(),
                cur_digits == all_digits(split_dots(s.subrange(0, i as int))[dots as int]),
                cur_len <= 3 && cur_digits ==> cur_val == dec_value(
                    split_dots(s.subrange(0, i as int))[dots as int],
                ),
                cur_digits ==> (cur_len <= 3 ==> cur_val < 1000) && (cur_len <= 2 ==> cur_val
                    < 100) && (cur_len <= 1 ==> cur_val < 10) && (cur_len == 0 ==> cur_val == 0),
                cur_len <= i,
            decreases b@.len() - i,
        {
            let ghost p = s.subrange(0, i as int);
            let ghost q = s.subrange(0, i + 1);
            assert(q.drop_last() =~= p);
            assert(q.last() == s[i as int]);
            let c = b[i];
            if c == 0x2E {
                let field_ok = cur_digits && 1 <= cur_len && cur_len <= 3 && cur_val <= 255;
                if ok && field_ok && dots < 3 {
                    octets[dots] = cur_val as u8;
                }
                ok = ok && field_ok && dots < 3;
                dots = dots + 1;
                cur_len = 0;
                cur_digits = true;
                cur_val = 0;
                proof {
                    let fp = split_dots(p);
                    let fq = split_dots(q);
                    assert(fq == fp.push(Seq::<char>::empty()));
                    assert(forall|k: int| 0 <= k < dots ==> fq[k] == fp[k]);
                    assert(field_ok == is_octet_text(fp[dots - 1]));
                    assert(all_digits(fq[dots as int]));
                }
            } else {
                let is_d = 0x30 <= c && c <= 0x39;
                if cur_len < 3 && cur_digits && is_d {
                    cur_val = cur_val * 10 + (c - 0x30) as u32;
                }
                cur_len = cur_len + 1;
                cur_digits = cur_digits && is_d;
                proof {
                    let fp = split_dots(p);
                    let fq = split_dots(q);
                    let d = dots as int;
                    assert(fq == fp.update(d, fp[d].push(s[i as int])));
                    assert(fq[d].drop_last() =~= fp[d]);
                    assert(forall|k: int| 0 <= k < d ==> fq[k] == fp[k]);
                    if all_digits(fq[d]) {
                        assert forall|j: int| 0 <= j < fp[d].len() implies is_digit(#[trigger] fp[d][j]) by {
                            assert(fq[d][j] == fp[d][j]);
                        }
                        assert(is_digit(fq[d][fp[d].len() as int]));
                    }
                    if all_digits(fp[d]) && is_d {
                        assert forall|j: int| 0 <= j < fq[d].len() implies is_digit(#[trigger] fq[d][j]) by {
                            if j < fp[d].len() {
                                assert(fq[d][j] == fp[d][j]);
                            }
                        }
                    }
                }
            }
            i = i + 1;
        }
        assert(s.subrange(0, s.len() as int) =~= s);
        let last_ok = cur_digits && 1 <= cur_len && cur_len <= 3 && cur_val <= 255;
        if ok && dots == 3 && last_ok {
            octets[3] = cur_val as u8;
            let r = Ipv4Addr { octets };
            assert(r.octets@ =~= ipv4_text_octets(s));
            Ok(r)
        } else {
            proof {
                let f = split_dots(s);
                if is_ipv4_text(s) {
                    assert(is_octet_text(f[dots as int]));
                    assert(forall|k: int| 0 <= k < dots ==> is_octet_text(#[trigger] f[k]));
                }
            }
            Err(AddressError::InvalidFormat)
        }
    }

    /// The dotted-decimal text of the address.
    pub fn to_string(&self) -> (r: String)
        ensures
            r@ == ipv4_text(self.octets@),
    {
        let mut s = String::new();
        append_octet(&mut s, self.octets[0]);
        s.append(".");
        append_octet(&mut s, self.octets[1]);
        s.append(".");
        append_octet(&mut s, self.octets[2]);
        s.append(".");
        append_octet(&mut s, self.octets[3]);
        proof {
            reveal_strlit(".");
        }
        assert(s@ =~= ipv4_text(self.octets@));
        s
    }

    /// The network address under : each octet and-ed with the mask's.
    pub fn get_network_address(&self, subnet_mask: &Ipv4Addr) -> (r: Ipv4Addr)
        ensures
            forall|k: int| 0 <= k < 4 ==> #[trigger] r.octets@[k] == self.octets@[k] & subnet_mask.octets@[k],
    {
        let a = &self.octets;
        let m = &subnet_mask.octets;
        Ipv4Addr { octets: [a[0] & m[0], a[1] & m[1], a[2] & m[2], a[3] & m[3]] }
    }

    /// The four octets in transmission order.
    pub fn to_bytes(&self) -> (r: [u8; 4])
        ensures
            r@ == self.octets@,
    {
        self.octets
    }

    /// The address as one big-endian 32-bit number.
    pub fn to_u32(&self) -> (r: u32)
        ensures
            r == octets_key(self.octets@),
    {
        let o = &self.octets;
        assert(0 <= (o[0] as int) * 0x0100_0000 + (o[1] as int) * 0x0001_0000 + (o[2] as int) * 0x0100
            + (o[3] as int) <= 0xFFFF_FFFF) by (nonlinear_arith)
            requires
                o[0] < 256,
                o[1] < 256,
                o[2] < 256,
                o[3] < 256,
        ;
        (o[0] as u32) * 0x0100_0000 + (o[1] as u32) * 0x0001_0000 + (o[2] as u32) * 0x0100 + (o[3] as u32)
    }
}

/// The pattern that an IPv6 address text must match.
pub const IPV6_PATTERN: &'static str = r"^(?:(?:[0-9A-Fa-f]{1,4}:){7}(?:[0-9A-Fa-f]{1,4}|:)|(?:[0-9A-Fa-f]{1,4}:){6}(?::[0-9A-Fa-f]{1,4}|:[0-9A-Fa-f]{1,4}:\d+\.\d+\.\d+\.\d+|:)|(?:[0-9A-Fa-f]{1,4}:){5}(?::[0-9A-Fa-f]{1,4}|(?::[0-9A-Fa-f]{1,4}){1,2}|:[0-9A-Fa-f]{1,4}:\d+\.\d+\.\d+\.\d+|:)|(?:[0-9A-Fa-f]{1,4}:){4}(?::[0-9A-Fa-f]{1,4}|(?::[0-9A-Fa-f]{1,4}){1,3}|:[0-9A-Fa-f]{1,4}:\d+\.\d+\.\d+\.\d+|:)|(?:[0-9A-Fa-f]{1,4}:){3}(?::[0-9A-Fa-f]{1,4}|(?::[0-9A-Fa-f]{1,4}){1,4}|:[0-9A-Fa-f]{1,4}:\d+\.\d+\.\d+\.\d+|:)|(?:[0-9A-Fa-f]{1,4}:){2}(?::[0-9A-Fa-f]{1,4}|(?::[0-9A-Fa-f]{1,4}){1,5}|:[0-9A-Fa-f]{1,4}:\d+\.\d+\.\d+\.\d+|:)|(?:[0-9A-Fa-f]{1,4}:)(?::[0-9A-Fa-f]{1,4}|(?::[0-9A-Fa-f]{1,4}){1,6}|:[0-9A-Fa-f]{1,4}:\d+\.\d+\.\d+\.\d+|:)|(?:::(?:[0-9A-Fa-f]{1,4}|(?::[0-9A-Fa-f]{1,4}){1,7}|[0-9A-Fa-f]{1,4}:\d+\.\d+\.\d+\.\d+|:)))$";

/// What matching `text` against the compiled `pattern` gives: `None` where the
/// pattern does not compile.
pub uninterp spec fn regex_match(pattern: Seq<char>, text: Seq<char>) -> Option<bool>;

/// Relies on regex::Regex::new and regex::Regex::is_match: compiling a pattern and
/// matching a text against it depend on the two texts alone.
#[verifier::external_body]
fn regex_is_match(pattern: &str, text: &str) -> (r: Option<bool>)
    ensures
        r == regex_match(pattern@, text@),
{
    match regex::Regex::new(pattern) {
        Ok(re) => Some(re.is_match(text)),
        Err(_) => None,
    }
}

/// Whether a text is accepted as an IPv6 address.
pub open spec fn is_ipv6_text(s: Seq<char>) -> bool {
    regex_match(IPV6_PATTERN@, s) == Some(true)
}

/// An IPv6 address, kept as its validated text.
#[derive(Clone, Debug, PartialEq, Eq, Hash)]
pub struct Ipv6Addr {
    pub value: String,
}

impl Ipv6Addr {
    /// Accepts a text that the IPv6 address pattern matches.
    pub fn new(value: &str) -> (r: Result<Ipv6Addr, AddressError>)
        ensures
            r is Ok <==> is_ipv6_text(value@),
            r is Ok ==> r->Ok_0.value@ == value@,
            r is Err ==> r->Err_0 == AddressError::InvalidFormat,
    {
        match regex_is_match(IPV6_PATTERN, value) {
            Some(true) => Ok(Ipv6Addr { value: value.to_owned() }),
            _ => Err(AddressError::InvalidFormat),
        }
    }
}

/// An address of either family.
#[derive(Clone, Debug, PartialEq, Eq, Hash)]
pub enum IpAddr {
    V4(Ipv4Addr),
    V6(Ipv6Addr),
}

/// Whether a text holds a colon.
pub open spec fn has_colon(s: Seq<char>) -> bool {
    exists|i: int| 0 <= i < s.len() && s[i] == ':'
}

impl IpAddr {
    /// Parses a text holding a colon as IPv6, any other as IPv4; a text
    /// that is not ASCII is no address of either family.
    pub fn new(value: &str) -> (r: Result<IpAddr, AddressError>)
        ensures
            !vstd::utf8::is_ascii_chars(value@) ==> r is Err,
            vstd::utf8::is_ascii_chars(value@) ==> {
                &&& has_colon(value@) ==> (r is Ok <==> is_ipv6_text(value@))
                &&& has_colon(value@) && r is Ok ==> r->Ok_0 is V6 && r->Ok_0->V6_0.value@
                    == value@
                &&& !has_colon(value@) ==> (r is Ok <==> is_ipv4_text(value@))
                &&& !has_colon(value@) && r is Ok ==> r->Ok_0 is V4 && r->Ok_0->V4_0.octets@
                    == ipv4_text_octets(value@)
            },
            r is Err ==> r->Err_0 == AddressError::InvalidFormat,
    {
        if !value.is_ascii() {
            return Err(AddressError::InvalidFormat);
        }
        if contains_colon(value) {
            match Ipv6Addr::new(value) {
                Ok(a) => Ok(IpAddr::V6(a)),
                Err(e) => Err(e),
            }
        } else {
            match Ipv4Addr::new(value) {
                Ok(a) => Ok(IpAddr::V4(a)),
                Err(e) => Err(e),
            }
        }
    }
}

fn contains_colon(value: &str) -> (r: bool)
    requires
        vstd::string::is_ascii(value),
    ensures
        r == has_colon(value@),
{
    let b = value.as_bytes();
    let mut i: usize = 0;
    while i < b.len()
        invariant
            0 <= i <= b@.len(),
            b@.len() == value@.len(),
            forall|k: int| 0 <= k < value@.len() ==> (b@[k] as char) == value@[k],
            forall|k: int| 0 <= k < i ==> value@[k] != ':',
        decreases b@.len() - i,
    {
        if b[i] == 0x3A {
            assert(value@[i as int] == ':');
            return true;
        }
        i = i + 1;
    }
    false
}

} // verus!
