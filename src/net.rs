use crate::error::{AppError, ErrorKind};
use std::num::ParseIntError;
use vstd::prelude::*;

verus! {

/// The network interface whose IPv4 address identifies the host.
pub const NET_INTERFACE_NAME: &'static str = "eth0";

/// Host addresses whose last octet is below this are not instance hosts.
pub const INDEX_THRESHOLD: u8 = 200;

/// Subtracted from the last octet to give the instance index.
pub const INDEX_OFFSET: u8 = 200;

#[verifier::external_type_specification]
#[verifier::external_body]
pub struct ExParseIntError(ParseIntError);

/// The fields of `s` between dots, in order; `s` without dots is one field.
pub open spec fn split_dots(s: Seq<char>) -> Seq<Seq<char>>
    decreases s.len(),
{
    if s.len() == 0 {
        seq![Seq::empty()]
    } else {
        let rest = split_dots(s.drop_last());
        if s.last() == '.' {
            rest.push(Seq::empty())
        } else {
            rest.update(rest.len() - 1, rest.last().push(s.last()))
        }
    }
}

pub open spec fn is_digit(c: char) -> bool {
    '0' <= c && c <= '9'
}

/// The value of a string of decimal digits.
pub open spec fn digits_value(d: Seq<char>) -> nat
    decreases d.len(),
{
    if d.len() == 0 {
        0
    } else {
        digits_value(d.drop_last()) * 10 + ((d.last() as u32 - '0' as u32) as nat)
    }
}

/// The digits of a number written with an optional leading `+`.
pub open spec fn unsigned_digits(s: Seq<char>) -> Seq<char> {
    if s.len() > 0 && s[0] == '+' {
        s.drop_first()
    } else {
        s
    }
}

/// The byte that `s` writes in decimal, if any: an optional `+`, then one or
/// more digits whose value is at most 255.
pub open spec fn decimal_u8(s: Seq<char>) -> Option<u8> {
    let d = unsigned_digits(s);
    if d.len() > 0 && (forall|i: int| 0 <= i < d.len() ==> is_digit(#[trigger] d[i]))
        && digits_value(d) <= 255 {
        Some(digits_value(d) as u8)
    } else {
        None
    }
}

/// Relies on `<u8 as FromStr>::from_str` (`str::parse::<u8>`): it accepts
/// exactly an optional `+` followed by decimal digits whose value fits in a
/// byte, and returns that value.
#[verifier::external_body]
fn parse_u8(s: &str) -> (r: Result<u8, ParseIntError>)
    ensures
        r is Ok <==> decimal_u8(s@) is Some,
        r is Ok ==> r->Ok_0 == decimal_u8(s@)->0,
{
    s.parse::<u8>()
}

/// Whether every field of `s` is a byte in decimal.
pub open spec fn all_fields_bytes(s: Seq<char>) -> bool {
    forall|k: int| 0 <= k < split_dots(s).len() ==> (#[trigger] decimal_u8(split_dots(s)[k])) is Some
}

/// The bytes written by the dot-separated fields of `s`.
pub open spec fn field_bytes(s: Seq<char>) -> Seq<u8> {
    split_dots(s).map_values(|f: Seq<char>| decimal_u8(f)->0)
}

/// Splits a dotted address into its fields and reads each as a byte. Fails
/// when some field is not a byte in decimal.
pub fn splite_ip(ip_str: &str) -> (r: Result<Vec<u8>, ParseIntError>)
    ensures
        r is Ok <==> all_fields_bytes(ip_str@),
        r is Ok ==> r->Ok_0@ == field_bytes(ip_str@),
{
    let ghost s = ip_str@;
    let n = ip_str.unicode_len();
    let mut parts: Vec<u8> = Vec::new();
    let mut failure: Option<ParseIntError> = None;
    let mut start: usize = 0;
    let mut i: usize = 0;
    let ghost mut done: Seq<Seq<char>> = Seq::empty();
    assert(s.subrange(0, 0) == Seq::<char>::empty());
    assert(done.push(Seq::<char>::empty()) == split_dots(Seq::<char>::empty()));
    while i < n
        invariant
            n == s.len(),
            s == ip_str@,
            start <= i <= n,
            split_dots(s.subrange(0, i as int)) == done.push(s.subrange(start as int, i as int)),
            failure is None <==> (forall|k: int| 0 <= k < done.len() ==> (#[trigger] decimal_u8(done[k])) is Some),
            failure is None ==> parts@ == done.map_values(|f: Seq<char>| decimal_u8(f)->0),
        decreases n - i,
    {
        let c = ip_str.get_char(i);
        let ghost prefix = s.subrange(0, i as int);
        let ghost field = s.subrange(start as int, i as int);
        assert(s.subrange(0, i + 1).drop_last() == prefix);
        if c == '.' {
            let part = ip_str.substring_char(start, i);
            match parse_u8(part) {
                Ok(v) => {
                    if failure.is_none() {
                        parts.push(v);
                    }
                },
                Err(e) => {
                    if failure.is_none() {
                        failure = Some(e);
                    }
                },
            }
            proof {
                let old_done = done;
                done = done.push(field);
                assert(s.subrange(i + 1, i + 1) == Seq::<char>::empty());
                if failure is None {
                    assert(parts@ == done.map_values(|f: Seq<char>| decimal_u8(f)->0));
                }
                assert forall|k: int| 0 <= k < old_done.len() implies done[k] == old_done[k] by {}
                assert(done[old_done.len() as int] == field);
            }
            start = i + 1;
        } else {
            proof {
                assert(s.subrange(start as int, i + 1) == field.push(c));
            }
        }
        i = i + 1;
    }
    let last = ip_str.substring_char(start, n);
    assert(s.subrange(0, n as int) == s);
    let ghost fields = done.push(s.subrange(start as int, n as int));
    match parse_u8(last) {
        Ok(v) => {
            match failure {
                Some(e) => {
                    proof {
                        let k = choose|k: int| 0 <= k < done.len() && (#[trigger] decimal_u8(done[k])) is None;
                        assert(fields[k] == done[k]);
                    }
                    Err(e)
                },
                None => {
                    parts.push(v);
                    proof {
                        assert forall|k: int| 0 <= k < fields.len() implies (#[trigger] decimal_u8(fields[k])) is Some by {
                            if k < done.len() {
                                assert(fields[k] == done[k]);
                            }
                        }
                        assert(parts@ == fields.map_values(|f: Seq<char>| decimal_u8(f)->0));
                    }
                    Ok(parts)
                },
            }
        },
        Err(e) => {
            proof {
                assert(fields[done.len() as int] == s.subrange(start as int, n as int));
            }
            Err(e)
        },
    }
}

/// The instance index a host's address yields: the address must be four
/// byte fields, and its last must be at least the threshold.
pub open spec fn index_of(ip: Seq<char>) -> Option<u8> {
    if all_fields_bytes(ip) && field_bytes(ip).len() == 4 && field_bytes(ip)[3] >= INDEX_THRESHOLD {
        Some((field_bytes(ip)[3] - INDEX_OFFSET) as u8)
    } else {
        None
    }
}

/// The instance index of the host with IPv4 address `ip`: its last octet
/// minus the offset. An address that is not four decimal bytes, or whose last
/// octet is below the threshold, is an `InvalidHostAddress`.
pub fn get_index(ip: &str) -> (r: Result<u8, AppError>)
    ensures
        r is Ok <==> index_of(ip@) is Some,
        r is Ok ==> r->Ok_0 == index_of(ip@)->0,
        r is Err ==> r->Err_0.spec_kind() == ErrorKind::InvalidHostAddress,
{
    match splite_ip(ip) {
        Ok(octets) => {
            if octets.len() != 4 {
                return Err(AppError::InvalidHostAddress(String::from_str("an IPv4 address has four fields")));
            }
            let last_number = octets[3];
            if last_number < INDEX_THRESHOLD {
                return Err(AppError::InvalidHostAddress(String::from_str("the last octet of the address is below the threshold")));
            }
            Ok(last_number - INDEX_OFFSET)
        },
        Err(e) => Err(AppError::InvalidHostAddress(e.to_string())),
    }
}

/// One address of one network interface of the host.
#[derive(Debug)]
pub struct InterfaceAddress {
    pub name: String,
    pub is_ipv4: bool,
    pub address: String,
}

/// Whether `a` is an IPv4 address of the interface named `name`.
pub open spec fn identifies_host(a: InterfaceAddress, name: Seq<char>) -> bool {
    a.name@ == name && a.is_ipv4
}

/// The address of the first entry of `interfaces` that is an IPv4 address of
/// the designated interface, if any.
pub fn get_local_ip(interfaces: &Vec<InterfaceAddress>) -> (r: Option<String>)
    ensures
        r is None <==> (forall|k: int| 0 <= k < interfaces@.len() ==> !identifies_host(#[trigger] interfaces@[k], NET_INTERFACE_NAME@)),
        r is Some ==> exists|k: int| 0 <= k < interfaces@.len()
            && identifies_host(#[trigger] interfaces@[k], NET_INTERFACE_NAME@)
            && r->Some_0@ == interfaces@[k].address@
            && (forall|j: int| 0 <= j < k ==> !identifies_host(#[trigger] interfaces@[j], NET_INTERFACE_NAME@)),
{
    let wanted = String::from_str(NET_INTERFACE_NAME);
    let mut i: usize = 0;
    while i < interfaces.len()
        invariant
            i <= interfaces@.len(),
            wanted@ == NET_INTERFACE_NAME@,
            forall|j: int| 0 <= j < i ==> !identifies_host(#[trigger] interfaces@[j], NET_INTERFACE_NAME@),
        decreases interfaces@.len() - i,
    {
        let entry = &interfaces[i];
        if entry.name == wanted && entry.is_ipv4 {
            return Some(entry.address.clone());
        }
        i = i + 1;
    }
    None
}

} // verus!
