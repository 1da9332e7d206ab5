//! Connection address parsing.
//!
//! Supports the following formats:
//! - `unix:/path/to/socket` - Unix domain socket
//! - `tcp:host:port` - TCP connection
//! - `ssl:host:port` - TLS over TCP
use vstd::prelude::*;
use crate::text::{all_digits, decimal, decimal_string, digit_value, digits_value, is_digit, lemma_decimal_digits};
use crate::transport::error::{invalid_address_message, Error};

verus! {

/// A parsed connection address.
#[derive(Debug, Clone, PartialEq, Eq)]
pub enum Address {
    /// Unix domain socket, by its path
    Unix(String),
    /// TCP connection
    Tcp { host: String, port: u16 },
    /// TLS over TCP
    Tls { host: String, port: u16 },
}

/// The abstract value of an address: its text fields as character sequences.
pub enum AddressModel {
    Unix(Seq<char>),
    Tcp { host: Seq<char>, port: u16 },
    Tls { host: Seq<char>, port: u16 },
}

impl View for Address {
    type V = AddressModel;

    open spec fn view(&self) -> AddressModel {
        match self {
            Address::Unix(p) => AddressModel::Unix(p@),
            Address::Tcp { host, port } => AddressModel::Tcp { host: host@, port: *port },
            Address::Tls { host, port } => AddressModel::Tls { host: host@, port: *port },
        }
    }
}

/// `s` without the leading `prefix`, if it starts with it.
pub open spec fn strip_prefix(s: Seq<char>, prefix: Seq<char>) -> Option<Seq<char>> {
    if prefix.len() <= s.len() && s.subrange(0, prefix.len() as int) == prefix {
        Some(s.subrange(prefix.len() as int, s.len() as int))
    } else {
        None
    }
}

/// The index of the last occurrence of `c` in `s`, or -1 if there is none.
pub open spec fn last_index_of(s: Seq<char>, c: char) -> int
    decreases s.len(),
{
    if s.len() == 0 {
        -1
    } else if s.last() == c {
        s.len() - 1
    } else {
        last_index_of(s.drop_last(), c)
    }
}

/// A port number as text: an optional `+`, then at least one decimal digit,
/// with a value that fits in 16 bits.
pub open spec fn port_value(s: Seq<char>) -> Option<u16> {
    let d = if s.len() > 0 && s[0] == '+' { s.drop_first() } else { s };
    if d.len() > 0 && all_digits(d) && digits_value(d) <= 0xffff {
        Some(digits_value(d) as u16)
    } else {
        None
    }
}

/// Split `host:port` at its last colon; the error is the message that
/// refuses the text.
pub open spec fn host_port(s: Seq<char>) -> Result<(Seq<char>, u16), Seq<char>> {
    let i = last_index_of(s, ':');
    if i < 0 {
        Err("missing port in address: "@ + s)
    } else {
        let port_text = s.subrange(i + 1, s.len() as int);
        match port_value(port_text) {
            Some(p) => Ok((s.subrange(0, i), p)),
            None => Err("invalid port: "@ + port_text),
        }
    }
}

/// The address that `s` names, or the message that refuses it.
pub open spec fn parse_address(s: Seq<char>) -> Result<AddressModel, Seq<char>> {
    if let Some(path) = strip_prefix(s, "unix:"@) {
        Ok(AddressModel::Unix(path))
    } else if let Some(rest) = strip_prefix(s, "tcp:"@) {
        match host_port(rest) {
            Ok((host, port)) => Ok(AddressModel::Tcp { host, port }),
            Err(m) => Err(m),
        }
    } else if let Some(rest) = strip_prefix(s, "ssl:"@) {
        match host_port(rest) {
            Ok((host, port)) => Ok(AddressModel::Tls { host, port }),
            Err(m) => Err(m),
        }
    } else {
        Err("unknown scheme in address: "@ + s)
    }
}

/// The text form of an address, in the syntax that `parse_address` reads.
pub open spec fn address_text(a: AddressModel) -> Seq<char> {
    match a {
        AddressModel::Unix(p) => "unix:"@ + p,
        AddressModel::Tcp { host, port } => "tcp:"@ + host + ":"@ + decimal(port as nat),
        AddressModel::Tls { host, port } => "ssl:"@ + host + ":"@ + decimal(port as nat),
    }
}

/// `s` without the leading `prefix`, if it starts with it.
fn strip_str_prefix<'a>(s: &'a str, prefix: &str) -> (r: Option<&'a str>)
    ensures
        match strip_prefix(s@, prefix@) {
            Some(t) => r matches Some(x) && x@ == t,
            None => r is None,
        },
{
    let n = s.unicode_len();
    let m = prefix.unicode_len();
    if m > n {
        return None;
    }
    let mut i: usize = 0;
    while i < m
        invariant
            i <= m <= n,
            n == s@.len(),
            m == prefix@.len(),
            forall|j: int| 0 <= j < i ==> s@[j] == prefix@[j],
        decreases m - i,
    {
        if s.get_char(i) != prefix.get_char(i) {
            assert(s@.subrange(0, m as int)[i as int] != prefix@[i as int]);
            return None;
        }
        i = i + 1;
    }
    assert(s@.subrange(0, m as int) =~= prefix@);
    Some(s.substring_char(m, n))
}

proof fn lemma_last_index_found(s: Seq<char>, c: char, k: int)
    requires
        0 <= k < s.len(),
        s[k] == c,
        forall|j: int| k < j < s.len() ==> s[j] != c,
    ensures
        last_index_of(s, c) == k,
    decreases s.len(),
{
    if k < s.len() - 1 {
        lemma_last_index_found(s.drop_last(), c, k);
    }
}

proof fn lemma_last_index_absent(s: Seq<char>, c: char)
    requires
        forall|j: int| 0 <= j < s.len() ==> s[j] != c,
    ensures
        last_index_of(s, c) == -1,
    decreases s.len(),
{
    if s.len() > 0 {
        lemma_last_index_absent(s.drop_last(), c);
    }
}

proof fn lemma_digits_value_prefix(s: Seq<char>, k: int)
    requires
        0 <= k <= s.len(),
    ensures
        digits_value(s.subrange(0, k)) <= digits_value(s),
    decreases s.len() - k,
{
    if k < s.len() {
        lemma_digits_value_prefix(s, k + 1);
        assert(s.subrange(0, k + 1).drop_last() =~= s.subrange(0, k));
    } else {
        assert(s.subrange(0, k) =~= s);
    }
}

/// The port number that `s` spells, if it is a valid 16-bit port.
fn parse_port(s: &str) -> (r: Option<u16>)
    ensures
        r == port_value(s@),
{
    let n = s.unicode_len();
    let mut start: usize = 0;
    if n > 0 && s.get_char(0) == '+' {
        start = 1;
    }
    let ghost d = if s@.len() > 0 && s@[0] == '+' { s@.drop_first() } else { s@ };
    assert(d =~= s@.subrange(start as int, n as int));
    assert(port_value(s@) == (if d.len() > 0 && all_digits(d) && digits_value(d) <= 0xffff {
        Some(digits_value(d) as u16)
    } else {
        None
    }));
    if start == n {
        return None;
    }
    let mut value: u32 = 0;
    let mut i: usize = start;
    while i < n
        invariant
            start <= i <= n,
            n == s@.len(),
            d == s@.subrange(start as int, n as int),
            port_value(s@) == (if d.len() > 0 && all_digits(d) && digits_value(d) <= 0xffff {
                Some(digits_value(d) as u16)
            } else {
                None
            }),
            value as nat == digits_value(d.subrange(0, i - start)),
            value <= 0xffff,
            all_digits(d.subrange(0, i - start)),
        decreases n - i,
    {
        let c = s.get_char(i);
        let ghost prefix = d.subrange(0, i - start + 1);
        assert(prefix.drop_last() =~= d.subrange(0, i - start));
        assert(prefix.last() == c);
        if c < '0' || c > '9' {
            assert(!is_digit(d[i - start]));
            assert(!all_digits(d));
            return None;
        }
        let digit: u32 = (c as u32) - ('0' as u32);
        assert(digit == digit_value(c));
        let next: u32 = value * 10 + digit;
        assert(next == digits_value(prefix));
        if next > 0xffff {
            proof {
                lemma_digits_value_prefix(d, i - start + 1);
            }
            assert(digits_value(d) > 0xffff);
            return None;
        }
        value = next;
        i = i + 1;
        assert(all_digits(prefix)) by {
            assert forall|j: int| 0 <= j < prefix.len() implies is_digit(#[trigger] prefix[j]) by {
                if j < prefix.len() - 1 {
                    assert(prefix[j] == d.subrange(0, i - 1 - start)[j]);
                }
            }
        }
    }
    assert(d.subrange(0, n - start) =~= d);
    Some(value as u16)
}

/// Split `host:port` at its last colon.
fn parse_host_port(s: &str) -> (r: Result<(String, u16), Error>)
    ensures
        match host_port(s@) {
            Ok((host, port)) => r matches Ok((h, p)) && h@ == host && p == port,
            Err(m) => r matches Err(e) && invalid_address_message(e) == Some(m),
        },
{
    let n = s.unicode_len();
    let mut i: usize = n;
    let mut found = false;
    while i > 0 && !found
        invariant
            i <= n,
            n == s@.len(),
            found ==> i > 0 && s@[i - 1] == ':',
            forall|j: int| i <= j < n ==> s@[j] != ':',
        decreases i + (if found { 0int } else { 1int }),
    {
        if s.get_char(i - 1) == ':' {
            found = true;
        } else {
            i = i - 1;
        }
    }
    if !found {
        proof {
            lemma_last_index_absent(s@, ':');
        }
        let msg = "missing port in address: ".to_owned().concat(s);
        return Err(Error::InvalidAddress(msg));
    }
    let k = i - 1;
    proof {
        lemma_last_index_found(s@, ':', k as int);
    }
    let host = s.substring_char(0, k);
    let port_text = s.substring_char(k + 1, n);
    match parse_port(port_text) {
        Some(port) => Ok((host.to_owned(), port)),
        None => {
            let msg = "invalid port: ".to_owned().concat(port_text);
            Err(Error::InvalidAddress(msg))
        },
    }
}

impl Address {
    /// Parse an address in one of the forms `unix:PATH`, `tcp:HOST:PORT` or
    /// `ssl:HOST:PORT`; the port follows the last colon.
    pub fn parse(s: &str) -> (r: Result<Address, Error>)
        ensures
            match parse_address(s@) {
                Ok(a) => r matches Ok(x) && x@ == a,
                Err(m) => r matches Err(e) && invalid_address_message(e) == Some(m),
            },
    {
        if let Some(path) = strip_str_prefix(s, "unix:") {
            Ok(Address::Unix(path.to_owned()))
        } else if let Some(rest) = strip_str_prefix(s, "tcp:") {
            match parse_host_port(rest) {
                Ok((host, port)) => Ok(Address::Tcp { host, port }),
                Err(e) => Err(e),
            }
        } else if let Some(rest) = strip_str_prefix(s, "ssl:") {
            match parse_host_port(rest) {
                Ok((host, port)) => Ok(Address::Tls { host, port }),
                Err(e) => Err(e),
            }
        } else {
            let msg = "unknown scheme in address: ".to_owned().concat(s);
            Err(Error::InvalidAddress(msg))
        }
    }

    /// The text form of this address, which `parse` reads back.
    pub fn to_string(&self) -> (r: String)
        ensures
            r@ == address_text(self@),
    {
        match self {
            Address::Unix(path) => "unix:".to_owned().concat(path.as_str()),
            Address::Tcp { host, port } => {
                let port_text = decimal_string(*port as u64);
                "tcp:".to_owned().concat(host.as_str()).concat(":").concat(port_text.as_str())
            },
            Address::Tls { host, port } => {
                let port_text = decimal_string(*port as u64);
                "ssl:".to_owned().concat(host.as_str()).concat(":").concat(port_text.as_str())
            },
        }
    }
}

impl std::str::FromStr for Address {
    type Err = Error;

    fn from_str(s: &str) -> (r: Result<Address, Error>)
        ensures
            match parse_address(s@) {
                Ok(a) => r matches Ok(x) && x@ == a,
                Err(m) => r matches Err(e) && invalid_address_message(e) == Some(m),
            },
    {
        Address::parse(s)
    }
}

proof fn lemma_host_port_text(host: Seq<char>, port: u16)
    ensures
        host_port(host + ":"@ + decimal(port as nat)) == Ok::<(Seq<char>, u16), Seq<char>>((host, port)),
{
    reveal_strlit(":");
    let digits = decimal(port as nat);
    let s = host + ":"@ + digits;
    lemma_decimal_digits(port as nat);
    assert(s[host.len() as int] == ':');
    assert forall|j: int| host.len() < j < s.len() implies s[j] != ':' by {
        assert(s[j] == digits[j - host.len() - 1]);
        assert(is_digit(digits[j - host.len() - 1]));
    }
    lemma_last_index_found(s, ':', host.len() as int);
    assert(s.subrange(host.len() + 1int, s.len() as int) =~= digits);
    assert(s.subrange(0, host.len() as int) =~= host);
    assert(digits[0] != '+') by {
        assert(is_digit(digits[0]));
    }
}

/// Law: the text form of every address parses back to that address.
pub proof fn lemma_address_roundtrip(a: AddressModel)
    ensures
        parse_address(address_text(a)) == Ok::<AddressModel, Seq<char>>(a),
{
    reveal_strlit("unix:");
    reveal_strlit("tcp:");
    reveal_strlit("ssl:");
    let s = address_text(a);
    match a {
        AddressModel::Unix(p) => {
            assert(s.subrange(0, 5) =~= "unix:"@);
            assert(s.subrange(5, s.len() as int) =~= p);
        },
        AddressModel::Tcp { host, port } => {
            let rest = host + ":"@ + decimal(port as nat);
            assert(s =~= "tcp:"@ + rest);
            assert(s.subrange(0, 5) != "unix:"@ || s.len() < 5) by {
                if s.len() >= 5 {
                    assert(s.subrange(0, 5)[0] != "unix:"@[0]);
                }
            }
            assert(s.subrange(0, 4) =~= "tcp:"@);
            assert(s.subrange(4, s.len() as int) =~= rest);
            lemma_host_port_text(host, port);
        },
        AddressModel::Tls { host, port } => {
            let rest = host + ":"@ + decimal(port as nat);
            assert(s =~= "ssl:"@ + rest);
            assert(s.subrange(0, 5) != "unix:"@ || s.len() < 5) by {
                if s.len() >= 5 {
                    assert(s.subrange(0, 5)[0] != "unix:"@[0]);
                }
            }
            assert(s.subrange(0, 4) != "tcp:"@) by {
                assert(s.subrange(0, 4)[0] != "tcp:"@[0]);
            }
            assert(s.subrange(0, 4) =~= "ssl:"@);
            assert(s.subrange(4, s.len() as int) =~= rest);
            lemma_host_port_text(host, port);
        },
    }
}

} // verus!
