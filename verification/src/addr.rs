//! Grammar of the addresses and keys a user gives on the command line: a
//! listening address `protocol://address`, an `ip[:port]` pair (reading the
//! IP address itself is left to the caller) and a public key.
use vstd::prelude::*;
use crate::rpc::{ListenAddr, Protocol};
use crate::text::{
    dec_chars, lemma_dec_chars, lemma_parse_dec, lemma_split_joined, parse_u64, parse_u64_spec, push_decimal,
    split_once_exact,
};

verus! {

/// What `str::to_lowercase` gives for a text.
pub uninterp spec fn lowercase(s: Seq<char>) -> Seq<char>;

/// Every character of `s` is ASCII.
pub open spec fn all_ascii(s: Seq<char>) -> bool {
    forall|i: int| 0 <= i < s.len() ==> (#[trigger] s[i] as u32) < 128
}

/// The lower case of an ASCII character: `A`..`Z` become `a`..`z`, the
/// others stay.
pub open spec fn ascii_lower(c: char) -> char {
    if 'A' <= c && c <= 'Z' {
        ((c as u32) + 32) as char
    } else {
        c
    }
}

/// A text with every ASCII capital letter made small.
pub open spec fn ascii_lowercase(s: Seq<char>) -> Seq<char> {
    s.map_values(|c: char| ascii_lower(c))
}

/// The lower case of a text: on ASCII text, each capital letter made small.
pub open spec fn lowercase_name(s: Seq<char>) -> Seq<char> {
    if all_ascii(s) {
        ascii_lowercase(s)
    } else {
        lowercase(s)
    }
}

/// Calls `str::to_lowercase`, which maps every character to its Unicode
/// lower case. The result depends on the text alone, and the contract names
/// it; of ASCII text, whose lower case Unicode fixes as the ASCII one, it
/// claims that each capital letter `A`..`Z` becomes `a`..`z` and every
/// other character stays.
#[verifier::external_body]
pub(crate) fn to_lowercase(s: &str) -> (r: String)
    ensures
        r@ == lowercase(s@),
        all_ascii(s@) ==> r@ == ascii_lowercase(s@),
{
    s.to_lowercase()
}

/// The separator `://` starts at position `i` of `s`.
pub open spec fn sep_at(s: Seq<char>, i: int) -> bool {
    &&& 0 <= i
    &&& i + 3 <= s.len()
    &&& s[i] == ':'
    &&& s[i + 1] == '/'
    &&& s[i + 2] == '/'
}

/// `i` is where the first separator `://` of `s` starts.
pub open spec fn first_sep(s: Seq<char>, i: int) -> bool {
    &&& sep_at(s, i)
    &&& forall|j: int| 0 <= j < i ==> !#[trigger] sep_at(s, j)
}

/// No separator `://` starts at or after position `from`.
pub open spec fn no_sep_from(s: Seq<char>, from: int) -> bool {
    forall|j: int| from <= j ==> !#[trigger] sep_at(s, j)
}

/// The protocol a lower-case name stands for.
pub open spec fn protocol_named(name: Seq<char>) -> Option<Protocol> {
    if name == "bolt"@ {
        Some(Protocol::Bolt)
    } else if name == "bifrost"@ {
        Some(Protocol::Bifrost)
    } else {
        None
    }
}

/// Why a listening address could not be read.
#[derive(Clone, PartialEq, Eq, Debug)]
pub enum ListenAddrError {
    /// the text before the first `://`, in lower case, names no protocol
    /// (or the text has no `://`, or more than one)
    UnknownProtocolError(String),
}

/// Where the first separator `://` of `s` at or after `from` starts.
fn find_sep(s: &str, from: usize) -> (r: Option<usize>)
    requires
        from <= s@.len(),
    ensures
        match r {
            Some(i) => from <= i && sep_at(s@, i as int) && forall|j: int| from <= j < i ==> !#[trigger] sep_at(s@, j),
            None => no_sep_from(s@, from as int),
        },
{
    let len = s.unicode_len();
    let mut i = from;
    while i < len && len - i >= 3
        invariant
            from <= i <= len,
            len == s@.len(),
            forall|j: int| from <= j < i ==> !#[trigger] sep_at(s@, j),
        decreases len - i,
    {
        if s.get_char(i) == ':' && s.get_char(i + 1) == '/' && s.get_char(i + 2) == '/' {
            return Some(i);
        }
        i = i + 1;
    }
    proof {
        assert forall|j: int| from <= j implies !#[trigger] sep_at(s@, j) by {
            if j >= i {
                assert(j + 3 > s@.len());
            }
        }
    }
    None
}

/// What reading a listening address `protocol://address` gives: the
/// protocol and the address after the first `://`, where the text before it,
/// in lower case, is `bolt` or `bifrost` and no other `://` follows; else
/// the lower-cased text before the first `://` (all of it where there is
/// none), naming an unknown protocol.
pub open spec fn listen_parts(s: Seq<char>) -> Result<(Protocol, Seq<char>), Seq<char>> {
    if exists|i: int| first_sep(s, i) {
        let i = choose|i: int| first_sep(s, i);
        let name = lowercase_name(s.take(i));
        if no_sep_from(s, i + 3) && protocol_named(name) is Some {
            Ok((protocol_named(name)->0, s.skip(i + 3)))
        } else {
            Err(name)
        }
    } else {
        Err(lowercase_name(s))
    }
}

/// Reads the protocol of a listening address `protocol://address`, as
/// `listen_parts` says; the address itself is read by the caller.
pub fn split_protocol(s: &str) -> (r: Result<(Protocol, String), ListenAddrError>)
    ensures
        match r {
            Ok((p, a)) => listen_parts(s@) == Ok::<(Protocol, Seq<char>), Seq<char>>((p, a@)),
            Err(ListenAddrError::UnknownProtocolError(u)) => listen_parts(s@) == Err::<(Protocol, Seq<char>), Seq<char>>(u@),
        },
{
    let len = s.unicode_len();
    match find_sep(s, 0) {
        None => {
            proof {
                assert(!exists|i: int| first_sep(s@, i));
            }
            Err(ListenAddrError::UnknownProtocolError(to_lowercase(s)))
        },
        Some(i) => {
            proof {
                assert(first_sep(s@, i as int));
                assert forall|k: int| #[trigger] first_sep(s@, k) implies k == i by {
                    if k < i {
                        assert(!sep_at(s@, k));
                    }
                    if k > i {
                        assert(!sep_at(s@, i as int));
                    }
                }
            }
            let ghost j = choose|k: int| first_sep(s@, k);
            assert(j == i);
            let head = s.substring_char(0, i);
            assert(head@ == s@.take(i as int));
            let name = to_lowercase(head);
            assert(name@ == lowercase_name(s@.take(i as int)));
            let single = find_sep(s, i + 3).is_none();
            let bolt = String::from_str("bolt");
            let bifrost = String::from_str("bifrost");
            proof {
                reveal_strlit("bolt");
                reveal_strlit("bifrost");
            }
            if single && name == bolt {
                let rest = s.substring_char(i + 3, len);
                assert(rest@ == s@.skip(i + 3));
                Ok((Protocol::Bolt, String::from_str(rest)))
            } else if single && name == bifrost {
                let rest = s.substring_char(i + 3, len);
                assert(rest@ == s@.skip(i + 3));
                Ok((Protocol::Bifrost, String::from_str(rest)))
            } else {
                Err(ListenAddrError::UnknownProtocolError(name))
            }
        },
    }
}

/// The name of a protocol in a listening address.
pub open spec fn protocol_text(p: Protocol) -> Seq<char> {
    match p {
        Protocol::Bolt => "bolt"@,
        Protocol::Bifrost => "bifrost"@,
    }
}

/// The text of a listening address: `protocol://ip`, followed by `:port`
/// unless the port is the protocol's default one.
pub open spec fn listen_text(protocol: Protocol, ip: Seq<char>, port: u16, default_port: u16) -> Seq<char> {
    protocol_text(protocol) + "://"@ + ip + if port == default_port {
        Seq::<char>::empty()
    } else {
        seq![':'] + dec_chars(port as nat)
    }
}

impl ListenAddr {
    /// The text of the address, `default_port` being the default port of its
    /// protocol.
    pub fn to_display_string(&self, default_port: u16) -> (r: String)
        ensures
            r@ == listen_text(self.protocol, self.ip_addr@, self.port, default_port),
    {
        proof {
            reveal_strlit("bolt");
            reveal_strlit("bifrost");
            reveal_strlit("://");
        }
        let mut out = match self.protocol {
            Protocol::Bolt => String::from_str("bolt"),
            Protocol::Bifrost => String::from_str("bifrost"),
        };
        out.append("://");
        out.append(self.ip_addr.as_str());
        if self.port != default_port {
            out.append(":");
            proof {
                reveal_strlit(":");
            }
            push_decimal(&mut out, self.port as u64);
        }
        assert(out@ =~= listen_text(self.protocol, self.ip_addr@, self.port, default_port));
        out
    }
}

/// A listening address with an IP address that holds no colon (an IPv4
/// address) reads back from its text: the protocol, and the address part
/// `ip`, or `ip:port` for a port other than the default, which splits at
/// its single colon into the IP address and a port number that reads back
/// as the port.
pub proof fn law_listen_addr_roundtrip(protocol: Protocol, ip: Seq<char>, port: u16, default_port: u16)
    requires
        !ip.contains(':'),
    ensures
        port == default_port ==> listen_parts(listen_text(protocol, ip, port, default_port))
            == Ok::<(Protocol, Seq<char>), Seq<char>>((protocol, ip)),
        port != default_port ==> listen_parts(listen_text(protocol, ip, port, default_port))
            == Ok::<(Protocol, Seq<char>), Seq<char>>((protocol, ip + seq![':'] + dec_chars(port as nat))),
        port != default_port ==> split_once_exact(ip + seq![':'] + dec_chars(port as nat), ':')
            == Some((ip, dec_chars(port as nat))),
        port != default_port ==> port_value(dec_chars(port as nat)) == Some(port),
{
    reveal_strlit("bolt");
    reveal_strlit("bifrost");
    reveal_strlit("://");
    lemma_dec_chars(port as nat);
    lemma_parse_dec(port as u64);
    let d = dec_chars(port as nat);
    let name = protocol_text(protocol);
    let rest = if port == default_port { ip } else { ip + seq![':'] + d };
    let t = listen_text(protocol, ip, port, default_port);
    let n = name.len() as int;
    assert(t =~= name + "://"@ + rest);
    assert(forall|k: int| 0 <= k < n ==> name[k] != ':' && (name[k] as u32) < 128);
    assert(sep_at(t, n));
    assert forall|j: int| 0 <= j < n implies !#[trigger] sep_at(t, j) by {
        assert(t[j] == name[j]);
    }
    assert(first_sep(t, n));
    assert forall|k: int| #[trigger] first_sep(t, k) implies k == n by {
        if k < n {
            assert(!sep_at(t, k));
        }
        if k > n {
            assert(!sep_at(t, n));
        }
    }
    assert(t.take(n) =~= name);
    assert(all_ascii(name));
    assert(ascii_lowercase(name) =~= name);
    assert(protocol_named(name) == Some(protocol));
    assert forall|j: int| n + 3 <= j implies !#[trigger] sep_at(t, j) by {
        if sep_at(t, j) {
            let q = j - (n + 3);
            assert(rest[q] == ':');
            assert(!ip.contains(':') ==> q >= ip.len()) by {
                if q < ip.len() {
                    assert(ip[q] == rest[q]);
                }
            }
            if port == default_port {
                assert(ip[q] == rest[q]);
            } else {
                assert(q == ip.len()) by {
                    if q > ip.len() {
                        assert(rest[q] == d[q - ip.len() - 1]);
                        assert(crate::text::is_digit(d[q - ip.len() - 1]));
                    }
                }
                assert(rest[q + 1] == d[0]);
                assert(crate::text::is_digit(d[0]));
            }
        }
    }
    assert(t.skip(n + 3) =~= rest);
    if port != default_port {
        lemma_split_joined(ip, d, ':');
    }
}

/// `i` is where the first `:` of `s` stands.
pub open spec fn first_colon(s: Seq<char>, i: int) -> bool {
    &&& 0 <= i < s.len()
    &&& s[i] == ':'
    &&& forall|j: int| 0 <= j < i ==> s[j] != ':'
}

/// The parts of an `ip[:port]` text as splitting it at `:` yields them: the
/// first part, the second if there is one, and whether there are more.
#[derive(Clone, PartialEq, Eq, Debug)]
pub struct IpPortParts {
    pub ip: String,
    pub port: Option<String>,
    pub extra: bool,
}

/// Where the first `:` of `s` at or after `from` stands.
fn find_colon(s: &str, from: usize) -> (r: Option<usize>)
    requires
        from <= s@.len(),
    ensures
        match r {
            Some(i) => from <= i < s@.len() && s@[i as int] == ':' && forall|j: int| from <= j < i ==> s@[j] != ':',
            None => forall|j: int| from <= j < s@.len() ==> s@[j] != ':',
        },
{
    let len = s.unicode_len();
    let mut i = from;
    while i < len
        invariant
            from <= i <= len,
            len == s@.len(),
            forall|j: int| from <= j < i ==> s@[j] != ':',
        decreases len - i,
    {
        if s.get_char(i) == ':' {
            return Some(i);
        }
        i = i + 1;
    }
    None
}

/// Splits an `ip[:port]` text at its colons: the text before the first, the
/// text between the first and the second (or to the end), and whether a
/// second colon follows.
pub fn ip_port_parts(addr: &str) -> (r: IpPortParts)
    ensures
        !addr@.contains(':') ==> r.ip@ == addr@ && r.port is None && !r.extra,
        forall|i: int| #[trigger] first_colon(addr@, i) ==> {
            let rest = addr@.skip(i + 1);
            &&& r.ip@ == addr@.take(i)
            &&& !rest.contains(':') ==> (r.port matches Some(p) && p@ == rest) && !r.extra
            &&& forall|j: int| #[trigger] first_colon(rest, j) ==> (r.port matches Some(p) && p@ == rest.take(j)) && r.extra
        },
{
    let len = addr.unicode_len();
    match find_colon(addr, 0) {
        None => {
            proof {
                assert forall|k: int| 0 <= k < addr@.len() implies addr@[k] != ':' by {}
            }
            IpPortParts { ip: String::from_str(addr), port: None, extra: false }
        },
        Some(i) => {
            let ghost rest = addr@.skip(i + 1);
            proof {
                assert forall|k: int| #[trigger] first_colon(addr@, k) implies k == i by {
                    if k < i {
                        assert(addr@[k] != ':');
                    }
                    if k > i {
                        assert(addr@[i as int] == ':');
                    }
                }
            }
            let ip = String::from_str(addr.substring_char(0, i));
            assert(ip@ == addr@.take(i as int));
            match find_colon(addr, i + 1) {
                None => {
                    let port = addr.substring_char(i + 1, len);
                    proof {
                        assert(port@ =~= rest);
                        assert forall|k: int| 0 <= k < rest.len() implies rest[k] != ':' by {
                            assert(rest[k] == addr@[i + 1 + k]);
                        }
                        assert forall|j: int| !#[trigger] first_colon(rest, j) by {
                            if 0 <= j < rest.len() {
                                assert(rest[j] != ':');
                            }
                        }
                    }
                    IpPortParts { ip, port: Some(String::from_str(port)), extra: false }
                },
                Some(k) => {
                    let port = addr.substring_char(i + 1, k);
                    proof {
                        let j0 = k - (i + 1);
                        assert(rest[j0] == ':');
                        assert(rest.contains(':'));
                        assert forall|j: int| 0 <= j < j0 implies rest[j] != ':' by {
                            assert(rest[j] == addr@[i + 1 + j]);
                        }
                        assert(first_colon(rest, j0));
                        assert forall|j: int| #[trigger] first_colon(rest, j) implies j == j0 by {
                            if j < j0 {
                                assert(rest[j] != ':');
                            }
                            if j > j0 {
                                assert(rest[j0] == ':');
                            }
                        }
                        assert(port@ =~= rest.take(j0));
                    }
                    IpPortParts { ip, port: Some(String::from_str(port)), extra: true }
                },
            }
        },
    }
}

/// The value of a port number, as `u16::from_str` reads it.
pub open spec fn port_value(p: Seq<char>) -> Option<u16> {
    match parse_u64_spec(p) {
        Some(v) => if v <= u16::MAX {
            Some(v as u16)
        } else {
            None
        },
        None => None,
    }
}

/// Text of the error on an invalid IP address.
pub open spec fn bad_ip_text() -> Seq<char> {
    "The provided IP address is invalid"@
}

/// Text of the error on an invalid port number.
pub open spec fn bad_port_text(port: Seq<char>) -> Seq<char> {
    "The provided value for port ("@ + port + ") is invalid"@
}

/// Text of the error on a text with more than one colon.
pub open spec fn not_ip_text() -> Seq<char> {
    "The provided string neither represents IPv4 nor IPv6 address"@
}

/// The port of an `ip[:port]` text split by `ip_port_parts`, once the caller
/// has read the IP part (`ip_valid`). Checked in order: the IP address, the
/// port number (`default_port` where there is none), and that no further
/// colon follows.
pub fn conv_ip_port(parts: &IpPortParts, ip_valid: bool, default_port: u16) -> (r: Result<u16, String>)
    ensures
        !ip_valid ==> (r matches Err(e) && e@ == bad_ip_text()),
        ip_valid ==> match parts.port {
            Some(p) => match port_value(p@) {
                None => r matches Err(e) && e@ == bad_port_text(p@),
                Some(v) => if parts.extra {
                    r matches Err(e) && e@ == not_ip_text()
                } else {
                    r == Ok::<u16, String>(v)
                },
            },
            None => if parts.extra {
                r matches Err(e) && e@ == not_ip_text()
            } else {
                r == Ok::<u16, String>(default_port)
            },
        },
{
    if !ip_valid {
        return Err(String::from_str("The provided IP address is invalid"));
    }
    let port = match &parts.port {
        None => default_port,
        Some(p) => match parse_u64(p.as_str()) {
            Some(v) if v <= 65535 => v as u16,
            _ => {
                let mut e = String::from_str("The provided value for port (");
                e.append(p.as_str());
                e.append(") is invalid");
                return Err(e);
            },
        },
    };
    if parts.extra {
        return Err(String::from_str("The provided string neither represents IPv4 nor IPv6 address"));
    }
    Ok(port)
}

/// The compressed form of the public key that `secp256k1::PublicKey` reads
/// from a text (`FromStr`: the hexadecimal form of a compressed or an
/// uncompressed key), if it reads one.
pub uninterp spec fn pubkey_from_text(s: Seq<char>) -> Option<Seq<u8>>;

/// Calls `FromStr` of `bitcoin::secp256k1::PublicKey` on the text and, on
/// success, `serialize` for the compressed form of the key. The result
/// depends on the text alone; the contract names it and claims nothing more
/// of it.
#[verifier::external_body]
pub(crate) fn parse_pubkey(s: &str) -> (r: Option<[u8; 33]>)
    ensures
        match r {
            Some(k) => pubkey_from_text(s@) == Some(k@),
            None => pubkey_from_text(s@) is None,
        },
{
    match <bitcoin::secp256k1::PublicKey as std::str::FromStr>::from_str(s) {
        Ok(key) => Some(key.serialize()),
        Err(_) => None,
    }
}

/// Text of the error on a text that is no public key.
pub open spec fn bad_pubkey_text() -> Seq<char> {
    "The provided string does not correspond to a pubkey"@
}

/// The public key given on the command line, in its compressed form.
pub fn conv_pubkey(pubkey_str: &str) -> (r: Result<[u8; 33], String>)
    ensures
        match pubkey_from_text(pubkey_str@) {
            Some(k) => r matches Ok(b) && b@ == k,
            None => r matches Err(e) && e@ == bad_pubkey_text(),
        },
{
    match parse_pubkey(pubkey_str) {
        Some(key) => Ok(key),
        None => Err(String::from_str("The provided string does not correspond to a pubkey")),
    }
}

} // verus!
