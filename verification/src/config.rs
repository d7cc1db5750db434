//! The configuration of the relay.

use vstd::prelude::*;

verus! {

/// How many octets a key has.
pub const KEY_LEN: usize = 32;

/// How many octets a key has when it is written in Base64, with padding.
pub const KEY_TEXT_LEN: usize = 44;

/// The configuration of the relay.
#[derive(Clone, Debug)]
pub struct Config {
    /// The relay's own secret key, in Base64.
    pub private_key: String,
    /// The far end of the tunnel.
    pub peer: PeerConfig,
    /// The longest packet that goes into the tunnel.
    pub mtu: usize,
    /// The relay's own IPv4 address in the tunnel.
    pub ip4: [u8; 4],
    /// How domain names are resolved, if they are.
    pub dns: Option<DNSConfig>,
}

/// How domain names are resolved.
#[derive(Clone, Copy, Debug, PartialEq, Eq, Structural)]
pub enum DNSConfig {
    /// In a way that has a name.
    Special(SpecialDNSTypes),
}

/// The ways to resolve domain names that have a name.
#[derive(Clone, Copy, Debug, PartialEq, Eq, Structural)]
pub enum SpecialDNSTypes {
    /// By the resolver of the system.
    System,
}

/// The far end of the tunnel.
#[derive(Clone, Debug)]
pub struct PeerConfig {
    /// Where it takes datagrams.
    pub endpoint: Endpoint,
    /// Its public key, in Base64.
    pub public_key: String,
}

/// An address and a port.
#[derive(Clone, Copy, Debug)]
pub enum Endpoint {
    V4 { octets: [u8; 4], port: u16 },
    V6 { segments: [u16; 8], port: u16, flowinfo: u32, scope_id: u32 },
}

impl Endpoint {
    /// Whether the address is an IPv4 address.
    pub fn is_ipv4(&self) -> (r: bool)
        ensures
            r == (self is V4),
    {
        match self {
            Endpoint::V4 { .. } => true,
            Endpoint::V6 { .. } => false,
        }
    }

    /// The local address for datagrams to this endpoint: any address of the same family, on a
    /// port that the system picks.
    pub fn local_address(&self) -> (r: &'static str)
        ensures
            self is V4 ==> r@ == "0.0.0.0:0"@,
            self is V6 ==> r@ == "[::]:0"@,
    {
        if self.is_ipv4() {
            "0.0.0.0:0"
        } else {
            "[::]:0"
        }
    }
}

/// base64's error of decoding.
#[verifier::external_type_specification]
#[verifier::external_body]
pub struct ExDecodeError(base64::DecodeError);

/// The octets that `input` stands for in standard Base64, if it does for any.
pub uninterp spec fn base64_octets(input: Seq<u8>) -> Option<Seq<u8>>;

/// The character of standard Base64 for a number below 64.
pub open spec fn base64_digit(n: int) -> u8 {
    if n < 26 {
        (n + 65) as u8
    } else if n < 52 {
        (n - 26 + 97) as u8
    } else if n < 62 {
        (n - 52 + 48) as u8
    } else if n == 62 {
        43
    } else {
        47
    }
}

/// What `octets` are written as in standard Base64, with padding.
pub open spec fn base64_text(octets: Seq<u8>) -> Seq<u8>
    decreases octets.len(),
{
    if octets.len() == 0 {
        Seq::empty()
    } else if octets.len() == 1 {
        seq![
            base64_digit(octets[0] as int / 4),
            base64_digit(octets[0] as int % 4 * 16),
            61u8,
            61u8,
        ]
    } else if octets.len() == 2 {
        seq![
            base64_digit(octets[0] as int / 4),
            base64_digit(octets[0] as int % 4 * 16 + octets[1] as int / 16),
            base64_digit(octets[1] as int % 16 * 4),
            61u8,
        ]
    } else {
        seq![
            base64_digit(octets[0] as int / 4),
            base64_digit(octets[0] as int % 4 * 16 + octets[1] as int / 16),
            base64_digit(octets[1] as int % 16 * 4 + octets[2] as int / 64),
            base64_digit(octets[2] as int % 64),
        ] + base64_text(octets.skip(3))
    }
}

/// `base64::decode_config_slice`, for standard Base64: writes the octets that `input` stands for
/// to the front of `output` and returns how many they are, or fails where `input` stands for
/// none. What octets are written as, with padding, stands for these octets, and of a length that
/// is a multiple of four, nothing else does. It panics where `output` is too short; three octets for each four that are begun are
/// enough.
#[verifier::external_body]
fn decode_config_slice(input: &[u8], output: &mut Vec<u8>) -> (r: Result<
    usize,
    base64::DecodeError,
>)
    requires
        old(output)@.len() >= (input@.len() + 3) / 4 * 3,
    ensures
        final(output)@.len() == old(output)@.len(),
        r is Ok <==> base64_octets(input@) is Some,
        r matches Ok(n) ==> n <= final(output)@.len() && final(output)@.take(n as int)
            == base64_octets(input@)->Some_0,
        forall|octets: Seq<u8>|
            input@ == #[trigger] base64_text(octets) ==> r is Ok && final(output)@.take(
                r->Ok_0 as int,
            ) == octets,
        r is Ok && input@.len() % 4 == 0 ==> base64_text(final(output)@.take(r->Ok_0 as int))
            == input@,
{
    base64::decode_config_slice(input, base64::STANDARD, output)
}

/// The octets that the text `key` stands for in standard Base64, if it does for any.
pub open spec fn decoded(key: Seq<char>) -> Option<Seq<u8>> {
    base64_octets(vstd::utf8::encode_utf8(key))
}

/// Whether the text `key` stands for a key.
pub open spec fn is_key(key: Seq<char>) -> bool {
    decoded(key) matches Some(octets) && octets.len() == KEY_LEN
}

/// The octets that `key` stands for in standard Base64, if it does for any.
pub fn decode_base64(key: &str) -> (r: Option<Vec<u8>>)
    ensures
        r is Some <==> decoded(key@) is Some,
        r matches Some(octets) ==> octets@ == decoded(key@)->Some_0,
        forall|octets: Seq<u8>|
            vstd::utf8::encode_utf8(key@) == #[trigger] base64_text(octets) ==> (r matches Some(d)
                && d@ == octets),
        vstd::utf8::encode_utf8(key@).len() % 4 == 0 ==> (r matches Some(octets) ==> base64_text(
            octets@,
        ) == vstd::utf8::encode_utf8(key@)),
{
    let input = key.as_bytes();
    let mut output: Vec<u8> = vec![0; input.len() / 4 * 3 + 3];
    match decode_config_slice(input, &mut output) {
        Ok(n) => {
            output.truncate(n);
            Some(output)
        },
        Err(_) => None,
    }
}

/// The key that consists of `octets`, if they are as many as a key has.
pub fn key_from_octets(octets: &Vec<u8>) -> (r: Option<[u8; 32]>)
    ensures
        r is Some <==> octets@.len() == KEY_LEN,
        r matches Some(key) ==> key@ == octets@,
{
    if octets.len() != KEY_LEN {
        return None;
    }
    let mut key: [u8; 32] = [0; 32];
    let mut i: usize = 0;
    while i < KEY_LEN
        invariant
            i <= KEY_LEN,
            octets@.len() == KEY_LEN,
            key@.len() == KEY_LEN,
            key@.take(i as int) == octets@.take(i as int),
        decreases KEY_LEN - i,
    {
        key[i] = octets[i];
        assert(key@.take(i + 1) == key@.take(i as int).push(octets@[i as int]));
        assert(octets@.take(i + 1) == octets@.take(i as int).push(octets@[i as int]));
        i = i + 1;
    }
    assert(key@.take(KEY_LEN as int) == key@);
    assert(octets@.take(KEY_LEN as int) == octets@);
    Some(key)
}

/// The key that `key` stands for.
pub fn decode_base64_key(key: &str) -> (r: [u8; 32])
    requires
        is_key(key@),
    ensures
        r@ == decoded(key@)->Some_0,
        forall|octets: Seq<u8>|
            vstd::utf8::encode_utf8(key@) == #[trigger] base64_text(octets) ==> r@ == octets,
        vstd::utf8::encode_utf8(key@).len() == KEY_TEXT_LEN ==> base64_text(r@)
            == vstd::utf8::encode_utf8(key@),
{
    match decode_base64(key) {
        Some(octets) => match key_from_octets(&octets) {
            Some(decoded) => decoded,
            None => unreached(),
        },
        None => unreached(),
    }
}

/// The key that `key` stands for, or nothing where it stands for none.
pub fn try_decode_base64_key(key: &str) -> (r: Option<[u8; 32]>)
    ensures
        r is Some <==> is_key(key@),
        r matches Some(octets) ==> octets@ == decoded(key@)->Some_0,
        forall|octets: Seq<u8>|
            vstd::utf8::encode_utf8(key@) == #[trigger] base64_text(octets) && octets.len()
                == KEY_LEN ==> (r matches Some(k) && k@ == octets),
        vstd::utf8::encode_utf8(key@).len() == KEY_TEXT_LEN ==> (r matches Some(k) ==> base64_text(
            k@,
        ) == vstd::utf8::encode_utf8(key@)),
{
    match decode_base64(key) {
        Some(octets) => if octets.len() == KEY_LEN {
            Some(decode_base64_key(key))
        } else {
            None
        },
        None => None,
    }
}

/// Two keys written in Base64, with padding, that stand for the same octets are the same text.
pub proof fn law_keys_are_told_apart(a: Seq<char>, b: Seq<char>, octets: Seq<u8>)
    requires
        vstd::utf8::encode_utf8(a) == base64_text(octets),
        vstd::utf8::encode_utf8(b) == base64_text(octets),
    ensures
        a == b,
{
    vstd::utf8::encode_utf8_decode_utf8(a);
    vstd::utf8::encode_utf8_decode_utf8(b);
}

/// A text is a key if and only if it stands for 32 octets.
pub proof fn law_key_has_32_octets(key: Seq<char>)
    ensures
        is_key(key) <==> decoded(key) is Some && decoded(key)->Some_0.len() == 32,
        decoded(key) == base64_octets(vstd::utf8::encode_utf8(key)),
{
}

} // verus!
