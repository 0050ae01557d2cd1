//! The SNMP side of the monitor: which credentials and OIDs a poll uses,
//! and how the values that come back are rendered as text.
use vstd::prelude::*;
use vstd::string::*;
use vstd::utf8::{decode_utf8, valid_utf8};
use async_snmp::{Auth, Oid, UsmBuilder};
use async_snmp::v3::{AuthProtocol, PrivProtocol};
use crate::config::SnmpConfig;
use crate::text::{
    chars_eq, chars_of, decimal, find, lemma_parse_decimal_roundtrip, parse_decimal,
    parse_u32_spec, push_decimal, str_eq, string_of_range, to_ascii_lowercase, trim, trim_bounds,
    trim_end, trim_lowercase, trim_start,
};

verus! {

#[verifier::external_type_specification]
#[verifier::external_body]
pub struct ExAuth(Auth);

#[verifier::external_type_specification]
#[verifier::external_body]
pub struct ExUsmBuilder(UsmBuilder);

#[verifier::external_type_specification]
#[verifier::external_body]
pub struct ExOid(Oid);

/// Why a poll failed.
#[derive(Debug)]
pub enum SnmpError {
    InvalidOid { oid: String, details: String },
    UnsupportedVersion(String),
    UnsupportedSecurityLevel(String),
    UnsupportedAuthProtocol(String),
    UnsupportedPrivacyProtocol(String),
    MissingSecurityField { field: String, security_level: String },
    /// The exchange with the agent failed.
    Protocol(String),
    /// No runtime could be started for the exchange.
    Runtime(String),
    WrongValueCount { expected: usize, actual: usize },
}

/// A source of SNMP values: one value, rendered as text, per requested OID.
pub trait SnmpClient {
    fn get_many(&self, oids: &[String]) -> Result<Vec<String>, SnmpError>;
}

/// The client that polls the card named in the configuration.
#[derive(Debug, Clone)]
pub struct RustSnmpClient {
    config: SnmpConfig,
}

/// SNMPv3 authentication algorithms.
#[derive(Debug, Clone, Copy, PartialEq, Eq, Structural)]
pub enum AuthAlgorithm {
    Md5,
    Sha1,
    Sha224,
    Sha256,
    Sha384,
    Sha512,
}

/// SNMPv3 privacy algorithms.
#[derive(Debug, Clone, Copy, PartialEq, Eq, Structural)]
pub enum PrivacyAlgorithm {
    Des,
    Aes128,
    Aes192,
    Aes256,
}

/// What `Auth::v1` builds for a community.
pub uninterp spec fn community_v1_auth(community: Seq<char>) -> Auth;

/// What `Auth::v2c` builds for a community.
pub uninterp spec fn community_v2c_auth(community: Seq<char>) -> Auth;

/// What `Auth::usm` starts for a user.
pub uninterp spec fn usm_for_user(username: Seq<char>) -> UsmBuilder;

/// What `UsmBuilder::auth` makes of a builder.
pub uninterp spec fn usm_with_auth(
    builder: UsmBuilder,
    algorithm: AuthAlgorithm,
    password: Seq<char>,
) -> UsmBuilder;

/// What `UsmBuilder::privacy` makes of a builder.
pub uninterp spec fn usm_with_privacy(
    builder: UsmBuilder,
    algorithm: PrivacyAlgorithm,
    password: Seq<char>,
) -> UsmBuilder;

/// What `Auth::from` makes of a finished USM builder.
pub uninterp spec fn usm_auth(builder: UsmBuilder) -> Auth;

/// What `Oid::parse` makes of an OID in text.
pub uninterp spec fn parsed_oid(text: Seq<char>) -> Oid;

/// Calls `Auth::v1`, which holds the community for SNMPv1.
#[verifier::external_body]
fn auth_v1(community: &str) -> (r: Auth)
    ensures
        r == community_v1_auth(community@),
{
    Auth::v1(community)
}

/// Calls `Auth::v2c`, which holds the community for SNMPv2c.
#[verifier::external_body]
fn auth_v2c(community: &str) -> (r: Auth)
    ensures
        r == community_v2c_auth(community@),
{
    Auth::v2c(community)
}

/// Calls `Auth::usm`, which starts a USM configuration for the user.
#[verifier::external_body]
fn usm(username: &str) -> (r: UsmBuilder)
    ensures
        r == usm_for_user(username@),
{
    Auth::usm(username)
}

/// Calls `UsmBuilder::auth`, which records the authentication algorithm
/// and password.
#[verifier::external_body]
fn with_auth(builder: UsmBuilder, algorithm: AuthAlgorithm, password: &str) -> (r: UsmBuilder)
    ensures
        r == usm_with_auth(builder, algorithm, password@),
{
    let protocol = match algorithm {
        AuthAlgorithm::Md5 => AuthProtocol::Md5,
        AuthAlgorithm::Sha1 => AuthProtocol::Sha1,
        AuthAlgorithm::Sha224 => AuthProtocol::Sha224,
        AuthAlgorithm::Sha256 => AuthProtocol::Sha256,
        AuthAlgorithm::Sha384 => AuthProtocol::Sha384,
        AuthAlgorithm::Sha512 => AuthProtocol::Sha512,
    };
    builder.auth(protocol, password)
}

/// Calls `UsmBuilder::privacy`, which records the privacy algorithm and
/// password.
#[verifier::external_body]
fn with_privacy(builder: UsmBuilder, algorithm: PrivacyAlgorithm, password: &str) -> (r: UsmBuilder)
    ensures
        r == usm_with_privacy(builder, algorithm, password@),
{
    let protocol = match algorithm {
        PrivacyAlgorithm::Des => PrivProtocol::Des,
        PrivacyAlgorithm::Aes128 => PrivProtocol::Aes128,
        PrivacyAlgorithm::Aes192 => PrivProtocol::Aes192,
        PrivacyAlgorithm::Aes256 => PrivProtocol::Aes256,
    };
    builder.privacy(protocol, password)
}

/// Calls `Auth::from` on a USM builder, which finishes the configuration.
#[verifier::external_body]
fn finish_usm(builder: UsmBuilder) -> (r: Auth)
    ensures
        r == usm_auth(builder),
{
    Auth::from(builder)
}


/// `Oid::parse` accepts an OID written as decimal arcs separated by dots,
/// with an optional leading dot; nothing at all is the empty OID.
pub open spec fn oid_text_valid(s: Seq<char>) -> bool {
    let t = if s.len() > 0 && s[0] == '.' {
        s.drop_first()
    } else {
        s
    };
    t.len() == 0 || arcs_valid(t)
}

/// Every dot-separated part is a `u32` in decimal.
pub open spec fn arcs_valid(t: Seq<char>) -> bool
    decreases t.len(),
{
    match find(t, '.') {
        None => parse_decimal(t) is Some,
        Some(i) => if 0 <= i < t.len() {
            parse_decimal(t.subrange(0, i)) is Some && arcs_valid(t.subrange(i + 1, t.len() as int))
        } else {
            false
        },
    }
}

/// Calls `Oid::parse`; a refusal is reported as the error's `Debug` text.
#[verifier::external_body]
fn parse_oid(text: &str) -> (r: Result<Oid, String>)
    ensures
        r is Ok <==> oid_text_valid(text@),
        r matches Ok(oid) ==> oid == parsed_oid(text@),
{
    match Oid::parse(text) {
        Ok(oid) => Ok(oid),
        Err(source) => Err(format!("{source:?}")),
    }
}

/// The OIDs of a request, each parsed; the first that cannot be parsed is
/// reported.
pub fn parse_oids(oids: &[String]) -> (r: Result<Vec<Oid>, SnmpError>)
    ensures
        r is Ok <==> forall|i: int| 0 <= i < oids@.len() ==> oid_text_valid(#[trigger] oids@[i]@),
        r matches Ok(parsed) ==> parsed@.len() == oids@.len() && forall|i: int|
            0 <= i < oids@.len() ==> #[trigger] parsed@[i] == parsed_oid(oids@[i]@),
        r matches Err(e) ==> (e matches SnmpError::InvalidOid { oid, .. } && exists|i: int|
            0 <= i < oids@.len() && !oid_text_valid(#[trigger] oids@[i]@) && oid@ == oids@[i]@
                && forall|j: int| 0 <= j < i ==> oid_text_valid(#[trigger] oids@[j]@)),
{
    let mut parsed: Vec<Oid> = Vec::new();
    let mut i: usize = 0;
    while i < oids.len()
        invariant
            i <= oids@.len(),
            parsed@.len() == i,
            forall|j: int| 0 <= j < i ==> oid_text_valid(#[trigger] oids@[j]@),
            forall|j: int| 0 <= j < i ==> #[trigger] parsed@[j] == parsed_oid(oids@[j]@),
        decreases oids@.len() - i,
    {
        match parse_oid(oids[i].as_str()) {
            Ok(oid) => parsed.push(oid),
            Err(details) => {
                return Err(SnmpError::InvalidOid { oid: oids[i].clone(), details });
            },
        }
        i = i + 1;
    }
    Ok(parsed)
}

/// A value as the agent returned it.
#[derive(Debug, Clone)]
pub enum SnmpValue {
    Integer(i32),
    OctetString(Vec<u8>),
    Null,
    /// The arcs of an OID.
    ObjectIdentifier(Vec<u32>),
    IpAddress([u8; 4]),
    Counter32(u32),
    Gauge32(u32),
    UInteger32(u32),
    TimeTicks(u32),
    Opaque(Vec<u8>),
    Nsap(Vec<u8>),
    Counter64(u64),
    NoSuchObject,
    NoSuchInstance,
    EndOfMibView,
    Unknown { tag: u8, data: Vec<u8> },
    /// A kind of value without a rendering of its own, as the SNMP library
    /// displays it.
    Displayed(String),
}

pub open spec fn hex_digit(d: nat) -> char {
    if d < 10 {
        (('0' as u32) + d) as char
    } else {
        (('a' as u32) + d - 10) as char
    }
}

/// A byte as two lower-case hex digits (`{:02x}`).
pub open spec fn hex_byte(b: u8) -> Seq<char> {
    seq![hex_digit((b / 16) as nat), hex_digit((b % 16) as nat)]
}

/// Bytes as hex pairs separated by colons.
pub open spec fn colon_hex(s: Seq<u8>) -> Seq<char>
    decreases s.len(),
{
    if s.len() == 0 {
        Seq::empty()
    } else if s.len() == 1 {
        hex_byte(s[0])
    } else {
        colon_hex(s.drop_last()).push(':') + hex_byte(s.last())
    }
}

/// Bytes as hex pairs with nothing between them.
pub open spec fn plain_hex(s: Seq<u8>) -> Seq<char>
    decreases s.len(),
{
    if s.len() == 0 {
        Seq::empty()
    } else {
        plain_hex(s.drop_last()) + hex_byte(s.last())
    }
}

/// Numbers in decimal, separated by dots.
pub open spec fn dotted(s: Seq<nat>) -> Seq<char>
    decreases s.len(),
{
    if s.len() == 0 {
        Seq::empty()
    } else if s.len() == 1 {
        decimal(s[0])
    } else {
        dotted(s.drop_last()).push('.') + decimal(s.last())
    }
}

pub open spec fn signed_decimal(v: int) -> Seq<char> {
    if v < 0 {
        seq!['-'] + decimal((-v) as nat)
    } else {
        decimal(v as nat)
    }
}

/// The text that stands for a value in a sample.
pub open spec fn value_text(v: SnmpValue) -> Seq<char> {
    match v {
        SnmpValue::Integer(n) => signed_decimal(n as int),
        SnmpValue::OctetString(bytes) => if valid_utf8(bytes@) {
            decode_utf8(bytes@)
        } else {
            colon_hex(bytes@)
        },
        SnmpValue::Null => "null"@,
        SnmpValue::ObjectIdentifier(arcs) => dotted(arcs@.map_values(|a: u32| a as nat)),
        SnmpValue::IpAddress(a) => dotted(
            seq![a@[0] as nat, a@[1] as nat, a@[2] as nat, a@[3] as nat],
        ),
        SnmpValue::Counter32(n) => decimal(n as nat),
        SnmpValue::Gauge32(n) => decimal(n as nat),
        SnmpValue::TimeTicks(n) => decimal(n as nat),
        SnmpValue::UInteger32(n) => decimal(n as nat),
        SnmpValue::Counter64(n) => decimal(n as nat),
        SnmpValue::Opaque(bytes) => colon_hex(bytes@),
        SnmpValue::Nsap(bytes) => "0x"@ + plain_hex(bytes@),
        SnmpValue::NoSuchObject => "no_such_object"@,
        SnmpValue::NoSuchInstance => "no_such_instance"@,
        SnmpValue::EndOfMibView => "end_of_mib_view"@,
        SnmpValue::Unknown { tag, data } => "unknown(tag=0x"@ + hex_byte(tag) + ", data="@
            + colon_hex(data@) + ")"@,
        SnmpValue::Displayed(text) => text@,
    }
}

/// Calls `std::str::from_utf8`, which accepts exactly the valid UTF-8
/// byte sequences and decodes them.
#[verifier::external_body]
fn utf8_text(bytes: &[u8]) -> (r: Option<&str>)
    ensures
        r is Some <==> valid_utf8(bytes@),
        r matches Some(s) ==> s@ == decode_utf8(bytes@),
{
    match std::str::from_utf8(bytes) {
        Ok(text) => Some(text),
        Err(_) => None,
    }
}

fn hex_digit_char(d: u8) -> (r: char)
    requires
        d < 16,
    ensures
        r == hex_digit(d as nat),
{
    if d < 10 {
        (48u8 + d) as char
    } else {
        (87u8 + d) as char
    }
}

fn push_hex_byte(s: &mut String, b: u8)
    ensures
        final(s)@ == old(s)@ + hex_byte(b),
{
    s.push(hex_digit_char(b / 16));
    s.push(hex_digit_char(b % 16));
    proof {
        assert(final(s)@ =~= old(s)@ + hex_byte(b));
    }
}

/// Bytes as colon-separated hex pairs, as in `0a:ff:10`.
pub fn bytes_to_hex(bytes: &[u8]) -> (r: String)
    ensures
        r@ == colon_hex(bytes@),
{
    let mut s = String::new();
    let mut i: usize = 0;
    while i < bytes.len()
        invariant
            i <= bytes@.len(),
            s@ == colon_hex(bytes@.subrange(0, i as int)),
        decreases bytes@.len() - i,
    {
        let ghost p = bytes@.subrange(0, i + 1);
        proof {
            assert(p.drop_last() =~= bytes@.subrange(0, i as int));
        }
        if i > 0 {
            s.push(':');
        }
        push_hex_byte(&mut s, bytes[i]);
        proof {
            if i == 0 {
                assert(s@ =~= colon_hex(p));
            }
        }
        i = i + 1;
    }
    proof {
        assert(bytes@.subrange(0, bytes@.len() as int) =~= bytes@);
    }
    s
}

fn plain_hex_string(bytes: &[u8]) -> (r: String)
    ensures
        r@ == plain_hex(bytes@),
{
    let mut s = String::new();
    let mut i: usize = 0;
    while i < bytes.len()
        invariant
            i <= bytes@.len(),
            s@ == plain_hex(bytes@.subrange(0, i as int)),
        decreases bytes@.len() - i,
    {
        let ghost p = bytes@.subrange(0, i + 1);
        proof {
            assert(p.drop_last() =~= bytes@.subrange(0, i as int));
        }
        push_hex_byte(&mut s, bytes[i]);
        i = i + 1;
    }
    proof {
        assert(bytes@.subrange(0, bytes@.len() as int) =~= bytes@);
    }
    s
}

fn dotted_string(parts: &[u32]) -> (r: String)
    ensures
        r@ == dotted(parts@.map_values(|a: u32| a as nat)),
{
    let ghost all = parts@.map_values(|a: u32| a as nat);
    let mut s = String::new();
    let mut i: usize = 0;
    while i < parts.len()
        invariant
            i <= parts@.len(),
            all == parts@.map_values(|a: u32| a as nat),
            s@ == dotted(all.subrange(0, i as int)),
        decreases parts@.len() - i,
    {
        let ghost p = all.subrange(0, i + 1);
        proof {
            assert(p.drop_last() =~= all.subrange(0, i as int));
            assert(p.last() == parts@[i as int] as nat);
        }
        if i > 0 {
            s.push('.');
        }
        push_decimal(&mut s, parts[i] as u64);
        proof {
            if i == 0 {
                assert(s@ =~= dotted(p));
            }
        }
        i = i + 1;
    }
    proof {
        assert(all.subrange(0, parts@.len() as int) =~= all);
    }
    s
}

fn literal(text: &str) -> (r: String)
    ensures
        r@ == text@,
{
    String::from_str(text)
}

/// The text that stands for a value in a sample (see [`value_text`]).
pub fn value_to_string(value: SnmpValue) -> (r: String)
    ensures
        r@ == value_text(value),
{
    match value {
        SnmpValue::Integer(n) => {
            let mut s = String::new();
            if n < 0 {
                s.push('-');
                let magnitude: u64 = (0i64 - n as i64) as u64;
                push_decimal(&mut s, magnitude);
            } else {
                push_decimal(&mut s, n as u64);
            }
            proof {
                assert(s@ =~= signed_decimal(n as int));
            }
            s
        },
        SnmpValue::OctetString(bytes) => match utf8_text(bytes.as_slice()) {
            Some(text) => String::from_str(text),
            None => bytes_to_hex(bytes.as_slice()),
        },
        SnmpValue::Null => literal("null"),
        SnmpValue::ObjectIdentifier(arcs) => dotted_string(arcs.as_slice()),
        SnmpValue::IpAddress(a) => {
            let parts: Vec<u32> = vec![a[0] as u32, a[1] as u32, a[2] as u32, a[3] as u32];
            let s = dotted_string(parts.as_slice());
            proof {
                assert(parts@.map_values(|x: u32| x as nat) =~= seq![
                    a@[0] as nat,
                    a@[1] as nat,
                    a@[2] as nat,
                    a@[3] as nat,
                ]);
            }
            s
        },
        SnmpValue::Counter32(n) | SnmpValue::Gauge32(n) | SnmpValue::TimeTicks(n)
        | SnmpValue::UInteger32(n) => {
            let mut s = String::new();
            push_decimal(&mut s, n as u64);
            proof {
                assert(s@ =~= decimal(n as nat));
            }
            s
        },
        SnmpValue::Counter64(n) => {
            let mut s = String::new();
            push_decimal(&mut s, n);
            proof {
                assert(s@ =~= decimal(n as nat));
            }
            s
        },
        SnmpValue::Opaque(bytes) => bytes_to_hex(bytes.as_slice()),
        SnmpValue::Nsap(bytes) => {
            let mut s = literal("0x");
            let hex = plain_hex_string(bytes.as_slice());
            s.append(hex.as_str());
            s
        },
        SnmpValue::NoSuchObject => literal("no_such_object"),
        SnmpValue::NoSuchInstance => literal("no_such_instance"),
        SnmpValue::EndOfMibView => literal("end_of_mib_view"),
        SnmpValue::Unknown { tag, data } => {
            let mut s = literal("unknown(tag=0x");
            push_hex_byte(&mut s, tag);
            s.append(", data=");
            let hex = bytes_to_hex(data.as_slice());
            s.append(hex.as_str());
            s.append(")");
            s
        },
        SnmpValue::Displayed(text) => text,
    }
}

/// Checks that a response holds one value per requested OID.
pub fn check_value_count(expected: usize, values: Vec<String>) -> (r: Result<Vec<String>, SnmpError>)
    ensures
        values@.len() == expected ==> r == Ok::<Vec<String>, SnmpError>(values),
        values@.len() != expected ==> (r matches Err(
            SnmpError::WrongValueCount { expected: e, actual: a },
        ) && e == expected && a == values@.len()),
{
    if values.len() != expected {
        let actual = values.len();
        return Err(SnmpError::WrongValueCount { expected, actual });
    }
    Ok(values)
}


/// The algorithm that a configured name selects, if any.
pub open spec fn auth_algorithm_named(name: Seq<char>) -> Option<AuthAlgorithm> {
    if name == "md5"@ {
        Some(AuthAlgorithm::Md5)
    } else if name == "sha"@ || name == "sha1"@ {
        Some(AuthAlgorithm::Sha1)
    } else if name == "sha224"@ {
        Some(AuthAlgorithm::Sha224)
    } else if name == "sha256"@ {
        Some(AuthAlgorithm::Sha256)
    } else if name == "sha384"@ {
        Some(AuthAlgorithm::Sha384)
    } else if name == "sha512"@ {
        Some(AuthAlgorithm::Sha512)
    } else {
        None
    }
}

/// The algorithm that a configured name selects, if any.
pub open spec fn privacy_algorithm_named(name: Seq<char>) -> Option<PrivacyAlgorithm> {
    if name == "des"@ {
        Some(PrivacyAlgorithm::Des)
    } else if name == "aes"@ || name == "aes128"@ {
        Some(PrivacyAlgorithm::Aes128)
    } else if name == "aes192"@ {
        Some(PrivacyAlgorithm::Aes192)
    } else if name == "aes256"@ {
        Some(PrivacyAlgorithm::Aes256)
    } else {
        None
    }
}

/// A configured name as it is compared: trimmed and lower-cased, with a
/// default when nothing is configured.
pub open spec fn setting_name(value: Option<String>, default: Seq<char>) -> Seq<char> {
    to_ascii_lowercase(
        trim(
            match value {
                Some(v) => v@,
                None => default,
            },
        ),
    )
}

/// A secret that the security level needs: present and not empty.
pub open spec fn secret_given(value: Option<String>) -> bool {
    value matches Some(v) && v@.len() > 0
}

fn is_named(name: &Vec<char>, literal: &str) -> (r: bool)
    ensures
        r == (name@ == literal@),
{
    let l = chars_of(literal);
    chars_eq(name.as_slice(), l.as_slice())
}

fn option_str<'a>(value: &'a Option<String>, default: &'static str) -> (r: &'a str)
    ensures
        r@ == match value {
            Some(v) => v@,
            None => default@,
        },
{
    match value {
        Some(v) => v.as_str(),
        None => default,
    }
}

/// The secret that a security level needs, or the error that names it.
fn required_secret<'a>(value: &'a Option<String>, field: &str, security_level: &str) -> (r: Result<
    &'a String,
    SnmpError,
>)
    ensures
        secret_given(*value) ==> (r matches Ok(v) && Some(*v) == *value),
        !secret_given(*value) ==> (r matches Err(
            SnmpError::MissingSecurityField { field: f, security_level: l },
        ) && f@ == field@ && l@ == security_level@),
{
    match value {
        Some(secret) => {
            if secret.as_str().unicode_len() > 0 {
                return Ok(secret);
            }
        },
        None => {},
    }
    Err(
        SnmpError::MissingSecurityField {
            field: String::from_str(field),
            security_level: String::from_str(security_level),
        },
    )
}

/// The authentication algorithm that the configuration names (SHA-1 when
/// it names none).
fn parse_auth_protocol(protocol: &Option<String>) -> (r: Result<AuthAlgorithm, SnmpError>)
    ensures
        match auth_algorithm_named(setting_name(*protocol, "sha1"@)) {
            Some(a) => r == Ok::<AuthAlgorithm, SnmpError>(a),
            None => r matches Err(SnmpError::UnsupportedAuthProtocol(n)) && n@ == setting_name(
                *protocol,
                "sha1"@,
            ),
        },
{
    let name = trim_lowercase(option_str(protocol, "sha1"));
    if is_named(&name, "md5") {
        Ok(AuthAlgorithm::Md5)
    } else if is_named(&name, "sha") || is_named(&name, "sha1") {
        Ok(AuthAlgorithm::Sha1)
    } else if is_named(&name, "sha224") {
        Ok(AuthAlgorithm::Sha224)
    } else if is_named(&name, "sha256") {
        Ok(AuthAlgorithm::Sha256)
    } else if is_named(&name, "sha384") {
        Ok(AuthAlgorithm::Sha384)
    } else if is_named(&name, "sha512") {
        Ok(AuthAlgorithm::Sha512)
    } else {
        Err(SnmpError::UnsupportedAuthProtocol(string_of_range(name.as_slice(), 0, name.len())))
    }
}

/// The privacy algorithm that the configuration names (AES-128 when it
/// names none).
fn parse_privacy_protocol(protocol: &Option<String>) -> (r: Result<PrivacyAlgorithm, SnmpError>)
    ensures
        match privacy_algorithm_named(setting_name(*protocol, "aes128"@)) {
            Some(a) => r == Ok::<PrivacyAlgorithm, SnmpError>(a),
            None => r matches Err(SnmpError::UnsupportedPrivacyProtocol(n)) && n@ == setting_name(
                *protocol,
                "aes128"@,
            ),
        },
{
    let name = trim_lowercase(option_str(protocol, "aes128"));
    if is_named(&name, "des") {
        Ok(PrivacyAlgorithm::Des)
    } else if is_named(&name, "aes") || is_named(&name, "aes128") {
        Ok(PrivacyAlgorithm::Aes128)
    } else if is_named(&name, "aes192") {
        Ok(PrivacyAlgorithm::Aes192)
    } else if is_named(&name, "aes256") {
        Ok(PrivacyAlgorithm::Aes256)
    } else {
        Err(SnmpError::UnsupportedPrivacyProtocol(string_of_range(name.as_slice(), 0, name.len())))
    }
}

/// The error that names a secret missing for the configured security level.
pub open spec fn missing_field(c: SnmpConfig, field: Seq<char>, r: Result<Auth, SnmpError>) -> bool {
    r matches Err(SnmpError::MissingSecurityField { field: f, security_level: l }) && f@ == field
        && l@ == c.security_level@
}

/// What [`build_v3_auth`] makes of a configuration.
pub open spec fn v3_auth_outcome(c: SnmpConfig, r: Result<Auth, SnmpError>) -> bool {
    let level = to_ascii_lowercase(trim(c.security_level@));
    let auth_name = setting_name(c.auth_protocol, "sha1"@);
    let privacy_name = setting_name(c.privacy_protocol, "aes128"@);
    if level == "noauthnopriv"@ {
        r == Ok::<Auth, SnmpError>(usm_auth(usm_for_user(c.username@)))
    } else if level == "authnopriv"@ {
        if !secret_given(c.auth_password) {
            missing_field(c, "auth_password"@, r)
        } else {
            match auth_algorithm_named(auth_name) {
                None => r matches Err(SnmpError::UnsupportedAuthProtocol(n)) && n@ == auth_name,
                Some(a) => r == Ok::<Auth, SnmpError>(
                    usm_auth(usm_with_auth(usm_for_user(c.username@), a, c.auth_password->0@)),
                ),
            }
        }
    } else if level == "authpriv"@ {
        if !secret_given(c.auth_password) {
            missing_field(c, "auth_password"@, r)
        } else if !secret_given(c.privacy_password) {
            missing_field(c, "privacy_password"@, r)
        } else {
            match auth_algorithm_named(auth_name) {
                None => r matches Err(SnmpError::UnsupportedAuthProtocol(n)) && n@ == auth_name,
                Some(a) => match privacy_algorithm_named(privacy_name) {
                    None => r matches Err(SnmpError::UnsupportedPrivacyProtocol(n)) && n@
                        == privacy_name,
                    Some(p) => r == Ok::<Auth, SnmpError>(
                        usm_auth(
                            usm_with_privacy(
                                usm_with_auth(
                                    usm_for_user(c.username@),
                                    a,
                                    c.auth_password->0@,
                                ),
                                p,
                                c.privacy_password->0@,
                            ),
                        ),
                    ),
                },
            }
        }
    } else {
        r matches Err(SnmpError::UnsupportedSecurityLevel(l)) && l@ == level
    }
}

/// The SNMPv3 credentials for a configuration: the user, with an
/// authentication and a privacy algorithm and password as its security
/// level asks.
pub fn build_v3_auth(config: &SnmpConfig) -> (r: Result<Auth, SnmpError>)
    ensures
        v3_auth_outcome(*config, r),
{
    let level = trim_lowercase(config.security_level.as_str());
    if is_named(&level, "noauthnopriv") {
        let builder = usm(config.username.as_str());
        Ok(finish_usm(builder))
    } else if is_named(&level, "authnopriv") {
        let auth_password = match required_secret(
            &config.auth_password,
            "auth_password",
            config.security_level.as_str(),
        ) {
            Ok(p) => p,
            Err(e) => return Err(e),
        };
        let algorithm = match parse_auth_protocol(&config.auth_protocol) {
            Ok(a) => a,
            Err(e) => return Err(e),
        };
        let builder = usm(config.username.as_str());
        let builder = with_auth(builder, algorithm, auth_password.as_str());
        Ok(finish_usm(builder))
    } else if is_named(&level, "authpriv") {
        let auth_password = match required_secret(
            &config.auth_password,
            "auth_password",
            config.security_level.as_str(),
        ) {
            Ok(p) => p,
            Err(e) => return Err(e),
        };
        let privacy_password = match required_secret(
            &config.privacy_password,
            "privacy_password",
            config.security_level.as_str(),
        ) {
            Ok(p) => p,
            Err(e) => return Err(e),
        };
        let auth_algorithm = match parse_auth_protocol(&config.auth_protocol) {
            Ok(a) => a,
            Err(e) => return Err(e),
        };
        let privacy_algorithm = match parse_privacy_protocol(&config.privacy_protocol) {
            Ok(a) => a,
            Err(e) => return Err(e),
        };
        let builder = usm(config.username.as_str());
        let builder = with_auth(builder, auth_algorithm, auth_password.as_str());
        let builder = with_privacy(builder, privacy_algorithm, privacy_password.as_str());
        Ok(finish_usm(builder))
    } else {
        proof {
            assert(level@.subrange(0, level@.len() as int) =~= level@);
        }
        Err(SnmpError::UnsupportedSecurityLevel(string_of_range(level.as_slice(), 0, level.len())))
    }
}

/// What [`RustSnmpClient::build_auth`] makes of a configuration.
pub open spec fn auth_outcome(c: SnmpConfig, r: Result<Auth, SnmpError>) -> bool {
    let version = trim(c.version@);
    if version == "1"@ {
        r == Ok::<Auth, SnmpError>(community_v1_auth(c.username@))
    } else if version == "2"@ || version == "2c"@ {
        r == Ok::<Auth, SnmpError>(community_v2c_auth(c.username@))
    } else if version == "3"@ {
        v3_auth_outcome(c, r)
    } else {
        r matches Err(SnmpError::UnsupportedVersion(v)) && v@ == version
    }
}

impl RustSnmpClient {
    pub fn new(config: SnmpConfig) -> (r: RustSnmpClient)
        ensures
            r.config() == config,
    {
        RustSnmpClient { config }
    }

    pub closed spec fn config(&self) -> SnmpConfig {
        self.config
    }

    /// The configuration that the client polls with.
    pub fn settings(&self) -> (r: &SnmpConfig)
        ensures
            *r == self.config(),
    {
        &self.config
    }

    /// The credentials for the configured SNMP version: the community for
    /// v1 and v2c (the configured user name), USM for v3.
    pub fn build_auth(&self) -> (r: Result<Auth, SnmpError>)
        ensures
            auth_outcome(self.config(), r),
    {
        let v = chars_of(self.config.version.as_str());
        let (a, b) = trim_bounds(v.as_slice());
        let version = string_of_range(v.as_slice(), a, b);
        if str_eq(version.as_str(), "1") {
            Ok(auth_v1(self.config.username.as_str()))
        } else if str_eq(version.as_str(), "2") || str_eq(version.as_str(), "2c") {
            Ok(auth_v2c(self.config.username.as_str()))
        } else if str_eq(version.as_str(), "3") {
            build_v3_auth(&self.config)
        } else {
            Err(SnmpError::UnsupportedVersion(version))
        }
    }
}

/// Numbers are rendered so that they read back: a non-negative integer,
/// a counter, a gauge or a time-ticks value gives the text that `parse_u32`
/// reads as the same number, and a negative integer gives `-` before the
/// text of its magnitude.
pub proof fn lemma_numbers_read_back(n: i32, u: u32)
    ensures
        n >= 0 ==> parse_u32_spec(value_text(SnmpValue::Integer(n))) == Some(n as u32),
        n < 0 ==> value_text(SnmpValue::Integer(n)).len() > 0 && value_text(
            SnmpValue::Integer(n),
        )[0] == '-' && parse_u32_spec(value_text(SnmpValue::Integer(n)).drop_first()) == Some(
            (-n) as u32,
        ),
        parse_u32_spec(value_text(SnmpValue::Counter32(u))) == Some(u),
        parse_u32_spec(value_text(SnmpValue::Gauge32(u))) == Some(u),
        parse_u32_spec(value_text(SnmpValue::TimeTicks(u))) == Some(u),
        parse_u32_spec(value_text(SnmpValue::UInteger32(u))) == Some(u),
{
    lemma_parse_decimal_roundtrip(u);
    if n >= 0 {
        lemma_parse_decimal_roundtrip(n as u32);
    } else {
        let m = (-n) as u32;
        lemma_parse_decimal_roundtrip(m);
        assert((seq!['-'] + decimal(m as nat)).drop_first() =~= decimal(m as nat));
    }
}

/// The usual name of each authentication algorithm.
pub open spec fn auth_algorithm_name(a: AuthAlgorithm) -> Seq<char> {
    match a {
        AuthAlgorithm::Md5 => "md5"@,
        AuthAlgorithm::Sha1 => "sha1"@,
        AuthAlgorithm::Sha224 => "sha224"@,
        AuthAlgorithm::Sha256 => "sha256"@,
        AuthAlgorithm::Sha384 => "sha384"@,
        AuthAlgorithm::Sha512 => "sha512"@,
    }
}

/// The usual name of each privacy algorithm.
pub open spec fn privacy_algorithm_name(p: PrivacyAlgorithm) -> Seq<char> {
    match p {
        PrivacyAlgorithm::Des => "des"@,
        PrivacyAlgorithm::Aes128 => "aes128"@,
        PrivacyAlgorithm::Aes192 => "aes192"@,
        PrivacyAlgorithm::Aes256 => "aes256"@,
    }
}

/// Every algorithm is selected by its own name, and by no other name but
/// the short aliases `sha` for SHA-1 and `aes` for AES-128.
pub proof fn lemma_algorithm_names(a: AuthAlgorithm, p: PrivacyAlgorithm, name: Seq<char>)
    ensures
        auth_algorithm_named(auth_algorithm_name(a)) == Some(a),
        auth_algorithm_named("sha"@) == Some(AuthAlgorithm::Sha1),
        auth_algorithm_named(name) == Some(a) ==> name == auth_algorithm_name(a) || (a
            is Sha1 && name == "sha"@),
        privacy_algorithm_named(privacy_algorithm_name(p)) == Some(p),
        privacy_algorithm_named("aes"@) == Some(PrivacyAlgorithm::Aes128),
        privacy_algorithm_named(name) == Some(p) ==> name == privacy_algorithm_name(p) || (p
            is Aes128 && name == "aes"@),
{
    reveal_strlit("md5");
    reveal_strlit("sha");
    reveal_strlit("sha1");
    reveal_strlit("sha224");
    reveal_strlit("sha256");
    reveal_strlit("sha384");
    reveal_strlit("sha512");
    reveal_strlit("des");
    reveal_strlit("aes");
    reveal_strlit("aes128");
    reveal_strlit("aes192");
    reveal_strlit("aes256");
    assert("md5"@[0] != "sha"@[0]);
    assert("des"@[0] != "aes"@[0]);
    assert("sha224"@[4] != "sha256"@[4]);
    assert("sha224"@[3] != "sha384"@[3]);
    assert("sha224"@[3] != "sha512"@[3]);
    assert("sha256"@[3] != "sha384"@[3]);
    assert("sha256"@[3] != "sha512"@[3]);
    assert("sha384"@[3] != "sha512"@[3]);
    assert("aes128"@[4] != "aes192"@[4]);
    assert("aes128"@[3] != "aes256"@[3]);
    assert("aes192"@[3] != "aes256"@[3]);
    match a {
        AuthAlgorithm::Md5 => assert(auth_algorithm_named("md5"@) == Some(AuthAlgorithm::Md5)),
        AuthAlgorithm::Sha1 => {
            assert("sha1"@.len() != "md5"@.len());
            assert(auth_algorithm_named("sha1"@) == Some(AuthAlgorithm::Sha1));
        },
        AuthAlgorithm::Sha224 => {
            assert("sha224"@.len() != "md5"@.len() && "sha224"@.len() != "sha1"@.len());
            assert(auth_algorithm_named("sha224"@) == Some(AuthAlgorithm::Sha224));
        },
        AuthAlgorithm::Sha256 => {
            assert("sha256"@.len() != "md5"@.len() && "sha256"@.len() != "sha1"@.len());
            assert(auth_algorithm_named("sha256"@) == Some(AuthAlgorithm::Sha256));
        },
        AuthAlgorithm::Sha384 => {
            assert("sha384"@.len() != "md5"@.len() && "sha384"@.len() != "sha1"@.len());
            assert(auth_algorithm_named("sha384"@) == Some(AuthAlgorithm::Sha384));
        },
        AuthAlgorithm::Sha512 => {
            assert("sha512"@.len() != "md5"@.len() && "sha512"@.len() != "sha1"@.len());
            assert(auth_algorithm_named("sha512"@) == Some(AuthAlgorithm::Sha512));
        },
    }
    match p {
        PrivacyAlgorithm::Des => assert(privacy_algorithm_named("des"@) == Some(PrivacyAlgorithm::Des)),
        PrivacyAlgorithm::Aes128 => {
            assert("aes128"@.len() != "des"@.len() && "aes128"@.len() != "aes"@.len());
            assert(privacy_algorithm_named("aes128"@) == Some(PrivacyAlgorithm::Aes128));
        },
        PrivacyAlgorithm::Aes192 => {
            assert("aes192"@.len() != "des"@.len() && "aes192"@.len() != "aes"@.len());
            assert(privacy_algorithm_named("aes192"@) == Some(PrivacyAlgorithm::Aes192));
        },
        PrivacyAlgorithm::Aes256 => {
            assert("aes256"@.len() != "des"@.len() && "aes256"@.len() != "aes"@.len());
            assert(privacy_algorithm_named("aes256"@) == Some(PrivacyAlgorithm::Aes256));
        },
    }
}

/// Without a configured protocol, SNMPv3 authenticates with SHA-1 and
/// encrypts with AES-128: the credentials are those built when `sha1` and
/// `aes128` are named.
pub proof fn lemma_default_protocols(c: SnmpConfig, r: Result<Auth, SnmpError>)
    requires
        c.auth_protocol is None,
        c.privacy_protocol is None,
    ensures
        setting_name(c.auth_protocol, "sha1"@) == auth_algorithm_name(AuthAlgorithm::Sha1),
        setting_name(c.privacy_protocol, "aes128"@) == privacy_algorithm_name(
            PrivacyAlgorithm::Aes128,
        ),
        to_ascii_lowercase(trim(c.security_level@)) == "authnopriv"@ && secret_given(
            c.auth_password,
        ) ==> (v3_auth_outcome(c, r) <==> r == Ok::<Auth, SnmpError>(
            usm_auth(usm_with_auth(usm_for_user(c.username@), AuthAlgorithm::Sha1, c.auth_password->0@)),
        )),
        to_ascii_lowercase(trim(c.security_level@)) == "authpriv"@ && secret_given(
            c.auth_password,
        ) && secret_given(c.privacy_password) ==> (v3_auth_outcome(c, r) <==> r == Ok::<
            Auth,
            SnmpError,
        >(
            usm_auth(
                usm_with_privacy(
                    usm_with_auth(usm_for_user(c.username@), AuthAlgorithm::Sha1, c.auth_password->0@),
                    PrivacyAlgorithm::Aes128,
                    c.privacy_password->0@,
                ),
            ),
        )),
{
    lemma_algorithm_names(AuthAlgorithm::Sha1, PrivacyAlgorithm::Aes128, Seq::empty());
    reveal_strlit("sha1");
    reveal_strlit("aes128");
    reveal_strlit("authnopriv");
    reveal_strlit("authpriv");
    reveal_strlit("noauthnopriv");
    let s = "sha1"@;
    let a = "aes128"@;
    assert(trim_start(s) == s);
    assert(trim_end(s) == s);
    assert(trim_start(a) == a);
    assert(trim_end(a) == a);
    assert(to_ascii_lowercase(s) =~= s);
    assert(to_ascii_lowercase(a) =~= a);
    assert("authnopriv"@.len() != "noauthnopriv"@.len());
    assert("authpriv"@.len() != "noauthnopriv"@.len());
    assert("authpriv"@.len() != "authnopriv"@.len());
    assert(auth_algorithm_named(setting_name(c.auth_protocol, "sha1"@)) == Some(AuthAlgorithm::Sha1));
    assert(privacy_algorithm_named(setting_name(c.privacy_protocol, "aes128"@)) == Some(
        PrivacyAlgorithm::Aes128,
    ));
}

} // verus!
