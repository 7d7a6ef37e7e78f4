//! The target of a tunnel: reading `host:port` and choosing among resolved addresses.

use vstd::prelude::*;
use vstd::std_specs::iter::IteratorSpec;
use vstd::string::StrSliceExecFns;

use crate::termination::Termination;

verus! {

/// Where a tunnel leads.
#[derive(Debug, PartialEq, Eq)]
pub struct Target {
    pub host: String,
    pub port: u16,
}

/// A [`Target`] as a mathematical value.
pub struct TargetView {
    pub host: Seq<char>,
    pub port: u16,
}

impl View for Target {
    type V = TargetView;

    open spec fn view(&self) -> TargetView {
        TargetView { host: self.host@, port: self.port }
    }
}

/// One address that name resolution gave for an authority.
#[derive(Debug, PartialEq, Eq)]
pub struct ResolvedAddress {
    /// Whether the address is an IPv4 address.
    pub is_ipv4: bool,
    /// The address and its port in text form, port last after a `:`.
    pub text: String,
}

/// A [`ResolvedAddress`] as a mathematical value.
pub struct ResolvedAddressView {
    pub is_ipv4: bool,
    pub text: Seq<char>,
}

impl View for ResolvedAddress {
    type V = ResolvedAddressView;

    open spec fn view(&self) -> ResolvedAddressView {
        ResolvedAddressView { is_ipv4: self.is_ipv4, text: self.text@ }
    }
}

impl DeepView for ResolvedAddress {
    type V = ResolvedAddressView;

    open spec fn deep_view(&self) -> ResolvedAddressView {
        self@
    }
}

/// The largest port number.
pub const MAX_PORT: u32 = 65535;

/// Whether a character is one of `0` to `9`.
pub open spec fn is_decimal_digit(c: char) -> bool {
    '0' <= c && c <= '9'
}

/// The value of a decimal digit; 0 for any other character.
pub open spec fn digit_value(c: char) -> nat {
    if is_decimal_digit(c) {
        (c as u32 - '0' as u32) as nat
    } else {
        0
    }
}

/// The number that a sequence of decimal digits writes.
pub open spec fn decimal_value(digits: Seq<char>) -> nat
    decreases digits.len(),
{
    if digits.len() == 0 {
        0
    } else {
        decimal_value(digits.drop_last()) * 10 + digit_value(digits.last())
    }
}

/// Whether a text holds decimal digits only.
pub open spec fn all_decimal_digits(s: Seq<char>) -> bool {
    forall|i: int| 0 <= i < s.len() ==> is_decimal_digit(#[trigger] s[i])
}

/// The digits of a port text: the text itself, without a leading `+`.
pub open spec fn port_digits(text: Seq<char>) -> Seq<char> {
    if text.len() > 0 && text[0] == '+' {
        text.skip(1)
    } else {
        text
    }
}

/// The port that a text writes: one or more decimal digits, which may follow
/// a single `+`, with a value of at most 65535. Any other text writes none.
pub open spec fn port_number(text: Seq<char>) -> Option<u16> {
    let digits = port_digits(text);
    if digits.len() > 0 && all_decimal_digits(digits) && decimal_value(digits) <= MAX_PORT {
        Some(decimal_value(digits) as u16)
    } else {
        None
    }
}

/// The position of the last `:` in a text.
pub open spec fn last_colon(text: Seq<char>) -> Option<int>
    decreases text.len(),
{
    if text.len() == 0 {
        None
    } else if text.last() == ':' {
        Some(text.len() - 1)
    } else {
        last_colon(text.drop_last())
    }
}

/// The target that an authority names: the host is what stands before its
/// last `:`, the port what stands behind it.
pub open spec fn authority_target(authority: Seq<char>) -> Option<TargetView> {
    match last_colon(authority) {
        Some(i) => match port_number(authority.skip(i + 1)) {
            Some(port) => Some(TargetView { host: authority.take(i), port }),
            None => None,
        },
        None => None,
    }
}

/// The position of the first IPv4 address at or behind `start`.
pub open spec fn first_ipv4_from(addresses: Seq<ResolvedAddressView>, start: int) -> Option<int>
    decreases addresses.len() - start,
{
    if start < 0 || start >= addresses.len() {
        None
    } else if addresses[start].is_ipv4 {
        Some(start)
    } else {
        first_ipv4_from(addresses, start + 1)
    }
}

/// The authority to connect to once an authority has been resolved: the first
/// IPv4 address if there is one, else the first address, else the authority
/// as it was asked for.
pub open spec fn preferred_authority(
    authority: Seq<char>,
    addresses: Seq<ResolvedAddressView>,
) -> Seq<char> {
    match first_ipv4_from(addresses, 0) {
        Some(i) => addresses[i].text,
        None => if addresses.len() > 0 {
            addresses[0].text
        } else {
            authority
        },
    }
}

/// The target of a request for `authority` that resolved to `addresses`.
pub open spec fn resolved_target(
    authority: Seq<char>,
    addresses: Seq<ResolvedAddressView>,
) -> Option<TargetView> {
    authority_target(preferred_authority(authority, addresses))
}

/// A prefix of a digit text writes no larger a number than the whole text.
pub proof fn lemma_decimal_value_prefix(digits: Seq<char>, k: int)
    requires
        0 <= k <= digits.len(),
    ensures
        decimal_value(digits.take(k)) <= decimal_value(digits),
    decreases digits.len() - k,
{
    if k == digits.len() {
        assert(digits.take(k) =~= digits);
    } else {
        lemma_decimal_value_prefix(digits, k + 1);
        assert(digits.take(k + 1).drop_last() =~= digits.take(k));
    }
}

/// `last_colon` finds a `:` with none behind it, and finds one whenever the
/// text holds one.
pub proof fn lemma_last_colon(text: Seq<char>)
    ensures
        match last_colon(text) {
            Some(i) => 0 <= i < text.len() && text[i] == ':' && forall|j: int|
                i < j < text.len() ==> text[j] != ':',
            None => forall|j: int| 0 <= j < text.len() ==> text[j] != ':',
        },
    decreases text.len(),
{
    if text.len() > 0 && text.last() != ':' {
        let front = text.drop_last();
        lemma_last_colon(front);
        assert forall|j: int| 0 <= j < front.len() implies front[j] == text[j] by {}
    }
}

/// A `:` with none behind it is the one that `last_colon` finds.
pub proof fn lemma_last_colon_is(text: Seq<char>, i: int)
    requires
        0 <= i < text.len(),
        text[i] == ':',
        forall|j: int| i < j < text.len() ==> text[j] != ':',
    ensures
        last_colon(text) == Some(i),
{
    lemma_last_colon(text);
}

/// A port text holds no `:`.
pub proof fn lemma_port_text_has_no_colon(text: Seq<char>)
    requires
        port_number(text) is Some,
    ensures
        forall|j: int| 0 <= j < text.len() ==> text[j] != ':',
{
    let digits = port_digits(text);
    assert forall|j: int| 0 <= j < text.len() implies text[j] != ':' by {
        if text[0] == '+' {
            if j > 0 {
                assert(is_decimal_digit(digits[j - 1]));
            }
        } else {
            assert(is_decimal_digit(digits[j]));
        }
    }
}

/// An authority written as a host, a `:` and a port text names that host and
/// that port, whatever the host holds.
pub proof fn lemma_authority_round_trip(host: Seq<char>, port_text: Seq<char>)
    requires
        port_number(port_text) is Some,
    ensures
        authority_target(host + seq![':'] + port_text) == Some(
            TargetView { host, port: port_number(port_text)->0 },
        ),
{
    let authority = host + seq![':'] + port_text;
    let i = host.len() as int;
    lemma_port_text_has_no_colon(port_text);
    assert forall|j: int| i < j < authority.len() implies authority[j] != ':' by {
        assert(authority[j] == port_text[j - i - 1]);
    }
    lemma_last_colon_is(authority, i);
    assert(authority.skip(i + 1) =~= port_text);
    assert(authority.take(i) =~= host);
}

/// `first_ipv4_from` finds the first IPv4 address at or behind `start`, and
/// finds one whenever there is one.
pub proof fn lemma_first_ipv4_from(addresses: Seq<ResolvedAddressView>, start: int)
    requires
        0 <= start,
    ensures
        match first_ipv4_from(addresses, start) {
            Some(i) => start <= i < addresses.len() && addresses[i].is_ipv4 && forall|j: int|
                start <= j < i ==> !addresses[j].is_ipv4,
            None => forall|j: int| start <= j < addresses.len() ==> !addresses[j].is_ipv4,
        },
    decreases addresses.len() - start,
{
    if start < addresses.len() && !addresses[start].is_ipv4 {
        lemma_first_ipv4_from(addresses, start + 1);
    }
}

/// Resolution prefers IPv4: the first IPv4 address among those resolved is
/// the one connected to, wherever it stands.
pub proof fn lemma_first_ipv4_is_preferred(
    authority: Seq<char>,
    addresses: Seq<ResolvedAddressView>,
    i: int,
)
    requires
        0 <= i < addresses.len(),
        addresses[i].is_ipv4,
        forall|j: int| 0 <= j < i ==> !addresses[j].is_ipv4,
    ensures
        preferred_authority(authority, addresses) == addresses[i].text,
{
    lemma_first_ipv4_from(addresses, 0);
}

/// Without an IPv4 address the first address is connected to; without any
/// address, the authority as it was asked for.
pub proof fn lemma_fallback_without_ipv4(authority: Seq<char>, addresses: Seq<ResolvedAddressView>)
    requires
        forall|j: int| 0 <= j < addresses.len() ==> !addresses[j].is_ipv4,
    ensures
        preferred_authority(authority, addresses) == (if addresses.len() > 0 {
            addresses[0].text
        } else {
            authority
        }),
{
    lemma_first_ipv4_from(addresses, 0);
}

/// Reads a port from its text.
pub fn parse_port(text: &str) -> (port: Option<u16>)
    ensures
        port == port_number(text@),
{
    let n: usize = text.unicode_len();
    let ghost digits = port_digits(text@);
    let ghost sign: int = text@.len() - digits.len();
    let mut value: u32 = 0;
    let mut seen: usize = 0;
    let mut count: usize = 0;
    for c in it: text.chars()
        invariant
            n == text@.len(),
            it.seq() == text@,
            seen == it.index(),
            digits == port_digits(text@),
            sign == text@.len() - digits.len(),
            count == (if seen == 0 { 0 } else { seen - sign }),
            all_decimal_digits(digits.take(count as int)),
            value == decimal_value(digits.take(count as int)),
            value <= MAX_PORT,
    {
        if seen == 0 && c == '+' {
            assert(digits.take(0) =~= Seq::<char>::empty());
        } else if c >= '0' && c <= '9' {
            let d: u32 = c as u32 - '0' as u32;
            proof {
                assert(digits[count as int] == c);
                assert(digits.take(count + 1).drop_last() =~= digits.take(count as int));
                assert(digits.take(count + 1).last() == c);
                lemma_decimal_value_prefix(digits, count + 1);
            }
            value = value * 10 + d;
            if value > MAX_PORT {
                return None;
            }
            count = count + 1;
        } else {
            assert(!is_decimal_digit(digits[count as int]));
            return None;
        }
        seen = seen + 1;
    }
    proof {
        assert(digits.take(count as int) =~= digits);
    }
    if count == 0 {
        None
    } else {
        Some(value as u16)
    }
}

/// Reads the target that an authority names.
///
/// Fails with [`Termination::ProtocolViolation`] when the authority holds no
/// `:` or when what follows its last `:` is no port.
pub fn split_authority(authority: &str) -> (r: Result<Target, Termination>)
    ensures
        match r {
            Ok(target) => authority_target(authority@) == Some(target@),
            Err(e) => e == Termination::ProtocolViolation && authority_target(authority@) is None,
        },
{
    let n: usize = authority.unicode_len();
    let mut colon: Option<usize> = None;
    let mut seen: usize = 0;
    for c in it: authority.chars()
        invariant
            n == authority@.len(),
            it.seq() == authority@,
            seen == it.index(),
            match colon {
                Some(i) => last_colon(authority@.take(seen as int)) == Some(i as int),
                None => last_colon(authority@.take(seen as int)) is None,
            },
    {
        proof {
            assert(authority@.take(seen + 1).drop_last() =~= authority@.take(seen as int));
        }
        if c == ':' {
            colon = Some(seen);
        }
        seen = seen + 1;
    }
    proof {
        assert(authority@.take(n as int) =~= authority@);
        lemma_last_colon(authority@);
    }
    match colon {
        None => Err(Termination::ProtocolViolation),
        Some(i) => {
            let port_text = authority.substring_char(i + 1, n);
            match parse_port(port_text) {
                None => Err(Termination::ProtocolViolation),
                Some(port) => {
                    let host = authority.substring_char(0, i).to_owned();
                    Ok(Target { host, port })
                },
            }
        },
    }
}

/// Chooses the authority to connect to among the addresses that a
/// resolution gave.
pub fn choose_authority<'a>(authority: &'a str, addresses: &'a Vec<ResolvedAddress>) -> (chosen:
    &'a str)
    ensures
        chosen@ == preferred_authority(authority@, addresses.deep_view()),
{
    let ghost views = addresses.deep_view();
    let mut i: usize = 0;
    while i < addresses.len()
        invariant
            i <= addresses.len(),
            views == addresses.deep_view(),
            first_ipv4_from(views, 0) == first_ipv4_from(views, i as int),
        decreases addresses.len() - i,
    {
        if addresses[i].is_ipv4 {
            return addresses[i].text.as_str();
        }
        i = i + 1;
    }
    if addresses.len() > 0 {
        addresses[0].text.as_str()
    } else {
        authority
    }
}

/// Derives the target of a request from its authority and from the
/// addresses that the authority resolved to.
///
/// Fails with [`Termination::ProtocolViolation`] when the chosen authority
/// names no target.
pub fn connect_target(authority: &str, addresses: &Vec<ResolvedAddress>) -> (r: Result<
    Target,
    Termination,
>)
    ensures
        match r {
            Ok(target) => resolved_target(authority@, addresses.deep_view()) == Some(target@),
            Err(e) => e == Termination::ProtocolViolation && resolved_target(
                authority@,
                addresses.deep_view(),
            ) is None,
        },
{
    split_authority(choose_authority(authority, addresses))
}

} // verus!
