use vstd::prelude::*;

verus! {

/// Where the broker listens: host name and port.
#[derive(Debug, Clone)]
pub struct ServerAddress {
    pub host: String,
    pub port: u16,
}

/// Why a `host:port` text names no broker address.
#[derive(Debug, Clone, Copy, PartialEq, Eq, Structural)]
pub enum ServerAddressError {
    /// The text holds no `:`, so no port follows the host.
    MissingPort,
    /// The text after the first `:` (up to the next `:`) is not a port number.
    InvalidPort,
}

/// The index of the first `c` in `s` at or after `from`, or `s.len()` where there is none.
pub open spec fn find_char(s: Seq<char>, c: char, from: int) -> int
    decreases s.len() - from,
{
    if from < 0 || from >= s.len() {
        s.len() as int
    } else if s[from] == c {
        from
    } else {
        find_char(s, c, from + 1)
    }
}

/// Whether `c` is one of the ASCII digits `0` to `9`.
pub open spec fn is_digit(c: char) -> bool {
    '0' <= c <= '9'
}

/// The number that a string of decimal digits writes.
pub open spec fn digits_value(digits: Seq<char>) -> int
    decreases digits.len(),
{
    if digits.len() == 0 {
        0
    } else {
        digits_value(digits.drop_last()) * 10 + (digits.last() as int - '0' as int)
    }
}

/// `text` less a leading `+`, where one is followed by something.
pub open spec fn sign_stripped(text: Seq<char>) -> Seq<char> {
    if text.len() > 1 && text[0] == '+' { text.drop_first() } else { text }
}

/// Whether every character of `d` is an ASCII digit.
pub open spec fn all_digits(d: Seq<char>) -> bool {
    forall|i: int| 0 <= i < d.len() ==> is_digit(#[trigger] d[i])
}

/// The `u16` that `text` writes in decimal, as Rust's `u16::from_str` reads it: an
/// optional leading `+` and then at least one ASCII digit, nothing else, with a value
/// that fits in 16 bits (leading zeros allowed).
pub open spec fn decimal_u16(text: Seq<char>) -> Option<u16> {
    let digits = sign_stripped(text);
    if digits.len() > 0 && all_digits(digits) && digits_value(digits) <= u16::MAX as int {
        Some(digits_value(digits) as u16)
    } else {
        None
    }
}

/// The address that `server` (`host:port`) names: the host is what precedes the first
/// `:`, the port what follows it up to the next `:` or the end, read by `decimal_u16`.
pub open spec fn server_address(server: Seq<char>) -> Result<(Seq<char>, u16), ServerAddressError> {
    let colon = find_char(server, ':', 0);
    if colon == server.len() {
        Err(ServerAddressError::MissingPort)
    } else {
        let port_text = server.subrange(colon + 1, find_char(server, ':', colon + 1));
        match decimal_u16(port_text) {
            Some(port) => Ok((server.subrange(0, colon), port)),
            None => Err(ServerAddressError::InvalidPort),
        }
    }
}

proof fn lemma_find_char_bounds(s: Seq<char>, c: char, from: int)
    requires
        0 <= from <= s.len(),
    ensures
        from <= find_char(s, c, from) <= s.len(),
        find_char(s, c, from) < s.len() ==> s[find_char(s, c, from)] == c,
        forall|k: int| from <= k < find_char(s, c, from) ==> s[k] != c,
    decreases s.len() - from,
{
    if from < s.len() && s[from] != c {
        lemma_find_char_bounds(s, c, from + 1);
    }
}

proof fn lemma_find_char_is_first(s: Seq<char>, c: char, from: int, i: int)
    requires
        0 <= from <= i <= s.len(),
        i < s.len() ==> s[i] == c,
        forall|k: int| from <= k < i ==> s[k] != c,
    ensures
        find_char(s, c, from) == i,
    decreases i - from,
{
    if from < i {
        lemma_find_char_is_first(s, c, from + 1, i);
    }
}

/// The index of the first `c` in `s` at or after `from`, or the length of `s`.
fn find_char_exec(s: &str, c: char, from: usize) -> (i: usize)
    requires
        from <= s@.len(),
    ensures
        i == find_char(s@, c, from as int),
{
    let n: usize = s.unicode_len();
    let mut i: usize = from;
    while i < n
        invariant
            n == s@.len(),
            from <= i <= n,
            forall|k: int| from <= k < i ==> s@[k] != c,
        decreases n - i,
    {
        if s.get_char(i) == c {
            proof { lemma_find_char_is_first(s@, c, from as int, i as int); }
            return i;
        }
        i = i + 1;
    }
    proof { lemma_find_char_is_first(s@, c, from as int, n as int); }
    n
}

proof fn lemma_digits_value_nonneg(d: Seq<char>)
    requires
        all_digits(d),
    ensures
        digits_value(d) >= 0,
    decreases d.len(),
{
    if d.len() > 0 {
        assert(forall|i: int| 0 <= i < d.drop_last().len() ==> d.drop_last()[i] == d[i]);
        lemma_digits_value_nonneg(d.drop_last());
    }
}

/// A longer string of digits writes at least the number that its prefix writes.
proof fn lemma_digits_value_prefix(d: Seq<char>, k: int)
    requires
        0 <= k <= d.len(),
        all_digits(d),
    ensures
        digits_value(d.subrange(0, k)) <= digits_value(d),
    decreases d.len(),
{
    if k < d.len() {
        let shorter = d.drop_last();
        assert(forall|i: int| 0 <= i < shorter.len() ==> shorter[i] == d[i]);
        lemma_digits_value_prefix(shorter, k);
        assert(shorter.subrange(0, k) =~= d.subrange(0, k));
        lemma_digits_value_nonneg(shorter);
    } else {
        assert(d.subrange(0, k) =~= d);
    }
}

/// Reads the port in `text` as Rust's `u16::from_str` does.
pub fn parse_port(text: &str) -> (port: Option<u16>)
    ensures
        port == decimal_u16(text@),
{
    let n: usize = text.unicode_len();
    let start: usize = if n > 1 && text.get_char(0) == '+' { 1 } else { 0 };
    assert(sign_stripped(text@) =~= text@.subrange(start as int, n as int));
    if start == n {
        return None;
    }
    let mut value: u32 = 0;
    let mut i: usize = start;
    while i < n
        invariant
            n == text@.len(),
            start <= i <= n,
            sign_stripped(text@) =~= text@.subrange(start as int, n as int),
            all_digits(sign_stripped(text@).subrange(0, i - start)),
            value as int == digits_value(sign_stripped(text@).subrange(0, i - start)),
            value <= u16::MAX,
        decreases n - i,
    {
        let ghost digits = sign_stripped(text@);
        let c = text.get_char(i);
        assert(digits[i - start] == c);
        if !('0' <= c && c <= '9') {
            assert(!all_digits(digits));
            return None;
        }
        let d: u32 = (c as u32) - ('0' as u32);
        let ghost prefix = digits.subrange(0, i - start + 1);
        assert(prefix.drop_last() =~= digits.subrange(0, i - start));
        assert(prefix.last() == c);
        let next: u32 = value * 10 + d;
        assert(digits_value(prefix) == next as int);
        i = i + 1;
        if next > 65535 {
            proof {
                if all_digits(digits) {
                    lemma_digits_value_prefix(digits, i - start);
                }
            }
            return None;
        }
        value = next;
        assert(all_digits(digits.subrange(0, i - start)));
    }
    assert(sign_stripped(text@).subrange(0, n - start) =~= sign_stripped(text@));
    Some(value as u16)
}

/// The broker address in `server`, as `server_address` reads it.
pub fn parse_server_address(server: &str) -> (address: Result<ServerAddress, ServerAddressError>)
    ensures
        match server_address(server@) {
            Ok((host, port)) => address matches Ok(a) && a.host@ == host && a.port == port,
            Err(e) => address == Err::<ServerAddress, ServerAddressError>(e),
        },
{
    let n: usize = server.unicode_len();
    let colon: usize = find_char_exec(server, ':', 0);
    proof { lemma_find_char_bounds(server@, ':', 0); }
    if colon == n {
        return Err(ServerAddressError::MissingPort);
    }
    let end: usize = find_char_exec(server, ':', colon + 1);
    proof { lemma_find_char_bounds(server@, ':', colon + 1); }
    let port_text = server.substring_char(colon + 1, end);
    match parse_port(port_text) {
        Some(port) => {
            let host = server.substring_char(0, colon);
            Ok(ServerAddress { host: host.to_owned(), port })
        },
        None => Err(ServerAddressError::InvalidPort),
    }
}

/// The topic under which this controller instance lives: `prefix/instance`.
pub fn base_name(topic_prefix: &str, instance_name: &str) -> (name: String)
    ensures
        name@ == topic_prefix@ + seq!['/'] + instance_name@,
{
    proof { reveal_strlit("/"); }
    let name = topic_prefix.to_owned().concat("/").concat(instance_name);
    assert(name@ =~= topic_prefix@ + seq!['/'] + instance_name@);
    name
}

/// A host that holds no `:`, then `:`, then a port written in decimal digits reads
/// back as that host and port.
pub proof fn law_server_address_round_trip(host: Seq<char>, digits: Seq<char>)
    requires
        forall|i: int| 0 <= i < host.len() ==> host[i] != ':',
        digits.len() > 0,
        forall|i: int| 0 <= i < digits.len() ==> '0' <= #[trigger] digits[i] <= '9',
        digits_value(digits) <= u16::MAX as int,
    ensures
        server_address(host + seq![':'] + digits) == Ok::<(Seq<char>, u16), ServerAddressError>(
            (host, digits_value(digits) as u16),
        ),
{
    assert(all_digits(digits));
    let s = host + seq![':'] + digits;
    let h: int = host.len() as int;
    assert(s[h] == ':');
    assert forall|k: int| 0 <= k < h implies s[k] != ':' by {
        assert(s[k] == host[k]);
    }
    lemma_find_char_is_first(s, ':', 0, h);
    assert forall|k: int| h + 1 <= k < s.len() implies s[k] != ':' by {
        assert(s[k] == digits[k - h - 1]);
        assert(is_digit(digits[k - h - 1]));
    }
    lemma_find_char_is_first(s, ':', h + 1, s.len() as int);
    assert(s.subrange(h + 1, s.len() as int) =~= digits);
    assert(s.subrange(0, h) =~= host);
    assert(is_digit(digits[0]));
    assert(sign_stripped(digits) == digits);
}

/// Only a text with a `:` names a broker address; the host never holds a `:`.
pub proof fn law_server_address_host(server: Seq<char>)
    ensures
        server_address(server) matches Ok((host, port)) ==> {
            &&& server.len() > host.len()
            &&& server.subrange(0, host.len() as int) == host
            &&& server[host.len() as int] == ':'
            &&& forall|i: int| 0 <= i < host.len() ==> host[i] != ':'
        },
        (forall|i: int| 0 <= i < server.len() ==> server[i] != ':')
            ==> server_address(server) == Err::<(Seq<char>, u16), ServerAddressError>(ServerAddressError::MissingPort),
{
    lemma_find_char_bounds(server, ':', 0);
    if forall|i: int| 0 <= i < server.len() ==> server[i] != ':' {
        lemma_find_char_is_first(server, ':', 0, server.len() as int);
    }
}

/// Every non-empty string of the ASCII digits `0` to `9` whose value fits in 16 bits
/// reads as that value, with or without a leading `+`.
pub proof fn law_decimal_digits_read_as_their_value(d: Seq<char>)
    requires
        d.len() > 0,
        forall|i: int| 0 <= i < d.len() ==> '0' <= #[trigger] d[i] <= '9',
        digits_value(d) <= 65535,
    ensures
        decimal_u16(d) == Some(digits_value(d) as u16),
        decimal_u16(seq!['+'] + d) == Some(digits_value(d) as u16),
{
    assert(d[0] != '+');
    assert(all_digits(d));
    assert((seq!['+'] + d).drop_first() =~= d);
}

/// The value of a digit string grows by appending a digit as a decimal numeral does,
/// and a single digit is worth its own value.
pub proof fn law_digits_value_positional(d: Seq<char>, c: char)
    requires
        '0' <= c <= '9',
    ensures
        digits_value(d.push(c)) == 10 * digits_value(d) + (c as int - '0' as int),
        digits_value(seq![c]) == c as int - '0' as int,
        0 <= digits_value(seq![c]) <= 9,
{
    assert(d.push(c).drop_last() =~= d);
    assert(seq![c].drop_last() =~= Seq::<char>::empty());
    assert(digits_value(Seq::<char>::empty()) == 0);
    assert(seq![c].last() == c);
    assert(seq![c].len() == 1);
    assert(digits_value(seq![c]) == digits_value(seq![c].drop_last()) * 10 + (c as int - '0' as int));
}

/// Each digit alone reads as its value; `9` included.
pub proof fn law_single_digit_ports()
    ensures
        decimal_u16(seq!['0']) == Some(0u16),
        decimal_u16(seq!['9']) == Some(9u16),
        forall|c: char| '0' <= c <= '9' ==> decimal_u16(seq![c]) == Some((c as int - '0' as int) as u16),
{
    assert forall|c: char| '0' <= c <= '9' implies decimal_u16(seq![c]) == Some((c as int - '0' as int) as u16) by {
        law_digits_value_positional(Seq::empty(), c);
        assert(Seq::<char>::empty().push(c) =~= seq![c]);
        law_decimal_digits_read_as_their_value(seq![c]);
    }
    assert('9' as int - '0' as int == 9);
}

/// A text with a character that is neither an ASCII digit nor a single leading `+`
/// reads as no port, and so does the empty text.
pub proof fn law_non_digits_are_no_port(text: Seq<char>, i: int)
    requires
        0 <= i < text.len(),
        !('0' <= text[i] <= '9'),
        !(i == 0 && text[0] == '+' && text.len() > 1),
    ensures
        decimal_u16(text) is None,
        decimal_u16(Seq::<char>::empty()) is None,
{
    let d = sign_stripped(text);
    if text.len() > 1 && text[0] == '+' {
        assert(d[i - 1] == text[i]);
        assert(!is_digit(d[i - 1]));
    } else {
        assert(!is_digit(d[i]));
    }
}

} // verus!
