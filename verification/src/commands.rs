use vstd::prelude::*;
use vstd::string::StrSliceExecFns;
use vstd::string::StringSliceAdditionalSpecFns;

use crate::text::str_equal;

verus! {

// ---------------------------------------------------------------- numbers

pub open spec fn is_digit(c: char) -> bool {
    '0' <= c && c <= '9'
}

pub open spec fn digit_value(c: char) -> int {
    c as int - '0' as int
}

pub open spec fn all_digits(t: Seq<char>) -> bool {
    forall|i: int| 0 <= i < t.len() ==> is_digit(#[trigger] t[i])
}

/// The value of a string of decimal digits.
pub open spec fn decimal(t: Seq<char>) -> int
    decreases t.len(),
{
    if t.len() == 0 {
        0
    } else {
        decimal(t.drop_last()) * 10 + digit_value(t.last())
    }
}

/// The digits of a number written with an optional sign, and whether the
/// sign is a minus.
pub open spec fn unsigned_part(s: Seq<char>) -> (bool, Seq<char>) {
    if s.len() > 0 && s[0] == '-' {
        (true, s.drop_first())
    } else if s.len() > 0 && s[0] == '+' {
        (false, s.drop_first())
    } else {
        (false, s)
    }
}

/// The integer a string writes in decimal, with an optional `+` or `-` sign
/// and at least one digit; `None` for anything else.
pub open spec fn spec_parse(s: Seq<char>) -> Option<int> {
    let (neg, t) = unsigned_part(s);
    if t.len() > 0 && all_digits(t) {
        Some(
            if neg {
                -decimal(t)
            } else {
                decimal(t)
            },
        )
    } else {
        None
    }
}

/// What parsing a 32-bit integer gives: the number when it fits.
pub open spec fn spec_parse_i32(s: Seq<char>) -> Option<i32> {
    match spec_parse(s) {
        Some(v) => if i32::MIN <= v <= i32::MAX {
            Some(v as i32)
        } else {
            None
        },
        None => None,
    }
}

/// What parsing a 64-bit integer gives: the number when it fits.
pub open spec fn spec_parse_i64(s: Seq<char>) -> Option<i64> {
    match spec_parse(s) {
        Some(v) => if i64::MIN <= v <= i64::MAX {
            Some(v as i64)
        } else {
            None
        },
        None => None,
    }
}

proof fn lemma_decimal_nonneg(t: Seq<char>)
    requires
        all_digits(t),
    ensures
        decimal(t) >= 0,
    decreases t.len(),
{
    if t.len() > 0 {
        assert(is_digit(t[t.len() - 1]));
        lemma_decimal_nonneg(t.drop_last());
    }
}

/// A longer run of digits is worth at least as much as its prefix.
proof fn lemma_decimal_prefix(t: Seq<char>, i: int)
    requires
        all_digits(t),
        0 <= i <= t.len(),
    ensures
        decimal(t.take(i)) <= decimal(t),
    decreases t.len(),
{
    if i < t.len() {
        assert(is_digit(t[t.len() - 1]));
        lemma_decimal_nonneg(t.drop_last());
        lemma_decimal_prefix(t.drop_last(), i);
        assert(t.drop_last().take(i) =~= t.take(i));
    } else {
        assert(t.take(i) =~= t);
    }
}

/// The limit past which a parsed value fits no integer type used here.
pub const PARSE_CAP: u128 = 0x1_0000_0000_0000_0000;

/// The integer a string writes (see `spec_parse`), as long as its size is at
/// most 2^64; `None` when the string writes no integer or a larger one.
pub fn parse_integer(s: &str) -> (r: Option<i128>)
    ensures
        r matches Some(v) ==> spec_parse(s@) == Some(v as int),
        r is None ==> match spec_parse(s@) {
            Some(v) => v > PARSE_CAP || v < -PARSE_CAP,
            None => true,
        },
{
    let n = s.unicode_len();
    if n == 0 {
        return None;
    }
    let first = s.get_char(0);
    let neg = first == '-';
    let start: usize = if first == '-' || first == '+' {
        1
    } else {
        0
    };
    let ghost t = unsigned_part(s@).1;
    assert(t =~= s@.subrange(start as int, n as int));
    if start >= n {
        return None;
    }
    let mut acc: u128 = 0;
    let mut i: usize = start;
    while i < n
        invariant
            n == s@.len(),
            start <= i <= n,
            start == 0 || start == 1,
            t =~= s@.subrange(start as int, n as int),
            t == unsigned_part(s@).1,
            all_digits(t.take(i - start)),
            acc as int == decimal(t.take(i - start)),
            acc <= PARSE_CAP,
        decreases n - i,
    {
        let c = s.get_char(i);
        if !('0' <= c && c <= '9') {
            assert(t[i - start] == c);
            return None;
        }
        let d = (c as u32 - '0' as u32) as u128;
        proof {
            assert(t.take(i - start + 1).drop_last() =~= t.take(i - start));
            assert(t.take(i - start + 1).last() == c);
            assert(all_digits(t.take(i - start + 1)));
        }
        let next = acc * 10 + d;
        if next > PARSE_CAP {
            proof {
                assert(decimal(t.take(i - start + 1)) == next);
                if all_digits(t) {
                    lemma_decimal_prefix(t, i - start + 1);
                }
            }
            return None;
        }
        acc = next;
        i += 1;
    }
    assert(t.take(n - start) =~= t);
    if neg {
        Some(-(acc as i128))
    } else {
        Some(acc as i128)
    }
}

/// `str::parse::<i32>`: the number a string writes when it fits 32 bits.
pub fn parse_i32(s: &str) -> (r: Option<i32>)
    ensures
        r == spec_parse_i32(s@),
{
    match parse_integer(s) {
        Some(v) => if i32::MIN as i128 <= v && v <= i32::MAX as i128 {
            Some(v as i32)
        } else {
            None
        },
        None => None,
    }
}

/// `str::parse::<i64>`: the number a string writes when it fits 64 bits.
pub fn parse_i64(s: &str) -> (r: Option<i64>)
    ensures
        r == spec_parse_i64(s@),
{
    match parse_integer(s) {
        Some(v) => if i64::MIN as i128 <= v && v <= i64::MAX as i128 {
            Some(v as i64)
        } else {
            None
        },
        None => None,
    }
}

// ---------------------------------------------------------------- /compute

/// The `/compute integer <name>` result: the number the name writes, 0 when
/// it writes none (or one too large).
pub fn compute_integer_named(name: &str) -> (r: i32)
    ensures
        r == match spec_parse_i32(name@) {
            Some(v) => v,
            None => 0,
        },
{
    match parse_i32(name) {
        Some(v) => v,
        None => 0,
    }
}

/// The `/compute integer <n>` result: the number itself.
pub fn compute_integer(provider: i32) -> (r: i32)
    ensures
        r == provider,
{
    provider
}

// ---------------------------------------------------------------- /wgen

/// The hash code the JVM gives a string of bytes: each byte is added to 31
/// times the hash so far, wrapping around in 64 bits.
pub open spec fn spec_java_hash(bytes: Seq<u8>) -> i64
    decreases bytes.len(),
{
    if bytes.len() == 0 {
        0
    } else {
        vstd::wrapping::i64_specs::wrapping_add(
            vstd::wrapping::i64_specs::wrapping_mul(spec_java_hash(bytes.drop_last()), 31),
            bytes.last() as i64,
        )
    }
}

pub fn java_string_hash(s: &str) -> (r: i64)
    ensures
        r == spec_java_hash(s.spec_bytes()),
{
    let bytes = s.as_bytes();
    let mut h: i64 = 0;
    let mut i: usize = 0;
    while i < bytes.len()
        invariant
            bytes@ == s.spec_bytes(),
            0 <= i <= bytes@.len(),
            h == spec_java_hash(bytes@.take(i as int)),
        decreases bytes@.len() - i,
    {
        assert(bytes@.take(i + 1).drop_last() =~= bytes@.take(i as int));
        h = h.wrapping_mul(31).wrapping_add(bytes[i] as i64);
        i += 1;
    }
    assert(bytes@.take(bytes@.len() as int) =~= bytes@);
    h
}

/// The seed a `/wgen` argument gives: the number it writes when it fits 64
/// bits, else its hash code.
pub fn parse_seed(s: &str) -> (r: i64)
    ensures
        r == match spec_parse_i64(s@) {
            Some(v) => v,
            None => spec_java_hash(s.spec_bytes()),
        },
{
    match parse_i64(s) {
        Some(v) => v,
        None => java_string_hash(s),
    }
}

/// The lower-case form of a string, as `str::to_lowercase` gives it (the
/// Unicode case tables of the standard library decide).
pub uninterp spec fn spec_lowercase(s: Seq<char>) -> Seq<char>;

/// `str::to_lowercase`.  The contract names the result only: it is the
/// lower-case form of the argument, a function of the argument alone.
#[verifier::external_body]
fn lowercase(s: &str) -> (r: String)
    ensures
        r@ == spec_lowercase(s@),
{
    s.to_lowercase()
}

/// The index just past the last `:` among the first `n` characters, 0 when
/// there is none.
pub open spec fn after_last_colon(s: Seq<char>, n: int) -> int
    decreases n,
{
    if n <= 0 {
        0
    } else if s[n - 1] == ':' {
        n
    } else {
        after_last_colon(s, n - 1)
    }
}

/// The part of a name after its last `:` (the whole name without one).
pub open spec fn spec_last_segment(s: Seq<char>) -> Seq<char> {
    s.subrange(after_last_colon(s, s.len() as int), s.len() as int)
}

proof fn lemma_after_last_colon_bounds(s: Seq<char>, n: int)
    requires
        0 <= n <= s.len(),
    ensures
        0 <= after_last_colon(s, n) <= n,
    decreases n,
{
    if n > 0 {
        lemma_after_last_colon_bounds(s, n - 1);
    }
}

pub fn last_segment(s: &str) -> (r: &str)
    ensures
        r@ == spec_last_segment(s@),
{
    let n = s.unicode_len();
    let mut k: usize = n;
    proof {
        lemma_after_last_colon_bounds(s@, n as int);
    }
    while k > 0
        invariant
            n == s@.len(),
            0 <= k <= n,
            after_last_colon(s@, n as int) == after_last_colon(s@, k as int),
        decreases k,
    {
        if s.get_char(k - 1) == ':' {
            return s.substring_char(k, n);
        }
        k -= 1;
    }
    s.substring_char(0, n)
}

/// Whether a world whose lower-case name is `full` is the one the
/// lower-case `target` asks for: by its full name, by the part after the
/// namespace, or by the short names `nether`, `overworld` and `end`.
pub open spec fn spec_world_matches(full: Seq<char>, target: Seq<char>) -> bool {
    let short = spec_last_segment(full);
    ||| full == target
    ||| short == target
    ||| (target == "nether"@ && (full == "minecraft:the_nether"@ || short == "the_nether"@))
    ||| (target == "overworld"@ && short == "overworld"@)
    ||| (target == "end"@ && (full == "minecraft:the_end"@ || short == "the_end"@))
}

/// Whether the world named `full` is the one asked for; both names are
/// lower-case already (see `spec_world_matches`).
pub fn world_name_matches(full: &str, target: &str) -> (r: bool)
    ensures
        r == spec_world_matches(full@, target@),
{
    let short = last_segment(full);
    str_equal(full, target) || str_equal(short, target) || (str_equal(target, "nether") && (
    str_equal(full, "minecraft:the_nether") || str_equal(short, "the_nether"))) || (str_equal(
        target,
        "overworld",
    ) && str_equal(short, "overworld")) || (str_equal(target, "end") && (str_equal(
        full,
        "minecraft:the_end",
    ) || str_equal(short, "the_end")))
}

/// The first of the worlds whose name matches the one asked for, ignoring
/// case.
pub open spec fn spec_find_world(names: Seq<Seq<char>>, target: Seq<char>, i: int) -> Option<int>
    decreases names.len() - i,
{
    if i < 0 || i >= names.len() {
        None
    } else if spec_world_matches(spec_lowercase(names[i]), spec_lowercase(target)) {
        Some(i)
    } else {
        spec_find_world(names, target, i + 1)
    }
}

/// The index of the world `/wgen` acts on, among the worlds' names.
pub fn find_world(names: &Vec<String>, target: &str) -> (r: Option<usize>)
    ensures
        r == match spec_find_world(names@.map_values(|n: String| n@), target@, 0) {
            Some(i) => Some(i as usize),
            None => None,
        },
{
    let ghost views = names@.map_values(|n: String| n@);
    let lower_target = lowercase(target);
    let mut i: usize = 0;
    while i < names.len()
        invariant
            0 <= i <= names@.len(),
            views == names@.map_values(|n: String| n@),
            lower_target@ == spec_lowercase(target@),
            spec_find_world(views, target@, 0) == spec_find_world(views, target@, i as int),
        decreases names@.len() - i,
    {
        let full = lowercase(names[i].as_str());
        if world_name_matches(full.as_str(), lower_target.as_str()) {
            assert(spec_find_world(views, target@, i as int) == Some(i as int));
            return Some(i);
        }
        i += 1;
    }
    None
}

// ---------------------------------------------------------------- /usage

/// How the uptime is written: with days, with hours, or minutes only.
#[derive(Clone, Copy, Debug, PartialEq, Eq, Structural)]
pub enum UptimeForm {
    Days,
    Hours,
    Minutes,
}

/// Splits an uptime in seconds into days, hours, minutes and seconds.
pub fn uptime_parts(secs: u64) -> (r: (u64, u64, u64, u64))
    ensures
        r == (secs / 86400, (secs % 86400) / 3600, (secs % 3600) / 60, secs % 60),
{
    (secs / 86400, (secs % 86400) / 3600, (secs % 3600) / 60, secs % 60)
}

/// The parts of an uptime add up to it, and each lies below its next unit.
pub proof fn law_uptime_parts_add_up(secs: u64)
    ensures
        ({
            let (d, h, m, s) = (secs / 86400, (secs % 86400) / 3600, (secs % 3600) / 60, secs % 60);
            &&& d * 86400 + h * 3600 + m * 60 + s == secs
            &&& h < 24
            &&& m < 60
            &&& s < 60
        }),
{
    let d = secs / 86400;
    let r = secs % 86400;
    let h = r / 3600;
    let m = (secs % 3600) / 60;
    let s = secs % 60;
    assert(secs == d * 86400 + r) by (nonlinear_arith)
        requires
            d == secs / 86400,
            r == secs % 86400,
    ;
    assert(r == h * 3600 + r % 3600) by (nonlinear_arith)
        requires
            h == r / 3600,
    ;
    assert(r % 3600 == secs % 3600) by (nonlinear_arith)
        requires
            r == secs % 86400,
    ;
    assert(secs % 3600 == m * 60 + s) by (nonlinear_arith)
        requires
            m == (secs % 3600) / 60,
            s == secs % 60,
    ;
    assert(h < 24) by (nonlinear_arith)
        requires
            h == r / 3600,
            r < 86400,
            r >= 0,
    ;
    assert(m < 60) by (nonlinear_arith)
        requires
            m == (secs % 3600) / 60,
    ;
}

/// Days are shown when there are any, else hours when there are any.
pub fn uptime_form(days: u64, hours: u64) -> (r: UptimeForm)
    ensures
        r == if days > 0 {
            UptimeForm::Days
        } else if hours > 0 {
            UptimeForm::Hours
        } else {
            UptimeForm::Minutes
        },
{
    if days > 0 {
        UptimeForm::Days
    } else if hours > 0 {
        UptimeForm::Hours
    } else {
        UptimeForm::Minutes
    }
}

// ---------------------------------------------------------------- handshake

/// What the server makes of a client's handshake.
#[derive(Clone, Copy, Debug, PartialEq, Eq, Structural)]
pub enum HandshakeVerdict {
    /// The connection goes on.
    Accept,
    /// The client is older than the oldest version served: it is kicked.
    OutdatedClient,
    /// The client is newer than the newest version served: it is kicked.
    OutdatedServer,
}

/// A status request always goes on; a login must use a protocol within
/// `min..=max`.
pub fn handshake_verdict(next_is_status: bool, protocol: i32, min: i32, max: i32) -> (r:
    HandshakeVerdict)
    ensures
        r == if next_is_status {
            HandshakeVerdict::Accept
        } else if protocol < min {
            HandshakeVerdict::OutdatedClient
        } else if protocol > max {
            HandshakeVerdict::OutdatedServer
        } else {
            HandshakeVerdict::Accept
        },
{
    if next_is_status {
        HandshakeVerdict::Accept
    } else if protocol < min {
        HandshakeVerdict::OutdatedClient
    } else if protocol > max {
        HandshakeVerdict::OutdatedServer
    } else {
        HandshakeVerdict::Accept
    }
}

// ---------------------------------------------------------------- suggestions

/// The command a suggestion request asks about, without its leading slash,
/// and whether it had one.
pub fn strip_command_slash(command: &str) -> (r: (&str, bool))
    ensures
        r.1 == (command@.len() > 0 && command@[0] == '/'),
        r.0@ == if r.1 {
            command@.drop_first()
        } else {
            command@
        },
{
    let n = command.unicode_len();
    if n > 0 && command.get_char(0) == '/' {
        let rest = command.substring_char(1, n);
        assert(rest@ =~= command@.drop_first());
        (rest, true)
    } else {
        (command, false)
    }
}

/// Where the suggestions go in the typed command: their start (moved past the
/// slash) and length.
pub fn suggestion_range(start: usize, len: usize, had_slash: bool) -> (r: (i32, i32))
    requires
        start < usize::MAX,
    ensures
        r.0 == (start + if had_slash {
            1int
        } else {
            0int
        }) as i32,
        r.1 == len as i32,
{
    let offset: usize = if had_slash {
        1
    } else {
        0
    };
    ((start + offset) as i32, len as i32)
}

} // verus!
