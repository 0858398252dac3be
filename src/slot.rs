//! The persisted countdown slot: one decimal number of seconds, nothing else,
//! and the rule that decides what a freshly started service believes.
use vstd::prelude::*;
use crate::budget::BudgetConfig;

verus! {

pub open spec fn is_digit(b: u8) -> bool {
    48 <= b && b <= 57
}

pub open spec fn all_digits(s: Seq<u8>) -> bool {
    forall|i: int| 0 <= i < s.len() ==> is_digit(#[trigger] s[i])
}

/// The number that a string of decimal digits denotes.
pub open spec fn digits_value(s: Seq<u8>) -> nat
    decreases s.len(),
{
    if s.len() == 0 {
        0
    } else {
        digits_value(s.drop_last()) * 10 + (s.last() - 48) as nat
    }
}

/// The digits after an optional leading `+`, as an unsigned decimal is read.
pub open spec fn unsigned_body(s: Seq<u8>) -> Seq<u8> {
    if s.len() > 0 && s[0] == 43 {
        s.drop_first()
    } else {
        s
    }
}

/// What the slot's text denotes: an optional `+`, then one or more digits whose
/// value fits in 64 bits. Anything else (spaces, signs, a newline) denotes nothing.
pub open spec fn parse_spec(s: Seq<u8>) -> Option<u64> {
    let body = unsigned_body(s);
    if body.len() > 0 && all_digits(body) && digits_value(body) <= u64::MAX {
        Some(digits_value(body) as u64)
    } else {
        None
    }
}

/// The shortest decimal writing of `n`.
pub open spec fn decimal(n: nat) -> Seq<u8>
    decreases n,
{
    if n < 10 {
        seq![(n + 48) as u8]
    } else {
        decimal(n / 10).push((n % 10 + 48) as u8)
    }
}

proof fn lemma_digits_value_push(s: Seq<u8>, b: u8)
    ensures
        digits_value(s.push(b)) == digits_value(s) * 10 + (b - 48) as nat,
{
    assert(s.push(b).drop_last() =~= s);
}

/// A longer run of digits never denotes less than its prefix.
proof fn lemma_prefix_le(s: Seq<u8>, i: int, j: int)
    requires
        0 <= i <= j <= s.len(),
        all_digits(s),
    ensures
        digits_value(s.subrange(0, i)) <= digits_value(s.subrange(0, j)),
    decreases j - i,
{
    if i < j {
        lemma_prefix_le(s, i, j - 1);
        assert(s.subrange(0, j).drop_last() =~= s.subrange(0, j - 1));
        assert(is_digit(s[j - 1]));
    }
}

proof fn lemma_decimal_reads_back(n: nat)
    ensures
        decimal(n).len() > 0,
        all_digits(decimal(n)),
        is_digit(decimal(n)[0]),
        digits_value(decimal(n)) == n,
    decreases n,
{
    if n < 10 {
        lemma_digits_value_push(Seq::<u8>::empty(), (n + 48) as u8);
        assert(Seq::<u8>::empty().push((n + 48) as u8) =~= decimal(n));
    } else {
        lemma_decimal_reads_back(n / 10);
        lemma_digits_value_push(decimal(n / 10), (n % 10 + 48) as u8);
        assert((n / 10) * 10 + n % 10 == n);
        let d = decimal(n);
        assert forall|i: int| 0 <= i < d.len() implies is_digit(#[trigger] d[i]) by {
            if i < d.len() - 1 {
                assert(d[i] == decimal(n / 10)[i]);
            }
        }
    }
}

/// Reading back what was written gives the same number: the slot's text for
/// `n` denotes `n`.
pub proof fn lemma_parse_decimal(n: u64)
    ensures
        parse_spec(decimal(n as nat)) == Some(n),
{
    lemma_decimal_reads_back(n as nat);
    assert(unsigned_body(decimal(n as nat)) == decimal(n as nat));
}

/// Reads the slot's text as a number of seconds.
pub fn parse_secs(s: &[u8]) -> (r: Option<u64>)
    ensures
        r == parse_spec(s@),
{
    let start: usize = if s.len() > 0 && s[0] == 43u8 { 1 } else { 0 };
    let ghost body = unsigned_body(s@);
    assert(body =~= s@.subrange(start as int, s@.len() as int));
    if start >= s.len() {
        return None;
    }
    let mut acc: u64 = 0;
    let mut i: usize = start;
    while i < s.len()
        invariant
            start <= i <= s.len(),
            start < s.len(),
            body == unsigned_body(s@),
            body =~= s@.subrange(start as int, s@.len() as int),
            all_digits(body.subrange(0, i - start)),
            acc as nat == digits_value(body.subrange(0, i - start)),
        decreases s.len() - i,
    {
        let b = s[i];
        assert(body[i - start] == b);
        if b < 48u8 || b > 57u8 {
            assert(!is_digit(body[i - start]));
            return None;
        }
        let d: u64 = (b - 48u8) as u64;
        proof {
            assert(body.subrange(0, i - start + 1) =~= body.subrange(0, i - start).push(b));
            lemma_digits_value_push(body.subrange(0, i - start), b);
        }
        if acc > (u64::MAX - d) / 10 {
            proof {
                assert(acc * 10 + d > u64::MAX) by (nonlinear_arith)
                    requires
                        acc > (u64::MAX - d) / 10,
                        d <= 9,
                ;
                if all_digits(body) {
                    lemma_prefix_le(body, i - start + 1, body.len() as int);
                    assert(body.subrange(0, body.len() as int) =~= body);
                }
            }
            return None;
        }
        acc = acc * 10 + d;
        i = i + 1;
    }
    assert(body.subrange(0, i - start) =~= body);
    Some(acc)
}

/// Writes a number of seconds as the slot's text.
pub fn encode_secs(n: u64) -> (r: Vec<u8>)
    ensures
        r@ == decimal(n as nat),
    decreases n,
{
    if n < 10 {
        let mut v: Vec<u8> = Vec::new();
        v.push((n + 48) as u8);
        assert(v@ =~= decimal(n as nat));
        v
    } else {
        let mut v = encode_secs(n / 10);
        v.push((n % 10 + 48) as u8);
        v
    }
}

/// What a service believes at start-up, and whether it must reset.
#[derive(Clone, Copy, Debug, PartialEq, Eq, Structural)]
pub struct LoadOutcome {
    /// The countdown to start from, in seconds.
    pub remaining_secs: u64,
    /// The slot was stale: the caller rewrites it with the full allowance and
    /// rotates the log, as at a day boundary.
    pub day_reset: bool,
}

/// The slot is stale when it was last written before today's local midnight
/// (both in seconds on one clock).
pub open spec fn is_stale(modified_secs: i64, midnight_secs: i64) -> bool {
    modified_secs < midnight_secs
}

/// The countdown a starting service takes from the slot: the full allowance
/// for an empty or stale slot, else the number stored there when it reads as
/// one within the allowance, else the full allowance.
pub open spec fn load_spec(
    config: BudgetConfig,
    contents: Seq<u8>,
    modified_secs: i64,
    midnight_secs: i64,
) -> LoadOutcome {
    if contents.len() == 0 {
        LoadOutcome { remaining_secs: config.allowed_secs, day_reset: false }
    } else if is_stale(modified_secs, midnight_secs) {
        LoadOutcome { remaining_secs: config.allowed_secs, day_reset: true }
    } else {
        match parse_spec(contents) {
            Some(v) => if v <= config.allowed_secs {
                LoadOutcome { remaining_secs: v, day_reset: false }
            } else {
                LoadOutcome { remaining_secs: config.allowed_secs, day_reset: false }
            },
            None => LoadOutcome { remaining_secs: config.allowed_secs, day_reset: false },
        }
    }
}

/// Decides the starting countdown from the slot's contents and its last
/// write time.
pub fn load_budget(config: &BudgetConfig, contents: &[u8], modified_secs: i64, midnight_secs: i64) -> (r: LoadOutcome)
    ensures
        r == load_spec(*config, contents@, modified_secs, midnight_secs),
        r.remaining_secs <= config.allowed_secs,
        is_stale(modified_secs, midnight_secs) ==> r.remaining_secs == config.allowed_secs,
{
    if contents.len() == 0 {
        LoadOutcome { remaining_secs: config.allowed_secs, day_reset: false }
    } else if modified_secs < midnight_secs {
        LoadOutcome { remaining_secs: config.allowed_secs, day_reset: true }
    } else {
        match parse_secs(contents) {
            Some(v) => if v <= config.allowed_secs {
                LoadOutcome { remaining_secs: v, day_reset: false }
            } else {
                LoadOutcome { remaining_secs: config.allowed_secs, day_reset: false }
            },
            None => LoadOutcome { remaining_secs: config.allowed_secs, day_reset: false },
        }
    }
}

/// A countdown saved and then loaded on the same day, before midnight passes,
/// comes back unchanged.
pub proof fn lemma_save_load_round_trip(
    config: BudgetConfig,
    saved: u64,
    modified_secs: i64,
    midnight_secs: i64,
)
    requires
        saved <= config.allowed_secs,
        !is_stale(modified_secs, midnight_secs),
    ensures
        load_spec(config, decimal(saved as nat), modified_secs, midnight_secs).remaining_secs == saved,
{
    lemma_parse_decimal(saved);
    lemma_decimal_reads_back(saved as nat);
}

} // verus!
