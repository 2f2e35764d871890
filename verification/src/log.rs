//! The per-run log file: its name, made from the time in milliseconds, and its
//! first line, which records the invocation.

use vstd::prelude::*;
use vstd::string::*;

verus! {

/// Where the configuration file lies.
pub const CONFIG_PATH: &'static str = "./exe-proxy-target.txt";

/// What every log file's name starts with.
pub const LOG_PATH_PREFIX: &'static str = "./exe-proxy";

/// What every log file's name ends with.
pub const LOG_PATH_SUFFIX: &'static str = ".log";

/// The character that writes the digit `d`.
pub open spec fn digit_char(d: nat) -> char
    recommends
        d < 10,
{
    (48 + d) as char
}

/// `n` written in decimal, without leading zeros.
pub open spec fn decimal(n: nat) -> Seq<char>
    decreases n,
{
    if n < 10 {
        seq![digit_char(n)]
    } else {
        decimal(n / 10).push(digit_char(n % 10))
    }
}

/// The number that a string of decimal digits writes.
pub open spec fn decimal_value(s: Seq<char>) -> nat
    decreases s.len(),
{
    if s.len() == 0 {
        0
    } else {
        (decimal_value(s.drop_last()) * 10 + (s.last() as nat - 48)) as nat
    }
}

/// The name of the log file of a run that started at `millis` milliseconds
/// after the epoch: the prefix, a dot, the milliseconds in decimal, the suffix.
pub open spec fn log_path_text(millis: nat) -> Seq<char> {
    LOG_PATH_PREFIX@ + seq!['.'] + decimal(millis) + LOG_PATH_SUFFIX@
}

/// The milliseconds that name the log: what the clock gave, or zero where it gave nothing.
pub open spec fn millis_or_zero(clock: Option<u128>) -> u128 {
    match clock {
        Some(ms) => ms,
        None => 0,
    }
}

/// The text of each string of `args`, in order.
pub open spec fn texts(args: Seq<String>) -> Seq<Seq<char>> {
    Seq::new(args.len(), |i: int| args[i]@)
}

/// The parts of `parts` in order, with one space between neighbours.
pub open spec fn joined(parts: Seq<Seq<char>>) -> Seq<char>
    decreases parts.len(),
{
    if parts.len() == 0 {
        Seq::empty()
    } else if parts.len() == 1 {
        parts[0]
    } else {
        joined(parts.drop_last()) + seq![' '] + parts.last()
    }
}

/// The first line of the log: the whole invocation joined by spaces, a colon, a line break.
pub open spec fn header_text(parts: Seq<Seq<char>>) -> Seq<char> {
    joined(parts) + seq![':', '\n']
}

/// The arguments handed on to the target: all but the launcher's own name.
pub open spec fn forwarded_texts(parts: Seq<Seq<char>>) -> Seq<Seq<char>> {
    if parts.len() == 0 {
        parts
    } else {
        parts.skip(1)
    }
}

/// Reading a number's decimal form gives the number back.
pub proof fn lemma_decimal_value(n: nat)
    ensures
        decimal_value(decimal(n)) == n,
        decimal(n).len() >= 1,
    decreases n,
{
    if n < 10 {
        let s = decimal(n);
        assert(s.drop_last().len() == 0);
        assert(decimal_value(s.drop_last()) == 0);
        assert(s.last() == digit_char(n));
    } else {
        lemma_decimal_value(n / 10);
        let s = decimal(n);
        assert(s.drop_last() =~= decimal(n / 10));
        assert(s.last() == digit_char(n % 10));
    }
}

/// Different numbers have different decimal forms.
pub proof fn lemma_decimal_injective(a: nat, b: nat)
    ensures
        decimal(a) == decimal(b) <==> a == b,
{
    lemma_decimal_value(a);
    lemma_decimal_value(b);
}

/// Runs that start at different milliseconds log to different files, so that
/// neither overwrites the other's log; runs of the same millisecond share one name.
pub proof fn lemma_log_paths_distinct(a: nat, b: nat)
    ensures
        log_path_text(a) == log_path_text(b) <==> a == b,
{
    if log_path_text(a) == log_path_text(b) {
        let p = LOG_PATH_PREFIX@ + seq!['.'];
        let q = LOG_PATH_SUFFIX@;
        let da = decimal(a);
        let db = decimal(b);
        assert(log_path_text(a).len() == p.len() + da.len() + q.len());
        assert(log_path_text(b).len() == p.len() + db.len() + q.len());
        assert(da.len() == db.len());
        assert forall|i: int| 0 <= i < da.len() implies da[i] == db[i] by {
            assert(log_path_text(a)[p.len() + i] == da[i]);
            assert(log_path_text(b)[p.len() + i] == db[i]);
        }
        assert(da =~= db);
        lemma_decimal_injective(a, b);
    }
}

/// The string that writes the digit `d`.
fn digit_str(d: u8) -> (r: &'static str)
    requires
        d < 10,
    ensures
        r@ == seq![digit_char(d as nat)],
{
    proof {
        reveal_strlit("0");
        reveal_strlit("1");
        reveal_strlit("2");
        reveal_strlit("3");
        reveal_strlit("4");
        reveal_strlit("5");
        reveal_strlit("6");
        reveal_strlit("7");
        reveal_strlit("8");
        reveal_strlit("9");
    }
    let r = match d {
        0 => "0",
        1 => "1",
        2 => "2",
        3 => "3",
        4 => "4",
        5 => "5",
        6 => "6",
        7 => "7",
        8 => "8",
        _ => "9",
    };
    assert(r@ =~= seq![digit_char(d as nat)]);
    r
}

/// Appends `n` in decimal to `out`.
pub fn push_decimal(out: &mut String, n: u128)
    ensures
        final(out)@ == old(out)@ + decimal(n as nat),
    decreases n,
{
    if n >= 10 {
        push_decimal(out, n / 10);
    }
    let d: u8 = (n % 10) as u8;
    out.append(digit_str(d));
    assert(final(out)@ =~= old(out)@ + decimal(n as nat));
}

/// The milliseconds that name the log file: the clock's reading, or zero where
/// the clock gave none.
pub fn timestamp(clock: Option<u128>) -> (r: u128)
    ensures
        r == millis_or_zero(clock),
{
    match clock {
        Some(ms) => ms,
        None => 0,
    }
}

/// The name of the log file of a run that started at `millis` milliseconds after the epoch.
pub fn log_path(millis: u128) -> (r: String)
    ensures
        r@ == log_path_text(millis as nat),
{
    let mut out = String::from_str(LOG_PATH_PREFIX);
    proof {
        reveal_strlit(".");
    }
    out.append(".");
    push_decimal(&mut out, millis);
    out.append(LOG_PATH_SUFFIX);
    proof {
        assert(out@ =~= log_path_text(millis as nat));
    }
    out
}

/// The first line of the log: every string of `args`, the launcher's own name
/// first, joined by single spaces, then a colon and a line break.
pub fn invocation_line(args: &Vec<String>) -> (r: String)
    ensures
        r@ == header_text(texts(args@)),
{
    let mut out = String::new();
    let mut i: usize = 0;
    while i < args.len()
        invariant
            i <= args.len(),
            out@ == joined(texts(args@).take(i as int)),
        decreases args.len() - i,
    {
        proof {
            let before = texts(args@).take(i as int);
            let after = texts(args@).take(i + 1);
            assert(after.drop_last() =~= before);
            assert(after.last() == args@[i as int]@);
            reveal_strlit(" ");
        }
        if i > 0 {
            out.append(" ");
        }
        out.append(args[i].as_str());
        proof {
            assert(out@ =~= joined(texts(args@).take(i + 1)));
        }
        i += 1;
    }
    proof {
        assert(texts(args@).take(i as int) =~= texts(args@));
        reveal_strlit(":\n");
    }
    out.append(":\n");
    proof {
        assert(out@ =~= header_text(texts(args@)));
    }
    out
}

/// The arguments for the target: `args` without its first string, in order.
pub fn forwarded(args: &Vec<String>) -> (r: Vec<String>)
    ensures
        texts(r@) == forwarded_texts(texts(args@)),
{
    let mut out: Vec<String> = Vec::new();
    let mut i: usize = 1;
    while i < args.len()
        invariant
            1 <= i,
            i <= args.len() || args.len() == 0,
            out@.len() == if args.len() == 0 { 0 } else { i - 1 },
            forall|j: int| 0 <= j < out@.len() ==> out@[j]@ == args@[j + 1]@,
        decreases args.len() - i,
    {
        out.push(args[i].clone());
        i += 1;
    }
    proof {
        assert(texts(out@) =~= forwarded_texts(texts(args@)));
    }
    out
}

} // verus!
