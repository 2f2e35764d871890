//! Resolving the target program from the text of the configuration file.

use vstd::prelude::*;
use vstd::std_specs::iter::IteratorSpec;
use vstd::string::*;
use crate::status::Failure;

verus! {

/// What reading the configuration file gave.
#[derive(Debug, PartialEq, Eq)]
pub enum ReadOutcome {
    /// The file was read; this is its whole text.
    Contents(String),
    /// The file does not exist.
    NotFound,
    /// The file exists but could not be read; this is the error text.
    Failed(String),
}

/// Whether `c` is whitespace: one of the code points that Unicode marks `White_Space`.
pub open spec fn is_space(c: char) -> bool {
    let n = c as u32;
    ||| 0x09 <= n <= 0x0D
    ||| n == 0x20
    ||| n == 0x85
    ||| n == 0xA0
    ||| n == 0x1680
    ||| 0x2000 <= n <= 0x200A
    ||| n == 0x2028
    ||| n == 0x2029
    ||| n == 0x202F
    ||| n == 0x205F
    ||| n == 0x3000
}

/// `s` without its leading whitespace.
pub open spec fn trim_start(s: Seq<char>) -> Seq<char>
    decreases s.len(),
{
    if s.len() > 0 && is_space(s[0]) {
        trim_start(s.subrange(1, s.len() as int))
    } else {
        s
    }
}

/// `s` without its trailing whitespace.
pub open spec fn trim_end(s: Seq<char>) -> Seq<char>
    decreases s.len(),
{
    if s.len() > 0 && is_space(s.last()) {
        trim_end(s.drop_last())
    } else {
        s
    }
}

/// `s` without its leading and trailing whitespace.
pub open spec fn trimmed(s: Seq<char>) -> Seq<char> {
    trim_end(trim_start(s))
}

/// The target named by configuration text `s`, or the reason why it names none:
/// the trimmed text must be a single, non-empty line.
pub open spec fn config_target(s: Seq<char>) -> Result<Seq<char>, Failure> {
    let t = trimmed(s);
    if t.contains('\n') {
        Err(Failure::ConfigMultipleLines)
    } else if t.len() == 0 {
        Err(Failure::ConfigEmpty)
    } else {
        Ok(t)
    }
}

/// The target that a read of the configuration file resolves to, or the failure it ends in.
pub open spec fn resolution(outcome: ReadOutcome) -> Result<Seq<char>, Failure> {
    match outcome {
        ReadOutcome::Contents(text) => config_target(text@),
        ReadOutcome::NotFound => Err(Failure::ConfigMissing),
        ReadOutcome::Failed(_) => Err(Failure::ConfigUnreadable),
    }
}

/// The error text that came with a failed read.
pub open spec fn read_error(outcome: ReadOutcome) -> Option<Seq<char>> {
    match outcome {
        ReadOutcome::Failed(text) => Some(text@),
        _ => None,
    }
}

/// `a` is where the leading whitespace of `s` ends.
pub open spec fn is_start_bound(s: Seq<char>, a: int) -> bool {
    &&& 0 <= a <= s.len()
    &&& forall|i: int| 0 <= i < a ==> is_space(#[trigger] s[i])
    &&& a < s.len() ==> !is_space(s[a])
}

/// `b` is where the trailing whitespace of `s` begins.
pub open spec fn is_end_bound(s: Seq<char>, b: int) -> bool {
    &&& 0 <= b <= s.len()
    &&& forall|i: int| b <= i < s.len() ==> is_space(#[trigger] s[i])
    &&& 0 < b ==> !is_space(s[b - 1])
}

/// Trimming at the start drops exactly the whitespace before the first other character.
pub proof fn lemma_trim_start_bound(s: Seq<char>) -> (a: int)
    ensures
        is_start_bound(s, a),
        trim_start(s) == s.subrange(a, s.len() as int),
    decreases s.len(),
{
    if s.len() > 0 && is_space(s[0]) {
        let rest = s.subrange(1, s.len() as int);
        let a1 = lemma_trim_start_bound(rest);
        assert forall|i: int| 0 <= i < a1 + 1 implies is_space(#[trigger] s[i]) by {
            if i > 0 {
                assert(s[i] == rest[i - 1]);
            }
        }
        assert(a1 < rest.len() ==> rest[a1] == s[a1 + 1]);
        assert(rest.subrange(a1, rest.len() as int) =~= s.subrange(a1 + 1, s.len() as int));
        a1 + 1
    } else {
        assert(s.subrange(0, s.len() as int) =~= s);
        0
    }
}

/// Trimming at the end drops exactly the whitespace after the last other character.
pub proof fn lemma_trim_end_bound(s: Seq<char>) -> (b: int)
    ensures
        is_end_bound(s, b),
        trim_end(s) == s.subrange(0, b),
    decreases s.len(),
{
    if s.len() > 0 && is_space(s.last()) {
        let rest = s.drop_last();
        let b1 = lemma_trim_end_bound(rest);
        assert forall|i: int| b1 <= i < s.len() implies is_space(#[trigger] s[i]) by {
            if i < rest.len() {
                assert(s[i] == rest[i]);
            }
        }
        assert(0 < b1 ==> rest[b1 - 1] == s[b1 - 1]);
        assert(rest.subrange(0, b1) =~= s.subrange(0, b1));
        b1
    } else {
        assert(s.subrange(0, s.len() as int) =~= s);
        s.len() as int
    }
}

/// The trimmed text is the stretch of `s` from its first to its last character
/// that is no whitespace; it is empty where `s` holds whitespace only.
pub proof fn lemma_trimmed_bounds(s: Seq<char>) -> (r: (int, int))
    ensures
        is_start_bound(s, r.0),
        r.0 <= r.1 <= s.len(),
        r.0 < r.1 ==> is_end_bound(s, r.1),
        r.0 == r.1 ==> r.0 == s.len(),
        trimmed(s) == s.subrange(r.0, r.1),
{
    let a = lemma_trim_start_bound(s);
    let mid = s.subrange(a, s.len() as int);
    let b1 = lemma_trim_end_bound(mid);
    let b = a + b1;
    assert(mid.subrange(0, b1) =~= s.subrange(a, b));
    if b1 > 0 {
        assert(mid[b1 - 1] == s[b - 1]);
        assert forall|i: int| b <= i < s.len() implies is_space(#[trigger] s[i]) by {
            assert(s[i] == mid[i - a]);
        }
    } else {
        if a < s.len() {
            assert(mid[0] == s[a]);
            assert(is_space(mid[0]));
        }
    }
    (a, b)
}

/// Configuration text with two lines that are not blank is refused as holding
/// more than one line: whenever a line break stands between two characters that
/// are no whitespace.
pub proof fn lemma_two_lines_refused(s: Seq<char>, i: int, j: int, k: int)
    requires
        0 <= i < j < k < s.len(),
        !is_space(s[i]),
        s[j] == '\n',
        !is_space(s[k]),
    ensures
        config_target(s) == Err::<Seq<char>, Failure>(Failure::ConfigMultipleLines),
{
    let (a, b) = lemma_trimmed_bounds(s);
    assert(a <= i);
    assert(k < b);
    let t = s.subrange(a, b);
    assert(t[j - a] == '\n');
}

/// Configuration text that holds whitespace only is refused as empty.
pub proof fn lemma_blank_refused(s: Seq<char>)
    requires
        forall|i: int| 0 <= i < s.len() ==> is_space(#[trigger] s[i]),
    ensures
        config_target(s) == Err::<Seq<char>, Failure>(Failure::ConfigEmpty),
{
    let (a, b) = lemma_trimmed_bounds(s);
    assert(a == s.len());
    assert(trimmed(s).len() == 0);
    assert(!trimmed(s).contains('\n'));
}

/// A resolved target is one non-empty line that neither starts nor ends with
/// whitespace, and it is the configuration text but for whitespace around it.
pub proof fn lemma_target_is_one_line(s: Seq<char>)
    requires
        config_target(s) is Ok,
    ensures
        ({
            let t = config_target(s)->Ok_0;
            &&& t.len() > 0
            &&& !t.contains('\n')
            &&& !is_space(t[0])
            &&& !is_space(t.last())
            &&& t == trimmed(s)
            &&& trimmed(t) == t
        }),
{
    let (a, b) = lemma_trimmed_bounds(s);
    let t = s.subrange(a, b);
    assert(t[0] == s[a]);
    assert(t.last() == s[b - 1]);
}

/// Whether `c` is Unicode whitespace.
pub fn is_whitespace(c: char) -> (r: bool)
    ensures
        r == is_space(c),
{
    let n: u32 = c as u32;
    (0x09 <= n && n <= 0x0D) || n == 0x20 || n == 0x85 || n == 0xA0 || n == 0x1680 || (0x2000 <= n
        && n <= 0x200A) || n == 0x2028 || n == 0x2029 || n == 0x202F || n == 0x205F || n == 0x3000
}

/// The characters of `s`, in order.
pub fn chars_of(s: &str) -> (r: Vec<char>)
    ensures
        r@ == s@,
{
    broadcast use {axiom_spec_iter, next_postcondition};

    let mut out: Vec<char> = Vec::new();
    let mut it = s.chars();
    loop
        invariant
            out@ + it.remaining() == s@,
            it.decrease() is Some,
        ensures
            out@ == s@,
        decreases it.decrease()->0,
    {
        match it.next() {
            Some(c) => {
                out.push(c);
                assert(out@ + it.remaining() =~= s@);
            },
            None => {
                assert(out@ =~= s@);
                break ;
            },
        }
    }
    out
}

/// Whether `s` holds a line break.
pub fn has_line_break(s: &str) -> (r: bool)
    ensures
        r == s@.contains('\n'),
{
    let chars = chars_of(s);
    let mut i: usize = 0;
    while i < chars.len()
        invariant
            chars@ == s@,
            i <= chars.len(),
            forall|j: int| 0 <= j < i ==> s@[j] != '\n',
        decreases chars.len() - i,
    {
        if chars[i] == '\n' {
            return true;
        }
        i += 1;
    }
    false
}

/// Removes the whitespace at both ends of `s`.
pub fn trim<'a>(s: &'a str) -> (r: &'a str)
    ensures
        r@ == trimmed(s@),
{
    let chars = chars_of(s);
    let n: usize = chars.len();
    let mut a: usize = 0;
    while a < n && is_whitespace(chars[a])
        invariant
            chars@ == s@,
            n == s@.len(),
            a <= n,
            forall|j: int| 0 <= j < a ==> is_space(#[trigger] s@[j]),
        decreases n - a,
    {
        a += 1;
    }
    let mut b: usize = n;
    while a < b && is_whitespace(chars[b - 1])
        invariant
            chars@ == s@,
            n == s@.len(),
            a <= b <= n,
            forall|j: int| b <= j < n ==> is_space(#[trigger] s@[j]),
        decreases b - a,
    {
        b -= 1;
    }
    proof {
        let (a0, b0) = lemma_trimmed_bounds(s@);
        assert(a0 == a);
        assert(b0 == b);
    }
    s.substring_char(a, b)
}

/// Resolves the target program from what reading the configuration file gave.
///
/// A missing file and an unreadable one each end in their own failure. Text
/// that was read is trimmed; it must then be a single, non-empty line, which is
/// the target.
pub fn resolve_target(outcome: &ReadOutcome) -> (r: Result<String, Failure>)
    ensures
        match r {
            Ok(target) => resolution(*outcome) == Ok::<Seq<char>, Failure>(target@),
            Err(f) => resolution(*outcome) == Err::<Seq<char>, Failure>(f),
        },
{
    match outcome {
        ReadOutcome::NotFound => Err(Failure::ConfigMissing),
        ReadOutcome::Failed(_) => Err(Failure::ConfigUnreadable),
        ReadOutcome::Contents(text) => {
            let t = trim(text.as_str());
            if has_line_break(t) {
                Err(Failure::ConfigMultipleLines)
            } else if t.is_empty() {
                Err(Failure::ConfigEmpty)
            } else {
                Ok(String::from_str(t))
            }
        },
    }
}

} // verus!
