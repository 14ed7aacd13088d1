use vstd::prelude::*;
use crate::text::chars_of;

verus! {

/// The version of the private environment's layout and contents. The
/// environment is current exactly when its marker file holds this number.
pub const SELF_VERSION: u64 = 14;

/// The value of a decimal digit, or nothing for any other character.
pub open spec fn digit_value(c: char) -> Option<nat> {
    if '0' as u32 <= c as u32 <= '9' as u32 {
        Some((c as u32 - '0' as u32) as nat)
    } else {
        None
    }
}

/// Whether every character of `s` is a decimal digit.
pub open spec fn all_digits(s: Seq<char>) -> bool {
    forall|i: int| 0 <= i < s.len() ==> digit_value(#[trigger] s[i]) is Some
}

/// The number that a run of decimal digits writes down.
pub open spec fn decimal_value(s: Seq<char>) -> nat
    decreases s.len(),
{
    if s.len() == 0 {
        0
    } else {
        decimal_value(s.drop_last()) * 10 + digit_value(s.last()).unwrap_or(0)
    }
}

/// The digits of a marker's content: the content without a leading `+`.
pub open spec fn unsigned_part(content: Seq<char>) -> Seq<char> {
    if content.len() > 0 && content[0] == '+' {
        content.drop_first()
    } else {
        content
    }
}

/// The number that a marker's content parses to: the content is an
/// optional `+` and then one or more decimal digits and nothing else, not
/// even white space, and the number fits in 64 bits.
pub open spec fn parsed_version(content: Seq<char>) -> Option<u64> {
    let digits = unsigned_part(content);
    if digits.len() > 0 && all_digits(digits) && decimal_value(digits) <= u64::MAX {
        Some(decimal_value(digits) as u64)
    } else {
        None
    }
}

/// The decimal digit for `n`, where `n < 10`.
pub open spec fn digit_char(n: nat) -> char {
    if n == 0 {
        '0'
    } else if n == 1 {
        '1'
    } else if n == 2 {
        '2'
    } else if n == 3 {
        '3'
    } else if n == 4 {
        '4'
    } else if n == 5 {
        '5'
    } else if n == 6 {
        '6'
    } else if n == 7 {
        '7'
    } else if n == 8 {
        '8'
    } else {
        '9'
    }
}

/// `n` in decimal, without leading zeros.
pub open spec fn decimal_of(n: nat) -> Seq<char>
    decreases n,
{
    if n < 10 {
        seq![digit_char(n)]
    } else {
        decimal_of(n / 10).push(digit_char(n % 10))
    }
}

/// A number's value only grows as digits are appended.
proof fn lemma_value_grows(s: Seq<char>, k: int)
    requires
        0 <= k <= s.len(),
    ensures
        decimal_value(s.take(k)) <= decimal_value(s),
    decreases s.len(),
{
    if k == s.len() {
        assert(s.take(k) =~= s);
    } else {
        lemma_value_grows(s.drop_last(), k);
        assert(s.drop_last().take(k) =~= s.take(k));
    }
}

/// What is written for a number starts with a digit and holds only digits,
/// and writes that number down.
pub proof fn lemma_decimal_of_reads_back(n: nat)
    ensures
        decimal_of(n).len() > 0,
        all_digits(decimal_of(n)),
        decimal_value(decimal_of(n)) == n,
        unsigned_part(decimal_of(n)) == decimal_of(n),
    decreases n,
{
    if n < 10 {
        let s = decimal_of(n);
        assert(s.drop_last() =~= Seq::<char>::empty());
        assert(decimal_value(s.drop_last()) == 0);
    } else {
        lemma_decimal_of_reads_back(n / 10);
        let s = decimal_of(n);
        let head = decimal_of(n / 10);
        assert(s.drop_last() =~= head);
        assert(s[0] == head[0]);
        assert forall|i: int| 0 <= i < s.len() implies digit_value(#[trigger] s[i]) is Some by {
            if i < head.len() {
                assert(s[i] == head[i]);
            }
        }
    }
}

/// A marker that was written for a version parses to that version.
pub proof fn lemma_written_version_parses(v: u64)
    ensures
        parsed_version(decimal_of(v as nat)) == Some(v),
{
    lemma_decimal_of_reads_back(v as nat);
}

/// Parses the content of the marker file.
pub fn parse_tool_version(content: &str) -> (r: Option<u64>)
    ensures
        r == parsed_version(content@),
{
    let text = chars_of(content);
    let start: usize = if text.len() > 0 && text[0] == '+' {
        1
    } else {
        0
    };
    let ghost digits = unsigned_part(content@);
    assert(digits =~= text@.skip(start as int));
    if start == text.len() {
        return None;
    }
    let mut value: u64 = 0;
    let mut i: usize = start;
    assert(digits.take(0) =~= Seq::<char>::empty());
    while i < text.len()
        invariant
            start <= i <= text.len(),
            text@ == content@,
            digits == unsigned_part(content@),
            digits == text@.skip(start as int),
            all_digits(digits.take(i - start)),
            value == decimal_value(digits.take(i - start)),
        decreases text.len() - i,
    {
        let n = text[i] as u32;
        let ghost upto = digits.take(i - start + 1);
        assert(upto.drop_last() =~= digits.take(i - start));
        assert(upto.last() == text@[i as int]);
        if n < 48 || n > 57 {
            assert(digit_value(digits[i - start]) is None);
            return None;
        }
        let d = (n - 48) as u64;
        assert(digit_value(upto.last()) == Some(d as nat));
        assert(decimal_value(upto) == value * 10 + d);
        if value > (u64::MAX - d) / 10 {
            proof {
                lemma_value_grows(digits, i - start + 1);
            }
            return None;
        }
        value = value * 10 + d;
        assert forall|j: int| 0 <= j < upto.len() implies digit_value(#[trigger] upto[j])
            is Some by {
            if j < upto.len() - 1 {
                assert(upto[j] == digits.take(i - start)[j]);
            }
        }
        i += 1;
    }
    assert(digits.take(digits.len() as int) =~= digits);
    Some(value)
}

fn digit_text(n: u64) -> (s: &'static str)
    requires
        n < 10,
    ensures
        s@ == seq![digit_char(n as nat)],
{
    proof {
        reveal_strlit("0");
        reveal_strlit("1");
        reveal_strlit("2");
        reveal_strlit("3");
        reveal_strlit("4");
        reveal_strlit("5");
        reveal_strlit("6");
        reveal_strlit("7");
        reveal_strlit("8");
        reveal_strlit("9");
    }
    let s = if n == 0 {
        "0"
    } else if n == 1 {
        "1"
    } else if n == 2 {
        "2"
    } else if n == 3 {
        "3"
    } else if n == 4 {
        "4"
    } else if n == 5 {
        "5"
    } else if n == 6 {
        "6"
    } else if n == 7 {
        "7"
    } else if n == 8 {
        "8"
    } else {
        "9"
    };
    assert(s@ =~= seq![digit_char(n as nat)]);
    s
}

fn append_decimal(s: &mut String, n: u64)
    ensures
        final(s)@ == old(s)@ + decimal_of(n as nat),
    decreases n,
{
    if n >= 10 {
        append_decimal(s, n / 10);
    }
    s.append(digit_text(n % 10));
    assert(s@ =~= old(s)@ + decimal_of(n as nat));
}

/// The content of the marker file for `version`: the number in decimal.
pub fn format_tool_version(version: u64) -> (s: String)
    ensures
        s@ == decimal_of(version as nat),
        parsed_version(s@) == Some(version),
{
    let mut s = String::new();
    append_decimal(&mut s, version);
    proof {
        lemma_written_version_parses(version);
        assert(s@ =~= decimal_of(version as nat));
    }
    s
}

/// Whether what was read of the marker file says that the environment is
/// current. A marker that could not be read says that it is not.
pub open spec fn marker_is_current(content: Option<Seq<char>>) -> bool {
    match content {
        Some(text) => parsed_version(text) == Some(SELF_VERSION),
        None => false,
    }
}

/// What this process knows of the private environment's freshness.
///
/// The marker file is read at most once by a process, and its verdict is
/// kept. A provisioning that succeeded is remembered as well. Both only
/// ever go from unknown or not current to current, never back.
#[derive(Clone, Copy, Debug, PartialEq, Eq, Structural)]
pub struct Staleness {
    /// The verdict of the marker file, once it was read.
    pub verdict: Option<bool>,
    /// Whether this process has provisioned the environment.
    pub provisioned: bool,
}

impl Staleness {
    /// The knowledge of a process that has just started.
    pub fn new() -> (s: Staleness)
        ensures
            s.verdict is None,
            !s.provisioned,
    {
        Staleness { verdict: None, provisioned: false }
    }

    /// Whether the environment is known to be current.
    pub open spec fn is_current(self) -> bool {
        self.verdict == Some(true) || self.provisioned
    }

    /// Whether the environment is current; nothing before the marker file
    /// was read.
    pub fn is_up_to_date(&self) -> (r: Option<bool>)
        ensures
            r == match self.verdict {
                Some(_) => Some(self.is_current()),
                None => None,
            },
    {
        match self.verdict {
            Some(current) => Some(current || self.provisioned),
            None => None,
        }
    }

    /// Takes what was read of the marker file, or that it could not be
    /// read. Only the first reading counts.
    pub fn observe(&mut self, content: Option<&str>)
        ensures
            final(self).provisioned == old(self).provisioned,
            final(self).verdict == Some(
                match old(self).verdict {
                    Some(earlier) => earlier,
                    None => marker_is_current(
                        match content {
                            Some(text) => Some(text@),
                            None => None,
                        },
                    ),
                },
            ),
    {
        if self.verdict.is_none() {
            let current = match content {
                Some(text) => parse_tool_version(text) == Some(SELF_VERSION),
                None => false,
            };
            self.verdict = Some(current);
        }
    }

    /// Remembers that this process has provisioned the environment.
    pub fn mark_provisioned(&mut self)
        ensures
            final(self).provisioned,
            final(self).verdict == old(self).verdict,
            final(self).is_current(),
    {
        self.provisioned = true;
    }
}

} // verus!
