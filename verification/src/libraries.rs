use vstd::prelude::*;
use crate::error::{outcome_model, ErrorKind, ErrorModel};
use crate::text::{chars_of, equal, less, lex_less};
use crate::text::{lemma_lex_less_asymmetric, lemma_lex_less_connected, lemma_lex_less_transitive};

verus! {

/// What stands between a library's name and where it was found.
pub const ARROW: &'static str = " => ";

/// What stands in place of a path for a library that was not found.
pub const NOT_FOUND: &'static str = "not found";

/// White space that is trimmed from a line: the code points with the
/// Unicode property `White_Space`, which are the ones that
/// `char::is_whitespace` accepts. They are the tab to the carriage return,
/// the space, the next line, the no-break space, the Ogham space mark, the
/// en quad to the hair space, the line and the paragraph separator, the
/// narrow no-break space, the medium mathematical space and the
/// ideographic space.
pub open spec fn is_blank(c: char) -> bool {
    let n = c as u32;
    ||| 0x09 <= n <= 0x0d
    ||| n == 0x20
    ||| n == 0x85
    ||| n == 0xa0
    ||| n == 0x1680
    ||| 0x2000 <= n <= 0x200a
    ||| n == 0x2028
    ||| n == 0x2029
    ||| n == 0x202f
    ||| n == 0x205f
    ||| n == 0x3000
}

/// `s` without the white space at its two ends.
pub open spec fn trimmed(s: Seq<char>) -> Seq<char>
    decreases s.len(),
{
    if s.len() > 0 && is_blank(s.first()) {
        trimmed(s.drop_first())
    } else if s.len() > 0 && is_blank(s.last()) {
        trimmed(s.drop_last())
    } else {
        s
    }
}

/// Whether `pattern` stands in `s` at index `at`.
pub open spec fn occurs_at(s: Seq<char>, pattern: Seq<char>, at: int) -> bool {
    0 <= at && at + pattern.len() <= s.len() && s.subrange(at, at + pattern.len()) == pattern
}

/// Whether `pattern` stands in `s` at index `at` and ends by index `to`.
pub open spec fn occurs_within(s: Seq<char>, pattern: Seq<char>, at: int, to: int) -> bool {
    0 <= at && at + pattern.len() <= to <= s.len() && s.subrange(at, at + pattern.len())
        == pattern
}

/// Whether `line` reports the library `name` as missing: trimmed, the line
/// is the name, the arrow and `not found`, and the arrow is the first one
/// on the line.
pub open spec fn names_missing(line: Seq<char>, name: Seq<char>) -> bool {
    let t = trimmed(line);
    &&& t == name + ARROW@ + NOT_FOUND@
    &&& forall|j: int| 0 <= j < name.len() ==> !occurs_at(t, ARROW@, j)
}

/// Whether the characters of `text` from `from` up to `to` are one whole
/// line: they hold no line feed, and a line feed or an end of the text is
/// on either side.
pub open spec fn is_line(text: Seq<char>, from: int, to: int) -> bool {
    &&& 0 <= from <= to <= text.len()
    &&& (from == 0 || text[from - 1] == '\n')
    &&& (to == text.len() || text[to] == '\n')
    &&& forall|k: int| from <= k < to ==> text[k] != '\n'
}

/// Whether some line of `text` reports the library `name` as missing.
pub open spec fn reports_missing(text: Seq<char>, name: Seq<char>) -> bool {
    exists|from: int, to: int| #[trigger]
        is_line(text, from, to) && names_missing(text.subrange(from, to), name)
}

/// Whether `names` is in dictionary order without repetition.
pub open spec fn strictly_sorted(names: Seq<Seq<char>>) -> bool {
    forall|i: int, j: int| 0 <= i < j < names.len() ==> lex_less(names[i], names[j])
}

/// Whether `names` lists the libraries that `text` reports as missing,
/// each once, in dictionary order.
pub open spec fn lists_missing(text: Seq<char>, names: Seq<Seq<char>>) -> bool {
    &&& strictly_sorted(names)
    &&& forall|name: Seq<char>| names.contains(name) <==> reports_missing(text, name)
}

/// The libraries that `text` reports as missing, each once, in dictionary
/// order.
pub open spec fn missing(text: Seq<char>) -> Seq<Seq<char>> {
    choose|names: Seq<Seq<char>>| lists_missing(text, names)
}

/// Two lists in dictionary order without repetition that hold the same
/// names are the same list.
pub proof fn lemma_sorted_lists_agree(a: Seq<Seq<char>>, b: Seq<Seq<char>>)
    requires
        strictly_sorted(a),
        strictly_sorted(b),
        forall|name: Seq<char>| a.contains(name) <==> b.contains(name),
    ensures
        a == b,
    decreases a.len(),
{
    if a.len() == 0 {
        if b.len() > 0 {
            assert(b.contains(b[0]));
        }
        assert(a =~= b);
    } else {
        assert(a.contains(a[0]));
        let k = choose|k: int| 0 <= k < b.len() && b[k] == a[0];
        assert(b.contains(b[0]));
        let j = choose|j: int| 0 <= j < a.len() && a[j] == b[0];
        if k > 0 && j > 0 {
            lemma_lex_less_asymmetric(b[0], b[k]);
        }
        assert(a[0] == b[0]);
        let x = a.drop_first();
        let y = b.drop_first();
        assert forall|name: Seq<char>| x.contains(name) <==> y.contains(name) by {
            crate::text::lemma_lex_less_irreflexive(name);
            if x.contains(name) {
                let i = choose|i: int| 0 <= i < x.len() && x[i] == name;
                assert(a[i + 1] == name);
                assert(a.contains(name));
                let m = choose|m: int| 0 <= m < b.len() && b[m] == name;
                assert(lex_less(a[0], a[i + 1]));
                assert(y[m - 1] == name);
            }
            if y.contains(name) {
                let i = choose|i: int| 0 <= i < y.len() && y[i] == name;
                assert(b[i + 1] == name);
                assert(b.contains(name));
                let m = choose|m: int| 0 <= m < a.len() && a[m] == name;
                assert(lex_less(b[0], b[i + 1]));
                assert(x[m - 1] == name);
            }
        }
        assert forall|p: int, q: int| 0 <= p < q < x.len() implies lex_less(x[p], x[q]) by {
            assert(x[p] == a[p + 1] && x[q] == a[q + 1]);
        }
        assert forall|p: int, q: int| 0 <= p < q < y.len() implies lex_less(y[p], y[q]) by {
            assert(y[p] == b[p + 1] && y[q] == b[q + 1]);
        }
        lemma_sorted_lists_agree(x, y);
        assert(a =~= seq![a[0]] + x);
        assert(b =~= seq![b[0]] + y);
    }
}

/// Where the line of `text` that begins at `from` ends.
spec fn line_end_of(text: Seq<char>, from: int) -> int
    decreases text.len() - from,
{
    if from < 0 || from >= text.len() || text[from] == '\n' {
        from
    } else {
        line_end_of(text, from + 1)
    }
}

/// The name of the library that `line` reports as missing, if it reports
/// one.
spec fn name_on(line: Seq<char>) -> Option<Seq<char>> {
    let t = trimmed(line);
    let n = t.len() - ARROW@.len() - NOT_FOUND@.len();
    if n >= 0 && names_missing(line, t.take(n)) {
        Some(t.take(n))
    } else {
        None
    }
}

/// `names` with `name` at its place in the order, unless it is there.
spec fn inserted(names: Seq<Seq<char>>, name: Seq<char>) -> Seq<Seq<char>>
    decreases names.len(),
{
    if names.len() == 0 {
        seq![name]
    } else if names[0] == name {
        names
    } else if lex_less(name, names[0]) {
        seq![name] + names
    } else {
        seq![names[0]] + inserted(names.drop_first(), name)
    }
}

/// The libraries that the lines of `text` that begin before `upto` report
/// as missing, each once, in dictionary order.
spec fn collected(text: Seq<char>, upto: int) -> Seq<Seq<char>>
    decreases upto,
{
    if upto <= 0 {
        Seq::empty()
    } else {
        let earlier = collected(text, upto - 1);
        let from = upto - 1;
        let to = line_end_of(text, from);
        if is_line(text, from, to) {
            match name_on(text.subrange(from, to)) {
                Some(name) => inserted(earlier, name),
                None => earlier,
            }
        } else {
            earlier
        }
    }
}

proof fn lemma_line_end(text: Seq<char>, from: int)
    requires
        0 <= from <= text.len(),
    ensures
        from <= line_end_of(text, from) <= text.len(),
        line_end_of(text, from) == text.len() || text[line_end_of(text, from)] == '\n',
        forall|k: int| from <= k < line_end_of(text, from) ==> text[k] != '\n',
    decreases text.len() - from,
{
    if from < text.len() && text[from] != '\n' {
        lemma_line_end(text, from + 1);
    }
}

/// A line is known by where it begins.
proof fn lemma_line_is_unique(text: Seq<char>, from: int, to: int)
    requires
        is_line(text, from, to),
    ensures
        to == line_end_of(text, from),
{
    lemma_line_end(text, from);
    let end = line_end_of(text, from);
    if to < end {
        assert(text[to] != '\n');
    }
    if end < to {
        assert(text[end] != '\n');
    }
}

/// A line reports at most one library as missing.
proof fn lemma_name_is_unique(line: Seq<char>, name: Seq<char>)
    requires
        names_missing(line, name),
    ensures
        name_on(line) == Some(name),
{
    let t = trimmed(line);
    assert(t.take(name.len() as int) =~= name);
}

proof fn lemma_inserted(names: Seq<Seq<char>>, name: Seq<char>)
    requires
        strictly_sorted(names),
    ensures
        strictly_sorted(inserted(names, name)),
        forall|s: Seq<char>|
            inserted(names, name).contains(s) <==> names.contains(s) || s == name,
    decreases names.len(),
{
    let r = inserted(names, name);
    if names.len() == 0 {
        assert(r[0] == name);
        assert forall|s: Seq<char>| r.contains(s) <==> names.contains(s) || s == name by {
            if s == name {
                assert(r[0] == s);
            }
        }
    } else if names[0] == name {
        assert(names.contains(name));
    } else if lex_less(name, names[0]) {
        assert forall|i: int, j: int| 0 <= i < j < r.len() implies lex_less(r[i], r[j]) by {
            assert(r[j] == names[j - 1]);
            if i == 0 {
                if j > 1 {
                    lemma_lex_less_transitive(name, names[0], names[j - 1]);
                }
            } else {
                assert(r[i] == names[i - 1]);
            }
        }
        assert forall|s: Seq<char>| r.contains(s) <==> names.contains(s) || s == name by {
            if r.contains(s) {
                let i = choose|i: int| 0 <= i < r.len() && r[i] == s;
                if i > 0 {
                    assert(names[i - 1] == s);
                }
            }
            if names.contains(s) {
                let i = choose|i: int| 0 <= i < names.len() && names[i] == s;
                assert(r[i + 1] == s);
            }
            if s == name {
                assert(r[0] == s);
            }
        }
    } else {
        let rest = names.drop_first();
        let tail = inserted(rest, name);
        assert forall|p: int, q: int| 0 <= p < q < rest.len() implies lex_less(
            rest[p],
            rest[q],
        ) by {
            assert(rest[p] == names[p + 1] && rest[q] == names[q + 1]);
        }
        lemma_inserted(rest, name);
        lemma_lex_less_connected(name, names[0]);
        assert forall|i: int, j: int| 0 <= i < j < r.len() implies lex_less(r[i], r[j]) by {
            assert(r[j] == tail[j - 1]);
            if i == 0 {
                assert(tail.contains(tail[j - 1]));
                if rest.contains(tail[j - 1]) {
                    let m = choose|m: int| 0 <= m < rest.len() && rest[m] == tail[j - 1];
                    assert(rest[m] == names[m + 1]);
                }
            } else {
                assert(r[i] == tail[i - 1]);
            }
        }
        assert forall|s: Seq<char>| r.contains(s) <==> names.contains(s) || s == name by {
            if r.contains(s) {
                let i = choose|i: int| 0 <= i < r.len() && r[i] == s;
                if i == 0 {
                    assert(names[0] == s);
                } else {
                    assert(tail[i - 1] == s);
                    assert(tail.contains(s));
                    if rest.contains(s) {
                        let m = choose|m: int| 0 <= m < rest.len() && rest[m] == s;
                        assert(names[m + 1] == s);
                    }
                }
            }
            if names.contains(s) {
                let i = choose|i: int| 0 <= i < names.len() && names[i] == s;
                if i == 0 {
                    assert(r[0] == s);
                } else {
                    assert(rest[i - 1] == s);
                    assert(rest.contains(s));
                    assert(tail.contains(s));
                    let m = choose|m: int| 0 <= m < tail.len() && tail[m] == s;
                    assert(r[m + 1] == s);
                }
            }
            if s == name {
                let in_rest = rest.contains(s);
                assert(tail.contains(s) <==> in_rest || s == name);
                assert(tail.contains(s));
                let m = choose|m: int| 0 <= m < tail.len() && tail[m] == s;
                assert(r[m + 1] == s);
            }
        }
    }
}

proof fn lemma_collected(text: Seq<char>, upto: int)
    requires
        0 <= upto <= text.len() + 1,
    ensures
        strictly_sorted(collected(text, upto)),
        forall|name: Seq<char>|
            collected(text, upto).contains(name) <==> exists|a: int, b: int| #[trigger]
                is_line(text, a, b) && a < upto && names_missing(text.subrange(a, b), name),
    decreases upto,
{
    let here = collected(text, upto);
    if upto > 0 {
        let earlier = collected(text, upto - 1);
        let from = upto - 1;
        let to = line_end_of(text, from);
        let line = text.subrange(from, to);
        lemma_collected(text, upto - 1);
        let found = if is_line(text, from, to) {
            name_on(line)
        } else {
            None
        };
        if let Some(name) = found {
            lemma_inserted(earlier, name);
        }
        assert forall|name: Seq<char>|
            here.contains(name) <==> exists|a: int, b: int| #[trigger]
                is_line(text, a, b) && a < upto && names_missing(
                    text.subrange(a, b),
                    name,
                ) by {
            if earlier.contains(name) {
                let (a, b) = choose|a: int, b: int| #[trigger]
                    is_line(text, a, b) && a < upto - 1 && names_missing(
                        text.subrange(a, b),
                        name,
                    );
                assert(is_line(text, a, b) && a < upto);
            }
            if found == Some(name) {
                assert(is_line(text, from, to) && from < upto);
            }
            if exists|a: int, b: int| #[trigger]
                is_line(text, a, b) && a < upto && names_missing(text.subrange(a, b), name) {
                let (a, b) = choose|a: int, b: int| #[trigger]
                    is_line(text, a, b) && a < upto && names_missing(
                        text.subrange(a, b),
                        name,
                    );
                if a < upto - 1 {
                    assert(is_line(text, a, b) && a < upto - 1);
                } else {
                    lemma_line_is_unique(text, a, b);
                    lemma_name_is_unique(line, name);
                }
            }
        }
    }
}

/// Every text has its list of missing libraries.
pub proof fn lemma_missing_is_listed(text: Seq<char>)
    ensures
        lists_missing(text, missing(text)),
{
    let all = text.len() as int + 1;
    let names = collected(text, all);
    lemma_collected(text, all);
    assert forall|name: Seq<char>| names.contains(name) <==> reports_missing(text, name) by {
        if reports_missing(text, name) {
            let (a, b) = choose|a: int, b: int| #[trigger]
                is_line(text, a, b) && names_missing(text.subrange(a, b), name);
            assert(is_line(text, a, b) && a < all);
        }
    }
    assert(lists_missing(text, names));
}

/// Whether the inspection of an interpreter shows that it can run here: no
/// line reports a missing library.
pub open spec fn runs_here(inspection: Seq<char>) -> bool {
    forall|name: Seq<char>| !reports_missing(inspection, name)
}

/// The verdict on an interpreter by what the dynamic linker says of it:
/// fine where nothing is missing, and else the list of what is.
pub open spec fn inspection_verdict(inspection: Seq<char>) -> Result<(), ErrorModel> {
    if missing(inspection).len() == 0 {
        Ok(())
    } else {
        Err(ErrorModel::MissingSharedLibraries { libs: missing(inspection) })
    }
}

/// An inspection lists no library as missing exactly when the interpreter
/// can run here.
pub proof fn lemma_nothing_missing(inspection: Seq<char>)
    ensures
        missing(inspection).len() == 0 <==> runs_here(inspection),
{
    lemma_missing_is_listed(inspection);
    let names = missing(inspection);
    if names.len() == 0 {
        assert forall|name: Seq<char>| !reports_missing(inspection, name) by {
            assert(!names.contains(name));
        }
    } else {
        assert(names.contains(names[0]));
    }
}

fn blank(c: char) -> (b: bool)
    ensures
        b == is_blank(c),
{
    let n = c as u32;
    (0x09 <= n && n <= 0x0d) || n == 0x20 || n == 0x85 || n == 0xa0 || n == 0x1680 || (0x2000
        <= n && n <= 0x200a) || n == 0x2028 || n == 0x2029 || n == 0x202f || n == 0x205f || n
        == 0x3000
}

/// The bounds of what is left of `text[from..to]` when it is trimmed.
fn trim(text: &Vec<char>, from: usize, to: usize) -> (r: (usize, usize))
    requires
        from <= to <= text.len(),
    ensures
        from <= r.0 <= r.1 <= to,
        text@.subrange(r.0 as int, r.1 as int) == trimmed(text@.subrange(from as int, to as int)),
{
    let mut a = from;
    while a < to && blank(text[a])
        invariant
            from <= a <= to <= text.len(),
            trimmed(text@.subrange(a as int, to as int)) == trimmed(
                text@.subrange(from as int, to as int),
            ),
        decreases to - a,
    {
        assert(text@.subrange(a as int, to as int).drop_first() =~= text@.subrange(
            a + 1,
            to as int,
        ));
        a += 1;
    }
    let mut b = to;
    while a < b && blank(text[b - 1])
        invariant
            a <= b <= to <= text.len(),
            a < to ==> !is_blank(text@[a as int]),
            trimmed(text@.subrange(a as int, b as int)) == trimmed(
                text@.subrange(from as int, to as int),
            ),
        decreases b - a,
    {
        assert(text@.subrange(a as int, b as int).drop_last() =~= text@.subrange(
            a as int,
            b - 1,
        ));
        assert(text@.subrange(a as int, b as int).first() == text@[a as int]);
        b -= 1;
    }
    proof {
        let s = text@.subrange(a as int, b as int);
        if a < b {
            assert(s.first() == text@[a as int]);
            assert(s.last() == text@[b - 1]);
        }
    }
    (a, b)
}

/// Whether `pattern` stands in `text[..to]` at index `at`.
fn stands_at(text: &Vec<char>, at: usize, to: usize, pattern: &Vec<char>) -> (b: bool)
    requires
        at <= to <= text.len(),
    ensures
        b == occurs_within(text@, pattern@, at as int, to as int),
{
    if pattern.len() > to - at {
        return false;
    }
    let mut k: usize = 0;
    while k < pattern.len()
        invariant
            k <= pattern.len(),
            at + pattern.len() <= to <= text.len(),
            forall|j: int| 0 <= j < k ==> text@[at + j] == pattern@[j],
        decreases pattern.len() - k,
    {
        if text[at + k] != pattern[k] {
            assert(text@.subrange(at as int, at + pattern.len())[k as int] != pattern@[k as int]);
            return false;
        }
        k += 1;
    }
    assert(text@.subrange(at as int, at + pattern.len()) =~= pattern@);
    true
}

/// The first index in `text[from..to]` at which `pattern` stands.
fn find(text: &Vec<char>, from: usize, to: usize, pattern: &Vec<char>) -> (r: Option<usize>)
    requires
        from <= to <= text.len(),
    ensures
        match r {
            Some(i) => from <= i && occurs_within(text@, pattern@, i as int, to as int)
                && forall|j: int|
                from <= j < i ==> !occurs_within(text@, pattern@, j, to as int),
            None => forall|j: int|
                from <= j <= to ==> !occurs_within(text@, pattern@, j, to as int),
        },
{
    let mut i = from;
    while i < to
        invariant
            from <= i <= to <= text.len(),
            forall|j: int| from <= j < i ==> !occurs_within(text@, pattern@, j, to as int),
        decreases to - i,
    {
        if stands_at(text, i, to, pattern) {
            return Some(i);
        }
        i += 1;
    }
    if stands_at(text, to, to, pattern) {
        return Some(to);
    }
    None
}

/// The bounds of the name of the library that the line `text[from..to]`
/// reports as missing, if it reports one.
fn missing_on_line(text: &Vec<char>, from: usize, to: usize) -> (r: Option<(usize, usize)>)
    requires
        from <= to <= text.len(),
    ensures
        match r {
            Some((a, b)) => a <= b <= text.len() && names_missing(
                text@.subrange(from as int, to as int),
                text@.subrange(a as int, b as int),
            ),
            None => forall|name: Seq<char>|
                !names_missing(text@.subrange(from as int, to as int), name),
        },
{
    let arrow = chars_of(ARROW);
    let not_found = chars_of(NOT_FOUND);
    let (a, b) = trim(text, from, to);
    let ghost line = text@.subrange(from as int, to as int);
    let ghost t = text@.subrange(a as int, b as int);
    assert forall|j: int| 0 <= j implies occurs_at(t, arrow@, j) == occurs_within(
        text@,
        arrow@,
        a + j,
        b as int,
    ) by {
        if j + arrow@.len() <= t.len() {
            assert(t.subrange(j, j + arrow@.len()) =~= text@.subrange(
                a + j,
                a + j + arrow@.len(),
            ));
        }
    }
    match find(text, a, b, &arrow) {
        Some(i) => {
            let rest = i + arrow.len();
            let whole = stands_at(text, rest, b, &not_found) && rest + not_found.len() == b;
            if whole {
                proof {
                    let name = text@.subrange(a as int, i as int);
                    assert(t =~= name + ARROW@ + NOT_FOUND@);
                    assert forall|j: int| 0 <= j < name.len() implies !occurs_at(t, ARROW@, j) by {
                        assert(occurs_at(t, arrow@, j) == occurs_within(
                            text@,
                            arrow@,
                            a + j,
                            b as int,
                        ));
                    }
                }
                Some((a, i))
            } else {
                proof {
                    assert forall|name: Seq<char>| !names_missing(line, name) by {
                        if names_missing(line, name) {
                            let n = name.len() as int;
                            assert(t.subrange(n, n + arrow@.len()) =~= ARROW@);
                            assert(occurs_at(t, arrow@, n));
                            assert(occurs_at(t, arrow@, i - a));
                            assert(n == i - a);
                            assert(t.subrange(n + arrow@.len(), t.len() as int) =~= NOT_FOUND@);
                            assert(text@.subrange(rest as int, b as int) =~= t.subrange(
                                n + arrow@.len(),
                                t.len() as int,
                            ));
                        }
                    }
                }
                None
            }
        },
        None => {
            proof {
                assert forall|name: Seq<char>| !names_missing(line, name) by {
                    if names_missing(line, name) {
                        let n = name.len() as int;
                        assert(t.subrange(n, n + arrow@.len()) =~= ARROW@);
                        assert(occurs_at(t, arrow@, n));
                        assert(occurs_within(text@, arrow@, a + n, b as int));
                    }
                }
            }
            None
        },
    }
}

/// The end of the line of `text` that begins at `from`.
fn line_end(text: &Vec<char>, from: usize) -> (to: usize)
    requires
        from <= text.len(),
    ensures
        from <= to <= text.len(),
        to == text.len() || text@[to as int] == '\n',
        forall|k: int| from <= k < to ==> text@[k] != '\n',
{
    let mut to = from;
    while to < text.len() && text[to] != '\n'
        invariant
            from <= to <= text.len(),
            forall|k: int| from <= k < to ==> text@[k] != '\n',
        decreases text.len() - to,
    {
        to += 1;
    }
    to
}

/// Puts `name` into `names` at its place in the order, unless it is there.
fn insert_sorted(names: &mut Vec<String>, name: String)
    requires
        strictly_sorted(old(names).deep_view()),
    ensures
        strictly_sorted(final(names).deep_view()),
        forall|s: Seq<char>|
            final(names).deep_view().contains(s) <==> old(names).deep_view().contains(s) || s
                == name@,
{
    let ghost before = names.deep_view();
    let mut i: usize = 0;
    let mut placed = false;
    while i < names.len() && !placed
        invariant
            i <= names.len(),
            *names == *old(names),
            before == names.deep_view(),
            strictly_sorted(before),
            forall|j: int| 0 <= j < i ==> lex_less(before[j], name@),
            placed ==> i < names.len() && lex_less(name@, before[i as int]),
        decreases names.len() - i + (if placed { 0int } else { 1int }),
    {
        assert(before[i as int] == names[i as int]@);
        if equal(names[i].as_str(), name.as_str()) {
            assert(before.contains(name@));
            return ;
        }
        if less(name.as_str(), names[i].as_str()) {
            placed = true;
        } else {
            proof {
                lemma_lex_less_connected(before[i as int], name@);
            }
            i += 1;
        }
    }
    proof {
        assert forall|j: int| i <= j < before.len() implies lex_less(name@, before[j]) by {
            if j > i {
                lemma_lex_less_transitive(name@, before[i as int], before[j]);
            }
        }
        assert forall|j: int| 0 <= j < before.len() implies before[j] != name@ by {
            if j < i {
                lemma_lex_less_asymmetric(before[j], name@);
                crate::text::lemma_lex_less_irreflexive(name@);
            } else {
                crate::text::lemma_lex_less_irreflexive(name@);
            }
        }
    }
    let ghost added = name@;
    names.insert(i, name);
    proof {
        let after = names.deep_view();
        assert(after.len() == before.len() + 1);
        assert forall|k: int| 0 <= k < after.len() implies #[trigger] after[k] == (if k < i {
            before[k]
        } else if k == i {
            added
        } else {
            before[k - 1]
        }) by {
            assert(after[k] == names@[k]@);
            if k < i {
                assert(before[k] == old(names)@[k]@);
            } else if k > i {
                assert(before[k - 1] == old(names)@[k - 1]@);
            }
        }
        assert forall|s: Seq<char>| after.contains(s) <==> before.contains(s) || s == added by {
            if after.contains(s) {
                let k = choose|k: int| 0 <= k < after.len() && after[k] == s;
                if k < i {
                    assert(before[k] == s);
                } else if k > i {
                    assert(before[k - 1] == s);
                }
            }
            if before.contains(s) {
                let k = choose|k: int| 0 <= k < before.len() && before[k] == s;
                if k < i {
                    assert(after[k] == s);
                } else {
                    assert(after[k + 1] == s);
                }
            }
            if s == added {
                assert(after[i as int] == s);
            }
        }
        assert forall|x: int, y: int| 0 <= x < y < after.len() implies lex_less(
            after[x],
            after[y],
        ) by {
            let _ = after[x];
            let _ = after[y];
        }
    }
}

/// The libraries that an inspection by the dynamic linker reports as
/// missing, each once, in dictionary order.
pub fn missing_shared_libraries(inspection: &str) -> (libs: Vec<String>)
    ensures
        lists_missing(inspection@, libs.deep_view()),
        libs.deep_view() == missing(inspection@),
{
    let text = chars_of(inspection);
    let mut libs: Vec<String> = Vec::new();
    let mut from: usize = 0;
    let mut more = true;
    assert(libs.deep_view() =~= Seq::<Seq<char>>::empty());
    while more
        invariant
            text@ == inspection@,
            from <= text.len(),
            more ==> (from == 0 || text@[from - 1] == '\n'),
            strictly_sorted(libs.deep_view()),
            forall|name: Seq<char>|
                libs.deep_view().contains(name) <==> exists|a: int, b: int| #[trigger]
                    is_line(text@, a, b) && (a < from || !more) && names_missing(
                        text@.subrange(a, b),
                        name,
                    ),
        decreases text.len() - from + (if more { 1int } else { 0int }),
    {
        let to = line_end(&text, from);
        let ghost seen = libs.deep_view();
        let ghost line = text@.subrange(from as int, to as int);
        assert(is_line(text@, from as int, to as int));
        let found = missing_on_line(&text, from, to);
        match found {
            Some((a, b)) => {
                let name = inspection.substring_char(a, b).to_owned();
                insert_sorted(&mut libs, name);
            },
            None => {},
        }
        let ghost next = if to < text.len() { to + 1 } else { from as int };
        let ghost done = to >= text.len();
        proof {
            // The lines that begin before the next one are those seen so
            // far and the one just read.
            assert forall|a: int, b: int| #[trigger]
                is_line(text@, a, b) && (a < next || done) && !(a < from) implies a == from && b
                == to by {
                if a > from {
                    assert(text@[a - 1] != '\n');
                }
                if b < to {
                    assert(text@[b] != '\n');
                }
                if b > to {
                    assert(text@[to as int] != '\n');
                }
            }
            assert forall|name: Seq<char>|
                libs.deep_view().contains(name) <==> exists|a: int, b: int| #[trigger]
                    is_line(text@, a, b) && (a < next || done) && names_missing(
                        text@.subrange(a, b),
                        name,
                    ) by {
                let now = libs.deep_view().contains(name);
                let earlier = seen.contains(name);
                let here = names_missing(line, name);
                assert(now <==> earlier || here) by {
                    match found {
                        Some((x, y)) => {
                            let n = text@.subrange(x as int, y as int);
                            if here {
                                assert(trimmed(line) == name + ARROW@ + NOT_FOUND@);
                                assert(trimmed(line) == n + ARROW@ + NOT_FOUND@);
                                assert(name =~= (name + ARROW@ + NOT_FOUND@).take(
                                    trimmed(line).len() - ARROW@.len() - NOT_FOUND@.len(),
                                ));
                                assert(n =~= (n + ARROW@ + NOT_FOUND@).take(
                                    trimmed(line).len() - ARROW@.len() - NOT_FOUND@.len(),
                                ));
                            }
                        },
                        None => {},
                    }
                }
                if earlier {
                    let (a, b) = choose|a: int, b: int| #[trigger]
                        is_line(text@, a, b) && a < from && names_missing(
                            text@.subrange(a, b),
                            name,
                        );
                    assert(is_line(text@, a, b) && (a < next || done));
                }
                if here {
                    assert(is_line(text@, from as int, to as int) && (from < next || done));
                }
            }
        }
        if to < text.len() {
            from = to + 1;
        } else {
            more = false;
        }
    }
    proof {
        assert forall|name: Seq<char>|
            libs.deep_view().contains(name) <==> reports_missing(inspection@, name) by {
            if reports_missing(inspection@, name) {
                let (a, b) = choose|a: int, b: int| #[trigger]
                    is_line(text@, a, b) && names_missing(text@.subrange(a, b), name);
                assert(is_line(text@, a, b) && (a < from || !more));
            }
        }
        assert(lists_missing(inspection@, libs.deep_view()));
        lemma_sorted_lists_agree(libs.deep_view(), missing(inspection@));
    }
    libs
}

/// Judges an interpreter by what the dynamic linker says of it: it can
/// run here unless a shared library is reported missing. The missing
/// libraries are listed each once, in dictionary order.
pub fn validate_shared_libraries(inspection: &str) -> (r: Result<(), ErrorKind>)
    ensures
        outcome_model(r) == inspection_verdict(inspection@),
        r is Ok <==> runs_here(inspection@),
{
    let libs = missing_shared_libraries(inspection);
    proof {
        lemma_nothing_missing(inspection@);
    }
    if libs.len() == 0 {
        Ok(())
    } else {
        Err(ErrorKind::MissingSharedLibraries { libs })
    }
}

} // verus!
