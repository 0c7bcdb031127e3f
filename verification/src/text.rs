//! Text as sequences of characters: searching, replacing and formatting.
//!
//! Every release name, link and message of this crate is built from these
//! functions, so their contracts are stated over `Seq<char>`, the view of
//! `str` and `String`.

use vstd::prelude::*;

verus! {

/// The characters of a text that may be absent.
pub open spec fn optional_text(text: Option<String>) -> Option<Seq<char>> {
    match text {
        Some(text) => Some(text@),
        None => None,
    }
}

/// The characters of each text of a list.
pub open spec fn texts(list: Seq<String>) -> Seq<Seq<char>> {
    Seq::new(list.len(), |i: int| list[i]@)
}

/// `pattern` stands in `text` at index `at`.
pub open spec fn occurs_at(text: Seq<char>, pattern: Seq<char>, at: int) -> bool {
    &&& 0 <= at
    &&& at + pattern.len() <= text.len()
    &&& text.subrange(at, at + pattern.len()) == pattern
}

/// `pattern` stands somewhere in `text`.
pub open spec fn occurs_in(text: Seq<char>, pattern: Seq<char>) -> bool {
    exists|at: int| occurs_at(text, pattern, at)
}

/// `text` ends with `suffix`.
pub open spec fn ends_with(text: Seq<char>, suffix: Seq<char>) -> bool {
    occurs_at(text, suffix, text.len() - suffix.len())
}

/// `text` with every occurrence of `from` replaced by `to`. Occurrences are
/// found from left to right and do not overlap: after a match the search goes
/// on behind it. An empty `from` matches nowhere.
pub open spec fn replaced(text: Seq<char>, from: Seq<char>, to: Seq<char>) -> Seq<char>
    decreases text.len(),
{
    if from.len() == 0 || text.len() < from.len() {
        text
    } else if text.subrange(0, from.len() as int) == from {
        to + replaced(text.skip(from.len() as int), from, to)
    } else {
        seq![text[0]] + replaced(text.skip(1), from, to)
    }
}

/// `text` without the characters `c` at its start.
pub open spec fn without_leading(text: Seq<char>, c: char) -> Seq<char>
    decreases text.len(),
{
    if text.len() > 0 && text[0] == c {
        without_leading(text.skip(1), c)
    } else {
        text
    }
}

/// `text` without the characters `c` at its end.
pub open spec fn without_trailing(text: Seq<char>, c: char) -> Seq<char>
    decreases text.len(),
{
    if text.len() > 0 && text.last() == c {
        without_trailing(text.drop_last(), c)
    } else {
        text
    }
}

/// `text` without the characters `c` at its start and at its end.
pub open spec fn trimmed(text: Seq<char>, c: char) -> Seq<char> {
    without_trailing(without_leading(text, c), c)
}

/// The decimal digit for `d`, which is below ten.
pub open spec fn digit(d: nat) -> char {
    if d == 0 {
        '0'
    } else if d == 1 {
        '1'
    } else if d == 2 {
        '2'
    } else if d == 3 {
        '3'
    } else if d == 4 {
        '4'
    } else if d == 5 {
        '5'
    } else if d == 6 {
        '6'
    } else if d == 7 {
        '7'
    } else if d == 8 {
        '8'
    } else {
        '9'
    }
}

/// `n` in decimal, without leading zeros.
pub open spec fn decimal(n: nat) -> Seq<char>
    decreases n,
{
    if n < 10 {
        seq![digit(n)]
    } else {
        decimal(n / 10).push(digit(n % 10))
    }
}

/// `i` in decimal, with a minus sign in front of a negative number.
pub open spec fn signed_decimal(i: int) -> Seq<char> {
    if i < 0 {
        seq!['-'] + decimal((-i) as nat)
    } else {
        decimal(i as nat)
    }
}

/// `name` between two percent signs: the form of a placeholder.
pub open spec fn marked(name: Seq<char>) -> Seq<char> {
    seq!['%'] + name + seq!['%']
}

/// `text` holds no percent sign.
pub open spec fn percent_free(text: Seq<char>) -> bool {
    forall|i: int| 0 <= i < text.len() ==> text[i] != '%'
}

/// Putting `value` into a text cannot make the placeholder of `name` appear:
/// `value` is not empty, holds no percent sign, and is no part of `name`.
///
/// Each condition is needed. A value with a percent sign can hold the
/// placeholder or complete one. A part of the name completes one too: with
/// the value `name`, `%project_%x%%` becomes `%project_name%` when `%x%` is
/// replaced. So does the empty value: `%pro%x%ject_name%` becomes
/// `%project_name%`.
pub open spec fn inert(value: Seq<char>, name: Seq<char>) -> bool {
    &&& value.len() > 0
    &&& percent_free(value)
    &&& !occurs_in(name, value)
}

/// A value whose first character is nowhere in `name` is no part of `name`.
pub proof fn lemma_absent_without_first(name: Seq<char>, value: Seq<char>)
    requires
        value.len() > 0,
        forall|i: int| 0 <= i < name.len() ==> name[i] != value[0],
    ensures
        !occurs_in(name, value),
{
    assert forall|at: int| !occurs_at(name, value, at) by {
        if occurs_at(name, value, at) {
            assert(name.subrange(at, at + value.len())[0] == value[0]);
        }
    }
}

/// If a replacement with an inert value gives a text that begins with `name`
/// and a percent sign, the text began so before the replacement.
proof fn lemma_replaced_keeps_prefix(
    text: Seq<char>,
    from: Seq<char>,
    to: Seq<char>,
    name: Seq<char>,
)
    requires
        from.len() > 0,
        inert(to, name),
        (name + seq!['%']).is_prefix_of(replaced(text, from, to)),
    ensures
        (name + seq!['%']).is_prefix_of(text),
    decreases text.len(),
{
    let head = name + seq!['%'];
    let after = replaced(text, from, to);
    assert(head =~= after.subrange(0, head.len() as int));
    if text.len() < from.len() {
    } else if text.subrange(0, from.len() as int) == from {
        let tail = replaced(text.skip(from.len() as int), from, to);
        assert(after == to + tail);
        if name.len() == 0 {
            assert(after[0] == head[0]);
            assert(to[0] == '%');
        } else if to.len() <= name.len() {
            assert(name.subrange(0, to.len() as int) =~= to) by {
                assert forall|i: int| 0 <= i < to.len() implies name[i] == to[i] by {
                    assert(after[i] == head[i]);
                }
            }
            assert(occurs_at(name, to, 0));
        } else {
            assert(after[name.len() as int] == head[name.len() as int]);
            assert(to[name.len() as int] == '%');
        }
    } else {
        let tail = replaced(text.skip(1), from, to);
        assert(after == seq![text[0]] + tail);
        assert(after[0] == head[0]);
        if name.len() == 0 {
            assert(head =~= text.subrange(0, 1));
        } else {
            let shorter = name.skip(1);
            assert(!occurs_in(shorter, to)) by {
                assert forall|at: int| !occurs_at(shorter, to, at) by {
                    if occurs_at(shorter, to, at) {
                        assert(name.subrange(at + 1, at + 1 + to.len()) =~= shorter.subrange(
                            at,
                            at + to.len(),
                        ));
                        assert(occurs_at(name, to, at + 1));
                    }
                }
            }
            assert(head.skip(1) =~= shorter + seq!['%']);
            assert((shorter + seq!['%']) =~= tail.subrange(0, head.len() - 1)) by {
                assert forall|i: int| 0 <= i < head.len() - 1 implies (shorter + seq!['%'])[i]
                    == tail[i] by {
                    assert(after[i + 1] == head[i + 1]);
                }
            }
            lemma_replaced_keeps_prefix(text.skip(1), from, to, shorter);
            let rest = text.skip(1);
            assert(shorter + seq!['%'] =~= rest.subrange(0, head.len() - 1));
            assert(head =~= text.subrange(0, head.len() as int)) by {
                assert forall|i: int| 0 <= i < head.len() implies head[i] == text[i] by {
                    if i > 0 {
                        assert((shorter + seq!['%'])[i - 1] == rest[i - 1]);
                    }
                }
            }
        }
    }
}

/// A replacement with an inert value leaves no placeholder of `name` behind,
/// if it is that placeholder which is replaced or if the text held none.
pub proof fn lemma_replaced_has_no_mark(
    text: Seq<char>,
    from: Seq<char>,
    to: Seq<char>,
    name: Seq<char>,
)
    requires
        from.len() > 0,
        inert(to, name),
        from == marked(name) || !occurs_in(text, marked(name)),
    ensures
        !occurs_in(replaced(text, from, to), marked(name)),
    decreases text.len(),
{
    let mark = marked(name);
    let after = replaced(text, from, to);
    if text.len() < from.len() {
        assert(after == text);
        if from == mark {
            assert forall|at: int| !occurs_at(text, mark, at) by {}
        }
    } else {
        let step: int = if text.subrange(0, from.len() as int) == from {
            from.len() as int
        } else {
            1
        };
        let rest = text.skip(step);
        let tail = replaced(rest, from, to);
        if from != mark {
            assert forall|at: int| !occurs_at(rest, mark, at) by {
                if occurs_at(rest, mark, at) {
                    assert(text.subrange(at + step, at + step + mark.len()) =~= rest.subrange(
                        at,
                        at + mark.len(),
                    ));
                    assert(occurs_at(text, mark, at + step));
                }
            }
        }
        lemma_replaced_has_no_mark(rest, from, to, name);
        let front: Seq<char> = if text.subrange(0, from.len() as int) == from {
            to
        } else {
            seq![text[0]]
        };
        assert(after == front + tail);
        assert forall|at: int| !occurs_at(after, mark, at) by {
            if occurs_at(after, mark, at) {
                let found = after.subrange(at, at + mark.len());
                assert(found[0] == mark[0]);
                assert(after[at] == '%');
                if at >= front.len() {
                    assert(tail.subrange(at - front.len(), at - front.len() + mark.len())
                        =~= found);
                    assert(occurs_at(tail, mark, at - front.len()));
                } else if text.subrange(0, from.len() as int) == from {
                    assert(to[at] == '%');
                } else {
                    assert(at == 0);
                    assert(text[0] == '%');
                    assert((name + seq!['%']) =~= tail.subrange(0, mark.len() - 1)) by {
                        assert forall|i: int| 0 <= i < mark.len() - 1 implies (name + seq!['%'])[i]
                            == tail[i] by {
                            assert(found[i + 1] == mark[i + 1]);
                        }
                    }
                    lemma_replaced_keeps_prefix(rest, from, to, name);
                    assert(name + seq!['%'] =~= rest.subrange(0, mark.len() - 1));
                    assert(text.subrange(0, mark.len() as int) =~= mark) by {
                        assert forall|i: int| 0 <= i < mark.len() implies text[i] == mark[i] by {
                            if i > 0 {
                                assert((name + seq!['%'])[i - 1] == rest[i - 1]);
                            }
                        }
                    }
                    assert(occurs_at(text, mark, 0));
                }
            }
        }
    }
}

/// The characters of `s`, in order.
pub fn chars_of(s: &str) -> (out: Vec<char>)
    ensures
        out@ == s@,
{
    let mut out: Vec<char> = Vec::new();
    for c in it: s.chars()
        invariant
            out@ == it.seq().take(it.index() as int),
            it.seq() == s@,
    {
        out.push(c);
    }
    out
}

/// The string made of the characters of `chars`, in order.
pub fn string_of(chars: &Vec<char>) -> (out: String)
    ensures
        out@ == chars@,
{
    let mut out = String::new();
    let mut i: usize = 0;
    while i < chars.len()
        invariant
            i <= chars.len(),
            out@ == chars@.take(i as int),
        decreases chars.len() - i,
    {
        out.push(chars[i]);
        i = i + 1;
    }
    out
}

/// Tells whether `pattern` stands in `text` at index `at`.
pub fn matches_at(text: &Vec<char>, pattern: &Vec<char>, at: usize) -> (found: bool)
    ensures
        found == occurs_at(text@, pattern@, at as int),
{
    if at > text.len() || pattern.len() > text.len() - at {
        return false;
    }
    let mut j: usize = 0;
    while j < pattern.len()
        invariant
            j <= pattern.len(),
            at + pattern.len() <= text.len(),
            forall|k: int| 0 <= k < j ==> text@[at + k] == pattern@[k],
        decreases pattern.len() - j,
    {
        if text[at + j] != pattern[j] {
            assert(text@.subrange(at as int, at + pattern.len())[j as int] != pattern@[j as int]);
            return false;
        }
        j = j + 1;
    }
    assert(text@.subrange(at as int, at + pattern.len()) =~= pattern@);
    true
}

/// Tells whether `text` ends with `suffix`.
pub fn has_suffix(text: &str, suffix: &str) -> (found: bool)
    ensures
        found == ends_with(text@, suffix@),
{
    let t = chars_of(text);
    let s = chars_of(suffix);
    if s.len() > t.len() {
        return false;
    }
    matches_at(&t, &s, t.len() - s.len())
}

/// Tells whether `pattern` stands somewhere in `text`.
pub fn contains(text: &str, pattern: &str) -> (found: bool)
    ensures
        found == occurs_in(text@, pattern@),
{
    let t = chars_of(text);
    let p = chars_of(pattern);
    let mut at: usize = 0;
    while at < t.len()
        invariant
            at <= t.len(),
            t@ == text@,
            p@ == pattern@,
            forall|k: int| 0 <= k < at ==> !occurs_at(t@, p@, k),
        decreases t.len() - at,
    {
        if matches_at(&t, &p, at) {
            return true;
        }
        at = at + 1;
    }
    matches_at(&t, &p, at)
}

/// Replaces every occurrence of `from` in `text` by `to`, as `str::replace`
/// does for a pattern that is not empty.
pub fn replace(text: &str, from: &str, to: &str) -> (out: String)
    ensures
        out@ == replaced(text@, from@, to@),
{
    let t = chars_of(text);
    let f = chars_of(from);
    let w = chars_of(to);
    if f.len() == 0 {
        return string_of(&t);
    }
    let mut out: Vec<char> = Vec::new();
    let mut i: usize = 0;
    assert(t@.skip(0) =~= t@);
    assert(out@ + replaced(t@, f@, w@) =~= replaced(t@, f@, w@));
    while i < t.len()
        invariant
            i <= t.len(),
            f.len() > 0,
            out@ + replaced(t@.skip(i as int), f@, w@) == replaced(t@, f@, w@),
        decreases t.len() - i,
    {
        let ghost rest = t@.skip(i as int);
        if matches_at(&t, &f, i) {
            assert(rest.subrange(0, f.len() as int) =~= t@.subrange(i as int, i + f.len()));
            assert(rest.skip(f.len() as int) =~= t@.skip(i + f.len()));
            let ghost before = out@;
            let mut j: usize = 0;
            while j < w.len()
                invariant
                    j <= w.len(),
                    out@ == before + w@.take(j as int),
                decreases w.len() - j,
            {
                out.push(w[j]);
                j = j + 1;
            }
            assert(w@.take(w.len() as int) =~= w@);
            assert(out@ + replaced(t@.skip(i + f.len()), f@, w@) =~= before + (w@ + replaced(
                rest.skip(f.len() as int),
                f@,
                w@,
            )));
            i = i + f.len();
        } else {
            assert(rest.len() >= f.len() ==> rest.subrange(0, f.len() as int) =~= t@.subrange(
                i as int,
                i + f.len(),
            ));
            assert(rest.skip(1) =~= t@.skip(i + 1));
            proof {
                if rest.len() < f.len() {
                    // Nothing can match in what is left, here or one step on.
                    assert(replaced(rest, f@, w@) == rest);
                    assert(replaced(rest.skip(1), f@, w@) == rest.skip(1));
                    assert(rest =~= seq![rest[0]] + rest.skip(1));
                }
            }
            let ghost before = out@;
            out.push(t[i]);
            assert(out@ + replaced(t@.skip(i + 1), f@, w@) =~= before + (seq![rest[0]] + replaced(
                rest.skip(1),
                f@,
                w@,
            )));
            i = i + 1;
        }
    }
    assert(t@.skip(t.len() as int) =~= Seq::<char>::empty());
    assert(out@ + Seq::<char>::empty() =~= out@);
    string_of(&out)
}

/// Removes every `c` from the start and from the end of `text`, as
/// `str::trim_matches` does for one character.
pub fn trim(text: &str, c: char) -> (out: String)
    ensures
        out@ == trimmed(text@, c),
{
    let t = chars_of(text);
    let mut start: usize = 0;
    assert(t@.skip(0) =~= t@);
    while start < t.len() && t[start] == c
        invariant
            start <= t.len(),
            without_leading(t@, c) == without_leading(t@.skip(start as int), c),
        decreases t.len() - start,
    {
        assert(t@.skip(start as int).skip(1) =~= t@.skip(start + 1));
        start = start + 1;
    }
    assert(without_leading(t@, c) == t@.skip(start as int));
    let mut end: usize = t.len();
    assert(t@.subrange(start as int, end as int) =~= t@.skip(start as int));
    while end > start && t[end - 1] == c
        invariant
            start <= end <= t.len(),
            trimmed(t@, c) == without_trailing(t@.subrange(start as int, end as int), c),
        decreases end,
    {
        assert(t@.subrange(start as int, end as int).drop_last() =~= t@.subrange(
            start as int,
            end - 1,
        ));
        end = end - 1;
    }
    let mut kept: Vec<char> = Vec::new();
    let mut i: usize = start;
    while i < end
        invariant
            start <= i <= end <= t.len(),
            kept@ == t@.subrange(start as int, i as int),
        decreases end - i,
    {
        kept.push(t[i]);
        assert(kept@ =~= t@.subrange(start as int, i + 1));
        i = i + 1;
    }
    string_of(&kept)
}

/// The character that stands for the decimal digit `d`.
fn digit_char(d: u64) -> (c: char)
    requires
        d < 10,
    ensures
        c == digit(d as nat),
{
    if d == 0 {
        '0'
    } else if d == 1 {
        '1'
    } else if d == 2 {
        '2'
    } else if d == 3 {
        '3'
    } else if d == 4 {
        '4'
    } else if d == 5 {
        '5'
    } else if d == 6 {
        '6'
    } else if d == 7 {
        '7'
    } else if d == 8 {
        '8'
    } else {
        '9'
    }
}

/// Appends the decimal digits of `n` to `out`.
fn push_decimal(n: u64, out: &mut Vec<char>)
    ensures
        final(out)@ == old(out)@ + decimal(n as nat),
    decreases n,
{
    if n >= 10 {
        push_decimal(n / 10, out);
    }
    out.push(digit_char(n % 10));
    assert(final(out)@ =~= old(out)@ + decimal(n as nat));
}

/// `n` written in decimal.
pub fn decimal_text(n: u64) -> (out: String)
    ensures
        out@ == decimal(n as nat),
{
    let mut digits: Vec<char> = Vec::new();
    push_decimal(n, &mut digits);
    string_of(&digits)
}

/// `n` written in decimal, with its sign when it is negative.
pub fn signed_decimal_text(n: i64) -> (out: String)
    ensures
        out@ == signed_decimal(n as int),
{
    let mut digits: Vec<char> = Vec::new();
    if n < 0 {
        digits.push('-');
        let magnitude: u64 = if n == i64::MIN {
            9223372036854775808u64
        } else {
            (-n) as u64
        };
        push_decimal(magnitude, &mut digits);
    } else {
        push_decimal(n as u64, &mut digits);
    }
    string_of(&digits)
}

/// `a` followed by `b`.
pub fn join2(a: &str, b: &str) -> (out: String)
    ensures
        out@ == a@ + b@,
{
    let mut out = String::from_str(a);
    out.append(b);
    out
}

/// `a`, `b` and `c` one after the other.
pub fn join3(a: &str, b: &str, c: &str) -> (out: String)
    ensures
        out@ == a@ + b@ + c@,
{
    let mut out = String::from_str(a);
    out.append(b);
    out.append(c);
    out
}

} // verus!
