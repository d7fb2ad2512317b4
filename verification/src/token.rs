//! Splitting a byte source into raw lines, and one raw line into
//! whitespace-separated fields with a trailing `;` comment stripped, plus
//! parsing of unsigned decimal fields.

use vstd::prelude::*;

verus! {

/// Whitespace inside a line: space, tab, carriage return.
pub open spec fn is_ws(b: u8) -> bool {
    b == 32 || b == 9 || b == 13
}

/// A decimal digit.
pub open spec fn is_digit(b: u8) -> bool {
    48 <= b <= 57
}

/// The index of the first line break in `s`, or `s.len()` if there is none.
pub open spec fn line_break(s: Seq<u8>) -> int
    decreases s.len(),
{
    if s.len() == 0 {
        0
    } else if s[0] == 10 {
        0
    } else {
        1 + line_break(s.drop_first())
    }
}

/// `line_break` never runs past the end of the sequence.
pub proof fn lemma_line_break_bound(s: Seq<u8>)
    ensures
        0 <= line_break(s) <= s.len(),
    decreases s.len(),
{
    if s.len() != 0 && s[0] != 10 {
        lemma_line_break_bound(s.drop_first());
    }
}

/// The raw lines of a byte source: each line break ends a line, and a final
/// fragment without a line break is a line of its own.
pub open spec fn split_lines(s: Seq<u8>) -> Seq<Seq<u8>>
    decreases s.len(),
    when s.len() >= 0
    via split_lines_decreases
{
    if s.len() == 0 {
        seq![]
    } else {
        let k = line_break(s);
        if k == s.len() {
            seq![s]
        } else {
            seq![s.take(k)] + split_lines(s.skip(k + 1))
        }
    }
}

#[via_fn]
proof fn split_lines_decreases(s: Seq<u8>) {
    lemma_line_break_bound(s);
}

/// The prefix of `s` before the first comment marker `;`.
pub open spec fn comment_start(s: Seq<u8>) -> int
    decreases s.len(),
{
    if s.len() == 0 {
        0
    } else if s[0] == 59 {
        0
    } else {
        1 + comment_start(s.drop_first())
    }
}

/// The index of the first whitespace byte in `s`, or `s.len()` if there is
/// none: the end of the field starting at the head of `s`.
pub open spec fn field_break(s: Seq<u8>) -> int
    decreases s.len(),
{
    if s.len() == 0 {
        0
    } else if is_ws(s[0]) {
        0
    } else {
        1 + field_break(s.drop_first())
    }
}

/// `field_break` stays within the sequence, and is positive when the head
/// byte is not whitespace.
pub proof fn lemma_field_break_bound(s: Seq<u8>)
    ensures
        0 <= field_break(s) <= s.len(),
        s.len() > 0 && !is_ws(s[0]) ==> field_break(s) >= 1,
    decreases s.len(),
{
    if s.len() != 0 && !is_ws(s[0]) {
        lemma_field_break_bound(s.drop_first());
    }
}

/// The whitespace-separated, non-empty fields of `s`.
pub open spec fn split_fields(s: Seq<u8>) -> Seq<Seq<u8>>
    decreases s.len(),
    when s.len() >= 0
    via split_fields_decreases
{
    if s.len() == 0 {
        seq![]
    } else if is_ws(s[0]) {
        split_fields(s.drop_first())
    } else {
        let k = field_break(s);
        seq![s.take(k)] + split_fields(s.skip(k))
    }
}

#[via_fn]
proof fn split_fields_decreases(s: Seq<u8>) {
    lemma_field_break_bound(s);
}

/// The fields of one raw line: its comment stripped, the rest split on
/// whitespace.
pub open spec fn fields_of(line: Seq<u8>) -> Seq<Seq<u8>> {
    split_fields(line.take(comment_start(line)))
}

/// A raw line with no fields: empty, whitespace-only, or comment-only.
pub open spec fn is_blank(line: Seq<u8>) -> bool {
    fields_of(line).len() == 0
}

/// `line_break` is the first line break: no break lies before it, and a
/// break stands at it unless the line runs to the end.
proof fn lemma_line_break(s: Seq<u8>, j: int)
    requires
        0 <= j <= s.len(),
        forall|m: int| 0 <= m < j ==> s[m] != 10,
        j < s.len() ==> s[j] == 10,
    ensures
        line_break(s) == j,
    decreases s.len(),
{
    if s.len() != 0 && s[0] != 10 {
        lemma_line_break(s.drop_first(), j - 1);
    }
}

/// `comment_start` is the first `;`: none lies before it, and one stands at
/// it unless the line has no comment.
proof fn lemma_comment_start(s: Seq<u8>, j: int)
    requires
        0 <= j <= s.len(),
        forall|m: int| 0 <= m < j ==> s[m] != 59,
        j < s.len() ==> s[j] == 59,
    ensures
        comment_start(s) == j,
    decreases s.len(),
{
    if s.len() != 0 && s[0] != 59 {
        lemma_comment_start(s.drop_first(), j - 1);
    }
}

/// `field_break` is the first whitespace byte: none lies before it, and one
/// stands at it unless the field runs to the end.
proof fn lemma_field_break(s: Seq<u8>, j: int)
    requires
        0 <= j <= s.len(),
        forall|m: int| 0 <= m < j ==> !is_ws(s[m]),
        j < s.len() ==> is_ws(s[j]),
    ensures
        field_break(s) == j,
    decreases s.len(),
{
    if s.len() != 0 && !is_ws(s[0]) {
        lemma_field_break(s.drop_first(), j - 1);
    }
}

/// Splits a byte source into its raw lines.
pub fn lines_of_source(src: &[u8]) -> (r: Vec<Vec<u8>>)
    ensures
        r.deep_view() == split_lines(src@),
{
    let mut out: Vec<Vec<u8>> = Vec::new();
    let mut i: usize = 0;
    let n = src.len();
    proof {
        assert(src@.skip(0) =~= src@);
        assert(out.deep_view() =~= Seq::<Seq<u8>>::empty());
    }
    while i < n
        invariant
            i <= n,
            n == src@.len(),
            out.deep_view() + split_lines(src@.skip(i as int)) =~= split_lines(src@),
        decreases n - i,
    {
        let ghost prev = out.deep_view();
        let ghost rest = src@.skip(i as int);
        let start = i;
        let mut cur: Vec<u8> = Vec::new();
        while i < n && src[i] != 10
            invariant
                start <= i <= n,
                n == src@.len(),
                cur@ =~= src@.subrange(start as int, i as int),
                forall|m: int| start <= m < i ==> src@[m] != 10,
            decreases n - i,
        {
            cur.push(src[i]);
            proof {
                assert(cur@ =~= src@.subrange(start as int, i + 1));
            }
            i += 1;
        }
        proof {
            lemma_line_break(rest, i - start);
            assert(rest.take(i - start) =~= src@.subrange(start as int, i as int));
        }
        if i < n {
            // skip the line break itself
            proof {
                assert(rest.skip(i - start + 1) =~= src@.skip(i as int + 1));
                assert(split_lines(rest) =~= seq![rest.take(i - start)] + split_lines(
                    rest.skip(i - start + 1),
                ));
            }
            i += 1;
        } else {
            proof {
                assert(split_lines(rest) =~= seq![rest]);
                assert(rest =~= rest.take(i - start));
                assert(src@.skip(n as int) =~= Seq::<u8>::empty());
            }
        }
        out.push(cur);
        proof {
            assert(out.deep_view() =~~= prev.push(cur@));
            assert(out.deep_view() + split_lines(src@.skip(i as int)) =~= split_lines(src@));
        }
    }
    proof {
        assert(src@.skip(n as int) =~= Seq::<u8>::empty());
        assert(split_lines(Seq::<u8>::empty()) =~= Seq::<Seq<u8>>::empty());
        assert(out.deep_view() =~= split_lines(src@));
    }
    out
}

/// Strips the comment from one raw line and splits the rest into fields.
pub fn tokenize(line: &Vec<u8>) -> (r: Vec<Vec<u8>>)
    ensures
        r.deep_view() == fields_of(line@),
{
    // find the comment marker
    let n = line.len();
    let mut end: usize = 0;
    while end < n && line[end] != 59
        invariant
            end <= n,
            n == line@.len(),
            forall|m: int| 0 <= m < end ==> line@[m] != 59,
        decreases n - end,
    {
        end += 1;
    }
    proof {
        lemma_comment_start(line@, end as int);
    }
    let ghost body = line@.take(end as int);
    let mut out: Vec<Vec<u8>> = Vec::new();
    let mut i: usize = 0;
    proof {
        assert(body.skip(0) =~= body);
        assert(out.deep_view() =~= Seq::<Seq<u8>>::empty());
    }
    while i < end
        invariant
            i <= end <= n,
            n == line@.len(),
            body == line@.take(end as int),
            forall|m: int| 0 <= m < end ==> line@[m] != 59,
            out.deep_view() + split_fields(body.skip(i as int)) =~= split_fields(body),
        decreases end - i,
    {
        let ghost prev = out.deep_view();
        let ghost rest = body.skip(i as int);
        let b = line[i];
        if b == 32 || b == 9 || b == 13 {
            proof {
                assert(rest[0] == line@[i as int]);
                assert(rest.drop_first() =~= body.skip(i as int + 1));
            }
            i += 1;
        } else {
            let start = i;
            let mut cur: Vec<u8> = Vec::new();
            while i < end && !(line[i] == 32 || line[i] == 9 || line[i] == 13)
                invariant
                    start <= i <= end <= n,
                    n == line@.len(),
                    body == line@.take(end as int),
                    cur@ =~= line@.subrange(start as int, i as int),
                    forall|m: int| start <= m < i ==> !is_ws(line@[m]),
                decreases end - i,
            {
                cur.push(line[i]);
                proof {
                    assert(cur@ =~= line@.subrange(start as int, i + 1));
                }
                i += 1;
            }
            proof {
                assert(forall|m: int| 0 <= m < i - start ==> rest[m] == line@[start + m]);
                lemma_field_break(rest, i - start);
                assert(rest.take(i - start) =~= line@.subrange(start as int, i as int));
                assert(rest.skip(i - start) =~= body.skip(i as int));
                assert(split_fields(rest) =~= seq![rest.take(i - start)] + split_fields(
                    rest.skip(i - start),
                ));
            }
            out.push(cur);
            proof {
                assert(out.deep_view() =~~= prev.push(cur@));
            }
        }
        proof {
            assert(out.deep_view() + split_fields(body.skip(i as int)) =~= split_fields(body));
        }
    }
    proof {
        assert(body.skip(end as int) =~= Seq::<u8>::empty());
        assert(split_fields(Seq::<u8>::empty()) =~= Seq::<Seq<u8>>::empty());
        assert(out.deep_view() =~= split_fields(body));
    }
    out
}

/// Whether every byte of `s` is a decimal digit and `s` is non-empty: the
/// shape a numeric field must have.
pub open spec fn numeric(s: Seq<u8>) -> bool {
    s.len() > 0 && forall|i: int| 0 <= i < s.len() ==> is_digit(s[i])
}

/// The value of a digit string read as decimal.
pub open spec fn dec_val(s: Seq<u8>) -> int
    decreases s.len(),
{
    if s.len() == 0 {
        0
    } else {
        dec_val(s.drop_last()) * 10 + (s.last() - 48)
    }
}

/// A decimal value is never negative.
pub proof fn lemma_dec_val_nonneg(s: Seq<u8>)
    requires
        forall|i: int| 0 <= i < s.len() ==> is_digit(s[i]),
    ensures
        dec_val(s) >= 0,
    decreases s.len(),
{
    if s.len() > 0 {
        lemma_dec_val_nonneg(s.drop_last());
    }
}

/// Extending a digit string never shrinks its value.
pub proof fn lemma_dec_val_prefix(s: Seq<u8>, i: int)
    requires
        forall|j: int| 0 <= j < s.len() ==> is_digit(s[j]),
        0 <= i <= s.len(),
    ensures
        dec_val(s.take(i)) <= dec_val(s),
    decreases s.len() - i,
{
    if i < s.len() {
        lemma_dec_val_prefix(s, i + 1);
        lemma_dec_val_nonneg(s.take(i));
        assert(s.take(i + 1).drop_last() =~= s.take(i));
        assert(dec_val(s.take(i + 1)) == dec_val(s.take(i)) * 10 + (s[i] - 48));
    } else {
        assert(s.take(i) =~= s);
    }
}

/// Whether a field has the shape of a number: non-empty, all digits.
pub fn is_numeric(s: &Vec<u8>) -> (r: bool)
    ensures
        r == numeric(s@),
{
    let n = s.len();
    if n == 0 {
        return false;
    }
    let mut i: usize = 0;
    while i < n
        invariant
            i <= n,
            n == s@.len(),
            forall|j: int| 0 <= j < i ==> is_digit(s@[j]),
        decreases n - i,
    {
        let b = s[i];
        if b < 48 || b > 57 {
            return false;
        }
        i += 1;
    }
    true
}

/// Reads a field as an unsigned decimal number. Returns the value when the
/// field is entirely digits and fits in a `u64`, `None` otherwise.
pub fn parse_decimal(s: &Vec<u8>) -> (r: Option<u64>)
    ensures
        match r {
            Some(v) => numeric(s@) && dec_val(s@) == v,
            None => !numeric(s@) || dec_val(s@) > u64::MAX,
        },
{
    let n = s.len();
    if n == 0 {
        return None;
    }
    let mut acc: u64 = 0;
    let mut i: usize = 0;
    while i < n
        invariant
            i <= n,
            n == s@.len(),
            forall|j: int| 0 <= j < i ==> is_digit(s@[j]),
            acc == dec_val(s@.take(i as int)),
        decreases n - i,
    {
        let b = s[i];
        if b < 48 || b > 57 {
            return None;
        }
        let d = (b - 48) as u64;
        let shifted = match acc.checked_mul(10) {
            Some(x) => x,
            None => {
                proof {
                    if numeric(s@) {
                        assert(s@.take(i + 1).drop_last() =~= s@.take(i as int));
                        assert(dec_val(s@.take(i + 1)) == acc * 10 + (s@[i as int] - 48));
                        lemma_dec_val_prefix(s@, i + 1);
                    }
                }
                return None;
            },
        };
        let next_acc = match shifted.checked_add(d) {
            Some(x) => x,
            None => {
                proof {
                    if numeric(s@) {
                        assert(s@.take(i + 1).drop_last() =~= s@.take(i as int));
                        assert(dec_val(s@.take(i + 1)) == acc * 10 + (s@[i as int] - 48));
                        lemma_dec_val_prefix(s@, i + 1);
                    }
                }
                return None;
            },
        };
        acc = next_acc;
        proof {
            assert(s@.take(i + 1).drop_last() =~= s@.take(i as int));
        }
        i += 1;
    }
    proof {
        assert(s@.take(n as int) =~= s@);
    }
    Some(acc)
}

} // verus!
