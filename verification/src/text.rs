//! Verified helpers for assembling and splitting the text that the renderer
//! emits: joining token lists with a separator, decimal formatting, and
//! splitting a block of text into its lines.
use vstd::prelude::*;

verus! {

/// Relies on `str`'s `PartialEq`: two string slices compare equal exactly when
/// their character sequences are equal.
#[verifier::external_body]
pub fn str_eq(a: &str, b: &str) -> (r: bool)
    ensures
        r == (a@ == b@),
{
    a == b
}

/// The elements of `items` joined with the separator `sep` between them.
pub open spec fn join_with(items: Seq<Seq<char>>, sep: Seq<char>) -> Seq<char>
    decreases items.len(),
{
    if items.len() == 0 {
        Seq::empty()
    } else if items.len() == 1 {
        items[0]
    } else {
        items[0] + sep + join_with(items.drop_first(), sep)
    }
}

proof fn lemma_join_with_snoc(items: Seq<Seq<char>>, sep: Seq<char>, i: int)
    requires
        1 <= i < items.len(),
    ensures
        join_with(items.take(i + 1), sep) == join_with(items.take(i), sep) + sep + items[i],
    decreases i,
{
    let a = items.take(i + 1);
    let b = items.take(i);
    if i == 1 {
        assert(a.drop_first() =~= seq![items[1]]);
        assert(join_with(seq![items[1]], sep) == items[1]);
        assert(join_with(a, sep) == items[0] + sep + items[1]);
        assert(b =~= seq![items[0]]);
        assert(join_with(seq![items[0]], sep) == items[0]);
    } else {
        lemma_join_with_snoc(items.drop_first(), sep, i - 1);
        assert(a.drop_first() =~= items.drop_first().take(i));
        assert(b.drop_first() =~= items.drop_first().take(i - 1));
        assert(join_with(a, sep) == items[0] + sep + join_with(items.drop_first().take(i), sep));
        assert(items.drop_first()[i - 1] == items[i]);
        assert(join_with(a, sep) == items[0] + sep + (join_with(items.drop_first().take(i - 1),
            sep) + sep + items[i]));
        assert(join_with(b, sep) == items[0] + sep + join_with(items.drop_first().take(i - 1),
            sep));
        assert(join_with(a, sep) =~= join_with(b, sep) + sep + items[i]);
    }
}

/// Joins the strings of `items` with `sep` between consecutive elements.
pub fn join_strings(items: &Vec<String>, sep: &str) -> (r: String)
    ensures
        r@ == join_with(items.deep_view(), sep@),
{
    let mut acc = String::new();
    if items.len() == 0 {
        assert(items.deep_view().len() == 0);
        return acc;
    }
    acc.append(items[0].as_str());
    assert(items.deep_view().take(1) =~= seq![items.deep_view()[0]]);
    assert(acc@ == join_with(items.deep_view().take(1), sep@));
    let mut i: usize = 1;
    while i < items.len()
        invariant
            1 <= i <= items.len(),
            items.deep_view().len() == items.len(),
            acc@ == join_with(items.deep_view().take(i as int), sep@),
        decreases items.len() - i,
    {
        acc.append(sep);
        acc.append(items[i].as_str());
        proof {
            lemma_join_with_snoc(items.deep_view(), sep@, i as int);
        }
        i = i + 1;
    }
    proof {
        assert(items.deep_view().take(items.len() as int) =~= items.deep_view());
    }
    acc
}

/// The character that stands for the decimal digit `d`.
pub open spec fn dec_digit(d: int) -> char {
    if d == 0 {
        '0'
    } else if d == 1 {
        '1'
    } else if d == 2 {
        '2'
    } else if d == 3 {
        '3'
    } else if d == 4 {
        '4'
    } else if d == 5 {
        '5'
    } else if d == 6 {
        '6'
    } else if d == 7 {
        '7'
    } else if d == 8 {
        '8'
    } else {
        '9'
    }
}

/// The decimal spelling of the non-negative integer `n`, most significant
/// digit first, with no leading zeros (a single `'0'` for zero).
pub open spec fn dec_str(n: int) -> Seq<char>
    decreases n,
{
    if n < 10 {
        seq![dec_digit(n)]
    } else {
        dec_str(n / 10).push(dec_digit(n % 10))
    }
}

/// The decimal spelling of the integer `n`, a leading `'-'` when negative.
pub open spec fn int_str(n: int) -> Seq<char> {
    if n < 0 {
        seq!['-'] + dec_str(-n)
    } else {
        dec_str(n)
    }
}

fn digit_str(d: u8) -> (r: &'static str)
    requires
        d < 10,
    ensures
        r@ == seq![dec_digit(d as int)],
{
    proof {
        reveal_strlit("0");
        reveal_strlit("1");
        reveal_strlit("2");
        reveal_strlit("3");
        reveal_strlit("4");
        reveal_strlit("5");
        reveal_strlit("6");
        reveal_strlit("7");
        reveal_strlit("8");
        reveal_strlit("9");
    }
    match d {
        0 => "0",
        1 => "1",
        2 => "2",
        3 => "3",
        4 => "4",
        5 => "5",
        6 => "6",
        7 => "7",
        8 => "8",
        _ => "9",
    }
}

/// The decimal spelling of `n` as a string.
pub fn u64_text(n: u64) -> (r: String)
    ensures
        r@ == dec_str(n as int),
    decreases n,
{
    if n < 10 {
        String::from_str(digit_str(n as u8))
    } else {
        let prefix = u64_text(n / 10);
        let r = prefix.concat(digit_str((n % 10) as u8));
        assert(r@ =~= dec_str(n as int));
        r
    }
}

/// The decimal spelling of `n` as a string.
pub fn u8_text(n: u8) -> (r: String)
    ensures
        r@ == dec_str(n as int),
{
    u64_text(n as u64)
}

/// The decimal spelling of `n` as a string.
pub fn u32_text(n: u32) -> (r: String)
    ensures
        r@ == dec_str(n as int),
{
    u64_text(n as u64)
}

/// The decimal spelling of `n` as a string, with a leading minus sign when
/// `n` is negative.
pub fn i8_text(n: i8) -> (r: String)
    ensures
        r@ == int_str(n as int),
{
    if n < 0 {
        let m: u8 = (-(n as i16)) as u8;
        let mut acc = String::from_str("-");
        proof {
            reveal_strlit("-");
        }
        let digits = u64_text(m as u64);
        let r = acc.concat(digits.as_str());
        assert(r@ =~= int_str(n as int));
        r
    } else {
        u64_text(n as u64)
    }
}

/// The segments of `s` between occurrences of `sep`; one segment more than
/// there are separators, so a trailing separator yields a trailing empty
/// segment.
pub open spec fn split_sep(s: Seq<char>, sep: char) -> Seq<Seq<char>>
    decreases s.len(),
{
    if s.len() == 0 {
        seq![Seq::<char>::empty()]
    } else if s[0] == sep {
        seq![Seq::<char>::empty()] + split_sep(s.drop_first(), sep)
    } else {
        let rest = split_sep(s.drop_first(), sep);
        seq![seq![s[0]] + rest[0]] + rest.drop_first()
    }
}

proof fn lemma_split_sep_len(s: Seq<char>, sep: char)
    ensures
        split_sep(s, sep).len() >= 1,
    decreases s.len(),
{
    if s.len() != 0 {
        lemma_split_sep_len(s.drop_first(), sep)
    }
}

proof fn lemma_split_sep_push(s: Seq<char>, sep: char, c: char)
    ensures
        c == sep ==> split_sep(s.push(c), sep) == split_sep(s, sep).push(Seq::<char>::empty()),
        c != sep ==> split_sep(s.push(c), sep) == split_sep(s, sep).update(
            split_sep(s, sep).len() - 1,
            split_sep(s, sep).last().push(c),
        ),
    decreases s.len(),
{
    lemma_split_sep_len(s, sep);
    let t = s.push(c);
    if s.len() == 0 {
        if c == sep {
            assert(t.drop_first() =~= Seq::<char>::empty());
            assert(split_sep(Seq::<char>::empty(), sep) == seq![Seq::<char>::empty()]);
            assert(split_sep(t, sep) =~~= split_sep(s, sep).push(Seq::<char>::empty()));
        } else {
            assert(t.drop_first() =~= Seq::<char>::empty());
            assert(split_sep(Seq::<char>::empty(), sep) == seq![Seq::<char>::empty()]);
            assert(seq![t[0]] + split_sep(t.drop_first(), sep)[0]
                =~= seq![Seq::<char>::empty()][0].push(c));
            assert(split_sep(t, sep) =~~= split_sep(s, sep).update(
                0,
                split_sep(s, sep).last().push(c),
            ));
        }
    } else {
        lemma_split_sep_push(s.drop_first(), sep, c);
        lemma_split_sep_len(s.drop_first(), sep);
        assert(t.drop_first() =~= s.drop_first().push(c));
        assert(t[0] == s[0]);
        if s[0] == sep {
            if c == sep {
                assert(split_sep(t, sep) =~~= split_sep(s, sep).push(Seq::<char>::empty()));
            } else {
                assert(split_sep(t, sep) =~~= split_sep(s, sep).update(
                    split_sep(s, sep).len() - 1,
                    split_sep(s, sep).last().push(c),
                ));
            }
        } else {
            let rest = split_sep(s.drop_first(), sep);
            let trest = split_sep(t.drop_first(), sep);
            if c == sep {
                assert(trest[0] == rest[0]);
                assert(split_sep(t, sep) =~~= split_sep(s, sep).push(Seq::<char>::empty()));
            } else {
                if rest.len() == 1 {
                    assert(trest[0] == rest[0].push(c));
                    assert(split_sep(t, sep) =~~= split_sep(s, sep).update(
                        split_sep(s, sep).len() - 1,
                        split_sep(s, sep).last().push(c),
                    ));
                } else {
                    assert(trest[0] == rest[0]);
                    assert(split_sep(t, sep) =~~= split_sep(s, sep).update(
                        split_sep(s, sep).len() - 1,
                        split_sep(s, sep).last().push(c),
                    ));
                }
            }
        }
    }
}

/// The lines of `s`: the segments between newlines, except that a trailing
/// newline does not open a final empty line, and the empty text has no lines.
pub open spec fn lines_of(s: Seq<char>) -> Seq<Seq<char>> {
    if s.len() == 0 {
        Seq::empty()
    } else if s.last() == '\n' {
        split_sep(s, '\n').drop_last()
    } else {
        split_sep(s, '\n')
    }
}

/// Splits `s` into its lines, as `lines_of` describes.
pub fn split_lines(s: &str) -> (r: Vec<String>)
    ensures
        r.deep_view() == lines_of(s@),
{
    let mut r: Vec<String> = Vec::new();
    let len = s.unicode_len();
    let mut start: usize = 0;
    let mut i: usize = 0;
    proof {
        assert(s@.take(0) =~= Seq::<char>::empty());
    }
    while i < len
        invariant
            0 <= start <= i <= len,
            len == s@.len(),
            split_sep(s@.take(i as int), '\n') == r.deep_view().push(s@.subrange(start as int, i as int)),
            start > 0 ==> s@[start - 1] == '\n',
            start < i ==> s@[i - 1] != '\n',
        decreases len - i,
    {
        let c = s.get_char(i);
        proof {
            assert(s@.take(i + 1) =~= s@.take(i as int).push(s@[i as int]));
            lemma_split_sep_push(s@.take(i as int), '\n', s@[i as int]);
            lemma_split_sep_len(s@.take(i as int), '\n');
        }
        if c == '\n' {
            let seg = s.substring_char(start, i);
            let ghost old_dv = r.deep_view();
            r.push(seg.to_owned());
            proof {
                assert(r.deep_view() =~= old_dv.push(seg@));
                assert(s@.subrange(i + 1, i + 1) =~= Seq::<char>::empty());
                assert(split_sep(s@.take(i + 1), '\n') =~~= r.deep_view().push(s@.subrange(
                    i + 1,
                    i + 1,
                )));
            }
            start = i + 1;
        } else {
            proof {
                let old_segs = r.deep_view().push(s@.subrange(start as int, i as int));
                assert(old_segs.last() == s@.subrange(start as int, i as int));
                assert(s@.subrange(start as int, i as int).push(s@[i as int]) =~= s@.subrange(
                    start as int,
                    i + 1,
                ));
                assert(split_sep(s@.take(i + 1), '\n') =~= r.deep_view().push(s@.subrange(
                    start as int,
                    i + 1,
                )));
            }
        }
        i = i + 1;
    }
    proof {
        assert(s@.take(len as int) =~= s@);
    }
    if start < len {
        let seg = s.substring_char(start, len);
        let ghost old_dv = r.deep_view();
        r.push(seg.to_owned());
        proof {
            assert(s@.len() > 0 && s@.last() != '\n');
            assert(r.deep_view() =~= old_dv.push(seg@));
            assert(r.deep_view() =~= lines_of(s@));
        }
    } else {
        proof {
            if s@.len() > 0 {
                assert(s@.last() == '\n');
                assert(s@.subrange(start as int, len as int) =~= Seq::<char>::empty());
                assert(r.deep_view() =~= split_sep(s@, '\n').drop_last());
            } else {
                lemma_split_sep_len(s@, '\n');
                assert(r.deep_view().len() + 1 == split_sep(s@, '\n').len());
                assert(r.deep_view() =~= lines_of(s@));
            }
        }
    }
    r
}

/// Splits `s` at every occurrence of `sep`, keeping empty segments.
pub fn split_str(s: &str, sep: char) -> (r: Vec<String>)
    ensures
        r.deep_view() == split_sep(s@, sep),
{
    let mut r: Vec<String> = Vec::new();
    let len = s.unicode_len();
    let mut start: usize = 0;
    let mut i: usize = 0;
    proof {
        assert(s@.take(0) =~= Seq::<char>::empty());
    }
    while i < len
        invariant
            0 <= start <= i <= len,
            len == s@.len(),
            split_sep(s@.take(i as int), sep) == r.deep_view().push(
                s@.subrange(start as int, i as int),
            ),
        decreases len - i,
    {
        let c = s.get_char(i);
        proof {
            assert(s@.take(i + 1) =~= s@.take(i as int).push(s@[i as int]));
            lemma_split_sep_push(s@.take(i as int), sep, s@[i as int]);
            lemma_split_sep_len(s@.take(i as int), sep);
        }
        if c == sep {
            let seg = s.substring_char(start, i);
            let ghost old_dv = r.deep_view();
            r.push(seg.to_owned());
            proof {
                assert(r.deep_view() =~= old_dv.push(seg@));
                assert(s@.subrange(i + 1, i + 1) =~= Seq::<char>::empty());
                assert(split_sep(s@.take(i + 1), sep) =~~= r.deep_view().push(s@.subrange(
                    i + 1,
                    i + 1,
                )));
            }
            start = i + 1;
        } else {
            proof {
                assert(s@.subrange(start as int, i as int).push(s@[i as int]) =~= s@.subrange(
                    start as int,
                    i + 1,
                ));
                assert(split_sep(s@.take(i + 1), sep) =~= r.deep_view().push(s@.subrange(
                    start as int,
                    i + 1,
                )));
            }
        }
        i = i + 1;
    }
    proof {
        assert(s@.take(len as int) =~= s@);
    }
    let seg = s.substring_char(start, len);
    let ghost old_dv = r.deep_view();
    r.push(seg.to_owned());
    proof {
        assert(r.deep_view() =~= old_dv.push(seg@));
        assert(r.deep_view() =~= split_sep(s@, sep));
    }
    r
}

} // verus!
