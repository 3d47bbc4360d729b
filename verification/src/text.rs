//! Sequences of characters: the pieces that every DOT fragment is made of.

use vstd::prelude::*;

verus! {

/// The parts in order, with `sep` between each two neighbours.
pub open spec fn join(parts: Seq<Seq<char>>, sep: Seq<char>) -> Seq<char>
    decreases parts.len(),
{
    if parts.len() == 0 {
        Seq::empty()
    } else if parts.len() == 1 {
        parts[0]
    } else {
        join(parts.drop_last(), sep) + sep + parts.last()
    }
}

/// The parts in order, each one between `before` and `after`.
pub open spec fn concat_wrapped(parts: Seq<Seq<char>>, before: Seq<char>, after: Seq<char>) -> Seq<
    char,
>
    decreases parts.len(),
{
    if parts.len() == 0 {
        Seq::empty()
    } else {
        concat_wrapped(parts.drop_last(), before, after) + before + parts.last() + after
    }
}

/// `s` between two double quotes, with nothing in it escaped.
pub open spec fn quoted(s: Seq<char>) -> Seq<char> {
    "\""@ + s + "\""@
}

/// The character that stands for the decimal digit `d`.
pub open spec fn digit_char(d: nat) -> char {
    if d == 0 {
        '0'
    } else if d == 1 {
        '1'
    } else if d == 2 {
        '2'
    } else if d == 3 {
        '3'
    } else if d == 4 {
        '4'
    } else if d == 5 {
        '5'
    } else if d == 6 {
        '6'
    } else if d == 7 {
        '7'
    } else if d == 8 {
        '8'
    } else {
        '9'
    }
}

/// `n` in base ten, most significant digit first, without leading zeros.
pub open spec fn decimal(n: nat) -> Seq<char>
    decreases n,
{
    if n < 10 {
        seq![digit_char(n)]
    } else {
        decimal(n / 10).push(digit_char(n % 10))
    }
}

/// The character that stands for the hexadecimal digit `d`, in lower case.
pub open spec fn hex_digit_char(d: nat) -> char {
    if d < 10 {
        digit_char(d)
    } else if d == 10 {
        'a'
    } else if d == 11 {
        'b'
    } else if d == 12 {
        'c'
    } else if d == 13 {
        'd'
    } else if d == 14 {
        'e'
    } else {
        'f'
    }
}

/// A byte as two hexadecimal digits.
pub open spec fn hex_byte(b: u8) -> Seq<char> {
    seq![hex_digit_char((b / 16) as nat), hex_digit_char((b % 16) as nat)]
}

/// `true` or `false`, spelled out.
pub open spec fn bool_text(b: bool) -> Seq<char> {
    if b {
        "true"@
    } else {
        "false"@
    }
}

/// Each identifier of `ids` with `prefix` before it.
pub open spec fn prefixed_all(ids: Seq<Seq<char>>, prefix: Seq<char>) -> Seq<Seq<char>> {
    Seq::new(ids.len(), |i: int| prefix + ids[i])
}

/// The view of the string, where there is one.
pub open spec fn option_view(s: Option<String>) -> Option<Seq<char>> {
    match s {
        Some(s) => Some(s@),
        None => None,
    }
}

/// The views of the strings of `parts`, in order.
pub open spec fn views_of(parts: Seq<String>) -> Seq<Seq<char>> {
    Seq::new(parts.len(), |i: int| parts[i]@)
}

/// Joining one more part adds the separator, unless it is the first, and the part.
pub proof fn lemma_join_take_next(parts: Seq<Seq<char>>, sep: Seq<char>, i: int)
    requires
        0 <= i < parts.len(),
    ensures
        join(parts.take(i + 1), sep) == if i == 0 {
            parts[i]
        } else {
            join(parts.take(i), sep) + sep + parts[i]
        },
{
    assert(parts.take(i + 1).drop_last() == parts.take(i));
    assert(parts.take(i + 1).last() == parts[i]);
}

/// Wrapping one more part appends it between `before` and `after`.
pub proof fn lemma_concat_wrapped_take_next(
    parts: Seq<Seq<char>>,
    before: Seq<char>,
    after: Seq<char>,
    i: int,
)
    requires
        0 <= i < parts.len(),
    ensures
        concat_wrapped(parts.take(i + 1), before, after) == concat_wrapped(
            parts.take(i),
            before,
            after,
        ) + before + parts[i] + after,
{
    assert(parts.take(i + 1).drop_last() == parts.take(i));
    assert(parts.take(i + 1).last() == parts[i]);
}

/// To prefix the identifiers of two lists in a row is to prefix each list.
pub proof fn lemma_prefixed_all_add(a: Seq<Seq<char>>, b: Seq<Seq<char>>, prefix: Seq<char>)
    ensures
        prefixed_all(a + b, prefix) == prefixed_all(a, prefix) + prefixed_all(b, prefix),
{
    assert(prefixed_all(a + b, prefix) =~= prefixed_all(a, prefix) + prefixed_all(b, prefix));
}

/// To prefix the identifiers of several lists laid end to end is to prefix
/// each list and lay the results end to end.
pub proof fn lemma_prefixed_all_flatten(
    lists: Seq<Seq<Seq<char>>>,
    prefixed_lists: Seq<Seq<Seq<char>>>,
    prefix: Seq<char>,
)
    requires
        prefixed_lists.len() == lists.len(),
        forall|i: int|
            0 <= i < lists.len() ==> #[trigger] prefixed_lists[i] == prefixed_all(lists[i], prefix),
    ensures
        prefixed_lists.flatten() == prefixed_all(lists.flatten(), prefix),
    decreases lists.len(),
{
    if lists.len() == 0 {
        assert(prefixed_lists.flatten() =~= prefixed_all(lists.flatten(), prefix));
    } else {
        lemma_prefixed_all_flatten(lists.drop_first(), prefixed_lists.drop_first(), prefix);
        lemma_prefixed_all_add(lists.first(), lists.drop_first().flatten(), prefix);
    }
}

/// A prefix can be taken off again: what differs without it differs with it.
pub proof fn lemma_prefix_keeps_apart(prefix: Seq<char>, a: Seq<char>, b: Seq<char>)
    requires
        a != b,
    ensures
        prefix + a != prefix + b,
{
    if prefix + a == prefix + b {
        assert((prefix + a).skip(prefix.len() as int) =~= a);
        assert((prefix + b).skip(prefix.len() as int) =~= b);
    }
}

/// Two prefixes of which neither begins with the other never give the same
/// identifier, whatever follows them.
pub proof fn lemma_prefixes_never_meet(p: Seq<char>, q: Seq<char>, a: Seq<char>, b: Seq<char>)
    requires
        !p.is_prefix_of(q),
        !q.is_prefix_of(p),
    ensures
        p + a != q + b,
{
    if p + a == q + b {
        if p.len() <= q.len() {
            assert(q.subrange(0, p.len() as int) =~= (q + b).subrange(0, p.len() as int));
            assert(p =~= (p + a).subrange(0, p.len() as int));
        } else {
            assert(p.subrange(0, q.len() as int) =~= (p + a).subrange(0, q.len() as int));
            assert(q =~= (q + b).subrange(0, q.len() as int));
        }
    }
}

/// The one-character string of a decimal digit.
fn digit_str(d: u32) -> (s: &'static str)
    requires
        d < 10,
    ensures
        s@ == seq![digit_char(d as nat)],
{
    proof {
        reveal_strlit("0");
        reveal_strlit("1");
        reveal_strlit("2");
        reveal_strlit("3");
        reveal_strlit("4");
        reveal_strlit("5");
        reveal_strlit("6");
        reveal_strlit("7");
        reveal_strlit("8");
        reveal_strlit("9");
    }
    let s = match d {
        0 => "0",
        1 => "1",
        2 => "2",
        3 => "3",
        4 => "4",
        5 => "5",
        6 => "6",
        7 => "7",
        8 => "8",
        _ => "9",
    };
    assert(s@ =~= seq![digit_char(d as nat)]);
    s
}

/// The one-character string of a hexadecimal digit.
fn hex_digit_str(d: u8) -> (s: &'static str)
    requires
        d < 16,
    ensures
        s@ == seq![hex_digit_char(d as nat)],
{
    if d < 10 {
        digit_str(d as u32)
    } else {
        proof {
            reveal_strlit("a");
            reveal_strlit("b");
            reveal_strlit("c");
            reveal_strlit("d");
            reveal_strlit("e");
            reveal_strlit("f");
        }
        let s = match d {
            10 => "a",
            11 => "b",
            12 => "c",
            13 => "d",
            14 => "e",
            _ => "f",
        };
        assert(s@ =~= seq![hex_digit_char(d as nat)]);
        s
    }
}

/// Writes a number in base ten.
pub fn u32_to_decimal(n: u32) -> (s: String)
    ensures
        s@ == decimal(n as nat),
    decreases n,
{
    if n < 10 {
        String::from_str(digit_str(n))
    } else {
        let mut s = u32_to_decimal(n / 10);
        s.append(digit_str(n % 10));
        assert(s@ =~= decimal(n as nat));
        s
    }
}

/// Writes a byte as two hexadecimal digits.
pub fn u8_to_hex(b: u8) -> (s: String)
    ensures
        s@ == hex_byte(b),
{
    let mut s = String::from_str(hex_digit_str(b / 16));
    s.append(hex_digit_str(b % 16));
    assert(s@ =~= hex_byte(b));
    s
}

/// Writes a truth value as `true` or `false`.
pub fn bool_str(b: bool) -> (s: &'static str)
    ensures
        s@ == bool_text(b),
{
    if b {
        "true"
    } else {
        "false"
    }
}

/// Appends each string to `res`, between `before` and `after`.
pub fn append_wrapped(res: &mut String, parts: &Vec<String>, before: &str, after: &str)
    ensures
        final(res)@ == old(res)@ + concat_wrapped(views_of(parts@), before@, after@),
{
    let mut i: usize = 0;
    while i < parts.len()
        invariant
            0 <= i <= parts.len(),
            res@ == old(res)@ + concat_wrapped(views_of(parts@).take(i as int), before@, after@),
        decreases parts.len() - i,
    {
        res.append(before);
        res.append(parts[i].as_str());
        res.append(after);
        proof {
            lemma_concat_wrapped_take_next(views_of(parts@), before@, after@, i as int);
            assert(res@ =~= old(res)@ + concat_wrapped(
                views_of(parts@).take(i + 1),
                before@,
                after@,
            ));
        }
        i = i + 1;
    }
    assert(views_of(parts@).take(i as int) == views_of(parts@));
}

/// Joins strings with a separator between each two neighbours.
pub fn join_strings(parts: &Vec<String>, sep: &str) -> (s: String)
    ensures
        s@ == join(views_of(parts@), sep@),
{
    let mut res = String::new();
    let mut i: usize = 0;
    while i < parts.len()
        invariant
            0 <= i <= parts.len(),
            res@ == join(views_of(parts@).take(i as int), sep@),
        decreases parts.len() - i,
    {
        if i > 0 {
            res.append(sep);
        }
        res.append(parts[i].as_str());
        proof {
            lemma_join_take_next(views_of(parts@), sep@, i as int);
            if i == 0 {
                assert(res@ =~= parts[0]@);
            }
        }
        i = i + 1;
    }
    assert(views_of(parts@).take(i as int) == views_of(parts@));
    res
}

} // verus!
