//! Text helpers for the human readable forms of actor information and identifiers:
//! decimal numbers, lower case hex dumps and the last segment of a type path.
use vstd::prelude::*;

verus! {

/// The character of a single decimal digit.
pub open spec fn digit_char(d: nat) -> char {
    (('0' as u32) + d) as char
}

/// The decimal representation of `n`, without leading zeros ("0" for zero).
pub open spec fn decimal(n: nat) -> Seq<char>
    decreases n,
{
    if n < 10 {
        seq![digit_char(n)]
    } else {
        decimal(n / 10).push(digit_char(n % 10))
    }
}

/// The lower case hex character of a nibble.
pub open spec fn hex_char(d: nat) -> char {
    if d < 10 {
        (('0' as u32) + d) as char
    } else {
        (('a' as u32) + (d - 10)) as char
    }
}

/// Every byte written as two lower case hex digits, high nibble first.
pub open spec fn hex_lower(bytes: Seq<u8>) -> Seq<char>
    decreases bytes.len(),
{
    if bytes.len() == 0 {
        Seq::empty()
    } else {
        hex_lower(bytes.drop_last()).push(hex_char(bytes.last() as nat / 16)).push(
            hex_char(bytes.last() as nat % 16),
        )
    }
}

/// Whether `s` holds the separator "::" at position `i`.
pub open spec fn sep_at(s: Seq<char>, i: int) -> bool {
    0 <= i && i + 1 < s.len() && s[i] == ':' && s[i + 1] == ':'
}

/// Splitting `s` on "::" from the left, where the current segment starts at `start`
/// and the scan stands at `i`: the last segment.
pub open spec fn last_segment_from(s: Seq<char>, start: int, i: int) -> Seq<char>
    decreases s.len() - i,
{
    if i < 0 || i + 1 >= s.len() {
        s.subrange(start, s.len() as int)
    } else if sep_at(s, i) {
        last_segment_from(s, i + 2, i + 2)
    } else {
        last_segment_from(s, start, i + 1)
    }
}

/// The last piece of `s` when it is split on "::" (all of `s` when it holds no "::").
pub open spec fn last_segment(s: Seq<char>) -> Seq<char> {
    last_segment_from(s, 0, 0)
}

/// The scan of [`last_segment_from`] ends on a segment that starts at the beginning or right
/// after a separator, and in which no separator is left. Gives where that segment starts.
proof fn lemma_last_segment_from(s: Seq<char>, start: int, i: int) -> (st: int)
    requires
        0 <= start <= i <= s.len(),
        start == 0 || (start >= 2 && sep_at(s, start - 2)),
        forall|k: int| start <= k < i ==> !#[trigger] sep_at(s, k),
    ensures
        0 <= st <= s.len(),
        last_segment_from(s, start, i) == s.subrange(st, s.len() as int),
        st == 0 || (st >= 2 && sep_at(s, st - 2)),
        forall|k: int| st <= k < s.len() ==> !#[trigger] sep_at(s, k),
    decreases s.len() - i,
{
    if i < 0 || i + 1 >= s.len() {
        assert forall|k: int| start <= k < s.len() implies !#[trigger] sep_at(s, k) by {
            if k >= i {
                assert(!(k + 1 < s.len()));
            }
        }
        start
    } else if sep_at(s, i) {
        lemma_last_segment_from(s, i + 2, i + 2)
    } else {
        assert(forall|k: int| start <= k < i + 1 ==> !#[trigger] sep_at(s, k));
        lemma_last_segment_from(s, start, i + 1)
    }
}

/// The type name of a path is the part after its last separator: `last_segment(s)` holds no
/// "::", `s` ends with it, and what comes before it in `s` is empty or ends in "::".
pub proof fn law_last_segment(s: Seq<char>)
    ensures
        last_segment(s).len() <= s.len(),
        s.subrange(s.len() - last_segment(s).len(), s.len() as int) == last_segment(s),
        forall|k: int|
            0 <= k < last_segment(s).len() - 1 ==> !(#[trigger] last_segment(s)[k] == ':'
                && last_segment(s)[k + 1] == ':'),
        s.len() == last_segment(s).len() || (s.len() >= last_segment(s).len() + 2 && s[s.len()
            - last_segment(s).len() - 2] == ':' && s[s.len() - last_segment(s).len() - 1] == ':'),
{
    let st = lemma_last_segment_from(s, 0, 0);
    let t = last_segment(s);
    assert(t == s.subrange(st, s.len() as int));
    assert(s.len() - t.len() == st);
    assert forall|k: int| 0 <= k < t.len() - 1 implies !(#[trigger] t[k] == ':' && t[k + 1] == ':') by {
        assert(t[k] == s[st + k]);
        assert(t[k + 1] == s[st + k + 1]);
        assert(!sep_at(s, st + k));
    }
}

/// Where a path is `p`, then "::", then a name `t` without ':' (and `p` does not end in ':'),
/// the type name is `t`.
pub proof fn law_last_segment_after_separator(p: Seq<char>, t: Seq<char>)
    requires
        p.len() == 0 || p.last() != ':',
        forall|k: int| 0 <= k < t.len() ==> #[trigger] t[k] != ':',
    ensures
        last_segment(p + "::"@ + t) == t,
{
    let s = p + "::"@ + t;
    let u = last_segment(s);
    law_last_segment(s);
    reveal_strlit("::");
    let n = p.len() as int;
    assert(s.len() == n + 2 + t.len());
    assert(s[n] == ':' && s[n + 1] == ':');
    assert forall|k: int| 0 <= k < t.len() implies #[trigger] s[n + 2 + k] == t[k] by {}
    if u.len() > t.len() + 1 {
        let k = u.len() - t.len() - 2;
        assert(u[k] == s[s.len() - u.len() + k]);
        assert(u[k + 1] == s[s.len() - u.len() + k + 1]);
        assert(s.len() - u.len() + k == n);
        assert(u[k] == ':' && u[k + 1] == ':');
        assert(false);
    } else if u.len() == t.len() + 1 {
        assert(s.len() - u.len() == n + 1);
        if n == 0 {
            assert(false);
        } else {
            assert(s[n - 1] == p.last());
            assert(false);
        }
    } else if u.len() < t.len() {
        let j = s.len() - u.len() - 1;
        assert(j == n + 2 + (t.len() - u.len() - 1));
        assert(s[j] == t[t.len() - u.len() - 1]);
        assert(false);
    }
    assert(u.len() == t.len());
    assert(s.subrange(s.len() - t.len(), s.len() as int) =~= t);
}

/// Calls `String::push`, which appends one character to a string, as its documentation
/// says: the string afterwards is the one before with `c` at its end.
#[verifier::external_body]
pub(crate) fn push_char(s: &mut String, c: char)
    ensures
        final(s)@ == old(s)@.push(c),
{
    s.push(c);
}

/// The digit character for `d < 10`.
fn digit(d: u8) -> (c: char)
    requires
        d < 10,
    ensures
        c == digit_char(d as nat),
{
    match d {
        0 => '0',
        1 => '1',
        2 => '2',
        3 => '3',
        4 => '4',
        5 => '5',
        6 => '6',
        7 => '7',
        8 => '8',
        _ => '9',
    }
}

/// The hex character for `d < 16`.
fn hex_digit(d: u8) -> (c: char)
    requires
        d < 16,
    ensures
        c == hex_char(d as nat),
{
    if d < 10 {
        digit(d)
    } else {
        match d {
            10 => 'a',
            11 => 'b',
            12 => 'c',
            13 => 'd',
            14 => 'e',
            _ => 'f',
        }
    }
}

/// Appends the decimal representation of `n`.
pub fn push_decimal(s: &mut String, n: usize)
    ensures
        final(s)@ == old(s)@ + decimal(n as nat),
    decreases n,
{
    if n < 10 {
        push_char(s, digit(n as u8));
        assert(decimal(n as nat) =~= seq![digit_char(n as nat)]);
        assert(final(s)@ =~= old(s)@ + decimal(n as nat)) by {
            assert(old(s)@.push(digit_char(n as nat)) =~= old(s)@ + seq![digit_char(n as nat)]);
        }
    } else {
        push_decimal(s, n / 10);
        push_char(s, digit((n % 10) as u8));
        assert(old(s)@ + decimal(n as nat) =~= old(s)@ + decimal((n / 10) as nat) + seq![
            digit_char((n % 10) as nat),
        ]);
    }
}

/// The decimal representation of `n` as a new string.
pub fn decimal_string(n: usize) -> (res: String)
    ensures
        res@ == decimal(n as nat),
{
    let mut s = String::new();
    push_decimal(&mut s, n);
    assert(s@ =~= decimal(n as nat));
    s
}

/// Appends every byte of `bytes` as two lower case hex digits.
pub fn push_hex(s: &mut String, bytes: &[u8])
    ensures
        final(s)@ == old(s)@ + hex_lower(bytes@),
{
    let ghost start = s@;
    let mut i: usize = 0;
    while i < bytes.len()
        invariant
            i <= bytes@.len(),
            s@ == start + hex_lower(bytes@.subrange(0, i as int)),
        decreases bytes@.len() - i,
    {
        let b = bytes[i];
        push_char(s, hex_digit(b / 16));
        push_char(s, hex_digit(b % 16));
        proof {
            let pre = bytes@.subrange(0, i as int);
            let post = bytes@.subrange(0, i + 1);
            assert(post.drop_last() =~= pre);
            assert(post.last() == b);
        }
        i = i + 1;
    }
    assert(bytes@.subrange(0, bytes@.len() as int) =~= bytes@);
}

/// The last piece of `full` when split on "::". For a type path such as
/// `my_crate::actors::Sum` this is the bare type name `Sum`.
pub fn last_segment_of(full: &str) -> (res: String)
    ensures
        res@ == last_segment(full@),
{
    let len = full.unicode_len();
    let mut start: usize = 0;
    let mut i: usize = 0;
    while len > 0 && i < len - 1
        invariant
            len == full@.len(),
            start <= i,
            start <= len,
            i <= len,
            last_segment_from(full@, start as int, i as int) == last_segment(full@),
        decreases len - i,
    {
        if full.get_char(i) == ':' && full.get_char(i + 1) == ':' {
            start = i + 2;
            i = i + 2;
        } else {
            i = i + 1;
        }
    }
    let tail = full.substring_char(start, len);
    String::from_str(tail)
}

} // verus!
