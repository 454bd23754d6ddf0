//! Small verified text helpers the domain adapters share: string equality,
//! first/last occurrence of a character, splitting on a separator, the text
//! between a brace pair, and rendering an integer in decimal.

use vstd::prelude::*;
use vstd::string::*;

verus! {

/// Decide equality of two string slices.
pub fn str_eq(a: &str, b: &str) -> (r: bool)
    ensures
        r == (a@ == b@),
{
    let left = a.to_owned();
    let right = b.to_owned();
    left == right
}

/// The position of the first occurrence of `c` in `s`.
pub open spec fn first_index_of(s: Seq<char>, c: char) -> Option<int>
    decreases s.len(),
{
    if s.len() == 0 {
        None
    } else if s[0] == c {
        Some(0)
    } else {
        match first_index_of(s.drop_first(), c) {
            None => None,
            Some(i) => Some(i + 1),
        }
    }
}

/// What the first occurrence means: its position holds `c`, nothing before
/// it does, and a `None` means `c` does not occur at all.
pub proof fn lemma_first_index_of(s: Seq<char>, c: char)
    ensures
        match first_index_of(s, c) {
            Some(i) => 0 <= i < s.len() && s[i] == c && (forall|k: int| 0 <= k < i ==> s[k] != c),
            None => forall|k: int| 0 <= k < s.len() ==> s[k] != c,
        },
    decreases s.len(),
{
    if s.len() > 0 && s[0] != c {
        lemma_first_index_of(s.drop_first(), c);
        assert(forall|k: int| 1 <= k < s.len() ==> s.drop_first()[k - 1] == #[trigger] s[k]);
    }
}

/// Find the first occurrence of `c` in `s`.
pub fn find_first(s: &str, c: char) -> (r: Option<usize>)
    ensures
        match r {
            Some(i) => first_index_of(s@, c) == Some(i as int),
            None => first_index_of(s@, c) is None,
        },
{
    proof {
        lemma_first_index_of(s@, c);
    }
    let len = s.unicode_len();
    let mut i: usize = 0;
    #[verifier::loop_isolation(false)]
    while i < len
        invariant
            i <= len,
            len == s@.len(),
            forall|k: int| 0 <= k < i ==> s@[k] != c,
        decreases len - i,
    {
        if s.get_char(i) == c {
            return Some(i);
        }
        i = i + 1;
    }
    None
}

/// The position of the last occurrence of `c` in `s`.
pub open spec fn last_index_of(s: Seq<char>, c: char) -> Option<int>
    decreases s.len(),
{
    if s.len() == 0 {
        None
    } else if s.last() == c {
        Some(s.len() - 1)
    } else {
        last_index_of(s.drop_last(), c)
    }
}

/// What the last occurrence means: its position holds `c`, nothing after it
/// does, and a `None` means `c` does not occur at all.
pub proof fn lemma_last_index_of(s: Seq<char>, c: char)
    ensures
        match last_index_of(s, c) {
            Some(i) => 0 <= i < s.len() && s[i] == c && (forall|k: int|
                i < k < s.len() ==> s[k] != c),
            None => forall|k: int| 0 <= k < s.len() ==> s[k] != c,
        },
    decreases s.len(),
{
    if s.len() > 0 && s.last() != c {
        lemma_last_index_of(s.drop_last(), c);
        assert(forall|k: int| 0 <= k < s.len() - 1 ==> s.drop_last()[k] == #[trigger] s[k]);
    }
}

/// Find the last occurrence of `c` in `s`.
pub fn find_last(s: &str, c: char) -> (r: Option<usize>)
    ensures
        match r {
            Some(i) => last_index_of(s@, c) == Some(i as int),
            None => last_index_of(s@, c) is None,
        },
{
    proof {
        lemma_last_index_of(s@, c);
    }
    let len = s.unicode_len();
    let mut i: usize = len;
    #[verifier::loop_isolation(false)]
    while i > 0
        invariant
            i <= len,
            len == s@.len(),
            forall|k: int| i <= k < s@.len() ==> s@[k] != c,
        decreases i,
    {
        i = i - 1;
        if s.get_char(i) == c {
            return Some(i);
        }
    }
    None
}

/// The segments of `s` between occurrences of the separator, in order; a
/// string without the separator is one segment, and every separator ends a
/// segment, so there is always one segment more than there are separators.
pub open spec fn split_char(s: Seq<char>, sep: char) -> Seq<Seq<char>>
    decreases s.len(),
{
    if s.len() == 0 {
        seq![Seq::empty()]
    } else if s.last() == sep {
        split_char(s.drop_last(), sep).push(Seq::empty())
    } else {
        let prev = split_char(s.drop_last(), sep);
        prev.update(prev.len() - 1, prev.last().push(s.last()))
    }
}

/// A split is never empty.
pub proof fn lemma_split_char_len(s: Seq<char>, sep: char)
    ensures
        split_char(s, sep).len() >= 1,
    decreases s.len(),
{
    if s.len() > 0 {
        lemma_split_char_len(s.drop_last(), sep);
    }
}

/// Split `s` on the separator.
pub fn split_string(s: &str, sep: char) -> (parts: Vec<String>)
    ensures
        parts.deep_view() == split_char(s@, sep),
{
    let len = s.unicode_len();
    let mut parts: Vec<String> = Vec::new();
    let mut start: usize = 0;
    let mut i: usize = 0;
    proof {
        assert(s@.take(0) =~= Seq::<char>::empty());
        assert(s@.subrange(0, 0) =~= Seq::<char>::empty());
        assert(parts.deep_view() =~= Seq::<Seq<char>>::empty());
        assert(parts.deep_view().push(s@.subrange(0, 0)) =~= split_char(s@.take(0), sep));
    }
    #[verifier::loop_isolation(false)]
    while i < len
        invariant
            start <= i <= len,
            len == s@.len(),
            parts.deep_view().push(s@.subrange(start as int, i as int)) =~= split_char(
                s@.take(i as int),
                sep,
            ),
        decreases len - i,
    {
        let c = s.get_char(i);
        proof {
            assert(s@.take(i + 1 as int).drop_last() =~= s@.take(i as int));
            assert(s@.take(i + 1 as int).last() == s@[i as int]);
            lemma_split_char_len(s@.take(i as int), sep);
        }
        if c == sep {
            let segment = s.substring_char(start, i).to_owned();
            parts.push(segment);
            start = i + 1;
            proof {
                assert(s@.subrange(start as int, i + 1 as int) =~= Seq::<char>::empty());
                assert(parts.deep_view().push(s@.subrange(start as int, i + 1 as int))
                    =~= split_char(s@.take(i + 1 as int), sep));
            }
        } else {
            proof {
                assert(s@.subrange(start as int, i + 1 as int) =~= s@.subrange(
                    start as int,
                    i as int,
                ).push(s@[i as int]));
                let prev = split_char(s@.take(i as int), sep);
                assert(split_char(s@.take(i + 1 as int), sep) =~= prev.update(
                    prev.len() - 1,
                    prev.last().push(s@[i as int]),
                ));
                assert(parts.deep_view().push(s@.subrange(start as int, i + 1 as int))
                    =~= split_char(s@.take(i + 1 as int), sep));
            }
        }
        i = i + 1;
    }
    let last_segment = s.substring_char(start, len).to_owned();
    parts.push(last_segment);
    proof {
        assert(s@.take(len as int) =~= s@);
        assert(s@.subrange(start as int, len as int) == last_segment@);
        assert(parts.deep_view() =~= split_char(s@, sep));
    }
    parts
}

/// The text between the first opening brace and the first closing brace
/// after it, when both exist.
pub open spec fn between_braces(s: Seq<char>) -> Option<Seq<char>> {
    match first_index_of(s, '{') {
        None => None,
        Some(i) => {
            let rest = s.skip(i + 1);
            match first_index_of(rest, '}') {
                None => None,
                Some(j) => Some(rest.take(j)),
            }
        },
    }
}

/// Extract the text between the first brace pair of `s`.
pub fn extract_between_braces(s: &str) -> (r: Option<String>)
    ensures
        r.deep_view() == between_braces(s@),
{
    let len = s.unicode_len();
    let open_at = match find_first(s, '{') {
        Some(i) => i,
        None => {
            return None;
        },
    };
    proof {
        lemma_first_index_of(s@, '{');
    }
    let ghost rest = s@.skip(open_at + 1);
    proof {
        lemma_first_index_of(rest, '}');
    }
    let mut i: usize = open_at + 1;
    #[verifier::loop_isolation(false)]
    while i < len
        invariant
            open_at + 1 <= i <= len,
            len == s@.len(),
            rest == s@.skip(open_at + 1),
            forall|k: int| 0 <= k < i - open_at - 1 ==> rest[k] != '}',
        decreases len - i,
    {
        let c = s.get_char(i);
        proof {
            assert(rest[i - open_at - 1] == s@[i as int]);
        }
        if c == '}' {
            let inner = s.substring_char(open_at + 1, i).to_owned();
            proof {
                assert(first_index_of(rest, '}') == Some(i - open_at - 1));
                assert(inner@ =~= rest.take(i - open_at - 1));
            }
            return Some(inner);
        }
        i = i + 1;
    }
    proof {
        assert(forall|k: int| 0 <= k < rest.len() ==> rest[k] != '}');
        assert(first_index_of(rest, '}') is None);
    }
    None
}

/// The decimal digits of `n`, most significant first.
pub open spec fn dec_digits(n: nat) -> Seq<char>
    decreases n,
{
    if n < 10 {
        seq![digit_char(n)]
    } else {
        dec_digits(n / 10).push(digit_char(n % 10))
    }
}

/// The character of one decimal digit.
pub open spec fn digit_char(d: nat) -> char {
    if d == 0 {
        '0'
    } else if d == 1 {
        '1'
    } else if d == 2 {
        '2'
    } else if d == 3 {
        '3'
    } else if d == 4 {
        '4'
    } else if d == 5 {
        '5'
    } else if d == 6 {
        '6'
    } else if d == 7 {
        '7'
    } else if d == 8 {
        '8'
    } else {
        '9'
    }
}

/// One decimal digit as text.
fn digit_str(d: u64) -> (r: &'static str)
    requires
        d < 10,
    ensures
        r@ =~= seq![digit_char(d as nat)],
{
    proof {
        reveal_strlit("0");
        reveal_strlit("1");
        reveal_strlit("2");
        reveal_strlit("3");
        reveal_strlit("4");
        reveal_strlit("5");
        reveal_strlit("6");
        reveal_strlit("7");
        reveal_strlit("8");
        reveal_strlit("9");
    }
    if d == 0 {
        "0"
    } else if d == 1 {
        "1"
    } else if d == 2 {
        "2"
    } else if d == 3 {
        "3"
    } else if d == 4 {
        "4"
    } else if d == 5 {
        "5"
    } else if d == 6 {
        "6"
    } else if d == 7 {
        "7"
    } else if d == 8 {
        "8"
    } else {
        "9"
    }
}

/// Render `n` in decimal.
pub fn u64_to_string(n: u64) -> (r: String)
    ensures
        r@ == dec_digits(n as nat),
    decreases n,
{
    if n < 10 {
        digit_str(n).to_owned()
    } else {
        proof {
            assert(n / 10 < n) by (nonlinear_arith)
                requires
                    n >= 10,
            ;
        }
        let prefix = u64_to_string(n / 10);
        let out = prefix.concat(digit_str(n % 10));
        proof {
            assert(out@ =~= dec_digits(n as nat / 10).push(digit_char(n as nat % 10)));
        }
        out
    }
}

} // verus!
