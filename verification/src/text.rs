//! Small string utilities shared by the editor core: decimal rendering of
//! numbers, string equality, case folding and substring search, all over the
//! character view of `String` and `&str`.

use vstd::prelude::*;

verus! {

/// Relies on `String::push`: appends one character to the end of the string.
#[verifier::external_body]
pub fn push_char(s: &mut String, c: char)
    ensures
        final(s)@ == old(s)@.push(c),
{
    s.push(c);
}

/// The decimal digit character for a value below ten.
pub open spec fn dec_digit(d: nat) -> char {
    if d == 0 {
        '0'
    } else if d == 1 {
        '1'
    } else if d == 2 {
        '2'
    } else if d == 3 {
        '3'
    } else if d == 4 {
        '4'
    } else if d == 5 {
        '5'
    } else if d == 6 {
        '6'
    } else if d == 7 {
        '7'
    } else if d == 8 {
        '8'
    } else {
        '9'
    }
}

/// The usual decimal rendering of a natural number, most significant digit
/// first, with no leading zeros (a lone zero for 0).
pub open spec fn spec_decimal(n: nat) -> Seq<char>
    decreases n,
{
    if n < 10 {
        seq![dec_digit(n)]
    } else {
        spec_decimal(n / 10).push(dec_digit(n % 10))
    }
}

/// How many digits the decimal rendering has.
pub open spec fn spec_decimal_len(n: nat) -> nat
    decreases n,
{
    if n < 10 {
        1
    } else {
        spec_decimal_len(n / 10) + 1
    }
}

/// The digit count matches the rendering's length and never exceeds the
/// number itself (for positive numbers).
pub proof fn lemma_decimal_len(n: nat)
    ensures
        spec_decimal(n).len() == spec_decimal_len(n),
        n >= 1 ==> spec_decimal_len(n) <= n,
        n >= 2 ==> spec_decimal_len(n) < n,
    decreases n,
{
    if n >= 10 {
        lemma_decimal_len(n / 10);
    }
}

fn digit_char(d: usize) -> (c: char)
    requires
        d < 10,
    ensures
        c == dec_digit(d as nat),
{
    match d {
        0 => '0',
        1 => '1',
        2 => '2',
        3 => '3',
        4 => '4',
        5 => '5',
        6 => '6',
        7 => '7',
        8 => '8',
        _ => '9',
    }
}

/// Renders a number in decimal.
pub fn u64_to_string(n: u64) -> (r: String)
    ensures
        r@ == spec_decimal(n as nat),
    decreases n,
{
    if n < 10 {
        let mut s = String::new();
        push_char(&mut s, digit_char((n % 10) as usize));
        s
    } else {
        let mut s = u64_to_string(n / 10);
        push_char(&mut s, digit_char((n % 10) as usize));
        s
    }
}

/// Renders a number in decimal.
pub fn usize_to_string(n: usize) -> (r: String)
    ensures
        r@ == spec_decimal(n as nat),
{
    u64_to_string(n as u64)
}

/// How often a character occurs in a sequence.
pub open spec fn spec_count(s: Seq<char>, c: char) -> nat
    decreases s.len(),
{
    if s.len() == 0 {
        0nat
    } else {
        spec_count(s.drop_last(), c) + (if s.last() == c {
            1nat
        } else {
            0nat
        })
    }
}

/// A character occurs at most once per position.
pub proof fn lemma_count_le_len(s: Seq<char>, c: char)
    ensures
        spec_count(s, c) <= s.len(),
    decreases s.len(),
{
    if s.len() > 0 {
        lemma_count_le_len(s.drop_last(), c);
    }
}

/// Count the occurrences of one character.
pub fn count_char(s: &str, c: char) -> (r: usize)
    ensures
        r == spec_count(s@, c),
        r <= s@.len(),
{
    let len = s.unicode_len();
    let mut count: usize = 0;
    let mut i: usize = 0;
    proof {
        assert(s@.take(0) =~= Seq::<char>::empty());
    }
    while i < len
        invariant
            i <= len,
            len == s@.len(),
            count <= i,
            count == spec_count(s@.take(i as int), c),
        decreases len - i,
    {
        proof {
            assert(s@.take(i as int + 1).drop_last() =~= s@.take(i as int));
            assert(s@.take(i as int + 1).last() == s@[i as int]);
        }
        if s.get_char(i) == c {
            count += 1;
        }
        i += 1;
    }
    proof {
        assert(s@.take(len as int) =~= s@);
    }
    count
}

/// The characters after the last slash: what a path displays as. An empty
/// remainder (a path ending in a slash, or an empty path) falls back to
/// the untitled name.
pub open spec fn spec_file_name(path: Seq<char>) -> Seq<char> {
    let tail = path.skip(last_slash(path) + 1);
    if tail.len() == 0 {
        "untitled"@
    } else {
        tail
    }
}

/// The index of the last slash, or -1 when there is none.
pub open spec fn last_slash(path: Seq<char>) -> int
    decreases path.len(),
{
    if path.len() == 0 {
        -1
    } else if path.last() == '/' {
        path.len() - 1
    } else {
        last_slash(path.drop_last())
    }
}

/// The display name of a file path: everything after the last slash.
pub fn file_name_of(path: &str) -> (r: String)
    ensures
        r@ == spec_file_name(path@),
{
    let len = path.unicode_len();
    let mut cut: usize = 0;
    let mut i: usize = 0;
    proof {
        lemma_last_slash(path@);
    }
    while i < len
        invariant
            i <= len,
            len == path@.len(),
            cut <= i,
            cut as int == last_slash(path@.take(i as int)) + 1,
        decreases len - i,
    {
        proof {
            assert(path@.take(i as int + 1).drop_last() =~= path@.take(i as int));
            assert(path@.take(i as int + 1).last() == path@[i as int]);
        }
        if path.get_char(i) == '/' {
            cut = i + 1;
        }
        i += 1;
    }
    proof {
        assert(path@.take(len as int) =~= path@);
    }
    if cut >= len {
        proof {
            reveal_strlit("untitled");
        }
        String::from_str("untitled")
    } else {
        let tail = path.substring_char(cut, len);
        proof {
            assert(tail@ =~= path@.skip(last_slash(path@) + 1));
        }
        tail.to_owned()
    }
}

/// `last_slash` stays within the sequence.
proof fn lemma_last_slash(path: Seq<char>)
    ensures
        -1 <= last_slash(path) < path.len(),
    decreases path.len(),
{
    if path.len() > 0 {
        lemma_last_slash(path.drop_last());
    }
}

/// An ASCII whitespace character, as the command language understands it.
pub open spec fn is_ws(c: char) -> bool {
    c == ' ' || c == '\t' || c == '\n' || c == '\r'
}

/// Whitespace splitting with an accumulator: the tokens of `cur + s`,
/// where `cur` is the partial word read so far.
pub open spec fn tok(s: Seq<char>, cur: Seq<char>) -> Seq<Seq<char>>
    decreases s.len(),
{
    if s.len() == 0 {
        if cur.len() > 0 {
            seq![cur]
        } else {
            Seq::empty()
        }
    } else if is_ws(s[0]) {
        (if cur.len() > 0 {
            seq![cur]
        } else {
            Seq::empty()
        }) + tok(s.drop_first(), Seq::empty())
    } else {
        tok(s.drop_first(), cur.push(s[0]))
    }
}

/// The whitespace-separated words of a string, in order, each non-empty.
pub open spec fn spec_tokens(s: Seq<char>) -> Seq<Seq<char>> {
    tok(s, Seq::empty())
}

/// Split a string at whitespace.
pub fn tokenize(s: &str) -> (r: Vec<String>)
    ensures
        r.deep_view() == spec_tokens(s@),
{
    let len = s.unicode_len();
    let mut out: Vec<String> = Vec::new();
    let mut cur = String::new();
    let mut i: usize = 0;
    proof {
        assert(s@.skip(0) =~= s@);
        assert(out.deep_view() + tok(s@.skip(0), cur@) =~= spec_tokens(s@));
    }
    while i < len
        invariant
            i <= len,
            len == s@.len(),
            out.deep_view() + tok(s@.skip(i as int), cur@) =~= spec_tokens(s@),
        decreases len - i,
    {
        let c = s.get_char(i);
        proof {
            assert(s@.skip(i as int).drop_first() =~= s@.skip(i as int + 1));
            assert(s@.skip(i as int)[0] == s@[i as int]);
        }
        if c == ' ' || c == '\t' || c == '\n' || c == '\r' {
            let ghost cur0 = cur@;
            let ghost prev0 = out.deep_view();
            if cur.as_str().unicode_len() > 0 {
                out.push(cur);
                cur = String::new();
                proof {
                    assert(out.deep_view() =~= prev0.push(cur0));
                }
            }
            proof {
                assert(is_ws(s@[i as int]));
                assert(cur@ =~= Seq::<char>::empty());
                if cur0.len() > 0 {
                    assert(tok(s@.skip(i as int), cur0) == seq![cur0] + tok(
                        s@.skip(i as int + 1),
                        Seq::empty(),
                    ));
                    assert(out.deep_view() + tok(s@.skip(i as int + 1), cur@) =~= prev0 + tok(
                        s@.skip(i as int),
                        cur0,
                    ));
                } else {
                    assert(tok(s@.skip(i as int), cur0) == Seq::<Seq<char>>::empty() + tok(
                        s@.skip(i as int + 1),
                        Seq::empty(),
                    ));
                    assert(out.deep_view() + tok(s@.skip(i as int + 1), cur@) =~= prev0 + tok(
                        s@.skip(i as int),
                        cur0,
                    ));
                }
                assert(out.deep_view() + tok(s@.skip(i as int + 1), cur@) =~= spec_tokens(s@));
            }
        } else {
            push_char(&mut cur, c);
            proof {
                assert(out.deep_view() + tok(s@.skip(i as int + 1), cur@) =~= spec_tokens(s@));
            }
        }
        i += 1;
    }
    proof {
        assert(s@.skip(len as int) =~= Seq::<char>::empty());
    }
    if cur.as_str().unicode_len() > 0 {
        let ghost prev = out.deep_view();
        let ghost curv = cur@;
        out.push(cur);
        proof {
            assert(out.deep_view() =~= prev.push(curv));
            assert(out.deep_view() =~= spec_tokens(s@));
        }
    } else {
        proof {
            assert(out.deep_view() =~= spec_tokens(s@));
        }
    }
    out
}

/// Words joined by single spaces.
pub open spec fn join_spaces(ts: Seq<Seq<char>>) -> Seq<char>
    decreases ts.len(),
{
    if ts.len() == 0 {
        Seq::empty()
    } else if ts.len() == 1 {
        ts[0]
    } else {
        ts[0] + seq![' '] + join_spaces(ts.drop_first())
    }
}

/// Appending one more word extends the joined string by a space and that
/// word.
pub proof fn lemma_join_spaces_push(ts: Seq<Seq<char>>, x: Seq<char>)
    ensures
        join_spaces(ts.push(x)) == if ts.len() == 0 {
            x
        } else {
            join_spaces(ts) + seq![' '] + x
        },
    decreases ts.len(),
{
    if ts.len() == 0 {
        assert(ts.push(x)[0] == x);
        assert(join_spaces(ts.push(x)) == x);
    } else if ts.len() == 1 {
        assert(ts.push(x).drop_first() =~= seq![x]);
        assert(seq![x].len() == 1);
        assert(join_spaces(seq![x]) == x);
        assert(ts.push(x)[0] == ts[0]);
        assert(join_spaces(ts.push(x)) == ts[0] + seq![' '] + x);
        assert(join_spaces(ts) == ts[0]);
    } else {
        lemma_join_spaces_push(ts.drop_first(), x);
        assert(ts.push(x).drop_first() =~= ts.drop_first().push(x));
        assert(ts.push(x)[0] == ts[0]);
        assert(join_spaces(ts.push(x)) == ts[0] + seq![' '] + join_spaces(
            ts.drop_first().push(x),
        ));
        assert(join_spaces(ts.drop_first().push(x)) == join_spaces(ts.drop_first()) + seq![' ']
            + x);
        assert(join_spaces(ts.push(x)) =~= join_spaces(ts) + seq![' '] + x);
    }
}

/// Join words with single spaces, starting at the given position.
pub fn join_from(words: &Vec<String>, start: usize) -> (r: String)
    requires
        start <= words@.len(),
    ensures
        r@ == join_spaces(words.deep_view().skip(start as int)),
{
    let mut r = String::new();
    let mut i: usize = start;
    proof {
        assert(words.deep_view().skip(start as int).take(0) =~= Seq::<Seq<char>>::empty());
    }
    while i < words.len()
        invariant
            start <= i <= words@.len(),
            words.deep_view().len() == words@.len(),
            r@ == join_spaces(words.deep_view().skip(start as int).take(i - start)),
        decreases words@.len() - i,
    {
        proof {
            let part = words.deep_view().skip(start as int);
            lemma_join_spaces_push(part.take(i - start), part[i - start]);
            assert(part.take(i - start).push(part[i - start]) =~= part.take(i - start + 1));
            assert(part[i - start] == words.deep_view()[i as int]);
            assert(words.deep_view()[i as int] == words@[i as int]@);
        }
        if i > start {
            push_char(&mut r, ' ');
        }
        r.append(words[i].as_str());
        i += 1;
    }
    proof {
        assert(words.deep_view().skip(start as int).take(words@.len() - start)
            =~= words.deep_view().skip(start as int));
    }
    r
}

/// An ASCII uppercase letter mapped to its lowercase form; everything
/// else is unchanged.
pub open spec fn char_lower(c: char) -> char {
    if c == 'A' {
        'a'
    } else if c == 'B' {
        'b'
    } else if c == 'C' {
        'c'
    } else if c == 'D' {
        'd'
    } else if c == 'E' {
        'e'
    } else if c == 'F' {
        'f'
    } else if c == 'G' {
        'g'
    } else if c == 'H' {
        'h'
    } else if c == 'I' {
        'i'
    } else if c == 'J' {
        'j'
    } else if c == 'K' {
        'k'
    } else if c == 'L' {
        'l'
    } else if c == 'M' {
        'm'
    } else if c == 'N' {
        'n'
    } else if c == 'O' {
        'o'
    } else if c == 'P' {
        'p'
    } else if c == 'Q' {
        'q'
    } else if c == 'R' {
        'r'
    } else if c == 'S' {
        's'
    } else if c == 'T' {
        't'
    } else if c == 'U' {
        'u'
    } else if c == 'V' {
        'v'
    } else if c == 'W' {
        'w'
    } else if c == 'X' {
        'x'
    } else if c == 'Y' {
        'y'
    } else if c == 'Z' {
        'z'
    } else {
        c
    }
}

/// Lowercase one ASCII letter.
fn char_lower_exec(c: char) -> (r: char)
    ensures
        r == char_lower(c),
{
    match c {
        'A' => 'a',
        'B' => 'b',
        'C' => 'c',
        'D' => 'd',
        'E' => 'e',
        'F' => 'f',
        'G' => 'g',
        'H' => 'h',
        'I' => 'i',
        'J' => 'j',
        'K' => 'k',
        'L' => 'l',
        'M' => 'm',
        'N' => 'n',
        'O' => 'o',
        'P' => 'p',
        'Q' => 'q',
        'R' => 'r',
        'S' => 's',
        'T' => 't',
        'U' => 'u',
        'V' => 'v',
        'W' => 'w',
        'X' => 'x',
        'Y' => 'y',
        'Z' => 'z',
        other => other,
    }
}

/// The word occurs in the string at position `i`, comparing ASCII letters
/// without regard to case.
pub open spec fn ci_match_at(s: Seq<char>, w: Seq<char>, i: int) -> bool {
    forall|j: int| 0 <= j < w.len() ==> char_lower(s[i + j]) == char_lower(w[j])
}

/// The word occurs somewhere in the string, ASCII-case-insensitively.
pub open spec fn spec_contains_ci(s: Seq<char>, w: Seq<char>) -> bool {
    exists|i: int| 0 <= i <= s.len() - w.len() && ci_match_at(s, w, i)
}

/// Whether the word occurs in the string, comparing ASCII letters without
/// regard to case.
pub fn contains_ci(s: &str, w: &str) -> (r: bool)
    ensures
        r == spec_contains_ci(s@, w@),
{
    let n = s.unicode_len();
    let m = w.unicode_len();
    if m > n {
        return false;
    }
    let mut i: usize = 0;
    while i <= n - m
        invariant
            m <= n,
            n == s@.len(),
            m == w@.len(),
            i <= n - m + 1,
            forall|k: int| 0 <= k < i ==> !ci_match_at(s@, w@, k),
        decreases n - m + 1 - i,
    {
        let mut j: usize = 0;
        let mut matched = true;
        while j < m
            invariant
                i + m <= n,
                n == s@.len(),
                m == w@.len(),
                j <= m,
                matched ==> forall|t: int| 0 <= t < j ==> char_lower(s@[i + t]) == char_lower(
                    w@[t],
                ),
                !matched ==> !ci_match_at(s@, w@, i as int),
            decreases m - j,
        {
            let sc = char_lower_exec(s.get_char(i + j));
            let wc = char_lower_exec(w.get_char(j));
            if sc != wc {
                proof {
                    assert(char_lower(s@[i as int + j as int]) != char_lower(w@[j as int]));
                }
                matched = false;
            }
            j += 1;
        }
        if matched {
            proof {
                assert(ci_match_at(s@, w@, i as int));
            }
            return true;
        }
        i += 1;
    }
    proof {
        assert(forall|k: int| 0 <= k <= s@.len() - w@.len() ==> !ci_match_at(s@, w@, k));
    }
    false
}

/// Character-for-character equality of two string slices.
pub fn str_eq(a: &str, b: &str) -> (r: bool)
    ensures
        r == (a@ == b@),
{
    let alen = a.unicode_len();
    let blen = b.unicode_len();
    if alen != blen {
        return false;
    }
    let mut i: usize = 0;
    while i < alen
        invariant
            i <= alen,
            alen == a@.len(),
            alen == b@.len(),
            forall|j: int| 0 <= j < i ==> a@[j] == b@[j],
        decreases alen - i,
    {
        if a.get_char(i) != b.get_char(i) {
            return false;
        }
        i += 1;
    }
    proof {
        assert(a@ =~= b@);
    }
    true
}

} // verus!
