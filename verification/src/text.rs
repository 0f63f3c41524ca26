//! Character-level text operations with their specifications.
use vstd::prelude::*;
use vstd::string::StringExecFns;

verus! {

// ---------------------------------------------------------------------------
// Specifications
// ---------------------------------------------------------------------------

/// Unicode `White_Space`, the set that `char::is_whitespace` tests.
#[verifier::opaque]
pub open spec fn is_space(c: char) -> bool {
    ||| c == '\t' || c == '\n' || c == '\u{b}' || c == '\u{c}' || c == '\r' || c == ' '
    ||| c == '\u{85}' || c == '\u{a0}' || c == '\u{1680}'
    ||| ('\u{2000}' <= c && c <= '\u{200a}')
    ||| c == '\u{2028}' || c == '\u{2029}' || c == '\u{202f}' || c == '\u{205f}' || c == '\u{3000}'
}

/// `s` with its leading white space removed.
pub open spec fn trim_start_spec(s: Seq<char>) -> Seq<char>
    decreases s.len(),
{
    if s.len() > 0 && is_space(s[0]) {
        trim_start_spec(s.drop_first())
    } else {
        s
    }
}

/// `s` with its trailing white space removed.
pub open spec fn trim_end_spec(s: Seq<char>) -> Seq<char>
    decreases s.len(),
{
    if s.len() > 0 && is_space(s.last()) {
        trim_end_spec(s.drop_last())
    } else {
        s
    }
}

/// `str::trim`: white space removed from both ends.
pub open spec fn trim_spec(s: Seq<char>) -> Seq<char> {
    trim_end_spec(trim_start_spec(s))
}

/// `p` occurs in `h` starting at position `i`.
pub open spec fn occurs_at(h: Seq<char>, p: Seq<char>, i: int) -> bool {
    0 <= i && i + p.len() <= h.len() && h.subrange(i, i + p.len()) == p
}

/// `p` occurs somewhere in `h`.
pub open spec fn contains_spec(h: Seq<char>, p: Seq<char>) -> bool {
    exists|i: int| occurs_at(h, p, i)
}

/// `i` is the first position at or after `from` where `p` occurs in `h`.
pub open spec fn first_occurrence_from(h: Seq<char>, p: Seq<char>, from: int, i: int) -> bool {
    &&& from <= i
    &&& occurs_at(h, p, i)
    &&& forall|j: int| from <= j < i ==> !occurs_at(h, p, j)
}

/// The position of the first `c` in `s`, if any.
pub open spec fn index_of_char(s: Seq<char>, c: char) -> Option<int>
    decreases s.len(),
{
    if s.len() == 0 {
        None
    } else if s[0] == c {
        Some(0)
    } else {
        match index_of_char(s.drop_first(), c) {
            Some(i) => Some(i + 1),
            None => None,
        }
    }
}

/// `str::split` on one character: the pieces between the separators.
pub open spec fn split_spec(s: Seq<char>, sep: char) -> Seq<Seq<char>>
    decreases s.len(),
{
    match index_of_char(s, sep) {
        None => seq![s],
        Some(i) => {
            if 0 <= i < s.len() {
                seq![s.take(i)] + split_spec(s.skip(i + 1), sep)
            } else {
                seq![s]
            }
        },
    }
}

/// `str::lines`: pieces ended by `\n`, each without its `\n` and a `\r` just
/// before it; a final line ending adds no empty line.
pub open spec fn lines_spec(s: Seq<char>) -> Seq<Seq<char>>
    decreases s.len(),
{
    if s.len() == 0 {
        seq![]
    } else {
        match index_of_char(s, '\n') {
            None => seq![s],
            Some(i) => {
                if 0 <= i < s.len() {
                    let line = s.take(i);
                    let line = if line.len() > 0 && line.last() == '\r' {
                        line.drop_last()
                    } else {
                        line
                    };
                    seq![line] + lines_spec(s.skip(i + 1))
                } else {
                    seq![s]
                }
            },
        }
    }
}

/// Every occurrence of the character `c` in `s` replaced by `r`.
pub open spec fn replace_char_spec(s: Seq<char>, c: char, r: Seq<char>) -> Seq<char>
    decreases s.len(),
{
    if s.len() == 0 {
        seq![]
    } else {
        let head = if s[0] == c { r } else { seq![s[0]] };
        head + replace_char_spec(s.drop_first(), c, r)
    }
}

/// The pieces of `parts` written one after another with `sep` between them.
pub open spec fn join_spec(parts: Seq<Seq<char>>, sep: Seq<char>) -> Seq<char>
    decreases parts.len(),
{
    if parts.len() == 0 {
        seq![]
    } else if parts.len() == 1 {
        parts[0]
    } else {
        join_spec(parts.drop_last(), sep) + sep + parts.last()
    }
}

/// The ASCII decimal digit for `d < 10`.
pub open spec fn digit_char(d: nat) -> char {
    if d == 0 { '0' }
    else if d == 1 { '1' }
    else if d == 2 { '2' }
    else if d == 3 { '3' }
    else if d == 4 { '4' }
    else if d == 5 { '5' }
    else if d == 6 { '6' }
    else if d == 7 { '7' }
    else if d == 8 { '8' }
    else { '9' }
}

/// The decimal notation of `n`, without leading zeros.
pub open spec fn decimal_spec(n: nat) -> Seq<char>
    decreases n,
{
    if n < 10 {
        seq![digit_char(n)]
    } else {
        decimal_spec(n / 10).push(digit_char(n % 10))
    }
}

pub open spec fn is_digit(c: char) -> bool {
    '0' <= c && c <= '9'
}

/// The number that a string of decimal digits denotes.
pub open spec fn digits_value(s: Seq<char>) -> nat
    decreases s.len(),
{
    if s.len() == 0 {
        0
    } else {
        digits_value(s.drop_last()) * 10 + ((s.last() as int - '0' as int) as nat)
    }
}

/// `s.parse::<usize>()` succeeds: an optional `+`, then one or more decimal
/// digits whose value fits in `usize`.
pub open spec fn parses_as_usize(s: Seq<char>) -> bool {
    let d = without_plus(s);
    &&& d.len() > 0
    &&& all_digits(d)
    &&& digits_value(d) <= usize::MAX
}

/// `s` without one leading `+`.
pub open spec fn without_plus(s: Seq<char>) -> Seq<char> {
    if s.len() > 0 && s[0] == '+' { s.drop_first() } else { s }
}

pub open spec fn all_digits(d: Seq<char>) -> bool {
    forall|i: int| 0 <= i < d.len() ==> is_digit(#[trigger] d[i])
}

/// The texts of a sequence of `String`s.
pub open spec fn string_views(v: Seq<String>) -> Seq<Seq<char>> {
    Seq::new(v.len(), |i: int| v[i]@)
}

/// The texts of a sequence of character vectors.
pub open spec fn char_vec_views(v: Seq<Vec<char>>) -> Seq<Seq<char>> {
    Seq::new(v.len(), |i: int| v[i]@)
}

// ---------------------------------------------------------------------------
// Lemmas
// ---------------------------------------------------------------------------

/// `index_of_char` is the position of the first `c`, and `None` only when
/// there is no `c`.
pub proof fn lemma_index_of_char(s: Seq<char>, c: char)
    ensures
        match index_of_char(s, c) {
            Some(i) => 0 <= i < s.len() && s[i] == c && forall|j: int| 0 <= j < i ==> s[j] != c,
            None => forall|j: int| 0 <= j < s.len() ==> s[j] != c,
        },
    decreases s.len(),
{
    if s.len() > 0 && s[0] != c {
        lemma_index_of_char(s.drop_first(), c);
        match index_of_char(s.drop_first(), c) {
            Some(i) => {
                assert forall|j: int| 0 <= j < i + 1 implies s[j] != c by {
                    if j > 0 {
                        assert(s[j] == s.drop_first()[j - 1]);
                    }
                }
            },
            None => {
                assert forall|j: int| 0 <= j < s.len() implies s[j] != c by {
                    if j > 0 {
                        assert(s[j] == s.drop_first()[j - 1]);
                    }
                }
            },
        }
    }
}

/// The first occurrence characterises `index_of_char`.
pub proof fn lemma_index_of_char_is(s: Seq<char>, c: char, i: int)
    requires
        0 <= i <= s.len(),
        forall|j: int| 0 <= j < i ==> s[j] != c,
        i < s.len() ==> s[i] == c,
    ensures
        index_of_char(s, c) == (if i < s.len() { Some(i) } else { None::<int> }),
{
    lemma_index_of_char(s, c);
}

/// Joining one more piece appends the separator and the piece.
pub proof fn lemma_join_push(parts: Seq<Seq<char>>, sep: Seq<char>, p: Seq<char>)
    ensures
        join_spec(parts.push(p), sep) == (if parts.len() == 0 { p } else { join_spec(parts, sep) + sep + p }),
{
    assert(parts.push(p).drop_last() =~= parts);
}

proof fn lemma_decimal_digits(n: nat)
    ensures
        forall|i: int| 0 <= i < decimal_spec(n).len() ==> is_digit(#[trigger] decimal_spec(n)[i]),
        decimal_spec(n).len() > 0,
    decreases n,
{
    if n >= 10 {
        lemma_decimal_digits(n / 10);
    }
}

// ---------------------------------------------------------------------------
// Executable operations
// ---------------------------------------------------------------------------

/// Appends one character to a `String` (std's `String::push`).
#[verifier::external_body]
pub(crate) fn push_char(s: &mut String, c: char)
    ensures
        final(s)@ == old(s)@.push(c),
{
    s.push(c);
}

/// The characters of `s`, in order.
pub fn chars_of(s: &str) -> (r: Vec<char>)
    ensures
        r@ == s@,
{
    let mut r: Vec<char> = Vec::new();
    for c in it: s.chars()
        invariant
            r@ == it.seq().take(it.index()),
    {
        r.push(c);
    }
    r
}

/// A `String` holding the characters `cs[from..to]`.
pub fn string_of_range(cs: &Vec<char>, from: usize, to: usize) -> (r: String)
    requires
        from <= to <= cs@.len(),
    ensures
        r@ == cs@.subrange(from as int, to as int),
{
    let mut r = String::new();
    let mut i: usize = from;
    while i < to
        invariant
            from <= i <= to <= cs@.len(),
            r@ == cs@.subrange(from as int, i as int),
        decreases to - i,
    {
        push_char(&mut r, cs[i]);
        assert(cs@.subrange(from as int, i + 1) =~= cs@.subrange(from as int, i as int).push(cs@[i as int]));
        i = i + 1;
    }
    r
}

/// A `String` holding the characters `cs`.
pub fn string_of(cs: &Vec<char>) -> (r: String)
    ensures
        r@ == cs@,
{
    let r = string_of_range(cs, 0, cs.len());
    assert(cs@.subrange(0, cs@.len() as int) =~= cs@);
    r
}

/// A fresh `String` equal to `s`.
pub fn owned(s: &str) -> (r: String)
    ensures
        r@ == s@,
{
    String::from_str(s)
}

/// `a` followed by `b`, as a new `String`.
pub fn concat2(a: &str, b: &str) -> (r: String)
    ensures
        r@ == a@ + b@,
{
    let mut r = String::from_str(a);
    r.append(b);
    r
}

/// Whether `p` occurs in `h` at position `i`.
pub fn matches_at(h: &Vec<char>, p: &Vec<char>, i: usize) -> (r: bool)
    ensures
        r == occurs_at(h@, p@, i as int),
{
    let hl: usize = h.len();
    if i > hl || p.len() > hl - i {
        return false;
    }
    let mut k: usize = 0;
    while k < p.len()
        invariant
            hl == h@.len(),
            i + p@.len() <= hl,
            k <= p@.len(),
            forall|j: int| 0 <= j < k ==> h@[i + j] == p@[j],
        decreases p@.len() - k,
    {
        if h[i + k] != p[k] {
            assert(h@.subrange(i as int, i + p@.len())[k as int] != p@[k as int]);
            return false;
        }
        k = k + 1;
    }
    assert(h@.subrange(i as int, i + p@.len()) =~= p@);
    true
}

/// The first position at or after `from` where `p` occurs in `h`.
pub fn find_from(h: &Vec<char>, p: &Vec<char>, from: usize) -> (r: Option<usize>)
    ensures
        match r {
            Some(i) => first_occurrence_from(h@, p@, from as int, i as int),
            None => forall|j: int| from <= j ==> !occurs_at(h@, p@, j),
        },
{
    if p.len() > h.len() || from > h.len() - p.len() {
        return None;
    }
    let last: usize = h.len() - p.len();
    let mut i: usize = from;
    loop
        invariant
            from <= i <= last,
            last + p@.len() == h@.len(),
            forall|j: int| from <= j < i ==> !occurs_at(h@, p@, j),
        decreases last - i,
    {
        if matches_at(h, p, i) {
            return Some(i);
        }
        if i == last {
            return None;
        }
        i = i + 1;
    }
}

/// Whether `p` occurs in `h`.
pub fn contains_chars(h: &Vec<char>, p: &Vec<char>) -> (r: bool)
    ensures
        r == contains_spec(h@, p@),
{
    match find_from(h, p, 0) {
        Some(i) => true,
        None => {
            assert(forall|j: int| 0 <= j ==> !occurs_at(h@, p@, j));
            false
        },
    }
}

/// Whether `h` begins with `p`.
pub fn starts_with_chars(h: &Vec<char>, p: &Vec<char>) -> (r: bool)
    ensures
        r == occurs_at(h@, p@, 0),
{
    matches_at(h, p, 0)
}

/// The position of the first `c` in `s[from..]`, counted from the start of `s`.
pub fn find_char_from(s: &Vec<char>, c: char, from: usize) -> (r: Option<usize>)
    requires
        from <= s@.len(),
    ensures
        match r {
            Some(i) => from <= i < s@.len() && s@[i as int] == c
                && index_of_char(s@.skip(from as int), c) == Some(i - from),
            None => index_of_char(s@.skip(from as int), c) == None::<int>,
        },
{
    let mut i: usize = from;
    while i < s.len()
        invariant
            from <= i <= s@.len(),
            forall|j: int| from <= j < i ==> s@[j] != c,
        decreases s@.len() - i,
    {
        if s[i] == c {
            proof {
                lemma_index_of_char_is(s@.skip(from as int), c, i - from);
            }
            return Some(i);
        }
        i = i + 1;
    }
    proof {
        lemma_index_of_char_is(s@.skip(from as int), c, s@.len() - from);
    }
    None
}

/// The characters of `s` without leading and trailing white space.
pub fn trim_chars(s: &Vec<char>) -> (r: Vec<char>)
    ensures
        r@ == trim_spec(s@),
{
    let n: usize = s.len();
    let mut a: usize = 0;
    assert(s@.skip(0) =~= s@);
    while a < n && is_space_char(s[a])
        invariant
            a <= n == s@.len(),
            trim_start_spec(s@) == trim_start_spec(s@.skip(a as int)),
        decreases n - a,
    {
        assert(s@.skip(a as int).drop_first() =~= s@.skip(a + 1));
        a = a + 1;
    }
    assert(trim_start_spec(s@.skip(a as int)) == s@.skip(a as int));
    let mut b: usize = n;
    while b > a && is_space_char(s[b - 1])
        invariant
            a <= b <= n == s@.len(),
            trim_spec(s@) == trim_end_spec(s@.subrange(a as int, b as int)),
        decreases b,
    {
        assert(s@.subrange(a as int, b as int).drop_last() =~= s@.subrange(a as int, b - 1));
        b = b - 1;
    }
    assert(s@.skip(a as int) =~= s@.subrange(a as int, n as int));
    assert(trim_end_spec(s@.subrange(a as int, b as int)) == s@.subrange(a as int, b as int));
    let mut r: Vec<char> = Vec::new();
    let mut i = a;
    while i < b
        invariant
            a <= i <= b <= n == s@.len(),
            r@ == s@.subrange(a as int, i as int),
        decreases b - i,
    {
        r.push(s[i]);
        assert(s@.subrange(a as int, i + 1) =~= s@.subrange(a as int, i as int).push(s@[i as int]));
        i = i + 1;
    }
    r
}

/// `char::is_whitespace`.
pub fn is_space_char(c: char) -> (r: bool)
    ensures
        r == is_space(c),
{
    reveal(is_space);
    c == '\t' || c == '\n' || c == '\u{b}' || c == '\u{c}' || c == '\r' || c == ' ' || c == '\u{85}'
        || c == '\u{a0}' || c == '\u{1680}' || ('\u{2000}' <= c && c <= '\u{200a}') || c == '\u{2028}'
        || c == '\u{2029}' || c == '\u{202f}' || c == '\u{205f}' || c == '\u{3000}'
}

/// `s` without leading and trailing white space, as a `String`.
pub fn trim_str(s: &str) -> (r: String)
    ensures
        r@ == trim_spec(s@),
{
    let cs = chars_of(s);
    let t = trim_chars(&cs);
    string_of(&t)
}

/// The pieces of `s` between occurrences of `sep`.
pub fn split_char(s: &Vec<char>, sep: char) -> (r: Vec<Vec<char>>)
    ensures
        r@.len() == split_spec(s@, sep).len(),
        forall|i: int| 0 <= i < r@.len() ==> #[trigger] r@[i]@ == split_spec(s@, sep)[i],
{
    let mut parts: Vec<Vec<char>> = Vec::new();
    let ghost mut done: Seq<Seq<char>> = seq![];
    let mut start: usize = 0;
    assert(s@.skip(0) =~= s@);
    assert(seq![] + split_spec(s@, sep) =~= split_spec(s@, sep));
    loop
        invariant
            start <= s@.len(),
            parts@.len() == done.len(),
            forall|i: int| 0 <= i < parts@.len() ==> #[trigger] parts@[i]@ == done[i],
            split_spec(s@, sep) == done + split_spec(s@.skip(start as int), sep),
        decreases s@.len() - start,
    {
        let ghost rest = s@.skip(start as int);
        match find_char_from(s, sep, start) {
            Some(i) => {
                assert(i < s.len());
                let piece = slice_vec(s, start, i);
                assert(rest.take(i - start) =~= s@.subrange(start as int, i as int));
                assert(rest.skip(i - start + 1) =~= s@.skip(i + 1));
                proof {
                    assert(split_spec(rest, sep) == seq![rest.take(i - start)] + split_spec(rest.skip(i - start + 1), sep));
                    done = done.push(piece@);
                    assert(seq![rest.take(i - start)] + split_spec(rest.skip(i - start + 1), sep)
                        =~= seq![piece@] + split_spec(s@.skip(i + 1), sep));
                }
                parts.push(piece);
                start = i + 1;
            },
            None => {
                let piece = slice_vec(s, start, s.len());
                assert(rest =~= s@.subrange(start as int, s@.len() as int));
                proof {
                    done = done.push(piece@);
                }
                parts.push(piece);
                assert(split_spec(s@, sep) =~= done);
                return parts;
            },
        }
    }
}

/// `s[from..to]` as a new vector.
pub fn slice_vec(s: &Vec<char>, from: usize, to: usize) -> (r: Vec<char>)
    requires
        from <= to <= s@.len(),
    ensures
        r@ == s@.subrange(from as int, to as int),
{
    let mut r: Vec<char> = Vec::new();
    let mut i: usize = from;
    while i < to
        invariant
            from <= i <= to <= s@.len(),
            r@ == s@.subrange(from as int, i as int),
        decreases to - i,
    {
        r.push(s[i]);
        assert(s@.subrange(from as int, i + 1) =~= s@.subrange(from as int, i as int).push(s@[i as int]));
        i = i + 1;
    }
    r
}

/// The lines of `s`, as `str::lines` gives them.
pub fn lines_of(s: &Vec<char>) -> (r: Vec<Vec<char>>)
    ensures
        r@.len() == lines_spec(s@).len(),
        forall|i: int| 0 <= i < r@.len() ==> #[trigger] r@[i]@ == lines_spec(s@)[i],
{
    let mut lines: Vec<Vec<char>> = Vec::new();
    let ghost mut done: Seq<Seq<char>> = seq![];
    let mut start: usize = 0;
    assert(s@.skip(0) =~= s@);
    assert(seq![] + lines_spec(s@) =~= lines_spec(s@));
    while start < s.len()
        invariant
            start <= s@.len(),
            lines@.len() == done.len(),
            forall|i: int| 0 <= i < lines@.len() ==> #[trigger] lines@[i]@ == done[i],
            lines_spec(s@) == done + lines_spec(s@.skip(start as int)),
        decreases s@.len() - start,
    {
        let ghost rest = s@.skip(start as int);
        match find_char_from(s, '\n', start) {
            Some(i) => {
                let mut end = i;
                if end > start && s[end - 1] == '\r' {
                    end = end - 1;
                }
                let piece = slice_vec(s, start, end);
                proof {
                    let line = rest.take(i - start);
                    assert(line =~= s@.subrange(start as int, i as int));
                    if line.len() > 0 && line.last() == '\r' {
                        assert(line.drop_last() =~= piece@);
                    } else {
                        assert(line =~= piece@);
                    }
                    assert(rest.skip(i - start + 1) =~= s@.skip(i + 1));
                    done = done.push(piece@);
                    assert(lines_spec(rest) == seq![piece@] + lines_spec(s@.skip(i + 1)));
                    assert(done.drop_last() + seq![piece@] + lines_spec(s@.skip(i + 1))
                        =~= done + lines_spec(s@.skip(i + 1)));
                }
                lines.push(piece);
                start = i + 1;
            },
            None => {
                let piece = slice_vec(s, start, s.len());
                proof {
                    assert(rest =~= piece@);
                    assert(lines_spec(rest) == seq![piece@]);
                    done = done.push(piece@);
                }
                lines.push(piece);
                start = s.len();
                assert(s@.skip(start as int) =~= Seq::<char>::empty());
            },
        }
    }
    assert(s@.skip(start as int) =~= Seq::<char>::empty());
    assert(done + lines_spec(Seq::<char>::empty()) =~= done);
    lines
}

/// Every occurrence of `c` in `s` replaced by `r`.
pub fn replace_char(s: &Vec<char>, c: char, rep: &Vec<char>) -> (r: Vec<char>)
    ensures
        r@ == replace_char_spec(s@, c, rep@),
{
    let mut out: Vec<char> = Vec::new();
    let mut i: usize = 0;
    assert(s@.skip(0) =~= s@);
    assert(seq![] + replace_char_spec(s@, c, rep@) =~= replace_char_spec(s@, c, rep@));
    while i < s.len()
        invariant
            i <= s@.len(),
            replace_char_spec(s@, c, rep@) == out@ + replace_char_spec(s@.skip(i as int), c, rep@),
        decreases s@.len() - i,
    {
        proof {
            assert(s@.skip(i as int).drop_first() =~= s@.skip(i + 1));
        }
        if s[i] == c {
            let mut k: usize = 0;
            let ghost before = out@;
            while k < rep.len()
                invariant
                    k <= rep@.len(),
                    out@ == before + rep@.take(k as int),
                decreases rep@.len() - k,
            {
                out.push(rep[k]);
                assert(rep@.take(k + 1) =~= rep@.take(k as int).push(rep@[k as int]));
                k = k + 1;
            }
            assert(rep@.take(rep@.len() as int) =~= rep@);
            assert(out@ + replace_char_spec(s@.skip(i + 1), c, rep@) =~= before + (rep@ + replace_char_spec(s@.skip(i + 1), c, rep@)));
        } else {
            let ghost before = out@;
            out.push(s[i]);
            assert(out@ + replace_char_spec(s@.skip(i + 1), c, rep@) =~= before + (seq![s@[i as int]] + replace_char_spec(s@.skip(i + 1), c, rep@)));
        }
        i = i + 1;
    }
    assert(s@.skip(i as int) =~= Seq::<char>::empty());
    assert(out@ + Seq::<char>::empty() =~= out@);
    out
}

/// The pieces joined with `sep` between them.
pub fn join_strings(parts: &Vec<String>, sep: &str) -> (r: String)
    ensures
        r@ == join_spec(parts@.map_values(|p: String| p@), sep@),
{
    let ghost views = parts@.map_values(|p: String| p@);
    let mut r = String::new();
    let mut i: usize = 0;
    while i < parts.len()
        invariant
            i <= parts@.len(),
            views == parts@.map_values(|p: String| p@),
            r@ == join_spec(views.take(i as int), sep@),
        decreases parts@.len() - i,
    {
        proof {
            lemma_join_push(views.take(i as int), sep@, views[i as int]);
            assert(views.take(i + 1) =~= views.take(i as int).push(views[i as int]));
        }
        if i > 0 {
            r.append(sep);
        }
        r.append(parts[i].as_str());
        i = i + 1;
    }
    assert(views.take(parts@.len() as int) =~= views);
    r
}

/// The decimal notation of `n`.
pub fn decimal(n: u64) -> (r: String)
    ensures
        r@ == decimal_spec(n as nat),
    decreases n,
{
    if n < 10 {
        let mut r = String::new();
        push_char(&mut r, digit(n));
        r
    } else {
        let mut r = decimal(n / 10);
        push_char(&mut r, digit(n % 10));
        r
    }
}

/// The digit character for `d`.
pub fn digit(d: u64) -> (r: char)
    requires
        d < 10,
    ensures
        r == digit_char(d as nat),
{
    if d == 0 { '0' }
    else if d == 1 { '1' }
    else if d == 2 { '2' }
    else if d == 3 { '3' }
    else if d == 4 { '4' }
    else if d == 5 { '5' }
    else if d == 6 { '6' }
    else if d == 7 { '7' }
    else if d == 8 { '8' }
    else { '9' }
}

/// Whether `s.parse::<usize>()` succeeds.
pub fn parses_usize(s: &Vec<char>) -> (r: bool)
    ensures
        r == parses_as_usize(s@),
{
    let start: usize = if s.len() > 0 && s[0] == '+' { 1 } else { 0 };
    let ghost d = without_plus(s@);
    assert(d =~= s@.skip(start as int));
    if start >= s.len() {
        assert(d.len() == 0);
        return false;
    }
    let mut value: usize = 0;
    let mut overflow: bool = false;
    let mut i: usize = start;
    assert(s@.subrange(start as int, start as int) =~= Seq::<char>::empty());
    while i < s.len()
        invariant
            start <= i <= s@.len(),
            d == without_plus(s@),
            d =~= s@.skip(start as int),
            forall|j: int| start <= j < i ==> is_digit(#[trigger] s@[j]),
            !overflow ==> value as nat == digits_value(s@.subrange(start as int, i as int)),
            overflow ==> digits_value(s@.subrange(start as int, i as int)) > usize::MAX,
        decreases s@.len() - i,
    {
        let c: char = s[i];
        assert(s@.subrange(start as int, i + 1).drop_last() =~= s@.subrange(start as int, i as int));
        if !('0' <= c && c <= '9') {
            assert(d[i - start] == c);
            assert(!is_digit(d[i - start]));
            assert(!all_digits(d));
            return false;
        }
        let dv: usize = (c as u32 - '0' as u32) as usize;
        assert(dv as int == c as int - '0' as int);
        if !overflow {
            if value > (usize::MAX - dv) / 10 {
                assert(value * 10 + dv > usize::MAX) by (nonlinear_arith)
                    requires
                        value > (usize::MAX - dv) / 10,
                        dv <= 9,
                ;
                overflow = true;
            } else {
                assert(value * 10 + dv <= usize::MAX) by (nonlinear_arith)
                    requires
                        value <= (usize::MAX - dv) / 10,
                        dv <= 9,
                ;
                value = value * 10 + dv;
            }
        }
        i = i + 1;
    }
    assert(s@.subrange(start as int, s@.len() as int) =~= d);
    !overflow
}


/// The first position of `x` in `s`.
pub open spec fn first_index<A>(s: Seq<A>, x: A) -> Option<int>
    decreases s.len(),
{
    if s.len() == 0 {
        None
    } else if s[0] == x {
        Some(0)
    } else {
        match first_index(s.drop_first(), x) {
            Some(i) => Some(i + 1),
            None => None,
        }
    }
}

/// `first_index` is the position of the first occurrence.
pub proof fn lemma_first_index<A>(s: Seq<A>, x: A)
    ensures
        match first_index(s, x) {
            Some(i) => 0 <= i < s.len() && s[i] == x && forall|j: int| 0 <= j < i ==> s[j] != x,
            None => forall|j: int| 0 <= j < s.len() ==> s[j] != x,
        },
    decreases s.len(),
{
    if s.len() > 0 && s[0] != x {
        lemma_first_index(s.drop_first(), x);
        assert forall|j: int| 0 < j < s.len() implies s[j] == s.drop_first()[j - 1] by {}
    }
}

/// The first occurrence determines `first_index`.
pub proof fn lemma_first_index_is<A>(s: Seq<A>, x: A, i: int)
    requires
        0 <= i <= s.len(),
        forall|j: int| 0 <= j < i ==> s[j] != x,
        i < s.len() ==> s[i] == x,
    ensures
        first_index(s, x) == (if i < s.len() { Some(i) } else { None::<int> }),
{
    lemma_first_index(s, x);
}

/// `PathBuf::join` on text: an absolute `part` replaces `base`; otherwise
/// `part` follows `base`, with one `/` between them where `base` is not empty
/// and does not end with one.
pub open spec fn path_join_spec(base: Seq<char>, part: Seq<char>) -> Seq<char> {
    if part.len() > 0 && part[0] == '/' {
        part
    } else if base.len() == 0 {
        part
    } else if base.last() == '/' {
        base + part
    } else {
        base + seq!['/'] + part
    }
}

/// Joins a path and a relative or absolute part as `PathBuf::join` does.
pub fn path_join(base: &str, part: &str) -> (r: String)
    ensures
        r@ == path_join_spec(base@, part@),
{
    let b = chars_of(base);
    let p = chars_of(part);
    if p.len() > 0 && p[0] == '/' {
        return owned(part);
    }
    if b.len() == 0 {
        return owned(part);
    }
    let mut r = owned(base);
    if b[b.len() - 1] != '/' {
        push_char(&mut r, '/');
    }
    r.append(part);
    r
}

/// A copy of a list of strings.
pub fn copy_strings(v: &Vec<String>) -> (r: Vec<String>)
    ensures
        string_views(r@) == string_views(v@),
{
    let mut out: Vec<String> = Vec::new();
    let mut i: usize = 0;
    while i < v.len()
        invariant
            i <= v@.len(),
            out@.len() == i,
            forall|j: int| 0 <= j < i ==> #[trigger] out@[j]@ == v@[j]@,
        decreases v@.len() - i,
    {
        out.push(owned(v[i].as_str()));
        i = i + 1;
    }
    assert(string_views(out@) =~= string_views(v@));
    out
}

/// The maximal runs of non-white-space characters of `s`, in order
/// (`str::split_whitespace`).
pub open spec fn words_spec(s: Seq<char>) -> Seq<Seq<char>>
    decreases s.len(),
{
    if s.len() == 0 {
        seq![]
    } else {
        let rest = words_spec(s.drop_last());
        let c = s.last();
        if is_space(c) {
            rest
        } else if s.len() >= 2 && !is_space(s[s.len() - 2]) && rest.len() > 0 {
            rest.update(rest.len() - 1, rest.last().push(c))
        } else {
            rest.push(seq![c])
        }
    }
}

/// The words of `s`, as `str::split_whitespace` gives them.
pub fn words_of(s: &Vec<char>) -> (r: Vec<Vec<char>>)
    ensures
        char_vec_views(r@) == words_spec(s@),
{
    let mut out: Vec<Vec<char>> = Vec::new();
    let mut i: usize = 0;
    while i < s.len()
        invariant
            i <= s@.len(),
            char_vec_views(out@) == words_spec(s@.take(i as int)),
            i > 0 && !is_space(s@[i - 1]) ==> out@.len() > 0,
        decreases s@.len() - i,
    {
        let ghost before = char_vec_views(out@);
        assert(s@.take(i + 1).drop_last() =~= s@.take(i as int));
        assert(s@.take(i + 1).last() == s@[i as int]);
        let c: char = s[i];
        if is_space_char(c) {
        } else if i > 0 && !is_space_char(s[i - 1]) && out.len() > 0 {
            assert(s@.take(i + 1)[i - 1] == s@[i - 1]);
            let mut w = out.pop().unwrap();
            w.push(c);
            out.push(w);
            assert(char_vec_views(out@) =~= before.update(before.len() - 1, before.last().push(c)));
        } else {
            if i > 0 {
                assert(s@.take(i + 1)[i - 1] == s@[i - 1]);
            }
            let mut w: Vec<char> = Vec::new();
            w.push(c);
            assert(w@ =~= seq![c]);
            out.push(w);
            assert(char_vec_views(out@) =~= before.push(seq![c]));
        }
        i = i + 1;
    }
    assert(s@.take(s@.len() as int) =~= s@);
    out
}

} // verus!
