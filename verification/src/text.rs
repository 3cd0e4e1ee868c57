//! Character-level text utilities with exact specifications.
//!
//! Strings are modelled by their `Seq<char>` view; every function here states
//! its result over that view.

use vstd::prelude::*;
use vstd::std_specs::iter::IteratorSpec;

verus! {

/// The characters of a string, in order.
pub fn chars_of(s: &str) -> (v: Vec<char>)
    ensures
        v@ == s@,
{
    let mut v: Vec<char> = Vec::new();
    for c in it: s.chars()
        invariant
            v@ == it.seq().take(it.index()),
    {
        v.push(c);
    }
    v
}

/// Builds a `String` holding exactly the given characters.
///
/// Calls `String::from_iter` on the characters; std documents that collecting
/// characters into a `String` concatenates them in order.
#[verifier::external_body]
pub fn string_of(v: &[char]) -> (s: String)
    ensures
        s@ == v@,
{
    String::from_iter(v.iter())
}


/// Appends every character of `t` to `out`.
pub fn push_all(out: &mut Vec<char>, t: &[char])
    ensures
        final(out)@ == old(out)@ + t@,
{
    let mut j: usize = 0;
    while j < t.len()
        invariant
            j <= t@.len(),
            out@ == old(out)@ + t@.take(j as int),
        decreases t@.len() - j,
    {
        out.push(t[j]);
        j += 1;
        assert(t@.take(j as int) =~= t@.take(j - 1 as int).push(t@[j - 1]));
    }
    assert(t@.take(j as int) =~= t@);
}

/// Whether `pat` occurs in `s` starting at index `i`.
pub fn occurs_at(s: &[char], i: usize, pat: &[char]) -> (b: bool)
    requires
        i + pat@.len() <= s@.len(),
    ensures
        b == (s@.subrange(i as int, i + pat@.len()) == pat@),
{
    let m = pat.len();
    let mut j: usize = 0;
    while j < m
        invariant
            m == pat@.len(),
            i + m <= s.len(),
            j <= m,
            s@.subrange(i as int, i + j) == pat@.take(j as int),
        decreases m - j,
    {
        if s[i + j] != pat[j] {
            assert(s@.subrange(i as int, i + m)[j as int] != pat@[j as int]);
            return false;
        }
        j += 1;
        assert(s@.subrange(i as int, i + j) =~= pat@.take(j as int));
    }
    assert(pat@.take(m as int) =~= pat@);
    true
}

/// `s` with each occurrence of `from`, found left to right without overlap,
/// replaced by `to`. An empty `from` leaves `s` unchanged.
pub open spec fn replaced(s: Seq<char>, from: Seq<char>, to: Seq<char>) -> Seq<char>
    decreases s.len(),
{
    if from.len() == 0 || s.len() < from.len() {
        s
    } else if s.take(from.len() as int) == from {
        to + replaced(s.skip(from.len() as int), from, to)
    } else {
        seq![s[0]] + replaced(s.skip(1), from, to)
    }
}

/// Whether `pat` occurs anywhere in `s`.
pub open spec fn contains_seq(s: Seq<char>, pat: Seq<char>) -> bool {
    exists|i: int| 0 <= i && i + pat.len() <= s.len() && #[trigger] s.subrange(i, i + pat.len()) == pat
}

/// Replaces every occurrence of the non-empty pattern `from` in `s` by `to`,
/// scanning from the left as `str::replace` does.
pub fn replace_all(s: &str, from: &str, to: &str) -> (r: String)
    requires
        from@.len() > 0,
    ensures
        r@ == replaced(s@, from@, to@),
{
    let sv = chars_of(s);
    let fv = chars_of(from);
    let tv = chars_of(to);
    let out = replace_chars(&sv, &fv, &tv);
    string_of(&out)
}

/// Character-vector form of [`replace_all`].
pub fn replace_chars(sv: &[char], fv: &[char], tv: &[char]) -> (out: Vec<char>)
    requires
        fv@.len() > 0,
    ensures
        out@ == replaced(sv@, fv@, tv@),
{
    let n = sv.len();
    let m = fv.len();
    let mut out: Vec<char> = Vec::new();
    let mut i: usize = 0;
    assert(sv@.skip(0) =~= sv@);
    while i < n
        invariant
            n == sv@.len(),
            m == fv@.len(),
            m > 0,
            i <= n,
            out@ + replaced(sv@.skip(i as int), fv@, tv@) == replaced(sv@, fv@, tv@),
        decreases n - i,
    {
        let rest = Ghost(sv@.skip(i as int));
        if n - i >= m && occurs_at(sv, i, fv) {
            assert(rest@.take(m as int) =~= sv@.subrange(i as int, i + m));
            assert(rest@.skip(m as int) =~= sv@.skip(i + m));
            push_all(&mut out, tv);
            i += m;
            assert(out@ + replaced(sv@.skip(i as int), fv@, tv@) =~= replaced(sv@, fv@, tv@));
        } else {
            if n - i >= m {
                assert(rest@.take(m as int) =~= sv@.subrange(i as int, i + m));
            } else {
                assert(rest@ =~= seq![sv@[i as int]] + sv@.skip(i + 1));
                assert(replaced(sv@.skip(i + 1), fv@, tv@) == sv@.skip(i + 1));
            }
            assert(rest@.skip(1) =~= sv@.skip(i + 1));
            out.push(sv[i]);
            i += 1;
            assert(out@ + replaced(sv@.skip(i as int), fv@, tv@) =~= replaced(sv@, fv@, tv@));
        }
    }
    assert(sv@.skip(n as int) =~= Seq::<char>::empty());
    assert(out@ + replaced(sv@.skip(n as int), fv@, tv@) =~= out@);
    out
}


/// The character views of a list of strings.
pub open spec fn views(v: Seq<String>) -> Seq<Seq<char>> {
    v.map_values(|x: String| x@)
}

/// The parts separated by `sep`; no parts give the empty text.
pub open spec fn joined(parts: Seq<Seq<char>>, sep: Seq<char>) -> Seq<char>
    decreases parts.len(),
{
    if parts.len() == 0 {
        Seq::empty()
    } else if parts.len() == 1 {
        parts[0]
    } else {
        joined(parts.drop_last(), sep) + sep + parts.last()
    }
}

/// Joins the strings with `sep` between neighbours, as `[String]::join` does.
pub fn join(parts: &Vec<String>, sep: &str) -> (r: String)
    ensures
        r@ == joined(views(parts@), sep@),
{
    let mut r = String::new();
    let mut i: usize = 0;
    while i < parts.len()
        invariant
            i <= parts@.len(),
            r@ == joined(views(parts@).take(i as int), sep@),
        decreases parts@.len() - i,
    {
        let ghost before = views(parts@).take(i as int);
        if i > 0 {
            r.append(sep);
        }
        r.append(parts[i].as_str());
        i += 1;
        proof {
            let now = views(parts@).take(i as int);
            assert(now.drop_last() =~= before);
            if i == 1 {
                assert(r@ =~= now[0]);
            }
        }
    }
    assert(views(parts@).take(parts@.len() as int) =~= views(parts@));
    r
}

/// Whether two character sequences are equal.
pub fn same_chars(a: &[char], b: &[char]) -> (r: bool)
    ensures
        r == (a@ == b@),
{
    if a.len() != b.len() {
        return false;
    }
    let mut i: usize = 0;
    while i < a.len()
        invariant
            a@.len() == b@.len(),
            i <= a@.len(),
            a@.take(i as int) == b@.take(i as int),
        decreases a@.len() - i,
    {
        if a[i] != b[i] {
            return false;
        }
        i += 1;
        assert(a@.take(i as int) =~= b@.take(i as int));
    }
    assert(a@ =~= a@.take(i as int));
    assert(b@ =~= b@.take(i as int));
    true
}

/// Whether the string `a` holds exactly the characters of `b`.
pub fn str_eq(a: &str, b: &str) -> (r: bool)
    ensures
        r == (a@ == b@),
{
    let av = chars_of(a);
    let bv = chars_of(b);
    same_chars(&av, &bv)
}

/// Unicode lowercase mapping of a string, as `str::to_lowercase` computes it.
pub uninterp spec fn str_lowercase(s: Seq<char>) -> Seq<char>;

/// Lowercases a string.
///
/// Calls `str::to_lowercase`. The contract names the result as the Unicode
/// lowercase mapping of the input and claims nothing more about it.
#[verifier::external_body]
pub fn to_lowercase(s: &str) -> (r: String)
    ensures
        r@ == str_lowercase(s@),
{
    s.to_lowercase()
}


/// The character views of a list of character vectors.
pub open spec fn vviews(v: Seq<Vec<char>>) -> Seq<Seq<char>> {
    v.map_values(|x: Vec<char>| x@)
}

/// The pieces of `s` between occurrences of `sep`, given that `cur` holds the
/// piece read so far; as `str::split` with a character, `n` separators give
/// `n + 1` pieces.
pub open spec fn split_from(s: Seq<char>, sep: char, cur: Seq<char>) -> Seq<Seq<char>>
    decreases s.len(),
{
    if s.len() == 0 {
        seq![cur]
    } else if s[0] == sep {
        seq![cur] + split_from(s.skip(1), sep, Seq::empty())
    } else {
        split_from(s.skip(1), sep, cur.push(s[0]))
    }
}

/// The pieces of `s` between occurrences of `sep`.
pub open spec fn split(s: Seq<char>, sep: char) -> Seq<Seq<char>> {
    split_from(s, sep, Seq::empty())
}

/// The non-empty pieces of `s` between occurrences of `sep`.
pub open spec fn nonempty_pieces(s: Seq<char>, sep: char) -> Seq<Seq<char>> {
    split(s, sep).filter(|p: Seq<char>| p.len() > 0)
}

proof fn lemma_split_step(s: Seq<char>, i: int, sep: char, cur: Seq<char>)
    requires
        0 <= i < s.len(),
    ensures
        s[i] == sep ==> split_from(s.skip(i), sep, cur) == seq![cur] + split_from(s.skip(i + 1), sep, Seq::empty()),
        s[i] != sep ==> split_from(s.skip(i), sep, cur) == split_from(s.skip(i + 1), sep, cur.push(s[i])),
{
    assert(s.skip(i).skip(1) =~= s.skip(i + 1));
    assert(s.skip(i)[0] == s[i]);
}

/// Splits `s` at every occurrence of `sep`, as `str::split` does.
pub fn split_chars(s: &[char], sep: char) -> (r: Vec<Vec<char>>)
    ensures
        vviews(r@) == split(s@, sep),
{
    let n = s.len();
    let mut done: Vec<Vec<char>> = Vec::new();
    let mut cur: Vec<char> = Vec::new();
    let mut i: usize = 0;
    assert(s@.skip(0) =~= s@);
    while i < n
        invariant
            n == s@.len(),
            i <= n,
            vviews(done@) + split_from(s@.skip(i as int), sep, cur@) == split(s@, sep),
        decreases n - i,
    {
        proof {
            lemma_split_step(s@, i as int, sep, cur@);
        }
        if s[i] == sep {
            let ghost old_done = vviews(done@);
            let piece = cur;
            cur = Vec::new();
            done.push(piece);
            assert(vviews(done@) =~= old_done + seq![piece@]);
            assert(cur@ =~= Seq::<char>::empty());
        } else {
            cur.push(s[i]);
        }
        i += 1;
    }
    assert(s@.skip(n as int) =~= Seq::<char>::empty());
    let ghost before = vviews(done@);
    done.push(cur);
    assert(vviews(done@) =~= before + seq![cur@]);
    done
}

/// Keeps the non-empty pieces, in order.
pub fn keep_nonempty(v: Vec<Vec<char>>) -> (r: Vec<Vec<char>>)
    ensures
        vviews(r@) == vviews(v@).filter(|p: Seq<char>| p.len() > 0),
{
    let mut r: Vec<Vec<char>> = Vec::new();
    let mut i: usize = 0;
    let n = v.len();
    while i < n
        invariant
            n == v@.len(),
            i <= n,
            vviews(r@) == vviews(v@).take(i as int).filter(|p: Seq<char>| p.len() > 0),
        decreases n - i,
    {
        let piece = v[i].clone();
        proof {
            let t = vviews(v@).take(i + 1);
            assert(t.drop_last() =~= vviews(v@).take(i as int));
            assert(t.last() == v@[i as int]@);
            reveal(Seq::filter);
        }
        if piece.len() > 0 {
            let ghost before = vviews(r@);
            r.push(piece);
            assert(vviews(r@) =~= before.push(v@[i as int]@));
        }
        i += 1;
    }
    assert(vviews(v@).take(n as int) =~= vviews(v@));
    r
}


/// Whether a character has the Unicode `White_Space` property: the ASCII
/// controls tab through carriage return, the space, and the separators that
/// the Unicode character database lists under `White_Space`.
pub open spec fn unicode_whitespace(c: char) -> bool {
    let u = c as u32;
    ||| 0x09 <= u <= 0x0D
    ||| u == 0x20
    ||| u == 0x85
    ||| u == 0xA0
    ||| u == 0x1680
    ||| 0x2000 <= u <= 0x200A
    ||| u == 0x2028
    ||| u == 0x2029
    ||| u == 0x202F
    ||| u == 0x205F
    ||| u == 0x3000
}

/// Whether a character is Unicode alphabetic or numeric.
pub uninterp spec fn unicode_alphanumeric(c: char) -> bool;

/// Tests a character for the Unicode `White_Space` property, as
/// `char::is_whitespace` does.
pub fn is_whitespace(c: char) -> (b: bool)
    ensures
        b == unicode_whitespace(c),
{
    let u = c as u32;
    (0x09 <= u && u <= 0x0D) || u == 0x20 || u == 0x85 || u == 0xA0 || u == 0x1680 || (0x2000 <= u && u <= 0x200A)
        || u == 0x2028 || u == 0x2029 || u == 0x202F || u == 0x205F || u == 0x3000
}

/// Tests whether a character is Unicode alphabetic or numeric.
///
/// Calls `char::is_alphanumeric`; the result is named, not restated.
#[verifier::external_body]
pub fn is_alphanumeric(c: char) -> (b: bool)
    ensures
        b == unicode_alphanumeric(c),
{
    c.is_alphanumeric()
}

/// Number of leading whitespace characters of `s`.
pub open spec fn leading_ws(s: Seq<char>) -> nat
    decreases s.len(),
{
    if s.len() > 0 && unicode_whitespace(s[0]) { 1 + leading_ws(s.skip(1)) } else { 0 }
}

/// Number of trailing whitespace characters of `s`.
pub open spec fn trailing_ws(s: Seq<char>) -> nat
    decreases s.len(),
{
    if s.len() > 0 && unicode_whitespace(s.last()) { 1 + trailing_ws(s.drop_last()) } else { 0 }
}

/// `s` without leading and trailing whitespace, as `str::trim` gives it.
pub open spec fn trimmed(s: Seq<char>) -> Seq<char> {
    let a = leading_ws(s) as int;
    if a == s.len() {
        Seq::empty()
    } else {
        s.subrange(a, s.len() - trailing_ws(s) as int)
    }
}

proof fn lemma_leading_ws_bound(s: Seq<char>)
    ensures
        leading_ws(s) <= s.len(),
        forall|j: int| 0 <= j < leading_ws(s) ==> unicode_whitespace(#[trigger] s[j]),
        leading_ws(s) < s.len() ==> !unicode_whitespace(s[leading_ws(s) as int]),
    decreases s.len(),
{
    if s.len() > 0 && unicode_whitespace(s[0]) {
        lemma_leading_ws_bound(s.skip(1));
        assert forall|j: int| 0 <= j < leading_ws(s) implies unicode_whitespace(#[trigger] s[j]) by {
            if j > 0 {
                assert(s[j] == s.skip(1)[j - 1]);
            }
        }
    }
}

pub proof fn lemma_leading_ws_prefix(s: Seq<char>, i: int)
    requires
        0 <= i <= s.len(),
        forall|j: int| 0 <= j < i ==> unicode_whitespace(#[trigger] s[j]),
        i < s.len() ==> !unicode_whitespace(s[i]),
    ensures
        leading_ws(s) == i,
    decreases i,
{
    if i > 0 {
        assert forall|j: int| 0 <= j < i - 1 implies unicode_whitespace(#[trigger] s.skip(1)[j]) by {
            assert(s.skip(1)[j] == s[j + 1]);
        }
        if i - 1 < s.len() - 1 {
            assert(s.skip(1)[i - 1] == s[i]);
        }
        lemma_leading_ws_prefix(s.skip(1), i - 1);
    }
}

proof fn lemma_trailing_ws_suffix(s: Seq<char>, e: int)
    requires
        0 <= e <= s.len(),
        forall|j: int| e <= j < s.len() ==> unicode_whitespace(#[trigger] s[j]),
        e > 0 ==> !unicode_whitespace(s[e - 1]),
    ensures
        trailing_ws(s) == s.len() - e,
    decreases s.len() - e,
{
    if e < s.len() {
        assert forall|j: int| e <= j < s.len() - 1 implies unicode_whitespace(#[trigger] s.drop_last()[j]) by {
            assert(s.drop_last()[j] == s[j]);
        }
        if e > 0 {
            assert(s.drop_last()[e - 1] == s[e - 1]);
        }
        lemma_trailing_ws_suffix(s.drop_last(), e);
    }
}

proof fn lemma_trailing_ws_bound(s: Seq<char>)
    ensures
        trailing_ws(s) <= s.len(),
        forall|j: int| s.len() - trailing_ws(s) <= j < s.len() ==> unicode_whitespace(#[trigger] s[j]),
        trailing_ws(s) < s.len() ==> !unicode_whitespace(s[s.len() - trailing_ws(s) - 1]),
    decreases s.len(),
{
    if s.len() > 0 && unicode_whitespace(s.last()) {
        lemma_trailing_ws_bound(s.drop_last());
        assert forall|j: int| s.len() - trailing_ws(s) <= j < s.len() implies unicode_whitespace(#[trigger] s[j]) by {
            if j < s.len() - 1 {
                assert(s[j] == s.drop_last()[j]);
            }
        }
        if trailing_ws(s) < s.len() {
            assert(s[s.len() - trailing_ws(s) - 1] == s.drop_last()[s.drop_last().len() - trailing_ws(s.drop_last()) - 1]);
        }
    }
}

/// A text that is empty, or that neither starts nor ends with whitespace,
/// is its own trimmed form.
pub proof fn lemma_trimmed_plain(s: Seq<char>)
    requires
        s.len() > 0 ==> !unicode_whitespace(s[0]) && !unicode_whitespace(s.last()),
    ensures
        trimmed(s) == s,
{
    if s.len() > 0 {
        assert(leading_ws(s) == 0);
        assert(trailing_ws(s) == 0);
        assert(s.subrange(0, s.len() as int) =~= s);
    } else {
        assert(s =~= Seq::<char>::empty());
    }
}

/// Trimming twice gives what trimming once gives.
pub proof fn lemma_trimmed_idempotent(s: Seq<char>)
    ensures
        trimmed(trimmed(s)) == trimmed(s),
        trimmed(s).len() > 0 ==> !unicode_whitespace(trimmed(s)[0]) && !unicode_whitespace(trimmed(s).last()),
{
    lemma_leading_ws_bound(s);
    lemma_trailing_ws_bound(s);
    let a = leading_ws(s) as int;
    if a < s.len() {
        assert(a < s.len() - trailing_ws(s));
        let t = trimmed(s);
        assert(t[0] == s[a]);
        assert(t.last() == s[s.len() - trailing_ws(s) - 1]);
    }
    lemma_trimmed_plain(trimmed(s));
}

/// A whitespace character splits the tokens of a text in two.
pub proof fn lemma_tokens_around(a: Seq<char>, c: char, b: Seq<char>, cur: Seq<char>)
    requires
        unicode_whitespace(c),
    ensures
        tokens_from(a + seq![c] + b, cur) == tokens_from(a, cur) + tokens(b),
    decreases a.len(),
{
    let s = a + seq![c] + b;
    if a.len() == 0 {
        assert(s.skip(1) =~= b);
        assert(s[0] == c);
    } else {
        assert(s[0] == a[0]);
        assert(s.skip(1) =~= a.skip(1) + seq![c] + b);
        if unicode_whitespace(a[0]) {
            lemma_tokens_around(a.skip(1), c, b, Seq::empty());
            let head: Seq<Seq<char>> = if cur.len() > 0 { seq![cur] } else { Seq::empty() };
            assert(head + (tokens_from(a.skip(1), Seq::empty()) + tokens(b)) =~= (head + tokens_from(a.skip(1), Seq::empty())) + tokens(b));
        } else {
            lemma_tokens_around(a.skip(1), c, b, cur.push(a[0]));
        }
    }
}

/// A text without whitespace continues the token being read.
pub proof fn lemma_tokens_single(f: Seq<char>, cur: Seq<char>)
    requires
        forall|i: int| 0 <= i < f.len() ==> !unicode_whitespace(#[trigger] f[i]),
        cur.len() + f.len() > 0,
    ensures
        tokens_from(f, cur) == seq![cur + f],
    decreases f.len(),
{
    if f.len() == 0 {
        assert(cur + f =~= cur);
    } else {
        assert(!unicode_whitespace(f[0]));
        assert forall|i: int| 0 <= i < f.skip(1).len() implies !unicode_whitespace(#[trigger] f.skip(1)[i]) by {
            assert(f.skip(1)[i] == f[i + 1]);
        }
        lemma_tokens_single(f.skip(1), cur.push(f[0]));
        assert(cur.push(f[0]) + f.skip(1) =~= cur + f);
    }
}

/// Whether a text is a single token: not empty, without whitespace.
pub open spec fn plain_token(t: Seq<char>) -> bool {
    t.len() > 0 && forall|i: int| 0 <= i < t.len() ==> !unicode_whitespace(#[trigger] t[i])
}

/// Every token read from a text is a plain token.
pub proof fn lemma_tokens_from_plain(s: Seq<char>, cur: Seq<char>)
    requires
        forall|i: int| 0 <= i < cur.len() ==> !unicode_whitespace(#[trigger] cur[i]),
    ensures
        forall|k: int| 0 <= k < tokens_from(s, cur).len() ==> plain_token(#[trigger] tokens_from(s, cur)[k]),
    decreases s.len(),
{
    if s.len() == 0 {
        assert forall|k: int| 0 <= k < tokens_from(s, cur).len() implies plain_token(#[trigger] tokens_from(s, cur)[k]) by {
            assert(tokens_from(s, cur)[k] == cur);
        }
    } else if unicode_whitespace(s[0]) {
        lemma_tokens_from_plain(s.skip(1), Seq::empty());
        let head: Seq<Seq<char>> = if cur.len() > 0 { seq![cur] } else { Seq::empty() };
        let rest = tokens_from(s.skip(1), Seq::empty());
        assert forall|k: int| 0 <= k < tokens_from(s, cur).len() implies plain_token(#[trigger] tokens_from(s, cur)[k]) by {
            assert(tokens_from(s, cur) == head + rest);
            if k < head.len() {
                assert(tokens_from(s, cur)[k] == cur);
            } else {
                assert(tokens_from(s, cur)[k] == rest[k - head.len()]);
            }
        }
    } else {
        let next = cur.push(s[0]);
        assert forall|i: int| 0 <= i < next.len() implies !unicode_whitespace(#[trigger] next[i]) by {
            if i < cur.len() {
                assert(next[i] == cur[i]);
            }
        }
        lemma_tokens_from_plain(s.skip(1), next);
        assert(tokens_from(s, cur) == tokens_from(s.skip(1), next));
    }
}

/// Joining plain tokens with single spaces and reading the tokens back
/// gives the same tokens.
pub proof fn lemma_tokens_of_joined(ts: Seq<Seq<char>>)
    requires
        forall|k: int| 0 <= k < ts.len() ==> plain_token(#[trigger] ts[k]),
    ensures
        tokens(joined(ts, " "@)) == ts,
    decreases ts.len(),
{
    reveal_strlit(" ");
    if ts.len() == 0 {
        assert(tokens(Seq::<char>::empty()) =~= Seq::<Seq<char>>::empty());
    } else if ts.len() == 1 {
        assert(plain_token(ts[0]));
        lemma_tokens_single(ts[0], Seq::empty());
        assert(Seq::<char>::empty() + ts[0] =~= ts[0]);
        assert(tokens(joined(ts, " "@)) =~= ts);
    } else {
        let init = ts.drop_last();
        assert forall|k: int| 0 <= k < init.len() implies plain_token(#[trigger] init[k]) by {
            assert(init[k] == ts[k]);
        }
        lemma_tokens_of_joined(init);
        assert(plain_token(ts.last()));
        assert(" "@ =~= seq![' ']);
        assert(unicode_whitespace(' '));
        lemma_tokens_around(joined(init, " "@), ' ', ts.last(), Seq::empty());
        lemma_tokens_single(ts.last(), Seq::empty());
        assert(Seq::<char>::empty() + ts.last() =~= ts.last());
        assert(joined(ts, " "@) == joined(init, " "@) + seq![' '] + ts.last());
        assert(tokens(joined(ts, " "@)) =~= ts);
    }
}

/// Removes leading and trailing whitespace.
pub fn trim_chars(s: &[char]) -> (r: Vec<char>)
    ensures
        r@ == trimmed(s@),
{
    let n = s.len();
    let mut a: usize = 0;
    while a < n && is_whitespace(s[a])
        invariant
            n == s@.len(),
            a <= n,
            forall|j: int| 0 <= j < a ==> unicode_whitespace(#[trigger] s@[j]),
        decreases n - a,
    {
        a += 1;
    }
    proof {
        lemma_leading_ws_prefix(s@, a as int);
    }
    let mut r: Vec<char> = Vec::new();
    if a == n {
        return r;
    }
    let mut e: usize = n;
    while e > a && is_whitespace(s[e - 1])
        invariant
            n == s@.len(),
            a < n,
            !unicode_whitespace(s@[a as int]),
            a < e <= n,
            forall|j: int| e <= j < n ==> unicode_whitespace(#[trigger] s@[j]),
        decreases e,
    {
        e -= 1;
    }
    proof {
        lemma_trailing_ws_suffix(s@, e as int);
    }
    let mut k: usize = a;
    while k < e
        invariant
            a <= k <= e <= n,
            n == s@.len(),
            r@ == s@.subrange(a as int, k as int),
        decreases e - k,
    {
        r.push(s[k]);
        k += 1;
        assert(r@ =~= s@.subrange(a as int, k as int));
    }
    r
}


/// The decimal digit character for `d < 10`.
pub open spec fn digit_char(d: nat) -> char {
    if d == 0 { '0' } else if d == 1 { '1' } else if d == 2 { '2' } else if d == 3 { '3' }
    else if d == 4 { '4' } else if d == 5 { '5' } else if d == 6 { '6' } else if d == 7 { '7' }
    else if d == 8 { '8' } else { '9' }
}

/// The decimal notation of `n`, without leading zeros.
pub open spec fn decimal(n: nat) -> Seq<char>
    decreases n,
{
    if n < 10 {
        seq![digit_char(n)]
    } else {
        decimal(n / 10).push(digit_char(n % 10))
    }
}

fn digit(d: u64) -> (c: char)
    requires
        d < 10,
    ensures
        c == digit_char(d as nat),
{
    if d == 0 { '0' } else if d == 1 { '1' } else if d == 2 { '2' } else if d == 3 { '3' }
    else if d == 4 { '4' } else if d == 5 { '5' } else if d == 6 { '6' } else if d == 7 { '7' }
    else if d == 8 { '8' } else { '9' }
}

/// The decimal digits of `n`.
pub fn decimal_chars(n: u64) -> (r: Vec<char>)
    ensures
        r@ == decimal(n as nat),
    decreases n,
{
    if n < 10 {
        let mut r: Vec<char> = Vec::new();
        r.push(digit(n));
        assert(r@ =~= seq![digit_char(n as nat)]);
        r
    } else {
        let mut r = decimal_chars(n / 10);
        r.push(digit(n % 10));
        r
    }
}

/// The decimal notation of `n` as a string, as `to_string` writes it.
pub fn decimal_string(n: u64) -> (r: String)
    ensures
        r@ == decimal(n as nat),
{
    let v = decimal_chars(n);
    string_of(&v)
}

/// The whitespace-separated tokens of `s`, given that `cur` holds the token
/// read so far; as `str::split_whitespace`, no token is empty.
pub open spec fn tokens_from(s: Seq<char>, cur: Seq<char>) -> Seq<Seq<char>>
    decreases s.len(),
{
    if s.len() == 0 {
        if cur.len() > 0 { seq![cur] } else { Seq::empty() }
    } else if unicode_whitespace(s[0]) {
        (if cur.len() > 0 { seq![cur] } else { Seq::empty() }) + tokens_from(s.skip(1), Seq::empty())
    } else {
        tokens_from(s.skip(1), cur.push(s[0]))
    }
}

/// The whitespace-separated tokens of `s`.
pub open spec fn tokens(s: Seq<char>) -> Seq<Seq<char>> {
    tokens_from(s, Seq::empty())
}

/// Splits `s` into its whitespace-separated tokens.
pub fn split_whitespace(s: &[char]) -> (r: Vec<Vec<char>>)
    ensures
        vviews(r@) == tokens(s@),
{
    let n = s.len();
    let mut done: Vec<Vec<char>> = Vec::new();
    let mut cur: Vec<char> = Vec::new();
    let mut i: usize = 0;
    assert(s@.skip(0) =~= s@);
    while i < n
        invariant
            n == s@.len(),
            i <= n,
            vviews(done@) + tokens_from(s@.skip(i as int), cur@) == tokens(s@),
        decreases n - i,
    {
        assert(s@.skip(i as int).skip(1) =~= s@.skip(i + 1));
        assert(s@.skip(i as int)[0] == s@[i as int]);
        if is_whitespace(s[i]) {
            if cur.len() > 0 {
                let ghost old_done = vviews(done@);
                let piece = cur;
                cur = Vec::new();
                done.push(piece);
                assert(vviews(done@) =~= old_done + seq![piece@]);
            } else {
                assert(vviews(done@) + tokens_from(s@.skip(i + 1), cur@) =~= vviews(done@) + (Seq::<Seq<char>>::empty() + tokens_from(s@.skip(i + 1), cur@)));
            }
            assert(cur@ =~= Seq::<char>::empty());
        } else {
            cur.push(s[i]);
        }
        i += 1;
    }
    assert(s@.skip(n as int) =~= Seq::<char>::empty());
    if cur.len() > 0 {
        let ghost before = vviews(done@);
        done.push(cur);
        assert(vviews(done@) =~= before + seq![cur@]);
    } else {
        assert(vviews(done@) =~= vviews(done@) + Seq::<Seq<char>>::empty());
    }
    done
}

/// The lines of `s`, as `str::lines` yields them: pieces between newlines,
/// without a final empty piece, and without the carriage return of a
/// `\r\n` ending.
pub open spec fn lines(s: Seq<char>) -> Seq<Seq<char>> {
    let pieces = split(s, '\n');
    let kept = if pieces.last().len() == 0 { pieces.drop_last() } else { pieces };
    Seq::new(kept.len(), |i: int| if i < pieces.len() - 1 && kept[i].len() > 0 && kept[i].last() == '\r' {
        kept[i].drop_last()
    } else {
        kept[i]
    })
}

/// Splits `s` into lines.
pub fn split_lines(s: &[char]) -> (r: Vec<Vec<char>>)
    ensures
        vviews(r@) == lines(s@),
{
    let pieces = split_chars(s, '\n');
    let ghost pv = vviews(pieces@);
    proof {
        lemma_split_nonempty(s@, '\n', Seq::empty());
    }
    let total = pieces.len();
    let keep = if pieces[total - 1].len() == 0 { total - 1 } else { total };
    let mut r: Vec<Vec<char>> = Vec::new();
    let mut i: usize = 0;
    while i < keep
        invariant
            pv == vviews(pieces@),
            total == pieces@.len(),
            total > 0,
            keep <= total,
            keep == (if pv.last().len() == 0 { total - 1 } else { total as int }),
            i <= keep,
            r@.len() == i,
            forall|j: int| 0 <= j < i ==> (#[trigger] r@[j])@ == (if j < total - 1 && pv[j].len() > 0 && pv[j].last() == '\r' {
                pv[j].drop_last()
            } else {
                pv[j]
            }),
        decreases keep - i,
    {
        let mut line = pieces[i].clone();
        assert(line@ == pv[i as int]);
        if i < total - 1 && line.len() > 0 && line[line.len() - 1] == '\r' {
            line.pop();
        }
        r.push(line);
        i += 1;
    }
    proof {
        let kept = if pv.last().len() == 0 { pv.drop_last() } else { pv };
        assert(kept.len() == keep);
        assert forall|j: int| 0 <= j < keep implies kept[j] == pv[j] by {}
        assert(vviews(r@) =~= lines(s@));
    }
    r
}

pub proof fn lemma_split_nonempty(s: Seq<char>, sep: char, cur: Seq<char>)
    ensures
        split_from(s, sep, cur).len() > 0,
    decreases s.len(),
{
    if s.len() > 0 {
        if s[0] == sep {
            lemma_split_nonempty(s.skip(1), sep, Seq::empty());
        } else {
            lemma_split_nonempty(s.skip(1), sep, cur.push(s[0]));
        }
    }
}


/// Whether `pat` occurs in `s`.
pub fn contains_chars(s: &[char], pat: &[char]) -> (r: bool)
    ensures
        r == contains_seq(s@, pat@),
{
    let n = s.len();
    let m = pat.len();
    if m > n {
        return false;
    }
    if m == 0 {
        assert(s@.subrange(0, 0 + pat@.len() as int) =~= pat@);
        return true;
    }
    let mut i: usize = 0;
    while i <= n - m
        invariant
            n == s@.len(),
            m == pat@.len(),
            1 <= m <= n,
            i <= n - m + 1,
            forall|j: int| 0 <= j < i ==> #[trigger] s@.subrange(j, j + m) != pat@,
        decreases n - m + 1 - i,
    {
        if occurs_at(s, i, pat) {
            return true;
        }
        i += 1;
    }
    false
}

/// Whether the string `pat` occurs in the string `s`.
pub fn contains_str(s: &str, pat: &str) -> (r: bool)
    ensures
        r == contains_seq(s@, pat@),
{
    let sv = chars_of(s);
    let pv = chars_of(pat);
    contains_chars(&sv, &pv)
}

/// The decimal notation of a signed number, with a leading `-` when negative.
pub open spec fn signed_decimal(n: int) -> Seq<char> {
    if n < 0 { seq!['-'] + decimal((-n) as nat) } else { decimal(n as nat) }
}

/// Writes a signed number in decimal.
pub fn signed_decimal_string(n: i64) -> (r: String)
    ensures
        r@ == signed_decimal(n as int),
{
    if n < 0 {
        let magnitude: u64 = if n == i64::MIN { 9223372036854775808u64 } else { (-n) as u64 };
        let mut v: Vec<char> = Vec::new();
        v.push('-');
        let d = decimal_chars(magnitude);
        push_all(&mut v, &d);
        assert(v@ =~= seq!['-'] + decimal((-n) as nat));
        string_of(&v)
    } else {
        decimal_string(n as u64)
    }
}

/// Concatenates two strings.
pub fn concat2(a: &str, b: &str) -> (r: String)
    ensures
        r@ == a@ + b@,
{
    let mut r = String::from_str(a);
    r.append(b);
    r
}

/// Concatenates three strings.
pub fn concat3(a: &str, b: &str, c: &str) -> (r: String)
    ensures
        r@ == a@ + b@ + c@,
{
    let mut r = String::from_str(a);
    r.append(b);
    r.append(c);
    r
}

/// Trims whitespace from both ends of a string.
pub fn trim_str(s: &str) -> (r: String)
    ensures
        r@ == trimmed(s@),
{
    let v = chars_of(s);
    let t = trim_chars(&v);
    string_of(&t)
}


/// Splitting yields at least one piece.
pub proof fn lemma_split_has_piece(s: Seq<char>, sep: char)
    ensures
        split(s, sep).len() > 0,
{
    lemma_split_nonempty(s, sep, Seq::empty());
}


/// Replacing a pattern that does not occur leaves the text unchanged.
pub proof fn lemma_replaced_absent(s: Seq<char>, from: Seq<char>, to: Seq<char>)
    requires
        !contains_seq(s, from),
    ensures
        replaced(s, from, to) == s,
    decreases s.len(),
{
    if from.len() == 0 || s.len() < from.len() {
    } else {
        if s.take(from.len() as int) == from {
            assert(s.subrange(0, 0 + from.len() as int) =~= s.take(from.len() as int));
            assert(false);
        }
        assert forall|i: int| 0 <= i && i + from.len() <= s.skip(1).len() implies #[trigger] s.skip(1).subrange(i, i + from.len()) != from by {
            assert(s.skip(1).subrange(i, i + from.len()) =~= s.subrange(i + 1, i + 1 + from.len()));
        }
        lemma_replaced_absent(s.skip(1), from, to);
        assert(seq![s[0]] + s.skip(1) =~= s);
    }
}

/// A character that is in neither the text nor the replacement is not in
/// the result of a replacement.
pub proof fn lemma_replaced_keeps_absent(s: Seq<char>, from: Seq<char>, to: Seq<char>, c: char)
    requires
        !s.contains(c),
        !to.contains(c),
    ensures
        !replaced(s, from, to).contains(c),
    decreases s.len(),
{
    if from.len() == 0 || s.len() < from.len() {
    } else if s.take(from.len() as int) == from {
        lemma_replaced_keeps_absent(s.skip(from.len() as int), from, to, c);
        assert forall|i: int| 0 <= i < (to + replaced(s.skip(from.len() as int), from, to)).len()
            implies (to + replaced(s.skip(from.len() as int), from, to))[i] != c by {
            if i >= to.len() {
                assert((to + replaced(s.skip(from.len() as int), from, to))[i] == replaced(s.skip(from.len() as int), from, to)[i - to.len()]);
            }
        }
    } else {
        assert(s[0] != c);
        lemma_replaced_keeps_absent(s.skip(1), from, to, c);
        assert forall|i: int| 0 <= i < (seq![s[0]] + replaced(s.skip(1), from, to)).len()
            implies (seq![s[0]] + replaced(s.skip(1), from, to))[i] != c by {
            if i >= 1 {
                assert((seq![s[0]] + replaced(s.skip(1), from, to))[i] == replaced(s.skip(1), from, to)[i - 1]);
            }
        }
    }
}

/// Replacing every occurrence of a single character by text without that
/// character removes the character.
pub proof fn lemma_replaced_removes(s: Seq<char>, c: char, to: Seq<char>)
    requires
        !to.contains(c),
    ensures
        !replaced(s, seq![c], to).contains(c),
    decreases s.len(),
{
    if s.len() < 1 {
    } else if s.take(1) == seq![c] {
        lemma_replaced_removes(s.skip(1), c, to);
        assert forall|i: int| 0 <= i < (to + replaced(s.skip(1), seq![c], to)).len()
            implies (to + replaced(s.skip(1), seq![c], to))[i] != c by {
            if i >= to.len() {
                assert((to + replaced(s.skip(1), seq![c], to))[i] == replaced(s.skip(1), seq![c], to)[i - to.len()]);
            }
        }
    } else {
        assert(s.take(1) =~= seq![s[0]]);
        assert(s[0] != c);
        lemma_replaced_removes(s.skip(1), c, to);
        assert forall|i: int| 0 <= i < (seq![s[0]] + replaced(s.skip(1), seq![c], to)).len()
            implies (seq![s[0]] + replaced(s.skip(1), seq![c], to))[i] != c by {
            if i >= 1 {
                assert((seq![s[0]] + replaced(s.skip(1), seq![c], to))[i] == replaced(s.skip(1), seq![c], to)[i - 1]);
            }
        }
    }
}

/// A text that holds a pattern starting with two given characters holds
/// those two characters next to each other.
pub proof fn lemma_contains_prefix_pair(s: Seq<char>, p: Seq<char>)
    requires
        contains_seq(s, p),
        p.len() >= 2,
    ensures
        contains_seq(s, seq![p[0], p[1]]),
{
    let i = choose|i: int| 0 <= i && i + p.len() <= s.len() && #[trigger] s.subrange(i, i + p.len()) == p;
    assert(s.subrange(i, i + p.len())[0] == s[i]);
    assert(s.subrange(i, i + p.len())[1] == s[i + 1]);
    assert(s.subrange(i, i + seq![p[0], p[1]].len()) =~= seq![p[0], p[1]]);
}


/// Splitting text without the separator gives one piece: what was read so
/// far followed by the text.
pub proof fn lemma_split_without_separator(b: Seq<char>, sep: char, cur: Seq<char>)
    requires
        !b.contains(sep),
    ensures
        split_from(b, sep, cur) == seq![cur + b],
    decreases b.len(),
{
    if b.len() == 0 {
        assert(cur + b =~= cur);
    } else {
        assert(b[0] != sep);
        assert(!b.skip(1).contains(sep)) by {
            if b.skip(1).contains(sep) {
                let i = choose|i: int| 0 <= i < b.skip(1).len() && b.skip(1)[i] == sep;
                assert(b[i + 1] == sep);
            }
        }
        lemma_split_without_separator(b.skip(1), sep, cur.push(b[0]));
        assert(cur.push(b[0]) + b.skip(1) =~= cur + b);
    }
}

/// Appending a separator and a piece without separators appends that piece.
pub proof fn lemma_split_append(a: Seq<char>, sep: char, b: Seq<char>, cur: Seq<char>)
    requires
        !b.contains(sep),
    ensures
        split_from(a + seq![sep] + b, sep, cur) == split_from(a, sep, cur) + seq![b],
    decreases a.len(),
{
    let whole = a + seq![sep] + b;
    if a.len() == 0 {
        assert(whole =~= seq![sep] + b);
        assert(whole[0] == sep);
        assert(whole.skip(1) =~= b);
        lemma_split_without_separator(b, sep, Seq::empty());
        assert(Seq::<char>::empty() + b =~= b);
    } else {
        assert(whole[0] == a[0]);
        assert(whole.skip(1) =~= a.skip(1) + seq![sep] + b);
        if a[0] == sep {
            lemma_split_append(a.skip(1), sep, b, Seq::empty());
        } else {
            lemma_split_append(a.skip(1), sep, b, cur.push(a[0]));
        }
    }
}

/// Joining pieces that hold no separator with that separator and splitting
/// again gives the pieces back.
pub proof fn lemma_split_joined(parts: Seq<Seq<char>>, sep: char)
    requires
        parts.len() > 0,
        forall|i: int| 0 <= i < parts.len() ==> !(#[trigger] parts[i]).contains(sep),
    ensures
        split(joined(parts, seq![sep]), sep) == parts,
    decreases parts.len(),
{
    if parts.len() == 1 {
        lemma_split_without_separator(parts[0], sep, Seq::empty());
        assert(Seq::<char>::empty() + parts[0] =~= parts[0]);
        assert(seq![parts[0]] =~= parts);
    } else {
        let rest = parts.drop_last();
        assert forall|i: int| 0 <= i < rest.len() implies !(#[trigger] rest[i]).contains(sep) by {
            assert(rest[i] == parts[i]);
        }
        lemma_split_joined(rest, sep);
        assert(!parts.last().contains(sep)) by {
            assert(parts[parts.len() - 1] == parts.last());
        }
        lemma_split_append(joined(rest, seq![sep]), sep, parts.last(), Seq::empty());
        assert(rest + seq![parts.last()] =~= parts);
    }
}

/// Keeping the non-empty pieces of a list without empty pieces keeps them all.
pub proof fn lemma_filter_nonempty_all(parts: Seq<Seq<char>>)
    requires
        forall|i: int| 0 <= i < parts.len() ==> (#[trigger] parts[i]).len() > 0,
    ensures
        parts.filter(|p: Seq<char>| p.len() > 0) == parts,
    decreases parts.len(),
{
    reveal(Seq::filter);
    if parts.len() > 0 {
        let rest = parts.drop_last();
        assert forall|i: int| 0 <= i < rest.len() implies (#[trigger] rest[i]).len() > 0 by {
            assert(rest[i] == parts[i]);
        }
        lemma_filter_nonempty_all(rest);
        assert(parts[parts.len() - 1] == parts.last());
        assert(rest.push(parts.last()) =~= parts);
    }
}

} // verus!
