//! Character-level string utilities used throughout the library.

use vstd::prelude::*;
use vstd::string::*;

verus! {

/// ASCII lower-casing of one character (other characters are unchanged).
pub open spec fn ascii_lower(c: char) -> char {
    if 'A' <= c && c <= 'Z' {
        ((c as u32) + 32) as char
    } else {
        c
    }
}

/// Every character of the sequence is ASCII.
pub open spec fn all_ascii(s: Seq<char>) -> bool {
    forall|i: int| 0 <= i < s.len() ==> (s[i] as u32) < 128
}

/// ASCII lower-casing of every character of a sequence.
pub open spec fn ascii_lower_seq(s: Seq<char>) -> Seq<char> {
    s.map_values(|c: char| ascii_lower(c))
}

/// The characters of a string slice, in order.
pub fn chars_of(s: &str) -> (res: Vec<char>)
    ensures
        res@ == s@,
{
    let mut res: Vec<char> = Vec::new();
    let n = s.unicode_len();
    let mut i: usize = 0;
    while i < n
        invariant
            n == s@.len(),
            i <= n,
            res@ == s@.subrange(0, i as int),
        decreases n - i,
    {
        let c = s.get_char(i);
        res.push(c);
        i = i + 1;
    }
    res
}

/// Lower-cases one character the way ASCII case folding does.
pub fn ascii_lower_char(c: char) -> (res: char)
    ensures
        res == ascii_lower(c),
{
    if 'A' <= c && c <= 'Z' {
        let code: u32 = c as u32;
        let lowered: u8 = (code + 32) as u8;
        lowered as char
    } else {
        c
    }
}

} // verus!

verus! {

/// Whether two character sequences are equal.
pub fn chars_equal(a: &Vec<char>, b: &Vec<char>) -> (res: bool)
    ensures
        res == (a@ == b@),
{
    if a.len() != b.len() {
        return false;
    }
    let mut i: usize = 0;
    while i < a.len()
        invariant
            a@.len() == b@.len(),
            i <= a@.len(),
            forall|j: int| 0 <= j < i ==> a@[j] == b@[j],
        decreases a.len() - i,
    {
        if a[i] != b[i] {
            return false;
        }
        i = i + 1;
    }
    assert(a@ =~= b@);
    true
}

/// Whether two string slices hold the same characters.
pub fn str_equal(a: &str, b: &str) -> (res: bool)
    ensures
        res == (a@ == b@),
{
    let ca = chars_of(a);
    let cb = chars_of(b);
    chars_equal(&ca, &cb)
}

/// ASCII case-insensitive equality, character by character.
pub fn eq_ignore_ascii_case(a: &str, b: &str) -> (res: bool)
    ensures
        res == (ascii_lower_seq(a@) == ascii_lower_seq(b@)),
{
    let ca = chars_of(a);
    let cb = chars_of(b);
    if ca.len() != cb.len() {
        assert(ascii_lower_seq(a@).len() != ascii_lower_seq(b@).len());
        return false;
    }
    let mut i: usize = 0;
    while i < ca.len()
        invariant
            ca@ == a@,
            cb@ == b@,
            ca@.len() == cb@.len(),
            i <= ca@.len(),
            forall|j: int| 0 <= j < i ==> ascii_lower(ca@[j]) == ascii_lower(cb@[j]),
        decreases ca.len() - i,
    {
        let x = ascii_lower_char(ca[i]);
        let y = ascii_lower_char(cb[i]);
        if x != y {
            assert(ascii_lower_seq(a@)[i as int] != ascii_lower_seq(b@)[i as int]);
            return false;
        }
        i = i + 1;
    }
    assert(ascii_lower_seq(a@) =~= ascii_lower_seq(b@));
    true
}

/// What `str::to_lowercase` returns for a string: the Unicode lower-case mapping.
pub uninterp spec fn unicode_lowercase(s: Seq<char>) -> Seq<char>;

/// The lower-case form of a text: on an all-ASCII text the ASCII lower-casing of
/// every character, else the Unicode lower-case mapping.
pub open spec fn lowercase(s: Seq<char>) -> Seq<char> {
    if all_ascii(s) {
        ascii_lower_seq(s)
    } else {
        unicode_lowercase(s)
    }
}

/// Calls `str::to_lowercase`. Claimed: the result is `unicode_lowercase` of the
/// input, which on an all-ASCII input is the ASCII lower-casing of every character
/// (the Unicode lower-case mapping takes `A`-`Z` to `a`-`z` and leaves every other
/// ASCII character unchanged); `lowercase` states both cases.
#[verifier::external_body]
pub(crate) fn to_lowercase(s: &str) -> (res: String)
    ensures
        res@ == unicode_lowercase(s@),
        all_ascii(s@) ==> res@ == ascii_lower_seq(s@),
        res@ == lowercase(s@),
{
    s.to_lowercase()
}

/// Builds a `String` from characters (`String: FromIterator<char>`).
#[verifier::external_body]
pub(crate) fn string_from_chars(cs: &Vec<char>) -> (res: String)
    ensures
        res@ == cs@,
{
    cs.iter().collect::<String>()
}

/// The characters with the Unicode `White_Space` property (as listed in the
/// Unicode Character Database, PropList.txt).
pub open spec fn unicode_whitespace(c: char) -> bool {
    ||| ('\u{9}' <= c && c <= '\u{d}')
    ||| c == ' '
    ||| c == '\u{85}'
    ||| c == '\u{a0}'
    ||| c == '\u{1680}'
    ||| ('\u{2000}' <= c && c <= '\u{200a}')
    ||| c == '\u{2028}'
    ||| c == '\u{2029}'
    ||| c == '\u{202f}'
    ||| c == '\u{205f}'
    ||| c == '\u{3000}'
}

/// Whether a character has the Unicode `White_Space` property, as
/// `char::is_whitespace` tells it.
pub fn is_whitespace(c: char) -> (res: bool)
    ensures
        res == unicode_whitespace(c),
{
    ('\u{9}' <= c && c <= '\u{d}') || c == ' ' || c == '\u{85}' || c == '\u{a0}'
        || c == '\u{1680}' || ('\u{2000}' <= c && c <= '\u{200a}') || c == '\u{2028}'
        || c == '\u{2029}' || c == '\u{202f}' || c == '\u{205f}' || c == '\u{3000}'
}

} // verus!

verus! {

/// The views of a sequence of character vectors.
pub open spec fn char_vec_views(v: Seq<Vec<char>>) -> Seq<Seq<char>> {
    v.map_values(|x: Vec<char>| x@)
}

/// The views of a sequence of strings.
pub open spec fn string_views(v: Seq<String>) -> Seq<Seq<char>> {
    v.map_values(|x: String| x@)
}

/// The pieces of `s` between occurrences of `sep`, as `str::split` with a
/// character pattern yields them: empty pieces included, and one (empty)
/// piece for an empty input.
pub open spec fn split_on(s: Seq<char>, sep: char) -> Seq<Seq<char>>
    decreases s.len(),
{
    if s.len() == 0 {
        seq![Seq::<char>::empty()]
    } else {
        let prev = split_on(s.drop_last(), sep);
        if s.last() == sep {
            prev.push(Seq::<char>::empty())
        } else {
            prev.update(prev.len() - 1, prev.last().push(s.last()))
        }
    }
}

/// `split_on` always yields at least one piece.
pub proof fn lemma_split_nonempty(s: Seq<char>, sep: char)
    ensures
        split_on(s, sep).len() >= 1,
    decreases s.len(),
{
    if s.len() > 0 {
        lemma_split_nonempty(s.drop_last(), sep);
    }
}

/// Splits a character sequence at every `sep`.
pub fn split_chars(cs: &Vec<char>, sep: char) -> (res: Vec<Vec<char>>)
    ensures
        char_vec_views(res@) == split_on(cs@, sep),
{
    let mut done: Vec<Vec<char>> = Vec::new();
    let mut cur: Vec<char> = Vec::new();
    let mut i: usize = 0;
    proof {
        assert(cs@.subrange(0, 0) =~= Seq::<char>::empty());
        assert(char_vec_views(done@).push(cur@) =~= split_on(cs@.subrange(0, 0), sep));
    }
    while i < cs.len()
        invariant
            i <= cs@.len(),
            char_vec_views(done@).push(cur@) == split_on(cs@.subrange(0, i as int), sep),
        decreases cs.len() - i,
    {
        let c = cs[i];
        let ghost before = cs@.subrange(0, i as int);
        proof {
            assert(cs@.subrange(0, i + 1).drop_last() =~= before);
            assert(cs@.subrange(0, i + 1).last() == c);
            lemma_split_nonempty(before, sep);
        }
        if c == sep {
            let finished = cur;
            done.push(finished);
            cur = Vec::new();
            assert(char_vec_views(done@).push(cur@) =~= split_on(cs@.subrange(0, i + 1), sep));
        } else {
            let ghost old_cur = cur@;
            cur.push(c);
            assert(char_vec_views(done@).push(cur@) =~= split_on(cs@.subrange(0, i + 1), sep));
        }
        i = i + 1;
    }
    assert(cs@.subrange(0, cs@.len() as int) =~= cs@);
    done.push(cur);
    done
}

/// `s` without trailing `char::is_whitespace` characters.
pub open spec fn trim_end_spec(s: Seq<char>) -> Seq<char>
    decreases s.len(),
{
    if s.len() > 0 && unicode_whitespace(s.last()) {
        trim_end_spec(s.drop_last())
    } else {
        s
    }
}

/// `s` without leading `char::is_whitespace` characters.
pub open spec fn trim_start_spec(s: Seq<char>) -> Seq<char>
    decreases s.len(),
{
    if s.len() > 0 && unicode_whitespace(s[0]) {
        trim_start_spec(s.drop_first())
    } else {
        s
    }
}

/// `s` without leading and trailing whitespace, as `str::trim` gives it.
pub open spec fn trim_spec(s: Seq<char>) -> Seq<char> {
    trim_start_spec(trim_end_spec(s))
}

/// Removes leading and trailing whitespace.
pub fn trim_chars(cs: &Vec<char>) -> (res: Vec<char>)
    ensures
        res@ == trim_spec(cs@),
{
    let mut end: usize = cs.len();
    assert(cs@.subrange(0, end as int) =~= cs@);
    while end > 0 && is_whitespace(cs[end - 1])
        invariant
            end <= cs@.len(),
            trim_end_spec(cs@) == trim_end_spec(cs@.subrange(0, end as int)),
        decreases end,
    {
        assert(cs@.subrange(0, end as int).drop_last() =~= cs@.subrange(0, end - 1));
        end = end - 1;
    }
    let ghost t = cs@.subrange(0, end as int);
    assert(trim_end_spec(cs@) == t);
    let mut start: usize = 0;
    assert(t.subrange(0, t.len() as int) =~= t);
    while start < end && is_whitespace(cs[start])
        invariant
            start <= end <= cs@.len(),
            t == cs@.subrange(0, end as int),
            trim_start_spec(t) == trim_start_spec(t.subrange(start as int, t.len() as int)),
        decreases end - start,
    {
        assert(t.subrange(start as int, t.len() as int).drop_first() =~= t.subrange(
            start + 1,
            t.len() as int,
        ));
        start = start + 1;
    }
    let mut res: Vec<char> = Vec::new();
    let mut k: usize = start;
    while k < end
        invariant
            start <= k <= end <= cs@.len(),
            res@ == cs@.subrange(start as int, k as int),
        decreases end - k,
    {
        res.push(cs[k]);
        k = k + 1;
    }
    assert(t.subrange(start as int, t.len() as int) =~= res@);
    res
}

/// The pieces joined with `sep` between consecutive pieces.
pub open spec fn join_with(parts: Seq<Seq<char>>, sep: Seq<char>) -> Seq<char>
    decreases parts.len(),
{
    if parts.len() == 0 {
        Seq::<char>::empty()
    } else if parts.len() == 1 {
        parts[0]
    } else {
        join_with(parts.drop_last(), sep) + sep + parts.last()
    }
}

/// Joins strings with a separator (`[String]::join`).
pub fn join_strings(parts: &Vec<String>, sep: &str) -> (res: String)
    ensures
        res@ == join_with(string_views(parts@), sep@),
{
    let mut res = String::new();
    let mut i: usize = 0;
    while i < parts.len()
        invariant
            i <= parts@.len(),
            res@ == join_with(string_views(parts@).subrange(0, i as int), sep@),
        decreases parts.len() - i,
    {
        let ghost prefix = string_views(parts@).subrange(0, i + 1);
        assert(prefix.drop_last() =~= string_views(parts@).subrange(0, i as int));
        if i > 0 {
            res.append(sep);
        }
        res.append(parts[i].as_str());
        i = i + 1;
    }
    assert(string_views(parts@).subrange(0, parts@.len() as int) =~= string_views(parts@));
    res
}

/// Whether a list of strings holds a string.
pub fn contains_string(ids: &Vec<String>, id: &str) -> (res: bool)
    ensures
        res == string_views(ids@).contains(id@),
{
    let mut i: usize = 0;
    while i < ids.len()
        invariant
            i <= ids@.len(),
            forall|j: int| 0 <= j < i ==> (#[trigger] ids@[j])@ != id@,
        decreases ids.len() - i,
    {
        if str_equal(ids[i].as_str(), id) {
            assert(string_views(ids@)[i as int] == id@);
            return true;
        }
        i = i + 1;
    }
    assert forall|j: int| 0 <= j < ids@.len() implies string_views(ids@)[j] != id@ by {
        assert(string_views(ids@)[j] == ids@[j]@);
    }
    false
}

/// Index of the first element that satisfies `p`.
pub open spec fn first_index<T>(s: Seq<T>, p: spec_fn(T) -> bool) -> Option<int>
    decreases s.len(),
{
    if s.len() == 0 {
        None
    } else {
        match first_index(s.drop_last(), p) {
            Some(i) => Some(i),
            None => if p(s.last()) {
                Some(s.len() - 1)
            } else {
                None
            },
        }
    }
}

/// `first_index` finds the first satisfying element, or reports that there is none.
pub proof fn lemma_first_index<T>(s: Seq<T>, p: spec_fn(T) -> bool)
    ensures
        first_index(s, p) matches Some(i) ==> 0 <= i < s.len() && p(s[i]) && forall|j: int|
            0 <= j < i ==> !p(#[trigger] s[j]),
        first_index(s, p) is None ==> forall|j: int| 0 <= j < s.len() ==> !p(#[trigger] s[j]),
    decreases s.len(),
{
    if s.len() > 0 {
        lemma_first_index(s.drop_last(), p);
        assert forall|j: int| 0 <= j < s.len() - 1 implies s.drop_last()[j] == s[j] by {}
    }
}

/// What a prefix finds, the whole sequence finds.
pub proof fn lemma_first_index_prefix<T>(s: Seq<T>, p: spec_fn(T) -> bool, k: int)
    requires
        0 <= k <= s.len(),
    ensures
        first_index(s.subrange(0, k), p) matches Some(i) ==> first_index(s, p) == Some(i),
    decreases s.len(),
{
    if k < s.len() {
        assert(s.drop_last().subrange(0, k) =~= s.subrange(0, k));
        lemma_first_index_prefix(s.drop_last(), p, k);
    } else {
        assert(s.subrange(0, k) =~= s);
    }
}

/// Extending a prefix by one element.
pub proof fn lemma_first_index_step<T>(s: Seq<T>, p: spec_fn(T) -> bool, k: int)
    requires
        0 <= k < s.len(),
        first_index(s.subrange(0, k), p) is None,
    ensures
        p(s[k]) ==> first_index(s, p) == Some(k),
        !p(s[k]) ==> first_index(s.subrange(0, k + 1), p) is None,
{
    assert(s.subrange(0, k + 1).drop_last() =~= s.subrange(0, k));
    lemma_first_index_prefix(s, p, k + 1);
}

/// The elements that satisfy `p`, in order.
pub open spec fn keep<T>(s: Seq<T>, p: spec_fn(T) -> bool) -> Seq<T>
    decreases s.len(),
{
    if s.len() == 0 {
        s
    } else {
        let prev = keep(s.drop_last(), p);
        if p(s.last()) {
            prev.push(s.last())
        } else {
            prev
        }
    }
}

/// How many elements satisfy `p`.
pub open spec fn count<T>(s: Seq<T>, p: spec_fn(T) -> bool) -> nat {
    keep(s, p).len()
}

/// Counts of two predicates that never hold together add up to at most the length.
pub proof fn lemma_count_disjoint<T>(s: Seq<T>, p: spec_fn(T) -> bool, q: spec_fn(T) -> bool)
    requires
        forall|x: T| !(#[trigger] p(x) && q(x)),
    ensures
        count(s, p) + count(s, q) <= s.len(),
    decreases s.len(),
{
    if s.len() > 0 {
        lemma_count_disjoint(s.drop_last(), p, q);
        assert(!(p(s.last()) && q(s.last())));
    }
}

/// A predicate that implies another is counted no more often.
pub proof fn lemma_count_implies<T>(s: Seq<T>, p: spec_fn(T) -> bool, q: spec_fn(T) -> bool)
    requires
        forall|x: T| #[trigger] p(x) ==> q(x),
    ensures
        count(s, p) <= count(s, q),
    decreases s.len(),
{
    if s.len() > 0 {
        lemma_count_implies(s.drop_last(), p, q);
        assert(p(s.last()) ==> q(s.last()));
    }
}

/// At most the length.
pub proof fn lemma_count_bound<T>(s: Seq<T>, p: spec_fn(T) -> bool)
    ensures
        count(s, p) <= s.len(),
    decreases s.len(),
{
    if s.len() > 0 {
        lemma_count_bound(s.drop_last(), p);
    }
}

} // verus!

verus! {

// ---------------------------------------------------------------------------
// Splitting joined text, trimming padded text
// ---------------------------------------------------------------------------

/// No character of `s` is `c`.
pub open spec fn free_of(s: Seq<char>, c: char) -> bool {
    forall|i: int| 0 <= i < s.len() ==> s[i] != c
}

/// Text without the separator, appended, extends the last piece.
pub proof fn lemma_split_extend(x: Seq<char>, y: Seq<char>, sep: char)
    requires
        free_of(y, sep),
    ensures
        split_on(x + y, sep) == split_on(x, sep).update(
            split_on(x, sep).len() - 1,
            split_on(x, sep).last() + y,
        ),
    decreases y.len(),
{
    let p = split_on(x, sep);
    lemma_split_nonempty(x, sep);
    if y.len() == 0 {
        assert(x + y =~= x);
        assert(p.update(p.len() - 1, p.last() + y) =~= p);
    } else {
        let y0 = y.drop_last();
        assert(free_of(y0, sep)) by {
            assert forall|i: int| 0 <= i < y0.len() implies y0[i] != sep by {
                assert(y0[i] == y[i]);
            }
        }
        lemma_split_extend(x, y0, sep);
        assert((x + y).drop_last() =~= x + y0);
        assert((x + y).last() == y.last());
        assert(y[y.len() - 1] != sep);
        let prev = split_on(x + y0, sep);
        assert(prev.len() == p.len());
        assert(prev.last() == p.last() + y0);
        assert(prev.last().push(y.last()) =~= p.last() + y);
        assert(prev.update(prev.len() - 1, prev.last().push(y.last())) =~= p.update(
            p.len() - 1,
            p.last() + y,
        ));
    }
}

/// Text after a separator becomes a new last piece.
pub proof fn lemma_split_after_sep(x: Seq<char>, y: Seq<char>, sep: char)
    requires
        free_of(y, sep),
    ensures
        split_on(x + seq![sep] + y, sep) == split_on(x, sep).push(y),
{
    let xs = x + seq![sep];
    assert(xs.drop_last() =~= x);
    assert(xs.last() == sep);
    lemma_split_extend(xs, y, sep);
    let p = split_on(x, sep).push(Seq::<char>::empty());
    assert(p.update(p.len() - 1, p.last() + y) =~= split_on(x, sep).push(y)) by {
        assert(Seq::<char>::empty() + y =~= y);
    }
}

/// Splitting pieces joined by the separator and then `pad` gives the pieces
/// back, every piece after the first preceded by `pad`.
pub proof fn lemma_split_join(parts: Seq<Seq<char>>, sep: char, pad: Seq<char>)
    requires
        parts.len() > 0,
        free_of(pad, sep),
        forall|i: int| 0 <= i < parts.len() ==> free_of(#[trigger] parts[i], sep),
    ensures
        split_on(join_with(parts, seq![sep] + pad), sep) == Seq::new(
            parts.len(),
            |i: int|
                if i == 0 {
                    parts[0]
                } else {
                    pad + parts[i]
                },
        ),
    decreases parts.len(),
{
    let want = Seq::new(
        parts.len(),
        |i: int|
            if i == 0 {
                parts[0]
            } else {
                pad + parts[i]
            },
    );
    if parts.len() == 1 {
        lemma_split_extend(Seq::<char>::empty(), parts[0], sep);
        assert(Seq::<char>::empty() + parts[0] =~= parts[0]);
        assert(seq![Seq::<char>::empty()].update(0, Seq::<char>::empty() + parts[0]) =~= want);
    } else {
        let init = parts.drop_last();
        assert forall|i: int| 0 <= i < init.len() implies free_of(#[trigger] init[i], sep) by {
            assert(init[i] == parts[i]);
        }
        lemma_split_join(init, sep, pad);
        let j = join_with(init, seq![sep] + pad);
        let last = pad + parts.last();
        assert(free_of(last, sep)) by {
            assert(free_of(parts[parts.len() - 1], sep));
            assert forall|i: int| 0 <= i < last.len() implies last[i] != sep by {
                if i < pad.len() {
                    assert(last[i] == pad[i]);
                } else {
                    assert(last[i] == parts.last()[i - pad.len()]);
                }
            }
        }
        assert(join_with(parts, seq![sep] + pad) =~= j + seq![sep] + last);
        lemma_split_after_sep(j, last, sep);
        assert(split_on(j, sep).push(last) =~= want);
    }
}

/// Trimming whitespace padding off a word that neither starts nor ends with
/// whitespace gives the word.
pub proof fn lemma_trim_padded(pad: Seq<char>, w: Seq<char>)
    requires
        forall|i: int| 0 <= i < pad.len() ==> unicode_whitespace(#[trigger] pad[i]),
        w.len() > 0,
        !unicode_whitespace(w[0]),
        !unicode_whitespace(w.last()),
    ensures
        trim_spec(pad + w) == w,
    decreases pad.len(),
{
    assert((pad + w).last() == w.last());
    assert(trim_end_spec(pad + w) == pad + w);
    lemma_trim_start_padded(pad, w);
}

proof fn lemma_trim_start_padded(pad: Seq<char>, w: Seq<char>)
    requires
        forall|i: int| 0 <= i < pad.len() ==> unicode_whitespace(#[trigger] pad[i]),
        w.len() > 0,
        !unicode_whitespace(w[0]),
    ensures
        trim_start_spec(pad + w) == w,
    decreases pad.len(),
{
    if pad.len() == 0 {
        assert(pad + w =~= w);
    } else {
        assert((pad + w)[0] == pad[0]);
        assert((pad + w).drop_first() =~= pad.drop_first() + w);
        assert forall|i: int| 0 <= i < pad.drop_first().len() implies unicode_whitespace(
            #[trigger] pad.drop_first()[i],
        ) by {
            assert(pad.drop_first()[i] == pad[i + 1]);
        }
        lemma_trim_start_padded(pad.drop_first(), w);
    }
}

} // verus!

verus! {

/// ASCII upper-casing of one character (other characters are unchanged).
pub open spec fn ascii_upper(c: char) -> char {
    if 'a' <= c && c <= 'z' {
        ((c as u32) - 32) as char
    } else {
        c
    }
}

/// ASCII upper-casing of every character of a sequence (what `to_uppercase`
/// gives for an all-ASCII text).
pub open spec fn ascii_upper_seq(s: Seq<char>) -> Seq<char> {
    s.map_values(|c: char| ascii_upper(c))
}

/// Upper-casing an ASCII text keeps it ASCII, and lower-casing undoes it.
pub proof fn lemma_upper_then_lower(s: Seq<char>)
    requires
        all_ascii(s),
    ensures
        all_ascii(ascii_upper_seq(s)),
        lowercase(ascii_upper_seq(s)) == lowercase(s),
{
    let u = ascii_upper_seq(s);
    assert forall|i: int| 0 <= i < u.len() implies (u[i] as u32) < 128 by {
        let c = s[i];
        if 'a' <= c && c <= 'z' {
            vstd::utf8::char_u32_cast(c, c as u32);
            assert(u[i] == ((c as u32) - 32) as char);
        }
    }
    assert forall|i: int| 0 <= i < u.len() implies ascii_lower(u[i]) == ascii_lower(s[i]) by {
        let c = s[i];
        if 'a' <= c && c <= 'z' {
            assert(u[i] == ((c as u32) - 32) as char);
        }
    }
    assert(ascii_lower_seq(u) =~= ascii_lower_seq(s));
}

} // verus!
