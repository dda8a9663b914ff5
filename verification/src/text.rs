use vstd::prelude::*;

verus! {

/// Appends one character to the end of a string.
///
/// Calls `String::push`, which the standard library documents as appending the
/// given `char` to the end of the `String`; the contract claims exactly that.
#[verifier::external_body]
pub(crate) fn push_char(s: &mut String, c: char)
    ensures
        final(s)@ == old(s)@.push(c),
{
    s.push(c);
}

/// The characters of a string slice, in order.
pub fn chars_of(s: &str) -> (v: Vec<char>)
    ensures
        v@ == s@,
{
    let mut v: Vec<char> = Vec::new();
    for c in it: s.chars()
        invariant
            v@ == it.seq().take(it.index() as int),
    {
        v.push(c);
    }
    v
}


/// Gives the character with the given code point, if it is a Unicode scalar value.
///
/// Calls `char::from_u32`, which the standard library documents as returning
/// `None` exactly when the value is not a valid `char` (a surrogate or above
/// `0x10FFFF`); the contract claims that, and that the `char` has that code point.
#[verifier::external_body]
pub(crate) fn char_from_u32(v: u32) -> (r: Option<char>)
    ensures
        r is Some <==> vstd::utf8::is_scalar(v),
        r matches Some(c) ==> c as u32 == v,
{
    char::from_u32(v)
}

/// A string holding the given characters, in order.
pub fn string_of(chars: &Vec<char>) -> (s: String)
    ensures
        s@ == chars@,
{
    let mut s = String::new();
    let mut i: usize = 0;
    while i < chars.len()
        invariant
            i <= chars.len(),
            s@ == chars@.take(i as int),
        decreases chars.len() - i,
    {
        push_char(&mut s, chars[i]);
        assert(chars@.take(i + 1) =~= chars@.take(i as int).push(chars@[i as int]));
        i = i + 1;
    }
    assert(chars@.take(chars.len() as int) =~= chars@);
    s
}

/// Appends the characters of `tail` to `s`.
pub fn push_str(s: &mut String, tail: &str)
    ensures
        final(s)@ == old(s)@ + tail@,
{
    let cs = chars_of(tail);
    let mut i: usize = 0;
    while i < cs.len()
        invariant
            i <= cs.len(),
            cs@ == tail@,
            s@ == old(s)@ + tail@.take(i as int),
        decreases cs.len() - i,
    {
        push_char(s, cs[i]);
        assert(tail@.take(i + 1) =~= tail@.take(i as int).push(tail@[i as int]));
        i = i + 1;
    }
    assert(tail@.take(cs.len() as int) =~= tail@);
}

/// True when `c` has the Unicode `White_Space` property (what `char::is_whitespace` tests).
pub open spec fn is_whitespace(c: char) -> bool {
    let u = c as u32;
    ||| 0x09 <= u <= 0x0D
    ||| u == 0x20
    ||| u == 0x85
    ||| u == 0xA0
    ||| u == 0x1680
    ||| 0x2000 <= u <= 0x200A
    ||| u == 0x2028
    ||| u == 0x2029
    ||| u == 0x202F
    ||| u == 0x205F
    ||| u == 0x3000
}

/// `s` without its leading whitespace.
pub open spec fn trim_start(s: Seq<char>) -> Seq<char>
    decreases s.len(),
{
    if s.len() > 0 && is_whitespace(s[0]) {
        trim_start(s.drop_first())
    } else {
        s
    }
}

/// `s` without its trailing whitespace.
pub open spec fn trim_end(s: Seq<char>) -> Seq<char>
    decreases s.len(),
{
    if s.len() > 0 && is_whitespace(s.last()) {
        trim_end(s.drop_last())
    } else {
        s
    }
}

/// `s` without leading and trailing whitespace (what `str::trim` gives).
pub open spec fn trim(s: Seq<char>) -> Seq<char> {
    trim_end(trim_start(s))
}

/// What follows the first `sep` in `s` (the second piece of `s.splitn(2, sep)`),
/// or `None` when `s` holds no `sep`.
pub open spec fn after_first(s: Seq<char>, sep: char) -> Option<Seq<char>>
    decreases s.len(),
{
    if s.len() == 0 {
        None
    } else if s[0] == sep {
        Some(s.drop_first())
    } else {
        after_first(s.drop_first(), sep)
    }
}

/// True when `s` begins with `prefix`.
pub open spec fn starts_with(s: Seq<char>, prefix: Seq<char>) -> bool {
    prefix.len() <= s.len() && s.take(prefix.len() as int) == prefix
}

/// `s` with every non-overlapping occurrence of `from`, found left to right,
/// replaced by `to` (what `str::replace` gives). An empty pattern occurs before
/// each character and at the end.
pub open spec fn replace_all(s: Seq<char>, from: Seq<char>, to: Seq<char>) -> Seq<char>
    decreases s.len(),
{
    if s.len() == 0 {
        if from.len() == 0 { to } else { Seq::empty() }
    } else if from.len() > 0 && starts_with(s, from) {
        to + replace_all(s.skip(from.len() as int), from, to)
    } else if from.len() == 0 {
        to + seq![s[0]] + replace_all(s.drop_first(), from, to)
    } else {
        seq![s[0]] + replace_all(s.drop_first(), from, to)
    }
}

/// The pieces of `parts` with `sep` between each two neighbours.
pub open spec fn join(parts: Seq<Seq<char>>, sep: Seq<char>) -> Seq<char>
    decreases parts.len(),
{
    if parts.len() == 0 {
        Seq::empty()
    } else if parts.len() == 1 {
        parts[0]
    } else {
        join(parts.drop_last(), sep) + sep + parts.last()
    }
}

proof fn lemma_trim_start_first(s: Seq<char>)
    ensures
        trim_start(s).len() > 0 ==> !is_whitespace(trim_start(s)[0]),
    decreases s.len(),
{
    if s.len() > 0 && is_whitespace(s[0]) {
        lemma_trim_start_first(s.drop_first());
    }
}

proof fn lemma_trim_end_prefix(t: Seq<char>)
    ensures
        trim_end(t).len() <= t.len(),
        trim_end(t) == t.take(trim_end(t).len() as int),
        trim_end(t).len() > 0 ==> !is_whitespace(trim_end(t).last()),
    decreases t.len(),
{
    if t.len() > 0 && is_whitespace(t.last()) {
        lemma_trim_end_prefix(t.drop_last());
        assert(t.drop_last().take(trim_end(t).len() as int) =~= t.take(trim_end(t).len() as int));
    } else {
        assert(t.take(t.len() as int) =~= t);
    }
}

/// Trimmed text neither begins nor ends with whitespace, and trimming it again
/// changes nothing.
pub proof fn law_trim_leaves_no_outer_whitespace(s: Seq<char>)
    ensures
        trim(s).len() > 0 ==> !is_whitespace(trim(s)[0]) && !is_whitespace(trim(s).last()),
        trim(trim(s)) == trim(s),
{
    let ts = trim_start(s);
    lemma_trim_start_first(s);
    lemma_trim_end_prefix(ts);
    let r = trim(s);
    if r.len() > 0 {
        assert(r[0] == ts[0]);
        assert(trim_start(r) == r);
        lemma_trim_end_prefix(r);
        assert(trim_end(r) == r) by {
            assert(is_whitespace(r.last()) == false);
        }
    } else {
        assert(trim_start(r) == r);
        assert(trim_end(r) == r);
    }
}

/// Whether `c` is whitespace.
pub fn is_whitespace_char(c: char) -> (r: bool)
    ensures
        r == is_whitespace(c),
{
    let u = c as u32;
    (0x09 <= u && u <= 0x0D) || u == 0x20 || u == 0x85 || u == 0xA0 || u == 0x1680
        || (0x2000 <= u && u <= 0x200A) || u == 0x2028 || u == 0x2029 || u == 0x202F
        || u == 0x205F || u == 0x3000
}

proof fn lemma_trim_start_skip(s: Seq<char>, i: int)
    requires
        0 <= i <= s.len(),
        forall|j: int| 0 <= j < i ==> is_whitespace(#[trigger] s[j]),
    ensures
        trim_start(s) == trim_start(s.skip(i)),
    decreases i,
{
    if i > 0 {
        assert(s.skip(1) =~= s.drop_first());
        lemma_trim_start_skip(s.drop_first(), i - 1);
        assert(s.drop_first().skip(i - 1) =~= s.skip(i));
    } else {
        assert(s.skip(0) =~= s);
    }
}

proof fn lemma_trim_end_take(s: Seq<char>, k: int)
    requires
        0 <= k <= s.len(),
        forall|j: int| k <= j < s.len() ==> is_whitespace(#[trigger] s[j]),
    ensures
        trim_end(s) == trim_end(s.take(k)),
    decreases s.len() - k,
{
    if k < s.len() {
        assert(s.drop_last() =~= s.take(s.len() - 1));
        lemma_trim_end_take(s.drop_last(), k);
        assert(s.drop_last().take(k) =~= s.take(k));
    } else {
        assert(s.take(k) =~= s);
    }
}

/// The position range `[lo, hi)` of `cs` that `trim` keeps.
pub(crate) fn trim_bounds(cs: &Vec<char>) -> (r: (usize, usize))
    ensures
        r.0 <= r.1 <= cs.len(),
        trim(cs@) == cs@.subrange(r.0 as int, r.1 as int),
{
    let mut lo: usize = 0;
    while lo < cs.len() && is_whitespace_char(cs[lo])
        invariant
            lo <= cs.len(),
            forall|j: int| 0 <= j < lo ==> is_whitespace(#[trigger] cs@[j]),
        decreases cs.len() - lo,
    {
        lo = lo + 1;
    }
    proof {
        lemma_trim_start_skip(cs@, lo as int);
    }
    let ghost rest = cs@.skip(lo as int);
    assert(trim_start(rest) == rest);
    let mut hi: usize = cs.len();
    while hi > lo && is_whitespace_char(cs[hi - 1])
        invariant
            lo <= hi <= cs.len(),
            rest == cs@.skip(lo as int),
            forall|j: int| hi - lo <= j < rest.len() ==> is_whitespace(#[trigger] rest[j]),
        decreases hi,
    {
        hi = hi - 1;
    }
    proof {
        lemma_trim_end_take(rest, hi - lo);
        assert(rest.take(hi - lo) =~= cs@.subrange(lo as int, hi as int));
    }
    (lo, hi)
}

/// The characters `cs[lo..hi]`, as a vector.
pub(crate) fn slice_chars(cs: &Vec<char>, lo: usize, hi: usize) -> (r: Vec<char>)
    requires
        lo <= hi <= cs.len(),
    ensures
        r@ == cs@.subrange(lo as int, hi as int),
{
    let mut r: Vec<char> = Vec::new();
    let mut i: usize = lo;
    while i < hi
        invariant
            lo <= i <= hi,
            hi <= cs.len(),
            r@ == cs@.subrange(lo as int, i as int),
        decreases hi - i,
    {
        r.push(cs[i]);
        assert(cs@.subrange(lo as int, i + 1) =~= cs@.subrange(lo as int, i as int).push(cs@[i as int]));
        i = i + 1;
    }
    r
}

/// `text` without leading and trailing whitespace, as `str::trim` gives it.
pub fn trim_str(text: &str) -> (r: String)
    ensures
        r@ == trim(text@),
{
    let cs = chars_of(text);
    let (lo, hi) = trim_bounds(&cs);
    let kept = slice_chars(&cs, lo, hi);
    string_of(&kept)
}

/// Whether `pat` occurs in `cs` at position `at`.
pub(crate) fn occurs_at(cs: &Vec<char>, at: usize, pat: &Vec<char>) -> (r: bool)
    requires
        at <= cs.len(),
    ensures
        r == starts_with(cs@.skip(at as int), pat@),
{
    if pat.len() > cs.len() - at {
        return false;
    }
    let mut j: usize = 0;
    while j < pat.len()
        invariant
            j <= pat.len(),
            at + pat.len() <= cs.len(),
            forall|k: int| 0 <= k < j ==> cs@[at + k] == pat@[k],
        decreases pat.len() - j,
    {
        if cs[at + j] != pat[j] {
            assert(cs@.skip(at as int).take(pat.len() as int)[j as int] != pat@[j as int]);
            return false;
        }
        j = j + 1;
    }
    assert(cs@.skip(at as int).take(pat.len() as int) =~= pat@);
    true
}

/// `text` with every non-overlapping occurrence of `from` replaced by `to`, as
/// `str::replace` gives it.
pub fn replace_str(text: &str, from: &str, to: &str) -> (r: String)
    ensures
        r@ == replace_all(text@, from@, to@),
{
    let cs = chars_of(text);
    let pat = chars_of(from);
    let mut out = String::new();
    let mut i: usize = 0;
    assert(text@.skip(0) =~= text@);
    assert(out@ + replace_all(text@, from@, to@) =~= replace_all(text@, from@, to@));
    if pat.len() == 0 {
        while i < cs.len()
            invariant
                i <= cs.len(),
                cs@ == text@,
                from@.len() == 0,
                replace_all(text@, from@, to@) == out@ + replace_all(text@.skip(i as int), from@, to@),
            decreases cs.len() - i,
        {
            let ghost rest = text@.skip(i as int);
            let ghost before = out@;
            push_str(&mut out, to);
            push_char(&mut out, cs[i]);
            assert(rest.drop_first() =~= text@.skip(i + 1));
            assert(rest[0] == cs@[i as int]);
            assert(out@ =~= before + to@ + seq![rest[0]]);
            i = i + 1;
        }
        push_str(&mut out, to);
        assert(text@.skip(i as int) =~= Seq::<char>::empty());
        return out;
    }
    while i < cs.len()
        invariant
            i <= cs.len(),
            cs@ == text@,
            pat@ == from@,
            pat@.len() > 0,
            replace_all(text@, from@, to@) == out@ + replace_all(text@.skip(i as int), from@, to@),
        decreases cs.len() - i,
    {
        let ghost rest = text@.skip(i as int);
        if occurs_at(&cs, i, &pat) {
            push_str(&mut out, to);
            assert(rest.skip(pat@.len() as int) =~= text@.skip(i + pat@.len()));
            i = i + pat.len();
        } else {
            push_char(&mut out, cs[i]);
            assert(rest.drop_first() =~= text@.skip(i + 1));
            assert(rest[0] == cs@[i as int]);
            i = i + 1;
        }
    }
    assert(text@.skip(i as int) =~= Seq::<char>::empty());
    assert(out@ =~= out@ + Seq::<char>::empty());
    out
}

/// Whether two string slices hold the same characters.
pub fn str_eq(a: &str, b: &str) -> (r: bool)
    ensures
        r == (a@ == b@),
{
    let x = chars_of(a);
    let y = chars_of(b);
    if x.len() != y.len() {
        return false;
    }
    let mut i: usize = 0;
    while i < x.len()
        invariant
            i <= x.len(),
            x.len() == y.len(),
            x@ == a@,
            y@ == b@,
            forall|k: int| 0 <= k < i ==> x@[k] == y@[k],
        decreases x.len() - i,
    {
        if x[i] != y[i] {
            assert(a@[i as int] != b@[i as int]);
            return false;
        }
        i = i + 1;
    }
    assert(x@ =~= y@);
    true
}

/// The characters of `parts`, joined with `sep` between each two neighbours.
pub fn join_strings(parts: &Vec<String>, sep: &str) -> (r: String)
    ensures
        r@ == join(parts@.map_values(|p: String| p@), sep@),
{
    let ghost views = parts@.map_values(|p: String| p@);
    let mut out = String::new();
    let mut i: usize = 0;
    while i < parts.len()
        invariant
            i <= parts.len(),
            views == parts@.map_values(|p: String| p@),
            out@ == join(views.take(i as int), sep@),
        decreases parts.len() - i,
    {
        if i > 0 {
            push_str(&mut out, sep);
        }
        push_str(&mut out, parts[i].as_str());
        assert(views.take(i + 1).drop_last() =~= views.take(i as int));
        assert(views.take(i + 1).last() == parts@[i as int]@);
        proof {
            if i == 0 {
                assert(views.take(1).len() == 1);
                assert(out@ =~= join(views.take(1), sep@));
            }
        }
        i = i + 1;
    }
    assert(views.take(parts.len() as int) =~= views);
    out
}

proof fn lemma_after_first_skip(s: Seq<char>, sep: char, k: int)
    requires
        0 <= k <= s.len(),
        forall|j: int| 0 <= j < k ==> #[trigger] s[j] != sep,
    ensures
        after_first(s, sep) == after_first(s.skip(k), sep),
    decreases k,
{
    if k > 0 {
        lemma_after_first_skip(s.drop_first(), sep, k - 1);
        assert(s.drop_first().skip(k - 1) =~= s.skip(k));
    } else {
        assert(s.skip(0) =~= s);
    }
}

/// What follows the first `sep` in `text`, or `None` when there is none
/// (what `text.splitn(2, sep).nth(1)` gives).
pub fn after_first_char(text: &str, sep: char) -> (r: Option<String>)
    ensures
        match after_first(text@, sep) {
            Some(rest) => r matches Some(t) && t@ == rest,
            None => r is None,
        },
{
    let cs = chars_of(text);
    let mut i: usize = 0;
    while i < cs.len()
        invariant
            i <= cs.len(),
            cs@ == text@,
            forall|j: int| 0 <= j < i ==> #[trigger] cs@[j] != sep,
        decreases cs.len() - i,
    {
        if cs[i] == sep {
            proof {
                lemma_after_first_skip(text@, sep, i as int);
                assert(text@.skip(i as int).drop_first() =~= cs@.subrange(i + 1, cs.len() as int));
            }
            let rest = slice_chars(&cs, i + 1, cs.len());
            return Some(string_of(&rest));
        }
        i = i + 1;
    }
    proof {
        lemma_after_first_skip(text@, sep, i as int);
        assert(text@.skip(i as int).len() == 0);
    }
    None
}

} // verus!
