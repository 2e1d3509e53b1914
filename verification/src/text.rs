//! Text primitives over `Seq<char>`: what the rest of the library says about strings is said with the
//! spec functions of this module, and what it does to strings goes through its executable functions.
use vstd::prelude::*;
use vstd::string::*;
use zeroize::Zeroize;

verus! {

/// `String::push`: appends one character to the end of the text.
pub assume_specification[ String::push ](s: &mut String, c: char)
    ensures
        final(s)@ == old(s)@.push(c),
;

/// `Zeroize::zeroize` on a `String`: overwrites its whole buffer with zeros and leaves it empty.
#[verifier::external_body]
pub(crate) fn wipe(s: &mut String)
    ensures
        final(s)@.len() == 0,
    opens_invariants none
    no_unwind
{
    s.zeroize();
}

/// `Zeroize::zeroize` on a `Vec<String>`: overwrites the strings with zeros and leaves the list empty.
#[verifier::external_body]
pub(crate) fn wipe_all(v: &mut Vec<String>)
    ensures
        final(v)@.len() == 0,
    opens_invariants none
    no_unwind
{
    v.zeroize();
}

/// The lowercase form of a text, as std's `str::to_lowercase` gives it.
pub uninterp spec fn unicode_lowercase(s: Seq<char>) -> Seq<char>;

/// `str::to_lowercase`. The Unicode case tables are not spelled out: the result is named. The empty text is
/// its own lowercase form.
#[verifier::external_body]
pub(crate) fn to_lowercase(s: &str) -> (r: String)
    ensures
        r@ == unicode_lowercase(s@),
        s@.len() == 0 ==> r@.len() == 0,
{
    s.to_lowercase()
}

/// The Unicode `White_Space` property.
pub open spec fn is_white(c: char) -> bool {
    ||| '\u{9}' <= c <= '\u{d}'
    ||| c == ' '
    ||| c == '\u{85}'
    ||| c == '\u{a0}'
    ||| c == '\u{1680}'
    ||| '\u{2000}' <= c <= '\u{200a}'
    ||| c == '\u{2028}'
    ||| c == '\u{2029}'
    ||| c == '\u{202f}'
    ||| c == '\u{205f}'
    ||| c == '\u{3000}'
}

/// Whether `c` is white space.
pub fn is_whitespace(c: char) -> (r: bool)
    ensures
        r == is_white(c),
{
    ('\u{9}' <= c && c <= '\u{d}') || c == ' ' || c == '\u{85}' || c == '\u{a0}' || c == '\u{1680}'
        || ('\u{2000}' <= c && c <= '\u{200a}') || c == '\u{2028}' || c == '\u{2029}' || c
        == '\u{202f}' || c == '\u{205f}' || c == '\u{3000}'
}

/// The characters of a string, in order.
pub fn chars_of(s: &str) -> (r: Vec<char>)
    ensures
        r@ == s@,
{
    let mut out: Vec<char> = Vec::new();
    for c in it: s.chars()
        invariant
            it.seq() == s@,
            out@ == s@.take(it.index() as int),
    {
        out.push(c);
        assert(out@ =~= s@.take(it.index() as int + 1));
    }
    assert(s@.take(s@.len() as int) =~= s@);
    out
}

/// The string that `chars[from..to]` spells.
pub fn string_of(chars: &Vec<char>, from: usize, to: usize) -> (r: String)
    requires
        from <= to <= chars@.len(),
    ensures
        r@ == chars@.subrange(from as int, to as int),
{
    let mut out: String = String::new();
    let mut i: usize = from;
    assert(out@ =~= chars@.subrange(from as int, from as int));
    while i < to
        invariant
            from <= i <= to <= chars@.len(),
            out@ == chars@.subrange(from as int, i as int),
        decreases to - i,
    {
        out.push(chars[i]);
        i = i + 1;
        assert(out@ =~= chars@.subrange(from as int, i as int));
    }
    out
}


/// The characters of each string of a list.
pub open spec fn views(v: Seq<String>) -> Seq<Seq<char>> {
    Seq::new(v.len(), |i: int| v[i]@)
}

/// A copy of a list of strings.
pub fn clone_strings(v: &Vec<String>) -> (r: Vec<String>)
    ensures
        r@ == v@,
{
    let mut out: Vec<String> = Vec::new();
    let mut i: usize = 0;
    while i < v.len()
        invariant
            i <= v@.len(),
            out@ == v@.take(i as int),
        decreases v@.len() - i,
    {
        out.push(v[i].clone());
        i = i + 1;
        assert(out@ =~= v@.take(i as int));
    }
    assert(out@ =~= v@);
    out
}

/// Whether two texts are the same.
pub fn same(a: &str, b: &str) -> (r: bool)
    ensures
        r == (a@ == b@),
{
    a.to_owned() == b.to_owned()
}

pub fn cat2(a: &str, b: &str) -> (r: String)
    ensures
        r@ == a@ + b@,
{
    let mut s: String = a.to_owned();
    s.append(b);
    s
}

pub fn cat3(a: &str, b: &str, c: &str) -> (r: String)
    ensures
        r@ == a@ + b@ + c@,
{
    let mut s: String = a.to_owned();
    s.append(b);
    s.append(c);
    s
}

pub fn cat4(a: &str, b: &str, c: &str, d: &str) -> (r: String)
    ensures
        r@ == a@ + b@ + c@ + d@,
{
    let mut s: String = cat3(a, b, c);
    s.append(d);
    s
}

pub fn cat5(a: &str, b: &str, c: &str, d: &str, e: &str) -> (r: String)
    ensures
        r@ == a@ + b@ + c@ + d@ + e@,
{
    let mut s: String = cat4(a, b, c, d);
    s.append(e);
    s
}

/// `s` without its leading white space.
pub open spec fn trim_start(s: Seq<char>) -> Seq<char>
    decreases s.len(),
{
    if s.len() > 0 && is_white(s[0]) {
        trim_start(s.skip(1))
    } else {
        s
    }
}

/// `s` without its trailing white space.
pub open spec fn trim_end(s: Seq<char>) -> Seq<char>
    decreases s.len(),
{
    if s.len() > 0 && is_white(s.last()) {
        trim_end(s.drop_last())
    } else {
        s
    }
}

/// `s` without its leading and trailing white space.
pub open spec fn trim(s: Seq<char>) -> Seq<char> {
    trim_end(trim_start(s))
}

/// Trimming the end of a text cuts at the end only, and never into what is not white.
pub proof fn trim_end_cuts_white(s: Seq<char>)
    ensures
        trim_end(s).len() <= s.len(),
        trim_end(s) == s.take(trim_end(s).len() as int),
        forall|i: int| trim_end(s).len() <= i < s.len() ==> is_white(#[trigger] s[i]),
        trim_end(s).len() > 0 ==> !is_white(trim_end(s).last()),
    decreases s.len(),
{
    if s.len() > 0 && is_white(s.last()) {
        trim_end_cuts_white(s.drop_last());
        let n = trim_end(s).len() as int;
        assert(s.drop_last().take(n) =~= s.take(n));
        assert forall|i: int| n <= i < s.len() implies is_white(#[trigger] s[i]) by {
            if i < s.len() - 1 {
                assert(s.drop_last()[i] == s[i]);
            }
        }
    } else {
        assert(s.take(s.len() as int) =~= s);
    }
}

/// Trimming the start of a text cuts at the start only, and never into what is not white.
pub proof fn trim_start_cuts_white(s: Seq<char>)
    ensures
        trim_start(s).len() <= s.len(),
        trim_start(s) == s.skip(s.len() - trim_start(s).len()),
        forall|i: int| 0 <= i < s.len() - trim_start(s).len() ==> is_white(#[trigger] s[i]),
        trim_start(s).len() > 0 ==> !is_white(trim_start(s)[0]),
    decreases s.len(),
{
    if s.len() > 0 && is_white(s[0]) {
        trim_start_cuts_white(s.skip(1));
        let n = s.len() - trim_start(s).len();
        assert(s.skip(1).skip(n - 1) =~= s.skip(n));
        assert forall|i: int| 0 <= i < n implies is_white(#[trigger] s[i]) by {
            if i > 0 {
                assert(s.skip(1)[i - 1] == s[i]);
            }
        }
    } else {
        assert(s.skip(0) =~= s);
    }
}

/// A trimmed text neither begins nor ends white, and trimming it again changes nothing.
pub proof fn trimmed_is_bare(s: Seq<char>)
    ensures
        trim(s).len() <= s.len(),
        trim(s).len() > 0 ==> !is_white(trim(s)[0]) && !is_white(trim(s).last()),
        trim(trim(s)) == trim(s),
        trim(s).len() == 0 <==> (forall|i: int| 0 <= i < s.len() ==> is_white(#[trigger] s[i])),
{
    let t = trim_start(s);
    trim_start_cuts_white(s);
    trim_end_cuts_white(t);
    if trim(s).len() > 0 {
        assert(trim(s)[0] == t[0]);
        let k = s.len() - t.len() as int;
        assert(s[k] == t[0]);
    } else if t.len() > 0 {
        assert(is_white(t[0]));
    }
}

/// The head of a text that begins with a word and goes on behind white space is the word, however the end is trimmed,
/// and the rest is what follows, trimmed.
pub proof fn a_word_and_the_rest(word: Seq<char>, white: char, more: Seq<char>)
    requires
        word.len() > 0,
        forall|i: int| 0 <= i < word.len() ==> !is_white(#[trigger] word[i]),
        is_white(white),
    ensures
        head_of(word.push(white) + more) == word,
        rest_of(word.push(white) + more) == trim(more),
        head_of(trim(word.push(white) + more)) == word,
        trim(word.push(white) + more)[0] == word[0],
        trim(word.push(white) + more).len() > 0,
        trim(more).len() > 0 ==> rest_of(trim(word.push(white) + more)) == trim(more),
{
    let line = word.push(white) + more;
    let n = word.len() as int;
    assert forall|i: int| 0 <= i < n implies !is_white(#[trigger] line[i]) by {
        assert(line[i] == word[i]);
    }
    head_len_is_first_white(line, n);
    assert(line.take(n) =~= word);
    assert(line.skip(n + 1) =~= more);
    assert(!is_white(line[0]));
    let t = trim(line);
    assert(t == trim_end(line));
    trim_end_cuts_white(line);
    assert(t.len() >= n) by {
        if t.len() < n {
            assert(is_white(line[n - 1]));
        }
    }
    assert forall|i: int| 0 <= i < n implies !is_white(#[trigger] t[i]) by {
        assert(t[i] == line[i]);
    }
    if t.len() > n {
        assert(t[n] == line[n]);
    }
    head_len_is_first_white(t, n);
    assert(t.take(n) =~= word);
    assert(t[0] == line[0]);
    trimmed_is_bare(more);
    if trim(more).len() > 0 {
        let rest = t.skip(n + 1);
        let k = t.len() as int;
        // The end of the line and the end of what follows the word are trimmed alike.
        assert(k > n + 1) by {
            if k <= n + 1 {
                assert forall|i: int| 0 <= i < more.len() implies is_white(#[trigger] more[i]) by {
                    assert(more[i] == line[n + 1 + i]);
                }
            }
        }
        assert(rest =~= more.take(k - n - 1));
        let a = trim_start(more);
        trim_start_cuts_white(more);
        trim_start_cuts_white(rest);
        trim_end_cuts_white(a);
        trim_end_cuts_white(rest);
        trimmed_alike(more, k - n - 1);
    }
}

/// Cutting white space off the end of a text leaves its trimmed form.
proof fn trimmed_alike(s: Seq<char>, n: int)
    requires
        0 < n <= s.len(),
        forall|i: int| n <= i < s.len() ==> is_white(#[trigger] s[i]),
    ensures
        trim(s.take(n)) == trim(s),
    decreases s.len() - n,
{
    if n == s.len() {
        assert(s.take(n) =~= s);
    } else {
        let d = s.drop_last();
        assert(d.take(n) =~= s.take(n));
        trimmed_alike(d, n);
        dropping_white(s);
    }
}

proof fn dropping_white(s: Seq<char>)
    requires
        s.len() > 0,
        is_white(s.last()),
    ensures
        trim(s.drop_last()) == trim(s),
    decreases s.len(),
{
    if s.len() == 1 {
        assert(s.skip(1) =~= Seq::<char>::empty());
        assert(s.drop_last() =~= Seq::<char>::empty());
    } else if is_white(s[0]) {
        assert(s.drop_last().skip(1) =~= s.skip(1).drop_last());
        dropping_white(s.skip(1));
    } else {
        assert(s.drop_last()[0] == s[0]);
    }
}

/// The length of the leading white space.
fn leading_white(chars: &Vec<char>) -> (r: usize)
    ensures
        r <= chars@.len(),
        chars@.skip(r as int) == trim_start(chars@),
{
    let mut i: usize = 0;
    assert(chars@.skip(0) =~= chars@);
    while i < chars.len() && is_whitespace(chars[i])
        invariant
            i <= chars@.len(),
            trim_start(chars@.skip(i as int)) == trim_start(chars@),
        decreases chars@.len() - i,
    {
        assert(chars@.skip(i as int).skip(1) =~= chars@.skip(i as int + 1));
        i = i + 1;
    }
    i
}

/// The end of the text once the trailing white space is cut, not before `from`.
fn trailing_cut(chars: &Vec<char>, from: usize) -> (r: usize)
    requires
        from <= chars@.len(),
    ensures
        from <= r <= chars@.len(),
        chars@.subrange(from as int, r as int) == trim_end(chars@.skip(from as int)),
{
    let mut j: usize = chars.len();
    assert(chars@.subrange(from as int, j as int) =~= chars@.skip(from as int));
    while from < j && is_whitespace(chars[j - 1])
        invariant
            from <= j <= chars@.len(),
            trim_end(chars@.subrange(from as int, j as int)) == trim_end(chars@.skip(from as int)),
        decreases j,
    {
        assert(chars@.subrange(from as int, j as int).drop_last() =~= chars@.subrange(
            from as int,
            j - 1,
        ));
        j = j - 1;
    }
    j
}

/// `s` without its leading and trailing white space.
pub fn trimmed(s: &str) -> (r: String)
    ensures
        r@ == trim(s@),
{
    let chars: Vec<char> = chars_of(s);
    let i: usize = leading_white(&chars);
    let j: usize = trailing_cut(&chars, i);
    string_of(&chars, i, j)
}

/// `s` without its trailing white space.
pub fn trimmed_end(s: &str) -> (r: String)
    ensures
        r@ == trim_end(s@),
{
    let chars: Vec<char> = chars_of(s);
    let j: usize = trailing_cut(&chars, 0);
    assert(chars@.skip(0) =~= chars@);
    string_of(&chars, 0, j)
}

/// The pieces of `s` between the occurrences of `sep`; there is always at least one.
pub open spec fn split_on(s: Seq<char>, sep: char) -> Seq<Seq<char>>
    decreases s.len(),
{
    if s.len() == 0 {
        seq![Seq::<char>::empty()]
    } else {
        let before = split_on(s.drop_last(), sep);
        if s.last() == sep {
            before.push(Seq::<char>::empty())
        } else {
            before.drop_last().push(before.last().push(s.last()))
        }
    }
}

/// The pieces with `sep` between each two.
pub open spec fn join_with(parts: Seq<Seq<char>>, sep: char) -> Seq<char>
    decreases parts.len(),
{
    if parts.len() == 0 {
        Seq::empty()
    } else if parts.len() == 1 {
        parts[0]
    } else {
        join_with(parts.drop_last(), sep).push(sep) + parts.last()
    }
}

pub proof fn split_on_nonempty(s: Seq<char>, sep: char)
    ensures
        split_on(s, sep).len() >= 1,
    decreases s.len(),
{
    if s.len() > 0 {
        split_on_nonempty(s.drop_last(), sep);
    }
}

/// No piece of a split holds the separator.
pub proof fn split_on_pieces_are_clean(s: Seq<char>, sep: char)
    ensures
        forall|i: int|
            0 <= i < split_on(s, sep).len() ==> !(#[trigger] split_on(s, sep)[i]).contains(sep),
    decreases s.len(),
{
    if s.len() > 0 {
        split_on_nonempty(s.drop_last(), sep);
        split_on_pieces_are_clean(s.drop_last(), sep);
        let before = split_on(s.drop_last(), sep);
        assert forall|i: int| 0 <= i < split_on(s, sep).len() implies !(#[trigger] split_on(
            s,
            sep,
        )[i]).contains(sep) by {
            if s.last() != sep && i == before.len() - 1 {
                assert(!before[i].contains(sep));
                assert forall|k: int| 0 <= k < before[i].push(s.last()).len() implies before[i].push(
                    s.last(),
                )[k] != sep by {
                    if k < before[i].len() {
                        assert(before[i][k] != sep) by {
                            if before[i][k] == sep {
                                assert(before[i].contains(sep));
                            }
                        }
                    }
                }
            }
        }
    }
}

/// A text without the separator is its own only piece.
pub proof fn split_of_clean(s: Seq<char>, sep: char)
    requires
        !s.contains(sep),
    ensures
        split_on(s, sep) == seq![s],
    decreases s.len(),
{
    if s.len() == 0 {
        assert(s =~= Seq::<char>::empty());
    } else {
        assert(s.last() != sep);
        assert(!s.drop_last().contains(sep)) by {
            if s.drop_last().contains(sep) {
                let k = choose|k: int| 0 <= k < s.drop_last().len() && s.drop_last()[k] == sep;
                assert(s[k] == sep);
            }
        }
        split_of_clean(s.drop_last(), sep);
        assert(s.drop_last().push(s.last()) =~= s);
        assert(split_on(s, sep) =~= seq![s]);
    }
}

/// Splitting a text and joining the pieces with the same separator gives the text back.
pub proof fn join_of_split(s: Seq<char>, sep: char)
    ensures
        join_with(split_on(s, sep), sep) == s,
    decreases s.len(),
{
    split_on_nonempty(s, sep);
    if s.len() > 0 {
        let before = split_on(s.drop_last(), sep);
        split_on_nonempty(s.drop_last(), sep);
        join_of_split(s.drop_last(), sep);
        if s.last() == sep {
            assert(before.push(Seq::<char>::empty()).drop_last() =~= before);
            assert(join_with(before, sep).push(sep) + Seq::<char>::empty() =~= s);
        } else {
            let grown = before.drop_last().push(before.last().push(s.last()));
            assert(grown.drop_last() =~= before.drop_last());
            if before.len() == 1 {
                assert(grown[0] =~= s);
            } else {
                assert(join_with(before, sep) == join_with(before.drop_last(), sep).push(sep)
                    + before.last());
                assert(join_with(grown, sep) == join_with(grown.drop_last(), sep).push(sep)
                    + grown.last());
                assert(join_with(grown, sep) =~= join_with(before, sep).push(s.last()));
                assert(join_with(grown, sep) =~= s);
            }
        }
    } else {
        assert(split_on(s, sep)[0] =~= s);
    }
}

/// The pieces of `s` between the occurrences of `sep`.
pub fn split(s: &str, sep: char) -> (r: Vec<String>)
    ensures
        views(r@) == split_on(s@, sep),
        r@.len() >= 1,
{
    let chars: Vec<char> = chars_of(s);
    let mut out: Vec<String> = Vec::new();
    let mut from: usize = 0;
    let mut i: usize = 0;
    assert(chars@.subrange(0, 0) =~= Seq::<char>::empty());
    assert(views(out@).push(chars@.subrange(0, 0)) =~= split_on(chars@.take(0), sep));
    while i < chars.len()
        invariant
            from <= i <= chars@.len(),
            views(out@).push(chars@.subrange(from as int, i as int)) == split_on(
                chars@.take(i as int),
                sep,
            ),
        decreases chars@.len() - i,
    {
        let ghost before = views(out@).push(chars@.subrange(from as int, i as int));
        assert(chars@.take(i as int + 1).drop_last() =~= chars@.take(i as int));
        assert(chars@.take(i as int + 1).last() == chars@[i as int]);
        if chars[i] == sep {
            out.push(string_of(&chars, from, i));
            from = i + 1;
            assert(views(out@) =~= before);
            assert(chars@.subrange(from as int, i as int + 1) =~= Seq::<char>::empty());
        } else {
            assert(before.drop_last() =~= views(out@));
            assert(chars@.subrange(from as int, i as int).push(chars@[i as int])
                =~= chars@.subrange(from as int, i as int + 1));
        }
        i = i + 1;
    }
    let ghost done = views(out@).push(chars@.subrange(from as int, i as int));
    out.push(string_of(&chars, from, chars.len()));
    assert(views(out@) =~= done);
    assert(chars@.take(chars@.len() as int) =~= chars@);
    out
}

/// The pieces with `sep` between each two.
pub fn join(parts: &Vec<String>, sep: char) -> (r: String)
    ensures
        r@ == join_with(views(parts@), sep),
{
    let mut out: String = String::new();
    let mut i: usize = 0;
    assert(views(parts@).take(0) =~= Seq::<Seq<char>>::empty());
    while i < parts.len()
        invariant
            i <= parts@.len(),
            out@ == join_with(views(parts@).take(i as int), sep),
        decreases parts@.len() - i,
    {
        let ghost next = views(parts@).take(i as int + 1);
        assert(next.drop_last() =~= views(parts@).take(i as int));
        if i > 0 {
            out.push(sep);
        }
        out.append(parts[i].as_str());
        assert(out@ =~= join_with(next, sep));
        i = i + 1;
    }
    assert(views(parts@).take(parts@.len() as int) =~= views(parts@));
    out
}

/// A text without its leading `c` characters.
pub open spec fn strip_lead(s: Seq<char>, c: char) -> Seq<char>
    decreases s.len(),
{
    if s.len() > 0 && s[0] == c {
        strip_lead(s.skip(1), c)
    } else {
        s
    }
}

/// A text without its trailing `c` characters.
pub open spec fn strip_tail(s: Seq<char>, c: char) -> Seq<char>
    decreases s.len(),
{
    if s.len() > 0 && s.last() == c {
        strip_tail(s.drop_last(), c)
    } else {
        s
    }
}

/// A text without its leading `c` characters.
pub fn trim_start_char(s: &str, c: char) -> (r: String)
    ensures
        r@ == strip_lead(s@, c),
{
    let chars: Vec<char> = chars_of(s);
    let mut i: usize = 0;
    assert(chars@.skip(0) =~= chars@);
    while i < chars.len() && chars[i] == c
        invariant
            i <= chars@.len(),
            strip_lead(chars@.skip(i as int), c) == strip_lead(chars@, c),
        decreases chars@.len() - i,
    {
        assert(chars@.skip(i as int).skip(1) =~= chars@.skip(i as int + 1));
        i = i + 1;
    }
    assert(chars@.subrange(i as int, chars@.len() as int) =~= chars@.skip(i as int));
    string_of(&chars, i, chars.len())
}

/// A text without its trailing `c` characters.
pub fn trim_end_char(s: &str, c: char) -> (r: String)
    ensures
        r@ == strip_tail(s@, c),
{
    let chars: Vec<char> = chars_of(s);
    let mut to: usize = chars.len();
    assert(chars@.take(to as int) =~= chars@);
    while 0 < to && chars[to - 1] == c
        invariant
            to <= chars@.len(),
            strip_tail(chars@.take(to as int), c) == strip_tail(chars@, c),
        decreases to,
    {
        assert(chars@.take(to as int).drop_last() =~= chars@.take(to - 1));
        to = to - 1;
    }
    assert(chars@.subrange(0, to as int) =~= chars@.take(to as int));
    string_of(&chars, 0, to)
}

/// A text without `c` characters at either end.
pub open spec fn strip_ends(s: Seq<char>, c: char) -> Seq<char> {
    strip_tail(strip_lead(s, c), c)
}

/// Stripping the ends of a text leaves a stretch of it.
pub proof fn strip_ends_within(s: Seq<char>, c: char)
    ensures
        forall|i: int| 0 <= i < strip_ends(s, c).len() ==> s.contains(#[trigger] strip_ends(s, c)[i]),
{
    let a = strip_lead(s, c);
    strip_lead_within(s, c);
    strip_tail_within(a, c);
    assert forall|i: int| 0 <= i < strip_ends(s, c).len() implies s.contains(#[trigger] strip_ends(s, c)[i]) by {
        let x = strip_ends(s, c)[i];
        assert(a.contains(x));
        let k = choose|k: int| 0 <= k < a.len() && a[k] == x;
        assert(s.contains(a[k]));
    }
}

proof fn strip_lead_within(s: Seq<char>, c: char)
    ensures
        forall|i: int| 0 <= i < strip_lead(s, c).len() ==> s.contains(#[trigger] strip_lead(s, c)[i]),
    decreases s.len(),
{
    if s.len() > 0 && s[0] == c {
        strip_lead_within(s.skip(1), c);
        assert forall|i: int| 0 <= i < strip_lead(s, c).len() implies s.contains(#[trigger] strip_lead(s, c)[i]) by {
            let x = strip_lead(s.skip(1), c)[i];
            assert(s.skip(1).contains(x));
            let k = choose|k: int| 0 <= k < s.skip(1).len() && s.skip(1)[k] == x;
            assert(s[k + 1] == x);
        }
    } else {
        assert forall|i: int| 0 <= i < s.len() implies s.contains(#[trigger] s[i]) by {}
    }
}

proof fn strip_tail_within(s: Seq<char>, c: char)
    ensures
        forall|i: int| 0 <= i < strip_tail(s, c).len() ==> s.contains(#[trigger] strip_tail(s, c)[i]),
    decreases s.len(),
{
    if s.len() > 0 && s.last() == c {
        strip_tail_within(s.drop_last(), c);
        assert forall|i: int| 0 <= i < strip_tail(s, c).len() implies s.contains(#[trigger] strip_tail(s, c)[i]) by {
            let x = strip_tail(s.drop_last(), c)[i];
            assert(s.drop_last().contains(x));
            let k = choose|k: int| 0 <= k < s.drop_last().len() && s.drop_last()[k] == x;
            assert(s[k] == x);
        }
    } else {
        assert forall|i: int| 0 <= i < s.len() implies s.contains(#[trigger] s[i]) by {}
    }
}

/// A text without `c` characters at either end.
pub fn trim_char(s: &str, c: char) -> (r: String)
    ensures
        r@ == strip_ends(s@, c),
{
    trim_end_char(trim_start_char(s, c).as_str(), c)
}

/// A text without one trailing carriage return.
pub open spec fn without_cr(s: Seq<char>) -> Seq<char> {
    if s.len() > 0 && s.last() == '\r' {
        s.drop_last()
    } else {
        s
    }
}

/// The lines of a text: each ends at a `\n`, which does not belong to it, nor does a `\r` before that; what
/// stands behind the last `\n` is a line of its own where it is not empty.
pub open spec fn lines_of(s: Seq<char>) -> Seq<Seq<char>> {
    let p = split_on(s, '\n');
    Seq::new(
        if p.last().len() == 0 {
            (p.len() - 1) as nat
        } else {
            p.len()
        },
        |i: int|
            if i < p.len() - 1 {
                without_cr(p[i])
            } else {
                p[i]
            },
    )
}

/// The lines of a text.
pub fn lines(s: &str) -> (r: Vec<String>)
    ensures
        views(r@) == lines_of(s@),
{
    let pieces: Vec<String> = split(s, '\n');
    let n: usize = pieces.len();
    let ghost p = views(pieces@);
    let mut out: Vec<String> = Vec::new();
    let mut i: usize = 0;
    while i < n - 1
        invariant
            i <= n - 1,
            1 <= n == pieces@.len(),
            p == views(pieces@),
            out@.len() == i,
            forall|k: int| 0 <= k < i ==> (#[trigger] out@[k])@ == without_cr(p[k]),
        decreases n - i,
    {
        let chars: Vec<char> = chars_of(pieces[i].as_str());
        let len: usize = chars.len();
        let end: usize = if len > 0 && chars[len - 1] == '\r' {
            len - 1
        } else {
            len
        };
        assert(p[i as int] == chars@);
        assert(chars@.subrange(0, end as int) =~= without_cr(p[i as int]));
        out.push(string_of(&chars, 0, end));
        i = i + 1;
    }
    if !pieces[n - 1].as_str().is_empty() {
        out.push(pieces[n - 1].clone());
    }
    assert(views(out@) =~= lines_of(s@));
    out
}

/// The pieces with the text `sep` between each two.
pub open spec fn join_by(parts: Seq<Seq<char>>, sep: Seq<char>) -> Seq<char>
    decreases parts.len(),
{
    if parts.len() == 0 {
        Seq::empty()
    } else if parts.len() == 1 {
        parts[0]
    } else {
        join_by(parts.drop_last(), sep) + sep + parts.last()
    }
}

/// The pieces with the text `sep` between each two.
pub fn join_text(parts: &Vec<String>, sep: &str) -> (r: String)
    ensures
        r@ == join_by(views(parts@), sep@),
{
    let mut out: String = String::new();
    let mut i: usize = 0;
    assert(views(parts@).take(0) =~= Seq::<Seq<char>>::empty());
    while i < parts.len()
        invariant
            i <= parts@.len(),
            out@ == join_by(views(parts@).take(i as int), sep@),
        decreases parts@.len() - i,
    {
        let ghost next = views(parts@).take(i as int + 1);
        assert(next.drop_last() =~= views(parts@).take(i as int));
        if i > 0 {
            out.append(sep);
        }
        out.append(parts[i].as_str());
        assert(out@ =~= join_by(next, sep@));
        i = i + 1;
    }
    assert(views(parts@).take(parts@.len() as int) =~= views(parts@));
    out
}

/// The number of characters before the first white space.
pub open spec fn head_len(s: Seq<char>) -> nat
    decreases s.len(),
{
    if s.len() == 0 || is_white(s[0]) {
        0
    } else {
        1 + head_len(s.skip(1))
    }
}

/// The text before the first white space.
pub open spec fn head_of(s: Seq<char>) -> Seq<char> {
    s.take(head_len(s) as int)
}

/// The trimmed text behind the first white space; empty where there is none.
pub open spec fn rest_of(s: Seq<char>) -> Seq<char> {
    if head_len(s) < s.len() {
        trim(s.skip(head_len(s) as int + 1))
    } else {
        Seq::empty()
    }
}

/// The first white space of a text is where its head ends.
pub proof fn head_len_is_first_white(s: Seq<char>, n: int)
    requires
        0 <= n <= s.len(),
        forall|i: int| 0 <= i < n ==> !is_white(#[trigger] s[i]),
        n < s.len() ==> is_white(s[n]),
    ensures
        head_len(s) == n,
    decreases n,
{
    if n > 0 {
        assert forall|i: int| 0 <= i < n - 1 implies !is_white(#[trigger] s.skip(1)[i]) by {
            assert(s.skip(1)[i] == s[i + 1]);
        }
        head_len_is_first_white(s.skip(1), n - 1);
    }
}

/// The second of the words that white space parts a text into.
pub open spec fn second_word(s: Seq<char>) -> Option<Seq<char>> {
    let first = trim_start(s);
    let rest = trim_start(first.skip(head_len(first) as int));
    if rest.len() == 0 {
        None
    } else {
        Some(head_of(rest))
    }
}

fn word_end(chars: &Vec<char>, from: usize) -> (r: usize)
    requires
        from <= chars@.len(),
    ensures
        from <= r <= chars@.len(),
        head_len(chars@.skip(from as int)) == r - from,
{
    let mut n: usize = from;
    while n < chars.len() && !is_whitespace(chars[n])
        invariant
            from <= n <= chars@.len(),
            forall|i: int| from <= i < n ==> !is_white(#[trigger] chars@[i]),
        decreases chars@.len() - n,
    {
        n = n + 1;
    }
    proof {
        let s = chars@.skip(from as int);
        assert forall|i: int| 0 <= i < n - from implies !is_white(#[trigger] s[i]) by {
            assert(s[i] == chars@[from + i]);
        }
        head_len_is_first_white(s, n - from);
    }
    n
}

fn word_start(chars: &Vec<char>, from: usize) -> (r: usize)
    requires
        from <= chars@.len(),
    ensures
        from <= r <= chars@.len(),
        chars@.skip(r as int) == trim_start(chars@.skip(from as int)),
{
    let mut i: usize = from;
    while i < chars.len() && is_whitespace(chars[i])
        invariant
            from <= i <= chars@.len(),
            trim_start(chars@.skip(i as int)) == trim_start(chars@.skip(from as int)),
        decreases chars@.len() - i,
    {
        assert(chars@.skip(i as int).skip(1) =~= chars@.skip(i as int + 1));
        i = i + 1;
    }
    i
}

/// The second of the words that white space parts a text into.
pub fn find_second_word(s: &str) -> (r: Option<String>)
    ensures
        match r {
            Some(w) => second_word(s@) == Some(w@),
            None => second_word(s@) is None,
        },
{
    let chars: Vec<char> = chars_of(s);
    assert(chars@.skip(0) =~= chars@);
    let a: usize = word_start(&chars, 0);
    let b: usize = word_end(&chars, a);
    assert(chars@.skip(a as int).skip(b - a) =~= chars@.skip(b as int));
    let c: usize = word_start(&chars, b);
    if c == chars.len() {
        return None;
    }
    let d: usize = word_end(&chars, c);
    assert(chars@.subrange(c as int, d as int) =~= chars@.skip(c as int).take(d - c));
    Some(string_of(&chars, c, d))
}

/// The first of the words that white space parts a text into; empty where there is none.
pub open spec fn first_word(s: Seq<char>) -> Seq<char> {
    head_of(trim_start(s))
}

/// The first of the words that white space parts a text into; empty where there is none.
pub fn find_first_word(s: &str) -> (r: String)
    ensures
        r@ == first_word(s@),
{
    let chars: Vec<char> = chars_of(s);
    assert(chars@.skip(0) =~= chars@);
    let a: usize = word_start(&chars, 0);
    let b: usize = word_end(&chars, a);
    assert(chars@.subrange(a as int, b as int) =~= chars@.skip(a as int).take(b - a));
    string_of(&chars, a, b)
}

/// `a` comes before `b` in dictionary order of their characters.
pub open spec fn before(a: Seq<char>, b: Seq<char>) -> bool
    decreases a.len(),
{
    if b.len() == 0 {
        false
    } else if a.len() == 0 {
        true
    } else if a[0] == b[0] {
        before(a.skip(1), b.skip(1))
    } else {
        a[0] < b[0]
    }
}

/// Dictionary order is total: of two different texts, one comes before the other.
pub proof fn before_is_total(a: Seq<char>, b: Seq<char>)
    ensures
        a == b || before(a, b) || before(b, a),
    decreases a.len(),
{
    if a.len() > 0 && b.len() > 0 && a[0] == b[0] {
        before_is_total(a.skip(1), b.skip(1));
        if a.skip(1) == b.skip(1) {
            assert(a =~= seq![a[0]] + a.skip(1));
            assert(b =~= seq![b[0]] + b.skip(1));
        }
    } else if a.len() == 0 && b.len() == 0 {
        assert(a =~= b);
    }
}

/// Dictionary order is transitive.
pub proof fn before_is_transitive(a: Seq<char>, b: Seq<char>, c: Seq<char>)
    requires
        before(a, b),
        before(b, c),
    ensures
        before(a, c),
    decreases a.len(),
{
    if a.len() > 0 && a[0] == b[0] && b[0] == c[0] {
        before_is_transitive(a.skip(1), b.skip(1), c.skip(1));
    }
}

/// Nothing comes before itself.
pub proof fn before_is_strict(a: Seq<char>)
    ensures
        !before(a, a),
    decreases a.len(),
{
    if a.len() > 0 {
        before_is_strict(a.skip(1));
    }
}

/// Whether `a` comes before `b` in dictionary order.
pub fn comes_before(a: &str, b: &str) -> (r: bool)
    ensures
        r == before(a@, b@),
{
    let x: Vec<char> = chars_of(a);
    let y: Vec<char> = chars_of(b);
    let mut i: usize = 0;
    assert(x@.skip(0) =~= x@);
    assert(y@.skip(0) =~= y@);
    while i < x.len() && i < y.len() && x[i] == y[i]
        invariant
            i <= x@.len(),
            i <= y@.len(),
            before(x@.skip(i as int), y@.skip(i as int)) == before(x@, y@),
        decreases x@.len() - i,
    {
        assert(x@.skip(i as int).skip(1) =~= x@.skip(i as int + 1));
        assert(y@.skip(i as int).skip(1) =~= y@.skip(i as int + 1));
        i = i + 1;
    }
    if i == y.len() {
        false
    } else if i == x.len() {
        true
    } else {
        x[i] < y[i]
    }
}

/// The text before the first white space, and the trimmed text behind it.
pub fn split_head(s: &str) -> (r: (String, String))
    ensures
        r.0@ == head_of(s@),
        r.1@ == rest_of(s@),
{
    let chars: Vec<char> = chars_of(s);
    let mut n: usize = 0;
    while n < chars.len() && !is_whitespace(chars[n])
        invariant
            n <= chars@.len(),
            forall|i: int| 0 <= i < n ==> !is_white(#[trigger] chars@[i]),
        decreases chars@.len() - n,
    {
        n = n + 1;
    }
    proof {
        head_len_is_first_white(chars@, n as int);
        assert(chars@.subrange(0, n as int) =~= chars@.take(n as int));
    }
    let head: String = string_of(&chars, 0, n);
    if n < chars.len() {
        let tail: String = string_of(&chars, n + 1, chars.len());
        assert(tail@ =~= chars@.skip(n as int + 1));
        (head, trimmed(tail.as_str()))
    } else {
        let none: String = String::new();
        assert(none@ =~= Seq::<char>::empty());
        (head, none)
    }
}

/// A text of `n` times the character `c`.
pub open spec fn repeated(c: char, n: nat) -> Seq<char> {
    Seq::new(n, |i: int| c)
}

/// A text of `n` times the character `c`.
pub fn repeat_char(c: char, n: usize) -> (r: String)
    ensures
        r@ == repeated(c, n as nat),
{
    let mut out: String = String::new();
    let mut i: usize = 0;
    while i < n
        invariant
            i <= n,
            out@ =~= repeated(c, i as nat),
        decreases n - i,
    {
        out.push(c);
        i = i + 1;
    }
    out
}

/// The number of characters of a text.
pub fn char_count(s: &str) -> (r: usize)
    ensures
        r == s@.len(),
{
    chars_of(s).len()
}

/// A text without white space is its own trimmed form and its own head.
pub proof fn solid_text(s: Seq<char>)
    requires
        forall|i: int| 0 <= i < s.len() ==> !is_white(#[trigger] s[i]),
    ensures
        trim(s) == s,
        head_of(s) == s,
        rest_of(s).len() == 0,
{
    head_len_is_first_white(s, s.len() as int);
    assert(s.take(s.len() as int) =~= s);
}

/// `s` begins with `p`.
pub open spec fn begins(s: Seq<char>, p: Seq<char>) -> bool {
    p.len() <= s.len() && s.take(p.len() as int) == p
}

/// Whether `p` stands in `chars` at position `at`.
fn stands_at(chars: &Vec<char>, p: &Vec<char>, at: usize) -> (r: bool)
    requires
        at + p@.len() <= chars@.len(),
    ensures
        r == (chars@.subrange(at as int, at + p@.len()) == p@),
{
    let mut k: usize = 0;
    while k < p.len()
        invariant
            k <= p@.len(),
            at + p@.len() <= chars.len(),
            forall|m: int| 0 <= m < k ==> chars@[at + m] == p@[m],
        decreases p@.len() - k,
    {
        if chars[at + k] != p[k] {
            assert(chars@.subrange(at as int, at + p@.len())[k as int] != p@[k as int]);
            return false;
        }
        k = k + 1;
    }
    assert(chars@.subrange(at as int, at + p@.len()) =~= p@);
    true
}

/// Whether `s` begins with `p`.
pub fn starts_with(s: &str, p: &str) -> (r: bool)
    ensures
        r == begins(s@, p@),
{
    let chars: Vec<char> = chars_of(s);
    let pat: Vec<char> = chars_of(p);
    if pat.len() > chars.len() {
        return false;
    }
    assert(chars@.subrange(0, pat@.len() as int) =~= s@.take(p@.len() as int));
    stands_at(&chars, &pat, 0)
}

/// `s` ends with `p`.
pub open spec fn ends(s: Seq<char>, p: Seq<char>) -> bool {
    p.len() <= s.len() && s.skip(s.len() - p.len()) == p
}

/// `s` without any number of `p` at its end.
pub open spec fn without_suffixes(s: Seq<char>, p: Seq<char>) -> Seq<char>
    decreases s.len(),
{
    if p.len() > 0 && ends(s, p) {
        without_suffixes(s.take(s.len() - p.len()), p)
    } else {
        s
    }
}

/// `s` without any number of `p` at its end.
pub fn trim_end_matches(s: &str, p: &str) -> (r: String)
    ensures
        r@ == without_suffixes(s@, p@),
{
    let chars: Vec<char> = chars_of(s);
    let pat: Vec<char> = chars_of(p);
    let mut end: usize = chars.len();
    assert(chars@.take(end as int) =~= s@);
    while 0 < pat.len() && pat.len() <= end && stands_at(&chars, &pat, end - pat.len())
        invariant
            end <= chars@.len(),
            pat@ == p@,
            without_suffixes(chars@.take(end as int), p@) == without_suffixes(s@, p@),
        decreases end,
    {
        assert(chars@.take(end as int).skip(end - pat@.len()) =~= chars@.subrange(
            end - pat@.len(),
            end as int,
        ));
        assert(chars@.take(end as int).take(end - pat@.len()) =~= chars@.take(end - pat@.len()));
        end = end - pat.len();
    }
    proof {
        if 0 < pat@.len() <= end {
            assert(chars@.take(end as int).skip(end - pat@.len()) =~= chars@.subrange(
                end - pat@.len(),
                end as int,
            ));
        }
        assert(chars@.subrange(0, end as int) =~= chars@.take(end as int));
    }
    string_of(&chars, 0, end)
}

/// `p` stands in `s` at position `at`.
pub open spec fn occurs_at(s: Seq<char>, p: Seq<char>, at: int) -> bool {
    0 <= at && at + p.len() <= s.len() && s.subrange(at, at + p.len()) == p
}

/// `p` stands somewhere in `s`.
pub open spec fn occurs(s: Seq<char>, p: Seq<char>) -> bool {
    exists|at: int| occurs_at(s, p, at)
}

/// Whether `p` stands somewhere in `s`.
pub fn contains(s: &str, p: &str) -> (r: bool)
    ensures
        r == occurs(s@, p@),
{
    let chars: Vec<char> = chars_of(s);
    let pat: Vec<char> = chars_of(p);
    if pat.len() > chars.len() {
        return false;
    }
    let mut at: usize = 0;
    let last: usize = chars.len() - pat.len();
    loop
        invariant
            at <= last,
            last == chars@.len() - pat@.len(),
            chars@ == s@,
            pat@ == p@,
            forall|k: int| 0 <= k < at ==> !occurs_at(s@, p@, k),
        decreases last - at,
    {
        if stands_at(&chars, &pat, at) {
            assert(occurs_at(s@, p@, at as int));
            return true;
        }
        if at == last {
            return false;
        }
        at = at + 1;
    }
}

/// The ASCII lowercase form of a character; other characters are themselves.
pub open spec fn ascii_lower(c: char) -> char {
    if 'A' <= c <= 'Z' {
        (c as u8 + 32) as u8 as char
    } else {
        c
    }
}

/// A text with each ASCII capital replaced by its lowercase form.
pub open spec fn ascii_lowercase(s: Seq<char>) -> Seq<char> {
    Seq::new(s.len(), |i: int| ascii_lower(s[i]))
}

/// A text with each ASCII capital replaced by its lowercase form.
pub fn to_ascii_lowercase(s: &str) -> (r: String)
    ensures
        r@ == ascii_lowercase(s@),
{
    let mut out: String = String::new();
    for c in it: s.chars()
        invariant
            it.seq() == s@,
            out@ == ascii_lowercase(s@.take(it.index() as int)),
    {
        if 'A' <= c && c <= 'Z' {
            out.push((c as u8 + 32) as char);
        } else {
            out.push(c);
        }
        assert(out@ =~= ascii_lowercase(s@.take(it.index() as int + 1)));
    }
    assert(s@.take(s@.len() as int) =~= s@);
    out
}

/// The character of a decimal digit.
pub open spec fn digit_char(d: int) -> char {
    (48 + d) as u8 as char
}

/// The decimal notation of a number.
pub open spec fn decimal(n: int) -> Seq<char>
    decreases n,
{
    if n < 10 {
        seq![digit_char(n)]
    } else {
        decimal(n / 10).push(digit_char(n % 10))
    }
}

/// The value of a digit.
pub open spec fn digit_value(c: char) -> int {
    c as int - 48
}

/// The number that decimal digits denote.
pub open spec fn number_of(s: Seq<char>) -> int
    decreases s.len(),
{
    if s.len() == 0 {
        0
    } else {
        10 * number_of(s.drop_last()) + digit_value(s.last())
    }
}

/// The decimal notation of a number denotes it, in digits and without a leading zero; so two numbers that are written
/// alike are the same.
pub proof fn decimal_reads_back(n: int)
    requires
        n >= 0,
    ensures
        number_of(decimal(n)) == n,
        decimal(n).len() > 0,
        forall|i: int| 0 <= i < decimal(n).len() ==> '0' <= #[trigger] decimal(n)[i] <= '9',
        decimal(n)[0] == '0' ==> n == 0,
    decreases n,
{
    if n < 10 {
        reveal_with_fuel(number_of, 2);
        assert(decimal(n).drop_last() =~= Seq::<char>::empty());
    } else {
        decimal_reads_back(n / 10);
        assert(decimal(n).drop_last() =~= decimal(n / 10));
    }
}

/// The decimal notation of a number.
pub fn decimal_of(n: u64) -> (r: String)
    ensures
        r@ == decimal(n as int),
    decreases n,
{
    let mut out: String = if n < 10 {
        String::new()
    } else {
        decimal_of(n / 10)
    };
    let d: u8 = (n % 10) as u8;
    out.push((48 + d) as char);
    assert(out@ =~= decimal(n as int));
    out
}

/// How many bytes a character takes in a string.
pub open spec fn char_bytes(c: char) -> nat {
    if (c as u32) < 0x80 {
        1
    } else if (c as u32) < 0x800 {
        2
    } else if (c as u32) < 0x10000 {
        3
    } else {
        4
    }
}

/// How many bytes a character takes in a string.
pub fn bytes_of(c: char) -> (r: usize)
    ensures
        r == char_bytes(c),
{
    let code: u32 = c as u32;
    if code < 0x80 {
        1
    } else if code < 0x800 {
        2
    } else if code < 0x10000 {
        3
    } else {
        4
    }
}

/// How many bytes a text takes.
pub open spec fn text_bytes(s: Seq<char>) -> nat
    decreases s.len(),
{
    if s.len() == 0 {
        0
    } else {
        char_bytes(s[0]) + text_bytes(s.drop_first())
    }
}

/// The longest end of a text that takes at most `n` bytes.
pub open spec fn tail_of_bytes(s: Seq<char>, n: nat) -> Seq<char>
    decreases s.len(),
{
    if s.len() == 0 || text_bytes(s) <= n {
        s
    } else {
        tail_of_bytes(s.drop_first(), n)
    }
}

/// Whether the characters from `from` on take at most `n` bytes.
fn end_within(chars: &Vec<char>, from: usize, n: usize) -> (r: bool)
    requires
        from <= chars@.len(),
    ensures
        r == (text_bytes(chars@.skip(from as int)) <= n),
{
    let mut i: usize = from;
    let mut left: usize = n;
    while i < chars.len()
        invariant
            from <= i <= chars@.len(),
            left <= n,
            text_bytes(chars@.skip(from as int)) == (n - left) + text_bytes(chars@.skip(i as int)),
        decreases chars@.len() - i,
    {
        let width: usize = bytes_of(chars[i]);
        assert(chars@.skip(i as int)[0] == chars@[i as int]);
        assert(chars@.skip(i as int).drop_first() =~= chars@.skip(i + 1));
        if width > left {
            return false;
        }
        left = left - width;
        i = i + 1;
    }
    true
}

/// Whether a text takes at most `n` bytes.
pub fn bytes_within(s: &str, n: usize) -> (r: bool)
    ensures
        r == (text_bytes(s@) <= n),
{
    let chars: Vec<char> = chars_of(s);
    assert(chars@.skip(0) =~= chars@);
    end_within(&chars, 0, n)
}

/// The longest end of a text that takes at most `n` bytes.
pub fn take_end(s: &str, n: usize) -> (r: String)
    ensures
        r@ == tail_of_bytes(s@, n as nat),
{
    let chars: Vec<char> = chars_of(s);
    let mut from: usize = 0;
    assert(s@.skip(0) =~= s@);
    while from < chars.len() && !end_within(&chars, from, n)
        invariant
            chars@ == s@,
            from <= s@.len(),
            tail_of_bytes(s@, n as nat) == tail_of_bytes(s@.skip(from as int), n as nat),
        decreases s@.len() - from,
    {
        assert(s@.skip(from as int).drop_first() =~= s@.skip(from + 1));
        from = from + 1;
    }
    let end: String = string_of(&chars, from, chars.len());
    assert(end@ =~= s@.skip(from as int));
    end
}

/// The lines of a text without carriage returns are what stands between its line breaks; a line break at the very end
/// begins no further line.
pub proof fn lines_end_at_breaks(s: Seq<char>)
    requires
        !s.contains('\r'),
    ensures
        s.len() > 0 && s.last() != '\n' ==> lines_of(s).len() == split_on(s, '\n').len(),
        s.len() > 0 && s.last() == '\n' ==> lines_of(s).len() == split_on(s, '\n').len() - 1,
        s.len() == 0 ==> lines_of(s).len() == 0,
{
    split_on_nonempty(s, '\n');
    if s.len() > 0 {
        split_on_nonempty(s.drop_last(), '\n');
    }
}

} // verus!
