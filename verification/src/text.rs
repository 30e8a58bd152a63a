use vstd::prelude::*;

verus! {

broadcast use vstd::string::group_string_axioms;

/// Appends one character to a string.
///
/// Trusted: `String::push` adds `c` at the end and leaves the rest as it was.
#[verifier::external_body]
pub fn push_char(s: &mut String, c: char)
    ensures
        final(s)@ == old(s)@.push(c),
{
    s.push(c);
}

/// The characters of `s`, in order.
pub fn chars_of(s: &str) -> (v: Vec<char>)
    ensures
        v@ == s@,
{
    let mut v: Vec<char> = Vec::new();
    for c in it: s.chars()
        invariant
            it.seq() == s@,
            v@ == s@.take(it.index() as int),
    {
        v.push(c);
    }
    v
}


/// Removes the last character of a string and hands it back.
///
/// Trusted: `String::pop` returns `None` and changes nothing on an empty
/// string, and otherwise removes and returns the last character.
#[verifier::external_body]
pub fn pop_char(s: &mut String) -> (r: Option<char>)
    ensures
        old(s)@.len() == 0 ==> r is None && final(s)@ == old(s)@,
        old(s)@.len() > 0 ==> r == Some(old(s)@.last()) && final(s)@ == old(s)@.drop_last(),
{
    s.pop()
}

/// What `str::to_lowercase` makes of a string (Unicode lowercase mapping).
pub uninterp spec fn lowercase_of(s: Seq<char>) -> Seq<char>;

/// Trusted: `str::to_lowercase`, whose result depends on the string alone and
/// is named `lowercase_of`; the Unicode case tables are not written out here.
#[verifier::external_body]
pub fn to_lowercase(s: &str) -> (r: String)
    ensures
        r@ == lowercase_of(s@),
{
    s.to_lowercase()
}

/// A string holding the given characters.
pub fn string_of(v: &Vec<char>) -> (s: String)
    ensures
        s@ == v@,
{
    let mut s = String::new();
    for i in 0..v.len()
        invariant
            s@ == v@.take(i as int),
    {
        push_char(&mut s, v[i]);
        assert(v@.take(i as int).push(v@[i as int]) =~= v@.take(i + 1));
    }
    assert(v@.take(v.len() as int) =~= v@);
    s
}

/// `s` followed by `t`.
pub fn joined(s: &str, t: &str) -> (r: String)
    ensures
        r@ == s@ + t@,
{
    let mut r = s.to_owned();
    r.append(t);
    r
}

/// Whether `s` begins with `prefix`.
pub fn starts_with(s: &str, prefix: &str) -> (r: bool)
    ensures
        r == prefix@.is_prefix_of(s@),
{
    let a = chars_of(s);
    let b = chars_of(prefix);
    if b.len() > a.len() {
        return false;
    }
    for i in 0..b.len()
        invariant
            b.len() <= a.len(),
            a@ == s@,
            b@ == prefix@,
            forall|j: int| 0 <= j < i ==> a@[j] == b@[j],
    {
        if a[i] != b[i] {
            return false;
        }
    }
    true
}

/// The decimal digit character for `d` (below ten).
pub open spec fn digit_char(d: nat) -> char {
    if d == 0 { '0' }
    else if d == 1 { '1' }
    else if d == 2 { '2' }
    else if d == 3 { '3' }
    else if d == 4 { '4' }
    else if d == 5 { '5' }
    else if d == 6 { '6' }
    else if d == 7 { '7' }
    else if d == 8 { '8' }
    else { '9' }
}

/// The decimal notation of `n`, without sign or leading zeros, as `Display` prints it.
pub open spec fn decimal_of(n: nat) -> Seq<char>
    decreases n,
{
    if n < 10 {
        seq![digit_char(n)]
    } else {
        decimal_of(n / 10).push(digit_char(n % 10))
    }
}

fn digit(d: u64) -> (c: char)
    requires
        d < 10,
    ensures
        c == digit_char(d as nat),
{
    if d == 0 { '0' }
    else if d == 1 { '1' }
    else if d == 2 { '2' }
    else if d == 3 { '3' }
    else if d == 4 { '4' }
    else if d == 5 { '5' }
    else if d == 6 { '6' }
    else if d == 7 { '7' }
    else if d == 8 { '8' }
    else { '9' }
}

/// The decimal notation of `n`.
pub fn decimal(n: u64) -> (s: String)
    ensures
        s@ == decimal_of(n as nat),
    decreases n,
{
    if n < 10 {
        let mut s = String::new();
        push_char(&mut s, digit(n));
        assert(s@ =~= seq![digit_char(n as nat)]);
        s
    } else {
        let mut s = decimal(n / 10);
        push_char(&mut s, digit(n % 10));
        s
    }
}


/// The decimal notation of `n`.
pub fn decimal_u128(n: u128) -> (s: String)
    ensures
        s@ == decimal_of(n as nat),
    decreases n,
{
    if n < 10 {
        let mut s = String::new();
        push_char(&mut s, digit((n % 10) as u64));
        assert(s@ =~= seq![digit_char(n as nat)]);
        s
    } else {
        let mut s = decimal_u128(n / 10);
        push_char(&mut s, digit((n % 10) as u64));
        s
    }
}

/// A character with the Unicode `White_Space` property, as `char::is_whitespace` tests.
pub open spec fn is_space(c: char) -> bool {
    ||| ('\u{9}' <= c && c <= '\u{d}')
    ||| c == ' '
    ||| c == '\u{85}'
    ||| c == '\u{a0}'
    ||| c == '\u{1680}'
    ||| ('\u{2000}' <= c && c <= '\u{200a}')
    ||| c == '\u{2028}'
    ||| c == '\u{2029}'
    ||| c == '\u{202f}'
    ||| c == '\u{205f}'
    ||| c == '\u{3000}'
}

/// Whether `c` is white space.
pub fn space(c: char) -> (r: bool)
    ensures
        r == is_space(c),
{
    ('\u{9}' <= c && c <= '\u{d}') || c == ' ' || c == '\u{85}' || c == '\u{a0}' || c == '\u{1680}'
        || ('\u{2000}' <= c && c <= '\u{200a}') || c == '\u{2028}' || c == '\u{2029}' || c == '\u{202f}'
        || c == '\u{205f}' || c == '\u{3000}'
}

/// `s` without its leading white space.
pub open spec fn trim_start_of(s: Seq<char>) -> Seq<char>
    decreases s.len(),
{
    if s.len() > 0 && is_space(s[0]) { trim_start_of(s.drop_first()) } else { s }
}

/// `s` without its trailing white space.
pub open spec fn trim_end_of(s: Seq<char>) -> Seq<char>
    decreases s.len(),
{
    if s.len() > 0 && is_space(s.last()) { trim_end_of(s.drop_last()) } else { s }
}

/// `s` without leading and trailing white space, as `str::trim` gives it.
pub open spec fn trim_of(s: Seq<char>) -> Seq<char> {
    trim_end_of(trim_start_of(s))
}

/// `s` without leading and trailing white space.
pub fn trim(s: &Vec<char>) -> (r: Vec<char>)
    ensures
        r@ == trim_of(s@),
{
    let n = s.len();
    let mut a: usize = 0;
    assert(s@.skip(0) =~= s@);
    while a < n && space(s[a])
        invariant
            a <= n,
            n == s@.len(),
            trim_start_of(s@) == trim_start_of(s@.skip(a as int)),
        decreases n - a,
    {
        assert(s@.skip(a as int).drop_first() =~= s@.skip(a + 1));
        a = a + 1;
    }
    let ghost t = s@.skip(a as int);
    assert(trim_start_of(s@) == t) by {
        if a < n {
            assert(t[0] == s@[a as int]);
        }
    }
    let mut b: usize = n;
    while b > a && space(s[b - 1])
        invariant
            a <= b <= n,
            n == s@.len(),
            t == s@.skip(a as int),
            trim_of(s@) == trim_end_of(s@.subrange(a as int, b as int)),
        decreases b - a,
    {
        assert(s@.subrange(a as int, b as int).drop_last() =~= s@.subrange(a as int, b - 1));
        b = b - 1;
    }
    assert(trim_of(s@) == s@.subrange(a as int, b as int)) by {
        if b > a {
            assert(s@.subrange(a as int, b as int).last() == s@[b - 1]);
        }
    }
    let mut r: Vec<char> = Vec::new();
    let mut i = a;
    while i < b
        invariant
            a <= i <= b <= n,
            n == s@.len(),
            r@ == s@.subrange(a as int, i as int),
        decreases b - i,
    {
        r.push(s[i]);
        assert(s@.subrange(a as int, i + 1) =~= s@.subrange(a as int, i as int).push(s@[i as int]));
        i = i + 1;
    }
    assert(t.len() == n - a);
    assert(s@.subrange(a as int, n as int) =~= t);
    r
}

/// The number of bytes that the UTF-8 encoding of `c` takes.
pub open spec fn utf8_width(c: char) -> nat {
    if (c as u32) < 0x80 { 1 } else if (c as u32) < 0x800 { 2 } else if (c as u32) < 0x10000 { 3 } else { 4 }
}

/// The number of bytes that the UTF-8 encoding of `s` takes, as `str::len` counts them.
pub open spec fn byte_len(s: Seq<char>) -> nat
    decreases s.len(),
{
    if s.len() == 0 { 0 } else { byte_len(s.drop_last()) + utf8_width(s.last()) }
}

/// The number of bytes that the UTF-8 encoding of `c` takes.
pub fn char_width(c: char) -> (w: u128)
    ensures
        w == utf8_width(c),
        1 <= w <= 4,
{
    let v = c as u32;
    if v < 0x80 { 1 } else if v < 0x800 { 2 } else if v < 0x10000 { 3 } else { 4 }
}

/// A text takes at most four bytes a character.
pub proof fn lemma_byte_len_bound(s: Seq<char>)
    ensures
        s.len() <= byte_len(s) <= 4 * s.len(),
    decreases s.len(),
{
    if s.len() > 0 {
        lemma_byte_len_bound(s.drop_last());
    }
}

/// The byte length of two texts one after the other is the sum of theirs.
pub proof fn lemma_byte_len_concat(s: Seq<char>, t: Seq<char>)
    ensures
        byte_len(s + t) == byte_len(s) + byte_len(t),
    decreases t.len(),
{
    if t.len() > 0 {
        assert((s + t).drop_last() =~= s + t.drop_last());
        lemma_byte_len_concat(s, t.drop_last());
    } else {
        assert(s + t =~= s);
    }
}

/// The number of bytes of `s`.
pub fn bytes_of(s: &Vec<char>) -> (n: u128)
    ensures
        n == byte_len(s@),
{
    let mut n: u128 = 0;
    for i in 0..s.len()
        invariant
            n == byte_len(s@.take(i as int)),
    {
        proof {
            lemma_byte_len_bound(s@.take(i as int));
            assert(s@.take(i + 1).drop_last() =~= s@.take(i as int));
        }
        n = n + char_width(s[i]);
    }
    assert(s@.take(s.len() as int) =~= s@);
    n
}


/// The pieces of `s` cut at each `sep`, seen from the left: the finished
/// pieces, and the piece still open.
pub open spec fn split_acc(s: Seq<char>, sep: char) -> (Seq<Seq<char>>, Seq<char>)
    decreases s.len(),
{
    if s.len() == 0 {
        (Seq::empty(), Seq::empty())
    } else {
        let (done, cur) = split_acc(s.drop_last(), sep);
        if s.last() == sep {
            (done.push(cur), Seq::empty())
        } else {
            (done, cur.push(s.last()))
        }
    }
}

/// The pieces of `s` between occurrences of `sep`, as `str::split` gives them
/// (an empty text gives one empty piece).
pub open spec fn split_on(s: Seq<char>, sep: char) -> Seq<Seq<char>> {
    let (done, cur) = split_acc(s, sep);
    done.push(cur)
}

/// The words of `s` seen from the left: the finished words, and the word still open.
pub open spec fn words_acc(s: Seq<char>) -> (Seq<Seq<char>>, Seq<char>)
    decreases s.len(),
{
    if s.len() == 0 {
        (Seq::empty(), Seq::empty())
    } else {
        let (done, cur) = words_acc(s.drop_last());
        if is_space(s.last()) {
            if cur.len() > 0 { (done.push(cur), Seq::empty()) } else { (done, Seq::empty()) }
        } else {
            (done, cur.push(s.last()))
        }
    }
}

/// The maximal runs of non-white-space characters of `s`, as
/// `str::split_whitespace` gives them.
pub open spec fn words_of(s: Seq<char>) -> Seq<Seq<char>> {
    let (done, cur) = words_acc(s);
    if cur.len() > 0 { done.push(cur) } else { done }
}

/// The words of each line, one line after another.
pub open spec fn words_of_lines(lines: Seq<Seq<char>>) -> Seq<Seq<char>> {
    lines.map_values(|l: Seq<char>| words_of(l)).flatten()
}

/// The texts held by a list of character vectors.
pub open spec fn views(v: Seq<Vec<char>>) -> Seq<Seq<char>> {
    v.map_values(|x: Vec<char>| x@)
}

/// Cuts `v` at each `sep`.
pub fn split_chars(v: &Vec<char>, sep: char) -> (r: Vec<Vec<char>>)
    ensures
        views(r@) == split_on(v@, sep),
{
    let mut done: Vec<Vec<char>> = Vec::new();
    let mut cur: Vec<char> = Vec::new();
    for i in 0..v.len()
        invariant
            (views(done@), cur@) == split_acc(v@.take(i as int), sep),
    {
        assert(v@.take(i + 1).drop_last() =~= v@.take(i as int));
        if v[i] == sep {
            let piece = cur;
            done.push(piece);
            cur = Vec::new();
            assert(views(done@) =~= split_acc(v@.take(i as int), sep).0.push(piece@));
        } else {
            cur.push(v[i]);
        }
    }
    assert(v@.take(v.len() as int) =~= v@);
    let ghost before = views(done@);
    done.push(cur);
    assert(views(done@) =~= before.push(split_acc(v@, sep).1));
    done
}

/// The words of `v`.
pub fn words(v: &Vec<char>) -> (r: Vec<Vec<char>>)
    ensures
        views(r@) == words_of(v@),
{
    let mut done: Vec<Vec<char>> = Vec::new();
    let mut cur: Vec<char> = Vec::new();
    for i in 0..v.len()
        invariant
            (views(done@), cur@) == words_acc(v@.take(i as int)),
    {
        assert(v@.take(i + 1).drop_last() =~= v@.take(i as int));
        if space(v[i]) {
            if cur.len() > 0 {
                let w = cur;
                done.push(w);
                cur = Vec::new();
                assert(views(done@) =~= words_acc(v@.take(i as int)).0.push(w@));
            } else {
                cur = Vec::new();
            }
        } else {
            cur.push(v[i]);
        }
    }
    assert(v@.take(v.len() as int) =~= v@);
    if cur.len() > 0 {
        let ghost before = views(done@);
        let w = cur;
        done.push(w);
        assert(views(done@) =~= before.push(w@));
    }
    done
}


/// `s` holds no white space.
pub open spec fn spaceless(s: Seq<char>) -> bool {
    forall|i: int| 0 <= i < s.len() ==> !is_space(#[trigger] s[i])
}

/// Every word of a text is non-empty and holds no white space; so is the word still open.
pub proof fn lemma_words_are_words(s: Seq<char>)
    ensures
        spaceless(words_acc(s).1),
        forall|i: int| 0 <= i < words_acc(s).0.len() ==> #[trigger] words_acc(s).0[i].len() > 0
            && spaceless(words_acc(s).0[i]),
        forall|i: int| 0 <= i < words_of(s).len() ==> #[trigger] words_of(s)[i].len() > 0
            && spaceless(words_of(s)[i]),
    decreases s.len(),
{
    if s.len() > 0 {
        lemma_words_are_words(s.drop_last());
    }
}

/// Characters without white space appended to a text extend the word still open.
pub proof fn lemma_words_acc_append(s: Seq<char>, t: Seq<char>)
    requires
        spaceless(t),
    ensures
        words_acc(s + t) == (words_acc(s).0, words_acc(s).1 + t),
    decreases t.len(),
{
    if t.len() == 0 {
        assert(s + t =~= s);
        assert(words_acc(s).1 + t =~= words_acc(s).1);
    } else {
        let t0 = t.drop_last();
        assert(spaceless(t0));
        lemma_words_acc_append(s, t0);
        assert((s + t).drop_last() =~= s + t0);
        assert((s + t).last() == t.last());
        assert(words_acc(s).1 + t0.push(t.last()) =~= words_acc(s).1 + t);
        assert(t0.push(t.last()) =~= t);
    }
}

/// The words of a text, a space and one more word are the text's words and that word.
pub proof fn lemma_words_of_join(c: Seq<char>, w: Seq<char>)
    requires
        w.len() > 0,
        spaceless(w),
    ensures
        words_of(c + seq![' '] + w) == words_of(c).push(w),
{
    let cs = c.push(' ');
    assert(cs.drop_last() =~= c);
    assert(is_space(' '));
    assert(c + seq![' '] + w =~= cs + w);
    lemma_words_acc_append(cs, w);
    assert(words_acc(cs).1 =~= Seq::<char>::empty());
    assert(Seq::<char>::empty() + w =~= w);
}

/// The words of a text cut at a white-space character are the words of its
/// pieces, one piece after another.
pub proof fn lemma_words_of_pieces(s: Seq<char>, c: char)
    requires
        is_space(c),
    ensures
        words_of(s) == words_of_lines(split_on(s, c)),
{
    lemma_words_acc_pieces(s, c);
    let (done, cur) = split_acc(s, c);
    let f = |l: Seq<char>| words_of(l);
    let fd = done.map_values(f).flatten();
    let (wd, wc) = words_acc(cur);
    assert(done.push(cur).map_values(f) =~= done.map_values(f).push(words_of(cur)));
    done.map_values(f).lemma_flatten_push(words_of(cur));
    if wc.len() > 0 {
        assert((fd + wd).push(wc) =~= fd + wd.push(wc));
    }
}

proof fn lemma_words_acc_pieces(s: Seq<char>, c: char)
    requires
        is_space(c),
    ensures
        words_acc(s) == (
            words_of_lines(split_acc(s, c).0) + words_acc(split_acc(s, c).1).0,
            words_acc(split_acc(s, c).1).1,
        ),
    decreases s.len(),
{
    let f = |l: Seq<char>| words_of(l);
    if s.len() == 0 {
        assert(Seq::<Seq<char>>::empty().map_values(f) =~= Seq::<Seq<Seq<char>>>::empty());
        assert(Seq::<Seq<Seq<char>>>::empty().flatten() =~= Seq::<Seq<char>>::empty());
        assert(Seq::<Seq<char>>::empty() + Seq::<Seq<char>>::empty() =~= Seq::<Seq<char>>::empty());
    } else {
        let r = s.drop_last();
        let x = s.last();
        lemma_words_acc_pieces(r, c);
        let (done, cur) = split_acc(r, c);
        let fd = done.map_values(f).flatten();
        let (wd, wc) = words_acc(cur);
        if x == c {
            assert(done.push(cur).map_values(f) =~= done.map_values(f).push(words_of(cur)));
            done.map_values(f).lemma_flatten_push(words_of(cur));
            assert(words_acc(Seq::<char>::empty()) == (Seq::<Seq<char>>::empty(), Seq::<char>::empty()));
            if wc.len() > 0 {
                assert((fd + wd).push(wc) =~= fd + wd.push(wc) + Seq::<Seq<char>>::empty());
            } else {
                assert(fd + wd =~= fd + wd + Seq::<Seq<char>>::empty());
            }
        } else {
            assert(cur.push(x).drop_last() =~= cur);
            assert(cur.push(x).last() == x);
            if is_space(x) && wc.len() > 0 {
                assert((fd + wd).push(wc) =~= fd + wd.push(wc));
            }
        }
    }
}

/// A single word is its only word.
pub proof fn lemma_words_of_word(w: Seq<char>)
    requires
        w.len() > 0,
        spaceless(w),
    ensures
        words_of(w) == seq![w],
{
    lemma_words_acc_append(Seq::empty(), w);
    assert(Seq::<char>::empty() + w =~= w);
    assert(Seq::<Seq<char>>::empty().push(w) =~= seq![w]);
}


/// Trimming keeps only characters of the text, and leaves none of the white
/// space at either end.
pub proof fn lemma_trim(s: Seq<char>)
    ensures
        forall|i: int| 0 <= i < trim_of(s).len() ==> s.contains(#[trigger] trim_of(s)[i]),
        trim_of(s).len() > 0 ==> !is_space(trim_of(s)[0]) && !is_space(trim_of(s).last()),
{
    lemma_trim_start(s);
    lemma_trim_end(trim_start_of(s));
    let t = trim_start_of(s);
    assert forall|i: int| 0 <= i < trim_of(s).len() implies s.contains(#[trigger] trim_of(s)[i]) by {
        assert(t.contains(trim_of(s)[i]));
        let k = choose|k: int| 0 <= k < t.len() && t[k] == trim_of(s)[i];
        assert(s.contains(t[k]));
    }
}

/// Text that neither begins nor ends with white space is left as it is by trimming.
pub proof fn lemma_trim_trimmed(s: Seq<char>)
    requires
        s.len() > 0 ==> !is_space(s[0]) && !is_space(s.last()),
    ensures
        trim_of(s) == s,
{
    assert(trim_start_of(s) == s);
    assert(trim_end_of(s) == s);
}

proof fn lemma_trim_start(s: Seq<char>)
    ensures
        forall|i: int| 0 <= i < trim_start_of(s).len() ==> s.contains(#[trigger] trim_start_of(s)[i]),
        trim_start_of(s).len() > 0 ==> !is_space(trim_start_of(s)[0]),
    decreases s.len(),
{
    if s.len() > 0 && is_space(s[0]) {
        let r = s.drop_first();
        lemma_trim_start(r);
        assert forall|i: int| 0 <= i < trim_start_of(s).len() implies s.contains(#[trigger] trim_start_of(s)[i]) by {
            let c = trim_start_of(r)[i];
            assert(r.contains(c));
            let k = choose|k: int| 0 <= k < r.len() && r[k] == c;
            assert(s[k + 1] == c);
        }
    } else {
        assert forall|i: int| 0 <= i < trim_start_of(s).len() implies s.contains(#[trigger] trim_start_of(s)[i]) by {
            assert(s[i] == trim_start_of(s)[i]);
        }
    }
}

proof fn lemma_trim_end(s: Seq<char>)
    ensures
        forall|i: int| 0 <= i < trim_end_of(s).len() ==> s.contains(#[trigger] trim_end_of(s)[i]),
        trim_end_of(s).len() > 0 ==> !is_space(trim_end_of(s).last()),
        trim_end_of(s).len() > 0 ==> trim_end_of(s)[0] == s[0],
    decreases s.len(),
{
    if s.len() > 0 && is_space(s.last()) {
        let r = s.drop_last();
        lemma_trim_end(r);
        assert forall|i: int| 0 <= i < trim_end_of(s).len() implies s.contains(#[trigger] trim_end_of(s)[i]) by {
            let c = trim_end_of(r)[i];
            assert(r.contains(c));
            let k = choose|k: int| 0 <= k < r.len() && r[k] == c;
            assert(s[k] == c);
        }
    } else {
        assert forall|i: int| 0 <= i < trim_end_of(s).len() implies s.contains(#[trigger] trim_end_of(s)[i]) by {
            assert(s[i] == trim_end_of(s)[i]);
        }
    }
}

} // verus!
