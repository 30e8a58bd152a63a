//! Finding the images that a post's HTML shows.
use vstd::prelude::*;

verus! {

/// What the `regex` crate finds for `pattern` in `haystack`: `None` when the
/// pattern does not compile; else, for each successive non-overlapping match
/// from left to right, the text that capture group `group` matched, if that
/// group took part in the match.
pub uninterp spec fn regex_group_captures(pattern: Seq<char>, haystack: Seq<char>, group: nat) -> Option<Seq<Option<Seq<char>>>>;

/// Trusted: `regex::Regex::new` followed by `Regex::captures_iter` and
/// `Captures::get`; the result is named `regex_group_captures`, and the
/// regular-expression semantics are not written out here.
#[verifier::external_body]
fn regex_captures(pattern: &str, haystack: &str, group: usize) -> (r: Option<Vec<Option<String>>>)
    ensures
        r.deep_view() == regex_group_captures(pattern@, haystack@, group as nat),
{
    match regex::Regex::new(pattern) {
        Ok(re) => Some(
            re.captures_iter(haystack).map(|c| c.get(group).map(|m| m.as_str().to_string())).collect(),
        ),
        Err(_) => None,
    }
}

/// The texts of the captures that took part, in order.
pub open spec fn present_captures(caps: Seq<Option<Seq<char>>>) -> Seq<Seq<char>>
    decreases caps.len(),
{
    if caps.len() == 0 {
        Seq::empty()
    } else {
        let rest = present_captures(caps.drop_last());
        match caps.last() {
            Some(t) => rest.push(t),
            None => rest,
        }
    }
}

/// The pattern of an `<img>` tag's `src` attribute, quoted with `"` or `'`;
/// its first group is the address.
pub open spec fn img_src_pattern() -> Seq<char> {
    "<img[^>]+src=[\"']([^\"']+)[\"']"@
}

/// Keeps the captured texts, dropping the captures whose group did not take part.
pub fn urls_from_captures(caps: Vec<Option<String>>) -> (urls: Vec<String>)
    ensures
        urls.deep_view() == present_captures(caps.deep_view()),
{
    let mut urls: Vec<String> = Vec::new();
    for i in 0..caps.len()
        invariant
            urls.deep_view() == present_captures(caps.deep_view().take(i as int)),
    {
        let ghost before = caps.deep_view().take(i as int);
        assert(caps.deep_view().take(i + 1).drop_last() =~= before);
        match &caps[i] {
            Some(url) => {
                urls.push(url.clone());
                assert(urls.deep_view() =~= present_captures(before).push(url@));
            },
            None => {},
        }
    }
    assert(caps.deep_view().take(caps.len() as int) =~= caps.deep_view());
    urls
}

/// The addresses of the images in a post's HTML: the `src` of each `<img>`
/// tag, in order. (The pattern always compiles; were it not to, the result
/// would be empty.)
pub fn extract_image_urls(html: &str) -> (urls: Vec<String>)
    ensures
        match regex_group_captures(img_src_pattern(), html@, 1) {
            Some(caps) => urls.deep_view() == present_captures(caps),
            None => urls@.len() == 0,
        },
{
    let pattern = "<img[^>]+src=[\"']([^\"']+)[\"']";
    match regex_captures(pattern, html, 1) {
        Some(caps) => urls_from_captures(caps),
        None => Vec::new(),
    }
}

/// Every capture that took part is kept, after the ones before it, and one
/// that did not take part adds nothing.
pub proof fn lemma_captures_kept(caps: Seq<Option<Seq<char>>>, t: Seq<char>)
    ensures
        present_captures(caps.push(Some(t))) == present_captures(caps).push(t),
        present_captures(caps.push(None)) == present_captures(caps),
{
    assert(caps.push(Some(t)).drop_last() =~= caps);
    assert(caps.push(None::<Seq<char>>).drop_last() =~= caps);
}

/// As many texts are kept as there are captures that took part, each of them
/// in the order of the captures.
pub proof fn lemma_captures_count(caps: Seq<Option<Seq<char>>>)
    ensures
        present_captures(caps).len() == caps.filter(|c: Option<Seq<char>>| c is Some).len(),
        forall|i: int| 0 <= i < caps.len() && caps[i] is Some ==>
            present_captures(caps)[caps.take(i).filter(|c: Option<Seq<char>>| c is Some).len() as int]
                == caps[i]->0,
    decreases caps.len(),
{
    let pred = |c: Option<Seq<char>>| c is Some;
    reveal_with_fuel(Seq::filter, 1);
    if caps.len() > 0 {
        let r = caps.drop_last();
        lemma_captures_count(r);
        assert forall|i: int| 0 <= i < caps.len() && caps[i] is Some implies
            present_captures(caps)[caps.take(i).filter(pred).len() as int] == caps[i]->0 by {
            if i < r.len() {
                assert(caps.take(i) =~= r.take(i));
                assert(r[i] == caps[i]);
                assert(r.take(i).filter(pred).len() <= r.take(i).len()) by {
                    r.take(i).lemma_filter_len(pred);
                }
                lemma_filter_prefix_len(r, i, pred);
            } else {
                assert(caps.take(i) =~= r);
            }
        }
    }
}

proof fn lemma_filter_prefix_len<A>(s: Seq<A>, i: int, pred: spec_fn(A) -> bool)
    requires
        0 <= i < s.len(),
        pred(s[i]),
    ensures
        s.take(i).filter(pred).len() < s.filter(pred).len(),
    decreases s.len(),
{
    reveal_with_fuel(Seq::filter, 1);
    let r = s.drop_last();
    if i < r.len() {
        assert(s.take(i) =~= r.take(i));
        assert(r[i] == s[i]);
        lemma_filter_prefix_len(r, i, pred);
    } else {
        assert(s.take(i) =~= r);
    }
}

} // verus!
