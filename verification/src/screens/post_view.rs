//! The post view.
use vstd::prelude::*;

use crate::api::Post;
use crate::screens::chat_messages::{self, date_part};
use crate::text::{self, byte_len, decimal_of, split_on, trim_of};

verus! {

broadcast use vstd::seq_lib::group_seq_properties;

/// The characters of `html` outside tags, seen from the left, with whether a
/// tag is open: `<` opens a tag and `>` closes it, and neither is kept.
pub open spec fn untagged_acc(html: Seq<char>) -> (Seq<char>, bool)
    decreases html.len(),
{
    if html.len() == 0 {
        (Seq::empty(), false)
    } else {
        let (out, in_tag) = untagged_acc(html.drop_last());
        let c = html.last();
        if c == '<' {
            (out, true)
        } else if c == '>' {
            (out, false)
        } else if !in_tag {
            (out.push(c), in_tag)
        } else {
            (out, in_tag)
        }
    }
}

/// The text of an HTML fragment: the characters outside tags, without
/// leading and trailing white space.
pub open spec fn stripped(html: Seq<char>) -> Seq<char> {
    trim_of(untagged_acc(html).0)
}

/// The text of an HTML fragment.
pub fn strip_html(html: &str) -> (r: String)
    ensures
        r@ == stripped(html@),
{
    let chars = text::chars_of(html);
    let mut out: Vec<char> = Vec::new();
    let mut in_tag = false;
    for i in 0..chars.len()
        invariant
            chars@ == html@,
            (out@, in_tag) == untagged_acc(chars@.take(i as int)),
    {
        assert(chars@.take(i + 1).drop_last() =~= chars@.take(i as int));
        let c = chars[i];
        if c == '<' {
            in_tag = true;
        } else if c == '>' {
            in_tag = false;
        } else if !in_tag {
            out.push(c);
        }
    }
    assert(chars@.take(chars.len() as int) =~= chars@);
    let t = text::trim(&out);
    text::string_of(&t)
}

/// The date part of an ISO 8601 time stamp: the text before the first `T`.
pub fn format_date(iso_date: &str) -> (r: String)
    ensures
        r@ == date_part(iso_date@),
{
    chat_messages::format_date(iso_date)
}

/// The heading of a post: its number, author and date.
pub open spec fn post_header_of(post: Post) -> Seq<char> {
    "Post #"@ + decimal_of(post.post_number as nat) + " by "@ + post.username@ + " - "@ + date_part(post.created_at@)
}

/// The heading of a post, such as `Post #3 by alice - 2024-01-15`.
pub fn post_header(post: &Post) -> (r: String)
    ensures
        r@ == post_header_of(*post),
{
    let mut r = "Post #".to_owned();
    r.append(text::decimal(post.post_number as u64).as_str());
    r.append(" by ");
    r.append(post.username.as_str());
    r.append(" - ");
    r.append(format_date(post.created_at.as_str()).as_str());
    r
}

/// What a post says: its source text when the forum sent it, else the text of
/// its HTML; a placeholder when that is only white space.
pub open spec fn post_body_of(post: Post) -> Seq<char> {
    let t = match post.raw {
        Some(raw) => raw@,
        None => stripped(post.cooked@),
    };
    if trim_of(t).len() == 0 { "[Post content not available]"@ } else { t }
}

/// What a post says.
pub fn post_body(post: &Post) -> (r: String)
    ensures
        r@ == post_body_of(*post),
{
    let t = match &post.raw {
        Some(raw) => raw.clone(),
        None => strip_html(post.cooked.as_str()),
    };
    let trimmed = text::trim(&text::chars_of(t.as_str()));
    if trimmed.len() == 0 {
        "[Post content not available]".to_owned()
    } else {
        t
    }
}

/// The title over a post's text: its length in bytes, and the number of
/// images when there are any.
pub open spec fn content_title_of(body: Seq<char>, image_count: nat) -> Seq<char> {
    if image_count > 0 {
        "Post Content ("@ + decimal_of(byte_len(body)) + " chars, "@ + decimal_of(image_count) + " images)"@
    } else {
        "Post Content ("@ + decimal_of(byte_len(body)) + " chars)"@
    }
}

/// The title over a post's text.
pub fn content_title(body: &str, image_count: usize) -> (r: String)
    ensures
        r@ == content_title_of(body@, image_count as nat),
{
    let chars = text::chars_of(body);
    let n = text::bytes_of(&chars);
    proof {
        text::lemma_byte_len_bound(chars@);
    }
    let mut r = "Post Content (".to_owned();
    r.append(text::decimal_u128(n).as_str());
    if image_count > 0 {
        r.append(" chars, ");
        r.append(text::decimal(image_count as u64).as_str());
        r.append(" images)");
    } else {
        r.append(" chars)");
    }
    r
}

/// The last part of an address, after its last `/`.
pub open spec fn file_name_of(url: Seq<char>) -> Seq<char> {
    split_on(url, '/').last()
}

/// The placeholder line for one image.
pub open spec fn placeholder_of(url: Seq<char>) -> Seq<char> {
    "[ Image: "@ + file_name_of(url) + " ]"@
}

/// Placeholder lines joined by line breaks.
pub open spec fn joined_lines(lines: Seq<Seq<char>>) -> Seq<char>
    decreases lines.len(),
{
    if lines.len() == 0 {
        Seq::empty()
    } else if lines.len() == 1 {
        lines[0]
    } else {
        joined_lines(lines.drop_last()) + seq!['\n'] + lines.last()
    }
}

fn placeholder(url: &String) -> (r: String)
    ensures
        r@ == placeholder_of(url@),
{
    let chars = text::chars_of(url.as_str());
    let parts = text::split_chars(&chars, '/');
    let ghost acc = text::split_acc(url@, '/');
    assert(split_on(url@, '/') == acc.0.push(acc.1));
    let last = &parts[parts.len() - 1];
    assert(text::views(parts@).last() == last@);
    let mut r = "[ Image: ".to_owned();
    r.append(text::string_of(last).as_str());
    r.append(" ]");
    r
}

/// The text shown in place of a post's images: one line `[ Image: name ]`
/// per address, naming the part after its last `/`.
pub fn image_placeholder_text(urls: &Vec<String>) -> (r: String)
    ensures
        r@ == joined_lines(urls@.map_values(|u: String| placeholder_of(u@))),
{
    let ghost f = |u: String| placeholder_of(u@);
    let mut r = String::new();
    for i in 0..urls.len()
        invariant
            f == (|u: String| placeholder_of(u@)),
            r@ == joined_lines(urls@.take(i as int).map_values(f)),
    {
        let ghost before = urls@.take(i as int).map_values(f);
        assert(urls@.take(i + 1).map_values(f) =~= before.push(f(urls@[i as int])));
        assert(urls@.take(i + 1).map_values(f).drop_last() =~= before);
        let line = placeholder(&urls[i]);
        if i > 0 {
            text::push_char(&mut r, '\n');
        }
        r.append(line.as_str());
        assert(r@ =~= joined_lines(before.push(f(urls@[i as int]))));
    }
    assert(urls@.take(urls.len() as int) =~= urls@);
    r
}


proof fn lemma_untagged_has_no_brackets(html: Seq<char>)
    ensures
        !untagged_acc(html).0.contains('<'),
        !untagged_acc(html).0.contains('>'),
    decreases html.len(),
{
    if html.len() > 0 {
        let t = html.drop_last();
        lemma_untagged_has_no_brackets(t);
        let (out, in_tag) = untagged_acc(t);
        let c = html.last();
        if c != '<' && c != '>' && !in_tag {
            assert forall|ch: char| ch == '<' || ch == '>' implies !out.push(c).contains(ch) by {
                if out.push(c).contains(ch) {
                    let k = choose|k: int| 0 <= k < out.push(c).len() && out.push(c)[k] == ch;
                    if k < out.len() {
                        assert(out[k] == ch);
                    }
                }
            }
        }
    }
}

/// The text of an HTML fragment holds no `<` or `>`, and neither begins nor
/// ends with white space.
pub proof fn lemma_stripped_text(html: Seq<char>)
    ensures
        !stripped(html).contains('<'),
        !stripped(html).contains('>'),
        stripped(html).len() > 0 ==> !text::is_space(stripped(html)[0]) && !text::is_space(stripped(html).last()),
{
    let out = untagged_acc(html).0;
    lemma_untagged_has_no_brackets(html);
    text::lemma_trim(out);
    assert forall|ch: char| ch == '<' || ch == '>' implies !stripped(html).contains(ch) by {
        if stripped(html).contains(ch) {
            let k = choose|k: int| 0 <= k < stripped(html).len() && stripped(html)[k] == ch;
            assert(out.contains(stripped(html)[k]));
        }
    }
}

/// Text without `<` or `>` has no tags: all of it is kept, and no tag is left open.
pub proof fn lemma_untagged_plain(t: Seq<char>)
    requires
        !t.contains('<'),
        !t.contains('>'),
    ensures
        untagged_acc(t) == (t, false),
    decreases t.len(),
{
    if t.len() > 0 {
        let r = t.drop_last();
        assert forall|ch: char| ch == '<' || ch == '>' implies !r.contains(ch) by {
            if r.contains(ch) {
                let k = choose|k: int| 0 <= k < r.len() && r[k] == ch;
                assert(t[k] == ch);
            }
        }
        lemma_untagged_plain(r);
        assert(t.contains(t.last()));
        assert(r.push(t.last()) =~= t);
    }
}

/// Stripping the tags from the text of an HTML fragment changes nothing:
/// stripping twice gives what stripping once gives.
pub proof fn lemma_strip_twice(html: Seq<char>)
    ensures
        stripped(stripped(html)) == stripped(html),
{
    let s = stripped(html);
    lemma_stripped_text(html);
    lemma_untagged_plain(s);
    text::lemma_trim_trimmed(s);
}

/// Text without `<` or `>` after a point where no tag is open is kept whole,
/// and leaves no tag open.
pub proof fn lemma_text_outside_tags_kept(a: Seq<char>, t: Seq<char>)
    requires
        !untagged_acc(a).1,
        !t.contains('<'),
        !t.contains('>'),
    ensures
        untagged_acc(a + t) == (untagged_acc(a).0 + t, false),
    decreases t.len(),
{
    if t.len() == 0 {
        assert(a + t =~= a);
        assert(untagged_acc(a).0 + t =~= untagged_acc(a).0);
    } else {
        let r = t.drop_last();
        assert forall|ch: char| ch == '<' || ch == '>' implies !r.contains(ch) by {
            if r.contains(ch) {
                let k = choose|k: int| 0 <= k < r.len() && r[k] == ch;
                assert(t[k] == ch);
            }
        }
        lemma_text_outside_tags_kept(a, r);
        assert((a + t).drop_last() =~= a + r);
        assert((a + t).last() == t.last());
        assert(t.contains(t.last()));
        assert((untagged_acc(a).0 + r).push(t.last()) =~= untagged_acc(a).0 + t);
    }
}

/// A tag, from its `<` to its `>`, adds nothing to the text and leaves no tag open.
pub proof fn lemma_tag_dropped(a: Seq<char>, t: Seq<char>)
    requires
        !t.contains('>'),
    ensures
        untagged_acc(a + seq!['<'] + t + seq!['>']) == (untagged_acc(a).0, false),
{
    lemma_inside_tag(a + seq!['<'], t);
    let whole = a + seq!['<'] + t + seq!['>'];
    assert(whole.drop_last() =~= a + seq!['<'] + t);
    assert((a + seq!['<']).drop_last() =~= a);
}

proof fn lemma_inside_tag(a: Seq<char>, t: Seq<char>)
    requires
        a.len() > 0,
        a.last() == '<',
        !t.contains('>'),
    ensures
        untagged_acc(a + t) == (untagged_acc(a.drop_last()).0, true),
    decreases t.len(),
{
    if t.len() == 0 {
        assert(a + t =~= a);
    } else {
        let r = t.drop_last();
        assert(!r.contains('>')) by {
            if r.contains('>') {
                let k = choose|k: int| 0 <= k < r.len() && r[k] == '>';
                assert(t[k] == '>');
            }
        }
        lemma_inside_tag(a, r);
        assert((a + t).drop_last() =~= a + r);
        assert((a + t).last() == t.last());
        assert(t.contains(t.last()));
    }
}

} // verus!
