//! The chat messages screen.
use vstd::prelude::*;

use crate::api::ChatChannel;
use crate::text::{self, byte_len, spaceless, split_on, views, words_of, words_of_lines};

verus! {

broadcast use vstd::seq_lib::group_seq_properties;

/// Words filled greedily into lines of at most `max` bytes, seen from the
/// left: the finished lines, and the line still open. A word that does not fit
/// after the open line starts a new line; a word longer than `max` gets a line
/// of its own.
pub open spec fn fill_acc(words: Seq<Seq<char>>, max: nat) -> (Seq<Seq<char>>, Seq<char>)
    decreases words.len(),
{
    if words.len() == 0 {
        (Seq::empty(), Seq::empty())
    } else {
        let (lines, cur) = fill_acc(words.drop_last(), max);
        let w = words.last();
        if cur.len() == 0 {
            (lines, w)
        } else if byte_len(cur) + 1 + byte_len(w) <= max {
            (lines, cur + seq![' '] + w)
        } else {
            (lines.push(cur), w)
        }
    }
}

/// Each line followed by a line break.
pub open spec fn with_breaks(lines: Seq<Seq<char>>) -> Seq<char> {
    lines.map_values(|l: Seq<char>| l.push('\n')).flatten()
}

/// One paragraph wrapped: its words filled into lines, each ended by a line break.
pub open spec fn wrap_paragraph(p: Seq<char>, max: nat) -> Seq<char> {
    let (lines, cur) = fill_acc(words_of(p), max);
    with_breaks(lines) + cur + seq!['\n']
}

/// `text` wrapped to lines of at most `max` bytes: each paragraph (the text
/// between line breaks) is wrapped on its own, its words separated by single
/// spaces; a width of 0 leaves the text as it is.
pub open spec fn wrapped(text: Seq<char>, max: nat) -> Seq<char> {
    if max == 0 {
        text
    } else {
        split_on(text, '\n').map_values(|p: Seq<char>| wrap_paragraph(p, max)).flatten()
    }
}

/// The date part of an ISO 8601 time stamp: the text before the first `T`
/// (all of it when there is none).
pub open spec fn date_part(iso: Seq<char>) -> Seq<char> {
    split_on(iso, 'T')[0]
}

fn append_chars(out: &mut Vec<char>, s: &Vec<char>)
    ensures
        final(out)@ == old(out)@ + s@,
{
    for i in 0..s.len()
        invariant
            out@ == old(out)@ + s@.take(i as int),
    {
        out.push(s[i]);
        assert(s@.take(i + 1) =~= s@.take(i as int).push(s@[i as int]));
    }
    assert(s@.take(s.len() as int) =~= s@);
}

fn fill(words: &Vec<Vec<char>>, max: usize) -> (r: (Vec<Vec<char>>, Vec<char>))
    ensures
        (views(r.0@), r.1@) == fill_acc(views(words@), max as nat),
{
    let mut lines: Vec<Vec<char>> = Vec::new();
    let mut cur: Vec<char> = Vec::new();
    for i in 0..words.len()
        invariant
            (views(lines@), cur@) == fill_acc(views(words@.take(i as int)), max as nat),
    {
        let ghost ws = views(words@.take(i + 1));
        assert(ws.drop_last() =~= views(words@.take(i as int)));
        assert(ws.last() == words@[i as int]@);
        let w = &words[i];
        if cur.len() == 0 {
            cur = w.clone();
        } else {
            let nc = cur.len();
            let nw = w.len();
            let lc = text::bytes_of(&cur);
            let lw = text::bytes_of(w);
            proof {
                text::lemma_byte_len_bound(cur@);
                text::lemma_byte_len_bound(w@);
            }
            if lc + 1 + lw <= max as u128 {
                cur.push(' ');
                append_chars(&mut cur, w);
                assert(cur@ =~= fill_acc(views(words@.take(i as int)), max as nat).1 + seq![' '] + w@);
            } else {
                let line = cur;
                lines.push(line);
                cur = w.clone();
                assert(views(lines@) =~= fill_acc(views(words@.take(i as int)), max as nat).0.push(line@));
            }
        }
    }
    assert(words@.take(words.len() as int) =~= words@);
    (lines, cur)
}

fn paragraph_text(p: &Vec<char>, max: usize) -> (r: Vec<char>)
    ensures
        r@ == wrap_paragraph(p@, max as nat),
{
    let ws = text::words(p);
    let (lines, cur) = fill(&ws, max);
    let ghost f = |l: Seq<char>| l.push('\n');
    let mut out: Vec<char> = Vec::new();
    for i in 0..lines.len()
        invariant
            out@ == views(lines@.take(i as int)).map_values(f).flatten(),
            f == (|l: Seq<char>| l.push('\n')),
    {
        let ghost before = views(lines@.take(i as int));
        assert(views(lines@.take(i + 1)) =~= before.push(lines@[i as int]@));
        assert(views(lines@.take(i + 1)).map_values(f) =~= before.map_values(f).push(f(lines@[i as int]@)));
        proof {
            before.map_values(f).lemma_flatten_push(f(lines@[i as int]@));
        }
        append_chars(&mut out, &lines[i]);
        out.push('\n');
        assert(out@ =~= before.map_values(f).flatten() + f(lines@[i as int]@));
    }
    assert(lines@.take(lines.len() as int) =~= lines@);
    append_chars(&mut out, &cur);
    out.push('\n');
    out
}

/// Wraps `text` to lines of at most `max_width` bytes (a longer word gets a
/// line of its own), paragraph by paragraph, each ended by a line break; a
/// width of 0 leaves the text as it is.
pub fn wrap_text(text: &str, max_width: usize) -> (r: String)
    ensures
        r@ == wrapped(text@, max_width as nat),
{
    if max_width == 0 {
        return text.to_owned();
    }
    let chars = text::chars_of(text);
    let paragraphs = text::split_chars(&chars, '\n');
    let ghost g = |p: Seq<char>| wrap_paragraph(p, max_width as nat);
    let mut out: Vec<char> = Vec::new();
    for i in 0..paragraphs.len()
        invariant
            max_width > 0,
            views(paragraphs@) == split_on(text@, '\n'),
            g == (|p: Seq<char>| wrap_paragraph(p, max_width as nat)),
            out@ == views(paragraphs@.take(i as int)).map_values(g).flatten(),
    {
        let ghost before = views(paragraphs@.take(i as int));
        assert(views(paragraphs@.take(i + 1)) =~= before.push(paragraphs@[i as int]@));
        assert(views(paragraphs@.take(i + 1)).map_values(g) =~= before.map_values(g).push(g(paragraphs@[i as int]@)));
        proof {
            before.map_values(g).lemma_flatten_push(g(paragraphs@[i as int]@));
        }
        let piece = paragraph_text(&paragraphs[i], max_width);
        append_chars(&mut out, &piece);
    }
    assert(paragraphs@.take(paragraphs.len() as int) =~= paragraphs@);
    text::string_of(&out)
}

/// The date part of an ISO 8601 time stamp such as `2024-01-15T10:30:00Z`.
pub fn format_date(iso_date: &str) -> (r: String)
    ensures
        r@ == date_part(iso_date@),
{
    let chars = text::chars_of(iso_date);
    let pieces = text::split_chars(&chars, 'T');
    let ghost parts = text::split_acc(iso_date@, 'T');
    assert(split_on(iso_date@, 'T') == parts.0.push(parts.1));
    assert(views(pieces@).len() > 0);
    assert(views(pieces@)[0] == pieces@[0]@);
    text::string_of(&pieces[0])
}


/// The title of the first channel with the id `id`.
pub open spec fn channel_title_of(channels: Seq<ChatChannel>, id: u64) -> Option<Seq<char>>
    decreases channels.len(),
{
    if channels.len() == 0 {
        None
    } else if channels[0].id == id {
        Some(channels[0].title@)
    } else {
        channel_title_of(channels.drop_first(), id)
    }
}

/// The name shown for the open channel: its title, or `Unknown Channel` when
/// no channel is open or it is not among `channels`.
pub open spec fn channel_name_of(channels: Seq<ChatChannel>, selected: Option<u64>) -> Seq<char> {
    match selected {
        Some(id) => match channel_title_of(channels, id) {
            Some(t) => t,
            None => "Unknown Channel"@,
        },
        None => "Unknown Channel"@,
    }
}

fn find_channel_title(channels: &Vec<ChatChannel>, id: u64) -> (r: Option<String>)
    ensures
        r matches Some(t) ==> channel_title_of(channels@, id) == Some(t@),
        r is None ==> channel_title_of(channels@, id) is None,
{
    let n = channels.len();
    assert(channels@.skip(0) =~= channels@);
    for i in 0..n
        invariant
            n == channels@.len(),
            channel_title_of(channels@, id) == channel_title_of(channels@.skip(i as int), id),
    {
        assert(channels@.skip(i as int).drop_first() =~= channels@.skip(i + 1));
        assert(channels@.skip(i as int)[0] == channels@[i as int]);
        if channels[i].id == id {
            return Some(channels[i].title.clone());
        }
    }
    assert(channels@.skip(n as int).len() == 0);
    None
}

/// The heading of the chat screen: `Chat: #` and the channel's name.
pub fn chat_header(channels: &Vec<ChatChannel>, selected: Option<u64>) -> (r: String)
    ensures
        r@ == "Chat: #"@ + channel_name_of(channels@, selected),
{
    let name = match selected {
        Some(id) => find_channel_title(channels, id),
        None => None,
    };
    let mut r = "Chat: #".to_owned();
    match name {
        Some(t) => r.append(t.as_str()),
        None => r.append("Unknown Channel"),
    }
    r
}

/// The width left for a message's text in a pane `pane_width` cells wide:
/// four cells less, and none when the pane is narrower.
pub fn text_width(pane_width: u16) -> (r: usize)
    ensures
        r == (if pane_width >= 4 { pane_width - 4 } else { 0 }),
{
    if pane_width >= 4 { (pane_width - 4) as usize } else { 0 }
}

/// The lines shown for a message's text: the text wrapped to `max_width`,
/// cut at its line breaks.
pub fn message_lines(text: &str, max_width: usize) -> (r: Vec<String>)
    ensures
        r@.map_values(|s: String| s@) == split_on(wrapped(text@, max_width as nat), '\n'),
{
    let w = wrap_text(text, max_width);
    let parts = text::split_chars(&text::chars_of(w.as_str()), '\n');
    let ghost f = |s: String| s@;
    let mut r: Vec<String> = Vec::new();
    for i in 0..parts.len()
        invariant
            f == (|s: String| s@),
            views(parts@) == split_on(w@, '\n'),
            r@.map_values(f) == views(parts@).take(i as int),
    {
        let line = text::string_of(&parts[i]);
        let ghost before = r@;
        r.push(line);
        assert(r@ == before.push(line));
        assert(r@.map_values(f) =~= before.map_values(f).push(line@));
        assert(views(parts@).take(i + 1) =~= views(parts@).take(i as int).push(parts@[i as int]@));
    }
    assert(views(parts@).take(parts.len() as int) =~= views(parts@));
    r
}


/// A filled line is either within the width or a single word that is wider on its own.
pub open spec fn line_fits(line: Seq<char>, words: Seq<Seq<char>>, max: nat) -> bool {
    byte_len(line) <= max || words.contains(line)
}

proof fn lemma_fill_acc(words: Seq<Seq<char>>, max: nat)
    requires
        forall|i: int| 0 <= i < words.len() ==> #[trigger] words[i].len() > 0 && spaceless(words[i]),
    ensures
        ({
            let (lines, cur) = fill_acc(words, max);
            &&& (words.len() == 0 <==> cur.len() == 0)
            &&& words.len() == 0 ==> lines.len() == 0
            &&& forall|i: int| 0 <= i < lines.len() ==> line_fits(#[trigger] lines[i], words, max)
            &&& line_fits(cur, words, max)
            &&& words_of_lines(lines.push(cur)) == words
        }),
    decreases words.len(),
{
    let f = |l: Seq<char>| words_of(l);
    if words.len() == 0 {
        assert(byte_len(Seq::<char>::empty()) == 0);
        text::lemma_words_are_words(Seq::<char>::empty());
        assert(words_of(Seq::<char>::empty()) =~= Seq::<Seq<char>>::empty());
        assert(seq![Seq::<char>::empty()].map_values(f) =~= seq![Seq::<Seq<char>>::empty()]);
        assert(Seq::<Seq<char>>::empty().push(Seq::<char>::empty()) =~= seq![Seq::<char>::empty()]);
        Seq::<Seq<Seq<char>>>::empty().lemma_flatten_push(Seq::<Seq<char>>::empty());
        assert(seq![Seq::<Seq<char>>::empty()] =~= Seq::<Seq<Seq<char>>>::empty().push(Seq::<Seq<char>>::empty()));
    } else {
        let prev = words.drop_last();
        let w = words.last();
        assert(forall|i: int| 0 <= i < prev.len() ==> prev[i] == words[i]);
        lemma_fill_acc(prev, max);
        let (lines0, cur0) = fill_acc(prev, max);
        assert(words.contains(w)) by {
            assert(words[words.len() - 1] == w);
        }
        assert forall|l: Seq<char>| line_fits(l, prev, max) implies line_fits(l, words, max) by {
            if prev.contains(l) {
                let k = choose|k: int| 0 <= k < prev.len() && prev[k] == l;
                assert(words[k] == l);
            }
        }
        assert(w.len() > 0 && spaceless(w)) by {
            assert(words[words.len() - 1] == w);
        }
        text::lemma_words_of_word(w);
        assert(lines0.push(cur0).map_values(f) =~= lines0.map_values(f).push(words_of(cur0)));
        lines0.map_values(f).lemma_flatten_push(words_of(cur0));
        if cur0.len() == 0 {
            assert(lines0.len() == 0);
            assert(lines0.push(w) =~= seq![w]);
            assert(seq![w].map_values(f) =~= seq![seq![w]]);
            assert(seq![seq![w]] =~= Seq::<Seq<Seq<char>>>::empty().push(seq![w]));
            Seq::<Seq<Seq<char>>>::empty().lemma_flatten_push(seq![w]);
            assert(prev.len() == 0);
            assert(words =~= seq![w]);
        } else if byte_len(cur0) + 1 + byte_len(w) <= max {
            let joined = cur0 + seq![' '] + w;
            text::lemma_words_of_join(cur0, w);
            text::lemma_byte_len_concat(cur0, seq![' ']);
            text::lemma_byte_len_concat(cur0 + seq![' '], w);
            assert(seq![' '].drop_last() =~= Seq::<char>::empty());
            assert(byte_len(seq![' ']) == 1);
            assert(lines0.push(joined).map_values(f) =~= lines0.map_values(f).push(words_of(joined)));
            lines0.map_values(f).lemma_flatten_push(words_of(joined));
            assert(words_of(cur0).push(w) =~= words_of(cur0) + seq![w]);
            assert(words =~= prev.push(w));
            assert(words_of_lines(lines0.push(joined)) =~= words);
        } else {
            let lines1 = lines0.push(cur0);
            assert(lines1.push(w).map_values(f) =~= lines1.map_values(f).push(seq![w]));
            lines1.map_values(f).lemma_flatten_push(seq![w]);
            assert(words =~= prev.push(w));
            assert(prev + seq![w] =~= prev.push(w));
            assert forall|i: int| 0 <= i < lines1.len() implies line_fits(#[trigger] lines1[i], words, max) by {
                if i < lines0.len() {
                    assert(line_fits(lines0[i], prev, max));
                } else {
                    assert(lines1[i] == cur0);
                }
            }
        }
    }
}

/// Wrapping a paragraph keeps its words, in order, and puts on each line at
/// most `max` bytes, unless the line is a single word wider than that.
pub proof fn lemma_wrap_keeps_words_and_width(p: Seq<char>, max: nat)
    ensures
        ({
            let (lines, cur) = fill_acc(words_of(p), max);
            &&& words_of_lines(lines.push(cur)) == words_of(p)
            &&& forall|i: int| 0 <= i < lines.len() ==> line_fits(#[trigger] lines[i], words_of(p), max)
            &&& line_fits(cur, words_of(p), max)
        }),
{
    text::lemma_words_are_words(p);
    lemma_fill_acc(words_of(p), max);
}

/// The lines a paragraph is wrapped into: the finished lines, then the line
/// still open.
pub open spec fn paragraph_lines(p: Seq<char>, max: nat) -> Seq<Seq<char>> {
    let (lines, cur) = fill_acc(words_of(p), max);
    lines.push(cur)
}

/// The lines `text` is wrapped into, paragraph after paragraph.
pub open spec fn wrapped_lines(text: Seq<char>, max: nat) -> Seq<Seq<char>> {
    split_on(text, '\n').map_values(|p: Seq<char>| paragraph_lines(p, max)).flatten()
}

proof fn lemma_fill_acc_unbroken(words: Seq<Seq<char>>, max: nat)
    requires
        forall|i: int| 0 <= i < words.len() ==> spaceless(#[trigger] words[i]),
    ensures
        forall|i: int| 0 <= i < fill_acc(words, max).0.len() ==> !(#[trigger] fill_acc(words, max).0[i]).contains('\n'),
        !fill_acc(words, max).1.contains('\n'),
    decreases words.len(),
{
    broadcast use vstd::seq_lib::lemma_seq_concat_contains_all_elements;
    if words.len() > 0 {
        let prev = words.drop_last();
        let w = words.last();
        assert(forall|i: int| 0 <= i < prev.len() ==> prev[i] == words[i]);
        lemma_fill_acc_unbroken(prev, max);
        assert(spaceless(w)) by {
            assert(words[words.len() - 1] == w);
        }
        assert(!w.contains('\n')) by {
            if w.contains('\n') {
                let k = choose|k: int| 0 <= k < w.len() && w[k] == '\n';
                assert(!text::is_space(w[k]));
            }
        }
        assert(!seq![' '].contains('\n')) by {
            if seq![' '].contains('\n') {
                let k = choose|k: int| 0 <= k < 1 && seq![' '][k] == '\n';
            }
        }
        let (lines0, cur0) = fill_acc(prev, max);
        assert(!(cur0 + seq![' ']).contains('\n'));
        assert(forall|i: int| 0 <= i < lines0.len() ==> lines0.push(cur0)[i] == lines0[i]);
    }
}

proof fn lemma_map_flatten_concat<A, B>(a: Seq<A>, b: Seq<A>, f: spec_fn(A) -> Seq<B>)
    ensures
        (a + b).map_values(f).flatten() == a.map_values(f).flatten() + b.map_values(f).flatten(),
{
    assert((a + b).map_values(f) =~= a.map_values(f) + b.map_values(f));
    vstd::seq_lib::lemma_flatten_concat(a.map_values(f), b.map_values(f));
}

/// A paragraph wrapped is its lines, each ended by a line break.
proof fn lemma_paragraph_breaks(p: Seq<char>, max: nat)
    ensures
        wrap_paragraph(p, max) == with_breaks(paragraph_lines(p, max)),
{
    let (lines, cur) = fill_acc(words_of(p), max);
    let f = |l: Seq<char>| l.push('\n');
    assert(lines.push(cur).map_values(f) =~= lines.map_values(f).push(cur.push('\n')));
    lines.map_values(f).lemma_flatten_push(cur.push('\n'));
    assert(with_breaks(lines) + cur + seq!['\n'] =~= with_breaks(lines) + cur.push('\n'));
}

proof fn lemma_wrap_pieces(ps: Seq<Seq<char>>, max: nat)
    ensures
        ({
            let lines = ps.map_values(|p: Seq<char>| paragraph_lines(p, max)).flatten();
            &&& ps.map_values(|p: Seq<char>| wrap_paragraph(p, max)).flatten() == with_breaks(lines)
            &&& words_of_lines(lines) == words_of_lines(ps)
            &&& forall|i: int| 0 <= i < lines.len() ==> !(#[trigger] lines[i]).contains('\n')
                && line_fits(lines[i], words_of_lines(ps), max)
        }),
    decreases ps.len(),
{
    broadcast use vstd::seq_lib::lemma_seq_concat_contains_all_elements;
    let g = |p: Seq<char>| wrap_paragraph(p, max);
    let h = |p: Seq<char>| paragraph_lines(p, max);
    let f = |l: Seq<char>| words_of(l);
    let brk = |l: Seq<char>| l.push('\n');
    if ps.len() == 0 {
        assert(ps.map_values(g) =~= Seq::<Seq<char>>::empty());
        assert(ps.map_values(h) =~= Seq::<Seq<Seq<char>>>::empty());
        assert(ps.map_values(h).flatten() =~= Seq::<Seq<char>>::empty());
        assert(Seq::<Seq<char>>::empty().map_values(brk) =~= Seq::<Seq<char>>::empty());
        assert(Seq::<Seq<char>>::empty().map_values(f) =~= Seq::<Seq<Seq<char>>>::empty());
        assert(ps.map_values(f) =~= Seq::<Seq<Seq<char>>>::empty());
    } else {
        let q = ps.drop_last();
        let p = ps.last();
        lemma_wrap_pieces(q, max);
        assert(ps =~= q.push(p));
        assert(ps.map_values(g) =~= q.map_values(g).push(g(p)));
        q.map_values(g).lemma_flatten_push(g(p));
        assert(ps.map_values(h) =~= q.map_values(h).push(h(p)));
        q.map_values(h).lemma_flatten_push(h(p));
        assert(ps.map_values(f) =~= q.map_values(f).push(f(p)));
        q.map_values(f).lemma_flatten_push(f(p));
        let a = q.map_values(h).flatten();
        let b = h(p);
        lemma_map_flatten_concat(a, b, brk);
        lemma_map_flatten_concat(a, b, f);
        lemma_paragraph_breaks(p, max);
        lemma_wrap_keeps_words_and_width(p, max);
        text::lemma_words_are_words(p);
        lemma_fill_acc_unbroken(words_of(p), max);
        let (lines_p, cur_p) = fill_acc(words_of(p), max);
        let wq = words_of_lines(q);
        let wp = words_of(p);
        assert forall|i: int| 0 <= i < (a + b).len() implies !(#[trigger] (a + b)[i]).contains('\n')
            && line_fits((a + b)[i], wq + wp, max) by {
            if i < a.len() {
                assert((a + b)[i] == a[i]);
                assert(line_fits(a[i], wq, max));
            } else {
                let j = i - a.len();
                assert((a + b)[i] == b[j]);
                if j < lines_p.len() {
                    assert(b[j] == lines_p[j]);
                    assert(line_fits(lines_p[j], wp, max));
                } else {
                    assert(b[j] == cur_p);
                }
            }
        }
    }
}

proof fn lemma_fill_acc_greedy(words: Seq<Seq<char>>, max: nat)
    requires
        forall|i: int| 0 <= i < words.len() ==> #[trigger] words[i].len() > 0 && spaceless(words[i]),
    ensures
        ({
            let (lines, cur) = fill_acc(words, max);
            let all = lines.push(cur);
            &&& forall|i: int| 0 <= i < lines.len() ==> words_of(#[trigger] lines[i]).len() > 0
            &&& words.len() > 0 ==> words_of(cur).len() > 0
            &&& forall|i: int| 0 <= i < lines.len() ==>
                byte_len(#[trigger] lines[i]) + 1 + byte_len(words_of(all[i + 1])[0]) > max
        }),
    decreases words.len(),
{
    if words.len() > 0 {
        let prev = words.drop_last();
        let w = words.last();
        assert(forall|i: int| 0 <= i < prev.len() ==> prev[i] == words[i]);
        assert(w.len() > 0 && spaceless(w)) by {
            assert(words[words.len() - 1] == w);
        }
        lemma_fill_acc_greedy(prev, max);
        text::lemma_words_of_word(w);
        let (lines0, cur0) = fill_acc(prev, max);
        let all0 = lines0.push(cur0);
        if cur0.len() == 0 {
            lemma_fill_acc(prev, max);
        } else if byte_len(cur0) + 1 + byte_len(w) <= max {
            let joined = cur0 + seq![' '] + w;
            lemma_fill_acc(prev, max);
            text::lemma_words_of_join(cur0, w);
            let all = lines0.push(joined);
            assert forall|i: int| 0 <= i < lines0.len() implies
                byte_len(#[trigger] lines0[i]) + 1 + byte_len(words_of(all[i + 1])[0]) > max by {
                assert(byte_len(lines0[i]) + 1 + byte_len(words_of(all0[i + 1])[0]) > max);
                if i + 1 < lines0.len() {
                    assert(all[i + 1] == all0[i + 1]);
                } else {
                    assert(all[i + 1] == joined);
                    assert(all0[i + 1] == cur0);
                    assert(words_of(joined)[0] == words_of(cur0)[0]);
                }
            }
        } else {
            let lines = lines0.push(cur0);
            let all = lines.push(w);
            assert forall|i: int| 0 <= i < lines.len() implies words_of(#[trigger] lines[i]).len() > 0 by {
                if i < lines0.len() {
                    assert(lines[i] == lines0[i]);
                }
            }
            assert forall|i: int| 0 <= i < lines.len() implies
                byte_len(#[trigger] lines[i]) + 1 + byte_len(words_of(all[i + 1])[0]) > max by {
                if i < lines0.len() {
                    assert(lines[i] == lines0[i]);
                    assert(byte_len(lines0[i]) + 1 + byte_len(words_of(all0[i + 1])[0]) > max);
                    assert(all[i + 1] == all0[i + 1]);
                } else {
                    assert(lines[i] == cur0);
                    assert(all[i + 1] == w);
                }
            }
        }
    }
}

/// Wrapping fills lines greedily: no line of a paragraph could have taken the
/// first word of the line after it, so each line break stands where the next
/// word, after a space, would go past the width.
pub proof fn lemma_wrap_greedy(p: Seq<char>, max: nat)
    ensures
        forall|i: int| 0 <= i < paragraph_lines(p, max).len() - 1 ==>
            words_of(#[trigger] paragraph_lines(p, max)[i + 1]).len() > 0
            && byte_len(paragraph_lines(p, max)[i]) + 1 + byte_len(words_of(paragraph_lines(p, max)[i + 1])[0]) > max,
{
    text::lemma_words_are_words(p);
    lemma_fill_acc_greedy(words_of(p), max);
    let (lines, cur) = fill_acc(words_of(p), max);
    let all = lines.push(cur);
    assert forall|i: int| 0 <= i < all.len() - 1 implies
        words_of(#[trigger] all[i + 1]).len() > 0
        && byte_len(all[i]) + 1 + byte_len(words_of(all[i + 1])[0]) > max by {
        assert(all[i] == lines[i]);
        assert(byte_len(lines[i]) + 1 + byte_len(words_of(all[i + 1])[0]) > max);
        if i + 1 < lines.len() {
            assert(all[i + 1] == lines[i + 1]);
        } else {
            assert(lines.len() > 0);
            lemma_fill_acc(words_of(p), max);
        }
    }
}

/// Wrapping a whole text to a positive width gives a run of lines, each ended
/// by a line break and holding none; their words, in order, are the words of
/// the text, and each line is within the width or is a single word of the
/// text that is wider on its own.
pub proof fn lemma_wrap_text(text: Seq<char>, max: nat)
    requires
        max > 0,
    ensures
        wrapped(text, max) == with_breaks(wrapped_lines(text, max)),
        words_of_lines(wrapped_lines(text, max)) == words_of(text),
        forall|i: int| 0 <= i < wrapped_lines(text, max).len() ==>
            !(#[trigger] wrapped_lines(text, max)[i]).contains('\n')
            && line_fits(wrapped_lines(text, max)[i], words_of(text), max),
{
    let ps = split_on(text, '\n');
    lemma_wrap_pieces(ps, max);
    text::lemma_words_of_pieces(text, '\n');
}

/// The date part of a time stamp is where it begins, holds no `T`, and is all
/// of it when it holds no `T`.
pub proof fn lemma_date_part(iso: Seq<char>)
    ensures
        date_part(iso).is_prefix_of(iso),
        !date_part(iso).contains('T'),
        !iso.contains('T') ==> date_part(iso) == iso,
{
    lemma_first_piece(iso, 'T');
}

proof fn lemma_first_piece(s: Seq<char>, sep: char)
    ensures
        text::split_acc(s, sep).0.len() == 0 ==> text::split_acc(s, sep).1 == s && !s.contains(sep),
        text::split_acc(s, sep).0.len() > 0 ==> text::split_acc(s, sep).0[0].is_prefix_of(s)
            && !text::split_acc(s, sep).0[0].contains(sep),
        text::split_acc(s, sep).0.len() > 0 ==> s.contains(sep),
        split_on(s, sep)[0].is_prefix_of(s),
        !split_on(s, sep)[0].contains(sep),
        !s.contains(sep) ==> split_on(s, sep)[0] == s,
    decreases s.len(),
{
    if s.len() > 0 {
        let t = s.drop_last();
        lemma_first_piece(t, sep);
        assert(s =~= t.push(s.last()));
        let (d, c) = text::split_acc(t, sep);
        if d.len() > 0 {
            assert(t.contains(sep));
            let k = choose|k: int| 0 <= k < t.len() && t[k] == sep;
            assert(s[k] == sep);
            assert(d[0].is_prefix_of(t));
            assert(s.take(d[0].len() as int) =~= t.take(d[0].len() as int));
        } else {
            assert(t.is_prefix_of(s)) by {
                assert(s.take(t.len() as int) =~= t);
            }
            if s.last() == sep {
                assert(s[s.len() - 1] == sep);
            } else {
                assert(!s.contains(sep)) by {
                    if s.contains(sep) {
                        let k = choose|k: int| 0 <= k < s.len() && s[k] == sep;
                        if k < t.len() {
                            assert(t[k] == sep);
                        }
                    }
                }
            }
        }
        if s.contains(sep) {
        } else {
            assert(s.last() != sep) by {
                assert(s[s.len() - 1] == s.last());
            }
            assert(!t.contains(sep)) by {
                if t.contains(sep) {
                    let k = choose|k: int| 0 <= k < t.len() && t[k] == sep;
                    assert(s[k] == sep);
                }
            }
        }
    }
    assert(split_on(s, sep)[0] == (if text::split_acc(s, sep).0.len() > 0 { text::split_acc(s, sep).0[0] } else { text::split_acc(s, sep).1 }));
    if text::split_acc(s, sep).0.len() == 0 {
        assert(s.take(s.len() as int) =~= s);
    }
}

} // verus!
