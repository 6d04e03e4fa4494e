use vstd::prelude::*;
use crate::text::{chars_of, matches_at, occurs_at, string_from_chars, trim_of, trimmed};

verus! {

/// `s` with every occurrence of `from`, taken left to right without overlap,
/// replaced by `to`. An empty `from` leaves `s` as it is.
pub open spec fn replaced(s: Seq<char>, from: Seq<char>, to: Seq<char>) -> Seq<char>
    decreases s.len(),
{
    if s.len() == 0 || from.len() == 0 {
        s
    } else if occurs_at(s, from, 0) {
        to + replaced(s.subrange(from.len() as int, s.len() as int), from, to)
    } else {
        seq![s[0]] + replaced(s.subrange(1, s.len() as int), from, to)
    }
}

/// `s` with every run of the character `c` shortened to a single `c`.
pub open spec fn squeezed(s: Seq<char>, c: char) -> Seq<char>
    decreases s.len(),
{
    if s.len() == 0 {
        s
    } else {
        let t = s.drop_last();
        if s.last() == c && t.len() > 0 && t.last() == c {
            squeezed(t, c)
        } else {
            squeezed(t, c).push(s.last())
        }
    }
}

/// The pieces of `s` between newlines; there is always at least one.
pub open spec fn line_pieces(s: Seq<char>) -> Seq<Seq<char>>
    decreases s.len(),
{
    if s.len() == 0 {
        seq![Seq::<char>::empty()]
    } else {
        let p = line_pieces(s.drop_last());
        if s.last() == '\n' {
            p.push(Seq::<char>::empty())
        } else {
            p.update(p.len() - 1, p.last().push(s.last()))
        }
    }
}

/// `acc` followed by the trimmed `line`, separated by a space, unless the
/// trimmed line is empty.
pub open spec fn add_line(acc: Seq<char>, line: Seq<char>) -> Seq<char> {
    let t = trim_of(line);
    if t.len() == 0 {
        acc
    } else if acc.len() == 0 {
        t
    } else {
        acc + seq![' '] + t
    }
}

/// The trimmed, non-blank pieces joined with single spaces.
pub open spec fn joined_lines(pieces: Seq<Seq<char>>) -> Seq<char>
    decreases pieces.len(),
{
    if pieces.len() == 0 {
        Seq::empty()
    } else {
        add_line(joined_lines(pieces.drop_last()), pieces.last())
    }
}

/// Text with its lines trimmed, blank lines dropped, and the rest joined by spaces.
pub open spec fn single_line(s: Seq<char>) -> Seq<char> {
    joined_lines(line_pieces(s))
}

/// Text with the common abbreviations written out.
pub open spec fn expanded(s: Seq<char>) -> Seq<char> {
    let s = replaced(s, "Dr."@, "Doctor"@);
    let s = replaced(s, "Mr."@, "Mister"@);
    let s = replaced(s, "Mrs."@, "Missus"@);
    let s = replaced(s, "Ms."@, "Miss"@);
    let s = replaced(s, "Prof."@, "Professor"@);
    let s = replaced(s, "Sr."@, "Senior"@);
    let s = replaced(s, "Jr."@, "Junior"@);
    let s = replaced(s, "vs."@, "versus"@);
    let s = replaced(s, "etc."@, "et cetera"@);
    let s = replaced(s, "e.g."@, "for example"@);
    replaced(s, "i.e."@, "that is"@)
}

/// Text with one space after sentence-ending punctuation where there were
/// two, and runs of exclamation or question marks shortened to one.
pub open spec fn punctuation_normalized(s: Seq<char>) -> Seq<char> {
    let s = replaced(s, ".  "@, ". "@);
    let s = replaced(s, "!  "@, "! "@);
    let s = replaced(s, "?  "@, "? "@);
    squeezed(squeezed(s, '!'), '?')
}

/// Text prepared for speech: on one line, abbreviations written out,
/// punctuation normalised, and runs of spaces shortened to one.
pub open spec fn preprocessed(s: Seq<char>) -> Seq<char> {
    squeezed(punctuation_normalized(expanded(single_line(s))), ' ')
}

/// `s` with every occurrence of `from` replaced by `to`, left to right.
pub fn replace_all(s: &Vec<char>, from: &Vec<char>, to: &Vec<char>) -> (r: Vec<char>)
    ensures
        r@ == replaced(s@, from@, to@),
{
    let n = s.len();
    let m = from.len();
    let mut out: Vec<char> = Vec::new();
    if m == 0 {
        let mut k: usize = 0;
        while k < n
            invariant
                n == s@.len(),
                k <= n,
                out@ == s@.subrange(0, k as int),
            decreases n - k,
        {
            out.push(s[k]);
            k += 1;
        }
        assert(out@ =~= s@);
        return out;
    }
    let mut i: usize = 0;
    assert(s@.subrange(0, n as int) =~= s@);
    while i < n
        invariant
            n == s@.len(),
            m == from@.len(),
            m > 0,
            i <= n,
            out@ + replaced(s@.subrange(i as int, n as int), from@, to@) == replaced(s@, from@, to@),
        decreases n - i,
    {
        let ghost rest = s@.subrange(i as int, n as int);
        if m <= n - i && matches_at(s, from, i) {
            assert(rest.subrange(0, m as int) =~= s@.subrange(i as int, i + m));
            assert(occurs_at(rest, from@, 0));
            assert(rest.subrange(m as int, rest.len() as int) =~= s@.subrange(i + m, n as int));
            let mut k: usize = 0;
            let ghost before = out@;
            while k < to.len()
                invariant
                    k <= to@.len(),
                    out@ == before + to@.subrange(0, k as int),
                decreases to@.len() - k,
            {
                out.push(to[k]);
                k += 1;
            }
            assert(to@.subrange(0, k as int) =~= to@);
            assert(out@ + replaced(s@.subrange(i + m, n as int), from@, to@) =~= before + replaced(rest, from@, to@));
            i += m;
        } else {
            assert(!occurs_at(rest, from@, 0)) by {
                if m <= n - i {
                    assert(rest.subrange(0, m as int) =~= s@.subrange(i as int, i + m));
                }
            }
            assert(rest.subrange(1, rest.len() as int) =~= s@.subrange(i + 1, n as int));
            let ghost before = out@;
            out.push(s[i]);
            assert(out@ + replaced(s@.subrange(i + 1, n as int), from@, to@) =~= before + replaced(rest, from@, to@));
            i += 1;
        }
    }
    assert(replaced(s@.subrange(n as int, n as int), from@, to@) =~= Seq::<char>::empty());
    assert(out@ =~= out@ + Seq::<char>::empty());
    out
}

/// `s` with every occurrence of `from` replaced by `to`, left to right.
pub fn replace_str(s: &str, from: &str, to: &str) -> (r: String)
    ensures
        r@ == replaced(s@, from@, to@),
{
    let r = replace_all(&chars_of(s), &chars_of(from), &chars_of(to));
    string_from_chars(r.as_slice())
}

/// A squeezed non-empty text ends as the text does.
proof fn lemma_squeezed_last(s: Seq<char>, c: char)
    requires
        s.len() > 0,
    ensures
        squeezed(s, c).len() > 0,
        squeezed(s, c).last() == s.last(),
    decreases s.len(),
{
    let t = s.drop_last();
    if s.last() == c && t.len() > 0 && t.last() == c {
        lemma_squeezed_last(t, c);
    }
}

/// `s` with every run of `c` shortened to one `c`.
pub fn squeeze(s: &Vec<char>, c: char) -> (r: Vec<char>)
    ensures
        r@ == squeezed(s@, c),
{
    let n = s.len();
    let mut out: Vec<char> = Vec::new();
    let mut i: usize = 0;
    assert(s@.subrange(0, 0) =~= Seq::<char>::empty());
    while i < n
        invariant
            n == s@.len(),
            i <= n,
            out@ == squeezed(s@.subrange(0, i as int), c),
        decreases n - i,
    {
        let ghost pre = s@.subrange(0, i + 1);
        assert(pre.drop_last() =~= s@.subrange(0, i as int));
        if i > 0 {
            proof {
                lemma_squeezed_last(s@.subrange(0, i as int), c);
            }
        }
        let x = s[i];
        if !(x == c && i > 0 && s[i - 1] == c) {
            out.push(x);
        }
        i += 1;
    }
    assert(s@.subrange(0, n as int) =~= s@);
    out
}

/// There is always a piece.
proof fn lemma_line_pieces_len(s: Seq<char>)
    ensures
        line_pieces(s).len() > 0,
    decreases s.len(),
{
    if s.len() > 0 {
        lemma_line_pieces_len(s.drop_last());
    }
}

/// Appends the trimmed `line` to `acc`, with a space between, unless it is blank.
fn push_line(acc: &mut Vec<char>, line: &Vec<char>)
    ensures
        final(acc)@ == add_line(old(acc)@, line@),
{
    let t = chars_of(trimmed(string_from_chars(line.as_slice()).as_str()).as_str());
    if t.len() == 0 {
        return;
    }
    if acc.len() > 0 {
        acc.push(' ');
    }
    let ghost before = acc@;
    let mut k: usize = 0;
    while k < t.len()
        invariant
            k <= t@.len(),
            acc@ == before + t@.subrange(0, k as int),
        decreases t@.len() - k,
    {
        acc.push(t[k]);
        k += 1;
    }
    assert(t@.subrange(0, k as int) =~= t@);
    assert(acc@ =~= add_line(old(acc)@, line@));
}

/// Trims every line, drops blank ones and joins the rest with single spaces.
pub fn join_lines(text: &str) -> (r: Vec<char>)
    ensures
        r@ == single_line(text@),
{
    let s = chars_of(text);
    let n = s.len();
    let mut out: Vec<char> = Vec::new();
    let mut line: Vec<char> = Vec::new();
    let mut i: usize = 0;
    assert(s@.subrange(0, 0) =~= Seq::<char>::empty());
    while i < n
        invariant
            n == s@.len(),
            i <= n,
            line_pieces(s@.subrange(0, i as int)).len() > 0,
            line@ == line_pieces(s@.subrange(0, i as int)).last(),
            out@ == joined_lines(line_pieces(s@.subrange(0, i as int)).drop_last()),
        decreases n - i,
    {
        let ghost pre = s@.subrange(0, i + 1);
        let ghost p = line_pieces(s@.subrange(0, i as int));
        assert(pre.drop_last() =~= s@.subrange(0, i as int));
        if s[i] == '\n' {
            push_line(&mut out, &line);
            line = Vec::new();
            assert(line_pieces(pre).drop_last() =~= p);
            assert(joined_lines(p) == add_line(joined_lines(p.drop_last()), p.last()));
        } else {
            line.push(s[i]);
            assert(line_pieces(pre).drop_last() =~= p.drop_last());
        }
        i += 1;
    }
    assert(s@.subrange(0, n as int) =~= s@);
    push_line(&mut out, &line);
    out
}

/// Writes out common abbreviations, such as Dr. as Doctor.
pub fn expand_abbreviations(text: &str) -> (r: String)
    ensures
        r@ == expanded(text@),
{
    let s = replace_str(text, "Dr.", "Doctor");
    let s = replace_str(s.as_str(), "Mr.", "Mister");
    let s = replace_str(s.as_str(), "Mrs.", "Missus");
    let s = replace_str(s.as_str(), "Ms.", "Miss");
    let s = replace_str(s.as_str(), "Prof.", "Professor");
    let s = replace_str(s.as_str(), "Sr.", "Senior");
    let s = replace_str(s.as_str(), "Jr.", "Junior");
    let s = replace_str(s.as_str(), "vs.", "versus");
    let s = replace_str(s.as_str(), "etc.", "et cetera");
    let s = replace_str(s.as_str(), "e.g.", "for example");
    replace_str(s.as_str(), "i.e.", "that is")
}

/// Leaves one space after sentence-ending punctuation where there were two,
/// and shortens runs of exclamation and question marks to one.
pub fn normalize_punctuation(text: &str) -> (r: String)
    ensures
        r@ == punctuation_normalized(text@),
{
    let s = replace_str(text, ".  ", ". ");
    let s = replace_str(s.as_str(), "!  ", "! ");
    let s = replace_str(s.as_str(), "?  ", "? ");
    let v = squeeze(&squeeze(&chars_of(s.as_str()), '!'), '?');
    string_from_chars(v.as_slice())
}

/// Prepares text for speech: puts it on one line, writes out abbreviations,
/// normalises punctuation and shortens runs of spaces to one.
pub fn preprocess_text(text: &str) -> (r: String)
    ensures
        r@ == preprocessed(text@),
{
    let joined = string_from_chars(join_lines(text).as_slice());
    let expanded_text = expand_abbreviations(joined.as_str());
    let normalized = normalize_punctuation(expanded_text.as_str());
    let v = squeeze(&chars_of(normalized.as_str()), ' ');
    string_from_chars(v.as_slice())
}

/// Whether `c` has the Unicode White_Space property, which is what
/// `char::is_whitespace` tests.
pub open spec fn whitespace_char(c: char) -> bool {
    ('\u{9}' <= c <= '\u{d}') || c == ' ' || c == '\u{85}' || c == '\u{a0}' || c == '\u{1680}'
        || ('\u{2000}' <= c <= '\u{200a}') || c == '\u{2028}' || c == '\u{2029}' || c == '\u{202f}'
        || c == '\u{205f}' || c == '\u{3000}'
}

/// What `char::is_uppercase` says of a character.
pub uninterp spec fn uppercase_char(c: char) -> bool;

/// Whether `c` is white space, as `char::is_whitespace` decides.
fn is_whitespace(c: char) -> (r: bool)
    ensures
        r == whitespace_char(c),
{
    ('\u{9}' <= c && c <= '\u{d}') || c == ' ' || c == '\u{85}' || c == '\u{a0}' || c == '\u{1680}'
        || ('\u{2000}' <= c && c <= '\u{200a}') || c == '\u{2028}' || c == '\u{2029}'
        || c == '\u{202f}' || c == '\u{205f}' || c == '\u{3000}'
}

/// Relies on `char::is_uppercase`: the Unicode Uppercase property.
#[verifier::external_body]
fn is_uppercase(c: char) -> (r: bool)
    ensures
        r == uppercase_char(c),
{
    c.is_uppercase()
}

/// The number of bytes that UTF-8 takes for `c`.
pub open spec fn utf8_width(c: char) -> nat {
    if (c as u32) < 0x80 {
        1
    } else if (c as u32) < 0x800 {
        2
    } else if (c as u32) < 0x10000 {
        3
    } else {
        4
    }
}

/// The number of bytes that UTF-8 takes for `s`.
pub open spec fn utf8_size(s: Seq<char>) -> nat
    decreases s.len(),
{
    if s.len() == 0 {
        0
    } else {
        utf8_size(s.drop_last()) + utf8_width(s.last())
    }
}

/// Whether `c` may end a sentence.
pub open spec fn ends_sentence(c: char) -> bool {
    c == '.' || c == '!' || c == '?'
}

/// The sentences found, and the text gathered since the last one, after the
/// first `n` characters of `text`. A sentence closes at `.`, `!` or `?` when
/// the character of `text` at the position given by the gathered text's size
/// in UTF-8 bytes is white space or upper case, or when there is no such
/// character.
pub open spec fn sentence_scan(text: Seq<char>, n: nat) -> (Seq<Seq<char>>, Seq<char>)
    decreases n,
{
    if n == 0 || n > text.len() {
        (Seq::empty(), Seq::empty())
    } else {
        let prev = sentence_scan(text, (n - 1) as nat);
        let cur = prev.1.push(text[n - 1]);
        let k = utf8_size(cur);
        if ends_sentence(text[n - 1]) && (k >= text.len() || whitespace_char(text[k as int])
            || uppercase_char(text[k as int])) {
            (prev.0.push(trim_of(cur)), Seq::empty())
        } else {
            (prev.0, cur)
        }
    }
}

/// The sentences of `text`, trimmed, with any non-blank rest as a last one.
pub open spec fn sentences(text: Seq<char>) -> Seq<Seq<char>> {
    let scan = sentence_scan(text, text.len());
    if trim_of(scan.1).len() > 0 {
        scan.0.push(trim_of(scan.1))
    } else {
        scan.0
    }
}

/// A text takes at most four bytes per character.
proof fn lemma_utf8_size_bound(s: Seq<char>)
    ensures
        utf8_size(s) <= 4 * s.len(),
    decreases s.len(),
{
    if s.len() > 0 {
        lemma_utf8_size_bound(s.drop_last());
    }
}

/// The number of bytes that UTF-8 takes for `c`.
fn width_of(c: char) -> (r: u128)
    ensures
        r == utf8_width(c),
{
    let v = c as u32;
    if v < 0x80 {
        1
    } else if v < 0x800 {
        2
    } else if v < 0x10000 {
        3
    } else {
        4
    }
}

/// The trimmed text of `chars`.
fn trimmed_string(chars: &Vec<char>) -> (r: String)
    ensures
        r@ == trim_of(chars@),
{
    trimmed(string_from_chars(chars.as_slice()).as_str())
}

/// Splits text into sentences for speaking one at a time.
pub fn split_sentences(text: &str) -> (r: Vec<String>)
    ensures
        r@.map_values(|x: String| x@) == sentences(text@),
{
    let s = chars_of(text);
    let n = s.len();
    let mut done: Vec<String> = Vec::new();
    let mut current: Vec<char> = Vec::new();
    let mut size: u128 = 0;
    let mut i: usize = 0;
    while i < n
        invariant
            n == s@.len(),
            s@ == text@,
            i <= n,
            done@.map_values(|x: String| x@) == sentence_scan(text@, i as nat).0,
            current@ == sentence_scan(text@, i as nat).1,
            current@.len() <= i,
            size == utf8_size(current@),
        decreases n - i,
    {
        let c = s[i];
        let ghost prev = current@;
        current.push(c);
        assert(current@.drop_last() =~= prev);
        proof {
            lemma_utf8_size_bound(current@);
        }
        size = size + width_of(c);
        let mut close = false;
        if c == '.' || c == '!' || c == '?' {
            if size >= n as u128 {
                close = true;
            } else {
                let next = s[size as usize];
                close = is_whitespace(next) || is_uppercase(next);
            }
        }
        if close {
            let ghost before = done@.map_values(|x: String| x@);
            let t = trimmed_string(&current);
            done.push(t);
            assert(done@.map_values(|x: String| x@) =~= before.push(t@));
            current = Vec::new();
            size = 0;
        }
        i += 1;
    }
    let t = trimmed_string(&current);
    if t.as_str().unicode_len() > 0 {
        let ghost before = done@.map_values(|x: String| x@);
        done.push(t);
        assert(done@.map_values(|x: String| x@) =~= before.push(t@));
    }
    done
}

} // verus!
