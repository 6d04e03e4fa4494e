use vstd::prelude::*;
use crate::chat_types::{Chat, ChatType};
use crate::text::{contains_seq, decimal, u64_to_string};
use colored::Colorize;

verus! {

/// The title of a chat, or `fallback` when it has none.
pub open spec fn title_or(c: Chat, fallback: Seq<char>) -> Seq<char> {
    match c.title {
        Some(t) => t@,
        None => fallback,
    }
}

/// The name of a chat type in CSV output.
pub open spec fn csv_kind_label(t: ChatType) -> Seq<char> {
    match t {
        ChatType::DirectMessage => "dm"@,
        ChatType::Group => "group"@,
        ChatType::Channel => "channel"@,
        ChatType::Unknown => "unknown"@,
    }
}

/// The participant count in CSV output: empty when unknown.
pub open spec fn count_text(n: Option<usize>) -> Seq<char> {
    match n {
        Some(k) => decimal(k as nat),
        None => Seq::empty(),
    }
}

/// One CSV row for a chat.
pub open spec fn csv_row(c: Chat) -> Seq<char> {
    c.id@ + ","@ + title_or(c, Seq::empty()) + ","@ + csv_kind_label(c.chat_type) + ","@ + count_text(
        c.participant_count,
    ) + "\n"@
}

/// The CSV rows of a list of chats.
pub open spec fn csv_rows(chats: Seq<Chat>) -> Seq<char>
    decreases chats.len(),
{
    if chats.len() == 0 {
        Seq::empty()
    } else {
        csv_rows(chats.drop_last()) + csv_row(chats.last())
    }
}

/// One compact line for a chat: its identifier and its title.
pub open spec fn compact_line(c: Chat) -> Seq<char> {
    c.id@ + " | "@ + title_or(c, "Untitled"@)
}

/// The compact lines of a list of chats, separated by newlines.
pub open spec fn compact_lines(chats: Seq<Chat>) -> Seq<char>
    decreases chats.len(),
{
    if chats.len() == 0 {
        Seq::empty()
    } else if chats.len() == 1 {
        compact_line(chats[0])
    } else {
        compact_lines(chats.drop_last()) + "\n"@ + compact_line(chats.last())
    }
}

/// Appends `title` or `fallback` when there is no title.
fn push_title(out: &mut String, title: &Option<String>, fallback: &str)
    ensures
        final(out)@ == old(out)@ + match *title {
            Some(t) => t@,
            None => fallback@,
        },
{
    match title {
        Some(t) => out.append(t.as_str()),
        None => out.append(fallback),
    }
}

/// Chats as CSV: a header line, then one row per chat.
pub fn format_chats_csv(chats: &[Chat]) -> (r: String)
    ensures
        r@ == "id,title,type,participant_count\n"@ + csv_rows(chats@),
{
    let mut out = String::from_str("id,title,type,participant_count\n");
    let mut i: usize = 0;
    while i < chats.len()
        invariant
            i <= chats@.len(),
            out@ == "id,title,type,participant_count\n"@ + csv_rows(chats@.subrange(0, i as int)),
        decreases chats@.len() - i,
    {
        let chat = &chats[i];
        let ghost before = out@;
        proof {
            reveal_strlit("");
            assert(""@ =~= Seq::<char>::empty());
        }
        out.append(chat.id.as_str());
        out.append(",");
        push_title(&mut out, &chat.title, "");
        out.append(",");
        let kind_label = match chat.chat_type {
            ChatType::DirectMessage => "dm",
            ChatType::Group => "group",
            ChatType::Channel => "channel",
            ChatType::Unknown => "unknown",
        };
        out.append(kind_label);
        out.append(",");
        let ghost mid = out@;
        assert(mid =~= before + chat.id@ + ","@ + title_or(*chat, Seq::empty()) + ","@ + csv_kind_label(chat.chat_type) + ","@);
        match chat.participant_count {
            Some(k) => {
                let digits = u64_to_string(k as u64);
                assert(digits@ == count_text(chat.participant_count));
                out.append(digits.as_str());
            },
            None => {
                assert(out@ =~= mid + count_text(chat.participant_count));
            },
        }
        out.append("\n");
        assert(chats@.subrange(0, i + 1).drop_last() =~= chats@.subrange(0, i as int));
        assert(out@ =~= before + csv_row(chats@[i as int]));
        i += 1;
    }
    assert(chats@.subrange(0, i as int) =~= chats@);
    out
}

/// Chats one per line as `id | title`, without a trailing newline.
pub fn format_chats_compact(chats: &[Chat]) -> (r: String)
    ensures
        r@ == compact_lines(chats@),
{
    let mut out = String::new();
    let mut i: usize = 0;
    while i < chats.len()
        invariant
            i <= chats@.len(),
            out@ == compact_lines(chats@.subrange(0, i as int)),
        decreases chats@.len() - i,
    {
        let chat = &chats[i];
        let ghost before = out@;
        if i > 0 {
            out.append("\n");
        }
        out.append(chat.id.as_str());
        out.append(" | ");
        push_title(&mut out, &chat.title, "Untitled");
        let ghost sub = chats@.subrange(0, i + 1);
        assert(sub.drop_last() =~= chats@.subrange(0, i as int));
        if i == 0 {
            assert(before =~= Seq::<char>::empty());
            assert(out@ =~= compact_line(sub[0]));
        } else {
            assert(out@ =~= before + "\n"@ + compact_line(sub.last()));
        }
        i += 1;
    }
    assert(chats@.subrange(0, i as int) =~= chats@);
    out
}

/// The terminal styles of the text listing.
#[derive(Debug, Clone, Copy, PartialEq, Eq, Structural)]
pub enum Paint {
    Bold,
    Dimmed,
    Cyan,
    Green,
}

/// The SGR code of a style.
pub open spec fn paint_code(p: Paint) -> Seq<char> {
    match p {
        Paint::Bold => "1"@,
        Paint::Dimmed => "2"@,
        Paint::Cyan => "36"@,
        Paint::Green => "32"@,
    }
}

/// The terminal reset sequence.
pub open spec fn reset_seq() -> Seq<char> {
    seq!['\x1b', '[', '0', 'm']
}

/// Whether `r` shows `s` in style `p`: either plain, where the environment
/// turns colors off, or wrapped in the style's sequence and a reset.
pub open spec fn painted_as(r: Seq<char>, s: Seq<char>, p: Paint) -> bool {
    r == s || r == seq!['\x1b', '['] + paint_code(p) + "m"@ + s + reset_seq()
}

/// Relies on colored's `Colorize::bold` and its `Display`: the text, wrapped
/// in the bold sequence and a reset when the environment allows colors.
#[verifier::external_body]
fn bold(s: &str) -> (r: String)
    ensures
        !contains_seq(s@, reset_seq()) ==> painted_as(r@, s@, Paint::Bold),
{
    s.bold().to_string()
}

/// Relies on colored's `Colorize::dimmed` and its `Display`: the text, wrapped
/// in the dim sequence and a reset when the environment allows colors.
#[verifier::external_body]
fn dimmed(s: &str) -> (r: String)
    ensures
        !contains_seq(s@, reset_seq()) ==> painted_as(r@, s@, Paint::Dimmed),
{
    s.dimmed().to_string()
}

/// Relies on colored's `Colorize::cyan` and its `Display`: the text, wrapped
/// in the cyan sequence and a reset when the environment allows colors.
#[verifier::external_body]
fn cyan(s: &str) -> (r: String)
    ensures
        !contains_seq(s@, reset_seq()) ==> painted_as(r@, s@, Paint::Cyan),
{
    s.cyan().to_string()
}

/// Relies on colored's `Colorize::green` and its `Display`: the text, wrapped
/// in the green sequence and a reset when the environment allows colors.
#[verifier::external_body]
fn green(s: &str) -> (r: String)
    ensures
        !contains_seq(s@, reset_seq()) ==> painted_as(r@, s@, Paint::Green),
{
    s.green().to_string()
}

/// A piece of the text listing, with the style it is shown in.
#[derive(Debug)]
pub struct Segment {
    pub text: String,
    pub paint: Option<Paint>,
}

/// The label of a chat type in the text listing.
pub open spec fn listing_kind(t: ChatType) -> Seq<char> {
    match t {
        ChatType::DirectMessage => "DM"@,
        ChatType::Group => "Group"@,
        ChatType::Channel => "Channel"@,
        ChatType::Unknown => "Unknown"@,
    }
}

/// The pieces that list one chat.
pub open spec fn chat_segments(c: Chat) -> Seq<(Seq<char>, Option<Paint>)> {
    let main = seq![
        ("  "@, None),
        ("["@ + listing_kind(c.chat_type) + "]"@, Some(Paint::Cyan)),
        (" "@, None),
        (title_or(c, "Untitled"@), Some(Paint::Green)),
        (" "@, None),
        ("("@ + c.id@ + ")"@, Some(Paint::Dimmed)),
        ("\n"@, None),
    ];
    match c.participant_count {
        Some(k) => main + seq![
            ("    "@, None),
            (decimal(k as nat), Some(Paint::Dimmed)),
            (" participants\n"@, None),
        ],
        None => main,
    }
}

/// The pieces of the text listing: a bold heading, then each chat.
pub open spec fn listing_segments(chats: Seq<Chat>) -> Seq<(Seq<char>, Option<Paint>)>
    decreases chats.len(),
{
    if chats.len() == 0 {
        seq![("Available Chats:"@, Some(Paint::Bold)), ("\n\n"@, None)]
    } else {
        listing_segments(chats.drop_last()) + chat_segments(chats.last())
    }
}

/// Whether `piece` shows the listing piece `seg`.
pub open spec fn shows_segment(piece: Seq<char>, seg: (Seq<char>, Option<Paint>)) -> bool {
    match seg.1 {
        None => piece == seg.0,
        Some(p) => !contains_seq(seg.0, reset_seq()) ==> painted_as(piece, seg.0, p),
    }
}

/// The pieces joined in order.
pub open spec fn joined(pieces: Seq<Seq<char>>) -> Seq<char>
    decreases pieces.len(),
{
    if pieces.len() == 0 {
        Seq::empty()
    } else {
        joined(pieces.drop_last()) + pieces.last()
    }
}

/// The views of a list of segments.
pub open spec fn segment_views(v: Seq<Segment>) -> Seq<(Seq<char>, Option<Paint>)> {
    v.map_values(|g: Segment| (g.text@, g.paint))
}

/// Appends a segment.
fn push_segment(v: &mut Vec<Segment>, text: String, paint: Option<Paint>)
    ensures
        segment_views(final(v)@) == segment_views(old(v)@).push((text@, paint)),
{
    v.push(Segment { text, paint });
    assert(segment_views(v@) =~= segment_views(old(v)@).push((text@, paint)));
}

/// `a`, `b` and `c` joined.
fn concat3(a: &str, b: &str, c: &str) -> (r: String)
    ensures
        r@ == a@ + b@ + c@,
{
    let mut s = String::from_str(a);
    s.append(b);
    s.append(c);
    s
}

/// The pieces of the text listing of `chats`, with their styles.
pub fn chat_listing_segments(chats: &[Chat]) -> (r: Vec<Segment>)
    ensures
        segment_views(r@) == listing_segments(chats@),
{
    let mut v: Vec<Segment> = Vec::new();
    push_segment(&mut v, String::from_str("Available Chats:"), Some(Paint::Bold));
    push_segment(&mut v, String::from_str("\n\n"), None);
    assert(chats@.subrange(0, 0) =~= Seq::<Chat>::empty());
    assert(segment_views(v@) =~= listing_segments(chats@.subrange(0, 0)));
    let mut i: usize = 0;
    while i < chats.len()
        invariant
            i <= chats@.len(),
            segment_views(v@) == listing_segments(chats@.subrange(0, i as int)),
        decreases chats@.len() - i,
    {
        let chat = &chats[i];
        let ghost before = segment_views(v@);
        let kind = match chat.chat_type {
            ChatType::DirectMessage => "DM",
            ChatType::Group => "Group",
            ChatType::Channel => "Channel",
            ChatType::Unknown => "Unknown",
        };
        push_segment(&mut v, String::from_str("  "), None);
        push_segment(&mut v, concat3("[", kind, "]"), Some(Paint::Cyan));
        push_segment(&mut v, String::from_str(" "), None);
        let title = match &chat.title {
            Some(t) => t.clone(),
            None => String::from_str("Untitled"),
        };
        push_segment(&mut v, title, Some(Paint::Green));
        push_segment(&mut v, String::from_str(" "), None);
        push_segment(&mut v, concat3("(", chat.id.as_str(), ")"), Some(Paint::Dimmed));
        push_segment(&mut v, String::from_str("\n"), None);
        match chat.participant_count {
            Some(k) => {
                push_segment(&mut v, String::from_str("    "), None);
                push_segment(&mut v, u64_to_string(k as u64), Some(Paint::Dimmed));
                push_segment(&mut v, String::from_str(" participants\n"), None);
            },
            None => {},
        }
        assert(chats@.subrange(0, i + 1).drop_last() =~= chats@.subrange(0, i as int));
        assert(segment_views(v@) =~= before + chat_segments(chats@[i as int]));
        i += 1;
    }
    assert(chats@.subrange(0, i as int) =~= chats@);
    v
}

/// The text listing of `chats`: a bold heading, then one line per chat with
/// its type, title and identifier, and a line with the participant count
/// where it is known. Styles show only where the environment allows colors.
pub fn format_chats_text(chats: &[Chat]) -> (r: String)
    ensures
        exists|pieces: Seq<Seq<char>>|
            pieces.len() == listing_segments(chats@).len() && (forall|k: int|
                0 <= k < pieces.len() ==> shows_segment(
                    #[trigger] pieces[k],
                    listing_segments(chats@)[k],
                )) && r@ == joined(pieces),
{
    let segs = chat_listing_segments(chats);
    let ghost views = segment_views(segs@);
    let mut out = String::new();
    let ghost mut pieces: Seq<Seq<char>> = Seq::empty();
    let mut i: usize = 0;
    while i < segs.len()
        invariant
            views == segment_views(segs@),
            views == listing_segments(chats@),
            i <= segs@.len(),
            pieces.len() == i,
            forall|k: int| 0 <= k < i ==> shows_segment(#[trigger] pieces[k], views[k]),
            out@ == joined(pieces),
        decreases segs@.len() - i,
    {
        let seg = &segs[i];
        let piece = match seg.paint {
            None => seg.text.clone(),
            Some(Paint::Bold) => bold(seg.text.as_str()),
            Some(Paint::Dimmed) => dimmed(seg.text.as_str()),
            Some(Paint::Cyan) => cyan(seg.text.as_str()),
            Some(Paint::Green) => green(seg.text.as_str()),
        };
        assert(views[i as int] == (seg.text@, seg.paint));
        let ghost old_pieces = pieces;
        proof {
            pieces = pieces.push(piece@);
            assert(pieces.drop_last() =~= old_pieces);
        }
        out.append(piece.as_str());
        i += 1;
    }
    out
}

} // verus!
