use vstd::prelude::*;
use crate::text::string_from_chars;
use crate::style::{TextStyle, StyledText, default_style, sgr_apply};

verus! {

/// The position just after the last newline of `t`, or 0 when `t` has none.
pub open spec fn line_start(t: Seq<char>) -> int
    decreases t.len(),
{
    if t.len() == 0 {
        0
    } else if t.last() == '\n' {
        t.len() as int
    } else {
        line_start(t.drop_last())
    }
}

/// A line start lies within the buffer.
pub proof fn lemma_line_start_bounds(t: Seq<char>)
    ensures
        0 <= line_start(t) <= t.len(),
    decreases t.len(),
{
    if t.len() > 0 && t.last() != '\n' {
        lemma_line_start_bounds(t.drop_last());
    }
}

/// The buffer after printing `c`: a pending carriage return first drops the
/// current line, back to just after the last newline.
pub open spec fn printed(t: Seq<char>, pending_cr: bool, c: char) -> Seq<char> {
    if pending_cr {
        t.subrange(0, line_start(t)).push(c)
    } else {
        t.push(c)
    }
}

/// The buffer after the control byte `b`.
pub open spec fn executed_text(t: Seq<char>, b: u8) -> Seq<char> {
    if b == 0x0a {
        t.push('\n')
    } else if b == 0x09 {
        t.push('\t')
    } else if b == 0x08 {
        if t.len() == 0 { t } else { t.drop_last() }
    } else {
        t
    }
}

/// The pending carriage-return flag after the control byte `b`.
pub open spec fn executed_cr(pending_cr: bool, b: u8) -> bool {
    if b == 0x0a {
        false
    } else if b == 0x0d {
        true
    } else {
        pending_cr
    }
}

/// The completed runs after a flush: the buffer becomes a run when it is not empty.
pub open spec fn flushed_runs(
    runs: Seq<(Seq<char>, TextStyle)>,
    t: Seq<char>,
    s: TextStyle,
) -> Seq<(Seq<char>, TextStyle)> {
    if t.len() == 0 {
        runs
    } else {
        runs.push((t, s))
    }
}

/// A buffer without newlines has its line start at 0.
proof fn lemma_line_start_no_newline(t: Seq<char>)
    requires
        forall|i: int| 0 <= i < t.len() ==> t[i] != '\n',
    ensures
        line_start(t) == 0,
    decreases t.len(),
{
    if t.len() > 0 {
        assert(t.last() == t[t.len() - 1]);
        lemma_line_start_no_newline(t.drop_last());
    }
}

/// A carriage return directly followed by a newline truncates nothing: the
/// buffer only gains the newline, and no carriage return is left pending.
pub proof fn lemma_cr_lf_keeps_text(t: Seq<char>, pending_cr: bool)
    ensures
        executed_text(executed_text(t, 0x0d), 0x0a) == t.push('\n'),
        !executed_cr(executed_cr(pending_cr, 0x0d), 0x0a),
{
}

/// A bare carriage return followed by a printed character overwrites the
/// current line: the buffer keeps what precedes its last newline, then the
/// character. Without any newline, the earlier text is dropped entirely.
pub proof fn lemma_cr_overwrites_line(t: Seq<char>, pending_cr: bool, c: char)
    ensures
        printed(executed_text(t, 0x0d), executed_cr(pending_cr, 0x0d), c) == t.subrange(0, line_start(t)).push(c),
        (forall|i: int| 0 <= i < t.len() ==> t[i] != '\n') ==> printed(
            executed_text(t, 0x0d),
            executed_cr(pending_cr, 0x0d),
            c,
        ) == seq![c],
{
    if forall|i: int| 0 <= i < t.len() ==> t[i] != '\n' {
        lemma_line_start_no_newline(t);
        assert(t.subrange(0, 0).push(c) =~= seq![c]);
    }
}

/// An SGR sequence whose last parameter is 0 leaves every attribute at its
/// default, whatever the style and the parameters before it.
pub proof fn lemma_sgr_reset(s: TextStyle, codes: Seq<u16>)
    requires
        codes.len() > 0,
        codes.last() == 0,
    ensures
        sgr_result(s, codes) == default_style(),
        sgr_result(s, seq![0u16]) == default_style(),
{
    assert(seq![0u16].last() == 0u16);
}

/// A backspace right after a printed character (with no carriage return
/// pending) restores the buffer as it was before that character.
pub proof fn lemma_backspace_undoes_print(t: Seq<char>, c: char)
    ensures
        executed_text(printed(t, false, c), 0x08) == t,
{
    assert(t.push(c).drop_last() =~= t);
}

/// The style after an SGR sequence: an empty parameter list stands for a
/// single 0, which resets every attribute.
pub open spec fn sgr_result(s: TextStyle, codes: Seq<u16>) -> TextStyle {
    if codes.len() == 0 {
        default_style()
    } else {
        sgr_apply(s, codes)
    }
}

/// Decoder state: the text seen since the last flush, the style in effect,
/// whether a carriage return waits for the next printed character, and the
/// completed runs not yet taken by the consumer.
pub struct TerminalPerformer {
    output: Vec<StyledText>,
    current_text: Vec<char>,
    current_style: TextStyle,
    pending_cr: bool,
}

/// The index just after the last newline of `t`, or 0 when there is none.
fn last_line_start(t: &Vec<char>) -> (r: usize)
    ensures
        r as int == line_start(t@),
{
    let mut i: usize = t.len();
    assert(t@.subrange(0, i as int) =~= t@);
    while i > 0
        invariant
            i <= t.len(),
            line_start(t@) == line_start(t@.subrange(0, i as int)),
        decreases i,
    {
        if t[i - 1] == '\n' {
            return i;
        }
        assert(t@.subrange(0, i as int).drop_last() =~= t@.subrange(0, i - 1));
        i -= 1;
    }
    0
}

impl TerminalPerformer {
    /// The completed runs not yet taken, oldest first.
    pub closed spec fn runs(&self) -> Seq<(Seq<char>, TextStyle)> {
        self.output@.map_values(|r: StyledText| r@)
    }

    /// The text buffered since the last flush.
    pub closed spec fn text(&self) -> Seq<char> {
        self.current_text@
    }

    /// The style in effect.
    pub closed spec fn style(&self) -> TextStyle {
        self.current_style
    }

    /// Whether a carriage return waits for the next printed character.
    pub closed spec fn pending_cr(&self) -> bool {
        self.pending_cr
    }

    /// A decoder with nothing buffered, the default style and no completed runs.
    pub fn new() -> (r: Self)
        ensures
            r.runs() == Seq::<(Seq<char>, TextStyle)>::empty(),
            r.text() == Seq::<char>::empty(),
            r.style() == default_style(),
            !r.pending_cr(),
    {
        let r = TerminalPerformer {
            output: Vec::new(),
            current_text: Vec::new(),
            current_style: TextStyle::default(),
            pending_cr: false,
        };
        assert(r.runs() =~= Seq::<(Seq<char>, TextStyle)>::empty());
        r
    }

    /// Emits the buffered text as a run with the current style, if there is any,
    /// and empties the buffer. The style stays as it is.
    pub fn flush_current_text(&mut self)
        ensures
            final(self).runs() == flushed_runs(old(self).runs(), old(self).text(), old(self).style()),
            final(self).text() == Seq::<char>::empty(),
            final(self).style() == old(self).style(),
            final(self).pending_cr() == old(self).pending_cr(),
    {
        if self.current_text.len() > 0 {
            let text = string_from_chars(self.current_text.as_slice());
            let run = StyledText { text, style: self.current_style };
            self.output.push(run);
            self.current_text.clear();
            assert(self.runs() =~= flushed_runs(old(self).runs(), old(self).text(), old(self).style()));
        }
        assert(self.text() =~= Seq::<char>::empty());
    }

    /// Appends a printable character. A pending carriage return first cuts the
    /// buffer back to just after its last newline (or empties it) and is cleared.
    pub fn print(&mut self, c: char)
        ensures
            final(self).text() == printed(old(self).text(), old(self).pending_cr(), c),
            !final(self).pending_cr(),
            final(self).runs() == old(self).runs(),
            final(self).style() == old(self).style(),
    {
        if self.pending_cr {
            let cut = last_line_start(&self.current_text);
            proof {
                lemma_line_start_bounds(self.current_text@);
            }
            self.current_text.truncate(cut);
            self.pending_cr = false;
        }
        self.current_text.push(c);
    }

    /// Applies a C0 control byte: newline is kept and cancels a pending carriage
    /// return, carriage return is deferred to the next printed character, tab is
    /// kept, backspace removes the last buffered character, others are ignored.
    pub fn execute(&mut self, byte: u8)
        ensures
            final(self).text() == executed_text(old(self).text(), byte),
            final(self).pending_cr() == executed_cr(old(self).pending_cr(), byte),
            final(self).runs() == old(self).runs(),
            final(self).style() == old(self).style(),
    {
        if byte == 0x0a {
            self.pending_cr = false;
            self.current_text.push('\n');
        } else if byte == 0x0d {
            self.pending_cr = true;
        } else if byte == 0x09 {
            self.current_text.push('\t');
        } else if byte == 0x08 {
            let _ = self.current_text.pop();
        }
    }

    /// Handles a complete control sequence. Only SGR (final character `m`) has
    /// an effect: the buffered text is flushed under the old style, then the
    /// parameters are applied left to right. Every other sequence is ignored.
    pub fn csi_dispatch(&mut self, params: &Vec<u16>, intermediates: &[u8], ignore: bool, action: char)
        ensures
            action == 'm' ==> {
                &&& final(self).runs() == flushed_runs(old(self).runs(), old(self).text(), old(self).style())
                &&& final(self).text() == Seq::<char>::empty()
                &&& final(self).style() == sgr_result(old(self).style(), params@)
            },
            action != 'm' ==> {
                &&& final(self).runs() == old(self).runs()
                &&& final(self).text() == old(self).text()
                &&& final(self).style() == old(self).style()
            },
            final(self).pending_cr() == old(self).pending_cr(),
    {
        if action == 'm' {
            self.flush_current_text();
            if params.len() == 0 {
                self.current_style = TextStyle::default();
            } else {
                let ghost start = self.current_style;
                let mut i: usize = 0;
                assert(params@.subrange(0, 0) =~= Seq::<u16>::empty());
                while i < params.len()
                    invariant
                        i <= params.len(),
                        self.current_style == sgr_apply(start, params@.subrange(0, i as int)),
                        self.runs() == flushed_runs(old(self).runs(), old(self).text(), old(self).style()),
                        self.text() == Seq::<char>::empty(),
                        self.pending_cr() == old(self).pending_cr(),
                    decreases params.len() - i,
                {
                    assert(params@.subrange(0, i + 1).drop_last() =~= params@.subrange(0, i as int));
                    self.current_style.apply_sgr_code(params[i]);
                    i += 1;
                }
                assert(params@.subrange(0, i as int) =~= params@);
            }
        }
    }

    /// Handles an escape sequence that is not a control sequence: always ignored.
    pub fn esc_dispatch(&mut self, intermediates: &[u8], ignore: bool, byte: u8)
        ensures
            *final(self) == *old(self),
    {
    }

    /// Hands over the completed runs, oldest first, and forgets them.
    pub fn take_output(&mut self) -> (r: Vec<StyledText>)
        ensures
            r@.map_values(|x: StyledText| x@) == old(self).runs(),
            final(self).runs() == Seq::<(Seq<char>, TextStyle)>::empty(),
            final(self).text() == old(self).text(),
            final(self).style() == old(self).style(),
            final(self).pending_cr() == old(self).pending_cr(),
    {
        let mut r: Vec<StyledText> = Vec::new();
        std::mem::swap(&mut r, &mut self.output);
        assert(self.runs() =~= Seq::<(Seq<char>, TextStyle)>::empty());
        r
    }
}

} // verus!
