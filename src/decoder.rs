use vstd::prelude::*;
use crate::performer::{executed_cr, executed_text, printed, TerminalPerformer};
use crate::style::TextStyle;

verus! {

#[verifier::external_type_specification]
#[verifier::external_body]
pub struct ExParser<const N: usize>(vte::Parser<N>);

#[verifier::external_type_specification]
#[verifier::external_body]
pub struct ExParams(vte::Params);

/// Relies on `vte::Params::iter`: the first subparameter of each parameter,
/// in order; vte gives every parameter at least one.
#[verifier::external_body]
fn first_subparams(params: &vte::Params) -> (r: Vec<u16>) {
    params.iter().map(|p| p[0]).collect()
}

/// vte recognises the escape-sequence grammar and calls back here; every
/// callback that this trait leaves at its default is ignored.
impl vte::Perform for TerminalPerformer {
    fn print(&mut self, c: char) {
        TerminalPerformer::print(self, c);
    }

    fn execute(&mut self, byte: u8) {
        TerminalPerformer::execute(self, byte);
    }

    fn csi_dispatch(&mut self, params: &vte::Params, intermediates: &[u8], ignore: bool, action: char) {
        let codes = first_subparams(params);
        TerminalPerformer::csi_dispatch(self, &codes, intermediates, ignore, action);
    }

    fn esc_dispatch(&mut self, intermediates: &[u8], ignore: bool, byte: u8) {
        TerminalPerformer::esc_dispatch(self, intermediates, ignore, byte);
    }
}


/// Whether a byte is one that vte, in its ground state, hands on as a
/// printable character.
pub open spec fn printable_byte(b: u8) -> bool {
    0x20 <= b <= 0x7f
}

/// Whether a byte is one that vte, in its ground state, hands on as a
/// control byte: every C0 byte but escape.
pub open spec fn control_byte(b: u8) -> bool {
    b < 0x20 && b != 0x1b
}

/// The buffer and the pending carriage-return flag after one plain byte.
pub open spec fn plain_step(t: Seq<char>, cr: bool, b: u8) -> (Seq<char>, bool) {
    if printable_byte(b) {
        (printed(t, cr, b as char), false)
    } else {
        (executed_text(t, b), executed_cr(cr, b))
    }
}

/// The buffer and the pending carriage-return flag after plain bytes, in order.
pub open spec fn plain_fold(t: Seq<char>, cr: bool, bytes: Seq<u8>) -> (Seq<char>, bool)
    decreases bytes.len(),
{
    if bytes.len() == 0 {
        (t, cr)
    } else {
        let prev = plain_fold(t, cr, bytes.drop_last());
        plain_step(prev.0, prev.1, bytes.last())
    }
}

/// Whether every byte is printable or a control byte other than escape.
pub open spec fn plain_bytes(bytes: Seq<u8>) -> bool {
    forall|i: int| 0 <= i < bytes.len() ==> printable_byte(#[trigger] bytes[i]) || control_byte(bytes[i])
}

/// Whether `b` extends the completed runs `a`, each added run holding text.
pub open spec fn runs_extended(a: Seq<(Seq<char>, TextStyle)>, b: Seq<(Seq<char>, TextStyle)>) -> bool {
    &&& a.len() <= b.len()
    &&& b.subrange(0, a.len() as int) == a
    &&& forall|i: int| a.len() <= i < b.len() ==> (#[trigger] b[i]).0.len() > 0
}

/// Extending runs is transitive.
proof fn lemma_runs_extended_trans(
    a: Seq<(Seq<char>, TextStyle)>,
    b: Seq<(Seq<char>, TextStyle)>,
    c: Seq<(Seq<char>, TextStyle)>,
)
    requires
        runs_extended(a, b),
        runs_extended(b, c),
    ensures
        runs_extended(a, c),
{
    assert(c.subrange(0, a.len() as int) =~= b.subrange(0, a.len() as int)) by {
        assert forall|i: int| 0 <= i < a.len() implies c.subrange(0, a.len() as int)[i] == b.subrange(0, a.len() as int)[i] by {
            assert(c[i] == c.subrange(0, b.len() as int)[i]);
        }
    }
    assert forall|i: int| a.len() <= i < c.len() implies (#[trigger] c[i]).0.len() > 0 by {
        if i < b.len() {
            assert(c[i] == c.subrange(0, b.len() as int)[i]);
            assert(b[i].0.len() > 0);
        }
    }
}

/// Relies on `vte::Parser::new`: a parser in its ground state (the default
/// of vte's `State`), which the decoder's ground flag records.
#[verifier::external_body]
fn new_parser() -> (r: vte::Parser) {
    vte::Parser::new()
}

/// The byte-level side of the decoder: it splits the child's output into
/// characters, control bytes and escape sequences, and hands them to a
/// performer. Every byte sequence is accepted; what is not understood is
/// dropped. The ghost flag records that the parser is in its ground state,
/// where plain bytes act at once.
pub struct ByteDecoder {
    parser: vte::Parser,
    ground: Ghost<bool>,
}

impl ByteDecoder {
    /// Whether the parser is known to be in its ground state.
    pub closed spec fn in_ground(&self) -> bool {
        self.ground@
    }

    /// Relies on `vte::Parser::advance` and vte's state table: in the ground
    /// state a byte from 0x20 to 0x7f is printed as that character and a C0
    /// byte other than escape is executed, and the parser stays in the ground
    /// state. Whatever the byte, vte only calls back the performer, whose
    /// callbacks only add runs that hold text.
    #[verifier::external_body]
    fn advance(&mut self, performer: &mut TerminalPerformer, byte: u8)
        ensures
            runs_extended(old(performer).runs(), final(performer).runs()),
            old(self).in_ground() && printable_byte(byte) ==> {
                &&& final(self).in_ground()
                &&& final(performer).text() == printed(old(performer).text(), old(performer).pending_cr(), byte as char)
                &&& !final(performer).pending_cr()
                &&& final(performer).runs() == old(performer).runs()
                &&& final(performer).style() == old(performer).style()
            },
            old(self).in_ground() && control_byte(byte) ==> {
                &&& final(self).in_ground()
                &&& final(performer).text() == executed_text(old(performer).text(), byte)
                &&& final(performer).pending_cr() == executed_cr(old(performer).pending_cr(), byte)
                &&& final(performer).runs() == old(performer).runs()
                &&& final(performer).style() == old(performer).style()
            },
    {
        self.parser.advance(performer, byte);
    }

    /// A decoder in its ground state: vte starts a new parser there.
    pub fn new() -> (r: Self)
        ensures
            r.in_ground(),
    {
        ByteDecoder { parser: new_parser(), ground: Ghost(true) }
    }

    /// Takes every byte of `bytes` through the decoder, in order. The
    /// completed runs only grow, each new one holding text. From the ground
    /// state, bytes that are all printable or control bytes act as `print`
    /// and `execute` would, one after the other, and leave the parser in
    /// the ground state.
    pub fn feed(&mut self, performer: &mut TerminalPerformer, bytes: &[u8])
        ensures
            runs_extended(old(performer).runs(), final(performer).runs()),
            old(self).in_ground() && plain_bytes(bytes@) ==> {
                &&& final(self).in_ground()
                &&& (final(performer).text(), final(performer).pending_cr()) == plain_fold(
                    old(performer).text(),
                    old(performer).pending_cr(),
                    bytes@,
                )
                &&& final(performer).runs() == old(performer).runs()
                &&& final(performer).style() == old(performer).style()
            },
    {
        let ghost plain = old(self).in_ground() && plain_bytes(bytes@);
        let mut i: usize = 0;
        assert(performer.runs().subrange(0, performer.runs().len() as int) =~= performer.runs());
        assert(bytes@.subrange(0, 0) =~= Seq::<u8>::empty());
        while i < bytes.len()
            invariant
                i <= bytes@.len(),
                plain == (old(self).in_ground() && plain_bytes(bytes@)),
                runs_extended(old(performer).runs(), performer.runs()),
                plain ==> {
                    &&& self.in_ground()
                    &&& (performer.text(), performer.pending_cr()) == plain_fold(
                        old(performer).text(),
                        old(performer).pending_cr(),
                        bytes@.subrange(0, i as int),
                    )
                    &&& performer.runs() == old(performer).runs()
                    &&& performer.style() == old(performer).style()
                },
            decreases bytes@.len() - i,
        {
            let ghost before = performer.runs();
            self.advance(performer, bytes[i]);
            proof {
                lemma_runs_extended_trans(old(performer).runs(), before, performer.runs());
                assert(bytes@.subrange(0, i + 1).drop_last() =~= bytes@.subrange(0, i as int));
                if plain {
                    assert(printable_byte(bytes@[i as int]) || control_byte(bytes@[i as int]));
                }
            }
            i += 1;
        }
        assert(bytes@.subrange(0, i as int) =~= bytes@);
    }
}

} // verus!
