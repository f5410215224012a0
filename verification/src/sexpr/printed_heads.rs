//! The heads under which the score printer writes notations, set against
//! the heads of their S-expressions.

use vstd::prelude::*;
use crate::ir::notation::{OrnamentElement, TechnicalElement, ArticulationElement};
use crate::sexpr::ast::SexprV;
use crate::sexpr::traits::ToSexpr;
use crate::sexpr::notation_printer::{ornament_text, technical_text, articulation_text};
use crate::ir::measure::MusicDataElement;
use crate::sexpr::printer::{PrintOptions, element_text, indent_text, note_text, backup_text, forward_text};
use crate::sexpr::measure_printer::{attributes_text, direction_text, barline_text};
use crate::ir::voice::{Backup, Forward};
use crate::ir::direction::Direction;
use crate::ir::attributes::{Attributes, Barline, Clef, Transpose, Repeat, Ending};
use crate::ir::direction::{Words, Pedal, OctaveShift, Metronome, Dynamics, DynamicElement};
use crate::sexpr::measure_printer::{
    clef_text, transpose_text, repeat_sign_text, ending_text, words_text, pedal_text, octave_shift_text,
    metronome_text,
};
use crate::sexpr::notation_printer::{dynamics_text, dynamics_symbols};
use crate::sexpr::convert::direction::dynamic_element_name;
use crate::ir::note::Note;

verus! {

/// The head symbol of a list; nothing for anything else.
pub open spec fn head_of(s: SexprV) -> Seq<char> {
    match s {
        SexprV::List(items) => if items.len() > 0 && items[0] is Symbol {
            items[0]->Symbol_0
        } else {
            Seq::empty()
        },
        _ => Seq::empty(),
    }
}

/// An opening parenthesis and the head symbol of a list.
pub open spec fn opening_of(s: SexprV) -> Seq<char> {
    seq!['('] + head_of(s)
}

/// Each ornament is printed under the head that its S-expression has: an
/// opening parenthesis and the head, then a space or the closing
/// parenthesis.
pub proof fn law_ornament_heads(e: OrnamentElement)
    ensures
        ornament_text(e).len() > opening_of(e.to_sexpr_spec()).len(),
        ornament_text(e).subrange(0, opening_of(e.to_sexpr_spec()).len() as int) == opening_of(e.to_sexpr_spec()),
        ornament_text(e)[opening_of(e.to_sexpr_spec()).len() as int] == ')' || ornament_text(e)[opening_of(e.to_sexpr_spec()).len() as int] == ' ',
{
    reveal_strlit(" :");
    reveal_strlit(" :long #t");
    reveal_strlit(" :slash #t");
    reveal_strlit(")");
    let h = opening_of(e.to_sexpr_spec());
    match e {
        OrnamentElement::TrillMark(_) => {
            reveal_strlit("trill-mark");
            reveal_strlit("(trill-mark)");
            assert(ornament_text(e).subrange(0, h.len() as int) =~= h);
            assert(ornament_text(e)[h.len() as int] == ')' || ornament_text(e)[h.len() as int] == ' ');
        },
        OrnamentElement::Turn(_) => {
            reveal_strlit("turn");
            reveal_strlit("(turn");
            assert(ornament_text(e).subrange(0, h.len() as int) =~= h);
            assert(ornament_text(e)[h.len() as int] == ')' || ornament_text(e)[h.len() as int] == ' ');
        },
        OrnamentElement::DelayedTurn(_) => {
            reveal_strlit("delayed-turn");
            reveal_strlit("(delayed-turn)");
            assert(ornament_text(e).subrange(0, h.len() as int) =~= h);
            assert(ornament_text(e)[h.len() as int] == ')' || ornament_text(e)[h.len() as int] == ' ');
        },
        OrnamentElement::InvertedTurn(_) => {
            reveal_strlit("inverted-turn");
            reveal_strlit("(inverted-turn)");
            assert(ornament_text(e).subrange(0, h.len() as int) =~= h);
            assert(ornament_text(e)[h.len() as int] == ')' || ornament_text(e)[h.len() as int] == ' ');
        },
        OrnamentElement::DelayedInvertedTurn(_) => {
            reveal_strlit("delayed-inverted-turn");
            reveal_strlit("(delayed-inverted-turn)");
            assert(ornament_text(e).subrange(0, h.len() as int) =~= h);
            assert(ornament_text(e)[h.len() as int] == ')' || ornament_text(e)[h.len() as int] == ' ');
        },
        OrnamentElement::VerticalTurn(_) => {
            reveal_strlit("vertical-turn");
            reveal_strlit("(vertical-turn)");
            assert(ornament_text(e).subrange(0, h.len() as int) =~= h);
            assert(ornament_text(e)[h.len() as int] == ')' || ornament_text(e)[h.len() as int] == ' ');
        },
        OrnamentElement::InvertedVerticalTurn(_) => {
            reveal_strlit("inverted-vertical-turn");
            reveal_strlit("(inverted-vertical-turn)");
            assert(ornament_text(e).subrange(0, h.len() as int) =~= h);
            assert(ornament_text(e)[h.len() as int] == ')' || ornament_text(e)[h.len() as int] == ' ');
        },
        OrnamentElement::Shake(_) => {
            reveal_strlit("shake");
            reveal_strlit("(shake)");
            assert(ornament_text(e).subrange(0, h.len() as int) =~= h);
            assert(ornament_text(e)[h.len() as int] == ')' || ornament_text(e)[h.len() as int] == ' ');
        },
        OrnamentElement::WavyLine(_) => {
            reveal_strlit("wavy-line");
            reveal_strlit("(wavy-line");
            assert(ornament_text(e).subrange(0, h.len() as int) =~= h);
            assert(ornament_text(e)[h.len() as int] == ')' || ornament_text(e)[h.len() as int] == ' ');
        },
        OrnamentElement::Mordent(_) => {
            reveal_strlit("mordent");
            reveal_strlit("(mordent");
            assert(ornament_text(e).subrange(0, h.len() as int) =~= h);
            assert(ornament_text(e)[h.len() as int] == ')' || ornament_text(e)[h.len() as int] == ' ');
        },
        OrnamentElement::InvertedMordent(_) => {
            reveal_strlit("inverted-mordent");
            reveal_strlit("(inverted-mordent");
            assert(ornament_text(e).subrange(0, h.len() as int) =~= h);
            assert(ornament_text(e)[h.len() as int] == ')' || ornament_text(e)[h.len() as int] == ' ');
        },
        OrnamentElement::Schleifer(_) => {
            reveal_strlit("schleifer");
            reveal_strlit("(schleifer)");
            assert(ornament_text(e).subrange(0, h.len() as int) =~= h);
            assert(ornament_text(e)[h.len() as int] == ')' || ornament_text(e)[h.len() as int] == ' ');
        },
        OrnamentElement::Tremolo(_) => {
            reveal_strlit("tremolo");
            reveal_strlit("(tremolo");
            assert(ornament_text(e).subrange(0, h.len() as int) =~= h);
            assert(ornament_text(e)[h.len() as int] == ')' || ornament_text(e)[h.len() as int] == ' ');
        },
        OrnamentElement::Haydn(_) => {
            reveal_strlit("haydn");
            reveal_strlit("(haydn)");
            assert(ornament_text(e).subrange(0, h.len() as int) =~= h);
            assert(ornament_text(e)[h.len() as int] == ')' || ornament_text(e)[h.len() as int] == ' ');
        },
        OrnamentElement::OtherOrnament(_) => {
            reveal_strlit("other-ornament");
            reveal_strlit("(other-ornament");
            assert(ornament_text(e).subrange(0, h.len() as int) =~= h);
            assert(ornament_text(e)[h.len() as int] == ')' || ornament_text(e)[h.len() as int] == ' ');
        },
    }
}


/// Each articulation is printed under the head that its S-expression has:
/// an opening parenthesis and the head, then a space or the closing
/// parenthesis.
pub proof fn law_articulation_heads(e: ArticulationElement)
    ensures
        articulation_text(e).len() > opening_of(e.to_sexpr_spec()).len(),
        articulation_text(e).subrange(0, opening_of(e.to_sexpr_spec()).len() as int) == opening_of(e.to_sexpr_spec()),
        articulation_text(e)[opening_of(e.to_sexpr_spec()).len() as int] == ')' || articulation_text(e)[opening_of(e.to_sexpr_spec()).len() as int] == ' ',
{
    reveal_strlit(" :");
    reveal_strlit(")");
    let h = opening_of(e.to_sexpr_spec());
    match e {
        ArticulationElement::Accent(_) => {
            reveal_strlit("accent");
            reveal_strlit("(accent)");
            assert(articulation_text(e).subrange(0, h.len() as int) =~= h);
            assert(articulation_text(e)[h.len() as int] == ')' || articulation_text(e)[h.len() as int] == ' ');
        },
        ArticulationElement::StrongAccent(_) => {
            reveal_strlit("strong-accent");
            reveal_strlit("(strong-accent)");
            assert(articulation_text(e).subrange(0, h.len() as int) =~= h);
            assert(articulation_text(e)[h.len() as int] == ')' || articulation_text(e)[h.len() as int] == ' ');
        },
        ArticulationElement::Staccato(_) => {
            reveal_strlit("staccato");
            reveal_strlit("(staccato)");
            assert(articulation_text(e).subrange(0, h.len() as int) =~= h);
            assert(articulation_text(e)[h.len() as int] == ')' || articulation_text(e)[h.len() as int] == ' ');
        },
        ArticulationElement::Tenuto(_) => {
            reveal_strlit("tenuto");
            reveal_strlit("(tenuto)");
            assert(articulation_text(e).subrange(0, h.len() as int) =~= h);
            assert(articulation_text(e)[h.len() as int] == ')' || articulation_text(e)[h.len() as int] == ' ');
        },
        ArticulationElement::DetachedLegato(_) => {
            reveal_strlit("detached-legato");
            reveal_strlit("(detached-legato)");
            assert(articulation_text(e).subrange(0, h.len() as int) =~= h);
            assert(articulation_text(e)[h.len() as int] == ')' || articulation_text(e)[h.len() as int] == ' ');
        },
        ArticulationElement::Staccatissimo(_) => {
            reveal_strlit("staccatissimo");
            reveal_strlit("(staccatissimo)");
            assert(articulation_text(e).subrange(0, h.len() as int) =~= h);
            assert(articulation_text(e)[h.len() as int] == ')' || articulation_text(e)[h.len() as int] == ' ');
        },
        ArticulationElement::Spiccato(_) => {
            reveal_strlit("spiccato");
            reveal_strlit("(spiccato)");
            assert(articulation_text(e).subrange(0, h.len() as int) =~= h);
            assert(articulation_text(e)[h.len() as int] == ')' || articulation_text(e)[h.len() as int] == ' ');
        },
        ArticulationElement::Scoop(_) => {
            reveal_strlit("scoop");
            reveal_strlit("(scoop)");
            assert(articulation_text(e).subrange(0, h.len() as int) =~= h);
            assert(articulation_text(e)[h.len() as int] == ')' || articulation_text(e)[h.len() as int] == ' ');
        },
        ArticulationElement::Plop(_) => {
            reveal_strlit("plop");
            reveal_strlit("(plop)");
            assert(articulation_text(e).subrange(0, h.len() as int) =~= h);
            assert(articulation_text(e)[h.len() as int] == ')' || articulation_text(e)[h.len() as int] == ' ');
        },
        ArticulationElement::Doit(_) => {
            reveal_strlit("doit");
            reveal_strlit("(doit)");
            assert(articulation_text(e).subrange(0, h.len() as int) =~= h);
            assert(articulation_text(e)[h.len() as int] == ')' || articulation_text(e)[h.len() as int] == ' ');
        },
        ArticulationElement::Falloff(_) => {
            reveal_strlit("falloff");
            reveal_strlit("(falloff)");
            assert(articulation_text(e).subrange(0, h.len() as int) =~= h);
            assert(articulation_text(e)[h.len() as int] == ')' || articulation_text(e)[h.len() as int] == ' ');
        },
        ArticulationElement::BreathMark(_) => {
            reveal_strlit("breath-mark");
            reveal_strlit("(breath-mark");
            assert(articulation_text(e).subrange(0, h.len() as int) =~= h);
            assert(articulation_text(e)[h.len() as int] == ')' || articulation_text(e)[h.len() as int] == ' ');
        },
        ArticulationElement::Caesura(_) => {
            reveal_strlit("caesura");
            reveal_strlit("(caesura)");
            assert(articulation_text(e).subrange(0, h.len() as int) =~= h);
            assert(articulation_text(e)[h.len() as int] == ')' || articulation_text(e)[h.len() as int] == ' ');
        },
        ArticulationElement::Stress(_) => {
            reveal_strlit("stress");
            reveal_strlit("(stress)");
            assert(articulation_text(e).subrange(0, h.len() as int) =~= h);
            assert(articulation_text(e)[h.len() as int] == ')' || articulation_text(e)[h.len() as int] == ' ');
        },
        ArticulationElement::Unstress(_) => {
            reveal_strlit("unstress");
            reveal_strlit("(unstress)");
            assert(articulation_text(e).subrange(0, h.len() as int) =~= h);
            assert(articulation_text(e)[h.len() as int] == ')' || articulation_text(e)[h.len() as int] == ' ');
        },
        ArticulationElement::SoftAccent(_) => {
            reveal_strlit("soft-accent");
            reveal_strlit("(soft-accent)");
            assert(articulation_text(e).subrange(0, h.len() as int) =~= h);
            assert(articulation_text(e)[h.len() as int] == ')' || articulation_text(e)[h.len() as int] == ' ');
        },
        ArticulationElement::OtherArticulation(_) => {
            reveal_strlit("other-articulation");
            reveal_strlit("(other-articulation");
            assert(articulation_text(e).subrange(0, h.len() as int) =~= h);
            assert(articulation_text(e)[h.len() as int] == ')' || articulation_text(e)[h.len() as int] == ' ');
        },
    }
}


/// Each technical mark is printed under the head that its S-expression
/// has: an opening parenthesis and the head, then a space or the closing
/// parenthesis. A string number is the one exception: it is printed as
/// `(string N)`, its S-expression being headed `string-number`.
pub proof fn law_technical_heads(e: TechnicalElement)
    requires
        !(e is String),
    ensures
        technical_text(e).len() > opening_of(e.to_sexpr_spec()).len(),
        technical_text(e).subrange(0, opening_of(e.to_sexpr_spec()).len() as int) == opening_of(e.to_sexpr_spec()),
        technical_text(e)[opening_of(e.to_sexpr_spec()).len() as int] == ')' || technical_text(e)[opening_of(e.to_sexpr_spec()).len() as int] == ' ',
{
    reveal_strlit(" :");
    reveal_strlit(" :artificial #t");
    reveal_strlit(" :natural #t");
    reveal_strlit(")");
    let h = opening_of(e.to_sexpr_spec());
    match e {
        TechnicalElement::UpBow(_) => {
            reveal_strlit("up-bow");
            reveal_strlit("(up-bow)");
            assert(technical_text(e).subrange(0, h.len() as int) =~= h);
            assert(technical_text(e)[h.len() as int] == ')' || technical_text(e)[h.len() as int] == ' ');
        },
        TechnicalElement::DownBow(_) => {
            reveal_strlit("down-bow");
            reveal_strlit("(down-bow)");
            assert(technical_text(e).subrange(0, h.len() as int) =~= h);
            assert(technical_text(e)[h.len() as int] == ')' || technical_text(e)[h.len() as int] == ' ');
        },
        TechnicalElement::Harmonic(_) => {
            reveal_strlit("harmonic");
            reveal_strlit("(harmonic");
            assert(technical_text(e).subrange(0, h.len() as int) =~= h);
            assert(technical_text(e)[h.len() as int] == ')' || technical_text(e)[h.len() as int] == ' ');
        },
        TechnicalElement::OpenString(_) => {
            reveal_strlit("open-string");
            reveal_strlit("(open-string)");
            assert(technical_text(e).subrange(0, h.len() as int) =~= h);
            assert(technical_text(e)[h.len() as int] == ')' || technical_text(e)[h.len() as int] == ' ');
        },
        TechnicalElement::ThumbPosition(_) => {
            reveal_strlit("thumb-position");
            reveal_strlit("(thumb-position)");
            assert(technical_text(e).subrange(0, h.len() as int) =~= h);
            assert(technical_text(e)[h.len() as int] == ')' || technical_text(e)[h.len() as int] == ' ');
        },
        TechnicalElement::Fingering(_) => {
            reveal_strlit("fingering");
            reveal_strlit("(fingering");
            assert(technical_text(e).subrange(0, h.len() as int) =~= h);
            assert(technical_text(e)[h.len() as int] == ')' || technical_text(e)[h.len() as int] == ' ');
        },
        TechnicalElement::Pluck(_) => {
            reveal_strlit("pluck");
            reveal_strlit("(pluck");
            assert(technical_text(e).subrange(0, h.len() as int) =~= h);
            assert(technical_text(e)[h.len() as int] == ')' || technical_text(e)[h.len() as int] == ' ');
        },
        TechnicalElement::DoubleTongue(_) => {
            reveal_strlit("double-tongue");
            reveal_strlit("(double-tongue)");
            assert(technical_text(e).subrange(0, h.len() as int) =~= h);
            assert(technical_text(e)[h.len() as int] == ')' || technical_text(e)[h.len() as int] == ' ');
        },
        TechnicalElement::TripleTongue(_) => {
            reveal_strlit("triple-tongue");
            reveal_strlit("(triple-tongue)");
            assert(technical_text(e).subrange(0, h.len() as int) =~= h);
            assert(technical_text(e)[h.len() as int] == ')' || technical_text(e)[h.len() as int] == ' ');
        },
        TechnicalElement::Stopped(_) => {
            reveal_strlit("stopped");
            reveal_strlit("(stopped)");
            assert(technical_text(e).subrange(0, h.len() as int) =~= h);
            assert(technical_text(e)[h.len() as int] == ')' || technical_text(e)[h.len() as int] == ' ');
        },
        TechnicalElement::SnapPizzicato(_) => {
            reveal_strlit("snap-pizzicato");
            reveal_strlit("(snap-pizzicato)");
            assert(technical_text(e).subrange(0, h.len() as int) =~= h);
            assert(technical_text(e)[h.len() as int] == ')' || technical_text(e)[h.len() as int] == ' ');
        },
        TechnicalElement::Fret(_) => {
            reveal_strlit("fret");
            reveal_strlit("(fret ");
            assert(technical_text(e).subrange(0, h.len() as int) =~= h);
            assert(technical_text(e)[h.len() as int] == ')' || technical_text(e)[h.len() as int] == ' ');
        },
        TechnicalElement::String(_) => {},
        TechnicalElement::HammerOn(_) => {
            reveal_strlit("hammer-on");
            reveal_strlit("(hammer-on");
            assert(technical_text(e).subrange(0, h.len() as int) =~= h);
            assert(technical_text(e)[h.len() as int] == ')' || technical_text(e)[h.len() as int] == ' ');
        },
        TechnicalElement::PullOff(_) => {
            reveal_strlit("pull-off");
            reveal_strlit("(pull-off");
            assert(technical_text(e).subrange(0, h.len() as int) =~= h);
            assert(technical_text(e)[h.len() as int] == ')' || technical_text(e)[h.len() as int] == ' ');
        },
        TechnicalElement::Bend(_) => {
            reveal_strlit("bend");
            reveal_strlit("(bend");
            assert(technical_text(e).subrange(0, h.len() as int) =~= h);
            assert(technical_text(e)[h.len() as int] == ')' || technical_text(e)[h.len() as int] == ' ');
        },
        TechnicalElement::Tap(_) => {
            reveal_strlit("tap");
            reveal_strlit("(tap");
            assert(technical_text(e).subrange(0, h.len() as int) =~= h);
            assert(technical_text(e)[h.len() as int] == ')' || technical_text(e)[h.len() as int] == ' ');
        },
        TechnicalElement::Heel(_) => {
            reveal_strlit("heel");
            reveal_strlit("(heel)");
            assert(technical_text(e).subrange(0, h.len() as int) =~= h);
            assert(technical_text(e)[h.len() as int] == ')' || technical_text(e)[h.len() as int] == ' ');
        },
        TechnicalElement::Toe(_) => {
            reveal_strlit("toe");
            reveal_strlit("(toe)");
            assert(technical_text(e).subrange(0, h.len() as int) =~= h);
            assert(technical_text(e)[h.len() as int] == ')' || technical_text(e)[h.len() as int] == ' ');
        },
        TechnicalElement::Fingernails(_) => {
            reveal_strlit("fingernails");
            reveal_strlit("(fingernails)");
            assert(technical_text(e).subrange(0, h.len() as int) =~= h);
            assert(technical_text(e)[h.len() as int] == ')' || technical_text(e)[h.len() as int] == ' ');
        },
        TechnicalElement::Hole(_) => {
            reveal_strlit("hole");
            reveal_strlit("(hole)");
            assert(technical_text(e).subrange(0, h.len() as int) =~= h);
            assert(technical_text(e)[h.len() as int] == ')' || technical_text(e)[h.len() as int] == ' ');
        },
        TechnicalElement::Arrow(_) => {
            reveal_strlit("arrow");
            reveal_strlit("(arrow)");
            assert(technical_text(e).subrange(0, h.len() as int) =~= h);
            assert(technical_text(e)[h.len() as int] == ')' || technical_text(e)[h.len() as int] == ' ');
        },
        TechnicalElement::Handbell(_) => {
            reveal_strlit("handbell");
            reveal_strlit("(handbell)");
            assert(technical_text(e).subrange(0, h.len() as int) =~= h);
            assert(technical_text(e)[h.len() as int] == ')' || technical_text(e)[h.len() as int] == ' ');
        },
        TechnicalElement::BrassBend(_) => {
            reveal_strlit("brass-bend");
            reveal_strlit("(brass-bend)");
            assert(technical_text(e).subrange(0, h.len() as int) =~= h);
            assert(technical_text(e)[h.len() as int] == ')' || technical_text(e)[h.len() as int] == ' ');
        },
        TechnicalElement::Flip(_) => {
            reveal_strlit("flip");
            reveal_strlit("(flip)");
            assert(technical_text(e).subrange(0, h.len() as int) =~= h);
            assert(technical_text(e)[h.len() as int] == ')' || technical_text(e)[h.len() as int] == ' ');
        },
        TechnicalElement::Smear(_) => {
            reveal_strlit("smear");
            reveal_strlit("(smear)");
            assert(technical_text(e).subrange(0, h.len() as int) =~= h);
            assert(technical_text(e)[h.len() as int] == ')' || technical_text(e)[h.len() as int] == ' ');
        },
        TechnicalElement::Open(_) => {
            reveal_strlit("open");
            reveal_strlit("(open)");
            assert(technical_text(e).subrange(0, h.len() as int) =~= h);
            assert(technical_text(e)[h.len() as int] == ')' || technical_text(e)[h.len() as int] == ' ');
        },
        TechnicalElement::HalfMuted(_) => {
            reveal_strlit("half-muted");
            reveal_strlit("(half-muted)");
            assert(technical_text(e).subrange(0, h.len() as int) =~= h);
            assert(technical_text(e)[h.len() as int] == ')' || technical_text(e)[h.len() as int] == ' ');
        },
        TechnicalElement::HarmonMute(_) => {
            reveal_strlit("harmon-mute");
            reveal_strlit("(harmon-mute)");
            assert(technical_text(e).subrange(0, h.len() as int) =~= h);
            assert(technical_text(e)[h.len() as int] == ')' || technical_text(e)[h.len() as int] == ' ');
        },
        TechnicalElement::Golpe(_) => {
            reveal_strlit("golpe");
            reveal_strlit("(golpe)");
            assert(technical_text(e).subrange(0, h.len() as int) =~= h);
            assert(technical_text(e)[h.len() as int] == ')' || technical_text(e)[h.len() as int] == ' ');
        },
        TechnicalElement::OtherTechnical(_) => {
            reveal_strlit("other-technical");
            reveal_strlit("(other-technical");
            assert(technical_text(e).subrange(0, h.len() as int) =~= h);
            assert(technical_text(e)[h.len() as int] == ')' || technical_text(e)[h.len() as int] == ' ');
        },
    }
}



/// Each element of a measure is printed, after its indentation, under the
/// head that its S-expression has: a note as `(note`, a backup as
/// `(backup`, attributes as `(attributes`, and so on.
#[verifier::spinoff_prover]
#[verifier::rlimit(80)]
pub proof fn law_element_heads(e: MusicDataElement, level: nat, o: PrintOptions)
    ensures
        element_text(e, level, o).len() >= indent_text(level, o).len() + opening_of(e.to_sexpr_spec()).len(),
        element_text(e, level, o).subrange(
            0,
            (indent_text(level, o).len() + opening_of(e.to_sexpr_spec()).len()) as int,
        ) == indent_text(level, o) + opening_of(e.to_sexpr_spec()),
{
    match e {
        MusicDataElement::Note(n) => {
            reveal_strlit("note");
            lemma_note_head(*n, level, o);
            reveal_strlit("(note");
            assert(opening_of(e.to_sexpr_spec()) =~= "(note"@);
        },
        MusicDataElement::Backup(x) => {
            reveal_strlit("backup");
            lemma_backup_head(x, level, o);
            reveal_strlit("(backup");
            assert(opening_of(e.to_sexpr_spec()) =~= "(backup"@);
        },
        MusicDataElement::Forward(x) => {
            reveal_strlit("forward");
            lemma_forward_head(x, level, o);
            reveal_strlit("(forward");
            assert(opening_of(e.to_sexpr_spec()) =~= "(forward"@);
        },
        MusicDataElement::Direction(x) => {
            reveal_strlit("direction");
            lemma_direction_head(*x, level, o);
            reveal_strlit("(direction");
            assert(opening_of(e.to_sexpr_spec()) =~= "(direction"@);
        },
        MusicDataElement::Attributes(x) => {
            reveal_strlit("attributes");
            lemma_attributes_head(*x, level, o);
            reveal_strlit("(attributes");
            assert(opening_of(e.to_sexpr_spec()) =~= "(attributes"@);
        },
        MusicDataElement::Barline(x) => {
            reveal_strlit("barline");
            lemma_barline_head(*x, level, o);
            reveal_strlit("(barline");
            assert(opening_of(e.to_sexpr_spec()) =~= "(barline"@);
        },
    }
}

/// The lines of a note start with its indentation and `(note`.
#[verifier::spinoff_prover]
#[verifier::rlimit(50)]
proof fn lemma_note_head(x: Note, level: nat, o: PrintOptions)
    ensures
        note_text(x, level, o).len() >= indent_text(level, o).len() + "(note"@.len(),
        note_text(x, level, o).subrange(0, (indent_text(level, o).len() + "(note"@.len()) as int)
            == indent_text(level, o) + "(note"@,
{
    let p = indent_text(level, o) + "(note"@;
    assert(note_text(x, level, o).subrange(0, p.len() as int) =~= p);
}

/// The lines of a backup start with its indentation and `(backup`.
proof fn lemma_backup_head(x: Backup, level: nat, o: PrintOptions)
    ensures
        backup_text(x, level, o).len() >= indent_text(level, o).len() + "(backup"@.len(),
        backup_text(x, level, o).subrange(0, (indent_text(level, o).len() + "(backup"@.len()) as int)
            == indent_text(level, o) + "(backup"@,
{
    let p = indent_text(level, o) + "(backup"@;
    assert(backup_text(x, level, o).subrange(0, p.len() as int) =~= p);
}

/// The lines of a forward start with its indentation and `(forward`.
proof fn lemma_forward_head(x: Forward, level: nat, o: PrintOptions)
    ensures
        forward_text(x, level, o).len() >= indent_text(level, o).len() + "(forward"@.len(),
        forward_text(x, level, o).subrange(0, (indent_text(level, o).len() + "(forward"@.len()) as int)
            == indent_text(level, o) + "(forward"@,
{
    let p = indent_text(level, o) + "(forward"@;
    assert(forward_text(x, level, o).subrange(0, p.len() as int) =~= p);
}

/// The lines of a direction start with its indentation and `(direction`.
proof fn lemma_direction_head(x: Direction, level: nat, o: PrintOptions)
    ensures
        direction_text(x, level, o).len() >= indent_text(level, o).len() + "(direction"@.len(),
        direction_text(x, level, o).subrange(0, (indent_text(level, o).len() + "(direction"@.len()) as int)
            == indent_text(level, o) + "(direction"@,
{
    let p = indent_text(level, o) + "(direction"@;
    assert(direction_text(x, level, o).subrange(0, p.len() as int) =~= p);
}

/// The lines of a attributes start with its indentation and `(attributes`.
proof fn lemma_attributes_head(x: Attributes, level: nat, o: PrintOptions)
    ensures
        attributes_text(x, level, o).len() >= indent_text(level, o).len() + "(attributes"@.len(),
        attributes_text(x, level, o).subrange(0, (indent_text(level, o).len() + "(attributes"@.len()) as int)
            == indent_text(level, o) + "(attributes"@,
{
    let p = indent_text(level, o) + "(attributes"@;
    assert(attributes_text(x, level, o).subrange(0, p.len() as int) =~= p);
}

/// The lines of a barline start with its indentation and `(barline`.
proof fn lemma_barline_head(x: Barline, level: nat, o: PrintOptions)
    ensures
        barline_text(x, level, o).len() >= indent_text(level, o).len() + "(barline"@.len(),
        barline_text(x, level, o).subrange(0, (indent_text(level, o).len() + "(barline"@.len()) as int)
            == indent_text(level, o) + "(barline"@,
{
    let p = indent_text(level, o) + "(barline"@;
    assert(barline_text(x, level, o).subrange(0, p.len() as int) =~= p);
}


/// Whether a text starts with an opening parenthesis and the head of the
/// S-expression `s`, followed by a space or the closing parenthesis.
pub open spec fn starts_with_head(t: Seq<char>, s: SexprV) -> bool {
    let o = opening_of(s);
    &&& t.len() > o.len()
    &&& t.subrange(0, o.len() as int) == o
    &&& (t[o.len() as int] == ' ' || t[o.len() as int] == ')')
}

/// A non-empty run of dynamic markings starts with a space.
proof fn lemma_dynamics_symbols_start(d: Seq<DynamicElement>)
    requires
        d.len() > 0,
    ensures
        dynamics_symbols(d).len() > 0,
        dynamics_symbols(d)[0] == ' ',
    decreases d.len(),
{
    let a = dynamics_symbols(d.drop_last());
    assert(dynamics_symbols(d) == a + seq![' '] + dynamic_element_name(d.last()));
    if d.len() > 1 {
        lemma_dynamics_symbols_start(d.drop_last());
        assert((a + seq![' '] + dynamic_element_name(d.last()))[0] == a[0]);
    } else {
        assert(a =~= Seq::<char>::empty());
        assert((a + seq![' '] + dynamic_element_name(d.last()))[0] == ' ');
    }
}

/// The clefs and transpositions of attributes, the repeat signs and voltas
/// of barlines, and the words, pedal marks, octave shifts, metronome marks
/// and dynamics of directions are each printed under the head that its
/// S-expression has, followed by a space or the closing parenthesis.
pub proof fn law_measure_part_heads(c: Clef, t: Transpose, r: Repeat, e: Ending, w: Words, p: Pedal, x: OctaveShift, m: Metronome, d: Dynamics)
    ensures
        starts_with_head(clef_text(c), c.to_sexpr_spec()),
        starts_with_head(transpose_text(t), t.to_sexpr_spec()),
        starts_with_head(repeat_sign_text(r), r.to_sexpr_spec()),
        starts_with_head(ending_text(e), e.to_sexpr_spec()),
        starts_with_head(words_text(w), w.to_sexpr_spec()),
        starts_with_head(pedal_text(p), p.to_sexpr_spec()),
        starts_with_head(octave_shift_text(x), x.to_sexpr_spec()),
        starts_with_head(metronome_text(m), m.to_sexpr_spec()),
        starts_with_head(dynamics_text(d), d.to_sexpr_spec()),
{
    lemma_clef_text_head(c);
    lemma_transpose_text_head(t);
    lemma_repeat_sign_text_head(r);
    lemma_ending_text_head(e);
    lemma_words_text_head(w);
    lemma_pedal_text_head(p);
    lemma_octave_shift_text_head(x);
    lemma_metronome_text_head(m);
    lemma_dynamics_text_head(d);
}

/// `clef_text` starts under the head of the S-expression.
proof fn lemma_clef_text_head(c: Clef)
    ensures
        starts_with_head(clef_text(c), c.to_sexpr_spec()),
{
    reveal_strlit(" :");
    reveal_strlit(")");
    reveal_strlit("clef");
    reveal_strlit("(clef");
    let o = opening_of(c.to_sexpr_spec());
    assert(o =~= "(clef"@);
    assert(clef_text(c).subrange(0, o.len() as int) =~= o);
}

/// `transpose_text` starts under the head of the S-expression.
proof fn lemma_transpose_text_head(t: Transpose)
    ensures
        starts_with_head(transpose_text(t), t.to_sexpr_spec()),
{
    reveal_strlit(" :");
    reveal_strlit(")");
    reveal_strlit("transpose");
    reveal_strlit("(transpose");
    let o = opening_of(t.to_sexpr_spec());
    assert(o =~= "(transpose"@);
    assert(transpose_text(t).subrange(0, o.len() as int) =~= o);
}

/// `repeat_sign_text` starts under the head of the S-expression.
proof fn lemma_repeat_sign_text_head(r: Repeat)
    ensures
        starts_with_head(repeat_sign_text(r), r.to_sexpr_spec()),
{
    reveal_strlit(" :");
    reveal_strlit(")");
    reveal_strlit("repeat");
    reveal_strlit("(repeat");
    let o = opening_of(r.to_sexpr_spec());
    assert(o =~= "(repeat"@);
    assert(repeat_sign_text(r).subrange(0, o.len() as int) =~= o);
}

/// `ending_text` starts under the head of the S-expression.
proof fn lemma_ending_text_head(e: Ending)
    ensures
        starts_with_head(ending_text(e), e.to_sexpr_spec()),
{
    reveal_strlit(" :");
    reveal_strlit(")");
    reveal_strlit("ending");
    reveal_strlit("(ending");
    let o = opening_of(e.to_sexpr_spec());
    assert(o =~= "(ending"@);
    assert(ending_text(e).subrange(0, o.len() as int) =~= o);
}

/// `words_text` starts under the head of the S-expression.
proof fn lemma_words_text_head(w: Words)
    ensures
        starts_with_head(words_text(w), w.to_sexpr_spec()),
{
    reveal_strlit(" :");
    reveal_strlit(")");
    reveal_strlit("words");
    reveal_strlit("(words");
    let o = opening_of(w.to_sexpr_spec());
    assert(o =~= "(words"@);
    assert(words_text(w).subrange(0, o.len() as int) =~= o);
}

/// `pedal_text` starts under the head of the S-expression.
proof fn lemma_pedal_text_head(p: Pedal)
    ensures
        starts_with_head(pedal_text(p), p.to_sexpr_spec()),
{
    reveal_strlit(" :");
    reveal_strlit(")");
    reveal_strlit("pedal");
    reveal_strlit("(pedal");
    let o = opening_of(p.to_sexpr_spec());
    assert(o =~= "(pedal"@);
    assert(pedal_text(p).subrange(0, o.len() as int) =~= o);
}

/// `octave_shift_text` starts under the head of the S-expression.
proof fn lemma_octave_shift_text_head(x: OctaveShift)
    ensures
        starts_with_head(octave_shift_text(x), x.to_sexpr_spec()),
{
    reveal_strlit(" :");
    reveal_strlit(")");
    reveal_strlit("octave-shift");
    reveal_strlit("(octave-shift");
    let o = opening_of(x.to_sexpr_spec());
    assert(o =~= "(octave-shift"@);
    assert(octave_shift_text(x).subrange(0, o.len() as int) =~= o);
}

/// `metronome_text` starts under the head of the S-expression.
proof fn lemma_metronome_text_head(m: Metronome)
    ensures
        starts_with_head(metronome_text(m), m.to_sexpr_spec()),
{
    reveal_strlit(" :");
    reveal_strlit(")");
    reveal_strlit(" :parentheses #t");
    reveal_strlit(" :metric-modulation #t");
    reveal_strlit("metronome");
    reveal_strlit("(metronome");
    let o = opening_of(m.to_sexpr_spec());
    assert(o =~= "(metronome"@);
    assert(metronome_text(m).subrange(0, o.len() as int) =~= o);
}

/// `dynamics_text` starts under the head of the S-expression.
proof fn lemma_dynamics_text_head(d: Dynamics)
    ensures
        starts_with_head(dynamics_text(d), d.to_sexpr_spec()),
{
    reveal_strlit(" :");
    reveal_strlit(")");
    if d.content@.len() > 0 {
        lemma_dynamics_symbols_start(d.content@);
    }
    reveal_strlit("dynamics");
    reveal_strlit("(dynamics");
    let o = opening_of(d.to_sexpr_spec());
    assert(o =~= "(dynamics"@);
    assert(dynamics_text(d).subrange(0, o.len() as int) =~= o);
}

} // verus!
