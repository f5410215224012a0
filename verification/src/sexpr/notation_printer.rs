//! Printing the notations of a note: ties, slurs, tuplets, glissandos,
//! ornaments, technical marks, articulations, dynamics, fermatas and
//! arpeggios, in the printer's layout.

use vstd::prelude::*;
use crate::text::{nat_digits, push_char};
use crate::ir::common::{YesNo, StartStop};
use crate::ir::notation::{
    Notations, NotationContent, Tied, Slur, Tuplet, TupletPortion, ShowTuplet, Fermata,
    Arpeggiate, NonArpeggiate, OtherNotation, Ornaments, OrnamentWithAccidentals,
    OrnamentElement, Technical, TechnicalElement, HammerPull, Articulations, ArticulationElement,
    BreathMarkValue,
};
use crate::ir::direction::Dynamics;
use crate::sexpr::convert::common::{
    start_stop_name, start_stop_continue_name, start_stop_single_name, above_below_name,
    accidental_value_name, note_type_value_name, up_down_name,
};
use crate::sexpr::convert::notation::{
    show_tuplet_name, top_bottom_name, fermata_shape_name, upright_inverted_name,
    breath_mark_value_name,
};
use crate::sexpr::convert::direction::dynamic_element_name;
use crate::sexpr::printer::{
    PrintOptions, indent_text, line_break_text, quoted, kv, yes_no_hash, each, repeat_text,
    placement_piece, flag_piece, lemma_each_step, push_str, push_indent, push_line_break,
    push_escaped, push_kv_nat, push_kv_sym, push_kv_dec, yes_no_hash_of,
};

verus! {

// === Texts ===

/// ` :key N` for a small number where there is one.
pub open spec fn kv_u8_opt(key: Seq<char>, n: Option<u8>) -> Seq<char> {
    match n {
        Some(v) => kv(key, nat_digits(v as nat)),
        None => Seq::empty(),
    }
}

/// A space and a printed string.
pub open spec fn spaced_quoted(s: Seq<char>) -> Seq<char> {
    seq![' '] + quoted(s)
}

/// A group of notations on a line of its own.
pub open spec fn notations_item(level: nat, o: PrintOptions) -> spec_fn(Notations) -> Seq<char> {
    |n: Notations| line_break_text(o) + notations_text(n, level, o)
}

/// The lines of a group of notations.
pub open spec fn notations_text(n: Notations, level: nat, o: PrintOptions) -> Seq<char> {
    indent_text(level, o) + "(notations"@ + each(n.content@, notation_item(level + 1, o)) + ")"@
}

/// A notation on lines of its own.
pub open spec fn notation_item(level: nat, o: PrintOptions) -> spec_fn(NotationContent) -> Seq<char> {
    |c: NotationContent| line_break_text(o) + notation_text(c, level, o)
}

/// The lines of a notation.
pub open spec fn notation_text(c: NotationContent, level: nat, o: PrintOptions) -> Seq<char> {
    match c {
        NotationContent::Tied(t) => indent_text(level, o) + tied_text(t),
        NotationContent::Slur(s) => indent_text(level, o) + slur_text(s),
        NotationContent::Tuplet(t) => tuplet_text(*t, level, o),
        NotationContent::Glissando(g) => indent_text(level, o) + line_mark_text(
            "glissando"@,
            g.type_,
            g.number,
            g.text,
        ),
        NotationContent::Slide(s) => indent_text(level, o) + line_mark_text("slide"@, s.type_, s.number, s.text),
        NotationContent::Ornaments(x) => group_text(
            "(ornaments"@,
            each(x.content@, ornament_item(level + 1, o)),
            level,
            o,
        ),
        NotationContent::Technical(x) => group_text(
            "(technical"@,
            each(x.content@, technical_item(level + 1, o)),
            level,
            o,
        ),
        NotationContent::Articulations(x) => group_text(
            "(articulations"@,
            each(x.content@, articulation_item(level + 1, o)),
            level,
            o,
        ),
        NotationContent::Dynamics(d) => indent_text(level, o) + dynamics_text(*d),
        NotationContent::Fermata(f) => indent_text(level, o) + fermata_text(f),
        NotationContent::Arpeggiate(a) => indent_text(level, o) + arpeggiate_text(a),
        NotationContent::NonArpeggiate(a) => indent_text(level, o) + non_arpeggiate_text(a),
        NotationContent::AccidentalMark(m) => indent_text(level, o) + "(accidental-mark "@
            + accidental_value_name(m.value) + ")"@,
        NotationContent::OtherNotation(x) => indent_text(level, o) + other_notation_text(x),
    }
}

/// The opening `opening` and then the lines `body`, closed.
pub open spec fn group_text(opening: Seq<char>, body: Seq<char>, level: nat, o: PrintOptions) -> Seq<char> {
    indent_text(level, o) + opening + body + ")"@
}

/// The text of a tie mark.
pub open spec fn tied_text(t: Tied) -> Seq<char> {
    "(tied"@ + kv("type"@, start_stop_continue_name(t.type_)) + kv_u8_opt("number"@, t.number) + ")"@
}

/// The text of a slur.
pub open spec fn slur_text(s: Slur) -> Seq<char> {
    "(slur"@ + kv("type"@, start_stop_continue_name(s.type_)) + kv("number"@, nat_digits(s.number as nat))
        + placement_piece(s.placement) + ")"@
}

/// The text of a glissando or a slide.
pub open spec fn line_mark_text(tag: Seq<char>, t: StartStop, number: Option<u8>, text: Option<String>) -> Seq<char> {
    "("@ + tag + kv("type"@, start_stop_name(t)) + kv_u8_opt("number"@, number) + match text {
        Some(x) => spaced_quoted(x@),
        None => Seq::empty(),
    } + ")"@
}

/// ` :key S` for what a tuplet shows, where it is given.
pub open spec fn show_piece(key: Seq<char>, v: Option<ShowTuplet>) -> Seq<char> {
    match v {
        Some(x) => kv(key, show_tuplet_name(x)),
        None => Seq::empty(),
    }
}

/// The lines of a tuplet.
pub open spec fn tuplet_text(t: Tuplet, level: nat, o: PrintOptions) -> Seq<char> {
    indent_text(level, o) + "(tuplet"@ + tuplet_attributes(t) + portion_piece(
        "tuplet-actual"@,
        t.tuplet_actual,
        level + 1,
        o,
    ) + portion_piece("tuplet-normal"@, t.tuplet_normal, level + 1, o) + ")"@
}

/// The keyword arguments of a tuplet.
pub open spec fn tuplet_attributes(t: Tuplet) -> Seq<char> {
    kv("type"@, start_stop_name(t.type_)) + kv_u8_opt("number"@, t.number) + match t.bracket {
        Some(b) => kv("bracket"@, yes_no_hash(b)),
        None => Seq::empty(),
    } + show_piece("show-number"@, t.show_number) + show_piece("show-type"@, t.show_type)
}

/// A part of a tuplet's ratio on a line of its own, where there is one.
pub open spec fn portion_piece(tag: Seq<char>, p: Option<TupletPortion>, level: nat, o: PrintOptions) -> Seq<char> {
    match p {
        Some(p) => line_break_text(o) + portion_text(tag, p, level, o),
        None => Seq::empty(),
    }
}

/// The line of a part of a tuplet's ratio.
pub open spec fn portion_text(tag: Seq<char>, p: TupletPortion, level: nat, o: PrintOptions) -> Seq<char> {
    indent_text(level, o) + "("@ + tag + match p.tuplet_number {
        Some(n) => kv("tuplet-number"@, nat_digits(n.value as nat)),
        None => Seq::empty(),
    } + match p.tuplet_type {
        Some(t) => kv("tuplet-type"@, note_type_value_name(t.value)),
        None => Seq::empty(),
    } + repeat_text(" :tuplet-dot"@, p.tuplet_dots@.len()) + ")"@
}

/// An ornament on a line of its own.
pub open spec fn ornament_item(level: nat, o: PrintOptions) -> spec_fn(OrnamentWithAccidentals) -> Seq<char> {
    |w: OrnamentWithAccidentals| line_break_text(o) + indent_text(level, o) + ornament_text(w.ornament)
}

/// The text of an ornament.
pub open spec fn ornament_text(e: OrnamentElement) -> Seq<char> {
    match e {
        OrnamentElement::TrillMark(_) => "(trill-mark)"@,
        OrnamentElement::Turn(t) => "(turn"@ + flag_piece(t.slash == Some(YesNo::Yes), " :slash #t"@) + ")"@,
        OrnamentElement::DelayedTurn(_) => "(delayed-turn)"@,
        OrnamentElement::InvertedTurn(_) => "(inverted-turn)"@,
        OrnamentElement::DelayedInvertedTurn(_) => "(delayed-inverted-turn)"@,
        OrnamentElement::VerticalTurn(_) => "(vertical-turn)"@,
        OrnamentElement::InvertedVerticalTurn(_) => "(inverted-vertical-turn)"@,
        OrnamentElement::Shake(_) => "(shake)"@,
        OrnamentElement::WavyLine(w) => "(wavy-line"@ + kv("type"@, start_stop_continue_name(w.type_)) + ")"@,
        OrnamentElement::Mordent(m) => "(mordent"@ + flag_piece(m.long == Some(YesNo::Yes), " :long #t"@) + ")"@,
        OrnamentElement::InvertedMordent(m) => "(inverted-mordent"@ + flag_piece(
            m.long == Some(YesNo::Yes),
            " :long #t"@,
        ) + ")"@,
        OrnamentElement::Schleifer(_) => "(schleifer)"@,
        OrnamentElement::Tremolo(t) => "(tremolo"@ + kv("value"@, nat_digits(t.value as nat)) + ")"@,
        OrnamentElement::Haydn(_) => "(haydn)"@,
        OrnamentElement::OtherOrnament(x) => "(other-ornament"@ + spaced_quoted(x.value@) + ")"@,
    }
}

/// A technical mark on a line of its own.
pub open spec fn technical_item(level: nat, o: PrintOptions) -> spec_fn(TechnicalElement) -> Seq<char> {
    |e: TechnicalElement| line_break_text(o) + indent_text(level, o) + technical_text(e)
}

/// The rest of a hammer-on or pull-off after its tag.
pub open spec fn hammer_pull_rest(h: HammerPull) -> Seq<char> {
    kv("type"@, start_stop_name(h.type_)) + if h.value@.len() == 0 {
        Seq::empty()
    } else {
        spaced_quoted(h.value@)
    } + ")"@
}

/// The text of a technical mark.
pub open spec fn technical_text(e: TechnicalElement) -> Seq<char> {
    match e {
        TechnicalElement::UpBow(_) => "(up-bow)"@,
        TechnicalElement::DownBow(_) => "(down-bow)"@,
        TechnicalElement::Harmonic(h) => "(harmonic"@ + flag_piece(h.natural, " :natural #t"@) + flag_piece(
            h.artificial,
            " :artificial #t"@,
        ) + ")"@,
        TechnicalElement::OpenString(_) => "(open-string)"@,
        TechnicalElement::ThumbPosition(_) => "(thumb-position)"@,
        TechnicalElement::Fingering(f) => "(fingering"@ + spaced_quoted(f.value@) + ")"@,
        TechnicalElement::Pluck(p) => "(pluck"@ + spaced_quoted(p.value@) + ")"@,
        TechnicalElement::DoubleTongue(_) => "(double-tongue)"@,
        TechnicalElement::TripleTongue(_) => "(triple-tongue)"@,
        TechnicalElement::Stopped(_) => "(stopped)"@,
        TechnicalElement::SnapPizzicato(_) => "(snap-pizzicato)"@,
        TechnicalElement::Fret(f) => "(fret "@ + nat_digits(f.value as nat) + ")"@,
        TechnicalElement::String(s) => "(string "@ + nat_digits(s.value as nat) + ")"@,
        TechnicalElement::HammerOn(h) => "(hammer-on"@ + hammer_pull_rest(h),
        TechnicalElement::PullOff(p) => "(pull-off"@ + hammer_pull_rest(p),
        TechnicalElement::Bend(b) => "(bend"@ + kv("bend-alter"@, b.bend_alter.plain_text()) + ")"@,
        TechnicalElement::Tap(t) => "(tap"@ + spaced_quoted(t.value@) + ")"@,
        TechnicalElement::Heel(_) => "(heel)"@,
        TechnicalElement::Toe(_) => "(toe)"@,
        TechnicalElement::Fingernails(_) => "(fingernails)"@,
        TechnicalElement::Hole(_) => "(hole)"@,
        TechnicalElement::Arrow(_) => "(arrow)"@,
        TechnicalElement::Handbell(_) => "(handbell)"@,
        TechnicalElement::BrassBend(_) => "(brass-bend)"@,
        TechnicalElement::Flip(_) => "(flip)"@,
        TechnicalElement::Smear(_) => "(smear)"@,
        TechnicalElement::Open(_) => "(open)"@,
        TechnicalElement::HalfMuted(_) => "(half-muted)"@,
        TechnicalElement::HarmonMute(_) => "(harmon-mute)"@,
        TechnicalElement::Golpe(_) => "(golpe)"@,
        TechnicalElement::OtherTechnical(x) => "(other-technical"@ + spaced_quoted(x.value@) + ")"@,
    }
}

/// An articulation on a line of its own.
pub open spec fn articulation_item(level: nat, o: PrintOptions) -> spec_fn(ArticulationElement) -> Seq<char> {
    |e: ArticulationElement| line_break_text(o) + indent_text(level, o) + articulation_text(e)
}

/// The text of an articulation.
pub open spec fn articulation_text(e: ArticulationElement) -> Seq<char> {
    match e {
        ArticulationElement::Accent(_) => "(accent)"@,
        ArticulationElement::StrongAccent(_) => "(strong-accent)"@,
        ArticulationElement::Staccato(_) => "(staccato)"@,
        ArticulationElement::Tenuto(_) => "(tenuto)"@,
        ArticulationElement::DetachedLegato(_) => "(detached-legato)"@,
        ArticulationElement::Staccatissimo(_) => "(staccatissimo)"@,
        ArticulationElement::Spiccato(_) => "(spiccato)"@,
        ArticulationElement::Scoop(_) => "(scoop)"@,
        ArticulationElement::Plop(_) => "(plop)"@,
        ArticulationElement::Doit(_) => "(doit)"@,
        ArticulationElement::Falloff(_) => "(falloff)"@,
        ArticulationElement::BreathMark(b) => "(breath-mark"@ + if b.value == BreathMarkValue::Empty {
            Seq::empty()
        } else {
            kv("value"@, breath_mark_value_name(b.value))
        } + ")"@,
        ArticulationElement::Caesura(_) => "(caesura)"@,
        ArticulationElement::Stress(_) => "(stress)"@,
        ArticulationElement::Unstress(_) => "(unstress)"@,
        ArticulationElement::SoftAccent(_) => "(soft-accent)"@,
        ArticulationElement::OtherArticulation(x) => "(other-articulation"@ + spaced_quoted(x.value@) + ")"@,
    }
}

/// The symbols of a group of dynamic markings, each after a space.
pub open spec fn dynamics_symbols(d: Seq<crate::ir::direction::DynamicElement>) -> Seq<char>
    decreases d.len(),
{
    if d.len() == 0 {
        Seq::empty()
    } else {
        dynamics_symbols(d.drop_last()) + seq![' '] + dynamic_element_name(d.last())
    }
}

/// The text of a group of dynamic markings.
pub open spec fn dynamics_text(d: Dynamics) -> Seq<char> {
    "(dynamics"@ + dynamics_symbols(d.content@) + ")"@
}

/// The text of a fermata.
pub open spec fn fermata_text(f: Fermata) -> Seq<char> {
    "(fermata"@ + match f.shape {
        Some(s) => kv("shape"@, fermata_shape_name(s)),
        None => Seq::empty(),
    } + match f.type_ {
        Some(t) => kv("type"@, upright_inverted_name(t)),
        None => Seq::empty(),
    } + ")"@
}

/// The text of an arpeggio sign.
pub open spec fn arpeggiate_text(a: Arpeggiate) -> Seq<char> {
    "(arpeggiate"@ + kv_u8_opt("number"@, a.number) + match a.direction {
        Some(d) => kv("direction"@, up_down_name(d)),
        None => Seq::empty(),
    } + ")"@
}

/// The text of a bracket against arpeggiation.
pub open spec fn non_arpeggiate_text(a: NonArpeggiate) -> Seq<char> {
    "(non-arpeggiate"@ + kv("type"@, top_bottom_name(a.type_)) + kv_u8_opt("number"@, a.number) + ")"@
}

/// The text of another notation.
pub open spec fn other_notation_text(x: OtherNotation) -> Seq<char> {
    "(other-notation"@ + kv("type"@, start_stop_single_name(x.type_)) + if x.value@.len() == 0 {
        Seq::empty()
    } else {
        spaced_quoted(x.value@)
    } + ")"@
}

// === Writing ===

/// Appends ` :key N` for a small number where there is one.
pub(crate) fn push_kv_u8_opt(out: &mut String, key: &str, n: Option<u8>)
    ensures
        final(out)@ == old(out)@ + kv_u8_opt(key@, n),
{
    match n {
        Some(v) => push_kv_nat(out, key, v as u64),
        None => {
            assert(old(out)@ + kv_u8_opt(key@, n) =~= old(out)@);
        },
    }
}

/// Appends a space and a printed string.
pub(crate) fn push_spaced_quoted(out: &mut String, s: &str)
    ensures
        final(out)@ == old(out)@ + spaced_quoted(s@),
{
    let ghost start = out@;
    push_char(out, ' ');
    push_char(out, '"');
    push_escaped(out, s);
    push_char(out, '"');
    assert(out@ =~= start + spaced_quoted(s@));
}

/// Appends `text` after the indentation of `level`, as a line's start.
fn push_line(out: &mut String, level: usize, o: &PrintOptions, text: &str)
    ensures
        final(out)@ == old(out)@ + indent_text(level as nat, *o) + text@,
{
    push_indent(out, level, o);
    push_str(out, text);
}

/// Appends the groups of notations of a note, each on lines of their own.
pub fn push_notations_groups(out: &mut String, groups: &Vec<Notations>, level: usize, o: &PrintOptions)
    requires
        level < usize::MAX - 100,
    ensures
        final(out)@ == old(out)@ + each(groups@, notations_item(level as nat, *o)),
{
    let ghost start = out@;
    let mut i: usize = 0;
    while i < groups.len()
        invariant
            i <= groups.len(),
            level < usize::MAX - 100,
            out@ == start + each(groups@.take(i as int), notations_item(level as nat, *o)),
        decreases groups.len() - i,
    {
        push_line_break(out, o);
        let ghost b = out@;
        let g = &groups[i];
        push_indent(out, level, o);
        push_str(out, "(notations");
        push_notation_items(out, &g.content, level + 1, o);
        push_str(out, ")");
        assert(out@ =~= b + notations_text(*g, level as nat, *o));
        proof {
            lemma_each_step(groups@, i as int, notations_item(level as nat, *o));
        }
        assert(out@ =~= start + each(groups@.take(i + 1), notations_item(level as nat, *o)));
        i = i + 1;
    }
    assert(groups@.take(groups.len() as int) =~= groups@);
}

/// Appends notations, each on lines of their own.
fn push_notation_items(out: &mut String, items: &Vec<NotationContent>, level: usize, o: &PrintOptions)
    requires
        level < usize::MAX - 99,
    ensures
        final(out)@ == old(out)@ + each(items@, notation_item(level as nat, *o)),
{
    let ghost start = out@;
    let mut i: usize = 0;
    while i < items.len()
        invariant
            i <= items.len(),
            level < usize::MAX - 99,
            out@ == start + each(items@.take(i as int), notation_item(level as nat, *o)),
        decreases items.len() - i,
    {
        push_line_break(out, o);
        push_notation(out, &items[i], level, o);
        proof {
            lemma_each_step(items@, i as int, notation_item(level as nat, *o));
        }
        assert(out@ =~= start + each(items@.take(i + 1), notation_item(level as nat, *o)));
        i = i + 1;
    }
    assert(items@.take(items.len() as int) =~= items@);
}

/// Appends the lines of a notation, as `notation_text` states.
#[verifier::rlimit(60)]
fn push_notation(out: &mut String, c: &NotationContent, level: usize, o: &PrintOptions)
    requires
        level < usize::MAX - 99,
    ensures
        final(out)@ == old(out)@ + notation_text(*c, level as nat, *o),
{
    let ghost start = out@;
    match c {
        NotationContent::Tied(t) => {
            push_indent(out, level, o);
            push_tied(out, t);
            assert(out@ =~= start + notation_text(*c, level as nat, *o));
        },
        NotationContent::Slur(s) => {
            push_indent(out, level, o);
            push_slur(out, s);
            assert(out@ =~= start + notation_text(*c, level as nat, *o));
        },
        NotationContent::Tuplet(t) => {
            push_tuplet(out, t, level, o);
            assert(out@ =~= start + notation_text(*c, level as nat, *o));
        },
        NotationContent::Glissando(g) => {
            push_indent(out, level, o);
            push_line_mark(out, "glissando", g.type_, g.number, &g.text);
            assert(out@ =~= start + notation_text(*c, level as nat, *o));
        },
        NotationContent::Slide(s) => {
            push_indent(out, level, o);
            push_line_mark(out, "slide", s.type_, s.number, &s.text);
            assert(out@ =~= start + notation_text(*c, level as nat, *o));
        },
        NotationContent::Ornaments(x) => {
            push_indent(out, level, o);
            push_str(out, "(ornaments");
            push_ornament_items(out, &x.content, level + 1, o);
            push_str(out, ")");
            assert(out@ =~= start + notation_text(*c, level as nat, *o));
        },
        NotationContent::Technical(x) => {
            push_indent(out, level, o);
            push_str(out, "(technical");
            push_technical_items(out, &x.content, level + 1, o);
            push_str(out, ")");
            assert(out@ =~= start + notation_text(*c, level as nat, *o));
        },
        NotationContent::Articulations(x) => {
            push_indent(out, level, o);
            push_str(out, "(articulations");
            push_articulation_items(out, &x.content, level + 1, o);
            push_str(out, ")");
            assert(out@ =~= start + notation_text(*c, level as nat, *o));
        },
        NotationContent::Dynamics(d) => {
            push_indent(out, level, o);
            push_dynamics(out, d);
            assert(out@ =~= start + notation_text(*c, level as nat, *o));
        },
        NotationContent::Fermata(f) => {
            push_indent(out, level, o);
            push_fermata(out, f);
            assert(out@ =~= start + notation_text(*c, level as nat, *o));
        },
        NotationContent::Arpeggiate(a) => {
            push_indent(out, level, o);
            push_arpeggiate(out, a);
            assert(out@ =~= start + notation_text(*c, level as nat, *o));
        },
        NotationContent::NonArpeggiate(a) => {
            push_indent(out, level, o);
            push_non_arpeggiate(out, a);
            assert(out@ =~= start + notation_text(*c, level as nat, *o));
        },
        NotationContent::AccidentalMark(m) => {
            push_indent(out, level, o);
            push_str(out, "(accidental-mark ");
            push_str(out, m.value.symbol());
            push_str(out, ")");
            assert(out@ =~= start + notation_text(*c, level as nat, *o));
        },
        NotationContent::OtherNotation(x) => {
            push_indent(out, level, o);
            push_other_notation(out, x);
            assert(out@ =~= start + notation_text(*c, level as nat, *o));
        },
    }
}

/// Appends a tie mark, as `tied_text` states.
fn push_tied(out: &mut String, t: &Tied)
    ensures
        final(out)@ == old(out)@ + tied_text(*t),
{
    let ghost start = out@;
    push_str(out, "(tied");
    push_kv_sym(out, "type", t.type_.symbol());
    push_kv_u8_opt(out, "number", t.number);
    push_str(out, ")");
    assert(out@ =~= start + tied_text(*t));
}

/// Appends a slur, as `slur_text` states.
fn push_slur(out: &mut String, s: &Slur)
    ensures
        final(out)@ == old(out)@ + slur_text(*s),
{
    let ghost start = out@;
    push_str(out, "(slur");
    push_kv_sym(out, "type", s.type_.symbol());
    push_kv_nat(out, "number", s.number as u64);
    let ghost a = out@;
    match s.placement {
        Some(p) => push_kv_sym(out, "placement", p.symbol()),
        None => {},
    }
    assert(out@ =~= a + placement_piece(s.placement));
    push_str(out, ")");
    assert(out@ =~= start + slur_text(*s));
}

/// Appends a glissando or a slide, as `line_mark_text` states.
fn push_line_mark(out: &mut String, tag: &str, t: StartStop, number: Option<u8>, text: &Option<String>)
    ensures
        final(out)@ == old(out)@ + line_mark_text(tag@, t, number, *text),
{
    let ghost start = out@;
    push_str(out, "(");
    push_str(out, tag);
    push_kv_sym(out, "type", t.symbol());
    push_kv_u8_opt(out, "number", number);
    match text {
        Some(x) => push_spaced_quoted(out, x.as_str()),
        None => {},
    }
    push_str(out, ")");
    assert(out@ =~= start + line_mark_text(tag@, t, number, *text));
}

/// Appends ` :key S` for what a tuplet shows, where it is given.
fn push_show(out: &mut String, key: &str, v: Option<ShowTuplet>)
    ensures
        final(out)@ == old(out)@ + show_piece(key@, v),
{
    match v {
        Some(x) => push_kv_sym(out, key, x.symbol()),
        None => {
            assert(old(out)@ + show_piece(key@, v) =~= old(out)@);
        },
    }
}

/// Appends the lines of a tuplet, as `tuplet_text` states.
fn push_tuplet(out: &mut String, t: &Tuplet, level: usize, o: &PrintOptions)
    requires
        level < usize::MAX - 99,
    ensures
        final(out)@ == old(out)@ + tuplet_text(*t, level as nat, *o),
{
    let ghost start = out@;
    push_indent(out, level, o);
    push_str(out, "(tuplet");
    push_tuplet_attributes(out, t);
    push_portion_piece(out, "tuplet-actual", &t.tuplet_actual, level + 1, o);
    push_portion_piece(out, "tuplet-normal", &t.tuplet_normal, level + 1, o);
    push_str(out, ")");
    assert(out@ =~= start + tuplet_text(*t, level as nat, *o));
}

/// Appends the keyword arguments of a tuplet, as `tuplet_attributes`
/// states.
fn push_tuplet_attributes(out: &mut String, t: &Tuplet)
    ensures
        final(out)@ == old(out)@ + tuplet_attributes(*t),
{
    let ghost start = out@;
    push_kv_sym(out, "type", t.type_.symbol());
    push_kv_u8_opt(out, "number", t.number);
    let ghost a = out@;
    match t.bracket {
        Some(b) => push_kv_sym(out, "bracket", yes_no_hash_of(b)),
        None => {},
    }
    assert(out@ =~= a + match t.bracket {
        Some(b) => kv("bracket"@, yes_no_hash(b)),
        None => Seq::<char>::empty(),
    });
    push_show(out, "show-number", t.show_number);
    push_show(out, "show-type", t.show_type);
    assert(out@ =~= start + tuplet_attributes(*t));
}

/// Appends a part of a tuplet's ratio on a line of its own, as
/// `portion_piece` states.
fn push_portion_piece(out: &mut String, tag: &str, p: &Option<TupletPortion>, level: usize, o: &PrintOptions)
    ensures
        final(out)@ == old(out)@ + portion_piece(tag@, *p, level as nat, *o),
{
    let ghost start = out@;
    match p {
        Some(p) => {
            push_line_break(out, o);
            push_indent(out, level, o);
            push_str(out, "(");
            push_str(out, tag);
            let ghost a = out@;
            match &p.tuplet_number {
                Some(n) => push_kv_nat(out, "tuplet-number", n.value as u64),
                None => {},
            }
            let ghost b = out@;
            match &p.tuplet_type {
                Some(tt) => push_kv_sym(out, "tuplet-type", tt.value.symbol()),
                None => {},
            }
            let ghost c = out@;
            let mut i: usize = 0;
            while i < p.tuplet_dots.len()
                invariant
                    i <= p.tuplet_dots.len(),
                    out@ == c + repeat_text(" :tuplet-dot"@, i as nat),
                decreases p.tuplet_dots.len() - i,
            {
                push_str(out, " :tuplet-dot");
                assert(out@ =~= c + repeat_text(" :tuplet-dot"@, (i + 1) as nat));
                i = i + 1;
            }
            push_str(out, ")");
            assert(out@ =~= start + line_break_text(*o) + portion_text(tag@, *p, level as nat, *o));
        },
        None => {},
    }
    assert(out@ =~= start + portion_piece(tag@, *p, level as nat, *o));
}

/// Appends ornaments, each on a line of its own.
fn push_ornament_items(out: &mut String, items: &Vec<OrnamentWithAccidentals>, level: usize, o: &PrintOptions)
    ensures
        final(out)@ == old(out)@ + each(items@, ornament_item(level as nat, *o)),
{
    let ghost start = out@;
    let mut i: usize = 0;
    while i < items.len()
        invariant
            i <= items.len(),
            out@ == start + each(items@.take(i as int), ornament_item(level as nat, *o)),
        decreases items.len() - i,
    {
        push_line_break(out, o);
        push_indent(out, level, o);
        push_ornament(out, &items[i].ornament);
        proof {
            lemma_each_step(items@, i as int, ornament_item(level as nat, *o));
        }
        assert(out@ =~= start + each(items@.take(i + 1), ornament_item(level as nat, *o)));
        i = i + 1;
    }
    assert(items@.take(items.len() as int) =~= items@);
}

/// Appends ` :key #t` when the value is yes.
fn push_yes_flag_text(out: &mut String, v: Option<YesNo>, text: &str)
    ensures
        final(out)@ == old(out)@ + flag_piece(v == Some(YesNo::Yes), text@),
{
    match v {
        Some(YesNo::Yes) => push_str(out, text),
        _ => {
            assert(old(out)@ + flag_piece(v == Some(YesNo::Yes), text@) =~= old(out)@);
        },
    }
}

/// Appends an ornament, as `ornament_text` states.
fn push_ornament(out: &mut String, e: &OrnamentElement)
    ensures
        final(out)@ == old(out)@ + ornament_text(*e),
{
    let ghost start = out@;
    match e {
        OrnamentElement::TrillMark(_) => push_str(out, "(trill-mark)"),
        OrnamentElement::Turn(t) => {
            push_str(out, "(turn");
            push_yes_flag_text(out, t.slash, " :slash #t");
            push_str(out, ")");
        },
        OrnamentElement::DelayedTurn(_) => push_str(out, "(delayed-turn)"),
        OrnamentElement::InvertedTurn(_) => push_str(out, "(inverted-turn)"),
        OrnamentElement::DelayedInvertedTurn(_) => push_str(out, "(delayed-inverted-turn)"),
        OrnamentElement::VerticalTurn(_) => push_str(out, "(vertical-turn)"),
        OrnamentElement::InvertedVerticalTurn(_) => push_str(out, "(inverted-vertical-turn)"),
        OrnamentElement::Shake(_) => push_str(out, "(shake)"),
        OrnamentElement::WavyLine(w) => {
            push_str(out, "(wavy-line");
            push_kv_sym(out, "type", w.type_.symbol());
            push_str(out, ")");
        },
        OrnamentElement::Mordent(m) => {
            push_str(out, "(mordent");
            push_yes_flag_text(out, m.long, " :long #t");
            push_str(out, ")");
        },
        OrnamentElement::InvertedMordent(m) => {
            push_str(out, "(inverted-mordent");
            push_yes_flag_text(out, m.long, " :long #t");
            push_str(out, ")");
        },
        OrnamentElement::Schleifer(_) => push_str(out, "(schleifer)"),
        OrnamentElement::Tremolo(t) => {
            push_str(out, "(tremolo");
            push_kv_nat(out, "value", t.value as u64);
            push_str(out, ")");
        },
        OrnamentElement::Haydn(_) => push_str(out, "(haydn)"),
        OrnamentElement::OtherOrnament(x) => {
            push_str(out, "(other-ornament");
            push_spaced_quoted(out, x.value.as_str());
            push_str(out, ")");
        },
    }
    assert(out@ =~= start + ornament_text(*e));
}

/// Appends technical marks, each on a line of its own.
fn push_technical_items(out: &mut String, items: &Vec<TechnicalElement>, level: usize, o: &PrintOptions)
    ensures
        final(out)@ == old(out)@ + each(items@, technical_item(level as nat, *o)),
{
    let ghost start = out@;
    let mut i: usize = 0;
    while i < items.len()
        invariant
            i <= items.len(),
            out@ == start + each(items@.take(i as int), technical_item(level as nat, *o)),
        decreases items.len() - i,
    {
        push_line_break(out, o);
        push_indent(out, level, o);
        push_technical(out, &items[i]);
        proof {
            lemma_each_step(items@, i as int, technical_item(level as nat, *o));
        }
        assert(out@ =~= start + each(items@.take(i + 1), technical_item(level as nat, *o)));
        i = i + 1;
    }
    assert(items@.take(items.len() as int) =~= items@);
}

/// Appends the rest of a hammer-on or pull-off, as `hammer_pull_rest`
/// states.
fn push_hammer_pull_rest(out: &mut String, h: &HammerPull)
    ensures
        final(out)@ == old(out)@ + hammer_pull_rest(*h),
{
    let ghost start = out@;
    push_kv_sym(out, "type", h.type_.symbol());
    if !h.value.as_str().is_empty() {
        push_spaced_quoted(out, h.value.as_str());
    }
    push_str(out, ")");
    assert(out@ =~= start + hammer_pull_rest(*h));
}

/// Appends a technical mark, as `technical_text` states.
#[verifier::rlimit(30)]
fn push_technical(out: &mut String, e: &TechnicalElement)
    ensures
        final(out)@ == old(out)@ + technical_text(*e),
{
    let ghost start = out@;
    match e {
        TechnicalElement::UpBow(_) => push_str(out, "(up-bow)"),
        TechnicalElement::DownBow(_) => push_str(out, "(down-bow)"),
        TechnicalElement::Harmonic(h) => {
            push_str(out, "(harmonic");
            let ghost a = out@;
            if h.natural {
                push_str(out, " :natural #t");
            }
            assert(out@ =~= a + flag_piece(h.natural, " :natural #t"@));
            let ghost b = out@;
            if h.artificial {
                push_str(out, " :artificial #t");
            }
            assert(out@ =~= b + flag_piece(h.artificial, " :artificial #t"@));
            push_str(out, ")");
        },
        TechnicalElement::OpenString(_) => push_str(out, "(open-string)"),
        TechnicalElement::ThumbPosition(_) => push_str(out, "(thumb-position)"),
        TechnicalElement::Fingering(f) => {
            push_str(out, "(fingering");
            push_spaced_quoted(out, f.value.as_str());
            push_str(out, ")");
        },
        TechnicalElement::Pluck(p) => {
            push_str(out, "(pluck");
            push_spaced_quoted(out, p.value.as_str());
            push_str(out, ")");
        },
        TechnicalElement::DoubleTongue(_) => push_str(out, "(double-tongue)"),
        TechnicalElement::TripleTongue(_) => push_str(out, "(triple-tongue)"),
        TechnicalElement::Stopped(_) => push_str(out, "(stopped)"),
        TechnicalElement::SnapPizzicato(_) => push_str(out, "(snap-pizzicato)"),
        TechnicalElement::Fret(f) => {
            push_str(out, "(fret ");
            push_digits(out, f.value as u64);
            push_str(out, ")");
        },
        TechnicalElement::String(s) => {
            push_str(out, "(string ");
            push_digits(out, s.value as u64);
            push_str(out, ")");
        },
        TechnicalElement::HammerOn(h) => {
            push_str(out, "(hammer-on");
            push_hammer_pull_rest(out, h);
        },
        TechnicalElement::PullOff(p) => {
            push_str(out, "(pull-off");
            push_hammer_pull_rest(out, p);
        },
        TechnicalElement::Bend(b) => {
            push_str(out, "(bend");
            push_kv_dec(out, "bend-alter", b.bend_alter);
            push_str(out, ")");
        },
        TechnicalElement::Tap(t) => {
            push_str(out, "(tap");
            push_spaced_quoted(out, t.value.as_str());
            push_str(out, ")");
        },
        TechnicalElement::Heel(_) => push_str(out, "(heel)"),
        TechnicalElement::Toe(_) => push_str(out, "(toe)"),
        TechnicalElement::Fingernails(_) => push_str(out, "(fingernails)"),
        TechnicalElement::Hole(_) => push_str(out, "(hole)"),
        TechnicalElement::Arrow(_) => push_str(out, "(arrow)"),
        TechnicalElement::Handbell(_) => push_str(out, "(handbell)"),
        TechnicalElement::BrassBend(_) => push_str(out, "(brass-bend)"),
        TechnicalElement::Flip(_) => push_str(out, "(flip)"),
        TechnicalElement::Smear(_) => push_str(out, "(smear)"),
        TechnicalElement::Open(_) => push_str(out, "(open)"),
        TechnicalElement::HalfMuted(_) => push_str(out, "(half-muted)"),
        TechnicalElement::HarmonMute(_) => push_str(out, "(harmon-mute)"),
        TechnicalElement::Golpe(_) => push_str(out, "(golpe)"),
        TechnicalElement::OtherTechnical(x) => {
            push_str(out, "(other-technical");
            push_spaced_quoted(out, x.value.as_str());
            push_str(out, ")");
        },
    }
    assert(out@ =~= start + technical_text(*e));
}

/// Appends the digits of a natural number.
fn push_digits(out: &mut String, n: u64)
    ensures
        final(out)@ == old(out)@ + nat_digits(n as nat),
{
    let d = crate::text::u64_digits(n);
    crate::text::push_chars(out, &d);
}

/// Appends articulations, each on a line of its own.
fn push_articulation_items(out: &mut String, items: &Vec<ArticulationElement>, level: usize, o: &PrintOptions)
    ensures
        final(out)@ == old(out)@ + each(items@, articulation_item(level as nat, *o)),
{
    let ghost start = out@;
    let mut i: usize = 0;
    while i < items.len()
        invariant
            i <= items.len(),
            out@ == start + each(items@.take(i as int), articulation_item(level as nat, *o)),
        decreases items.len() - i,
    {
        push_line_break(out, o);
        push_indent(out, level, o);
        push_articulation(out, &items[i]);
        proof {
            lemma_each_step(items@, i as int, articulation_item(level as nat, *o));
        }
        assert(out@ =~= start + each(items@.take(i + 1), articulation_item(level as nat, *o)));
        i = i + 1;
    }
    assert(items@.take(items.len() as int) =~= items@);
}

/// Appends an articulation, as `articulation_text` states.
fn push_articulation(out: &mut String, e: &ArticulationElement)
    ensures
        final(out)@ == old(out)@ + articulation_text(*e),
{
    let ghost start = out@;
    match e {
        ArticulationElement::Accent(_) => push_str(out, "(accent)"),
        ArticulationElement::StrongAccent(_) => push_str(out, "(strong-accent)"),
        ArticulationElement::Staccato(_) => push_str(out, "(staccato)"),
        ArticulationElement::Tenuto(_) => push_str(out, "(tenuto)"),
        ArticulationElement::DetachedLegato(_) => push_str(out, "(detached-legato)"),
        ArticulationElement::Staccatissimo(_) => push_str(out, "(staccatissimo)"),
        ArticulationElement::Spiccato(_) => push_str(out, "(spiccato)"),
        ArticulationElement::Scoop(_) => push_str(out, "(scoop)"),
        ArticulationElement::Plop(_) => push_str(out, "(plop)"),
        ArticulationElement::Doit(_) => push_str(out, "(doit)"),
        ArticulationElement::Falloff(_) => push_str(out, "(falloff)"),
        ArticulationElement::BreathMark(b) => {
            push_str(out, "(breath-mark");
            let ghost a = out@;
            match b.value {
                BreathMarkValue::Empty => {},
                _ => push_kv_sym(out, "value", b.value.symbol()),
            }
            assert(out@ =~= a + if b.value == BreathMarkValue::Empty {
                Seq::<char>::empty()
            } else {
                kv("value"@, breath_mark_value_name(b.value))
            });
            push_str(out, ")");
        },
        ArticulationElement::Caesura(_) => push_str(out, "(caesura)"),
        ArticulationElement::Stress(_) => push_str(out, "(stress)"),
        ArticulationElement::Unstress(_) => push_str(out, "(unstress)"),
        ArticulationElement::SoftAccent(_) => push_str(out, "(soft-accent)"),
        ArticulationElement::OtherArticulation(x) => {
            push_str(out, "(other-articulation");
            push_spaced_quoted(out, x.value.as_str());
            push_str(out, ")");
        },
    }
    assert(out@ =~= start + articulation_text(*e));
}

/// Appends a group of dynamic markings, as `dynamics_text` states.
pub(crate) fn push_dynamics(out: &mut String, d: &Dynamics)
    ensures
        final(out)@ == old(out)@ + dynamics_text(*d),
{
    let ghost start = out@;
    push_str(out, "(dynamics");
    let ghost a = out@;
    let mut i: usize = 0;
    while i < d.content.len()
        invariant
            i <= d.content.len(),
            out@ == a + dynamics_symbols(d.content@.take(i as int)),
        decreases d.content.len() - i,
    {
        push_char(out, ' ');
        push_str(out, d.content[i].symbol());
        assert(d.content@.take(i + 1).drop_last() =~= d.content@.take(i as int));
        assert(out@ =~= a + dynamics_symbols(d.content@.take(i + 1)));
        i = i + 1;
    }
    assert(d.content@.take(d.content.len() as int) =~= d.content@);
    push_str(out, ")");
    assert(out@ =~= start + dynamics_text(*d));
}

/// Appends a fermata, as `fermata_text` states.
fn push_fermata(out: &mut String, f: &Fermata)
    ensures
        final(out)@ == old(out)@ + fermata_text(*f),
{
    let ghost start = out@;
    push_str(out, "(fermata");
    let ghost a = out@;
    match f.shape {
        Some(s) => push_kv_sym(out, "shape", s.symbol()),
        None => {},
    }
    let ghost b = out@;
    match f.type_ {
        Some(t) => push_kv_sym(out, "type", t.symbol()),
        None => {},
    }
    push_str(out, ")");
    assert(out@ =~= start + fermata_text(*f));
}

/// Appends an arpeggio sign, as `arpeggiate_text` states.
fn push_arpeggiate(out: &mut String, x: &Arpeggiate)
    ensures
        final(out)@ == old(out)@ + arpeggiate_text(*x),
{
    let ghost start = out@;
    push_str(out, "(arpeggiate");
    push_kv_u8_opt(out, "number", x.number);
    match x.direction {
        Some(d) => push_kv_sym(out, "direction", d.symbol()),
        None => {},
    }
    push_str(out, ")");
    assert(out@ =~= start + arpeggiate_text(*x));
}

/// Appends a bracket against arpeggiation, as `non_arpeggiate_text` states.
fn push_non_arpeggiate(out: &mut String, x: &NonArpeggiate)
    ensures
        final(out)@ == old(out)@ + non_arpeggiate_text(*x),
{
    let ghost start = out@;
    push_str(out, "(non-arpeggiate");
    push_kv_sym(out, "type", x.type_.symbol());
    push_kv_u8_opt(out, "number", x.number);
    push_str(out, ")");
    assert(out@ =~= start + non_arpeggiate_text(*x));
}

/// Appends another notation, as `other_notation_text` states.
fn push_other_notation(out: &mut String, x: &OtherNotation)
    ensures
        final(out)@ == old(out)@ + other_notation_text(*x),
{
    let ghost start = out@;
    push_str(out, "(other-notation");
    push_kv_sym(out, "type", x.type_.symbol());
    if !x.value.as_str().is_empty() {
        push_spaced_quoted(out, x.value.as_str());
    }
    push_str(out, ")");
    assert(out@ =~= start + other_notation_text(*x));
}

} // verus!
