//! Printing a whole score as indented S-expression text.
//!
//! The printer writes the score in its own layout: one element per line,
//! indented by nesting level, with the small parts of an element (its
//! keyword arguments) on the element's line. In compact mode every line
//! break and indentation becomes a single space.

use vstd::prelude::*;
use crate::decimal::Decimal;
use crate::text::{push_chars, push_char, u64_digits, i64_chars, nat_digits, int_text, chars_of};
use crate::ir::common::{YesNo, StartStop, AboveBelow, StartStopContinue};
use crate::sexpr::convert::common::{yes_no_name, start_stop_name, above_below_name, start_stop_continue_name, accidental_value_name, symbol_size_name, note_type_value_name};
use crate::sexpr::convert::pitch::step_name;
use crate::sexpr::convert::note::{stem_value_name, notehead_value_name, beam_value_name, fan_name};
use crate::ir::note::{Note, NoteContent, FullNote, PitchRestUnpitched, Rest, Tie, Accidental};
use crate::ir::pitch::{Pitch, Unpitched};
use crate::ir::beam::{Beam, Stem, Notehead};
use crate::ir::duration::TimeModification;
use crate::ir::lyric::{Lyric, LyricContent, LyricExtension, Extend, Syllabic, LeftCenterRight};
use crate::ir::score::{
    ScorePartwise, Work, Identification, TypedText, Encoding, EncodingContent, Supports,
    Miscellaneous, MiscellaneousField, Defaults, Credit,
};
use crate::ir::part::{
    PartList, PartListElement, ScorePart, NameDisplay, ScoreInstrument, SoloOrEnsemble,
    VirtualInstrument, MidiDevice, MidiInstrument, PartGroup, Part,
};
use crate::ir::measure::{Measure, MusicDataElement};
use crate::ir::voice::{Backup, Forward};
use crate::sexpr::convert::score::{group_symbol_value_name, group_barline_value_name};
use crate::sexpr::notation_printer::{notations_item, push_notations_groups};
use crate::sexpr::ast::SexprV;
use crate::sexpr::print::{print_text, escape_text};
use crate::sexpr::measure_printer::{
    attributes_text, direction_text, barline_text, print_attributes, print_direction, print_barline,
};

verus! {

/// How the printer lays out its text.
#[derive(Debug, Clone)]
pub struct PrintOptions {
    /// The text of one level of indentation.
    pub indent: String,
    /// The width that lines should stay within; a hint that the printer does
    /// not enforce.
    pub max_width: usize,
    /// Whether to replace each line break and its indentation by one space.
    pub compact: bool,
}

impl Default for PrintOptions {
    /// Two spaces of indentation, 80 columns, not compact.
    fn default() -> (r: PrintOptions)
        ensures
            r.indent@ == "  "@,
            r.max_width == 80,
            !r.compact,
    {
        PrintOptions { indent: "  ".to_owned(), max_width: 80, compact: false }
    }
}

// === Text pieces ===

/// `n` copies of `s`.
pub open spec fn repeat_text(s: Seq<char>, n: nat) -> Seq<char>
    decreases n,
{
    if n == 0 {
        Seq::empty()
    } else {
        repeat_text(s, (n - 1) as nat) + s
    }
}

/// The indentation of a line at `level`: nothing in compact mode.
pub open spec fn indent_text(level: nat, o: PrintOptions) -> Seq<char> {
    if o.compact {
        Seq::empty()
    } else {
        repeat_text(o.indent@, level)
    }
}

/// A line break; one space in compact mode. The line after it starts with
/// its own indentation.
pub open spec fn line_break_text(o: PrintOptions) -> Seq<char> {
    if o.compact {
        seq![' ']
    } else {
        seq!['\n']
    }
}

/// In compact mode each line break is one space, and indentation is
/// nothing.
pub proof fn law_compact_layout(level: nat, o: PrintOptions)
    requires
        o.compact,
    ensures
        line_break_text(o) == seq![' '],
        indent_text(level, o) == Seq::<char>::empty(),
{
}

/// A character as it stands inside a printed string: backslash and double
/// quote are escaped with a backslash.
pub open spec fn pesc_char(c: char) -> Seq<char> {
    if c == '\\' {
        seq!['\\', '\\']
    } else if c == '"' {
        seq!['\\', '"']
    } else {
        seq![c]
    }
}

/// A text as it stands inside a printed string.
pub open spec fn pesc(s: Seq<char>) -> Seq<char>
    decreases s.len(),
{
    if s.len() == 0 {
        Seq::empty()
    } else {
        pesc(s.drop_last()) + pesc_char(s.last())
    }
}

/// A text as a printed string, in double quotes.
pub open spec fn quoted(s: Seq<char>) -> Seq<char> {
    seq!['"'] + pesc(s) + seq!['"']
}

/// A text without line breaks or tabs stands inside a printed string as
/// the S-expression writer writes it.
proof fn lemma_pesc_escape_text(t: Seq<char>)
    requires
        forall|i: int| 0 <= i < t.len() ==> #[trigger] t[i] != '\n' && t[i] != '\r' && t[i] != '\t',
    ensures
        pesc(t) == escape_text(t),
    decreases t.len(),
{
    if t.len() > 0 {
        lemma_pesc_escape_text(t.drop_last());
        assert(t.last() == t[t.len() - 1]);
    }
}

/// The flags, numbers and strings of a printed score are written as the
/// S-expression writer writes the boolean, integer and string values, so
/// that they read back as those values: yes as `#t` (true), no as `#f`
/// (false), a count as its decimal digits, and a string without line breaks
/// or tabs in quotes with its quotes and backslashes escaped.
pub proof fn law_score_atoms_as_sexpr_text(v: YesNo, n: nat, t: Seq<char>)
    requires
        forall|i: int| 0 <= i < t.len() ==> #[trigger] t[i] != '\n' && t[i] != '\r' && t[i] != '\t',
    ensures
        yes_no_hash(v) == print_text(SexprV::Bool(v == YesNo::Yes)),
        nat_digits(n) == print_text(SexprV::Integer(n as int)),
        quoted(t) == print_text(SexprV::Str(t)),
{
    reveal_strlit("#t");
    reveal_strlit("#f");
    lemma_pesc_escape_text(t);
    assert(yes_no_hash(v) =~= print_text(SexprV::Bool(v == YesNo::Yes)));
}

/// ` :key "value"`.
pub open spec fn kv_str(key: Seq<char>, value: Seq<char>) -> Seq<char> {
    " :"@ + key + seq![' '] + quoted(value)
}

/// ` :key "value"` where there is a value.
pub open spec fn kv_str_opt(key: Seq<char>, value: Option<String>) -> Seq<char> {
    match value {
        Some(v) => kv_str(key, v@),
        None => Seq::empty(),
    }
}

/// ` :key text`.
pub open spec fn kv(key: Seq<char>, text: Seq<char>) -> Seq<char> {
    " :"@ + key + seq![' '] + text
}

/// `#t` or `#f`.
pub open spec fn yes_no_hash(v: YesNo) -> Seq<char> {
    match v {
        YesNo::Yes => "#t"@,
        YesNo::No => "#f"@,
    }
}

/// The texts that `f` gives for the items, one after the other.
pub open spec fn each<T>(items: Seq<T>, f: spec_fn(T) -> Seq<char>) -> Seq<char>
    decreases items.len(),
{
    if items.len() == 0 {
        Seq::empty()
    } else {
        each(items.drop_last(), f) + f(items.last())
    }
}

/// `each` over the first `i + 1` items adds the text of item `i` to that
/// over the first `i`.
pub proof fn lemma_each_step<T>(items: Seq<T>, i: int, f: spec_fn(T) -> Seq<char>)
    requires
        0 <= i < items.len(),
    ensures
        each(items.take(i + 1), f) == each(items.take(i), f) + f(items[i]),
{
    assert(items.take(i + 1).drop_last() =~= items.take(i));
}

// === Writing text pieces ===

/// Appends a string.
pub(crate) fn push_str(out: &mut String, s: &str)
    ensures
        final(out)@ == old(out)@ + s@,
{
    out.append(s);
}

/// Appends the indentation of `level`.
pub fn push_indent(out: &mut String, level: usize, o: &PrintOptions)
    ensures
        final(out)@ == old(out)@ + indent_text(level as nat, *o),
{
    if o.compact {
        assert(old(out)@ + indent_text(level as nat, *o) =~= old(out)@);
        return;
    }
    let ghost start = out@;
    let mut i: usize = 0;
    while i < level
        invariant
            i <= level,
            out@ == start + repeat_text(o.indent@, i as nat),
        decreases level - i,
    {
        push_str(out, o.indent.as_str());
        assert(out@ =~= start + repeat_text(o.indent@, (i + 1) as nat));
        i = i + 1;
    }
}

/// Appends a line break, or one space in compact mode.
pub fn push_line_break(out: &mut String, o: &PrintOptions)
    ensures
        final(out)@ == old(out)@ + line_break_text(*o),
{
    let ghost start = out@;
    if o.compact {
        push_char(out, ' ');
        assert(out@ =~= start + line_break_text(*o));
    } else {
        push_char(out, '\n');
        assert(out@ =~= start + line_break_text(*o));
    }
}

/// Appends a text as it stands inside a printed string.
pub fn push_escaped(out: &mut String, s: &str)
    ensures
        final(out)@ == old(out)@ + pesc(s@),
{
    let v = chars_of(s);
    let ghost start = out@;
    let mut i: usize = 0;
    while i < v.len()
        invariant
            i <= v.len(),
            v@ == s@,
            out@ == start + pesc(v@.take(i as int)),
        decreases v.len() - i,
    {
        let c = v[i];
        if c == '\\' {
            push_char(out, '\\');
            push_char(out, '\\');
        } else if c == '"' {
            push_char(out, '\\');
            push_char(out, '"');
        } else {
            push_char(out, c);
        }
        assert(v@.take(i + 1).drop_last() =~= v@.take(i as int));
        assert(out@ =~= start + pesc(v@.take(i + 1)));
        i = i + 1;
    }
    assert(v@.take(v.len() as int) =~= v@);
}

/// Appends ` :key "value"`.
pub fn push_kv_str(out: &mut String, key: &str, value: &str)
    ensures
        final(out)@ == old(out)@ + kv_str(key@, value@),
{
    let ghost start = out@;
    push_str(out, " :");
    push_str(out, key);
    push_char(out, ' ');
    push_char(out, '"');
    push_escaped(out, value);
    push_char(out, '"');
    assert(out@ =~= start + kv_str(key@, value@));
}

/// Appends ` :key "value"` where there is a value.
pub fn push_kv_str_opt(out: &mut String, key: &str, value: &Option<String>)
    ensures
        final(out)@ == old(out)@ + kv_str_opt(key@, *value),
{
    match value {
        Some(v) => push_kv_str(out, key, v.as_str()),
        None => {
            assert(old(out)@ + kv_str_opt(key@, *value) =~= old(out)@);
        },
    }
}

/// Appends ` :key ` and then the characters `text`.
pub fn push_kv(out: &mut String, key: &str, text: &Vec<char>)
    ensures
        final(out)@ == old(out)@ + kv(key@, text@),
{
    let ghost start = out@;
    push_str(out, " :");
    push_str(out, key);
    push_char(out, ' ');
    push_chars(out, text);
    assert(out@ =~= start + kv(key@, text@));
}

/// Appends ` :key ` and a symbol.
pub fn push_kv_sym(out: &mut String, key: &str, sym: &str)
    ensures
        final(out)@ == old(out)@ + kv(key@, sym@),
{
    let ghost start = out@;
    push_str(out, " :");
    push_str(out, key);
    push_char(out, ' ');
    push_str(out, sym);
    assert(out@ =~= start + kv(key@, sym@));
}

/// `#t` or `#f`, as `yes_no_hash` states.
pub fn yes_no_hash_of(v: YesNo) -> (r: &'static str)
    ensures
        r@ == yes_no_hash(v),
{
    match v {
        YesNo::Yes => "#t",
        YesNo::No => "#f",
    }
}

// === Score ===

/// The text of a score at the top level.
pub open spec fn score_text(s: ScorePartwise, o: PrintOptions) -> Seq<char> {
    "(score-partwise"@ + version_piece(s.version) + work_piece(s.work, o) + identification_piece(
        s.identification,
        o,
    ) + defaults_piece(s.defaults, o) + each(s.credits@, credit_item(1, o)) + line_break_text(o)
        + part_list_text(s.part_list, 1, o) + each(s.parts@, part_item(1, o)) + ")"@
}

/// The work of a score on a line of its own, where it has one.
pub open spec fn work_piece(w: Option<Work>, o: PrintOptions) -> Seq<char> {
    match w {
        Some(w) => line_break_text(o) + work_text(w, 1, o),
        None => Seq::empty(),
    }
}

/// The identification of a score on lines of its own, where it has one.
pub open spec fn identification_piece(i: Option<Identification>, o: PrintOptions) -> Seq<char> {
    match i {
        Some(i) => line_break_text(o) + identification_text(i, 1, o),
        None => Seq::empty(),
    }
}

/// The defaults of a score on a line of their own, where it has them.
pub open spec fn defaults_piece(d: Option<Defaults>, o: PrintOptions) -> Seq<char> {
    match d {
        Some(d) => line_break_text(o) + defaults_text(d, 1, o),
        None => Seq::empty(),
    }
}

/// The line of a work.
pub open spec fn work_text(w: Work, level: nat, o: PrintOptions) -> Seq<char> {
    indent_text(level, o) + "(work"@ + kv_str_opt("work-number"@, w.work_number) + kv_str_opt(
        "work-title"@,
        w.work_title,
    ) + match w.opus {
        Some(op) => kv_str("opus"@, op.href@),
        None => Seq::empty(),
    } + ")"@
}

/// `(tag [:type "T"] "value")`.
pub open spec fn typed_text(tag: Seq<char>, t: TypedText) -> Seq<char> {
    "("@ + tag + kv_str_opt("type"@, t.type_) + seq![' '] + quoted(t.value@) + ")"@
}

/// A typed text on a line of its own, one level down.
pub open spec fn typed_item(tag: Seq<char>, level: nat, o: PrintOptions) -> spec_fn(TypedText) -> Seq<char> {
    |t: TypedText| line_break_text(o) + indent_text(level + 1, o) + typed_text(tag, t)
}

/// The lines of an identification.
pub open spec fn identification_text(i: Identification, level: nat, o: PrintOptions) -> Seq<char> {
    indent_text(level, o) + "(identification"@ + each(i.creators@, typed_item("creator"@, level, o))
        + each(i.rights@, typed_item("rights"@, level, o)) + encoding_piece(i.encoding, level, o)
        + kv_str_opt("source"@, i.source) + each(i.relations@, typed_item("relation"@, level, o))
        + miscellaneous_piece(i.miscellaneous, level, o) + ")"@
}

/// An encoding on lines of its own one level down, where there is one.
pub open spec fn encoding_piece(e: Option<Encoding>, level: nat, o: PrintOptions) -> Seq<char> {
    match e {
        Some(e) => line_break_text(o) + encoding_text(e, level + 1, o),
        None => Seq::empty(),
    }
}

/// Other metadata on lines of its own one level down, where there is some.
pub open spec fn miscellaneous_piece(m: Option<Miscellaneous>, level: nat, o: PrintOptions) -> Seq<char> {
    match m {
        Some(m) => line_break_text(o) + miscellaneous_text(m, level + 1, o),
        None => Seq::empty(),
    }
}

/// `(tag "value")`.
pub open spec fn tagged_str(tag: Seq<char>, v: Seq<char>) -> Seq<char> {
    "("@ + tag + seq![' '] + quoted(v) + ")"@
}

/// The text of a fact about the encoding.
pub open spec fn encoding_content_text(c: EncodingContent) -> Seq<char> {
    match c {
        EncodingContent::EncodingDate(d) => tagged_str("encoding-date"@, d@),
        EncodingContent::Encoder(t) => typed_text("encoder"@, t),
        EncodingContent::Software(s) => tagged_str("software"@, s@),
        EncodingContent::EncodingDescription(d) => tagged_str("encoding-description"@, d@),
        EncodingContent::Supports(s) => supports_text(s),
    }
}

/// A fact about the encoding on a line of its own.
pub open spec fn encoding_item(level: nat, o: PrintOptions) -> spec_fn(EncodingContent) -> Seq<char> {
    |c: EncodingContent| line_break_text(o) + indent_text(level + 1, o) + encoding_content_text(c)
}

/// The lines of an encoding.
pub open spec fn encoding_text(e: Encoding, level: nat, o: PrintOptions) -> Seq<char> {
    indent_text(level, o) + "(encoding"@ + each(e.content@, encoding_item(level, o)) + ")"@
}

/// The text of a `supports`.
pub open spec fn supports_text(s: Supports) -> Seq<char> {
    "(supports"@ + kv("type"@, yes_no_hash(s.type_)) + kv_str("element"@, s.element@) + kv_str_opt(
        "attribute"@,
        s.attribute,
    ) + kv_str_opt("value"@, s.value) + ")"@
}

/// A metadata field on a line of its own.
pub open spec fn misc_item(level: nat, o: PrintOptions) -> spec_fn(MiscellaneousField) -> Seq<char> {
    |f: MiscellaneousField| line_break_text(o) + indent_text(level + 1, o) + misc_field_text(f)
}

/// `(miscellaneous-field :name "N" "V")`.
pub open spec fn misc_field_text(f: MiscellaneousField) -> Seq<char> {
    "(miscellaneous-field"@ + kv_str("name"@, f.name@) + seq![' '] + quoted(f.value@) + ")"@
}

/// The lines of other metadata.
pub open spec fn miscellaneous_text(m: Miscellaneous, level: nat, o: PrintOptions) -> Seq<char> {
    indent_text(level, o) + "(miscellaneous"@ + each(m.fields@, misc_item(level, o)) + ")"@
}

/// The line of the defaults.
pub open spec fn defaults_text(d: Defaults, level: nat, o: PrintOptions) -> Seq<char> {
    indent_text(level, o) + "(defaults"@ + match d.scaling {
        Some(s) => kv(
            "scaling"@,
            "(scaling"@ + kv("millimeters"@, s.millimeters.plain_text()) + kv(
                "tenths"@,
                s.tenths.plain_text(),
            ) + ")"@,
        ),
        None => Seq::empty(),
    } + ")"@
}

/// The line of a credit.
pub open spec fn credit_text(c: Credit, level: nat, o: PrintOptions) -> Seq<char> {
    indent_text(level, o) + "(credit"@ + match c.page {
        Some(p) => kv("page"@, nat_digits(p as nat)),
        None => Seq::empty(),
    } + ")"@
}

/// A credit on a line of its own.
pub open spec fn credit_item(level: nat, o: PrintOptions) -> spec_fn(Credit) -> Seq<char> {
    |c: Credit| line_break_text(o) + credit_text(c, level, o)
}

/// A part on lines of its own.
pub open spec fn part_item(level: nat, o: PrintOptions) -> spec_fn(Part) -> Seq<char> {
    |p: Part| line_break_text(o) + part_text(p, level, o)
}


// === Part list ===

/// The lines of the part list.
pub open spec fn part_list_text(pl: PartList, level: nat, o: PrintOptions) -> Seq<char> {
    indent_text(level, o) + "(part-list"@ + each(pl.content@, part_list_item(level, o)) + ")"@
}

/// An entry of the part list on lines of its own.
pub open spec fn part_list_item(level: nat, o: PrintOptions) -> spec_fn(PartListElement) -> Seq<char> {
    |e: PartListElement| line_break_text(o) + match e {
        PartListElement::ScorePart(sp) => score_part_text(sp, level + 1, o),
        PartListElement::PartGroup(pg) => part_group_text(pg, level + 1, o),
    }
}

/// The lines of a part in the part list.
pub open spec fn score_part_text(sp: ScorePart, level: nat, o: PrintOptions) -> Seq<char> {
    indent_text(level, o) + "(score-part"@ + kv_str("id"@, sp.id@) + line_break_text(o)
        + indent_text(level + 1, o) + tagged_str("part-name"@, sp.part_name.value@) + name_display_piece(
        sp.part_name_display,
        level,
        o,
    ) + abbreviation_piece(sp.part_abbreviation, level, o) + each(
        sp.score_instruments@,
        score_instrument_item(level, o),
    ) + each(sp.midi_devices@, midi_device_item(level, o)) + each(
        sp.midi_instruments@,
        midi_instrument_item(level, o),
    ) + ")"@
}

/// How a part's name is displayed, on a line of its own, where it is given.
pub open spec fn name_display_piece(d: Option<NameDisplay>, level: nat, o: PrintOptions) -> Seq<char> {
    match d {
        Some(d) => line_break_text(o) + name_display_text(d, level + 1, o),
        None => Seq::empty(),
    }
}

/// A part's abbreviation on a line of its own, where it has one.
pub open spec fn abbreviation_piece(a: Option<crate::ir::part::PartName>, level: nat, o: PrintOptions) -> Seq<char> {
    match a {
        Some(a) => line_break_text(o) + indent_text(level + 1, o) + tagged_str("part-abbreviation"@, a.value@),
        None => Seq::empty(),
    }
}

/// The line of how a part's name is displayed.
pub open spec fn name_display_text(d: NameDisplay, level: nat, o: PrintOptions) -> Seq<char> {
    indent_text(level, o) + "(part-name-display"@ + match d.print_object {
        Some(p) => kv("print-object"@, yes_no_hash(p)),
        None => Seq::empty(),
    } + ")"@
}

/// An instrument on lines of its own.
pub open spec fn score_instrument_item(level: nat, o: PrintOptions) -> spec_fn(ScoreInstrument) -> Seq<char> {
    |si: ScoreInstrument| line_break_text(o) + score_instrument_text(si, level + 1, o)
}

/// The lines of an instrument.
pub open spec fn score_instrument_text(si: ScoreInstrument, level: nat, o: PrintOptions) -> Seq<char> {
    indent_text(level, o) + "(score-instrument"@ + kv_str("id"@, si.id@) + kv_str(
        "instrument-name"@,
        si.instrument_name@,
    ) + kv_str_opt("instrument-abbreviation"@, si.instrument_abbreviation) + kv_str_opt(
        "instrument-sound"@,
        si.instrument_sound,
    ) + match si.solo_or_ensemble {
        Some(SoloOrEnsemble::Solo) => " :solo #t"@,
        Some(SoloOrEnsemble::Ensemble(n)) => kv("ensemble"@, nat_digits(n as nat)),
        None => Seq::empty(),
    } + match si.virtual_instrument {
        Some(vi) => line_break_text(o) + indent_text(level + 1, o) + virtual_instrument_text(vi),
        None => Seq::empty(),
    } + ")"@
}

/// The text of a virtual instrument.
pub open spec fn virtual_instrument_text(vi: VirtualInstrument) -> Seq<char> {
    "(virtual-instrument"@ + kv_str_opt("virtual-library"@, vi.virtual_library) + kv_str_opt(
        "virtual-name"@,
        vi.virtual_name,
    ) + ")"@
}

/// A MIDI device on a line of its own.
pub open spec fn midi_device_item(level: nat, o: PrintOptions) -> spec_fn(MidiDevice) -> Seq<char> {
    |md: MidiDevice| line_break_text(o) + indent_text(level + 1, o) + midi_device_text(md)
}

/// The text of a MIDI device.
pub open spec fn midi_device_text(md: MidiDevice) -> Seq<char> {
    "(midi-device"@ + kv_str_opt("id"@, md.id) + match md.port {
        Some(p) => kv("port"@, nat_digits(p as nat)),
        None => Seq::empty(),
    } + ")"@
}

/// ` :key N` for a natural number where there is one.
pub open spec fn kv_nat_opt(key: Seq<char>, n: Option<nat>) -> Seq<char> {
    match n {
        Some(v) => kv(key, nat_digits(v)),
        None => Seq::empty(),
    }
}

/// ` :key D` for a decimal where there is one.
pub open spec fn kv_dec_opt(key: Seq<char>, d: Option<Decimal>) -> Seq<char> {
    match d {
        Some(v) => kv(key, v.plain_text()),
        None => Seq::empty(),
    }
}

/// A MIDI instrument on a line of its own.
pub open spec fn midi_instrument_item(level: nat, o: PrintOptions) -> spec_fn(MidiInstrument) -> Seq<char> {
    |mi: MidiInstrument| line_break_text(o) + midi_instrument_text(mi, level + 1, o)
}

/// The line of a MIDI instrument.
pub open spec fn midi_instrument_text(mi: MidiInstrument, level: nat, o: PrintOptions) -> Seq<char> {
    indent_text(level, o) + "(midi-instrument"@ + kv_str("id"@, mi.id@) + kv_nat_opt(
        "midi-channel"@,
        match mi.midi_channel { Some(c) => Some(c as nat), None => None },
    ) + kv_str_opt("midi-name"@, mi.midi_name) + kv_nat_opt(
        "midi-bank"@,
        match mi.midi_bank { Some(c) => Some(c as nat), None => None },
    ) + kv_nat_opt(
        "midi-program"@,
        match mi.midi_program { Some(c) => Some(c as nat), None => None },
    ) + kv_nat_opt(
        "midi-unpitched"@,
        match mi.midi_unpitched { Some(c) => Some(c as nat), None => None },
    ) + kv_dec_opt("volume"@, mi.volume) + kv_dec_opt("pan"@, mi.pan) + kv_dec_opt(
        "elevation"@,
        mi.elevation,
    ) + ")"@
}

/// The lines of the start or stop of a part group.
pub open spec fn part_group_text(pg: PartGroup, level: nat, o: PrintOptions) -> Seq<char> {
    indent_text(level, o) + "(part-group"@ + kv("type"@, start_stop_name(pg.type_)) + kv_str_opt(
        "number"@,
        pg.number,
    ) + group_name_piece("group-name"@, pg.group_name) + group_name_piece(
        "group-abbreviation"@,
        pg.group_abbreviation,
    ) + group_symbol_piece(pg.group_symbol, level, o) + group_barline_piece(pg.group_barline, level, o)
        + ")"@
}

/// ` :key "name"` for a group's name, where it has one.
pub open spec fn group_name_piece(key: Seq<char>, n: Option<crate::ir::part::GroupName>) -> Seq<char> {
    match n {
        Some(n) => kv_str(key, n.value@),
        None => Seq::empty(),
    }
}

/// A group's symbol on a line of its own, where it has one.
pub open spec fn group_symbol_piece(g: Option<crate::ir::part::GroupSymbol>, level: nat, o: PrintOptions) -> Seq<char> {
    match g {
        Some(gs) => line_break_text(o) + indent_text(level + 1, o) + "(group-symbol "@ + group_symbol_value_name(gs.value)
            + ")"@,
        None => Seq::empty(),
    }
}

/// A group's barline on a line of its own, where it has one.
pub open spec fn group_barline_piece(g: Option<crate::ir::part::GroupBarline>, level: nat, o: PrintOptions) -> Seq<char> {
    match g {
        Some(gb) => line_break_text(o) + indent_text(level + 1, o) + "(group-barline "@ + group_barline_value_name(
            gb.value,
        ) + ")"@,
        None => Seq::empty(),
    }
}

// === Parts and measures ===

/// The lines of a part.
pub open spec fn part_text(p: Part, level: nat, o: PrintOptions) -> Seq<char> {
    indent_text(level, o) + "(part"@ + kv_str("id"@, p.id@) + each(p.measures@, measure_item(level + 1, o))
        + ")"@
}

/// A measure on lines of its own.
pub open spec fn measure_item(level: nat, o: PrintOptions) -> spec_fn(Measure) -> Seq<char> {
    |m: Measure| line_break_text(o) + measure_text(m, level, o)
}

/// The lines of a measure.
pub open spec fn measure_text(m: Measure, level: nat, o: PrintOptions) -> Seq<char> {
    indent_text(level, o) + "(measure"@ + kv_str("number"@, m.number@) + kv_dec_opt("width"@, m.width)
        + (if m.implicit == Some(YesNo::Yes) {
        " :implicit #t"@
    } else {
        Seq::empty()
    }) + each(m.content@, element_item(level + 1, o)) + ")"@
}

/// An element of a measure on lines of its own.
pub open spec fn element_item(level: nat, o: PrintOptions) -> spec_fn(MusicDataElement) -> Seq<char> {
    |e: MusicDataElement| line_break_text(o) + element_text(e, level, o)
}

/// The lines of an element of a measure.
pub open spec fn element_text(e: MusicDataElement, level: nat, o: PrintOptions) -> Seq<char> {
    match e {
        MusicDataElement::Note(n) => note_text(*n, level, o),
        MusicDataElement::Backup(b) => backup_text(b, level, o),
        MusicDataElement::Forward(f) => forward_text(f, level, o),
        MusicDataElement::Direction(d) => direction_text(*d, level, o),
        MusicDataElement::Attributes(a) => attributes_text(*a, level, o),
        MusicDataElement::Barline(b) => barline_text(*b, level, o),
    }
}

/// The line of a backup.
pub open spec fn backup_text(b: Backup, level: nat, o: PrintOptions) -> Seq<char> {
    indent_text(level, o) + "(backup"@ + kv("duration"@, nat_digits(b.duration as nat)) + ")"@
}

/// The line of a forward.
pub open spec fn forward_text(f: Forward, level: nat, o: PrintOptions) -> Seq<char> {
    indent_text(level, o) + "(forward"@ + kv("duration"@, nat_digits(f.duration as nat)) + kv_str_opt(
        "voice"@,
        f.voice,
    ) + kv_nat_opt("staff"@, match f.staff { Some(s) => Some(s as nat), None => None }) + ")"@
}

// === Notes ===

/// ` :chord #t` for a note of a chord.
pub open spec fn chord_text(chord: bool) -> Seq<char> {
    if chord {
        " :chord #t"@
    } else {
        Seq::empty()
    }
}

/// The ` :tie T` of each tie.
pub open spec fn tie_item() -> spec_fn(Tie) -> Seq<char> {
    |t: Tie| kv("tie"@, start_stop_name(t.type_))
}

/// What a note sounds, as a keyword argument.
pub open spec fn sound_text(c: PitchRestUnpitched) -> Seq<char> {
    match c {
        PitchRestUnpitched::Pitch(p) => kv("pitch"@, pitch_text(p)),
        PitchRestUnpitched::Unpitched(u) => kv("unpitched"@, unpitched_text(u)),
        PitchRestUnpitched::Rest(r) => kv("rest"@, rest_text(r)),
    }
}

/// The text of a pitch; an alteration of zero is left out.
pub open spec fn pitch_text(p: Pitch) -> Seq<char> {
    "(pitch"@ + kv("step"@, step_name(p.step)) + match p.alter {
        Some(a) => if a.mantissa != 0 {
            kv("alter"@, a.plain_text())
        } else {
            Seq::empty()
        },
        None => Seq::empty(),
    } + kv("octave"@, nat_digits(p.octave as nat)) + ")"@
}

/// ` :display-step S :display-octave O`, as far as they are given.
pub open spec fn display_text(step: Option<crate::ir::pitch::Step>, octave: Option<u8>) -> Seq<char> {
    (match step {
        Some(s) => kv("display-step"@, step_name(s)),
        None => Seq::empty(),
    }) + kv_nat_opt("display-octave"@, match octave { Some(x) => Some(x as nat), None => None })
}

/// The text of an unpitched note.
pub open spec fn unpitched_text(u: Unpitched) -> Seq<char> {
    "(unpitched"@ + display_text(u.display_step, u.display_octave) + ")"@
}

/// The text of a rest.
pub open spec fn rest_text(r: Rest) -> Seq<char> {
    "(rest"@ + display_text(r.display_step, r.display_octave) + (if r.measure == Some(YesNo::Yes) {
        " :measure #t"@
    } else {
        Seq::empty()
    }) + ")"@
}

/// The keyword arguments of what a note is: its sound, duration, ties and
/// grace-note timing.
pub open spec fn content_text(c: NoteContent) -> Seq<char> {
    match c {
        NoteContent::Regular { full_note, duration, ties } => chord_text(full_note.chord)
            + sound_text(full_note.content) + kv("duration"@, nat_digits(duration as nat)) + each(
            ties@,
            tie_item(),
        ),
        NoteContent::Grace { grace, full_note, ties } => " :grace #t"@ + (if grace.slash == Some(
            YesNo::Yes,
        ) {
            " :slash #t"@
        } else {
            Seq::empty()
        }) + kv_dec_opt("steal-time-previous"@, grace.steal_time_previous) + kv_dec_opt(
            "steal-time-following"@,
            grace.steal_time_following,
        ) + match grace.make_time {
            Some(t) => kv("make-time"@, int_text(t as int)),
            None => Seq::empty(),
        } + chord_text(full_note.chord) + sound_text(full_note.content) + each(ties@, tie_item()),
        NoteContent::Cue { full_note, duration } => " :cue #t"@ + chord_text(full_note.chord)
            + sound_text(full_note.content) + kv("duration"@, nat_digits(duration as nat)),
    }
}

/// ` :flag #t` when the value is yes.
pub open spec fn yes_flag(key: Seq<char>, v: Option<YesNo>) -> Seq<char> {
    if v == Some(YesNo::Yes) {
        kv(key, "#t"@)
    } else {
        Seq::empty()
    }
}

/// The keyword arguments of an accidental.
pub open spec fn accidental_text(a: Accidental) -> Seq<char> {
    kv("accidental"@, accidental_value_name(a.value)) + yes_flag("cautionary"@, a.cautionary) + yes_flag(
        "editorial"@,
        a.editorial,
    ) + yes_flag("parentheses"@, a.parentheses) + yes_flag("bracket"@, a.bracket)
}

/// The keyword argument of a tuplet ratio.
pub open spec fn time_modification_text(tm: TimeModification) -> Seq<char> {
    kv(
        "time-modification"@,
        "(time-modification"@ + kv("actual-notes"@, nat_digits(tm.actual_notes as nat)) + kv(
            "normal-notes"@,
            nat_digits(tm.normal_notes as nat),
        ) + match tm.normal_type {
            Some(t) => kv("normal-type"@, note_type_value_name(t)),
            None => Seq::empty(),
        } + (if tm.normal_dots > 0 {
            kv("normal-dots"@, nat_digits(tm.normal_dots as nat))
        } else {
            Seq::empty()
        }) + ")"@,
    )
}

/// The keyword arguments of a stem.
pub open spec fn stem_text(s: Stem) -> Seq<char> {
    kv("stem"@, stem_value_name(s.value)) + kv_dec_opt("default-y"@, s.default_y)
}

/// The keyword arguments of a notehead.
pub open spec fn notehead_text(n: Notehead) -> Seq<char> {
    kv("notehead"@, notehead_value_name(n.value)) + match n.filled {
        Some(f) => kv("filled"@, yes_no_hash(f)),
        None => Seq::empty(),
    } + match n.parentheses {
        Some(p) => kv("parentheses"@, yes_no_hash(p)),
        None => Seq::empty(),
    }
}

/// The keyword arguments of a beam: the beam, then its fan after it.
pub open spec fn beam_item() -> spec_fn(Beam) -> Seq<char> {
    |b: Beam| kv(
        "beam"@,
        "(beam"@ + kv("number"@, nat_digits(b.number as nat)) + kv("value"@, beam_value_name(b.value))
            + ")"@,
    ) + match b.fan {
        Some(f) => kv("fan"@, fan_name(f)),
        None => Seq::empty(),
    }
}

/// The lines of a note.
pub open spec fn note_text(n: Note, level: nat, o: PrintOptions) -> Seq<char> {
    indent_text(level, o) + "(note"@ + content_text(n.content) + type_piece(n.type_) + dots_piece(
        n.dots@.len(),
    ) + accidental_piece(n.accidental) + time_modification_piece(n.time_modification) + stem_piece(
        n.stem,
    ) + notehead_piece(n.notehead) + kv_nat_opt(
        "staff"@,
        match n.staff {
            Some(s) => Some(s as nat),
            None => None,
        },
    ) + each(n.beams@, beam_item()) + each(n.notations@, notations_item(level + 1, o)) + each(
        n.lyrics@,
        lyric_item(level + 1, o),
    ) + kv_str_opt(
        "voice"@,
        n.voice,
    ) + ")"@
}

/// ` :type T [:size S]` where a note has a type.
pub open spec fn type_piece(t: Option<crate::ir::duration::NoteType>) -> Seq<char> {
    match t {
        Some(t) => kv("type"@, note_type_value_name(t.value)) + match t.size {
            Some(sz) => kv("size"@, symbol_size_name(sz)),
            None => Seq::empty(),
        },
        None => Seq::empty(),
    }
}

/// ` :dots N` where a note has dots.
pub open spec fn dots_piece(n: nat) -> Seq<char> {
    if n > 0 {
        kv("dots"@, nat_digits(n))
    } else {
        Seq::empty()
    }
}

/// The accidental of a note, where it has one.
pub open spec fn accidental_piece(a: Option<Accidental>) -> Seq<char> {
    match a {
        Some(a) => accidental_text(a),
        None => Seq::empty(),
    }
}

/// The tuplet ratio of a note, where it has one.
pub open spec fn time_modification_piece(t: Option<TimeModification>) -> Seq<char> {
    match t {
        Some(tm) => time_modification_text(tm),
        None => Seq::empty(),
    }
}

/// The stem of a note, where it has one.
pub open spec fn stem_piece(s: Option<Stem>) -> Seq<char> {
    match s {
        Some(s) => stem_text(s),
        None => Seq::empty(),
    }
}

/// The notehead of a note, where it has one.
pub open spec fn notehead_piece(h: Option<Notehead>) -> Seq<char> {
    match h {
        Some(h) => notehead_text(h),
        None => Seq::empty(),
    }
}

// === Lyrics ===

/// The symbol of a syllable's place in its word.
pub open spec fn syllabic_name(s: Syllabic) -> Seq<char> {
    match s {
        Syllabic::Single => "single"@,
        Syllabic::Begin => "begin"@,
        Syllabic::End => "end"@,
        Syllabic::Middle => "middle"@,
    }
}

/// The symbol of a justification.
pub open spec fn left_center_right_name(j: LeftCenterRight) -> Seq<char> {
    match j {
        LeftCenterRight::Left => "left"@,
        LeftCenterRight::Center => "center"@,
        LeftCenterRight::Right => "right"@,
    }
}

/// ` :syllabic S` where there is one.
pub open spec fn syllabic_text(s: Option<Syllabic>) -> Seq<char> {
    match s {
        Some(x) => kv("syllabic"@, syllabic_name(x)),
        None => Seq::empty(),
    }
}

/// The text of an extending line.
pub open spec fn extend_text(e: Extend) -> Seq<char> {
    "(extend"@ + match e.type_ {
        Some(t) => kv("type"@, start_stop_continue_name(t)),
        None => Seq::empty(),
    } + ")"@
}

/// A further syllable on lines of its own.
pub open spec fn extension_item(level: nat, o: PrintOptions) -> spec_fn(LyricExtension) -> Seq<char> {
    |x: LyricExtension| line_break_text(o) + extension_text(x, level, o)
}

/// The line of a further syllable.
pub open spec fn extension_text(x: LyricExtension, level: nat, o: PrintOptions) -> Seq<char> {
    indent_text(level, o) + "(lyric-extension"@ + kv_str("elision"@, x.elision.value@) + syllabic_text(
        x.syllabic,
    ) + kv_str("text"@, x.text.value@) + ")"@
}

/// A lyric on lines of its own.
pub open spec fn lyric_item(level: nat, o: PrintOptions) -> spec_fn(Lyric) -> Seq<char> {
    |l: Lyric| line_break_text(o) + lyric_text(l, level, o)
}

/// The lines of a lyric.
pub open spec fn lyric_text(l: Lyric, level: nat, o: PrintOptions) -> Seq<char> {
    indent_text(level, o) + "(lyric"@ + kv_str_opt("number"@, l.number) + kv_str_opt("name"@, l.name)
        + justify_piece(l.justify) + placement_piece(l.placement) + lyric_content_text(l.content, level, o)
        + flag_piece(l.end_line, " :end-line #t"@) + flag_piece(l.end_paragraph, " :end-paragraph #t"@)
        + ")"@
}

/// ` :justify J` where there is one.
pub open spec fn justify_piece(j: Option<LeftCenterRight>) -> Seq<char> {
    match j {
        Some(j) => kv("justify"@, left_center_right_name(j)),
        None => Seq::empty(),
    }
}

/// ` :placement P` where there is one.
pub open spec fn placement_piece(p: Option<AboveBelow>) -> Seq<char> {
    match p {
        Some(p) => kv("placement"@, above_below_name(p)),
        None => Seq::empty(),
    }
}

/// `text` when `b` holds.
pub open spec fn flag_piece(b: bool, text: Seq<char>) -> Seq<char> {
    if b {
        text
    } else {
        Seq::empty()
    }
}

/// What a lyric holds.
pub open spec fn lyric_content_text(c: LyricContent, level: nat, o: PrintOptions) -> Seq<char> {
    match c {
        LyricContent::Syllable { syllabic, text, extensions, extend } => syllabic_text(syllabic)
            + kv_str("text"@, text.value@) + each(extensions@, extension_item(level + 1, o))
            + match extend {
            Some(e) => seq![' '] + extend_text(e),
            None => Seq::empty(),
        },
        LyricContent::ExtendOnly(e) => seq![' '] + extend_text(e),
        LyricContent::Laughing => " :laughing #t"@,
        LyricContent::Humming => " :humming #t"@,
    }
}


// === Writing a score ===

/// Appends ` :key N` for a natural number.
pub fn push_kv_nat(out: &mut String, key: &str, n: u64)
    ensures
        final(out)@ == old(out)@ + kv(key@, nat_digits(n as nat)),
{
    let d = u64_digits(n);
    push_kv(out, key, &d);
}

/// The plain text of a number: no point for a whole number (`4`, `-2`),
/// and its digits otherwise (`3.5`).
pub fn format_float(d: Decimal) -> (r: String)
    ensures
        r@ == d.plain_text(),
{
    let mut out = String::new();
    let t = d.plain_chars();
    push_chars(&mut out, &t);
    out
}

/// Appends ` :key D` for a decimal.
pub fn push_kv_dec(out: &mut String, key: &str, d: Decimal)
    ensures
        final(out)@ == old(out)@ + kv(key@, d.plain_text()),
{
    let t = d.plain_chars();
    push_kv(out, key, &t);
}

/// Appends ` :key D` for a decimal where there is one.
pub fn push_kv_dec_opt(out: &mut String, key: &str, d: Option<Decimal>)
    ensures
        final(out)@ == old(out)@ + kv_dec_opt(key@, d),
{
    match d {
        Some(v) => push_kv_dec(out, key, v),
        None => {
            assert(old(out)@ + kv_dec_opt(key@, d) =~= old(out)@);
        },
    }
}

/// Appends ` :key N` for a natural number where there is one.
pub fn push_kv_nat_opt(out: &mut String, key: &str, n: Option<u64>)
    ensures
        final(out)@ == old(out)@ + kv_nat_opt(
            key@,
            match n {
                Some(v) => Some(v as nat),
                None => None,
            },
        ),
{
    match n {
        Some(v) => push_kv_nat(out, key, v),
        None => {
            assert(old(out)@ =~= old(out)@ + Seq::<char>::empty());
        },
    }
}

/// `t` with each line break replaced by a space.
pub open spec fn flatten_text(t: Seq<char>) -> Seq<char> {
    t.map_values(|c: char| if c == '\n' { ' ' } else { c })
}

/// What the layout reads of options: the indentation and compact mode. The
/// width is set aside.
pub open spec fn layout_of(o: PrintOptions) -> PrintOptions {
    PrintOptions { indent: o.indent, max_width: 80, compact: o.compact }
}

/// The printed text of a score: `score_text` in the layout of the options,
/// and in compact mode with every line break, also one that a string of the
/// score holds, replaced by a space.
pub open spec fn printed_score(s: ScorePartwise, o: PrintOptions) -> Seq<char> {
    if o.compact {
        flatten_text(score_text(s, layout_of(o)))
    } else {
        score_text(s, layout_of(o))
    }
}

/// The width of the options does not change what is printed: options that
/// differ in nothing else print a score alike.
pub proof fn law_width_unused(s: ScorePartwise, o1: PrintOptions, o2: PrintOptions)
    requires
        o1.indent == o2.indent,
        o1.compact == o2.compact,
    ensures
        printed_score(s, o1) == printed_score(s, o2),
{
    assert(layout_of(o1) == layout_of(o2));
}

/// Compact output holds no line break.
pub proof fn law_compact_one_line(s: ScorePartwise, o: PrintOptions)
    requires
        o.compact,
    ensures
        !printed_score(s, o).contains('\n'),
{
    let t = printed_score(s, o);
    assert forall|i: int| 0 <= i < t.len() implies t[i] != '\n' by {
        let c = score_text(s, layout_of(o))[i];
        assert(t[i] == if c == '\n' { ' ' } else { c });
    }
}

/// Replaces each line break of `s` by a space, as `flatten_text` states.
fn flatten(s: &String) -> (r: String)
    ensures
        r@ == flatten_text(s@),
{
    let cs = chars_of(s.as_str());
    let mut out = String::new();
    let mut i: usize = 0;
    while i < cs.len()
        invariant
            i <= cs.len(),
            cs@ == s@,
            out@ == flatten_text(s@.take(i as int)),
        decreases cs.len() - i,
    {
        let c = cs[i];
        if c == '\n' {
            push_char(&mut out, ' ');
        } else {
            push_char(&mut out, c);
        }
        assert(out@ =~= flatten_text(s@.take(i + 1)));
        i = i + 1;
    }
    assert(s@.take(cs.len() as int) =~= s@);
    out
}

/// Writes a score, as `printed_score` states.
pub fn print_score(score: &ScorePartwise, options: &PrintOptions) -> (r: String)
    ensures
        r@ == printed_score(*score, *options),
{
    let layout = PrintOptions { indent: options.indent.clone(), max_width: 80, compact: options.compact };
    assert(layout == layout_of(*options));
    let t = print_score_text(score, &layout);
    if options.compact {
        flatten(&t)
    } else {
        t
    }
}

/// The version of a score, written as it is between quotes, where it has
/// one.
pub open spec fn version_piece(v: Option<String>) -> Seq<char> {
    match v {
        Some(v) => " :version \""@ + v@ + "\""@,
        None => Seq::empty(),
    }
}

/// Writes a score, as `score_text` states.
fn print_score_text(score: &ScorePartwise, options: &PrintOptions) -> (r: String)
    ensures
        r@ == score_text(*score, *options),
{
    let o = options;
    let mut out = "(score-partwise".to_owned();
    let ghost a = out@;
    match &score.version {
        Some(v) => {
            push_str(&mut out, " :version \"");
            push_str(&mut out, v.as_str());
            push_str(&mut out, "\"");
        },
        None => {},
    }
    assert(out@ =~= a + version_piece(score.version));
    push_work_piece(&mut out, &score.work, o);
    push_identification_piece(&mut out, &score.identification, o);
    push_defaults_piece(&mut out, &score.defaults, o);
    push_credits(&mut out, &score.credits, o);
    push_line_break(&mut out, o);
    let t = print_part_list(&score.part_list, 1, o);
    push_str(&mut out, t.as_str());
    push_parts(&mut out, &score.parts, o);
    push_str(&mut out, ")");
    out
}

/// Appends the work of a score, as `work_piece` states.
fn push_work_piece(out: &mut String, w: &Option<Work>, o: &PrintOptions)
    ensures
        final(out)@ == old(out)@ + work_piece(*w, *o),
{
    let ghost a = out@;
    match w {
        Some(w) => {
            push_line_break(out, o);
            let t = print_work(w, 1, o);
            push_str(out, t.as_str());
        },
        None => {},
    }
    assert(out@ =~= a + work_piece(*w, *o));
}

/// Appends the identification of a score, as `identification_piece` states.
fn push_identification_piece(out: &mut String, i: &Option<Identification>, o: &PrintOptions)
    ensures
        final(out)@ == old(out)@ + identification_piece(*i, *o),
{
    let ghost a = out@;
    match i {
        Some(i) => {
            push_line_break(out, o);
            let t = print_identification(i, 1, o);
            push_str(out, t.as_str());
        },
        None => {},
    }
    assert(out@ =~= a + identification_piece(*i, *o));
}

/// Appends the defaults of a score, as `defaults_piece` states.
fn push_defaults_piece(out: &mut String, d: &Option<Defaults>, o: &PrintOptions)
    ensures
        final(out)@ == old(out)@ + defaults_piece(*d, *o),
{
    let ghost a = out@;
    match d {
        Some(d) => {
            push_line_break(out, o);
            let t = print_defaults(d, 1, o);
            push_str(out, t.as_str());
        },
        None => {},
    }
    assert(out@ =~= a + defaults_piece(*d, *o));
}

/// Appends the credits of a score, each on a line of its own.
fn push_credits(out: &mut String, credits: &Vec<Credit>, o: &PrintOptions)
    ensures
        final(out)@ == old(out)@ + each(credits@, credit_item(1, *o)),
{
    let ghost b = out@;
    let mut i: usize = 0;
    while i < credits.len()
        invariant
            i <= credits.len(),
            out@ == b + each(credits@.take(i as int), credit_item(1, *o)),
        decreases credits.len() - i,
    {
        push_line_break(out, o);
        let t = print_credit(&credits[i], 1, o);
        push_str(out, t.as_str());
        proof {
            lemma_each_step(credits@, i as int, credit_item(1, *o));
        }
        assert(out@ =~= b + each(credits@.take(i + 1), credit_item(1, *o)));
        i = i + 1;
    }
    assert(credits@.take(credits.len() as int) =~= credits@);
}

/// Appends the parts of a score, each on lines of their own.
fn push_parts(out: &mut String, parts: &Vec<Part>, o: &PrintOptions)
    ensures
        final(out)@ == old(out)@ + each(parts@, part_item(1, *o)),
{
    let ghost c = out@;
    let mut j: usize = 0;
    while j < parts.len()
        invariant
            j <= parts.len(),
            out@ == c + each(parts@.take(j as int), part_item(1, *o)),
        decreases parts.len() - j,
    {
        push_line_break(out, o);
        let t = print_part(&parts[j], 1, o);
        push_str(out, t.as_str());
        proof {
            lemma_each_step(parts@, j as int, part_item(1, *o));
        }
        assert(out@ =~= c + each(parts@.take(j + 1), part_item(1, *o)));
        j = j + 1;
    }
    assert(parts@.take(parts.len() as int) =~= parts@);
}

/// Writes a work, as `work_text` states.
fn print_work(w: &Work, level: usize, o: &PrintOptions) -> (r: String)
    ensures
        r@ == work_text(*w, level as nat, *o),
{
    let mut out = String::new();
    push_indent(&mut out, level, o);
    push_str(&mut out, "(work");
    push_kv_str_opt(&mut out, "work-number", &w.work_number);
    push_kv_str_opt(&mut out, "work-title", &w.work_title);
    match &w.opus {
        Some(op) => push_kv_str(&mut out, "opus", op.href.as_str()),
        None => {},
    }
    push_str(&mut out, ")");
    assert(out@ =~= work_text(*w, level as nat, *o));
    out
}

/// Appends a typed text, as `typed_text` states.
fn push_typed(out: &mut String, tag: &str, t: &TypedText)
    ensures
        final(out)@ == old(out)@ + typed_text(tag@, *t),
{
    let ghost start = out@;
    push_str(out, "(");
    push_str(out, tag);
    push_kv_str_opt(out, "type", &t.type_);
    push_char(out, ' ');
    push_char(out, '"');
    push_escaped(out, t.value.as_str());
    push_char(out, '"');
    push_str(out, ")");
    assert(out@ =~= start + typed_text(tag@, *t));
}

/// Appends the typed texts, each on a line of its own one level down.
fn push_typed_lines(out: &mut String, tag: &str, items: &Vec<TypedText>, level: usize, o: &PrintOptions)
    requires
        level < usize::MAX - 190,
    ensures
        final(out)@ == old(out)@ + each(items@, typed_item(tag@, level as nat, *o)),
{
    let ghost start = out@;
    let mut i: usize = 0;
    while i < items.len()
        invariant
            i <= items.len(),
            level < usize::MAX - 190,
            out@ == start + each(items@.take(i as int), typed_item(tag@, level as nat, *o)),
        decreases items.len() - i,
    {
        push_line_break(out, o);
        push_indent(out, level + 1, o);
        push_typed(out, tag, &items[i]);
        proof {
            lemma_each_step(items@, i as int, typed_item(tag@, level as nat, *o));
        }
        assert(out@ =~= start + each(items@.take(i + 1), typed_item(tag@, level as nat, *o)));
        i = i + 1;
    }
    assert(items@.take(items.len() as int) =~= items@);
}

/// Writes an identification, as `identification_text` states.
fn print_identification(ident: &Identification, level: usize, o: &PrintOptions) -> (r: String)
    requires
        level < usize::MAX - 191,
    ensures
        r@ == identification_text(*ident, level as nat, *o),
{
    let mut out = indent_string(level, o);
    push_str(&mut out, "(identification");
    push_typed_lines(&mut out, "creator", &ident.creators, level, o);
    push_typed_lines(&mut out, "rights", &ident.rights, level, o);
    let ghost a = out@;
    match &ident.encoding {
        Some(e) => {
            push_line_break(&mut out, o);
            let t = print_encoding(e, level + 1, o);
            push_str(&mut out, t.as_str());
        },
        None => {},
    }
    assert(out@ =~= a + encoding_piece(ident.encoding, level as nat, *o));
    push_kv_str_opt(&mut out, "source", &ident.source);
    push_typed_lines(&mut out, "relation", &ident.relations, level, o);
    let ghost a = out@;
    match &ident.miscellaneous {
        Some(m) => {
            push_line_break(&mut out, o);
            let t = print_miscellaneous(m, level + 1, o);
            push_str(&mut out, t.as_str());
        },
        None => {},
    }
    assert(out@ =~= a + miscellaneous_piece(ident.miscellaneous, level as nat, *o));
    push_str(&mut out, ")");
    out
}

/// The indentation of `level`, as `indent_text` states.
fn indent_string(level: usize, o: &PrintOptions) -> (r: String)
    ensures
        r@ == indent_text(level as nat, *o),
{
    let mut out = String::new();
    push_indent(&mut out, level, o);
    assert(out@ =~= indent_text(level as nat, *o));
    out
}

/// Appends `(tag "value")`.
fn push_tagged(out: &mut String, tag: &str, v: &str)
    ensures
        final(out)@ == old(out)@ + tagged_str(tag@, v@),
{
    let ghost start = out@;
    push_str(out, "(");
    push_str(out, tag);
    push_char(out, ' ');
    push_char(out, '"');
    push_escaped(out, v);
    push_char(out, '"');
    push_str(out, ")");
    assert(out@ =~= start + tagged_str(tag@, v@));
}

/// Appends a `supports`, as `supports_text` states.
fn push_supports(out: &mut String, s: &Supports)
    ensures
        final(out)@ == old(out)@ + supports_text(*s),
{
    let ghost start = out@;
    push_str(out, "(supports");
    push_kv_sym(out, "type", yes_no_hash_of(s.type_));
    push_kv_str(out, "element", s.element.as_str());
    push_kv_str_opt(out, "attribute", &s.attribute);
    push_kv_str_opt(out, "value", &s.value);
    push_str(out, ")");
    assert(out@ =~= start + supports_text(*s));
}

/// Writes an encoding, as `encoding_text` states.
fn print_encoding(e: &Encoding, level: usize, o: &PrintOptions) -> (r: String)
    requires
        level < usize::MAX - 190,
    ensures
        r@ == encoding_text(*e, level as nat, *o),
{
    let mut out = String::new();
    push_indent(&mut out, level, o);
    push_str(&mut out, "(encoding");
    let ghost start = out@;
    let mut i: usize = 0;
    while i < e.content.len()
        invariant
            i <= e.content.len(),
            level < usize::MAX - 190,
            out@ == start + each(e.content@.take(i as int), encoding_item(level as nat, *o)),
        decreases e.content.len() - i,
    {
        push_line_break(&mut out, o);
        push_indent(&mut out, level + 1, o);
        let ghost before = out@;
        match &e.content[i] {
            EncodingContent::EncodingDate(d) => push_tagged(&mut out, "encoding-date", d.as_str()),
            EncodingContent::Encoder(t) => push_typed(&mut out, "encoder", t),
            EncodingContent::Software(s) => push_tagged(&mut out, "software", s.as_str()),
            EncodingContent::EncodingDescription(d) => push_tagged(
                &mut out,
                "encoding-description",
                d.as_str(),
            ),
            EncodingContent::Supports(s) => push_supports(&mut out, s),
        }
        assert(out@ == before + encoding_content_text(e.content@[i as int]));
        proof {
            lemma_each_step(e.content@, i as int, encoding_item(level as nat, *o));
        }
        assert(out@ =~= start + each(e.content@.take(i + 1), encoding_item(level as nat, *o)));
        i = i + 1;
    }
    assert(e.content@.take(e.content.len() as int) =~= e.content@);
    push_str(&mut out, ")");
    assert(out@ =~= encoding_text(*e, level as nat, *o));
    out
}

/// Writes other metadata, as `miscellaneous_text` states.
fn print_miscellaneous(m: &Miscellaneous, level: usize, o: &PrintOptions) -> (r: String)
    requires
        level < usize::MAX - 190,
    ensures
        r@ == miscellaneous_text(*m, level as nat, *o),
{
    let mut out = String::new();
    push_indent(&mut out, level, o);
    push_str(&mut out, "(miscellaneous");
    let ghost start = out@;
    let mut i: usize = 0;
    while i < m.fields.len()
        invariant
            i <= m.fields.len(),
            level < usize::MAX - 190,
            out@ == start + each(m.fields@.take(i as int), misc_item(level as nat, *o)),
        decreases m.fields.len() - i,
    {
        let ghost b = out@;
        let f = &m.fields[i];
        push_line_break(&mut out, o);
        push_indent(&mut out, level + 1, o);
        push_misc_field(&mut out, f);
        assert(out@ =~= b + (misc_item(level as nat, *o))(*f));
        proof {
            lemma_each_step(m.fields@, i as int, misc_item(level as nat, *o));
        }
        assert(out@ =~= start + each(m.fields@.take(i + 1), misc_item(level as nat, *o)));
        i = i + 1;
    }
    assert(m.fields@.take(m.fields.len() as int) =~= m.fields@);
    push_str(&mut out, ")");
    assert(out@ =~= miscellaneous_text(*m, level as nat, *o));
    out
}

/// Appends a metadata field, as `misc_field_text` states.
fn push_misc_field(out: &mut String, f: &MiscellaneousField)
    ensures
        final(out)@ == old(out)@ + misc_field_text(*f),
{
    let ghost before = out@;
    push_str(out, "(miscellaneous-field");
    push_kv_str(out, "name", f.name.as_str());
    push_char(out, ' ');
    push_char(out, '"');
    push_escaped(out, f.value.as_str());
    push_char(out, '"');
    push_str(out, ")");
    assert(out@ =~= before + misc_field_text(*f));
}

/// Writes the defaults, as `defaults_text` states.
fn print_defaults(d: &Defaults, level: usize, o: &PrintOptions) -> (r: String)
    ensures
        r@ == defaults_text(*d, level as nat, *o),
{
    let mut out = String::new();
    push_indent(&mut out, level, o);
    push_str(&mut out, "(defaults");
    match &d.scaling {
        Some(s) => {
            let ghost before = out@;
            push_str(&mut out, " :");
            push_str(&mut out, "scaling");
            push_char(&mut out, ' ');
            push_str(&mut out, "(scaling");
            push_kv_dec(&mut out, "millimeters", s.millimeters);
            push_kv_dec(&mut out, "tenths", s.tenths);
            push_str(&mut out, ")");
            assert(out@ =~= before + kv(
                "scaling"@,
                "(scaling"@ + kv("millimeters"@, s.millimeters.plain_text()) + kv(
                    "tenths"@,
                    s.tenths.plain_text(),
                ) + ")"@,
            ));
        },
        None => {},
    }
    push_str(&mut out, ")");
    assert(out@ =~= defaults_text(*d, level as nat, *o));
    out
}

/// Writes a credit, as `credit_text` states.
fn print_credit(c: &Credit, level: usize, o: &PrintOptions) -> (r: String)
    ensures
        r@ == credit_text(*c, level as nat, *o),
{
    let mut out = String::new();
    push_indent(&mut out, level, o);
    push_str(&mut out, "(credit");
    match c.page {
        Some(p) => push_kv_nat(&mut out, "page", p as u64),
        None => {},
    }
    push_str(&mut out, ")");
    assert(out@ =~= credit_text(*c, level as nat, *o));
    out
}


/// Writes the part list, as `part_list_text` states.
fn print_part_list(pl: &PartList, level: usize, o: &PrintOptions) -> (r: String)
    requires
        level < usize::MAX - 192,
    ensures
        r@ == part_list_text(*pl, level as nat, *o),
{
    let mut out = indent_string(level, o);
    push_str(&mut out, "(part-list");
    let ghost start = out@;
    let mut i: usize = 0;
    while i < pl.content.len()
        invariant
            i <= pl.content.len(),
            level < usize::MAX - 192,
            out@ == start + each(pl.content@.take(i as int), part_list_item(level as nat, *o)),
        decreases pl.content.len() - i,
    {
        push_part_list_entry(&mut out, &pl.content[i], level, o);
        proof {
            lemma_each_step(pl.content@, i as int, part_list_item(level as nat, *o));
        }
        assert(out@ =~= start + each(pl.content@.take(i + 1), part_list_item(level as nat, *o)));
        i = i + 1;
    }
    assert(pl.content@.take(pl.content.len() as int) =~= pl.content@);
    push_str(&mut out, ")");
    out
}

/// Appends an entry of the part list, as `part_list_item` states.
fn push_part_list_entry(out: &mut String, e: &PartListElement, level: usize, o: &PrintOptions)
    requires
        level < usize::MAX - 192,
    ensures
        final(out)@ == old(out)@ + (part_list_item(level as nat, *o))(*e),
{
    let ghost a = out@;
    push_line_break(out, o);
    let t = match e {
        PartListElement::ScorePart(sp) => print_score_part(sp, level + 1, o),
        PartListElement::PartGroup(pg) => print_part_group(pg, level + 1, o),
    };
    push_str(out, t.as_str());
    assert(out@ =~= a + (part_list_item(level as nat, *o))(*e));
}

/// Writes a part of the part list, as `score_part_text` states.
fn print_score_part(sp: &ScorePart, level: usize, o: &PrintOptions) -> (r: String)
    requires
        level < usize::MAX - 191,
    ensures
        r@ == score_part_text(*sp, level as nat, *o),
{
    let mut out = indent_string(level, o);
    push_str(&mut out, "(score-part");
    push_kv_str(&mut out, "id", sp.id.as_str());
    push_line_break(&mut out, o);
    push_indent(&mut out, level + 1, o);
    push_tagged(&mut out, "part-name", sp.part_name.value.as_str());
    push_name_display_piece(&mut out, &sp.part_name_display, level, o);
    push_abbreviation_piece(&mut out, &sp.part_abbreviation, level, o);
    push_score_instruments(&mut out, &sp.score_instruments, level, o);
    push_midi_devices(&mut out, &sp.midi_devices, level, o);
    push_midi_instruments(&mut out, &sp.midi_instruments, level, o);
    push_str(&mut out, ")");
    out
}

/// Appends how a part's name is displayed, as `name_display_piece` states.
fn push_name_display_piece(out: &mut String, d: &Option<NameDisplay>, level: usize, o: &PrintOptions)
    requires
        level < usize::MAX - 191,
    ensures
        final(out)@ == old(out)@ + name_display_piece(*d, level as nat, *o),
{
    let ghost a = out@;
    match d {
        Some(d) => {
            push_line_break(out, o);
            let t = print_name_display(d, level + 1, o);
            push_str(out, t.as_str());
        },
        None => {},
    }
    assert(out@ =~= a + name_display_piece(*d, level as nat, *o));
}

/// Appends a part's abbreviation, as `abbreviation_piece` states.
fn push_abbreviation_piece(out: &mut String, ab: &Option<crate::ir::part::PartName>, level: usize, o: &PrintOptions)
    requires
        level < usize::MAX - 191,
    ensures
        final(out)@ == old(out)@ + abbreviation_piece(*ab, level as nat, *o),
{
    let ghost a = out@;
    match ab {
        Some(x) => {
            push_line_break(out, o);
            push_indent(out, level + 1, o);
            push_tagged(out, "part-abbreviation", x.value.as_str());
        },
        None => {},
    }
    assert(out@ =~= a + abbreviation_piece(*ab, level as nat, *o));
}

/// Appends the instruments of a part, each on lines of their own.
fn push_score_instruments(out: &mut String, v: &Vec<ScoreInstrument>, level: usize, o: &PrintOptions)
    requires
        level < usize::MAX - 191,
    ensures
        final(out)@ == old(out)@ + each(v@, score_instrument_item(level as nat, *o)),
{
    let ghost a = out@;
    let mut i: usize = 0;
    while i < v.len()
        invariant
            i <= v.len(),
            level < usize::MAX - 191,
            out@ == a + each(v@.take(i as int), score_instrument_item(level as nat, *o)),
        decreases v.len() - i,
    {
        push_line_break(out, o);
        let t = print_score_instrument(&v[i], level + 1, o);
        push_str(out, t.as_str());
        proof {
            lemma_each_step(v@, i as int, score_instrument_item(level as nat, *o));
        }
        assert(out@ =~= a + each(v@.take(i + 1), score_instrument_item(level as nat, *o)));
        i = i + 1;
    }
    assert(v@.take(v.len() as int) =~= v@);
}

/// Appends the MIDI devices of a part, each on a line of its own.
fn push_midi_devices(out: &mut String, v: &Vec<MidiDevice>, level: usize, o: &PrintOptions)
    requires
        level < usize::MAX - 191,
    ensures
        final(out)@ == old(out)@ + each(v@, midi_device_item(level as nat, *o)),
{
    let ghost a = out@;
    let mut i: usize = 0;
    while i < v.len()
        invariant
            i <= v.len(),
            level < usize::MAX - 191,
            out@ == a + each(v@.take(i as int), midi_device_item(level as nat, *o)),
        decreases v.len() - i,
    {
        push_line_break(out, o);
        push_indent(out, level + 1, o);
        push_midi_device(out, &v[i]);
        proof {
            lemma_each_step(v@, i as int, midi_device_item(level as nat, *o));
        }
        assert(out@ =~= a + each(v@.take(i + 1), midi_device_item(level as nat, *o)));
        i = i + 1;
    }
    assert(v@.take(v.len() as int) =~= v@);
}

/// Appends the MIDI instruments of a part, each on a line of its own.
fn push_midi_instruments(out: &mut String, v: &Vec<MidiInstrument>, level: usize, o: &PrintOptions)
    requires
        level < usize::MAX - 191,
    ensures
        final(out)@ == old(out)@ + each(v@, midi_instrument_item(level as nat, *o)),
{
    let ghost a = out@;
    let mut i: usize = 0;
    while i < v.len()
        invariant
            i <= v.len(),
            level < usize::MAX - 191,
            out@ == a + each(v@.take(i as int), midi_instrument_item(level as nat, *o)),
        decreases v.len() - i,
    {
        push_line_break(out, o);
        let t = print_midi_instrument(&v[i], level + 1, o);
        push_str(out, t.as_str());
        proof {
            lemma_each_step(v@, i as int, midi_instrument_item(level as nat, *o));
        }
        assert(out@ =~= a + each(v@.take(i + 1), midi_instrument_item(level as nat, *o)));
        i = i + 1;
    }
    assert(v@.take(v.len() as int) =~= v@);
}

/// Writes how a part's name is displayed, as `name_display_text` states.
fn print_name_display(d: &NameDisplay, level: usize, o: &PrintOptions) -> (r: String)
    ensures
        r@ == name_display_text(*d, level as nat, *o),
{
    let mut out = String::new();
    push_indent(&mut out, level, o);
    push_str(&mut out, "(part-name-display");
    match d.print_object {
        Some(p) => push_kv_sym(&mut out, "print-object", yes_no_hash_of(p)),
        None => {},
    }
    push_str(&mut out, ")");
    assert(out@ =~= name_display_text(*d, level as nat, *o));
    out
}

/// Writes an instrument, as `score_instrument_text` states.
fn print_score_instrument(si: &ScoreInstrument, level: usize, o: &PrintOptions) -> (r: String)
    requires
        level < usize::MAX - 190,
    ensures
        r@ == score_instrument_text(*si, level as nat, *o),
{
    let mut out = String::new();
    push_indent(&mut out, level, o);
    push_str(&mut out, "(score-instrument");
    push_kv_str(&mut out, "id", si.id.as_str());
    push_kv_str(&mut out, "instrument-name", si.instrument_name.as_str());
    push_kv_str_opt(&mut out, "instrument-abbreviation", &si.instrument_abbreviation);
    push_kv_str_opt(&mut out, "instrument-sound", &si.instrument_sound);
    match si.solo_or_ensemble {
        Some(SoloOrEnsemble::Solo) => push_str(&mut out, " :solo #t"),
        Some(SoloOrEnsemble::Ensemble(n)) => push_kv_nat(&mut out, "ensemble", n as u64),
        None => {},
    }
    match &si.virtual_instrument {
        Some(vi) => {
            push_line_break(&mut out, o);
            push_indent(&mut out, level + 1, o);
            let ghost before = out@;
            push_str(&mut out, "(virtual-instrument");
            push_kv_str_opt(&mut out, "virtual-library", &vi.virtual_library);
            push_kv_str_opt(&mut out, "virtual-name", &vi.virtual_name);
            push_str(&mut out, ")");
            assert(out@ =~= before + virtual_instrument_text(*vi));
        },
        None => {},
    }
    push_str(&mut out, ")");
    assert(out@ =~= score_instrument_text(*si, level as nat, *o));
    out
}

/// Appends a MIDI device, as `midi_device_text` states.
fn push_midi_device(out: &mut String, md: &MidiDevice)
    ensures
        final(out)@ == old(out)@ + midi_device_text(*md),
{
    let ghost start = out@;
    push_str(out, "(midi-device");
    push_kv_str_opt(out, "id", &md.id);
    match md.port {
        Some(p) => push_kv_nat(out, "port", p as u64),
        None => {},
    }
    push_str(out, ")");
    assert(out@ =~= start + midi_device_text(*md));
}

/// Writes a MIDI instrument, as `midi_instrument_text` states.
fn print_midi_instrument(mi: &MidiInstrument, level: usize, o: &PrintOptions) -> (r: String)
    ensures
        r@ == midi_instrument_text(*mi, level as nat, *o),
{
    let mut out = String::new();
    push_indent(&mut out, level, o);
    push_str(&mut out, "(midi-instrument");
    push_kv_str(&mut out, "id", mi.id.as_str());
    push_kv_nat_opt(&mut out, "midi-channel", match mi.midi_channel { Some(c) => Some(c as u64), None => None });
    push_kv_str_opt(&mut out, "midi-name", &mi.midi_name);
    push_kv_nat_opt(&mut out, "midi-bank", match mi.midi_bank { Some(c) => Some(c as u64), None => None });
    push_kv_nat_opt(&mut out, "midi-program", match mi.midi_program { Some(c) => Some(c as u64), None => None });
    push_kv_nat_opt(&mut out, "midi-unpitched", match mi.midi_unpitched { Some(c) => Some(c as u64), None => None });
    push_kv_dec_opt(&mut out, "volume", mi.volume);
    push_kv_dec_opt(&mut out, "pan", mi.pan);
    push_kv_dec_opt(&mut out, "elevation", mi.elevation);
    push_str(&mut out, ")");
    assert(out@ =~= midi_instrument_text(*mi, level as nat, *o));
    out
}

/// Writes the start or stop of a part group, as `part_group_text` states.
fn print_part_group(pg: &PartGroup, level: usize, o: &PrintOptions) -> (r: String)
    requires
        level < usize::MAX - 191,
    ensures
        r@ == part_group_text(*pg, level as nat, *o),
{
    let mut out = indent_string(level, o);
    push_str(&mut out, "(part-group");
    push_kv_sym(&mut out, "type", pg.type_.symbol());
    push_kv_str_opt(&mut out, "number", &pg.number);
    push_group_name(&mut out, "group-name", &pg.group_name);
    push_group_name(&mut out, "group-abbreviation", &pg.group_abbreviation);
    push_group_symbol_piece(&mut out, &pg.group_symbol, level, o);
    push_group_barline_piece(&mut out, &pg.group_barline, level, o);
    push_str(&mut out, ")");
    assert(out@ =~= part_group_text(*pg, level as nat, *o));
    out
}

/// Appends a group's symbol on a line of its own, where it has one.
fn push_group_symbol_piece(out: &mut String, g: &Option<crate::ir::part::GroupSymbol>, level: usize, o: &PrintOptions)
    requires
        level < usize::MAX - 1,
    ensures
        final(out)@ == old(out)@ + group_symbol_piece(*g, level as nat, *o),
{
    let ghost a = out@;
    match g {
        Some(gs) => {
            push_line_break(out, o);
            push_indent(out, level + 1, o);
            push_str(out, "(group-symbol ");
            push_str(out, gs.value.symbol());
            push_str(out, ")");
        },
        None => {},
    }
    assert(out@ =~= a + group_symbol_piece(*g, level as nat, *o));
}

/// Appends a group's barline on a line of its own, where it has one.
fn push_group_barline_piece(out: &mut String, g: &Option<crate::ir::part::GroupBarline>, level: usize, o: &PrintOptions)
    requires
        level < usize::MAX - 1,
    ensures
        final(out)@ == old(out)@ + group_barline_piece(*g, level as nat, *o),
{
    let ghost a = out@;
    match g {
        Some(gb) => {
            push_line_break(out, o);
            push_indent(out, level + 1, o);
            push_str(out, "(group-barline ");
            push_str(out, gb.value.symbol());
            push_str(out, ")");
        },
        None => {},
    }
    assert(out@ =~= a + group_barline_piece(*g, level as nat, *o));
}

/// Appends ` :key "name"` for a group's name, where it has one.
fn push_group_name(out: &mut String, key: &str, n: &Option<crate::ir::part::GroupName>)
    ensures
        final(out)@ == old(out)@ + group_name_piece(key@, *n),
{
    match n {
        Some(g) => push_kv_str(out, key, g.value.as_str()),
        None => {
            assert(old(out)@ + group_name_piece(key@, *n) =~= old(out)@);
        },
    }
}

/// Writes a part, as `part_text` states.
fn print_part(p: &Part, level: usize, o: &PrintOptions) -> (r: String)
    requires
        level < usize::MAX - 193,
    ensures
        r@ == part_text(*p, level as nat, *o),
{
    let mut out = String::new();
    push_indent(&mut out, level, o);
    push_str(&mut out, "(part");
    push_kv_str(&mut out, "id", p.id.as_str());
    let ghost start = out@;
    let mut i: usize = 0;
    while i < p.measures.len()
        invariant
            i <= p.measures.len(),
            level < usize::MAX - 193,
            out@ == start + each(p.measures@.take(i as int), measure_item((level + 1) as nat, *o)),
        decreases p.measures.len() - i,
    {
        push_line_break(&mut out, o);
        let t = print_measure(&p.measures[i], level + 1, o);
        push_str(&mut out, t.as_str());
        proof {
            lemma_each_step(p.measures@, i as int, measure_item((level + 1) as nat, *o));
        }
        assert(out@ =~= start + each(p.measures@.take(i + 1), measure_item((level + 1) as nat, *o)));
        i = i + 1;
    }
    assert(p.measures@.take(p.measures.len() as int) =~= p.measures@);
    push_str(&mut out, ")");
    assert(out@ =~= part_text(*p, level as nat, *o));
    out
}

/// Writes a measure, as `measure_text` states.
fn print_measure(m: &Measure, level: usize, o: &PrintOptions) -> (r: String)
    requires
        level < usize::MAX - 192,
    ensures
        r@ == measure_text(*m, level as nat, *o),
{
    let mut out = String::new();
    push_indent(&mut out, level, o);
    push_str(&mut out, "(measure");
    push_kv_str(&mut out, "number", m.number.as_str());
    push_kv_dec_opt(&mut out, "width", m.width);
    match m.implicit {
        Some(YesNo::Yes) => push_str(&mut out, " :implicit #t"),
        _ => {},
    }
    let ghost start = out@;
    let mut i: usize = 0;
    while i < m.content.len()
        invariant
            i <= m.content.len(),
            level < usize::MAX - 192,
            out@ == start + each(m.content@.take(i as int), element_item((level + 1) as nat, *o)),
        decreases m.content.len() - i,
    {
        push_line_break(&mut out, o);
        let t = print_element(&m.content[i], level + 1, o);
        push_str(&mut out, t.as_str());
        proof {
            lemma_each_step(m.content@, i as int, element_item((level + 1) as nat, *o));
        }
        assert(out@ =~= start + each(m.content@.take(i + 1), element_item((level + 1) as nat, *o)));
        i = i + 1;
    }
    assert(m.content@.take(m.content.len() as int) =~= m.content@);
    push_str(&mut out, ")");
    assert(out@ =~= measure_text(*m, level as nat, *o));
    out
}

/// Writes an element of a measure, as `element_text` states.
fn print_element(e: &MusicDataElement, level: usize, o: &PrintOptions) -> (r: String)
    requires
        level < usize::MAX - 191,
    ensures
        r@ == element_text(*e, level as nat, *o),
{
    match e {
        MusicDataElement::Note(n) => print_note(n, level, o),
        MusicDataElement::Backup(b) => print_backup(b, level, o),
        MusicDataElement::Forward(f) => print_forward(f, level, o),
        MusicDataElement::Direction(d) => print_direction(d, level, o),
        MusicDataElement::Attributes(a) => print_attributes(a, level, o),
        MusicDataElement::Barline(b) => print_barline(b, level, o),
    }
}

/// Writes a backup, as `backup_text` states.
fn print_backup(b: &Backup, level: usize, o: &PrintOptions) -> (r: String)
    ensures
        r@ == backup_text(*b, level as nat, *o),
{
    let mut out = String::new();
    push_indent(&mut out, level, o);
    push_str(&mut out, "(backup");
    push_kv_nat(&mut out, "duration", b.duration);
    push_str(&mut out, ")");
    assert(out@ =~= backup_text(*b, level as nat, *o));
    out
}

/// Writes a forward, as `forward_text` states.
fn print_forward(f: &Forward, level: usize, o: &PrintOptions) -> (r: String)
    ensures
        r@ == forward_text(*f, level as nat, *o),
{
    let mut out = String::new();
    push_indent(&mut out, level, o);
    push_str(&mut out, "(forward");
    push_kv_nat(&mut out, "duration", f.duration);
    push_kv_str_opt(&mut out, "voice", &f.voice);
    push_kv_nat_opt(&mut out, "staff", match f.staff { Some(s) => Some(s as u64), None => None });
    push_str(&mut out, ")");
    assert(out@ =~= forward_text(*f, level as nat, *o));
    out
}


// === Writing notes ===

/// Appends ` :display-step S :display-octave O`, as `display_text` states.
fn push_display(out: &mut String, step: Option<crate::ir::pitch::Step>, octave: Option<u8>)
    ensures
        final(out)@ == old(out)@ + display_text(step, octave),
{
    let ghost start = out@;
    match step {
        Some(st) => push_kv_sym(out, "display-step", st.symbol()),
        None => {},
    }
    push_kv_nat_opt(out, "display-octave", match octave { Some(x) => Some(x as u64), None => None });
    assert(out@ =~= start + display_text(step, octave));
}

/// Appends what a note sounds, as `sound_text` states.
fn push_sound(out: &mut String, c: &PitchRestUnpitched)
    ensures
        final(out)@ == old(out)@ + sound_text(*c),
{
    let ghost start = out@;
    match c {
        PitchRestUnpitched::Pitch(p) => {
            push_str(out, " :");
            push_str(out, "pitch");
            push_char(out, ' ');
            push_str(out, "(pitch");
            push_kv_sym(out, "step", p.step.symbol());
            match p.alter {
                Some(a) => {
                    if a.mantissa != 0 {
                        push_kv_dec(out, "alter", a);
                    }
                },
                None => {},
            }
            push_kv_nat(out, "octave", p.octave as u64);
            push_str(out, ")");
        },
        PitchRestUnpitched::Unpitched(u) => {
            push_str(out, " :");
            push_str(out, "unpitched");
            push_char(out, ' ');
            push_str(out, "(unpitched");
            push_display(out, u.display_step, u.display_octave);
            push_str(out, ")");
        },
        PitchRestUnpitched::Rest(r) => {
            push_str(out, " :");
            push_str(out, "rest");
            push_char(out, ' ');
            push_str(out, "(rest");
            push_display(out, r.display_step, r.display_octave);
            match r.measure {
                Some(YesNo::Yes) => push_str(out, " :measure #t"),
                _ => {},
            }
            push_str(out, ")");
        },
    }
    assert(out@ =~= start + sound_text(*c));
}

/// Appends ` :tie T` for each tie.
fn push_ties(out: &mut String, ties: &Vec<Tie>)
    ensures
        final(out)@ == old(out)@ + each(ties@, tie_item()),
{
    let ghost start = out@;
    let mut i: usize = 0;
    while i < ties.len()
        invariant
            i <= ties.len(),
            out@ == start + each(ties@.take(i as int), tie_item()),
        decreases ties.len() - i,
    {
        push_kv_sym(out, "tie", ties[i].type_.symbol());
        proof {
            lemma_each_step(ties@, i as int, tie_item());
        }
        assert(out@ =~= start + each(ties@.take(i + 1), tie_item()));
        i = i + 1;
    }
    assert(ties@.take(ties.len() as int) =~= ties@);
}

/// Appends the keyword arguments of what a note is, as `content_text`
/// states.
#[verifier::rlimit(50)]
fn push_content(out: &mut String, c: &NoteContent)
    ensures
        final(out)@ == old(out)@ + content_text(*c),
{
    let ghost start = out@;
    match c {
        NoteContent::Regular { full_note, duration, ties } => {
            if full_note.chord {
                push_str(out, " :chord #t");
            }
            push_sound(out, &full_note.content);
            push_kv_nat(out, "duration", *duration);
            push_ties(out, ties);
        },
        NoteContent::Grace { grace, full_note, ties } => {
            push_str(out, " :grace #t");
            match grace.slash {
                Some(YesNo::Yes) => push_str(out, " :slash #t"),
                _ => {},
            }
            push_kv_dec_opt(out, "steal-time-previous", grace.steal_time_previous);
            push_kv_dec_opt(out, "steal-time-following", grace.steal_time_following);
            match grace.make_time {
                Some(t) => {
                    let d = i64_chars(t as i64);
                    push_kv(out, "make-time", &d);
                },
                None => {},
            }
            if full_note.chord {
                push_str(out, " :chord #t");
            }
            push_sound(out, &full_note.content);
            push_ties(out, ties);
        },
        NoteContent::Cue { full_note, duration } => {
            push_str(out, " :cue #t");
            if full_note.chord {
                push_str(out, " :chord #t");
            }
            push_sound(out, &full_note.content);
            push_kv_nat(out, "duration", *duration);
        },
    }
    assert(out@ =~= start + content_text(*c));
}

/// Appends ` :key #t` when the value is yes.
fn push_yes_flag(out: &mut String, key: &str, v: Option<YesNo>)
    ensures
        final(out)@ == old(out)@ + yes_flag(key@, v),
{
    match v {
        Some(YesNo::Yes) => push_kv_sym(out, key, "#t"),
        _ => {
            assert(old(out)@ + yes_flag(key@, v) =~= old(out)@);
        },
    }
}

/// Appends the keyword arguments of an accidental, as `accidental_text`
/// states.
fn push_accidental(out: &mut String, a: &Accidental)
    ensures
        final(out)@ == old(out)@ + accidental_text(*a),
{
    let ghost start = out@;
    push_kv_sym(out, "accidental", a.value.symbol());
    push_yes_flag(out, "cautionary", a.cautionary);
    push_yes_flag(out, "editorial", a.editorial);
    push_yes_flag(out, "parentheses", a.parentheses);
    push_yes_flag(out, "bracket", a.bracket);
    assert(out@ =~= start + accidental_text(*a));
}

/// Appends the keyword argument of a tuplet ratio, as
/// `time_modification_text` states.
fn push_time_modification(out: &mut String, tm: &TimeModification)
    ensures
        final(out)@ == old(out)@ + time_modification_text(*tm),
{
    let ghost start = out@;
    push_str(out, " :");
    push_str(out, "time-modification");
    push_char(out, ' ');
    push_str(out, "(time-modification");
    push_kv_nat(out, "actual-notes", tm.actual_notes as u64);
    push_kv_nat(out, "normal-notes", tm.normal_notes as u64);
    match tm.normal_type {
        Some(t) => push_kv_sym(out, "normal-type", t.symbol()),
        None => {},
    }
    if tm.normal_dots > 0 {
        push_kv_nat(out, "normal-dots", tm.normal_dots as u64);
    }
    push_str(out, ")");
    assert(out@ =~= start + time_modification_text(*tm));
}

/// Appends the keyword arguments of a notehead, as `notehead_text` states.
fn push_notehead(out: &mut String, h: &Notehead)
    ensures
        final(out)@ == old(out)@ + notehead_text(*h),
{
    let ghost start = out@;
    push_kv_sym(out, "notehead", h.value.symbol());
    match h.filled {
        Some(f) => push_kv_sym(out, "filled", yes_no_hash_of(f)),
        None => {},
    }
    match h.parentheses {
        Some(p) => push_kv_sym(out, "parentheses", yes_no_hash_of(p)),
        None => {},
    }
    assert(out@ =~= start + notehead_text(*h));
}

/// Appends the keyword arguments of the beams, as `beam_item` states.
fn push_beams(out: &mut String, beams: &Vec<Beam>)
    ensures
        final(out)@ == old(out)@ + each(beams@, beam_item()),
{
    let ghost start = out@;
    let mut i: usize = 0;
    while i < beams.len()
        invariant
            i <= beams.len(),
            out@ == start + each(beams@.take(i as int), beam_item()),
        decreases beams.len() - i,
    {
        let ghost before = out@;
        let b = &beams[i];
        push_str(out, " :");
        push_str(out, "beam");
        push_char(out, ' ');
        push_str(out, "(beam");
        push_kv_nat(out, "number", b.number as u64);
        push_kv_sym(out, "value", b.value.symbol());
        push_str(out, ")");
        match b.fan {
            Some(f) => push_kv_sym(out, "fan", f.symbol()),
            None => {},
        }
        assert(out@ =~= before + (beam_item())(*b));
        proof {
            lemma_each_step(beams@, i as int, beam_item());
        }
        assert(out@ =~= start + each(beams@.take(i + 1), beam_item()));
        i = i + 1;
    }
    assert(beams@.take(beams.len() as int) =~= beams@);
}

/// Writes a note, as `note_text` states.
fn print_note(n: &Note, level: usize, o: &PrintOptions) -> (r: String)
    requires
        level < usize::MAX - 191,
    ensures
        r@ == note_text(*n, level as nat, *o),
{
    let mut out = indent_string(level, o);
    push_str(&mut out, "(note");
    push_content(&mut out, &n.content);
    push_type_piece(&mut out, &n.type_);
    push_dots_piece(&mut out, n.dots.len());
    push_accidental_piece(&mut out, &n.accidental);
    push_time_modification_piece(&mut out, &n.time_modification);
    push_stem_piece(&mut out, &n.stem);
    push_notehead_piece(&mut out, &n.notehead);
    push_kv_nat_opt(&mut out, "staff", match n.staff { Some(s) => Some(s as u64), None => None });
    push_beams(&mut out, &n.beams);
    push_notations_groups(&mut out, &n.notations, level + 1, o);
    push_lyrics(&mut out, &n.lyrics, level, o);
    push_kv_str_opt(&mut out, "voice", &n.voice);
    push_str(&mut out, ")");
    out
}

/// Appends the type of a note, as `type_piece` states.
fn push_type_piece(out: &mut String, t: &Option<crate::ir::duration::NoteType>)
    ensures
        final(out)@ == old(out)@ + type_piece(*t),
{
    let ghost a = out@;
    match t {
        Some(t) => {
            push_kv_sym(out, "type", t.value.symbol());
            match t.size {
                Some(sz) => push_kv_sym(out, "size", sz.symbol()),
                None => {},
            }
        },
        None => {},
    }
    assert(out@ =~= a + type_piece(*t));
}

/// Appends the number of dots of a note, as `dots_piece` states.
fn push_dots_piece(out: &mut String, n: usize)
    ensures
        final(out)@ == old(out)@ + dots_piece(n as nat),
{
    let ghost a = out@;
    if n > 0 {
        push_kv_nat(out, "dots", n as u64);
    }
    assert(out@ =~= a + dots_piece(n as nat));
}

/// Appends the accidental of a note, as `accidental_piece` states.
fn push_accidental_piece(out: &mut String, x: &Option<Accidental>)
    ensures
        final(out)@ == old(out)@ + accidental_piece(*x),
{
    let ghost a = out@;
    match x {
        Some(x) => push_accidental(out, x),
        None => {},
    }
    assert(out@ =~= a + accidental_piece(*x));
}

/// Appends the tuplet ratio of a note, as `time_modification_piece` states.
fn push_time_modification_piece(out: &mut String, x: &Option<TimeModification>)
    ensures
        final(out)@ == old(out)@ + time_modification_piece(*x),
{
    let ghost a = out@;
    match x {
        Some(tm) => push_time_modification(out, tm),
        None => {},
    }
    assert(out@ =~= a + time_modification_piece(*x));
}

/// Appends the stem of a note, as `stem_piece` states.
fn push_stem_piece(out: &mut String, x: &Option<Stem>)
    ensures
        final(out)@ == old(out)@ + stem_piece(*x),
{
    let ghost a = out@;
    match x {
        Some(st) => {
            push_kv_sym(out, "stem", st.value.symbol());
            push_kv_dec_opt(out, "default-y", st.default_y);
        },
        None => {},
    }
    assert(out@ =~= a + stem_piece(*x));
}

/// Appends the notehead of a note, as `notehead_piece` states.
fn push_notehead_piece(out: &mut String, x: &Option<Notehead>)
    ensures
        final(out)@ == old(out)@ + notehead_piece(*x),
{
    let ghost a = out@;
    match x {
        Some(h) => push_notehead(out, h),
        None => {},
    }
    assert(out@ =~= a + notehead_piece(*x));
}

/// Appends the lyrics of a note, each on lines of their own.
fn push_lyrics(out: &mut String, lyrics: &Vec<Lyric>, level: usize, o: &PrintOptions)
    requires
        level < usize::MAX - 191,
    ensures
        final(out)@ == old(out)@ + each(lyrics@, lyric_item((level + 1) as nat, *o)),
{
    let ghost start = out@;
    let mut i: usize = 0;
    while i < lyrics.len()
        invariant
            i <= lyrics.len(),
            level < usize::MAX - 191,
            out@ == start + each(lyrics@.take(i as int), lyric_item((level + 1) as nat, *o)),
        decreases lyrics.len() - i,
    {
        push_line_break(out, o);
        let t = print_lyric(&lyrics[i], level + 1, o);
        push_str(out, t.as_str());
        proof {
            lemma_each_step(lyrics@, i as int, lyric_item((level + 1) as nat, *o));
        }
        assert(out@ =~= start + each(lyrics@.take(i + 1), lyric_item((level + 1) as nat, *o)));
        i = i + 1;
    }
    assert(lyrics@.take(lyrics.len() as int) =~= lyrics@);
}

// === Writing lyrics ===

/// The symbol of a syllable's place, as `syllabic_name` states.
fn syllabic_symbol(s: Syllabic) -> (r: &'static str)
    ensures
        r@ == syllabic_name(s),
{
    match s {
        Syllabic::Single => "single",
        Syllabic::Begin => "begin",
        Syllabic::End => "end",
        Syllabic::Middle => "middle",
    }
}

/// The symbol of a justification, as `left_center_right_name` states.
fn left_center_right_symbol(j: LeftCenterRight) -> (r: &'static str)
    ensures
        r@ == left_center_right_name(j),
{
    match j {
        LeftCenterRight::Left => "left",
        LeftCenterRight::Center => "center",
        LeftCenterRight::Right => "right",
    }
}

/// Appends ` :syllabic S` where there is one.
fn push_syllabic(out: &mut String, s: Option<Syllabic>)
    ensures
        final(out)@ == old(out)@ + syllabic_text(s),
{
    match s {
        Some(x) => push_kv_sym(out, "syllabic", syllabic_symbol(x)),
        None => {
            assert(old(out)@ + syllabic_text(s) =~= old(out)@);
        },
    }
}

/// Appends an extending line, as `extend_text` states.
fn push_extend(out: &mut String, e: &Extend)
    ensures
        final(out)@ == old(out)@ + extend_text(*e),
{
    let ghost start = out@;
    push_str(out, "(extend");
    match e.type_ {
        Some(t) => push_kv_sym(out, "type", t.symbol()),
        None => {},
    }
    push_str(out, ")");
    assert(out@ =~= start + extend_text(*e));
}

/// Writes a lyric, as `lyric_text` states.
fn print_lyric(l: &Lyric, level: usize, o: &PrintOptions) -> (r: String)
    requires
        level < usize::MAX - 190,
    ensures
        r@ == lyric_text(*l, level as nat, *o),
{
    let mut out = indent_string(level, o);
    push_str(&mut out, "(lyric");
    push_kv_str_opt(&mut out, "number", &l.number);
    push_kv_str_opt(&mut out, "name", &l.name);
    let ghost a = out@;
    match l.justify {
        Some(j) => push_kv_sym(&mut out, "justify", left_center_right_symbol(j)),
        None => {},
    }
    assert(out@ =~= a + justify_piece(l.justify));
    let ghost a = out@;
    match l.placement {
        Some(p) => push_kv_sym(&mut out, "placement", p.symbol()),
        None => {},
    }
    assert(out@ =~= a + placement_piece(l.placement));
    push_lyric_content(&mut out, &l.content, level, o);
    let ghost a = out@;
    if l.end_line {
        push_str(&mut out, " :end-line #t");
    }
    assert(out@ =~= a + flag_piece(l.end_line, " :end-line #t"@));
    let ghost a = out@;
    if l.end_paragraph {
        push_str(&mut out, " :end-paragraph #t");
    }
    assert(out@ =~= a + flag_piece(l.end_paragraph, " :end-paragraph #t"@));
    push_str(&mut out, ")");
    out
}

/// Appends what a lyric holds, as `lyric_content_text` states.
#[verifier::rlimit(40)]
fn push_lyric_content(out: &mut String, c: &LyricContent, level: usize, o: &PrintOptions)
    requires
        level < usize::MAX - 190,
    ensures
        final(out)@ == old(out)@ + lyric_content_text(*c, level as nat, *o),
{
    let ghost begin = out@;
    match c {
        LyricContent::Syllable { syllabic, text, extensions, extend } => {
            push_syllabic(out, *syllabic);
            push_kv_str(out, "text", text.value.as_str());
            let ghost start = out@;
            let mut i: usize = 0;
            while i < extensions.len()
                invariant
                    i <= extensions.len(),
                    level < usize::MAX - 190,
                    out@ == start + each(extensions@.take(i as int), extension_item((level + 1) as nat, *o)),
                decreases extensions.len() - i,
            {
                push_line_break(out, o);
                let ghost b = out@;
                let x = &extensions[i];
                push_indent(out, level + 1, o);
                push_str(out, "(lyric-extension");
                push_kv_str(out, "elision", x.elision.value.as_str());
                push_syllabic(out, x.syllabic);
                push_kv_str(out, "text", x.text.value.as_str());
                push_str(out, ")");
                assert(out@ =~= b + extension_text(*x, (level + 1) as nat, *o));
                proof {
                    lemma_each_step(extensions@, i as int, extension_item((level + 1) as nat, *o));
                }
                assert(out@ =~= start + each(extensions@.take(i + 1), extension_item((level + 1) as nat, *o)));
                i = i + 1;
            }
            assert(extensions@.take(extensions.len() as int) =~= extensions@);
            let ghost mid = out@;
            match extend {
                Some(e) => {
                    push_char(out, ' ');
                    push_extend(out, e);
                },
                None => {},
            }
            assert(out@ =~= mid + match extend {
                Some(e) => seq![' '] + extend_text(*e),
                None => Seq::<char>::empty(),
            });
        },
        LyricContent::ExtendOnly(e) => {
            push_char(out, ' ');
            push_extend(out, e);
        },
        LyricContent::Laughing => push_str(out, " :laughing #t"),
        LyricContent::Humming => push_str(out, " :humming #t"),
    }
    assert(out@ =~= begin + lyric_content_text(*c, level as nat, *o));
}

} // verus!
