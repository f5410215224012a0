//! Conversions of the score as a whole, its parts and its measures to
//! S-expressions.

use vstd::prelude::*;
use crate::ir::measure::{Measure, MusicDataElement};
use crate::ir::part::{
    GroupBarline, GroupBarlineValue, GroupName, GroupSymbol, GroupSymbolValue, MidiDevice,
    MidiInstrument, NameDisplay, NameDisplayContent, Part, PartGroup, PartList, PartListElement,
    PartName, ScoreInstrument, ScorePart, SoloOrEnsemble, VirtualInstrument,
};
use crate::ir::score::{Credit, CreditContent, CreditWords, ScorePartwise, Work};
use crate::sexpr::ast::{ListBuilder, Sexpr, SexprV, kw_pair, kw_opt, opt_arg};
use crate::sexpr::traits::{ToSexpr, to_sexpr_seq};

verus! {

// === ScorePartwise ===

/// The title and number of a work, as keyword arguments of a score.
pub open spec fn work_items(work: Option<Work>) -> Seq<SexprV> {
    match work {
        Some(w) => kw_opt("work-title"@, w.work_title) + kw_opt("work-number"@, w.work_number),
        None => Seq::empty(),
    }
}

impl ToSexpr for ScorePartwise {
    /// `(score-partwise ...)`: the work's title and number, the movement's title and
    /// number, then the credits, the part list where it is not empty, and the
    /// parts.
    open spec fn to_sexpr_spec(&self) -> SexprV {
        SexprV::List(
            seq![SexprV::Symbol("score-partwise"@)] + work_items(self.work) + kw_opt(
                "movement-title"@,
                self.movement_title,
            ) + kw_opt("movement-number"@, self.movement_number) + to_sexpr_seq(self.credits@) + (
            if self.part_list.content@.len() > 0 {
                seq![self.part_list.to_sexpr_spec()]
            } else {
                Seq::empty()
            }) + to_sexpr_seq(self.parts@),
        )
    }

    fn to_sexpr(&self) -> (r: Sexpr) {
        let mut b = ListBuilder::new("score-partwise");
        let ghost b0 = b@;
        match &self.work {
            Some(w) => {
                b = b.kwarg_opt("work-title", &w.work_title).kwarg_opt("work-number", &w.work_number);
            },
            None => {},
        }
        assert(b@ =~= b0 + work_items(self.work));
        let ghost b1 = b@;
        b = b.kwarg_opt("movement-title", &self.movement_title).kwarg_opt(
            "movement-number",
            &self.movement_number,
        ).args(&self.credits);
        let ghost b2 = b@;
        if self.part_list.content.len() > 0 {
            b = b.arg(self.part_list.to_sexpr());
        }
        let ghost pl = if self.part_list.content@.len() > 0 {
            seq![self.part_list.to_sexpr_spec()]
        } else {
            Seq::<SexprV>::empty()
        };
        assert(b@ =~= b2 + pl);
        b = b.args(&self.parts);
        assert(b@ =~= seq![SexprV::Symbol("score-partwise"@)] + work_items(self.work) + kw_opt(
            "movement-title"@,
            self.movement_title,
        ) + kw_opt("movement-number"@, self.movement_number) + to_sexpr_seq(self.credits@) + pl
            + to_sexpr_seq(self.parts@));
        b.build()
    }
}

// === Work ===

impl ToSexpr for Work {
    /// `(work [:work-number N] [:work-title T])`.
    open spec fn to_sexpr_spec(&self) -> SexprV {
        SexprV::List(
            seq![SexprV::Symbol("work"@)] + kw_opt("work-number"@, self.work_number) + kw_opt(
                "work-title"@,
                self.work_title,
            ),
        )
    }

    fn to_sexpr(&self) -> (r: Sexpr) {
        ListBuilder::new("work").kwarg_opt("work-number", &self.work_number).kwarg_opt(
            "work-title",
            &self.work_title,
        ).build()
    }
}

// === Credit ===

/// The items that the contents of a credit add: a type as `:type`, words as
/// a positional argument; an image adds nothing.
pub open spec fn credit_items(content: Seq<CreditContent>) -> Seq<SexprV>
    decreases content.len(),
{
    if content.len() == 0 {
        Seq::empty()
    } else {
        let last = content[content.len() - 1];
        credit_items(content.drop_last()) + match last {
            CreditContent::CreditType(t) => kw_pair("type"@, t.to_sexpr_spec()),
            CreditContent::CreditWords(w) => seq![w.to_sexpr_spec()],
            CreditContent::CreditImage(_) => Seq::empty(),
        }
    }
}

impl ToSexpr for Credit {
    /// `(credit [:page P] ...)` with the items of its contents.
    open spec fn to_sexpr_spec(&self) -> SexprV {
        SexprV::List(
            seq![SexprV::Symbol("credit"@)] + kw_opt("page"@, self.page) + credit_items(
                self.content@,
            ),
        )
    }

    fn to_sexpr(&self) -> (r: Sexpr) {
        let mut b = ListBuilder::new("credit").kwarg_opt("page", &self.page);
        let ghost start = b@;
        let mut i: usize = 0;
        while i < self.content.len()
            invariant
                i <= self.content.len(),
                b@ == start + credit_items(self.content@.take(i as int)),
            decreases self.content.len() - i,
        {
            let ghost before = b@;
            match &self.content[i] {
                CreditContent::CreditType(t) => {
                    b = b.kwarg("type", t);
                },
                CreditContent::CreditWords(w) => {
                    b = b.arg(w.to_sexpr());
                },
                CreditContent::CreditImage(_) => {},
            }
            proof {
                let t = self.content@.take(i + 1);
                assert(t.drop_last() == self.content@.take(i as int));
                assert(t[t.len() - 1] == self.content@[i as int]);
                assert(b@ =~= start + credit_items(t));
            }
            i = i + 1;
        }
        assert(self.content@.take(self.content.len() as int) == self.content@);
        b.build()
    }
}

impl ToSexpr for CreditWords {
    /// `(credit-words :value T)`.
    open spec fn to_sexpr_spec(&self) -> SexprV {
        SexprV::List(seq![SexprV::Symbol("credit-words"@)] + kw_pair("value"@, self.value.to_sexpr_spec()))
    }

    fn to_sexpr(&self) -> (r: Sexpr) {
        ListBuilder::new("credit-words").kwarg("value", &self.value).build()
    }
}

// === Part list ===

impl ToSexpr for PartList {
    /// `(part-list ...)` with its entries.
    open spec fn to_sexpr_spec(&self) -> SexprV {
        SexprV::List(seq![SexprV::Symbol("part-list"@)] + to_sexpr_seq(self.content@))
    }

    fn to_sexpr(&self) -> (r: Sexpr) {
        ListBuilder::new("part-list").args(&self.content).build()
    }
}

impl ToSexpr for PartListElement {
    /// The part or the part group.
    open spec fn to_sexpr_spec(&self) -> SexprV {
        match self {
            PartListElement::ScorePart(sp) => sp.to_sexpr_spec(),
            PartListElement::PartGroup(pg) => pg.to_sexpr_spec(),
        }
    }

    fn to_sexpr(&self) -> (r: Sexpr) {
        match self {
            PartListElement::ScorePart(sp) => sp.to_sexpr(),
            PartListElement::PartGroup(pg) => pg.to_sexpr(),
        }
    }
}

/// The abbreviation of a part as a keyword argument, where it has one.
pub open spec fn abbreviation_items(a: Option<PartName>) -> Seq<SexprV> {
    match a {
        Some(n) => kw_pair("part-abbreviation"@, n.value.to_sexpr_spec()),
        None => Seq::empty(),
    }
}

impl ToSexpr for ScorePart {
    /// `(score-part :id I :part-name N [:part-abbreviation A] ...)` with its instruments
    /// and then its MIDI instruments.
    open spec fn to_sexpr_spec(&self) -> SexprV {
        SexprV::List(
            seq![SexprV::Symbol("score-part"@)] + kw_pair("id"@, self.id.to_sexpr_spec()) + kw_pair(
                "part-name"@,
                self.part_name.value.to_sexpr_spec(),
            ) + abbreviation_items(self.part_abbreviation) + to_sexpr_seq(self.score_instruments@)
                + to_sexpr_seq(self.midi_instruments@),
        )
    }

    fn to_sexpr(&self) -> (r: Sexpr) {
        let mut b = ListBuilder::new("score-part").kwarg("id", &self.id).kwarg(
            "part-name",
            &self.part_name.value,
        );
        match &self.part_abbreviation {
            Some(a) => {
                b = b.kwarg("part-abbreviation", &a.value);
            },
            None => {
                assert(b@ + abbreviation_items(self.part_abbreviation) =~= b@);
            },
        }
        b.args(&self.score_instruments).args(&self.midi_instruments).build()
    }
}

impl ToSexpr for PartName {
    /// `(part-name :value V)`.
    open spec fn to_sexpr_spec(&self) -> SexprV {
        SexprV::List(seq![SexprV::Symbol("part-name"@)] + kw_pair("value"@, self.value.to_sexpr_spec()))
    }

    fn to_sexpr(&self) -> (r: Sexpr) {
        ListBuilder::new("part-name").kwarg("value", &self.value).build()
    }
}

impl ToSexpr for NameDisplay {
    /// `(name-display ...)` with its pieces.
    open spec fn to_sexpr_spec(&self) -> SexprV {
        SexprV::List(seq![SexprV::Symbol("name-display"@)] + to_sexpr_seq(self.content@))
    }

    fn to_sexpr(&self) -> (r: Sexpr) {
        ListBuilder::new("name-display").args(&self.content).build()
    }
}

impl ToSexpr for NameDisplayContent {
    /// `(display-text :value T)` or `(accidental-text :value V)`.
    open spec fn to_sexpr_spec(&self) -> SexprV {
        match self {
            NameDisplayContent::DisplayText(ft) => SexprV::List(
                seq![SexprV::Symbol("display-text"@)] + kw_pair("value"@, ft.value.to_sexpr_spec()),
            ),
            NameDisplayContent::AccidentalText(at) => SexprV::List(
                seq![SexprV::Symbol("accidental-text"@)] + kw_pair("value"@, at.value.to_sexpr_spec()),
            ),
        }
    }

    fn to_sexpr(&self) -> (r: Sexpr) {
        match self {
            NameDisplayContent::DisplayText(ft) => ListBuilder::new("display-text").kwarg(
                "value",
                &ft.value,
            ).build(),
            NameDisplayContent::AccidentalText(at) => ListBuilder::new("accidental-text").kwarg(
                "value",
                &at.value,
            ).build(),
        }
    }
}

impl ToSexpr for ScoreInstrument {
    /// `(score-instrument :id I :instrument-name N [:instrument-abbreviation A]
    /// [:instrument-sound S] ...)`,
    /// then whether it is a solo or an ensemble, then its virtual instrument.
    open spec fn to_sexpr_spec(&self) -> SexprV {
        SexprV::List(
            seq![SexprV::Symbol("score-instrument"@)] + kw_pair("id"@, self.id.to_sexpr_spec())
                + kw_pair("instrument-name"@, self.instrument_name.to_sexpr_spec()) + kw_opt(
                "instrument-abbreviation"@,
                self.instrument_abbreviation,
            ) + kw_opt("instrument-sound"@, self.instrument_sound) + opt_arg(self.solo_or_ensemble) + opt_arg(
                self.virtual_instrument,
            ),
        )
    }

    fn to_sexpr(&self) -> (r: Sexpr) {
        ListBuilder::new("score-instrument").kwarg("id", &self.id).kwarg(
            "instrument-name",
            &self.instrument_name,
        ).kwarg_opt("instrument-abbreviation", &self.instrument_abbreviation).kwarg_opt(
            "instrument-sound",
            &self.instrument_sound,
        ).arg_opt(&self.solo_or_ensemble).arg_opt(&self.virtual_instrument).build()
    }
}

impl ToSexpr for SoloOrEnsemble {
    /// The keyword `:solo`, or `(ensemble :size N)`.
    open spec fn to_sexpr_spec(&self) -> SexprV {
        match self {
            SoloOrEnsemble::Solo => SexprV::Keyword("solo"@),
            SoloOrEnsemble::Ensemble(size) => SexprV::List(
                seq![SexprV::Symbol("ensemble"@)] + kw_pair("size"@, size.to_sexpr_spec()),
            ),
        }
    }

    fn to_sexpr(&self) -> (r: Sexpr) {
        match self {
            SoloOrEnsemble::Solo => Sexpr::keyword("solo"),
            SoloOrEnsemble::Ensemble(size) => ListBuilder::new("ensemble").kwarg("size", size).build(),
        }
    }
}

impl ToSexpr for VirtualInstrument {
    /// `(virtual-instrument [:virtual-library L] [:virtual-name N])`.
    open spec fn to_sexpr_spec(&self) -> SexprV {
        SexprV::List(
            seq![SexprV::Symbol("virtual-instrument"@)] + kw_opt("virtual-library"@, self.virtual_library)
                + kw_opt("virtual-name"@, self.virtual_name),
        )
    }

    fn to_sexpr(&self) -> (r: Sexpr) {
        ListBuilder::new("virtual-instrument").kwarg_opt("virtual-library", &self.virtual_library).kwarg_opt(
            "virtual-name",
            &self.virtual_name,
        ).build()
    }
}

impl ToSexpr for MidiDevice {
    /// `(midi-device :value N [:port P] [:id I])`.
    open spec fn to_sexpr_spec(&self) -> SexprV {
        SexprV::List(
            seq![SexprV::Symbol("midi-device"@)] + kw_pair("value"@, self.value.to_sexpr_spec())
                + kw_opt("port"@, self.port) + kw_opt("id"@, self.id),
        )
    }

    fn to_sexpr(&self) -> (r: Sexpr) {
        ListBuilder::new("midi-device").kwarg("value", &self.value).kwarg_opt("port", &self.port).kwarg_opt(
            "id",
            &self.id,
        ).build()
    }
}

impl ToSexpr for MidiInstrument {
    /// `(midi-instrument :id I ...)` with the settings that it has.
    open spec fn to_sexpr_spec(&self) -> SexprV {
        SexprV::List(
            seq![SexprV::Symbol("midi-instrument"@)] + kw_pair("id"@, self.id.to_sexpr_spec())
                + kw_opt("midi-channel"@, self.midi_channel) + kw_opt("midi-name"@, self.midi_name) + kw_opt(
                "midi-bank"@,
                self.midi_bank,
            ) + kw_opt("midi-program"@, self.midi_program) + kw_opt("midi-unpitched"@, self.midi_unpitched)
                + kw_opt("volume"@, self.volume) + kw_opt("pan"@, self.pan) + kw_opt(
                "elevation"@,
                self.elevation,
            ),
        )
    }

    fn to_sexpr(&self) -> (r: Sexpr) {
        ListBuilder::new("midi-instrument").kwarg("id", &self.id).kwarg_opt(
            "midi-channel",
            &self.midi_channel,
        ).kwarg_opt("midi-name", &self.midi_name).kwarg_opt("midi-bank", &self.midi_bank).kwarg_opt(
            "midi-program",
            &self.midi_program,
        ).kwarg_opt("midi-unpitched", &self.midi_unpitched).kwarg_opt("volume", &self.volume).kwarg_opt(
            "pan",
            &self.pan,
        ).kwarg_opt("elevation", &self.elevation).build()
    }
}

impl ToSexpr for PartGroup {
    /// `(part-group :type T [:number N] ...)`, then its name, symbol and
    /// barline where it has them.
    open spec fn to_sexpr_spec(&self) -> SexprV {
        SexprV::List(
            seq![SexprV::Symbol("part-group"@)] + kw_pair("type"@, self.type_.to_sexpr_spec())
                + kw_opt("number"@, self.number) + opt_arg(self.group_name) + opt_arg(
                self.group_symbol,
            ) + opt_arg(self.group_barline),
        )
    }

    fn to_sexpr(&self) -> (r: Sexpr) {
        ListBuilder::new("part-group").kwarg("type", &self.type_).kwarg_opt("number", &self.number).arg_opt(
            &self.group_name,
        ).arg_opt(&self.group_symbol).arg_opt(&self.group_barline).build()
    }
}

impl ToSexpr for GroupName {
    /// `(group-name :value V)`.
    open spec fn to_sexpr_spec(&self) -> SexprV {
        SexprV::List(seq![SexprV::Symbol("group-name"@)] + kw_pair("value"@, self.value.to_sexpr_spec()))
    }

    fn to_sexpr(&self) -> (r: Sexpr) {
        ListBuilder::new("group-name").kwarg("value", &self.value).build()
    }
}

/// The symbol of each `GroupSymbolValue`.
pub open spec fn group_symbol_value_name(v: GroupSymbolValue) -> Seq<char> {
    match v {
        GroupSymbolValue::NoSymbol => "none"@,
        GroupSymbolValue::Brace => "brace"@,
        GroupSymbolValue::Line => "line"@,
        GroupSymbolValue::Bracket => "bracket"@,
        GroupSymbolValue::Square => "square"@,
    }
}

impl GroupSymbolValue {
    /// The symbol of the value, as `group_symbol_value_name` states.
    pub fn symbol(&self) -> (r: &'static str)
        ensures
            r@ == group_symbol_value_name(*self),
    {
        match self {
            GroupSymbolValue::NoSymbol => "none",
            GroupSymbolValue::Brace => "brace",
            GroupSymbolValue::Line => "line",
            GroupSymbolValue::Bracket => "bracket",
            GroupSymbolValue::Square => "square",
        }
    }
}

impl ToSexpr for GroupSymbolValue {
    /// The symbol of the value.
    open spec fn to_sexpr_spec(&self) -> SexprV {
        SexprV::Symbol(group_symbol_value_name(*self))
    }

    fn to_sexpr(&self) -> (r: Sexpr) {
        Sexpr::symbol(self.symbol())
    }
}

impl ToSexpr for GroupSymbol {
    /// `(group-symbol :value V)`.
    open spec fn to_sexpr_spec(&self) -> SexprV {
        SexprV::List(seq![SexprV::Symbol("group-symbol"@)] + kw_pair("value"@, self.value.to_sexpr_spec()))
    }

    fn to_sexpr(&self) -> (r: Sexpr) {
        ListBuilder::new("group-symbol").kwarg("value", &self.value).build()
    }
}

/// The name of each `GroupBarlineValue`.
pub open spec fn group_barline_value_name(v: GroupBarlineValue) -> Seq<char> {
    match v {
        GroupBarlineValue::Yes => "yes"@,
        GroupBarlineValue::No => "no"@,
        GroupBarlineValue::Mensurstrich => "mensurstrich"@,
    }
}

impl GroupBarlineValue {
    /// The name of the value, as `group_barline_value_name` states.
    pub fn symbol(&self) -> (r: &'static str)
        ensures
            r@ == group_barline_value_name(*self),
    {
        match self {
            GroupBarlineValue::Yes => "yes",
            GroupBarlineValue::No => "no",
            GroupBarlineValue::Mensurstrich => "mensurstrich",
        }
    }
}

impl ToSexpr for GroupBarlineValue {
    /// The value as a keyword: `:yes`, `:no` or `:mensurstrich`.
    open spec fn to_sexpr_spec(&self) -> SexprV {
        SexprV::Keyword(group_barline_value_name(*self))
    }

    fn to_sexpr(&self) -> (r: Sexpr) {
        Sexpr::keyword(self.symbol())
    }
}

impl ToSexpr for GroupBarline {
    /// `(group-barline :value V)`.
    open spec fn to_sexpr_spec(&self) -> SexprV {
        SexprV::List(seq![SexprV::Symbol("group-barline"@)] + kw_pair("value"@, self.value.to_sexpr_spec()))
    }

    fn to_sexpr(&self) -> (r: Sexpr) {
        ListBuilder::new("group-barline").kwarg("value", &self.value).build()
    }
}

// === Part and measure ===

impl ToSexpr for Part {
    /// `(part :id I ...)` with its measures.
    open spec fn to_sexpr_spec(&self) -> SexprV {
        SexprV::List(
            seq![SexprV::Symbol("part"@)] + kw_pair("id"@, self.id.to_sexpr_spec()) + to_sexpr_seq(
                self.measures@,
            ),
        )
    }

    fn to_sexpr(&self) -> (r: Sexpr) {
        ListBuilder::new("part").kwarg("id", &self.id).args(&self.measures).build()
    }
}

impl ToSexpr for Measure {
    /// `(measure :number N [:implicit I] [:width W] ...)` with what it holds.
    open spec fn to_sexpr_spec(&self) -> SexprV {
        SexprV::List(
            seq![SexprV::Symbol("measure"@)] + kw_pair("number"@, self.number.to_sexpr_spec())
                + kw_opt("implicit"@, self.implicit) + kw_opt("width"@, self.width) + to_sexpr_seq(
                self.content@,
            ),
        )
    }

    fn to_sexpr(&self) -> (r: Sexpr) {
        ListBuilder::new("measure").kwarg("number", &self.number).kwarg_opt(
            "implicit",
            &self.implicit,
        ).kwarg_opt("width", &self.width).args(&self.content).build()
    }
}

impl ToSexpr for MusicDataElement {
    /// The element's own S-expression.
    open spec fn to_sexpr_spec(&self) -> SexprV {
        match self {
            MusicDataElement::Note(n) => n.to_sexpr_spec(),
            MusicDataElement::Backup(b) => b.to_sexpr_spec(),
            MusicDataElement::Forward(f) => f.to_sexpr_spec(),
            MusicDataElement::Direction(d) => d.to_sexpr_spec(),
            MusicDataElement::Attributes(a) => a.to_sexpr_spec(),
            MusicDataElement::Barline(b) => b.to_sexpr_spec(),
        }
    }

    fn to_sexpr(&self) -> (r: Sexpr) {
        match self {
            MusicDataElement::Note(n) => n.to_sexpr(),
            MusicDataElement::Backup(b) => b.to_sexpr(),
            MusicDataElement::Forward(f) => f.to_sexpr(),
            MusicDataElement::Direction(d) => d.to_sexpr(),
            MusicDataElement::Attributes(a) => a.to_sexpr(),
            MusicDataElement::Barline(b) => b.to_sexpr(),
        }
    }
}

} // verus!
