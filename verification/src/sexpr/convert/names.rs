//! The names in the notation of the values of each kind that is written as a
//! symbol: what each value is written as, and what each name reads back as.

use vstd::prelude::*;
use crate::sexpr::ast::SexprV;
use crate::sexpr::traits::{FromSexpr, ToSexpr};
use crate::ir::attributes::BackwardForward;
use crate::ir::attributes::BarStyle;
use crate::ir::attributes::ClefSign;
use crate::ir::attributes::Mode;
use crate::ir::attributes::RightLeftMiddle;
use crate::ir::attributes::StartStopDiscontinue;
use crate::ir::attributes::TimeSymbol;
use crate::ir::beam::BeamValue;
use crate::ir::beam::Fan;
use crate::ir::beam::NoteheadValue;
use crate::ir::beam::StemValue;
use crate::ir::common::AboveBelow;
use crate::ir::common::AccidentalValue;
use crate::ir::common::CssFontSize;
use crate::ir::common::FontStyle;
use crate::ir::common::FontWeight;
use crate::ir::common::LineType;
use crate::ir::common::OverUnder;
use crate::ir::common::StartStop;
use crate::ir::common::StartStopContinue;
use crate::ir::common::StartStopSingle;
use crate::ir::common::SymbolSize;
use crate::ir::common::UpDown;
use crate::ir::common::YesNo;
use crate::ir::direction::DynamicElement;
use crate::ir::direction::PedalType;
use crate::ir::direction::UpDownStopContinue;
use crate::ir::direction::WedgeType;
use crate::ir::duration::NoteTypeValue;
use crate::ir::lyric::LeftCenterRight;
use crate::ir::lyric::Syllabic;
use crate::ir::notation::ArrowDirection;
use crate::ir::notation::ArrowStyle;
use crate::ir::notation::BendRelease;
use crate::ir::notation::BreathMarkValue;
use crate::ir::notation::CaesuraValue;
use crate::ir::notation::FermataShape;
use crate::ir::notation::HandbellValue;
use crate::ir::notation::HoleClosedLocation;
use crate::ir::notation::HoleClosedValue;
use crate::ir::notation::LineLength;
use crate::ir::notation::LineShape;
use crate::ir::notation::ShowTuplet;
use crate::ir::notation::StartNote;
use crate::ir::notation::TapHand;
use crate::ir::notation::TopBottom;
use crate::ir::notation::TremoloType;
use crate::ir::notation::TrillStep;
use crate::ir::notation::TwoNoteTurn;
use crate::ir::notation::UprightInverted;
use crate::ir::part::GroupBarlineValue;
use crate::ir::part::GroupSymbolValue;
use crate::ir::pitch::Step;
use crate::sexpr::printer::left_center_right_name;
use crate::sexpr::printer::syllabic_name;

verus! {

/// Each `Mode` is written as its name in the notation: `Major` as `major`,
/// `Minor` as `minor`, `Dorian` as `dorian`, `Phrygian` as `phrygian`,
/// `Lydian` as `lydian`, `Mixolydian` as `mixolydian`, `Aeolian` as
/// `aeolian`, `Ionian` as `ionian`, `Locrian` as `locrian`, `NoMode` as
/// `none`.
pub proof fn law_mode_names()
    ensures
        Mode::Major.to_sexpr_spec() == SexprV::Symbol("major"@),
        Mode::Minor.to_sexpr_spec() == SexprV::Symbol("minor"@),
        Mode::Dorian.to_sexpr_spec() == SexprV::Symbol("dorian"@),
        Mode::Phrygian.to_sexpr_spec() == SexprV::Symbol("phrygian"@),
        Mode::Lydian.to_sexpr_spec() == SexprV::Symbol("lydian"@),
        Mode::Mixolydian.to_sexpr_spec() == SexprV::Symbol("mixolydian"@),
        Mode::Aeolian.to_sexpr_spec() == SexprV::Symbol("aeolian"@),
        Mode::Ionian.to_sexpr_spec() == SexprV::Symbol("ionian"@),
        Mode::Locrian.to_sexpr_spec() == SexprV::Symbol("locrian"@),
        Mode::NoMode.to_sexpr_spec() == SexprV::Symbol("none"@),
{
}

/// Each `ClefSign` is written as its name in the notation: `G` as `G`, `F`
/// as `F`, `C` as `C`, `Percussion` as `percussion`, `Tab` as `TAB`,
/// `Jianpu` as `jianpu`, `NoSign` as `none`.
pub proof fn law_clef_sign_names()
    ensures
        ClefSign::G.to_sexpr_spec() == SexprV::Symbol("G"@),
        ClefSign::F.to_sexpr_spec() == SexprV::Symbol("F"@),
        ClefSign::C.to_sexpr_spec() == SexprV::Symbol("C"@),
        ClefSign::Percussion.to_sexpr_spec() == SexprV::Symbol("percussion"@),
        ClefSign::Tab.to_sexpr_spec() == SexprV::Symbol("TAB"@),
        ClefSign::Jianpu.to_sexpr_spec() == SexprV::Symbol("jianpu"@),
        ClefSign::NoSign.to_sexpr_spec() == SexprV::Symbol("none"@),
{
}

/// Each `TimeSymbol` is written as its name in the notation: `Common` as
/// `common`, `Cut` as `cut`, `SingleNumber` as `single-number`, `Normal` as
/// `normal`, `DottedNote` as `dotted-note`, `Note` as `note`.
pub proof fn law_time_symbol_names()
    ensures
        TimeSymbol::Common.to_sexpr_spec() == SexprV::Symbol("common"@),
        TimeSymbol::Cut.to_sexpr_spec() == SexprV::Symbol("cut"@),
        TimeSymbol::SingleNumber.to_sexpr_spec() == SexprV::Symbol("single-number"@),
        TimeSymbol::Normal.to_sexpr_spec() == SexprV::Symbol("normal"@),
        TimeSymbol::DottedNote.to_sexpr_spec() == SexprV::Symbol("dotted-note"@),
        TimeSymbol::Note.to_sexpr_spec() == SexprV::Symbol("note"@),
{
}

/// Each `BarStyle` is written as its name in the notation: `Regular` as
/// `regular`, `Dotted` as `dotted`, `Dashed` as `dashed`, `Heavy` as
/// `heavy`, `LightLight` as `light-light`, `LightHeavy` as `light-heavy`,
/// `HeavyLight` as `heavy-light`, `HeavyHeavy` as `heavy-heavy`, `Tick` as
/// `tick`, `Short` as `short`, `NoBar` as `none`.
pub proof fn law_bar_style_names()
    ensures
        BarStyle::Regular.to_sexpr_spec() == SexprV::Symbol("regular"@),
        BarStyle::Dotted.to_sexpr_spec() == SexprV::Symbol("dotted"@),
        BarStyle::Dashed.to_sexpr_spec() == SexprV::Symbol("dashed"@),
        BarStyle::Heavy.to_sexpr_spec() == SexprV::Symbol("heavy"@),
        BarStyle::LightLight.to_sexpr_spec() == SexprV::Symbol("light-light"@),
        BarStyle::LightHeavy.to_sexpr_spec() == SexprV::Symbol("light-heavy"@),
        BarStyle::HeavyLight.to_sexpr_spec() == SexprV::Symbol("heavy-light"@),
        BarStyle::HeavyHeavy.to_sexpr_spec() == SexprV::Symbol("heavy-heavy"@),
        BarStyle::Tick.to_sexpr_spec() == SexprV::Symbol("tick"@),
        BarStyle::Short.to_sexpr_spec() == SexprV::Symbol("short"@),
        BarStyle::NoBar.to_sexpr_spec() == SexprV::Symbol("none"@),
{
}

/// Each `RightLeftMiddle` is written as its name in the notation: `Right`
/// as `right`, `Left` as `left`, `Middle` as `middle`.
pub proof fn law_right_left_middle_names()
    ensures
        RightLeftMiddle::Right.to_sexpr_spec() == SexprV::Symbol("right"@),
        RightLeftMiddle::Left.to_sexpr_spec() == SexprV::Symbol("left"@),
        RightLeftMiddle::Middle.to_sexpr_spec() == SexprV::Symbol("middle"@),
{
}

/// Each `BackwardForward` is written as its name in the notation:
/// `Backward` as `backward`, `Forward` as `forward`.
pub proof fn law_backward_forward_names()
    ensures
        BackwardForward::Backward.to_sexpr_spec() == SexprV::Symbol("backward"@),
        BackwardForward::Forward.to_sexpr_spec() == SexprV::Symbol("forward"@),
{
}

/// Each `StartStopDiscontinue` is written as its name in the notation:
/// `Start` as `start`, `Stop` as `stop`, `Discontinue` as `discontinue`.
pub proof fn law_start_stop_discontinue_names()
    ensures
        StartStopDiscontinue::Start.to_sexpr_spec() == SexprV::Symbol("start"@),
        StartStopDiscontinue::Stop.to_sexpr_spec() == SexprV::Symbol("stop"@),
        StartStopDiscontinue::Discontinue.to_sexpr_spec() == SexprV::Symbol("discontinue"@),
{
}

/// Each `YesNo` is written as, and read back from, its name in the
/// notation: `Yes` as `yes`, `No` as `no`.
pub proof fn law_yes_no_names()
    ensures
        YesNo::Yes.to_sexpr_spec() == SexprV::Symbol("yes"@),
        YesNo::No.to_sexpr_spec() == SexprV::Symbol("no"@),
        YesNo::from_sexpr_error(SexprV::Symbol("yes"@)) is None,
        YesNo::from_sexpr_value(SexprV::Symbol("yes"@), YesNo::Yes),
        YesNo::from_sexpr_error(SexprV::Symbol("no"@)) is None,
        YesNo::from_sexpr_value(SexprV::Symbol("no"@), YesNo::No),
{
    reveal_strlit("no");
    reveal_strlit("yes");
}

/// Each `AboveBelow` is written as, and read back from, its name in the
/// notation: `Above` as `above`, `Below` as `below`.
pub proof fn law_above_below_names()
    ensures
        AboveBelow::Above.to_sexpr_spec() == SexprV::Symbol("above"@),
        AboveBelow::Below.to_sexpr_spec() == SexprV::Symbol("below"@),
        AboveBelow::from_sexpr_error(SexprV::Symbol("above"@)) is None,
        AboveBelow::from_sexpr_value(SexprV::Symbol("above"@), AboveBelow::Above),
        AboveBelow::from_sexpr_error(SexprV::Symbol("below"@)) is None,
        AboveBelow::from_sexpr_value(SexprV::Symbol("below"@), AboveBelow::Below),
{
    reveal_strlit("above");
    reveal_strlit("below");
    assert("above"@[0] != "below"@[0]);
    assert("below"@[0] != "above"@[0]);
}

/// Each `StartStop` is written as, and read back from, its name in the
/// notation: `Start` as `start`, `Stop` as `stop`.
pub proof fn law_start_stop_names()
    ensures
        StartStop::Start.to_sexpr_spec() == SexprV::Symbol("start"@),
        StartStop::Stop.to_sexpr_spec() == SexprV::Symbol("stop"@),
        StartStop::from_sexpr_error(SexprV::Symbol("start"@)) is None,
        StartStop::from_sexpr_value(SexprV::Symbol("start"@), StartStop::Start),
        StartStop::from_sexpr_error(SexprV::Symbol("stop"@)) is None,
        StartStop::from_sexpr_value(SexprV::Symbol("stop"@), StartStop::Stop),
{
    reveal_strlit("start");
    reveal_strlit("stop");
}

/// Each `StartStopContinue` is written as, and read back from, its name in
/// the notation: `Start` as `start`, `Stop` as `stop`, `Continue` as
/// `continue`.
pub proof fn law_start_stop_continue_names()
    ensures
        StartStopContinue::Start.to_sexpr_spec() == SexprV::Symbol("start"@),
        StartStopContinue::Stop.to_sexpr_spec() == SexprV::Symbol("stop"@),
        StartStopContinue::Continue.to_sexpr_spec() == SexprV::Symbol("continue"@),
        StartStopContinue::from_sexpr_error(SexprV::Symbol("start"@)) is None,
        StartStopContinue::from_sexpr_value(SexprV::Symbol("start"@), StartStopContinue::Start),
        StartStopContinue::from_sexpr_error(SexprV::Symbol("stop"@)) is None,
        StartStopContinue::from_sexpr_value(SexprV::Symbol("stop"@), StartStopContinue::Stop),
        StartStopContinue::from_sexpr_error(SexprV::Symbol("continue"@)) is None,
        StartStopContinue::from_sexpr_value(SexprV::Symbol("continue"@), StartStopContinue::Continue),
{
    reveal_strlit("continue");
    reveal_strlit("start");
    reveal_strlit("stop");
}

/// Each `StartStopSingle` is written as, and read back from, its name in
/// the notation: `Start` as `start`, `Stop` as `stop`, `Single` as
/// `single`.
pub proof fn law_start_stop_single_names()
    ensures
        StartStopSingle::Start.to_sexpr_spec() == SexprV::Symbol("start"@),
        StartStopSingle::Stop.to_sexpr_spec() == SexprV::Symbol("stop"@),
        StartStopSingle::Single.to_sexpr_spec() == SexprV::Symbol("single"@),
        StartStopSingle::from_sexpr_error(SexprV::Symbol("start"@)) is None,
        StartStopSingle::from_sexpr_value(SexprV::Symbol("start"@), StartStopSingle::Start),
        StartStopSingle::from_sexpr_error(SexprV::Symbol("stop"@)) is None,
        StartStopSingle::from_sexpr_value(SexprV::Symbol("stop"@), StartStopSingle::Stop),
        StartStopSingle::from_sexpr_error(SexprV::Symbol("single"@)) is None,
        StartStopSingle::from_sexpr_value(SexprV::Symbol("single"@), StartStopSingle::Single),
{
    reveal_strlit("single");
    reveal_strlit("start");
    reveal_strlit("stop");
}

/// Each `LineType` is written as, and read back from, its name in the
/// notation: `Solid` as `solid`, `Dashed` as `dashed`, `Dotted` as
/// `dotted`, `Wavy` as `wavy`.
pub proof fn law_line_type_names()
    ensures
        LineType::Solid.to_sexpr_spec() == SexprV::Symbol("solid"@),
        LineType::Dashed.to_sexpr_spec() == SexprV::Symbol("dashed"@),
        LineType::Dotted.to_sexpr_spec() == SexprV::Symbol("dotted"@),
        LineType::Wavy.to_sexpr_spec() == SexprV::Symbol("wavy"@),
        LineType::from_sexpr_error(SexprV::Symbol("solid"@)) is None,
        LineType::from_sexpr_value(SexprV::Symbol("solid"@), LineType::Solid),
        LineType::from_sexpr_error(SexprV::Symbol("dashed"@)) is None,
        LineType::from_sexpr_value(SexprV::Symbol("dashed"@), LineType::Dashed),
        LineType::from_sexpr_error(SexprV::Symbol("dotted"@)) is None,
        LineType::from_sexpr_value(SexprV::Symbol("dotted"@), LineType::Dotted),
        LineType::from_sexpr_error(SexprV::Symbol("wavy"@)) is None,
        LineType::from_sexpr_value(SexprV::Symbol("wavy"@), LineType::Wavy),
{
    reveal_strlit("dashed");
    reveal_strlit("dotted");
    reveal_strlit("solid");
    reveal_strlit("wavy");
    assert("dashed"@[1] != "dotted"@[1]);
    assert("dotted"@[1] != "dashed"@[1]);
}

/// Each `OverUnder` is written as, and read back from, its name in the
/// notation: `Over` as `over`, `Under` as `under`.
pub proof fn law_over_under_names()
    ensures
        OverUnder::Over.to_sexpr_spec() == SexprV::Symbol("over"@),
        OverUnder::Under.to_sexpr_spec() == SexprV::Symbol("under"@),
        OverUnder::from_sexpr_error(SexprV::Symbol("over"@)) is None,
        OverUnder::from_sexpr_value(SexprV::Symbol("over"@), OverUnder::Over),
        OverUnder::from_sexpr_error(SexprV::Symbol("under"@)) is None,
        OverUnder::from_sexpr_value(SexprV::Symbol("under"@), OverUnder::Under),
{
    reveal_strlit("over");
    reveal_strlit("under");
}

/// Each `UpDown` is written as, and read back from, its name in the
/// notation: `Up` as `up`, `Down` as `down`.
pub proof fn law_up_down_names()
    ensures
        UpDown::Up.to_sexpr_spec() == SexprV::Symbol("up"@),
        UpDown::Down.to_sexpr_spec() == SexprV::Symbol("down"@),
        UpDown::from_sexpr_error(SexprV::Symbol("up"@)) is None,
        UpDown::from_sexpr_value(SexprV::Symbol("up"@), UpDown::Up),
        UpDown::from_sexpr_error(SexprV::Symbol("down"@)) is None,
        UpDown::from_sexpr_value(SexprV::Symbol("down"@), UpDown::Down),
{
    reveal_strlit("down");
    reveal_strlit("up");
}

/// Each `FontStyle` is written as, and read back from, its name in the
/// notation: `Normal` as `normal`, `Italic` as `italic`.
pub proof fn law_font_style_names()
    ensures
        FontStyle::Normal.to_sexpr_spec() == SexprV::Symbol("normal"@),
        FontStyle::Italic.to_sexpr_spec() == SexprV::Symbol("italic"@),
        FontStyle::from_sexpr_error(SexprV::Symbol("normal"@)) is None,
        FontStyle::from_sexpr_value(SexprV::Symbol("normal"@), FontStyle::Normal),
        FontStyle::from_sexpr_error(SexprV::Symbol("italic"@)) is None,
        FontStyle::from_sexpr_value(SexprV::Symbol("italic"@), FontStyle::Italic),
{
    reveal_strlit("italic");
    reveal_strlit("normal");
    assert("normal"@[0] != "italic"@[0]);
    assert("italic"@[0] != "normal"@[0]);
}

/// Each `FontWeight` is written as, and read back from, its name in the
/// notation: `Normal` as `normal`, `Bold` as `bold`.
pub proof fn law_font_weight_names()
    ensures
        FontWeight::Normal.to_sexpr_spec() == SexprV::Symbol("normal"@),
        FontWeight::Bold.to_sexpr_spec() == SexprV::Symbol("bold"@),
        FontWeight::from_sexpr_error(SexprV::Symbol("normal"@)) is None,
        FontWeight::from_sexpr_value(SexprV::Symbol("normal"@), FontWeight::Normal),
        FontWeight::from_sexpr_error(SexprV::Symbol("bold"@)) is None,
        FontWeight::from_sexpr_value(SexprV::Symbol("bold"@), FontWeight::Bold),
{
    reveal_strlit("bold");
    reveal_strlit("normal");
}

/// Each `CssFontSize` is written as, and read back from, its name in the
/// notation: `XxSmall` as `xx-small`, `XSmall` as `x-small`, `Small` as
/// `small`, `Medium` as `medium`, `Large` as `large`, `XLarge` as
/// `x-large`, `XxLarge` as `xx-large`.
pub proof fn law_css_font_size_names()
    ensures
        CssFontSize::XxSmall.to_sexpr_spec() == SexprV::Symbol("xx-small"@),
        CssFontSize::XSmall.to_sexpr_spec() == SexprV::Symbol("x-small"@),
        CssFontSize::Small.to_sexpr_spec() == SexprV::Symbol("small"@),
        CssFontSize::Medium.to_sexpr_spec() == SexprV::Symbol("medium"@),
        CssFontSize::Large.to_sexpr_spec() == SexprV::Symbol("large"@),
        CssFontSize::XLarge.to_sexpr_spec() == SexprV::Symbol("x-large"@),
        CssFontSize::XxLarge.to_sexpr_spec() == SexprV::Symbol("xx-large"@),
        CssFontSize::from_sexpr_error(SexprV::Symbol("xx-small"@)) is None,
        CssFontSize::from_sexpr_value(SexprV::Symbol("xx-small"@), CssFontSize::XxSmall),
        CssFontSize::from_sexpr_error(SexprV::Symbol("x-small"@)) is None,
        CssFontSize::from_sexpr_value(SexprV::Symbol("x-small"@), CssFontSize::XSmall),
        CssFontSize::from_sexpr_error(SexprV::Symbol("small"@)) is None,
        CssFontSize::from_sexpr_value(SexprV::Symbol("small"@), CssFontSize::Small),
        CssFontSize::from_sexpr_error(SexprV::Symbol("medium"@)) is None,
        CssFontSize::from_sexpr_value(SexprV::Symbol("medium"@), CssFontSize::Medium),
        CssFontSize::from_sexpr_error(SexprV::Symbol("large"@)) is None,
        CssFontSize::from_sexpr_value(SexprV::Symbol("large"@), CssFontSize::Large),
        CssFontSize::from_sexpr_error(SexprV::Symbol("x-large"@)) is None,
        CssFontSize::from_sexpr_value(SexprV::Symbol("x-large"@), CssFontSize::XLarge),
        CssFontSize::from_sexpr_error(SexprV::Symbol("xx-large"@)) is None,
        CssFontSize::from_sexpr_value(SexprV::Symbol("xx-large"@), CssFontSize::XxLarge),
{
    reveal_strlit("large");
    reveal_strlit("medium");
    reveal_strlit("small");
    reveal_strlit("x-large");
    reveal_strlit("x-small");
    reveal_strlit("xx-large");
    reveal_strlit("xx-small");
    assert("xx-small"@[3] != "xx-large"@[3]);
    assert("x-small"@[2] != "x-large"@[2]);
    assert("small"@[0] != "large"@[0]);
    assert("large"@[0] != "small"@[0]);
    assert("x-large"@[2] != "x-small"@[2]);
    assert("xx-large"@[3] != "xx-small"@[3]);
}

/// Each `SymbolSize` is written as, and read back from, its name in the
/// notation: `Full` as `full`, `Cue` as `cue`, `GraceCue` as `grace-cue`,
/// `Large` as `large`.
pub proof fn law_symbol_size_names()
    ensures
        SymbolSize::Full.to_sexpr_spec() == SexprV::Symbol("full"@),
        SymbolSize::Cue.to_sexpr_spec() == SexprV::Symbol("cue"@),
        SymbolSize::GraceCue.to_sexpr_spec() == SexprV::Symbol("grace-cue"@),
        SymbolSize::Large.to_sexpr_spec() == SexprV::Symbol("large"@),
        SymbolSize::from_sexpr_error(SexprV::Symbol("full"@)) is None,
        SymbolSize::from_sexpr_value(SexprV::Symbol("full"@), SymbolSize::Full),
        SymbolSize::from_sexpr_error(SexprV::Symbol("cue"@)) is None,
        SymbolSize::from_sexpr_value(SexprV::Symbol("cue"@), SymbolSize::Cue),
        SymbolSize::from_sexpr_error(SexprV::Symbol("grace-cue"@)) is None,
        SymbolSize::from_sexpr_value(SexprV::Symbol("grace-cue"@), SymbolSize::GraceCue),
        SymbolSize::from_sexpr_error(SexprV::Symbol("large"@)) is None,
        SymbolSize::from_sexpr_value(SexprV::Symbol("large"@), SymbolSize::Large),
{
    reveal_strlit("cue");
    reveal_strlit("full");
    reveal_strlit("grace-cue");
    reveal_strlit("large");
}

/// Each `AccidentalValue` is written as, and read back from, its name in
/// the notation: `Sharp` as `sharp`, `Natural` as `natural`, `Flat` as
/// `flat`, `DoubleSharp` as `double-sharp`, `SharpSharp` as `sharp-sharp`,
/// `FlatFlat` as `flat-flat`, `DoubleFlat` as `double-flat`, `NaturalSharp`
/// as `natural-sharp`, `NaturalFlat` as `natural-flat`, `QuarterFlat` as
/// `quarter-flat`, `QuarterSharp` as `quarter-sharp`, `ThreeQuartersFlat`
/// as `three-quarters-flat`, `ThreeQuartersSharp` as
/// `three-quarters-sharp`, `SharpDown` as `sharp-down`, `SharpUp` as
/// `sharp-up`, `NaturalDown` as `natural-down`, `NaturalUp` as
/// `natural-up`, `FlatDown` as `flat-down`, `FlatUp` as `flat-up`,
/// `TripleSharp` as `triple-sharp`, `TripleFlat` as `triple-flat`,
/// `SlashQuarterSharp` as `slash-quarter-sharp`, `SlashSharp` as
/// `slash-sharp`, `SlashFlat` as `slash-flat`, `DoubleSlashFlat` as
/// `double-slash-flat`, `Sharp1` as `sharp-1`, `Sharp2` as `sharp-2`,
/// `Sharp3` as `sharp-3`, `Sharp5` as `sharp-5`, `Flat1` as `flat-1`,
/// `Flat2` as `flat-2`, `Flat3` as `flat-3`, `Flat4` as `flat-4`, `Sori` as
/// `sori`, `Koron` as `koron`, `Other` as `other`.
pub proof fn law_accidental_value_names()
    ensures
        AccidentalValue::Sharp.to_sexpr_spec() == SexprV::Symbol("sharp"@),
        AccidentalValue::Natural.to_sexpr_spec() == SexprV::Symbol("natural"@),
        AccidentalValue::Flat.to_sexpr_spec() == SexprV::Symbol("flat"@),
        AccidentalValue::DoubleSharp.to_sexpr_spec() == SexprV::Symbol("double-sharp"@),
        AccidentalValue::SharpSharp.to_sexpr_spec() == SexprV::Symbol("sharp-sharp"@),
        AccidentalValue::FlatFlat.to_sexpr_spec() == SexprV::Symbol("flat-flat"@),
        AccidentalValue::DoubleFlat.to_sexpr_spec() == SexprV::Symbol("double-flat"@),
        AccidentalValue::NaturalSharp.to_sexpr_spec() == SexprV::Symbol("natural-sharp"@),
        AccidentalValue::NaturalFlat.to_sexpr_spec() == SexprV::Symbol("natural-flat"@),
        AccidentalValue::QuarterFlat.to_sexpr_spec() == SexprV::Symbol("quarter-flat"@),
        AccidentalValue::QuarterSharp.to_sexpr_spec() == SexprV::Symbol("quarter-sharp"@),
        AccidentalValue::ThreeQuartersFlat.to_sexpr_spec() == SexprV::Symbol("three-quarters-flat"@),
        AccidentalValue::ThreeQuartersSharp.to_sexpr_spec() == SexprV::Symbol("three-quarters-sharp"@),
        AccidentalValue::SharpDown.to_sexpr_spec() == SexprV::Symbol("sharp-down"@),
        AccidentalValue::SharpUp.to_sexpr_spec() == SexprV::Symbol("sharp-up"@),
        AccidentalValue::NaturalDown.to_sexpr_spec() == SexprV::Symbol("natural-down"@),
        AccidentalValue::NaturalUp.to_sexpr_spec() == SexprV::Symbol("natural-up"@),
        AccidentalValue::FlatDown.to_sexpr_spec() == SexprV::Symbol("flat-down"@),
        AccidentalValue::FlatUp.to_sexpr_spec() == SexprV::Symbol("flat-up"@),
        AccidentalValue::TripleSharp.to_sexpr_spec() == SexprV::Symbol("triple-sharp"@),
        AccidentalValue::TripleFlat.to_sexpr_spec() == SexprV::Symbol("triple-flat"@),
        AccidentalValue::SlashQuarterSharp.to_sexpr_spec() == SexprV::Symbol("slash-quarter-sharp"@),
        AccidentalValue::SlashSharp.to_sexpr_spec() == SexprV::Symbol("slash-sharp"@),
        AccidentalValue::SlashFlat.to_sexpr_spec() == SexprV::Symbol("slash-flat"@),
        AccidentalValue::DoubleSlashFlat.to_sexpr_spec() == SexprV::Symbol("double-slash-flat"@),
        AccidentalValue::Sharp1.to_sexpr_spec() == SexprV::Symbol("sharp-1"@),
        AccidentalValue::Sharp2.to_sexpr_spec() == SexprV::Symbol("sharp-2"@),
        AccidentalValue::Sharp3.to_sexpr_spec() == SexprV::Symbol("sharp-3"@),
        AccidentalValue::Sharp5.to_sexpr_spec() == SexprV::Symbol("sharp-5"@),
        AccidentalValue::Flat1.to_sexpr_spec() == SexprV::Symbol("flat-1"@),
        AccidentalValue::Flat2.to_sexpr_spec() == SexprV::Symbol("flat-2"@),
        AccidentalValue::Flat3.to_sexpr_spec() == SexprV::Symbol("flat-3"@),
        AccidentalValue::Flat4.to_sexpr_spec() == SexprV::Symbol("flat-4"@),
        AccidentalValue::Sori.to_sexpr_spec() == SexprV::Symbol("sori"@),
        AccidentalValue::Koron.to_sexpr_spec() == SexprV::Symbol("koron"@),
        AccidentalValue::Other.to_sexpr_spec() == SexprV::Symbol("other"@),
        AccidentalValue::from_sexpr_error(SexprV::Symbol("sharp"@)) is None,
        AccidentalValue::from_sexpr_value(SexprV::Symbol("sharp"@), AccidentalValue::Sharp),
        AccidentalValue::from_sexpr_error(SexprV::Symbol("natural"@)) is None,
        AccidentalValue::from_sexpr_value(SexprV::Symbol("natural"@), AccidentalValue::Natural),
        AccidentalValue::from_sexpr_error(SexprV::Symbol("flat"@)) is None,
        AccidentalValue::from_sexpr_value(SexprV::Symbol("flat"@), AccidentalValue::Flat),
        AccidentalValue::from_sexpr_error(SexprV::Symbol("double-sharp"@)) is None,
        AccidentalValue::from_sexpr_value(SexprV::Symbol("double-sharp"@), AccidentalValue::DoubleSharp),
        AccidentalValue::from_sexpr_error(SexprV::Symbol("sharp-sharp"@)) is None,
        AccidentalValue::from_sexpr_value(SexprV::Symbol("sharp-sharp"@), AccidentalValue::SharpSharp),
        AccidentalValue::from_sexpr_error(SexprV::Symbol("flat-flat"@)) is None,
        AccidentalValue::from_sexpr_value(SexprV::Symbol("flat-flat"@), AccidentalValue::FlatFlat),
        AccidentalValue::from_sexpr_error(SexprV::Symbol("double-flat"@)) is None,
        AccidentalValue::from_sexpr_value(SexprV::Symbol("double-flat"@), AccidentalValue::DoubleFlat),
        AccidentalValue::from_sexpr_error(SexprV::Symbol("natural-sharp"@)) is None,
        AccidentalValue::from_sexpr_value(SexprV::Symbol("natural-sharp"@), AccidentalValue::NaturalSharp),
        AccidentalValue::from_sexpr_error(SexprV::Symbol("natural-flat"@)) is None,
        AccidentalValue::from_sexpr_value(SexprV::Symbol("natural-flat"@), AccidentalValue::NaturalFlat),
        AccidentalValue::from_sexpr_error(SexprV::Symbol("quarter-flat"@)) is None,
        AccidentalValue::from_sexpr_value(SexprV::Symbol("quarter-flat"@), AccidentalValue::QuarterFlat),
        AccidentalValue::from_sexpr_error(SexprV::Symbol("quarter-sharp"@)) is None,
        AccidentalValue::from_sexpr_value(SexprV::Symbol("quarter-sharp"@), AccidentalValue::QuarterSharp),
        AccidentalValue::from_sexpr_error(SexprV::Symbol("three-quarters-flat"@)) is None,
        AccidentalValue::from_sexpr_value(SexprV::Symbol("three-quarters-flat"@), AccidentalValue::ThreeQuartersFlat),
        AccidentalValue::from_sexpr_error(SexprV::Symbol("three-quarters-sharp"@)) is None,
        AccidentalValue::from_sexpr_value(SexprV::Symbol("three-quarters-sharp"@), AccidentalValue::ThreeQuartersSharp),
        AccidentalValue::from_sexpr_error(SexprV::Symbol("sharp-down"@)) is None,
        AccidentalValue::from_sexpr_value(SexprV::Symbol("sharp-down"@), AccidentalValue::SharpDown),
        AccidentalValue::from_sexpr_error(SexprV::Symbol("sharp-up"@)) is None,
        AccidentalValue::from_sexpr_value(SexprV::Symbol("sharp-up"@), AccidentalValue::SharpUp),
        AccidentalValue::from_sexpr_error(SexprV::Symbol("natural-down"@)) is None,
        AccidentalValue::from_sexpr_value(SexprV::Symbol("natural-down"@), AccidentalValue::NaturalDown),
        AccidentalValue::from_sexpr_error(SexprV::Symbol("natural-up"@)) is None,
        AccidentalValue::from_sexpr_value(SexprV::Symbol("natural-up"@), AccidentalValue::NaturalUp),
        AccidentalValue::from_sexpr_error(SexprV::Symbol("flat-down"@)) is None,
        AccidentalValue::from_sexpr_value(SexprV::Symbol("flat-down"@), AccidentalValue::FlatDown),
        AccidentalValue::from_sexpr_error(SexprV::Symbol("flat-up"@)) is None,
        AccidentalValue::from_sexpr_value(SexprV::Symbol("flat-up"@), AccidentalValue::FlatUp),
        AccidentalValue::from_sexpr_error(SexprV::Symbol("triple-sharp"@)) is None,
        AccidentalValue::from_sexpr_value(SexprV::Symbol("triple-sharp"@), AccidentalValue::TripleSharp),
        AccidentalValue::from_sexpr_error(SexprV::Symbol("triple-flat"@)) is None,
        AccidentalValue::from_sexpr_value(SexprV::Symbol("triple-flat"@), AccidentalValue::TripleFlat),
        AccidentalValue::from_sexpr_error(SexprV::Symbol("slash-quarter-sharp"@)) is None,
        AccidentalValue::from_sexpr_value(SexprV::Symbol("slash-quarter-sharp"@), AccidentalValue::SlashQuarterSharp),
        AccidentalValue::from_sexpr_error(SexprV::Symbol("slash-sharp"@)) is None,
        AccidentalValue::from_sexpr_value(SexprV::Symbol("slash-sharp"@), AccidentalValue::SlashSharp),
        AccidentalValue::from_sexpr_error(SexprV::Symbol("slash-flat"@)) is None,
        AccidentalValue::from_sexpr_value(SexprV::Symbol("slash-flat"@), AccidentalValue::SlashFlat),
        AccidentalValue::from_sexpr_error(SexprV::Symbol("double-slash-flat"@)) is None,
        AccidentalValue::from_sexpr_value(SexprV::Symbol("double-slash-flat"@), AccidentalValue::DoubleSlashFlat),
        AccidentalValue::from_sexpr_error(SexprV::Symbol("sharp-1"@)) is None,
        AccidentalValue::from_sexpr_value(SexprV::Symbol("sharp-1"@), AccidentalValue::Sharp1),
        AccidentalValue::from_sexpr_error(SexprV::Symbol("sharp-2"@)) is None,
        AccidentalValue::from_sexpr_value(SexprV::Symbol("sharp-2"@), AccidentalValue::Sharp2),
        AccidentalValue::from_sexpr_error(SexprV::Symbol("sharp-3"@)) is None,
        AccidentalValue::from_sexpr_value(SexprV::Symbol("sharp-3"@), AccidentalValue::Sharp3),
        AccidentalValue::from_sexpr_error(SexprV::Symbol("sharp-5"@)) is None,
        AccidentalValue::from_sexpr_value(SexprV::Symbol("sharp-5"@), AccidentalValue::Sharp5),
        AccidentalValue::from_sexpr_error(SexprV::Symbol("flat-1"@)) is None,
        AccidentalValue::from_sexpr_value(SexprV::Symbol("flat-1"@), AccidentalValue::Flat1),
        AccidentalValue::from_sexpr_error(SexprV::Symbol("flat-2"@)) is None,
        AccidentalValue::from_sexpr_value(SexprV::Symbol("flat-2"@), AccidentalValue::Flat2),
        AccidentalValue::from_sexpr_error(SexprV::Symbol("flat-3"@)) is None,
        AccidentalValue::from_sexpr_value(SexprV::Symbol("flat-3"@), AccidentalValue::Flat3),
        AccidentalValue::from_sexpr_error(SexprV::Symbol("flat-4"@)) is None,
        AccidentalValue::from_sexpr_value(SexprV::Symbol("flat-4"@), AccidentalValue::Flat4),
        AccidentalValue::from_sexpr_error(SexprV::Symbol("sori"@)) is None,
        AccidentalValue::from_sexpr_value(SexprV::Symbol("sori"@), AccidentalValue::Sori),
        AccidentalValue::from_sexpr_error(SexprV::Symbol("koron"@)) is None,
        AccidentalValue::from_sexpr_value(SexprV::Symbol("koron"@), AccidentalValue::Koron),
        AccidentalValue::from_sexpr_error(SexprV::Symbol("other"@)) is None,
        AccidentalValue::from_sexpr_value(SexprV::Symbol("other"@), AccidentalValue::Other),
{
    reveal_strlit("double-flat");
    reveal_strlit("double-sharp");
    reveal_strlit("double-slash-flat");
    reveal_strlit("flat");
    reveal_strlit("flat-1");
    reveal_strlit("flat-2");
    reveal_strlit("flat-3");
    reveal_strlit("flat-4");
    reveal_strlit("flat-down");
    reveal_strlit("flat-flat");
    reveal_strlit("flat-up");
    reveal_strlit("koron");
    reveal_strlit("natural");
    reveal_strlit("natural-down");
    reveal_strlit("natural-flat");
    reveal_strlit("natural-sharp");
    reveal_strlit("natural-up");
    reveal_strlit("other");
    reveal_strlit("quarter-flat");
    reveal_strlit("quarter-sharp");
    reveal_strlit("sharp");
    reveal_strlit("sharp-1");
    reveal_strlit("sharp-2");
    reveal_strlit("sharp-3");
    reveal_strlit("sharp-5");
    reveal_strlit("sharp-down");
    reveal_strlit("sharp-sharp");
    reveal_strlit("sharp-up");
    reveal_strlit("slash-flat");
    reveal_strlit("slash-quarter-sharp");
    reveal_strlit("slash-sharp");
    reveal_strlit("sori");
    reveal_strlit("three-quarters-flat");
    reveal_strlit("three-quarters-sharp");
    reveal_strlit("triple-flat");
    reveal_strlit("triple-sharp");
    assert("sharp"@[0] != "koron"@[0]);
    assert("sharp"@[0] != "other"@[0]);
    assert("natural"@[0] != "flat-up"@[0]);
    assert("natural"@[0] != "sharp-1"@[0]);
    assert("natural"@[0] != "sharp-2"@[0]);
    assert("natural"@[0] != "sharp-3"@[0]);
    assert("natural"@[0] != "sharp-5"@[0]);
    assert("flat"@[0] != "sori"@[0]);
    assert("double-sharp"@[0] != "natural-down"@[0]);
    assert("double-sharp"@[0] != "natural-flat"@[0]);
    assert("double-sharp"@[0] != "quarter-flat"@[0]);
    assert("double-sharp"@[0] != "triple-sharp"@[0]);
    assert("sharp-sharp"@[0] != "double-flat"@[0]);
    assert("sharp-sharp"@[1] != "slash-sharp"@[1]);
    assert("sharp-sharp"@[0] != "triple-flat"@[0]);
    assert("flat-flat"@[5] != "flat-down"@[5]);
    assert("double-flat"@[0] != "sharp-sharp"@[0]);
    assert("double-flat"@[0] != "slash-sharp"@[0]);
    assert("double-flat"@[0] != "triple-flat"@[0]);
    assert("natural-sharp"@[0] != "quarter-sharp"@[0]);
    assert("natural-flat"@[0] != "double-sharp"@[0]);
    assert("natural-flat"@[8] != "natural-down"@[8]);
    assert("natural-flat"@[0] != "quarter-flat"@[0]);
    assert("natural-flat"@[0] != "triple-sharp"@[0]);
    assert("quarter-flat"@[0] != "double-sharp"@[0]);
    assert("quarter-flat"@[0] != "natural-down"@[0]);
    assert("quarter-flat"@[0] != "natural-flat"@[0]);
    assert("quarter-flat"@[0] != "triple-sharp"@[0]);
    assert("quarter-sharp"@[0] != "natural-sharp"@[0]);
    assert("three-quarters-flat"@[0] != "slash-quarter-sharp"@[0]);
    assert("sharp-down"@[0] != "natural-up"@[0]);
    assert("sharp-down"@[1] != "slash-flat"@[1]);
    assert("natural-down"@[0] != "double-sharp"@[0]);
    assert("natural-down"@[8] != "natural-flat"@[8]);
    assert("natural-down"@[0] != "quarter-flat"@[0]);
    assert("natural-down"@[0] != "triple-sharp"@[0]);
    assert("natural-up"@[0] != "sharp-down"@[0]);
    assert("natural-up"@[0] != "slash-flat"@[0]);
    assert("flat-down"@[5] != "flat-flat"@[5]);
    assert("flat-up"@[0] != "natural"@[0]);
    assert("flat-up"@[0] != "sharp-1"@[0]);
    assert("flat-up"@[0] != "sharp-2"@[0]);
    assert("flat-up"@[0] != "sharp-3"@[0]);
    assert("flat-up"@[0] != "sharp-5"@[0]);
    assert("triple-sharp"@[0] != "double-sharp"@[0]);
    assert("triple-sharp"@[0] != "natural-down"@[0]);
    assert("triple-sharp"@[0] != "natural-flat"@[0]);
    assert("triple-sharp"@[0] != "quarter-flat"@[0]);
    assert("triple-flat"@[0] != "double-flat"@[0]);
    assert("triple-flat"@[0] != "sharp-sharp"@[0]);
    assert("triple-flat"@[0] != "slash-sharp"@[0]);
    assert("slash-quarter-sharp"@[0] != "three-quarters-flat"@[0]);
    assert("slash-sharp"@[0] != "double-flat"@[0]);
    assert("slash-sharp"@[1] != "sharp-sharp"@[1]);
    assert("slash-sharp"@[0] != "triple-flat"@[0]);
    assert("slash-flat"@[0] != "natural-up"@[0]);
    assert("slash-flat"@[1] != "sharp-down"@[1]);
    assert("sharp-1"@[0] != "flat-up"@[0]);
    assert("sharp-1"@[0] != "natural"@[0]);
    assert("sharp-1"@[6] != "sharp-2"@[6]);
    assert("sharp-1"@[6] != "sharp-3"@[6]);
    assert("sharp-1"@[6] != "sharp-5"@[6]);
    assert("sharp-2"@[0] != "flat-up"@[0]);
    assert("sharp-2"@[0] != "natural"@[0]);
    assert("sharp-2"@[6] != "sharp-1"@[6]);
    assert("sharp-2"@[6] != "sharp-3"@[6]);
    assert("sharp-2"@[6] != "sharp-5"@[6]);
    assert("sharp-3"@[0] != "flat-up"@[0]);
    assert("sharp-3"@[0] != "natural"@[0]);
    assert("sharp-3"@[6] != "sharp-1"@[6]);
    assert("sharp-3"@[6] != "sharp-2"@[6]);
    assert("sharp-3"@[6] != "sharp-5"@[6]);
    assert("sharp-5"@[0] != "flat-up"@[0]);
    assert("sharp-5"@[0] != "natural"@[0]);
    assert("sharp-5"@[6] != "sharp-1"@[6]);
    assert("sharp-5"@[6] != "sharp-2"@[6]);
    assert("sharp-5"@[6] != "sharp-3"@[6]);
    assert("flat-1"@[5] != "flat-2"@[5]);
    assert("flat-1"@[5] != "flat-3"@[5]);
    assert("flat-1"@[5] != "flat-4"@[5]);
    assert("flat-2"@[5] != "flat-1"@[5]);
    assert("flat-2"@[5] != "flat-3"@[5]);
    assert("flat-2"@[5] != "flat-4"@[5]);
    assert("flat-3"@[5] != "flat-1"@[5]);
    assert("flat-3"@[5] != "flat-2"@[5]);
    assert("flat-3"@[5] != "flat-4"@[5]);
    assert("flat-4"@[5] != "flat-1"@[5]);
    assert("flat-4"@[5] != "flat-2"@[5]);
    assert("flat-4"@[5] != "flat-3"@[5]);
    assert("sori"@[0] != "flat"@[0]);
    assert("koron"@[0] != "other"@[0]);
    assert("koron"@[0] != "sharp"@[0]);
    assert("other"@[0] != "koron"@[0]);
    assert("other"@[0] != "sharp"@[0]);
}

/// Each `NoteTypeValue` is written as, and read back from, its name in the
/// notation: `N1024th` as `1024th`, `N512th` as `512th`, `N256th` as
/// `256th`, `N128th` as `128th`, `N64th` as `64th`, `N32nd` as `32nd`,
/// `N16th` as `16th`, `Eighth` as `eighth`, `Quarter` as `quarter`, `Half`
/// as `half`, `Whole` as `whole`, `Breve` as `breve`, `Long` as `long`,
/// `Maxima` as `maxima`.
pub proof fn law_note_type_value_names()
    ensures
        NoteTypeValue::N1024th.to_sexpr_spec() == SexprV::Symbol("1024th"@),
        NoteTypeValue::N512th.to_sexpr_spec() == SexprV::Symbol("512th"@),
        NoteTypeValue::N256th.to_sexpr_spec() == SexprV::Symbol("256th"@),
        NoteTypeValue::N128th.to_sexpr_spec() == SexprV::Symbol("128th"@),
        NoteTypeValue::N64th.to_sexpr_spec() == SexprV::Symbol("64th"@),
        NoteTypeValue::N32nd.to_sexpr_spec() == SexprV::Symbol("32nd"@),
        NoteTypeValue::N16th.to_sexpr_spec() == SexprV::Symbol("16th"@),
        NoteTypeValue::Eighth.to_sexpr_spec() == SexprV::Symbol("eighth"@),
        NoteTypeValue::Quarter.to_sexpr_spec() == SexprV::Symbol("quarter"@),
        NoteTypeValue::Half.to_sexpr_spec() == SexprV::Symbol("half"@),
        NoteTypeValue::Whole.to_sexpr_spec() == SexprV::Symbol("whole"@),
        NoteTypeValue::Breve.to_sexpr_spec() == SexprV::Symbol("breve"@),
        NoteTypeValue::Long.to_sexpr_spec() == SexprV::Symbol("long"@),
        NoteTypeValue::Maxima.to_sexpr_spec() == SexprV::Symbol("maxima"@),
        NoteTypeValue::from_sexpr_error(SexprV::Symbol("1024th"@)) is None,
        NoteTypeValue::from_sexpr_value(SexprV::Symbol("1024th"@), NoteTypeValue::N1024th),
        NoteTypeValue::from_sexpr_error(SexprV::Symbol("512th"@)) is None,
        NoteTypeValue::from_sexpr_value(SexprV::Symbol("512th"@), NoteTypeValue::N512th),
        NoteTypeValue::from_sexpr_error(SexprV::Symbol("256th"@)) is None,
        NoteTypeValue::from_sexpr_value(SexprV::Symbol("256th"@), NoteTypeValue::N256th),
        NoteTypeValue::from_sexpr_error(SexprV::Symbol("128th"@)) is None,
        NoteTypeValue::from_sexpr_value(SexprV::Symbol("128th"@), NoteTypeValue::N128th),
        NoteTypeValue::from_sexpr_error(SexprV::Symbol("64th"@)) is None,
        NoteTypeValue::from_sexpr_value(SexprV::Symbol("64th"@), NoteTypeValue::N64th),
        NoteTypeValue::from_sexpr_error(SexprV::Symbol("32nd"@)) is None,
        NoteTypeValue::from_sexpr_value(SexprV::Symbol("32nd"@), NoteTypeValue::N32nd),
        NoteTypeValue::from_sexpr_error(SexprV::Symbol("16th"@)) is None,
        NoteTypeValue::from_sexpr_value(SexprV::Symbol("16th"@), NoteTypeValue::N16th),
        NoteTypeValue::from_sexpr_error(SexprV::Symbol("eighth"@)) is None,
        NoteTypeValue::from_sexpr_value(SexprV::Symbol("eighth"@), NoteTypeValue::Eighth),
        NoteTypeValue::from_sexpr_error(SexprV::Symbol("quarter"@)) is None,
        NoteTypeValue::from_sexpr_value(SexprV::Symbol("quarter"@), NoteTypeValue::Quarter),
        NoteTypeValue::from_sexpr_error(SexprV::Symbol("half"@)) is None,
        NoteTypeValue::from_sexpr_value(SexprV::Symbol("half"@), NoteTypeValue::Half),
        NoteTypeValue::from_sexpr_error(SexprV::Symbol("whole"@)) is None,
        NoteTypeValue::from_sexpr_value(SexprV::Symbol("whole"@), NoteTypeValue::Whole),
        NoteTypeValue::from_sexpr_error(SexprV::Symbol("breve"@)) is None,
        NoteTypeValue::from_sexpr_value(SexprV::Symbol("breve"@), NoteTypeValue::Breve),
        NoteTypeValue::from_sexpr_error(SexprV::Symbol("long"@)) is None,
        NoteTypeValue::from_sexpr_value(SexprV::Symbol("long"@), NoteTypeValue::Long),
        NoteTypeValue::from_sexpr_error(SexprV::Symbol("maxima"@)) is None,
        NoteTypeValue::from_sexpr_value(SexprV::Symbol("maxima"@), NoteTypeValue::Maxima),
{
    reveal_strlit("1024th");
    reveal_strlit("128th");
    reveal_strlit("16th");
    reveal_strlit("256th");
    reveal_strlit("32nd");
    reveal_strlit("512th");
    reveal_strlit("64th");
    reveal_strlit("breve");
    reveal_strlit("eighth");
    reveal_strlit("half");
    reveal_strlit("long");
    reveal_strlit("maxima");
    reveal_strlit("quarter");
    reveal_strlit("whole");
    assert("1024th"@[0] != "eighth"@[0]);
    assert("1024th"@[0] != "maxima"@[0]);
    assert("512th"@[0] != "128th"@[0]);
    assert("512th"@[0] != "256th"@[0]);
    assert("512th"@[0] != "breve"@[0]);
    assert("512th"@[0] != "whole"@[0]);
    assert("256th"@[0] != "128th"@[0]);
    assert("256th"@[0] != "512th"@[0]);
    assert("256th"@[0] != "breve"@[0]);
    assert("256th"@[0] != "whole"@[0]);
    assert("128th"@[0] != "256th"@[0]);
    assert("128th"@[0] != "512th"@[0]);
    assert("128th"@[0] != "breve"@[0]);
    assert("128th"@[0] != "whole"@[0]);
    assert("64th"@[0] != "16th"@[0]);
    assert("64th"@[0] != "32nd"@[0]);
    assert("64th"@[0] != "half"@[0]);
    assert("64th"@[0] != "long"@[0]);
    assert("32nd"@[0] != "16th"@[0]);
    assert("32nd"@[0] != "64th"@[0]);
    assert("32nd"@[0] != "half"@[0]);
    assert("32nd"@[0] != "long"@[0]);
    assert("16th"@[0] != "32nd"@[0]);
    assert("16th"@[0] != "64th"@[0]);
    assert("16th"@[0] != "half"@[0]);
    assert("16th"@[0] != "long"@[0]);
    assert("eighth"@[0] != "1024th"@[0]);
    assert("eighth"@[0] != "maxima"@[0]);
    assert("half"@[0] != "16th"@[0]);
    assert("half"@[0] != "32nd"@[0]);
    assert("half"@[0] != "64th"@[0]);
    assert("half"@[0] != "long"@[0]);
    assert("whole"@[0] != "128th"@[0]);
    assert("whole"@[0] != "256th"@[0]);
    assert("whole"@[0] != "512th"@[0]);
    assert("whole"@[0] != "breve"@[0]);
    assert("breve"@[0] != "128th"@[0]);
    assert("breve"@[0] != "256th"@[0]);
    assert("breve"@[0] != "512th"@[0]);
    assert("breve"@[0] != "whole"@[0]);
    assert("long"@[0] != "16th"@[0]);
    assert("long"@[0] != "32nd"@[0]);
    assert("long"@[0] != "64th"@[0]);
    assert("long"@[0] != "half"@[0]);
    assert("maxima"@[0] != "1024th"@[0]);
    assert("maxima"@[0] != "eighth"@[0]);
}

/// Each `DynamicElement` is written as, and read back from, its name in the
/// notation: `P` as `p`, `PP` as `pp`, `PPP` as `ppp`, `PPPP` as `pppp`,
/// `PPPPP` as `ppppp`, `PPPPPP` as `pppppp`, `F` as `f`, `FF` as `ff`,
/// `FFF` as `fff`, `FFFF` as `ffff`, `FFFFF` as `fffff`, `FFFFFF` as
/// `ffffff`, `MP` as `mp`, `MF` as `mf`, `SF` as `sf`, `SFP` as `sfp`,
/// `SFPP` as `sfpp`, `FP` as `fp`, `RF` as `rf`, `RFZ` as `rfz`, `SFZ` as
/// `sfz`, `SFFZ` as `sffz`, `FZ` as `fz`, `N` as `n`, `PF` as `pf`, `SFZP`
/// as `sfzp`.
pub proof fn law_dynamic_element_names()
    ensures
        DynamicElement::P.to_sexpr_spec() == SexprV::Symbol("p"@),
        DynamicElement::PP.to_sexpr_spec() == SexprV::Symbol("pp"@),
        DynamicElement::PPP.to_sexpr_spec() == SexprV::Symbol("ppp"@),
        DynamicElement::PPPP.to_sexpr_spec() == SexprV::Symbol("pppp"@),
        DynamicElement::PPPPP.to_sexpr_spec() == SexprV::Symbol("ppppp"@),
        DynamicElement::PPPPPP.to_sexpr_spec() == SexprV::Symbol("pppppp"@),
        DynamicElement::F.to_sexpr_spec() == SexprV::Symbol("f"@),
        DynamicElement::FF.to_sexpr_spec() == SexprV::Symbol("ff"@),
        DynamicElement::FFF.to_sexpr_spec() == SexprV::Symbol("fff"@),
        DynamicElement::FFFF.to_sexpr_spec() == SexprV::Symbol("ffff"@),
        DynamicElement::FFFFF.to_sexpr_spec() == SexprV::Symbol("fffff"@),
        DynamicElement::FFFFFF.to_sexpr_spec() == SexprV::Symbol("ffffff"@),
        DynamicElement::MP.to_sexpr_spec() == SexprV::Symbol("mp"@),
        DynamicElement::MF.to_sexpr_spec() == SexprV::Symbol("mf"@),
        DynamicElement::SF.to_sexpr_spec() == SexprV::Symbol("sf"@),
        DynamicElement::SFP.to_sexpr_spec() == SexprV::Symbol("sfp"@),
        DynamicElement::SFPP.to_sexpr_spec() == SexprV::Symbol("sfpp"@),
        DynamicElement::FP.to_sexpr_spec() == SexprV::Symbol("fp"@),
        DynamicElement::RF.to_sexpr_spec() == SexprV::Symbol("rf"@),
        DynamicElement::RFZ.to_sexpr_spec() == SexprV::Symbol("rfz"@),
        DynamicElement::SFZ.to_sexpr_spec() == SexprV::Symbol("sfz"@),
        DynamicElement::SFFZ.to_sexpr_spec() == SexprV::Symbol("sffz"@),
        DynamicElement::FZ.to_sexpr_spec() == SexprV::Symbol("fz"@),
        DynamicElement::N.to_sexpr_spec() == SexprV::Symbol("n"@),
        DynamicElement::PF.to_sexpr_spec() == SexprV::Symbol("pf"@),
        DynamicElement::SFZP.to_sexpr_spec() == SexprV::Symbol("sfzp"@),
        DynamicElement::from_sexpr_error(SexprV::Symbol("p"@)) is None,
        DynamicElement::from_sexpr_value(SexprV::Symbol("p"@), DynamicElement::P),
        DynamicElement::from_sexpr_error(SexprV::Symbol("pp"@)) is None,
        DynamicElement::from_sexpr_value(SexprV::Symbol("pp"@), DynamicElement::PP),
        DynamicElement::from_sexpr_error(SexprV::Symbol("ppp"@)) is None,
        DynamicElement::from_sexpr_value(SexprV::Symbol("ppp"@), DynamicElement::PPP),
        DynamicElement::from_sexpr_error(SexprV::Symbol("pppp"@)) is None,
        DynamicElement::from_sexpr_value(SexprV::Symbol("pppp"@), DynamicElement::PPPP),
        DynamicElement::from_sexpr_error(SexprV::Symbol("ppppp"@)) is None,
        DynamicElement::from_sexpr_value(SexprV::Symbol("ppppp"@), DynamicElement::PPPPP),
        DynamicElement::from_sexpr_error(SexprV::Symbol("pppppp"@)) is None,
        DynamicElement::from_sexpr_value(SexprV::Symbol("pppppp"@), DynamicElement::PPPPPP),
        DynamicElement::from_sexpr_error(SexprV::Symbol("f"@)) is None,
        DynamicElement::from_sexpr_value(SexprV::Symbol("f"@), DynamicElement::F),
        DynamicElement::from_sexpr_error(SexprV::Symbol("ff"@)) is None,
        DynamicElement::from_sexpr_value(SexprV::Symbol("ff"@), DynamicElement::FF),
        DynamicElement::from_sexpr_error(SexprV::Symbol("fff"@)) is None,
        DynamicElement::from_sexpr_value(SexprV::Symbol("fff"@), DynamicElement::FFF),
        DynamicElement::from_sexpr_error(SexprV::Symbol("ffff"@)) is None,
        DynamicElement::from_sexpr_value(SexprV::Symbol("ffff"@), DynamicElement::FFFF),
        DynamicElement::from_sexpr_error(SexprV::Symbol("fffff"@)) is None,
        DynamicElement::from_sexpr_value(SexprV::Symbol("fffff"@), DynamicElement::FFFFF),
        DynamicElement::from_sexpr_error(SexprV::Symbol("ffffff"@)) is None,
        DynamicElement::from_sexpr_value(SexprV::Symbol("ffffff"@), DynamicElement::FFFFFF),
        DynamicElement::from_sexpr_error(SexprV::Symbol("mp"@)) is None,
        DynamicElement::from_sexpr_value(SexprV::Symbol("mp"@), DynamicElement::MP),
        DynamicElement::from_sexpr_error(SexprV::Symbol("mf"@)) is None,
        DynamicElement::from_sexpr_value(SexprV::Symbol("mf"@), DynamicElement::MF),
        DynamicElement::from_sexpr_error(SexprV::Symbol("sf"@)) is None,
        DynamicElement::from_sexpr_value(SexprV::Symbol("sf"@), DynamicElement::SF),
        DynamicElement::from_sexpr_error(SexprV::Symbol("sfp"@)) is None,
        DynamicElement::from_sexpr_value(SexprV::Symbol("sfp"@), DynamicElement::SFP),
        DynamicElement::from_sexpr_error(SexprV::Symbol("sfpp"@)) is None,
        DynamicElement::from_sexpr_value(SexprV::Symbol("sfpp"@), DynamicElement::SFPP),
        DynamicElement::from_sexpr_error(SexprV::Symbol("fp"@)) is None,
        DynamicElement::from_sexpr_value(SexprV::Symbol("fp"@), DynamicElement::FP),
        DynamicElement::from_sexpr_error(SexprV::Symbol("rf"@)) is None,
        DynamicElement::from_sexpr_value(SexprV::Symbol("rf"@), DynamicElement::RF),
        DynamicElement::from_sexpr_error(SexprV::Symbol("rfz"@)) is None,
        DynamicElement::from_sexpr_value(SexprV::Symbol("rfz"@), DynamicElement::RFZ),
        DynamicElement::from_sexpr_error(SexprV::Symbol("sfz"@)) is None,
        DynamicElement::from_sexpr_value(SexprV::Symbol("sfz"@), DynamicElement::SFZ),
        DynamicElement::from_sexpr_error(SexprV::Symbol("sffz"@)) is None,
        DynamicElement::from_sexpr_value(SexprV::Symbol("sffz"@), DynamicElement::SFFZ),
        DynamicElement::from_sexpr_error(SexprV::Symbol("fz"@)) is None,
        DynamicElement::from_sexpr_value(SexprV::Symbol("fz"@), DynamicElement::FZ),
        DynamicElement::from_sexpr_error(SexprV::Symbol("n"@)) is None,
        DynamicElement::from_sexpr_value(SexprV::Symbol("n"@), DynamicElement::N),
        DynamicElement::from_sexpr_error(SexprV::Symbol("pf"@)) is None,
        DynamicElement::from_sexpr_value(SexprV::Symbol("pf"@), DynamicElement::PF),
        DynamicElement::from_sexpr_error(SexprV::Symbol("sfzp"@)) is None,
        DynamicElement::from_sexpr_value(SexprV::Symbol("sfzp"@), DynamicElement::SFZP),
{
    reveal_strlit("f");
    reveal_strlit("ff");
    reveal_strlit("fff");
    reveal_strlit("ffff");
    reveal_strlit("fffff");
    reveal_strlit("ffffff");
    reveal_strlit("fp");
    reveal_strlit("fz");
    reveal_strlit("mf");
    reveal_strlit("mp");
    reveal_strlit("n");
    reveal_strlit("p");
    reveal_strlit("pf");
    reveal_strlit("pp");
    reveal_strlit("ppp");
    reveal_strlit("pppp");
    reveal_strlit("ppppp");
    reveal_strlit("pppppp");
    reveal_strlit("rf");
    reveal_strlit("rfz");
    reveal_strlit("sf");
    reveal_strlit("sffz");
    reveal_strlit("sfp");
    reveal_strlit("sfpp");
    reveal_strlit("sfz");
    reveal_strlit("sfzp");
    assert("p"@[0] != "f"@[0]);
    assert("p"@[0] != "n"@[0]);
    assert("pp"@[0] != "ff"@[0]);
    assert("pp"@[0] != "fp"@[0]);
    assert("pp"@[0] != "fz"@[0]);
    assert("pp"@[0] != "mf"@[0]);
    assert("pp"@[0] != "mp"@[0]);
    assert("pp"@[1] != "pf"@[1]);
    assert("pp"@[0] != "rf"@[0]);
    assert("pp"@[0] != "sf"@[0]);
    assert("ppp"@[0] != "fff"@[0]);
    assert("ppp"@[0] != "rfz"@[0]);
    assert("ppp"@[0] != "sfp"@[0]);
    assert("ppp"@[0] != "sfz"@[0]);
    assert("pppp"@[0] != "ffff"@[0]);
    assert("pppp"@[0] != "sffz"@[0]);
    assert("pppp"@[0] != "sfpp"@[0]);
    assert("pppp"@[0] != "sfzp"@[0]);
    assert("ppppp"@[0] != "fffff"@[0]);
    assert("pppppp"@[0] != "ffffff"@[0]);
    assert("f"@[0] != "n"@[0]);
    assert("f"@[0] != "p"@[0]);
    assert("ff"@[1] != "fp"@[1]);
    assert("ff"@[1] != "fz"@[1]);
    assert("ff"@[0] != "mf"@[0]);
    assert("ff"@[0] != "mp"@[0]);
    assert("ff"@[0] != "pf"@[0]);
    assert("ff"@[0] != "pp"@[0]);
    assert("ff"@[0] != "rf"@[0]);
    assert("ff"@[0] != "sf"@[0]);
    assert("fff"@[0] != "ppp"@[0]);
    assert("fff"@[0] != "rfz"@[0]);
    assert("fff"@[0] != "sfp"@[0]);
    assert("fff"@[0] != "sfz"@[0]);
    assert("ffff"@[0] != "pppp"@[0]);
    assert("ffff"@[0] != "sffz"@[0]);
    assert("ffff"@[0] != "sfpp"@[0]);
    assert("ffff"@[0] != "sfzp"@[0]);
    assert("fffff"@[0] != "ppppp"@[0]);
    assert("ffffff"@[0] != "pppppp"@[0]);
    assert("mp"@[0] != "ff"@[0]);
    assert("mp"@[0] != "fp"@[0]);
    assert("mp"@[0] != "fz"@[0]);
    assert("mp"@[1] != "mf"@[1]);
    assert("mp"@[0] != "pf"@[0]);
    assert("mp"@[0] != "pp"@[0]);
    assert("mp"@[0] != "rf"@[0]);
    assert("mp"@[0] != "sf"@[0]);
    assert("mf"@[0] != "ff"@[0]);
    assert("mf"@[0] != "fp"@[0]);
    assert("mf"@[0] != "fz"@[0]);
    assert("mf"@[1] != "mp"@[1]);
    assert("mf"@[0] != "pf"@[0]);
    assert("mf"@[0] != "pp"@[0]);
    assert("mf"@[0] != "rf"@[0]);
    assert("mf"@[0] != "sf"@[0]);
    assert("sf"@[0] != "ff"@[0]);
    assert("sf"@[0] != "fp"@[0]);
    assert("sf"@[0] != "fz"@[0]);
    assert("sf"@[0] != "mf"@[0]);
    assert("sf"@[0] != "mp"@[0]);
    assert("sf"@[0] != "pf"@[0]);
    assert("sf"@[0] != "pp"@[0]);
    assert("sf"@[0] != "rf"@[0]);
    assert("sfp"@[0] != "fff"@[0]);
    assert("sfp"@[0] != "ppp"@[0]);
    assert("sfp"@[0] != "rfz"@[0]);
    assert("sfp"@[2] != "sfz"@[2]);
    assert("sfpp"@[0] != "ffff"@[0]);
    assert("sfpp"@[0] != "pppp"@[0]);
    assert("sfpp"@[2] != "sffz"@[2]);
    assert("sfpp"@[2] != "sfzp"@[2]);
    assert("fp"@[1] != "ff"@[1]);
    assert("fp"@[1] != "fz"@[1]);
    assert("fp"@[0] != "mf"@[0]);
    assert("fp"@[0] != "mp"@[0]);
    assert("fp"@[0] != "pf"@[0]);
    assert("fp"@[0] != "pp"@[0]);
    assert("fp"@[0] != "rf"@[0]);
    assert("fp"@[0] != "sf"@[0]);
    assert("rf"@[0] != "ff"@[0]);
    assert("rf"@[0] != "fp"@[0]);
    assert("rf"@[0] != "fz"@[0]);
    assert("rf"@[0] != "mf"@[0]);
    assert("rf"@[0] != "mp"@[0]);
    assert("rf"@[0] != "pf"@[0]);
    assert("rf"@[0] != "pp"@[0]);
    assert("rf"@[0] != "sf"@[0]);
    assert("rfz"@[0] != "fff"@[0]);
    assert("rfz"@[0] != "ppp"@[0]);
    assert("rfz"@[0] != "sfp"@[0]);
    assert("rfz"@[0] != "sfz"@[0]);
    assert("sfz"@[0] != "fff"@[0]);
    assert("sfz"@[0] != "ppp"@[0]);
    assert("sfz"@[0] != "rfz"@[0]);
    assert("sfz"@[2] != "sfp"@[2]);
    assert("sffz"@[0] != "ffff"@[0]);
    assert("sffz"@[0] != "pppp"@[0]);
    assert("sffz"@[2] != "sfpp"@[2]);
    assert("sffz"@[2] != "sfzp"@[2]);
    assert("fz"@[1] != "ff"@[1]);
    assert("fz"@[1] != "fp"@[1]);
    assert("fz"@[0] != "mf"@[0]);
    assert("fz"@[0] != "mp"@[0]);
    assert("fz"@[0] != "pf"@[0]);
    assert("fz"@[0] != "pp"@[0]);
    assert("fz"@[0] != "rf"@[0]);
    assert("fz"@[0] != "sf"@[0]);
    assert("n"@[0] != "f"@[0]);
    assert("n"@[0] != "p"@[0]);
    assert("pf"@[0] != "ff"@[0]);
    assert("pf"@[0] != "fp"@[0]);
    assert("pf"@[0] != "fz"@[0]);
    assert("pf"@[0] != "mf"@[0]);
    assert("pf"@[0] != "mp"@[0]);
    assert("pf"@[1] != "pp"@[1]);
    assert("pf"@[0] != "rf"@[0]);
    assert("pf"@[0] != "sf"@[0]);
    assert("sfzp"@[0] != "ffff"@[0]);
    assert("sfzp"@[0] != "pppp"@[0]);
    assert("sfzp"@[2] != "sffz"@[2]);
    assert("sfzp"@[2] != "sfpp"@[2]);
}

/// Each `WedgeType` is written as its name in the notation: `Crescendo` as
/// `crescendo`, `Diminuendo` as `diminuendo`, `Stop` as `stop`, `Continue`
/// as `continue`.
pub proof fn law_wedge_type_names()
    ensures
        WedgeType::Crescendo.to_sexpr_spec() == SexprV::Symbol("crescendo"@),
        WedgeType::Diminuendo.to_sexpr_spec() == SexprV::Symbol("diminuendo"@),
        WedgeType::Stop.to_sexpr_spec() == SexprV::Symbol("stop"@),
        WedgeType::Continue.to_sexpr_spec() == SexprV::Symbol("continue"@),
{
}

/// Each `PedalType` is written as its name in the notation: `Start` as
/// `start`, `Stop` as `stop`, `Sostenuto` as `sostenuto`, `Change` as
/// `change`, `Continue` as `continue`, `Discontinue` as `discontinue`,
/// `Resume` as `resume`.
pub proof fn law_pedal_type_names()
    ensures
        PedalType::Start.to_sexpr_spec() == SexprV::Symbol("start"@),
        PedalType::Stop.to_sexpr_spec() == SexprV::Symbol("stop"@),
        PedalType::Sostenuto.to_sexpr_spec() == SexprV::Symbol("sostenuto"@),
        PedalType::Change.to_sexpr_spec() == SexprV::Symbol("change"@),
        PedalType::Continue.to_sexpr_spec() == SexprV::Symbol("continue"@),
        PedalType::Discontinue.to_sexpr_spec() == SexprV::Symbol("discontinue"@),
        PedalType::Resume.to_sexpr_spec() == SexprV::Symbol("resume"@),
{
}

/// Each `UpDownStopContinue` is written as its name in the notation: `Up`
/// as `up`, `Down` as `down`, `Stop` as `stop`, `Continue` as `continue`.
pub proof fn law_up_down_stop_continue_names()
    ensures
        UpDownStopContinue::Up.to_sexpr_spec() == SexprV::Symbol("up"@),
        UpDownStopContinue::Down.to_sexpr_spec() == SexprV::Symbol("down"@),
        UpDownStopContinue::Stop.to_sexpr_spec() == SexprV::Symbol("stop"@),
        UpDownStopContinue::Continue.to_sexpr_spec() == SexprV::Symbol("continue"@),
{
}

/// Each `ShowTuplet` is written as, and read back from, its name in the
/// notation: `Actual` as `actual`, `Both` as `both`, `Neither` as `none`.
pub proof fn law_show_tuplet_names()
    ensures
        ShowTuplet::Actual.to_sexpr_spec() == SexprV::Symbol("actual"@),
        ShowTuplet::Both.to_sexpr_spec() == SexprV::Symbol("both"@),
        ShowTuplet::Neither.to_sexpr_spec() == SexprV::Symbol("none"@),
        ShowTuplet::from_sexpr_error(SexprV::Symbol("actual"@)) is None,
        ShowTuplet::from_sexpr_value(SexprV::Symbol("actual"@), ShowTuplet::Actual),
        ShowTuplet::from_sexpr_error(SexprV::Symbol("both"@)) is None,
        ShowTuplet::from_sexpr_value(SexprV::Symbol("both"@), ShowTuplet::Both),
        ShowTuplet::from_sexpr_error(SexprV::Symbol("none"@)) is None,
        ShowTuplet::from_sexpr_value(SexprV::Symbol("none"@), ShowTuplet::Neither),
{
    reveal_strlit("actual");
    reveal_strlit("both");
    reveal_strlit("none");
    assert("both"@[0] != "none"@[0]);
    assert("none"@[0] != "both"@[0]);
}

/// Each `LineShape` is written as, and read back from, its name in the
/// notation: `Straight` as `straight`, `Curved` as `curved`.
pub proof fn law_line_shape_names()
    ensures
        LineShape::Straight.to_sexpr_spec() == SexprV::Symbol("straight"@),
        LineShape::Curved.to_sexpr_spec() == SexprV::Symbol("curved"@),
        LineShape::from_sexpr_error(SexprV::Symbol("straight"@)) is None,
        LineShape::from_sexpr_value(SexprV::Symbol("straight"@), LineShape::Straight),
        LineShape::from_sexpr_error(SexprV::Symbol("curved"@)) is None,
        LineShape::from_sexpr_value(SexprV::Symbol("curved"@), LineShape::Curved),
{
    reveal_strlit("curved");
    reveal_strlit("straight");
}

/// Each `TopBottom` is written as, and read back from, its name in the
/// notation: `Top` as `top`, `Bottom` as `bottom`.
pub proof fn law_top_bottom_names()
    ensures
        TopBottom::Top.to_sexpr_spec() == SexprV::Symbol("top"@),
        TopBottom::Bottom.to_sexpr_spec() == SexprV::Symbol("bottom"@),
        TopBottom::from_sexpr_error(SexprV::Symbol("top"@)) is None,
        TopBottom::from_sexpr_value(SexprV::Symbol("top"@), TopBottom::Top),
        TopBottom::from_sexpr_error(SexprV::Symbol("bottom"@)) is None,
        TopBottom::from_sexpr_value(SexprV::Symbol("bottom"@), TopBottom::Bottom),
{
    reveal_strlit("bottom");
    reveal_strlit("top");
}

/// Each `LineLength` is written as, and read back from, its name in the
/// notation: `Short` as `short`, `Medium` as `medium`, `Long` as `long`.
pub proof fn law_line_length_names()
    ensures
        LineLength::Short.to_sexpr_spec() == SexprV::Symbol("short"@),
        LineLength::Medium.to_sexpr_spec() == SexprV::Symbol("medium"@),
        LineLength::Long.to_sexpr_spec() == SexprV::Symbol("long"@),
        LineLength::from_sexpr_error(SexprV::Symbol("short"@)) is None,
        LineLength::from_sexpr_value(SexprV::Symbol("short"@), LineLength::Short),
        LineLength::from_sexpr_error(SexprV::Symbol("medium"@)) is None,
        LineLength::from_sexpr_value(SexprV::Symbol("medium"@), LineLength::Medium),
        LineLength::from_sexpr_error(SexprV::Symbol("long"@)) is None,
        LineLength::from_sexpr_value(SexprV::Symbol("long"@), LineLength::Long),
{
    reveal_strlit("long");
    reveal_strlit("medium");
    reveal_strlit("short");
}

/// Each `BreathMarkValue` is written as, and read back from, its name in
/// the notation: `Empty` as `empty`, `Comma` as `comma`, `Tick` as `tick`,
/// `Upbow` as `upbow`, `Salzedo` as `salzedo`.
pub proof fn law_breath_mark_value_names()
    ensures
        BreathMarkValue::Empty.to_sexpr_spec() == SexprV::Symbol("empty"@),
        BreathMarkValue::Comma.to_sexpr_spec() == SexprV::Symbol("comma"@),
        BreathMarkValue::Tick.to_sexpr_spec() == SexprV::Symbol("tick"@),
        BreathMarkValue::Upbow.to_sexpr_spec() == SexprV::Symbol("upbow"@),
        BreathMarkValue::Salzedo.to_sexpr_spec() == SexprV::Symbol("salzedo"@),
        BreathMarkValue::from_sexpr_error(SexprV::Symbol("empty"@)) is None,
        BreathMarkValue::from_sexpr_value(SexprV::Symbol("empty"@), BreathMarkValue::Empty),
        BreathMarkValue::from_sexpr_error(SexprV::Symbol("comma"@)) is None,
        BreathMarkValue::from_sexpr_value(SexprV::Symbol("comma"@), BreathMarkValue::Comma),
        BreathMarkValue::from_sexpr_error(SexprV::Symbol("tick"@)) is None,
        BreathMarkValue::from_sexpr_value(SexprV::Symbol("tick"@), BreathMarkValue::Tick),
        BreathMarkValue::from_sexpr_error(SexprV::Symbol("upbow"@)) is None,
        BreathMarkValue::from_sexpr_value(SexprV::Symbol("upbow"@), BreathMarkValue::Upbow),
        BreathMarkValue::from_sexpr_error(SexprV::Symbol("salzedo"@)) is None,
        BreathMarkValue::from_sexpr_value(SexprV::Symbol("salzedo"@), BreathMarkValue::Salzedo),
{
    reveal_strlit("comma");
    reveal_strlit("empty");
    reveal_strlit("salzedo");
    reveal_strlit("tick");
    reveal_strlit("upbow");
    assert("empty"@[0] != "comma"@[0]);
    assert("empty"@[0] != "upbow"@[0]);
    assert("comma"@[0] != "empty"@[0]);
    assert("comma"@[0] != "upbow"@[0]);
    assert("upbow"@[0] != "comma"@[0]);
    assert("upbow"@[0] != "empty"@[0]);
}

/// Each `CaesuraValue` is written as, and read back from, its name in the
/// notation: `Normal` as `normal`, `Thick` as `thick`, `Short` as `short`,
/// `Curved` as `curved`, `Single` as `single`.
pub proof fn law_caesura_value_names()
    ensures
        CaesuraValue::Normal.to_sexpr_spec() == SexprV::Symbol("normal"@),
        CaesuraValue::Thick.to_sexpr_spec() == SexprV::Symbol("thick"@),
        CaesuraValue::Short.to_sexpr_spec() == SexprV::Symbol("short"@),
        CaesuraValue::Curved.to_sexpr_spec() == SexprV::Symbol("curved"@),
        CaesuraValue::Single.to_sexpr_spec() == SexprV::Symbol("single"@),
        CaesuraValue::from_sexpr_error(SexprV::Symbol("normal"@)) is None,
        CaesuraValue::from_sexpr_value(SexprV::Symbol("normal"@), CaesuraValue::Normal),
        CaesuraValue::from_sexpr_error(SexprV::Symbol("thick"@)) is None,
        CaesuraValue::from_sexpr_value(SexprV::Symbol("thick"@), CaesuraValue::Thick),
        CaesuraValue::from_sexpr_error(SexprV::Symbol("short"@)) is None,
        CaesuraValue::from_sexpr_value(SexprV::Symbol("short"@), CaesuraValue::Short),
        CaesuraValue::from_sexpr_error(SexprV::Symbol("curved"@)) is None,
        CaesuraValue::from_sexpr_value(SexprV::Symbol("curved"@), CaesuraValue::Curved),
        CaesuraValue::from_sexpr_error(SexprV::Symbol("single"@)) is None,
        CaesuraValue::from_sexpr_value(SexprV::Symbol("single"@), CaesuraValue::Single),
{
    reveal_strlit("curved");
    reveal_strlit("normal");
    reveal_strlit("short");
    reveal_strlit("single");
    reveal_strlit("thick");
    assert("normal"@[0] != "curved"@[0]);
    assert("normal"@[0] != "single"@[0]);
    assert("thick"@[0] != "short"@[0]);
    assert("short"@[0] != "thick"@[0]);
    assert("curved"@[0] != "normal"@[0]);
    assert("curved"@[0] != "single"@[0]);
    assert("single"@[0] != "curved"@[0]);
    assert("single"@[0] != "normal"@[0]);
}

/// Each `StartNote` is written as, and read back from, its name in the
/// notation: `Upper` as `upper`, `Main` as `main`, `Below` as `below`.
pub proof fn law_start_note_names()
    ensures
        StartNote::Upper.to_sexpr_spec() == SexprV::Symbol("upper"@),
        StartNote::Main.to_sexpr_spec() == SexprV::Symbol("main"@),
        StartNote::Below.to_sexpr_spec() == SexprV::Symbol("below"@),
        StartNote::from_sexpr_error(SexprV::Symbol("upper"@)) is None,
        StartNote::from_sexpr_value(SexprV::Symbol("upper"@), StartNote::Upper),
        StartNote::from_sexpr_error(SexprV::Symbol("main"@)) is None,
        StartNote::from_sexpr_value(SexprV::Symbol("main"@), StartNote::Main),
        StartNote::from_sexpr_error(SexprV::Symbol("below"@)) is None,
        StartNote::from_sexpr_value(SexprV::Symbol("below"@), StartNote::Below),
{
    reveal_strlit("below");
    reveal_strlit("main");
    reveal_strlit("upper");
    assert("upper"@[0] != "below"@[0]);
    assert("below"@[0] != "upper"@[0]);
}

/// Each `TrillStep` is written as, and read back from, its name in the
/// notation: `Whole` as `whole`, `Half` as `half`, `Unison` as `unison`.
pub proof fn law_trill_step_names()
    ensures
        TrillStep::Whole.to_sexpr_spec() == SexprV::Symbol("whole"@),
        TrillStep::Half.to_sexpr_spec() == SexprV::Symbol("half"@),
        TrillStep::Unison.to_sexpr_spec() == SexprV::Symbol("unison"@),
        TrillStep::from_sexpr_error(SexprV::Symbol("whole"@)) is None,
        TrillStep::from_sexpr_value(SexprV::Symbol("whole"@), TrillStep::Whole),
        TrillStep::from_sexpr_error(SexprV::Symbol("half"@)) is None,
        TrillStep::from_sexpr_value(SexprV::Symbol("half"@), TrillStep::Half),
        TrillStep::from_sexpr_error(SexprV::Symbol("unison"@)) is None,
        TrillStep::from_sexpr_value(SexprV::Symbol("unison"@), TrillStep::Unison),
{
    reveal_strlit("half");
    reveal_strlit("unison");
    reveal_strlit("whole");
}

/// Each `TwoNoteTurn` is written as, and read back from, its name in the
/// notation: `Whole` as `whole`, `Half` as `half`, `NoTurn` as `none`.
pub proof fn law_two_note_turn_names()
    ensures
        TwoNoteTurn::Whole.to_sexpr_spec() == SexprV::Symbol("whole"@),
        TwoNoteTurn::Half.to_sexpr_spec() == SexprV::Symbol("half"@),
        TwoNoteTurn::NoTurn.to_sexpr_spec() == SexprV::Symbol("none"@),
        TwoNoteTurn::from_sexpr_error(SexprV::Symbol("whole"@)) is None,
        TwoNoteTurn::from_sexpr_value(SexprV::Symbol("whole"@), TwoNoteTurn::Whole),
        TwoNoteTurn::from_sexpr_error(SexprV::Symbol("half"@)) is None,
        TwoNoteTurn::from_sexpr_value(SexprV::Symbol("half"@), TwoNoteTurn::Half),
        TwoNoteTurn::from_sexpr_error(SexprV::Symbol("none"@)) is None,
        TwoNoteTurn::from_sexpr_value(SexprV::Symbol("none"@), TwoNoteTurn::NoTurn),
{
    reveal_strlit("half");
    reveal_strlit("none");
    reveal_strlit("whole");
    assert("half"@[0] != "none"@[0]);
    assert("none"@[0] != "half"@[0]);
}

/// Each `TremoloType` is written as, and read back from, its name in the
/// notation: `Start` as `start`, `Stop` as `stop`, `Single` as `single`,
/// `Unmeasured` as `unmeasured`.
pub proof fn law_tremolo_type_names()
    ensures
        TremoloType::Start.to_sexpr_spec() == SexprV::Symbol("start"@),
        TremoloType::Stop.to_sexpr_spec() == SexprV::Symbol("stop"@),
        TremoloType::Single.to_sexpr_spec() == SexprV::Symbol("single"@),
        TremoloType::Unmeasured.to_sexpr_spec() == SexprV::Symbol("unmeasured"@),
        TremoloType::from_sexpr_error(SexprV::Symbol("start"@)) is None,
        TremoloType::from_sexpr_value(SexprV::Symbol("start"@), TremoloType::Start),
        TremoloType::from_sexpr_error(SexprV::Symbol("stop"@)) is None,
        TremoloType::from_sexpr_value(SexprV::Symbol("stop"@), TremoloType::Stop),
        TremoloType::from_sexpr_error(SexprV::Symbol("single"@)) is None,
        TremoloType::from_sexpr_value(SexprV::Symbol("single"@), TremoloType::Single),
        TremoloType::from_sexpr_error(SexprV::Symbol("unmeasured"@)) is None,
        TremoloType::from_sexpr_value(SexprV::Symbol("unmeasured"@), TremoloType::Unmeasured),
{
    reveal_strlit("single");
    reveal_strlit("start");
    reveal_strlit("stop");
    reveal_strlit("unmeasured");
}

/// Each `BendRelease` is written as, and read back from, its name in the
/// notation: `Early` as `early`, `Late` as `late`.
pub proof fn law_bend_release_names()
    ensures
        BendRelease::Early.to_sexpr_spec() == SexprV::Symbol("early"@),
        BendRelease::Late.to_sexpr_spec() == SexprV::Symbol("late"@),
        BendRelease::from_sexpr_error(SexprV::Symbol("early"@)) is None,
        BendRelease::from_sexpr_value(SexprV::Symbol("early"@), BendRelease::Early),
        BendRelease::from_sexpr_error(SexprV::Symbol("late"@)) is None,
        BendRelease::from_sexpr_value(SexprV::Symbol("late"@), BendRelease::Late),
{
    reveal_strlit("early");
    reveal_strlit("late");
}

/// Each `TapHand` is written as, and read back from, its name in the
/// notation: `Left` as `left`, `Right` as `right`.
pub proof fn law_tap_hand_names()
    ensures
        TapHand::Left.to_sexpr_spec() == SexprV::Symbol("left"@),
        TapHand::Right.to_sexpr_spec() == SexprV::Symbol("right"@),
        TapHand::from_sexpr_error(SexprV::Symbol("left"@)) is None,
        TapHand::from_sexpr_value(SexprV::Symbol("left"@), TapHand::Left),
        TapHand::from_sexpr_error(SexprV::Symbol("right"@)) is None,
        TapHand::from_sexpr_value(SexprV::Symbol("right"@), TapHand::Right),
{
    reveal_strlit("left");
    reveal_strlit("right");
}

/// Each `HoleClosedValue` is written as, and read back from, its name in
/// the notation: `Yes` as `yes`, `No` as `no`, `Half` as `half`.
pub proof fn law_hole_closed_value_names()
    ensures
        HoleClosedValue::Yes.to_sexpr_spec() == SexprV::Symbol("yes"@),
        HoleClosedValue::No.to_sexpr_spec() == SexprV::Symbol("no"@),
        HoleClosedValue::Half.to_sexpr_spec() == SexprV::Symbol("half"@),
        HoleClosedValue::from_sexpr_error(SexprV::Symbol("yes"@)) is None,
        HoleClosedValue::from_sexpr_value(SexprV::Symbol("yes"@), HoleClosedValue::Yes),
        HoleClosedValue::from_sexpr_error(SexprV::Symbol("no"@)) is None,
        HoleClosedValue::from_sexpr_value(SexprV::Symbol("no"@), HoleClosedValue::No),
        HoleClosedValue::from_sexpr_error(SexprV::Symbol("half"@)) is None,
        HoleClosedValue::from_sexpr_value(SexprV::Symbol("half"@), HoleClosedValue::Half),
{
    reveal_strlit("half");
    reveal_strlit("no");
    reveal_strlit("yes");
}

/// Each `HoleClosedLocation` is written as, and read back from, its name in
/// the notation: `Right` as `right`, `Bottom` as `bottom`, `Left` as
/// `left`, `Top` as `top`.
pub proof fn law_hole_closed_location_names()
    ensures
        HoleClosedLocation::Right.to_sexpr_spec() == SexprV::Symbol("right"@),
        HoleClosedLocation::Bottom.to_sexpr_spec() == SexprV::Symbol("bottom"@),
        HoleClosedLocation::Left.to_sexpr_spec() == SexprV::Symbol("left"@),
        HoleClosedLocation::Top.to_sexpr_spec() == SexprV::Symbol("top"@),
        HoleClosedLocation::from_sexpr_error(SexprV::Symbol("right"@)) is None,
        HoleClosedLocation::from_sexpr_value(SexprV::Symbol("right"@), HoleClosedLocation::Right),
        HoleClosedLocation::from_sexpr_error(SexprV::Symbol("bottom"@)) is None,
        HoleClosedLocation::from_sexpr_value(SexprV::Symbol("bottom"@), HoleClosedLocation::Bottom),
        HoleClosedLocation::from_sexpr_error(SexprV::Symbol("left"@)) is None,
        HoleClosedLocation::from_sexpr_value(SexprV::Symbol("left"@), HoleClosedLocation::Left),
        HoleClosedLocation::from_sexpr_error(SexprV::Symbol("top"@)) is None,
        HoleClosedLocation::from_sexpr_value(SexprV::Symbol("top"@), HoleClosedLocation::Top),
{
    reveal_strlit("bottom");
    reveal_strlit("left");
    reveal_strlit("right");
    reveal_strlit("top");
}

/// Each `ArrowDirection` is written as, and read back from, its name in the
/// notation: `Left` as `left`, `Up` as `up`, `Right` as `right`, `Down` as
/// `down`, `Northwest` as `northwest`, `Northeast` as `northeast`,
/// `Southeast` as `southeast`, `Southwest` as `southwest`, `LeftRight` as
/// `left-right`, `UpDown` as `up-down`, `NorthwestSoutheast` as
/// `northwest-southeast`, `NortheastSouthwest` as `northeast-southwest`,
/// `Other` as `other`.
pub proof fn law_arrow_direction_names()
    ensures
        ArrowDirection::Left.to_sexpr_spec() == SexprV::Symbol("left"@),
        ArrowDirection::Up.to_sexpr_spec() == SexprV::Symbol("up"@),
        ArrowDirection::Right.to_sexpr_spec() == SexprV::Symbol("right"@),
        ArrowDirection::Down.to_sexpr_spec() == SexprV::Symbol("down"@),
        ArrowDirection::Northwest.to_sexpr_spec() == SexprV::Symbol("northwest"@),
        ArrowDirection::Northeast.to_sexpr_spec() == SexprV::Symbol("northeast"@),
        ArrowDirection::Southeast.to_sexpr_spec() == SexprV::Symbol("southeast"@),
        ArrowDirection::Southwest.to_sexpr_spec() == SexprV::Symbol("southwest"@),
        ArrowDirection::LeftRight.to_sexpr_spec() == SexprV::Symbol("left-right"@),
        ArrowDirection::UpDown.to_sexpr_spec() == SexprV::Symbol("up-down"@),
        ArrowDirection::NorthwestSoutheast.to_sexpr_spec() == SexprV::Symbol("northwest-southeast"@),
        ArrowDirection::NortheastSouthwest.to_sexpr_spec() == SexprV::Symbol("northeast-southwest"@),
        ArrowDirection::Other.to_sexpr_spec() == SexprV::Symbol("other"@),
        ArrowDirection::from_sexpr_error(SexprV::Symbol("left"@)) is None,
        ArrowDirection::from_sexpr_value(SexprV::Symbol("left"@), ArrowDirection::Left),
        ArrowDirection::from_sexpr_error(SexprV::Symbol("up"@)) is None,
        ArrowDirection::from_sexpr_value(SexprV::Symbol("up"@), ArrowDirection::Up),
        ArrowDirection::from_sexpr_error(SexprV::Symbol("right"@)) is None,
        ArrowDirection::from_sexpr_value(SexprV::Symbol("right"@), ArrowDirection::Right),
        ArrowDirection::from_sexpr_error(SexprV::Symbol("down"@)) is None,
        ArrowDirection::from_sexpr_value(SexprV::Symbol("down"@), ArrowDirection::Down),
        ArrowDirection::from_sexpr_error(SexprV::Symbol("northwest"@)) is None,
        ArrowDirection::from_sexpr_value(SexprV::Symbol("northwest"@), ArrowDirection::Northwest),
        ArrowDirection::from_sexpr_error(SexprV::Symbol("northeast"@)) is None,
        ArrowDirection::from_sexpr_value(SexprV::Symbol("northeast"@), ArrowDirection::Northeast),
        ArrowDirection::from_sexpr_error(SexprV::Symbol("southeast"@)) is None,
        ArrowDirection::from_sexpr_value(SexprV::Symbol("southeast"@), ArrowDirection::Southeast),
        ArrowDirection::from_sexpr_error(SexprV::Symbol("southwest"@)) is None,
        ArrowDirection::from_sexpr_value(SexprV::Symbol("southwest"@), ArrowDirection::Southwest),
        ArrowDirection::from_sexpr_error(SexprV::Symbol("left-right"@)) is None,
        ArrowDirection::from_sexpr_value(SexprV::Symbol("left-right"@), ArrowDirection::LeftRight),
        ArrowDirection::from_sexpr_error(SexprV::Symbol("up-down"@)) is None,
        ArrowDirection::from_sexpr_value(SexprV::Symbol("up-down"@), ArrowDirection::UpDown),
        ArrowDirection::from_sexpr_error(SexprV::Symbol("northwest-southeast"@)) is None,
        ArrowDirection::from_sexpr_value(SexprV::Symbol("northwest-southeast"@), ArrowDirection::NorthwestSoutheast),
        ArrowDirection::from_sexpr_error(SexprV::Symbol("northeast-southwest"@)) is None,
        ArrowDirection::from_sexpr_value(SexprV::Symbol("northeast-southwest"@), ArrowDirection::NortheastSouthwest),
        ArrowDirection::from_sexpr_error(SexprV::Symbol("other"@)) is None,
        ArrowDirection::from_sexpr_value(SexprV::Symbol("other"@), ArrowDirection::Other),
{
    reveal_strlit("down");
    reveal_strlit("left");
    reveal_strlit("left-right");
    reveal_strlit("northeast");
    reveal_strlit("northeast-southwest");
    reveal_strlit("northwest");
    reveal_strlit("northwest-southeast");
    reveal_strlit("other");
    reveal_strlit("right");
    reveal_strlit("southeast");
    reveal_strlit("southwest");
    reveal_strlit("up");
    reveal_strlit("up-down");
    assert("left"@[0] != "down"@[0]);
    assert("right"@[0] != "other"@[0]);
    assert("down"@[0] != "left"@[0]);
    assert("northwest"@[5] != "northeast"@[5]);
    assert("northwest"@[0] != "southeast"@[0]);
    assert("northwest"@[0] != "southwest"@[0]);
    assert("northeast"@[5] != "northwest"@[5]);
    assert("northeast"@[0] != "southeast"@[0]);
    assert("northeast"@[0] != "southwest"@[0]);
    assert("southeast"@[0] != "northeast"@[0]);
    assert("southeast"@[0] != "northwest"@[0]);
    assert("southeast"@[5] != "southwest"@[5]);
    assert("southwest"@[0] != "northeast"@[0]);
    assert("southwest"@[0] != "northwest"@[0]);
    assert("southwest"@[5] != "southeast"@[5]);
    assert("northwest-southeast"@[5] != "northeast-southwest"@[5]);
    assert("northeast-southwest"@[5] != "northwest-southeast"@[5]);
    assert("other"@[0] != "right"@[0]);
}

/// Each `ArrowStyle` is written as, and read back from, its name in the
/// notation: `Single` as `single`, `Double` as `double`, `Filled` as
/// `filled`, `Hollow` as `hollow`, `Paired` as `paired`, `Combined` as
/// `combined`, `Other` as `other`.
pub proof fn law_arrow_style_names()
    ensures
        ArrowStyle::Single.to_sexpr_spec() == SexprV::Symbol("single"@),
        ArrowStyle::Double.to_sexpr_spec() == SexprV::Symbol("double"@),
        ArrowStyle::Filled.to_sexpr_spec() == SexprV::Symbol("filled"@),
        ArrowStyle::Hollow.to_sexpr_spec() == SexprV::Symbol("hollow"@),
        ArrowStyle::Paired.to_sexpr_spec() == SexprV::Symbol("paired"@),
        ArrowStyle::Combined.to_sexpr_spec() == SexprV::Symbol("combined"@),
        ArrowStyle::Other.to_sexpr_spec() == SexprV::Symbol("other"@),
        ArrowStyle::from_sexpr_error(SexprV::Symbol("single"@)) is None,
        ArrowStyle::from_sexpr_value(SexprV::Symbol("single"@), ArrowStyle::Single),
        ArrowStyle::from_sexpr_error(SexprV::Symbol("double"@)) is None,
        ArrowStyle::from_sexpr_value(SexprV::Symbol("double"@), ArrowStyle::Double),
        ArrowStyle::from_sexpr_error(SexprV::Symbol("filled"@)) is None,
        ArrowStyle::from_sexpr_value(SexprV::Symbol("filled"@), ArrowStyle::Filled),
        ArrowStyle::from_sexpr_error(SexprV::Symbol("hollow"@)) is None,
        ArrowStyle::from_sexpr_value(SexprV::Symbol("hollow"@), ArrowStyle::Hollow),
        ArrowStyle::from_sexpr_error(SexprV::Symbol("paired"@)) is None,
        ArrowStyle::from_sexpr_value(SexprV::Symbol("paired"@), ArrowStyle::Paired),
        ArrowStyle::from_sexpr_error(SexprV::Symbol("combined"@)) is None,
        ArrowStyle::from_sexpr_value(SexprV::Symbol("combined"@), ArrowStyle::Combined),
        ArrowStyle::from_sexpr_error(SexprV::Symbol("other"@)) is None,
        ArrowStyle::from_sexpr_value(SexprV::Symbol("other"@), ArrowStyle::Other),
{
    reveal_strlit("combined");
    reveal_strlit("double");
    reveal_strlit("filled");
    reveal_strlit("hollow");
    reveal_strlit("other");
    reveal_strlit("paired");
    reveal_strlit("single");
    assert("single"@[0] != "double"@[0]);
    assert("single"@[0] != "filled"@[0]);
    assert("single"@[0] != "hollow"@[0]);
    assert("single"@[0] != "paired"@[0]);
    assert("double"@[0] != "filled"@[0]);
    assert("double"@[0] != "hollow"@[0]);
    assert("double"@[0] != "paired"@[0]);
    assert("double"@[0] != "single"@[0]);
    assert("filled"@[0] != "double"@[0]);
    assert("filled"@[0] != "hollow"@[0]);
    assert("filled"@[0] != "paired"@[0]);
    assert("filled"@[0] != "single"@[0]);
    assert("hollow"@[0] != "double"@[0]);
    assert("hollow"@[0] != "filled"@[0]);
    assert("hollow"@[0] != "paired"@[0]);
    assert("hollow"@[0] != "single"@[0]);
    assert("paired"@[0] != "double"@[0]);
    assert("paired"@[0] != "filled"@[0]);
    assert("paired"@[0] != "hollow"@[0]);
    assert("paired"@[0] != "single"@[0]);
}

/// Each `HandbellValue` is written as, and read back from, its name in the
/// notation: `Belltree` as `belltree`, `Damp` as `damp`, `Echo` as `echo`,
/// `Gyro` as `gyro`, `HandMartellato` as `hand-martellato`, `MalletLift` as
/// `mallet-lift`, `MalletTable` as `mallet-table`, `Martellato` as
/// `martellato`, `MartellatoLift` as `martellato-lift`, `MutedMartellato`
/// as `muted-martellato`, `PluckLift` as `pluck-lift`, `Swing` as `swing`.
pub proof fn law_handbell_value_names()
    ensures
        HandbellValue::Belltree.to_sexpr_spec() == SexprV::Symbol("belltree"@),
        HandbellValue::Damp.to_sexpr_spec() == SexprV::Symbol("damp"@),
        HandbellValue::Echo.to_sexpr_spec() == SexprV::Symbol("echo"@),
        HandbellValue::Gyro.to_sexpr_spec() == SexprV::Symbol("gyro"@),
        HandbellValue::HandMartellato.to_sexpr_spec() == SexprV::Symbol("hand-martellato"@),
        HandbellValue::MalletLift.to_sexpr_spec() == SexprV::Symbol("mallet-lift"@),
        HandbellValue::MalletTable.to_sexpr_spec() == SexprV::Symbol("mallet-table"@),
        HandbellValue::Martellato.to_sexpr_spec() == SexprV::Symbol("martellato"@),
        HandbellValue::MartellatoLift.to_sexpr_spec() == SexprV::Symbol("martellato-lift"@),
        HandbellValue::MutedMartellato.to_sexpr_spec() == SexprV::Symbol("muted-martellato"@),
        HandbellValue::PluckLift.to_sexpr_spec() == SexprV::Symbol("pluck-lift"@),
        HandbellValue::Swing.to_sexpr_spec() == SexprV::Symbol("swing"@),
        HandbellValue::from_sexpr_error(SexprV::Symbol("belltree"@)) is None,
        HandbellValue::from_sexpr_value(SexprV::Symbol("belltree"@), HandbellValue::Belltree),
        HandbellValue::from_sexpr_error(SexprV::Symbol("damp"@)) is None,
        HandbellValue::from_sexpr_value(SexprV::Symbol("damp"@), HandbellValue::Damp),
        HandbellValue::from_sexpr_error(SexprV::Symbol("echo"@)) is None,
        HandbellValue::from_sexpr_value(SexprV::Symbol("echo"@), HandbellValue::Echo),
        HandbellValue::from_sexpr_error(SexprV::Symbol("gyro"@)) is None,
        HandbellValue::from_sexpr_value(SexprV::Symbol("gyro"@), HandbellValue::Gyro),
        HandbellValue::from_sexpr_error(SexprV::Symbol("hand-martellato"@)) is None,
        HandbellValue::from_sexpr_value(SexprV::Symbol("hand-martellato"@), HandbellValue::HandMartellato),
        HandbellValue::from_sexpr_error(SexprV::Symbol("mallet-lift"@)) is None,
        HandbellValue::from_sexpr_value(SexprV::Symbol("mallet-lift"@), HandbellValue::MalletLift),
        HandbellValue::from_sexpr_error(SexprV::Symbol("mallet-table"@)) is None,
        HandbellValue::from_sexpr_value(SexprV::Symbol("mallet-table"@), HandbellValue::MalletTable),
        HandbellValue::from_sexpr_error(SexprV::Symbol("martellato"@)) is None,
        HandbellValue::from_sexpr_value(SexprV::Symbol("martellato"@), HandbellValue::Martellato),
        HandbellValue::from_sexpr_error(SexprV::Symbol("martellato-lift"@)) is None,
        HandbellValue::from_sexpr_value(SexprV::Symbol("martellato-lift"@), HandbellValue::MartellatoLift),
        HandbellValue::from_sexpr_error(SexprV::Symbol("muted-martellato"@)) is None,
        HandbellValue::from_sexpr_value(SexprV::Symbol("muted-martellato"@), HandbellValue::MutedMartellato),
        HandbellValue::from_sexpr_error(SexprV::Symbol("pluck-lift"@)) is None,
        HandbellValue::from_sexpr_value(SexprV::Symbol("pluck-lift"@), HandbellValue::PluckLift),
        HandbellValue::from_sexpr_error(SexprV::Symbol("swing"@)) is None,
        HandbellValue::from_sexpr_value(SexprV::Symbol("swing"@), HandbellValue::Swing),
{
    reveal_strlit("belltree");
    reveal_strlit("damp");
    reveal_strlit("echo");
    reveal_strlit("gyro");
    reveal_strlit("hand-martellato");
    reveal_strlit("mallet-lift");
    reveal_strlit("mallet-table");
    reveal_strlit("martellato");
    reveal_strlit("martellato-lift");
    reveal_strlit("muted-martellato");
    reveal_strlit("pluck-lift");
    reveal_strlit("swing");
    assert("damp"@[0] != "echo"@[0]);
    assert("damp"@[0] != "gyro"@[0]);
    assert("echo"@[0] != "damp"@[0]);
    assert("echo"@[0] != "gyro"@[0]);
    assert("gyro"@[0] != "damp"@[0]);
    assert("gyro"@[0] != "echo"@[0]);
    assert("hand-martellato"@[0] != "martellato-lift"@[0]);
    assert("martellato"@[0] != "pluck-lift"@[0]);
    assert("martellato-lift"@[0] != "hand-martellato"@[0]);
    assert("pluck-lift"@[0] != "martellato"@[0]);
}

/// Each `FermataShape` is written as, and read back from, its name in the
/// notation: `Normal` as `normal`, `Angled` as `angled`, `Square` as
/// `square`, `DoubleAngled` as `double-angled`, `DoubleSquare` as
/// `double-square`, `DoubleDot` as `double-dot`, `HalfCurve` as
/// `half-curve`, `Curlew` as `curlew`.
pub proof fn law_fermata_shape_names()
    ensures
        FermataShape::Normal.to_sexpr_spec() == SexprV::Symbol("normal"@),
        FermataShape::Angled.to_sexpr_spec() == SexprV::Symbol("angled"@),
        FermataShape::Square.to_sexpr_spec() == SexprV::Symbol("square"@),
        FermataShape::DoubleAngled.to_sexpr_spec() == SexprV::Symbol("double-angled"@),
        FermataShape::DoubleSquare.to_sexpr_spec() == SexprV::Symbol("double-square"@),
        FermataShape::DoubleDot.to_sexpr_spec() == SexprV::Symbol("double-dot"@),
        FermataShape::HalfCurve.to_sexpr_spec() == SexprV::Symbol("half-curve"@),
        FermataShape::Curlew.to_sexpr_spec() == SexprV::Symbol("curlew"@),
        FermataShape::from_sexpr_error(SexprV::Symbol("normal"@)) is None,
        FermataShape::from_sexpr_value(SexprV::Symbol("normal"@), FermataShape::Normal),
        FermataShape::from_sexpr_error(SexprV::Symbol("angled"@)) is None,
        FermataShape::from_sexpr_value(SexprV::Symbol("angled"@), FermataShape::Angled),
        FermataShape::from_sexpr_error(SexprV::Symbol("square"@)) is None,
        FermataShape::from_sexpr_value(SexprV::Symbol("square"@), FermataShape::Square),
        FermataShape::from_sexpr_error(SexprV::Symbol("double-angled"@)) is None,
        FermataShape::from_sexpr_value(SexprV::Symbol("double-angled"@), FermataShape::DoubleAngled),
        FermataShape::from_sexpr_error(SexprV::Symbol("double-square"@)) is None,
        FermataShape::from_sexpr_value(SexprV::Symbol("double-square"@), FermataShape::DoubleSquare),
        FermataShape::from_sexpr_error(SexprV::Symbol("double-dot"@)) is None,
        FermataShape::from_sexpr_value(SexprV::Symbol("double-dot"@), FermataShape::DoubleDot),
        FermataShape::from_sexpr_error(SexprV::Symbol("half-curve"@)) is None,
        FermataShape::from_sexpr_value(SexprV::Symbol("half-curve"@), FermataShape::HalfCurve),
        FermataShape::from_sexpr_error(SexprV::Symbol("curlew"@)) is None,
        FermataShape::from_sexpr_value(SexprV::Symbol("curlew"@), FermataShape::Curlew),
{
    reveal_strlit("angled");
    reveal_strlit("curlew");
    reveal_strlit("double-angled");
    reveal_strlit("double-dot");
    reveal_strlit("double-square");
    reveal_strlit("half-curve");
    reveal_strlit("normal");
    reveal_strlit("square");
    assert("normal"@[0] != "angled"@[0]);
    assert("normal"@[0] != "curlew"@[0]);
    assert("normal"@[0] != "square"@[0]);
    assert("angled"@[0] != "curlew"@[0]);
    assert("angled"@[0] != "normal"@[0]);
    assert("angled"@[0] != "square"@[0]);
    assert("square"@[0] != "angled"@[0]);
    assert("square"@[0] != "curlew"@[0]);
    assert("square"@[0] != "normal"@[0]);
    assert("double-angled"@[7] != "double-square"@[7]);
    assert("double-square"@[7] != "double-angled"@[7]);
    assert("double-dot"@[0] != "half-curve"@[0]);
    assert("half-curve"@[0] != "double-dot"@[0]);
    assert("curlew"@[0] != "angled"@[0]);
    assert("curlew"@[0] != "normal"@[0]);
    assert("curlew"@[0] != "square"@[0]);
}

/// Each `UprightInverted` is written as, and read back from, its name in
/// the notation: `Upright` as `upright`, `Inverted` as `inverted`.
pub proof fn law_upright_inverted_names()
    ensures
        UprightInverted::Upright.to_sexpr_spec() == SexprV::Symbol("upright"@),
        UprightInverted::Inverted.to_sexpr_spec() == SexprV::Symbol("inverted"@),
        UprightInverted::from_sexpr_error(SexprV::Symbol("upright"@)) is None,
        UprightInverted::from_sexpr_value(SexprV::Symbol("upright"@), UprightInverted::Upright),
        UprightInverted::from_sexpr_error(SexprV::Symbol("inverted"@)) is None,
        UprightInverted::from_sexpr_value(SexprV::Symbol("inverted"@), UprightInverted::Inverted),
{
    reveal_strlit("inverted");
    reveal_strlit("upright");
}

/// Each `BeamValue` is written as, and read back from, its name in the
/// notation: `Begin` as `begin`, `Continue` as `continue`, `End` as `end`,
/// `ForwardHook` as `forward-hook`, `BackwardHook` as `backward-hook`.
pub proof fn law_beam_value_names()
    ensures
        BeamValue::Begin.to_sexpr_spec() == SexprV::Symbol("begin"@),
        BeamValue::Continue.to_sexpr_spec() == SexprV::Symbol("continue"@),
        BeamValue::End.to_sexpr_spec() == SexprV::Symbol("end"@),
        BeamValue::ForwardHook.to_sexpr_spec() == SexprV::Symbol("forward-hook"@),
        BeamValue::BackwardHook.to_sexpr_spec() == SexprV::Symbol("backward-hook"@),
        BeamValue::from_sexpr_error(SexprV::Symbol("begin"@)) is None,
        BeamValue::from_sexpr_value(SexprV::Symbol("begin"@), BeamValue::Begin),
        BeamValue::from_sexpr_error(SexprV::Symbol("continue"@)) is None,
        BeamValue::from_sexpr_value(SexprV::Symbol("continue"@), BeamValue::Continue),
        BeamValue::from_sexpr_error(SexprV::Symbol("end"@)) is None,
        BeamValue::from_sexpr_value(SexprV::Symbol("end"@), BeamValue::End),
        BeamValue::from_sexpr_error(SexprV::Symbol("forward-hook"@)) is None,
        BeamValue::from_sexpr_value(SexprV::Symbol("forward-hook"@), BeamValue::ForwardHook),
        BeamValue::from_sexpr_error(SexprV::Symbol("backward-hook"@)) is None,
        BeamValue::from_sexpr_value(SexprV::Symbol("backward-hook"@), BeamValue::BackwardHook),
{
    reveal_strlit("backward-hook");
    reveal_strlit("begin");
    reveal_strlit("continue");
    reveal_strlit("end");
    reveal_strlit("forward-hook");
}

/// Each `Fan` is written as, and read back from, its name in the notation:
/// `Accel` as `accel`, `Rit` as `rit`, `Steady` as `none`.
pub proof fn law_fan_names()
    ensures
        Fan::Accel.to_sexpr_spec() == SexprV::Symbol("accel"@),
        Fan::Rit.to_sexpr_spec() == SexprV::Symbol("rit"@),
        Fan::Steady.to_sexpr_spec() == SexprV::Symbol("none"@),
        Fan::from_sexpr_error(SexprV::Symbol("accel"@)) is None,
        Fan::from_sexpr_value(SexprV::Symbol("accel"@), Fan::Accel),
        Fan::from_sexpr_error(SexprV::Symbol("rit"@)) is None,
        Fan::from_sexpr_value(SexprV::Symbol("rit"@), Fan::Rit),
        Fan::from_sexpr_error(SexprV::Symbol("none"@)) is None,
        Fan::from_sexpr_value(SexprV::Symbol("none"@), Fan::Steady),
{
    reveal_strlit("accel");
    reveal_strlit("none");
    reveal_strlit("rit");
}

/// Each `StemValue` is written as, and read back from, its name in the
/// notation: `Down` as `down`, `Up` as `up`, `Double` as `double`, `NoStem`
/// as `none`.
pub proof fn law_stem_value_names()
    ensures
        StemValue::Down.to_sexpr_spec() == SexprV::Symbol("down"@),
        StemValue::Up.to_sexpr_spec() == SexprV::Symbol("up"@),
        StemValue::Double.to_sexpr_spec() == SexprV::Symbol("double"@),
        StemValue::NoStem.to_sexpr_spec() == SexprV::Symbol("none"@),
        StemValue::from_sexpr_error(SexprV::Symbol("down"@)) is None,
        StemValue::from_sexpr_value(SexprV::Symbol("down"@), StemValue::Down),
        StemValue::from_sexpr_error(SexprV::Symbol("up"@)) is None,
        StemValue::from_sexpr_value(SexprV::Symbol("up"@), StemValue::Up),
        StemValue::from_sexpr_error(SexprV::Symbol("double"@)) is None,
        StemValue::from_sexpr_value(SexprV::Symbol("double"@), StemValue::Double),
        StemValue::from_sexpr_error(SexprV::Symbol("none"@)) is None,
        StemValue::from_sexpr_value(SexprV::Symbol("none"@), StemValue::NoStem),
{
    reveal_strlit("double");
    reveal_strlit("down");
    reveal_strlit("none");
    reveal_strlit("up");
    assert("down"@[0] != "none"@[0]);
    assert("none"@[0] != "down"@[0]);
}

/// Each `NoteheadValue` is written as, and read back from, its name in the
/// notation: `Slash` as `slash`, `Triangle` as `triangle`, `Diamond` as
/// `diamond`, `Square` as `square`, `Cross` as `cross`, `X` as `x`,
/// `CircleX` as `circle-x`, `InvertedTriangle` as `inverted-triangle`,
/// `ArrowDown` as `arrow-down`, `ArrowUp` as `arrow-up`, `Circled` as
/// `circled`, `Slashed` as `slashed`, `BackSlashed` as `back-slashed`,
/// `Normal` as `normal`, `Cluster` as `cluster`, `CircleDot` as
/// `circle-dot`, `LeftTriangle` as `left-triangle`, `Rectangle` as
/// `rectangle`, `NoNotehead` as `none`, `Do` as `do`, `Re` as `re`, `Mi` as
/// `mi`, `Fa` as `fa`, `FaUp` as `fa-up`, `So` as `so`, `La` as `la`, `Ti`
/// as `ti`, `Other` as `other`.
pub proof fn law_notehead_value_names()
    ensures
        NoteheadValue::Slash.to_sexpr_spec() == SexprV::Symbol("slash"@),
        NoteheadValue::Triangle.to_sexpr_spec() == SexprV::Symbol("triangle"@),
        NoteheadValue::Diamond.to_sexpr_spec() == SexprV::Symbol("diamond"@),
        NoteheadValue::Square.to_sexpr_spec() == SexprV::Symbol("square"@),
        NoteheadValue::Cross.to_sexpr_spec() == SexprV::Symbol("cross"@),
        NoteheadValue::X.to_sexpr_spec() == SexprV::Symbol("x"@),
        NoteheadValue::CircleX.to_sexpr_spec() == SexprV::Symbol("circle-x"@),
        NoteheadValue::InvertedTriangle.to_sexpr_spec() == SexprV::Symbol("inverted-triangle"@),
        NoteheadValue::ArrowDown.to_sexpr_spec() == SexprV::Symbol("arrow-down"@),
        NoteheadValue::ArrowUp.to_sexpr_spec() == SexprV::Symbol("arrow-up"@),
        NoteheadValue::Circled.to_sexpr_spec() == SexprV::Symbol("circled"@),
        NoteheadValue::Slashed.to_sexpr_spec() == SexprV::Symbol("slashed"@),
        NoteheadValue::BackSlashed.to_sexpr_spec() == SexprV::Symbol("back-slashed"@),
        NoteheadValue::Normal.to_sexpr_spec() == SexprV::Symbol("normal"@),
        NoteheadValue::Cluster.to_sexpr_spec() == SexprV::Symbol("cluster"@),
        NoteheadValue::CircleDot.to_sexpr_spec() == SexprV::Symbol("circle-dot"@),
        NoteheadValue::LeftTriangle.to_sexpr_spec() == SexprV::Symbol("left-triangle"@),
        NoteheadValue::Rectangle.to_sexpr_spec() == SexprV::Symbol("rectangle"@),
        NoteheadValue::NoNotehead.to_sexpr_spec() == SexprV::Symbol("none"@),
        NoteheadValue::Do.to_sexpr_spec() == SexprV::Symbol("do"@),
        NoteheadValue::Re.to_sexpr_spec() == SexprV::Symbol("re"@),
        NoteheadValue::Mi.to_sexpr_spec() == SexprV::Symbol("mi"@),
        NoteheadValue::Fa.to_sexpr_spec() == SexprV::Symbol("fa"@),
        NoteheadValue::FaUp.to_sexpr_spec() == SexprV::Symbol("fa-up"@),
        NoteheadValue::So.to_sexpr_spec() == SexprV::Symbol("so"@),
        NoteheadValue::La.to_sexpr_spec() == SexprV::Symbol("la"@),
        NoteheadValue::Ti.to_sexpr_spec() == SexprV::Symbol("ti"@),
        NoteheadValue::Other.to_sexpr_spec() == SexprV::Symbol("other"@),
        NoteheadValue::from_sexpr_error(SexprV::Symbol("slash"@)) is None,
        NoteheadValue::from_sexpr_value(SexprV::Symbol("slash"@), NoteheadValue::Slash),
        NoteheadValue::from_sexpr_error(SexprV::Symbol("triangle"@)) is None,
        NoteheadValue::from_sexpr_value(SexprV::Symbol("triangle"@), NoteheadValue::Triangle),
        NoteheadValue::from_sexpr_error(SexprV::Symbol("diamond"@)) is None,
        NoteheadValue::from_sexpr_value(SexprV::Symbol("diamond"@), NoteheadValue::Diamond),
        NoteheadValue::from_sexpr_error(SexprV::Symbol("square"@)) is None,
        NoteheadValue::from_sexpr_value(SexprV::Symbol("square"@), NoteheadValue::Square),
        NoteheadValue::from_sexpr_error(SexprV::Symbol("cross"@)) is None,
        NoteheadValue::from_sexpr_value(SexprV::Symbol("cross"@), NoteheadValue::Cross),
        NoteheadValue::from_sexpr_error(SexprV::Symbol("x"@)) is None,
        NoteheadValue::from_sexpr_value(SexprV::Symbol("x"@), NoteheadValue::X),
        NoteheadValue::from_sexpr_error(SexprV::Symbol("circle-x"@)) is None,
        NoteheadValue::from_sexpr_value(SexprV::Symbol("circle-x"@), NoteheadValue::CircleX),
        NoteheadValue::from_sexpr_error(SexprV::Symbol("inverted-triangle"@)) is None,
        NoteheadValue::from_sexpr_value(SexprV::Symbol("inverted-triangle"@), NoteheadValue::InvertedTriangle),
        NoteheadValue::from_sexpr_error(SexprV::Symbol("arrow-down"@)) is None,
        NoteheadValue::from_sexpr_value(SexprV::Symbol("arrow-down"@), NoteheadValue::ArrowDown),
        NoteheadValue::from_sexpr_error(SexprV::Symbol("arrow-up"@)) is None,
        NoteheadValue::from_sexpr_value(SexprV::Symbol("arrow-up"@), NoteheadValue::ArrowUp),
        NoteheadValue::from_sexpr_error(SexprV::Symbol("circled"@)) is None,
        NoteheadValue::from_sexpr_value(SexprV::Symbol("circled"@), NoteheadValue::Circled),
        NoteheadValue::from_sexpr_error(SexprV::Symbol("slashed"@)) is None,
        NoteheadValue::from_sexpr_value(SexprV::Symbol("slashed"@), NoteheadValue::Slashed),
        NoteheadValue::from_sexpr_error(SexprV::Symbol("back-slashed"@)) is None,
        NoteheadValue::from_sexpr_value(SexprV::Symbol("back-slashed"@), NoteheadValue::BackSlashed),
        NoteheadValue::from_sexpr_error(SexprV::Symbol("normal"@)) is None,
        NoteheadValue::from_sexpr_value(SexprV::Symbol("normal"@), NoteheadValue::Normal),
        NoteheadValue::from_sexpr_error(SexprV::Symbol("cluster"@)) is None,
        NoteheadValue::from_sexpr_value(SexprV::Symbol("cluster"@), NoteheadValue::Cluster),
        NoteheadValue::from_sexpr_error(SexprV::Symbol("circle-dot"@)) is None,
        NoteheadValue::from_sexpr_value(SexprV::Symbol("circle-dot"@), NoteheadValue::CircleDot),
        NoteheadValue::from_sexpr_error(SexprV::Symbol("left-triangle"@)) is None,
        NoteheadValue::from_sexpr_value(SexprV::Symbol("left-triangle"@), NoteheadValue::LeftTriangle),
        NoteheadValue::from_sexpr_error(SexprV::Symbol("rectangle"@)) is None,
        NoteheadValue::from_sexpr_value(SexprV::Symbol("rectangle"@), NoteheadValue::Rectangle),
        NoteheadValue::from_sexpr_error(SexprV::Symbol("none"@)) is None,
        NoteheadValue::from_sexpr_value(SexprV::Symbol("none"@), NoteheadValue::NoNotehead),
        NoteheadValue::from_sexpr_error(SexprV::Symbol("do"@)) is None,
        NoteheadValue::from_sexpr_value(SexprV::Symbol("do"@), NoteheadValue::Do),
        NoteheadValue::from_sexpr_error(SexprV::Symbol("re"@)) is None,
        NoteheadValue::from_sexpr_value(SexprV::Symbol("re"@), NoteheadValue::Re),
        NoteheadValue::from_sexpr_error(SexprV::Symbol("mi"@)) is None,
        NoteheadValue::from_sexpr_value(SexprV::Symbol("mi"@), NoteheadValue::Mi),
        NoteheadValue::from_sexpr_error(SexprV::Symbol("fa"@)) is None,
        NoteheadValue::from_sexpr_value(SexprV::Symbol("fa"@), NoteheadValue::Fa),
        NoteheadValue::from_sexpr_error(SexprV::Symbol("fa-up"@)) is None,
        NoteheadValue::from_sexpr_value(SexprV::Symbol("fa-up"@), NoteheadValue::FaUp),
        NoteheadValue::from_sexpr_error(SexprV::Symbol("so"@)) is None,
        NoteheadValue::from_sexpr_value(SexprV::Symbol("so"@), NoteheadValue::So),
        NoteheadValue::from_sexpr_error(SexprV::Symbol("la"@)) is None,
        NoteheadValue::from_sexpr_value(SexprV::Symbol("la"@), NoteheadValue::La),
        NoteheadValue::from_sexpr_error(SexprV::Symbol("ti"@)) is None,
        NoteheadValue::from_sexpr_value(SexprV::Symbol("ti"@), NoteheadValue::Ti),
        NoteheadValue::from_sexpr_error(SexprV::Symbol("other"@)) is None,
        NoteheadValue::from_sexpr_value(SexprV::Symbol("other"@), NoteheadValue::Other),
{
    reveal_strlit("arrow-down");
    reveal_strlit("arrow-up");
    reveal_strlit("back-slashed");
    reveal_strlit("circle-dot");
    reveal_strlit("circle-x");
    reveal_strlit("circled");
    reveal_strlit("cluster");
    reveal_strlit("cross");
    reveal_strlit("diamond");
    reveal_strlit("do");
    reveal_strlit("fa");
    reveal_strlit("fa-up");
    reveal_strlit("inverted-triangle");
    reveal_strlit("la");
    reveal_strlit("left-triangle");
    reveal_strlit("mi");
    reveal_strlit("none");
    reveal_strlit("normal");
    reveal_strlit("other");
    reveal_strlit("re");
    reveal_strlit("rectangle");
    reveal_strlit("slash");
    reveal_strlit("slashed");
    reveal_strlit("so");
    reveal_strlit("square");
    reveal_strlit("ti");
    reveal_strlit("triangle");
    reveal_strlit("x");
    assert("slash"@[0] != "cross"@[0]);
    assert("slash"@[0] != "fa-up"@[0]);
    assert("slash"@[0] != "other"@[0]);
    assert("triangle"@[0] != "arrow-up"@[0]);
    assert("triangle"@[0] != "circle-x"@[0]);
    assert("diamond"@[0] != "circled"@[0]);
    assert("diamond"@[0] != "cluster"@[0]);
    assert("diamond"@[0] != "slashed"@[0]);
    assert("square"@[0] != "normal"@[0]);
    assert("cross"@[0] != "fa-up"@[0]);
    assert("cross"@[0] != "other"@[0]);
    assert("cross"@[0] != "slash"@[0]);
    assert("circle-x"@[0] != "arrow-up"@[0]);
    assert("circle-x"@[0] != "triangle"@[0]);
    assert("arrow-down"@[0] != "circle-dot"@[0]);
    assert("arrow-up"@[0] != "circle-x"@[0]);
    assert("arrow-up"@[0] != "triangle"@[0]);
    assert("circled"@[1] != "cluster"@[1]);
    assert("circled"@[0] != "diamond"@[0]);
    assert("circled"@[0] != "slashed"@[0]);
    assert("slashed"@[0] != "circled"@[0]);
    assert("slashed"@[0] != "cluster"@[0]);
    assert("slashed"@[0] != "diamond"@[0]);
    assert("normal"@[0] != "square"@[0]);
    assert("cluster"@[1] != "circled"@[1]);
    assert("cluster"@[0] != "diamond"@[0]);
    assert("cluster"@[0] != "slashed"@[0]);
    assert("circle-dot"@[0] != "arrow-down"@[0]);
    assert("do"@[0] != "fa"@[0]);
    assert("do"@[0] != "la"@[0]);
    assert("do"@[0] != "mi"@[0]);
    assert("do"@[0] != "re"@[0]);
    assert("do"@[0] != "so"@[0]);
    assert("do"@[0] != "ti"@[0]);
    assert("re"@[0] != "do"@[0]);
    assert("re"@[0] != "fa"@[0]);
    assert("re"@[0] != "la"@[0]);
    assert("re"@[0] != "mi"@[0]);
    assert("re"@[0] != "so"@[0]);
    assert("re"@[0] != "ti"@[0]);
    assert("mi"@[0] != "do"@[0]);
    assert("mi"@[0] != "fa"@[0]);
    assert("mi"@[0] != "la"@[0]);
    assert("mi"@[0] != "re"@[0]);
    assert("mi"@[0] != "so"@[0]);
    assert("mi"@[0] != "ti"@[0]);
    assert("fa"@[0] != "do"@[0]);
    assert("fa"@[0] != "la"@[0]);
    assert("fa"@[0] != "mi"@[0]);
    assert("fa"@[0] != "re"@[0]);
    assert("fa"@[0] != "so"@[0]);
    assert("fa"@[0] != "ti"@[0]);
    assert("fa-up"@[0] != "cross"@[0]);
    assert("fa-up"@[0] != "other"@[0]);
    assert("fa-up"@[0] != "slash"@[0]);
    assert("so"@[0] != "do"@[0]);
    assert("so"@[0] != "fa"@[0]);
    assert("so"@[0] != "la"@[0]);
    assert("so"@[0] != "mi"@[0]);
    assert("so"@[0] != "re"@[0]);
    assert("so"@[0] != "ti"@[0]);
    assert("la"@[0] != "do"@[0]);
    assert("la"@[0] != "fa"@[0]);
    assert("la"@[0] != "mi"@[0]);
    assert("la"@[0] != "re"@[0]);
    assert("la"@[0] != "so"@[0]);
    assert("la"@[0] != "ti"@[0]);
    assert("ti"@[0] != "do"@[0]);
    assert("ti"@[0] != "fa"@[0]);
    assert("ti"@[0] != "la"@[0]);
    assert("ti"@[0] != "mi"@[0]);
    assert("ti"@[0] != "re"@[0]);
    assert("ti"@[0] != "so"@[0]);
    assert("other"@[0] != "cross"@[0]);
    assert("other"@[0] != "fa-up"@[0]);
    assert("other"@[0] != "slash"@[0]);
}

/// Each `Step` is written as, and read back from, its name in the notation:
/// `A` as `A`, `B` as `B`, `C` as `C`, `D` as `D`, `E` as `E`, `F` as `F`,
/// `G` as `G`.
pub proof fn law_step_names()
    ensures
        Step::A.to_sexpr_spec() == SexprV::Symbol("A"@),
        Step::B.to_sexpr_spec() == SexprV::Symbol("B"@),
        Step::C.to_sexpr_spec() == SexprV::Symbol("C"@),
        Step::D.to_sexpr_spec() == SexprV::Symbol("D"@),
        Step::E.to_sexpr_spec() == SexprV::Symbol("E"@),
        Step::F.to_sexpr_spec() == SexprV::Symbol("F"@),
        Step::G.to_sexpr_spec() == SexprV::Symbol("G"@),
        Step::from_sexpr_error(SexprV::Symbol("A"@)) is None,
        Step::from_sexpr_value(SexprV::Symbol("A"@), Step::A),
        Step::from_sexpr_error(SexprV::Symbol("B"@)) is None,
        Step::from_sexpr_value(SexprV::Symbol("B"@), Step::B),
        Step::from_sexpr_error(SexprV::Symbol("C"@)) is None,
        Step::from_sexpr_value(SexprV::Symbol("C"@), Step::C),
        Step::from_sexpr_error(SexprV::Symbol("D"@)) is None,
        Step::from_sexpr_value(SexprV::Symbol("D"@), Step::D),
        Step::from_sexpr_error(SexprV::Symbol("E"@)) is None,
        Step::from_sexpr_value(SexprV::Symbol("E"@), Step::E),
        Step::from_sexpr_error(SexprV::Symbol("F"@)) is None,
        Step::from_sexpr_value(SexprV::Symbol("F"@), Step::F),
        Step::from_sexpr_error(SexprV::Symbol("G"@)) is None,
        Step::from_sexpr_value(SexprV::Symbol("G"@), Step::G),
{
    reveal_strlit("A");
    reveal_strlit("B");
    reveal_strlit("C");
    reveal_strlit("D");
    reveal_strlit("E");
    reveal_strlit("F");
    reveal_strlit("G");
    reveal_strlit("a");
    reveal_strlit("b");
    reveal_strlit("c");
    reveal_strlit("d");
    reveal_strlit("e");
    reveal_strlit("f");
    reveal_strlit("g");
    assert("A"@[0] != "B"@[0]);
    assert("A"@[0] != "C"@[0]);
    assert("A"@[0] != "D"@[0]);
    assert("A"@[0] != "E"@[0]);
    assert("A"@[0] != "F"@[0]);
    assert("A"@[0] != "G"@[0]);
    assert("A"@[0] != "a"@[0]);
    assert("A"@[0] != "b"@[0]);
    assert("A"@[0] != "c"@[0]);
    assert("A"@[0] != "d"@[0]);
    assert("A"@[0] != "e"@[0]);
    assert("A"@[0] != "f"@[0]);
    assert("A"@[0] != "g"@[0]);
    assert("B"@[0] != "A"@[0]);
    assert("B"@[0] != "C"@[0]);
    assert("B"@[0] != "D"@[0]);
    assert("B"@[0] != "E"@[0]);
    assert("B"@[0] != "F"@[0]);
    assert("B"@[0] != "G"@[0]);
    assert("B"@[0] != "a"@[0]);
    assert("B"@[0] != "b"@[0]);
    assert("B"@[0] != "c"@[0]);
    assert("B"@[0] != "d"@[0]);
    assert("B"@[0] != "e"@[0]);
    assert("B"@[0] != "f"@[0]);
    assert("B"@[0] != "g"@[0]);
    assert("C"@[0] != "A"@[0]);
    assert("C"@[0] != "B"@[0]);
    assert("C"@[0] != "D"@[0]);
    assert("C"@[0] != "E"@[0]);
    assert("C"@[0] != "F"@[0]);
    assert("C"@[0] != "G"@[0]);
    assert("C"@[0] != "a"@[0]);
    assert("C"@[0] != "b"@[0]);
    assert("C"@[0] != "c"@[0]);
    assert("C"@[0] != "d"@[0]);
    assert("C"@[0] != "e"@[0]);
    assert("C"@[0] != "f"@[0]);
    assert("C"@[0] != "g"@[0]);
    assert("D"@[0] != "A"@[0]);
    assert("D"@[0] != "B"@[0]);
    assert("D"@[0] != "C"@[0]);
    assert("D"@[0] != "E"@[0]);
    assert("D"@[0] != "F"@[0]);
    assert("D"@[0] != "G"@[0]);
    assert("D"@[0] != "a"@[0]);
    assert("D"@[0] != "b"@[0]);
    assert("D"@[0] != "c"@[0]);
    assert("D"@[0] != "d"@[0]);
    assert("D"@[0] != "e"@[0]);
    assert("D"@[0] != "f"@[0]);
    assert("D"@[0] != "g"@[0]);
    assert("E"@[0] != "A"@[0]);
    assert("E"@[0] != "B"@[0]);
    assert("E"@[0] != "C"@[0]);
    assert("E"@[0] != "D"@[0]);
    assert("E"@[0] != "F"@[0]);
    assert("E"@[0] != "G"@[0]);
    assert("E"@[0] != "a"@[0]);
    assert("E"@[0] != "b"@[0]);
    assert("E"@[0] != "c"@[0]);
    assert("E"@[0] != "d"@[0]);
    assert("E"@[0] != "e"@[0]);
    assert("E"@[0] != "f"@[0]);
    assert("E"@[0] != "g"@[0]);
    assert("F"@[0] != "A"@[0]);
    assert("F"@[0] != "B"@[0]);
    assert("F"@[0] != "C"@[0]);
    assert("F"@[0] != "D"@[0]);
    assert("F"@[0] != "E"@[0]);
    assert("F"@[0] != "G"@[0]);
    assert("F"@[0] != "a"@[0]);
    assert("F"@[0] != "b"@[0]);
    assert("F"@[0] != "c"@[0]);
    assert("F"@[0] != "d"@[0]);
    assert("F"@[0] != "e"@[0]);
    assert("F"@[0] != "f"@[0]);
    assert("F"@[0] != "g"@[0]);
    assert("G"@[0] != "A"@[0]);
    assert("G"@[0] != "B"@[0]);
    assert("G"@[0] != "C"@[0]);
    assert("G"@[0] != "D"@[0]);
    assert("G"@[0] != "E"@[0]);
    assert("G"@[0] != "F"@[0]);
    assert("G"@[0] != "a"@[0]);
    assert("G"@[0] != "b"@[0]);
    assert("G"@[0] != "c"@[0]);
    assert("G"@[0] != "d"@[0]);
    assert("G"@[0] != "e"@[0]);
    assert("G"@[0] != "f"@[0]);
    assert("G"@[0] != "g"@[0]);
}

/// Each `GroupSymbolValue` is written as its name in the notation:
/// `NoSymbol` as `none`, `Brace` as `brace`, `Line` as `line`, `Bracket` as
/// `bracket`, `Square` as `square`.
pub proof fn law_group_symbol_value_names()
    ensures
        GroupSymbolValue::NoSymbol.to_sexpr_spec() == SexprV::Symbol("none"@),
        GroupSymbolValue::Brace.to_sexpr_spec() == SexprV::Symbol("brace"@),
        GroupSymbolValue::Line.to_sexpr_spec() == SexprV::Symbol("line"@),
        GroupSymbolValue::Bracket.to_sexpr_spec() == SexprV::Symbol("bracket"@),
        GroupSymbolValue::Square.to_sexpr_spec() == SexprV::Symbol("square"@),
{
}

/// Each `GroupBarlineValue` is written as its name in the notation: `Yes`
/// as `yes`, `No` as `no`, `Mensurstrich` as `mensurstrich`.
pub proof fn law_group_barline_value_names()
    ensures
        GroupBarlineValue::Yes.to_sexpr_spec() == SexprV::Keyword("yes"@),
        GroupBarlineValue::No.to_sexpr_spec() == SexprV::Keyword("no"@),
        GroupBarlineValue::Mensurstrich.to_sexpr_spec() == SexprV::Keyword("mensurstrich"@),
{
}

/// Each `Syllabic` is written as its name in the notation: `Single` as
/// `single`, `Begin` as `begin`, `End` as `end`, `Middle` as `middle`.
pub proof fn law_syllabic_names()
    ensures
        syllabic_name(Syllabic::Single) == "single"@,
        syllabic_name(Syllabic::Begin) == "begin"@,
        syllabic_name(Syllabic::End) == "end"@,
        syllabic_name(Syllabic::Middle) == "middle"@,
{
}

/// Each `LeftCenterRight` is written as its name in the notation: `Left` as
/// `left`, `Center` as `center`, `Right` as `right`.
pub proof fn law_left_center_right_names()
    ensures
        left_center_right_name(LeftCenterRight::Left) == "left"@,
        left_center_right_name(LeftCenterRight::Center) == "center"@,
        left_center_right_name(LeftCenterRight::Right) == "right"@,
{
}

} // verus!
