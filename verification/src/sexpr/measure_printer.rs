//! Printing the attributes, directions and barlines of a measure, in the
//! printer's layout.

use vstd::prelude::*;
use crate::text::{nat_digits, int_text, i64_chars, push_chars, push_char};
use crate::ir::common::YesNo;
use crate::ir::attributes::{
    Attributes, Key, KeyContent, KeyStep, Time, TimeContent, TimeSignature, Clef, StaffDetails,
    Transpose, Barline, Repeat, Ending,
};
use crate::ir::direction::{Direction, DirectionType, DirectionTypeContent, Words, Metronome, MetronomeContent, OctaveShift, Pedal};
use crate::sexpr::convert::common::accidental_value_name;
use crate::sexpr::convert::pitch::step_name;
use crate::sexpr::convert::common::note_type_value_name;
use crate::sexpr::convert::attributes::{
    mode_name, clef_sign_name, time_symbol_name, bar_style_name, right_left_middle_name,
    backward_forward_name, start_stop_discontinue_name,
};
use crate::sexpr::convert::direction::{wedge_type_name, pedal_type_name, up_down_stop_continue_name};
use crate::sexpr::printer::{
    PrintOptions, indent_text, line_break_text, quoted, kv, kv_str, kv_str_opt, yes_no_hash, each,
    repeat_text, placement_piece, flag_piece, lemma_each_step, push_str, push_indent,
    push_line_break, push_kv_nat, push_kv_sym, push_kv_str, push_kv_str_opt, yes_no_hash_of,
    push_escaped, push_kv,
};
use crate::sexpr::notation_printer::{
    kv_u8_opt, spaced_quoted, dynamics_text, push_kv_u8_opt, push_spaced_quoted, push_dynamics,
};

verus! {

// === Pieces ===

/// ` :key N` for an integer.
pub open spec fn kv_int(key: Seq<char>, i: int) -> Seq<char> {
    kv(key, int_text(i))
}

/// ` :key N` for a natural number where there is one.
pub open spec fn kv_u32_opt(key: Seq<char>, n: Option<u32>) -> Seq<char> {
    match n {
        Some(v) => kv(key, nat_digits(v as nat)),
        None => Seq::empty(),
    }
}

/// ` :key N` for an integer where there is one.
pub open spec fn kv_i32_opt(key: Seq<char>, n: Option<i32>) -> Seq<char> {
    match n {
        Some(v) => kv_int(key, v as int),
        None => Seq::empty(),
    }
}

/// ` :key #t` or ` :key #f` where the value is given.
pub open spec fn kv_yes_no_opt(key: Seq<char>, v: Option<YesNo>) -> Seq<char> {
    match v {
        Some(y) => kv(key, yes_no_hash(y)),
        None => Seq::empty(),
    }
}

// === Attributes ===

/// The lines of a measure's attributes.
pub open spec fn attributes_text(a: Attributes, level: nat, o: PrintOptions) -> Seq<char> {
    indent_text(level, o) + "(attributes"@ + match a.divisions {
        Some(d) => kv("divisions"@, nat_digits(d as nat)),
        None => Seq::empty(),
    } + each(a.keys@, key_item(level + 1, o)) + each(a.times@, time_item(level + 1, o)) + kv_u32_opt(
        "staves"@,
        a.staves,
    ) + each(a.clefs@, clef_item(level + 1, o)) + each(a.staff_details@, staff_details_item(level + 1, o))
        + each(a.transpose@, transpose_item(level + 1, o)) + kv_u32_opt("instruments"@, a.instruments)
        + ")"@
}

/// A key on lines of its own.
pub open spec fn key_item(level: nat, o: PrintOptions) -> spec_fn(Key) -> Seq<char> {
    |k: Key| line_break_text(o) + key_text(k, level, o)
}

/// The lines of a key signature.
pub open spec fn key_text(k: Key, level: nat, o: PrintOptions) -> Seq<char> {
    indent_text(level, o) + "(key"@ + kv_u32_opt("number"@, k.number) + kv_yes_no_opt(
        "print-object"@,
        k.print_object,
    ) + key_content_text(k.content, level, o) + ")"@
}

/// What a key signature holds: the cancelled key on a line of its own, the
/// fifths and the mode; or each altered step on a line of its own.
pub open spec fn key_content_text(c: KeyContent, level: nat, o: PrintOptions) -> Seq<char> {
    match c {
        KeyContent::Traditional(t) => (match t.cancel {
            Some(x) => line_break_text(o) + indent_text(level + 1, o) + "(cancel :fifths "@ + int_text(
                x.fifths as int,
            ) + ")"@,
            None => Seq::empty(),
        }) + kv_int("fifths"@, t.fifths as int) + (match t.mode {
            Some(m) => kv("mode"@, mode_name(m)),
            None => Seq::empty(),
        }),
        KeyContent::NonTraditional(steps) => each(steps@, key_step_item(level + 1, o)),
    }
}

/// An altered step of a key, on a line of its own.
pub open spec fn key_step_item(level: nat, o: PrintOptions) -> spec_fn(KeyStep) -> Seq<char> {
    |s: KeyStep| line_break_text(o) + indent_text(level, o) + "(key-step "@ + step_name(s.step)
        + " :key-alter "@ + s.alter.plain_text() + ")"@ + match s.accidental {
        Some(a) => kv("key-accidental"@, accidental_value_name(a)),
        None => Seq::empty(),
    }
}

/// A time signature on a line of its own.
pub open spec fn time_item(level: nat, o: PrintOptions) -> spec_fn(Time) -> Seq<char> {
    |t: Time| line_break_text(o) + time_text(t, level, o)
}

/// The line of a time signature.
pub open spec fn time_text(t: Time, level: nat, o: PrintOptions) -> Seq<char> {
    indent_text(level, o) + "(time"@ + kv_u32_opt("number"@, t.number) + match t.symbol {
        Some(s) => kv("symbol"@, time_symbol_name(s)),
        None => Seq::empty(),
    } + time_content_text(t.content) + ")"@
}

/// What a time signature holds.
pub open spec fn time_content_text(c: TimeContent) -> Seq<char> {
    match c {
        TimeContent::Measured(sigs) => each(sigs@, signature_piece()),
        TimeContent::SenzaMisura(t) => " :senza-misura #t"@ + if t@.len() == 0 {
            Seq::empty()
        } else {
            spaced_quoted(t@)
        },
    }
}

/// The beats and beat type of a signature.
pub open spec fn signature_piece() -> spec_fn(TimeSignature) -> Seq<char> {
    |g: TimeSignature| " (beats "@ + quoted(g.beats@) + ")"@ + " (beat-type "@ + quoted(g.beat_type@) + ")"@
}

/// A clef on a line of its own.
pub open spec fn clef_item(level: nat, o: PrintOptions) -> spec_fn(Clef) -> Seq<char> {
    |c: Clef| line_break_text(o) + indent_text(level, o) + clef_text(c)
}

/// The text of a clef.
pub open spec fn clef_text(c: Clef) -> Seq<char> {
    "(clef"@ + kv_u32_opt("number"@, c.number) + kv("sign"@, clef_sign_name(c.sign)) + kv_u32_opt(
        "line"@,
        c.line,
    ) + kv_i32_opt("clef-octave-change"@, c.octave_change) + kv_yes_no_opt("print-object"@, c.print_object)
        + ")"@
}

/// Staff details on a line of their own.
pub open spec fn staff_details_item(level: nat, o: PrintOptions) -> spec_fn(StaffDetails) -> Seq<char> {
    |d: StaffDetails| line_break_text(o) + indent_text(level, o) + "(staff-details"@ + kv_u32_opt(
        "number"@,
        d.number,
    ) + kv_u32_opt("staff-lines"@, d.staff_lines) + ")"@
}

/// A transposition on a line of its own.
pub open spec fn transpose_item(level: nat, o: PrintOptions) -> spec_fn(Transpose) -> Seq<char> {
    |t: Transpose| line_break_text(o) + indent_text(level, o) + transpose_text(t)
}

/// The text of a transposition.
pub open spec fn transpose_text(t: Transpose) -> Seq<char> {
    "(transpose"@ + kv_u32_opt("number"@, t.number) + kv_i32_opt("diatonic"@, t.diatonic) + kv_int(
        "chromatic"@,
        t.chromatic as int,
    ) + kv_i32_opt("octave-change"@, t.octave_change) + flag_piece(t.double == Some(YesNo::Yes), " :double #t"@)
        + ")"@
}

// === Directions ===

/// The lines of a direction.
pub open spec fn direction_text(d: Direction, level: nat, o: PrintOptions) -> Seq<char> {
    indent_text(level, o) + "(direction"@ + placement_piece(d.placement) + each(
        d.direction_types@,
        direction_type_item(level + 1, o),
    ) + kv_u32_opt("staff"@, d.staff) + kv_str_opt("voice"@, d.voice) + ")"@
}

/// A marking of a direction on a line of its own.
pub open spec fn direction_type_item(level: nat, o: PrintOptions) -> spec_fn(DirectionType) -> Seq<char> {
    |t: DirectionType| line_break_text(o) + indent_text(level, o) + direction_type_text(t.content)
}

/// The text of a marking: its first rehearsal mark or words where it holds
/// several.
pub open spec fn direction_type_text(c: DirectionTypeContent) -> Seq<char> {
    match c {
        DirectionTypeContent::Rehearsal(v) => if v@.len() > 0 {
            "(rehearsal"@ + spaced_quoted(v@[0].value@) + ")"@
        } else {
            "(rehearsal)"@
        },
        DirectionTypeContent::Segno => "(segno)"@,
        DirectionTypeContent::Coda => "(coda)"@,
        DirectionTypeContent::Words(v) => if v@.len() > 0 {
            words_text(v@[0])
        } else {
            "(words)"@
        },
        DirectionTypeContent::Dynamics(d) => dynamics_text(d),
        DirectionTypeContent::Wedge(w) => "(wedge"@ + kv("type"@, wedge_type_name(w.type_)) + ")"@,
        DirectionTypeContent::Metronome(m) => metronome_text(m),
        DirectionTypeContent::OctaveShift(x) => octave_shift_text(x),
        DirectionTypeContent::Pedal(p) => pedal_text(p),
        DirectionTypeContent::OtherDirection(x) => "(other-direction"@ + spaced_quoted(x.value@) + ")"@,
        _ => "(direction-type)"@,
    }
}

/// The text of words.
pub open spec fn words_text(w: Words) -> Seq<char> {
    "(words"@ + spaced_quoted(w.value@) + kv_str_opt("lang"@, w.lang) + ")"@
}

/// The text of a metronome mark.
pub open spec fn metronome_text(m: Metronome) -> Seq<char> {
    "(metronome"@ + flag_piece(m.parentheses == Some(YesNo::Yes), " :parentheses #t"@) + match m.content {
        MetronomeContent::PerMinute(p) => kv("beat-unit"@, note_type_value_name(p.beat_unit)) + repeat_text(
            " :beat-unit-dot"@,
            p.beat_unit_dots as nat,
        ) + kv_str("per-minute"@, p.per_minute@),
        MetronomeContent::BeatEquation(b) => kv("left-unit"@, note_type_value_name(b.left_unit))
            + repeat_text(" :left-dot"@, b.left_dots as nat) + kv("right-unit"@, note_type_value_name(b.right_unit))
            + repeat_text(" :right-dot"@, b.right_dots as nat),
        MetronomeContent::MetricModulation => " :metric-modulation #t"@,
    } + ")"@
}

/// The text of an octave shift.
pub open spec fn octave_shift_text(x: OctaveShift) -> Seq<char> {
    "(octave-shift"@ + kv("type"@, up_down_stop_continue_name(x.type_)) + kv_u8_opt("number"@, x.number)
        + kv_u8_opt("size"@, x.size) + ")"@
}

/// The text of a pedal mark.
pub open spec fn pedal_text(p: Pedal) -> Seq<char> {
    "(pedal"@ + kv("type"@, pedal_type_name(p.type_)) + kv_yes_no_opt("line"@, p.line) + kv_yes_no_opt(
        "sign"@,
        p.sign,
    ) + ")"@
}

// === Barlines ===

/// The lines of a barline.
pub open spec fn barline_text(b: Barline, level: nat, o: PrintOptions) -> Seq<char> {
    indent_text(level, o) + "(barline"@ + match b.location {
        Some(l) => kv("location"@, right_left_middle_name(l)),
        None => Seq::empty(),
    } + match b.bar_style {
        Some(s) => kv("bar-style"@, bar_style_name(s)),
        None => Seq::empty(),
    } + match b.repeat {
        Some(r) => line_break_text(o) + indent_text(level + 1, o) + repeat_sign_text(r),
        None => Seq::empty(),
    } + match b.ending {
        Some(e) => line_break_text(o) + indent_text(level + 1, o) + ending_text(e),
        None => Seq::empty(),
    } + ")"@
}

/// The text of a repeat sign.
pub open spec fn repeat_sign_text(r: Repeat) -> Seq<char> {
    "(repeat"@ + kv("direction"@, backward_forward_name(r.direction)) + kv_u32_opt("times"@, r.times) + ")"@
}

/// The text of a volta bracket.
pub open spec fn ending_text(e: Ending) -> Seq<char> {
    "(ending"@ + kv_str("number"@, e.number@) + kv("type"@, start_stop_discontinue_name(e.type_)) + match e.text {
        Some(t) => if t@.len() == 0 {
            Seq::empty()
        } else {
            spaced_quoted(t@)
        },
        None => Seq::empty(),
    } + ")"@
}

// === Writing pieces ===

/// Appends ` :key N` for an integer.
fn push_kv_int(out: &mut String, key: &str, i: i64)
    ensures
        final(out)@ == old(out)@ + kv_int(key@, i as int),
{
    let t = i64_chars(i);
    push_kv(out, key, &t);
}

/// Appends ` :key N` for a natural number where there is one.
fn push_kv_u32_opt(out: &mut String, key: &str, n: Option<u32>)
    ensures
        final(out)@ == old(out)@ + kv_u32_opt(key@, n),
{
    match n {
        Some(v) => push_kv_nat(out, key, v as u64),
        None => {
            assert(old(out)@ + kv_u32_opt(key@, n) =~= old(out)@);
        },
    }
}

/// Appends ` :key N` for an integer where there is one.
fn push_kv_i32_opt(out: &mut String, key: &str, n: Option<i32>)
    ensures
        final(out)@ == old(out)@ + kv_i32_opt(key@, n),
{
    match n {
        Some(v) => push_kv_int(out, key, v as i64),
        None => {
            assert(old(out)@ + kv_i32_opt(key@, n) =~= old(out)@);
        },
    }
}

/// Appends ` :key #t` or ` :key #f` where the value is given.
fn push_kv_yes_no_opt(out: &mut String, key: &str, v: Option<YesNo>)
    ensures
        final(out)@ == old(out)@ + kv_yes_no_opt(key@, v),
{
    match v {
        Some(y) => push_kv_sym(out, key, yes_no_hash_of(y)),
        None => {
            assert(old(out)@ + kv_yes_no_opt(key@, v) =~= old(out)@);
        },
    }
}

/// Appends `s` `n` times.
fn push_repeated(out: &mut String, s: &str, n: u32)
    ensures
        final(out)@ == old(out)@ + repeat_text(s@, n as nat),
{
    let ghost start = out@;
    let mut i: u32 = 0;
    while i < n
        invariant
            i <= n,
            out@ == start + repeat_text(s@, i as nat),
        decreases n - i,
    {
        push_str(out, s);
        assert(out@ =~= start + repeat_text(s@, (i + 1) as nat));
        i = i + 1;
    }
}

// === Writing attributes ===

/// Writes a measure's attributes, as `attributes_text` states.
pub fn print_attributes(a: &Attributes, level: usize, o: &PrintOptions) -> (r: String)
    requires
        level < usize::MAX - 3,
    ensures
        r@ == attributes_text(*a, level as nat, *o),
{
    let mut out = String::new();
    push_indent(&mut out, level, o);
    push_str(&mut out, "(attributes");
    let ghost s0 = out@;
    match a.divisions {
        Some(d) => push_kv_nat(&mut out, "divisions", d),
        None => {},
    }
    assert(out@ =~= s0 + match a.divisions {
        Some(d) => kv("divisions"@, nat_digits(d as nat)),
        None => Seq::<char>::empty(),
    });
    push_keys(&mut out, &a.keys, level + 1, o);
    push_times(&mut out, &a.times, level + 1, o);
    push_kv_u32_opt(&mut out, "staves", a.staves);
    push_clefs(&mut out, &a.clefs, level + 1, o);
    push_staff_details(&mut out, &a.staff_details, level + 1, o);
    push_transposes(&mut out, &a.transpose, level + 1, o);
    push_kv_u32_opt(&mut out, "instruments", a.instruments);
    push_str(&mut out, ")");
    assert(out@ =~= attributes_text(*a, level as nat, *o));
    out
}

/// Appends key signatures, each on lines of their own.
fn push_keys(out: &mut String, keys: &Vec<Key>, level: usize, o: &PrintOptions)
    requires
        level < usize::MAX - 2,
    ensures
        final(out)@ == old(out)@ + each(keys@, key_item(level as nat, *o)),
{
    let ghost start = out@;
    let mut i: usize = 0;
    while i < keys.len()
        invariant
            i <= keys.len(),
            level < usize::MAX - 2,
            out@ == start + each(keys@.take(i as int), key_item(level as nat, *o)),
        decreases keys.len() - i,
    {
        push_line_break(out, o);
        push_key(out, &keys[i], level, o);
        proof {
            lemma_each_step(keys@, i as int, key_item(level as nat, *o));
        }
        assert(out@ =~= start + each(keys@.take(i + 1), key_item(level as nat, *o)));
        i = i + 1;
    }
    assert(keys@.take(keys.len() as int) =~= keys@);
}

/// Appends the lines of a key signature, as `key_text` states.
fn push_key(out: &mut String, k: &Key, level: usize, o: &PrintOptions)
    requires
        level < usize::MAX - 2,
    ensures
        final(out)@ == old(out)@ + key_text(*k, level as nat, *o),
{
    let ghost start = out@;
    push_indent(out, level, o);
    push_str(out, "(key");
    push_kv_u32_opt(out, "number", k.number);
    push_kv_yes_no_opt(out, "print-object", k.print_object);
    push_key_content(out, &k.content, level, o);
    push_str(out, ")");
    assert(out@ =~= start + key_text(*k, level as nat, *o));
}

/// Appends what a key signature holds, as `key_content_text` states.
fn push_key_content(out: &mut String, c: &KeyContent, level: usize, o: &PrintOptions)
    requires
        level < usize::MAX - 2,
    ensures
        final(out)@ == old(out)@ + key_content_text(*c, level as nat, *o),
{
    let ghost start = out@;
    match c {
        KeyContent::Traditional(t) => {
            match &t.cancel {
                Some(x) => {
                    push_line_break(out, o);
                    push_indent(out, level + 1, o);
                    push_str(out, "(cancel :fifths ");
                    let f = i64_chars(x.fifths as i64);
                    push_chars(out, &f);
                    push_str(out, ")");
                },
                None => {},
            }
            let ghost c1 = out@;
            push_kv_int(out, "fifths", t.fifths as i64);
            match t.mode {
                Some(m) => push_kv_sym(out, "mode", m.symbol()),
                None => {},
            }
            assert(out@ =~= start + key_content_text(*c, level as nat, *o));
        },
        KeyContent::NonTraditional(steps) => {
            let mut i: usize = 0;
            while i < steps.len()
                invariant
                    i <= steps.len(),
                    level < usize::MAX - 2,
                    out@ == start + each(steps@.take(i as int), key_step_item((level + 1) as nat, *o)),
                decreases steps.len() - i,
            {
                let s = &steps[i];
                let ghost b = out@;
                push_line_break(out, o);
                push_indent(out, level + 1, o);
                push_str(out, "(key-step ");
                push_str(out, s.step.symbol());
                push_str(out, " :key-alter ");
                let t = s.alter.plain_chars();
                push_chars(out, &t);
                push_str(out, ")");
                match s.accidental {
                    Some(a) => push_kv_sym(out, "key-accidental", a.symbol()),
                    None => {},
                }
                assert(out@ =~= b + (key_step_item((level + 1) as nat, *o))(*s));
                proof {
                    lemma_each_step(steps@, i as int, key_step_item((level + 1) as nat, *o));
                }
                assert(out@ =~= start + each(steps@.take(i + 1), key_step_item((level + 1) as nat, *o)));
                i = i + 1;
            }
            assert(steps@.take(steps.len() as int) =~= steps@);
        },
    }
}

/// Appends time signatures, each on a line of its own.
fn push_times(out: &mut String, times: &Vec<Time>, level: usize, o: &PrintOptions)
    ensures
        final(out)@ == old(out)@ + each(times@, time_item(level as nat, *o)),
{
    let ghost start = out@;
    let mut i: usize = 0;
    while i < times.len()
        invariant
            i <= times.len(),
            out@ == start + each(times@.take(i as int), time_item(level as nat, *o)),
        decreases times.len() - i,
    {
        push_line_break(out, o);
        push_time(out, &times[i], level, o);
        proof {
            lemma_each_step(times@, i as int, time_item(level as nat, *o));
        }
        assert(out@ =~= start + each(times@.take(i + 1), time_item(level as nat, *o)));
        i = i + 1;
    }
    assert(times@.take(times.len() as int) =~= times@);
}

/// Appends the line of a time signature, as `time_text` states.
fn push_time(out: &mut String, t: &Time, level: usize, o: &PrintOptions)
    ensures
        final(out)@ == old(out)@ + time_text(*t, level as nat, *o),
{
    let ghost start = out@;
    push_indent(out, level, o);
    push_str(out, "(time");
    push_kv_u32_opt(out, "number", t.number);
    let ghost a = out@;
    match t.symbol {
        Some(s) => push_kv_sym(out, "symbol", s.symbol()),
        None => {},
    }
    assert(out@ =~= a + match t.symbol {
        Some(s) => kv("symbol"@, time_symbol_name(s)),
        None => Seq::<char>::empty(),
    });
    let ghost b = out@;
    match &t.content {
        TimeContent::Measured(sigs) => {
            let mut i: usize = 0;
            while i < sigs.len()
                invariant
                    i <= sigs.len(),
                    out@ == b + each(sigs@.take(i as int), signature_piece()),
                decreases sigs.len() - i,
            {
                let g = &sigs[i];
                let ghost c = out@;
                push_str(out, " (beats ");
                push_quoted(out, g.beats.as_str());
                push_str(out, ")");
                push_str(out, " (beat-type ");
                push_quoted(out, g.beat_type.as_str());
                push_str(out, ")");
                assert(out@ =~= c + (signature_piece())(*g));
                proof {
                    lemma_each_step(sigs@, i as int, signature_piece());
                }
                assert(out@ =~= b + each(sigs@.take(i + 1), signature_piece()));
                i = i + 1;
            }
            assert(sigs@.take(sigs.len() as int) =~= sigs@);
        },
        TimeContent::SenzaMisura(text) => {
            push_str(out, " :senza-misura #t");
            if !text.as_str().is_empty() {
                push_spaced_quoted(out, text.as_str());
            }
        },
    }
    assert(out@ =~= b + time_content_text(t.content));
    push_str(out, ")");
    assert(out@ =~= start + time_text(*t, level as nat, *o));
}

/// Appends a printed string.
fn push_quoted(out: &mut String, s: &str)
    ensures
        final(out)@ == old(out)@ + quoted(s@),
{
    let ghost start = out@;
    push_char(out, '"');
    push_escaped(out, s);
    push_char(out, '"');
    assert(out@ =~= start + quoted(s@));
}

/// Appends clefs, each on a line of its own.
fn push_clefs(out: &mut String, clefs: &Vec<Clef>, level: usize, o: &PrintOptions)
    ensures
        final(out)@ == old(out)@ + each(clefs@, clef_item(level as nat, *o)),
{
    let ghost start = out@;
    let mut i: usize = 0;
    while i < clefs.len()
        invariant
            i <= clefs.len(),
            out@ == start + each(clefs@.take(i as int), clef_item(level as nat, *o)),
        decreases clefs.len() - i,
    {
        let c = &clefs[i];
        let ghost b = out@;
        push_line_break(out, o);
        push_indent(out, level, o);
        push_str(out, "(clef");
        push_kv_u32_opt(out, "number", c.number);
        push_kv_sym(out, "sign", c.sign.symbol());
        push_kv_u32_opt(out, "line", c.line);
        push_kv_i32_opt(out, "clef-octave-change", c.octave_change);
        push_kv_yes_no_opt(out, "print-object", c.print_object);
        push_str(out, ")");
        assert(out@ =~= b + (clef_item(level as nat, *o))(*c));
        proof {
            lemma_each_step(clefs@, i as int, clef_item(level as nat, *o));
        }
        assert(out@ =~= start + each(clefs@.take(i + 1), clef_item(level as nat, *o)));
        i = i + 1;
    }
    assert(clefs@.take(clefs.len() as int) =~= clefs@);
}

/// Appends staff details, each on a line of their own.
fn push_staff_details(out: &mut String, items: &Vec<StaffDetails>, level: usize, o: &PrintOptions)
    ensures
        final(out)@ == old(out)@ + each(items@, staff_details_item(level as nat, *o)),
{
    let ghost start = out@;
    let mut i: usize = 0;
    while i < items.len()
        invariant
            i <= items.len(),
            out@ == start + each(items@.take(i as int), staff_details_item(level as nat, *o)),
        decreases items.len() - i,
    {
        let d = &items[i];
        let ghost b = out@;
        push_line_break(out, o);
        push_indent(out, level, o);
        push_str(out, "(staff-details");
        push_kv_u32_opt(out, "number", d.number);
        push_kv_u32_opt(out, "staff-lines", d.staff_lines);
        push_str(out, ")");
        assert(out@ =~= b + (staff_details_item(level as nat, *o))(*d));
        proof {
            lemma_each_step(items@, i as int, staff_details_item(level as nat, *o));
        }
        assert(out@ =~= start + each(items@.take(i + 1), staff_details_item(level as nat, *o)));
        i = i + 1;
    }
    assert(items@.take(items.len() as int) =~= items@);
}

/// Appends transpositions, each on a line of its own.
fn push_transposes(out: &mut String, items: &Vec<Transpose>, level: usize, o: &PrintOptions)
    ensures
        final(out)@ == old(out)@ + each(items@, transpose_item(level as nat, *o)),
{
    let ghost start = out@;
    let mut i: usize = 0;
    while i < items.len()
        invariant
            i <= items.len(),
            out@ == start + each(items@.take(i as int), transpose_item(level as nat, *o)),
        decreases items.len() - i,
    {
        let t = &items[i];
        let ghost b = out@;
        push_line_break(out, o);
        push_indent(out, level, o);
        push_str(out, "(transpose");
        push_kv_u32_opt(out, "number", t.number);
        push_kv_i32_opt(out, "diatonic", t.diatonic);
        push_kv_int(out, "chromatic", t.chromatic as i64);
        push_kv_i32_opt(out, "octave-change", t.octave_change);
        match t.double {
            Some(YesNo::Yes) => push_str(out, " :double #t"),
            _ => {},
        }
        push_str(out, ")");
        assert(out@ =~= b + (transpose_item(level as nat, *o))(*t));
        proof {
            lemma_each_step(items@, i as int, transpose_item(level as nat, *o));
        }
        assert(out@ =~= start + each(items@.take(i + 1), transpose_item(level as nat, *o)));
        i = i + 1;
    }
    assert(items@.take(items.len() as int) =~= items@);
}

// === Writing directions ===

/// Writes a direction, as `direction_text` states.
pub fn print_direction(d: &Direction, level: usize, o: &PrintOptions) -> (r: String)
    requires
        level < usize::MAX - 1,
    ensures
        r@ == direction_text(*d, level as nat, *o),
{
    let mut out = String::new();
    push_indent(&mut out, level, o);
    push_str(&mut out, "(direction");
    let ghost a = out@;
    match d.placement {
        Some(p) => push_kv_sym(&mut out, "placement", p.symbol()),
        None => {},
    }
    assert(out@ =~= a + placement_piece(d.placement));
    let ghost start = out@;
    let mut i: usize = 0;
    while i < d.direction_types.len()
        invariant
            i <= d.direction_types.len(),
            level < usize::MAX - 1,
            out@ == start + each(d.direction_types@.take(i as int), direction_type_item((level + 1) as nat, *o)),
        decreases d.direction_types.len() - i,
    {
        push_line_break(&mut out, o);
        push_indent(&mut out, level + 1, o);
        push_direction_type(&mut out, &d.direction_types[i].content);
        proof {
            lemma_each_step(d.direction_types@, i as int, direction_type_item((level + 1) as nat, *o));
        }
        assert(out@ =~= start + each(d.direction_types@.take(i + 1), direction_type_item((level + 1) as nat, *o)));
        i = i + 1;
    }
    assert(d.direction_types@.take(d.direction_types.len() as int) =~= d.direction_types@);
    push_kv_u32_opt(&mut out, "staff", d.staff);
    push_kv_str_opt(&mut out, "voice", &d.voice);
    push_str(&mut out, ")");
    assert(out@ =~= direction_text(*d, level as nat, *o));
    out
}

/// Appends a marking of a direction, as `direction_type_text` states.
fn push_direction_type(out: &mut String, c: &DirectionTypeContent)
    ensures
        final(out)@ == old(out)@ + direction_type_text(*c),
{
    let ghost start = out@;
    match c {
        DirectionTypeContent::Rehearsal(v) => {
            if v.len() > 0 {
                push_str(out, "(rehearsal");
                push_spaced_quoted(out, v[0].value.as_str());
                push_str(out, ")");
            } else {
                push_str(out, "(rehearsal)");
            }
        },
        DirectionTypeContent::Segno => push_str(out, "(segno)"),
        DirectionTypeContent::Coda => push_str(out, "(coda)"),
        DirectionTypeContent::Words(v) => {
            if v.len() > 0 {
                let w = &v[0];
                push_str(out, "(words");
                push_spaced_quoted(out, w.value.as_str());
                push_kv_str_opt(out, "lang", &w.lang);
                push_str(out, ")");
                assert(out@ =~= start + words_text(v@[0]));
            } else {
                push_str(out, "(words)");
            }
        },
        DirectionTypeContent::Dynamics(d) => push_dynamics(out, d),
        DirectionTypeContent::Wedge(w) => {
            push_str(out, "(wedge");
            push_kv_sym(out, "type", w.type_.symbol());
            push_str(out, ")");
        },
        DirectionTypeContent::Metronome(m) => push_metronome(out, m),
        DirectionTypeContent::OctaveShift(x) => {
            push_str(out, "(octave-shift");
            push_kv_sym(out, "type", x.type_.symbol());
            push_kv_u8_opt(out, "number", x.number);
            push_kv_u8_opt(out, "size", x.size);
            push_str(out, ")");
            assert(out@ =~= start + octave_shift_text(*x));
        },
        DirectionTypeContent::Pedal(p) => {
            push_str(out, "(pedal");
            push_kv_sym(out, "type", p.type_.symbol());
            push_kv_yes_no_opt(out, "line", p.line);
            push_kv_yes_no_opt(out, "sign", p.sign);
            push_str(out, ")");
            assert(out@ =~= start + pedal_text(*p));
        },
        DirectionTypeContent::OtherDirection(x) => {
            push_str(out, "(other-direction");
            push_spaced_quoted(out, x.value.as_str());
            push_str(out, ")");
        },
        _ => push_str(out, "(direction-type)"),
    }
    assert(out@ =~= start + direction_type_text(*c));
}

/// Appends a metronome mark, as `metronome_text` states.
fn push_metronome(out: &mut String, m: &Metronome)
    ensures
        final(out)@ == old(out)@ + metronome_text(*m),
{
    let ghost start = out@;
    push_str(out, "(metronome");
    match m.parentheses {
        Some(YesNo::Yes) => push_str(out, " :parentheses #t"),
        _ => {},
    }
    let ghost a = out@;
    assert(a =~= start + "(metronome"@ + flag_piece(m.parentheses == Some(YesNo::Yes), " :parentheses #t"@));
    match &m.content {
        MetronomeContent::PerMinute(p) => {
            push_kv_sym(out, "beat-unit", p.beat_unit.symbol());
            push_repeated(out, " :beat-unit-dot", p.beat_unit_dots);
            push_kv_str(out, "per-minute", p.per_minute.as_str());
        },
        MetronomeContent::BeatEquation(b) => {
            push_kv_sym(out, "left-unit", b.left_unit.symbol());
            push_repeated(out, " :left-dot", b.left_dots);
            push_kv_sym(out, "right-unit", b.right_unit.symbol());
            push_repeated(out, " :right-dot", b.right_dots);
        },
        MetronomeContent::MetricModulation => push_str(out, " :metric-modulation #t"),
    }
    push_str(out, ")");
    assert(out@ =~= start + metronome_text(*m));
}

// === Writing barlines ===

/// Writes a barline, as `barline_text` states.
#[verifier::rlimit(50)]
pub fn print_barline(b: &Barline, level: usize, o: &PrintOptions) -> (r: String)
    requires
        level < usize::MAX - 1,
    ensures
        r@ == barline_text(*b, level as nat, *o),
{
    let mut out = String::new();
    push_indent(&mut out, level, o);
    push_str(&mut out, "(barline");
    let ghost s0 = out@;
    push_barline_style(&mut out, b);
    let ghost s1 = out@;
    match &b.repeat {
        Some(r) => push_repeat_sign_line(&mut out, r, level + 1, o),
        None => {},
    }
    let ghost s2 = out@;
    assert(s2 =~= s1 + match b.repeat {
        Some(r) => line_break_text(*o) + indent_text((level + 1) as nat, *o) + repeat_sign_text(r),
        None => Seq::<char>::empty(),
    });
    match &b.ending {
        Some(e) => push_ending_line(&mut out, e, level + 1, o),
        None => {},
    }
    assert(out@ =~= s2 + match b.ending {
        Some(e) => line_break_text(*o) + indent_text((level + 1) as nat, *o) + ending_text(e),
        None => Seq::<char>::empty(),
    });
    push_str(&mut out, ")");
    assert(out@ =~= barline_text(*b, level as nat, *o));
    out
}

/// Appends a repeat sign on a line of its own.
fn push_repeat_sign_line(out: &mut String, r: &Repeat, level: usize, o: &PrintOptions)
    ensures
        final(out)@ == old(out)@ + line_break_text(*o) + indent_text(level as nat, *o) + repeat_sign_text(*r),
{
    let ghost start = out@;
    push_line_break(out, o);
    push_indent(out, level, o);
    push_str(out, "(repeat");
    push_kv_sym(out, "direction", r.direction.symbol());
    push_kv_u32_opt(out, "times", r.times);
    push_str(out, ")");
    assert(out@ =~= start + line_break_text(*o) + indent_text(level as nat, *o) + repeat_sign_text(*r));
}

/// Appends a volta bracket on a line of its own.
fn push_ending_line(out: &mut String, e: &Ending, level: usize, o: &PrintOptions)
    ensures
        final(out)@ == old(out)@ + line_break_text(*o) + indent_text(level as nat, *o) + ending_text(*e),
{
    let ghost start = out@;
    push_line_break(out, o);
    push_indent(out, level, o);
    push_str(out, "(ending");
    push_kv_str(out, "number", e.number.as_str());
    push_kv_sym(out, "type", e.type_.symbol());
    let ghost a = out@;
    match &e.text {
        Some(t) => {
            if !t.as_str().is_empty() {
                push_spaced_quoted(out, t.as_str());
            }
        },
        None => {},
    }
    push_str(out, ")");
    assert(out@ =~= start + line_break_text(*o) + indent_text(level as nat, *o) + ending_text(*e));
}

/// Appends the location and style of a barline, where it has them.
fn push_barline_style(out: &mut String, b: &Barline)
    ensures
        final(out)@ == old(out)@ + (match b.location {
            Some(l) => kv("location"@, right_left_middle_name(l)),
            None => Seq::<char>::empty(),
        }) + (match b.bar_style {
            Some(st) => kv("bar-style"@, bar_style_name(st)),
            None => Seq::<char>::empty(),
        }),
{
    let ghost s0 = out@;
    match b.location {
        Some(l) => push_kv_sym(out, "location", l.symbol()),
        None => {},
    }
    let ghost s1 = out@;
    assert(s1 =~= s0 + match b.location {
        Some(l) => kv("location"@, right_left_middle_name(l)),
        None => Seq::<char>::empty(),
    });
    match b.bar_style {
        Some(st) => push_kv_sym(out, "bar-style", st.symbol()),
        None => {},
    }
    assert(out@ =~= s1 + match b.bar_style {
        Some(st) => kv("bar-style"@, bar_style_name(st)),
        None => Seq::<char>::empty(),
    });
}

} // verus!
