//! Conversions of backups and forwards.

use vstd::prelude::*;
use crate::sexpr::round_trip::{RoundTrip, lemma_find_after, lemma_find_head, lemma_find_after_key, lemma_find_head_key, lemma_find_skip, lemma_find_hit, lemma_ends_clean, ends_clean, clean_piece, lemma_pair_piece, lemma_opt_piece, lemma_if_piece};
use super::find_kwarg_spec;
use crate::decimal::Decimal;
use crate::text::str_eq;
use crate::sexpr::ast::{ListBuilder, Sexpr, SexprV, kw_pair, kw_opt, kw_if};
use crate::sexpr::error::{ConvertError, ConvertErrorV, type_mismatch_v};
use crate::sexpr::traits::{FromSexpr, ToSexpr};
use super::{
    expect_head, get_head, require_kwarg, optional_kwarg, object_kwarg, flag_kwarg, list_kwarg,
    head_error, head_name, kwarg_error, kwarg_value, opt_kwarg_error, opt_kwarg_value,
    obj_kwarg_error, obj_kwarg_value, flag_kwarg_value, list_kwarg_value, either,
};
use crate::ir::common::{Editorial, editorial_none};
use crate::ir::voice::{Backup, Forward};

verus! {

// === Backup ===

impl ToSexpr for Backup {
    /// `(backup ...)` with the keyword arguments that the value has.
    open spec fn to_sexpr_spec(&self) -> SexprV {
        SexprV::List(seq![SexprV::Symbol("backup"@)] + kw_pair("duration"@, self.duration.to_sexpr_spec()))
    }

    fn to_sexpr(&self) -> (r: Sexpr) {
        ListBuilder::new("backup").kwarg("duration", &self.duration).build()
    }
}

impl FromSexpr for Backup {
    /// A list headed `backup` whose keyword arguments convert.
    open spec fn from_sexpr_error(s: SexprV) -> Option<ConvertErrorV> {
        match s {
            SexprV::List(items) => either(head_error(items, "backup"@), kwarg_error::<u64>(items, "duration"@)),
            _ => Some(type_mismatch_v("backup list"@, s)),
        }
    }

    open spec fn from_sexpr_value(s: SexprV, v: Backup) -> bool {
        match s {
            SexprV::List(items) => kwarg_value::<u64>(items, "duration"@, v.duration)
                && v.editorial == editorial_none(),
            _ => false,
        }
    }

    fn from_sexpr(sexpr: &Sexpr) -> (r: Result<Backup, ConvertError>) {
        let list = match sexpr.as_list() {
            Some(l) => l,
            None => return Err(ConvertError::type_mismatch("backup list", sexpr)),
        };
        expect_head(list, "backup")?;
        let duration: u64 = require_kwarg(list, "duration")?;
        Ok(Backup { duration, editorial: Editorial::empty() })
    }
}

// === Forward ===

impl ToSexpr for Forward {
    /// `(forward ...)` with the keyword arguments that the value has.
    open spec fn to_sexpr_spec(&self) -> SexprV {
        SexprV::List(seq![SexprV::Symbol("forward"@)] + kw_pair("duration"@, self.duration.to_sexpr_spec()) + kw_opt("voice"@, self.voice) + kw_opt("staff"@, self.staff))
    }

    fn to_sexpr(&self) -> (r: Sexpr) {
        ListBuilder::new("forward").kwarg("duration", &self.duration).kwarg_opt("voice", &self.voice).kwarg_opt("staff", &self.staff).build()
    }
}

impl FromSexpr for Forward {
    /// A list headed `forward` whose keyword arguments convert.
    open spec fn from_sexpr_error(s: SexprV) -> Option<ConvertErrorV> {
        match s {
            SexprV::List(items) => either(head_error(items, "forward"@), either(kwarg_error::<u64>(items, "duration"@), either(opt_kwarg_error::<String>(items, "voice"@), opt_kwarg_error::<u16>(items, "staff"@)))),
            _ => Some(type_mismatch_v("forward list"@, s)),
        }
    }

    open spec fn from_sexpr_value(s: SexprV, v: Forward) -> bool {
        match s {
            SexprV::List(items) => kwarg_value::<u64>(items, "duration"@, v.duration)
                && opt_kwarg_value::<String>(items, "voice"@, v.voice)
                && opt_kwarg_value::<u16>(items, "staff"@, v.staff)
                && v.editorial == editorial_none(),
            _ => false,
        }
    }

    fn from_sexpr(sexpr: &Sexpr) -> (r: Result<Forward, ConvertError>) {
        let list = match sexpr.as_list() {
            Some(l) => l,
            None => return Err(ConvertError::type_mismatch("forward list", sexpr)),
        };
        expect_head(list, "forward")?;
        let duration: u64 = require_kwarg(list, "duration")?;
        let voice: Option<String> = optional_kwarg(list, "voice")?;
        let staff: Option<u16> = optional_kwarg(list, "staff")?;
        Ok(Forward { duration, voice, staff, editorial: Editorial::empty() })
    }
}

// === Reading back ===

/// The head and keyword arguments of the S-expression of a `Backup`.
pub proof fn lemma_backup_items(x: Backup)
    requires
        x.writable(),
    ensures
        x.to_sexpr_spec() matches SexprV::List(items) && items.len() > 0 && items[0] == SexprV::Symbol("backup"@)
            && find_kwarg_spec(items, "duration"@) == (Some(x.duration.to_sexpr_spec())),
{
        let ghost s0 = seq![SexprV::Symbol("backup"@)];
        assert(ends_clean(s0));
        let ghost p1 = kw_pair("duration"@, x.duration.to_sexpr_spec());
        x.duration.lemma_not_keyword();
        lemma_pair_piece("duration"@, x.duration.to_sexpr_spec());
        let ghost s1 = s0 + p1;
        lemma_ends_clean(s0, p1);
        assert(x.to_sexpr_spec() == SexprV::List(s1));
        assert(s1[0] == SexprV::Symbol("backup"@)) by {
            assert(s1[0] == s0[0]);
        }
        assert(find_kwarg_spec(s1, "duration"@) == (Some(x.duration.to_sexpr_spec()))) by {
            lemma_find_head_key("backup"@, "duration"@);
            if p1.len() == 2 { lemma_find_hit(s0, p1, "duration"@); } else { lemma_find_skip(s0, p1, "duration"@); }
        }
}

impl RoundTrip for Backup {
    /// A value whose parts are writable and whose unwritten parts are as reading gives them.
    open spec fn writable(&self) -> bool {
        self.duration.writable()
            && self.editorial == editorial_none()
    }

    open spec fn same(&self, other: &Self) -> bool {
        self.duration.same(&other.duration)
            && self.editorial == other.editorial
    }

    proof fn lemma_not_keyword(&self) {
    }

    proof fn lemma_no_error(&self) {
        lemma_backup_items(*self);
        self.duration.lemma_no_error();
    }

    proof fn lemma_value(&self, v: Self) {
        lemma_backup_items(*self);
        self.duration.lemma_value(v.duration);
    }
}

/// The head and keyword arguments of the S-expression of a `Forward`.
pub proof fn lemma_forward_items(x: Forward)
    requires
        x.writable(),
    ensures
        x.to_sexpr_spec() matches SexprV::List(items) && items.len() > 0 && items[0] == SexprV::Symbol("forward"@)
            && find_kwarg_spec(items, "duration"@) == (Some(x.duration.to_sexpr_spec()))
            && find_kwarg_spec(items, "voice"@) == (match x.voice { Some(y) => Some(y.to_sexpr_spec()), None => None })
            && find_kwarg_spec(items, "staff"@) == (match x.staff { Some(y) => Some(y.to_sexpr_spec()), None => None }),
{
        assert("voice"@ != "duration"@) by {
            reveal_strlit("voice");
            assert("voice"@.len() == 5);
            reveal_strlit("duration");
            assert("duration"@.len() == 8);
        }
        assert("staff"@ != "duration"@) by {
            reveal_strlit("staff");
            assert("staff"@.len() == 5);
            reveal_strlit("duration");
            assert("duration"@.len() == 8);
        }
        assert("staff"@ != "voice"@) by {
            reveal_strlit("staff");
            assert("staff"@.len() == 5);
            reveal_strlit("voice");
            assert("voice"@.len() == 5);
            assert("staff"@[0] == 's');
            assert("voice"@[0] == 'v');
        }
        let ghost s0 = seq![SexprV::Symbol("forward"@)];
        assert(ends_clean(s0));
        let ghost p1 = kw_pair("duration"@, x.duration.to_sexpr_spec());
        x.duration.lemma_not_keyword();
        lemma_pair_piece("duration"@, x.duration.to_sexpr_spec());
        let ghost s1 = s0 + p1;
        lemma_ends_clean(s0, p1);
        let ghost p2 = kw_opt("voice"@, x.voice);
        lemma_opt_piece("voice"@, x.voice);
        let ghost s2 = s1 + p2;
        lemma_ends_clean(s1, p2);
        let ghost p3 = kw_opt("staff"@, x.staff);
        lemma_opt_piece("staff"@, x.staff);
        let ghost s3 = s2 + p3;
        lemma_ends_clean(s2, p3);
        assert(x.to_sexpr_spec() == SexprV::List(s3));
        assert(s3[0] == SexprV::Symbol("forward"@)) by {
            assert(s1[0] == s0[0]);
            assert(s2[0] == s1[0]);
            assert(s3[0] == s2[0]);
        }
        assert(find_kwarg_spec(s3, "duration"@) == (Some(x.duration.to_sexpr_spec()))) by {
            lemma_find_head_key("forward"@, "duration"@);
            if p1.len() == 2 { lemma_find_hit(s0, p1, "duration"@); } else { lemma_find_skip(s0, p1, "duration"@); }
            lemma_find_skip(s1, p2, "duration"@);
            lemma_find_skip(s2, p3, "duration"@);
        }
        assert(find_kwarg_spec(s3, "voice"@) == (match x.voice { Some(y) => Some(y.to_sexpr_spec()), None => None })) by {
            lemma_find_head_key("forward"@, "voice"@);
            lemma_find_skip(s0, p1, "voice"@);
            if p2.len() == 2 { lemma_find_hit(s1, p2, "voice"@); } else { lemma_find_skip(s1, p2, "voice"@); }
            lemma_find_skip(s2, p3, "voice"@);
        }
        assert(find_kwarg_spec(s3, "staff"@) == (match x.staff { Some(y) => Some(y.to_sexpr_spec()), None => None })) by {
            lemma_find_head_key("forward"@, "staff"@);
            lemma_find_skip(s0, p1, "staff"@);
            lemma_find_skip(s1, p2, "staff"@);
            if p3.len() == 2 { lemma_find_hit(s2, p3, "staff"@); } else { lemma_find_skip(s2, p3, "staff"@); }
        }
}

impl RoundTrip for Forward {
    /// A value whose parts are writable and whose unwritten parts are as reading gives them.
    open spec fn writable(&self) -> bool {
        self.duration.writable()
            && self.voice.writable()
            && self.staff.writable()
            && self.editorial == editorial_none()
    }

    open spec fn same(&self, other: &Self) -> bool {
        self.duration.same(&other.duration)
            && self.voice.same(&other.voice)
            && self.staff.same(&other.staff)
            && self.editorial == other.editorial
    }

    proof fn lemma_not_keyword(&self) {
    }

    proof fn lemma_no_error(&self) {
        lemma_forward_items(*self);
        self.duration.lemma_no_error();
        self.voice.lemma_no_error();
        self.staff.lemma_no_error();
    }

    proof fn lemma_value(&self, v: Self) {
        lemma_forward_items(*self);
        self.duration.lemma_value(v.duration);
        self.voice.lemma_value(v.voice);
        self.staff.lemma_value(v.staff);
    }
}

} // verus!
