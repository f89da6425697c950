//! The category and field tokens read back as what they name.

use crate::entity::{
    AnalogField, DigitalField, Property, ReadingField, SettingField, StatusField,
};
use crate::numeral::lemma_word_end_at;
use crate::scan::{category_at, category_of, field_at, field_of};
use crate::text::{ci_eq, is_word_char};
use vstd::prelude::*;

verus! {

/// `p` with its category's default field.
pub open spec fn with_default_field(p: Property) -> Property {
    match p {
        Property::Reading(_) => Property::Reading(ReadingField::Scaled),
        Property::Setting(_) => Property::Setting(SettingField::Scaled),
        Property::Status(_) => Property::Status(StatusField::All),
        Property::Analog(_) => Property::Analog(AnalogField::All),
        Property::Digital(_) => Property::Digital(DigitalField::All),
        _ => p,
    }
}

/// A token of the vocabulary: a dot and at least one word character.
pub open spec fn is_token(t: Seq<char>) -> bool {
    t.len() >= 2 && t[0] == '.' && forall|k: int| 1 <= k < t.len() ==> is_word_char(#[trigger] t[k])
}

/// No lower-case letter in `x`.
pub open spec fn no_lower(x: Seq<char>) -> bool {
    forall|k: int| 0 <= k < x.len() ==> !('a' <= #[trigger] x[k] && x[k] <= 'z')
}

/// A text without lower-case letters spells a token, ignoring case, only
/// where it is that token.
pub proof fn lemma_ci_eq_exact(x: Seq<char>)
    requires
        no_lower(x),
    ensures
        forall|y: Seq<char>| #[trigger] ci_eq(x, y) <==> x == y,
{
    assert forall|y: Seq<char>| #[trigger] ci_eq(x, y) <==> x == y by {
        if ci_eq(x, y) {
            assert(x =~= y);
        }
    }
}

/// Two texts differ where their lengths differ or where they differ at `k`.
pub proof fn lemma_tokens_differ(x: Seq<char>, y: Seq<char>, k: int)
    requires
        x.len() != y.len() || (0 <= k < x.len() && k < y.len() && x[k] != y[k]),
    ensures
        x != y,
{
}

#[verifier::rlimit(100)]
pub proof fn lemma_category_token(p: Property)
    ensures
        is_token(p.spec_category()),
        category_of(p.spec_category()) == Some(with_default_field(p)),
{
    match p {
        Property::Reading(_) => {
            reveal_strlit(".READING");
        },
        Property::Setting(_) => {
            reveal_strlit(".SETTING");
            reveal_strlit(".READING");
            lemma_tokens_differ(".SETTING"@, ".READING"@, 1);
        },
        Property::Status(_) => {
            reveal_strlit(".STATUS");
            reveal_strlit(".READING");
            lemma_tokens_differ(".STATUS"@, ".READING"@, 0);
            reveal_strlit(".SETTING");
            lemma_tokens_differ(".STATUS"@, ".SETTING"@, 0);
        },
        Property::Control => {
            reveal_strlit(".CONTROL");
            reveal_strlit(".READING");
            lemma_tokens_differ(".CONTROL"@, ".READING"@, 1);
            reveal_strlit(".SETTING");
            lemma_tokens_differ(".CONTROL"@, ".SETTING"@, 1);
            reveal_strlit(".STATUS");
            lemma_tokens_differ(".CONTROL"@, ".STATUS"@, 0);
        },
        Property::Analog(_) => {
            reveal_strlit(".ANALOG");
            reveal_strlit(".READING");
            lemma_tokens_differ(".ANALOG"@, ".READING"@, 0);
            reveal_strlit(".SETTING");
            lemma_tokens_differ(".ANALOG"@, ".SETTING"@, 0);
            reveal_strlit(".STATUS");
            lemma_tokens_differ(".ANALOG"@, ".STATUS"@, 1);
            reveal_strlit(".CONTROL");
            lemma_tokens_differ(".ANALOG"@, ".CONTROL"@, 0);
        },
        Property::Digital(_) => {
            reveal_strlit(".DIGITAL");
            reveal_strlit(".READING");
            lemma_tokens_differ(".DIGITAL"@, ".READING"@, 1);
            reveal_strlit(".SETTING");
            lemma_tokens_differ(".DIGITAL"@, ".SETTING"@, 1);
            reveal_strlit(".STATUS");
            lemma_tokens_differ(".DIGITAL"@, ".STATUS"@, 0);
            reveal_strlit(".CONTROL");
            lemma_tokens_differ(".DIGITAL"@, ".CONTROL"@, 1);
            reveal_strlit(".ANALOG");
            lemma_tokens_differ(".DIGITAL"@, ".ANALOG"@, 0);
        },
        Property::Description => {
            reveal_strlit(".DESCRIPTION");
            reveal_strlit(".READING");
            lemma_tokens_differ(".DESCRIPTION"@, ".READING"@, 0);
            reveal_strlit(".SETTING");
            lemma_tokens_differ(".DESCRIPTION"@, ".SETTING"@, 0);
            reveal_strlit(".STATUS");
            lemma_tokens_differ(".DESCRIPTION"@, ".STATUS"@, 0);
            reveal_strlit(".CONTROL");
            lemma_tokens_differ(".DESCRIPTION"@, ".CONTROL"@, 0);
            reveal_strlit(".ANALOG");
            lemma_tokens_differ(".DESCRIPTION"@, ".ANALOG"@, 0);
            reveal_strlit(".DIGITAL");
            lemma_tokens_differ(".DESCRIPTION"@, ".DIGITAL"@, 0);
        },
        Property::Index => {
            reveal_strlit(".INDEX");
            reveal_strlit(".READING");
            lemma_tokens_differ(".INDEX"@, ".READING"@, 0);
            reveal_strlit(".SETTING");
            lemma_tokens_differ(".INDEX"@, ".SETTING"@, 0);
            reveal_strlit(".STATUS");
            lemma_tokens_differ(".INDEX"@, ".STATUS"@, 0);
            reveal_strlit(".CONTROL");
            lemma_tokens_differ(".INDEX"@, ".CONTROL"@, 0);
            reveal_strlit(".ANALOG");
            lemma_tokens_differ(".INDEX"@, ".ANALOG"@, 0);
            reveal_strlit(".DIGITAL");
            lemma_tokens_differ(".INDEX"@, ".DIGITAL"@, 0);
            reveal_strlit(".DESCRIPTION");
            lemma_tokens_differ(".INDEX"@, ".DESCRIPTION"@, 0);
        },
        Property::LongName => {
            reveal_strlit(".LONG_NAME");
            reveal_strlit(".READING");
            lemma_tokens_differ(".LONG_NAME"@, ".READING"@, 0);
            reveal_strlit(".SETTING");
            lemma_tokens_differ(".LONG_NAME"@, ".SETTING"@, 0);
            reveal_strlit(".STATUS");
            lemma_tokens_differ(".LONG_NAME"@, ".STATUS"@, 0);
            reveal_strlit(".CONTROL");
            lemma_tokens_differ(".LONG_NAME"@, ".CONTROL"@, 0);
            reveal_strlit(".ANALOG");
            lemma_tokens_differ(".LONG_NAME"@, ".ANALOG"@, 0);
            reveal_strlit(".DIGITAL");
            lemma_tokens_differ(".LONG_NAME"@, ".DIGITAL"@, 0);
            reveal_strlit(".DESCRIPTION");
            lemma_tokens_differ(".LONG_NAME"@, ".DESCRIPTION"@, 0);
            reveal_strlit(".INDEX");
            lemma_tokens_differ(".LONG_NAME"@, ".INDEX"@, 0);
        },
        Property::AlarmList => {
            reveal_strlit(".ALARM_LIST_NAME");
            reveal_strlit(".READING");
            lemma_tokens_differ(".ALARM_LIST_NAME"@, ".READING"@, 0);
            reveal_strlit(".SETTING");
            lemma_tokens_differ(".ALARM_LIST_NAME"@, ".SETTING"@, 0);
            reveal_strlit(".STATUS");
            lemma_tokens_differ(".ALARM_LIST_NAME"@, ".STATUS"@, 0);
            reveal_strlit(".CONTROL");
            lemma_tokens_differ(".ALARM_LIST_NAME"@, ".CONTROL"@, 0);
            reveal_strlit(".ANALOG");
            lemma_tokens_differ(".ALARM_LIST_NAME"@, ".ANALOG"@, 0);
            reveal_strlit(".DIGITAL");
            lemma_tokens_differ(".ALARM_LIST_NAME"@, ".DIGITAL"@, 0);
            reveal_strlit(".DESCRIPTION");
            lemma_tokens_differ(".ALARM_LIST_NAME"@, ".DESCRIPTION"@, 0);
            reveal_strlit(".INDEX");
            lemma_tokens_differ(".ALARM_LIST_NAME"@, ".INDEX"@, 0);
            reveal_strlit(".LONG_NAME");
            lemma_tokens_differ(".ALARM_LIST_NAME"@, ".LONG_NAME"@, 0);
        },
    }
    lemma_ci_eq_exact(p.spec_category());
}

#[verifier::rlimit(100)]
pub proof fn lemma_reading_token(f: ReadingField)
    ensures
        is_token(f.spec_canonical()),
        ReadingField::spec_from_token(f.spec_canonical()) == Some(f),
{
    match f {
        ReadingField::Raw => {
            reveal_strlit(".RAW");
        },
        ReadingField::Primary => {
            reveal_strlit(".PRIMARY");
            reveal_strlit(".RAW");
            lemma_tokens_differ(".PRIMARY"@, ".RAW"@, 0);
        },
        ReadingField::Scaled => {
            reveal_strlit(".SCALED");
            reveal_strlit(".RAW");
            lemma_tokens_differ(".SCALED"@, ".RAW"@, 0);
            reveal_strlit(".PRIMARY");
            lemma_tokens_differ(".SCALED"@, ".PRIMARY"@, 0);
        },
    }
    lemma_ci_eq_exact(f.spec_canonical());
}

#[verifier::rlimit(100)]
pub proof fn lemma_setting_token(f: SettingField)
    ensures
        is_token(f.spec_canonical()),
        SettingField::spec_from_token(f.spec_canonical()) == Some(f),
{
    match f {
        SettingField::Raw => {
            reveal_strlit(".RAW");
        },
        SettingField::Primary => {
            reveal_strlit(".PRIMARY");
            reveal_strlit(".RAW");
            lemma_tokens_differ(".PRIMARY"@, ".RAW"@, 0);
        },
        SettingField::Scaled => {
            reveal_strlit(".SCALED");
            reveal_strlit(".RAW");
            lemma_tokens_differ(".SCALED"@, ".RAW"@, 0);
            reveal_strlit(".PRIMARY");
            lemma_tokens_differ(".SCALED"@, ".PRIMARY"@, 0);
        },
    }
    lemma_ci_eq_exact(f.spec_canonical());
}

#[verifier::rlimit(100)]
pub proof fn lemma_status_token(f: StatusField)
    ensures
        is_token(f.spec_canonical()),
        StatusField::spec_from_token(f.spec_canonical()) == Some(f),
{
    match f {
        StatusField::Raw => {
            reveal_strlit(".RAW");
        },
        StatusField::All => {
            reveal_strlit(".ALL");
            reveal_strlit(".RAW");
            lemma_tokens_differ(".ALL"@, ".RAW"@, 1);
        },
        StatusField::Text => {
            reveal_strlit(".TEXT");
            reveal_strlit(".RAW");
            lemma_tokens_differ(".TEXT"@, ".RAW"@, 0);
            reveal_strlit(".ALL");
            lemma_tokens_differ(".TEXT"@, ".ALL"@, 0);
        },
        StatusField::ExtText => {
            reveal_strlit(".EXTENDED_TEXT");
            reveal_strlit(".RAW");
            lemma_tokens_differ(".EXTENDED_TEXT"@, ".RAW"@, 0);
            reveal_strlit(".ALL");
            lemma_tokens_differ(".EXTENDED_TEXT"@, ".ALL"@, 0);
            reveal_strlit(".TEXT");
            lemma_tokens_differ(".EXTENDED_TEXT"@, ".TEXT"@, 0);
        },
        StatusField::On => {
            reveal_strlit(".ON");
            reveal_strlit(".RAW");
            lemma_tokens_differ(".ON"@, ".RAW"@, 0);
            reveal_strlit(".ALL");
            lemma_tokens_differ(".ON"@, ".ALL"@, 0);
            reveal_strlit(".TEXT");
            lemma_tokens_differ(".ON"@, ".TEXT"@, 0);
            reveal_strlit(".EXTENDED_TEXT");
            lemma_tokens_differ(".ON"@, ".EXTENDED_TEXT"@, 0);
        },
        StatusField::Ready => {
            reveal_strlit(".READY");
            reveal_strlit(".RAW");
            lemma_tokens_differ(".READY"@, ".RAW"@, 0);
            reveal_strlit(".ALL");
            lemma_tokens_differ(".READY"@, ".ALL"@, 0);
            reveal_strlit(".TEXT");
            lemma_tokens_differ(".READY"@, ".TEXT"@, 0);
            reveal_strlit(".EXTENDED_TEXT");
            lemma_tokens_differ(".READY"@, ".EXTENDED_TEXT"@, 0);
            reveal_strlit(".ON");
            lemma_tokens_differ(".READY"@, ".ON"@, 0);
        },
        StatusField::Remote => {
            reveal_strlit(".REMOTE");
            reveal_strlit(".RAW");
            lemma_tokens_differ(".REMOTE"@, ".RAW"@, 0);
            reveal_strlit(".ALL");
            lemma_tokens_differ(".REMOTE"@, ".ALL"@, 0);
            reveal_strlit(".TEXT");
            lemma_tokens_differ(".REMOTE"@, ".TEXT"@, 0);
            reveal_strlit(".EXTENDED_TEXT");
            lemma_tokens_differ(".REMOTE"@, ".EXTENDED_TEXT"@, 0);
            reveal_strlit(".ON");
            lemma_tokens_differ(".REMOTE"@, ".ON"@, 0);
            reveal_strlit(".READY");
            lemma_tokens_differ(".REMOTE"@, ".READY"@, 0);
        },
        StatusField::Positive => {
            reveal_strlit(".POSITIVE");
            reveal_strlit(".RAW");
            lemma_tokens_differ(".POSITIVE"@, ".RAW"@, 0);
            reveal_strlit(".ALL");
            lemma_tokens_differ(".POSITIVE"@, ".ALL"@, 0);
            reveal_strlit(".TEXT");
            lemma_tokens_differ(".POSITIVE"@, ".TEXT"@, 0);
            reveal_strlit(".EXTENDED_TEXT");
            lemma_tokens_differ(".POSITIVE"@, ".EXTENDED_TEXT"@, 0);
            reveal_strlit(".ON");
            lemma_tokens_differ(".POSITIVE"@, ".ON"@, 0);
            reveal_strlit(".READY");
            lemma_tokens_differ(".POSITIVE"@, ".READY"@, 0);
            reveal_strlit(".REMOTE");
            lemma_tokens_differ(".POSITIVE"@, ".REMOTE"@, 0);
        },
        StatusField::Ramp => {
            reveal_strlit(".RAMP");
            reveal_strlit(".RAW");
            lemma_tokens_differ(".RAMP"@, ".RAW"@, 0);
            reveal_strlit(".ALL");
            lemma_tokens_differ(".RAMP"@, ".ALL"@, 0);
            reveal_strlit(".TEXT");
            lemma_tokens_differ(".RAMP"@, ".TEXT"@, 1);
            reveal_strlit(".EXTENDED_TEXT");
            lemma_tokens_differ(".RAMP"@, ".EXTENDED_TEXT"@, 0);
            reveal_strlit(".ON");
            lemma_tokens_differ(".RAMP"@, ".ON"@, 0);
            reveal_strlit(".READY");
            lemma_tokens_differ(".RAMP"@, ".READY"@, 0);
            reveal_strlit(".REMOTE");
            lemma_tokens_differ(".RAMP"@, ".REMOTE"@, 0);
            reveal_strlit(".POSITIVE");
            lemma_tokens_differ(".RAMP"@, ".POSITIVE"@, 0);
        },
    }
    lemma_ci_eq_exact(f.spec_canonical());
}

#[verifier::rlimit(100)]
pub proof fn lemma_analog_token(f: AnalogField)
    ensures
        is_token(f.spec_canonical()),
        AnalogField::spec_from_token(f.spec_canonical()) == Some(f),
{
    match f {
        AnalogField::Raw => {
            reveal_strlit(".RAW");
        },
        AnalogField::All => {
            reveal_strlit(".ALL");
            reveal_strlit(".RAW");
            lemma_tokens_differ(".ALL"@, ".RAW"@, 1);
        },
        AnalogField::Text => {
            reveal_strlit(".TEXT");
            reveal_strlit(".RAW");
            lemma_tokens_differ(".TEXT"@, ".RAW"@, 0);
            reveal_strlit(".ALL");
            lemma_tokens_differ(".TEXT"@, ".ALL"@, 0);
        },
        AnalogField::Min => {
            reveal_strlit(".MIN");
            reveal_strlit(".RAW");
            lemma_tokens_differ(".MIN"@, ".RAW"@, 1);
            reveal_strlit(".ALL");
            lemma_tokens_differ(".MIN"@, ".ALL"@, 1);
            reveal_strlit(".TEXT");
            lemma_tokens_differ(".MIN"@, ".TEXT"@, 0);
        },
        AnalogField::Max => {
            reveal_strlit(".MAX");
            reveal_strlit(".RAW");
            lemma_tokens_differ(".MAX"@, ".RAW"@, 1);
            reveal_strlit(".ALL");
            lemma_tokens_differ(".MAX"@, ".ALL"@, 1);
            reveal_strlit(".TEXT");
            lemma_tokens_differ(".MAX"@, ".TEXT"@, 0);
            reveal_strlit(".MIN");
            lemma_tokens_differ(".MAX"@, ".MIN"@, 2);
        },
        AnalogField::Nom => {
            reveal_strlit(".NOM");
            reveal_strlit(".RAW");
            lemma_tokens_differ(".NOM"@, ".RAW"@, 1);
            reveal_strlit(".ALL");
            lemma_tokens_differ(".NOM"@, ".ALL"@, 1);
            reveal_strlit(".TEXT");
            lemma_tokens_differ(".NOM"@, ".TEXT"@, 0);
            reveal_strlit(".MIN");
            lemma_tokens_differ(".NOM"@, ".MIN"@, 1);
            reveal_strlit(".MAX");
            lemma_tokens_differ(".NOM"@, ".MAX"@, 1);
        },
        AnalogField::Tol => {
            reveal_strlit(".TOL");
            reveal_strlit(".RAW");
            lemma_tokens_differ(".TOL"@, ".RAW"@, 1);
            reveal_strlit(".ALL");
            lemma_tokens_differ(".TOL"@, ".ALL"@, 1);
            reveal_strlit(".TEXT");
            lemma_tokens_differ(".TOL"@, ".TEXT"@, 0);
            reveal_strlit(".MIN");
            lemma_tokens_differ(".TOL"@, ".MIN"@, 1);
            reveal_strlit(".MAX");
            lemma_tokens_differ(".TOL"@, ".MAX"@, 1);
            reveal_strlit(".NOM");
            lemma_tokens_differ(".TOL"@, ".NOM"@, 1);
        },
        AnalogField::RawMin => {
            reveal_strlit(".RAW_MIN");
            reveal_strlit(".RAW");
            lemma_tokens_differ(".RAW_MIN"@, ".RAW"@, 0);
            reveal_strlit(".ALL");
            lemma_tokens_differ(".RAW_MIN"@, ".ALL"@, 0);
            reveal_strlit(".TEXT");
            lemma_tokens_differ(".RAW_MIN"@, ".TEXT"@, 0);
            reveal_strlit(".MIN");
            lemma_tokens_differ(".RAW_MIN"@, ".MIN"@, 0);
            reveal_strlit(".MAX");
            lemma_tokens_differ(".RAW_MIN"@, ".MAX"@, 0);
            reveal_strlit(".NOM");
            lemma_tokens_differ(".RAW_MIN"@, ".NOM"@, 0);
            reveal_strlit(".TOL");
            lemma_tokens_differ(".RAW_MIN"@, ".TOL"@, 0);
        },
        AnalogField::RawMax => {
            reveal_strlit(".RAW_MAX");
            reveal_strlit(".RAW");
            lemma_tokens_differ(".RAW_MAX"@, ".RAW"@, 0);
            reveal_strlit(".ALL");
            lemma_tokens_differ(".RAW_MAX"@, ".ALL"@, 0);
            reveal_strlit(".TEXT");
            lemma_tokens_differ(".RAW_MAX"@, ".TEXT"@, 0);
            reveal_strlit(".MIN");
            lemma_tokens_differ(".RAW_MAX"@, ".MIN"@, 0);
            reveal_strlit(".MAX");
            lemma_tokens_differ(".RAW_MAX"@, ".MAX"@, 0);
            reveal_strlit(".NOM");
            lemma_tokens_differ(".RAW_MAX"@, ".NOM"@, 0);
            reveal_strlit(".TOL");
            lemma_tokens_differ(".RAW_MAX"@, ".TOL"@, 0);
            reveal_strlit(".RAW_MIN");
            lemma_tokens_differ(".RAW_MAX"@, ".RAW_MIN"@, 6);
        },
        AnalogField::RawNom => {
            reveal_strlit(".RAW_NOM");
            reveal_strlit(".RAW");
            lemma_tokens_differ(".RAW_NOM"@, ".RAW"@, 0);
            reveal_strlit(".ALL");
            lemma_tokens_differ(".RAW_NOM"@, ".ALL"@, 0);
            reveal_strlit(".TEXT");
            lemma_tokens_differ(".RAW_NOM"@, ".TEXT"@, 0);
            reveal_strlit(".MIN");
            lemma_tokens_differ(".RAW_NOM"@, ".MIN"@, 0);
            reveal_strlit(".MAX");
            lemma_tokens_differ(".RAW_NOM"@, ".MAX"@, 0);
            reveal_strlit(".NOM");
            lemma_tokens_differ(".RAW_NOM"@, ".NOM"@, 0);
            reveal_strlit(".TOL");
            lemma_tokens_differ(".RAW_NOM"@, ".TOL"@, 0);
            reveal_strlit(".RAW_MIN");
            lemma_tokens_differ(".RAW_NOM"@, ".RAW_MIN"@, 5);
            reveal_strlit(".RAW_MAX");
            lemma_tokens_differ(".RAW_NOM"@, ".RAW_MAX"@, 5);
        },
        AnalogField::RawTol => {
            reveal_strlit(".RAW_TOL");
            reveal_strlit(".RAW");
            lemma_tokens_differ(".RAW_TOL"@, ".RAW"@, 0);
            reveal_strlit(".ALL");
            lemma_tokens_differ(".RAW_TOL"@, ".ALL"@, 0);
            reveal_strlit(".TEXT");
            lemma_tokens_differ(".RAW_TOL"@, ".TEXT"@, 0);
            reveal_strlit(".MIN");
            lemma_tokens_differ(".RAW_TOL"@, ".MIN"@, 0);
            reveal_strlit(".MAX");
            lemma_tokens_differ(".RAW_TOL"@, ".MAX"@, 0);
            reveal_strlit(".NOM");
            lemma_tokens_differ(".RAW_TOL"@, ".NOM"@, 0);
            reveal_strlit(".TOL");
            lemma_tokens_differ(".RAW_TOL"@, ".TOL"@, 0);
            reveal_strlit(".RAW_MIN");
            lemma_tokens_differ(".RAW_TOL"@, ".RAW_MIN"@, 5);
            reveal_strlit(".RAW_MAX");
            lemma_tokens_differ(".RAW_TOL"@, ".RAW_MAX"@, 5);
            reveal_strlit(".RAW_NOM");
            lemma_tokens_differ(".RAW_TOL"@, ".RAW_NOM"@, 5);
        },
        AnalogField::Enable => {
            reveal_strlit(".ALARM_ENABLE");
            reveal_strlit(".RAW");
            lemma_tokens_differ(".ALARM_ENABLE"@, ".RAW"@, 0);
            reveal_strlit(".ALL");
            lemma_tokens_differ(".ALARM_ENABLE"@, ".ALL"@, 0);
            reveal_strlit(".TEXT");
            lemma_tokens_differ(".ALARM_ENABLE"@, ".TEXT"@, 0);
            reveal_strlit(".MIN");
            lemma_tokens_differ(".ALARM_ENABLE"@, ".MIN"@, 0);
            reveal_strlit(".MAX");
            lemma_tokens_differ(".ALARM_ENABLE"@, ".MAX"@, 0);
            reveal_strlit(".NOM");
            lemma_tokens_differ(".ALARM_ENABLE"@, ".NOM"@, 0);
            reveal_strlit(".TOL");
            lemma_tokens_differ(".ALARM_ENABLE"@, ".TOL"@, 0);
            reveal_strlit(".RAW_MIN");
            lemma_tokens_differ(".ALARM_ENABLE"@, ".RAW_MIN"@, 0);
            reveal_strlit(".RAW_MAX");
            lemma_tokens_differ(".ALARM_ENABLE"@, ".RAW_MAX"@, 0);
            reveal_strlit(".RAW_NOM");
            lemma_tokens_differ(".ALARM_ENABLE"@, ".RAW_NOM"@, 0);
            reveal_strlit(".RAW_TOL");
            lemma_tokens_differ(".ALARM_ENABLE"@, ".RAW_TOL"@, 0);
        },
        AnalogField::Status => {
            reveal_strlit(".ALARM_STATUS");
            reveal_strlit(".RAW");
            lemma_tokens_differ(".ALARM_STATUS"@, ".RAW"@, 0);
            reveal_strlit(".ALL");
            lemma_tokens_differ(".ALARM_STATUS"@, ".ALL"@, 0);
            reveal_strlit(".TEXT");
            lemma_tokens_differ(".ALARM_STATUS"@, ".TEXT"@, 0);
            reveal_strlit(".MIN");
            lemma_tokens_differ(".ALARM_STATUS"@, ".MIN"@, 0);
            reveal_strlit(".MAX");
            lemma_tokens_differ(".ALARM_STATUS"@, ".MAX"@, 0);
            reveal_strlit(".NOM");
            lemma_tokens_differ(".ALARM_STATUS"@, ".NOM"@, 0);
            reveal_strlit(".TOL");
            lemma_tokens_differ(".ALARM_STATUS"@, ".TOL"@, 0);
            reveal_strlit(".RAW_MIN");
            lemma_tokens_differ(".ALARM_STATUS"@, ".RAW_MIN"@, 0);
            reveal_strlit(".RAW_MAX");
            lemma_tokens_differ(".ALARM_STATUS"@, ".RAW_MAX"@, 0);
            reveal_strlit(".RAW_NOM");
            lemma_tokens_differ(".ALARM_STATUS"@, ".RAW_NOM"@, 0);
            reveal_strlit(".RAW_TOL");
            lemma_tokens_differ(".ALARM_STATUS"@, ".RAW_TOL"@, 0);
            reveal_strlit(".ALARM_ENABLE");
            lemma_tokens_differ(".ALARM_STATUS"@, ".ALARM_ENABLE"@, 7);
        },
        AnalogField::TriesNeeded => {
            reveal_strlit(".TRIES_NEEDED");
            reveal_strlit(".RAW");
            lemma_tokens_differ(".TRIES_NEEDED"@, ".RAW"@, 0);
            reveal_strlit(".ALL");
            lemma_tokens_differ(".TRIES_NEEDED"@, ".ALL"@, 0);
            reveal_strlit(".TEXT");
            lemma_tokens_differ(".TRIES_NEEDED"@, ".TEXT"@, 0);
            reveal_strlit(".MIN");
            lemma_tokens_differ(".TRIES_NEEDED"@, ".MIN"@, 0);
            reveal_strlit(".MAX");
            lemma_tokens_differ(".TRIES_NEEDED"@, ".MAX"@, 0);
            reveal_strlit(".NOM");
            lemma_tokens_differ(".TRIES_NEEDED"@, ".NOM"@, 0);
            reveal_strlit(".TOL");
            lemma_tokens_differ(".TRIES_NEEDED"@, ".TOL"@, 0);
            reveal_strlit(".RAW_MIN");
            lemma_tokens_differ(".TRIES_NEEDED"@, ".RAW_MIN"@, 0);
            reveal_strlit(".RAW_MAX");
            lemma_tokens_differ(".TRIES_NEEDED"@, ".RAW_MAX"@, 0);
            reveal_strlit(".RAW_NOM");
            lemma_tokens_differ(".TRIES_NEEDED"@, ".RAW_NOM"@, 0);
            reveal_strlit(".RAW_TOL");
            lemma_tokens_differ(".TRIES_NEEDED"@, ".RAW_TOL"@, 0);
            reveal_strlit(".ALARM_ENABLE");
            lemma_tokens_differ(".TRIES_NEEDED"@, ".ALARM_ENABLE"@, 1);
            reveal_strlit(".ALARM_STATUS");
            lemma_tokens_differ(".TRIES_NEEDED"@, ".ALARM_STATUS"@, 1);
        },
        AnalogField::TriesNow => {
            reveal_strlit(".TRIES_NOW");
            reveal_strlit(".RAW");
            lemma_tokens_differ(".TRIES_NOW"@, ".RAW"@, 0);
            reveal_strlit(".ALL");
            lemma_tokens_differ(".TRIES_NOW"@, ".ALL"@, 0);
            reveal_strlit(".TEXT");
            lemma_tokens_differ(".TRIES_NOW"@, ".TEXT"@, 0);
            reveal_strlit(".MIN");
            lemma_tokens_differ(".TRIES_NOW"@, ".MIN"@, 0);
            reveal_strlit(".MAX");
            lemma_tokens_differ(".TRIES_NOW"@, ".MAX"@, 0);
            reveal_strlit(".NOM");
            lemma_tokens_differ(".TRIES_NOW"@, ".NOM"@, 0);
            reveal_strlit(".TOL");
            lemma_tokens_differ(".TRIES_NOW"@, ".TOL"@, 0);
            reveal_strlit(".RAW_MIN");
            lemma_tokens_differ(".TRIES_NOW"@, ".RAW_MIN"@, 0);
            reveal_strlit(".RAW_MAX");
            lemma_tokens_differ(".TRIES_NOW"@, ".RAW_MAX"@, 0);
            reveal_strlit(".RAW_NOM");
            lemma_tokens_differ(".TRIES_NOW"@, ".RAW_NOM"@, 0);
            reveal_strlit(".RAW_TOL");
            lemma_tokens_differ(".TRIES_NOW"@, ".RAW_TOL"@, 0);
            reveal_strlit(".ALARM_ENABLE");
            lemma_tokens_differ(".TRIES_NOW"@, ".ALARM_ENABLE"@, 0);
            reveal_strlit(".ALARM_STATUS");
            lemma_tokens_differ(".TRIES_NOW"@, ".ALARM_STATUS"@, 0);
            reveal_strlit(".TRIES_NEEDED");
            lemma_tokens_differ(".TRIES_NOW"@, ".TRIES_NEEDED"@, 0);
        },
        AnalogField::FTD => {
            reveal_strlit(".ALARM_FTD");
            reveal_strlit(".RAW");
            lemma_tokens_differ(".ALARM_FTD"@, ".RAW"@, 0);
            reveal_strlit(".ALL");
            lemma_tokens_differ(".ALARM_FTD"@, ".ALL"@, 0);
            reveal_strlit(".TEXT");
            lemma_tokens_differ(".ALARM_FTD"@, ".TEXT"@, 0);
            reveal_strlit(".MIN");
            lemma_tokens_differ(".ALARM_FTD"@, ".MIN"@, 0);
            reveal_strlit(".MAX");
            lemma_tokens_differ(".ALARM_FTD"@, ".MAX"@, 0);
            reveal_strlit(".NOM");
            lemma_tokens_differ(".ALARM_FTD"@, ".NOM"@, 0);
            reveal_strlit(".TOL");
            lemma_tokens_differ(".ALARM_FTD"@, ".TOL"@, 0);
            reveal_strlit(".RAW_MIN");
            lemma_tokens_differ(".ALARM_FTD"@, ".RAW_MIN"@, 0);
            reveal_strlit(".RAW_MAX");
            lemma_tokens_differ(".ALARM_FTD"@, ".RAW_MAX"@, 0);
            reveal_strlit(".RAW_NOM");
            lemma_tokens_differ(".ALARM_FTD"@, ".RAW_NOM"@, 0);
            reveal_strlit(".RAW_TOL");
            lemma_tokens_differ(".ALARM_FTD"@, ".RAW_TOL"@, 0);
            reveal_strlit(".ALARM_ENABLE");
            lemma_tokens_differ(".ALARM_FTD"@, ".ALARM_ENABLE"@, 0);
            reveal_strlit(".ALARM_STATUS");
            lemma_tokens_differ(".ALARM_FTD"@, ".ALARM_STATUS"@, 0);
            reveal_strlit(".TRIES_NEEDED");
            lemma_tokens_differ(".ALARM_FTD"@, ".TRIES_NEEDED"@, 0);
            reveal_strlit(".TRIES_NOW");
            lemma_tokens_differ(".ALARM_FTD"@, ".TRIES_NOW"@, 1);
        },
        AnalogField::Abort => {
            reveal_strlit(".ABORT");
            reveal_strlit(".RAW");
            lemma_tokens_differ(".ABORT"@, ".RAW"@, 0);
            reveal_strlit(".ALL");
            lemma_tokens_differ(".ABORT"@, ".ALL"@, 0);
            reveal_strlit(".TEXT");
            lemma_tokens_differ(".ABORT"@, ".TEXT"@, 0);
            reveal_strlit(".MIN");
            lemma_tokens_differ(".ABORT"@, ".MIN"@, 0);
            reveal_strlit(".MAX");
            lemma_tokens_differ(".ABORT"@, ".MAX"@, 0);
            reveal_strlit(".NOM");
            lemma_tokens_differ(".ABORT"@, ".NOM"@, 0);
            reveal_strlit(".TOL");
            lemma_tokens_differ(".ABORT"@, ".TOL"@, 0);
            reveal_strlit(".RAW_MIN");
            lemma_tokens_differ(".ABORT"@, ".RAW_MIN"@, 0);
            reveal_strlit(".RAW_MAX");
            lemma_tokens_differ(".ABORT"@, ".RAW_MAX"@, 0);
            reveal_strlit(".RAW_NOM");
            lemma_tokens_differ(".ABORT"@, ".RAW_NOM"@, 0);
            reveal_strlit(".RAW_TOL");
            lemma_tokens_differ(".ABORT"@, ".RAW_TOL"@, 0);
            reveal_strlit(".ALARM_ENABLE");
            lemma_tokens_differ(".ABORT"@, ".ALARM_ENABLE"@, 0);
            reveal_strlit(".ALARM_STATUS");
            lemma_tokens_differ(".ABORT"@, ".ALARM_STATUS"@, 0);
            reveal_strlit(".TRIES_NEEDED");
            lemma_tokens_differ(".ABORT"@, ".TRIES_NEEDED"@, 0);
            reveal_strlit(".TRIES_NOW");
            lemma_tokens_differ(".ABORT"@, ".TRIES_NOW"@, 0);
            reveal_strlit(".ALARM_FTD");
            lemma_tokens_differ(".ABORT"@, ".ALARM_FTD"@, 0);
        },
        AnalogField::AbortInhibit => {
            reveal_strlit(".ABORT_INHIBIT");
            reveal_strlit(".RAW");
            lemma_tokens_differ(".ABORT_INHIBIT"@, ".RAW"@, 0);
            reveal_strlit(".ALL");
            lemma_tokens_differ(".ABORT_INHIBIT"@, ".ALL"@, 0);
            reveal_strlit(".TEXT");
            lemma_tokens_differ(".ABORT_INHIBIT"@, ".TEXT"@, 0);
            reveal_strlit(".MIN");
            lemma_tokens_differ(".ABORT_INHIBIT"@, ".MIN"@, 0);
            reveal_strlit(".MAX");
            lemma_tokens_differ(".ABORT_INHIBIT"@, ".MAX"@, 0);
            reveal_strlit(".NOM");
            lemma_tokens_differ(".ABORT_INHIBIT"@, ".NOM"@, 0);
            reveal_strlit(".TOL");
            lemma_tokens_differ(".ABORT_INHIBIT"@, ".TOL"@, 0);
            reveal_strlit(".RAW_MIN");
            lemma_tokens_differ(".ABORT_INHIBIT"@, ".RAW_MIN"@, 0);
            reveal_strlit(".RAW_MAX");
            lemma_tokens_differ(".ABORT_INHIBIT"@, ".RAW_MAX"@, 0);
            reveal_strlit(".RAW_NOM");
            lemma_tokens_differ(".ABORT_INHIBIT"@, ".RAW_NOM"@, 0);
            reveal_strlit(".RAW_TOL");
            lemma_tokens_differ(".ABORT_INHIBIT"@, ".RAW_TOL"@, 0);
            reveal_strlit(".ALARM_ENABLE");
            lemma_tokens_differ(".ABORT_INHIBIT"@, ".ALARM_ENABLE"@, 0);
            reveal_strlit(".ALARM_STATUS");
            lemma_tokens_differ(".ABORT_INHIBIT"@, ".ALARM_STATUS"@, 0);
            reveal_strlit(".TRIES_NEEDED");
            lemma_tokens_differ(".ABORT_INHIBIT"@, ".TRIES_NEEDED"@, 0);
            reveal_strlit(".TRIES_NOW");
            lemma_tokens_differ(".ABORT_INHIBIT"@, ".TRIES_NOW"@, 0);
            reveal_strlit(".ALARM_FTD");
            lemma_tokens_differ(".ABORT_INHIBIT"@, ".ALARM_FTD"@, 0);
            reveal_strlit(".ABORT");
            lemma_tokens_differ(".ABORT_INHIBIT"@, ".ABORT"@, 0);
        },
        AnalogField::Flags => {
            reveal_strlit(".FLAGS");
            reveal_strlit(".RAW");
            lemma_tokens_differ(".FLAGS"@, ".RAW"@, 0);
            reveal_strlit(".ALL");
            lemma_tokens_differ(".FLAGS"@, ".ALL"@, 0);
            reveal_strlit(".TEXT");
            lemma_tokens_differ(".FLAGS"@, ".TEXT"@, 0);
            reveal_strlit(".MIN");
            lemma_tokens_differ(".FLAGS"@, ".MIN"@, 0);
            reveal_strlit(".MAX");
            lemma_tokens_differ(".FLAGS"@, ".MAX"@, 0);
            reveal_strlit(".NOM");
            lemma_tokens_differ(".FLAGS"@, ".NOM"@, 0);
            reveal_strlit(".TOL");
            lemma_tokens_differ(".FLAGS"@, ".TOL"@, 0);
            reveal_strlit(".RAW_MIN");
            lemma_tokens_differ(".FLAGS"@, ".RAW_MIN"@, 0);
            reveal_strlit(".RAW_MAX");
            lemma_tokens_differ(".FLAGS"@, ".RAW_MAX"@, 0);
            reveal_strlit(".RAW_NOM");
            lemma_tokens_differ(".FLAGS"@, ".RAW_NOM"@, 0);
            reveal_strlit(".RAW_TOL");
            lemma_tokens_differ(".FLAGS"@, ".RAW_TOL"@, 0);
            reveal_strlit(".ALARM_ENABLE");
            lemma_tokens_differ(".FLAGS"@, ".ALARM_ENABLE"@, 0);
            reveal_strlit(".ALARM_STATUS");
            lemma_tokens_differ(".FLAGS"@, ".ALARM_STATUS"@, 0);
            reveal_strlit(".TRIES_NEEDED");
            lemma_tokens_differ(".FLAGS"@, ".TRIES_NEEDED"@, 0);
            reveal_strlit(".TRIES_NOW");
            lemma_tokens_differ(".FLAGS"@, ".TRIES_NOW"@, 0);
            reveal_strlit(".ALARM_FTD");
            lemma_tokens_differ(".FLAGS"@, ".ALARM_FTD"@, 0);
            reveal_strlit(".ABORT");
            lemma_tokens_differ(".FLAGS"@, ".ABORT"@, 1);
            reveal_strlit(".ABORT_INHIBIT");
            lemma_tokens_differ(".FLAGS"@, ".ABORT_INHIBIT"@, 0);
        },
    }
    lemma_ci_eq_exact(f.spec_canonical());
}

#[verifier::rlimit(100)]
pub proof fn lemma_digital_token(f: DigitalField)
    ensures
        is_token(f.spec_canonical()),
        DigitalField::spec_from_token(f.spec_canonical()) == Some(f),
{
    match f {
        DigitalField::Raw => {
            reveal_strlit(".RAW");
        },
        DigitalField::All => {
            reveal_strlit(".ALL");
            reveal_strlit(".RAW");
            lemma_tokens_differ(".ALL"@, ".RAW"@, 1);
        },
        DigitalField::Text => {
            reveal_strlit(".TEXT");
            reveal_strlit(".RAW");
            lemma_tokens_differ(".TEXT"@, ".RAW"@, 0);
            reveal_strlit(".ALL");
            lemma_tokens_differ(".TEXT"@, ".ALL"@, 0);
        },
        DigitalField::Nom => {
            reveal_strlit(".NOM");
            reveal_strlit(".RAW");
            lemma_tokens_differ(".NOM"@, ".RAW"@, 1);
            reveal_strlit(".ALL");
            lemma_tokens_differ(".NOM"@, ".ALL"@, 1);
            reveal_strlit(".TEXT");
            lemma_tokens_differ(".NOM"@, ".TEXT"@, 0);
        },
        DigitalField::Mask => {
            reveal_strlit(".MASK");
            reveal_strlit(".RAW");
            lemma_tokens_differ(".MASK"@, ".RAW"@, 0);
            reveal_strlit(".ALL");
            lemma_tokens_differ(".MASK"@, ".ALL"@, 0);
            reveal_strlit(".TEXT");
            lemma_tokens_differ(".MASK"@, ".TEXT"@, 1);
            reveal_strlit(".NOM");
            lemma_tokens_differ(".MASK"@, ".NOM"@, 0);
        },
        DigitalField::Enable => {
            reveal_strlit(".ALARM_ENABLE");
            reveal_strlit(".RAW");
            lemma_tokens_differ(".ALARM_ENABLE"@, ".RAW"@, 0);
            reveal_strlit(".ALL");
            lemma_tokens_differ(".ALARM_ENABLE"@, ".ALL"@, 0);
            reveal_strlit(".TEXT");
            lemma_tokens_differ(".ALARM_ENABLE"@, ".TEXT"@, 0);
            reveal_strlit(".NOM");
            lemma_tokens_differ(".ALARM_ENABLE"@, ".NOM"@, 0);
            reveal_strlit(".MASK");
            lemma_tokens_differ(".ALARM_ENABLE"@, ".MASK"@, 0);
        },
        DigitalField::Status => {
            reveal_strlit(".ALARM_STATUS");
            reveal_strlit(".RAW");
            lemma_tokens_differ(".ALARM_STATUS"@, ".RAW"@, 0);
            reveal_strlit(".ALL");
            lemma_tokens_differ(".ALARM_STATUS"@, ".ALL"@, 0);
            reveal_strlit(".TEXT");
            lemma_tokens_differ(".ALARM_STATUS"@, ".TEXT"@, 0);
            reveal_strlit(".NOM");
            lemma_tokens_differ(".ALARM_STATUS"@, ".NOM"@, 0);
            reveal_strlit(".MASK");
            lemma_tokens_differ(".ALARM_STATUS"@, ".MASK"@, 0);
            reveal_strlit(".ALARM_ENABLE");
            lemma_tokens_differ(".ALARM_STATUS"@, ".ALARM_ENABLE"@, 7);
        },
        DigitalField::TriesNeeded => {
            reveal_strlit(".TRIES_NEEDED");
            reveal_strlit(".RAW");
            lemma_tokens_differ(".TRIES_NEEDED"@, ".RAW"@, 0);
            reveal_strlit(".ALL");
            lemma_tokens_differ(".TRIES_NEEDED"@, ".ALL"@, 0);
            reveal_strlit(".TEXT");
            lemma_tokens_differ(".TRIES_NEEDED"@, ".TEXT"@, 0);
            reveal_strlit(".NOM");
            lemma_tokens_differ(".TRIES_NEEDED"@, ".NOM"@, 0);
            reveal_strlit(".MASK");
            lemma_tokens_differ(".TRIES_NEEDED"@, ".MASK"@, 0);
            reveal_strlit(".ALARM_ENABLE");
            lemma_tokens_differ(".TRIES_NEEDED"@, ".ALARM_ENABLE"@, 1);
            reveal_strlit(".ALARM_STATUS");
            lemma_tokens_differ(".TRIES_NEEDED"@, ".ALARM_STATUS"@, 1);
        },
        DigitalField::TriesNow => {
            reveal_strlit(".TRIES_NOW");
            reveal_strlit(".RAW");
            lemma_tokens_differ(".TRIES_NOW"@, ".RAW"@, 0);
            reveal_strlit(".ALL");
            lemma_tokens_differ(".TRIES_NOW"@, ".ALL"@, 0);
            reveal_strlit(".TEXT");
            lemma_tokens_differ(".TRIES_NOW"@, ".TEXT"@, 0);
            reveal_strlit(".NOM");
            lemma_tokens_differ(".TRIES_NOW"@, ".NOM"@, 0);
            reveal_strlit(".MASK");
            lemma_tokens_differ(".TRIES_NOW"@, ".MASK"@, 0);
            reveal_strlit(".ALARM_ENABLE");
            lemma_tokens_differ(".TRIES_NOW"@, ".ALARM_ENABLE"@, 0);
            reveal_strlit(".ALARM_STATUS");
            lemma_tokens_differ(".TRIES_NOW"@, ".ALARM_STATUS"@, 0);
            reveal_strlit(".TRIES_NEEDED");
            lemma_tokens_differ(".TRIES_NOW"@, ".TRIES_NEEDED"@, 0);
        },
        DigitalField::FTD => {
            reveal_strlit(".ALARM_FTD");
            reveal_strlit(".RAW");
            lemma_tokens_differ(".ALARM_FTD"@, ".RAW"@, 0);
            reveal_strlit(".ALL");
            lemma_tokens_differ(".ALARM_FTD"@, ".ALL"@, 0);
            reveal_strlit(".TEXT");
            lemma_tokens_differ(".ALARM_FTD"@, ".TEXT"@, 0);
            reveal_strlit(".NOM");
            lemma_tokens_differ(".ALARM_FTD"@, ".NOM"@, 0);
            reveal_strlit(".MASK");
            lemma_tokens_differ(".ALARM_FTD"@, ".MASK"@, 0);
            reveal_strlit(".ALARM_ENABLE");
            lemma_tokens_differ(".ALARM_FTD"@, ".ALARM_ENABLE"@, 0);
            reveal_strlit(".ALARM_STATUS");
            lemma_tokens_differ(".ALARM_FTD"@, ".ALARM_STATUS"@, 0);
            reveal_strlit(".TRIES_NEEDED");
            lemma_tokens_differ(".ALARM_FTD"@, ".TRIES_NEEDED"@, 0);
            reveal_strlit(".TRIES_NOW");
            lemma_tokens_differ(".ALARM_FTD"@, ".TRIES_NOW"@, 1);
        },
        DigitalField::Abort => {
            reveal_strlit(".ABORT");
            reveal_strlit(".RAW");
            lemma_tokens_differ(".ABORT"@, ".RAW"@, 0);
            reveal_strlit(".ALL");
            lemma_tokens_differ(".ABORT"@, ".ALL"@, 0);
            reveal_strlit(".TEXT");
            lemma_tokens_differ(".ABORT"@, ".TEXT"@, 0);
            reveal_strlit(".NOM");
            lemma_tokens_differ(".ABORT"@, ".NOM"@, 0);
            reveal_strlit(".MASK");
            lemma_tokens_differ(".ABORT"@, ".MASK"@, 0);
            reveal_strlit(".ALARM_ENABLE");
            lemma_tokens_differ(".ABORT"@, ".ALARM_ENABLE"@, 0);
            reveal_strlit(".ALARM_STATUS");
            lemma_tokens_differ(".ABORT"@, ".ALARM_STATUS"@, 0);
            reveal_strlit(".TRIES_NEEDED");
            lemma_tokens_differ(".ABORT"@, ".TRIES_NEEDED"@, 0);
            reveal_strlit(".TRIES_NOW");
            lemma_tokens_differ(".ABORT"@, ".TRIES_NOW"@, 0);
            reveal_strlit(".ALARM_FTD");
            lemma_tokens_differ(".ABORT"@, ".ALARM_FTD"@, 0);
        },
        DigitalField::AbortInhibit => {
            reveal_strlit(".ABORT_INHIBIT");
            reveal_strlit(".RAW");
            lemma_tokens_differ(".ABORT_INHIBIT"@, ".RAW"@, 0);
            reveal_strlit(".ALL");
            lemma_tokens_differ(".ABORT_INHIBIT"@, ".ALL"@, 0);
            reveal_strlit(".TEXT");
            lemma_tokens_differ(".ABORT_INHIBIT"@, ".TEXT"@, 0);
            reveal_strlit(".NOM");
            lemma_tokens_differ(".ABORT_INHIBIT"@, ".NOM"@, 0);
            reveal_strlit(".MASK");
            lemma_tokens_differ(".ABORT_INHIBIT"@, ".MASK"@, 0);
            reveal_strlit(".ALARM_ENABLE");
            lemma_tokens_differ(".ABORT_INHIBIT"@, ".ALARM_ENABLE"@, 0);
            reveal_strlit(".ALARM_STATUS");
            lemma_tokens_differ(".ABORT_INHIBIT"@, ".ALARM_STATUS"@, 0);
            reveal_strlit(".TRIES_NEEDED");
            lemma_tokens_differ(".ABORT_INHIBIT"@, ".TRIES_NEEDED"@, 0);
            reveal_strlit(".TRIES_NOW");
            lemma_tokens_differ(".ABORT_INHIBIT"@, ".TRIES_NOW"@, 0);
            reveal_strlit(".ALARM_FTD");
            lemma_tokens_differ(".ABORT_INHIBIT"@, ".ALARM_FTD"@, 0);
            reveal_strlit(".ABORT");
            lemma_tokens_differ(".ABORT_INHIBIT"@, ".ABORT"@, 0);
        },
        DigitalField::Flags => {
            reveal_strlit(".FLAGS");
            reveal_strlit(".RAW");
            lemma_tokens_differ(".FLAGS"@, ".RAW"@, 0);
            reveal_strlit(".ALL");
            lemma_tokens_differ(".FLAGS"@, ".ALL"@, 0);
            reveal_strlit(".TEXT");
            lemma_tokens_differ(".FLAGS"@, ".TEXT"@, 0);
            reveal_strlit(".NOM");
            lemma_tokens_differ(".FLAGS"@, ".NOM"@, 0);
            reveal_strlit(".MASK");
            lemma_tokens_differ(".FLAGS"@, ".MASK"@, 0);
            reveal_strlit(".ALARM_ENABLE");
            lemma_tokens_differ(".FLAGS"@, ".ALARM_ENABLE"@, 0);
            reveal_strlit(".ALARM_STATUS");
            lemma_tokens_differ(".FLAGS"@, ".ALARM_STATUS"@, 0);
            reveal_strlit(".TRIES_NEEDED");
            lemma_tokens_differ(".FLAGS"@, ".TRIES_NEEDED"@, 0);
            reveal_strlit(".TRIES_NOW");
            lemma_tokens_differ(".FLAGS"@, ".TRIES_NOW"@, 0);
            reveal_strlit(".ALARM_FTD");
            lemma_tokens_differ(".FLAGS"@, ".ALARM_FTD"@, 0);
            reveal_strlit(".ABORT");
            lemma_tokens_differ(".FLAGS"@, ".ABORT"@, 1);
            reveal_strlit(".ABORT_INHIBIT");
            lemma_tokens_differ(".FLAGS"@, ".ABORT_INHIBIT"@, 0);
        },
    }
    lemma_ci_eq_exact(f.spec_canonical());
}

/// The field token of `p` reads back, after its category, as `p`.
pub proof fn lemma_field_token(p: Property)
    ensures
        p.spec_field().len() == 0 || is_token(p.spec_field()),
        p.spec_field().len() == 0 ==> with_default_field(p) == p,
        p.spec_field().len() != 0 ==> field_of(with_default_field(p), p.spec_field()) == Some(p),
{
    match p {
        Property::Reading(f) => lemma_reading_token(f),
        Property::Setting(f) => lemma_setting_token(f),
        Property::Status(f) => lemma_status_token(f),
        Property::Analog(f) => lemma_analog_token(f),
        Property::Digital(f) => lemma_digital_token(f),
        _ => {},
    }
}


/// The character at `j` ends a word: nothing, or not a word character.
pub open spec fn ends_word(s: Seq<char>, j: int) -> bool {
    j == s.len() || (0 <= j < s.len() && !is_word_char(s[j]))
}

/// The category token of `p`, where a word ends after it, reads back as
/// `p`'s category with its default field.
pub proof fn lemma_category_stage(s: Seq<char>, i: int, p: Property, hint: Property)
    requires
        0 <= i,
        i + p.spec_category().len() <= s.len(),
        s.subrange(i, i + p.spec_category().len()) == p.spec_category(),
        ends_word(s, i + p.spec_category().len()),
    ensures
        category_at(s, i, hint) == (with_default_field(p), i + p.spec_category().len()),
{
    let c = p.spec_category();
    lemma_category_token(p);
    assert forall|k: int| 0 <= k < c.len() implies s[i + k] == c[k] by {
        assert(s.subrange(i, i + c.len())[k] == c[k]);
    }
    assert forall|k: int| i + 1 <= k < i + c.len() implies is_word_char(#[trigger] s[k]) by {
        assert(s[i + (k - i)] == c[k - i]);
    }
    lemma_word_end_at(s, i + 1, i + c.len());
}

/// The field token of `p` (empty for a category without fields), followed
/// by an `@` or nothing, reads back after `p`'s category as `p`.
pub proof fn lemma_field_stage(s: Seq<char>, i: int, p: Property)
    requires
        0 <= i,
        i + p.spec_field().len() <= s.len(),
        s.subrange(i, i + p.spec_field().len()) == p.spec_field(),
        i + p.spec_field().len() == s.len() || s[i + p.spec_field().len()] == '@',
    ensures
        field_at(s, i, with_default_field(p)) == (p, i + p.spec_field().len()),
{
    let f = p.spec_field();
    lemma_field_token(p);
    if f.len() > 0 {
        assert forall|k: int| 0 <= k < f.len() implies s[i + k] == f[k] by {
            assert(s.subrange(i, i + f.len())[k] == f[k]);
        }
        assert forall|k: int| i + 1 <= k < i + f.len() implies is_word_char(#[trigger] s[k]) by {
            assert(s[i + (k - i)] == f[k - i]);
        }
        lemma_word_end_at(s, i + 1, i + f.len());
    } else {
        assert(with_default_field(p) == p);
    }
}

} // verus!
