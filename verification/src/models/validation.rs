//! Field validation of request bodies: minimum lengths of texts, counted in
//! characters, and inclusive ranges of numbers.
use vstd::prelude::*;
use vstd::string::*;

verus! {

/// The fields that request bodies validate.
#[derive(Debug, Clone, Copy, PartialEq, Eq, Structural)]
pub enum Field {
    Title,
    Pages,
    Text,
    Description,
    Author,
    CopiesSold,
}

/// The name of each field as it appears in request bodies.
pub open spec fn field_name(f: Field) -> Seq<char> {
    match f {
        Field::Title => "title"@,
        Field::Pages => "pages"@,
        Field::Text => "text"@,
        Field::Description => "description"@,
        Field::Author => "author"@,
        Field::CopiesSold => "copies_sold"@,
    }
}

impl Field {
    /// The name of the field as it appears in request bodies.
    pub fn name(&self) -> (res: &'static str)
        ensures
            res@ == field_name(*self),
    {
        match self {
            Field::Title => "title",
            Field::Pages => "pages",
            Field::Text => "text",
            Field::Description => "description",
            Field::Author => "author",
            Field::CopiesSold => "copies_sold",
        }
    }
}

/// The rule a field broke.
#[derive(Debug, Clone, Copy, PartialEq, Eq, Structural)]
pub enum Rule {
    /// The text has fewer characters than `min`.
    Length { min: u64 },
    /// The number lies outside `min..=max`; a missing bound is not checked.
    Range { min: Option<i64>, max: Option<i64> },
}

/// The code of each rule.
pub open spec fn rule_code(r: Rule) -> Seq<char> {
    match r {
        Rule::Length { .. } => "length"@,
        Rule::Range { .. } => "range"@,
    }
}

impl Rule {
    /// The code of the rule.
    pub fn code(&self) -> (res: &'static str)
        ensures
            res@ == rule_code(*self),
    {
        match self {
            Rule::Length { .. } => "length",
            Rule::Range { .. } => "range",
        }
    }
}

/// One broken rule on one field.
#[derive(Debug, Clone, Copy, PartialEq, Eq, Structural)]
pub struct FieldError {
    pub field: Field,
    pub rule: Rule,
}

/// The rules a request body broke, in the order of its fields.
#[derive(Debug, Clone)]
pub struct ValidationErrors {
    pub errors: Vec<FieldError>,
}

/// The error list of a text field with a minimum length.
pub open spec fn length_errors(field: Field, text: Seq<char>, min: u64) -> Seq<FieldError> {
    if text.len() < min {
        seq![FieldError { field, rule: Rule::Length { min } }]
    } else {
        seq![]
    }
}

/// The error list of an optional text field: absent passes.
pub open spec fn opt_length_errors(field: Field, text: Option<Seq<char>>, min: u64) -> Seq<
    FieldError,
> {
    match text {
        Some(t) => length_errors(field, t, min),
        None => seq![],
    }
}

/// The error list of a number with inclusive bounds.
pub open spec fn range_errors(field: Field, value: int, min: Option<i64>, max: Option<i64>) -> Seq<
    FieldError,
> {
    let too_big = match max {
        Some(m) => value > m,
        None => false,
    };
    let too_small = match min {
        Some(m) => value < m,
        None => false,
    };
    if too_big || too_small {
        seq![FieldError { field, rule: Rule::Range { min, max } }]
    } else {
        seq![]
    }
}

/// The error list of an optional number: absent passes.
pub open spec fn opt_range_errors(
    field: Field,
    value: Option<int>,
    min: Option<i64>,
    max: Option<i64>,
) -> Seq<FieldError> {
    match value {
        Some(v) => range_errors(field, v, min, max),
        None => seq![],
    }
}

/// The view of an optional string.
pub open spec fn opt_view(s: Option<String>) -> Option<Seq<char>> {
    match s {
        Some(t) => Some(t@),
        None => None,
    }
}

/// What `validate` gives for the broken rules `errs`: success when none.
pub open spec fn outcome(errs: Seq<FieldError>, res: Result<(), ValidationErrors>) -> bool {
    match res {
        Ok(()) => errs.len() == 0,
        Err(e) => errs.len() > 0 && e.errors@ == errs,
    }
}

/// Records a length violation of `text`, if any.
pub fn check_length(errors: &mut Vec<FieldError>, field: Field, text: &str, min: u64)
    ensures
        final(errors)@ == old(errors)@ + length_errors(field, text@, min),
{
    let n = text.unicode_len();
    if (n as u64) < min {
        errors.push(FieldError { field, rule: Rule::Length { min } });
    } else {
        assert(final(errors)@ =~= old(errors)@ + length_errors(field, text@, min));
    }
}

/// Records a length violation of an optional text, if present and too short.
pub fn check_opt_length(errors: &mut Vec<FieldError>, field: Field, text: &Option<String>, min: u64)
    ensures
        final(errors)@ == old(errors)@ + opt_length_errors(field, opt_view(*text), min),
{
    match text {
        Some(t) => check_length(errors, field, t.as_str(), min),
        None => {
            assert(final(errors)@ =~= old(errors)@ + opt_length_errors(field, opt_view(*text), min));
        },
    }
}

/// Records a range violation of `value`, if any.
pub fn check_range(
    errors: &mut Vec<FieldError>,
    field: Field,
    value: i64,
    min: Option<i64>,
    max: Option<i64>,
)
    ensures
        final(errors)@ == old(errors)@ + range_errors(field, value as int, min, max),
{
    let too_big = match max {
        Some(m) => value > m,
        None => false,
    };
    let too_small = match min {
        Some(m) => value < m,
        None => false,
    };
    if too_big || too_small {
        errors.push(FieldError { field, rule: Rule::Range { min, max } });
    } else {
        assert(final(errors)@ =~= old(errors)@ + range_errors(field, value as int, min, max));
    }
}

/// Turns the collected violations into the result of a validation.
pub fn finish(errors: Vec<FieldError>) -> (res: Result<(), ValidationErrors>)
    ensures
        outcome(errors@, res),
{
    if errors.len() == 0 {
        Ok(())
    } else {
        Err(ValidationErrors { errors })
    }
}

} // verus!
