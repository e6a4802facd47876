use vstd::prelude::*;

verus! {

/// Refusal of a legacy uploaded HEIC migration step. It carries a fixed category and nothing
/// else, so that no path, identity or digest of the evidence reaches an operator message.
#[derive(Clone, Copy, Debug, PartialEq, Eq)]
pub struct LegacyUploadEvidenceError {
    category: &'static str,
}

/// What a step of the audit answers: a value, or the category under which it was refused.
pub type Outcome<T> = Result<T, Seq<char>>;

/// A step answered as it should: with the very value, or refused under the very category.
pub open spec fn answers<T>(r: Result<T, LegacyUploadEvidenceError>, expected: Outcome<T>) -> bool {
    match (r, expected) {
        (Ok(value), Ok(wanted)) => value == wanted,
        (Err(error), Err(category)) => error@ == category,
        _ => false,
    }
}

/// A check answered as it should: it passed, or it was refused under the very category.
pub open spec fn refused_as(
    r: Result<(), LegacyUploadEvidenceError>,
    refusal: Option<Seq<char>>,
) -> bool {
    match r {
        Ok(()) => refusal is None,
        Err(error) => refusal == Some(error@),
    }
}

impl LegacyUploadEvidenceError {
    /// The category as a sequence of characters.
    pub closed spec fn view(&self) -> Seq<char> {
        self.category@
    }

    /// The category under which the step was refused.
    pub fn category(&self) -> (r: &'static str)
        ensures
            r@ == self@,
    {
        self.category
    }

    /// The message shown to an operator.
    pub fn message(&self) -> (r: String)
        ensures
            r@ == "legacy uploaded HEIC migration audit failed: category="@ + self@,
    {
        let prefix: String = "legacy uploaded HEIC migration audit failed: category=".to_owned();
        prefix.concat(self.category)
    }
}

/// A refusal under the given category.
pub fn failure(category: &'static str) -> (r: LegacyUploadEvidenceError)
    ensures
        r@ == category@,
{
    LegacyUploadEvidenceError { category }
}

/// A check is answered exactly if it passes where nothing is refused, and fails with the category
/// that is refused where something is.
pub proof fn checks_fail_with_what_is_refused(
    error: LegacyUploadEvidenceError,
    category: Seq<char>,
    refusal: Option<Seq<char>>,
)
    ensures
        refused_as(Ok(()), refusal) <==> refusal is None,
        refused_as(Err(error), refusal) <==> refusal == Some(error@),
        !refused_as(Ok(()), Some(category)),
        !refused_as(Err(error), None),
{
}

/// A result answers an outcome exactly if both have the same value or the same category.
pub proof fn results_answer_with_the_same_value<T>(
    value: T,
    wanted: T,
    error: LegacyUploadEvidenceError,
    category: Seq<char>,
)
    ensures
        answers(Ok(value), Ok::<T, Seq<char>>(wanted)) <==> value == wanted,
        answers(Err::<T, LegacyUploadEvidenceError>(error), Err::<T, Seq<char>>(category))
            <==> error@ == category,
        !answers(Ok(value), Err::<T, Seq<char>>(category)),
        !answers(Err::<T, LegacyUploadEvidenceError>(error), Ok::<T, Seq<char>>(wanted)),
{
}

} // verus!
