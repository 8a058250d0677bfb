//! Retrieval form configurations: what a card of each form stores, and the rules that
//! accepted answers, explanation key points and problem checkpoints must follow.

use vstd::prelude::*;

use crate::error::{LibraryError, LibraryResult};
use crate::models::retrieval::{
    ClozeSettings, ExplainSettings, ImageOcclusionSettings, ProblemSettings, RetrievalFormKind,
    TypeAnswerSettings,
};
use crate::text::{
    collapse_whitespace, collapsed, is_uuid, lemma_collapse_whitespace_idempotent, lowercase, parses_as_uuid, texts, to_lowercase,
};

verus! {

/// A type-answer card accepts at most this many answers.
pub const MAXIMUM_ACCEPTED_ANSWERS: usize = 20;

/// An accepted answer has at most this many characters.
pub const MAXIMUM_ACCEPTED_ANSWER_LENGTH: usize = 500;

/// An explain card has at most this many key points.
pub const MAXIMUM_EXPLAIN_KEY_POINTS: usize = 12;

/// A key point has at most this many characters.
pub const MAXIMUM_EXPLAIN_KEY_POINT_LENGTH: usize = 280;

/// A problem card has at most this many checkpoints.
pub const MAXIMUM_PROBLEM_CHECKPOINTS: usize = 12;

/// A checkpoint has at most this many characters.
pub const MAXIMUM_PROBLEM_CHECKPOINT_LENGTH: usize = 280;

/// The form of a card together with its settings.
#[derive(Clone, Debug, PartialEq, Eq)]
pub enum RetrievalFormConfiguration {
    Recall,
    TypeAnswer(TypeAnswerSettings),
    Explain(ExplainSettings),
    Problem(ProblemSettings),
    Cloze(ClozeSettings),
    ImageOcclusion(ImageOcclusionSettings),
}

impl RetrievalFormConfiguration {
    /// The form a configuration belongs to.
    pub open spec fn form_kind(self) -> RetrievalFormKind {
        match self {
            RetrievalFormConfiguration::Recall => RetrievalFormKind::Recall,
            RetrievalFormConfiguration::TypeAnswer(_) => RetrievalFormKind::TypeAnswer,
            RetrievalFormConfiguration::Explain(_) => RetrievalFormKind::Explain,
            RetrievalFormConfiguration::Problem(_) => RetrievalFormKind::Problem,
            RetrievalFormConfiguration::Cloze(_) => RetrievalFormKind::Cloze,
            RetrievalFormConfiguration::ImageOcclusion(_) => RetrievalFormKind::ImageOcclusion,
        }
    }

    /// The form this configuration belongs to.
    pub fn kind(&self) -> (k: RetrievalFormKind)
        ensures
            k == self.form_kind(),
    {
        match self {
            RetrievalFormConfiguration::Recall => RetrievalFormKind::Recall,
            RetrievalFormConfiguration::TypeAnswer(_) => RetrievalFormKind::TypeAnswer,
            RetrievalFormConfiguration::Explain(_) => RetrievalFormKind::Explain,
            RetrievalFormConfiguration::Problem(_) => RetrievalFormKind::Problem,
            RetrievalFormConfiguration::Cloze(_) => RetrievalFormKind::Cloze,
            RetrievalFormConfiguration::ImageOcclusion(_) => RetrievalFormKind::ImageOcclusion,
        }
    }

    /// The type-answer settings, for a type-answer card.
    pub fn type_answer(&self) -> (r: Option<&TypeAnswerSettings>)
        ensures
            r is Some <==> self is TypeAnswer,
            r matches Some(s) ==> *s == self->TypeAnswer_0,
    {
        match self {
            RetrievalFormConfiguration::TypeAnswer(settings) => Some(settings),
            _ => None,
        }
    }

    /// The explain settings, for an explain card.
    pub fn explain(&self) -> (r: Option<&ExplainSettings>)
        ensures
            r is Some <==> self is Explain,
            r matches Some(s) ==> *s == self->Explain_0,
    {
        match self {
            RetrievalFormConfiguration::Explain(settings) => Some(settings),
            _ => None,
        }
    }

    /// The problem settings, for a problem card.
    pub fn problem(&self) -> (r: Option<&ProblemSettings>)
        ensures
            r is Some <==> self is Problem,
            r matches Some(s) ==> *s == self->Problem_0,
    {
        match self {
            RetrievalFormConfiguration::Problem(settings) => Some(settings),
            _ => None,
        }
    }

    /// The cloze settings, for a cloze card.
    pub fn cloze(&self) -> (r: Option<&ClozeSettings>)
        ensures
            r is Some <==> self is Cloze,
            r matches Some(s) ==> *s == self->Cloze_0,
    {
        match self {
            RetrievalFormConfiguration::Cloze(settings) => Some(settings),
            _ => None,
        }
    }

    /// The image occlusion settings, for an image occlusion card.
    pub fn image_occlusion(&self) -> (r: Option<&ImageOcclusionSettings>)
        ensures
            r is Some <==> self is ImageOcclusion,
            r matches Some(s) ==> *s == self->ImageOcclusion_0,
    {
        match self {
            RetrievalFormConfiguration::ImageOcclusion(settings) => Some(settings),
            _ => None,
        }
    }
}

/// Why a list of answers, key points or checkpoints was refused.
#[derive(Clone, Copy, Debug, PartialEq, Eq, Structural)]
pub enum EntryProblem {
    /// The list is empty, or an entry has no text besides whitespace.
    Missing,
    /// The list has more entries than allowed.
    TooMany,
    /// An entry has more characters than allowed once its whitespace is collapsed.
    TooLong,
    /// Two entries are equal once whitespace is collapsed and case is ignored.
    Duplicate,
}

/// What is wrong with entry `i` of `entries` on its own or next to the entries before it.
pub open spec fn entry_problem(entries: Seq<Seq<char>>, i: int, max_len: nat) -> Option<EntryProblem> {
    let c = collapse_whitespace(entries[i]);
    if c.len() == 0 {
        Some(EntryProblem::Missing)
    } else if c.len() > max_len {
        Some(EntryProblem::TooLong)
    } else if exists|j: int|
        0 <= j < i && #[trigger] lowercase(collapse_whitespace(entries[j])) == lowercase(c) {
        Some(EntryProblem::Duplicate)
    } else {
        None
    }
}

/// The problem of the first of the first `n` entries that has one.
pub open spec fn first_entry_problem(entries: Seq<Seq<char>>, n: int, max_len: nat) -> Option<EntryProblem>
    decreases n,
{
    if n <= 0 {
        None
    } else {
        match first_entry_problem(entries, n - 1, max_len) {
            Some(p) => Some(p),
            None => entry_problem(entries, n - 1, max_len),
        }
    }
}

/// Once some entry has a problem, later entries do not change the first problem.
proof fn lemma_first_entry_problem_stays(entries: Seq<Seq<char>>, m: int, n: int, max_len: nat)
    requires
        0 <= m <= n,
        first_entry_problem(entries, m, max_len) is Some,
    ensures
        first_entry_problem(entries, n, max_len) == first_entry_problem(entries, m, max_len),
    decreases n - m,
{
    if n > m {
        lemma_first_entry_problem_stays(entries, m, n - 1, max_len);
    }
}

/// What is wrong with a whole list of entries, if anything: the checks on the list come
/// before those on its entries, which are checked in order.
pub open spec fn entries_problem(entries: Seq<Seq<char>>, max_count: nat, max_len: nat) -> Option<
    EntryProblem,
> {
    if entries.len() == 0 {
        Some(EntryProblem::Missing)
    } else if entries.len() > max_count {
        Some(EntryProblem::TooMany)
    } else {
        first_entry_problem(entries, entries.len() as int, max_len)
    }
}

/// The entries with their whitespace collapsed.
pub open spec fn normalized_entries(entries: Seq<Seq<char>>) -> Seq<Seq<char>> {
    entries.map_values(|e: Seq<char>| collapse_whitespace(e))
}

/// The index of an entry of `seen` equal to `text`, if any.
fn position_of(seen: &Vec<String>, text: &String) -> (r: Option<usize>)
    ensures
        r matches Some(j) ==> j < seen.len() && seen@[j as int]@ == text@,
        r is None ==> forall|j: int| 0 <= j < seen.len() ==> seen@[j]@ != text@,
{
    let mut j: usize = 0;
    while j < seen.len()
        invariant
            j <= seen.len(),
            forall|k: int| 0 <= k < j ==> seen@[k]@ != text@,
        decreases seen.len() - j,
    {
        if seen[j] == *text {
            return Some(j);
        }
        j = j + 1;
    }
    None
}

/// Collapses the whitespace of every entry and checks the list: not empty, at most
/// `max_count` entries, each non-blank, at most `max_len` characters long and different
/// from every earlier entry when case is ignored.
pub fn normalize_entries(entries: &Vec<String>, max_count: usize, max_len: usize) -> (r: Result<
    Vec<String>,
    EntryProblem,
>)
    ensures
        r is Ok <==> entries_problem(texts(entries@), max_count as nat, max_len as nat) is None,
        r matches Ok(v) ==> texts(v@) == normalized_entries(texts(entries@)),
        r matches Err(p) ==> entries_problem(texts(entries@), max_count as nat, max_len as nat)
            == Some(p),
{
    let ghost e = texts(entries@);
    if entries.len() == 0 {
        return Err(EntryProblem::Missing);
    }
    if entries.len() > max_count {
        return Err(EntryProblem::TooMany);
    }
    let mut out: Vec<String> = Vec::new();
    let mut seen: Vec<String> = Vec::new();
    let mut i: usize = 0;
    while i < entries.len()
        invariant
            e == texts(entries@),
            0 < entries.len() <= max_count,
            i <= entries.len(),
            out.len() == i,
            seen.len() == i,
            texts(out@) == normalized_entries(e).take(i as int),
            forall|j: int| 0 <= j < i ==> #[trigger] seen@[j]@ == lowercase(collapse_whitespace(e[j])),
            first_entry_problem(e, i as int, max_len as nat) is None,
        decreases entries.len() - i,
    {
        let text = collapsed(entries[i].as_str());
        assert(text@ == collapse_whitespace(e[i as int]));
        if text.unicode_len() == 0 {
            proof {
                assert(entry_problem(e, i as int, max_len as nat) == Some(EntryProblem::Missing));
                assert(first_entry_problem(e, i + 1, max_len as nat) == Some(EntryProblem::Missing));
                lemma_first_entry_problem_stays(e, i + 1, e.len() as int, max_len as nat);
            }
            return Err(EntryProblem::Missing);
        }
        if text.unicode_len() > max_len {
            proof {
                assert(entry_problem(e, i as int, max_len as nat) == Some(EntryProblem::TooLong));
                assert(first_entry_problem(e, i + 1, max_len as nat) == Some(EntryProblem::TooLong));
                lemma_first_entry_problem_stays(e, i + 1, e.len() as int, max_len as nat);
            }
            return Err(EntryProblem::TooLong);
        }
        let folded = to_lowercase(text.as_str());
        match position_of(&seen, &folded) {
            Some(j) => {
                assert(lowercase(collapse_whitespace(e[j as int])) == lowercase(text@));
                proof {
                    lemma_first_entry_problem_stays(e, i + 1, e.len() as int, max_len as nat);
                }
                return Err(EntryProblem::Duplicate);
            },
            None => {
                assert forall|j: int| 0 <= j < i implies #[trigger] lowercase(
                    collapse_whitespace(e[j]),
                ) != lowercase(collapse_whitespace(e[i as int])) by {
                    assert(seen@[j]@ == lowercase(collapse_whitespace(e[j])));
                }
            },
        }
        let ghost out0 = out@;
        out.push(text);
        seen.push(folded);
        assert(texts(out@) =~= normalized_entries(e).take(i + 1)) by {
            assert(texts(out@) =~= texts(out0).push(collapse_whitespace(e[i as int])));
        }
        i = i + 1;
    }
    assert(normalized_entries(e).take(i as int) =~= normalized_entries(e));
    Ok(out)
}

/// The error that type-answer settings are refused with for a problem of their answers.
pub open spec fn type_answer_error(p: EntryProblem, err: LibraryError) -> bool {
    match p {
        EntryProblem::Missing => err is MissingAcceptedAnswer,
        EntryProblem::TooMany => err matches LibraryError::TooManyAcceptedAnswers { maximum }
            && maximum == MAXIMUM_ACCEPTED_ANSWERS,
        EntryProblem::TooLong => err matches LibraryError::ValueTooLong { field, maximum } && field@
            == "Accepted answer"@ && maximum == MAXIMUM_ACCEPTED_ANSWER_LENGTH,
        EntryProblem::Duplicate => err is DuplicateAcceptedAnswer,
    }
}

/// The error that explain settings are refused with for a problem of their key points.
pub open spec fn explain_error(p: EntryProblem, err: LibraryError) -> bool {
    match p {
        EntryProblem::Missing => err is MissingExplainKeyPoint,
        EntryProblem::TooMany => err matches LibraryError::TooManyExplainKeyPoints { maximum }
            && maximum == MAXIMUM_EXPLAIN_KEY_POINTS,
        EntryProblem::TooLong => err matches LibraryError::ValueTooLong { field, maximum } && field@
            == "Explain key point"@ && maximum == MAXIMUM_EXPLAIN_KEY_POINT_LENGTH,
        EntryProblem::Duplicate => err is DuplicateExplainKeyPoint,
    }
}

/// The error that problem settings are refused with for a problem of their checkpoints.
pub open spec fn problem_error(p: EntryProblem, err: LibraryError) -> bool {
    match p {
        EntryProblem::Missing => err is MissingProblemCheckpoint,
        EntryProblem::TooMany => err matches LibraryError::TooManyProblemCheckpoints { maximum }
            && maximum == MAXIMUM_PROBLEM_CHECKPOINTS,
        EntryProblem::TooLong => err matches LibraryError::ValueTooLong { field, maximum } && field@
            == "Problem checkpoint"@ && maximum == MAXIMUM_PROBLEM_CHECKPOINT_LENGTH,
        EntryProblem::Duplicate => err is DuplicateProblemCheckpoint,
    }
}

/// Normalizes the accepted answers of a type-answer card: whitespace collapsed, between
/// one and 20 answers, each non-blank, at most 500 characters, no two equal ignoring case.
pub fn normalize_type_answer(settings: TypeAnswerSettings) -> (r: LibraryResult<TypeAnswerSettings>)
    ensures
        r is Ok <==> entries_problem(
            texts(settings.accepted_answers@),
            MAXIMUM_ACCEPTED_ANSWERS as nat,
            MAXIMUM_ACCEPTED_ANSWER_LENGTH as nat,
        ) is None,
        r matches Ok(s) ==> texts(s.accepted_answers@) == normalized_entries(
            texts(settings.accepted_answers@),
        ),
        r matches Err(err) ==> type_answer_error(
            entries_problem(
                texts(settings.accepted_answers@),
                MAXIMUM_ACCEPTED_ANSWERS as nat,
                MAXIMUM_ACCEPTED_ANSWER_LENGTH as nat,
            )->Some_0,
            err,
        ),
{
    match normalize_entries(
        &settings.accepted_answers,
        MAXIMUM_ACCEPTED_ANSWERS,
        MAXIMUM_ACCEPTED_ANSWER_LENGTH,
    ) {
        Ok(accepted_answers) => Ok(TypeAnswerSettings { accepted_answers }),
        Err(EntryProblem::Missing) => Err(LibraryError::MissingAcceptedAnswer),
        Err(EntryProblem::TooMany) => Err(
            LibraryError::TooManyAcceptedAnswers { maximum: MAXIMUM_ACCEPTED_ANSWERS },
        ),
        Err(EntryProblem::TooLong) => Err(
            LibraryError::ValueTooLong {
                field: "Accepted answer",
                maximum: MAXIMUM_ACCEPTED_ANSWER_LENGTH,
            },
        ),
        Err(EntryProblem::Duplicate) => Err(LibraryError::DuplicateAcceptedAnswer),
    }
}

/// Normalizes the key points of an explain card: whitespace collapsed, between one and
/// 12 points, each non-blank, at most 280 characters, no two equal ignoring case. The
/// focus is kept.
pub fn normalize_explain(settings: ExplainSettings) -> (r: LibraryResult<ExplainSettings>)
    ensures
        r is Ok <==> entries_problem(
            texts(settings.key_points@),
            MAXIMUM_EXPLAIN_KEY_POINTS as nat,
            MAXIMUM_EXPLAIN_KEY_POINT_LENGTH as nat,
        ) is None,
        r matches Ok(s) ==> s.focus == settings.focus && texts(s.key_points@) == normalized_entries(
            texts(settings.key_points@),
        ),
        r matches Err(err) ==> explain_error(
            entries_problem(
                texts(settings.key_points@),
                MAXIMUM_EXPLAIN_KEY_POINTS as nat,
                MAXIMUM_EXPLAIN_KEY_POINT_LENGTH as nat,
            )->Some_0,
            err,
        ),
{
    match normalize_entries(
        &settings.key_points,
        MAXIMUM_EXPLAIN_KEY_POINTS,
        MAXIMUM_EXPLAIN_KEY_POINT_LENGTH,
    ) {
        Ok(key_points) => Ok(ExplainSettings { focus: settings.focus, key_points }),
        Err(EntryProblem::Missing) => Err(LibraryError::MissingExplainKeyPoint),
        Err(EntryProblem::TooMany) => Err(
            LibraryError::TooManyExplainKeyPoints { maximum: MAXIMUM_EXPLAIN_KEY_POINTS },
        ),
        Err(EntryProblem::TooLong) => Err(
            LibraryError::ValueTooLong {
                field: "Explain key point",
                maximum: MAXIMUM_EXPLAIN_KEY_POINT_LENGTH,
            },
        ),
        Err(EntryProblem::Duplicate) => Err(LibraryError::DuplicateExplainKeyPoint),
    }
}

/// Normalizes the checkpoints of a problem card: whitespace collapsed, between one and 12
/// checkpoints, each non-blank, at most 280 characters, no two equal ignoring case.
pub fn normalize_problem(settings: ProblemSettings) -> (r: LibraryResult<ProblemSettings>)
    ensures
        r is Ok <==> entries_problem(
            texts(settings.checkpoints@),
            MAXIMUM_PROBLEM_CHECKPOINTS as nat,
            MAXIMUM_PROBLEM_CHECKPOINT_LENGTH as nat,
        ) is None,
        r matches Ok(s) ==> texts(s.checkpoints@) == normalized_entries(texts(settings.checkpoints@)),
        r matches Err(err) ==> problem_error(
            entries_problem(
                texts(settings.checkpoints@),
                MAXIMUM_PROBLEM_CHECKPOINTS as nat,
                MAXIMUM_PROBLEM_CHECKPOINT_LENGTH as nat,
            )->Some_0,
            err,
        ),
{
    match normalize_entries(
        &settings.checkpoints,
        MAXIMUM_PROBLEM_CHECKPOINTS,
        MAXIMUM_PROBLEM_CHECKPOINT_LENGTH,
    ) {
        Ok(checkpoints) => Ok(ProblemSettings { checkpoints }),
        Err(EntryProblem::Missing) => Err(LibraryError::MissingProblemCheckpoint),
        Err(EntryProblem::TooMany) => Err(
            LibraryError::TooManyProblemCheckpoints { maximum: MAXIMUM_PROBLEM_CHECKPOINTS },
        ),
        Err(EntryProblem::TooLong) => Err(
            LibraryError::ValueTooLong {
                field: "Problem checkpoint",
                maximum: MAXIMUM_PROBLEM_CHECKPOINT_LENGTH,
            },
        ),
        Err(EntryProblem::Duplicate) => Err(LibraryError::DuplicateProblemCheckpoint),
    }
}

/// A stored configuration as decoded for the form of its card, before it is checked.
/// A standard recall card stores an empty object; only its number of fields matters.
#[derive(Clone, Debug, PartialEq, Eq)]
pub enum StoredRetrievalForm {
    Recall { field_count: usize },
    TypeAnswer(TypeAnswerSettings),
    Explain(ExplainSettings),
    Problem(ProblemSettings),
    Cloze(ClozeSettings),
    ImageOcclusion(ImageOcclusionSettings),
}

/// The configuration that a stored form reads as, if it is valid.
pub open spec fn stored_form_is_valid(stored: StoredRetrievalForm) -> bool {
    match stored {
        StoredRetrievalForm::Recall { field_count } => field_count == 0,
        StoredRetrievalForm::TypeAnswer(s) => entries_problem(
            texts(s.accepted_answers@),
            MAXIMUM_ACCEPTED_ANSWERS as nat,
            MAXIMUM_ACCEPTED_ANSWER_LENGTH as nat,
        ) is None,
        StoredRetrievalForm::Explain(s) => entries_problem(
            texts(s.key_points@),
            MAXIMUM_EXPLAIN_KEY_POINTS as nat,
            MAXIMUM_EXPLAIN_KEY_POINT_LENGTH as nat,
        ) is None,
        StoredRetrievalForm::Problem(s) => entries_problem(
            texts(s.checkpoints@),
            MAXIMUM_PROBLEM_CHECKPOINTS as nat,
            MAXIMUM_PROBLEM_CHECKPOINT_LENGTH as nat,
        ) is None,
        StoredRetrievalForm::Cloze(s) => parses_as_uuid(s.group_id@),
        StoredRetrievalForm::ImageOcclusion(s) => parses_as_uuid(s.group_id@),
    }
}

/// The configuration read from a stored form that is valid.
pub open spec fn stored_form_configuration(
    stored: StoredRetrievalForm,
    r: RetrievalFormConfiguration,
) -> bool {
    match stored {
        StoredRetrievalForm::Recall { .. } => r is Recall,
        StoredRetrievalForm::TypeAnswer(s) => r matches RetrievalFormConfiguration::TypeAnswer(t)
            && texts(t.accepted_answers@) == normalized_entries(texts(s.accepted_answers@)),
        StoredRetrievalForm::Explain(s) => r matches RetrievalFormConfiguration::Explain(t)
            && t.focus == s.focus && texts(t.key_points@) == normalized_entries(texts(s.key_points@)),
        StoredRetrievalForm::Problem(s) => r matches RetrievalFormConfiguration::Problem(t) && texts(
            t.checkpoints@,
        ) == normalized_entries(texts(s.checkpoints@)),
        StoredRetrievalForm::Cloze(s) => r == RetrievalFormConfiguration::Cloze(s),
        StoredRetrievalForm::ImageOcclusion(s) => r == RetrievalFormConfiguration::ImageOcclusion(s),
    }
}

/// Checks a stored configuration: a recall card stores no fields, the lists of the other
/// forms follow the rules of their forms (their whitespace is collapsed again), and a
/// cloze or occlusion group is named by a UUID. Anything else is an invalid stored form.
pub fn read_retrieval_form_configuration(stored: StoredRetrievalForm) -> (r: LibraryResult<
    RetrievalFormConfiguration,
>)
    ensures
        r is Ok <==> stored_form_is_valid(stored),
        r matches Ok(c) ==> stored_form_configuration(stored, c),
        r matches Err(err) ==> err is InvalidRetrievalForm,
{
    match stored {
        StoredRetrievalForm::Recall { field_count } => {
            if field_count == 0 {
                Ok(RetrievalFormConfiguration::Recall)
            } else {
                Err(LibraryError::InvalidRetrievalForm)
            }
        },
        StoredRetrievalForm::TypeAnswer(settings) => match normalize_type_answer(settings) {
            Ok(s) => Ok(RetrievalFormConfiguration::TypeAnswer(s)),
            Err(_) => Err(LibraryError::InvalidRetrievalForm),
        },
        StoredRetrievalForm::Explain(settings) => match normalize_explain(settings) {
            Ok(s) => Ok(RetrievalFormConfiguration::Explain(s)),
            Err(_) => Err(LibraryError::InvalidRetrievalForm),
        },
        StoredRetrievalForm::Problem(settings) => match normalize_problem(settings) {
            Ok(s) => Ok(RetrievalFormConfiguration::Problem(s)),
            Err(_) => Err(LibraryError::InvalidRetrievalForm),
        },
        StoredRetrievalForm::Cloze(settings) => {
            if is_uuid(settings.group_id.as_str()) {
                Ok(RetrievalFormConfiguration::Cloze(settings))
            } else {
                Err(LibraryError::InvalidRetrievalForm)
            }
        },
        StoredRetrievalForm::ImageOcclusion(settings) => {
            if is_uuid(settings.group_id.as_str()) {
                Ok(RetrievalFormConfiguration::ImageOcclusion(settings))
            } else {
                Err(LibraryError::InvalidRetrievalForm)
            }
        },
    }
}

/// The stored form of a configuration: its own settings, and no fields for standard
/// recall.
pub open spec fn stored_form_of(c: RetrievalFormConfiguration) -> StoredRetrievalForm {
    match c {
        RetrievalFormConfiguration::Recall => StoredRetrievalForm::Recall { field_count: 0 },
        RetrievalFormConfiguration::TypeAnswer(s) => StoredRetrievalForm::TypeAnswer(s),
        RetrievalFormConfiguration::Explain(s) => StoredRetrievalForm::Explain(s),
        RetrievalFormConfiguration::Problem(s) => StoredRetrievalForm::Problem(s),
        RetrievalFormConfiguration::Cloze(s) => StoredRetrievalForm::Cloze(s),
        RetrievalFormConfiguration::ImageOcclusion(s) => StoredRetrievalForm::ImageOcclusion(s),
    }
}

/// Lists whose entries collapse to the same texts have the same first problem.
proof fn lemma_same_collapsed_entries_same_problem(
    a: Seq<Seq<char>>,
    b: Seq<Seq<char>>,
    max_len: nat,
    n: int,
)
    requires
        a.len() == b.len(),
        forall|j: int| 0 <= j < a.len() ==> collapse_whitespace(#[trigger] a[j]) == collapse_whitespace(b[j]),
        0 <= n <= a.len(),
    ensures
        first_entry_problem(a, n, max_len) == first_entry_problem(b, n, max_len),
    decreases n,
{
    if n > 0 {
        lemma_same_collapsed_entries_same_problem(a, b, max_len, n - 1);
        let i = n - 1;
        assert(collapse_whitespace(a[i]) == collapse_whitespace(b[i]));
        let c = collapse_whitespace(a[i]);
        if exists|j: int| 0 <= j < i && #[trigger] lowercase(collapse_whitespace(a[j])) == lowercase(c) {
            let j = choose|j: int| 0 <= j < i && #[trigger] lowercase(collapse_whitespace(a[j])) == lowercase(c);
            assert(collapse_whitespace(a[j]) == collapse_whitespace(b[j]));
            assert(lowercase(collapse_whitespace(b[j])) == lowercase(c));
        }
        if exists|j: int| 0 <= j < i && #[trigger] lowercase(collapse_whitespace(b[j])) == lowercase(c) {
            let j = choose|j: int| 0 <= j < i && #[trigger] lowercase(collapse_whitespace(b[j])) == lowercase(c);
            assert(collapse_whitespace(a[j]) == collapse_whitespace(b[j]));
            assert(lowercase(collapse_whitespace(a[j])) == lowercase(c));
        }
        assert(entry_problem(a, i, max_len) == entry_problem(b, i, max_len));
    }
}

/// Normalizing accepted entries again changes nothing, and the normalized entries are
/// accepted too.
pub proof fn lemma_normalized_entries_are_stable(entries: Seq<Seq<char>>, max_count: nat, max_len: nat)
    requires
        entries_problem(entries, max_count, max_len) is None,
    ensures
        entries_problem(normalized_entries(entries), max_count, max_len) is None,
        normalized_entries(normalized_entries(entries)) == normalized_entries(entries),
{
    let n = normalized_entries(entries);
    assert forall|j: int| 0 <= j < entries.len() implies collapse_whitespace(#[trigger] n[j])
        == collapse_whitespace(entries[j]) by {
        lemma_collapse_whitespace_idempotent(entries[j]);
    }
    lemma_same_collapsed_entries_same_problem(n, entries, max_len, entries.len() as int);
    assert(normalized_entries(n) =~= n);
}

/// A configuration that was read from a stored form reads back unchanged from its own
/// stored form: what reading normalizes stays normalized, and is accepted again.
pub proof fn lemma_configuration_reads_back(stored: StoredRetrievalForm, c: RetrievalFormConfiguration)
    requires
        stored_form_is_valid(stored),
        stored_form_configuration(stored, c),
    ensures
        stored_form_is_valid(stored_form_of(c)),
        stored_form_configuration(stored_form_of(c), c),
{
    match stored {
        StoredRetrievalForm::TypeAnswer(s) => {
            lemma_normalized_entries_are_stable(
                texts(s.accepted_answers@),
                MAXIMUM_ACCEPTED_ANSWERS as nat,
                MAXIMUM_ACCEPTED_ANSWER_LENGTH as nat,
            );
        },
        StoredRetrievalForm::Explain(s) => {
            lemma_normalized_entries_are_stable(
                texts(s.key_points@),
                MAXIMUM_EXPLAIN_KEY_POINTS as nat,
                MAXIMUM_EXPLAIN_KEY_POINT_LENGTH as nat,
            );
        },
        StoredRetrievalForm::Problem(s) => {
            lemma_normalized_entries_are_stable(
                texts(s.checkpoints@),
                MAXIMUM_PROBLEM_CHECKPOINTS as nat,
                MAXIMUM_PROBLEM_CHECKPOINT_LENGTH as nat,
            );
        },
        _ => {},
    }
}

} // verus!
