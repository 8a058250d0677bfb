use twill::error::LibraryError;
use twill::models::retrieval::{
    ClozeSettings, ExplainFocus, ExplainSettings, ImageOcclusionSettings, ProblemSettings,
    RetrievalFormKind, TypeAnswerSettings,
};
use twill::retrieval_forms::{
    normalize_entries, normalize_explain, normalize_problem, normalize_type_answer,
    read_retrieval_form_configuration, EntryProblem, RetrievalFormConfiguration,
    StoredRetrievalForm,
};

fn strings(values: &[&str]) -> Vec<String> {
    values.iter().map(|value| value.to_string()).collect()
}

fn stored_form_of(form: &RetrievalFormConfiguration) -> StoredRetrievalForm {
    match form {
        RetrievalFormConfiguration::Recall => StoredRetrievalForm::Recall { field_count: 0 },
        RetrievalFormConfiguration::TypeAnswer(s) => StoredRetrievalForm::TypeAnswer(s.clone()),
        RetrievalFormConfiguration::Explain(s) => StoredRetrievalForm::Explain(s.clone()),
        RetrievalFormConfiguration::Problem(s) => StoredRetrievalForm::Problem(s.clone()),
        RetrievalFormConfiguration::Cloze(s) => StoredRetrievalForm::Cloze(s.clone()),
        RetrievalFormConfiguration::ImageOcclusion(s) => {
            StoredRetrievalForm::ImageOcclusion(s.clone())
        }
    }
}

#[test]
fn configuration_variants_preserve_stored_json_and_kind() {
    let group_id = "0192abf7-22b3-7000-8000-000000000001";
    let cases = [
        (RetrievalFormConfiguration::Recall, RetrievalFormKind::Recall),
        (
            RetrievalFormConfiguration::TypeAnswer(TypeAnswerSettings {
                accepted_answers: strings(&["Alpha"]),
            }),
            RetrievalFormKind::TypeAnswer,
        ),
        (
            RetrievalFormConfiguration::Explain(ExplainSettings {
                focus: ExplainFocus::CauseAndEffect,
                key_points: strings(&["Heat increases motion"]),
            }),
            RetrievalFormKind::Explain,
        ),
        (
            RetrievalFormConfiguration::Problem(ProblemSettings {
                checkpoints: strings(&["Check the units"]),
            }),
            RetrievalFormKind::Problem,
        ),
        (
            RetrievalFormConfiguration::Cloze(ClozeSettings {
                group_id: group_id.to_owned(),
            }),
            RetrievalFormKind::Cloze,
        ),
        (
            RetrievalFormConfiguration::ImageOcclusion(ImageOcclusionSettings {
                group_id: group_id.to_owned(),
            }),
            RetrievalFormKind::ImageOcclusion,
        ),
    ];

    for (form, kind) in cases {
        assert_eq!(form.kind(), kind);

        let parsed = read_retrieval_form_configuration(stored_form_of(&form)).unwrap();
        assert_eq!(parsed, form);

        let populated_settings = [
            parsed.type_answer().is_some(),
            parsed.explain().is_some(),
            parsed.problem().is_some(),
            parsed.cloze().is_some(),
            parsed.image_occlusion().is_some(),
        ]
        .into_iter()
        .filter(|populated| *populated)
        .count();
        assert_eq!(
            populated_settings,
            usize::from(kind != RetrievalFormKind::Recall)
        );
    }
}

#[test]
fn configuration_reads_reject_wrong_shapes_and_invalid_settings() {
    let cases = [
        StoredRetrievalForm::Recall { field_count: 1 },
        StoredRetrievalForm::TypeAnswer(TypeAnswerSettings { accepted_answers: Vec::new() }),
        StoredRetrievalForm::TypeAnswer(TypeAnswerSettings {
            accepted_answers: strings(&["Alpha", " alpha "]),
        }),
        StoredRetrievalForm::Explain(ExplainSettings {
            focus: ExplainFocus::Why,
            key_points: strings(&[" "]),
        }),
        StoredRetrievalForm::Problem(ProblemSettings {
            checkpoints: strings(&["Step", " step "]),
        }),
        StoredRetrievalForm::Cloze(ClozeSettings { group_id: "invalid".to_owned() }),
        StoredRetrievalForm::ImageOcclusion(ImageOcclusionSettings {
            group_id: String::new(),
        }),
    ];

    for configuration in cases {
        let description = format!("{configuration:?}");
        assert_eq!(
            read_retrieval_form_configuration(configuration),
            Err(LibraryError::InvalidRetrievalForm),
            "{description}"
        );
    }
}

#[test]
fn configuration_reads_preserve_text_normalization() {
    let type_answer = read_retrieval_form_configuration(StoredRetrievalForm::TypeAnswer(
        TypeAnswerSettings { accepted_answers: strings(&["  Alpha\n beta  "]) },
    ))
    .unwrap();
    assert_eq!(
        type_answer.type_answer().unwrap().accepted_answers,
        strings(&["Alpha beta"])
    );

    let explain = read_retrieval_form_configuration(StoredRetrievalForm::Explain(ExplainSettings {
        focus: ExplainFocus::Why,
        key_points: strings(&["  One\t point  "]),
    }))
    .unwrap();
    assert_eq!(explain.explain().unwrap().focus, ExplainFocus::Why);
    assert_eq!(explain.explain().unwrap().key_points, strings(&["One point"]));

    let problem = read_retrieval_form_configuration(StoredRetrievalForm::Problem(ProblemSettings {
        checkpoints: strings(&["  Check\n units  "]),
    }))
    .unwrap();
    assert_eq!(problem.problem().unwrap().checkpoints, strings(&["Check units"]));
}

#[test]
fn type_answer_settings_report_each_kind_of_problem() {
    let normalize = |answers: &[&str]| {
        normalize_type_answer(TypeAnswerSettings { accepted_answers: strings(answers) })
    };

    assert_eq!(normalize(&[]), Err(LibraryError::MissingAcceptedAnswer));
    assert_eq!(normalize(&["  ", "Paris"]), Err(LibraryError::MissingAcceptedAnswer));
    let too_many: Vec<String> = (0..21).map(|index| format!("Answer {index}")).collect();
    assert_eq!(
        normalize_type_answer(TypeAnswerSettings { accepted_answers: too_many }),
        Err(LibraryError::TooManyAcceptedAnswers { maximum: 20 })
    );
    let exactly_enough: Vec<String> = (0..20).map(|index| format!("Answer {index}")).collect();
    assert!(normalize_type_answer(TypeAnswerSettings { accepted_answers: exactly_enough }).is_ok());
    assert_eq!(
        normalize(&[&"a".repeat(501)]),
        Err(LibraryError::ValueTooLong { field: "Accepted answer", maximum: 500 })
    );
    assert!(normalize(&[&"a".repeat(500)]).is_ok());
    assert_eq!(
        normalize(&["First answer", " first   ANSWER "]),
        Err(LibraryError::DuplicateAcceptedAnswer)
    );
    assert_eq!(
        normalize(&["  García   Márquez  ", "C++"]).unwrap().accepted_answers,
        strings(&["García Márquez", "C++"])
    );
}

#[test]
fn explain_and_problem_settings_report_each_kind_of_problem() {
    let explain = |points: &[&str]| {
        normalize_explain(ExplainSettings {
            focus: ExplainFocus::How,
            key_points: strings(points),
        })
    };
    assert_eq!(explain(&[]), Err(LibraryError::MissingExplainKeyPoint));
    let too_many: Vec<&str> = vec!["point"; 13];
    assert_eq!(
        explain(&too_many),
        Err(LibraryError::TooManyExplainKeyPoints { maximum: 12 })
    );
    assert_eq!(
        explain(&[&"p".repeat(281)]),
        Err(LibraryError::ValueTooLong { field: "Explain key point", maximum: 280 })
    );
    assert_eq!(
        explain(&["Stored energy", " stored   ENERGY "]),
        Err(LibraryError::DuplicateExplainKeyPoint)
    );
    let normalized = explain(&["  Light   energy becomes chemical energy.  "]).unwrap();
    assert_eq!(normalized.focus, ExplainFocus::How);
    assert_eq!(
        normalized.key_points,
        strings(&["Light energy becomes chemical energy."])
    );

    let problem = |checkpoints: &[&str]| {
        normalize_problem(ProblemSettings { checkpoints: strings(checkpoints) })
    };
    assert_eq!(problem(&[]), Err(LibraryError::MissingProblemCheckpoint));
    assert_eq!(problem(&["\t"]), Err(LibraryError::MissingProblemCheckpoint));
    let too_many: Vec<&str> = vec!["step"; 13];
    assert_eq!(
        problem(&too_many),
        Err(LibraryError::TooManyProblemCheckpoints { maximum: 12 })
    );
    assert_eq!(
        problem(&[&"s".repeat(281)]),
        Err(LibraryError::ValueTooLong { field: "Problem checkpoint", maximum: 280 })
    );
    assert_eq!(
        problem(&["Choose the equation", " choose   THE equation "]),
        Err(LibraryError::DuplicateProblemCheckpoint)
    );
}

#[test]
fn entries_are_checked_in_order_and_compared_without_case() {
    assert_eq!(
        normalize_entries(&strings(&["Ä", "ä"]), 5, 5),
        Err(EntryProblem::Duplicate)
    );
    assert_eq!(
        normalize_entries(&strings(&[" a  b ", "c"]), 5, 5),
        Ok(strings(&["a b", "c"]))
    );
    assert_eq!(normalize_entries(&strings(&["", "toolong"]), 5, 3), Err(EntryProblem::Missing));
    assert_eq!(normalize_entries(&strings(&["toolong", ""]), 5, 3), Err(EntryProblem::TooLong));
}

#[test]
fn a_read_configuration_reads_back_unchanged_from_its_stored_form() {
    let stored = [
        StoredRetrievalForm::TypeAnswer(TypeAnswerSettings {
            accepted_answers: strings(&["  García   Márquez  ", "C++"]),
        }),
        StoredRetrievalForm::Explain(ExplainSettings {
            focus: ExplainFocus::CompareAndContrast,
            key_points: strings(&["\tOne\n point ", "Two"]),
        }),
        StoredRetrievalForm::Problem(ProblemSettings { checkpoints: strings(&[" a  b "]) }),
        StoredRetrievalForm::Recall { field_count: 0 },
    ];

    for form in stored {
        let first = read_retrieval_form_configuration(form).unwrap();
        let second = read_retrieval_form_configuration(stored_form_of(&first)).unwrap();
        assert_eq!(second, first);
    }
}

#[test]
fn group_identifiers_are_read_in_every_uuid_form() {
    let accepted = [
        "0192abf7-22b3-7000-8000-000000000001",
        "0192ABF722B370008000000000000001",
        "{0192abf7-22b3-7000-8000-000000000001}",
        "URN:uuid:0192abf7-22b3-7000-8000-000000000001",
    ];
    for group_id in accepted {
        let stored = StoredRetrievalForm::Cloze(ClozeSettings { group_id: group_id.to_owned() });
        assert!(read_retrieval_form_configuration(stored).is_ok(), "{group_id}");
    }

    let refused = [
        "0192abf7-22b3-7000-8000-00000000000g",
        "0192abf722b3-7000-8000-000000000001-",
        "(0192abf7-22b3-7000-8000-000000000001)",
        "urn:uuix:0192abf7-22b3-7000-8000-000000000001",
        "0192abf722b370008000000000000001a",
    ];
    for group_id in refused {
        let stored =
            StoredRetrievalForm::ImageOcclusion(ImageOcclusionSettings { group_id: group_id.to_owned() });
        assert_eq!(
            read_retrieval_form_configuration(stored),
            Err(LibraryError::InvalidRetrievalForm),
            "{group_id}"
        );
    }
}
