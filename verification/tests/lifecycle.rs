use isixhosa::language::{NounClass, PartOfSpeech};
use isixhosa::moderation::{
    accept, edit, reject, submit, suggest_word_deletion, AcceptOutcome, IndexAction,
};
use isixhosa::store::WordStore;
use isixhosa::suggestion::{ModerationError, SuggestionKind, SuggestionRepository, WordSubmission};

fn submission(
    word_id: Option<u64>,
    english: &str,
    xhosa: &str,
    part_of_speech: PartOfSpeech,
    is_plural: bool,
    noun_class: Option<NounClass>,
) -> WordSubmission {
    WordSubmission {
        word_id,
        english: english.to_owned(),
        xhosa: xhosa.to_owned(),
        part_of_speech,
        is_plural,
        noun_class,
        submitter: 1,
        timestamp: 100,
    }
}

/// A store holding `n` entries with ids 1..=n; entry 7, when present, is
/// "house"/"house".
fn store_with_entries(n: u64) -> WordStore {
    let mut words = WordStore::new();
    for i in 1..=n {
        let (english, xhosa) = if i == 7 {
            ("house".to_owned(), "house".to_owned())
        } else {
            (format!("word {i}"), format!("igama {i}"))
        };
        let id = words.insert(english, xhosa, PartOfSpeech::Noun, false, None);
        assert_eq!(id, i);
    }
    words
}

#[test]
fn delete_is_idempotent() {
    let words = store_with_entries(0);
    let mut repo = SuggestionRepository::new();
    let id = submit(
        &words,
        &mut repo,
        submission(None, "tree", "umthi", PartOfSpeech::Noun, false, None),
    )
    .unwrap();

    assert!(repo.delete(id));
    assert!(!repo.delete(id));
    assert!(!repo.delete(id));
}

#[test]
fn accept_of_new_suggestion_creates_exactly_one_entry() {
    let mut words = store_with_entries(2);
    let mut repo = SuggestionRepository::new();
    let id = submit(
        &words,
        &mut repo,
        submission(None, "tree", "umthi", PartOfSpeech::Noun, false, Some(NounClass::Class3Um)),
    )
    .unwrap();

    accept(&mut words, &mut repo, id).unwrap();
    assert_eq!(words.len(), 3);
    let entry = words.get(3).unwrap();
    assert_eq!(entry.english.as_str(), "tree");
    assert_eq!(entry.xhosa.as_str(), "umthi");
    assert_eq!(entry.part_of_speech, PartOfSpeech::Noun);
    assert!(!entry.is_plural);
    assert_eq!(entry.noun_class, Some(NounClass::Class3Um));
}

#[test]
fn accept_of_edit_mutates_in_place_and_creates_no_row() {
    let mut words = store_with_entries(3);
    let mut repo = SuggestionRepository::new();
    let id = submit(
        &words,
        &mut repo,
        submission(Some(2), "word two", "igama", PartOfSpeech::Verb, true, None),
    )
    .unwrap();

    accept(&mut words, &mut repo, id).unwrap();
    assert_eq!(words.len(), 3);
    let entry = words.get(2).unwrap();
    assert_eq!(entry.id, 2);
    assert_eq!(entry.english.as_str(), "word two");
    assert_eq!(entry.part_of_speech, PartOfSpeech::Verb);
    assert!(entry.is_plural);
}

#[test]
fn resolved_suggestions_are_not_found() {
    let mut words = store_with_entries(1);
    let mut repo = SuggestionRepository::new();
    let accepted = submit(
        &words,
        &mut repo,
        submission(None, "tree", "umthi", PartOfSpeech::Noun, false, None),
    )
    .unwrap();
    let rejected = submit(
        &words,
        &mut repo,
        submission(None, "leaf", "igqabi", PartOfSpeech::Noun, false, None),
    )
    .unwrap();

    accept(&mut words, &mut repo, accepted).unwrap();
    assert_eq!(repo.get(accepted).unwrap_err(), ModerationError::NotFound);

    reject(&mut repo, rejected).unwrap();
    assert_eq!(repo.get(rejected).unwrap_err(), ModerationError::NotFound);
}

#[test]
fn scenario_a_submit_and_accept_new_word() {
    let mut words = WordStore::new();
    let mut repo = SuggestionRepository::new();
    let id = submit(
        &words,
        &mut repo,
        submission(
            None,
            "tree",
            "umthi",
            PartOfSpeech::Noun,
            false,
            Some(NounClass::Class1Um),
        ),
    )
    .unwrap();

    let outcome = accept(&mut words, &mut repo, id).unwrap();
    assert_eq!(words.len(), 1);
    let entry = words.get(1).unwrap();
    assert_eq!(entry.english.as_str(), "tree");
    assert_eq!(entry.xhosa.as_str(), "umthi");
    assert_eq!(entry.part_of_speech, PartOfSpeech::Noun);
    assert!(!entry.is_plural);
    assert_eq!(entry.noun_class, Some(NounClass::Class1Um));

    match outcome {
        AcceptOutcome::Merged(IndexAction::Add(doc)) => {
            assert_eq!(doc.id, 1);
            assert_eq!(doc.english.as_str(), "tree");
            assert_eq!(doc.xhosa.as_str(), "umthi");
            assert_eq!(doc.part_of_speech, PartOfSpeech::Noun);
            assert!(!doc.is_plural);
            assert_eq!(doc.noun_class, Some(NounClass::Class1Um));
        },
        _ => panic!("expected an add for a suggestion with no referenced entry"),
    }
}

#[test]
fn scenario_b_edit_only_target_of_entry_seven() {
    let mut words = store_with_entries(8);
    let entry = words.get(7).unwrap();
    assert_eq!(entry.xhosa.as_str(), "house");

    let mut repo = SuggestionRepository::new();
    let id = submit(
        &words,
        &mut repo,
        submission(Some(7), "house", "big house", PartOfSpeech::Noun, false, None),
    )
    .unwrap();

    let outcome = accept(&mut words, &mut repo, id).unwrap();
    assert_eq!(words.len(), 8);
    let entry = words.get(7).unwrap();
    assert_eq!(entry.id, 7);
    assert_eq!(entry.english.as_str(), "house");
    assert_eq!(entry.xhosa.as_str(), "big house");
    assert_eq!(entry.part_of_speech, PartOfSpeech::Noun);
    assert!(!entry.is_plural);
    assert_eq!(entry.noun_class, None);
    let untouched = words.get(6).unwrap();
    assert_eq!(untouched.english.as_str(), "word 6");

    match outcome {
        AcceptOutcome::Merged(IndexAction::Edit(doc)) => {
            assert_eq!(doc.id, 7);
            assert_eq!(doc.xhosa.as_str(), "big house");
        },
        _ => panic!("expected an edit for a suggestion referencing an entry"),
    }
}

#[test]
fn scenario_c_second_accept_loses_and_mutates_nothing() {
    let mut words = store_with_entries(1);
    let mut repo = SuggestionRepository::new();
    for i in 0..3u64 {
        submit(
            &words,
            &mut repo,
            submission(
                None,
                &format!("english {i}"),
                &format!("xhosa {i}"),
                PartOfSpeech::Noun,
                false,
                None,
            ),
        )
        .unwrap();
    }

    let first = accept(&mut words, &mut repo, 3);
    assert!(first.is_ok());
    assert_eq!(words.len(), 2);

    let second = accept(&mut words, &mut repo, 3);
    assert_eq!(second.unwrap_err(), ModerationError::NotFound);
    assert_eq!(words.len(), 2);
    assert_eq!(repo.list_pending().len(), 2);
}

#[test]
fn submit_rejects_nonexistent_reference() {
    let words = store_with_entries(2);
    let mut repo = SuggestionRepository::new();
    let err = submit(
        &words,
        &mut repo,
        submission(Some(99), "tree", "umthi", PartOfSpeech::Noun, false, None),
    )
    .unwrap_err();
    assert_eq!(err, ModerationError::InvalidReference);
    assert!(repo.list_pending().is_empty());
}

#[test]
fn submit_rejects_empty_texts() {
    let words = store_with_entries(1);
    let mut repo = SuggestionRepository::new();
    let err = submit(
        &words,
        &mut repo,
        submission(None, "", "umthi", PartOfSpeech::Noun, false, None),
    )
    .unwrap_err();
    assert_eq!(err, ModerationError::InvalidReference);
    let err = submit(
        &words,
        &mut repo,
        submission(None, "tree", "", PartOfSpeech::Noun, false, None),
    )
    .unwrap_err();
    assert_eq!(err, ModerationError::InvalidReference);
}

#[test]
fn edit_replaces_proposed_and_keeps_original_baseline() {
    let mut words = store_with_entries(7);
    let mut repo = SuggestionRepository::new();
    let id = submit(
        &words,
        &mut repo,
        submission(Some(7), "house", "first try", PartOfSpeech::Noun, false, None),
    )
    .unwrap();

    // The live canonical value moves on; the recorded baseline must not.
    words.update(
        7,
        "moved on".to_owned(),
        "moved on".to_owned(),
        PartOfSpeech::Verb,
        true,
        None,
    );

    edit(
        &mut repo,
        id,
        submission(Some(7), "house", "second try", PartOfSpeech::Noun, true, None),
    )
    .unwrap();

    let row = repo.get(id).unwrap();
    assert_eq!(row.suggestion_id, id);
    assert_eq!(row.word_id, Some(7));
    assert_eq!(row.kind, SuggestionKind::Change);
    assert_eq!(row.xhosa.original().as_str(), "house");
    assert_eq!(row.xhosa.current().as_str(), "second try");
    assert!(row.xhosa.changed());
    assert!(row.is_plural.changed());
    assert!(!row.english.changed());
}

#[test]
fn edit_of_missing_suggestion_is_not_found() {
    let mut repo = SuggestionRepository::new();
    let err = edit(
        &mut repo,
        5,
        submission(None, "tree", "umthi", PartOfSpeech::Noun, false, None),
    )
    .unwrap_err();
    assert_eq!(err, ModerationError::NotFound);
}

#[test]
fn reject_removes_row_and_leaves_store_alone() {
    let words = store_with_entries(2);
    let mut repo = SuggestionRepository::new();
    let id = submit(
        &words,
        &mut repo,
        submission(Some(1), "word one", "igama", PartOfSpeech::Noun, false, None),
    )
    .unwrap();

    reject(&mut repo, id).unwrap();
    assert_eq!(words.len(), 2);
    assert_eq!(words.get(1).unwrap().english.as_str(), "word 1");
    assert_eq!(
        reject(&mut repo, id).unwrap_err(),
        ModerationError::NotFound
    );
}

#[test]
fn deletion_is_acknowledged_but_never_merged() {
    let mut words = store_with_entries(3);
    let mut repo = SuggestionRepository::new();
    let id = suggest_word_deletion(&words, &mut repo, 2, 1, 100).unwrap();

    let row = repo.get(id).unwrap();
    assert_eq!(row.kind, SuggestionKind::Delete);
    assert_eq!(row.word_id, Some(2));
    assert!(!row.english.changed());

    let outcome = accept(&mut words, &mut repo, id).unwrap();
    assert!(matches!(outcome, AcceptOutcome::DeletionAcknowledged));
    assert_eq!(words.len(), 3);
    assert!(words.get(2).is_some());
    assert_eq!(repo.get(id).unwrap_err(), ModerationError::NotFound);

    let err = suggest_word_deletion(&words, &mut repo, 99, 1, 100).unwrap_err();
    assert_eq!(err, ModerationError::InvalidReference);
}

#[test]
fn list_pending_is_ordered_by_id_and_joins_baselines() {
    let words = store_with_entries(7);
    let mut repo = SuggestionRepository::new();
    for xhosa in ["one", "two", "three"] {
        submit(
            &words,
            &mut repo,
            submission(Some(7), "house", xhosa, PartOfSpeech::Noun, false, None),
        )
        .unwrap();
    }

    let pending = repo.list_pending();
    assert_eq!(pending.len(), 3);
    let ids: Vec<u64> = pending.iter().map(|s| s.suggestion_id).collect();
    assert_eq!(ids, vec![1, 2, 3]);
    for row in pending {
        // Baseline joined from the referenced live entry at submission time.
        assert_eq!(row.xhosa.original().as_str(), "house");
        assert_eq!(row.english.original().as_str(), "house");
    }
    assert_eq!(pending[2].xhosa.current().as_str(), "three");
}
