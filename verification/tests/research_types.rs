use codex_core::research_types::{
    resolve_proposals_and_champion, Champion, MISSING_CHAMPION_ERROR, MISSING_PROPOSALS_ERROR,
};

fn champion(name: &str) -> Champion {
    Champion { proposal_name: name.to_string(), justification: "better".to_string(), promotion_criteria: None }
}

#[test]
fn from_recommended_solution_migrates_the_name() {
    let c = Champion::from_recommended_solution("legacy".to_string());
    assert_eq!(c.proposal_name, "legacy");
    assert_eq!(
        c.justification,
        "Migrated from deprecated `recommended_solution`; no explicit justification provided."
    );
    assert_eq!(c.promotion_criteria, None);
}

#[test]
fn deserializes_legacy_solutions_as_proposals() {
    let resolved =
        resolve_proposals_and_champion(vec![], vec!["legacy"], None, Some("legacy".to_string())).unwrap();
    assert_eq!(resolved.0.len(), 1);
    assert_eq!(resolved.0[0], "legacy");
    assert_eq!(resolved.1.proposal_name, "legacy");
}

#[test]
fn proposal_field_wins_when_both_aliases_are_present() {
    let resolved =
        resolve_proposals_and_champion(vec!["canonical"], vec!["legacy"], Some(champion("canonical")), None)
            .unwrap();
    assert_eq!(resolved.0.len(), 1);
    assert_eq!(resolved.0[0], "canonical");
    assert_eq!(resolved.1, champion("canonical"));
}

#[test]
fn champion_wins_over_recommended_solution() {
    let resolved = resolve_proposals_and_champion(
        vec!["canonical"],
        vec![],
        Some(champion("canonical")),
        Some("legacy".to_string()),
    )
    .unwrap();
    assert_eq!(resolved.1.proposal_name, "canonical");
}

#[test]
fn missing_proposals_is_rejected() {
    let error = resolve_proposals_and_champion::<&str>(vec![], vec![], Some(champion("x")), None).unwrap_err();
    assert_eq!(error, MISSING_PROPOSALS_ERROR);
    assert_eq!(error, "missing `proposals` (or deprecated `solutions`)");
}

#[test]
fn missing_champion_is_rejected() {
    let error = resolve_proposals_and_champion(vec!["p"], vec![], None, None).unwrap_err();
    assert_eq!(error, MISSING_CHAMPION_ERROR);
    assert_eq!(error, "missing `champion` (or deprecated `recommended_solution`)");
}
