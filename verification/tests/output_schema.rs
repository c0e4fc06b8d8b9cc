use codex_core::prompt::RESEARCH_OUTPUT_SCHEMA_JSON;
use serde_json::Value;

fn research_output_schema() -> Value {
    serde_json::from_str(RESEARCH_OUTPUT_SCHEMA_JSON).expect("schema is valid JSON")
}

fn strings(value: &Value) -> Vec<&str> {
    value
        .as_array()
        .expect("array")
        .iter()
        .map(|value| value.as_str().expect("string"))
        .collect()
}

#[test]
fn schema_text_is_pretty_printed_canonically() {
    let schema = research_output_schema();
    assert_eq!(serde_json::to_string_pretty(&schema).unwrap(), RESEARCH_OUTPUT_SCHEMA_JSON);
}

#[test]
fn top_level_required_fields_use_canonical_names() {
    let schema = research_output_schema();
    assert_eq!(
        strings(&schema["required"]),
        vec!["problem_decomposition", "literature_review", "proposals", "champion"]
    );
}

#[test]
fn schema_keeps_deprecated_aliases_optional() {
    let schema = research_output_schema();
    assert!(schema["properties"]["solutions"].is_object());
    assert!(schema["properties"]["recommended_solution"].is_object());
}

#[test]
fn literature_review_requires_papers_by_id() {
    let schema = research_output_schema();
    assert_eq!(
        strings(&schema["$defs"]["literature_review"]["required"]),
        vec!["total_papers_found", "papers_by_id"]
    );
}

#[test]
fn proposals_shape_points_to_proposal_definition() {
    let schema = research_output_schema();
    assert_eq!(
        schema["properties"]["proposals"]["items"]["$ref"].as_str().expect("string"),
        "#/$defs/proposal"
    );
}

#[test]
fn literature_review_includes_extended_fields_from_types() {
    let schema = research_output_schema();
    let properties = &schema["$defs"]["literature_review"]["properties"];
    assert!(properties["sota_results"].is_object());
    assert!(properties["code_repositories"].is_object());
    assert!(properties["key_insights"].is_object());
}

#[test]
fn proposal_includes_extended_fields_from_types() {
    let schema = research_output_schema();
    let properties = &schema["$defs"]["proposal"]["properties"];
    for field in [
        "evidence",
        "instrumentation_requirements",
        "deployment_constraints",
        "failure_modes",
        "data_requirements",
        "compute_requirements",
        "expertise_required",
        "comparison_to_alternatives",
        "implementation_files",
    ] {
        assert!(properties[field].is_object(), "{field}");
    }
}

#[test]
fn proposal_nested_contract_fields_are_structured() {
    let schema = research_output_schema();
    let properties = &schema["$defs"]["proposal"]["properties"];
    assert_eq!(properties["key_papers"]["items"]["$ref"], Value::from("#/$defs/proposal_key_paper"));
    assert_eq!(strings(&schema["$defs"]["proposal_key_paper"]["required"]), vec!["citation", "title"]);
    assert_eq!(
        properties["technical_approach"]["$ref"],
        Value::from("#/$defs/proposal_technical_approach")
    );
    assert_eq!(
        properties["acceptance_criteria"]["items"]["$ref"],
        Value::from("#/$defs/proposal_acceptance_criterion")
    );
    assert_eq!(
        strings(&schema["$defs"]["proposal_acceptance_criterion"]["required"]),
        vec!["metric", "threshold", "priority"]
    );
    assert_eq!(properties["experiment_plan"]["$ref"], Value::from("#/$defs/proposal_experiment_plan"));
    assert_eq!(properties["risk_register"]["items"]["$ref"], Value::from("#/$defs/proposal_risk_entry"));
    assert_eq!(
        strings(&schema["$defs"]["proposal_risk_entry"]["required"]),
        vec!["risk", "likelihood", "impact"]
    );
    assert_eq!(properties["risk_assessment"]["$ref"], Value::from("#/$defs/proposal_risk_assessment"));
    assert_eq!(
        properties["implementation_packet"]["$ref"],
        Value::from("#/$defs/proposal_implementation_packet")
    );
    assert_eq!(
        strings(&schema["$defs"]["proposal_implementation_packet"]["required"]),
        vec!["adoption_strategy", "repo_provenance"]
    );
    assert_eq!(
        properties["repo_assessments"]["items"]["$ref"],
        Value::from("#/$defs/proposal_repo_assessment")
    );
    assert_eq!(strings(&schema["$defs"]["proposal_repo_assessment"]["required"]), vec!["repo_url"]);
}
