use codex_core::prompt::{
    build_output_format_prompt, build_phase_2b_prompt, build_phase_3_prompt, build_phase_4_prompt,
    build_research_prompt, ResearchPromptParams, PHASE_1_PROMPT,
};
use codex_core::research_tools::ResearchToolNames;

fn params() -> ResearchPromptParams {
    ResearchPromptParams {
        task_description: "Design a robust manipulation stack.".to_string(),
        num_solutions: 3,
        framework: "pytorch".to_string(),
        generate_code: true,
        output_path: "./research-output".to_string(),
        tool_names: ResearchToolNames::default(),
        has_zotero: true,
        has_paper_search: true,
        has_repo_analysis: true,
        has_web_search: true,
        has_user_codebase: true,
        codebase_path: Some("/workspace/project".to_string()),
        prior_results_path: None,
        feedback_path: None,
        iteration_number: 0,
    }
}

#[test]
fn prompt_includes_selected_tools_and_phases() {
    let rendered = build_research_prompt(&params());
    assert!(rendered.contains("`zotero_search`"));
    assert!(rendered.contains("`paper_search`"));
    assert!(rendered.contains("`repo_find_entrypoints`"));
    assert!(rendered.contains("### Phase 4: Reproducible Pipeline Scaffolding"));
    assert!(rendered.contains("### Phase 3b: Skeptic Pass"));
    assert!(rendered.contains(".research_state/subfinding_N.json"));
}

#[test]
fn prompt_omits_repo_phase_when_repo_analysis_is_disabled() {
    let mut p = params();
    p.has_repo_analysis = false;
    let rendered = build_research_prompt(&p);
    assert!(!rendered.contains("### Phase 2b: Repo-Grounded Integration Analysis"));
}

#[test]
fn prompt_adds_iteration_context_when_iteration_is_nonzero() {
    let mut p = params();
    p.iteration_number = 2;
    p.prior_results_path = Some("./v1/research_results.json".to_string());
    p.feedback_path = Some("./v1/eval_report.json".to_string());
    let rendered = build_research_prompt(&p);
    assert!(rendered.contains("### Iteration Context"));
    assert!(rendered.contains("`./v1/research_results.json`"));
    assert!(rendered.contains("`./v1/eval_report.json`"));
}

#[test]
fn phase_4_uses_top_two_limit() {
    let rendered = build_phase_4_prompt(8, "pytorch", "./out");
    assert!(rendered.contains("For the top 2 proposal"));
    assert!(!rendered.contains("top 8"));
}

#[test]
fn output_format_includes_embedded_json_schema() {
    let rendered = build_output_format_prompt("./out");
    assert!(rendered.contains("must conform to this JSON Schema"));
    assert!(rendered.contains("\"title\": \"ResearchOutput\""));
    assert!(rendered.contains("\"$defs\":"));
}

#[test]
fn phase_4_keeps_a_single_proposal() {
    let rendered = build_phase_4_prompt(1, "jax", "/o");
    assert!(rendered.contains("For the top 1 proposal(s), generate executable jax scaffolds in `/o`:\n"));
}

#[test]
fn phase_2b_selects_one_more_candidate_than_solutions() {
    let rendered = build_phase_2b_prompt(&params());
    assert!(rendered.starts_with(
        "### Phase 2b: Repo-Grounded Integration Analysis\n\nSelect top 4 candidate approaches"
    ));
    assert!(rendered.contains("- Analyze fit against user codebase at `/workspace/project` using `list_dir`, `grep_files`, and `read_file`.\n"));
    assert!(rendered.contains("`./research-output/.research_state/repo_assessment_N.json`"));
}

#[test]
fn phase_2b_without_codebase_gives_a_generic_plan() {
    let mut p = params();
    p.has_user_codebase = false;
    let rendered = build_phase_2b_prompt(&p);
    assert!(rendered.contains("- Produce a generic integration plan with placeholder module boundaries.\n"));
    assert!(!rendered.contains("Analyze fit"));
}

#[test]
fn phase_3_asks_for_exactly_the_number_of_solutions() {
    let rendered = build_phase_3_prompt(12);
    assert!(rendered.starts_with("### Phase 3: Proposal Synthesis\n\nGenerate exactly 12 ranked proposals."));
}

#[test]
fn prompt_starts_with_task_and_first_phase_in_order() {
    let mut p = params();
    p.has_zotero = false;
    p.has_paper_search = false;
    p.has_web_search = false;
    p.generate_code = false;
    let rendered = build_research_prompt(&p);
    let expected_head = format!(
        "# Research Task\n\n## Problem Statement\n\nDesign a robust manipulation stack.\n\nFollow the phases below in order.\n\n{PHASE_1_PROMPT}### Phase 2: Literature and SOTA Survey\n\n"
    );
    assert!(rendered.starts_with(&expected_head));
    assert!(rendered.contains("`./research-output/.research_state/subfinding_N.json` using `apply_patch`"));
    assert!(!rendered.contains("zotero"));
    assert!(!rendered.contains("### Phase 4"));
    assert!(!rendered.contains("### Iteration Context"));
    let phase_2 = rendered.find("### Phase 2:").unwrap();
    let phase_3 = rendered.find("### Phase 3:").unwrap();
    let output = rendered.find("### Output Format").unwrap();
    assert!(phase_2 < phase_3 && phase_3 < output);
    assert!(rendered.ends_with(
        "If `.research_state/*` artifacts are missing, continue and complete the final output files.\n\n"
    ));
}

#[test]
fn custom_tool_names_appear_in_the_survey() {
    let mut p = params();
    p.tool_names.paper_search = "mcp__papers__search_papers".to_string();
    let rendered = build_research_prompt(&p);
    assert!(rendered.contains("- Run academic search via `mcp__papers__search_papers`.\n"));
}

#[test]
fn phase_headings_come_in_order() {
    let mut p = params();
    p.has_repo_analysis = true;
    p.generate_code = true;
    let rendered = build_research_prompt(&p);
    let headings = [
        "### Phase 1: Problem Decomposition",
        "### Phase 2: Literature and SOTA Survey",
        "### Phase 2b: Repo-Grounded Integration Analysis",
        "### Phase 3: Proposal Synthesis",
        "### Phase 3b: Skeptic Pass",
        "### Phase 4: Reproducible Pipeline Scaffolding",
    ];
    let positions: Vec<usize> = headings.iter().map(|h| rendered.find(h).unwrap()).collect();
    for w in positions.windows(2) {
        assert!(w[0] < w[1]);
    }
}
