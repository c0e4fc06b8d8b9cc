//! The prompt that sets a research task: the phases the agent follows, the
//! tools it may use in each, and the files it must write.
use vstd::prelude::*;

use crate::research_tools::ResearchToolNames;
use crate::text::{decimal, push_decimal};

verus! {

/// What the research prompt is built from.
#[derive(Debug)]
pub struct ResearchPromptParams {
    pub task_description: String,
    pub num_solutions: usize,
    pub framework: String,
    pub generate_code: bool,
    pub output_path: String,
    pub tool_names: ResearchToolNames,
    pub has_zotero: bool,
    pub has_paper_search: bool,
    pub has_repo_analysis: bool,
    pub has_web_search: bool,
    pub has_user_codebase: bool,
    pub codebase_path: Option<String>,
    pub prior_results_path: Option<String>,
    pub feedback_path: Option<String>,
    pub iteration_number: u32,
}

pub const TASK_HEADING: &'static str = "# Research Task\n\n";

pub const PROBLEM_HEADING: &'static str = "## Problem Statement\n\n";

pub const BLANK_LINE: &'static str = "\n\n";

pub const PHASES_INTRO: &'static str = "Follow the phases below in order.\n\n";

pub const PHASE_1_PROMPT: &'static str = "### Phase 1: Problem Decomposition\n\n\
Identify core challenges, constraints, and scope boundaries. Extract explicit and \
implicit constraints across quality, latency, deployment, observability, privacy, \
cost, and reproducibility.\n\n";

pub const PHASE_2_OPENING: &'static str = "### Phase 2: Literature and SOTA Survey\n\n\
For each sub-problem, gather evidence and summarize key findings.\n\
Use sub-agents when available. Each sub-agent should write one artifact to \
`";

pub const PHASE_2_SUBFINDINGS: &'static str = "/.research_state/subfinding_N.json` using `apply_patch`, then return a compact summary.\n\n";

pub const ZOTERO_LINE_START: &'static str = "- Search user library via `";

pub const ZOTERO_LINE_MIDDLE: &'static str = "` and inspect relevant collections via `";

pub const ZOTERO_LINE_END: &'static str = "`.\n";

pub const PAPER_LINES_START: &'static str = "- Run academic search via `";

pub const PAPER_LINES_EXPAND: &'static str = "`.\n\
- Expand graph via `";

pub const PAPER_LINES_AND: &'static str = "` and `";

pub const PAPER_LINES_END: &'static str = "`.\n";

pub const WEB_SEARCH_LINE: &'static str = "- Use web search for recent practical deployments and tutorials.\n";

pub const PHASE_2_CLOSING: &'static str = "\nTarget at least 15 relevant papers overall and return ranked findings with citations.\n\
Missing `.research_state/subfinding_N.json` files must not block completion; treat them as best-effort artifacts.\n\n";

pub const PHASE_2B_PART_0: &'static str = "### Phase 2b: Repo-Grounded Integration Analysis\n\n\
Select top ";

pub const PHASE_2B_PART_1: &'static str = " candidate approaches with code repositories. For each candidate:\n\
- Inspect repo entrypoints via `";

pub const PHASE_2B_PART_2: &'static str = "` and I/O shapes via `";

pub const PHASE_2B_PART_3: &'static str = "`.\n\
- Extract config schema via `";

pub const PHASE_2B_PART_4: &'static str = "` and dependencies via `";

pub const PHASE_2B_PART_5: &'static str = "`.\n\
- Assess repo health via `";

pub const PHASE_2B_PART_6: &'static str = "` and export paths via `";

pub const PHASE_2B_PART_7: &'static str = "`.\n";

pub const CODEBASE_FIT_START: &'static str = "- Analyze fit against user codebase at `";

pub const CODEBASE_FIT_END: &'static str = "` using `list_dir`, \
`grep_files`, and `read_file`.\n";

pub const DEPENDENCY_DELTA_START: &'static str = "- Compare dependency deltas via `";

pub const DEPENDENCY_DELTA_END: &'static str = "` when requirements files are available.\n";

pub const GENERIC_PLAN_LINE: &'static str = "- Produce a generic integration plan with placeholder module boundaries.\n";

pub const ASSESSMENTS_START: &'static str = "\nWrite per-candidate repo assessments to `";

pub const ASSESSMENTS_END: &'static str = "/.research_state/repo_assessment_N.json` using `apply_patch` and return compact summaries.\n\
Each assessment should include adoption strategy, provenance pinning (commit/license), and repo feasibility.\n\
If cloning/inspection fails, set `repo_unavailable=true` and include a blocked reason.\n\
Missing repo assessment artifacts are best-effort and must not block final output.\n\n";

pub const PHASE_3_START: &'static str = "### Phase 3: Proposal Synthesis\n\n\
Generate exactly ";

pub const PHASE_3_END: &'static str = " ranked proposals. Each proposal must include:\n\
- acceptance criteria\n\
- minimum viable experiment\n\
- risk register\n\
- instrumentation requirements\n\
- champion/challenger status\n\
- implementation packet (adoption strategy, provenance, reproduction, integration plan)\n\n";

pub const PHASE_3B_PROMPT: &'static str = "### Phase 3b: Skeptic Pass\n\n\
Before finalizing outputs, verify:\n\
- every key claim maps to explicit evidence\n\
- benchmark numbers match retrieved sources\n\
- unverifiable claims are marked `[UNVERIFIED]`\n\
- strengths/weaknesses are evidence-backed\n\
- there are no citation contradictions across proposals\n\n";

pub const PHASE_4_START: &'static str = "### Phase 4: Reproducible Pipeline Scaffolding\n\n\
For the top ";

pub const PHASE_4_FRAMEWORK: &'static str = " proposal(s), generate executable ";

pub const PHASE_4_PATH: &'static str = " scaffolds in `";

pub const PHASE_4_END: &'static str = "`:\n\
- `model.py`, `dataset.py`, `train.py`, `evaluate.py`\n\
- `config.yaml`, `requirements.txt`, `README.md`\n\
Ensure structured metrics output and explicit go/no-go rules.\n\n";

pub const ITERATION_START: &'static str = "### Iteration Context\n\n\
This is iteration ";

pub const ITERATION_END: &'static str = ". Incorporate prior evidence and downstream feedback.\n";

pub const PRIOR_RESULTS_START: &'static str = "- Prior results: `";

pub const PRIOR_RESULTS_END: &'static str = "`\n";

pub const FEEDBACK_START: &'static str = "- Downstream feedback: `";

pub const FEEDBACK_END: &'static str = "`\n";

pub const ITERATION_CLOSING: &'static str = "Do not re-propose known-dead approaches unless you provide new evidence-backed fixes.\n\n";

pub const OUTPUT_FORMAT_PART_0: &'static str = "### Output Format\n\n\
Write these files with `apply_patch`:\n\
1. `";

pub const OUTPUT_FORMAT_PART_1: &'static str = "/research_results.json`\n\
2. `";

pub const OUTPUT_FORMAT_PART_2: &'static str = "/RESEARCH_REPORT.md`\n\
3. `";

pub const OUTPUT_FORMAT_PART_3: &'static str = "/.research_state/subfinding_N.json` and `";

pub const OUTPUT_FORMAT_PART_4: &'static str = "/.research_state/repo_assessment_N.json` (best-effort)\n\
4. `";

pub const OUTPUT_FORMAT_PART_5: &'static str = "/proposal_N/` scaffold folders when Phase 4 runs.\n\n\
`";

pub const OUTPUT_FORMAT_PART_6: &'static str = "/research_results.json` must conform to this JSON Schema:\n\
```json\n\
";

pub const OUTPUT_FORMAT_PART_7: &'static str = "\n\
```\n\n\
If `.research_state/*` artifacts are missing, continue and complete the final output files.\n\n";

/// The JSON Schema that `research_results.json` must conform to, as
/// `serde_json::to_string_pretty` writes it.
pub const RESEARCH_OUTPUT_SCHEMA_JSON: &'static str = r##"{
  "$defs": {
    "champion": {
      "properties": {
        "justification": {
          "type": "string"
        },
        "promotion_criteria": {
          "type": "string"
        },
        "proposal_name": {
          "type": "string"
        }
      },
      "required": [
        "proposal_name",
        "justification"
      ],
      "type": "object"
    },
    "decision_rule": {
      "properties": {
        "action": {
          "type": "string"
        },
        "condition": {
          "type": "string"
        },
        "rationale": {
          "type": "string"
        }
      },
      "required": [
        "condition",
        "action"
      ],
      "type": "object"
    },
    "file_manifest_entry": {
      "properties": {
        "description": {
          "type": "string"
        },
        "kind": {
          "type": "string"
        },
        "path": {
          "type": "string"
        },
        "solution_rank": {
          "minimum": 1,
          "type": "integer"
        }
      },
      "required": [
        "path",
        "kind"
      ],
      "type": "object"
    },
    "iteration_context": {
      "properties": {
        "changes_from_prior": {
          "items": {
            "type": "string"
          },
          "type": "array"
        },
        "dead_approaches": {
          "items": {
            "type": "string"
          },
          "type": "array"
        },
        "feedback_received": {
          "items": {
            "type": "object"
          },
          "type": "array"
        },
        "iteration_number": {
          "minimum": 0,
          "type": "integer"
        },
        "prior_proposal_ids": {
          "items": {
            "type": "string"
          },
          "type": "array"
        }
      },
      "required": [
        "iteration_number"
      ],
      "type": "object"
    },
    "literature_review": {
      "properties": {
        "code_repositories": {
          "items": {
            "properties": {
              "description": {
                "type": "string"
              },
              "framework": {
                "type": "string"
              },
              "is_official": {
                "type": "boolean"
              },
              "name": {
                "type": "string"
              },
              "related_paper": {
                "type": "string"
              },
              "stars": {
                "minimum": 0,
                "type": "integer"
              },
              "url": {
                "type": "string"
              }
            },
            "required": [
              "url",
              "name"
            ],
            "type": "object"
          },
          "type": "array"
        },
        "key_insights": {
          "items": {
            "type": "string"
          },
          "type": "array"
        },
        "paper_ids_ranked": {
          "items": {
            "type": "string"
          },
          "type": "array"
        },
        "papers": {
          "description": "DEPRECATED flat list. Use papers_by_id + paper_ids_ranked.",
          "items": {
            "type": "object"
          },
          "type": "array"
        },
        "papers_by_id": {
          "additionalProperties": {
            "properties": {
              "abstract_text": {
                "type": "string"
              },
              "arxiv_id": {
                "type": "string"
              },
              "authors": {
                "type": "string"
              },
              "citation_count": {
                "minimum": 0,
                "type": "integer"
              },
              "code_url": {
                "type": "string"
              },
              "doi": {
                "type": "string"
              },
              "key_contribution": {
                "type": "string"
              },
              "paper_id": {
                "type": "string"
              },
              "pdf_url": {
                "type": "string"
              },
              "relevance_score": {
                "minimum": 0,
                "type": "integer"
              },
              "relevant_to_subproblems": {
                "items": {
                  "type": "string"
                },
                "type": "array"
              },
              "source": {
                "type": "string"
              },
              "title": {
                "type": "string"
              },
              "url": {
                "type": "string"
              },
              "venue": {
                "type": "string"
              },
              "year": {
                "type": "integer"
              }
            },
            "required": [
              "title",
              "authors"
            ],
            "type": "object"
          },
          "type": "object"
        },
        "sota_results": {
          "items": {
            "properties": {
              "best_method": {
                "type": "string"
              },
              "best_score": {
                "type": "number"
              },
              "code_url": {
                "type": "string"
              },
              "dataset": {
                "type": "string"
              },
              "metric": {
                "type": "string"
              },
              "paper_title": {
                "type": "string"
              },
              "paper_url": {
                "type": "string"
              },
              "task": {
                "type": "string"
              }
            },
            "required": [
              "task",
              "dataset",
              "metric",
              "best_method"
            ],
            "type": "object"
          },
          "type": "array"
        },
        "total_papers_found": {
          "minimum": 0,
          "type": "integer"
        }
      },
      "required": [
        "total_papers_found",
        "papers_by_id"
      ],
      "type": "object"
    },
    "problem_decomposition": {
      "properties": {
        "constraints": {
          "items": {
            "properties": {
              "category": {
                "type": "string"
              },
              "description": {
                "type": "string"
              },
              "value": {
                "type": "string"
              }
            },
            "required": [
              "category",
              "description"
            ],
            "type": "object"
          },
          "type": "array"
        },
        "core_challenges": {
          "items": {
            "properties": {
              "description": {
                "type": "string"
              },
              "domains": {
                "items": {
                  "type": "string"
                },
                "type": "array"
              },
              "name": {
                "type": "string"
              },
              "search_keywords": {
                "items": {
                  "type": "string"
                },
                "type": "array"
              }
            },
            "required": [
              "name",
              "description"
            ],
            "type": "object"
          },
          "type": "array"
        },
        "problem_statement": {
          "type": "string"
        },
        "scope": {
          "properties": {
            "in_scope": {
              "items": {
                "type": "string"
              },
              "type": "array"
            },
            "out_of_scope": {
              "items": {
                "type": "string"
              },
              "type": "array"
            }
          },
          "type": "object"
        }
      },
      "required": [
        "problem_statement",
        "core_challenges",
        "constraints"
      ],
      "type": "object"
    },
    "proposal": {
      "properties": {
        "acceptance_criteria": {
          "items": {
            "$ref": "#/$defs/proposal_acceptance_criterion"
          },
          "type": "array"
        },
        "comparison_to_alternatives": {
          "type": "string"
        },
        "compute_requirements": {
          "$ref": "#/$defs/proposal_compute_requirements"
        },
        "data_requirements": {
          "$ref": "#/$defs/proposal_data_requirements"
        },
        "deployment_constraints": {
          "$ref": "#/$defs/proposal_deployment_constraints"
        },
        "evidence": {
          "items": {
            "$ref": "#/$defs/proposal_evidence"
          },
          "type": "array"
        },
        "experiment_plan": {
          "$ref": "#/$defs/proposal_experiment_plan"
        },
        "expertise_required": {
          "items": {
            "type": "string"
          },
          "type": "array"
        },
        "failure_modes": {
          "items": {
            "type": "string"
          },
          "type": "array"
        },
        "implementation_files": {
          "items": {
            "type": "string"
          },
          "type": "array"
        },
        "implementation_packet": {
          "$ref": "#/$defs/proposal_implementation_packet"
        },
        "instrumentation_requirements": {
          "$ref": "#/$defs/proposal_instrumentation_requirements"
        },
        "justification": {
          "type": "string"
        },
        "key_papers": {
          "items": {
            "$ref": "#/$defs/proposal_key_paper"
          },
          "type": "array"
        },
        "name": {
          "type": "string"
        },
        "rank": {
          "minimum": 1,
          "type": "integer"
        },
        "repo_assessments": {
          "items": {
            "$ref": "#/$defs/proposal_repo_assessment"
          },
          "type": "array"
        },
        "risk_assessment": {
          "$ref": "#/$defs/proposal_risk_assessment"
        },
        "risk_register": {
          "description": "Itemized risk details.",
          "items": {
            "$ref": "#/$defs/proposal_risk_entry"
          },
          "type": "array"
        },
        "status": {
          "type": "string"
        },
        "strengths": {
          "items": {
            "type": "string"
          },
          "type": "array"
        },
        "summary": {
          "type": "string"
        },
        "technical_approach": {
          "$ref": "#/$defs/proposal_technical_approach"
        },
        "weaknesses": {
          "items": {
            "type": "string"
          },
          "type": "array"
        }
      },
      "required": [
        "name",
        "summary"
      ],
      "type": "object"
    },
    "proposal_acceptance_criterion": {
      "properties": {
        "metric": {
          "type": "string"
        },
        "priority": {
          "type": "string"
        },
        "source": {
          "type": "string"
        },
        "threshold": {
          "type": "string"
        }
      },
      "required": [
        "metric",
        "threshold",
        "priority"
      ],
      "type": "object"
    },
    "proposal_adoption_strategy": {
      "properties": {
        "rationale": {
          "type": "string"
        },
        "strategy": {
          "type": "string"
        }
      },
      "required": [
        "strategy",
        "rationale"
      ],
      "type": "object"
    },
    "proposal_compute_requirements": {
      "properties": {
        "inference_device": {
          "type": "string"
        },
        "inference_latency": {
          "type": "string"
        },
        "training_gpu": {
          "type": "string"
        },
        "training_time": {
          "type": "string"
        }
      },
      "type": "object"
    },
    "proposal_data_requirements": {
      "properties": {
        "availability": {
          "type": "string"
        },
        "description": {
          "type": "string"
        },
        "estimated_volume": {
          "type": "string"
        },
        "labeling_effort": {
          "type": "string"
        }
      },
      "type": "object"
    },
    "proposal_deployment_constraints": {
      "properties": {
        "memory_budget": {
          "type": "string"
        },
        "model_format": {
          "type": "string"
        },
        "rollback_strategy": {
          "type": "string"
        },
        "runtime": {
          "type": "string"
        },
        "target_hardware": {
          "type": "string"
        }
      },
      "type": "object"
    },
    "proposal_evidence": {
      "properties": {
        "extracted_text_snippet": {
          "type": "string"
        },
        "id": {
          "type": "string"
        },
        "source_ref": {
          "type": "string"
        },
        "source_tool": {
          "type": "string"
        },
        "type": {
          "type": "string"
        }
      },
      "required": [
        "id",
        "type",
        "source_ref"
      ],
      "type": "object"
    },
    "proposal_experiment_plan": {
      "properties": {
        "dataset_subset": {
          "type": "string"
        },
        "expected_range": {
          "type": "string"
        },
        "expected_training_time": {
          "type": "string"
        },
        "go_no_go": {
          "type": "string"
        },
        "key_metric": {
          "type": "string"
        }
      },
      "type": "object"
    },
    "proposal_implementation_packet": {
      "properties": {
        "adoption_strategy": {
          "$ref": "#/$defs/proposal_adoption_strategy"
        },
        "codebase_fit": {
          "type": "object"
        },
        "integration_plan": {
          "type": "object"
        },
        "repo_provenance": {
          "items": {
            "$ref": "#/$defs/proposal_repo_provenance"
          },
          "type": "array"
        },
        "repro_plan": {
          "type": "object"
        }
      },
      "required": [
        "adoption_strategy",
        "repo_provenance"
      ],
      "type": "object"
    },
    "proposal_instrumentation_requirements": {
      "properties": {
        "alerting_thresholds": {
          "items": {
            "type": "string"
          },
          "type": "array"
        },
        "deployment_metrics": {
          "items": {
            "type": "string"
          },
          "type": "array"
        },
        "training_metrics": {
          "items": {
            "type": "string"
          },
          "type": "array"
        }
      },
      "type": "object"
    },
    "proposal_key_paper": {
      "properties": {
        "citation": {
          "type": "string"
        },
        "relevance": {
          "type": "string"
        },
        "title": {
          "type": "string"
        },
        "url": {
          "type": "string"
        }
      },
      "required": [
        "citation",
        "title"
      ],
      "type": "object"
    },
    "proposal_repo_assessment": {
      "properties": {
        "blocked_reason": {
          "type": "string"
        },
        "commit_sha": {
          "type": "string"
        },
        "license": {
          "type": "string"
        },
        "repo_unavailable": {
          "type": "boolean"
        },
        "repo_url": {
          "type": "string"
        }
      },
      "required": [
        "repo_url"
      ],
      "type": "object"
    },
    "proposal_repo_provenance": {
      "properties": {
        "caveats": {
          "items": {
            "type": "string"
          },
          "type": "array"
        },
        "health_summary": {
          "type": "string"
        },
        "license": {
          "type": "string"
        },
        "pinned_commit": {
          "type": "string"
        },
        "url": {
          "type": "string"
        }
      },
      "required": [
        "url",
        "license"
      ],
      "type": "object"
    },
    "proposal_risk_assessment": {
      "description": "Short overall risk summary.",
      "properties": {
        "explanation": {
          "type": "string"
        },
        "level": {
          "type": "string"
        }
      },
      "type": "object"
    },
    "proposal_risk_entry": {
      "properties": {
        "impact": {
          "type": "string"
        },
        "likelihood": {
          "type": "string"
        },
        "mitigation": {
          "type": "string"
        },
        "risk": {
          "type": "string"
        }
      },
      "required": [
        "risk",
        "likelihood",
        "impact"
      ],
      "type": "object"
    },
    "proposal_technical_approach": {
      "properties": {
        "architecture": {
          "type": "string"
        },
        "inference_pipeline": {
          "type": "string"
        },
        "integration_approach": {
          "type": "string"
        },
        "training_procedure": {
          "type": "string"
        }
      },
      "type": "object"
    },
    "research_metadata": {
      "properties": {
        "codex_version": {
          "type": "string"
        },
        "framework": {
          "type": "string"
        },
        "model_used": {
          "type": "string"
        },
        "num_sub_agents": {
          "minimum": 0,
          "type": "integer"
        },
        "research_date": {
          "type": "string"
        },
        "total_papers_reviewed": {
          "minimum": 0,
          "type": "integer"
        }
      },
      "type": "object"
    }
  },
  "$schema": "http://json-schema.org/draft-07/schema#",
  "properties": {
    "champion": {
      "$ref": "#/$defs/champion"
    },
    "comparison_table": {
      "type": "string"
    },
    "decision_rules": {
      "items": {
        "$ref": "#/$defs/decision_rule"
      },
      "type": "array"
    },
    "file_manifest": {
      "items": {
        "$ref": "#/$defs/file_manifest_entry"
      },
      "type": "array"
    },
    "iteration_context": {
      "$ref": "#/$defs/iteration_context"
    },
    "literature_review": {
      "$ref": "#/$defs/literature_review"
    },
    "metadata": {
      "$ref": "#/$defs/research_metadata"
    },
    "next_steps": {
      "items": {
        "type": "string"
      },
      "type": "array"
    },
    "open_questions": {
      "items": {
        "type": "string"
      },
      "type": "array"
    },
    "problem_decomposition": {
      "$ref": "#/$defs/problem_decomposition"
    },
    "proposals": {
      "items": {
        "$ref": "#/$defs/proposal"
      },
      "type": "array"
    },
    "recommended_solution": {
      "description": "DEPRECATED alias of `champion.proposal_name`.",
      "type": "string"
    },
    "run_warnings": {
      "items": {
        "type": "string"
      },
      "type": "array"
    },
    "solutions": {
      "description": "DEPRECATED alias of `proposals`.",
      "items": {
        "$ref": "#/$defs/proposal"
      },
      "type": "array"
    }
  },
  "required": [
    "problem_decomposition",
    "literature_review",
    "proposals",
    "champion"
  ],
  "title": "ResearchOutput",
  "type": "object"
}"##;

/// `text` where `cond` holds, else nothing.
pub open spec fn when(cond: bool, text: Seq<char>) -> Seq<char> {
    if cond {
        text
    } else {
        seq![]
    }
}

/// Phase 2: the survey, with the lines for the tools that are available.
pub open spec fn phase_2_text(p: ResearchPromptParams) -> Seq<char> {
    PHASE_2_OPENING@ + p.output_path@ + PHASE_2_SUBFINDINGS@
        + when(
            p.has_zotero,
            ZOTERO_LINE_START@ + p.tool_names.zotero_search@ + ZOTERO_LINE_MIDDLE@
                + p.tool_names.zotero_get_collections@ + ZOTERO_LINE_END@,
        )
        + when(
            p.has_paper_search,
            PAPER_LINES_START@ + p.tool_names.paper_search@ + PAPER_LINES_EXPAND@
                + p.tool_names.paper_citations@ + PAPER_LINES_AND@ + p.tool_names.paper_references@
                + PAPER_LINES_END@,
        )
        + when(p.has_web_search, WEB_SEARCH_LINE@)
        + PHASE_2_CLOSING@
}

/// The lines of phase 2b on the user's codebase.
pub open spec fn codebase_lines(p: ResearchPromptParams) -> Seq<char> {
    if p.has_user_codebase {
        match p.codebase_path {
            Some(path) => CODEBASE_FIT_START@ + path@ + CODEBASE_FIT_END@ + DEPENDENCY_DELTA_START@
                + p.tool_names.repo_diff_requirements@ + DEPENDENCY_DELTA_END@,
            None => seq![],
        }
    } else {
        GENERIC_PLAN_LINE@
    }
}

/// Phase 2b: repo-grounded analysis of one candidate more than the number
/// of solutions asked for.
pub open spec fn phase_2b_text(p: ResearchPromptParams) -> Seq<char> {
    PHASE_2B_PART_0@ + decimal((p.num_solutions + 1) as nat) + PHASE_2B_PART_1@
        + p.tool_names.repo_find_entrypoints@ + PHASE_2B_PART_2@ + p.tool_names.repo_extract_io_shapes@
        + PHASE_2B_PART_3@ + p.tool_names.repo_extract_config_schema@ + PHASE_2B_PART_4@
        + p.tool_names.repo_extract_requirements@ + PHASE_2B_PART_5@ + p.tool_names.repo_get_health@
        + PHASE_2B_PART_6@ + p.tool_names.repo_find_export_paths@ + PHASE_2B_PART_7@
        + codebase_lines(p) + ASSESSMENTS_START@ + p.output_path@ + ASSESSMENTS_END@
}

/// Phase 3: synthesis of exactly `num_solutions` proposals.
pub open spec fn phase_3_text(num_solutions: usize) -> Seq<char> {
    PHASE_3_START@ + decimal(num_solutions as nat) + PHASE_3_END@
}

/// The smaller of the number of solutions and two.
pub open spec fn top_n(num_solutions: usize) -> nat {
    if num_solutions < 2 {
        num_solutions as nat
    } else {
        2
    }
}

/// Phase 4: scaffolds for the top proposals, at most two.
pub open spec fn phase_4_text(num_solutions: usize, framework: Seq<char>, output_path: Seq<char>) -> Seq<char> {
    PHASE_4_START@ + decimal(top_n(num_solutions)) + PHASE_4_FRAMEWORK@ + framework + PHASE_4_PATH@
        + output_path + PHASE_4_END@
}

/// The line naming an optional file, or nothing.
pub open spec fn path_line(path: Option<String>, start: Seq<char>, end: Seq<char>) -> Seq<char> {
    match path {
        Some(path) => start + path@ + end,
        None => seq![],
    }
}

/// The context of a later iteration: its number and the files from before.
pub open spec fn iteration_text(p: ResearchPromptParams) -> Seq<char> {
    ITERATION_START@ + decimal(p.iteration_number as nat) + ITERATION_END@
        + path_line(p.prior_results_path, PRIOR_RESULTS_START@, PRIOR_RESULTS_END@)
        + path_line(p.feedback_path, FEEDBACK_START@, FEEDBACK_END@) + ITERATION_CLOSING@
}

/// The files to write and the schema of the results file.
pub open spec fn output_format_text(output_path: Seq<char>) -> Seq<char> {
    OUTPUT_FORMAT_PART_0@ + output_path + OUTPUT_FORMAT_PART_1@ + output_path + OUTPUT_FORMAT_PART_2@
        + output_path + OUTPUT_FORMAT_PART_3@ + output_path + OUTPUT_FORMAT_PART_4@ + output_path
        + OUTPUT_FORMAT_PART_5@ + output_path + OUTPUT_FORMAT_PART_6@ + RESEARCH_OUTPUT_SCHEMA_JSON@
        + OUTPUT_FORMAT_PART_7@
}

/// The whole prompt: the task, then the phases in order; phase 2b only with
/// repo analysis, phase 4 only when code is to be generated, the iteration
/// context only after the first iteration, and the output format last.
pub open spec fn research_prompt_text(p: ResearchPromptParams) -> Seq<char> {
    TASK_HEADING@ + PROBLEM_HEADING@ + p.task_description@ + BLANK_LINE@ + PHASES_INTRO@
        + PHASE_1_PROMPT@ + phase_2_text(p) + when(p.has_repo_analysis, phase_2b_text(p))
        + phase_3_text(p.num_solutions) + PHASE_3B_PROMPT@
        + when(p.generate_code, phase_4_text(p.num_solutions, p.framework@, p.output_path@))
        + when(p.iteration_number > 0, iteration_text(p)) + output_format_text(p.output_path@)
}

/// Builds the research prompt.
pub fn build_research_prompt(params: &ResearchPromptParams) -> (prompt: String)
    requires
        params.has_repo_analysis ==> params.num_solutions < usize::MAX,
    ensures
        prompt@ == research_prompt_text(*params),
{
    let mut prompt = String::new();
    prompt.append(TASK_HEADING);
    prompt.append(PROBLEM_HEADING);
    prompt.append(params.task_description.as_str());
    prompt.append(BLANK_LINE);
    prompt.append(PHASES_INTRO);
    prompt.append(PHASE_1_PROMPT);
    let ghost head = prompt@;
    prompt.append(build_phase_2_prompt(params).as_str());
    let ghost after_2 = prompt@;
    if params.has_repo_analysis {
        prompt.append(build_phase_2b_prompt(params).as_str());
    }
    assert(prompt@ =~= after_2 + when(params.has_repo_analysis, phase_2b_text(*params)));
    let ghost after_2b = prompt@;
    prompt.append(build_phase_3_prompt(params.num_solutions).as_str());
    prompt.append(build_phase_3b_prompt().as_str());
    let ghost after_3 = prompt@;
    if params.generate_code {
        prompt.append(
            build_phase_4_prompt(params.num_solutions, params.framework.as_str(), params.output_path.as_str()).as_str(),
        );
    }
    assert(prompt@ =~= after_3 + when(
        params.generate_code,
        phase_4_text(params.num_solutions, params.framework@, params.output_path@),
    ));
    let ghost after_4 = prompt@;
    if params.iteration_number > 0 {
        prompt.append(build_iteration_context_prompt(params).as_str());
    }
    assert(prompt@ =~= after_4 + when(params.iteration_number > 0, iteration_text(*params)));
    prompt.append(build_output_format_prompt(params.output_path.as_str()).as_str());
    assert(prompt@ =~= research_prompt_text(*params));
    prompt
}

/// Builds phase 2.
pub fn build_phase_2_prompt(params: &ResearchPromptParams) -> (phase: String)
    ensures
        phase@ == phase_2_text(*params),
{
    let tool = &params.tool_names;
    let mut phase = String::new();
    phase.append(PHASE_2_OPENING);
    phase.append(params.output_path.as_str());
    phase.append(PHASE_2_SUBFINDINGS);
    let ghost opening = phase@;
    if params.has_zotero {
        phase.append(ZOTERO_LINE_START);
        phase.append(tool.zotero_search.as_str());
        phase.append(ZOTERO_LINE_MIDDLE);
        phase.append(tool.zotero_get_collections.as_str());
        phase.append(ZOTERO_LINE_END);
    }
    assert(phase@ =~= opening + when(
        params.has_zotero,
        ZOTERO_LINE_START@ + tool.zotero_search@ + ZOTERO_LINE_MIDDLE@ + tool.zotero_get_collections@
            + ZOTERO_LINE_END@,
    ));
    let ghost zotero = phase@;
    if params.has_paper_search {
        phase.append(PAPER_LINES_START);
        phase.append(tool.paper_search.as_str());
        phase.append(PAPER_LINES_EXPAND);
        phase.append(tool.paper_citations.as_str());
        phase.append(PAPER_LINES_AND);
        phase.append(tool.paper_references.as_str());
        phase.append(PAPER_LINES_END);
    }
    assert(phase@ =~= zotero + when(
        params.has_paper_search,
        PAPER_LINES_START@ + tool.paper_search@ + PAPER_LINES_EXPAND@ + tool.paper_citations@
            + PAPER_LINES_AND@ + tool.paper_references@ + PAPER_LINES_END@,
    ));
    let ghost papers = phase@;
    if params.has_web_search {
        phase.append(WEB_SEARCH_LINE);
    }
    assert(phase@ =~= papers + when(params.has_web_search, WEB_SEARCH_LINE@));
    phase.append(PHASE_2_CLOSING);
    assert(phase@ =~= phase_2_text(*params));
    phase
}

/// Builds phase 2b.
pub fn build_phase_2b_prompt(params: &ResearchPromptParams) -> (phase: String)
    requires
        params.num_solutions < usize::MAX,
    ensures
        phase@ == phase_2b_text(*params),
{
    let tool = &params.tool_names;
    let k = params.num_solutions + 1;
    let mut phase = String::new();
    phase.append(PHASE_2B_PART_0);
    push_decimal(&mut phase, k as u64);
    phase.append(PHASE_2B_PART_1);
    phase.append(tool.repo_find_entrypoints.as_str());
    phase.append(PHASE_2B_PART_2);
    phase.append(tool.repo_extract_io_shapes.as_str());
    phase.append(PHASE_2B_PART_3);
    phase.append(tool.repo_extract_config_schema.as_str());
    phase.append(PHASE_2B_PART_4);
    phase.append(tool.repo_extract_requirements.as_str());
    phase.append(PHASE_2B_PART_5);
    phase.append(tool.repo_get_health.as_str());
    phase.append(PHASE_2B_PART_6);
    phase.append(tool.repo_find_export_paths.as_str());
    phase.append(PHASE_2B_PART_7);
    let ghost tools = phase@;
    if params.has_user_codebase {
        match &params.codebase_path {
            Some(codebase_path) => {
                phase.append(CODEBASE_FIT_START);
                phase.append(codebase_path.as_str());
                phase.append(CODEBASE_FIT_END);
                phase.append(DEPENDENCY_DELTA_START);
                phase.append(tool.repo_diff_requirements.as_str());
                phase.append(DEPENDENCY_DELTA_END);
            },
            None => {},
        }
    } else {
        phase.append(GENERIC_PLAN_LINE);
    }
    assert(phase@ =~= tools + codebase_lines(*params));
    phase.append(ASSESSMENTS_START);
    phase.append(params.output_path.as_str());
    phase.append(ASSESSMENTS_END);
    assert(phase@ =~= phase_2b_text(*params));
    phase
}

/// Builds phase 3.
pub fn build_phase_3_prompt(num_solutions: usize) -> (phase: String)
    ensures
        phase@ == phase_3_text(num_solutions),
{
    let mut phase = String::new();
    phase.append(PHASE_3_START);
    push_decimal(&mut phase, num_solutions as u64);
    phase.append(PHASE_3_END);
    assert(phase@ =~= phase_3_text(num_solutions));
    phase
}

/// Builds phase 3b, the skeptic pass.
pub fn build_phase_3b_prompt() -> (phase: String)
    ensures
        phase@ == PHASE_3B_PROMPT@,
{
    String::from_str(PHASE_3B_PROMPT)
}

/// Builds phase 4.
pub fn build_phase_4_prompt(num_solutions: usize, framework: &str, output_path: &str) -> (phase: String)
    ensures
        phase@ == phase_4_text(num_solutions, framework@, output_path@),
{
    let top: usize = if num_solutions < 2 {
        num_solutions
    } else {
        2
    };
    let mut phase = String::new();
    phase.append(PHASE_4_START);
    push_decimal(&mut phase, top as u64);
    phase.append(PHASE_4_FRAMEWORK);
    phase.append(framework);
    phase.append(PHASE_4_PATH);
    phase.append(output_path);
    phase.append(PHASE_4_END);
    assert(phase@ =~= phase_4_text(num_solutions, framework@, output_path@));
    phase
}

/// Builds the iteration context.
pub fn build_iteration_context_prompt(params: &ResearchPromptParams) -> (section: String)
    ensures
        section@ == iteration_text(*params),
{
    let mut section = String::new();
    section.append(ITERATION_START);
    push_decimal(&mut section, params.iteration_number as u64);
    section.append(ITERATION_END);
    let ghost opening = section@;
    match &params.prior_results_path {
        Some(path) => {
            section.append(PRIOR_RESULTS_START);
            section.append(path.as_str());
            section.append(PRIOR_RESULTS_END);
        },
        None => {},
    }
    assert(section@ =~= opening + path_line(params.prior_results_path, PRIOR_RESULTS_START@, PRIOR_RESULTS_END@));
    let ghost prior = section@;
    match &params.feedback_path {
        Some(path) => {
            section.append(FEEDBACK_START);
            section.append(path.as_str());
            section.append(FEEDBACK_END);
        },
        None => {},
    }
    assert(section@ =~= prior + path_line(params.feedback_path, FEEDBACK_START@, FEEDBACK_END@));
    section.append(ITERATION_CLOSING);
    assert(section@ =~= iteration_text(*params));
    section
}

/// Builds the output format section, with the schema of the results file.
pub fn build_output_format_prompt(output_path: &str) -> (section: String)
    ensures
        section@ == output_format_text(output_path@),
{
    let mut section = String::new();
    section.append(OUTPUT_FORMAT_PART_0);
    section.append(output_path);
    section.append(OUTPUT_FORMAT_PART_1);
    section.append(output_path);
    section.append(OUTPUT_FORMAT_PART_2);
    section.append(output_path);
    section.append(OUTPUT_FORMAT_PART_3);
    section.append(output_path);
    section.append(OUTPUT_FORMAT_PART_4);
    section.append(output_path);
    section.append(OUTPUT_FORMAT_PART_5);
    section.append(output_path);
    section.append(OUTPUT_FORMAT_PART_6);
    section.append(RESEARCH_OUTPUT_SCHEMA_JSON);
    section.append(OUTPUT_FORMAT_PART_7);
    assert(section@ =~= output_format_text(output_path@));
    section
}

} // verus!

verus! {

/// The heading that opens phase 1 of the research prompt.
pub open spec fn phase_1_heading() -> Seq<char> {
    "### Phase 1: Problem Decomposition"@
}

proof fn lemma_phase_1_heading_opens()
    ensures
        phase_1_heading().len() > 0,
        phase_1_heading().len() <= PHASE_1_PROMPT@.len(),
        PHASE_1_PROMPT@.subrange(0, phase_1_heading().len() as int) == phase_1_heading(),
{
    reveal_strlit("### Phase 1: Problem Decomposition");
    reveal_strlit("### Phase 1: Problem Decomposition\n\nIdentify core challenges, constraints, and scope boundaries. Extract explicit and implicit constraints across quality, latency, deployment, observability, privacy, cost, and reproducibility.\n\n");
    assert(PHASE_1_PROMPT@.subrange(0, phase_1_heading().len() as int) =~= phase_1_heading());
}

/// The heading that opens phase 2 of the research prompt.
pub open spec fn phase_2_heading() -> Seq<char> {
    "### Phase 2: Literature and SOTA Survey"@
}

proof fn lemma_phase_2_heading_opens()
    ensures
        phase_2_heading().len() > 0,
        phase_2_heading().len() <= PHASE_2_OPENING@.len(),
        PHASE_2_OPENING@.subrange(0, phase_2_heading().len() as int) == phase_2_heading(),
{
    reveal_strlit("### Phase 2: Literature and SOTA Survey");
    reveal_strlit("### Phase 2: Literature and SOTA Survey\n\nFor each sub-problem, gather evidence and summarize key findings.\nUse sub-agents when available. Each sub-agent should write one artifact to `");
    assert(PHASE_2_OPENING@.subrange(0, phase_2_heading().len() as int) =~= phase_2_heading());
}

/// The heading that opens phase 2b of the research prompt.
pub open spec fn phase_2b_heading() -> Seq<char> {
    "### Phase 2b: Repo-Grounded Integration Analysis"@
}

proof fn lemma_phase_2b_heading_opens()
    ensures
        phase_2b_heading().len() > 0,
        phase_2b_heading().len() <= PHASE_2B_PART_0@.len(),
        PHASE_2B_PART_0@.subrange(0, phase_2b_heading().len() as int) == phase_2b_heading(),
{
    reveal_strlit("### Phase 2b: Repo-Grounded Integration Analysis");
    reveal_strlit("### Phase 2b: Repo-Grounded Integration Analysis\n\nSelect top ");
    assert(PHASE_2B_PART_0@.subrange(0, phase_2b_heading().len() as int) =~= phase_2b_heading());
}

/// The heading that opens phase 3 of the research prompt.
pub open spec fn phase_3_heading() -> Seq<char> {
    "### Phase 3: Proposal Synthesis"@
}

proof fn lemma_phase_3_heading_opens()
    ensures
        phase_3_heading().len() > 0,
        phase_3_heading().len() <= PHASE_3_START@.len(),
        PHASE_3_START@.subrange(0, phase_3_heading().len() as int) == phase_3_heading(),
{
    reveal_strlit("### Phase 3: Proposal Synthesis");
    reveal_strlit("### Phase 3: Proposal Synthesis\n\nGenerate exactly ");
    assert(PHASE_3_START@.subrange(0, phase_3_heading().len() as int) =~= phase_3_heading());
}

/// The heading that opens phase 3b of the research prompt.
pub open spec fn phase_3b_heading() -> Seq<char> {
    "### Phase 3b: Skeptic Pass"@
}

proof fn lemma_phase_3b_heading_opens()
    ensures
        phase_3b_heading().len() > 0,
        phase_3b_heading().len() <= PHASE_3B_PROMPT@.len(),
        PHASE_3B_PROMPT@.subrange(0, phase_3b_heading().len() as int) == phase_3b_heading(),
{
    reveal_strlit("### Phase 3b: Skeptic Pass");
    reveal_strlit("### Phase 3b: Skeptic Pass\n\nBefore finalizing outputs, verify:\n- every key claim maps to explicit evidence\n- benchmark numbers match retrieved sources\n- unverifiable claims are marked `[UNVERIFIED]`\n- strengths/weaknesses are evidence-backed\n- there are no citation contradictions across proposals\n\n");
    assert(PHASE_3B_PROMPT@.subrange(0, phase_3b_heading().len() as int) =~= phase_3b_heading());
}

/// The heading that opens phase 4 of the research prompt.
pub open spec fn phase_4_heading() -> Seq<char> {
    "### Phase 4: Reproducible Pipeline Scaffolding"@
}

proof fn lemma_phase_4_heading_opens()
    ensures
        phase_4_heading().len() > 0,
        phase_4_heading().len() <= PHASE_4_START@.len(),
        PHASE_4_START@.subrange(0, phase_4_heading().len() as int) == phase_4_heading(),
{
    reveal_strlit("### Phase 4: Reproducible Pipeline Scaffolding");
    reveal_strlit("### Phase 4: Reproducible Pipeline Scaffolding\n\nFor the top ");
    assert(PHASE_4_START@.subrange(0, phase_4_heading().len() as int) =~= phase_4_heading());
}

/// Whether heading `h` stands in `text` at position `i`.
pub open spec fn heading_at(text: Seq<char>, h: Seq<char>, i: int) -> bool {
    0 <= i && i + h.len() <= text.len() && text.subrange(i, i + h.len()) == h
}

proof fn lemma_heading_after(x: Seq<char>, b: Seq<char>, h: Seq<char>)
    requires
        h.len() <= b.len(),
        b.subrange(0, h.len() as int) == h,
    ensures
        heading_at(x + b, h, x.len() as int),
{
    assert((x + b).subrange(x.len() as int, (x.len() + h.len()) as int) =~= b.subrange(0, h.len() as int));
}

proof fn lemma_heading_extends(x: Seq<char>, y: Seq<char>, h: Seq<char>, i: int)
    requires
        heading_at(x, h, i),
    ensures
        heading_at(x + y, h, i),
{
    assert((x + y).subrange(i, i + h.len()) =~= x.subrange(i, i + h.len()));
}

proof fn lemma_opens_with(b: Seq<char>, o: Seq<char>, r: Seq<char>, h: Seq<char>)
    requires
        b == o + r,
        h.len() <= o.len(),
        o.subrange(0, h.len() as int) == h,
    ensures
        h.len() <= b.len(),
        b.subrange(0, h.len() as int) == h,
{
    assert(b.subrange(0, h.len() as int) =~= o.subrange(0, h.len() as int));
}

/// Where the phases of the research prompt begin: phases 1, 2, 2b, 3, 3b
/// and 4 (2b and 4 where the prompt has them).
pub open spec fn phase_offsets(p: ResearchPromptParams) -> (int, int, int, int, int, int) {
    let o1 = (TASK_HEADING@ + PROBLEM_HEADING@ + p.task_description@ + BLANK_LINE@ + PHASES_INTRO@).len() as int;
    let o2 = o1 + PHASE_1_PROMPT@.len();
    let o2b = o2 + phase_2_text(p).len();
    let o3 = o2b + when(p.has_repo_analysis, phase_2b_text(p)).len();
    let o3b = o3 + phase_3_text(p.num_solutions).len();
    let o4 = o3b + PHASE_3B_PROMPT@.len();
    (o1, o2, o2b, o3, o3b, o4)
}

/// The research prompt walks through its phases in order: the headings of
/// phases 1, 2, 3 and 3b stand in it one after the other, that of phase 2b
/// between phases 2 and 3 when repo analysis is on, and that of phase 4 after
/// phase 3b when code is to be generated.
pub proof fn law_prompt_phases_in_order(p: ResearchPromptParams)
    ensures
        ({
            let t = research_prompt_text(p);
            let (o1, o2, o2b, o3, o3b, o4) = phase_offsets(p);
            &&& heading_at(t, phase_1_heading(), o1)
            &&& heading_at(t, phase_2_heading(), o2)
            &&& heading_at(t, phase_3_heading(), o3)
            &&& heading_at(t, phase_3b_heading(), o3b)
            &&& o1 < o2 && o2 < o3 && o3 < o3b
            &&& p.has_repo_analysis ==> heading_at(t, phase_2b_heading(), o2b) && o2 < o2b && o2b < o3
            &&& p.generate_code ==> heading_at(t, phase_4_heading(), o4) && o3b < o4
        }),
{
    lemma_phase_1_heading_opens();
    lemma_phase_2_heading_opens();
    lemma_phase_2b_heading_opens();
    lemma_phase_3_heading_opens();
    lemma_phase_3b_heading_opens();
    lemma_phase_4_heading_opens();
    let pre = TASK_HEADING@ + PROBLEM_HEADING@ + p.task_description@ + BLANK_LINE@ + PHASES_INTRO@;
    let x1 = pre + PHASE_1_PROMPT@;
    let p2 = phase_2_text(p);
    let x2 = x1 + p2;
    let p2b = when(p.has_repo_analysis, phase_2b_text(p));
    let x2b = x2 + p2b;
    let p3 = phase_3_text(p.num_solutions);
    let x3 = x2b + p3;
    let x3b = x3 + PHASE_3B_PROMPT@;
    let p4 = when(p.generate_code, phase_4_text(p.num_solutions, p.framework@, p.output_path@));
    let x4 = x3b + p4;
    let it = when(p.iteration_number > 0, iteration_text(p));
    let x5 = x4 + it;
    let out = output_format_text(p.output_path@);
    let t = x5 + out;
    assert(t == research_prompt_text(p));
    // phase 1
    lemma_heading_after(pre, PHASE_1_PROMPT@, phase_1_heading());
    lemma_heading_extends(x1, p2, phase_1_heading(), pre.len() as int);
    lemma_heading_extends(x2, p2b, phase_1_heading(), pre.len() as int);
    lemma_heading_extends(x2b, p3, phase_1_heading(), pre.len() as int);
    lemma_heading_extends(x3, PHASE_3B_PROMPT@, phase_1_heading(), pre.len() as int);
    lemma_heading_extends(x3b, p4, phase_1_heading(), pre.len() as int);
    lemma_heading_extends(x4, it, phase_1_heading(), pre.len() as int);
    lemma_heading_extends(x5, out, phase_1_heading(), pre.len() as int);
    // phase 2
    let r2 = p2.subrange(PHASE_2_OPENING@.len() as int, p2.len() as int);
    assert(p2 =~= PHASE_2_OPENING@ + r2);
    lemma_opens_with(p2, PHASE_2_OPENING@, r2, phase_2_heading());
    lemma_heading_after(x1, p2, phase_2_heading());
    lemma_heading_extends(x2, p2b, phase_2_heading(), x1.len() as int);
    lemma_heading_extends(x2b, p3, phase_2_heading(), x1.len() as int);
    lemma_heading_extends(x3, PHASE_3B_PROMPT@, phase_2_heading(), x1.len() as int);
    lemma_heading_extends(x3b, p4, phase_2_heading(), x1.len() as int);
    lemma_heading_extends(x4, it, phase_2_heading(), x1.len() as int);
    lemma_heading_extends(x5, out, phase_2_heading(), x1.len() as int);
    // phase 2b
    if p.has_repo_analysis {
        let q = phase_2b_text(p);
        let rq = q.subrange(PHASE_2B_PART_0@.len() as int, q.len() as int);
        assert(q =~= PHASE_2B_PART_0@ + rq);
        lemma_opens_with(q, PHASE_2B_PART_0@, rq, phase_2b_heading());
        lemma_heading_after(x2, p2b, phase_2b_heading());
        lemma_heading_extends(x2b, p3, phase_2b_heading(), x2.len() as int);
        lemma_heading_extends(x3, PHASE_3B_PROMPT@, phase_2b_heading(), x2.len() as int);
        lemma_heading_extends(x3b, p4, phase_2b_heading(), x2.len() as int);
        lemma_heading_extends(x4, it, phase_2b_heading(), x2.len() as int);
        lemma_heading_extends(x5, out, phase_2b_heading(), x2.len() as int);
    }
    // phase 3
    let r3 = p3.subrange(PHASE_3_START@.len() as int, p3.len() as int);
    assert(p3 =~= PHASE_3_START@ + r3);
    lemma_opens_with(p3, PHASE_3_START@, r3, phase_3_heading());
    lemma_heading_after(x2b, p3, phase_3_heading());
    lemma_heading_extends(x3, PHASE_3B_PROMPT@, phase_3_heading(), x2b.len() as int);
    lemma_heading_extends(x3b, p4, phase_3_heading(), x2b.len() as int);
    lemma_heading_extends(x4, it, phase_3_heading(), x2b.len() as int);
    lemma_heading_extends(x5, out, phase_3_heading(), x2b.len() as int);
    // phase 3b
    lemma_heading_after(x3, PHASE_3B_PROMPT@, phase_3b_heading());
    lemma_heading_extends(x3b, p4, phase_3b_heading(), x3.len() as int);
    lemma_heading_extends(x4, it, phase_3b_heading(), x3.len() as int);
    lemma_heading_extends(x5, out, phase_3b_heading(), x3.len() as int);
    // phase 4
    if p.generate_code {
        let f = phase_4_text(p.num_solutions, p.framework@, p.output_path@);
        let rf = f.subrange(PHASE_4_START@.len() as int, f.len() as int);
        assert(f =~= PHASE_4_START@ + rf);
        lemma_opens_with(f, PHASE_4_START@, rf, phase_4_heading());
        lemma_heading_after(x3b, p4, phase_4_heading());
        lemma_heading_extends(x4, it, phase_4_heading(), x3b.len() as int);
        lemma_heading_extends(x5, out, phase_4_heading(), x3b.len() as int);
    }
}
} // verus!

verus! {

/// Law: the survey of phase 2 holds the web-search line exactly when web
/// search is available: with web search on, the survey is the one without it
/// with the web-search line put in before the closing paragraph, and with it
/// off, the survey ends in that closing paragraph right after the rest.
pub proof fn law_web_search_line_iff_available(p: ResearchPromptParams)
    ensures
        ({
            let off = phase_2_text(ResearchPromptParams { has_web_search: false, ..p });
            let on = phase_2_text(ResearchPromptParams { has_web_search: true, ..p });
            let k = off.len() - PHASE_2_CLOSING@.len();
            &&& 0 <= k
            &&& off.subrange(k, off.len() as int) == PHASE_2_CLOSING@
            &&& on == off.subrange(0, k) + WEB_SEARCH_LINE@ + PHASE_2_CLOSING@
            &&& on.len() == off.len() + WEB_SEARCH_LINE@.len()
        }),
{
    let pf = ResearchPromptParams { has_web_search: false, ..p };
    let pt = ResearchPromptParams { has_web_search: true, ..p };
    let off = phase_2_text(pf);
    let on = phase_2_text(pt);
    let head = PHASE_2_OPENING@ + p.output_path@ + PHASE_2_SUBFINDINGS@ + when(
        p.has_zotero,
        ZOTERO_LINE_START@ + p.tool_names.zotero_search@ + ZOTERO_LINE_MIDDLE@ + p.tool_names.zotero_get_collections@
            + ZOTERO_LINE_END@,
    ) + when(
        p.has_paper_search,
        PAPER_LINES_START@ + p.tool_names.paper_search@ + PAPER_LINES_EXPAND@ + p.tool_names.paper_citations@
            + PAPER_LINES_AND@ + p.tool_names.paper_references@ + PAPER_LINES_END@,
    );
    assert(off =~= head + PHASE_2_CLOSING@);
    assert(on =~= head + WEB_SEARCH_LINE@ + PHASE_2_CLOSING@);
    let k = off.len() - PHASE_2_CLOSING@.len();
    assert(off.subrange(0, k) =~= head);
    assert(off.subrange(k, off.len() as int) =~= PHASE_2_CLOSING@);
}

} // verus!

verus! {

/// Law: the survey of phase 2 names the Zotero tools exactly when Zotero is
/// available, and the paper-search tools exactly when paper search is: with
/// the flag on, the survey is the one without it with that block put in
/// (after the opening and the Zotero block, before the rest).
pub proof fn law_survey_tool_blocks_follow_flags(p: ResearchPromptParams)
    ensures
        ({
            let opening = PHASE_2_OPENING@ + p.output_path@ + PHASE_2_SUBFINDINGS@;
            let zotero = ZOTERO_LINE_START@ + p.tool_names.zotero_search@ + ZOTERO_LINE_MIDDLE@
                + p.tool_names.zotero_get_collections@ + ZOTERO_LINE_END@;
            let papers = PAPER_LINES_START@ + p.tool_names.paper_search@ + PAPER_LINES_EXPAND@
                + p.tool_names.paper_citations@ + PAPER_LINES_AND@ + p.tool_names.paper_references@ + PAPER_LINES_END@;
            let z_off = phase_2_text(ResearchPromptParams { has_zotero: false, ..p });
            let z_on = phase_2_text(ResearchPromptParams { has_zotero: true, ..p });
            let p_off = phase_2_text(ResearchPromptParams { has_paper_search: false, ..p });
            let p_on = phase_2_text(ResearchPromptParams { has_paper_search: true, ..p });
            let zk = opening.len() as int;
            let pk = zk + (if p.has_zotero { zotero.len() as int } else { 0 });
            &&& z_off.subrange(0, zk) == opening
            &&& z_on == opening + zotero + z_off.subrange(zk, z_off.len() as int)
            &&& p_off.subrange(0, pk) == p_on.subrange(0, pk)
            &&& p_on == p_off.subrange(0, pk) + papers + p_off.subrange(pk, p_off.len() as int)
        }),
{
    let opening = PHASE_2_OPENING@ + p.output_path@ + PHASE_2_SUBFINDINGS@;
    let zotero = ZOTERO_LINE_START@ + p.tool_names.zotero_search@ + ZOTERO_LINE_MIDDLE@
        + p.tool_names.zotero_get_collections@ + ZOTERO_LINE_END@;
    let papers = PAPER_LINES_START@ + p.tool_names.paper_search@ + PAPER_LINES_EXPAND@
        + p.tool_names.paper_citations@ + PAPER_LINES_AND@ + p.tool_names.paper_references@ + PAPER_LINES_END@;
    let zb = when(p.has_zotero, zotero);
    let pb = when(p.has_paper_search, papers);
    let tail = when(p.has_web_search, WEB_SEARCH_LINE@) + PHASE_2_CLOSING@;
    let z_off = phase_2_text(ResearchPromptParams { has_zotero: false, ..p });
    let z_on = phase_2_text(ResearchPromptParams { has_zotero: true, ..p });
    assert(z_off =~= opening + (pb + tail));
    assert(z_on =~= opening + zotero + (pb + tail));
    assert(z_off.subrange(0, opening.len() as int) =~= opening);
    assert(z_off.subrange(opening.len() as int, z_off.len() as int) =~= pb + tail);
    let p_off = phase_2_text(ResearchPromptParams { has_paper_search: false, ..p });
    let p_on = phase_2_text(ResearchPromptParams { has_paper_search: true, ..p });
    let pk = (opening + zb).len() as int;
    assert(p_off =~= (opening + zb) + tail);
    assert(p_on =~= (opening + zb) + papers + tail);
    assert(p_off.subrange(0, pk) =~= opening + zb);
    assert(p_on.subrange(0, pk) =~= opening + zb);
    assert(p_off.subrange(pk, p_off.len() as int) =~= tail);
}

} // verus!
