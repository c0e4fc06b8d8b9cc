use codex_core::tool_dispatch::{
    data_tool_call, internal_panic_message, kb_reset_confirmation, kb_tool_call, research_tool_call, DataToolCall,
    KbToolCall, ResearchToolCall,
};

#[test]
fn research_tool_names_pick_their_operation() {
    assert_eq!(research_tool_call("paper_get").unwrap(), ResearchToolCall::PaperGet);
    assert_eq!(
        research_tool_call("zotero_get_collection_items").unwrap(),
        ResearchToolCall::ZoteroGetCollectionItems
    );
    assert_eq!(research_tool_call("repo_diff_requirements").unwrap(), ResearchToolCall::RepoDiffRequirements);
    assert_eq!(research_tool_call("paper_fetch").unwrap_err(), "unknown research tool: paper_fetch");
}

#[test]
fn kb_tool_names_pick_their_operation() {
    assert_eq!(kb_tool_call("kb_write_card").unwrap(), KbToolCall::WriteCard);
    assert_eq!(kb_tool_call("kb_reset").unwrap(), KbToolCall::Reset);
    assert_eq!(kb_tool_call("kb_nope").unwrap_err(), "unknown kb tool: kb_nope");
    assert_eq!(
        kb_reset_confirmation(false).unwrap_err(),
        "confirm must be true to reset the knowledge base"
    );
    assert!(kb_reset_confirmation(true).is_ok());
}

#[test]
fn data_tool_names_pick_their_operation() {
    assert_eq!(data_tool_call("dataset_search").unwrap(), DataToolCall::DatasetSearch);
    assert_eq!(data_tool_call("hf_dataset_info").unwrap(), DataToolCall::DatasetGet);
    assert_eq!(data_tool_call("kaggle_dataset_info").unwrap(), DataToolCall::DatasetGet);
    assert_eq!(
        data_tool_call("kaggle_competition_download").unwrap(),
        DataToolCall::KaggleCompetitionDownload
    );
    assert_eq!(data_tool_call("").unwrap_err(), "unknown data tool: ");
}

#[test]
fn internal_panic_messages() {
    assert_eq!(internal_panic_message("boom"), "Internal panic: boom");
}
