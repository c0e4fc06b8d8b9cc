//! Which operation a bridged tool call names: the research, knowledge-base
//! and dataset tools each answer to a fixed set of names, and any other name
//! is refused.
use vstd::prelude::*;

use crate::text::str_eq;

verus! {

/// A research tool's operation.
#[derive(Clone, Copy, Debug, PartialEq, Eq, Structural)]
pub enum ResearchToolCall {
    PaperSearch,
    PaperGet,
    PaperCitations,
    PaperReferences,
    ZoteroSearch,
    ZoteroGetTags,
    ZoteroGetRecent,
    ZoteroAdvancedSearch,
    ZoteroGrepText,
    ZoteroSearchNotes,
    ZoteroGetItem,
    ZoteroGetItemCitation,
    ZoteroGetFulltext,
    ZoteroGetNotes,
    ZoteroGetAnnotations,
    ZoteroGetAttachments,
    ZoteroGetCollections,
    ZoteroListGroups,
    ZoteroGetCollectionItems,
    LatexCompile,
    PdfExtractFigures,
    RepoCloneAndSummarize,
    RepoFindModels,
    RepoExtractRequirements,
    RepoFindEntrypoints,
    RepoExtractIoShapes,
    RepoGetHealth,
    RepoFindExportPaths,
    RepoExtractConfigSchema,
    RepoDiffRequirements,
}

/// Whether a research tool has this name.
pub open spec fn is_research_tool_name(name: Seq<char>) -> bool {
    ||| name == "paper_search"@
    ||| name == "paper_get"@
    ||| name == "paper_citations"@
    ||| name == "paper_references"@
    ||| name == "zotero_search"@
    ||| name == "zotero_get_tags"@
    ||| name == "zotero_get_recent"@
    ||| name == "zotero_advanced_search"@
    ||| name == "zotero_grep_text"@
    ||| name == "zotero_search_notes"@
    ||| name == "zotero_get_item"@
    ||| name == "zotero_get_item_citation"@
    ||| name == "zotero_get_fulltext"@
    ||| name == "zotero_get_notes"@
    ||| name == "zotero_get_annotations"@
    ||| name == "zotero_get_attachments"@
    ||| name == "zotero_get_collections"@
    ||| name == "zotero_list_groups"@
    ||| name == "zotero_get_collection_items"@
    ||| name == "latex_compile"@
    ||| name == "pdf_extract_figures"@
    ||| name == "repo_clone_and_summarize"@
    ||| name == "repo_find_models"@
    ||| name == "repo_extract_requirements"@
    ||| name == "repo_find_entrypoints"@
    ||| name == "repo_extract_io_shapes"@
    ||| name == "repo_get_health"@
    ||| name == "repo_find_export_paths"@
    ||| name == "repo_extract_config_schema"@
    ||| name == "repo_diff_requirements"@
}

/// The operation a known tool name names.
pub open spec fn research_call_of(name: Seq<char>) -> ResearchToolCall {
    if name == "paper_search"@ {
        ResearchToolCall::PaperSearch
    } else if name == "paper_get"@ {
        ResearchToolCall::PaperGet
    } else if name == "paper_citations"@ {
        ResearchToolCall::PaperCitations
    } else if name == "paper_references"@ {
        ResearchToolCall::PaperReferences
    } else if name == "zotero_search"@ {
        ResearchToolCall::ZoteroSearch
    } else if name == "zotero_get_tags"@ {
        ResearchToolCall::ZoteroGetTags
    } else if name == "zotero_get_recent"@ {
        ResearchToolCall::ZoteroGetRecent
    } else if name == "zotero_advanced_search"@ {
        ResearchToolCall::ZoteroAdvancedSearch
    } else if name == "zotero_grep_text"@ {
        ResearchToolCall::ZoteroGrepText
    } else if name == "zotero_search_notes"@ {
        ResearchToolCall::ZoteroSearchNotes
    } else if name == "zotero_get_item"@ {
        ResearchToolCall::ZoteroGetItem
    } else if name == "zotero_get_item_citation"@ {
        ResearchToolCall::ZoteroGetItemCitation
    } else if name == "zotero_get_fulltext"@ {
        ResearchToolCall::ZoteroGetFulltext
    } else if name == "zotero_get_notes"@ {
        ResearchToolCall::ZoteroGetNotes
    } else if name == "zotero_get_annotations"@ {
        ResearchToolCall::ZoteroGetAnnotations
    } else if name == "zotero_get_attachments"@ {
        ResearchToolCall::ZoteroGetAttachments
    } else if name == "zotero_get_collections"@ {
        ResearchToolCall::ZoteroGetCollections
    } else if name == "zotero_list_groups"@ {
        ResearchToolCall::ZoteroListGroups
    } else if name == "zotero_get_collection_items"@ {
        ResearchToolCall::ZoteroGetCollectionItems
    } else if name == "latex_compile"@ {
        ResearchToolCall::LatexCompile
    } else if name == "pdf_extract_figures"@ {
        ResearchToolCall::PdfExtractFigures
    } else if name == "repo_clone_and_summarize"@ {
        ResearchToolCall::RepoCloneAndSummarize
    } else if name == "repo_find_models"@ {
        ResearchToolCall::RepoFindModels
    } else if name == "repo_extract_requirements"@ {
        ResearchToolCall::RepoExtractRequirements
    } else if name == "repo_find_entrypoints"@ {
        ResearchToolCall::RepoFindEntrypoints
    } else if name == "repo_extract_io_shapes"@ {
        ResearchToolCall::RepoExtractIoShapes
    } else if name == "repo_get_health"@ {
        ResearchToolCall::RepoGetHealth
    } else if name == "repo_find_export_paths"@ {
        ResearchToolCall::RepoFindExportPaths
    } else if name == "repo_extract_config_schema"@ {
        ResearchToolCall::RepoExtractConfigSchema
    } else {
        ResearchToolCall::RepoDiffRequirements
    }
}

/// The research operation a tool name names, or the error for an unknown name.
pub fn research_tool_call(tool_name: &str) -> (r: Result<ResearchToolCall, String>)
    ensures
        match r {
            Ok(op) => is_research_tool_name(tool_name@) && op == research_call_of(tool_name@),
            Err(e) => !is_research_tool_name(tool_name@) && e@ == "unknown research tool: "@ + tool_name@,
        },
{
    if str_eq(tool_name, "paper_search") {
        return Ok(ResearchToolCall::PaperSearch);
    }
    if str_eq(tool_name, "paper_get") {
        return Ok(ResearchToolCall::PaperGet);
    }
    if str_eq(tool_name, "paper_citations") {
        return Ok(ResearchToolCall::PaperCitations);
    }
    if str_eq(tool_name, "paper_references") {
        return Ok(ResearchToolCall::PaperReferences);
    }
    if str_eq(tool_name, "zotero_search") {
        return Ok(ResearchToolCall::ZoteroSearch);
    }
    if str_eq(tool_name, "zotero_get_tags") {
        return Ok(ResearchToolCall::ZoteroGetTags);
    }
    if str_eq(tool_name, "zotero_get_recent") {
        return Ok(ResearchToolCall::ZoteroGetRecent);
    }
    if str_eq(tool_name, "zotero_advanced_search") {
        return Ok(ResearchToolCall::ZoteroAdvancedSearch);
    }
    if str_eq(tool_name, "zotero_grep_text") {
        return Ok(ResearchToolCall::ZoteroGrepText);
    }
    if str_eq(tool_name, "zotero_search_notes") {
        return Ok(ResearchToolCall::ZoteroSearchNotes);
    }
    if str_eq(tool_name, "zotero_get_item") {
        return Ok(ResearchToolCall::ZoteroGetItem);
    }
    if str_eq(tool_name, "zotero_get_item_citation") {
        return Ok(ResearchToolCall::ZoteroGetItemCitation);
    }
    if str_eq(tool_name, "zotero_get_fulltext") {
        return Ok(ResearchToolCall::ZoteroGetFulltext);
    }
    if str_eq(tool_name, "zotero_get_notes") {
        return Ok(ResearchToolCall::ZoteroGetNotes);
    }
    if str_eq(tool_name, "zotero_get_annotations") {
        return Ok(ResearchToolCall::ZoteroGetAnnotations);
    }
    if str_eq(tool_name, "zotero_get_attachments") {
        return Ok(ResearchToolCall::ZoteroGetAttachments);
    }
    if str_eq(tool_name, "zotero_get_collections") {
        return Ok(ResearchToolCall::ZoteroGetCollections);
    }
    if str_eq(tool_name, "zotero_list_groups") {
        return Ok(ResearchToolCall::ZoteroListGroups);
    }
    if str_eq(tool_name, "zotero_get_collection_items") {
        return Ok(ResearchToolCall::ZoteroGetCollectionItems);
    }
    if str_eq(tool_name, "latex_compile") {
        return Ok(ResearchToolCall::LatexCompile);
    }
    if str_eq(tool_name, "pdf_extract_figures") {
        return Ok(ResearchToolCall::PdfExtractFigures);
    }
    if str_eq(tool_name, "repo_clone_and_summarize") {
        return Ok(ResearchToolCall::RepoCloneAndSummarize);
    }
    if str_eq(tool_name, "repo_find_models") {
        return Ok(ResearchToolCall::RepoFindModels);
    }
    if str_eq(tool_name, "repo_extract_requirements") {
        return Ok(ResearchToolCall::RepoExtractRequirements);
    }
    if str_eq(tool_name, "repo_find_entrypoints") {
        return Ok(ResearchToolCall::RepoFindEntrypoints);
    }
    if str_eq(tool_name, "repo_extract_io_shapes") {
        return Ok(ResearchToolCall::RepoExtractIoShapes);
    }
    if str_eq(tool_name, "repo_get_health") {
        return Ok(ResearchToolCall::RepoGetHealth);
    }
    if str_eq(tool_name, "repo_find_export_paths") {
        return Ok(ResearchToolCall::RepoFindExportPaths);
    }
    if str_eq(tool_name, "repo_extract_config_schema") {
        return Ok(ResearchToolCall::RepoExtractConfigSchema);
    }
    if str_eq(tool_name, "repo_diff_requirements") {
        return Ok(ResearchToolCall::RepoDiffRequirements);
    }
    let mut e = String::from_str("unknown research tool: ");
    e.append(tool_name);
    Err(e)
}

/// A knowledge-base tool's operation.
#[derive(Clone, Copy, Debug, PartialEq, Eq, Structural)]
pub enum KbToolCall {
    WriteCard,
    WriteOverview,
    SuggestTags,
    Status,
    Search,
    ReadCard,
    DeleteCard,
    WriteFile,
    ReadFile,
    Reset,
    ListCards,
}

/// Whether a knowledge-base tool has this name.
pub open spec fn is_kb_tool_name(name: Seq<char>) -> bool {
    ||| name == "kb_write_card"@
    ||| name == "kb_write_overview"@
    ||| name == "kb_suggest_tags"@
    ||| name == "kb_status"@
    ||| name == "kb_search"@
    ||| name == "kb_read_card"@
    ||| name == "kb_delete_card"@
    ||| name == "kb_write_file"@
    ||| name == "kb_read_file"@
    ||| name == "kb_reset"@
    ||| name == "kb_list_cards"@
}

/// The operation a known tool name names.
pub open spec fn kb_call_of(name: Seq<char>) -> KbToolCall {
    if name == "kb_write_card"@ {
        KbToolCall::WriteCard
    } else if name == "kb_write_overview"@ {
        KbToolCall::WriteOverview
    } else if name == "kb_suggest_tags"@ {
        KbToolCall::SuggestTags
    } else if name == "kb_status"@ {
        KbToolCall::Status
    } else if name == "kb_search"@ {
        KbToolCall::Search
    } else if name == "kb_read_card"@ {
        KbToolCall::ReadCard
    } else if name == "kb_delete_card"@ {
        KbToolCall::DeleteCard
    } else if name == "kb_write_file"@ {
        KbToolCall::WriteFile
    } else if name == "kb_read_file"@ {
        KbToolCall::ReadFile
    } else if name == "kb_reset"@ {
        KbToolCall::Reset
    } else {
        KbToolCall::ListCards
    }
}

/// The knowledge-base operation a tool name names, or the error for an unknown name.
pub fn kb_tool_call(tool_name: &str) -> (r: Result<KbToolCall, String>)
    ensures
        match r {
            Ok(op) => is_kb_tool_name(tool_name@) && op == kb_call_of(tool_name@),
            Err(e) => !is_kb_tool_name(tool_name@) && e@ == "unknown kb tool: "@ + tool_name@,
        },
{
    if str_eq(tool_name, "kb_write_card") {
        return Ok(KbToolCall::WriteCard);
    }
    if str_eq(tool_name, "kb_write_overview") {
        return Ok(KbToolCall::WriteOverview);
    }
    if str_eq(tool_name, "kb_suggest_tags") {
        return Ok(KbToolCall::SuggestTags);
    }
    if str_eq(tool_name, "kb_status") {
        return Ok(KbToolCall::Status);
    }
    if str_eq(tool_name, "kb_search") {
        return Ok(KbToolCall::Search);
    }
    if str_eq(tool_name, "kb_read_card") {
        return Ok(KbToolCall::ReadCard);
    }
    if str_eq(tool_name, "kb_delete_card") {
        return Ok(KbToolCall::DeleteCard);
    }
    if str_eq(tool_name, "kb_write_file") {
        return Ok(KbToolCall::WriteFile);
    }
    if str_eq(tool_name, "kb_read_file") {
        return Ok(KbToolCall::ReadFile);
    }
    if str_eq(tool_name, "kb_reset") {
        return Ok(KbToolCall::Reset);
    }
    if str_eq(tool_name, "kb_list_cards") {
        return Ok(KbToolCall::ListCards);
    }
    let mut e = String::from_str("unknown kb tool: ");
    e.append(tool_name);
    Err(e)
}

/// A dataset tool's operation (the Hugging Face and Kaggle dataset details are read as a dataset).
#[derive(Clone, Copy, Debug, PartialEq, Eq, Structural)]
pub enum DataToolCall {
    DatasetSearch,
    DatasetGet,
    DatasetListFiles,
    DatasetDownload,
    KaggleCompetitions,
    KaggleCompetitionListFiles,
    KaggleCompetitionDownload,
}

/// Whether a dataset tool has this name.
pub open spec fn is_data_tool_name(name: Seq<char>) -> bool {
    ||| name == "dataset_search"@
    ||| name == "dataset_get"@
    ||| name == "dataset_list_files"@
    ||| name == "dataset_download"@
    ||| name == "hf_dataset_info"@
    ||| name == "kaggle_dataset_info"@
    ||| name == "kaggle_competitions"@
    ||| name == "kaggle_competition_list_files"@
    ||| name == "kaggle_competition_download"@
}

/// The operation a known tool name names.
pub open spec fn data_call_of(name: Seq<char>) -> DataToolCall {
    if name == "dataset_search"@ {
        DataToolCall::DatasetSearch
    } else if name == "dataset_get"@ {
        DataToolCall::DatasetGet
    } else if name == "dataset_list_files"@ {
        DataToolCall::DatasetListFiles
    } else if name == "dataset_download"@ {
        DataToolCall::DatasetDownload
    } else if name == "hf_dataset_info"@ {
        DataToolCall::DatasetGet
    } else if name == "kaggle_dataset_info"@ {
        DataToolCall::DatasetGet
    } else if name == "kaggle_competitions"@ {
        DataToolCall::KaggleCompetitions
    } else if name == "kaggle_competition_list_files"@ {
        DataToolCall::KaggleCompetitionListFiles
    } else {
        DataToolCall::KaggleCompetitionDownload
    }
}

/// The dataset operation a tool name names, or the error for an unknown name.
pub fn data_tool_call(tool_name: &str) -> (r: Result<DataToolCall, String>)
    ensures
        match r {
            Ok(op) => is_data_tool_name(tool_name@) && op == data_call_of(tool_name@),
            Err(e) => !is_data_tool_name(tool_name@) && e@ == "unknown data tool: "@ + tool_name@,
        },
{
    if str_eq(tool_name, "dataset_search") {
        return Ok(DataToolCall::DatasetSearch);
    }
    if str_eq(tool_name, "dataset_get") {
        return Ok(DataToolCall::DatasetGet);
    }
    if str_eq(tool_name, "dataset_list_files") {
        return Ok(DataToolCall::DatasetListFiles);
    }
    if str_eq(tool_name, "dataset_download") {
        return Ok(DataToolCall::DatasetDownload);
    }
    if str_eq(tool_name, "hf_dataset_info") {
        return Ok(DataToolCall::DatasetGet);
    }
    if str_eq(tool_name, "kaggle_dataset_info") {
        return Ok(DataToolCall::DatasetGet);
    }
    if str_eq(tool_name, "kaggle_competitions") {
        return Ok(DataToolCall::KaggleCompetitions);
    }
    if str_eq(tool_name, "kaggle_competition_list_files") {
        return Ok(DataToolCall::KaggleCompetitionListFiles);
    }
    if str_eq(tool_name, "kaggle_competition_download") {
        return Ok(DataToolCall::KaggleCompetitionDownload);
    }
    let mut e = String::from_str("unknown data tool: ");
    e.append(tool_name);
    Err(e)
}

/// A knowledge-base reset goes ahead only when confirmed.
pub fn kb_reset_confirmation(confirm: bool) -> (r: Result<(), String>)
    ensures
        r is Ok <==> confirm,
        r matches Err(e) ==> e@ == "confirm must be true to reset the knowledge base"@,
{
    if !confirm {
        return Err(String::from_str("confirm must be true to reset the knowledge base"));
    }
    Ok(())
}

/// The answer to a bridged tool call that panicked.
pub fn internal_panic_message(panic_message: &str) -> (r: String)
    ensures
        r@ == "Internal panic: "@ + panic_message@,
{
    let mut r = String::from_str("Internal panic: ");
    r.append(panic_message);
    r
}

} // verus!
