use dispatcher_store::artifacts::ToolArtifactDraft;

#[test]
fn raw_artifact_preview_does_not_copy_an_unbounded_first_line() {
    let raw_output = "界".repeat(10_000);
    let artifact = ToolArtifactDraft::raw_tool_output("echo", &raw_output);

    assert!(artifact.preview.chars().count() <= 163);
    assert_eq!(artifact.content, raw_output);
    assert_eq!(artifact.char_count, 10_000);
}

use dispatcher_store::artifacts::{
    bounded_raw_artifact_content, bounded_raw_artifact_preview, MAX_RAW_TOOL_ARTIFACT_BYTES,
};

#[test]
fn oversized_output_is_cut_at_a_character_boundary_with_a_marker() {
    let raw = "界".repeat(MAX_RAW_TOOL_ARTIFACT_BYTES / 3 + 10);
    let (content, truncated) = bounded_raw_artifact_content(&raw);
    assert!(truncated);
    assert!(content.len() <= MAX_RAW_TOOL_ARTIFACT_BYTES);
    assert!(content.ends_with(&format!(
        "...（原始工具结果已截断；truncated=true, originalBytes={}, limitBytes={}）",
        raw.len(),
        MAX_RAW_TOOL_ARTIFACT_BYTES
    )));
    assert!(content.starts_with("界界界"));
}

#[test]
fn output_within_the_limit_is_kept_whole() {
    let raw = "line one\nline two";
    assert_eq!(bounded_raw_artifact_content(raw), (raw.to_string(), false));
}

#[test]
fn preview_keeps_at_most_three_non_blank_lines() {
    assert_eq!(bounded_raw_artifact_preview("a\n\n  b  \nc\nd\n"), "a / b / c...");
    assert_eq!(bounded_raw_artifact_preview("a\n b\n"), "a / b");
}
