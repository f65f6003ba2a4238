use dispatcher_store::content::{segments_to_llm_content_parts, ContentSegment};

fn image_segment(image_id: &str) -> ContentSegment {
    ContentSegment::Image {
        id: "a3c2d6a8-7f1e-4c2b-9d0e-2b8f3c4d5e6f".to_string(),
        image_id: image_id.to_string(),
        alt: None,
        width: None,
        height: None,
        mime_type: Some("image/png".to_string()),
        source: "user_paste".to_string(),
        generation_prompt: None,
    }
}

#[test]
fn image_reference_note_is_only_added_for_user_role() {
    let segments = vec![image_segment("some-image-id")];

    assert!(segments_to_llm_content_parts("assistant", &segments).is_empty());
    assert!(segments_to_llm_content_parts("tool", &segments).is_empty());
    assert_eq!(segments_to_llm_content_parts("user", &segments).len(), 2);
}
