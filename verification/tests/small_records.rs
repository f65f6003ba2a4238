use dispatcher_store::content::{check_chat_image_segments, ContentSegment};
use dispatcher_store::python_runs::{code_block_index_from_sql, code_block_index_to_sql};
use dispatcher_store::session_summaries::{summary_reading, SessionSummaryRecord, SummaryReading};

fn image(id: &str) -> ContentSegment {
    ContentSegment::Image {
        id: format!("seg-{id}"),
        image_id: id.to_string(),
        alt: None,
        width: None,
        height: None,
        mime_type: None,
        source: "paste".to_string(),
        generation_prompt: None,
    }
}

#[test]
fn missing_images_are_all_listed() {
    let segments = vec![
        image("a"),
        ContentSegment::Text { id: "t".to_string(), text: "hi".to_string() },
        image("b"),
        image("c"),
    ];
    assert_eq!(check_chat_image_segments(&segments, &vec![true, false, true, true]), Ok(()));
    assert_eq!(
        check_chat_image_segments(&segments, &vec![false, true, true, false]),
        Err("图片已失效，请重新粘贴上传：chat-image://a、chat-image://c".to_string())
    );
}

#[test]
fn code_block_index_out_of_range_is_refused() {
    assert_eq!(code_block_index_from_sql(3), Some(3));
    assert_eq!(code_block_index_from_sql(-1), None);
    assert_eq!(code_block_index_from_sql(u32::MAX as i64 + 1), None);
    assert_eq!(code_block_index_to_sql(u32::MAX), u32::MAX as i64);
}

#[test]
fn stale_summary_is_dropped() {
    let rec = || SessionSummaryRecord {
        summary: "s".to_string(),
        covered_through_message_id: "m".to_string(),
    };
    assert!(matches!(summary_reading(None, true), SummaryReading::Absent));
    let valid = summary_reading(Some(rec()), true);
    assert!(!valid.deletes_row());
    assert_eq!(valid.into_record().unwrap().summary, "s");
    let stale = summary_reading(Some(rec()), false);
    assert!(stale.deletes_row());
    assert!(stale.into_record().is_none());
}
