//! Message content segments and how they render: markdown for display, plain
//! text for summaries, and content parts for model requests.
use vstd::prelude::*;
use vstd::string::StringExecFns;
use crate::contract::{ChatMessageContentPart, ChatMessageImageSource, PartView, part_views};
use crate::text::{is_blank_str, join_with, lemma_join_with_push, str_eq, trim};

verus! {

broadcast use vstd::string::group_string_axioms;

#[derive(Debug, Clone)]
pub enum ContentSegment {
    Text { id: String, text: String },
    Image {
        id: String,
        image_id: String,
        alt: Option<String>,
        width: Option<u32>,
        height: Option<u32>,
        mime_type: Option<String>,
        source: String,
        generation_prompt: Option<String>,
    },
    File {
        id: String,
        file_id: String,
        path: String,
        file_name: String,
        mime_type: String,
        size: u64,
    },
}

/// What rendering reads of a segment.
pub enum SegmentView {
    Text { text: Seq<char> },
    Image { image_id: Seq<char>, alt: Option<Seq<char>> },
    File,
}

impl View for ContentSegment {
    type V = SegmentView;

    open spec fn view(&self) -> SegmentView {
        match self {
            ContentSegment::Text { text, .. } => SegmentView::Text { text: text@ },
            ContentSegment::Image { image_id, alt, .. } => SegmentView::Image {
                image_id: image_id@,
                alt: match alt {
                    Some(a) => Some(a@),
                    None => None,
                },
            },
            ContentSegment::File { .. } => SegmentView::File,
        }
    }
}

pub open spec fn segment_views(s: Seq<ContentSegment>) -> Seq<SegmentView> {
    s.map_values(|c: ContentSegment| c@)
}

/// The address under which a stored chat image is referenced.
pub open spec fn chat_image_url(image_id: Seq<char>) -> Seq<char> {
    "chat-image://"@ + image_id
}

/// Markdown of one segment: text as it is, an image as a link to its chat
/// image address (never its file path), a file as nothing.
pub open spec fn markdown_of(s: SegmentView) -> Seq<char> {
    match s {
        SegmentView::Text { text } => text,
        SegmentView::Image { image_id, alt } => {
            let label = match alt {
                Some(a) => a,
                None => "image"@,
            };
            "!["@ + label + "]("@ + chat_image_url(image_id) + ")"@
        },
        SegmentView::File => Seq::empty(),
    }
}

/// The pieces joined by line breaks.
pub open spec fn join_lines(s: Seq<Seq<char>>) -> Seq<char> {
    join_with(s, "\n"@)
}

pub open spec fn markdown_pieces(s: Seq<SegmentView>) -> Seq<Seq<char>> {
    s.map_values(|v: SegmentView| markdown_of(v))
}

/// The texts of the non-blank text segments, in order.
pub open spec fn plain_pieces(s: Seq<SegmentView>) -> Seq<Seq<char>>
    decreases s.len(),
{
    if s.len() == 0 {
        Seq::empty()
    } else {
        let rest = plain_pieces(s.drop_last());
        match s.last() {
            SegmentView::Text { text } => if trim(text).len() > 0 {
                rest.push(text)
            } else {
                rest
            },
            _ => rest,
        }
    }
}

/// The plain text of a message: its non-blank texts, one per line.
pub open spec fn plain_text_of(s: Seq<SegmentView>) -> Seq<char> {
    join_lines(plain_pieces(s))
}

/// The note that follows an image part so that the model can refer back to it.
pub open spec fn reference_note(image_id: Seq<char>) -> Seq<char> {
    "[图片引用："@ + chat_image_url(image_id)
        + "，analyze_image / edit_image 等工具可直接使用该引用，请勿改写或编造]"@
}

/// Request parts of a user message: each non-blank text, and each image
/// followed by its reference note; files are left out.
pub open spec fn user_parts(s: Seq<SegmentView>) -> Seq<PartView>
    decreases s.len(),
{
    if s.len() == 0 {
        Seq::empty()
    } else {
        let rest = user_parts(s.drop_last());
        match s.last() {
            SegmentView::Text { text } => if trim(text).len() > 0 {
                rest.push(PartView::Text(text))
            } else {
                rest
            },
            SegmentView::Image { image_id, .. } => rest.push(PartView::ChatImage(image_id)).push(
                PartView::Text(reference_note(image_id)),
            ),
            SegmentView::File => rest,
        }
    }
}

/// Only user messages carry content parts.
pub open spec fn llm_parts(role: Seq<char>, s: Seq<SegmentView>) -> Seq<PartView> {
    if role == "user"@ {
        user_parts(s)
    } else {
        Seq::empty()
    }
}

impl ContentSegment {
    pub fn to_markdown(&self) -> (r: String)
        ensures
            r@ == markdown_of(self@),
    {
        match self {
            ContentSegment::Text { text, .. } => text.clone(),
            ContentSegment::Image { alt, image_id, .. } => {
                let mut out = String::from_str("![");
                match alt {
                    Some(a) => out.append(a.as_str()),
                    None => out.append("image"),
                }
                out.append("](");
                out.append("chat-image://");
                out.append(image_id.as_str());
                out.append(")");
                proof {
                    let label = match self@ {
                        SegmentView::Image { alt, .. } => match alt {
                            Some(a) => a,
                            None => "image"@,
                        },
                        _ => Seq::empty(),
                    };
                    assert(out@ =~= "!["@ + label + "]("@ + chat_image_url(image_id@) + ")"@);
                }
                out
            },
            ContentSegment::File { .. } => String::new(),
        }
    }
}

/// The segments' markdown, one segment per line.
pub fn segments_to_markdown(segments: &[ContentSegment]) -> (r: String)
    ensures
        r@ == join_lines(markdown_pieces(segment_views(segments@))),
{
    let ghost views = segment_views(segments@);
    let mut out = String::new();
    let n = segments.len();
    for i in 0..n
        invariant
            n == segments@.len(),
            views == segment_views(segments@),
            out@ == join_lines(markdown_pieces(views.take(i as int))),
    {
        let piece = segments[i].to_markdown();
        proof {
            lemma_join_with_push(markdown_pieces(views.take(i as int)), "\n"@, piece@);
            assert(markdown_pieces(views.take(i + 1)) =~= markdown_pieces(views.take(i as int)).push(
                piece@,
            ));
        }
        if i > 0 {
            out.append("\n");
        }
        out.append(piece.as_str());
    }
    proof {
        assert(views.take(n as int) =~= views);
    }
    out
}

pub proof fn lemma_plain_pieces_step(s: Seq<SegmentView>, i: int)
    requires
        0 <= i < s.len(),
    ensures
        plain_pieces(s.take(i + 1)) == match s[i] {
            SegmentView::Text { text } => if trim(text).len() > 0 {
                plain_pieces(s.take(i)).push(text)
            } else {
                plain_pieces(s.take(i))
            },
            _ => plain_pieces(s.take(i)),
        },
{
    assert(s.take(i + 1).drop_last() =~= s.take(i));
}

pub proof fn lemma_user_parts_step(s: Seq<SegmentView>, i: int)
    requires
        0 <= i < s.len(),
    ensures
        user_parts(s.take(i + 1)) == match s[i] {
            SegmentView::Text { text } => if trim(text).len() > 0 {
                user_parts(s.take(i)).push(PartView::Text(text))
            } else {
                user_parts(s.take(i))
            },
            SegmentView::Image { image_id, .. } => user_parts(s.take(i)).push(
                PartView::ChatImage(image_id),
            ).push(PartView::Text(reference_note(image_id))),
            SegmentView::File => user_parts(s.take(i)),
        },
{
    assert(s.take(i + 1).drop_last() =~= s.take(i));
}

/// The non-blank texts of the segments, one per line.
pub fn segments_to_plain_text(segments: &[ContentSegment]) -> (r: String)
    ensures
        r@ == plain_text_of(segment_views(segments@)),
{
    let ghost views = segment_views(segments@);
    let mut out = String::new();
    let mut any = false;
    let n = segments.len();
    for i in 0..n
        invariant
            n == segments@.len(),
            views == segment_views(segments@),
            out@ == join_lines(plain_pieces(views.take(i as int))),
            any == (plain_pieces(views.take(i as int)).len() > 0),
    {
        proof {
            lemma_plain_pieces_step(views, i as int);
        }
        match &segments[i] {
            ContentSegment::Text { text, .. } => {
                if !is_blank_str(text.as_str()) {
                    proof {
                        lemma_join_with_push(plain_pieces(views.take(i as int)), "\n"@, text@);
                    }
                    if any {
                        out.append("\n");
                    }
                    out.append(text.as_str());
                    any = true;
                }
            },
            _ => {},
        }
    }
    proof {
        assert(views.take(n as int) =~= views);
    }
    out
}

/// The note placed after an image part of a model request.
pub fn chat_image_reference_note(image_id: &str) -> (r: String)
    ensures
        r@ == reference_note(image_id@),
{
    let mut out = String::from_str("[图片引用：");
    out.append("chat-image://");
    out.append(image_id);
    out.append("，analyze_image / edit_image 等工具可直接使用该引用，请勿改写或编造]");
    proof {
        assert(out@ =~= reference_note(image_id@));
    }
    out
}

/// The content parts a message of `role` contributes to a model request.
pub fn segments_to_llm_content_parts(role: &str, segments: &[ContentSegment]) -> (r: Vec<
    ChatMessageContentPart,
>)
    ensures
        part_views(r@) == llm_parts(role@, segment_views(segments@)),
{
    let mut parts: Vec<ChatMessageContentPart> = Vec::new();
    if !str_eq(role, "user") {
        assert(part_views(parts@) =~= Seq::<PartView>::empty());
        return parts;
    }
    let ghost views = segment_views(segments@);
    let n = segments.len();
    for i in 0..n
        invariant
            n == segments@.len(),
            views == segment_views(segments@),
            part_views(parts@) == user_parts(views.take(i as int)),
    {
        proof {
            lemma_user_parts_step(views, i as int);
        }
        let ghost before = parts@;
        match &segments[i] {
            ContentSegment::Text { text, .. } => {
                if !is_blank_str(text.as_str()) {
                    parts.push(ChatMessageContentPart::Text { text: text.clone() });
                    assert(part_views(parts@) =~= part_views(before).push(PartView::Text(text@)));
                }
            },
            ContentSegment::Image { image_id, .. } => {
                parts.push(
                    ChatMessageContentPart::Image {
                        source: ChatMessageImageSource::ChatImage { image_id: image_id.clone() },
                    },
                );
                let note = chat_image_reference_note(image_id.as_str());
                parts.push(ChatMessageContentPart::Text { text: note });
                assert(part_views(parts@) =~= part_views(before).push(
                    PartView::ChatImage(image_id@),
                ).push(PartView::Text(reference_note(image_id@))));
            },
            ContentSegment::File { .. } => {},
        }
    }
    proof {
        assert(views.take(n as int) =~= views);
    }
    parts
}


/// The addresses of the image segments whose files are missing, in order;
/// `present[i]` says whether the file of segment `i` was found.
pub open spec fn missing_images(s: Seq<SegmentView>, present: Seq<bool>) -> Seq<Seq<char>>
    decreases s.len(),
{
    if s.len() == 0 {
        Seq::empty()
    } else {
        let rest = missing_images(s.drop_last(), present);
        match s.last() {
            SegmentView::Image { image_id, .. } => if present[s.len() - 1] {
                rest
            } else {
                rest.push(chat_image_url(image_id))
            },
            _ => rest,
        }
    }
}

/// The message refusing a message whose images are gone.
pub open spec fn missing_images_message(missing: Seq<Seq<char>>) -> Seq<char> {
    "图片已失效，请重新粘贴上传："@ + join_with(missing, "、"@)
}

/// Checks, before a message is stored, that every image it references is
/// still on disk: `present[i]` says whether the file of segment `i` was
/// found. Refuses the message, listing every missing image, when any is.
pub fn check_chat_image_segments(segments: &[ContentSegment], present: &Vec<bool>) -> (r: Result<
    (),
    String,
>)
    requires
        present@.len() == segments@.len(),
    ensures
        ({
            let missing = missing_images(segment_views(segments@), present@);
            if missing.len() == 0 {
                r is Ok
            } else {
                r is Err && r->Err_0@ == missing_images_message(missing)
            }
        }),
{
    let ghost views = segment_views(segments@);
    let mut list = String::new();
    let mut count: usize = 0;
    let n = segments.len();
    proof {
        assert(views.take(0) =~= Seq::<SegmentView>::empty());
    }
    for i in 0..n
        invariant
            n == segments@.len(),
            present@.len() == n,
            views == segment_views(segments@),
            count == missing_images(views.take(i as int), present@).len(),
            count <= i,
            list@ == join_with(missing_images(views.take(i as int), present@), "、"@),
    {
        proof {
            assert(views.take(i + 1).drop_last() =~= views.take(i as int));
            assert(views.take(i + 1).last() == segments@[i as int]@);
        }
        match &segments[i] {
            ContentSegment::Image { image_id, .. } => {
                if !present[i] {
                    let mut url = String::from_str("chat-image://");
                    url.append(image_id.as_str());
                    proof {
                        lemma_join_with_push(
                            missing_images(views.take(i as int), present@),
                            "、"@,
                            url@,
                        );
                    }
                    if count > 0 {
                        list.append("、");
                    }
                    list.append(url.as_str());
                    count = count + 1;
                }
            },
            _ => {},
        }
    }
    proof {
        assert(views.take(n as int) =~= views);
    }
    if count == 0 {
        Ok(())
    } else {
        let mut msg = String::from_str("图片已失效，请重新粘贴上传：");
        msg.append(list.as_str());
        Err(msg)
    }
}

} // verus!
