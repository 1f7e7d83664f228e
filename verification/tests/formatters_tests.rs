use bsky_viewer::formatters::{
    get_formatted_post, summarize_external, summarize_images, summarize_media,
    summarize_post_content, summarize_post_embeds, summarize_quoted_post, Author, EmbedView,
    ExternalView, FeedGenView, FeedPost, FormatError, ImageItem, ImagesView, MediaView, PostRecord,
    PostView, QuotedPost, QuotedRecord,
};
use bsky_viewer::textfmt::{escape_block_text, u64_to_dec};

const CREATED_AT: &str = "2023-05-01T12:34:56.000Z";

fn local_ts(rfc3339: &str) -> String {
    let dt = chrono::DateTime::parse_from_rfc3339(rfc3339).unwrap();
    let local: chrono::DateTime<chrono::Local> = chrono::DateTime::from(dt);
    local.format("%Y-%m-%d %I:%M:%S %P").to_string()
}

fn alice() -> Author {
    Author {
        handle: String::from("alice"),
        display_name: None,
    }
}

fn hello_record() -> FeedPost {
    FeedPost {
        text: String::from("hello"),
        created_at: String::from(CREATED_AT),
    }
}

fn hello_post(embed: Option<EmbedView>) -> PostView {
    PostView {
        author: alice(),
        record: PostRecord::FeedPost(hello_record()),
        embed,
    }
}

#[test]
fn plain_post_renders_header_only() {
    let out = get_formatted_post(&hello_post(None)).unwrap();
    assert_eq!(out, format!("[{}] alice (alice): hello", local_ts(CREATED_AT)));
}

#[test]
fn display_name_replaces_handle_when_present() {
    let mut post = hello_post(None);
    post.author.display_name = Some(String::from("Alice Lastname"));
    let out = get_formatted_post(&post).unwrap();
    assert_eq!(
        out,
        format!("[{}] Alice Lastname (alice): hello", local_ts(CREATED_AT))
    );
}

#[test]
fn non_feed_post_record_is_an_error() {
    let post = PostView {
        author: alice(),
        record: PostRecord::Other(String::from("app.bsky.feed.like")),
        embed: None,
    };
    let r = get_formatted_post(&post);
    assert_eq!(
        r,
        Err(FormatError::UnexpectedRecordKind(String::from(
            "app.bsky.feed.like"
        )))
    );
}

#[test]
fn malformed_creation_instant_is_an_error() {
    let mut post = hello_post(None);
    if let PostRecord::FeedPost(rec) = &mut post.record {
        rec.created_at = String::from("yesterday-ish");
    }
    assert_eq!(get_formatted_post(&post), Err(FormatError::BadTimestamp));
}

#[test]
fn image_lines_carry_index_and_alt_text_marker() {
    let images = ImagesView {
        images: vec![
            ImageItem {
                alt: String::from("cat"),
            },
            ImageItem {
                alt: String::new(),
            },
        ],
    };
    let block = summarize_images(&images);
    let lines: Vec<&str> = block.split("\n\t").collect();
    assert_eq!(lines.len(), 2);
    assert_eq!(lines[0], "- Image 1 alt text: cat");
    assert_eq!(lines[1], "- Image 2 alt text: <no alt text>");

    let out = get_formatted_post(&hello_post(Some(EmbedView::Images(images)))).unwrap();
    assert_eq!(
        out,
        format!(
            "[{}] alice (alice): hello\n\tembeds:\n\t- Image 1 alt text: cat\n\t- Image 2 alt text: <no alt text>",
            local_ts(CREATED_AT)
        )
    );
}

#[test]
fn newlines_in_alt_text_stay_indented() {
    assert_eq!(escape_block_text("a\nb"), "a\n\t\tb");
    let images = ImagesView {
        images: vec![ImageItem {
            alt: String::from("line one\nline two"),
        }],
    };
    assert_eq!(
        summarize_images(&images),
        "- Image 1 alt text: line one\n\t\tline two"
    );
}

#[test]
fn external_link_renders_title_and_uri() {
    let ext = ExternalView {
        title: String::from("A page"),
        uri: String::from("https://example.com"),
    };
    assert_eq!(
        summarize_external(&ext),
        "- Links to A page (https://example.com)"
    );
    let out = get_formatted_post(&hello_post(Some(EmbedView::External(ext)))).unwrap();
    assert_eq!(
        out,
        format!(
            "[{}] alice (alice): hello\n\tembeds:\n\t- Links to A page (https://example.com)",
            local_ts(CREATED_AT)
        )
    );
}

#[test]
fn missing_quoted_record_renders_fixed_message() {
    let out =
        get_formatted_post(&hello_post(Some(EmbedView::Quoted(QuotedRecord::NotFound)))).unwrap();
    assert_eq!(
        out,
        format!(
            "[{}] alice (alice): hello\n\tembeds:\n\tCouldn't find embed",
            local_ts(CREATED_AT)
        )
    );
}

#[test]
fn blocked_quoted_record_renders_fixed_message() {
    let s = summarize_quoted_post(&QuotedRecord::Blocked).unwrap();
    assert_eq!(s, "Blocked by the embed");
}

#[test]
fn generator_reference_names_feed_and_creator() {
    let g = FeedGenView {
        display_name: String::from("What's Hot"),
        creator_handle: String::from("bob"),
    };
    let s = summarize_quoted_post(&QuotedRecord::Generator(g)).unwrap();
    assert_eq!(s, "- Embeds feed What's Hot by bob");
}

#[test]
fn quoted_feed_post_renders_its_own_header() {
    let quoted = QuotedRecord::Post(QuotedPost {
        author: Author {
            handle: String::from("carol"),
            display_name: Some(String::from("Carol")),
        },
        value: PostRecord::FeedPost(FeedPost {
            text: String::from("inner text"),
            created_at: String::from("2022-01-02T03:04:05.000Z"),
        }),
    });
    let s = summarize_quoted_post(&quoted).unwrap();
    assert_eq!(
        s,
        format!(
            "[{}] Carol (carol): inner text",
            local_ts("2022-01-02T03:04:05.000Z")
        )
    );
}

#[test]
fn quoted_non_feed_post_record_is_an_error() {
    let quoted = QuotedRecord::Post(QuotedPost {
        author: alice(),
        value: PostRecord::Other(String::from("app.bsky.graph.follow")),
    });
    let r = summarize_quoted_post(&quoted);
    assert_eq!(
        r,
        Err(FormatError::UnexpectedRecordKind(String::from(
            "app.bsky.graph.follow"
        )))
    );
    let post = hello_post(Some(EmbedView::Quoted(quoted)));
    assert_eq!(
        get_formatted_post(&post),
        Err(FormatError::UnexpectedRecordKind(String::from(
            "app.bsky.graph.follow"
        )))
    );
}

#[test]
fn media_embed_renders_its_inner_variant() {
    let media = MediaView::External(ExternalView {
        title: String::from("Clip"),
        uri: String::from("https://example.com/clip"),
    });
    assert_eq!(
        summarize_media(&media),
        "- Links to Clip (https://example.com/clip)"
    );
    let block = summarize_post_embeds(&EmbedView::QuotedWithMedia(media)).unwrap();
    assert_eq!(block, "\n\tembeds:\n\t- Links to Clip (https://example.com/clip)");
}

#[test]
fn header_renders_through_summarize_post_content() {
    let s = summarize_post_content(&alice(), &hello_record()).unwrap();
    assert_eq!(s, format!("[{}] alice (alice): hello", local_ts(CREATED_AT)));
}

#[test]
fn decimal_rendering_matches() {
    assert_eq!(u64_to_dec(0), "0");
    assert_eq!(u64_to_dec(9), "9");
    assert_eq!(u64_to_dec(10), "10");
    assert_eq!(u64_to_dec(1234567890), "1234567890");
}

#[test]
fn eleven_images_get_two_digit_indexes() {
    let images = ImagesView {
        images: (0..11)
            .map(|_| ImageItem {
                alt: String::new(),
            })
            .collect(),
    };
    let block = summarize_images(&images);
    let lines: Vec<&str> = block.split("\n\t").collect();
    assert_eq!(lines.len(), 11);
    assert_eq!(lines[10], "- Image 11 alt text: <no alt text>");
}
