//! The response interpreter: a model of a fetched post view with its
//! embedded content, and the deterministic rendering of both as display
//! text. Rendering is all-or-nothing: on any error no partial output is
//! returned.

use vstd::prelude::*;

use crate::textfmt::{dec_rep, escape_block_text, escape_nl, u64_to_dec};

verus! {

/// The author of a post: mandatory handle, optional display name.
#[derive(Debug, Clone, PartialEq, Eq)]
pub struct Author {
    pub handle: String,
    pub display_name: Option<String>,
}

/// A feed-post record: its text and its creation instant, kept as the
/// standard date-time string the server sent.
#[derive(Debug, Clone, PartialEq, Eq)]
pub struct FeedPost {
    pub text: String,
    pub created_at: String,
}

/// The record attached to a post view: the feed-post variant, or a record
/// of some other kind, named so that an error can report it.
#[derive(Debug, Clone, PartialEq, Eq)]
pub enum PostRecord {
    FeedPost(FeedPost),
    Other(String),
}

/// One image of an image-set embed: its alt text.
#[derive(Debug, Clone, PartialEq, Eq)]
pub struct ImageItem {
    pub alt: String,
}

/// An image-set embed.
#[derive(Debug, Clone, PartialEq, Eq)]
pub struct ImagesView {
    pub images: Vec<ImageItem>,
}

/// An external-link embed: the link's title and URI.
#[derive(Debug, Clone, PartialEq, Eq)]
pub struct ExternalView {
    pub title: String,
    pub uri: String,
}

/// A generator-feed reference inside a quoted-record embed: the feed's name
/// and its creator's handle.
#[derive(Debug, Clone, PartialEq, Eq)]
pub struct FeedGenView {
    pub display_name: String,
    pub creator_handle: String,
}

/// A quoted post that resolved to a view: its author and its record.
#[derive(Debug, Clone, PartialEq, Eq)]
pub struct QuotedPost {
    pub author: Author,
    pub value: PostRecord,
}

/// The inner variants of a quoted-record embed.
#[derive(Debug, Clone, PartialEq, Eq)]
pub enum QuotedRecord {
    Post(QuotedPost),
    NotFound,
    Blocked,
    Generator(FeedGenView),
}

/// The media half of a quoted-record-with-media embed.
#[derive(Debug, Clone, PartialEq, Eq)]
pub enum MediaView {
    Images(ImagesView),
    External(ExternalView),
}

/// The embed attached to a post view.
#[derive(Debug, Clone, PartialEq, Eq)]
pub enum EmbedView {
    Images(ImagesView),
    External(ExternalView),
    Quoted(QuotedRecord),
    QuotedWithMedia(MediaView),
}

/// A fetched post view.
#[derive(Debug, Clone, PartialEq, Eq)]
pub struct PostView {
    pub author: Author,
    pub record: PostRecord,
    pub embed: Option<EmbedView>,
}

/// Failures of rendering.
#[derive(Debug, Clone, PartialEq, Eq)]
pub enum FormatError {
    /// The record was not a feed post; carries the offending kind.
    UnexpectedRecordKind(String),
    /// The post's creation instant did not parse.
    BadTimestamp,
}

/// Whether the given creation instant parses as a standard date-time
/// string; success depends on the string alone.
pub uninterp spec fn spec_rfc3339_parses(s: Seq<char>) -> bool;

/// Relies on chrono's `DateTime::parse_from_rfc3339`, whose success depends
/// on the input string alone, then on conversion to the machine's local
/// time zone and `format("%Y-%m-%d %I:%M:%S %P")`; the formatted text
/// depends on the machine's time zone, so nothing is stated of it.
#[verifier::external_body]
fn format_local_timestamp(created_at: &str) -> (r: Option<String>)
    ensures
        r is Some <==> spec_rfc3339_parses(created_at@),
{
    match chrono::DateTime::parse_from_rfc3339(created_at) {
        Ok(dt) => {
            let local: chrono::DateTime<chrono::Local> = chrono::DateTime::from(dt);
            Some(local.format("%Y-%m-%d %I:%M:%S %P").to_string())
        },
        Err(_) => None,
    }
}

/// The name shown for an author: the display name, or the handle when the
/// display name is absent.
pub open spec fn author_display(a: Author) -> Seq<char> {
    match a.display_name {
        Some(d) => d@,
        None => a.handle@,
    }
}

/// The header line of a rendered post, from already-formatted local
/// timestamp text.
pub open spec fn content_line(
    display: Seq<char>,
    handle: Seq<char>,
    ts: Seq<char>,
    text: Seq<char>,
) -> Seq<char> {
    "["@ + ts + "] "@ + display + " ("@ + handle + "): "@ + text
}

/// A header line rendered from this author and record, with some formatted
/// local timestamp.
pub open spec fn content_renders(author: Author, rec: FeedPost, s: Seq<char>) -> bool {
    &&& spec_rfc3339_parses(rec.created_at@)
    &&& exists|ts: Seq<char>|
        s == content_line(author_display(author), author.handle@, ts, rec.text@)
}

/// One rendered image line: 1-based index and alt text, with a fixed marker
/// when the alt text is empty.
pub open spec fn image_line(idx1: nat, alt: Seq<char>) -> Seq<char> {
    "- Image "@ + dec_rep(idx1) + " alt text: "@ + (if alt.len() == 0 {
        "<no alt text>"@
    } else {
        escape_nl(alt)
    })
}

/// The first `i` image lines, joined by a newline and a tab.
pub open spec fn images_prefix(alts: Seq<Seq<char>>, i: int) -> Seq<char>
    decreases i,
{
    if i <= 0 {
        Seq::empty()
    } else if i == 1 {
        image_line(1, alts[0])
    } else {
        images_prefix(alts, i - 1) + "\n\t"@ + image_line(i as nat, alts[i - 1])
    }
}

/// The rendered block of an image-set embed.
pub open spec fn spec_images_block(v: ImagesView) -> Seq<char> {
    images_prefix(v.images@.map_values(|im: ImageItem| im.alt@), v.images@.len() as int)
}

/// The rendered line of an external-link embed.
pub open spec fn spec_external_line(e: ExternalView) -> Seq<char> {
    "- Links to "@ + e.title@ + " ("@ + e.uri@ + ")"@
}

/// The rendered line of a generator-feed reference.
pub open spec fn spec_generator_line(g: FeedGenView) -> Seq<char> {
    "- Embeds feed "@ + g.display_name@ + " by "@ + g.creator_handle@
}

/// The rendered block of the media half of an embed.
pub open spec fn spec_media_block(m: MediaView) -> Seq<char> {
    match m {
        MediaView::Images(v) => spec_images_block(v),
        MediaView::External(e) => spec_external_line(e),
    }
}

/// A quoted-record embed rendered to `s`.
pub open spec fn quoted_renders(q: QuotedRecord, s: Seq<char>) -> bool {
    match q {
        QuotedRecord::Post(qp) => match qp.value {
            PostRecord::FeedPost(rec) => content_renders(qp.author, rec, s),
            PostRecord::Other(_) => false,
        },
        QuotedRecord::NotFound => s == "Couldn't find embed"@,
        QuotedRecord::Blocked => s == "Blocked by the embed"@,
        QuotedRecord::Generator(g) => s == spec_generator_line(g),
    }
}

/// The error a quoted-record embed yields, when it yields one.
pub open spec fn quoted_fails(q: QuotedRecord, e: FormatError) -> bool {
    match q {
        QuotedRecord::Post(qp) => match qp.value {
            PostRecord::FeedPost(rec) => e is BadTimestamp && !spec_rfc3339_parses(
                rec.created_at@,
            ),
            PostRecord::Other(kind) => e matches FormatError::UnexpectedRecordKind(k) && k@
                == kind@,
        },
        _ => false,
    }
}

/// The fixed header of a rendered embed block.
pub open spec fn embed_header() -> Seq<char> {
    "\n\tembeds:\n\t"@
}

/// An embed rendered to `s`, not counting the fixed embed header.
pub open spec fn embed_renders(e: EmbedView, s: Seq<char>) -> bool {
    match e {
        EmbedView::Images(v) => s == spec_images_block(v),
        EmbedView::External(x) => s == spec_external_line(x),
        EmbedView::Quoted(q) => quoted_renders(q, s),
        EmbedView::QuotedWithMedia(m) => s == spec_media_block(m),
    }
}

/// The error an embed yields, when it yields one.
pub open spec fn embed_fails(e: EmbedView, err: FormatError) -> bool {
    match e {
        EmbedView::Quoted(q) => quoted_fails(q, err),
        _ => false,
    }
}

/// The tail of a rendered post: empty without an embed, otherwise the fixed
/// embed header followed by the embed's own lines.
pub open spec fn embed_tail(e: Option<EmbedView>, tail: Seq<char>) -> bool {
    match e {
        Some(em) => exists|inner: Seq<char>|
            #![trigger embed_renders(em, inner)]
            tail == embed_header() + inner && embed_renders(em, inner),
        None => tail == Seq::<char>::empty(),
    }
}

/// A whole post view rendered to `s`: the header line, then the embed tail.
pub open spec fn post_renders(p: PostView, s: Seq<char>) -> bool {
    match p.record {
        PostRecord::FeedPost(rec) => exists|head: Seq<char>, tail: Seq<char>|
            #![trigger content_renders(p.author, rec, head), embed_tail(p.embed, tail)]
            {
                &&& s == head + tail
                &&& content_renders(p.author, rec, head)
                &&& embed_tail(p.embed, tail)
            },
        PostRecord::Other(_) => false,
    }
}

/// The error a post view yields when it cannot be rendered: a non-feed-post
/// record reports its kind; otherwise a bad creation instant, first of the
/// post itself, then of a quoted post inside the embed.
pub open spec fn post_render_fails(p: PostView, err: FormatError) -> bool {
    match p.record {
        PostRecord::Other(kind) => err matches FormatError::UnexpectedRecordKind(k) && k@
            == kind@,
        PostRecord::FeedPost(rec) => {
            ||| !spec_rfc3339_parses(rec.created_at@) && err is BadTimestamp
            ||| spec_rfc3339_parses(rec.created_at@) && (p.embed matches Some(e) && embed_fails(
                e,
                err,
            ))
        },
    }
}

/// Render the header line from already-formatted timestamp text.
pub fn render_content(author: &Author, rec: &FeedPost, ts: &str) -> (s: String)
    ensures
        s@ == content_line(author_display(*author), author.handle@, ts@, rec.text@),
{
    let mut s = String::from_str("[");
    s.append(ts);
    s.append("] ");
    match &author.display_name {
        Some(d) => s.append(d.as_str()),
        None => s.append(author.handle.as_str()),
    }
    s.append(" (");
    s.append(author.handle.as_str());
    s.append("): ");
    s.append(rec.text.as_str());
    s
}

/// Render the header line of a post: local timestamp, display name or
/// handle, handle, text. A record whose creation instant does not parse
/// cannot be rendered.
pub fn summarize_post_content(author: &Author, record: &FeedPost) -> (r: Result<
    String,
    FormatError,
>)
    ensures
        match r {
            Ok(s) => content_renders(*author, *record, s@),
            Err(e) => e is BadTimestamp && !spec_rfc3339_parses(record.created_at@),
        },
{
    match format_local_timestamp(record.created_at.as_str()) {
        Some(ts) => Ok(render_content(author, record, ts.as_str())),
        None => Err(FormatError::BadTimestamp),
    }
}

/// Render an image-set embed: one line per image, with its 1-based index
/// and its alt text or a fixed marker when the alt text is empty.
pub fn summarize_images(view: &ImagesView) -> (s: String)
    ensures
        s@ == spec_images_block(*view),
{
    let ghost alts = view.images@.map_values(|im: ImageItem| im.alt@);
    let mut out = String::new();
    let n = view.images.len();
    let mut i: usize = 0;
    while i < n
        invariant
            i <= n,
            n == view.images@.len(),
            alts == view.images@.map_values(|im: ImageItem| im.alt@),
            out@ == images_prefix(alts, i as int),
        decreases n - i,
    {
        if i > 0 {
            out.append("\n\t");
        }
        out.append("- Image ");
        let num = u64_to_dec((i as u64) + 1);
        out.append(num.as_str());
        out.append(" alt text: ");
        let alt = &view.images[i].alt;
        if alt.as_str().is_empty() {
            out.append("<no alt text>");
        } else {
            let esc = escape_block_text(alt.as_str());
            out.append(esc.as_str());
        }
        proof {
            assert(alts[i as int] == view.images@[i as int].alt@);
            assert(out@ =~= images_prefix(alts, i as int + 1));
        }
        i = i + 1;
    }
    out
}

/// Render an external-link embed as a single line with its title and URI.
pub fn summarize_external(external: &ExternalView) -> (s: String)
    ensures
        s@ == spec_external_line(*external),
{
    let mut s = String::from_str("- Links to ");
    s.append(external.title.as_str());
    s.append(" (");
    s.append(external.uri.as_str());
    s.append(")");
    s
}

/// Render the media half of a quoted-record-with-media embed.
pub fn summarize_media(media: &MediaView) -> (s: String)
    ensures
        s@ == spec_media_block(*media),
{
    match media {
        MediaView::Images(v) => summarize_images(v),
        MediaView::External(e) => summarize_external(e),
    }
}

/// Render the inner variant of a quoted-record embed: the quoted post's
/// header line, a fixed message for a missing or blocked quote, or the line
/// naming a referenced feed; a quoted record of any other kind is an error.
pub fn summarize_quoted_post(record: &QuotedRecord) -> (r: Result<String, FormatError>)
    ensures
        match r {
            Ok(s) => quoted_renders(*record, s@),
            Err(e) => quoted_fails(*record, e),
        },
{
    match record {
        QuotedRecord::Post(qp) => match &qp.value {
            PostRecord::FeedPost(rec) => summarize_post_content(&qp.author, rec),
            PostRecord::Other(kind) => Err(FormatError::UnexpectedRecordKind(kind.clone())),
        },
        QuotedRecord::NotFound => Ok(String::from_str("Couldn't find embed")),
        QuotedRecord::Blocked => Ok(String::from_str("Blocked by the embed")),
        QuotedRecord::Generator(g) => {
            let mut s = String::from_str("- Embeds feed ");
            s.append(g.display_name.as_str());
            s.append(" by ");
            s.append(g.creator_handle.as_str());
            Ok(s)
        },
    }
}

/// Render an embed block: the fixed embed header, then the lines of the
/// embed's variant.
pub fn summarize_post_embeds(embed: &EmbedView) -> (r: Result<String, FormatError>)
    ensures
        match r {
            Ok(s) => embed_tail(Some(*embed), s@),
            Err(e) => embed_fails(*embed, e),
        },
{
    let inner = match embed {
        EmbedView::Images(v) => summarize_images(v),
        EmbedView::External(x) => summarize_external(x),
        EmbedView::Quoted(q) => match summarize_quoted_post(q) {
            Ok(s) => s,
            Err(e) => {
                return Err(e);
            },
        },
        EmbedView::QuotedWithMedia(m) => summarize_media(m),
    };
    let mut s = String::from_str("\n\tembeds:\n\t");
    s.append(inner.as_str());
    proof {
        reveal_strlit("\n\tembeds:\n\t");
        assert(embed_renders(*embed, inner@));
        assert(s@ == embed_header() + inner@);
    }
    Ok(s)
}

/// Render a fetched post view: require that its record is a feed post,
/// render the header line, and append the embed block when an embed is
/// present. On any error nothing is returned.
pub fn get_formatted_post(post: &PostView) -> (r: Result<String, FormatError>)
    ensures
        match r {
            Ok(s) => post_renders(*post, s@),
            Err(e) => post_render_fails(*post, e),
        },
{
    match &post.record {
        PostRecord::FeedPost(rec) => {
            let content = match summarize_post_content(&post.author, rec) {
                Ok(c) => c,
                Err(e) => {
                    return Err(e);
                },
            };
            match &post.embed {
                Some(embed) => {
                    let tail = match summarize_post_embeds(embed) {
                        Ok(t) => t,
                        Err(e) => {
                            return Err(e);
                        },
                    };
                    let ghost head_v = content@;
                    let ghost tail_v = tail@;
                    let out = content.concat(tail.as_str());
                    proof {
                        assert(content_renders(post.author, *rec, head_v));
                        assert(embed_tail(post.embed, tail_v));
                        assert(out@ == head_v + tail_v);
                    }
                    Ok(out)
                },
                None => {
                    proof {
                        assert(content_renders(post.author, *rec, content@));
                        assert(embed_tail(post.embed, Seq::<char>::empty()));
                        assert(content@ + Seq::<char>::empty() =~= content@);
                    }
                    Ok(content)
                },
            }
        },
        PostRecord::Other(kind) => Err(FormatError::UnexpectedRecordKind(kind.clone())),
    }
}

} // verus!
