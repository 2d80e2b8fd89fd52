//! The remote service at its boundary: what it is asked, what it answers,
//! and how an answer becomes posts of the domain model.
//!
//! The answers are held as plain values, as far as the jobs read them. A
//! record that did not decode as a post is held as `None`.

use vstd::prelude::*;
use crate::model::{Post, PostImage, PostImageView, PostView};

verus! {

/// One call to the remote service, with its parameters.
#[derive(Debug, PartialEq, Eq)]
pub enum RemoteCall {
    Login { identifier: String, password: String },
    CreatePost { text: String },
    GetTimeline { limit: u8 },
    GetAuthorFeed { actor: String, include_pins: bool, limit: u8 },
    GetProfile { actor: String },
    GetPostThread { uri: String, depth: u16, parent_height: u16 },
    GetLikes { uri: String, cid: String },
    FetchBytes { url: String },
}

/// The author of a post, as the service describes them.
#[derive(Debug, PartialEq, Eq)]
pub struct RemoteAuthor {
    pub handle: String,
    pub display_name: Option<String>,
    pub avatar: Option<String>,
}

/// The record of a post.
#[derive(Debug, PartialEq, Eq)]
pub struct PostRecord {
    pub text: String,
    pub created_at: String,
}

/// An image of a post, as the service describes it.
#[derive(Debug, PartialEq, Eq)]
pub struct RemoteImage {
    pub thumb: String,
    pub fullsize: String,
    pub alt: String,
}

/// A record that a post quotes.
#[derive(Debug, PartialEq, Eq)]
pub struct QuotedRecord {
    pub uri: String,
    pub cid: String,
    /// The quoted record as a post, or `None` if it did not decode as one.
    pub value: Option<PostRecord>,
    pub author: RemoteAuthor,
    pub like_count: Option<i64>,
    pub repost_count: Option<i64>,
}

/// What a post embeds.
#[derive(Debug, PartialEq, Eq)]
pub enum RemoteEmbed {
    /// Images.
    Images { images: Vec<RemoteImage> },
    /// Another record. `None` stands for one that is no plain record: one
    /// that was not found, is blocked or detached, or is no post at all.
    Record { record: Option<QuotedRecord> },
    /// Anything else: a video, a link card, a record with media, or
    /// something that this client does not know.
    Other,
}

/// A post, as the service describes it.
#[derive(Debug, PartialEq, Eq)]
pub struct RemotePost {
    pub uri: String,
    pub cid: String,
    /// The record as a post, or `None` if it did not decode as one.
    pub record: Option<PostRecord>,
    pub author: RemoteAuthor,
    pub like_count: Option<i64>,
    pub repost_count: Option<i64>,
    pub embed: Option<RemoteEmbed>,
}

/// A profile, as the service describes it.
#[derive(Debug, PartialEq, Eq)]
pub struct RemoteProfile {
    pub display_name: Option<String>,
    pub description: Option<String>,
    pub avatar: Option<String>,
    pub followers_count: Option<i64>,
    pub follows_count: Option<i64>,
    pub posts_count: Option<i64>,
}

/// One of those who liked a post.
#[derive(Debug, PartialEq, Eq)]
pub struct RemoteLiker {
    pub handle: String,
    pub display_name: Option<String>,
    pub description: Option<String>,
    pub avatar: Option<String>,
}

/// The thread under a post.
#[derive(Debug, PartialEq, Eq)]
pub enum RemoteThread {
    /// The post with its direct replies. A reply that is no post, because
    /// it was not found or is blocked, is held as `None`.
    Found { post: RemotePost, replies: Option<Vec<Option<RemotePost>>> },
    /// The post was not found or is blocked.
    Unavailable,
}

/// What the remote service answered to a call that succeeded.
#[derive(Debug, PartialEq, Eq)]
pub enum RemoteReply {
    LoggedIn,
    PostCreated,
    Feed { posts: Vec<RemotePost> },
    Profile { profile: RemoteProfile },
    Thread { thread: RemoteThread },
    Likes { likes: Vec<RemoteLiker> },
    Bytes { data: Vec<u8> },
}

/// Why an answer could not become a message to the rendering loop.
#[derive(Debug, Clone, Copy, PartialEq, Eq, Structural)]
pub enum ShapeError {
    /// The record of a post did not decode as a post.
    PostRecord,
    /// The record that a post quotes did not decode as a post.
    QuotedRecord,
    /// The thread that was asked for is not available.
    ThreadUnavailable,
    /// The answer belongs to another kind of call.
    UnexpectedReply,
}

/// The text of an optional string, or `default` where there is none.
pub open spec fn text_or(text: Option<String>, default: Seq<char>) -> Seq<char> {
    match text {
        Some(s) => s@,
        None => default,
    }
}

/// An optional count, or zero where there is none.
pub open spec fn count_or_zero(count: Option<i64>) -> i64 {
    match count {
        Some(n) => n,
        None => 0,
    }
}

/// The image of the domain model that stands for `image`.
pub open spec fn image_of(image: RemoteImage) -> PostImageView {
    PostImageView { thumbnail_url: image.thumb@, url: image.fullsize@, alt: image.alt@ }
}

/// The images that `post` embeds: those of an image embed, in order, and
/// none for any other embed.
pub open spec fn images_of(post: RemotePost) -> Seq<PostImageView> {
    match post.embed {
        Some(RemoteEmbed::Images { images }) => Seq::new(
            images@.len(),
            |i: int| image_of(images@[i]),
        ),
        _ => Seq::empty(),
    }
}

/// The post that stands for a quoted record with the record `value`.
pub open spec fn quoted_post_of(quoted: QuotedRecord, value: PostRecord) -> PostView {
    PostView {
        uri: quoted.uri@,
        cid: quoted.cid@,
        content: value.text@,
        author: quoted.author.handle@,
        display_name: text_or(quoted.author.display_name, Seq::empty()),
        avatar_img: text_or(quoted.author.avatar, Seq::empty()),
        date: value.created_at@,
        like_count: count_or_zero(quoted.like_count),
        repost_count: count_or_zero(quoted.repost_count),
        embeds: Seq::empty(),
        quoted_post: None,
    }
}

/// The post that `post` quotes, if it quotes a plain record; an error if
/// that record is no post.
pub open spec fn quote_of(post: RemotePost) -> Result<Option<PostView>, ShapeError> {
    match post.embed {
        Some(RemoteEmbed::Record { record: Some(quoted) }) => match quoted.value {
            Some(value) => Ok(Some(quoted_post_of(quoted, value))),
            None => Err(ShapeError::QuotedRecord),
        },
        _ => Ok(None),
    }
}

/// The post of the domain model that stands for `post`; an error if its
/// record, or the record it quotes, is no post.
pub open spec fn post_of(post: RemotePost) -> Result<PostView, ShapeError> {
    match post.record {
        None => Err(ShapeError::PostRecord),
        Some(record) => match quote_of(post) {
            Err(e) => Err(e),
            Ok(quoted) => Ok(
                PostView {
                    uri: post.uri@,
                    cid: post.cid@,
                    content: record.text@,
                    author: post.author.handle@,
                    display_name: text_or(post.author.display_name, Seq::empty()),
                    avatar_img: text_or(post.author.avatar, Seq::empty()),
                    date: record.created_at@,
                    like_count: count_or_zero(post.like_count),
                    repost_count: count_or_zero(post.repost_count),
                    embeds: images_of(post),
                    quoted_post: match quoted {
                        Some(q) => Some(Box::new(q)),
                        None => None,
                    },
                },
            ),
        },
    }
}

/// A post that stands for an answer of the service nests at most one
/// post: what it quotes quotes nothing.
pub proof fn law_quote_depth(post: RemotePost)
    ensures
        post_of(post) matches Ok(view) ==> view.nesting() <= 1 && (view.quoted_post matches Some(
            quoted,
        ) ==> quoted.quoted_post is None && quoted.nesting() == 0),
{
    reveal_with_fuel(PostView::nesting, 3);
}

/// The text of `text`, or a copy of `default` where there is none.
pub fn text_or_default(text: &Option<String>, default: &str) -> (r: String)
    ensures
        r@ == text_or(*text, default@),
{
    match text {
        Some(s) => s.clone(),
        None => default.to_owned(),
    }
}

/// The count, or zero where there is none.
pub fn count_or_default(count: &Option<i64>) -> (r: i64)
    ensures
        r == count_or_zero(*count),
{
    match count {
        Some(n) => *n,
        None => 0,
    }
}

/// The post that `post_view` quotes.
///
/// Only an embedded plain record counts as a quotation. The quoted post
/// carries no images and no quotation of its own: nesting ends there.
pub fn extract_quote_reply(post_view: &RemotePost) -> (r: Result<Option<Post>, ShapeError>)
    ensures
        match r {
            Ok(quoted) => quote_of(*post_view) == Ok::<Option<PostView>, ShapeError>(
                quoted.deep_view(),
            ),
            Err(e) => quote_of(*post_view) == Err::<Option<PostView>, ShapeError>(e),
        },
{
    if let Some(RemoteEmbed::Record { record: Some(quoted) }) = &post_view.embed {
        match &quoted.value {
            Some(value) => {
                let post = Post {
                    uri: quoted.uri.clone(),
                    cid: quoted.cid.clone(),
                    content: value.text.clone(),
                    author: quoted.author.handle.clone(),
                    display_name: text_or_default(&quoted.author.display_name, ""),
                    avatar_img: text_or_default(&quoted.author.avatar, ""),
                    date: value.created_at.clone(),
                    like_count: count_or_default(&quoted.like_count),
                    repost_count: count_or_default(&quoted.repost_count),
                    embeds: Vec::new(),
                    quoted_post: None,
                };
                proof {
                    reveal_strlit("");
                    assert(""@ =~= Seq::<char>::empty());
                    assert(post.embeds.deep_view() =~= Seq::<PostImageView>::empty());
                }
                Ok(Some(post))
            },
            None => Err(ShapeError::QuotedRecord),
        }
    } else {
        Ok(None)
    }
}

/// The images that `post_view` embeds.
pub fn extract_images(post_view: &RemotePost) -> (r: Vec<PostImage>)
    ensures
        r.deep_view() == images_of(*post_view),
{
    let mut r: Vec<PostImage> = Vec::new();
    if let Some(RemoteEmbed::Images { images }) = &post_view.embed {
        let mut i: usize = 0;
        while i < images.len()
            invariant
                i <= images.len(),
                r@.len() == i,
                forall|j: int| 0 <= j < i ==> (#[trigger] r@[j])@ == image_of(images@[j]),
            decreases images.len() - i,
        {
            let image = &images[i];
            r.push(PostImage::new(image.thumb.clone(), image.fullsize.clone(), image.alt.clone()));
            i += 1;
        }
    }
    r
}

/// The post of the domain model that stands for `post_view`.
///
/// It fails if the record of the post, or the record that the post
/// quotes, is no post. A post that succeeds nests at most one post.
pub fn extract_post(post_view: &RemotePost) -> (r: Result<Post, ShapeError>)
    ensures
        match r {
            Ok(post) => post_of(*post_view) == Ok::<PostView, ShapeError>(post@),
            Err(e) => post_of(*post_view) == Err::<PostView, ShapeError>(e),
        },
        r matches Ok(post) ==> post@.nesting() <= 1,
{
    match &post_view.record {
        None => Err(ShapeError::PostRecord),
        Some(record) => {
            let images = extract_images(post_view);
            match extract_quote_reply(post_view) {
                Err(e) => Err(e),
                Ok(quoted) => {
                    let post = Post {
                        uri: post_view.uri.clone(),
                        cid: post_view.cid.clone(),
                        content: record.text.clone(),
                        author: post_view.author.handle.clone(),
                        display_name: text_or_default(&post_view.author.display_name, ""),
                        avatar_img: text_or_default(&post_view.author.avatar, ""),
                        date: record.created_at.clone(),
                        like_count: count_or_default(&post_view.like_count),
                        repost_count: count_or_default(&post_view.repost_count),
                        embeds: images,
                        quoted_post: match quoted {
                            Some(q) => Some(Box::new(q)),
                            None => None,
                        },
                    };
                    proof {
                        reveal_strlit("");
                        assert(""@ =~= Seq::<char>::empty());
                        law_quote_depth(*post_view);
                    }
                    Ok(post)
                },
            }
        },
    }
}

} // verus!
