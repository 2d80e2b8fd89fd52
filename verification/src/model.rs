//! The domain model: content references, posts, images and profiles.
//!
//! These are plain values. Each has a view that replaces its strings and
//! vectors by sequences; contracts speak of the views.

use vstd::prelude::*;
use crate::keys::Key;

verus! {

/// A stable reference to one post: its address and the hash of its content.
#[derive(Debug, PartialEq, Eq, Hash)]
pub struct StrongRef {
    pub uri: String,
    /// The content hash in its canonical text form.
    pub cid: String,
}

/// The view of a [`StrongRef`].
pub struct StrongRefView {
    pub uri: Seq<char>,
    pub cid: Seq<char>,
}

impl View for StrongRef {
    type V = StrongRefView;

    open spec fn view(&self) -> StrongRefView {
        StrongRefView { uri: self.uri@, cid: self.cid@ }
    }
}

impl DeepView for StrongRef {
    type V = StrongRefView;

    open spec fn deep_view(&self) -> StrongRefView {
        self@
    }
}

impl Clone for StrongRef {
    fn clone(&self) -> (r: Self)
        ensures
            r == *self,
    {
        StrongRef { uri: self.uri.clone(), cid: self.cid.clone() }
    }
}

impl Key for StrongRef {
    fn same(&self, other: &Self) -> (b: bool) {
        self.uri == other.uri && self.cid == other.cid
    }
}

/// An image attached to a post.
#[derive(Debug, PartialEq, Eq, Hash)]
pub struct PostImage {
    pub thumbnail_url: String,
    pub url: String,
    pub alt: String,
}

/// The view of a [`PostImage`].
pub struct PostImageView {
    pub thumbnail_url: Seq<char>,
    pub url: Seq<char>,
    pub alt: Seq<char>,
}

impl View for PostImage {
    type V = PostImageView;

    open spec fn view(&self) -> PostImageView {
        PostImageView { thumbnail_url: self.thumbnail_url@, url: self.url@, alt: self.alt@ }
    }
}

impl DeepView for PostImage {
    type V = PostImageView;

    open spec fn deep_view(&self) -> PostImageView {
        self@
    }
}

impl Clone for PostImage {
    fn clone(&self) -> (r: Self)
        ensures
            r == *self,
    {
        PostImage {
            thumbnail_url: self.thumbnail_url.clone(),
            url: self.url.clone(),
            alt: self.alt.clone(),
        }
    }
}

impl PostImage {
    /// An image with its thumbnail address, its full address and its
    /// alternative text.
    pub fn new(thumb: String, url: String, alt: String) -> (r: Self)
        ensures
            r.thumbnail_url == thumb,
            r.url == url,
            r.alt == alt,
    {
        PostImage { thumbnail_url: thumb, url, alt }
    }
}

/// What is known of a user.
#[derive(Debug, PartialEq, Eq)]
pub struct UserProfile {
    pub handle: String,
    pub display_name: String,
    pub bio: String,
    pub avatar_uri: String,
    pub follower_count: i64,
    pub follow_count: i64,
    pub post_count: i64,
}

/// The view of a [`UserProfile`].
pub struct UserProfileView {
    pub handle: Seq<char>,
    pub display_name: Seq<char>,
    pub bio: Seq<char>,
    pub avatar_uri: Seq<char>,
    pub follower_count: i64,
    pub follow_count: i64,
    pub post_count: i64,
}

impl View for UserProfile {
    type V = UserProfileView;

    open spec fn view(&self) -> UserProfileView {
        UserProfileView {
            handle: self.handle@,
            display_name: self.display_name@,
            bio: self.bio@,
            avatar_uri: self.avatar_uri@,
            follower_count: self.follower_count,
            follow_count: self.follow_count,
            post_count: self.post_count,
        }
    }
}

impl DeepView for UserProfile {
    type V = UserProfileView;

    open spec fn deep_view(&self) -> UserProfileView {
        self@
    }
}

impl Clone for UserProfile {
    fn clone(&self) -> (r: Self)
        ensures
            r == *self,
    {
        UserProfile {
            handle: self.handle.clone(),
            display_name: self.display_name.clone(),
            bio: self.bio.clone(),
            avatar_uri: self.avatar_uri.clone(),
            follower_count: self.follower_count,
            follow_count: self.follow_count,
            post_count: self.post_count,
        }
    }
}

/// A post. A post may quote one other post, which it owns.
#[derive(Debug, PartialEq, Eq)]
pub struct Post {
    pub uri: String,
    pub cid: String,
    pub content: String,
    pub author: String,
    pub display_name: String,
    pub avatar_img: String,
    pub date: String,
    pub like_count: i64,
    pub repost_count: i64,
    pub embeds: Vec<PostImage>,
    pub quoted_post: Option<Box<Post>>,
}

/// The view of a [`Post`].
pub struct PostView {
    pub uri: Seq<char>,
    pub cid: Seq<char>,
    pub content: Seq<char>,
    pub author: Seq<char>,
    pub display_name: Seq<char>,
    pub avatar_img: Seq<char>,
    pub date: Seq<char>,
    pub like_count: i64,
    pub repost_count: i64,
    pub embeds: Seq<PostImageView>,
    pub quoted_post: Option<Box<PostView>>,
}

/// The view of a post, quoted post included.
pub open spec fn post_view(p: Post) -> PostView
    decreases p,
{
    PostView {
        uri: p.uri@,
        cid: p.cid@,
        content: p.content@,
        author: p.author@,
        display_name: p.display_name@,
        avatar_img: p.avatar_img@,
        date: p.date@,
        like_count: p.like_count,
        repost_count: p.repost_count,
        embeds: p.embeds.deep_view(),
        quoted_post: match p.quoted_post {
            Some(q) => Some(Box::new(post_view(*q))),
            None => None,
        },
    }
}

impl View for Post {
    type V = PostView;

    open spec fn view(&self) -> PostView {
        post_view(*self)
    }
}

impl DeepView for Post {
    type V = PostView;

    open spec fn deep_view(&self) -> PostView {
        post_view(*self)
    }
}

impl Clone for Post {
    fn clone(&self) -> (r: Self)
        ensures
            r@ == self@,
        decreases self,
    {
        let embeds = self.embeds.clone();
        Post {
            uri: self.uri.clone(),
            cid: self.cid.clone(),
            content: self.content.clone(),
            author: self.author.clone(),
            display_name: self.display_name.clone(),
            avatar_img: self.avatar_img.clone(),
            date: self.date.clone(),
            like_count: self.like_count,
            repost_count: self.repost_count,
            embeds,
            quoted_post: match &self.quoted_post {
                Some(q) => Some(Box::new((&**q).clone())),
                None => None,
            },
        }
    }
}

impl PostView {
    /// How many posts are nested in this one by quotation.
    pub open spec fn nesting(self) -> nat
        decreases self,
    {
        match self.quoted_post {
            Some(q) => 1 + q.nesting(),
            None => 0,
        }
    }
}

impl Post {
    /// The reference that identifies this post.
    pub fn strong_ref(&self) -> (r: StrongRef)
        ensures
            r@ == (StrongRefView { uri: self.uri@, cid: self.cid@ }),
    {
        StrongRef { uri: self.uri.clone(), cid: self.cid.clone() }
    }
}

} // verus!
