//! The two closed sets of messages: what the rendering loop asks of the
//! network actor, and what the loop is told in return or tells itself.

use vstd::prelude::*;
use crate::model::{Post, PostView, StrongRef, StrongRefView, UserProfile, UserProfileView};

verus! {

/// A message to the rendering loop: the outcome of a job of the actor, or
/// a note that the loop left for its own next tick.
#[derive(Debug, PartialEq, Eq)]
pub enum RedskyUiMsg {
    LogInSucceededMsg(),
    PostSucceeed(),
    PrepareUserView { username: String },
    PrepareThreadView { thread_ref: StrongRef },
    CloseThreadView { thread_ref: StrongRef },
    NotifyImageLoaded { url: String, data: Vec<u8> },
    NotifyLikesLoaded { post_uri: StrongRef, likers: Vec<UserProfile> },
    NotifyPostAndRepliesLoaded { post: Post, replies: Vec<Post> },
    ShowUserProfile { profile: UserProfile },
    RefreshTimelineMsg { posts: Vec<Post> },
    ShowUserPostsMsg { username: String, posts: Vec<Post> },
    DropUserPostsMsg { username: String },
    PrepareImageView { img_uri: String },
    ShowBigImageView { img_uri: String },
    CloseBigImageView { img_uri: String },
    ShowErrorMsg { error: String },
}

/// The view of a [`RedskyUiMsg`].
pub enum RedskyUiMsgView {
    LogInSucceededMsg,
    PostSucceeed,
    PrepareUserView { username: Seq<char> },
    PrepareThreadView { thread_ref: StrongRefView },
    CloseThreadView { thread_ref: StrongRefView },
    NotifyImageLoaded { url: Seq<char>, data: Seq<u8> },
    NotifyLikesLoaded { post_uri: StrongRefView, likers: Seq<UserProfileView> },
    NotifyPostAndRepliesLoaded { post: PostView, replies: Seq<PostView> },
    ShowUserProfile { profile: UserProfileView },
    RefreshTimelineMsg { posts: Seq<PostView> },
    ShowUserPostsMsg { username: Seq<char>, posts: Seq<PostView> },
    DropUserPostsMsg { username: Seq<char> },
    PrepareImageView { img_uri: Seq<char> },
    ShowBigImageView { img_uri: Seq<char> },
    CloseBigImageView { img_uri: Seq<char> },
    ShowErrorMsg { error: Seq<char> },
}

impl View for RedskyUiMsg {
    type V = RedskyUiMsgView;

    open spec fn view(&self) -> RedskyUiMsgView {
        match *self {
            RedskyUiMsg::LogInSucceededMsg() => RedskyUiMsgView::LogInSucceededMsg,
            RedskyUiMsg::PostSucceeed() => RedskyUiMsgView::PostSucceeed,
            RedskyUiMsg::PrepareUserView { username } => RedskyUiMsgView::PrepareUserView {
                username: username@,
            },
            RedskyUiMsg::PrepareThreadView { thread_ref } => RedskyUiMsgView::PrepareThreadView {
                thread_ref: thread_ref@,
            },
            RedskyUiMsg::CloseThreadView { thread_ref } => RedskyUiMsgView::CloseThreadView {
                thread_ref: thread_ref@,
            },
            RedskyUiMsg::NotifyImageLoaded { url, data } => RedskyUiMsgView::NotifyImageLoaded {
                url: url@,
                data: data@,
            },
            RedskyUiMsg::NotifyLikesLoaded { post_uri, likers } => {
                RedskyUiMsgView::NotifyLikesLoaded {
                    post_uri: post_uri@,
                    likers: likers.deep_view(),
                }
            },
            RedskyUiMsg::NotifyPostAndRepliesLoaded { post, replies } => {
                RedskyUiMsgView::NotifyPostAndRepliesLoaded {
                    post: post@,
                    replies: replies.deep_view(),
                }
            },
            RedskyUiMsg::ShowUserProfile { profile } => RedskyUiMsgView::ShowUserProfile {
                profile: profile@,
            },
            RedskyUiMsg::RefreshTimelineMsg { posts } => RedskyUiMsgView::RefreshTimelineMsg {
                posts: posts.deep_view(),
            },
            RedskyUiMsg::ShowUserPostsMsg { username, posts } => RedskyUiMsgView::ShowUserPostsMsg {
                username: username@,
                posts: posts.deep_view(),
            },
            RedskyUiMsg::DropUserPostsMsg { username } => RedskyUiMsgView::DropUserPostsMsg {
                username: username@,
            },
            RedskyUiMsg::PrepareImageView { img_uri } => RedskyUiMsgView::PrepareImageView {
                img_uri: img_uri@,
            },
            RedskyUiMsg::ShowBigImageView { img_uri } => RedskyUiMsgView::ShowBigImageView {
                img_uri: img_uri@,
            },
            RedskyUiMsg::CloseBigImageView { img_uri } => RedskyUiMsgView::CloseBigImageView {
                img_uri: img_uri@,
            },
            RedskyUiMsg::ShowErrorMsg { error } => RedskyUiMsgView::ShowErrorMsg { error: error@ },
        }
    }
}

impl DeepView for RedskyUiMsg {
    type V = RedskyUiMsgView;

    open spec fn deep_view(&self) -> RedskyUiMsgView {
        self@
    }
}

/// A message to the network actor: one job to run, or the order to stop.
#[derive(Debug, PartialEq, Eq)]
pub enum BskyActorMsg {
    Login { login: String, pass: String },
    Post { msg_body: String },
    GetTimeline(),
    GetPostLikers { post_ref: StrongRef },
    GetPostAndReplies { post_ref: StrongRef },
    GetUserProfile { username: String },
    GetUserPosts { username: String },
    LoadImage { url: String },
    Close(),
}

/// The view of a [`BskyActorMsg`].
pub enum BskyActorMsgView {
    Login { login: Seq<char>, pass: Seq<char> },
    Post { msg_body: Seq<char> },
    GetTimeline,
    GetPostLikers { post_ref: StrongRefView },
    GetPostAndReplies { post_ref: StrongRefView },
    GetUserProfile { username: Seq<char> },
    GetUserPosts { username: Seq<char> },
    LoadImage { url: Seq<char> },
    Close,
}

impl View for BskyActorMsg {
    type V = BskyActorMsgView;

    open spec fn view(&self) -> BskyActorMsgView {
        match *self {
            BskyActorMsg::Login { login, pass } => BskyActorMsgView::Login {
                login: login@,
                pass: pass@,
            },
            BskyActorMsg::Post { msg_body } => BskyActorMsgView::Post { msg_body: msg_body@ },
            BskyActorMsg::GetTimeline() => BskyActorMsgView::GetTimeline,
            BskyActorMsg::GetPostLikers { post_ref } => BskyActorMsgView::GetPostLikers {
                post_ref: post_ref@,
            },
            BskyActorMsg::GetPostAndReplies { post_ref } => BskyActorMsgView::GetPostAndReplies {
                post_ref: post_ref@,
            },
            BskyActorMsg::GetUserProfile { username } => BskyActorMsgView::GetUserProfile {
                username: username@,
            },
            BskyActorMsg::GetUserPosts { username } => BskyActorMsgView::GetUserPosts {
                username: username@,
            },
            BskyActorMsg::LoadImage { url } => BskyActorMsgView::LoadImage { url: url@ },
            BskyActorMsg::Close() => BskyActorMsgView::Close,
        }
    }
}

impl DeepView for BskyActorMsg {
    type V = BskyActorMsgView;

    open spec fn deep_view(&self) -> BskyActorMsgView {
        self@
    }
}

impl Clone for BskyActorMsg {
    fn clone(&self) -> (r: Self)
        ensures
            r == *self,
    {
        match self {
            BskyActorMsg::Login { login, pass } => BskyActorMsg::Login {
                login: login.clone(),
                pass: pass.clone(),
            },
            BskyActorMsg::Post { msg_body } => BskyActorMsg::Post { msg_body: msg_body.clone() },
            BskyActorMsg::GetTimeline() => BskyActorMsg::GetTimeline(),
            BskyActorMsg::GetPostLikers { post_ref } => BskyActorMsg::GetPostLikers {
                post_ref: post_ref.clone(),
            },
            BskyActorMsg::GetPostAndReplies { post_ref } => BskyActorMsg::GetPostAndReplies {
                post_ref: post_ref.clone(),
            },
            BskyActorMsg::GetUserProfile { username } => BskyActorMsg::GetUserProfile {
                username: username.clone(),
            },
            BskyActorMsg::GetUserPosts { username } => BskyActorMsg::GetUserPosts {
                username: username.clone(),
            },
            BskyActorMsg::LoadImage { url } => BskyActorMsg::LoadImage { url: url.clone() },
            BskyActorMsg::Close() => BskyActorMsg::Close(),
        }
    }
}

} // verus!
