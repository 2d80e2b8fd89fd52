//! The network actor: the dispatcher that turns commands into jobs, and
//! the job that turns one command into one call to the remote service and
//! the outcome of that call into one message to the rendering loop.
//!
//! Nothing here waits for the network. Whoever runs a job makes the call
//! that the job asks for and hands the outcome back.

use vstd::prelude::*;
use crate::messages::{BskyActorMsg, RedskyUiMsg, RedskyUiMsgView};
use crate::model::{Post, PostView, StrongRef, UserProfile, UserProfileView};
use crate::remote::{
    count_or_default, count_or_zero, extract_post, post_of, text_or, text_or_default, RemoteCall,
    RemoteLiker, RemotePost, RemoteProfile, RemoteReply, RemoteThread, ShapeError,
};

verus! {

/// Why a job ended without the answer it was started for.
#[derive(Debug, PartialEq, Eq)]
pub enum JobError {
    /// The name of a user is no handle; the text says why.
    InvalidHandle { message: String },
    /// The call failed; the text is the failure as it was reported.
    Remote { message: String },
    /// The call succeeded, but its answer had not the shape expected.
    Shape { error: ShapeError },
}

/// The text that tells of a misshapen answer.
pub open spec fn shape_message(error: ShapeError) -> Seq<char> {
    match error {
        ShapeError::PostRecord => "the record of a post is not a post"@,
        ShapeError::QuotedRecord => "the record that a post quotes is not a post"@,
        ShapeError::ThreadUnavailable => "the thread is not available"@,
        ShapeError::UnexpectedReply => "the answer does not belong to the call"@,
    }
}

/// The text that tells of an error.
pub open spec fn error_message(error: JobError) -> Seq<char> {
    match error {
        JobError::InvalidHandle { message } => message@,
        JobError::Remote { message } => message@,
        JobError::Shape { error } => shape_message(error),
    }
}

impl JobError {
    /// The text that tells of this error. The rendering loop is told
    /// nothing else of an error.
    pub fn message(&self) -> (r: String)
        ensures
            r@ == error_message(*self),
    {
        match self {
            JobError::InvalidHandle { message } => message.clone(),
            JobError::Remote { message } => message.clone(),
            JobError::Shape { error } => match error {
                ShapeError::PostRecord => "the record of a post is not a post".to_owned(),
                ShapeError::QuotedRecord => {
                    "the record that a post quotes is not a post".to_owned()
                },
                ShapeError::ThreadUnavailable => "the thread is not available".to_owned(),
                ShapeError::UnexpectedReply => "the answer does not belong to the call".to_owned(),
            },
        }
    }
}

/// What `atrium_api::types::string::Handle::new` makes of a name: the
/// handle, or the text of its refusal.
pub uninterp spec fn handle_check(name: Seq<char>) -> Result<Seq<char>, Seq<char>>;

/// The outcome of a check, by the views of its strings.
pub open spec fn check_view(checked: Result<String, String>) -> Result<Seq<char>, Seq<char>> {
    match checked {
        Ok(handle) => Ok(handle@),
        Err(message) => Err(message@),
    }
}

/// Has `atrium_api::types::string::Handle::new` decide whether `name` is
/// a handle. What it decides depends on the name alone. A name that it
/// accepts it hands back unchanged; a name that it refuses it answers
/// with one of two fixed texts, and a name of more than 253 bytes with
/// the first of them.
#[verifier::external_body]
fn check_handle(name: &String) -> (checked: Result<String, String>)
    ensures
        check_view(checked) == handle_check(name@),
        checked matches Ok(handle) ==> handle@ == name@,
        checked matches Err(message) ==> message@ == "Handle too long"@ || message@
            == "Invalid handle"@,
        checked matches Ok(handle) ==> vstd::utf8::encode_utf8(name@).len() <= 253,
        checked matches Err(message) ==> vstd::utf8::encode_utf8(name@).len() > 253
            ==> message@ == "Handle too long"@,
{
    match atrium_api::types::string::Handle::new(name.clone()) {
        Ok(handle) => Ok(String::from(handle)),
        Err(message) => Err(message.to_string()),
    }
}

/// The profile that stands for the answer to a question after `username`.
pub open spec fn profile_of(username: Seq<char>, profile: RemoteProfile) -> UserProfileView {
    UserProfileView {
        handle: username,
        display_name: text_or(profile.display_name, "(no display name)"@),
        bio: text_or(profile.description, "(No bio)"@),
        avatar_uri: text_or(profile.avatar, Seq::empty()),
        follower_count: count_or_zero(profile.followers_count),
        follow_count: count_or_zero(profile.follows_count),
        post_count: count_or_zero(profile.posts_count),
    }
}

/// The profile that stands for one who liked a post. Of such a one the
/// service tells no counts.
pub open spec fn liker_of(liker: RemoteLiker) -> UserProfileView {
    UserProfileView {
        handle: liker.handle@,
        display_name: text_or(liker.display_name, "(no display name)"@),
        bio: text_or(liker.description, "(No bio)"@),
        avatar_uri: text_or(liker.avatar, Seq::empty()),
        follower_count: 0,
        follow_count: 0,
        post_count: 0,
    }
}

/// The posts that stand for `posts`, in order; the first error, if one of
/// them is no post.
pub open spec fn posts_of(posts: Seq<RemotePost>) -> Result<Seq<PostView>, ShapeError>
    decreases posts.len(),
{
    if posts.len() == 0 {
        Ok(Seq::empty())
    } else {
        match posts_of(posts.drop_last()) {
            Err(e) => Err(e),
            Ok(head) => match post_of(posts.last()) {
                Err(e) => Err(e),
                Ok(post) => Ok(head.push(post)),
            },
        }
    }
}

/// The posts that stand for the replies among `items`, in order; the
/// first error, if one of them is no post. An item that is no reply is
/// passed over.
pub open spec fn replies_of(items: Seq<Option<RemotePost>>) -> Result<Seq<PostView>, ShapeError>
    decreases items.len(),
{
    if items.len() == 0 {
        Ok(Seq::empty())
    } else {
        match replies_of(items.drop_last()) {
            Err(e) => Err(e),
            Ok(head) => match items.last() {
                None => Ok(head),
                Some(reply) => match post_of(reply) {
                    Err(e) => Err(e),
                    Ok(post) => Ok(head.push(post)),
                },
            },
        }
    }
}

proof fn lemma_posts_of_prefix(posts: Seq<RemotePost>, i: int)
    requires
        0 <= i <= posts.len(),
        posts_of(posts.take(i)) is Err,
    ensures
        posts_of(posts) == Err::<Seq<PostView>, ShapeError>(posts_of(posts.take(i))->Err_0),
    decreases posts.len() - i,
{
    if i < posts.len() {
        assert(posts.take(i + 1).drop_last() =~= posts.take(i));
        lemma_posts_of_prefix(posts, i + 1);
    } else {
        assert(posts.take(i) =~= posts);
    }
}

proof fn lemma_replies_of_prefix(items: Seq<Option<RemotePost>>, i: int)
    requires
        0 <= i <= items.len(),
        replies_of(items.take(i)) is Err,
    ensures
        replies_of(items) == Err::<Seq<PostView>, ShapeError>(replies_of(items.take(i))->Err_0),
    decreases items.len() - i,
{
    if i < items.len() {
        assert(items.take(i + 1).drop_last() =~= items.take(i));
        lemma_replies_of_prefix(items, i + 1);
    } else {
        assert(items.take(i) =~= items);
    }
}

/// The posts of the domain model that stand for `posts`.
pub fn extract_posts(posts: &Vec<RemotePost>) -> (r: Result<Vec<Post>, ShapeError>)
    ensures
        match r {
            Ok(list) => posts_of(posts@) == Ok::<Seq<PostView>, ShapeError>(list.deep_view()),
            Err(e) => posts_of(posts@) == Err::<Seq<PostView>, ShapeError>(e),
        },
{
    let mut list: Vec<Post> = Vec::new();
    let mut i: usize = 0;
    assert(list.deep_view() =~= Seq::empty());
    while i < posts.len()
        invariant
            i <= posts.len(),
            posts_of(posts@.take(i as int)) == Ok::<Seq<PostView>, ShapeError>(list.deep_view()),
        decreases posts.len() - i,
    {
        let ghost before = list.deep_view();
        proof {
            assert(posts@.take(i + 1).drop_last() =~= posts@.take(i as int));
        }
        match extract_post(&posts[i]) {
            Err(e) => {
                proof {
                    lemma_posts_of_prefix(posts@, i + 1);
                }
                return Err(e);
            },
            Ok(post) => {
                list.push(post);
                assert(list.deep_view() =~= before.push(post@));
            },
        }
        i += 1;
    }
    assert(posts@.take(i as int) =~= posts@);
    Ok(list)
}

/// The posts of the domain model that stand for the replies among
/// `items`.
pub fn extract_replies(items: &Vec<Option<RemotePost>>) -> (r: Result<Vec<Post>, ShapeError>)
    ensures
        match r {
            Ok(list) => replies_of(items@) == Ok::<Seq<PostView>, ShapeError>(list.deep_view()),
            Err(e) => replies_of(items@) == Err::<Seq<PostView>, ShapeError>(e),
        },
{
    let mut list: Vec<Post> = Vec::new();
    let mut i: usize = 0;
    assert(list.deep_view() =~= Seq::empty());
    while i < items.len()
        invariant
            i <= items.len(),
            replies_of(items@.take(i as int)) == Ok::<Seq<PostView>, ShapeError>(list.deep_view()),
        decreases items.len() - i,
    {
        let ghost before = list.deep_view();
        proof {
            assert(items@.take(i + 1).drop_last() =~= items@.take(i as int));
        }
        if let Some(reply) = &items[i] {
            match extract_post(reply) {
                Err(e) => {
                    proof {
                        lemma_replies_of_prefix(items@, i + 1);
                    }
                    return Err(e);
                },
                Ok(post) => {
                    list.push(post);
                    assert(list.deep_view() =~= before.push(post@));
                },
            }
        }
        i += 1;
    }
    assert(items@.take(i as int) =~= items@);
    Ok(list)
}

/// The answer of a job, by the view of its message.
pub open spec fn answer_view(answer: Result<RedskyUiMsg, ShapeError>) -> Result<
    RedskyUiMsgView,
    ShapeError,
> {
    match answer {
        Ok(msg) => Ok(msg@),
        Err(e) => Err(e),
    }
}

/// What a login makes of `reply`.
pub open spec fn login_answer(reply: RemoteReply) -> Result<RedskyUiMsgView, ShapeError> {
    match reply {
        RemoteReply::LoggedIn => Ok(RedskyUiMsgView::LogInSucceededMsg),
        _ => Err(ShapeError::UnexpectedReply),
    }
}

/// What the posting of a text makes of `reply`.
pub open spec fn post_answer(reply: RemoteReply) -> Result<RedskyUiMsgView, ShapeError> {
    match reply {
        RemoteReply::PostCreated => Ok(RedskyUiMsgView::PostSucceeed),
        _ => Err(ShapeError::UnexpectedReply),
    }
}

/// What the fetch of the timeline makes of `reply`.
pub open spec fn timeline_answer(reply: RemoteReply) -> Result<RedskyUiMsgView, ShapeError> {
    match reply {
        RemoteReply::Feed { posts } => match posts_of(posts@) {
            Ok(list) => Ok(RedskyUiMsgView::RefreshTimelineMsg { posts: list }),
            Err(e) => Err(e),
        },
        _ => Err(ShapeError::UnexpectedReply),
    }
}

/// What the fetch of the posts of `username` makes of `reply`.
pub open spec fn user_posts_answer(username: Seq<char>, reply: RemoteReply) -> Result<
    RedskyUiMsgView,
    ShapeError,
> {
    match reply {
        RemoteReply::Feed { posts } => match posts_of(posts@) {
            Ok(list) => Ok(RedskyUiMsgView::ShowUserPostsMsg { username, posts: list }),
            Err(e) => Err(e),
        },
        _ => Err(ShapeError::UnexpectedReply),
    }
}

/// What the fetch of the profile of `username` makes of `reply`.
pub open spec fn user_profile_answer(username: Seq<char>, reply: RemoteReply) -> Result<
    RedskyUiMsgView,
    ShapeError,
> {
    match reply {
        RemoteReply::Profile { profile } => Ok(
            RedskyUiMsgView::ShowUserProfile { profile: profile_of(username, profile) },
        ),
        _ => Err(ShapeError::UnexpectedReply),
    }
}

/// What the fetch of a thread makes of `reply`. The replies are read
/// before the post they answer: an error among them comes first.
pub open spec fn post_thread_answer(reply: RemoteReply) -> Result<RedskyUiMsgView, ShapeError> {
    match reply {
        RemoteReply::Thread { thread: RemoteThread::Found { post, replies } } => {
            let listed = match replies {
                Some(items) => replies_of(items@),
                None => Ok(Seq::empty()),
            };
            match listed {
                Err(e) => Err(e),
                Ok(list) => match post_of(post) {
                    Err(e) => Err(e),
                    Ok(root) => Ok(
                        RedskyUiMsgView::NotifyPostAndRepliesLoaded { post: root, replies: list },
                    ),
                },
            }
        },
        RemoteReply::Thread { thread: RemoteThread::Unavailable } => Err(
            ShapeError::ThreadUnavailable,
        ),
        _ => Err(ShapeError::UnexpectedReply),
    }
}

/// What the fetch of those who liked the post under `post_ref` makes of
/// `reply`.
pub open spec fn post_likers_answer(post_ref: StrongRef, reply: RemoteReply) -> Result<
    RedskyUiMsgView,
    ShapeError,
> {
    match reply {
        RemoteReply::Likes { likes } => Ok(
            RedskyUiMsgView::NotifyLikesLoaded {
                post_uri: post_ref@,
                likers: Seq::new(likes@.len(), |i: int| liker_of(likes@[i])),
            },
        ),
        _ => Err(ShapeError::UnexpectedReply),
    }
}

/// What the fetch of the image at `url` makes of `reply`.
pub open spec fn load_image_answer(url: Seq<char>, reply: RemoteReply) -> Result<
    RedskyUiMsgView,
    ShapeError,
> {
    match reply {
        RemoteReply::Bytes { data } => Ok(RedskyUiMsgView::NotifyImageLoaded { url, data: data@ }),
        _ => Err(ShapeError::UnexpectedReply),
    }
}

/// What the job for `job` makes of `reply`: the message that belongs to
/// the command, or the reason why there is none.
pub open spec fn answer_of(job: BskyActorMsg, reply: RemoteReply) -> Result<
    RedskyUiMsgView,
    ShapeError,
> {
    match job {
        BskyActorMsg::Login { login, pass } => login_answer(reply),
        BskyActorMsg::Post { msg_body } => post_answer(reply),
        BskyActorMsg::GetTimeline() => timeline_answer(reply),
        BskyActorMsg::GetPostLikers { post_ref } => post_likers_answer(post_ref, reply),
        BskyActorMsg::GetPostAndReplies { post_ref } => post_thread_answer(reply),
        BskyActorMsg::GetUserProfile { username } => user_profile_answer(username@, reply),
        BskyActorMsg::GetUserPosts { username } => user_posts_answer(username@, reply),
        BskyActorMsg::LoadImage { url } => load_image_answer(url@, reply),
        BskyActorMsg::Close() => Err(ShapeError::UnexpectedReply),
    }
}

/// The one message that the job for `job` sends to the rendering loop
/// when its call ended with `outcome`. A call that failed, and an answer
/// that is misshapen, are told as an error with its text.
pub open spec fn event_of(job: BskyActorMsg, outcome: Result<RemoteReply, String>)
    -> RedskyUiMsgView {
    match outcome {
        Err(message) => RedskyUiMsgView::ShowErrorMsg { error: message@ },
        Ok(reply) => match answer_of(job, reply) {
            Ok(msg) => msg,
            Err(e) => RedskyUiMsgView::ShowErrorMsg { error: shape_message(e) },
        },
    }
}

/// The call that the job for `job` makes.
pub open spec fn call_for(job: BskyActorMsg) -> RemoteCall {
    match job {
        BskyActorMsg::Login { login, pass } => RemoteCall::Login {
            identifier: login,
            password: pass,
        },
        BskyActorMsg::Post { msg_body } => RemoteCall::CreatePost { text: msg_body },
        BskyActorMsg::GetTimeline() => RemoteCall::GetTimeline { limit: 30 },
        BskyActorMsg::GetPostLikers { post_ref } => RemoteCall::GetLikes {
            uri: post_ref.uri,
            cid: post_ref.cid,
        },
        BskyActorMsg::GetPostAndReplies { post_ref } => RemoteCall::GetPostThread {
            uri: post_ref.uri,
            depth: 1,
            parent_height: 0,
        },
        BskyActorMsg::GetUserProfile { username } => RemoteCall::GetProfile { actor: username },
        BskyActorMsg::GetUserPosts { username } => RemoteCall::GetAuthorFeed {
            actor: username,
            include_pins: true,
            limit: 20,
        },
        BskyActorMsg::LoadImage { url } => RemoteCall::FetchBytes { url },
        BskyActorMsg::Close() => arbitrary(),
    }
}

/// The name that the job for `job` has checked before it makes its call.
pub open spec fn handle_for(job: BskyActorMsg) -> Option<String> {
    match job {
        BskyActorMsg::GetUserProfile { username } => Some(username),
        BskyActorMsg::GetUserPosts { username } => Some(username),
        _ => None,
    }
}

/// How the job for `job` begins, where the check of its name, if it has
/// one to check, ended with `checked`.
pub open spec fn request_for(job: BskyActorMsg, checked: Option<Result<String, String>>) -> Result<
    RemoteCall,
    JobError,
> {
    match checked {
        Some(Err(message)) => Err(JobError::InvalidHandle { message }),
        _ => Ok(call_for(job)),
    }
}

/// One job of the actor: one command, to be answered by one message.
#[derive(Debug, PartialEq, Eq)]
pub struct BskyJob {
    pub job: BskyActorMsg,
}

impl BskyJob {
    /// The call that this job makes.
    pub fn call(&self) -> (r: RemoteCall)
        requires
            !(self.job is Close),
        ensures
            r == call_for(self.job),
    {
        match &self.job {
            BskyActorMsg::Login { login, pass } => RemoteCall::Login {
                identifier: login.clone(),
                password: pass.clone(),
            },
            BskyActorMsg::Post { msg_body } => RemoteCall::CreatePost { text: msg_body.clone() },
            BskyActorMsg::GetTimeline() => RemoteCall::GetTimeline { limit: 30 },
            BskyActorMsg::GetPostLikers { post_ref } => RemoteCall::GetLikes {
                uri: post_ref.uri.clone(),
                cid: post_ref.cid.clone(),
            },
            BskyActorMsg::GetPostAndReplies { post_ref } => RemoteCall::GetPostThread {
                uri: post_ref.uri.clone(),
                depth: 1,
                parent_height: 0,
            },
            BskyActorMsg::GetUserProfile { username } => RemoteCall::GetProfile {
                actor: username.clone(),
            },
            BskyActorMsg::GetUserPosts { username } => RemoteCall::GetAuthorFeed {
                actor: username.clone(),
                include_pins: true,
                limit: 20,
            },
            BskyActorMsg::LoadImage { url } => RemoteCall::FetchBytes { url: url.clone() },
            BskyActorMsg::Close() => unreached(),
        }
    }

    /// How this job begins, given the outcome of the check of its name,
    /// if it has one to check: with its call, or, where the name was
    /// refused, with the error that ends it before any call.
    pub fn request_checked(&self, checked: Option<Result<String, String>>) -> (r: Result<
        RemoteCall,
        JobError,
    >)
        requires
            !(self.job is Close),
        ensures
            r == request_for(self.job, checked),
    {
        match checked {
            Some(Err(message)) => Err(JobError::InvalidHandle { message }),
            _ => Ok(self.call()),
        }
    }

    /// How this job begins. A job that names a user has the name checked
    /// first and ends with an error if it is no handle; every other job
    /// begins with its call.
    pub fn request(&self) -> (r: Result<RemoteCall, JobError>)
        requires
            !(self.job is Close),
        ensures
            handle_for(self.job) is None ==> r == Ok::<RemoteCall, JobError>(call_for(self.job)),
            handle_for(self.job) matches Some(name) ==> match r {
                Ok(call) => call == call_for(self.job) && handle_check(name@) is Ok,
                Err(e) => e matches JobError::InvalidHandle { message } && handle_check(name@)
                    == Err::<Seq<char>, Seq<char>>(message@) && (message@ == "Handle too long"@
                    || message@ == "Invalid handle"@),
            },
    {
        let checked = match &self.job {
            BskyActorMsg::GetUserProfile { username } => Some(check_handle(username)),
            BskyActorMsg::GetUserPosts { username } => Some(check_handle(username)),
            _ => None,
        };
        self.request_checked(checked)
    }

    /// The message that ends a job which failed with `error`.
    pub fn fail(error: &JobError) -> (event: RedskyUiMsg)
        ensures
            event@ == (RedskyUiMsgView::ShowErrorMsg { error: error_message(*error) }),
    {
        RedskyUiMsg::ShowErrorMsg { error: error.message() }
    }

    /// A login that was answered.
    pub fn login(reply: RemoteReply) -> (r: Result<RedskyUiMsg, ShapeError>)
        ensures
            answer_view(r) == login_answer(reply),
    {
        match reply {
            RemoteReply::LoggedIn => Ok(RedskyUiMsg::LogInSucceededMsg()),
            _ => Err(ShapeError::UnexpectedReply),
        }
    }

    /// The posting of a text that was answered.
    pub fn post(reply: RemoteReply) -> (r: Result<RedskyUiMsg, ShapeError>)
        ensures
            answer_view(r) == post_answer(reply),
    {
        match reply {
            RemoteReply::PostCreated => Ok(RedskyUiMsg::PostSucceeed()),
            _ => Err(ShapeError::UnexpectedReply),
        }
    }

    /// The fetch of the timeline that was answered.
    pub fn get_timeline_posts(reply: RemoteReply) -> (r: Result<RedskyUiMsg, ShapeError>)
        ensures
            answer_view(r) == timeline_answer(reply),
    {
        match reply {
            RemoteReply::Feed { posts } => match extract_posts(&posts) {
                Ok(list) => Ok(RedskyUiMsg::RefreshTimelineMsg { posts: list }),
                Err(e) => Err(e),
            },
            _ => Err(ShapeError::UnexpectedReply),
        }
    }

    /// The fetch of the posts of `username` that was answered.
    pub fn get_user_posts(username: &String, reply: RemoteReply) -> (r: Result<
        RedskyUiMsg,
        ShapeError,
    >)
        ensures
            answer_view(r) == user_posts_answer(username@, reply),
    {
        match reply {
            RemoteReply::Feed { posts } => match extract_posts(&posts) {
                Ok(list) => Ok(
                    RedskyUiMsg::ShowUserPostsMsg { username: username.clone(), posts: list },
                ),
                Err(e) => Err(e),
            },
            _ => Err(ShapeError::UnexpectedReply),
        }
    }

    /// The fetch of the profile of `username` that was answered. What the
    /// service left out is filled in: a name and a biography that say so,
    /// no avatar, and counts of zero.
    pub fn get_user_profile(username: &String, reply: RemoteReply) -> (r: Result<
        RedskyUiMsg,
        ShapeError,
    >)
        ensures
            answer_view(r) == user_profile_answer(username@, reply),
    {
        match reply {
            RemoteReply::Profile { profile } => {
                proof {
                    reveal_strlit("");
                    assert(""@ =~= Seq::<char>::empty());
                }
                Ok(
                    RedskyUiMsg::ShowUserProfile {
                        profile: UserProfile {
                            handle: username.clone(),
                            display_name: text_or_default(
                                &profile.display_name,
                                "(no display name)",
                            ),
                            bio: text_or_default(&profile.description, "(No bio)"),
                            avatar_uri: text_or_default(&profile.avatar, ""),
                            follower_count: count_or_default(&profile.followers_count),
                            follow_count: count_or_default(&profile.follows_count),
                            post_count: count_or_default(&profile.posts_count),
                        },
                    },
                )
            },
            _ => Err(ShapeError::UnexpectedReply),
        }
    }

    /// The fetch of a thread that was answered: the post and its direct
    /// replies. A thread that is not available is an error.
    pub fn get_post_thread(reply: RemoteReply) -> (r: Result<RedskyUiMsg, ShapeError>)
        ensures
            answer_view(r) == post_thread_answer(reply),
    {
        match reply {
            RemoteReply::Thread { thread } => match thread {
                RemoteThread::Found { post, replies } => {
                    let listed = match &replies {
                        Some(items) => extract_replies(items),
                        None => {
                            let none: Vec<Post> = Vec::new();
                            assert(none.deep_view() =~= Seq::<PostView>::empty());
                            Ok(none)
                        },
                    };
                    match listed {
                        Err(e) => Err(e),
                        Ok(list) => match extract_post(&post) {
                            Err(e) => Err(e),
                            Ok(root) => Ok(
                                RedskyUiMsg::NotifyPostAndRepliesLoaded {
                                    post: root,
                                    replies: list,
                                },
                            ),
                        },
                    }
                },
                RemoteThread::Unavailable => Err(ShapeError::ThreadUnavailable),
            },
            _ => Err(ShapeError::UnexpectedReply),
        }
    }

    /// The fetch of those who liked the post under `strong_ref` that was
    /// answered.
    pub fn get_post_likers(strong_ref: &StrongRef, reply: RemoteReply) -> (r: Result<
        RedskyUiMsg,
        ShapeError,
    >)
        ensures
            answer_view(r) == post_likers_answer(*strong_ref, reply),
    {
        match reply {
            RemoteReply::Likes { likes } => {
                let mut likers: Vec<UserProfile> = Vec::new();
                let mut i: usize = 0;
                proof {
                    reveal_strlit("");
                }
                while i < likes.len()
                    invariant
                        i <= likes.len(),
                        likers@.len() == i,
                        ""@ == Seq::<char>::empty(),
                        forall|j: int|
                            0 <= j < i ==> (#[trigger] likers@[j])@ == liker_of(likes@[j]),
                    decreases likes.len() - i,
                {
                    let liker = &likes[i];
                    likers.push(
                        UserProfile {
                            handle: liker.handle.clone(),
                            display_name: text_or_default(&liker.display_name, "(no display name)"),
                            bio: text_or_default(&liker.description, "(No bio)"),
                            avatar_uri: text_or_default(&liker.avatar, ""),
                            follower_count: 0,
                            follow_count: 0,
                            post_count: 0,
                        },
                    );
                    i += 1;
                }
                assert(likers.deep_view() =~= Seq::new(
                    likes@.len(),
                    |i: int| liker_of(likes@[i]),
                ));
                Ok(RedskyUiMsg::NotifyLikesLoaded { post_uri: strong_ref.clone(), likers })
            },
            _ => Err(ShapeError::UnexpectedReply),
        }
    }

    /// The fetch of the image at `url` that was answered.
    pub fn load_image(url: &String, reply: RemoteReply) -> (r: Result<RedskyUiMsg, ShapeError>)
        ensures
            answer_view(r) == load_image_answer(url@, reply),
    {
        match reply {
            RemoteReply::Bytes { data } => Ok(
                RedskyUiMsg::NotifyImageLoaded { url: url.clone(), data },
            ),
            _ => Err(ShapeError::UnexpectedReply),
        }
    }

    /// Ends this job: makes of the outcome of its call the one message
    /// that the rendering loop is sent for it. An answer becomes the
    /// message that belongs to the command; a call that failed, and an
    /// answer that is misshapen, become an error with its text.
    pub fn perform(&self, outcome: Result<RemoteReply, String>) -> (event: RedskyUiMsg)
        requires
            !(self.job is Close),
        ensures
            event@ == event_of(self.job, outcome),
    {
        match outcome {
            Err(message) => Self::fail(&JobError::Remote { message }),
            Ok(reply) => {
                let answer = match &self.job {
                    BskyActorMsg::Login { login, pass } => Self::login(reply),
                    BskyActorMsg::Post { msg_body } => Self::post(reply),
                    BskyActorMsg::GetPostAndReplies { post_ref } => Self::get_post_thread(reply),
                    BskyActorMsg::GetPostLikers { post_ref } => Self::get_post_likers(
                        post_ref,
                        reply,
                    ),
                    BskyActorMsg::GetTimeline() => Self::get_timeline_posts(reply),
                    BskyActorMsg::GetUserProfile { username } => Self::get_user_profile(
                        username,
                        reply,
                    ),
                    BskyActorMsg::GetUserPosts { username } => Self::get_user_posts(
                        username,
                        reply,
                    ),
                    BskyActorMsg::LoadImage { url } => Self::load_image(url, reply),
                    BskyActorMsg::Close() => unreached(),
                };
                match answer {
                    Ok(event) => event,
                    Err(error) => Self::fail(&JobError::Shape { error }),
                }
            },
        }
    }
}

/// Whether a dispatcher goes on after `received`: it ran before, and what
/// it received is a command other than `Close`.
pub open spec fn goes_on(running: bool, received: Option<BskyActorMsg>) -> bool {
    running && received is Some && !(received->0 is Close)
}

/// Whether a dispatcher that starts running still runs after it received
/// `received`, first item first.
pub open spec fn runs_after(received: Seq<Option<BskyActorMsg>>) -> bool
    decreases received.len(),
{
    if received.len() == 0 {
        true
    } else {
        goes_on(runs_after(received.drop_last()), received.last())
    }
}

/// The commands for which a dispatcher that starts running hands out a
/// job while it receives `received`, first item first.
pub open spec fn jobs_spawned(received: Seq<Option<BskyActorMsg>>) -> Seq<BskyActorMsg>
    decreases received.len(),
{
    if received.len() == 0 {
        Seq::empty()
    } else if runs_after(received) {
        jobs_spawned(received.drop_last()).push(received.last()->0)
    } else {
        jobs_spawned(received.drop_last())
    }
}

/// One command, one job: a dispatcher hands out one job for each command
/// that it receives before the first `Close` or the end of its queue, in
/// the order received, and none for anything after that.
pub proof fn law_one_job_per_command(received: Seq<Option<BskyActorMsg>>, stop: int)
    requires
        0 <= stop <= received.len(),
        forall|i: int| 0 <= i < stop ==> goes_on(true, #[trigger] received[i]),
        stop < received.len() ==> !goes_on(true, received[stop]),
    ensures
        jobs_spawned(received) == Seq::new(stop as nat, |i: int| received[i]->0),
        runs_after(received) == (stop == received.len()),
    decreases received.len(),
{
    if received.len() > 0 {
        let head = received.drop_last();
        let before = if stop == received.len() {
            head.len() as int
        } else {
            stop
        };
        assert forall|i: int| 0 <= i < before implies goes_on(true, #[trigger] head[i]) by {}
        law_one_job_per_command(head, before);
    }
}

/// The dispatcher of the actor. It runs until it is told to close or its
/// queue of commands is gone.
#[derive(Debug, PartialEq, Eq)]
pub struct BskyActor {
    pub running: bool,
}

impl BskyActor {
    /// A dispatcher that runs.
    pub fn new() -> (r: Self)
        ensures
            r.running,
    {
        BskyActor { running: true }
    }

    /// Takes what was received from the queue of commands: a command, or
    /// `None` where the queue is gone.
    ///
    /// While the dispatcher runs, every command but `Close` becomes one
    /// job, which is handed out to be run beside the others; the
    /// dispatcher does not wait for it. `Close`, and the end of the
    /// queue, stop the dispatcher. Once stopped it hands out no job.
    pub fn pump(&mut self, received: Option<BskyActorMsg>) -> (spawned: Option<BskyJob>)
        ensures
            final(self).running == goes_on(old(self).running, received),
            final(self).running ==> spawned == Some(BskyJob { job: received->0 }),
            !final(self).running ==> spawned is None,
    {
        if !self.running {
            return None;
        }
        match received {
            Some(msg) => {
                if let BskyActorMsg::Close() = msg {
                    self.running = false;
                    None
                } else {
                    Some(BskyJob { job: msg })
                }
            },
            None => {
                self.running = false;
                None
            },
        }
    }
}

} // verus!
