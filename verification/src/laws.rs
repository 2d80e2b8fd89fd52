//! What holds of every step of the rendering loop and of every job of
//! the actor, proved from the definitions of the steps.

use vstd::prelude::*;
use crate::app::{image_urls, AppState, MainViewState};
use crate::bsky_actor::{answer_of, event_of};
use crate::messages::{BskyActorMsg, BskyActorMsgView, RedskyUiMsgView};
use crate::model::PostView;
use crate::remote::RemoteReply;

verus! {

/// `command` is no fetch for a cache entry, or the entry it fetches was
/// absent in `before` and is pending in `after`.
pub open spec fn fetches_absent(before: AppState, after: AppState, command: BskyActorMsgView)
    -> bool {
    match command {
        BskyActorMsgView::LoadImage { url } => !before.image_cache.dom().contains(url)
            && after.image_cache.dom().contains(url) && after.image_cache[url] is None,
        BskyActorMsgView::GetUserPosts { username } => !before.user_posts.dom().contains(username)
            && after.user_posts.dom().contains(username) && after.user_posts[username] is None,
        BskyActorMsgView::GetUserProfile { username } => !before.user_infos_cache.dom().contains(
            username,
        ) && after.user_infos_cache.dom().contains(username)
            && after.user_infos_cache[username] is None,
        BskyActorMsgView::GetPostAndReplies { post_ref } => !before.post_replies_cache.dom().contains(
            post_ref,
        ) && after.post_replies_cache.dom().contains(post_ref)
            && after.post_replies_cache[post_ref] is None,
        _ => true,
    }
}

/// `after` has the commands of `before` and then some, each of them once,
/// and each fetch among them is for an entry that was absent.
pub open spec fn commands_are_fresh(before: AppState, after: AppState) -> bool {
    &&& before.commands.len() <= after.commands.len()
    &&& after.commands.take(before.commands.len() as int) == before.commands
    &&& forall|i: int|
        before.commands.len() <= i < after.commands.len() ==> fetches_absent(
            before,
            after,
            #[trigger] after.commands[i],
        )
    &&& forall|i: int, j: int|
        before.commands.len() <= i < j < after.commands.len() ==> after.commands[i]
            != after.commands[j]
}

proof fn lemma_request_images(s: AppState, urls: Seq<Seq<char>>)
    ensures
        ({
            let t = s.request_images(urls);
            &&& t == AppState { image_cache: t.image_cache, commands: t.commands, ..s }
            &&& s.commands.len() <= t.commands.len()
            &&& t.commands.take(s.commands.len() as int) == s.commands
            &&& forall|k: Seq<char>| #[trigger]
                s.image_cache.dom().contains(k) ==> t.image_cache.dom().contains(k)
                    && t.image_cache[k] == s.image_cache[k]
            &&& forall|i: int|
                s.commands.len() <= i < t.commands.len() ==> (#[trigger] t.commands[i]) is LoadImage
                    && fetches_absent(s, t, t.commands[i])
            &&& forall|i: int, j: int|
                s.commands.len() <= i < j < t.commands.len() ==> t.commands[i] != t.commands[j]
        }),
    decreases urls.len(),
{
    if urls.len() > 0 {
        let mid = s.request_images(urls.drop_last());
        let t = s.request_images(urls);
        lemma_request_images(s, urls.drop_last());
        if !mid.image_cache.dom().contains(urls.last()) {
            // One command is added at the end; those before it are the commands of `mid`.
            assert(t.commands.take(s.commands.len() as int) =~= mid.commands.take(
                s.commands.len() as int,
            ));
        }
    }
}

/// Deduplication, step by step: whatever the state and whatever the
/// message, the step adds commands to the queue and takes none away, adds
/// none twice, and adds a fetch only for an entry that was absent before
/// the step and is pending after it. So what is pending or loaded is not
/// asked for again.
pub proof fn law_step_fetches_only_absent(s: AppState, msg: RedskyUiMsgView)
    ensures
        commands_are_fresh(s, s.step(msg)),
{
    let t = s.step(msg);
    match msg {
        RedskyUiMsgView::RefreshTimelineMsg { posts } => {
            lemma_request_images(s, image_urls(posts));
        },
        RedskyUiMsgView::ShowUserPostsMsg { username, posts } => {
            lemma_request_images(s, image_urls(posts));
        },
        RedskyUiMsgView::NotifyPostAndRepliesLoaded { post, replies } => {
            lemma_request_images(s, image_urls(seq![post] + replies));
        },
        _ => {},
    }
    assert(t.commands.take(s.commands.len() as int) =~= s.commands);
}

/// `command` fetches what a cache entry waits for.
pub open spec fn is_fetch(command: BskyActorMsgView) -> bool {
    command is LoadImage || command is GetUserProfile || command is GetUserPosts
        || command is GetPostAndReplies
}

/// Something is known, or awaited, of the entry that `command` fetches.
pub open spec fn is_known(s: AppState, command: BskyActorMsgView) -> bool {
    match command {
        BskyActorMsgView::LoadImage { url } => s.image_cache.dom().contains(url),
        BskyActorMsgView::GetUserProfile { username } => s.user_infos_cache.dom().contains(username),
        BskyActorMsgView::GetUserPosts { username } => s.user_posts.dom().contains(username),
        BskyActorMsgView::GetPostAndReplies { post_ref } => s.post_replies_cache.dom().contains(
            post_ref,
        ),
        _ => false,
    }
}

/// `msg` releases the entry that `command` fetches: it closes the view
/// of that thread or of that user. Nothing releases an image or a
/// profile.
pub open spec fn releases(msg: RedskyUiMsgView, command: BskyActorMsgView) -> bool {
    match command {
        BskyActorMsgView::GetUserPosts { username } => msg == (
        RedskyUiMsgView::DropUserPostsMsg { username }),
        BskyActorMsgView::GetPostAndReplies { post_ref } => msg == (
        RedskyUiMsgView::CloseThreadView { thread_ref: post_ref }),
        _ => false,
    }
}

proof fn lemma_step_keeps(s: AppState, msg: RedskyUiMsgView, command: BskyActorMsgView)
    requires
        is_known(s, command),
        !releases(msg, command),
    ensures
        is_known(s.step(msg), command),
{
    match msg {
        RedskyUiMsgView::RefreshTimelineMsg { posts } => {
            lemma_request_images(s, image_urls(posts));
        },
        RedskyUiMsgView::ShowUserPostsMsg { username, posts } => {
            lemma_request_images(s, image_urls(posts));
        },
        RedskyUiMsgView::NotifyPostAndRepliesLoaded { post, replies } => {
            lemma_request_images(s, image_urls(seq![post] + replies));
        },
        _ => {},
    }
}

proof fn lemma_steps(s: AppState, msgs: Seq<RedskyUiMsgView>, command: BskyActorMsgView)
    requires
        is_fetch(command),
        forall|k: int| 0 <= k < msgs.len() ==> !releases(#[trigger] msgs[k], command),
    ensures
        ({
            let t = s.steps(msgs);
            &&& s.commands.len() <= t.commands.len()
            &&& t.commands.take(s.commands.len() as int) == s.commands
            &&& is_known(s, command) ==> is_known(t, command)
            &&& forall|i: int|
                s.commands.len() <= i < t.commands.len() && #[trigger] t.commands[i] == command
                    ==> !is_known(s, command) && is_known(t, command)
            &&& forall|i: int, j: int|
                s.commands.len() <= i < j < t.commands.len() ==> !(t.commands[i] == command
                    && t.commands[j] == command)
        }),
    decreases msgs.len(),
{
    if msgs.len() > 0 {
        let head = msgs.drop_last();
        let mid = s.steps(head);
        let t = s.steps(msgs);
        assert forall|k: int| 0 <= k < head.len() implies !releases(
            #[trigger] head[k],
            command,
        ) by {}
        lemma_steps(s, head, command);
        law_step_fetches_only_absent(mid, msgs.last());
        // The step keeps the commands of `mid` and adds only fetches of what `mid` knew not.
        assert forall|i: int| 0 <= i < mid.commands.len() implies t.commands[i]
            == mid.commands[i] by {}
        if is_known(mid, command) {
            lemma_step_keeps(mid, msgs.last(), command);
        }
    }
}

/// Deduplication, over a whole run: however many messages the loop
/// takes, as long as none of them releases what a fetch is for, the loop
/// commands that fetch at most once. An image and a profile are never
/// released: each is fetched at most once in the life of the loop.
pub proof fn law_fetched_once_until_released(
    s: AppState,
    msgs: Seq<RedskyUiMsgView>,
    i: int,
    j: int,
)
    requires
        s.commands.len() <= i < j < s.steps(msgs).commands.len(),
        is_fetch(s.steps(msgs).commands[i]),
        forall|k: int|
            0 <= k < msgs.len() ==> !releases(#[trigger] msgs[k], s.steps(msgs).commands[i]),
    ensures
        s.steps(msgs).commands[i] != s.steps(msgs).commands[j],
{
    lemma_steps(s, msgs, s.steps(msgs).commands[i]);
}

/// The entry that `command` fetches is pending.
pub open spec fn is_pending(s: AppState, command: BskyActorMsgView) -> bool {
    match command {
        BskyActorMsgView::LoadImage { url } => s.image_cache.dom().contains(url)
            && s.image_cache[url] is None,
        BskyActorMsgView::GetUserProfile { username } => s.user_infos_cache.dom().contains(username)
            && s.user_infos_cache[username] is None,
        BskyActorMsgView::GetUserPosts { username } => s.user_posts.dom().contains(username)
            && s.user_posts[username] is None,
        BskyActorMsgView::GetPostAndReplies { post_ref } => s.post_replies_cache.dom().contains(
            post_ref,
        ) && s.post_replies_cache[post_ref] is None,
        _ => false,
    }
}

/// The entry that `command` fetches is loaded.
pub open spec fn is_loaded(s: AppState, command: BskyActorMsgView) -> bool {
    is_known(s, command) && !is_pending(s, command)
}

/// `msg` brings what `command` fetches.
pub open spec fn brings(msg: RedskyUiMsgView, command: BskyActorMsgView) -> bool {
    match command {
        BskyActorMsgView::LoadImage { url } => msg is NotifyImageLoaded && msg->url == url,
        BskyActorMsgView::GetUserProfile { username } => msg is ShowUserProfile
            && msg->profile.handle == username,
        BskyActorMsgView::GetUserPosts { username } => msg is ShowUserPostsMsg
            && msg->ShowUserPostsMsg_username == username,
        BskyActorMsgView::GetPostAndReplies { post_ref } => msg is NotifyPostAndRepliesLoaded
            && msg->post.uri == post_ref.uri && msg->post.cid == post_ref.cid,
        _ => false,
    }
}

/// From the placeholder to the answer: an entry that is pending stays
/// pending, and is never seen absent, through every step but the one that
/// brings its answer, which leaves it loaded, and the one that releases
/// it, which leaves it absent. An error leaves it pending.
pub proof fn law_pending_until_answered(
    s: AppState,
    msg: RedskyUiMsgView,
    command: BskyActorMsgView,
)
    requires
        is_pending(s, command),
    ensures
        brings(msg, command) ==> is_loaded(s.step(msg), command),
        releases(msg, command) ==> !is_known(s.step(msg), command),
        !brings(msg, command) && !releases(msg, command) ==> is_pending(s.step(msg), command),
        msg is ShowErrorMsg ==> is_pending(s.step(msg), command),
{
    match msg {
        RedskyUiMsgView::RefreshTimelineMsg { posts } => {
            lemma_request_images(s, image_urls(posts));
        },
        RedskyUiMsgView::ShowUserPostsMsg { username, posts } => {
            lemma_request_images(s, image_urls(posts));
        },
        RedskyUiMsgView::NotifyPostAndRepliesLoaded { post, replies } => {
            lemma_request_images(s, image_urls(seq![post] + replies));
        },
        _ => {},
    }
}

/// Arrival in either order: when the posts of a user and the timeline
/// arrive one after the other, the timeline and the entry of that user
/// end the same whichever came first, and every image that either brought
/// is known of.
pub proof fn law_arrival_order(
    s: AppState,
    username: Seq<char>,
    own: Seq<PostView>,
    timeline: Seq<PostView>,
)
    ensures
        ({
            let posts_first = s.step(
                RedskyUiMsgView::ShowUserPostsMsg { username, posts: own },
            ).step(RedskyUiMsgView::RefreshTimelineMsg { posts: timeline });
            let timeline_first = s.step(RedskyUiMsgView::RefreshTimelineMsg { posts: timeline }).step(
                RedskyUiMsgView::ShowUserPostsMsg { username, posts: own },
            );
            &&& posts_first.timeline == timeline
            &&& timeline_first.timeline == timeline
            &&& posts_first.user_posts.dom().contains(username)
            &&& timeline_first.user_posts.dom().contains(username)
            &&& posts_first.user_posts[username] == Some(own)
            &&& timeline_first.user_posts[username] == Some(own)
        }),
{
    let a = s.step(RedskyUiMsgView::ShowUserPostsMsg { username, posts: own });
    let b = s.step(RedskyUiMsgView::RefreshTimelineMsg { posts: timeline });
    lemma_request_images(s, image_urls(own));
    lemma_request_images(s, image_urls(timeline));
    lemma_request_images(a, image_urls(timeline));
    lemma_request_images(b, image_urls(own));
}

/// The login is one way: the step that takes the news of a login leaves
/// the login view for the view of the user's own posts, and no step and
/// no choice of a main view leads back to the login view.
pub proof fn law_login_is_one_way(s: AppState, msg: RedskyUiMsgView, target: MainViewState)
    ensures
        s.step(RedskyUiMsgView::LogInSucceededMsg).main_view_state == MainViewState::OwnPostFeed,
        s.step(RedskyUiMsgView::LogInSucceededMsg).is_logged_in,
        s.main_view_state != MainViewState::Login ==> s.step(msg).main_view_state
            != MainViewState::Login,
        s.main_view_state != MainViewState::Login ==> s.select(target).main_view_state
            != MainViewState::Login,
        s.main_view_state == MainViewState::Login ==> s.select(target) == s,
        !(msg is LogInSucceededMsg) ==> s.step(msg).main_view_state == s.main_view_state,
{
    match msg {
        RedskyUiMsgView::RefreshTimelineMsg { posts } => {
            lemma_request_images(s, image_urls(posts));
        },
        RedskyUiMsgView::ShowUserPostsMsg { username, posts } => {
            lemma_request_images(s, image_urls(posts));
        },
        RedskyUiMsgView::NotifyPostAndRepliesLoaded { post, replies } => {
            lemma_request_images(s, image_urls(seq![post] + replies));
        },
        _ => {},
    }
}

/// `event` is the message of success that belongs to the command `job`.
pub open spec fn answers(job: BskyActorMsg, event: RedskyUiMsgView) -> bool {
    match job {
        BskyActorMsg::Login { login, pass } => event is LogInSucceededMsg,
        BskyActorMsg::Post { msg_body } => event is PostSucceeed,
        BskyActorMsg::GetTimeline() => event is RefreshTimelineMsg,
        BskyActorMsg::GetPostLikers { post_ref } => event is NotifyLikesLoaded
            && event->post_uri == post_ref@,
        BskyActorMsg::GetPostAndReplies { post_ref } => event is NotifyPostAndRepliesLoaded,
        BskyActorMsg::GetUserProfile { username } => event is ShowUserProfile
            && event->profile.handle == username@,
        BskyActorMsg::GetUserPosts { username } => event is ShowUserPostsMsg
            && event->ShowUserPostsMsg_username == username@,
        BskyActorMsg::LoadImage { url } => event is NotifyImageLoaded && event->url == url@,
        BskyActorMsg::Close() => false,
    }
}

/// One command, one message: whatever the outcome of its call, the job
/// for a command ends with the message of success that belongs to the
/// command, or with an error. A call that failed ends with the error that
/// carries the text of the failure.
pub proof fn law_one_event_per_command(job: BskyActorMsg, outcome: Result<RemoteReply, String>)
    requires
        !(job is Close),
    ensures
        answers(job, event_of(job, outcome)) || event_of(job, outcome) is ShowErrorMsg,
        answers(job, event_of(job, outcome)) ==> outcome is Ok && answer_of(job, outcome->Ok_0)
            is Ok,
        outcome matches Err(message) ==> event_of(job, outcome) == (
        RedskyUiMsgView::ShowErrorMsg { error: message@ }),
{
}

} // verus!
