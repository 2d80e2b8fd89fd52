//! The state of the rendering loop and its per-tick update.
//!
//! The state is one owned aggregate. A tick takes at most one message,
//! applies it to the caches and the top-level fields, and leaves in two
//! queues what the tick wants done: commands for the network actor, and
//! notes to its own later ticks. Whoever drives the loop hands the queues
//! on; nothing here blocks.

use vstd::prelude::*;
use crate::cache::{state_of, Cache, Entry, KeySet};
use crate::keys::Key;
use crate::messages::{BskyActorMsg, BskyActorMsgView, RedskyUiMsg, RedskyUiMsgView};
use crate::model::{
    Post, PostImageView, PostView, StrongRef, StrongRefView, UserProfile, UserProfileView,
};

verus! {

/// Which main view is shown.
#[derive(Debug, Clone, Copy, PartialEq, Eq, Structural)]
pub enum MainViewState {
    Login,
    TimelineFeed,
    OwnPostFeed,
}

/// The state of the rendering loop.
#[derive(Debug)]
pub struct RedskyApp {
    pub is_logged_in: bool,
    pub is_post_window_open: bool,
    pub main_view_state: MainViewState,
    pub login: String,
    pub pass: String,
    pub msg: String,
    pub timeline: Vec<Post>,
    pub user_posts: Cache<String, Vec<Post>>,
    pub user_infos_cache: Cache<String, UserProfile>,
    pub image_cache: Cache<String, Vec<u8>>,
    pub post_likers_cache: Cache<StrongRef, Vec<UserProfile>>,
    pub post_replies_cache: Cache<StrongRef, Vec<Post>>,
    pub opened_image_views: KeySet<String>,
    /// Commands that wait to be handed to the network actor, oldest first.
    pub commands: Vec<BskyActorMsg>,
    /// Notes to later ticks that wait to be put on the loop's own queue.
    pub ui_messages: Vec<RedskyUiMsg>,
}

/// The view of a [`RedskyApp`].
#[verifier::ext_equal]
pub struct AppState {
    pub is_logged_in: bool,
    pub is_post_window_open: bool,
    pub main_view_state: MainViewState,
    pub login: Seq<char>,
    pub pass: Seq<char>,
    pub msg: Seq<char>,
    pub timeline: Seq<PostView>,
    pub user_posts: Map<Seq<char>, Option<Seq<PostView>>>,
    pub user_infos_cache: Map<Seq<char>, Option<UserProfileView>>,
    pub image_cache: Map<Seq<char>, Option<Seq<u8>>>,
    pub post_likers_cache: Map<StrongRefView, Option<Seq<UserProfileView>>>,
    pub post_replies_cache: Map<StrongRefView, Option<Seq<PostView>>>,
    pub opened_image_views: Set<Seq<char>>,
    pub commands: Seq<BskyActorMsgView>,
    pub ui_messages: Seq<RedskyUiMsgView>,
}

impl View for RedskyApp {
    type V = AppState;

    open spec fn view(&self) -> AppState {
        AppState {
            is_logged_in: self.is_logged_in,
            is_post_window_open: self.is_post_window_open,
            main_view_state: self.main_view_state,
            login: self.login@,
            pass: self.pass@,
            msg: self.msg@,
            timeline: self.timeline.deep_view(),
            user_posts: self.user_posts@,
            user_infos_cache: self.user_infos_cache@,
            image_cache: self.image_cache@,
            post_likers_cache: self.post_likers_cache@,
            post_replies_cache: self.post_replies_cache@,
            opened_image_views: self.opened_image_views@,
            commands: self.commands.deep_view(),
            ui_messages: self.ui_messages.deep_view(),
        }
    }
}

impl AppState {
    /// The state with one more command in its queue.
    pub open spec fn send(self, command: BskyActorMsgView) -> AppState {
        AppState { commands: self.commands.push(command), ..self }
    }

    /// The state with one more note to a later tick.
    pub open spec fn note(self, message: RedskyUiMsgView) -> AppState {
        AppState { ui_messages: self.ui_messages.push(message), ..self }
    }

    /// Wanting the image at `url`: if nothing is known of it, it becomes
    /// pending and its fetch is commanded; else nothing happens.
    pub open spec fn request_image(self, url: Seq<char>) -> AppState {
        if self.image_cache.dom().contains(url) {
            self
        } else {
            AppState { image_cache: self.image_cache.insert(url, None), ..self }.send(
                BskyActorMsgView::LoadImage { url },
            )
        }
    }

    /// Wanting the images at `urls`, one after the other.
    pub open spec fn request_images(self, urls: Seq<Seq<char>>) -> AppState
        decreases urls.len(),
    {
        if urls.len() == 0 {
            self
        } else {
            self.request_images(urls.drop_last()).request_image(urls.last())
        }
    }

    /// Wanting the posts of `handle`: requested if nothing is known of them.
    pub open spec fn request_user_posts(self, handle: Seq<char>) -> AppState {
        if self.user_posts.dom().contains(handle) {
            self
        } else {
            AppState { user_posts: self.user_posts.insert(handle, None), ..self }.send(
                BskyActorMsgView::GetUserPosts { username: handle },
            )
        }
    }

    /// Wanting the profile of `handle`: requested if nothing is known of it.
    pub open spec fn request_profile(self, handle: Seq<char>) -> AppState {
        if self.user_infos_cache.dom().contains(handle) {
            self
        } else {
            AppState { user_infos_cache: self.user_infos_cache.insert(handle, None), ..self }.send(
                BskyActorMsgView::GetUserProfile { username: handle },
            )
        }
    }

    /// Wanting the thread under `thread_ref`: requested if nothing is known
    /// of it.
    pub open spec fn request_thread(self, thread_ref: StrongRefView) -> AppState {
        if self.post_replies_cache.dom().contains(thread_ref) {
            self
        } else {
            AppState {
                post_replies_cache: self.post_replies_cache.insert(thread_ref, None),
                ..self
            }.send(BskyActorMsgView::GetPostAndReplies { post_ref: thread_ref })
        }
    }

    /// The state after the loop has taken `msg`.
    pub open spec fn step(self, msg: RedskyUiMsgView) -> AppState {
        match msg {
            RedskyUiMsgView::LogInSucceededMsg => AppState {
                is_logged_in: true,
                main_view_state: MainViewState::OwnPostFeed,
                ..self
            }.request_user_posts(self.login).request_profile(self.login).send(
                BskyActorMsgView::GetTimeline,
            ),
            RedskyUiMsgView::PostSucceeed => self.send(BskyActorMsgView::GetTimeline),
            RedskyUiMsgView::PrepareUserView { username } => self.request_user_posts(
                username,
            ).request_profile(username),
            RedskyUiMsgView::PrepareThreadView { thread_ref } => self.request_thread(thread_ref),
            RedskyUiMsgView::CloseThreadView { thread_ref } => AppState {
                post_replies_cache: self.post_replies_cache.remove(thread_ref),
                ..self
            },
            RedskyUiMsgView::NotifyImageLoaded { url, data } => AppState {
                image_cache: self.image_cache.insert(url, Some(data)),
                ..self
            },
            RedskyUiMsgView::NotifyLikesLoaded { post_uri, likers } => AppState {
                post_likers_cache: self.post_likers_cache.insert(post_uri, Some(likers)),
                ..self
            },
            RedskyUiMsgView::NotifyPostAndRepliesLoaded { post, replies } => {
                let thread = seq![post] + replies;
                let wanted = self.request_images(image_urls(thread));
                AppState {
                    post_replies_cache: wanted.post_replies_cache.insert(
                        StrongRefView { uri: post.uri, cid: post.cid },
                        Some(thread),
                    ),
                    ..wanted
                }
            },
            RedskyUiMsgView::ShowUserProfile { profile } => AppState {
                user_infos_cache: self.user_infos_cache.insert(profile.handle, Some(profile)),
                ..self
            },
            RedskyUiMsgView::RefreshTimelineMsg { posts } => AppState {
                timeline: posts,
                ..self.request_images(image_urls(posts))
            },
            RedskyUiMsgView::ShowUserPostsMsg { username, posts } => {
                let wanted = self.request_images(image_urls(posts));
                AppState { user_posts: wanted.user_posts.insert(username, Some(posts)), ..wanted }
            },
            RedskyUiMsgView::DropUserPostsMsg { username } => AppState {
                user_posts: self.user_posts.remove(username),
                ..self
            },
            RedskyUiMsgView::PrepareImageView { img_uri } => self.request_image(img_uri),
            RedskyUiMsgView::ShowBigImageView { img_uri } => AppState {
                opened_image_views: self.opened_image_views.insert(img_uri),
                ..self
            }.request_image(img_uri),
            RedskyUiMsgView::CloseBigImageView { img_uri } => AppState {
                opened_image_views: self.opened_image_views.remove(img_uri),
                ..self
            },
            RedskyUiMsgView::ShowErrorMsg { error } => self,
        }
    }

    /// The state after the loop has taken `msgs` one after the other.
    pub open spec fn steps(self, msgs: Seq<RedskyUiMsgView>) -> AppState
        decreases msgs.len(),
    {
        if msgs.len() == 0 {
            self
        } else {
            self.steps(msgs.drop_last()).step(msgs.last())
        }
    }

    /// The state after a tick that received `msg`, if it received one.
    pub open spec fn tick(self, received: Option<RedskyUiMsgView>) -> AppState {
        match received {
            Some(msg) => self.step(msg),
            None => self,
        }
    }

    /// The state after the user chose the main view `target`. Before the
    /// login nothing can be chosen, and the login view cannot be chosen.
    pub open spec fn select(self, target: MainViewState) -> AppState {
        if self.main_view_state != MainViewState::Login && target != MainViewState::Login {
            AppState { main_view_state: target, ..self }
        } else {
            self
        }
    }

    /// The notes that ask for the images among `urls` of which nothing is
    /// known, in the order of `urls`.
    pub open spec fn prepare_notes(self, urls: Seq<Seq<char>>) -> Seq<RedskyUiMsgView>
        decreases urls.len(),
    {
        if urls.len() == 0 {
            Seq::empty()
        } else if self.image_cache.dom().contains(urls.last()) {
            self.prepare_notes(urls.drop_last())
        } else {
            self.prepare_notes(urls.drop_last()).push(
                RedskyUiMsgView::PrepareImageView { img_uri: urls.last() },
            )
        }
    }
}

/// The addresses of the thumbnails of a post's images, in order.
pub open spec fn thumbnail_urls(embeds: Seq<PostImageView>) -> Seq<Seq<char>> {
    Seq::new(embeds.len(), |i: int| embeds[i].thumbnail_url)
}

/// The addresses of the images that a list of posts shows: for each post
/// its author's avatar, then the thumbnails of its images.
pub open spec fn image_urls(posts: Seq<PostView>) -> Seq<Seq<char>>
    decreases posts.len(),
{
    if posts.len() == 0 {
        Seq::empty()
    } else {
        image_urls(posts.drop_last()).push(posts.last().avatar_img) + thumbnail_urls(
            posts.last().embeds,
        )
    }
}

impl RedskyApp {
    /// The state at start: logged out, nothing cached, nothing queued.
    pub fn new() -> (r: Self)
        ensures
            r@ == (AppState {
                is_logged_in: false,
                is_post_window_open: false,
                main_view_state: MainViewState::Login,
                login: Seq::empty(),
                pass: Seq::empty(),
                msg: Seq::empty(),
                timeline: Seq::empty(),
                user_posts: Map::empty(),
                user_infos_cache: Map::empty(),
                image_cache: Map::empty(),
                post_likers_cache: Map::empty(),
                post_replies_cache: Map::empty(),
                opened_image_views: Set::empty(),
                commands: Seq::empty(),
                ui_messages: Seq::empty(),
            }),
    {
        let r = RedskyApp {
            is_logged_in: false,
            is_post_window_open: false,
            main_view_state: MainViewState::Login,
            login: String::new(),
            pass: String::new(),
            msg: String::new(),
            timeline: Vec::new(),
            user_posts: Cache::new(),
            user_infos_cache: Cache::new(),
            image_cache: Cache::new(),
            post_likers_cache: Cache::new(),
            post_replies_cache: Cache::new(),
            opened_image_views: KeySet::new(),
            commands: Vec::new(),
            ui_messages: Vec::new(),
        };
        r
    }

    /// Queues a command for the network actor. The call returns at once.
    pub fn post_message(&mut self, msg: BskyActorMsg)
        ensures
            final(self)@ == old(self)@.send(msg@),
    {
        self.commands.push(msg);
    }

    /// Queues a note to a later tick of this loop.
    pub fn post_ui_message(&mut self, msg: RedskyUiMsg)
        ensures
            final(self)@ == old(self)@.note(msg@),
    {
        self.ui_messages.push(msg);
    }

    /// Wants the image at `url` shown: an image of which nothing is known
    /// becomes pending and its fetch is commanded, in this same tick; one
    /// that is pending or loaded is not requested again.
    pub fn request_image(&mut self, url: &String)
        ensures
            final(self)@ == old(self)@.request_image(url@),
    {
        if self.image_cache.request(url.clone()) {
            self.post_message(BskyActorMsg::LoadImage { url: url.clone() });
        }
    }

    /// Wants the images of `posts` shown: for each post its author's
    /// avatar and the thumbnail of each of its images, whether or not the
    /// post is scrolled into sight.
    pub fn request_post_images(&mut self, posts: &Vec<Post>)
        ensures
            final(self)@ == old(self)@.request_images(image_urls(posts.deep_view())),
    {
        let ghost start = self@;
        let ghost all = posts.deep_view();
        let ghost mut done: Seq<Seq<char>> = Seq::empty();
        let mut i: usize = 0;
        while i < posts.len()
            invariant
                i <= posts.len(),
                all == posts.deep_view(),
                done == image_urls(all.take(i as int)),
                self@ == start.request_images(done),
            decreases posts.len() - i,
        {
            let post = &posts[i];
            let ghost head = done;
            let ghost thumbs = thumbnail_urls(post.embeds.deep_view());
            self.request_image(&post.avatar_img);
            proof {
                done = done.push(post.avatar_img@);
                assert(done.drop_last() =~= head);
            }
            let mut j: usize = 0;
            while j < post.embeds.len()
                invariant
                    j <= post.embeds.len(),
                    thumbs == thumbnail_urls(post.embeds.deep_view()),
                    done == head.push(post.avatar_img@) + thumbs.take(j as int),
                    self@ == start.request_images(done),
                decreases post.embeds.len() - j,
            {
                let ghost before = done;
                self.request_image(&post.embeds[j].thumbnail_url);
                proof {
                    done = done.push(post.embeds[j as int].thumbnail_url@);
                    assert(done.drop_last() =~= before);
                }
                j += 1;
            }
            proof {
                assert(all.take(i + 1).drop_last() =~= all.take(i as int));
            }
            i += 1;
        }
        proof {
            assert(all.take(i as int) =~= all);
        }
    }

    /// Wants the posts of `handle` shown: requested, with their
    /// placeholder, if nothing is known of them.
    pub fn request_user_posts(&mut self, handle: &String)
        ensures
            final(self)@ == old(self)@.request_user_posts(handle@),
    {
        if self.user_posts.request(handle.clone()) {
            self.post_message(BskyActorMsg::GetUserPosts { username: handle.clone() });
        }
    }

    /// Wants the profile of `handle` shown: requested, with its
    /// placeholder, if nothing is known of it.
    pub fn request_profile(&mut self, handle: &String)
        ensures
            final(self)@ == old(self)@.request_profile(handle@),
    {
        if self.user_infos_cache.request(handle.clone()) {
            self.post_message(BskyActorMsg::GetUserProfile { username: handle.clone() });
        }
    }

    /// Wants the thread under `thread_ref` shown: requested, with its
    /// placeholder, if nothing is known of it.
    pub fn request_thread(&mut self, thread_ref: &StrongRef)
        ensures
            final(self)@ == old(self)@.request_thread(thread_ref@),
    {
        if self.post_replies_cache.request(thread_ref.clone()) {
            self.post_message(BskyActorMsg::GetPostAndReplies { post_ref: thread_ref.clone() });
        }
    }

    /// Applies one message to the state.
    ///
    /// An answer of the actor fills the cache entry it belongs to, and the
    /// images of the posts it brought are requested in the same step. A
    /// note that opens a view requests what the view shows, unless it is
    /// known already; a note that closes a view releases the view's entry.
    /// An error changes nothing: the entry that waited for the failed
    /// fetch stays pending until its view is closed.
    pub fn process_message(&mut self, msg: RedskyUiMsg)
        ensures
            final(self)@ == old(self)@.step(msg@),
    {
        match msg {
            RedskyUiMsg::PostSucceeed() => {
                self.post_message(BskyActorMsg::GetTimeline());
            },
            RedskyUiMsg::RefreshTimelineMsg { posts } => {
                self.request_post_images(&posts);
                self.timeline = posts;
            },
            RedskyUiMsg::PrepareUserView { username } => {
                self.request_user_posts(&username);
                self.request_profile(&username);
            },
            RedskyUiMsg::PrepareImageView { img_uri } => {
                self.request_image(&img_uri);
            },
            RedskyUiMsg::ShowUserProfile { profile } => {
                self.user_infos_cache.resolve(profile.handle.clone(), profile);
            },
            RedskyUiMsg::ShowUserPostsMsg { username, posts } => {
                self.request_post_images(&posts);
                self.user_posts.resolve(username, posts);
            },
            RedskyUiMsg::PrepareThreadView { thread_ref } => {
                self.request_thread(&thread_ref);
            },
            RedskyUiMsg::CloseThreadView { thread_ref } => {
                self.post_replies_cache.release(&thread_ref);
            },
            RedskyUiMsg::DropUserPostsMsg { username } => {
                self.user_posts.release(&username);
            },
            RedskyUiMsg::ShowErrorMsg { error } => {},
            RedskyUiMsg::NotifyLikesLoaded { post_uri, likers } => {
                self.post_likers_cache.resolve(post_uri, likers);
            },
            RedskyUiMsg::NotifyPostAndRepliesLoaded { post, replies } => {
                let ghost thread = seq![post@] + replies.deep_view();
                let strong_ref = post.strong_ref();
                let mut replies = replies;
                replies.insert(0, post);
                assert(replies.deep_view() =~= thread);
                self.request_post_images(&replies);
                self.post_replies_cache.resolve(strong_ref, replies);
            },
            RedskyUiMsg::LogInSucceededMsg() => {
                self.is_logged_in = true;
                self.main_view_state = MainViewState::OwnPostFeed;
                let login = self.login.clone();
                self.request_user_posts(&login);
                self.request_profile(&login);
                self.post_message(BskyActorMsg::GetTimeline());
            },
            RedskyUiMsg::NotifyImageLoaded { url, data } => {
                assert(data.deep_view() =~= data@);
                self.image_cache.resolve(url, data);
            },
            RedskyUiMsg::ShowBigImageView { img_uri } => {
                self.opened_image_views.insert(img_uri.clone());
                self.request_image(&img_uri);
            },
            RedskyUiMsg::CloseBigImageView { img_uri } => {
                self.opened_image_views.remove(&img_uri);
            },
        }
    }

    /// One tick of the loop: takes the message that was received, if
    /// there was one, and never more than one. Without a message the state
    /// stays as it is.
    pub fn update(&mut self, received: Option<RedskyUiMsg>)
        ensures
            final(self)@ == old(self)@.tick(received.deep_view()),
    {
        if let Some(msg) = received {
            self.process_message(msg);
        }
    }

    /// Hands out the commands that wait for the network actor, oldest
    /// first, and empties the queue.
    pub fn take_commands(&mut self) -> (r: Vec<BskyActorMsg>)
        ensures
            r.deep_view() == old(self)@.commands,
            final(self)@ == (AppState { commands: Seq::empty(), ..old(self)@ }),
    {
        let mut r: Vec<BskyActorMsg> = Vec::new();
        core::mem::swap(&mut self.commands, &mut r);
        r
    }

    /// Hands out the notes to later ticks, oldest first, and empties the
    /// queue.
    pub fn take_ui_messages(&mut self) -> (r: Vec<RedskyUiMsg>)
        ensures
            r.deep_view() == old(self)@.ui_messages,
            final(self)@ == (AppState { ui_messages: Seq::empty(), ..old(self)@ }),
    {
        let mut r: Vec<RedskyUiMsg> = Vec::new();
        core::mem::swap(&mut self.ui_messages, &mut r);
        r
    }

    /// The login form was submitted: the login is commanded with the name
    /// and the password as they stand.
    pub fn submit_login(&mut self)
        ensures
            final(self)@ == old(self)@.send(
                BskyActorMsgView::Login { login: old(self)@.login, pass: old(self)@.pass },
            ),
    {
        let login = self.login.clone();
        let pass = self.pass.clone();
        self.post_message(BskyActorMsg::Login { login, pass });
    }

    /// The user chose a main view. This costs no network traffic.
    pub fn select_main_view(&mut self, target: MainViewState)
        ensures
            final(self)@ == old(self)@.select(target),
    {
        if self.main_view_state != MainViewState::Login && target != MainViewState::Login {
            self.main_view_state = target;
        }
    }

    /// The window for a new post was asked for.
    pub fn open_post_window(&mut self)
        ensures
            final(self)@ == (AppState { is_post_window_open: true, ..old(self)@ }),
    {
        self.is_post_window_open = true;
    }

    /// The window for a new post was closed.
    pub fn close_post_window(&mut self)
        ensures
            final(self)@ == (AppState { is_post_window_open: false, ..old(self)@ }),
    {
        self.is_post_window_open = false;
    }

    /// The new post was sent off: its text is commanded to be posted and
    /// the text field is emptied.
    pub fn send_post(&mut self)
        ensures
            final(self)@ == (AppState {
                msg: Seq::empty(),
                ..old(self)@.send(BskyActorMsgView::Post { msg_body: old(self)@.msg })
            }),
    {
        let mut msg_body = String::new();
        core::mem::swap(&mut self.msg, &mut msg_body);
        self.post_message(BskyActorMsg::Post { msg_body });
    }

    /// The author of `post` was clicked: a view of that user is to open.
    pub fn author_clicked(&mut self, post: &Post)
        ensures
            final(self)@ == old(self)@.note(
                RedskyUiMsgView::PrepareUserView { username: post@.author },
            ),
    {
        self.post_ui_message(RedskyUiMsg::PrepareUserView { username: post.author.clone() });
    }

    /// `post` was clicked: a view of its thread is to open.
    pub fn post_clicked(&mut self, post: &Post)
        ensures
            final(self)@ == old(self)@.note(
                RedskyUiMsgView::PrepareThreadView {
                    thread_ref: StrongRefView { uri: post@.uri, cid: post@.cid },
                },
            ),
    {
        self.post_ui_message(RedskyUiMsg::PrepareThreadView { thread_ref: post.strong_ref() });
    }

    /// An image was clicked. Where it has an address for its full view, a
    /// view of that address is to open.
    pub fn image_clicked(&mut self, full_view_uri: Option<&String>)
        ensures
            final(self)@ == match full_view_uri {
                Some(uri) => old(self)@.note(RedskyUiMsgView::ShowBigImageView { img_uri: uri@ }),
                None => old(self)@,
            },
    {
        if let Some(uri) = full_view_uri {
            self.post_ui_message(RedskyUiMsg::ShowBigImageView { img_uri: uri.clone() });
        }
    }

    /// The view of the user `username` was closed.
    pub fn close_user_view(&mut self, username: &String)
        ensures
            final(self)@ == old(self)@.note(
                RedskyUiMsgView::DropUserPostsMsg { username: username@ },
            ),
    {
        self.post_ui_message(RedskyUiMsg::DropUserPostsMsg { username: username.clone() });
    }

    /// The view of the thread under `thread_ref` was closed.
    pub fn close_thread_view(&mut self, thread_ref: &StrongRef)
        ensures
            final(self)@ == old(self)@.note(
                RedskyUiMsgView::CloseThreadView { thread_ref: thread_ref@ },
            ),
    {
        self.post_ui_message(RedskyUiMsg::CloseThreadView { thread_ref: thread_ref.clone() });
    }

    /// The full view of the image at `img_uri` was closed.
    pub fn close_image_view(&mut self, img_uri: &String)
        ensures
            final(self)@ == old(self)@.note(
                RedskyUiMsgView::CloseBigImageView { img_uri: img_uri@ },
            ),
    {
        self.post_ui_message(RedskyUiMsg::CloseBigImageView { img_uri: img_uri.clone() });
    }

    /// Prepares the header of the view of `username`: once the profile has
    /// arrived, its avatar is wanted. Until then there is nothing to ask
    /// for, and the header shows the name and a spinner.
    pub fn make_maybe_user_profile_view(&mut self, username: &String)
        ensures
            final(self)@ == match state_of(old(self)@.user_infos_cache, username@) {
                Entry::Loaded(profile) => old(self)@.request_image(profile.avatar_uri),
                _ => old(self)@,
            },
    {
        let avatar = match self.user_infos_cache.observe(username) {
            Entry::Loaded(profile) => Some(profile.avatar_uri.clone()),
            _ => None,
        };
        if let Some(uri) = avatar {
            self.request_image(&uri);
        }
    }

    /// The users whose views are open: every user of whose posts something
    /// is known or awaited, but for the user who is logged in, whose posts
    /// the main view shows. Each comes once; the order means nothing.
    pub fn make_user_timelines_views(&self) -> (r: Vec<String>)
        ensures
            forall|i: int, j: int| 0 <= i < j < r@.len() ==> r@[i]@ != r@[j]@,
            forall|i: int|
                0 <= i < r@.len() ==> self@.user_posts.dom().contains(#[trigger] r@[i]@) && r@[i]@
                    != self@.login,
            forall|k: Seq<char>|
                self@.user_posts.dom().contains(k) && k != self@.login ==> exists|i: int|
                    0 <= i < r@.len() && #[trigger] r@[i]@ == k,
    {
        let keys = self.user_posts.keys();
        let mut r: Vec<String> = Vec::new();
        let ghost mut from: Seq<int> = Seq::empty();
        let mut i: usize = 0;
        while i < keys.len()
            invariant
                i <= keys.len(),
                from.len() == r@.len(),
                forall|a: int|
                    0 <= a < r@.len() ==> 0 <= #[trigger] from[a] < i && r@[a]@
                        == keys@[from[a]]@,
                forall|a: int, b: int| 0 <= a < b < r@.len() ==> from[a] < from[b],
                forall|a: int| 0 <= a < r@.len() ==> #[trigger] r@[a]@ != self@.login,
                forall|c: int|
                    0 <= c < i && keys@[c]@ != self@.login ==> exists|a: int|
                        0 <= a < r@.len() && #[trigger] r@[a]@ == keys@[c]@,
            decreases keys.len() - i,
        {
            if !keys[i].same(&self.login) {
                let ghost before = r@;
                r.push(keys[i].clone());
                proof {
                    from = from.push(i as int);
                    assert forall|c: int| 0 <= c < i + 1 && keys@[c]@ != self@.login implies exists|
                        a: int,
                    | 0 <= a < r@.len() && #[trigger] r@[a]@ == keys@[c]@ by {
                        if c < i {
                            let a = choose|a: int|
                                0 <= a < before.len() && #[trigger] before[a]@ == keys@[c]@;
                            assert(r@[a]@ == keys@[c]@);
                        } else {
                            assert(r@[r@.len() - 1]@ == keys@[c]@);
                        }
                    }
                }
            }
            i += 1;
        }
        proof {
            assert forall|k: Seq<char>|
                self@.user_posts.dom().contains(k) && k != self@.login implies exists|a: int|
                0 <= a < r@.len() && #[trigger] r@[a]@ == k by {
                let c = choose|c: int| 0 <= c < keys@.len() && #[trigger] keys@[c]@ == k;
                assert(keys@[c]@ != self@.login);
            }
            assert forall|a: int, b: int| 0 <= a < b < r@.len() implies r@[a]@ != r@[b]@ by {
                assert(from[a] < from[b]);
            }
            assert forall|a: int| 0 <= a < r@.len() implies self@.user_posts.dom().contains(
                #[trigger] r@[a]@,
            ) by {
                assert(r@[a]@ == keys@[from[a]]@);
            }
        }
        r
    }

    /// The threads whose views are open: every thread of which something
    /// is known or awaited. Each comes once; the order means nothing.
    pub fn make_open_thread_views(&self) -> (r: Vec<StrongRef>)
        ensures
            forall|i: int, j: int| 0 <= i < j < r@.len() ==> r@[i]@ != r@[j]@,
            forall|i: int|
                0 <= i < r@.len() ==> self@.post_replies_cache.dom().contains(#[trigger] r@[i]@),
            forall|k: StrongRefView|
                self@.post_replies_cache.dom().contains(k) ==> exists|i: int|
                    0 <= i < r@.len() && #[trigger] r@[i]@ == k,
    {
        let keys = self.post_replies_cache.keys();
        let mut r: Vec<StrongRef> = Vec::new();
        let mut i: usize = 0;
        while i < keys.len()
            invariant
                i <= keys.len(),
                r@.len() == i,
                forall|a: int| 0 <= a < i ==> #[trigger] r@[a]@ == keys@[a]@,
            decreases keys.len() - i,
        {
            r.push(keys[i].clone());
            i += 1;
        }
        proof {
            assert forall|k: StrongRefView| self@.post_replies_cache.dom().contains(k) implies exists|
                a: int,
            | 0 <= a < r@.len() && #[trigger] r@[a]@ == k by {
                let c = choose|c: int| 0 <= c < keys@.len() && #[trigger] keys@[c]@ == k;
                assert(r@[c]@ == k);
            }
        }
        r
    }

    /// The images whose full views are open, each once, in no particular
    /// order. For each of them of which nothing is known, a note is left
    /// that asks for it.
    pub fn make_image_viewports(&mut self) -> (r: Vec<String>)
        ensures
            forall|i: int, j: int| 0 <= i < j < r@.len() ==> r@[i]@ != r@[j]@,
            forall|i: int|
                0 <= i < r@.len() ==> old(self)@.opened_image_views.contains(#[trigger] r@[i]@),
            forall|k: Seq<char>|
                old(self)@.opened_image_views.contains(k) ==> exists|i: int|
                    0 <= i < r@.len() && #[trigger] r@[i]@ == k,
            final(self)@ == (AppState {
                ui_messages: old(self)@.ui_messages + old(self)@.prepare_notes(r.deep_view()),
                ..old(self)@
            }),
    {
        let mut r: Vec<String> = Vec::new();
        {
            let keys = self.opened_image_views.keys();
            let mut i: usize = 0;
            while i < keys.len()
                invariant
                    i <= keys.len(),
                    r@.len() == i,
                    forall|a: int| 0 <= a < i ==> #[trigger] r@[a]@ == keys@[a]@,
                decreases keys.len() - i,
            {
                r.push(keys[i].clone());
                i += 1;
            }
            proof {
                assert forall|k: Seq<char>| self@.opened_image_views.contains(k) implies exists|
                    a: int,
                | 0 <= a < r@.len() && #[trigger] r@[a]@ == k by {
                    let c = choose|c: int| 0 <= c < keys@.len() && #[trigger] keys@[c]@ == k;
                    assert(r@[c]@ == k);
                }
            }
        }
        let ghost start = self@;
        let ghost urls = r.deep_view();
        let mut i: usize = 0;
        while i < r.len()
            invariant
                i <= r.len(),
                urls == r.deep_view(),
                self@ == (AppState {
                    ui_messages: start.ui_messages + start.prepare_notes(urls.take(i as int)),
                    ..start
                }),
            decreases r.len() - i,
        {
            proof {
                assert(urls.take(i + 1).drop_last() =~= urls.take(i as int));
            }
            if !self.image_cache.contains_key(&r[i]) {
                self.post_ui_message(RedskyUiMsg::PrepareImageView { img_uri: r[i].clone() });
            }
            i += 1;
        }
        proof {
            assert(urls.take(i as int) =~= urls);
        }
        r
    }
}

} // verus!
