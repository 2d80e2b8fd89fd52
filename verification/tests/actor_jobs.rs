use redsky::bsky_actor::{BskyActor, BskyJob, JobError};
use redsky::messages::{BskyActorMsg, RedskyUiMsg};
use redsky::model::{StrongRef, UserProfile};
use redsky::remote::{
    PostRecord, RemoteAuthor, RemoteCall, RemoteLiker, RemotePost, RemoteProfile, RemoteReply,
    RemoteThread, ShapeError,
};

fn s(text: &str) -> String {
    text.to_string()
}

fn remote_post(uri: &str, text: Option<&str>) -> RemotePost {
    RemotePost {
        uri: s(uri),
        cid: format!("cid:{}", uri),
        record: text.map(|t| PostRecord { text: s(t), created_at: s("2024-05-01T10:00:00Z") }),
        author: RemoteAuthor { handle: s("alice.test"), display_name: None, avatar: None },
        like_count: None,
        repost_count: None,
        embed: None,
    }
}

fn job(msg: BskyActorMsg) -> BskyJob {
    BskyJob { job: msg }
}

fn error(text: &str) -> RedskyUiMsg {
    RedskyUiMsg::ShowErrorMsg { error: s(text) }
}

#[test]
fn pump_spawns_one_job_per_command() {
    let mut actor = BskyActor::new();
    assert!(actor.running);
    let spawned = actor.pump(Some(BskyActorMsg::GetTimeline()));
    assert_eq!(spawned, Some(job(BskyActorMsg::GetTimeline())));
    assert!(actor.running);
    let spawned = actor.pump(Some(BskyActorMsg::LoadImage { url: s("u") }));
    assert_eq!(spawned, Some(job(BskyActorMsg::LoadImage { url: s("u") })));
    assert!(actor.running);
}

#[test]
fn pump_stops_on_close() {
    let mut actor = BskyActor::new();
    assert_eq!(actor.pump(Some(BskyActorMsg::Close())), None);
    assert!(!actor.running);
    assert_eq!(actor.pump(Some(BskyActorMsg::GetTimeline())), None);
    assert!(!actor.running);
}

#[test]
fn pump_stops_when_the_queue_is_gone() {
    let mut actor = BskyActor::new();
    assert_eq!(actor.pump(None), None);
    assert!(!actor.running);
}

#[test]
fn n_image_commands_make_n_jobs() {
    let mut actor = BskyActor::new();
    let mut jobs = Vec::new();
    for i in 0..5 {
        let url = format!("img{}", i);
        if let Some(j) = actor.pump(Some(BskyActorMsg::LoadImage { url })) {
            jobs.push(j);
        }
    }
    assert_eq!(jobs.len(), 5);
    assert_eq!(jobs[3], job(BskyActorMsg::LoadImage { url: s("img3") }));
}

#[test]
fn calls_carry_the_parameters_of_their_commands() {
    assert_eq!(
        job(BskyActorMsg::Login { login: s("alice"), pass: s("pw") }).request(),
        Ok(RemoteCall::Login { identifier: s("alice"), password: s("pw") })
    );
    assert_eq!(
        job(BskyActorMsg::Post { msg_body: s("hi") }).request(),
        Ok(RemoteCall::CreatePost { text: s("hi") })
    );
    assert_eq!(
        job(BskyActorMsg::GetTimeline()).request(),
        Ok(RemoteCall::GetTimeline { limit: 30 })
    );
    assert_eq!(
        job(BskyActorMsg::GetPostAndReplies {
            post_ref: StrongRef { uri: s("at://a/1"), cid: s("c1") }
        })
        .request(),
        Ok(RemoteCall::GetPostThread { uri: s("at://a/1"), depth: 1, parent_height: 0 })
    );
    assert_eq!(
        job(BskyActorMsg::GetPostLikers {
            post_ref: StrongRef { uri: s("at://a/1"), cid: s("c1") }
        })
        .request(),
        Ok(RemoteCall::GetLikes { uri: s("at://a/1"), cid: s("c1") })
    );
    assert_eq!(
        job(BskyActorMsg::LoadImage { url: s("https://img/1") }).request(),
        Ok(RemoteCall::FetchBytes { url: s("https://img/1") })
    );
}

#[test]
fn valid_handle_is_admitted() {
    assert_eq!(
        job(BskyActorMsg::GetUserPosts { username: s("alice.bsky.social") }).request(),
        Ok(RemoteCall::GetAuthorFeed {
            actor: s("alice.bsky.social"),
            include_pins: true,
            limit: 20
        })
    );
    assert_eq!(
        job(BskyActorMsg::GetUserProfile { username: s("alice.bsky.social") }).request(),
        Ok(RemoteCall::GetProfile { actor: s("alice.bsky.social") })
    );
}

#[test]
fn invalid_handle_ends_the_job_before_any_call() {
    let refused = job(BskyActorMsg::GetUserPosts { username: s("not a handle") }).request();
    assert_eq!(refused, Err(JobError::InvalidHandle { message: s("Invalid handle") }));
    let refused = job(BskyActorMsg::GetUserProfile { username: s("alice") }).request();
    assert_eq!(refused, Err(JobError::InvalidHandle { message: s("Invalid handle") }));
    assert_eq!(BskyJob::fail(&refused.unwrap_err()), error("Invalid handle"));
}

#[test]
fn too_long_handle_is_refused_as_too_long() {
    let long = format!("{}.test", "a".repeat(260));
    let refused = job(BskyActorMsg::GetUserProfile { username: long }).request();
    assert_eq!(refused, Err(JobError::InvalidHandle { message: s("Handle too long") }));
}

#[test]
fn request_checked_follows_the_check() {
    let j = job(BskyActorMsg::GetUserProfile { username: s("whatever") });
    assert_eq!(
        j.request_checked(Some(Ok(s("whatever")))),
        Ok(RemoteCall::GetProfile { actor: s("whatever") })
    );
    assert_eq!(
        j.request_checked(Some(Err(s("no")))),
        Err(JobError::InvalidHandle { message: s("no") })
    );
    assert_eq!(j.request_checked(None), Ok(RemoteCall::GetProfile { actor: s("whatever") }));
}

#[test]
fn failed_call_becomes_one_error_with_its_text() {
    let jobs = vec![
        BskyActorMsg::Login { login: s("a"), pass: s("b") },
        BskyActorMsg::Post { msg_body: s("m") },
        BskyActorMsg::GetTimeline(),
        BskyActorMsg::GetUserPosts { username: s("a.test") },
        BskyActorMsg::GetUserProfile { username: s("a.test") },
        BskyActorMsg::GetPostAndReplies { post_ref: StrongRef { uri: s("u"), cid: s("c") } },
        BskyActorMsg::GetPostLikers { post_ref: StrongRef { uri: s("u"), cid: s("c") } },
        BskyActorMsg::LoadImage { url: s("u") },
    ];
    for msg in jobs {
        assert_eq!(job(msg).perform(Err(s("connection refused"))), error("connection refused"));
    }
}

#[test]
fn login_and_post_answers() {
    assert_eq!(
        job(BskyActorMsg::Login { login: s("a"), pass: s("b") }).perform(Ok(RemoteReply::LoggedIn)),
        RedskyUiMsg::LogInSucceededMsg()
    );
    assert_eq!(
        job(BskyActorMsg::Post { msg_body: s("m") }).perform(Ok(RemoteReply::PostCreated)),
        RedskyUiMsg::PostSucceeed()
    );
}

#[test]
fn answer_of_another_call_is_an_error() {
    assert_eq!(
        job(BskyActorMsg::GetTimeline()).perform(Ok(RemoteReply::LoggedIn)),
        error("the answer does not belong to the call")
    );
    assert_eq!(
        job(BskyActorMsg::Login { login: s("a"), pass: s("b") })
            .perform(Ok(RemoteReply::Bytes { data: vec![] })),
        error("the answer does not belong to the call")
    );
    assert_eq!(BskyJob::login(RemoteReply::PostCreated), Err(ShapeError::UnexpectedReply));
    assert_eq!(BskyJob::post(RemoteReply::LoggedIn), Err(ShapeError::UnexpectedReply));
    assert_eq!(
        BskyJob::load_image(&s("u"), RemoteReply::LoggedIn),
        Err(ShapeError::UnexpectedReply)
    );
}

#[test]
fn timeline_answer_keeps_the_order_of_posts() {
    let reply = RemoteReply::Feed {
        posts: vec![remote_post("at://a/1", Some("one")), remote_post("at://a/2", Some("two"))],
    };
    match job(BskyActorMsg::GetTimeline()).perform(Ok(reply)) {
        RedskyUiMsg::RefreshTimelineMsg { posts } => {
            assert_eq!(posts.len(), 2);
            assert_eq!(posts[0].content, "one");
            assert_eq!(posts[1].content, "two");
            assert_eq!(posts[0].author, "alice.test");
            assert_eq!(posts[0].display_name, "");
            assert_eq!(posts[0].like_count, 0);
        }
        other => panic!("unexpected {:?}", other),
    }
}

#[test]
fn user_posts_answer_names_the_user() {
    let reply = RemoteReply::Feed { posts: vec![remote_post("at://a/1", Some("one"))] };
    match job(BskyActorMsg::GetUserPosts { username: s("alice.test") }).perform(Ok(reply)) {
        RedskyUiMsg::ShowUserPostsMsg { username, posts } => {
            assert_eq!(username, "alice.test");
            assert_eq!(posts.len(), 1);
        }
        other => panic!("unexpected {:?}", other),
    }
}

#[test]
fn one_bad_record_fails_the_whole_feed() {
    let reply = RemoteReply::Feed {
        posts: vec![remote_post("at://a/1", Some("one")), remote_post("at://a/2", None)],
    };
    assert_eq!(
        job(BskyActorMsg::GetTimeline()).perform(Ok(reply)),
        error("the record of a post is not a post")
    );
}

#[test]
fn profile_answer_fills_in_what_is_missing() {
    let reply = RemoteReply::Profile {
        profile: RemoteProfile {
            display_name: None,
            description: None,
            avatar: None,
            followers_count: None,
            follows_count: Some(7),
            posts_count: None,
        },
    };
    assert_eq!(
        job(BskyActorMsg::GetUserProfile { username: s("alice.test") }).perform(Ok(reply)),
        RedskyUiMsg::ShowUserProfile {
            profile: UserProfile {
                handle: s("alice.test"),
                display_name: s("(no display name)"),
                bio: s("(No bio)"),
                avatar_uri: s(""),
                follower_count: 0,
                follow_count: 7,
                post_count: 0,
            }
        }
    );
}

#[test]
fn profile_answer_keeps_what_is_there() {
    let reply = RemoteReply::Profile {
        profile: RemoteProfile {
            display_name: Some(s("Alice")),
            description: Some(s("bio")),
            avatar: Some(s("https://img/a")),
            followers_count: Some(1),
            follows_count: Some(2),
            posts_count: Some(3),
        },
    };
    assert_eq!(
        BskyJob::get_user_profile(&s("alice.test"), reply),
        Ok(RedskyUiMsg::ShowUserProfile {
            profile: UserProfile {
                handle: s("alice.test"),
                display_name: s("Alice"),
                bio: s("bio"),
                avatar_uri: s("https://img/a"),
                follower_count: 1,
                follow_count: 2,
                post_count: 3,
            }
        })
    );
}

#[test]
fn likers_answer_has_no_counts() {
    let r = StrongRef { uri: s("at://a/1"), cid: s("c1") };
    let reply = RemoteReply::Likes {
        likes: vec![
            RemoteLiker {
                handle: s("bob.test"),
                display_name: Some(s("Bob")),
                description: None,
                avatar: None,
            },
            RemoteLiker {
                handle: s("carol.test"),
                display_name: None,
                description: Some(s("hi")),
                avatar: Some(s("ava-c")),
            },
        ],
    };
    match job(BskyActorMsg::GetPostLikers { post_ref: r.clone() }).perform(Ok(reply)) {
        RedskyUiMsg::NotifyLikesLoaded { post_uri, likers } => {
            assert_eq!(post_uri, r);
            assert_eq!(likers.len(), 2);
            assert_eq!(likers[0].handle, "bob.test");
            assert_eq!(likers[0].display_name, "Bob");
            assert_eq!(likers[0].bio, "(No bio)");
            assert_eq!(likers[0].avatar_uri, "");
            assert_eq!(likers[1].display_name, "(no display name)");
            assert_eq!(likers[1].bio, "hi");
            assert_eq!(likers[1].avatar_uri, "ava-c");
            assert_eq!(likers[1].follower_count, 0);
            assert_eq!(likers[1].follow_count, 0);
            assert_eq!(likers[1].post_count, 0);
        }
        other => panic!("unexpected {:?}", other),
    }
}

#[test]
fn thread_answer_has_post_and_replies_that_are_posts() {
    let reply = RemoteReply::Thread {
        thread: RemoteThread::Found {
            post: remote_post("at://a/1", Some("root")),
            replies: Some(vec![
                Some(remote_post("at://b/2", Some("first"))),
                None,
                Some(remote_post("at://c/3", Some("second"))),
            ]),
        },
    };
    let r = StrongRef { uri: s("at://a/1"), cid: s("cid:at://a/1") };
    match job(BskyActorMsg::GetPostAndReplies { post_ref: r }).perform(Ok(reply)) {
        RedskyUiMsg::NotifyPostAndRepliesLoaded { post, replies } => {
            assert_eq!(post.content, "root");
            assert_eq!(replies.len(), 2);
            assert_eq!(replies[0].content, "first");
            assert_eq!(replies[1].content, "second");
        }
        other => panic!("unexpected {:?}", other),
    }
}

#[test]
fn thread_without_replies_has_none() {
    let reply = RemoteReply::Thread {
        thread: RemoteThread::Found { post: remote_post("at://a/1", Some("root")), replies: None },
    };
    match BskyJob::get_post_thread(reply) {
        Ok(RedskyUiMsg::NotifyPostAndRepliesLoaded { post, replies }) => {
            assert_eq!(post.uri, "at://a/1");
            assert!(replies.is_empty());
        }
        other => panic!("unexpected {:?}", other),
    }
}

#[test]
fn unavailable_thread_is_an_error() {
    let reply = RemoteReply::Thread { thread: RemoteThread::Unavailable };
    let r = StrongRef { uri: s("at://a/1"), cid: s("c") };
    assert_eq!(
        job(BskyActorMsg::GetPostAndReplies { post_ref: r }).perform(Ok(reply)),
        error("the thread is not available")
    );
}

#[test]
fn bad_reply_comes_before_bad_root() {
    let reply = RemoteReply::Thread {
        thread: RemoteThread::Found {
            post: remote_post("at://a/1", None),
            replies: Some(vec![Some(RemotePost {
                embed: Some(redsky::remote::RemoteEmbed::Record {
                    record: Some(redsky::remote::QuotedRecord {
                        uri: s("at://q/1"),
                        cid: s("cq"),
                        value: None,
                        author: RemoteAuthor { handle: s("q.test"), display_name: None, avatar: None },
                        like_count: None,
                        repost_count: None,
                    }),
                }),
                ..remote_post("at://b/2", Some("reply"))
            })]),
        },
    };
    assert_eq!(BskyJob::get_post_thread(reply), Err(ShapeError::QuotedRecord));
}

#[test]
fn image_answer_carries_url_and_bytes() {
    assert_eq!(
        job(BskyActorMsg::LoadImage { url: s("https://img/1") })
            .perform(Ok(RemoteReply::Bytes { data: vec![0xff, 0xd8] })),
        RedskyUiMsg::NotifyImageLoaded { url: s("https://img/1"), data: vec![0xff, 0xd8] }
    );
}

#[test]
fn error_messages() {
    assert_eq!(JobError::InvalidHandle { message: s("x") }.message(), "x");
    assert_eq!(JobError::Remote { message: s("y") }.message(), "y");
    assert_eq!(
        JobError::Shape { error: ShapeError::PostRecord }.message(),
        "the record of a post is not a post"
    );
    assert_eq!(
        JobError::Shape { error: ShapeError::QuotedRecord }.message(),
        "the record that a post quotes is not a post"
    );
    assert_eq!(
        JobError::Shape { error: ShapeError::ThreadUnavailable }.message(),
        "the thread is not available"
    );
    assert_eq!(
        JobError::Shape { error: ShapeError::UnexpectedReply }.message(),
        "the answer does not belong to the call"
    );
    assert_eq!(BskyJob::fail(&JobError::Remote { message: s("down") }), error("down"));
}

#[test]
fn jobs_are_the_commands_before_close() {
    let received = vec![
        Some(BskyActorMsg::GetTimeline()),
        Some(BskyActorMsg::LoadImage { url: s("a") }),
        Some(BskyActorMsg::Close()),
        Some(BskyActorMsg::LoadImage { url: s("b") }),
        None,
        Some(BskyActorMsg::GetTimeline()),
    ];
    let mut actor = BskyActor::new();
    let mut jobs = Vec::new();
    for item in received {
        if let Some(j) = actor.pump(item) {
            jobs.push(j.job);
        }
    }
    assert_eq!(jobs, vec![BskyActorMsg::GetTimeline(), BskyActorMsg::LoadImage { url: s("a") }]);
    assert!(!actor.running);
}

#[test]
fn every_outcome_ends_in_the_matching_message_or_an_error() {
    let replies = || {
        vec![
            RemoteReply::LoggedIn,
            RemoteReply::PostCreated,
            RemoteReply::Feed { posts: vec![remote_post("at://a/1", Some("one"))] },
            RemoteReply::Profile {
                profile: RemoteProfile {
                    display_name: None,
                    description: None,
                    avatar: None,
                    followers_count: None,
                    follows_count: None,
                    posts_count: None,
                },
            },
            RemoteReply::Thread {
                thread: RemoteThread::Found {
                    post: remote_post("at://a/1", Some("root")),
                    replies: None,
                },
            },
            RemoteReply::Likes { likes: vec![] },
            RemoteReply::Bytes { data: vec![1] },
        ]
    };
    let commands = || {
        vec![
            BskyActorMsg::Login { login: s("a"), pass: s("b") },
            BskyActorMsg::Post { msg_body: s("m") },
            BskyActorMsg::GetTimeline(),
            BskyActorMsg::GetUserPosts { username: s("a.test") },
            BskyActorMsg::GetUserProfile { username: s("a.test") },
            BskyActorMsg::GetPostAndReplies { post_ref: StrongRef { uri: s("u"), cid: s("c") } },
            BskyActorMsg::GetPostLikers { post_ref: StrongRef { uri: s("u"), cid: s("c") } },
            BskyActorMsg::LoadImage { url: s("u") },
        ]
    };
    for (c, command) in commands().into_iter().enumerate() {
        let mut successes = 0;
        for reply in replies() {
            let event = job(command.clone()).perform(Ok(reply));
            let matching = match (&command, &event) {
                (BskyActorMsg::Login { .. }, RedskyUiMsg::LogInSucceededMsg()) => true,
                (BskyActorMsg::Post { .. }, RedskyUiMsg::PostSucceeed()) => true,
                (BskyActorMsg::GetTimeline(), RedskyUiMsg::RefreshTimelineMsg { .. }) => true,
                (
                    BskyActorMsg::GetUserPosts { username },
                    RedskyUiMsg::ShowUserPostsMsg { username: of, .. },
                ) => username == of,
                (
                    BskyActorMsg::GetUserProfile { username },
                    RedskyUiMsg::ShowUserProfile { profile },
                ) => *username == profile.handle,
                (
                    BskyActorMsg::GetPostAndReplies { .. },
                    RedskyUiMsg::NotifyPostAndRepliesLoaded { .. },
                ) => true,
                (
                    BskyActorMsg::GetPostLikers { post_ref },
                    RedskyUiMsg::NotifyLikesLoaded { post_uri, .. },
                ) => post_ref == post_uri,
                (BskyActorMsg::LoadImage { url }, RedskyUiMsg::NotifyImageLoaded { url: of, .. }) => {
                    url == of
                }
                _ => false,
            };
            if matching {
                successes += 1;
            } else {
                assert_eq!(event, error("the answer does not belong to the call"), "command {}", c);
            }
        }
        assert_eq!(successes, 1, "command {}", c);
    }
}
