use redsky::model::{Post, PostImage, StrongRef, UserProfile};

fn plain_post(uri: &str, text: &str) -> Post {
    Post {
        uri: uri.to_string(),
        cid: format!("cid-{}", uri),
        content: text.to_string(),
        author: "alice.test".to_string(),
        display_name: "Alice".to_string(),
        avatar_img: "https://img/alice".to_string(),
        date: "2024-01-01T00:00:00Z".to_string(),
        like_count: 3,
        repost_count: 1,
        embeds: vec![],
        quoted_post: None,
    }
}

#[test]
fn post_image_new_keeps_its_parts() {
    let image = PostImage::new("thumb".to_string(), "full".to_string(), "alt".to_string());
    assert_eq!(image.thumbnail_url, "thumb");
    assert_eq!(image.url, "full");
    assert_eq!(image.alt, "alt");
    assert_eq!(image.clone(), image);
}

#[test]
fn quote_post_round_trips_with_one_level() {
    let inner = plain_post("at://inner", "quoted");
    let mut outer = plain_post("at://outer", "quoting");
    outer.quoted_post = Some(Box::new(inner));

    let copy = outer.clone();
    assert_eq!(copy, outer);
    let quoted = copy.quoted_post.as_ref().expect("one level of nesting");
    assert_eq!(quoted.uri, "at://inner");
    assert_eq!(quoted.content, "quoted");
    assert!(quoted.quoted_post.is_none());
    assert_eq!(copy.content, "quoting");
}

#[test]
fn post_clone_keeps_images_in_order() {
    let mut post = plain_post("at://p", "with images");
    post.embeds.push(PostImage::new("t1".to_string(), "f1".to_string(), "a1".to_string()));
    post.embeds.push(PostImage::new("t2".to_string(), "f2".to_string(), "a2".to_string()));
    let copy = post.clone();
    assert_eq!(copy.embeds.len(), 2);
    assert_eq!(copy.embeds[0].thumbnail_url, "t1");
    assert_eq!(copy.embeds[1].url, "f2");
    assert_eq!(copy, post);
}

#[test]
fn strong_ref_of_a_post() {
    let post = plain_post("at://p", "text");
    assert_eq!(
        post.strong_ref(),
        StrongRef { uri: "at://p".to_string(), cid: "cid-at://p".to_string() }
    );
}

#[test]
fn user_profile_clone_is_equal() {
    let profile = UserProfile {
        handle: "alice.test".to_string(),
        display_name: "Alice".to_string(),
        bio: "hi".to_string(),
        avatar_uri: "https://img/alice".to_string(),
        follower_count: 10,
        follow_count: 20,
        post_count: 30,
    };
    assert_eq!(profile.clone(), profile);
}
