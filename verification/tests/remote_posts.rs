use redsky::bsky_actor::{extract_posts, extract_replies};
use redsky::model::PostImage;
use redsky::remote::{
    count_or_default, extract_images, extract_post, extract_quote_reply, text_or_default,
    PostRecord, QuotedRecord, RemoteAuthor, RemoteEmbed, RemoteImage, RemotePost, ShapeError,
};

fn s(text: &str) -> String {
    text.to_string()
}

fn author() -> RemoteAuthor {
    RemoteAuthor {
        handle: s("alice.test"),
        display_name: Some(s("Alice")),
        avatar: Some(s("https://img/alice")),
    }
}

fn base(embed: Option<RemoteEmbed>) -> RemotePost {
    RemotePost {
        uri: s("at://alice/1"),
        cid: s("bafy1"),
        record: Some(PostRecord { text: s("hello"), created_at: s("2024-05-01T10:00:00Z") }),
        author: author(),
        like_count: Some(5),
        repost_count: Some(2),
        embed,
    }
}

fn quoted(value: Option<PostRecord>) -> QuotedRecord {
    QuotedRecord {
        uri: s("at://bob/9"),
        cid: s("bafy9"),
        value,
        author: RemoteAuthor { handle: s("bob.test"), display_name: None, avatar: None },
        like_count: None,
        repost_count: Some(4),
    }
}

#[test]
fn plain_post_is_extracted_field_by_field() {
    let post = extract_post(&base(None)).unwrap();
    assert_eq!(post.uri, "at://alice/1");
    assert_eq!(post.cid, "bafy1");
    assert_eq!(post.content, "hello");
    assert_eq!(post.author, "alice.test");
    assert_eq!(post.display_name, "Alice");
    assert_eq!(post.avatar_img, "https://img/alice");
    assert_eq!(post.date, "2024-05-01T10:00:00Z");
    assert_eq!(post.like_count, 5);
    assert_eq!(post.repost_count, 2);
    assert!(post.embeds.is_empty());
    assert!(post.quoted_post.is_none());
}

#[test]
fn missing_optionals_get_defaults() {
    let mut remote = base(None);
    remote.author.display_name = None;
    remote.author.avatar = None;
    remote.like_count = None;
    remote.repost_count = None;
    let post = extract_post(&remote).unwrap();
    assert_eq!(post.display_name, "");
    assert_eq!(post.avatar_img, "");
    assert_eq!(post.like_count, 0);
    assert_eq!(post.repost_count, 0);
}

#[test]
fn images_are_extracted_in_order() {
    let remote = base(Some(RemoteEmbed::Images {
        images: vec![
            RemoteImage { thumb: s("t1"), fullsize: s("f1"), alt: s("a1") },
            RemoteImage { thumb: s("t2"), fullsize: s("f2"), alt: s("a2") },
        ],
    }));
    assert_eq!(
        extract_images(&remote),
        vec![
            PostImage::new(s("t1"), s("f1"), s("a1")),
            PostImage::new(s("t2"), s("f2"), s("a2")),
        ]
    );
    assert_eq!(extract_post(&remote).unwrap().embeds.len(), 2);
    assert_eq!(extract_quote_reply(&remote), Ok(None));
}

#[test]
fn other_embeds_have_no_images_and_no_quote() {
    for embed in [None, Some(RemoteEmbed::Other), Some(RemoteEmbed::Record { record: None })] {
        let remote = base(embed);
        assert!(extract_images(&remote).is_empty());
        assert_eq!(extract_quote_reply(&remote), Ok(None));
        assert!(extract_post(&remote).unwrap().quoted_post.is_none());
    }
}

#[test]
fn quote_post_has_exactly_one_level() {
    let remote = base(Some(RemoteEmbed::Record {
        record: Some(quoted(Some(PostRecord { text: s("quoted"), created_at: s("2023-01-01") }))),
    }));
    let post = extract_post(&remote).unwrap();
    let inner = post.quoted_post.as_ref().expect("the quoted post");
    assert_eq!(inner.uri, "at://bob/9");
    assert_eq!(inner.cid, "bafy9");
    assert_eq!(inner.content, "quoted");
    assert_eq!(inner.author, "bob.test");
    assert_eq!(inner.display_name, "");
    assert_eq!(inner.avatar_img, "");
    assert_eq!(inner.date, "2023-01-01");
    assert_eq!(inner.like_count, 0);
    assert_eq!(inner.repost_count, 4);
    assert!(inner.embeds.is_empty());
    assert!(inner.quoted_post.is_none());
    assert!(post.embeds.is_empty());
    assert_eq!(post.content, "hello");
}

#[test]
fn record_that_is_no_post_is_an_error() {
    let mut remote = base(None);
    remote.record = None;
    assert_eq!(extract_post(&remote), Err(ShapeError::PostRecord));
}

#[test]
fn quoted_record_that_is_no_post_is_an_error() {
    let remote = base(Some(RemoteEmbed::Record { record: Some(quoted(None)) }));
    assert_eq!(extract_quote_reply(&remote), Err(ShapeError::QuotedRecord));
    assert_eq!(extract_post(&remote), Err(ShapeError::QuotedRecord));
}

#[test]
fn bad_record_comes_before_bad_quote() {
    let mut remote = base(Some(RemoteEmbed::Record { record: Some(quoted(None)) }));
    remote.record = None;
    assert_eq!(extract_post(&remote), Err(ShapeError::PostRecord));
}

#[test]
fn posts_are_all_or_the_first_error() {
    assert_eq!(extract_posts(&vec![]), Ok(vec![]));
    let good = extract_posts(&vec![base(None), base(None)]).unwrap();
    assert_eq!(good.len(), 2);
    let mut bad_record = base(None);
    bad_record.record = None;
    let bad_quote = base(Some(RemoteEmbed::Record { record: Some(quoted(None)) }));
    assert_eq!(
        extract_posts(&vec![base(None), bad_quote, bad_record]),
        Err(ShapeError::QuotedRecord)
    );
}

#[test]
fn replies_pass_over_what_is_no_reply() {
    assert_eq!(extract_replies(&vec![None, None]), Ok(vec![]));
    let list = extract_replies(&vec![None, Some(base(None)), None]).unwrap();
    assert_eq!(list.len(), 1);
    let mut bad = base(None);
    bad.record = None;
    assert_eq!(extract_replies(&vec![Some(base(None)), Some(bad)]), Err(ShapeError::PostRecord));
}

#[test]
fn defaults_for_text_and_count() {
    assert_eq!(text_or_default(&Some(s("x")), "d"), "x");
    assert_eq!(text_or_default(&None, "d"), "d");
    assert_eq!(count_or_default(&Some(-3)), -3);
    assert_eq!(count_or_default(&None), 0);
}
