use blog_services::bus::{event_bus_url, subscriber_urls};
use blog_services::comments::CommentStore;
use blog_services::events::{comment_created, post_created, Event, EventData};
use blog_services::ids::{generate_id, id_from_bytes, ID_LEN};
use blog_services::posts::PostStore;
use blog_services::producer::{PublishAction, PublishPhase, PublishRetry};
use blog_services::query::{plan_event, QueryAction};
use blog_services::reply::{publish_reply, Reply};

fn is_id(s: &str) -> bool {
    s.chars().count() == ID_LEN && s.chars().all(|c| c.is_ascii_alphanumeric())
}

#[test]
fn generated_ids_are_eight_letters_or_digits() {
    for _ in 0..50 {
        let id = generate_id();
        assert_eq!(id.len(), 8);
        assert!(is_id(&id), "{}", id);
    }
}

#[test]
fn new_post_store_is_empty() {
    let store = PostStore::new();
    assert_eq!(store.len(), 0);
    assert!(store.get("abc").is_none());
}

#[test]
fn created_post_is_stored_and_announced() {
    let mut store = PostStore::new();
    let (post, event) = store.create_post_with_id("abc12345".to_string(), "Hello".to_string());
    assert_eq!(post.id, "abc12345");
    assert_eq!(post.title, "Hello");
    let read = store.get("abc12345").unwrap();
    assert_eq!(read.id, "abc12345");
    assert_eq!(read.title, "Hello");
    assert_eq!(store.len(), 1);
    assert_eq!(event.event_type, "PostCreated");
    assert_eq!(event.data.id, "abc12345");
    assert_eq!(event.data.title.as_deref(), Some("Hello"));
    assert!(event.data.content.is_none());
    assert!(event.data.post_id.is_none());
}

#[test]
fn creating_under_a_taken_id_replaces_the_post() {
    let mut store = PostStore::new();
    store.create_post_with_id("x".to_string(), "first".to_string());
    store.create_post_with_id("y".to_string(), "other".to_string());
    store.create_post_with_id("x".to_string(), "second".to_string());
    assert_eq!(store.len(), 2);
    assert_eq!(store.get("x").unwrap().title, "second");
    assert_eq!(store.get("y").unwrap().title, "other");
}

#[test]
fn created_post_gets_a_random_id() {
    let mut store = PostStore::new();
    let (post, event) = store.create_post("Random".to_string());
    assert!(is_id(&post.id));
    assert_eq!(post.title, "Random");
    assert_eq!(store.get(&post.id).unwrap().title, "Random");
    assert_eq!(event.data.id, post.id);
    assert_eq!(event.event_type, "PostCreated");
}

#[test]
fn post_without_comments_has_empty_list() {
    let store = CommentStore::new();
    assert!(store.comments_for("p1").is_empty());
}

#[test]
fn comments_accumulate_in_order_per_post() {
    let mut store = CommentStore::new();
    let (list, event) =
        store.create_comment_with_id("p1".to_string(), "c1".to_string(), "first".to_string());
    assert_eq!(list.len(), 1);
    assert_eq!(list[0].id, "c1");
    assert_eq!(list[0].content, "first");
    assert_eq!(event.event_type, "CommentCreated");
    assert_eq!(event.data.id, "c1");
    assert_eq!(event.data.content.as_deref(), Some("first"));
    assert_eq!(event.data.post_id.as_deref(), Some("p1"));
    assert!(event.data.title.is_none());

    store.create_comment_with_id("p2".to_string(), "d1".to_string(), "elsewhere".to_string());
    let (list, _) =
        store.create_comment_with_id("p1".to_string(), "c2".to_string(), "second".to_string());
    assert_eq!(list.len(), 2);
    assert_eq!(list[0].id, "c1");
    assert_eq!(list[1].id, "c2");
    assert_eq!(list[1].content, "second");

    let p1 = store.comments_for("p1");
    assert_eq!(p1.len(), 2);
    assert_eq!(p1[1].content, "second");
    let p2 = store.comments_for("p2");
    assert_eq!(p2.len(), 1);
    assert_eq!(p2[0].content, "elsewhere");
}

#[test]
fn created_comment_gets_a_random_id() {
    let mut store = CommentStore::new();
    let (list, event) = store.create_comment("p9".to_string(), "hi".to_string());
    assert_eq!(list.len(), 1);
    assert!(is_id(&list[0].id));
    assert_eq!(list[0].content, "hi");
    assert_eq!(event.data.id, list[0].id);
    assert_eq!(event.data.post_id.as_deref(), Some("p9"));
}

#[test]
fn post_created_event_fields() {
    let e = post_created("i".to_string(), "t".to_string());
    assert_eq!(e.event_type, "PostCreated");
    assert_eq!(e.data.id, "i");
    assert_eq!(e.data.title.as_deref(), Some("t"));
    assert!(e.data.content.is_none() && e.data.post_id.is_none());
}

#[test]
fn comment_created_event_fields() {
    let e = comment_created("i".to_string(), "c".to_string(), "p".to_string());
    assert_eq!(e.event_type, "CommentCreated");
    assert_eq!(e.data.id, "i");
    assert_eq!(e.data.content.as_deref(), Some("c"));
    assert_eq!(e.data.post_id.as_deref(), Some("p"));
    assert!(e.data.title.is_none());
}

fn event(kind: &str, id: &str, title: Option<&str>, content: Option<&str>, post_id: Option<&str>) -> Event {
    Event {
        event_type: kind.to_string(),
        data: EventData {
            id: id.to_string(),
            title: title.map(|s| s.to_string()),
            content: content.map(|s| s.to_string()),
            post_id: post_id.map(|s| s.to_string()),
        },
    }
}

#[test]
fn post_created_event_inserts_post_without_comments() {
    match plan_event(event("PostCreated", "p1", Some("Title"), None, None)) {
        QueryAction::InsertPost(p) => {
            assert_eq!(p.id, "p1");
            assert_eq!(p.title, "Title");
            assert!(p.comments.is_empty());
        },
        _ => panic!("expected an insertion"),
    }
}

#[test]
fn post_created_event_without_title_is_skipped() {
    assert!(matches!(plan_event(event("PostCreated", "p1", None, None, None)), QueryAction::Skip));
}

#[test]
fn comment_created_event_pushes_comment() {
    match plan_event(event("CommentCreated", "c1", None, Some("nice"), Some("p1"))) {
        QueryAction::PushComment { post_id, comment } => {
            assert_eq!(post_id, "p1");
            assert_eq!(comment.id, "c1");
            assert_eq!(comment.content, "nice");
        },
        _ => panic!("expected a push"),
    }
}

#[test]
fn incomplete_comment_events_are_skipped() {
    assert!(matches!(
        plan_event(event("CommentCreated", "c1", None, None, Some("p1"))),
        QueryAction::Skip
    ));
    assert!(matches!(
        plan_event(event("CommentCreated", "c1", None, Some("x"), None)),
        QueryAction::Skip
    ));
}

#[test]
fn unknown_events_are_skipped() {
    assert!(matches!(
        plan_event(event("PostDeleted", "p1", Some("t"), Some("c"), Some("p"))),
        QueryAction::Skip
    ));
    assert!(matches!(plan_event(event("postcreated", "p1", Some("t"), None, None)), QueryAction::Skip));
}

#[test]
fn query_sees_what_posts_and_comments_stored() {
    let mut posts = PostStore::new();
    let (post, post_event) = posts.create_post("Story".to_string());
    match plan_event(post_event) {
        QueryAction::InsertPost(p) => {
            assert_eq!(p.id, post.id);
            assert_eq!(p.title, post.title);
            assert!(p.comments.is_empty());
        },
        _ => panic!("expected an insertion"),
    }
    let mut comments = CommentStore::new();
    let (list, comment_event) = comments.create_comment(post.id.clone(), "Great".to_string());
    match plan_event(comment_event) {
        QueryAction::PushComment { post_id, comment } => {
            assert_eq!(post_id, post.id);
            assert_eq!(comment.id, list[0].id);
            assert_eq!(comment.content, "Great");
        },
        _ => panic!("expected a push"),
    }
}

#[test]
fn published_item_is_answered_created() {
    match publish_reply(7u32, Ok(())) {
        Reply::Created(v) => assert_eq!(v, 7),
        Reply::InternalError(_) => panic!("expected created"),
    }
}

#[test]
fn publish_failure_is_answered_with_its_error() {
    match publish_reply(7u32, Err("queue down".to_string())) {
        Reply::InternalError(text) => assert_eq!(text, "Failed to publish event: queue down"),
        Reply::Created(_) => panic!("expected an error"),
    }
}

#[test]
fn publish_succeeds_at_first_attempt() {
    let (mut p, a) = PublishRetry::start();
    assert!(matches!(a, PublishAction::Publish));
    assert!(!p.is_finished());
    assert!(matches!(p.step(Ok(())), PublishAction::Finish(Ok(()))));
    assert!(p.is_finished());
}

#[test]
fn publish_reconnects_and_retries_once() {
    let (mut p, _) = PublishRetry::start();
    assert!(matches!(p.step(Err("closed".to_string())), PublishAction::Reconnect));
    assert!(matches!(p.phase, PublishPhase::Reconnecting));
    assert!(matches!(p.step(Ok(())), PublishAction::Publish));
    assert!(matches!(p.phase, PublishPhase::Retrying));
    assert!(matches!(p.step(Ok(())), PublishAction::Finish(Ok(()))));
    assert!(p.is_finished());
}

#[test]
fn publish_fails_when_reconnection_fails() {
    let (mut p, _) = PublishRetry::start();
    p.step(Err("closed".to_string()));
    match p.step(Err("refused".to_string())) {
        PublishAction::Finish(Err(e)) => assert_eq!(e, "refused"),
        _ => panic!("expected failure"),
    }
    assert!(p.is_finished());
}

#[test]
fn publish_fails_when_retry_fails() {
    let (mut p, _) = PublishRetry::start();
    p.step(Err("closed".to_string()));
    p.step(Ok(()));
    match p.step(Err("again".to_string())) {
        PublishAction::Finish(Err(e)) => assert_eq!(e, "again"),
        _ => panic!("expected failure"),
    }
}

#[test]
fn bus_forwards_to_three_services_in_order() {
    let urls = subscriber_urls();
    assert_eq!(
        urls,
        vec![
            "http://rst-posts-srv:8080/events".to_string(),
            "http://rst-comments-srv:8081/events".to_string(),
            "http://rst-query-srv:8082/events".to_string(),
        ]
    );
}

#[test]
fn id_is_made_of_the_drawn_bytes() {
    assert_eq!(id_from_bytes(&b"aZ09xYq7".to_vec()), "aZ09xYq7");
    assert_eq!(id_from_bytes(&Vec::new()), "");
}

#[test]
fn post_count_grows_by_one_unless_id_taken() {
    let mut store = PostStore::new();
    store.create_post_with_id("a".to_string(), "1".to_string());
    assert_eq!(store.len(), 1);
    store.create_post_with_id("b".to_string(), "2".to_string());
    assert_eq!(store.len(), 2);
    store.create_post_with_id("a".to_string(), "3".to_string());
    assert_eq!(store.len(), 2);
}

#[test]
fn posts_send_events_to_the_bus() {
    assert_eq!(event_bus_url(), "http://rst-events-srv:8085/events");
}

#[test]
fn stored_post_is_read_back_under_its_own_id() {
    let mut store = PostStore::new();
    store.create_post_with_id("k1".to_string(), "t".to_string());
    assert_eq!(store.get("k1").unwrap().id, "k1");
}
