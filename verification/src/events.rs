//! The events that the posts and comments services publish and that the
//! query service consumes: a type tag and a data record whose fields depend on
//! the tag.

use vstd::prelude::*;

verus! {

/// Tag of the event published when a post is created.
pub open spec fn post_created_tag() -> Seq<char> {
    "PostCreated"@
}

/// Tag of the event published when a comment is created.
pub open spec fn comment_created_tag() -> Seq<char> {
    "CommentCreated"@
}

/// The view of an optional string.
pub open spec fn opt_view(o: Option<String>) -> Option<Seq<char>> {
    match o {
        Some(s) => Some(s@),
        None => None,
    }
}

/// The payload of an event. `id` is always present; the other fields are
/// present or absent depending on the kind of event.
pub struct EventData {
    pub id: String,
    pub title: Option<String>,
    pub content: Option<String>,
    pub post_id: Option<String>,
}

pub struct EventDataView {
    pub id: Seq<char>,
    pub title: Option<Seq<char>>,
    pub content: Option<Seq<char>>,
    pub post_id: Option<Seq<char>>,
}

impl View for EventData {
    type V = EventDataView;

    open spec fn view(&self) -> EventDataView {
        EventDataView {
            id: self.id@,
            title: opt_view(self.title),
            content: opt_view(self.content),
            post_id: opt_view(self.post_id),
        }
    }
}

/// An event on the bus: its type tag and its payload.
pub struct Event {
    pub event_type: String,
    pub data: EventData,
}

pub struct EventView {
    pub event_type: Seq<char>,
    pub data: EventDataView,
}

impl View for Event {
    type V = EventView;

    open spec fn view(&self) -> EventView {
        EventView { event_type: self.event_type@, data: self.data@ }
    }
}

/// The event that announces a new post with identifier `id` and title `title`.
pub open spec fn post_created_view(id: Seq<char>, title: Seq<char>) -> EventView {
    EventView {
        event_type: post_created_tag(),
        data: EventDataView { id, title: Some(title), content: None, post_id: None },
    }
}

/// The event that announces a new comment `id` with text `content` on the
/// post `post_id`.
pub open spec fn comment_created_view(
    id: Seq<char>,
    content: Seq<char>,
    post_id: Seq<char>,
) -> EventView {
    EventView {
        event_type: comment_created_tag(),
        data: EventDataView { id, title: None, content: Some(content), post_id: Some(post_id) },
    }
}

/// Builds the event that announces a new post.
pub fn post_created(id: String, title: String) -> (e: Event)
    ensures
        e@ == post_created_view(id@, title@),
{
    Event {
        event_type: "PostCreated".to_owned(),
        data: EventData { id, title: Some(title), content: None, post_id: None },
    }
}

/// Builds the event that announces a new comment on a post.
pub fn comment_created(id: String, content: String, post_id: String) -> (e: Event)
    ensures
        e@ == comment_created_view(id@, content@, post_id@),
{
    Event {
        event_type: "CommentCreated".to_owned(),
        data: EventData { id, title: None, content: Some(content), post_id: Some(post_id) },
    }
}

} // verus!
