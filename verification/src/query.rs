//! The query service's read model: posts with the comments made on them, and
//! what the service does with each event it consumes.

use crate::events::{
    comment_created_tag, comment_created_view, post_created_tag, post_created_view, Event,
    EventView,
};
use vstd::prelude::*;

verus! {

/// A comment as the read model keeps it.
pub struct Comment {
    pub id: String,
    pub content: String,
}

pub struct CommentView {
    pub id: Seq<char>,
    pub content: Seq<char>,
}

impl View for Comment {
    type V = CommentView;

    open spec fn view(&self) -> CommentView {
        CommentView { id: self.id@, content: self.content@ }
    }
}

/// A post as the read model keeps it, with the comments made on it.
pub struct Post {
    pub id: String,
    pub title: String,
    pub comments: Vec<Comment>,
}

pub struct PostView {
    pub id: Seq<char>,
    pub title: Seq<char>,
    pub comments: Seq<CommentView>,
}

impl View for Post {
    type V = PostView;

    open spec fn view(&self) -> PostView {
        PostView {
            id: self.id@,
            title: self.title@,
            comments: self.comments@.map_values(|c: Comment| c@),
        }
    }
}

/// What the read model store is asked to do for one event.
pub enum QueryAction {
    /// Add this post to the store.
    InsertPost(Post),
    /// Append this comment to the comments of the first stored post whose
    /// identifier is `post_id` (nothing happens where there is no such post).
    PushComment { post_id: String, comment: Comment },
    /// Leave the store as it is.
    Skip,
}

pub enum QueryActionView {
    InsertPost(PostView),
    PushComment { post_id: Seq<char>, comment: CommentView },
    Skip,
}

impl View for QueryAction {
    type V = QueryActionView;

    open spec fn view(&self) -> QueryActionView {
        match self {
            QueryAction::InsertPost(p) => QueryActionView::InsertPost(p@),
            QueryAction::PushComment { post_id, comment } => QueryActionView::PushComment {
                post_id: post_id@,
                comment: comment@,
            },
            QueryAction::Skip => QueryActionView::Skip,
        }
    }
}

/// The action for an event: a post-created event with a title inserts a new
/// post without comments; a comment-created event with a post identifier and a
/// text pushes the comment onto that post; anything else is skipped.
pub open spec fn event_action(e: EventView) -> QueryActionView {
    if e.event_type == post_created_tag() {
        match e.data.title {
            Some(title) => QueryActionView::InsertPost(
                PostView { id: e.data.id, title, comments: Seq::empty() },
            ),
            None => QueryActionView::Skip,
        }
    } else if e.event_type == comment_created_tag() {
        match (e.data.post_id, e.data.content) {
            (Some(post_id), Some(content)) => QueryActionView::PushComment {
                post_id,
                comment: CommentView { id: e.data.id, content },
            },
            _ => QueryActionView::Skip,
        }
    } else {
        QueryActionView::Skip
    }
}

/// Decides what the read model store is asked to do for a consumed event.
pub fn plan_event(event: Event) -> (action: QueryAction)
    ensures
        action@ == event_action(event@),
{
    let post_tag = "PostCreated".to_owned();
    let comment_tag = "CommentCreated".to_owned();
    let Event { event_type, data } = event;
    if event_type == post_tag {
        match data.title {
            Some(title) => {
                let comments: Vec<Comment> = Vec::new();
                let post = Post { id: data.id, title, comments };
                assert(post@.comments =~= Seq::<CommentView>::empty());
                QueryAction::InsertPost(post)
            },
            None => QueryAction::Skip,
        }
    } else if event_type == comment_tag {
        match (data.post_id, data.content) {
            (Some(post_id), Some(content)) => QueryAction::PushComment {
                post_id,
                comment: Comment { id: data.id, content },
            },
            _ => QueryAction::Skip,
        }
    } else {
        QueryAction::Skip
    }
}

/// The read model learns exactly what the posts service stored: the event
/// that announces a new post makes the query service insert a post with the
/// same identifier and title and no comments yet.
pub proof fn lemma_post_created_is_inserted(id: Seq<char>, title: Seq<char>)
    ensures
        event_action(post_created_view(id, title)) == (QueryActionView::InsertPost(
            PostView { id, title, comments: Seq::empty() },
        )),
{
}

/// The read model learns exactly what the comments service stored: the event
/// that announces a new comment makes the query service push a comment with
/// the same identifier and text onto the post it was made on.
pub proof fn lemma_comment_created_is_pushed(
    id: Seq<char>,
    content: Seq<char>,
    post_id: Seq<char>,
)
    ensures
        event_action(comment_created_view(id, content, post_id)) == (QueryActionView::PushComment {
            post_id,
            comment: CommentView { id, content },
        }),
{
    reveal_strlit("PostCreated");
    reveal_strlit("CommentCreated");
    assert(post_created_tag()[0] != comment_created_tag()[0]);
}

} // verus!
