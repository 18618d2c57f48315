//! The comments service: for each post identifier, the list of comments made
//! on that post, in the order they were made.

use crate::events::{comment_created, comment_created_view, Event};
use crate::ids::{generate_id, is_drawn_id, is_generated_id};
use vstd::hash_map::StringHashMap;
use vstd::prelude::*;

verus! {

/// A comment as the comments service keeps it.
pub struct Comment {
    pub id: String,
    pub content: String,
}

pub struct CommentView {
    pub id: Seq<char>,
    pub content: Seq<char>,
}

impl View for Comment {
    type V = CommentView;

    open spec fn view(&self) -> CommentView {
        CommentView { id: self.id@, content: self.content@ }
    }
}

impl Comment {
    /// A field-by-field copy.
    pub fn duplicate(&self) -> (r: Comment)
        ensures
            r@ == self@,
    {
        Comment { id: self.id.clone(), content: self.content.clone() }
    }
}

/// The views of a list of comments.
pub open spec fn comments_view(v: Seq<Comment>) -> Seq<CommentView> {
    v.map_values(|c: Comment| c@)
}

/// Copies a list of comments.
pub fn copy_comments(v: &Vec<Comment>) -> (r: Vec<Comment>)
    ensures
        comments_view(r@) == comments_view(v@),
{
    let mut r: Vec<Comment> = Vec::new();
    let mut i: usize = 0;
    while i < v.len()
        invariant
            i <= v.len(),
            comments_view(r@) =~= comments_view(v@.take(i as int)),
        decreases v.len() - i,
    {
        let ghost before = r@;
        let c = v[i].duplicate();
        r.push(c);
        assert(r@ =~= before.push(c));
        assert(comments_view(r@) =~= comments_view(before).push(c@));
        assert(v@.take(i + 1) =~= v@.take(i as int).push(v@[i as int]));
        assert(comments_view(v@.take(i + 1)) =~= comments_view(v@.take(i as int)).push(v@[i as int]@));
        i = i + 1;
    }
    assert(v@.take(v.len() as int) =~= v@);
    r
}

/// The comments made on each post, keyed by post identifier.
pub struct CommentStore {
    by_post: StringHashMap<Vec<Comment>>,
}

impl View for CommentStore {
    type V = Map<Seq<char>, Seq<CommentView>>;

    closed spec fn view(&self) -> Map<Seq<char>, Seq<CommentView>> {
        self.by_post@.map_values(|v: Vec<Comment>| comments_view(v@))
    }
}

/// The comments on `post_id` in `m`: the empty list for a post that has none.
pub open spec fn comments_on(m: Map<Seq<char>, Seq<CommentView>>, post_id: Seq<char>) -> Seq<
    CommentView,
> {
    if m.contains_key(post_id) {
        m[post_id]
    } else {
        Seq::empty()
    }
}

/// The comments of `m` once the comment `c` has been made on `post_id`: it
/// comes last in that post's list, and no other list changes.
pub open spec fn after_comment(
    m: Map<Seq<char>, Seq<CommentView>>,
    post_id: Seq<char>,
    c: CommentView,
) -> Map<Seq<char>, Seq<CommentView>> {
    m.insert(post_id, comments_on(m, post_id).push(c))
}

impl CommentStore {
    /// Finitely many posts have comments.
    #[verifier::type_invariant]
    closed spec fn wf(&self) -> bool {
        self.by_post@.dom().finite()
    }

    /// No comments on any post.
    pub fn new() -> (s: CommentStore)
        ensures
            s@ == Map::<Seq<char>, Seq<CommentView>>::empty(),
            s@.dom().finite(),
    {
        let s = CommentStore { by_post: StringHashMap::new() };
        assert(s@ =~= Map::<Seq<char>, Seq<CommentView>>::empty());
        s
    }

    /// A copy of the comments made on `post_id`, oldest first (empty for a post
    /// with none).
    pub fn comments_for(&self, post_id: &str) -> (r: Vec<Comment>)
        ensures
            comments_view(r@) == comments_on(self@, post_id@),
            self@.dom().finite(),
    {
        proof {
            use_type_invariant(self);
        }
        assert(self@.dom() =~= self.by_post@.dom());
        match self.by_post.get(post_id) {
            Some(v) => copy_comments(v),
            None => {
                let r: Vec<Comment> = Vec::new();
                assert(comments_view(r@) =~= Seq::<CommentView>::empty());
                r
            },
        }
    }

    /// Appends a comment with the given identifier and text to the comments of
    /// `post_id` (starting a list for a post without one), and returns the
    /// post's comments after the addition with the event that announces it.
    pub fn create_comment_with_id(&mut self, post_id: String, id: String, content: String) -> (res: (
        Vec<Comment>,
        Event,
    ))
        ensures
            final(self)@ == after_comment(
                old(self)@,
                post_id@,
                CommentView { id: id@, content: content@ },
            ),
            old(self)@.dom().finite(),
            final(self)@.dom().finite(),
            comments_view(res.0@) == comments_on(old(self)@, post_id@).push(
                CommentView { id: id@, content: content@ },
            ),
            res.1@ == comment_created_view(id@, content@, post_id@),
    {
        proof {
            use_type_invariant(&*self);
        }
        assert(old(self)@.dom() =~= old(self).by_post@.dom());
        let mut list = self.comments_for(post_id.as_str());
        let comment = Comment { id: id.clone(), content: content.clone() };
        let ghost before = list@;
        list.push(comment);
        assert(comments_view(list@) =~= comments_view(before).push(
            CommentView { id: id@, content: content@ },
        ));
        let reply = copy_comments(&list);
        let mut by_post = StringHashMap::new();
        std::mem::swap(&mut by_post, &mut self.by_post);
        let ghost old_map = by_post@;
        by_post.insert(post_id.clone(), list);
        proof {
            assert(by_post@ == old_map.insert(post_id@, list));
            assert(by_post@.dom() =~= old_map.dom().insert(post_id@));
        }
        self.by_post = by_post;
        proof {
            assert(self@.dom() =~= self.by_post@.dom());
            assert(self@ =~= old(self)@.insert(
                post_id@,
                comments_on(old(self)@, post_id@).push(CommentView { id: id@, content: content@ }),
            ));
        }
        let event = comment_created(id, content, post_id);
        (reply, event)
    }

    /// Adds a comment with a fresh random identifier to the comments of
    /// `post_id`: the identifier is made of the bytes drawn from the sampler
    /// during this call (so it is `ID_LEN` letters and digits), and the comment
    /// and its event carry it.
    pub fn create_comment(&mut self, post_id: String, content: String) -> (res: (Vec<Comment>, Event))
        ensures
            res.0@.len() >= 1,
            is_drawn_id(res.0@.last().id@),
            is_generated_id(res.0@.last().id@),
            final(self)@ == after_comment(
                old(self)@,
                post_id@,
                CommentView { id: res.0@.last().id@, content: content@ },
            ),
            old(self)@.dom().finite(),
            final(self)@.dom().finite(),
            comments_view(res.0@) == comments_on(old(self)@, post_id@).push(
                CommentView { id: res.0@.last().id@, content: content@ },
            ),
            res.1@ == comment_created_view(res.0@.last().id@, content@, post_id@),
    {
        let id = generate_id();
        let ghost idv = id@;
        let res = self.create_comment_with_id(post_id, id, content);
        proof {
            let cs = comments_on(old(self)@, post_id@).push(CommentView { id: idv, content: content@ });
            assert(comments_view(res.0@)[comments_view(res.0@).len() - 1] == cs.last());
        }
        res
    }
}

/// Comments accumulate per post in the order they are made: after `c1` and
/// then `c2` are made on `post_id`, that post's list is the old one followed by
/// `c1` and `c2`, and the comments of every other post are as before.
pub proof fn lemma_comments_keep_order(
    m: Map<Seq<char>, Seq<CommentView>>,
    post_id: Seq<char>,
    c1: CommentView,
    c2: CommentView,
    other: Seq<char>,
)
    ensures
        comments_on(after_comment(after_comment(m, post_id, c1), post_id, c2), post_id)
            == comments_on(m, post_id).push(c1).push(c2),
        other != post_id ==> comments_on(
            after_comment(after_comment(m, post_id, c1), post_id, c2),
            other,
        ) == comments_on(m, other),
{
}

} // verus!
