//! The posts service: an in-memory table of posts keyed by identifier.

use crate::events::{post_created, post_created_view, Event};
use crate::ids::{generate_id, is_drawn_id, is_generated_id};
use vstd::hash_map::StringHashMap;
use vstd::prelude::*;

verus! {

/// A post as the posts service keeps it.
pub struct Post {
    pub id: String,
    pub title: String,
}

pub struct PostView {
    pub id: Seq<char>,
    pub title: Seq<char>,
}

impl View for Post {
    type V = PostView;

    open spec fn view(&self) -> PostView {
        PostView { id: self.id@, title: self.title@ }
    }
}

impl Post {
    /// A field-by-field copy.
    pub fn duplicate(&self) -> (r: Post)
        ensures
            r@ == self@,
    {
        Post { id: self.id.clone(), title: self.title.clone() }
    }
}

/// The table `m` once a post with identifier `id` and title `title` has been
/// created in it: the post is stored under its identifier, replacing any post
/// stored there.
pub open spec fn after_create(m: Map<Seq<char>, PostView>, id: Seq<char>, title: Seq<char>) -> Map<
    Seq<char>,
    PostView,
> {
    m.insert(id, PostView { id, title })
}

/// Every post of `m` is stored under its own identifier.
pub open spec fn keyed_by_id(m: Map<Seq<char>, PostView>) -> bool {
    forall|k: Seq<char>| #[trigger] m.contains_key(k) ==> m[k].id == k
}

/// The posts, keyed by identifier.
pub struct PostStore {
    posts: StringHashMap<Post>,
}

impl View for PostStore {
    type V = Map<Seq<char>, PostView>;

    closed spec fn view(&self) -> Map<Seq<char>, PostView> {
        self.posts@.map_values(|p: Post| p@)
    }
}

impl PostStore {
    /// Every post is stored under its own identifier, and there are finitely
    /// many.
    #[verifier::type_invariant]
    closed spec fn wf(&self) -> bool {
        &&& self.posts@.dom().finite()
        &&& forall|k: Seq<char>| #[trigger] self.posts@.contains_key(k) ==> self.posts@[k].id@ == k
    }

    /// An empty table.
    pub fn new() -> (s: PostStore)
        ensures
            s@ == Map::<Seq<char>, PostView>::empty(),
            s@.dom().finite(),
            keyed_by_id(s@),
    {
        let s = PostStore { posts: StringHashMap::new() };
        assert(s@ =~= Map::<Seq<char>, PostView>::empty());
        s
    }

    /// Number of posts.
    pub fn len(&self) -> (n: usize)
        ensures
            n == self@.len(),
            self@.dom().finite(),
            keyed_by_id(self@),
    {
        proof {
            use_type_invariant(self);
            broadcast use vstd::hash_map::group_hash_map_axioms;
        }
        assert(self@.dom() =~= self.posts@.dom());
        self.posts.len()
    }

    /// The post stored under `id`, if any.
    pub fn get(&self, id: &str) -> (r: Option<Post>)
        ensures
            self@.dom().finite(),
            keyed_by_id(self@),
            match r {
                Some(p) => self@.contains_key(id@) && p@ == self@[id@] && p@.id == id@,
                None => !self@.contains_key(id@),
            },
    {
        proof {
            use_type_invariant(self);
        }
        assert(self@.dom() =~= self.posts@.dom());
        match self.posts.get(id) {
            Some(p) => Some(p.duplicate()),
            None => None,
        }
    }

    /// Stores a new post with the given identifier and title (replacing any
    /// post stored under that identifier), and returns the stored post with
    /// the event that announces it. The table grows by one post unless the
    /// identifier was taken.
    pub fn create_post_with_id(&mut self, id: String, title: String) -> (res: (Post, Event))
        ensures
            final(self)@ == after_create(old(self)@, id@, title@),
            old(self)@.dom().finite(),
            final(self)@.dom().finite(),
            keyed_by_id(old(self)@),
            keyed_by_id(final(self)@),
            final(self)@.len() == old(self)@.len() + (if old(self)@.contains_key(id@) {
                0int
            } else {
                1int
            }),
            res.0@ == (PostView { id: id@, title: title@ }),
            res.1@ == post_created_view(id@, title@),
    {
        proof {
            use_type_invariant(&*self);
        }
        assert(old(self)@.dom() =~= old(self).posts@.dom());
        let post = Post { id: id.clone(), title: title.clone() };
        let stored = post.duplicate();
        let mut posts = StringHashMap::new();
        std::mem::swap(&mut posts, &mut self.posts);
        let ghost old_posts = posts@;
        posts.insert(id.clone(), post);
        proof {
            assert(posts@ == old_posts.insert(id@, post));
            assert(posts@.dom() =~= old_posts.dom().insert(id@));
        }
        self.posts = posts;
        proof {
            assert(self@ =~= old(self)@.insert(id@, PostView { id: id@, title: title@ }));
            assert(self@.dom() =~= self.posts@.dom());
        }
        let event = post_created(id, title);
        (stored, event)
    }

    /// Creates a post with a fresh random identifier: the identifier is made of
    /// the bytes drawn from the sampler during this call (so it is `ID_LEN`
    /// letters and digits), the post is stored under it, and the event
    /// announces it.
    pub fn create_post(&mut self, title: String) -> (res: (Post, Event))
        ensures
            is_drawn_id(res.0@.id),
            is_generated_id(res.0@.id),
            res.0@.title == title@,
            final(self)@ == after_create(old(self)@, res.0@.id, title@),
            old(self)@.dom().finite(),
            final(self)@.dom().finite(),
            keyed_by_id(old(self)@),
            keyed_by_id(final(self)@),
            final(self)@.len() == old(self)@.len() + (if old(self)@.contains_key(res.0@.id) {
                0int
            } else {
                1int
            }),
            res.1@ == post_created_view(res.0@.id, title@),
    {
        let id = generate_id();
        self.create_post_with_id(id, title)
    }
}

/// What is read back after a post is created: the created post under its
/// identifier, and under every other identifier what was there before.
pub proof fn lemma_read_after_create(
    m: Map<Seq<char>, PostView>,
    id: Seq<char>,
    title: Seq<char>,
    other: Seq<char>,
)
    ensures
        after_create(m, id, title).contains_key(id),
        after_create(m, id, title)[id] == (PostView { id, title }),
        other != id ==> (after_create(m, id, title).contains_key(other) == m.contains_key(other)),
        other != id && m.contains_key(other) ==> after_create(m, id, title)[other] == m[other],
        m.dom().finite() ==> after_create(m, id, title).dom().finite(),
        keyed_by_id(m) ==> keyed_by_id(after_create(m, id, title)),
        m.dom().finite() ==> after_create(m, id, title).len() == m.len() + (if m.contains_key(id) {
            0int
        } else {
            1int
        }),
{
}

} // verus!
