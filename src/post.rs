//! A blog post's way from draft to publication, twice: once as one type whose
//! state changes, once as one type per state.
//!
//! A post starts as an empty draft; a review is requested; once approved the
//! post is published. Only a published post shows its text.
use vstd::prelude::*;
use vstd::string::StringExecFns;

verus! {

/// Where a post stands in its review.
#[derive(Clone, Copy, Debug, PartialEq, Eq, Structural)]
pub enum PostState {
    Draft,
    PendingReview,
    Published,
}

impl PostState {
    pub open spec fn spec_request_review(self) -> PostState {
        match self {
            PostState::Draft => PostState::PendingReview,
            _ => self,
        }
    }

    pub open spec fn spec_approve(self) -> PostState {
        match self {
            PostState::PendingReview => PostState::Published,
            _ => self,
        }
    }

    /// A draft goes to review; a post under review or published stays where it is.
    pub fn request_review(self) -> (r: PostState)
        ensures
            r == self.spec_request_review(),
    {
        match self {
            PostState::Draft => PostState::PendingReview,
            _ => self,
        }
    }

    /// A post under review is published; a draft or a published post stays
    /// where it is.
    pub fn approve(self) -> (r: PostState)
        ensures
            r == self.spec_approve(),
    {
        match self {
            PostState::PendingReview => PostState::Published,
            _ => self,
        }
    }

    /// The text a post in this state shows, given the text written into it.
    pub fn content<'a>(&self, text: &'a str) -> (r: &'a str)
        ensures
            r@ == (if *self == PostState::Published { text@ } else { Seq::<char>::empty() }),
    {
        match self {
            PostState::Published => text,
            _ => {
                proof {
                    reveal_strlit("");
                }
                ""
            },
        }
    }
}

/// The abstract state of a `Post`.
pub struct PostView {
    pub state: PostState,
    pub text: Seq<char>,
}

/// A blog post whose state changes in place.
pub struct Post {
    state: PostState,
    content: String,
}

impl View for Post {
    type V = PostView;

    closed spec fn view(&self) -> PostView {
        PostView { state: self.state, text: self.content@ }
    }
}

impl Post {
    /// An empty draft.
    pub fn new() -> (p: Post)
        ensures
            p@ == (PostView { state: PostState::Draft, text: Seq::empty() }),
    {
        Post { state: PostState::Draft, content: String::new() }
    }

    /// Appends `text` to what has been written; the state does not change.
    pub fn add_text(&mut self, text: &str)
        ensures
            final(self)@ == (PostView { state: old(self)@.state, text: old(self)@.text + text@ }),
    {
        self.content.append(text);
    }

    /// The text written so far once the post is published; before that, nothing.
    pub fn content(&self) -> (r: &str)
        ensures
            r@ == (if self@.state == PostState::Published { self@.text } else { Seq::<char>::empty() }),
    {
        self.state.content(self.content.as_str())
    }

    /// Asks for a review: a draft goes to review, otherwise nothing changes.
    pub fn request_review(&mut self)
        ensures
            final(self)@ == (PostView { state: old(self)@.state.spec_request_review(), ..old(self)@ }),
    {
        self.state = self.state.request_review();
    }

    /// Approves the post: one under review is published, otherwise nothing
    /// changes.
    pub fn approve(&mut self)
        ensures
            final(self)@ == (PostView { state: old(self)@.state.spec_approve(), ..old(self)@ }),
    {
        self.state = self.state.approve();
    }
}

/// A published post: the only kind whose text can be read.
pub struct RustPost {
    content: String,
}

/// A post being written.
pub struct RustDraftPost {
    content: String,
}

/// A post waiting for approval; its text can no longer change.
pub struct RustPendingReviewPost {
    content: String,
}

impl View for RustPost {
    type V = Seq<char>;

    closed spec fn view(&self) -> Seq<char> {
        self.content@
    }
}

impl View for RustDraftPost {
    type V = Seq<char>;

    closed spec fn view(&self) -> Seq<char> {
        self.content@
    }
}

impl View for RustPendingReviewPost {
    type V = Seq<char>;

    closed spec fn view(&self) -> Seq<char> {
        self.content@
    }
}

impl RustPost {
    /// A new post is an empty draft.
    pub fn new() -> (d: RustDraftPost)
        ensures
            d@ == Seq::<char>::empty(),
    {
        RustDraftPost { content: String::new() }
    }

    /// The post's text.
    pub fn content(&self) -> (r: &str)
        ensures
            r@ == self@,
    {
        self.content.as_str()
    }
}

impl RustDraftPost {
    /// Appends `text` to the draft.
    pub fn add_text(&mut self, text: &str)
        ensures
            final(self)@ == old(self)@ + text@,
    {
        self.content.append(text);
    }

    /// Sends the draft to review, with its text.
    pub fn request_review(self) -> (r: RustPendingReviewPost)
        ensures
            r@ == self@,
    {
        RustPendingReviewPost { content: self.content }
    }
}

impl RustPendingReviewPost {
    /// Approves the post, which is then published with its text.
    pub fn approve(self) -> (r: RustPost)
        ensures
            r@ == self@,
    {
        RustPost { content: self.content }
    }
}

} // verus!
