//! What the ledger stores, and each record as a plain value.

use vstd::prelude::*;
use vstd::slice::slice_to_vec;
use vstd::string::StringSliceAdditionalSpecFns;
use crate::address::address_view;
use crate::address::Address;
use crate::errors::ErrorCode;
use crate::errors::Field;
use crate::text::pack;
use crate::text::validated;
use crate::text::PackedText;
use crate::text::PackedTextView;
use crate::text::TWEET_LENGTH;

verus! {

/// The two kinds of reaction to a tweet.
#[derive(Clone, Copy, Debug, PartialEq, Eq, Structural)]
pub enum ReactionType {
    Like,
    Dislike,
}

/// A user's profile. It counts the posts that its authority holds.
#[derive(Debug)]
pub struct UserProfile {
    pub authority: Address,
    pub username: PackedText,
    pub post_count: u64,
}

/// A profile over plain values.
pub struct UserProfileView {
    pub authority: Seq<u8>,
    pub username: PackedTextView,
    pub post_count: u64,
}

impl View for UserProfile {
    type V = UserProfileView;

    open spec fn view(&self) -> UserProfileView {
        UserProfileView {
            authority: self.authority@,
            username: self.username@,
            post_count: self.post_count,
        }
    }
}

impl Clone for UserProfile {
    /// A second profile with the same fields.
    fn clone(&self) -> (r: UserProfile)
        ensures
            r@ == self@,
    {
        UserProfile {
            authority: self.authority,
            username: self.username.clone(),
            post_count: self.post_count,
        }
    }
}

/// A post: where its content lies, a description, and the likes it has.
#[derive(Debug)]
pub struct Post {
    pub authority: Address,
    pub content_uri: PackedText,
    pub description: PackedText,
    pub likes: u64,
    pub created_at: i64,
}

/// A post over plain values.
pub struct PostView {
    pub authority: Seq<u8>,
    pub content_uri: PackedTextView,
    pub description: PackedTextView,
    pub likes: u64,
    pub created_at: i64,
}

impl View for Post {
    type V = PostView;

    open spec fn view(&self) -> PostView {
        PostView {
            authority: self.authority@,
            content_uri: self.content_uri@,
            description: self.description@,
            likes: self.likes,
            created_at: self.created_at,
        }
    }
}

impl Clone for Post {
    /// A second post with the same fields.
    fn clone(&self) -> (r: Post)
        ensures
            r@ == self@,
    {
        Post {
            authority: self.authority,
            content_uri: self.content_uri.clone(),
            description: self.description.clone(),
            likes: self.likes,
            created_at: self.created_at,
        }
    }
}

/// A like. It holds nothing: that it exists at its address is the fact.
#[derive(Clone, Copy, Debug, PartialEq, Eq, Structural)]
pub struct Like {}

/// A tweet: a topic and a text in one buffer, with its likes and dislikes.
#[derive(Debug)]
pub struct Tweet {
    tweet_author: Address,
    body: PackedText,
    topic_length: usize,
    likes: u64,
    dislikes: u64,
    bump: u8,
}

/// A tweet over plain values.
pub struct TweetView {
    pub tweet_author: Seq<u8>,
    pub body: PackedTextView,
    pub topic_length: nat,
    pub likes: u64,
    pub dislikes: u64,
    pub bump: u8,
}

impl TweetView {
    /// The topic: the leading bytes of the body.
    pub open spec fn topic(self) -> Seq<u8> {
        self.body.bytes.subrange(0, self.topic_length as int)
    }

    /// The text: what follows the topic.
    pub open spec fn text(self) -> Seq<u8> {
        self.body.bytes.subrange(self.topic_length as int, self.body.length as int)
    }

    /// The same tweet with other counts.
    pub open spec fn with_counts(self, likes: u64, dislikes: u64) -> TweetView {
        TweetView { likes, dislikes, ..self }
    }
}

impl View for Tweet {
    type V = TweetView;

    closed spec fn view(&self) -> TweetView {
        TweetView {
            tweet_author: self.tweet_author@,
            body: self.body@,
            topic_length: self.topic_length as nat,
            likes: self.likes,
            dislikes: self.dislikes,
            bump: self.bump,
        }
    }
}

/// What `Tweet::new` makes of a topic and a text: a tweet without reactions,
/// or the error for a body that is too long.
pub open spec fn new_tweet(author: Seq<u8>, topic: Seq<u8>, text: Seq<u8>, bump: u8) -> Result<
    TweetView,
    ErrorCode,
> {
    match validated(topic + text, Field::Tweet, TWEET_LENGTH) {
        Ok(body) => Ok(
            TweetView {
                tweet_author: author,
                body,
                topic_length: topic.len(),
                likes: 0,
                dislikes: 0,
                bump,
            },
        ),
        Err(e) => Err(e),
    }
}

impl Tweet {
    #[verifier::type_invariant]
    spec fn topic_within_body(&self) -> bool {
        self.topic_length <= self.body@.length
    }

    /// A tweet of `tweet_author` without reactions. Topic and text share one
    /// buffer, so it is their length together that is limited.
    pub fn new(tweet_author: Address, topic: &str, text: &str, bump: u8) -> (r: Result<
        Tweet,
        ErrorCode,
    >)
        ensures
            match r {
                Ok(t) => new_tweet(tweet_author@, topic.spec_bytes(), text.spec_bytes(), bump)
                    == Ok::<TweetView, ErrorCode>(t@),
                Err(e) => new_tweet(tweet_author@, topic.spec_bytes(), text.spec_bytes(), bump)
                    == Err::<TweetView, ErrorCode>(e),
            },
    {
        let topic = topic.as_bytes();
        let text = text.as_bytes();
        let mut joined: Vec<u8> = slice_to_vec(topic);
        let mut j: usize = 0;
        while j < text.len()
            invariant
                j <= text@.len(),
                joined@ == topic@ + text@.subrange(0, j as int),
            decreases text@.len() - j,
        {
            joined.push(text[j]);
            j += 1;
        }
        assert(joined@ =~= topic@ + text@);
        match pack(joined.as_slice(), Field::Tweet, TWEET_LENGTH) {
            Ok(body) => Ok(
                Tweet { tweet_author, body, topic_length: topic.len(), likes: 0, dislikes: 0, bump },
            ),
            Err(e) => Err(e),
        }
    }

    /// Who wrote the tweet.
    pub fn tweet_author(&self) -> (r: Address)
        ensures
            r@ == self@.tweet_author,
    {
        self.tweet_author
    }

    /// The bump with which the tweet's address was derived.
    pub fn bump(&self) -> (r: u8)
        ensures
            r == self@.bump,
    {
        self.bump
    }

    /// The number of likes.
    pub fn likes(&self) -> (r: u64)
        ensures
            r == self@.likes,
    {
        self.likes
    }

    /// The number of dislikes.
    pub fn dislikes(&self) -> (r: u64)
        ensures
            r == self@.dislikes,
    {
        self.dislikes
    }

    /// The topic's bytes.
    pub fn topic(&self) -> (r: Vec<u8>)
        ensures
            r@ == self@.topic(),
    {
        proof {
            use_type_invariant(self);
        }
        let bytes = self.body.bytes();
        let end: usize = self.body.length();
        let mut out: Vec<u8> = Vec::new();
        let mut i: usize = 0;
        while i < self.topic_length
            invariant
                i <= self.topic_length <= end <= bytes@.len(),
                out@ == bytes@.subrange(0, i as int),
            decreases self.topic_length - i,
        {
            out.push(bytes[i]);
            i += 1;
        }
        out
    }

    /// The text's bytes.
    pub fn text(&self) -> (r: Vec<u8>)
        ensures
            r@ == self@.text(),
    {
        proof {
            use_type_invariant(self);
        }
        let bytes = self.body.bytes();
        let end: usize = self.body.length();
        let mut out: Vec<u8> = Vec::new();
        let mut i: usize = self.topic_length;
        while i < end
            invariant
                self.topic_length <= i <= end <= bytes@.len(),
                out@ == bytes@.subrange(self.topic_length as int, i as int),
            decreases end - i,
        {
            out.push(bytes[i]);
            i += 1;
        }
        out
    }

    /// The same tweet with other counts.
    pub fn with_counts(self, likes: u64, dislikes: u64) -> (r: Tweet)
        ensures
            r@ == self@.with_counts(likes, dislikes),
    {
        proof {
            use_type_invariant(&self);
        }
        Tweet {
            tweet_author: self.tweet_author,
            body: self.body,
            topic_length: self.topic_length,
            likes,
            dislikes,
            bump: self.bump,
        }
    }
}

impl Clone for Tweet {
    /// A second tweet with the same fields.
    fn clone(&self) -> (r: Tweet)
        ensures
            r@ == self@,
    {
        proof {
            use_type_invariant(self);
        }
        Tweet {
            tweet_author: self.tweet_author,
            body: self.body.clone(),
            topic_length: self.topic_length,
            likes: self.likes,
            dislikes: self.dislikes,
            bump: self.bump,
        }
    }
}

/// A reaction of one actor to one tweet.
#[derive(Clone, Copy, Debug)]
pub struct Reaction {
    pub reaction_author: Address,
    pub parent_tweet: Address,
    pub reaction: ReactionType,
    pub bump: u8,
}

/// A reaction over plain values.
pub struct ReactionView {
    pub reaction_author: Seq<u8>,
    pub parent_tweet: Seq<u8>,
    pub reaction: ReactionType,
    pub bump: u8,
}

impl View for Reaction {
    type V = ReactionView;

    open spec fn view(&self) -> ReactionView {
        ReactionView {
            reaction_author: self.reaction_author@,
            parent_tweet: self.parent_tweet@,
            reaction: self.reaction,
            bump: self.bump,
        }
    }
}

/// A comment of one actor on one tweet.
#[derive(Debug)]
pub struct Comment {
    pub comment_author: Address,
    pub parent_tweet: Address,
    pub content: PackedText,
    pub bump: u8,
}

/// A comment over plain values.
pub struct CommentView {
    pub comment_author: Seq<u8>,
    pub parent_tweet: Seq<u8>,
    pub content: PackedTextView,
    pub bump: u8,
}

impl View for Comment {
    type V = CommentView;

    open spec fn view(&self) -> CommentView {
        CommentView {
            comment_author: self.comment_author@,
            parent_tweet: self.parent_tweet@,
            content: self.content@,
            bump: self.bump,
        }
    }
}

impl Clone for Comment {
    /// A second comment with the same fields.
    fn clone(&self) -> (r: Comment)
        ensures
            r@ == self@,
    {
        Comment {
            comment_author: self.comment_author,
            parent_tweet: self.parent_tweet,
            content: self.content.clone(),
            bump: self.bump,
        }
    }
}

/// What can live at an address.
#[derive(Debug)]
pub enum Record {
    Profile(UserProfile),
    Post(Post),
    Like(Like),
    Tweet(Tweet),
    Reaction(Reaction),
    Comment(Comment),
}

/// A record over plain values.
pub enum RecordView {
    Profile(UserProfileView),
    Post(PostView),
    Like(Like),
    Tweet(TweetView),
    Reaction(ReactionView),
    Comment(CommentView),
}

impl Clone for Record {
    /// A second record of the same kind with the same fields.
    fn clone(&self) -> (r: Record)
        ensures
            r@ == self@,
    {
        match self {
            Record::Profile(p) => Record::Profile(p.clone()),
            Record::Post(p) => Record::Post(p.clone()),
            Record::Like(l) => Record::Like(*l),
            Record::Tweet(t) => Record::Tweet(t.clone()),
            Record::Reaction(r) => Record::Reaction(*r),
            Record::Comment(c) => Record::Comment(c.clone()),
        }
    }
}

/// The records of a ledger: at most one at each address.
pub type Records = Map<Seq<u8>, RecordView>;

impl RecordView {
    /// The identity that may change or close the record, where the record names
    /// one. A like names none: its address alone ties it to its actor.
    pub open spec fn authority(self) -> Option<Seq<u8>> {
        match self {
            RecordView::Profile(p) => Some(p.authority),
            RecordView::Post(p) => Some(p.authority),
            RecordView::Like(_) => None,
            RecordView::Tweet(t) => Some(t.tweet_author),
            RecordView::Reaction(r) => Some(r.reaction_author),
            RecordView::Comment(c) => Some(c.comment_author),
        }
    }
}

impl Record {
    /// The identity that may change or close the record, where the record
    /// names one.
    pub fn authority(&self) -> (r: Option<Address>)
        ensures
            address_view(r) == self@.authority(),
    {
        match self {
            Record::Profile(p) => Some(p.authority),
            Record::Post(p) => Some(p.authority),
            Record::Like(_) => None,
            Record::Tweet(t) => Some(t.tweet_author()),
            Record::Reaction(r) => Some(r.reaction_author),
            Record::Comment(c) => Some(c.comment_author),
        }
    }
}

impl View for Record {
    type V = RecordView;

    open spec fn view(&self) -> RecordView {
        match self {
            Record::Profile(p) => RecordView::Profile(p@),
            Record::Post(p) => RecordView::Post(p@),
            Record::Like(l) => RecordView::Like(*l),
            Record::Tweet(t) => RecordView::Tweet(t@),
            Record::Reaction(r) => RecordView::Reaction(r@),
            Record::Comment(c) => RecordView::Comment(c@),
        }
    }
}

} // verus!
