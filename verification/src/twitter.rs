//! Reactions and comments on tweets.

use vstd::prelude::*;
use vstd::string::StringSliceAdditionalSpecFns;
use crate::address::address_view;
use crate::address::content_hash;
use crate::address::created_address;
use crate::address::derived_view;
use crate::address::program_address;
use crate::address::rederive;
use crate::address::sha256;
use crate::address::Address;
use crate::counter::decrement;
use crate::counter::decremented;
use crate::counter::increment;
use crate::counter::incremented;
use crate::errors::ErrorCode;
use crate::errors::Field;
use crate::guard::authorized;
use crate::guard::check_address;
use crate::guard::check_authority;
use crate::guard::check_stored_address;
use crate::guard::matched;
use crate::guard::rematched;
use crate::ledger::settles;
use crate::ledger::Change;
use crate::ledger::Ledger;
use crate::records::Comment;
use crate::records::CommentView;
use crate::records::Reaction;
use crate::records::ReactionType;
use crate::records::ReactionView;
use crate::records::Record;
use crate::records::RecordView;
use crate::records::Records;
use crate::records::TweetView;
use crate::seeds::comment_seeds;
use crate::seeds::comment_seeds_of;
use crate::seeds::reaction_seeds;
use crate::seeds::reaction_seeds_of;
use crate::seeds::stored_reaction_seeds;
use crate::seeds::stored_reaction_seeds_of;
use crate::seeds::tweet_seeds;
use crate::seeds::tweet_seeds_of;
use crate::text::validate;
use crate::text::validated;
use crate::text::COMMENT_LENGTH;

verus! {

/// The addresses of a request to comment on a tweet.
#[derive(Clone, Copy, Debug)]
pub struct AddCommentContext {
    /// Who signs, and comments.
    pub comment_author: Address,
    /// Where the comment is to live.
    pub comment: Address,
    /// The tweet that is commented on.
    pub tweet: Address,
}

/// The addresses of a request to react to a tweet.
#[derive(Clone, Copy, Debug)]
pub struct AddReactionContext {
    /// Who signs, and reacts.
    pub reaction_author: Address,
    /// Where the reaction is to live.
    pub tweet_reaction: Address,
    /// The tweet that is reacted to.
    pub tweet: Address,
}

/// The addresses of a request to take a reaction back.
#[derive(Clone, Copy, Debug)]
pub struct RemoveReactionContext {
    /// Who signs.
    pub reaction_author: Address,
    /// The reaction to close.
    pub tweet_reaction: Address,
    /// The tweet that was reacted to.
    pub tweet: Address,
}

/// The tweet at `address`, where a tweet lives there.
pub open spec fn tweet_at(records: Records, address: Seq<u8>) -> Option<TweetView> {
    if records.contains_key(address) {
        match records[address] {
            RecordView::Tweet(t) => Some(t),
            _ => None,
        }
    } else {
        None
    }
}

/// The reaction at `address`, where a reaction lives there.
pub open spec fn reaction_at(records: Records, address: Seq<u8>) -> Option<ReactionView> {
    if records.contains_key(address) {
        match records[address] {
            RecordView::Reaction(r) => Some(r),
            _ => None,
        }
    } else {
        None
    }
}

/// The address that the stored fields of the tweet at `address` lead to.
pub open spec fn tweet_rederived(records: Records, address: Seq<u8>, program: Seq<u8>) -> Option<
    Seq<u8>,
> {
    match tweet_at(records, address) {
        Some(t) => created_address(tweet_seeds_of(t.topic(), t.tweet_author, t.bump), program),
        None => None,
    }
}

/// The address that the stored bump of the reaction at `ctx.tweet_reaction`
/// leads to, with the signer and the tweet of the request.
pub open spec fn reaction_rederived(
    records: Records,
    ctx: RemoveReactionContext,
    program: Seq<u8>,
) -> Option<Seq<u8>> {
    match reaction_at(records, ctx.tweet_reaction@) {
        Some(r) => created_address(
            stored_reaction_seeds_of(ctx.reaction_author@, ctx.tweet@, r.bump),
            program,
        ),
        None => None,
    }
}

/// The tweet with one more reaction of the given kind.
pub open spec fn reacted(tweet: TweetView, kind: ReactionType) -> Result<TweetView, ErrorCode> {
    match kind {
        ReactionType::Like => match incremented(tweet.likes, 1) {
            Ok(n) => Ok(tweet.with_counts(n, tweet.dislikes)),
            Err(e) => Err(e),
        },
        ReactionType::Dislike => match incremented(tweet.dislikes, 1) {
            Ok(n) => Ok(tweet.with_counts(tweet.likes, n)),
            Err(e) => Err(e),
        },
    }
}

/// The tweet with one reaction of the given kind fewer.
pub open spec fn unreacted(tweet: TweetView, kind: ReactionType) -> Result<TweetView, ErrorCode> {
    match kind {
        ReactionType::Like => match decremented(tweet.likes, 1) {
            Ok(n) => Ok(tweet.with_counts(n, tweet.dislikes)),
            Err(e) => Err(e),
        },
        ReactionType::Dislike => match decremented(tweet.dislikes, 1) {
            Ok(n) => Ok(tweet.with_counts(tweet.likes, n)),
            Err(e) => Err(e),
        },
    }
}

/// Recomputes the address of the tweet at `tweet` from what the tweet holds.
fn tweet_address(ledger: &Ledger, tweet: &Address) -> (r: Option<Address>)
    ensures
        address_view(r) == tweet_rederived(ledger@, tweet@, ledger.program()),
{
    match ledger.get(tweet) {
        Some(Record::Tweet(t)) => rederive(
            &tweet_seeds(t.topic(), &t.tweet_author(), t.bump()),
            &ledger.program_id(),
        ),
        _ => None,
    }
}

impl AddReactionContext {
    /// The request that takes back the reaction that this one adds.
    pub open spec fn removal(self) -> RemoveReactionContext {
        RemoveReactionContext {
            reaction_author: self.reaction_author,
            tweet_reaction: self.tweet_reaction,
            tweet: self.tweet,
        }
    }

    /// What the request does to the records, `tweet_address` being what the
    /// tweet's stored fields lead to and `derived` what the reaction's seeds
    /// lead to.
    pub open spec fn outcome(
        self,
        records: Records,
        reaction: ReactionType,
        tweet_address: Option<Seq<u8>>,
        derived: Option<(Seq<u8>, u8)>,
    ) -> Result<Records, ErrorCode> {
        match tweet_at(records, self.tweet@) {
            None => Err(ErrorCode::NotFound),
            Some(tweet) => if rematched(tweet_address, self.tweet@).is_err() {
                Err(ErrorCode::AddressMismatch)
            } else {
                match matched(derived, self.tweet_reaction@) {
                    Err(e) => Err(e),
                    Ok(bump) => if records.contains_key(self.tweet_reaction@) {
                        Err(ErrorCode::AlreadyExists)
                    } else {
                        match reacted(tweet, reaction) {
                            Err(e) => Err(e),
                            Ok(counted) => Ok(
                                records.insert(
                                    self.tweet_reaction@,
                                    RecordView::Reaction(
                                        ReactionView {
                                            reaction_author: self.reaction_author@,
                                            parent_tweet: self.tweet@,
                                            reaction,
                                            bump,
                                        },
                                    ),
                                ).insert(self.tweet@, RecordView::Tweet(counted)),
                            ),
                        }
                    },
                }
            },
        }
    }

    /// Carries the request out, given what the tweet's stored fields and the
    /// reaction's seeds lead to.
    pub fn apply(
        &self,
        ledger: &mut Ledger,
        reaction: ReactionType,
        tweet_address: Option<Address>,
        derived: Option<(Address, u8)>,
    ) -> (r: Result<(), ErrorCode>)
        ensures
            final(ledger).program() == old(ledger).program(),
            settles(
                self.outcome(
                    old(ledger)@,
                    reaction,
                    address_view(tweet_address),
                    derived_view(derived),
                ),
                old(ledger)@,
                final(ledger)@,
                r,
            ),
    {
        let (likes, dislikes): (u64, u64) = match ledger.get(&self.tweet) {
            Some(Record::Tweet(t)) => (t.likes(), t.dislikes()),
            _ => {
                return Err(ErrorCode::NotFound);
            },
        };
        check_stored_address(&tweet_address, &self.tweet)?;
        let bump: u8 = check_address(&derived, &self.tweet_reaction)?;
        if ledger.contains(&self.tweet_reaction) {
            return Err(ErrorCode::AlreadyExists);
        }
        let change = match reaction {
            ReactionType::Like => Change::Likes(increment(likes, 1)?),
            ReactionType::Dislike => Change::Dislikes(increment(dislikes, 1)?),
        };
        let stored = Reaction {
            reaction_author: self.reaction_author,
            parent_tweet: self.tweet,
            reaction,
            bump,
        };
        ledger.create(self.tweet_reaction, Record::Reaction(stored))?;
        ledger.mutate(&self.tweet, change)
    }
}

/// Records the signer's reaction to a tweet: the reaction comes to live at the
/// address that belongs to the signer and the tweet, and the tweet's count of
/// that kind rises by one. The bump that the reaction keeps leads back to the
/// reaction's address, so that the reaction can be taken back.
///
/// Rejected, for the first of these that holds: `NotFound` where no tweet
/// lives at `ctx.tweet`; `AddressMismatch` where `ctx.tweet` is not what the
/// tweet's topic, author and bump lead to, or `ctx.tweet_reaction` not what
/// the signer and the tweet lead to; `AlreadyExists` where a record lives at
/// `ctx.tweet_reaction`; `Overflow` where the count of that kind is full.
pub fn add_reaction(ledger: &mut Ledger, ctx: &AddReactionContext, reaction: ReactionType) -> (r:
    Result<(), ErrorCode>)
    ensures
        final(ledger).program() == old(ledger).program(),
        r.is_ok() ==> reaction_rederived(final(ledger)@, ctx.removal(), old(ledger).program())
            == Some(ctx.tweet_reaction@),
        settles(
            ctx.outcome(
                old(ledger)@,
                reaction,
                tweet_rederived(old(ledger)@, ctx.tweet@, old(ledger).program()),
                program_address(
                    reaction_seeds_of(ctx.reaction_author@, ctx.tweet@),
                    old(ledger).program(),
                ),
            ),
            old(ledger)@,
            final(ledger)@,
            r,
        ),
{
    let stored = tweet_address(ledger, &ctx.tweet);
    let derived = crate::address::derive(
        &reaction_seeds(&ctx.reaction_author, &ctx.tweet),
        &ledger.program_id(),
    );
    proof {
        if let Some((_, bump)) = derived {
            assert(reaction_seeds_of(ctx.reaction_author@, ctx.tweet@).push(seq![bump])
                =~= stored_reaction_seeds_of(ctx.reaction_author@, ctx.tweet@, bump));
        }
    }
    ctx.apply(ledger, reaction, stored, derived)
}

impl RemoveReactionContext {
    /// What the request does to the records, `tweet_address` and
    /// `reaction_address` being what the stored fields of the tweet and of the
    /// reaction lead to. The kind is read from the stored reaction.
    pub open spec fn outcome(
        self,
        records: Records,
        tweet_address: Option<Seq<u8>>,
        reaction_address: Option<Seq<u8>>,
    ) -> Result<Records, ErrorCode> {
        match (tweet_at(records, self.tweet@), reaction_at(records, self.tweet_reaction@)) {
            (Some(tweet), Some(stored)) => if rematched(tweet_address, self.tweet@).is_err()
                || rematched(reaction_address, self.tweet_reaction@).is_err() {
                Err(ErrorCode::AddressMismatch)
            } else if authorized(self.reaction_author@, stored.reaction_author).is_err() {
                Err(ErrorCode::Unauthorized)
            } else {
                match unreacted(tweet, stored.reaction) {
                    Err(e) => Err(e),
                    Ok(counted) => Ok(
                        records.remove(self.tweet_reaction@).insert(
                            self.tweet@,
                            RecordView::Tweet(counted),
                        ),
                    ),
                }
            },
            _ => Err(ErrorCode::NotFound),
        }
    }

    /// Carries the request out, given what the stored fields of the tweet and
    /// of the reaction lead to.
    pub fn apply(
        &self,
        ledger: &mut Ledger,
        tweet_address: Option<Address>,
        reaction_address: Option<Address>,
    ) -> (r: Result<(), ErrorCode>)
        ensures
            final(ledger).program() == old(ledger).program(),
            settles(
                self.outcome(
                    old(ledger)@,
                    address_view(tweet_address),
                    address_view(reaction_address),
                ),
                old(ledger)@,
                final(ledger)@,
                r,
            ),
    {
        let (likes, dislikes): (u64, u64) = match ledger.get(&self.tweet) {
            Some(Record::Tweet(t)) => (t.likes(), t.dislikes()),
            _ => {
                return Err(ErrorCode::NotFound);
            },
        };
        let (author, kind): (Address, ReactionType) = match ledger.get(&self.tweet_reaction) {
            Some(Record::Reaction(stored)) => (stored.reaction_author, stored.reaction),
            _ => {
                return Err(ErrorCode::NotFound);
            },
        };
        check_stored_address(&tweet_address, &self.tweet)?;
        check_stored_address(&reaction_address, &self.tweet_reaction)?;
        check_authority(&self.reaction_author, &author)?;
        let change = match kind {
            ReactionType::Like => Change::Likes(decrement(likes, 1)?),
            ReactionType::Dislike => Change::Dislikes(decrement(dislikes, 1)?),
        };
        match ledger.close(&self.tweet_reaction, &self.reaction_author) {
            Ok(_) => {},
            Err(e) => {
                return Err(e);
            },
        }
        ledger.mutate(&self.tweet, change)
    }
}

/// Takes the signer's reaction to a tweet back: the reaction leaves its
/// address, and the tweet's count of the kind that the reaction holds falls by
/// one.
///
/// Rejected, for the first of these that holds: `NotFound` where no tweet
/// lives at `ctx.tweet`, or no reaction at `ctx.tweet_reaction`;
/// `AddressMismatch` where `ctx.tweet` is not what the tweet's topic, author
/// and bump lead to, or `ctx.tweet_reaction` not what the signer, the tweet
/// and the reaction's bump lead to; `Unauthorized` where the reaction names
/// another author than the signer; `Underflow` where the count of the stored
/// kind is zero.
pub fn remove_reaction(ledger: &mut Ledger, ctx: &RemoveReactionContext) -> (r: Result<
    (),
    ErrorCode,
>)
    ensures
        final(ledger).program() == old(ledger).program(),
        settles(
            ctx.outcome(
                old(ledger)@,
                tweet_rederived(old(ledger)@, ctx.tweet@, old(ledger).program()),
                reaction_rederived(old(ledger)@, *ctx, old(ledger).program()),
            ),
            old(ledger)@,
            final(ledger)@,
            r,
        ),
{
    let stored = tweet_address(ledger, &ctx.tweet);
    let reaction = match ledger.get(&ctx.tweet_reaction) {
        Some(Record::Reaction(r)) => rederive(
            &stored_reaction_seeds(&ctx.reaction_author, &ctx.tweet, r.bump),
            &ledger.program_id(),
        ),
        _ => None,
    };
    ctx.apply(ledger, stored, reaction)
}

impl AddCommentContext {
    /// What the request does to the records, `tweet_address` being what the
    /// tweet's stored fields lead to, `derived` what the comment's seeds lead
    /// to, and `text` the comment's bytes.
    pub open spec fn outcome(
        self,
        records: Records,
        text: Seq<u8>,
        tweet_address: Option<Seq<u8>>,
        derived: Option<(Seq<u8>, u8)>,
    ) -> Result<Records, ErrorCode> {
        match tweet_at(records, self.tweet@) {
            None => Err(ErrorCode::NotFound),
            Some(tweet) => if rematched(tweet_address, self.tweet@).is_err() {
                Err(ErrorCode::AddressMismatch)
            } else {
                match (
                    matched(derived, self.comment@),
                    validated(text, Field::Comment, COMMENT_LENGTH),
                ) {
                    (Err(e), _) => Err(e),
                    (Ok(_), Err(e)) => Err(e),
                    (Ok(bump), Ok(content)) => if records.contains_key(self.comment@) {
                        Err(ErrorCode::AlreadyExists)
                    } else {
                        Ok(
                            records.insert(
                                self.comment@,
                                RecordView::Comment(
                                    CommentView {
                                        comment_author: self.comment_author@,
                                        parent_tweet: self.tweet@,
                                        content,
                                        bump,
                                    },
                                ),
                            ),
                        )
                    },
                }
            },
        }
    }

    /// Carries the request out, given what the tweet's stored fields and the
    /// comment's seeds lead to.
    pub fn apply(
        &self,
        ledger: &mut Ledger,
        comment_content: &str,
        tweet_address: Option<Address>,
        derived: Option<(Address, u8)>,
    ) -> (r: Result<(), ErrorCode>)
        ensures
            final(ledger).program() == old(ledger).program(),
            settles(
                self.outcome(
                    old(ledger)@,
                    comment_content.spec_bytes(),
                    address_view(tweet_address),
                    derived_view(derived),
                ),
                old(ledger)@,
                final(ledger)@,
                r,
            ),
    {
        match ledger.get(&self.tweet) {
            Some(Record::Tweet(_)) => {},
            _ => {
                return Err(ErrorCode::NotFound);
            },
        }
        check_stored_address(&tweet_address, &self.tweet)?;
        let bump: u8 = check_address(&derived, &self.comment)?;
        let content = validate(comment_content, Field::Comment, COMMENT_LENGTH)?;
        let comment = Comment {
            comment_author: self.comment_author,
            parent_tweet: self.tweet,
            content,
            bump,
        };
        ledger.create(self.comment, Record::Comment(comment))
    }
}

/// Records the signer's comment on a tweet at the address that belongs to the
/// signer, the tweet and the digest of the comment's text. The same text
/// twice is the same comment, and the second is refused.
///
/// Rejected, for the first of these that holds: `NotFound` where no tweet
/// lives at `ctx.tweet`; `AddressMismatch` where `ctx.tweet` is not what the
/// tweet's topic, author and bump lead to, or `ctx.comment` not what the
/// signer, the text's digest and the tweet lead to; `ValidationError` where
/// the text has more than `COMMENT_LENGTH` bytes; `AlreadyExists` where a
/// record lives at `ctx.comment`.
pub fn add_comment(ledger: &mut Ledger, ctx: &AddCommentContext, comment_content: &str) -> (r:
    Result<(), ErrorCode>)
    ensures
        final(ledger).program() == old(ledger).program(),
        settles(
            ctx.outcome(
                old(ledger)@,
                comment_content.spec_bytes(),
                tweet_rederived(old(ledger)@, ctx.tweet@, old(ledger).program()),
                program_address(
                    comment_seeds_of(
                        ctx.comment_author@,
                        sha256(comment_content.spec_bytes()),
                        ctx.tweet@,
                    ),
                    old(ledger).program(),
                ),
            ),
            old(ledger)@,
            final(ledger)@,
            r,
        ),
{
    let stored = tweet_address(ledger, &ctx.tweet);
    let derived = crate::address::derive(
        &comment_seeds(&ctx.comment_author, content_hash(comment_content), &ctx.tweet),
        &ledger.program_id(),
    );
    ctx.apply(ledger, comment_content, stored, derived)
}

/// A dislike followed by its removal lowers the dislikes, and not the likes:
/// the kind comes from the stored reaction, the request names none. The
/// records are then as they were before the dislike. The bump that the stored
/// reaction keeps must lead back to the reaction's address, as `add_reaction`
/// promises of every reaction that it stores.
pub proof fn dislike_then_remove_restores(
    records: Records,
    ctx: AddReactionContext,
    program: Seq<u8>,
)
    requires
        ctx.outcome(
            records,
            ReactionType::Dislike,
            tweet_rederived(records, ctx.tweet@, program),
            program_address(reaction_seeds_of(ctx.reaction_author@, ctx.tweet@), program),
        ) is Ok,
        reaction_rederived(
            ctx.outcome(
                records,
                ReactionType::Dislike,
                tweet_rederived(records, ctx.tweet@, program),
                program_address(reaction_seeds_of(ctx.reaction_author@, ctx.tweet@), program),
            ).unwrap(),
            ctx.removal(),
            program,
        ) == Some(ctx.tweet_reaction@),
    ensures
        ({
            let disliked = ctx.outcome(
                records,
                ReactionType::Dislike,
                tweet_rederived(records, ctx.tweet@, program),
                program_address(reaction_seeds_of(ctx.reaction_author@, ctx.tweet@), program),
            ).unwrap();
            let removed = ctx.removal().outcome(
                disliked,
                tweet_rederived(disliked, ctx.tweet@, program),
                reaction_rederived(disliked, ctx.removal(), program),
            );
            &&& removed == Ok::<Records, ErrorCode>(records)
            &&& tweet_at(removed.unwrap(), ctx.tweet@).unwrap().dislikes == tweet_at(
                disliked,
                ctx.tweet@,
            ).unwrap().dislikes - 1
            &&& tweet_at(removed.unwrap(), ctx.tweet@).unwrap().likes == tweet_at(
                disliked,
                ctx.tweet@,
            ).unwrap().likes
            &&& !removed.unwrap().contains_key(ctx.tweet_reaction@)
        }),
{
    let disliked = ctx.outcome(
        records,
        ReactionType::Dislike,
        tweet_rederived(records, ctx.tweet@, program),
        program_address(reaction_seeds_of(ctx.reaction_author@, ctx.tweet@), program),
    ).unwrap();
    let removed = ctx.removal().outcome(
        disliked,
        tweet_rederived(disliked, ctx.tweet@, program),
        reaction_rederived(disliked, ctx.removal(), program),
    );
    assert(removed.unwrap() =~= records);
}

} // verus!
