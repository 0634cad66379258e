//! The seeds from which each kind of record gets its address.

use vstd::prelude::*;
use vstd::bytes::spec_u64_to_le_bytes;
use vstd::bytes::u64_to_le_bytes;
use vstd::slice::slice_to_vec;
use vstd::string::StringSliceAdditionalSpecFns;
use crate::address::Address;

verus! {

/// The first seed of a profile's address.
pub const PROFILE_SEED: &'static str = "user-profile";

/// The first seed of a post's address.
pub const POST_SEED: &'static str = "post";

/// The first seed of a like's address.
pub const LIKE_SEED: &'static str = "like";

/// The second seed of a tweet's address.
pub const TWEET_SEED: &'static str = "TWEET_SEED";

/// The first seed of a reaction's address.
pub const TWEET_REACTION_SEED: &'static str = "TWEET_REACTION_SEED";

/// The first seed of a comment's address.
pub const COMMENT_SEED: &'static str = "COMMENT_SEED";

/// The seeds of the profile of `authority`.
pub open spec fn profile_seeds_of(authority: Seq<u8>) -> Seq<Seq<u8>> {
    seq![PROFILE_SEED.spec_bytes(), authority]
}

/// The seeds of the post that `authority` creates while its profile counts
/// `post_count` posts.
pub open spec fn post_seeds_of(authority: Seq<u8>, post_count: u64) -> Seq<Seq<u8>> {
    seq![POST_SEED.spec_bytes(), authority, spec_u64_to_le_bytes(post_count)]
}

/// The seeds of the like that `authority` gives to `post`.
pub open spec fn like_seeds_of(post: Seq<u8>, authority: Seq<u8>) -> Seq<Seq<u8>> {
    seq![LIKE_SEED.spec_bytes(), post, authority]
}

/// The seeds under which a tweet was stored: its topic, its author and the
/// bump that it keeps.
pub open spec fn tweet_seeds_of(topic: Seq<u8>, author: Seq<u8>, bump: u8) -> Seq<Seq<u8>> {
    seq![topic, TWEET_SEED.spec_bytes(), author, seq![bump]]
}

/// The seeds of the reaction of `author` to `tweet`.
pub open spec fn reaction_seeds_of(author: Seq<u8>, tweet: Seq<u8>) -> Seq<Seq<u8>> {
    seq![TWEET_REACTION_SEED.spec_bytes(), author, tweet]
}

/// The seeds of a stored reaction: those of the reaction, then the bump that
/// it keeps.
pub open spec fn stored_reaction_seeds_of(author: Seq<u8>, tweet: Seq<u8>, bump: u8) -> Seq<
    Seq<u8>,
> {
    seq![TWEET_REACTION_SEED.spec_bytes(), author, tweet, seq![bump]]
}

/// The seeds of the comment of `author` on `tweet` whose text has the digest
/// `digest`.
pub open spec fn comment_seeds_of(author: Seq<u8>, digest: Seq<u8>, tweet: Seq<u8>) -> Seq<
    Seq<u8>,
> {
    seq![COMMENT_SEED.spec_bytes(), author, digest, tweet]
}

/// The views of the seeds, in order.
pub open spec fn seeds_view(seeds: &Vec<Vec<u8>>) -> Seq<Seq<u8>> {
    seeds@.map_values(|s: Vec<u8>| s@)
}

/// Builds the seeds of the profile of `authority`.
pub fn profile_seeds(authority: &Address) -> (r: Vec<Vec<u8>>)
    ensures
        seeds_view(&r) == profile_seeds_of(authority@),
{
    let mut seeds: Vec<Vec<u8>> = Vec::new();
    seeds.push(slice_to_vec(PROFILE_SEED.as_bytes()));
    seeds.push(authority.to_seed());
    seeds
}

/// Builds the seeds of the post that `authority` creates at the count
/// `post_count`, which goes in as eight bytes, the lowest first.
pub fn post_seeds(authority: &Address, post_count: u64) -> (r: Vec<Vec<u8>>)
    ensures
        seeds_view(&r) == post_seeds_of(authority@, post_count),
{
    let mut seeds: Vec<Vec<u8>> = Vec::new();
    seeds.push(slice_to_vec(POST_SEED.as_bytes()));
    seeds.push(authority.to_seed());
    seeds.push(u64_to_le_bytes(post_count));
    seeds
}

/// Builds the seeds of the like that `authority` gives to `post`.
pub fn like_seeds(post: &Address, authority: &Address) -> (r: Vec<Vec<u8>>)
    ensures
        seeds_view(&r) == like_seeds_of(post@, authority@),
{
    let mut seeds: Vec<Vec<u8>> = Vec::new();
    seeds.push(slice_to_vec(LIKE_SEED.as_bytes()));
    seeds.push(post.to_seed());
    seeds.push(authority.to_seed());
    seeds
}

/// Builds the seeds under which a tweet was stored.
pub fn tweet_seeds(topic: Vec<u8>, author: &Address, bump: u8) -> (r: Vec<Vec<u8>>)
    ensures
        seeds_view(&r) == tweet_seeds_of(topic@, author@, bump),
{
    let mut last: Vec<u8> = Vec::new();
    last.push(bump);
    let mut seeds: Vec<Vec<u8>> = Vec::new();
    seeds.push(topic);
    seeds.push(slice_to_vec(TWEET_SEED.as_bytes()));
    seeds.push(author.to_seed());
    seeds.push(last);
    seeds
}

/// Builds the seeds of the reaction of `author` to `tweet`.
pub fn reaction_seeds(author: &Address, tweet: &Address) -> (r: Vec<Vec<u8>>)
    ensures
        seeds_view(&r) == reaction_seeds_of(author@, tweet@),
{
    let mut seeds: Vec<Vec<u8>> = Vec::new();
    seeds.push(slice_to_vec(TWEET_REACTION_SEED.as_bytes()));
    seeds.push(author.to_seed());
    seeds.push(tweet.to_seed());
    seeds
}

/// Builds the seeds of a stored reaction, its bump last.
pub fn stored_reaction_seeds(author: &Address, tweet: &Address, bump: u8) -> (r: Vec<Vec<u8>>)
    ensures
        seeds_view(&r) == stored_reaction_seeds_of(author@, tweet@, bump),
{
    let mut last: Vec<u8> = Vec::new();
    last.push(bump);
    let mut seeds: Vec<Vec<u8>> = Vec::new();
    seeds.push(slice_to_vec(TWEET_REACTION_SEED.as_bytes()));
    seeds.push(author.to_seed());
    seeds.push(tweet.to_seed());
    seeds.push(last);
    seeds
}

/// Builds the seeds of the comment of `author` on `tweet` whose text has the
/// digest `digest`.
pub fn comment_seeds(author: &Address, digest: Vec<u8>, tweet: &Address) -> (r: Vec<Vec<u8>>)
    ensures
        seeds_view(&r) == comment_seeds_of(author@, digest@, tweet@),
{
    let mut seeds: Vec<Vec<u8>> = Vec::new();
    seeds.push(slice_to_vec(COMMENT_SEED.as_bytes()));
    seeds.push(author.to_seed());
    seeds.push(digest);
    seeds.push(tweet.to_seed());
    seeds
}

} // verus!
