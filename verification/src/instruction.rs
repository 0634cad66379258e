//! Requests as values, and the one function that carries any of them out.

use vstd::prelude::*;
use vstd::utf8::encode_utf8;
use crate::address::program_address;
use crate::address::sha256;
use crate::errors::ErrorCode;
use crate::instagram::create_post;
use crate::instagram::delete_post;
use crate::instagram::initialize_user;
use crate::instagram::like_post;
use crate::instagram::unlike_post;
use crate::instagram::CreatePost;
use crate::instagram::DeletePost;
use crate::instagram::Initialize;
use crate::instagram::InitializeUser;
use crate::instagram::LikePost;
use crate::instagram::UnlikePost;
use crate::ledger::settles;
use crate::ledger::Ledger;
use crate::records::ReactionType;
use crate::records::Records;
use crate::seeds::comment_seeds_of;
use crate::seeds::like_seeds_of;
use crate::seeds::profile_seeds_of;
use crate::seeds::reaction_seeds_of;
use crate::twitter::add_comment;
use crate::twitter::add_reaction;
use crate::twitter::reaction_rederived;
use crate::twitter::remove_reaction;
use crate::twitter::tweet_rederived;
use crate::twitter::AddCommentContext;
use crate::twitter::AddReactionContext;
use crate::twitter::RemoveReactionContext;

verus! {

/// A request to the ledger: the operation, the addresses it refers to, and
/// what it carries.
#[derive(Debug)]
pub enum Instruction {
    Initialize { accounts: Initialize },
    InitializeUser { accounts: InitializeUser, username: String },
    CreatePost { accounts: CreatePost, content_uri: String, description: String, created_at: i64 },
    DeletePost { accounts: DeletePost },
    LikePost { accounts: LikePost },
    UnlikePost { accounts: UnlikePost },
    AddComment { accounts: AddCommentContext, comment_content: String },
    AddReaction { accounts: AddReactionContext, reaction: ReactionType },
    RemoveReaction { accounts: RemoveReactionContext },
}

impl Instruction {
    /// What the request does to the records of a ledger under `program`.
    pub open spec fn outcome(self, records: Records, program: Seq<u8>) -> Result<
        Records,
        ErrorCode,
    > {
        match self {
            Instruction::Initialize { accounts } => Ok(records),
            Instruction::InitializeUser { accounts, username } => accounts.outcome(
                records,
                program_address(profile_seeds_of(accounts.authority@), program),
                encode_utf8(username@),
            ),
            Instruction::CreatePost {
                accounts,
                content_uri,
                description,
                created_at,
            } => accounts.outcome(
                records,
                accounts.derived(records, program),
                encode_utf8(content_uri@),
                encode_utf8(description@),
                created_at,
            ),
            Instruction::DeletePost { accounts } => accounts.outcome(records),
            Instruction::LikePost { accounts } => accounts.outcome(
                records,
                program_address(like_seeds_of(accounts.post@, accounts.authority@), program),
            ),
            Instruction::UnlikePost { accounts } => accounts.outcome(
                records,
                program_address(like_seeds_of(accounts.post@, accounts.authority@), program),
            ),
            Instruction::AddComment { accounts, comment_content } => accounts.outcome(
                records,
                encode_utf8(comment_content@),
                tweet_rederived(records, accounts.tweet@, program),
                program_address(
                    comment_seeds_of(
                        accounts.comment_author@,
                        sha256(encode_utf8(comment_content@)),
                        accounts.tweet@,
                    ),
                    program,
                ),
            ),
            Instruction::AddReaction { accounts, reaction } => accounts.outcome(
                records,
                reaction,
                tweet_rederived(records, accounts.tweet@, program),
                program_address(
                    reaction_seeds_of(accounts.reaction_author@, accounts.tweet@),
                    program,
                ),
            ),
            Instruction::RemoveReaction { accounts } => accounts.outcome(
                records,
                tweet_rederived(records, accounts.tweet@, program),
                reaction_rederived(records, accounts, program),
            ),
        }
    }
}

/// Carries one request out, as the operation that it names would. The greeting
/// changes nothing here: what it announces is for the caller to ask for.
pub fn process(ledger: &mut Ledger, instruction: &Instruction) -> (r: Result<(), ErrorCode>)
    ensures
        final(ledger).program() == old(ledger).program(),
        settles(
            instruction.outcome(old(ledger)@, old(ledger).program()),
            old(ledger)@,
            final(ledger)@,
            r,
        ),
{
    match instruction {
        Instruction::Initialize { accounts } => Ok(()),
        Instruction::InitializeUser { accounts, username } => initialize_user(
            ledger,
            accounts,
            username.as_str(),
        ),
        Instruction::CreatePost {
            accounts,
            content_uri,
            description,
            created_at,
        } => create_post(ledger, accounts, content_uri.as_str(), description.as_str(), *created_at),
        Instruction::DeletePost { accounts } => delete_post(ledger, accounts),
        Instruction::LikePost { accounts } => like_post(ledger, accounts),
        Instruction::UnlikePost { accounts } => unlike_post(ledger, accounts),
        Instruction::AddComment { accounts, comment_content } => add_comment(
            ledger,
            accounts,
            comment_content.as_str(),
        ),
        Instruction::AddReaction { accounts, reaction } => add_reaction(
            ledger,
            accounts,
            *reaction,
        ),
        Instruction::RemoveReaction { accounts } => remove_reaction(ledger, accounts),
    }
}

} // verus!
