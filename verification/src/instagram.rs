//! Profiles, posts and likes: the operations of a picture feed.

use vstd::prelude::*;
use vstd::string::StringSliceAdditionalSpecFns;
use crate::address::derived_view;
use crate::address::program_address;
use crate::address::Address;
use crate::counter::decrement;
use crate::counter::decremented;
use crate::counter::increment;
use crate::counter::incremented;
use crate::errors::ErrorCode;
use crate::errors::Field;
use crate::guard::authorized;
use crate::guard::check_address;
use crate::guard::check_authority;
use crate::guard::matched;
use crate::ledger::settles;
use crate::ledger::Change;
use crate::ledger::Ledger;
use crate::records::Like;
use crate::records::Post;
use crate::records::PostView;
use crate::records::Record;
use crate::records::RecordView;
use crate::records::Records;
use crate::records::UserProfile;
use crate::records::UserProfileView;
use crate::seeds::like_seeds;
use crate::seeds::like_seeds_of;
use crate::seeds::post_seeds;
use crate::seeds::post_seeds_of;
use crate::seeds::profile_seeds;
use crate::seeds::profile_seeds_of;
use crate::text::validate;
use crate::text::validated;
use crate::text::CONTENT_URI_LENGTH;
use crate::text::DESCRIPTION_LENGTH;
use crate::text::USERNAME_LENGTH;

verus! {

/// The request to greet: it names no address.
#[derive(Clone, Copy, Debug)]
pub struct Initialize {}

/// The addresses of a request to create a profile.
#[derive(Clone, Copy, Debug)]
pub struct InitializeUser {
    /// Where the profile is to live.
    pub user_profile: Address,
    /// Who signs, and owns the profile.
    pub authority: Address,
}

/// The addresses of a request to create a post.
#[derive(Clone, Copy, Debug)]
pub struct CreatePost {
    /// Where the post is to live.
    pub post: Address,
    /// The profile that counts the signer's posts.
    pub user_profile: Address,
    /// Who signs, and owns the post.
    pub authority: Address,
}

/// The addresses of a request to close a post.
#[derive(Clone, Copy, Debug)]
pub struct DeletePost {
    /// The post to close.
    pub post: Address,
    /// The profile that counts the signer's posts.
    pub user_profile: Address,
    /// Who signs.
    pub authority: Address,
}

/// The addresses of a request to like a post.
#[derive(Clone, Copy, Debug)]
pub struct LikePost {
    /// Where the like is to live.
    pub like_account: Address,
    /// The post that is liked.
    pub post: Address,
    /// Who signs, and likes.
    pub authority: Address,
}

/// The addresses of a request to take a like back.
#[derive(Clone, Copy, Debug)]
pub struct UnlikePost {
    /// The like to close.
    pub like_account: Address,
    /// The post that was liked.
    pub post: Address,
    /// Who signs.
    pub authority: Address,
}

/// The profile at `address`, where a profile lives there.
pub open spec fn profile_at(records: Records, address: Seq<u8>) -> Option<UserProfileView> {
    if records.contains_key(address) {
        match records[address] {
            RecordView::Profile(p) => Some(p),
            _ => None,
        }
    } else {
        None
    }
}

/// The post at `address`, where a post lives there.
pub open spec fn post_at(records: Records, address: Seq<u8>) -> Option<PostView> {
    if records.contains_key(address) {
        match records[address] {
            RecordView::Post(p) => Some(p),
            _ => None,
        }
    } else {
        None
    }
}

/// Whether a like lives at `address`.
pub open spec fn like_at(records: Records, address: Seq<u8>) -> bool {
    records.contains_key(address) && records[address] is Like
}

impl InitializeUser {
    /// What the request does to the records, `derived` being what the
    /// profile's seeds lead to and `username` the name's bytes.
    pub open spec fn outcome(
        self,
        records: Records,
        derived: Option<(Seq<u8>, u8)>,
        username: Seq<u8>,
    ) -> Result<Records, ErrorCode> {
        if matched(derived, self.user_profile@).is_err() {
            Err(ErrorCode::AddressMismatch)
        } else {
            match validated(username, Field::Username, USERNAME_LENGTH) {
                Err(e) => Err(e),
                Ok(name) => if records.contains_key(self.user_profile@) {
                    Err(ErrorCode::AlreadyExists)
                } else {
                    Ok(
                        records.insert(
                            self.user_profile@,
                            RecordView::Profile(
                                UserProfileView {
                                    authority: self.authority@,
                                    username: name,
                                    post_count: 0,
                                },
                            ),
                        ),
                    )
                },
            }
        }
    }

    /// Carries the request out, given what the profile's seeds lead to.
    pub fn apply(&self, ledger: &mut Ledger, derived: Option<(Address, u8)>, username: &str) -> (r:
        Result<(), ErrorCode>)
        ensures
            final(ledger).program() == old(ledger).program(),
            settles(
                self.outcome(old(ledger)@, derived_view(derived), username.spec_bytes()),
                old(ledger)@,
                final(ledger)@,
                r,
            ),
    {
        check_address(&derived, &self.user_profile)?;
        let name = validate(username, Field::Username, USERNAME_LENGTH)?;
        let profile = UserProfile { authority: self.authority, username: name, post_count: 0 };
        ledger.create(self.user_profile, Record::Profile(profile))
    }
}

/// Creates the profile of the signer at the address that belongs to the
/// signer, with no posts counted.
///
/// Rejected, for the first of these that holds: `AddressMismatch` where
/// `ctx.user_profile` is not what the signer's seeds lead to;
/// `ValidationError` where the name has more than `USERNAME_LENGTH` bytes;
/// `AlreadyExists` where a record lives at `ctx.user_profile`.
pub fn initialize_user(ledger: &mut Ledger, ctx: &InitializeUser, username: &str) -> (r: Result<
    (),
    ErrorCode,
>)
    ensures
        final(ledger).program() == old(ledger).program(),
        settles(
            ctx.outcome(
                old(ledger)@,
                program_address(profile_seeds_of(ctx.authority@), old(ledger).program()),
                username.spec_bytes(),
            ),
            old(ledger)@,
            final(ledger)@,
            r,
        ),
{
    let derived = crate::address::derive(&profile_seeds(&ctx.authority), &ledger.program_id());
    ctx.apply(ledger, derived, username)
}

/// Hands back the program identity of the ledger, for the caller to announce.
/// Nothing is changed.
pub fn initialize(ledger: &Ledger, ctx: &Initialize) -> (r: Result<Address, ErrorCode>)
    ensures
        match r {
            Ok(id) => id@ == ledger.program(),
            Err(_) => false,
        },
{
    Ok(ledger.program_id())
}

impl CreatePost {
    /// What the seeds of the new post lead to: they hold the count that the
    /// signer's profile has now.
    pub open spec fn derived(self, records: Records, program: Seq<u8>) -> Option<(Seq<u8>, u8)> {
        match profile_at(records, self.user_profile@) {
            Some(profile) => program_address(
                post_seeds_of(self.authority@, profile.post_count),
                program,
            ),
            None => None,
        }
    }

    /// What the request does to the records, `derived` being what the post's
    /// seeds lead to.
    pub open spec fn outcome(
        self,
        records: Records,
        derived: Option<(Seq<u8>, u8)>,
        content_uri: Seq<u8>,
        description: Seq<u8>,
        created_at: i64,
    ) -> Result<Records, ErrorCode> {
        match profile_at(records, self.user_profile@) {
            None => Err(ErrorCode::NotFound),
            Some(profile) => if matched(derived, self.post@).is_err() {
                Err(ErrorCode::AddressMismatch)
            } else if authorized(self.authority@, profile.authority).is_err() {
                Err(ErrorCode::Unauthorized)
            } else {
                match (
                    validated(content_uri, Field::ContentUri, CONTENT_URI_LENGTH),
                    validated(description, Field::Description, DESCRIPTION_LENGTH),
                ) {
                    (Err(e), _) => Err(e),
                    (Ok(_), Err(e)) => Err(e),
                    (Ok(uri), Ok(text)) => if records.contains_key(self.post@) {
                        Err(ErrorCode::AlreadyExists)
                    } else {
                        match incremented(profile.post_count, 1) {
                            Err(e) => Err(e),
                            Ok(n) => Ok(
                                records.insert(
                                    self.post@,
                                    RecordView::Post(
                                        PostView {
                                            authority: self.authority@,
                                            content_uri: uri,
                                            description: text,
                                            likes: 0,
                                            created_at,
                                        },
                                    ),
                                ).insert(
                                    self.user_profile@,
                                    RecordView::Profile(
                                        UserProfileView { post_count: n, ..profile },
                                    ),
                                ),
                            ),
                        }
                    },
                }
            },
        }
    }

    /// Carries the request out, given what the post's seeds lead to.
    pub fn apply(
        &self,
        ledger: &mut Ledger,
        derived: Option<(Address, u8)>,
        content_uri: &str,
        description: &str,
        created_at: i64,
    ) -> (r: Result<(), ErrorCode>)
        ensures
            final(ledger).program() == old(ledger).program(),
            settles(
                self.outcome(
                    old(ledger)@,
                    derived_view(derived),
                    content_uri.spec_bytes(),
                    description.spec_bytes(),
                    created_at,
                ),
                old(ledger)@,
                final(ledger)@,
                r,
            ),
    {
        let (owner, count): (Address, u64) = match ledger.get(&self.user_profile) {
            Some(Record::Profile(profile)) => (profile.authority, profile.post_count),
            _ => {
                return Err(ErrorCode::NotFound);
            },
        };
        check_address(&derived, &self.post)?;
        check_authority(&self.authority, &owner)?;
        let uri = validate(content_uri, Field::ContentUri, CONTENT_URI_LENGTH)?;
        let text = validate(description, Field::Description, DESCRIPTION_LENGTH)?;
        if ledger.contains(&self.post) {
            return Err(ErrorCode::AlreadyExists);
        }
        let n: u64 = increment(count, 1)?;
        let post = Post {
            authority: self.authority,
            content_uri: uri,
            description: text,
            likes: 0,
            created_at,
        };
        ledger.create(self.post, Record::Post(post))?;
        ledger.mutate(&self.user_profile, Change::PostCount(n))
    }
}

/// Creates a post of the signer at the address that belongs to the signer and
/// to the count of the signer's profile, and raises that count by one.
///
/// Rejected, for the first of these that holds: `NotFound` where no profile
/// lives at `ctx.user_profile`; `AddressMismatch` where `ctx.post` is not what
/// the signer and the profile's count lead to; `Unauthorized` where the
/// profile is not the signer's; `ValidationError` where the content location
/// has more than `CONTENT_URI_LENGTH` bytes, then where the description has
/// more than `DESCRIPTION_LENGTH`; `AlreadyExists` where a record lives at
/// `ctx.post`; `Overflow` where the count is full.
pub fn create_post(
    ledger: &mut Ledger,
    ctx: &CreatePost,
    content_uri: &str,
    description: &str,
    created_at: i64,
) -> (r: Result<(), ErrorCode>)
    ensures
        final(ledger).program() == old(ledger).program(),
        settles(
            ctx.outcome(
                old(ledger)@,
                ctx.derived(old(ledger)@, old(ledger).program()),
                content_uri.spec_bytes(),
                description.spec_bytes(),
                created_at,
            ),
            old(ledger)@,
            final(ledger)@,
            r,
        ),
{
    let derived = match ledger.get(&ctx.user_profile) {
        Some(Record::Profile(profile)) => crate::address::derive(
            &post_seeds(&ctx.authority, profile.post_count),
            &ledger.program_id(),
        ),
        _ => None,
    };
    ctx.apply(ledger, derived, content_uri, description, created_at)
}

impl DeletePost {
    /// What the request does to the records.
    pub open spec fn outcome(self, records: Records) -> Result<Records, ErrorCode> {
        match post_at(records, self.post@) {
            None => Err(ErrorCode::NotFound),
            Some(post) => if authorized(self.authority@, post.authority).is_err() {
                Err(ErrorCode::Unauthorized)
            } else {
                match profile_at(records, self.user_profile@) {
                    None => Err(ErrorCode::NotFound),
                    Some(profile) => if authorized(self.authority@, profile.authority).is_err() {
                        Err(ErrorCode::Unauthorized)
                    } else {
                        match decremented(profile.post_count, 1) {
                            Err(e) => Err(e),
                            Ok(n) => Ok(
                                records.remove(self.post@).insert(
                                    self.user_profile@,
                                    RecordView::Profile(
                                        UserProfileView { post_count: n, ..profile },
                                    ),
                                ),
                            ),
                        }
                    },
                }
            },
        }
    }
}

/// Closes a post of the signer and lowers the count of the signer's profile by
/// one.
///
/// Rejected, for the first of these that holds: `NotFound` where no post lives
/// at `ctx.post`; `Unauthorized` where the post is not the signer's;
/// `NotFound` where no profile lives at `ctx.user_profile`; `Unauthorized`
/// where the profile is not the signer's; `Underflow` where the count is zero.
pub fn delete_post(ledger: &mut Ledger, ctx: &DeletePost) -> (r: Result<(), ErrorCode>)
    ensures
        final(ledger).program() == old(ledger).program(),
        settles(ctx.outcome(old(ledger)@), old(ledger)@, final(ledger)@, r),
{
    let author: Address = match ledger.get(&ctx.post) {
        Some(Record::Post(post)) => post.authority,
        _ => {
            return Err(ErrorCode::NotFound);
        },
    };
    check_authority(&ctx.authority, &author)?;
    let (owner, count): (Address, u64) = match ledger.get(&ctx.user_profile) {
        Some(Record::Profile(profile)) => (profile.authority, profile.post_count),
        _ => {
            return Err(ErrorCode::NotFound);
        },
    };
    check_authority(&ctx.authority, &owner)?;
    let n: u64 = decrement(count, 1)?;
    match ledger.close(&ctx.post, &ctx.authority) {
        Ok(_) => {},
        Err(e) => {
            return Err(e);
        },
    }
    ledger.mutate(&ctx.user_profile, Change::PostCount(n))
}

impl LikePost {
    /// What the request does to the records, `derived` being what the like's
    /// seeds lead to.
    pub open spec fn outcome(self, records: Records, derived: Option<(Seq<u8>, u8)>) -> Result<
        Records,
        ErrorCode,
    > {
        match post_at(records, self.post@) {
            None => Err(ErrorCode::NotFound),
            Some(post) => if matched(derived, self.like_account@).is_err() {
                Err(ErrorCode::AddressMismatch)
            } else if records.contains_key(self.like_account@) {
                Err(ErrorCode::AlreadyExists)
            } else {
                match incremented(post.likes, 1) {
                    Err(e) => Err(e),
                    Ok(n) => Ok(
                        records.insert(self.like_account@, RecordView::Like(Like {})).insert(
                            self.post@,
                            RecordView::Post(PostView { likes: n, ..post }),
                        ),
                    ),
                }
            },
        }
    }

    /// Carries the request out, given what the like's seeds lead to.
    pub fn apply(&self, ledger: &mut Ledger, derived: Option<(Address, u8)>) -> (r: Result<
        (),
        ErrorCode,
    >)
        ensures
            final(ledger).program() == old(ledger).program(),
            settles(
                self.outcome(old(ledger)@, derived_view(derived)),
                old(ledger)@,
                final(ledger)@,
                r,
            ),
    {
        let likes: u64 = match ledger.get(&self.post) {
            Some(Record::Post(post)) => post.likes,
            _ => {
                return Err(ErrorCode::NotFound);
            },
        };
        check_address(&derived, &self.like_account)?;
        if ledger.contains(&self.like_account) {
            return Err(ErrorCode::AlreadyExists);
        }
        let n: u64 = increment(likes, 1)?;
        ledger.create(self.like_account, Record::Like(Like {}))?;
        ledger.mutate(&self.post, Change::Likes(n))
    }
}

/// Records that the signer likes a post: a like comes to live at the address
/// that belongs to the post and the signer, and the post's likes rise by one.
///
/// Rejected, for the first of these that holds: `NotFound` where no post lives
/// at `ctx.post`; `AddressMismatch` where `ctx.like_account` is not what the
/// post and the signer lead to; `AlreadyExists` where a record lives at
/// `ctx.like_account`, which is how a second like is refused; `Overflow`
/// where the likes are full.
pub fn like_post(ledger: &mut Ledger, ctx: &LikePost) -> (r: Result<(), ErrorCode>)
    ensures
        final(ledger).program() == old(ledger).program(),
        settles(
            ctx.outcome(
                old(ledger)@,
                program_address(like_seeds_of(ctx.post@, ctx.authority@), old(ledger).program()),
            ),
            old(ledger)@,
            final(ledger)@,
            r,
        ),
{
    let derived = crate::address::derive(
        &like_seeds(&ctx.post, &ctx.authority),
        &ledger.program_id(),
    );
    ctx.apply(ledger, derived)
}

impl UnlikePost {
    /// What the request does to the records, `derived` being what the like's
    /// seeds lead to.
    pub open spec fn outcome(self, records: Records, derived: Option<(Seq<u8>, u8)>) -> Result<
        Records,
        ErrorCode,
    > {
        match post_at(records, self.post@) {
            None => Err(ErrorCode::NotFound),
            Some(post) => if !like_at(records, self.like_account@) {
                Err(ErrorCode::NotFound)
            } else if matched(derived, self.like_account@).is_err() {
                Err(ErrorCode::AddressMismatch)
            } else {
                match decremented(post.likes, 1) {
                    Err(e) => Err(e),
                    Ok(n) => Ok(
                        records.remove(self.like_account@).insert(
                            self.post@,
                            RecordView::Post(PostView { likes: n, ..post }),
                        ),
                    ),
                }
            },
        }
    }

    /// Carries the request out, given what the like's seeds lead to.
    pub fn apply(&self, ledger: &mut Ledger, derived: Option<(Address, u8)>) -> (r: Result<
        (),
        ErrorCode,
    >)
        ensures
            final(ledger).program() == old(ledger).program(),
            settles(
                self.outcome(old(ledger)@, derived_view(derived)),
                old(ledger)@,
                final(ledger)@,
                r,
            ),
    {
        let likes: u64 = match ledger.get(&self.post) {
            Some(Record::Post(post)) => post.likes,
            _ => {
                return Err(ErrorCode::NotFound);
            },
        };
        match ledger.get(&self.like_account) {
            Some(Record::Like(_)) => {},
            _ => {
                return Err(ErrorCode::NotFound);
            },
        }
        check_address(&derived, &self.like_account)?;
        let n: u64 = decrement(likes, 1)?;
        match ledger.close(&self.like_account, &self.authority) {
            Ok(_) => {},
            Err(e) => {
                return Err(e);
            },
        }
        ledger.mutate(&self.post, Change::Likes(n))
    }
}

/// Takes the signer's like of a post back: the like leaves its address, and
/// the post's likes fall by one.
///
/// Rejected, for the first of these that holds: `NotFound` where no post lives
/// at `ctx.post`, or no like at `ctx.like_account`; `AddressMismatch` where
/// `ctx.like_account` is not what the post and the signer lead to;
/// `Underflow` where the likes are zero.
pub fn unlike_post(ledger: &mut Ledger, ctx: &UnlikePost) -> (r: Result<(), ErrorCode>)
    ensures
        final(ledger).program() == old(ledger).program(),
        settles(
            ctx.outcome(
                old(ledger)@,
                program_address(like_seeds_of(ctx.post@, ctx.authority@), old(ledger).program()),
            ),
            old(ledger)@,
            final(ledger)@,
            r,
        ),
{
    let derived = crate::address::derive(
        &like_seeds(&ctx.post, &ctx.authority),
        &ledger.program_id(),
    );
    ctx.apply(ledger, derived)
}

/// A like followed by its unlike, by the same signer on the same post, leaves
/// the records as they were: the post has the likes it had, and no like lives
/// at the like's address.
pub proof fn like_then_unlike_restores(
    records: Records,
    like: LikePost,
    unlike: UnlikePost,
    derived: Option<(Seq<u8>, u8)>,
)
    requires
        like.outcome(records, derived) is Ok,
        unlike.like_account@ == like.like_account@,
        unlike.post@ == like.post@,
        unlike.authority@ == like.authority@,
    ensures
        ({
            let liked = like.outcome(records, derived).unwrap();
            let unliked = unlike.outcome(liked, derived);
            &&& unliked == Ok::<Records, ErrorCode>(records)
            &&& post_at(liked, like.post@).unwrap().likes == post_at(
                records,
                like.post@,
            ).unwrap().likes + 1
            &&& post_at(unliked.unwrap(), like.post@).unwrap().likes == post_at(
                records,
                like.post@,
            ).unwrap().likes
            &&& !unliked.unwrap().contains_key(like.like_account@)
        }),
{
    let liked = like.outcome(records, derived).unwrap();
    assert(unlike.outcome(liked, derived).unwrap() =~= records);
}

/// A second like by the same signer on the same post, before the first is
/// taken back, is rejected because the like exists, and changes nothing: the
/// post keeps its likes.
pub proof fn second_like_is_rejected(
    records: Records,
    like: LikePost,
    derived: Option<(Seq<u8>, u8)>,
    after: Records,
    r: Result<(), ErrorCode>,
)
    requires
        like.outcome(records, derived) is Ok,
        settles(
            like.outcome(like.outcome(records, derived).unwrap(), derived),
            like.outcome(records, derived).unwrap(),
            after,
            r,
        ),
    ensures
        r == Err::<(), ErrorCode>(ErrorCode::AlreadyExists),
        after == like.outcome(records, derived).unwrap(),
        post_at(after, like.post@) == post_at(
            like.outcome(records, derived).unwrap(),
            like.post@,
        ),
{
}

/// A signer who is not the authority of a post cannot close it: the request is
/// rejected as unauthorized, and the post and every profile's count stay as
/// they were.
pub proof fn stranger_cannot_close(
    records: Records,
    ctx: DeletePost,
    after: Records,
    r: Result<(), ErrorCode>,
)
    requires
        post_at(records, ctx.post@) is Some,
        post_at(records, ctx.post@).unwrap().authority != ctx.authority@,
        settles(ctx.outcome(records), records, after, r),
    ensures
        r == Err::<(), ErrorCode>(ErrorCode::Unauthorized),
        after == records,
{
}

} // verus!
