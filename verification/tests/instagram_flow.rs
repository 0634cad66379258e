use social_ledger::address::Address;
use social_ledger::errors::ErrorCode;
use social_ledger::errors::Field;
use social_ledger::instagram::create_post;
use social_ledger::instagram::delete_post;
use social_ledger::instagram::initialize;
use social_ledger::instagram::initialize_user;
use social_ledger::instagram::like_post;
use social_ledger::instagram::unlike_post;
use social_ledger::instagram::CreatePost;
use social_ledger::instagram::DeletePost;
use social_ledger::instagram::Initialize;
use social_ledger::instagram::InitializeUser;
use social_ledger::instagram::LikePost;
use social_ledger::instagram::UnlikePost;
use social_ledger::ledger::Change;
use social_ledger::ledger::Ledger;
use social_ledger::records::Record;
use social_ledger::seeds::like_seeds;
use social_ledger::seeds::post_seeds;
use social_ledger::seeds::profile_seeds;

fn addr(n: u8) -> Address {
    Address::new([n; 32])
}

fn program() -> Address {
    addr(200)
}

fn profile_address(owner: &Address) -> Address {
    social_ledger::address::derive(&profile_seeds(owner), &program()).unwrap().0
}

fn post_address(owner: &Address, ordinal: u64) -> Address {
    social_ledger::address::derive(&post_seeds(owner, ordinal), &program()).unwrap().0
}

fn like_address(post: &Address, actor: &Address) -> Address {
    social_ledger::address::derive(&like_seeds(post, actor), &program()).unwrap().0
}

fn post_count(ledger: &Ledger, profile: &Address) -> u64 {
    match ledger.get(profile) {
        Some(Record::Profile(p)) => p.post_count,
        other => panic!("no profile: {:?}", other),
    }
}

fn likes(ledger: &Ledger, post: &Address) -> u64 {
    match ledger.get(post) {
        Some(Record::Post(p)) => p.likes,
        other => panic!("no post: {:?}", other),
    }
}

/// A ledger with the profile of `owner`.
fn with_profile(owner: &Address) -> Ledger {
    let mut ledger = Ledger::new(program());
    let ctx = InitializeUser { user_profile: profile_address(owner), authority: *owner };
    initialize_user(&mut ledger, &ctx, "ann").unwrap();
    ledger
}

/// Creates the next post of `owner` and hands back its address.
fn next_post(ledger: &mut Ledger, owner: &Address) -> Address {
    let profile = profile_address(owner);
    let post = post_address(owner, post_count(ledger, &profile));
    let ctx = CreatePost { post, user_profile: profile, authority: *owner };
    create_post(ledger, &ctx, "ipfs://picture", "a picture", 1_700_000_000).unwrap();
    post
}

#[test]
fn initialize_hands_back_the_program_identity() {
    let ledger = Ledger::new(program());
    assert_eq!(initialize(&ledger, &Initialize {}), Ok(program()));
    assert_eq!(ledger.len(), 0);
}

#[test]
fn initialize_user_creates_an_empty_profile() {
    let owner = addr(1);
    let mut ledger = Ledger::new(program());
    let ctx = InitializeUser { user_profile: profile_address(&owner), authority: owner };
    assert_eq!(initialize_user(&mut ledger, &ctx, "ann"), Ok(()));
    assert_eq!(ledger.len(), 1);
    match ledger.get(&ctx.user_profile) {
        Some(Record::Profile(p)) => {
            assert_eq!(p.authority, owner);
            assert_eq!(p.post_count, 0);
            assert_eq!(p.username.text(), b"ann".to_vec());
            assert_eq!(p.username.capacity(), 32);
            assert_eq!(p.username.length(), 3);
        }
        other => panic!("unexpected record: {:?}", other),
    }
}

#[test]
fn initialize_user_twice_fails() {
    let owner = addr(1);
    let mut ledger = with_profile(&owner);
    let ctx = InitializeUser { user_profile: profile_address(&owner), authority: owner };
    assert_eq!(initialize_user(&mut ledger, &ctx, "bob"), Err(ErrorCode::AlreadyExists));
    match ledger.get(&ctx.user_profile) {
        Some(Record::Profile(p)) => assert_eq!(p.username.text(), b"ann".to_vec()),
        other => panic!("unexpected record: {:?}", other),
    }
}

#[test]
fn initialize_user_at_another_address_fails() {
    let owner = addr(1);
    let mut ledger = Ledger::new(program());
    let ctx = InitializeUser { user_profile: profile_address(&addr(2)), authority: owner };
    assert_eq!(initialize_user(&mut ledger, &ctx, "ann"), Err(ErrorCode::AddressMismatch));
    assert_eq!(ledger.len(), 0);
}

#[test]
fn initialize_user_limits_the_name_to_its_field() {
    let owner = addr(1);
    let mut ledger = Ledger::new(program());
    let ctx = InitializeUser { user_profile: profile_address(&owner), authority: owner };
    let long = "n".repeat(33);
    assert_eq!(
        initialize_user(&mut ledger, &ctx, &long),
        Err(ErrorCode::ValidationError { field: Field::Username, limit: 32 })
    );
    assert_eq!(ledger.len(), 0);
    let fits = "n".repeat(32);
    assert_eq!(initialize_user(&mut ledger, &ctx, &fits), Ok(()));
}

#[test]
fn create_post_stores_the_post_and_counts_it() {
    let owner = addr(1);
    let mut ledger = with_profile(&owner);
    let profile = profile_address(&owner);
    let post = post_address(&owner, 0);
    let ctx = CreatePost { post, user_profile: profile, authority: owner };
    assert_eq!(create_post(&mut ledger, &ctx, "ipfs://picture", "a picture", 42), Ok(()));
    assert_eq!(post_count(&ledger, &profile), 1);
    assert_eq!(ledger.len(), 2);
    match ledger.get(&post) {
        Some(Record::Post(p)) => {
            assert_eq!(p.authority, owner);
            assert_eq!(p.content_uri.text(), b"ipfs://picture".to_vec());
            assert_eq!(p.content_uri.capacity(), 200);
            assert_eq!(p.description.text(), b"a picture".to_vec());
            assert_eq!(p.description.capacity(), 500);
            assert_eq!(p.likes, 0);
            assert_eq!(p.created_at, 42);
        }
        other => panic!("unexpected record: {:?}", other),
    }
}

#[test]
fn create_post_without_a_profile_fails() {
    let owner = addr(1);
    let mut ledger = Ledger::new(program());
    let ctx = CreatePost {
        post: post_address(&owner, 0),
        user_profile: profile_address(&owner),
        authority: owner,
    };
    assert_eq!(create_post(&mut ledger, &ctx, "u", "d", 0), Err(ErrorCode::NotFound));
    assert_eq!(ledger.len(), 0);
}

#[test]
fn create_post_on_the_profile_of_another_fails() {
    let owner = addr(1);
    let stranger = addr(2);
    let mut ledger = with_profile(&owner);
    let ctx = CreatePost {
        post: post_address(&stranger, 0),
        user_profile: profile_address(&owner),
        authority: stranger,
    };
    assert_eq!(create_post(&mut ledger, &ctx, "u", "d", 0), Err(ErrorCode::Unauthorized));
    assert_eq!(post_count(&ledger, &profile_address(&owner)), 0);
    assert_eq!(ledger.len(), 1);
}

#[test]
fn create_post_at_the_address_of_another_ordinal_fails() {
    let owner = addr(1);
    let mut ledger = with_profile(&owner);
    let ctx = CreatePost {
        post: post_address(&owner, 1),
        user_profile: profile_address(&owner),
        authority: owner,
    };
    assert_eq!(create_post(&mut ledger, &ctx, "u", "d", 0), Err(ErrorCode::AddressMismatch));
    assert_eq!(post_count(&ledger, &ctx.user_profile), 0);
    assert_eq!(ledger.len(), 1);
}

#[test]
fn create_post_limits_both_texts() {
    let owner = addr(1);
    let mut ledger = with_profile(&owner);
    let ctx = CreatePost {
        post: post_address(&owner, 0),
        user_profile: profile_address(&owner),
        authority: owner,
    };
    let long_uri = "u".repeat(201);
    let long_text = "d".repeat(501);
    assert_eq!(
        create_post(&mut ledger, &ctx, &long_uri, "d", 0),
        Err(ErrorCode::ValidationError { field: Field::ContentUri, limit: 200 })
    );
    assert_eq!(
        create_post(&mut ledger, &ctx, "u", &long_text, 0),
        Err(ErrorCode::ValidationError { field: Field::Description, limit: 500 })
    );
    assert_eq!(
        create_post(&mut ledger, &ctx, &long_uri, &long_text, 0),
        Err(ErrorCode::ValidationError { field: Field::ContentUri, limit: 200 })
    );
    assert_eq!(post_count(&ledger, &ctx.user_profile), 0);
    assert_eq!(ledger.len(), 1);
    let uri = "u".repeat(200);
    let text = "d".repeat(500);
    assert_eq!(create_post(&mut ledger, &ctx, &uri, &text, 0), Ok(()));
}

#[test]
fn create_post_fails_when_the_count_is_full() {
    let owner = addr(1);
    let mut ledger = with_profile(&owner);
    let profile = profile_address(&owner);
    ledger.mutate(&profile, Change::PostCount(u64::MAX)).unwrap();
    let ctx = CreatePost {
        post: post_address(&owner, u64::MAX),
        user_profile: profile,
        authority: owner,
    };
    assert_eq!(create_post(&mut ledger, &ctx, "u", "d", 0), Err(ErrorCode::Overflow));
    assert_eq!(post_count(&ledger, &profile), u64::MAX);
    assert!(!ledger.contains(&ctx.post));
    assert_eq!(ledger.len(), 1);
}

#[test]
fn delete_post_closes_the_post_and_lowers_the_count() {
    let owner = addr(1);
    let mut ledger = with_profile(&owner);
    let profile = profile_address(&owner);
    let post = next_post(&mut ledger, &owner);
    let ctx = DeletePost { post, user_profile: profile, authority: owner };
    assert_eq!(delete_post(&mut ledger, &ctx), Ok(()));
    assert!(!ledger.contains(&post));
    assert_eq!(post_count(&ledger, &profile), 0);
    assert_eq!(delete_post(&mut ledger, &ctx), Err(ErrorCode::NotFound));
}

#[test]
fn delete_post_by_a_stranger_is_unauthorized() {
    let owner = addr(1);
    let stranger = addr(2);
    let mut ledger = with_profile(&owner);
    let profile = profile_address(&owner);
    let post = next_post(&mut ledger, &owner);
    let ctx = DeletePost { post, user_profile: profile, authority: stranger };
    assert_eq!(delete_post(&mut ledger, &ctx), Err(ErrorCode::Unauthorized));
    assert_eq!(post_count(&ledger, &profile), 1);
    match ledger.get(&post) {
        Some(Record::Post(p)) => {
            assert_eq!(p.authority, owner);
            assert_eq!(p.content_uri.text(), b"ipfs://picture".to_vec());
            assert_eq!(p.description.text(), b"a picture".to_vec());
            assert_eq!(p.likes, 0);
            assert_eq!(p.created_at, 1_700_000_000);
        }
        other => panic!("unexpected record: {:?}", other),
    }
    assert_eq!(ledger.len(), 2);
}

#[test]
fn delete_post_by_a_stranger_with_a_profile_of_their_own_is_unauthorized() {
    let owner = addr(1);
    let stranger = addr(2);
    let mut ledger = with_profile(&owner);
    let theirs = InitializeUser { user_profile: profile_address(&stranger), authority: stranger };
    initialize_user(&mut ledger, &theirs, "eve").unwrap();
    next_post(&mut ledger, &stranger);
    let post = next_post(&mut ledger, &owner);
    let ctx = DeletePost { post, user_profile: theirs.user_profile, authority: stranger };
    assert_eq!(delete_post(&mut ledger, &ctx), Err(ErrorCode::Unauthorized));
    assert_eq!(post_count(&ledger, &theirs.user_profile), 1);
    assert_eq!(post_count(&ledger, &profile_address(&owner)), 1);
    assert!(ledger.contains(&post));
}

#[test]
fn delete_post_against_the_profile_of_another_is_unauthorized() {
    let owner = addr(1);
    let other = addr(2);
    let mut ledger = with_profile(&owner);
    let theirs = InitializeUser { user_profile: profile_address(&other), authority: other };
    initialize_user(&mut ledger, &theirs, "eve").unwrap();
    next_post(&mut ledger, &other);
    let post = next_post(&mut ledger, &owner);
    let ctx = DeletePost { post, user_profile: theirs.user_profile, authority: owner };
    assert_eq!(delete_post(&mut ledger, &ctx), Err(ErrorCode::Unauthorized));
    assert!(ledger.contains(&post));
    assert_eq!(post_count(&ledger, &theirs.user_profile), 1);
}

#[test]
fn delete_post_without_the_profile_fails() {
    let owner = addr(1);
    let mut ledger = with_profile(&owner);
    let post = next_post(&mut ledger, &owner);
    let ctx = DeletePost { post, user_profile: addr(77), authority: owner };
    assert_eq!(delete_post(&mut ledger, &ctx), Err(ErrorCode::NotFound));
    assert!(ledger.contains(&post));
}

#[test]
fn delete_post_fails_when_the_count_is_zero() {
    let owner = addr(1);
    let mut ledger = with_profile(&owner);
    let profile = profile_address(&owner);
    let post = next_post(&mut ledger, &owner);
    ledger.mutate(&profile, Change::PostCount(0)).unwrap();
    let ctx = DeletePost { post, user_profile: profile, authority: owner };
    assert_eq!(delete_post(&mut ledger, &ctx), Err(ErrorCode::Underflow));
    assert!(ledger.contains(&post));
    assert_eq!(post_count(&ledger, &profile), 0);
}

#[test]
fn like_then_unlike_restores_the_likes() {
    let owner = addr(1);
    let actor = addr(2);
    let mut ledger = with_profile(&owner);
    let post = next_post(&mut ledger, &owner);
    ledger.mutate(&post, Change::Likes(7)).unwrap();
    let like_account = like_address(&post, &actor);
    let like = LikePost { like_account, post, authority: actor };
    assert_eq!(like_post(&mut ledger, &like), Ok(()));
    assert_eq!(likes(&ledger, &post), 8);
    assert!(matches!(ledger.get(&like_account), Some(Record::Like(_))));
    let unlike = UnlikePost { like_account, post, authority: actor };
    assert_eq!(unlike_post(&mut ledger, &unlike), Ok(()));
    assert_eq!(likes(&ledger, &post), 7);
    assert!(!ledger.contains(&like_account));
    assert_eq!(ledger.len(), 2);
}

#[test]
fn a_second_like_fails_and_leaves_the_likes() {
    let owner = addr(1);
    let actor = addr(2);
    let mut ledger = with_profile(&owner);
    let post = next_post(&mut ledger, &owner);
    let like = LikePost { like_account: like_address(&post, &actor), post, authority: actor };
    assert_eq!(like_post(&mut ledger, &like), Ok(()));
    assert_eq!(likes(&ledger, &post), 1);
    assert_eq!(like_post(&mut ledger, &like), Err(ErrorCode::AlreadyExists));
    assert_eq!(likes(&ledger, &post), 1);
    assert_eq!(ledger.len(), 3);
}

#[test]
fn a_second_like_at_the_top_of_the_count_already_exists() {
    let owner = addr(1);
    let actor = addr(2);
    let mut ledger = with_profile(&owner);
    let post = next_post(&mut ledger, &owner);
    ledger.mutate(&post, Change::Likes(u64::MAX - 1)).unwrap();
    let like = LikePost { like_account: like_address(&post, &actor), post, authority: actor };
    assert_eq!(like_post(&mut ledger, &like), Ok(()));
    assert_eq!(like_post(&mut ledger, &like), Err(ErrorCode::AlreadyExists));
    assert_eq!(likes(&ledger, &post), u64::MAX);
}

#[test]
fn two_actors_like_one_post() {
    let owner = addr(1);
    let mut ledger = with_profile(&owner);
    let post = next_post(&mut ledger, &owner);
    for n in 2..5u8 {
        let actor = addr(n);
        let like = LikePost { like_account: like_address(&post, &actor), post, authority: actor };
        assert_eq!(like_post(&mut ledger, &like), Ok(()));
    }
    assert_eq!(likes(&ledger, &post), 3);
    let unlike =
        UnlikePost { like_account: like_address(&post, &addr(3)), post, authority: addr(3) };
    assert_eq!(unlike_post(&mut ledger, &unlike), Ok(()));
    assert_eq!(likes(&ledger, &post), 2);
    assert!(ledger.contains(&like_address(&post, &addr(2))));
    assert!(ledger.contains(&like_address(&post, &addr(4))));
}

#[test]
fn like_fails_when_the_likes_are_full() {
    let owner = addr(1);
    let actor = addr(2);
    let mut ledger = with_profile(&owner);
    let post = next_post(&mut ledger, &owner);
    ledger.mutate(&post, Change::Likes(u64::MAX)).unwrap();
    let like = LikePost { like_account: like_address(&post, &actor), post, authority: actor };
    assert_eq!(like_post(&mut ledger, &like), Err(ErrorCode::Overflow));
    assert_eq!(likes(&ledger, &post), u64::MAX);
    assert!(!ledger.contains(&like.like_account));
}

#[test]
fn like_at_the_address_of_another_actor_fails() {
    let owner = addr(1);
    let actor = addr(2);
    let mut ledger = with_profile(&owner);
    let post = next_post(&mut ledger, &owner);
    let like = LikePost { like_account: like_address(&post, &addr(3)), post, authority: actor };
    assert_eq!(like_post(&mut ledger, &like), Err(ErrorCode::AddressMismatch));
    assert_eq!(likes(&ledger, &post), 0);
    assert_eq!(ledger.len(), 2);
}

#[test]
fn like_of_a_missing_post_fails() {
    let actor = addr(2);
    let mut ledger = with_profile(&addr(1));
    let post = addr(50);
    let like = LikePost { like_account: like_address(&post, &actor), post, authority: actor };
    assert_eq!(like_post(&mut ledger, &like), Err(ErrorCode::NotFound));
    assert_eq!(ledger.len(), 1);
    // a profile is no post
    let profile = profile_address(&addr(1));
    let like =
        LikePost { like_account: like_address(&profile, &actor), post: profile, authority: actor };
    assert_eq!(like_post(&mut ledger, &like), Err(ErrorCode::NotFound));
}

#[test]
fn unlike_without_a_like_fails() {
    let owner = addr(1);
    let actor = addr(2);
    let mut ledger = with_profile(&owner);
    let post = next_post(&mut ledger, &owner);
    ledger.mutate(&post, Change::Likes(5)).unwrap();
    let unlike =
        UnlikePost { like_account: like_address(&post, &actor), post, authority: actor };
    assert_eq!(unlike_post(&mut ledger, &unlike), Err(ErrorCode::NotFound));
    assert_eq!(likes(&ledger, &post), 5);
}

#[test]
fn unlike_of_the_like_of_another_fails() {
    let owner = addr(1);
    let actor = addr(2);
    let thief = addr(3);
    let mut ledger = with_profile(&owner);
    let post = next_post(&mut ledger, &owner);
    let like_account = like_address(&post, &actor);
    like_post(&mut ledger, &LikePost { like_account, post, authority: actor }).unwrap();
    let unlike = UnlikePost { like_account, post, authority: thief };
    assert_eq!(unlike_post(&mut ledger, &unlike), Err(ErrorCode::AddressMismatch));
    assert_eq!(likes(&ledger, &post), 1);
    assert!(ledger.contains(&like_account));
}

#[test]
fn unlike_fails_when_the_likes_are_zero() {
    let owner = addr(1);
    let actor = addr(2);
    let mut ledger = with_profile(&owner);
    let post = next_post(&mut ledger, &owner);
    let like_account = like_address(&post, &actor);
    like_post(&mut ledger, &LikePost { like_account, post, authority: actor }).unwrap();
    ledger.mutate(&post, Change::Likes(0)).unwrap();
    let unlike = UnlikePost { like_account, post, authority: actor };
    assert_eq!(unlike_post(&mut ledger, &unlike), Err(ErrorCode::Underflow));
    assert_eq!(likes(&ledger, &post), 0);
    assert!(ledger.contains(&like_account));
}

#[test]
fn posts_of_one_author_live_at_distinct_addresses() {
    let owner = addr(1);
    let mut ledger = with_profile(&owner);
    let profile = profile_address(&owner);
    assert_eq!(post_count(&ledger, &profile), 0);
    let first = next_post(&mut ledger, &owner);
    assert_eq!(post_count(&ledger, &profile), 1);
    let second = next_post(&mut ledger, &owner);
    assert_eq!(post_count(&ledger, &profile), 2);
    assert_ne!(first, second);
    assert_eq!(first, post_address(&owner, 0));
    assert_eq!(second, post_address(&owner, 1));

    let close = DeletePost { post: first, user_profile: profile, authority: owner };
    assert_eq!(delete_post(&mut ledger, &close), Ok(()));
    assert_eq!(post_count(&ledger, &profile), 1);
    assert!(!ledger.contains(&first));
    assert!(ledger.contains(&second));

    // the seeds of the first post lead to its address as before, and the slot is free again
    let again = CreatePost { post: first, user_profile: profile, authority: owner };
    let derived = social_ledger::address::derive(&post_seeds(&owner, 0), &program());
    assert_eq!(derived.map(|d| d.0), Some(first));
    assert_eq!(again.apply(&mut ledger, derived, "ipfs://again", "once more", 7), Ok(()));
    assert_eq!(post_count(&ledger, &profile), 2);
    match ledger.get(&first) {
        Some(Record::Post(p)) => {
            assert_eq!(p.content_uri.text(), b"ipfs://again".to_vec());
            assert_eq!(p.created_at, 7);
        }
        other => panic!("unexpected record: {:?}", other),
    }
}

#[test]
fn create_post_takes_its_seed_from_the_count_of_the_moment() {
    let owner = addr(1);
    let mut ledger = with_profile(&owner);
    let profile = profile_address(&owner);
    let first = next_post(&mut ledger, &owner);
    let second = next_post(&mut ledger, &owner);
    let close = DeletePost { post: first, user_profile: profile, authority: owner };
    delete_post(&mut ledger, &close).unwrap();
    assert_eq!(post_count(&ledger, &profile), 1);
    // the count is 1 again, so the seeds lead to the second post, which lives
    let at_first = CreatePost { post: first, user_profile: profile, authority: owner };
    assert_eq!(create_post(&mut ledger, &at_first, "u", "d", 0), Err(ErrorCode::AddressMismatch));
    let at_second = CreatePost { post: second, user_profile: profile, authority: owner };
    assert_eq!(create_post(&mut ledger, &at_second, "u", "d", 0), Err(ErrorCode::AlreadyExists));
    assert_eq!(post_count(&ledger, &profile), 1);
    // closing the last post frees the address that the count leads to
    let close = DeletePost { post: second, user_profile: profile, authority: owner };
    delete_post(&mut ledger, &close).unwrap();
    assert_eq!(post_count(&ledger, &profile), 0);
    assert_eq!(create_post(&mut ledger, &at_first, "u", "d", 0), Ok(()));
    assert_eq!(post_count(&ledger, &profile), 1);
}
