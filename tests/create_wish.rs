use anchor_lang::prelude::Pubkey as ChainKey;
use wall_of_wishes::{
    check_create_wish, create_wish, process_create_wish, wish_discriminator_bytes, wish_seeds, Context, CreateWish,
    CreatorAccount, Pubkey, Wish, WishAccount, WishError, WISH_SPACE,
};

const RENT: u64 = 2_839_680;

fn program_id() -> Pubkey {
    Pubkey::new_from_array([7u8; 32])
}

fn creator_a() -> Pubkey {
    Pubkey::new_from_array([1u8; 32])
}

fn creator_b() -> Pubkey {
    Pubkey::new_from_array([2u8; 32])
}

fn derived(creator: &Pubkey, title: &str) -> Pubkey {
    let id = ChainKey::new_from_array(program_id().to_bytes());
    let (key, _bump) = ChainKey::find_program_address(
        &[b"wish", creator.to_bytes().as_ref(), title.as_bytes()],
        &id,
    );
    Pubkey::new_from_array(key.to_bytes())
}

fn context(creator: Pubkey, title: &str) -> Context {
    Context {
        program_id: program_id(),
        accounts: CreateWish {
            wish: WishAccount {
                key: derived(&creator, title),
                owner: Pubkey::system_program(),
                lamports: 0,
                data: Vec::new(),
            },
            creator: CreatorAccount { key: creator, is_signer: true, lamports: 10_000_000 },
        },
    }
}

fn stored(ctx: &Context) -> Wish {
    Wish::try_deserialize(&ctx.accounts.wish.data).expect("a wish is stored")
}

#[test]
fn create_once_records_creator_and_time() {
    let mut ctx = context(creator_a(), "peace");
    assert_eq!(process_create_wish(&mut ctx, "peace".to_string(), RENT, 1_700_000_000), Ok(()));
    let w = stored(&ctx);
    assert_eq!(w.title, "peace");
    assert_eq!(w.creator.to_bytes(), creator_a().to_bytes());
    assert_eq!(w.timestamp, 1_700_000_000);
    assert_eq!(ctx.accounts.wish.data.len(), WISH_SPACE);
    assert_eq!(ctx.accounts.wish.owner.to_bytes(), program_id().to_bytes());
    assert_eq!(ctx.accounts.wish.lamports, RENT);
    assert_eq!(ctx.accounts.creator.lamports, 10_000_000 - RENT);
}

#[test]
fn same_creator_and_title_twice_is_a_duplicate() {
    let mut ctx = context(creator_a(), "peace");
    assert_eq!(process_create_wish(&mut ctx, "peace".to_string(), RENT, 1), Ok(()));
    let data_after_first = ctx.accounts.wish.data.clone();
    let creator_after_first = ctx.accounts.creator.lamports;
    assert_eq!(
        process_create_wish(&mut ctx, "peace".to_string(), RENT, 2),
        Err(WishError::AccountAlreadyInUse)
    );
    assert_eq!(ctx.accounts.wish.data, data_after_first);
    assert_eq!(ctx.accounts.creator.lamports, creator_after_first);
    assert_eq!(stored(&ctx).timestamp, 1);
}

#[test]
fn same_creator_new_title_gets_its_own_record() {
    let mut peace = context(creator_a(), "peace");
    let mut joy = context(creator_a(), "joy");
    assert_eq!(process_create_wish(&mut peace, "peace".to_string(), RENT, 1), Ok(()));
    assert_eq!(process_create_wish(&mut joy, "joy".to_string(), RENT, 2), Ok(()));
    assert_ne!(peace.accounts.wish.key.to_bytes(), joy.accounts.wish.key.to_bytes());
    assert_eq!(stored(&joy).title, "joy");
    assert_eq!(stored(&peace).title, "peace");
}

#[test]
fn other_creator_same_title_gets_its_own_record() {
    let mut a = context(creator_a(), "peace");
    let mut b = context(creator_b(), "peace");
    assert_eq!(process_create_wish(&mut a, "peace".to_string(), RENT, 1), Ok(()));
    assert_eq!(process_create_wish(&mut b, "peace".to_string(), RENT, 1), Ok(()));
    assert_ne!(a.accounts.wish.key.to_bytes(), b.accounts.wish.key.to_bytes());
    assert_eq!(stored(&a).creator.to_bytes(), creator_a().to_bytes());
    assert_eq!(stored(&b).creator.to_bytes(), creator_b().to_bytes());
}

#[test]
fn unsigned_creator_is_refused() {
    let mut ctx = context(creator_a(), "peace");
    ctx.accounts.creator.is_signer = false;
    assert_eq!(
        process_create_wish(&mut ctx, "peace".to_string(), RENT, 1),
        Err(WishError::AccountNotSigner)
    );
    assert!(ctx.accounts.wish.data.is_empty());
    assert_eq!(ctx.accounts.creator.lamports, 10_000_000);
}

#[test]
fn oversized_title_is_refused_for_storage() {
    let title = "x".repeat(197);
    let mut ctx = context(creator_a(), "peace");
    assert_eq!(process_create_wish(&mut ctx, title, RENT, 1), Err(WishError::TitleTooLong));
    assert!(ctx.accounts.wish.data.is_empty());
}

#[test]
fn title_longer_than_a_seed_fails_derivation() {
    let title = "y".repeat(33);
    let mut ctx = context(creator_a(), "peace");
    assert_eq!(
        process_create_wish(&mut ctx, title, RENT, 1),
        Err(WishError::MaxSeedLengthExceeded)
    );
    assert!(ctx.accounts.wish.data.is_empty());
}

#[test]
fn thirty_two_byte_title_is_created() {
    let title = "z".repeat(32);
    let mut ctx = context(creator_a(), &title);
    assert_eq!(process_create_wish(&mut ctx, title.clone(), RENT, 9), Ok(()));
    assert_eq!(stored(&ctx).title.as_bytes(), title.as_bytes());
}

#[test]
fn wrong_wish_address_is_refused() {
    let mut ctx = context(creator_a(), "peace");
    assert_eq!(
        process_create_wish(&mut ctx, "joy".to_string(), RENT, 1),
        Err(WishError::ConstraintSeeds)
    );
}

#[test]
fn account_owned_by_a_program_is_in_use() {
    let mut ctx = context(creator_a(), "peace");
    ctx.accounts.wish.owner = program_id();
    assert_eq!(
        process_create_wish(&mut ctx, "peace".to_string(), RENT, 1),
        Err(WishError::AccountAlreadyInUse)
    );
}

#[test]
fn poor_creator_is_refused() {
    let mut ctx = context(creator_a(), "peace");
    ctx.accounts.creator.lamports = RENT - 1;
    assert_eq!(
        process_create_wish(&mut ctx, "peace".to_string(), RENT, 1),
        Err(WishError::InsufficientFunds)
    );
    assert_eq!(ctx.accounts.creator.lamports, RENT - 1);
}

#[test]
fn prefunded_account_charges_only_the_shortfall() {
    let mut ctx = context(creator_a(), "peace");
    ctx.accounts.wish.lamports = 1_000;
    ctx.accounts.creator.lamports = 5_000;
    assert_eq!(process_create_wish(&mut ctx, "peace".to_string(), 3_000, 1), Ok(()));
    assert_eq!(ctx.accounts.wish.lamports, 3_000);
    assert_eq!(ctx.accounts.creator.lamports, 3_000);
}

#[test]
fn clock_is_unavailable_off_chain() {
    let mut ctx = context(creator_a(), "peace");
    assert_eq!(create_wish(&mut ctx, "peace".to_string(), RENT), Err(WishError::SysvarUnavailable));
    assert!(ctx.accounts.wish.data.is_empty());
}

#[test]
fn checks_come_before_the_clock() {
    let mut ctx = context(creator_a(), "peace");
    ctx.accounts.creator.is_signer = false;
    assert_eq!(create_wish(&mut ctx, "peace".to_string(), RENT), Err(WishError::AccountNotSigner));
    let mut taken = context(creator_a(), "peace");
    taken.accounts.wish.data = vec![1u8];
    assert_eq!(
        create_wish(&mut taken, "peace".to_string(), RENT),
        Err(WishError::AccountAlreadyInUse)
    );
}

#[test]
fn checks_alone_give_the_amount_owed() {
    let mut ctx = context(creator_a(), "peace");
    ctx.accounts.wish.lamports = 1_000;
    assert_eq!(check_create_wish(&ctx, &"peace".to_string(), 3_000), Ok(2_000));
    assert_eq!(check_create_wish(&ctx, &"peace".to_string(), 500), Ok(0));
}

#[test]
fn seeds_are_label_creator_and_title() {
    let seeds = wish_seeds(&creator_a(), &"peace".to_string());
    assert_eq!(seeds, vec![b"wish".to_vec(), vec![1u8; 32], b"peace".to_vec()]);
}

#[test]
fn discriminator_is_the_digest_prefix() {
    let digest = anchor_lang::solana_program::hash::hash(b"account:Wish").to_bytes();
    assert_eq!(wish_discriminator_bytes(), digest[..8].to_vec());
    assert_ne!(wish_discriminator_bytes(), b"account:".to_vec());
}

#[test]
fn account_data_layout_is_exact() {
    let w = Wish { title: "héllo".to_string(), creator: creator_b(), timestamp: -2 };
    let d = w.try_serialize().unwrap();
    assert_eq!(d.len(), 280);
    assert_eq!(d[..8].to_vec(), wish_discriminator_bytes());
    assert_eq!(d[8..12].to_vec(), vec![6u8, 0, 0, 0]);
    assert_eq!(d[12..18].to_vec(), "héllo".as_bytes().to_vec());
    assert_eq!(d[18..50].to_vec(), vec![2u8; 32]);
    assert_eq!(d[50..58].to_vec(), vec![0xfeu8, 0xff, 0xff, 0xff, 0xff, 0xff, 0xff, 0xff]);
    assert!(d[58..].iter().all(|b| *b == 0));
}

#[test]
fn title_within_budget_reads_back_byte_for_byte() {
    let title = "é".repeat(98);
    let w = Wish { title: title.clone(), creator: creator_a(), timestamp: i64::MIN };
    let d = w.try_serialize().unwrap();
    let back = Wish::try_deserialize(&d).unwrap();
    assert_eq!(back.title.as_bytes(), title.as_bytes());
    assert_eq!(back.timestamp, i64::MIN);
    let too_long = Wish { title: "a".repeat(197), creator: creator_a(), timestamp: 0 };
    assert_eq!(too_long.try_serialize(), Err(WishError::TitleTooLong));
}

#[test]
fn foreign_or_broken_data_is_refused() {
    assert_eq!(Wish::try_deserialize(&[1, 2, 3]).unwrap_err(), WishError::AccountDiscriminatorMismatch);
    assert_eq!(Wish::try_deserialize(&[0u8; 280]).unwrap_err(), WishError::AccountDiscriminatorMismatch);
    let w = Wish { title: "joy".to_string(), creator: creator_a(), timestamp: 5 };
    let d = w.try_serialize().unwrap();
    assert_eq!(Wish::try_deserialize(&d[..40]).unwrap_err(), WishError::AccountDidNotDeserialize);
    let mut bad = d.clone();
    bad[12] = 0xff;
    assert_eq!(Wish::try_deserialize(&bad).unwrap_err(), WishError::AccountDidNotDeserialize);
}

#[test]
fn key_comparison_is_bytewise() {
    assert!(creator_a().equals(&Pubkey::new_from_array([1u8; 32])));
    assert!(!creator_a().equals(&creator_b()));
    assert!(Pubkey::system_program().is_system_program());
}
