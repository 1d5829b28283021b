//! The `create_wish` instruction: the account checks that precede the
//! record's creation, and the state change that follows.
use vstd::prelude::*;
use vstd::slice::slice_to_vec;
use vstd::utf8::{encode_utf8, encode_utf8_decode_utf8};
use crate::error::WishError;
use crate::layout::{
    lemma_account_data_round_trip, parse_wish, title_fits, wish_account_data, Wish, WishView,
    TITLE_SPACE,
};
use crate::platform::{
    clock_unix_timestamp, program_address_of, try_find_program_address, MAX_SEED_LEN,
};
use crate::pubkey::{system_program_key, Pubkey, KEY_LEN};

verus! {

/// The account that is to hold the new wish.
#[derive(Clone, Debug)]
pub struct WishAccount {
    pub key: Pubkey,
    pub owner: Pubkey,
    pub lamports: u64,
    pub data: Vec<u8>,
}

/// The account that signs for the wish and pays for its storage.
#[derive(Clone, Copy, Debug)]
pub struct CreatorAccount {
    pub key: Pubkey,
    pub is_signer: bool,
    pub lamports: u64,
}

/// The accounts that `create_wish` takes. The system program, which performs
/// the allocation, is checked where the call is made.
#[derive(Clone, Debug)]
pub struct CreateWish {
    pub wish: WishAccount,
    pub creator: CreatorAccount,
}

/// The program's own id together with the accounts of one call.
#[derive(Clone, Debug)]
pub struct Context {
    pub program_id: Pubkey,
    pub accounts: CreateWish,
}

/// The mathematical content of a `WishAccount`.
pub struct WishAccountView {
    pub key: Seq<u8>,
    pub owner: Seq<u8>,
    pub lamports: u64,
    pub data: Seq<u8>,
}

/// The mathematical content of a `CreatorAccount`.
pub struct CreatorView {
    pub key: Seq<u8>,
    pub is_signer: bool,
    pub lamports: u64,
}

/// The mathematical content of a `CreateWish`.
pub struct CreateWishView {
    pub wish: WishAccountView,
    pub creator: CreatorView,
}

/// The mathematical content of a `Context`.
pub struct ContextView {
    pub program_id: Seq<u8>,
    pub accounts: CreateWishView,
}

impl View for WishAccount {
    type V = WishAccountView;

    open spec fn view(&self) -> WishAccountView {
        WishAccountView {
            key: self.key@,
            owner: self.owner@,
            lamports: self.lamports,
            data: self.data@,
        }
    }
}

impl View for CreatorAccount {
    type V = CreatorView;

    open spec fn view(&self) -> CreatorView {
        CreatorView { key: self.key@, is_signer: self.is_signer, lamports: self.lamports }
    }
}

impl View for CreateWish {
    type V = CreateWishView;

    open spec fn view(&self) -> CreateWishView {
        CreateWishView { wish: self.wish@, creator: self.creator@ }
    }
}

impl View for Context {
    type V = ContextView;

    open spec fn view(&self) -> ContextView {
        ContextView { program_id: self.program_id@, accounts: self.accounts@ }
    }
}

/// Every key in the context is a full-length key.
pub open spec fn keys_well_formed(ctx: ContextView) -> bool {
    &&& ctx.program_id.len() == KEY_LEN
    &&& ctx.accounts.wish.key.len() == KEY_LEN
    &&& ctx.accounts.wish.owner.len() == KEY_LEN
    &&& ctx.accounts.creator.key.len() == KEY_LEN
}

/// The label `wish`, the first seed of every wish address.
pub open spec fn wish_seed_label() -> Seq<u8> {
    seq![119u8, 105u8, 115u8, 104u8]
}

/// The seeds that a wish's address is derived from.
pub open spec fn seeds_of(creator: Seq<u8>, title: Seq<char>) -> Seq<Seq<u8>> {
    seq![wish_seed_label(), creator, encode_utf8(title)]
}

/// The wish account sits at the address derived from the creator and title.
pub open spec fn at_derived_address(ctx: ContextView, title: Seq<char>) -> bool {
    match program_address_of(seeds_of(ctx.accounts.creator.key, title), ctx.program_id) {
        Some((key, _bump)) => key == ctx.accounts.wish.key,
        None => false,
    }
}

/// The account already holds data or belongs to a program other than the
/// system program.
pub open spec fn account_in_use(a: WishAccountView) -> bool {
    a.data.len() > 0 || a.owner != system_program_key()
}

/// What the creator must add so that the account holds `rent_minimum`.
pub open spec fn rent_due(rent_minimum: u64, lamports: u64) -> u64 {
    if lamports >= rent_minimum {
        0
    } else {
        (rent_minimum - lamports) as u64
    }
}

/// The title's bytes can serve as an address seed: at most `MAX_SEED_LEN`
/// bytes, so the longest title that can be created is 32 bytes.
pub open spec fn title_is_seed(title: Seq<char>) -> bool {
    encode_utf8(title).len() <= MAX_SEED_LEN
}

/// Why the call fails, checked in this order, or `None` where it succeeds.
pub open spec fn create_error(ctx: ContextView, title: Seq<char>, rent_minimum: u64) -> Option<WishError> {
    let a = ctx.accounts;
    if !a.creator.is_signer {
        Some(WishError::AccountNotSigner)
    } else if !title_fits(title) {
        Some(WishError::TitleTooLong)
    } else if !title_is_seed(title) {
        Some(WishError::MaxSeedLengthExceeded)
    } else if !at_derived_address(ctx, title) {
        Some(WishError::ConstraintSeeds)
    } else if account_in_use(a.wish) {
        Some(WishError::AccountAlreadyInUse)
    } else if a.creator.lamports < rent_due(rent_minimum, a.wish.lamports) {
        Some(WishError::InsufficientFunds)
    } else {
        None
    }
}

/// The accounts after a successful call: the creator pays what the rent
/// minimum asks, and the wish account, now owned by the program, holds the
/// record.
pub open spec fn created(ctx: ContextView, title: Seq<char>, rent_minimum: u64, now: i64) -> ContextView {
    let a = ctx.accounts;
    let due = rent_due(rent_minimum, a.wish.lamports);
    ContextView {
        program_id: ctx.program_id,
        accounts: CreateWishView {
            wish: WishAccountView {
                key: a.wish.key,
                owner: ctx.program_id,
                lamports: (a.wish.lamports + due) as u64,
                data: wish_account_data(WishView { title, creator: a.creator.key, timestamp: now }),
            },
            creator: CreatorView {
                key: a.creator.key,
                is_signer: a.creator.is_signer,
                lamports: (a.creator.lamports - due) as u64,
            },
        },
    }
}

/// The result of the call and the accounts after it: on failure nothing
/// changes.
pub open spec fn create_outcome(ctx: ContextView, title: Seq<char>, rent_minimum: u64, now: i64) -> (Result<(), WishError>, ContextView) {
    match create_error(ctx, title, rent_minimum) {
        Some(e) => (Err(e), ctx),
        None => (Ok(()), created(ctx, title, rent_minimum, now)),
    }
}

/// The seeds of a wish's address: the label `wish`, the creator's key and the
/// title's bytes.
pub fn wish_seeds(creator: &Pubkey, title: &String) -> (r: Vec<Vec<u8>>)
    ensures
        r.deep_view() == seeds_of(creator@, title@),
        r@.len() == 3,
        r@[0]@ == wish_seed_label(),
        r@[1]@ == creator@,
        r@[2]@ == encode_utf8(title@),
{
    let label: Vec<u8> = vec![119u8, 105u8, 115u8, 104u8];
    let key = slice_to_vec(creator.bytes.as_slice());
    let text = slice_to_vec(title.as_str().as_bytes());
    let mut r: Vec<Vec<u8>> = Vec::new();
    r.push(label);
    r.push(key);
    r.push(text);
    assert(r.deep_view()[0] =~= wish_seed_label());
    assert(r.deep_view()[1] =~= creator@);
    assert(r.deep_view()[2] =~= encode_utf8(title@));
    assert(r.deep_view() =~= seeds_of(creator@, title@));
    r
}

/// Runs every check of the call, in the order of `create_error`, and gives
/// the lamports that the creator owes.
pub fn check_create_wish(ctx: &Context, title: &String, rent_minimum: u64) -> (r: Result<u64, WishError>)
    ensures
        match create_error(ctx@, title@, rent_minimum) {
            Some(e) => r == Err::<u64, WishError>(e),
            None => r == Ok::<u64, WishError>(rent_due(rent_minimum, ctx@.accounts.wish.lamports)),
        },
{
    if !ctx.accounts.creator.is_signer {
        return Err(WishError::AccountNotSigner);
    }
    let title_len = title.as_str().as_bytes().len();
    if title_len > TITLE_SPACE - 4 {
        return Err(WishError::TitleTooLong);
    }
    if title_len > MAX_SEED_LEN {
        return Err(WishError::MaxSeedLengthExceeded);
    }
    let seeds = wish_seeds(&ctx.accounts.creator.key, title);
    assert(seeds@[0]@.len() == 4);
    assert(seeds@[1]@.len() == KEY_LEN);
    match try_find_program_address(&seeds, &ctx.program_id) {
        Some((key, _bump)) => {
            if !key.equals(&ctx.accounts.wish.key) {
                return Err(WishError::ConstraintSeeds);
            }
        },
        None => {
            return Err(WishError::ConstraintSeeds);
        },
    }
    if ctx.accounts.wish.data.len() > 0 || !ctx.accounts.wish.owner.is_system_program() {
        return Err(WishError::AccountAlreadyInUse);
    }
    let due: u64 = if ctx.accounts.wish.lamports >= rent_minimum {
        0
    } else {
        rent_minimum - ctx.accounts.wish.lamports
    };
    if ctx.accounts.creator.lamports < due {
        return Err(WishError::InsufficientFunds);
    }
    Ok(due)
}

/// Moves the lamports owed and writes the record into the wish account, once
/// every check has passed.
fn apply_create_wish(ctx: &mut Context, title: String, rent_minimum: u64, now: i64)
    requires
        create_error(old(ctx)@, title@, rent_minimum) is None,
    ensures
        final(ctx)@ == created(old(ctx)@, title@, rent_minimum, now),
{
    let ghost pre = ctx@;
    let due: u64 = if ctx.accounts.wish.lamports >= rent_minimum {
        0
    } else {
        rent_minimum - ctx.accounts.wish.lamports
    };
    let record = Wish { title, creator: ctx.accounts.creator.key, timestamp: now };
    let data = match record.try_serialize() {
        Ok(data) => data,
        Err(_) => {
            // the title was checked to fit
            return;
        },
    };
    ctx.accounts.creator.lamports = ctx.accounts.creator.lamports - due;
    ctx.accounts.wish.lamports = ctx.accounts.wish.lamports + due;
    ctx.accounts.wish.owner = ctx.program_id;
    ctx.accounts.wish.data = data;
    assert(ctx@ == created(pre, title@, rent_minimum, now));
}

/// Creates the wish `title` for the context's creator, given the rent-exempt
/// minimum for `WISH_SPACE` bytes and the current unix timestamp.
pub fn process_create_wish(ctx: &mut Context, title: String, rent_minimum: u64, now: i64) -> (r: Result<(), WishError>)
    ensures
        (r, final(ctx)@) == create_outcome(old(ctx)@, title@, rent_minimum, now),
{
    match check_create_wish(ctx, &title, rent_minimum) {
        Ok(_due) => {
            apply_create_wish(ctx, title, rent_minimum, now);
            Ok(())
        },
        Err(e) => Err(e),
    }
}

/// Creates the wish `title` for the context's creator, given the rent-exempt
/// minimum for `WISH_SPACE` bytes, and reading the clock sysvar once every
/// check has passed: `SysvarUnavailable`, with nothing changed, where the
/// clock cannot be read.
pub fn create_wish(ctx: &mut Context, title: String, rent_minimum: u64) -> (r: Result<(), WishError>)
    ensures
        create_error(old(ctx)@, title@, rent_minimum) matches Some(e)
            ==> r == Err::<(), WishError>(e) && final(ctx)@ == old(ctx)@,
        create_error(old(ctx)@, title@, rent_minimum) is None ==> (
            (r == Err::<(), WishError>(WishError::SysvarUnavailable) && final(ctx)@ == old(ctx)@)
            || exists|now: i64|
                r == Ok::<(), WishError>(()) && final(ctx)@ == #[trigger] created(old(ctx)@, title@, rent_minimum, now)),
{
    match check_create_wish(ctx, &title, rent_minimum) {
        Ok(_due) => {},
        Err(e) => {
            return Err(e);
        },
    }
    let now = match clock_unix_timestamp() {
        Ok(now) => now,
        Err(_) => {
            return Err(WishError::SysvarUnavailable);
        },
    };
    apply_create_wish(ctx, title, rent_minimum, now);
    Ok(())
}

/// Every check of the call passes: the creator signed, the title fits and
/// can serve as a seed, the wish account sits at the derived address and is
/// free, and the creator can pay the rent.
pub open spec fn call_is_valid(ctx: ContextView, title: Seq<char>, rent_minimum: u64) -> bool {
    &&& ctx.accounts.creator.is_signer
    &&& title_fits(title)
    &&& title_is_seed(title)
    &&& at_derived_address(ctx, title)
    &&& !account_in_use(ctx.accounts.wish)
    &&& ctx.accounts.creator.lamports >= rent_due(rent_minimum, ctx.accounts.wish.lamports)
}

/// A valid call succeeds, and the wish account then belongs to the program
/// and holds a record whose title is the given one, whose creator is the
/// signer and whose timestamp is the clock's time.
pub proof fn lemma_create_succeeds(ctx: ContextView, title: Seq<char>, rent_minimum: u64, now: i64)
    requires
        keys_well_formed(ctx),
        call_is_valid(ctx, title, rent_minimum),
    ensures
        create_outcome(ctx, title, rent_minimum, now).0 is Ok,
        create_outcome(ctx, title, rent_minimum, now).1.accounts.wish.owner == ctx.program_id,
        parse_wish(create_outcome(ctx, title, rent_minimum, now).1.accounts.wish.data)
            == Some(WishView { title, creator: ctx.accounts.creator.key, timestamp: now }),
{
    lemma_account_data_round_trip(WishView { title, creator: ctx.accounts.creator.key, timestamp: now });
}

/// Calling twice with the same creator and title: the first call succeeds,
/// the second fails because the record exists, and changes nothing.
pub proof fn lemma_create_twice(
    ctx: ContextView,
    title: Seq<char>,
    rent_first: u64,
    now_first: i64,
    rent_second: u64,
    now_second: i64,
)
    requires
        keys_well_formed(ctx),
        call_is_valid(ctx, title, rent_first),
    ensures
        ({
            let (first, after) = create_outcome(ctx, title, rent_first, now_first);
            let (second, after_second) = create_outcome(after, title, rent_second, now_second);
            &&& first is Ok
            &&& second == Err::<(), WishError>(WishError::AccountAlreadyInUse)
            &&& after_second == after
        }),
{
    lemma_account_data_round_trip(WishView { title, creator: ctx.accounts.creator.key, timestamp: now_first });
}

/// Two creators may each create a wish of the same title: both calls
/// succeed, each record holds its own creator, and the two addresses are
/// derived from different seeds.
pub proof fn lemma_distinct_creators(first: ContextView, second: ContextView, title: Seq<char>, rent_minimum: u64, now: i64)
    requires
        keys_well_formed(first),
        keys_well_formed(second),
        first.accounts.creator.key != second.accounts.creator.key,
        call_is_valid(first, title, rent_minimum),
        call_is_valid(second, title, rent_minimum),
    ensures
        seeds_of(first.accounts.creator.key, title) != seeds_of(second.accounts.creator.key, title),
        create_outcome(first, title, rent_minimum, now).0 is Ok,
        create_outcome(second, title, rent_minimum, now).0 is Ok,
        parse_wish(create_outcome(first, title, rent_minimum, now).1.accounts.wish.data)->Some_0.creator
            == first.accounts.creator.key,
        parse_wish(create_outcome(second, title, rent_minimum, now).1.accounts.wish.data)->Some_0.creator
            == second.accounts.creator.key,
{
    lemma_create_succeeds(first, title, rent_minimum, now);
    lemma_create_succeeds(second, title, rent_minimum, now);
    assert(seeds_of(first.accounts.creator.key, title)[1] != seeds_of(second.accounts.creator.key, title)[1]);
}

/// One creator may create wishes of two different titles: both calls
/// succeed, each record holds its own title, and the two addresses are
/// derived from different seeds.
pub proof fn lemma_distinct_titles(
    first: ContextView,
    second: ContextView,
    first_title: Seq<char>,
    second_title: Seq<char>,
    rent_minimum: u64,
    now: i64,
)
    requires
        keys_well_formed(first),
        keys_well_formed(second),
        first.accounts.creator.key == second.accounts.creator.key,
        first_title != second_title,
        call_is_valid(first, first_title, rent_minimum),
        call_is_valid(second, second_title, rent_minimum),
    ensures
        seeds_of(first.accounts.creator.key, first_title) != seeds_of(second.accounts.creator.key, second_title),
        create_outcome(first, first_title, rent_minimum, now).0 is Ok,
        create_outcome(second, second_title, rent_minimum, now).0 is Ok,
        parse_wish(create_outcome(first, first_title, rent_minimum, now).1.accounts.wish.data)->Some_0.title
            == first_title,
        parse_wish(create_outcome(second, second_title, rent_minimum, now).1.accounts.wish.data)->Some_0.title
            == second_title,
{
    lemma_create_succeeds(first, first_title, rent_minimum, now);
    lemma_create_succeeds(second, second_title, rent_minimum, now);
    encode_utf8_decode_utf8(first_title);
    encode_utf8_decode_utf8(second_title);
    assert(seeds_of(first.accounts.creator.key, first_title)[2] != seeds_of(second.accounts.creator.key, second_title)[2]);
}

/// Without the creator's signature the call fails with an authorization
/// error and changes nothing.
pub proof fn lemma_unsigned_rejected(ctx: ContextView, title: Seq<char>, rent_minimum: u64, now: i64)
    requires
        !ctx.accounts.creator.is_signer,
    ensures
        create_outcome(ctx, title, rent_minimum, now) == (Err::<(), WishError>(WishError::AccountNotSigner), ctx),
{
}

/// A title whose serialized form exceeds the reserved space is never stored:
/// a signed call fails with the storage-capacity error and changes nothing.
pub proof fn lemma_oversized_title_rejected(ctx: ContextView, title: Seq<char>, rent_minimum: u64, now: i64)
    requires
        !title_fits(title),
    ensures
        create_outcome(ctx, title, rent_minimum, now).0 is Err,
        create_outcome(ctx, title, rent_minimum, now).1 == ctx,
        ctx.accounts.creator.is_signer
            ==> create_outcome(ctx, title, rent_minimum, now).0 == Err::<(), WishError>(WishError::TitleTooLong),
{
}

/// A title that fits the reserved space but is longer than an address seed
/// may be cannot be created: a signed call fails and changes nothing.
pub proof fn lemma_seed_limit(ctx: ContextView, title: Seq<char>, rent_minimum: u64, now: i64)
    requires
        ctx.accounts.creator.is_signer,
        title_fits(title),
        !title_is_seed(title),
    ensures
        create_outcome(ctx, title, rent_minimum, now)
            == (Err::<(), WishError>(WishError::MaxSeedLengthExceeded), ctx),
{
}

} // verus!
