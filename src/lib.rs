//! A wall of wishes: each creator may pin a titled wish into an account whose
//! address is derived from the label `"wish"`, the creator's key and the title.

pub mod error;
pub mod instruction;
pub mod layout;
pub mod platform;
pub mod pubkey;

pub use error::WishError;
pub use instruction::{
    check_create_wish, create_wish, process_create_wish, wish_seeds, Context, CreateWish, CreatorAccount,
    WishAccount,
};
pub use layout::{wish_discriminator_bytes, Wish, TITLE_SPACE, WISH_SPACE};
pub use pubkey::Pubkey;
