//! The wish record and its byte layout inside the account that holds it:
//! an 8-byte discriminator, the title (a little-endian `u32` length, then its
//! UTF-8 bytes), the creator's 32-byte key and the timestamp as a
//! little-endian `i64`, zero-padded to the account's fixed size.
use vstd::prelude::*;
use vstd::bytes::{
    spec_u32_from_le_bytes, spec_u32_to_le_bytes, spec_u64_from_le_bytes, spec_u64_to_le_bytes,
    u32_from_le_bytes, u32_to_le_bytes, u64_from_le_bytes, u64_to_le_bytes,
    lemma_auto_spec_u32_to_from_le_bytes, lemma_auto_spec_u64_to_from_le_bytes,
};
use vstd::slice::slice_subrange;
use vstd::utf8::{decode_utf8, encode_utf8, encode_utf8_decode_utf8, encode_utf8_valid_utf8, valid_utf8};
use crate::error::WishError;
use crate::platform::{sha256, sha256_of, str_from_utf8};
use crate::pubkey::{Pubkey, KEY_LEN};

verus! {

/// Bytes allocated for a wish account: discriminator, two keys' worth, the
/// timestamp and the space reserved for the title.
pub const WISH_SPACE: usize = 280;

/// Bytes reserved for the serialized title (length prefix included).
pub const TITLE_SPACE: usize = 200;

/// Length of the account-type discriminator.
pub const DISCRIMINATOR_LEN: usize = 8;

/// A wish as stored on chain.
#[derive(Clone, Debug)]
pub struct Wish {
    pub title: String,
    pub creator: Pubkey,
    pub timestamp: i64,
}

/// The mathematical content of a wish.
pub struct WishView {
    pub title: Seq<char>,
    pub creator: Seq<u8>,
    pub timestamp: i64,
}

impl View for Wish {
    type V = WishView;

    open spec fn view(&self) -> WishView {
        WishView { title: self.title@, creator: self.creator@, timestamp: self.timestamp }
    }
}

/// The text `account:Wish`, whose digest gives the discriminator.
pub open spec fn account_label() -> Seq<u8> {
    seq![97u8, 99u8, 99u8, 111u8, 117u8, 110u8, 116u8, 58u8, 87u8, 105u8, 115u8, 104u8]
}

/// The first eight bytes of the digest of `account:Wish`.
pub open spec fn wish_discriminator() -> Seq<u8> {
    Seq::new(8, |i: int| sha256_of(account_label())[i])
}

/// The serialized title (length prefix and bytes) fits the reserved space.
pub open spec fn title_fits(title: Seq<char>) -> bool {
    4 + encode_utf8(title).len() <= TITLE_SPACE
}

/// The serialized record, without padding.
pub open spec fn wish_record(w: WishView) -> Seq<u8> {
    let t = encode_utf8(w.title);
    wish_discriminator() + spec_u32_to_le_bytes(t.len() as u32) + t + w.creator
        + spec_u64_to_le_bytes(#[verifier::truncate] (w.timestamp as u64))
}

/// The account's whole data: the record, zero-padded to `WISH_SPACE` bytes.
pub open spec fn wish_account_data(w: WishView) -> Seq<u8> {
    let rec = wish_record(w);
    rec + Seq::new((WISH_SPACE - rec.len()) as nat, |i: int| 0u8)
}

/// The data starts with the wish discriminator.
pub open spec fn has_wish_discriminator(d: Seq<u8>) -> bool {
    d.len() >= DISCRIMINATOR_LEN && d.subrange(0, DISCRIMINATOR_LEN as int) == wish_discriminator()
}

/// The title length that the data announces.
pub open spec fn announced_title_len(d: Seq<u8>) -> int {
    spec_u32_from_le_bytes(d.subrange(8, 12)) as int
}

/// The wish that account data holds, if it holds one; bytes after the record
/// are ignored.
pub open spec fn parse_wish(d: Seq<u8>) -> Option<WishView> {
    if !has_wish_discriminator(d) || d.len() < 12 {
        None
    } else {
        let n = announced_title_len(d);
        if d.len() < 52 + n || !valid_utf8(d.subrange(12, 12 + n)) {
            None
        } else {
            Some(
                WishView {
                    title: decode_utf8(d.subrange(12, 12 + n)),
                    creator: d.subrange(12 + n, 44 + n),
                    timestamp: #[verifier::truncate] (spec_u64_from_le_bytes(d.subrange(44 + n, 52 + n)) as i64),
                },
            )
        }
    }
}

/// Appends `src` to `dst`.
fn append_bytes(dst: &mut Vec<u8>, src: &[u8])
    ensures
        final(dst)@ == old(dst)@ + src@,
{
    let ghost start = dst@;
    let mut i: usize = 0;
    while i < src.len()
        invariant
            0 <= i <= src@.len(),
            dst@ == start + src@.subrange(0, i as int),
        decreases src@.len() - i,
    {
        dst.push(src[i]);
        i = i + 1;
        assert(src@.subrange(0, i as int) =~= src@.subrange(0, i - 1).push(src@[i - 1]));
    }
    assert(src@.subrange(0, i as int) =~= src@);
}

/// The discriminator that marks an account as holding a wish.
pub fn wish_discriminator_bytes() -> (r: Vec<u8>)
    ensures
        r@ == wish_discriminator(),
{
    let label: Vec<u8> = vec![97u8, 99u8, 99u8, 111u8, 117u8, 110u8, 116u8, 58u8, 87u8, 105u8, 115u8, 104u8];
    assert(label@ =~= account_label());
    let digest = sha256(label.as_slice());
    let mut r: Vec<u8> = Vec::new();
    let mut i: usize = 0;
    while i < DISCRIMINATOR_LEN
        invariant
            0 <= i <= DISCRIMINATOR_LEN,
            digest@ == sha256_of(account_label()),
            r@ =~= Seq::new(i as nat, |j: int| sha256_of(account_label())[j]),
        decreases DISCRIMINATOR_LEN - i,
    {
        r.push(digest[i]);
        i = i + 1;
    }
    r
}

impl Wish {
    /// The account data that stores this wish: `TitleTooLong` where the
    /// serialized title does not fit the reserved space.
    pub fn try_serialize(&self) -> (r: Result<Vec<u8>, WishError>)
        ensures
            r is Ok <==> title_fits(self.title@),
            r matches Ok(d) ==> d@ == wish_account_data(self@) && d@.len() == WISH_SPACE,
            r is Err ==> r == Err::<Vec<u8>, WishError>(WishError::TitleTooLong),
    {
        let tb = self.title.as_str().as_bytes();
        if tb.len() > TITLE_SPACE - 4 {
            return Err(WishError::TitleTooLong);
        }
        let mut d = wish_discriminator_bytes();
        let len_bytes = u32_to_le_bytes(tb.len() as u32);
        append_bytes(&mut d, len_bytes.as_slice());
        append_bytes(&mut d, tb);
        append_bytes(&mut d, self.creator.bytes.as_slice());
        let ts_bytes = u64_to_le_bytes(#[verifier::truncate] (self.timestamp as u64));
        append_bytes(&mut d, ts_bytes.as_slice());
        let ghost rec = d@;
        assert(rec =~= wish_record(self@));
        while d.len() < WISH_SPACE
            invariant
                rec.len() <= d@.len() <= WISH_SPACE,
                d@ =~= rec + Seq::new((d@.len() - rec.len()) as nat, |i: int| 0u8),
            decreases WISH_SPACE - d@.len(),
        {
            d.push(0u8);
        }
        Ok(d)
    }

    /// The wish that account data holds: `AccountDiscriminatorMismatch` where
    /// the data does not start with the wish discriminator, and
    /// `AccountDidNotDeserialize` where the rest does not decode.
    pub fn try_deserialize(data: &[u8]) -> (r: Result<Wish, WishError>)
        ensures
            r is Ok <==> parse_wish(data@) is Some,
            r matches Ok(w) ==> parse_wish(data@) == Some(w@),
            r == Err::<Wish, WishError>(WishError::AccountDiscriminatorMismatch)
                <==> !has_wish_discriminator(data@),
            r is Err && has_wish_discriminator(data@)
                ==> r == Err::<Wish, WishError>(WishError::AccountDidNotDeserialize),
    {
        let disc = wish_discriminator_bytes();
        if data.len() < DISCRIMINATOR_LEN {
            return Err(WishError::AccountDiscriminatorMismatch);
        }
        let mut i: usize = 0;
        while i < DISCRIMINATOR_LEN
            invariant
                0 <= i <= DISCRIMINATOR_LEN,
                data@.len() >= DISCRIMINATOR_LEN,
                disc@ == wish_discriminator(),
                forall|j: int| 0 <= j < i ==> data@[j] == disc@[j],
            decreases DISCRIMINATOR_LEN - i,
        {
            if data[i] != disc[i] {
                assert(data@.subrange(0, DISCRIMINATOR_LEN as int)[i as int] != wish_discriminator()[i as int]);
                return Err(WishError::AccountDiscriminatorMismatch);
            }
            i = i + 1;
        }
        assert(data@.subrange(0, DISCRIMINATOR_LEN as int) =~= wish_discriminator());
        if data.len() < 12 {
            return Err(WishError::AccountDidNotDeserialize);
        }
        let n = u32_from_le_bytes(slice_subrange(data, 8, 12)) as usize;
        if data.len() - 12 < n || data.len() - 12 - n < 40 {
            return Err(WishError::AccountDidNotDeserialize);
        }
        let tb = slice_subrange(data, 12, 12 + n);
        let text = match str_from_utf8(tb) {
            Some(text) => text,
            None => {
                return Err(WishError::AccountDidNotDeserialize);
            },
        };
        proof {
            encode_utf8_decode_utf8(text@);
        }
        let title = text.to_owned();
        let base: usize = 12 + n;
        let dlen: usize = data.len();
        let mut key = [0u8; 32];
        let mut k: usize = 0;
        while k < KEY_LEN
            invariant
                0 <= k <= KEY_LEN,
                base == 12 + n,
                dlen == data@.len(),
                base + KEY_LEN <= dlen,
                forall|j: int| 0 <= j < k ==> key@[j] == data@[base + j],
            decreases KEY_LEN - k,
        {
            key.set(k, data[base + k]);
            k = k + 1;
        }
        assert(key@ =~= data@.subrange(12 + n, 44 + n));
        let ts = #[verifier::truncate] (u64_from_le_bytes(slice_subrange(data, 44 + n, 52 + n)) as i64);
        Ok(Wish { title, creator: Pubkey { bytes: key }, timestamp: ts })
    }
}

/// A wish whose title fits is read back from its account data exactly as it
/// was written: the same title bytes, creator and timestamp.
pub proof fn lemma_account_data_round_trip(w: WishView)
    requires
        title_fits(w.title),
        w.creator.len() == KEY_LEN,
    ensures
        wish_account_data(w).len() == WISH_SPACE,
        parse_wish(wish_account_data(w)) == Some(w),
{
    lemma_auto_spec_u32_to_from_le_bytes();
    lemma_auto_spec_u64_to_from_le_bytes();
    encode_utf8_valid_utf8(w.title);
    encode_utf8_decode_utf8(w.title);
    let t = encode_utf8(w.title);
    let n = t.len() as int;
    let d = wish_account_data(w);
    let lb = spec_u32_to_le_bytes(t.len() as u32);
    let ts = w.timestamp;
    let tsb = spec_u64_to_le_bytes(#[verifier::truncate] (ts as u64));
    assert(d.subrange(0, 8) =~= wish_discriminator());
    assert(d.subrange(8, 12) =~= lb);
    assert(announced_title_len(d) == n);
    assert(d.subrange(12, 12 + n) =~= t);
    assert(d.subrange(12 + n, 44 + n) =~= w.creator);
    assert(d.subrange(44 + n, 52 + n) =~= tsb);
    assert(#[verifier::truncate] ((#[verifier::truncate] (ts as u64)) as i64) == ts) by (bit_vector);
}

} // verus!
