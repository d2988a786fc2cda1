//! The store of records, one per mint, and the requests that create and
//! change them.

use crate::errors::ErrorCode;
use crate::keys::same_key;
use crate::record::MusicNftData;
use crate::shares::{config_ok, MAX_ROYALTY_BPS};
use anchor_lang::prelude::Pubkey;
use vstd::prelude::*;

verus! {

/// The platform's fee on a track listed with `create_music_nft`, in basis
/// points.
pub const PLATFORM_FEE_BPS: u16 = 500;

/// Who takes part in listing a track.
#[derive(Clone, Copy, Debug, PartialEq, Eq)]
pub struct CreateMusicNft {
    /// The issuer, who owns the new record.
    pub authority: Pubkey,
    /// The mint of the token, by which the record will be found.
    pub mint: Pubkey,
    /// The token account that is to receive the minted copies.
    pub token_account: Pubkey,
    /// Who is to receive the royalty of every sale.
    pub artist_wallet: Pubkey,
    /// Who is to receive the platform's fee of every sale.
    pub platform_wallet: Pubkey,
}

/// Who asks for a change of a record's price or royalty, and of which record.
#[derive(Clone, Copy, Debug, PartialEq, Eq)]
pub struct UpdateNftPrice {
    /// The requester; only the owner is heeded.
    pub authority: Pubkey,
    /// The mint of the record to change.
    pub mint: Pubkey,
}

/// What is to be minted once a track is listed: `amount` copies of `mint`
/// into the account `to`, signed for by `authority`.
#[derive(Clone, Copy, Debug, PartialEq, Eq)]
pub struct MintOrder {
    /// The mint of the token.
    pub mint: Pubkey,
    /// The token account that receives the copies.
    pub to: Pubkey,
    /// Who signs for the minting.
    pub authority: Pubkey,
    /// How many copies to mint.
    pub amount: u64,
}

/// The record that a listing starts with: nothing sold, and for sale.
pub open spec fn listed(
    ctx: CreateMusicNft,
    title: String,
    symbol: String,
    uri: String,
    genre: String,
    price: u64,
    bpm: u16,
    key: String,
    amount: u32,
    artist_royalty: u16,
    platform_fee: u16,
) -> MusicNftData {
    MusicNftData {
        title,
        symbol,
        uri,
        genre,
        price,
        bpm,
        key,
        owner: ctx.authority,
        mint: ctx.mint,
        amount,
        amount_sold: 0,
        is_for_sale: true,
        artist_royalty,
        platform_fee,
        platform_wallet: ctx.platform_wallet,
        artist_wallet: ctx.artist_wallet,
    }
}

/// No two records of the sequence share a mint.
spec fn distinct_mints(records: Seq<MusicNftData>) -> bool {
    forall|i: int, j: int|
        0 <= i < j < records.len() ==> (#[trigger] records[i]).mint != (#[trigger] records[j]).mint
}

/// Every record of the sequence is well formed.
spec fn all_wf(records: Seq<MusicNftData>) -> bool {
    forall|i: int| 0 <= i < records.len() ==> (#[trigger] records[i]).wf()
}

/// Whether `records[i]` is the record of `mint`.
spec fn is_at(records: Seq<MusicNftData>, mint: Pubkey, i: int) -> bool {
    0 <= i < records.len() && records[i].mint == mint
}

/// The records of a sequence, each under its mint.
spec fn by_mint(records: Seq<MusicNftData>) -> Map<Pubkey, MusicNftData> {
    Map::new(
        |mint: Pubkey| exists|i: int| is_at(records, mint, i),
        |mint: Pubkey| records[choose|i: int| is_at(records, mint, i)],
    )
}

/// A record in the sequence is the one found under its mint.
proof fn lemma_found(records: Seq<MusicNftData>, i: int)
    requires
        distinct_mints(records),
        0 <= i < records.len(),
    ensures
        by_mint(records).dom().contains(records[i].mint),
        by_mint(records)[records[i].mint] == records[i],
{
    let mint = records[i].mint;
    assert(is_at(records, mint, i));
    let j = choose|j: int| is_at(records, mint, j);
    assert(i == j);
}

/// A mint that no record of the sequence has is not among the mints.
proof fn lemma_absent(records: Seq<MusicNftData>, mint: Pubkey)
    requires
        forall|i: int| 0 <= i < records.len() ==> (#[trigger] records[i]).mint != mint,
    ensures
        !by_mint(records).dom().contains(mint),
{
    if by_mint(records).dom().contains(mint) {
        let j = choose|j: int| is_at(records, mint, j);
        assert(records[j].mint == mint);
    }
}

/// A record with a new mint, put at the end, is one more entry under its
/// mint.
proof fn lemma_pushed(records: Seq<MusicNftData>, record: MusicNftData)
    requires
        distinct_mints(records),
        !by_mint(records).dom().contains(record.mint),
    ensures
        distinct_mints(records.push(record)),
        by_mint(records.push(record)) == by_mint(records).insert(record.mint, record),
{
    let grown = records.push(record);
    assert forall|i: int| 0 <= i < records.len() implies (#[trigger] records[i]).mint
        != record.mint by {
        assert(is_at(records, records[i].mint, i));
    }
    assert(distinct_mints(grown));
    assert forall|mint: Pubkey| #[trigger]
        by_mint(grown).dom().contains(mint) <==> by_mint(records).insert(
            record.mint,
            record,
        ).dom().contains(mint) by {
        if by_mint(grown).dom().contains(mint) {
            let j = choose|j: int| is_at(grown, mint, j);
            if j < records.len() {
                assert(is_at(records, mint, j));
            }
        }
        if by_mint(records).dom().contains(mint) {
            let j = choose|j: int| is_at(records, mint, j);
            assert(is_at(grown, mint, j));
        }
        if mint == record.mint {
            assert(is_at(grown, mint, records.len() as int));
        }
    }
    assert forall|mint: Pubkey| #[trigger] by_mint(grown).dom().contains(mint) implies by_mint(
        grown,
    )[mint] == by_mint(records).insert(record.mint, record)[mint] by {
        let j = choose|j: int| is_at(grown, mint, j);
        lemma_found(grown, j);
        if j < records.len() {
            lemma_found(records, j);
        }
    }
    assert(by_mint(grown) =~= by_mint(records).insert(record.mint, record));
}

/// A record put in the place of the one with its mint takes the entry of
/// that mint.
proof fn lemma_replaced(records: Seq<MusicNftData>, i: int, record: MusicNftData)
    requires
        distinct_mints(records),
        0 <= i < records.len(),
        record.mint == records[i].mint,
    ensures
        distinct_mints(records.update(i, record)),
        by_mint(records.update(i, record)) == by_mint(records).insert(record.mint, record),
{
    let changed = records.update(i, record);
    assert(distinct_mints(changed)) by {
        assert forall|a: int, b: int| 0 <= a < b < changed.len() implies (#[trigger] changed[a]).mint
            != (#[trigger] changed[b]).mint by {
            assert(records[a].mint != records[b].mint);
        }
    }
    assert forall|mint: Pubkey| #[trigger]
        by_mint(changed).dom().contains(mint) <==> by_mint(records).insert(
            record.mint,
            record,
        ).dom().contains(mint) by {
        if by_mint(changed).dom().contains(mint) {
            let j = choose|j: int| is_at(changed, mint, j);
            assert(is_at(records, mint, j));
        }
        if by_mint(records).dom().contains(mint) {
            let j = choose|j: int| is_at(records, mint, j);
            assert(is_at(changed, mint, j));
        }
        if mint == record.mint {
            assert(is_at(changed, mint, i));
        }
    }
    assert forall|mint: Pubkey| #[trigger] by_mint(changed).dom().contains(mint) implies by_mint(
        changed,
    )[mint] == by_mint(records).insert(record.mint, record)[mint] by {
        let j = choose|j: int| is_at(changed, mint, j);
        lemma_found(changed, j);
        if j != i {
            lemma_found(records, j);
        }
    }
    assert(by_mint(changed) =~= by_mint(records).insert(record.mint, record));
}

/// The records of a marketplace, each found by its mint.
///
/// Every record in a store is well formed, and no two share a mint.
pub struct AssetStore {
    records: Vec<MusicNftData>,
}

impl View for AssetStore {
    type V = Map<Pubkey, MusicNftData>;

    /// The records, each under its mint.
    closed spec fn view(&self) -> Map<Pubkey, MusicNftData> {
        by_mint(self.records@)
    }
}

impl AssetStore {
    /// What holds of every store: no two records share a mint, and each is
    /// well formed.
    #[verifier::type_invariant]
    spec fn inv(self) -> bool {
        distinct_mints(self.records@) && all_wf(self.records@)
    }

    /// A store without records.
    pub fn new() -> (store: AssetStore)
        ensures
            store@ == Map::<Pubkey, MusicNftData>::empty(),
    {
        let store = AssetStore { records: Vec::new() };
        assert(store@ =~= Map::<Pubkey, MusicNftData>::empty());
        store
    }

    /// Where the record of `mint` stands, if there is one.
    fn position(&self, mint: &Pubkey) -> (found: Option<usize>)
        ensures
            match found {
                Some(i) => is_at(self.records@, *mint, i as int),
                None => !self@.dom().contains(*mint),
            },
    {
        let mut i: usize = 0;
        while i < self.records.len()
            invariant
                i <= self.records@.len(),
                forall|j: int| 0 <= j < i ==> (#[trigger] self.records@[j]).mint != *mint,
            decreases self.records@.len() - i,
        {
            if same_key(&self.records[i].mint, mint) {
                return Some(i);
            }
            i = i + 1;
        }
        proof {
            lemma_absent(self.records@, *mint);
        }
        None
    }

    /// The record of `mint`. `NotFound` when the store has none.
    pub fn get(&self, mint: &Pubkey) -> (result: Result<&MusicNftData, ErrorCode>)
        ensures
            self@.dom().contains(*mint) ==> result == Ok::<&MusicNftData, ErrorCode>(
                &self@[*mint],
            ),
            !self@.dom().contains(*mint) ==> result == Err::<&MusicNftData, ErrorCode>(
                ErrorCode::NotFound,
            ),
            result matches Ok(record) ==> record.wf() && record.mint == *mint,
    {
        proof {
            use_type_invariant(self);
        }
        match self.position(mint) {
            Some(i) => {
                proof {
                    lemma_found(self.records@, i as int);
                }
                Ok(&self.records[i])
            },
            None => Err(ErrorCode::NotFound),
        }
    }

    /// Takes the records out and leaves the store empty for the moment.
    fn take(&mut self) -> (records: Vec<MusicNftData>)
        ensures
            records@ == old(self).records@,
            final(self).records@.len() == 0,
    {
        let mut records: Vec<MusicNftData> = Vec::new();
        core::mem::swap(&mut self.records, &mut records);
        records
    }

    /// Puts records into the emptied store.
    fn put(&mut self, records: Vec<MusicNftData>)
        requires
            distinct_mints(records@),
            all_wf(records@),
        ensures
            final(self).records@ == records@,
    {
        let mut records = records;
        core::mem::swap(&mut self.records, &mut records);
    }

    /// Books the sale of one copy of `mint`, and ends the offer with the last
    /// one. `NotFound` when the store has no such record, `SoldOut` when no
    /// copy of it is left.
    pub fn apply_sale(&mut self, mint: &Pubkey) -> (result: Result<(), ErrorCode>)
        ensures
            !old(self)@.dom().contains(*mint) ==> result == Err::<(), ErrorCode>(
                ErrorCode::NotFound,
            ),
            old(self)@.dom().contains(*mint) && !old(self)@[*mint].has_capacity() ==> result
                == Err::<(), ErrorCode>(ErrorCode::SoldOut),
            old(self)@.dom().contains(*mint) && old(self)@[*mint].has_capacity() ==> result is Ok
                && final(self)@ == old(self)@.insert(*mint, old(self)@[*mint].after_sale()),
            result is Err ==> final(self)@ == old(self)@,
    {
        proof {
            use_type_invariant(&*self);
        }
        match self.position(mint) {
            None => Err(ErrorCode::NotFound),
            Some(i) => {
                proof {
                    lemma_found(self.records@, i as int);
                }
                let mut records = self.take();
                let ghost before = records@;
                let result = records[i].apply_sale();
                proof {
                    assert(records@ =~= before.update(i as int, records@[i as int]));
                    lemma_replaced(before, i as int, records@[i as int]);
                    if result is Err {
                        assert(records@ =~= before);
                    }
                }
                self.put(records);
                result
            },
        }
    }

    /// Tells whether the store has a record of `mint`.
    pub fn contains(&self, mint: &Pubkey) -> (found: bool)
        ensures
            found == self@.dom().contains(*mint),
    {
        match self.position(mint) {
            Some(i) => {
                proof {
                    use_type_invariant(self);
                    lemma_found(self.records@, i as int);
                }
                true
            },
            None => false,
        }
    }

    /// Lists a track: `amount` copies at `price`, owned by `ctx.authority`,
    /// with nothing sold and the offer open.
    ///
    /// Refused with `DuplicateAsset` when the store has a record of
    /// `ctx.mint` already; else with `InvalidConfig` when no copy is offered,
    /// the royalty is above `MAX_ROYALTY_BPS`, or royalty and fee together are
    /// above the whole.
    pub fn create(
        &mut self,
        ctx: &CreateMusicNft,
        title: String,
        symbol: String,
        uri: String,
        genre: String,
        price: u64,
        bpm: u16,
        key: String,
        amount: u32,
        artist_royalty: u16,
        platform_fee: u16,
    ) -> (result: Result<(), ErrorCode>)
        ensures
            old(self)@.dom().contains(ctx.mint) ==> result == Err::<(), ErrorCode>(
                ErrorCode::DuplicateAsset,
            ),
            !old(self)@.dom().contains(ctx.mint) && (amount == 0 || !config_ok(
                artist_royalty,
                platform_fee,
            )) ==> result == Err::<(), ErrorCode>(ErrorCode::InvalidConfig),
            !old(self)@.dom().contains(ctx.mint) && amount >= 1 && config_ok(
                artist_royalty,
                platform_fee,
            ) ==> result is Ok,
            result is Ok ==> final(self)@ == old(self)@.insert(
                ctx.mint,
                listed(
                    *ctx,
                    title,
                    symbol,
                    uri,
                    genre,
                    price,
                    bpm,
                    key,
                    amount,
                    artist_royalty,
                    platform_fee,
                ),
            ),
            result is Ok ==> final(self)@[ctx.mint].amount_sold == 0 && final(self)@[ctx.mint].is_for_sale && final(self)@[ctx.mint].wf(),
            result is Err ==> final(self)@ == old(self)@,
    {
        proof {
            use_type_invariant(&*self);
        }
        if self.contains(&ctx.mint) {
            return Err(ErrorCode::DuplicateAsset);
        }
        if amount == 0 || artist_royalty > MAX_ROYALTY_BPS || platform_fee > 10000
            - artist_royalty {
            return Err(ErrorCode::InvalidConfig);
        }
        let record = MusicNftData {
            title,
            symbol,
            uri,
            genre,
            price,
            bpm,
            key,
            owner: ctx.authority,
            mint: ctx.mint,
            amount,
            amount_sold: 0,
            is_for_sale: true,
            artist_royalty,
            platform_fee,
            platform_wallet: ctx.platform_wallet,
            artist_wallet: ctx.artist_wallet,
        };
        let mut records = self.take();
        proof {
            lemma_pushed(records@, record);
        }
        records.push(record);
        self.put(records);
        Ok(())
    }

    /// Takes in a record that was kept elsewhere, as it is.
    ///
    /// Refused with `InvalidConfig` when the record is not well formed; else
    /// with `DuplicateAsset` when the store has a record of its mint already.
    pub fn restore(&mut self, record: MusicNftData) -> (result: Result<(), ErrorCode>)
        ensures
            !record.wf() ==> result == Err::<(), ErrorCode>(ErrorCode::InvalidConfig),
            record.wf() && old(self)@.dom().contains(record.mint) ==> result == Err::<
                (),
                ErrorCode,
            >(ErrorCode::DuplicateAsset),
            record.wf() && !old(self)@.dom().contains(record.mint) ==> result is Ok && final(self)@ == old(self)@.insert(record.mint, record),
            result is Err ==> final(self)@ == old(self)@,
    {
        proof {
            use_type_invariant(&*self);
        }
        if !record.is_valid() {
            return Err(ErrorCode::InvalidConfig);
        }
        if self.contains(&record.mint) {
            return Err(ErrorCode::DuplicateAsset);
        }
        let mut records = self.take();
        proof {
            lemma_pushed(records@, record);
        }
        records.push(record);
        self.put(records);
        Ok(())
    }
}

/// Lists a track as a single copy, with the platform's fee at
/// `PLATFORM_FEE_BPS`, and tells what is to be minted for it.
///
/// The new record is owned by `ctx.authority`, has nothing sold and is for
/// sale. Refused with `DuplicateAsset` when the store has a record of
/// `ctx.mint` already; else with `InvalidConfig` when the royalty is above
/// `MAX_ROYALTY_BPS`.
pub fn create_music_nft(
    store: &mut AssetStore,
    ctx: &CreateMusicNft,
    title: String,
    symbol: String,
    uri: String,
    genre: String,
    price: u64,
    bpm: u16,
    key: String,
    artist_royalty: u16,
) -> (result: Result<MintOrder, ErrorCode>)
    ensures
        old(store)@.dom().contains(ctx.mint) ==> result == Err::<MintOrder, ErrorCode>(
            ErrorCode::DuplicateAsset,
        ),
        !old(store)@.dom().contains(ctx.mint) && artist_royalty > MAX_ROYALTY_BPS ==> result
            == Err::<MintOrder, ErrorCode>(ErrorCode::InvalidConfig),
        !old(store)@.dom().contains(ctx.mint) && artist_royalty <= MAX_ROYALTY_BPS ==> result
            == Ok::<MintOrder, ErrorCode>(
            MintOrder { mint: ctx.mint, to: ctx.token_account, authority: ctx.authority, amount: 1 },
        ),
        result is Ok ==> final(store)@ == old(store)@.insert(
            ctx.mint,
            listed(*ctx, title, symbol, uri, genre, price, bpm, key, 1, artist_royalty, PLATFORM_FEE_BPS),
        ),
        result is Ok ==> final(store)@[ctx.mint].amount_sold == 0 && final(store)@[ctx.mint].is_for_sale && final(store)@[ctx.mint].wf(),
        result is Err ==> final(store)@ == old(store)@,
{
    match store.create(
        ctx,
        title,
        symbol,
        uri,
        genre,
        price,
        bpm,
        key,
        1,
        artist_royalty,
        PLATFORM_FEE_BPS,
    ) {
        Ok(()) => Ok(
            MintOrder { mint: ctx.mint, to: ctx.token_account, authority: ctx.authority, amount: 1 },
        ),
        Err(reason) => Err(reason),
    }
}

/// Sets a new price on the record of `ctx.mint`. Any price is accepted.
///
/// Refused with `NotFound` when the store has no such record; else with
/// `Unauthorized` unless `ctx.authority` owns it.
pub fn update_nft_price(store: &mut AssetStore, ctx: &UpdateNftPrice, new_price: u64) -> (result:
    Result<(), ErrorCode>)
    ensures
        !old(store)@.dom().contains(ctx.mint) ==> result == Err::<(), ErrorCode>(
            ErrorCode::NotFound,
        ),
        old(store)@.dom().contains(ctx.mint) && old(store)@[ctx.mint].owner != ctx.authority
            ==> result == Err::<(), ErrorCode>(ErrorCode::Unauthorized),
        old(store)@.dom().contains(ctx.mint) && old(store)@[ctx.mint].owner == ctx.authority
            ==> result is Ok,
        result is Ok ==> final(store)@ == old(store)@.insert(
            ctx.mint,
            MusicNftData { price: new_price, ..old(store)@[ctx.mint] },
        ),
        result is Err ==> final(store)@ == old(store)@,
{
    proof {
        use_type_invariant(&*store);
    }
    match store.position(&ctx.mint) {
        None => Err(ErrorCode::NotFound),
        Some(i) => {
            proof {
                lemma_found(store.records@, i as int);
            }
            let mut records = store.take();
            let ghost before = records@;
            let result = records[i].update_price(&ctx.authority, new_price);
            proof {
                assert(records@ =~= before.update(i as int, records@[i as int]));
                lemma_replaced(before, i as int, records@[i as int]);
                if result is Err {
                    assert(records@ =~= before);
                }
            }
            store.put(records);
            result
        },
    }
}

/// Sets a new royalty on the record of `ctx.mint`.
///
/// Refused with `NotFound` when the store has no such record; else with
/// `Unauthorized` unless `ctx.authority` owns it; else with `InvalidConfig`
/// when the royalty is above `MAX_ROYALTY_BPS` or, with the record's fee, above
/// the whole.
pub fn update_artist_royalty(
    store: &mut AssetStore,
    ctx: &UpdateNftPrice,
    new_royalty: u16,
) -> (result: Result<(), ErrorCode>)
    ensures
        !old(store)@.dom().contains(ctx.mint) ==> result == Err::<(), ErrorCode>(
            ErrorCode::NotFound,
        ),
        old(store)@.dom().contains(ctx.mint) && old(store)@[ctx.mint].owner != ctx.authority
            ==> result == Err::<(), ErrorCode>(ErrorCode::Unauthorized),
        old(store)@.dom().contains(ctx.mint) && old(store)@[ctx.mint].owner == ctx.authority
            && !config_ok(new_royalty, old(store)@[ctx.mint].platform_fee) ==> result == Err::<
            (),
            ErrorCode,
        >(ErrorCode::InvalidConfig),
        old(store)@.dom().contains(ctx.mint) && old(store)@[ctx.mint].owner == ctx.authority
            && config_ok(new_royalty, old(store)@[ctx.mint].platform_fee) ==> result is Ok,
        result is Ok ==> final(store)@ == old(store)@.insert(
            ctx.mint,
            MusicNftData { artist_royalty: new_royalty, ..old(store)@[ctx.mint] },
        ),
        result is Err ==> final(store)@ == old(store)@,
{
    proof {
        use_type_invariant(&*store);
    }
    match store.position(&ctx.mint) {
        None => Err(ErrorCode::NotFound),
        Some(i) => {
            proof {
                lemma_found(store.records@, i as int);
            }
            let mut records = store.take();
            let ghost before = records@;
            let result = records[i].update_royalty(&ctx.authority, new_royalty);
            proof {
                assert(records@ =~= before.update(i as int, records@[i as int]));
                lemma_replaced(before, i as int, records@[i as int]);
                if result is Err {
                    assert(records@ =~= before);
                }
            }
            store.put(records);
            result
        },
    }
}

} // verus!
