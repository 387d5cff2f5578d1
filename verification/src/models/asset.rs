//! Assets: the root entity that tickets are raised against.

use crate::config::{guard, guard_spec, header_view, AppState, Tier};
use crate::errors::{answered, executed, removed, ErrResponse, Failure};
use crate::table::{has_key, is_listing, keys, next_key, replaced, row_of, without, Ranked, Record};
use crate::text::{
    lemma_bytes_before_irreflexive, lemma_bytes_before_total, lemma_bytes_before_transitive,
    sorts_before, text_before, trim, trim_spec,
};
use vstd::prelude::*;
use vstd::std_specs::cmp::PartialEqSpecImpl;

verus! {

/// A stored asset.
#[derive(Debug)]
pub struct Asset {
    pub id: i32,
    pub title: String,
    pub description: String,
}

/// An asset as submitted for creation: no id yet.
#[derive(Debug)]
pub struct InAsset {
    pub title: String,
    pub description: String,
}

/// The contents of an asset as plain values.
pub struct AssetView {
    pub id: int,
    pub title: Seq<char>,
    pub description: Seq<char>,
}

/// The contents of a submitted asset as plain values.
pub struct InAssetView {
    pub title: Seq<char>,
    pub description: Seq<char>,
}

impl View for Asset {
    type V = AssetView;

    open spec fn view(&self) -> AssetView {
        AssetView { id: self.id as int, title: self.title@, description: self.description@ }
    }
}

impl View for InAsset {
    type V = InAssetView;

    open spec fn view(&self) -> InAssetView {
        InAssetView { title: self.title@, description: self.description@ }
    }
}

impl AssetView {
    /// The fields that creation takes from the caller.
    pub open spec fn input(self) -> InAssetView {
        InAssetView { title: self.title, description: self.description }
    }
}

impl InAssetView {
    /// The submitted asset with its free-text fields trimmed.
    pub open spec fn trimmed(self) -> InAssetView {
        InAssetView { title: trim_spec(self.title), description: trim_spec(self.description) }
    }

    /// The stored asset that holds these fields under `id`.
    pub open spec fn with_id(self, id: int) -> AssetView {
        AssetView { id, title: self.title, description: self.description }
    }
}

impl Clone for Asset {
    fn clone(&self) -> (r: Asset)
        ensures
            r == *self,
    {
        Asset { id: self.id, title: self.title.clone(), description: self.description.clone() }
    }
}

impl Clone for InAsset {
    fn clone(&self) -> (r: InAsset)
        ensures
            r == *self,
    {
        InAsset { title: self.title.clone(), description: self.description.clone() }
    }
}

impl PartialEq for Asset {
    fn eq(&self, other: &Asset) -> (b: bool) {
        self.id == other.id && self.title == other.title && self.description == other.description
    }
}

impl PartialEqSpecImpl for Asset {
    open spec fn obeys_eq_spec() -> bool {
        true
    }

    open spec fn eq_spec(&self, other: &Asset) -> bool {
        self@ == other@
    }
}

impl PartialEq for InAsset {
    fn eq(&self, other: &InAsset) -> (b: bool) {
        self.title == other.title && self.description == other.description
    }
}

impl PartialEqSpecImpl for InAsset {
    open spec fn obeys_eq_spec() -> bool {
        true
    }

    open spec fn eq_spec(&self, other: &InAsset) -> bool {
        self@ == other@
    }
}

/// A stored asset equals a submitted one where every submitted field agrees.
impl PartialEq<InAsset> for Asset {
    fn eq(&self, other: &InAsset) -> (b: bool) {
        self.title == other.title && self.description == other.description
    }
}

impl PartialEqSpecImpl<InAsset> for Asset {
    open spec fn obeys_eq_spec() -> bool {
        true
    }

    open spec fn eq_spec(&self, other: &InAsset) -> bool {
        self@.input() == other@
    }
}

impl InAsset {
    /// The stored asset that holds these fields under `id`.
    pub open spec fn stored(self, id: i32) -> Asset {
        Asset { id, title: self.title, description: self.description }
    }

    /// Trims the free-text fields.
    pub fn trimmed(self) -> (r: InAsset)
        ensures
            r@ == self@.trimmed(),
    {
        InAsset { title: trim(self.title.as_str()), description: trim(self.description.as_str()) }
    }

    /// The stored asset that holds these fields under `id`.
    pub fn with_id(self, id: i32) -> (r: Asset)
        ensures
            r == self.stored(id),
    {
        Asset { id, title: self.title, description: self.description }
    }
}

impl Asset {
    /// The fields of this asset that creation takes from the caller.
    pub open spec fn submitted(self) -> InAsset {
        InAsset { title: self.title, description: self.description }
    }

    /// The fields of this asset that creation takes from the caller.
    pub fn input(self) -> (r: InAsset)
        ensures
            r == self.submitted(),
    {
        InAsset { title: self.title, description: self.description }
    }
}

impl Record for Asset {
    open spec fn key(&self) -> int {
        self.id as int
    }

    fn id(&self) -> (id: i32) {
        self.id
    }

    fn duplicate(&self) -> (r: Asset) {
        self.clone()
    }
}

/// Assets are listed by title, and by id where titles are equal.
impl Ranked for Asset {
    open spec fn precedes(&self, other: &Asset) -> bool {
        text_before(self.title@, other.title@) || (!text_before(other.title@, self.title@)
            && self.id < other.id)
    }

    fn comes_before(&self, other: &Asset) -> (b: bool) {
        sorts_before(self.title.as_str(), other.title.as_str()) || (!sorts_before(
            other.title.as_str(),
            self.title.as_str(),
        ) && self.id < other.id)
    }

    proof fn lemma_order(a: &Asset, b: &Asset, c: &Asset) {
        let x = vstd::utf8::encode_utf8(a.title@);
        let y = vstd::utf8::encode_utf8(b.title@);
        let z = vstd::utf8::encode_utf8(c.title@);
        lemma_bytes_before_irreflexive(x);
        if a.precedes(b) && b.precedes(c) {
            if text_before(a.title@, b.title@) {
                if text_before(b.title@, c.title@) {
                    lemma_bytes_before_transitive(x, y, z);
                } else {
                    lemma_bytes_before_total(y, z);
                }
            } else {
                lemma_bytes_before_total(x, y);
                if !text_before(b.title@, c.title@) {
                    lemma_bytes_before_total(y, z);
                }
            }
        }
    }
}

/// Whether two states differ in nothing but the table of assets.
pub open spec fn only_assets_differ(pre: AppState, post: AppState) -> bool {
    &&& post.config == pre.config
    &&& post.mailer == pre.mailer
    &&& post.photos == pre.photos
    &&& post.store.tickets == pre.store.tickets
    &&& post.store.comments == pre.store.comments
}

/// The outcome of creating an asset.
pub open spec fn create_spec(
    pre: AppState,
    post: AppState,
    header: Option<Seq<u8>>,
    input: InAsset,
    r: Result<(u16, Asset), Failure>,
) -> bool {
    let rows = pre.store.assets.rows();
    match guard_spec(header, &pre.config, Tier::Admin) {
        Err(failure) => r == Err::<(u16, Asset), Failure>(failure) && post == pre,
        Ok(()) => only_assets_differ(pre, post) && match r {
            Ok((status, asset)) => {
                &&& status == 201
                &&& next_key(rows) <= i32::MAX
                &&& asset@ == input@.trimmed().with_id(next_key(rows))
                &&& post.store.assets.rows() == rows.push(asset)
            },
            Err(failure) => {
                &&& next_key(rows) > i32::MAX
                &&& failure == Failure::Failed(ErrResponse::S500("database error"))
                &&& post.store.assets.rows() == rows
            },
        },
    }
}

/// Creates an asset: admin only. The free-text fields are trimmed, the store
/// assigns the id, and the stored asset is returned with status 201.
pub fn create(state: &mut AppState, header: Option<&[u8]>, asset: InAsset) -> (r: Result<
    (u16, Asset),
    Failure,
>)
    requires
        old(state).wf(),
    ensures
        final(state).wf(),
        create_spec(*old(state), *final(state), header_view(header), asset, r),
{
    match guard(header, &state.config, Tier::Admin) {
        Err(failure) => Err(failure),
        Ok(()) => match answered(state.store.insert_asset(asset.trimmed())) {
            Ok(created) => Ok((201, created)),
            Err(e) => Err(Failure::Failed(e)),
        },
    }
}

/// The outcome of updating an asset.
pub open spec fn update_spec(
    pre: AppState,
    post: AppState,
    header: Option<Seq<u8>>,
    id: i32,
    body: Asset,
    r: Result<u16, Failure>,
) -> bool {
    let rows = pre.store.assets.rows();
    match guard_spec(header, &pre.config, Tier::Admin) {
        Err(failure) => r == Err::<u16, Failure>(failure) && post == pre,
        Ok(()) => {
            &&& only_assets_differ(pre, post)
            &&& r == Ok::<u16, Failure>(204)
            &&& exists|row: Asset|
                {
                    &&& row@ == body@.input().trimmed().with_id(id as int)
                    &&& post.store.assets.rows() == replaced(rows, row)
                }
        },
    }
}

/// Updates an asset: admin only. Every field but the id is replaced by the
/// trimmed fields of `asset`; the row is the one with the id `id` of the
/// path, and the id that `asset` carries is ignored. The answer is status
/// 204, also where no asset has that id.
pub fn update(state: &mut AppState, header: Option<&[u8]>, id: i32, asset: Asset) -> (r: Result<
    u16,
    Failure,
>)
    requires
        old(state).wf(),
    ensures
        final(state).wf(),
        update_spec(*old(state), *final(state), header_view(header), id, asset, r),
{
    match guard(header, &state.config, Tier::Admin) {
        Err(failure) => Err(failure),
        Ok(()) => {
            let body = asset.input().trimmed().with_id(id);
            let changed = state.store.update_asset(id, body);
            proof {
                let row = body.submitted().stored(id);
                assert(row@ == asset@.input().trimmed().with_id(id as int));
                assert(state.store.assets.rows() == replaced(old(state).store.assets.rows(), row));
            }
            match executed(Ok(changed)) {
                Ok(()) => Ok(204),
                Err(e) => Err(Failure::Failed(e)),
            }
        },
    }
}

/// Lists the ids of all assets, in insertion order: any credential.
pub fn list(state: &AppState, header: Option<&[u8]>) -> (r: Result<Vec<i32>, Failure>)
    ensures
        match guard_spec(header_view(header), &state.config, Tier::User) {
            Err(failure) => r == Err::<Vec<i32>, Failure>(failure),
            Ok(()) => r matches Ok(ids) && ids@.map_values(|id: i32| id as int) == keys(
                state.store.assets.rows(),
            ),
        },
{
    match guard(header, &state.config, Tier::User) {
        Err(failure) => Err(failure),
        Ok(()) => Ok(state.store.assets.ids()),
    }
}

/// Lists all assets, ordered by title: any credential.
pub fn list_all(state: &AppState, header: Option<&[u8]>) -> (r: Result<Vec<Asset>, Failure>)
    requires
        state.wf(),
    ensures
        match guard_spec(header_view(header), &state.config, Tier::User) {
            Err(failure) => r == Err::<Vec<Asset>, Failure>(failure),
            Ok(()) => r matches Ok(assets) && is_listing(assets@, state.store.assets.rows()),
        },
{
    match guard(header, &state.config, Tier::User) {
        Err(failure) => Err(failure),
        Ok(()) => Ok(state.store.assets.listing()),
    }
}

/// The outcome of reading one asset.
pub open spec fn read_spec(
    state: AppState,
    header: Option<Seq<u8>>,
    id: i32,
    r: Result<Asset, Failure>,
) -> bool {
    let rows = state.store.assets.rows();
    match guard_spec(header, &state.config, Tier::User) {
        Err(failure) => r == Err::<Asset, Failure>(failure),
        Ok(()) => if has_key(rows, id as int) {
            r == Ok::<Asset, Failure>(row_of(rows, id as int))
        } else {
            r == Err::<Asset, Failure>(
                Failure::Failed(ErrResponse::S404("data not found in database")),
            )
        },
    }
}

/// Reads one asset: any credential.
pub fn read(state: &AppState, header: Option<&[u8]>, id: i32) -> (r: Result<Asset, Failure>)
    requires
        state.wf(),
    ensures
        read_spec(*state, header_view(header), id, r),
{
    match guard(header, &state.config, Tier::User) {
        Err(failure) => Err(failure),
        Ok(()) => match answered(state.store.assets.fetch(id)) {
            Ok(asset) => Ok(asset),
            Err(e) => Err(Failure::Failed(e)),
        },
    }
}

/// The outcome of deleting one asset.
pub open spec fn delete_spec(
    pre: AppState,
    post: AppState,
    header: Option<Seq<u8>>,
    id: i32,
    r: Result<(), Failure>,
) -> bool {
    let rows = pre.store.assets.rows();
    match guard_spec(header, &pre.config, Tier::Admin) {
        Err(failure) => r == Err::<(), Failure>(failure) && post == pre,
        Ok(()) => {
            &&& only_assets_differ(pre, post)
            &&& post.store.assets.rows() == without(rows, id as int)
            &&& r == if has_key(rows, id as int) {
                Ok::<(), Failure>(())
            } else {
                Err::<(), Failure>(
                    Failure::Failed(ErrResponse::S404("object not found in database")),
                )
            }
        },
    }
}

/// Deletes one asset: admin only. Its tickets are left in place.
pub fn delete(state: &mut AppState, header: Option<&[u8]>, id: i32) -> (r: Result<(), Failure>)
    requires
        old(state).wf(),
    ensures
        final(state).wf(),
        delete_spec(*old(state), *final(state), header_view(header), id, r),
{
    match guard(header, &state.config, Tier::Admin) {
        Err(failure) => Err(failure),
        Ok(()) => match removed(Ok(state.store.assets.delete(id))) {
            Ok(()) => Ok(()),
            Err(e) => Err(Failure::Failed(e)),
        },
    }
}

/// The outcome of deleting all assets.
pub open spec fn destroy_spec(
    pre: AppState,
    post: AppState,
    header: Option<Seq<u8>>,
    r: Result<(), Failure>,
) -> bool {
    match guard_spec(header, &pre.config, Tier::Admin) {
        Err(failure) => r == Err::<(), Failure>(failure) && post == pre,
        Ok(()) => {
            &&& only_assets_differ(pre, post)
            &&& post.store.assets.rows() == Seq::<Asset>::empty()
            &&& r == Ok::<(), Failure>(())
        },
    }
}

/// Deletes all assets: admin only. It succeeds on an empty table too.
pub fn destroy(state: &mut AppState, header: Option<&[u8]>) -> (r: Result<(), Failure>)
    requires
        old(state).wf(),
    ensures
        final(state).wf(),
        destroy_spec(*old(state), *final(state), header_view(header), r),
{
    match guard(header, &state.config, Tier::Admin) {
        Err(failure) => Err(failure),
        Ok(()) => match executed(Ok(state.store.assets.clear())) {
            Ok(()) => Ok(()),
            Err(e) => Err(Failure::Failed(e)),
        },
    }
}

} // verus!
