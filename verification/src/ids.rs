//! Ids shared between rustc and Marker's API.
//!
//! The API's ids are plain pairs of `u32` values laid out as the structs
//! below (`#[repr(C)]`). Rustc's ids are modelled by the plain values they
//! are made of: a `DefId` is a crate number and a definition index, a
//! `HirId` an owner (a local definition index) and an item-local id.

use vstd::prelude::*;
use vstd::std_specs::convert::FromSpecImpl;

verus! {

/// rustc's `LOCAL_CRATE`: the crate number of the crate being compiled.
pub const LOCAL_CRATE: u32 = 0;

/// A rustc `DefId`.
#[derive(Clone, Copy, Debug, PartialEq, Eq, Structural, Hash)]
pub struct DefId {
    pub krate: u32,
    pub index: u32,
}

/// A rustc `LocalDefId`: a definition of the local crate.
#[derive(Clone, Copy, Debug, PartialEq, Eq, Structural, Hash)]
pub struct LocalDefId {
    pub local_def_index: u32,
}

impl LocalDefId {
    /// The `DefId` of this local definition.
    pub fn to_def_id(self) -> (r: DefId)
        ensures
            r == (DefId { krate: LOCAL_CRATE, index: self.local_def_index }),
    {
        DefId { krate: LOCAL_CRATE, index: self.local_def_index }
    }
}

/// A rustc `hir::ItemId`: the owner of an item.
#[derive(Clone, Copy, Debug, PartialEq, Eq, Structural, Hash)]
pub struct HirItemId {
    pub owner_id: LocalDefId,
}

/// A rustc `HirId`: the owner and the id local to that owner.
#[derive(Clone, Copy, Debug, PartialEq, Eq, Structural, Hash)]
pub struct HirId {
    pub owner: LocalDefId,
    pub local_id: u32,
}

/// A rustc `hir::BodyId`.
#[derive(Clone, Copy, Debug, PartialEq, Eq, Structural, Hash)]
pub struct BodyId {
    pub hir_id: HirId,
}

/// The layout of the API's `GenericId`.
#[derive(Clone, Copy, Debug, PartialEq, Eq, Structural, Hash)]
pub struct GenericIdLayout {
    pub krate: u32,
    pub index: u32,
}

/// The layout of the API's `TyDefId`.
#[derive(Clone, Copy, Debug, PartialEq, Eq, Structural, Hash)]
pub struct TyDefIdLayout {
    pub krate: u32,
    pub index: u32,
}

/// The layout of the API's `ItemId`.
#[derive(Clone, Copy, Debug, PartialEq, Eq, Structural, Hash)]
pub struct ItemIdLayout {
    pub krate: u32,
    pub index: u32,
}

/// The layout of the API's `BodyId`.
///
/// Rustc only loads bodies from the current crate, which allows to only store
/// the index of the owner's `DefId` and leave out the crate index.
#[derive(Clone, Copy, Debug, PartialEq, Eq, Structural, Hash)]
pub struct BodyIdLayout {
    pub owner: u32,
    pub index: u32,
}

/// The layout of the API's `VarId`: the `HirId` of the binding.
#[derive(Clone, Copy, Debug, PartialEq, Eq, Structural, Hash)]
pub struct VarIdLayout {
    pub owner: u32,
    pub index: u32,
}

/// The crate and index of an API id that refers to a definition.
#[derive(Clone, Copy, Debug, PartialEq, Eq, Structural, Hash)]
pub struct DefIdInfo {
    pub index: u32,
    pub krate: u32,
}

/// The `TyDefId` of a rustc definition.
pub open spec fn ty_def_id_of(d: DefId) -> TyDefIdLayout {
    TyDefIdLayout { krate: d.krate, index: d.index }
}

/// The `GenericId` of a rustc definition.
pub open spec fn generic_id_of(d: DefId) -> GenericIdLayout {
    GenericIdLayout { krate: d.krate, index: d.index }
}

/// The local rustc item of an API `ItemId`.
pub open spec fn rustc_item_id_of(l: ItemIdLayout) -> HirItemId {
    HirItemId { owner_id: LocalDefId { local_def_index: l.index } }
}

/// The API `BodyId` of a rustc body.
pub open spec fn api_body_id_of(b: BodyId) -> BodyIdLayout {
    BodyIdLayout { owner: b.hir_id.owner.local_def_index, index: b.hir_id.local_id }
}

/// The rustc body of an API `BodyId`.
pub open spec fn rustc_body_id_of(l: BodyIdLayout) -> BodyId {
    BodyId { hir_id: HirId { owner: LocalDefId { local_def_index: l.owner }, local_id: l.index } }
}

/// The API `VarId` of a rustc binding.
pub open spec fn var_id_of(h: HirId) -> VarIdLayout {
    VarIdLayout { owner: h.owner.local_def_index, index: h.local_id }
}

/// The rustc binding of an API `VarId`.
pub open spec fn hir_id_of(l: VarIdLayout) -> HirId {
    HirId { owner: LocalDefId { local_def_index: l.owner }, local_id: l.index }
}

/// The rustc definition an API id refers to.
pub open spec fn def_id_of<T: ToDefIdInfo>(t: T) -> DefId {
    DefId { index: t.index_and_crate().0, krate: t.index_and_crate().1 }
}

/// The `TyDefId` of a rustc definition.
pub fn to_ty_def_id(rustc_id: DefId) -> (r: TyDefIdLayout)
    ensures
        r == ty_def_id_of(rustc_id),
{
    TyDefIdLayout { krate: rustc_id.krate, index: rustc_id.index }
}

/// The `GenericId` of a rustc definition (a generic parameter).
pub fn to_generic_id(rustc_id: DefId) -> (r: GenericIdLayout)
    ensures
        r == generic_id_of(rustc_id),
{
    GenericIdLayout { krate: rustc_id.krate, index: rustc_id.index }
}

impl From<DefId> for ItemIdLayout {
    fn from(rustc_id: DefId) -> (r: ItemIdLayout) {
        ItemIdLayout { krate: rustc_id.krate, index: rustc_id.index }
    }
}

impl FromSpecImpl<DefId> for ItemIdLayout {
    open spec fn obeys_from_spec() -> bool {
        true
    }

    open spec fn from_spec(rustc_id: DefId) -> ItemIdLayout {
        ItemIdLayout { krate: rustc_id.krate, index: rustc_id.index }
    }
}

impl From<LocalDefId> for ItemIdLayout {
    fn from(value: LocalDefId) -> (r: ItemIdLayout) {
        ItemIdLayout::from(value.to_def_id())
    }
}

impl FromSpecImpl<LocalDefId> for ItemIdLayout {
    open spec fn obeys_from_spec() -> bool {
        true
    }

    open spec fn from_spec(value: LocalDefId) -> ItemIdLayout {
        ItemIdLayout { krate: LOCAL_CRATE, index: value.local_def_index }
    }
}

impl From<HirItemId> for ItemIdLayout {
    /// The owner of an item is the `DefId` of the item.
    fn from(value: HirItemId) -> (r: ItemIdLayout) {
        ItemIdLayout::from(value.owner_id)
    }
}

impl FromSpecImpl<HirItemId> for ItemIdLayout {
    open spec fn obeys_from_spec() -> bool {
        true
    }

    open spec fn from_spec(value: HirItemId) -> ItemIdLayout {
        ItemIdLayout { krate: LOCAL_CRATE, index: value.owner_id.local_def_index }
    }
}

/// The API `ItemId` of anything that names an item.
pub fn to_item_id<T>(id: T) -> (r: ItemIdLayout)
    where ItemIdLayout: From<T>,
    ensures
        <ItemIdLayout as vstd::std_specs::convert::FromSpec<T>>::obeys_from_spec()
            ==> r == <ItemIdLayout as vstd::std_specs::convert::FromSpec<T>>::from_spec(id),
{
    ItemIdLayout::from(id)
}

/// The rustc item of an API `ItemId`. Items are only looked up in the local
/// crate, so only the index is read.
pub fn to_rustc_item_id(api_id: ItemIdLayout) -> (r: HirItemId)
    ensures
        r == rustc_item_id_of(api_id),
{
    HirItemId { owner_id: LocalDefId { local_def_index: api_id.index } }
}

/// The API `BodyId` of a rustc body.
pub fn to_api_body_id(rustc_id: BodyId) -> (r: BodyIdLayout)
    ensures
        r == api_body_id_of(rustc_id),
{
    BodyIdLayout { owner: rustc_id.hir_id.owner.local_def_index, index: rustc_id.hir_id.local_id }
}

/// The rustc body of an API `BodyId`.
pub fn to_rustc_body_id(api_id: BodyIdLayout) -> (r: BodyId)
    ensures
        r == rustc_body_id_of(api_id),
{
    BodyId { hir_id: HirId { owner: LocalDefId { local_def_index: api_id.owner }, local_id: api_id.index } }
}

/// The API `VarId` of a rustc binding.
pub fn to_var_id(rustc_id: HirId) -> (r: VarIdLayout)
    ensures
        r == var_id_of(rustc_id),
{
    VarIdLayout { owner: rustc_id.owner.local_def_index, index: rustc_id.local_id }
}

/// The rustc binding of an API `VarId`.
pub fn to_hir_id(api_id: VarIdLayout) -> (r: HirId)
    ensures
        r == hir_id_of(api_id),
{
    HirId { owner: LocalDefId { local_def_index: api_id.owner }, local_id: api_id.index }
}

/// API ids that refer to a definition.
pub trait ToDefIdInfo: Sized {
    /// The definition index and crate number of the id, in this order.
    spec fn index_and_crate(&self) -> (u32, u32);

    /// The definition index and crate number of the id, in this order.
    fn into_crate_and_index(self) -> (r: (u32, u32))
        ensures
            r == self.index_and_crate(),
    ;
}

impl ToDefIdInfo for ItemIdLayout {
    open spec fn index_and_crate(&self) -> (u32, u32) {
        (self.index, self.krate)
    }

    fn into_crate_and_index(self) -> (r: (u32, u32)) {
        (self.index, self.krate)
    }
}

impl ToDefIdInfo for TyDefIdLayout {
    open spec fn index_and_crate(&self) -> (u32, u32) {
        (self.index, self.krate)
    }

    fn into_crate_and_index(self) -> (r: (u32, u32)) {
        (self.index, self.krate)
    }
}

impl ToDefIdInfo for GenericIdLayout {
    open spec fn index_and_crate(&self) -> (u32, u32) {
        (self.index, self.krate)
    }

    fn into_crate_and_index(self) -> (r: (u32, u32)) {
        (self.index, self.krate)
    }
}

/// The rustc definition an API id refers to.
pub fn to_rustc_def_id<T: ToDefIdInfo>(api_id: T) -> (r: DefId)
    ensures
        r == def_id_of(api_id),
{
    let (index, krate) = api_id.into_crate_and_index();
    DefId { index, krate }
}

impl From<GenericIdLayout> for DefIdInfo {
    fn from(value: GenericIdLayout) -> (r: DefIdInfo) {
        DefIdInfo { index: value.index, krate: value.krate }
    }
}

impl FromSpecImpl<GenericIdLayout> for DefIdInfo {
    open spec fn obeys_from_spec() -> bool {
        true
    }

    open spec fn from_spec(value: GenericIdLayout) -> DefIdInfo {
        DefIdInfo { index: value.index, krate: value.krate }
    }
}

impl From<ItemIdLayout> for DefIdInfo {
    fn from(value: ItemIdLayout) -> (r: DefIdInfo) {
        DefIdInfo { index: value.index, krate: value.krate }
    }
}

impl FromSpecImpl<ItemIdLayout> for DefIdInfo {
    open spec fn obeys_from_spec() -> bool {
        true
    }

    open spec fn from_spec(value: ItemIdLayout) -> DefIdInfo {
        DefIdInfo { index: value.index, krate: value.krate }
    }
}

impl From<TyDefIdLayout> for DefIdInfo {
    fn from(value: TyDefIdLayout) -> (r: DefIdInfo) {
        DefIdInfo { index: value.index, krate: value.krate }
    }
}

impl FromSpecImpl<TyDefIdLayout> for DefIdInfo {
    open spec fn obeys_from_spec() -> bool {
        true
    }

    open spec fn from_spec(value: TyDefIdLayout) -> DefIdInfo {
        DefIdInfo { index: value.index, krate: value.krate }
    }
}

/// The rustc definition of anything that converts into a [`DefIdInfo`].
pub fn to_def_id<T>(api_id: T) -> (r: DefId)
    where DefIdInfo: From<T>,
    ensures
        <DefIdInfo as vstd::std_specs::convert::FromSpec<T>>::obeys_from_spec() ==> ({
            let info = <DefIdInfo as vstd::std_specs::convert::FromSpec<T>>::from_spec(api_id);
            r == (DefId { index: info.index, krate: info.krate })
        }),
{
    let info = DefIdInfo::from(api_id);
    DefId { index: info.index, krate: info.krate }
}


/// A definition converted to an API `TyDefId` converts back to itself.
pub proof fn law_ty_def_id_round_trip(d: DefId)
    ensures
        def_id_of(ty_def_id_of(d)) == d,
{
}

/// A definition converted to an API `GenericId` converts back to itself.
pub proof fn law_generic_id_round_trip(d: DefId)
    ensures
        def_id_of(generic_id_of(d)) == d,
{
}

/// A definition converted to an API `ItemId` converts back to itself.
pub proof fn law_item_id_round_trip(d: DefId)
    ensures
        def_id_of(<ItemIdLayout as vstd::std_specs::convert::FromSpec<DefId>>::from_spec(d)) == d,
{
}

/// A local item converted to an API `ItemId` is found again as that item.
pub proof fn law_local_item_round_trip(item: HirItemId)
    ensures
        rustc_item_id_of(<ItemIdLayout as vstd::std_specs::convert::FromSpec<HirItemId>>::from_spec(item)) == item,
{
}

/// Body ids convert both ways without loss.
pub proof fn law_body_id_round_trip(b: BodyId, l: BodyIdLayout)
    ensures
        rustc_body_id_of(api_body_id_of(b)) == b,
        api_body_id_of(rustc_body_id_of(l)) == l,
{
}

/// Variable ids convert both ways without loss.
pub proof fn law_var_id_round_trip(h: HirId, l: VarIdLayout)
    ensures
        hir_id_of(var_id_of(h)) == h,
        var_id_of(hir_id_of(l)) == l,
{
}

/// Going through [`DefIdInfo`] finds the same definition as [`ToDefIdInfo`].
pub proof fn law_def_id_info_agrees(g: GenericIdLayout, i: ItemIdLayout, t: TyDefIdLayout)
    ensures
        ({
            let info = <DefIdInfo as vstd::std_specs::convert::FromSpec<GenericIdLayout>>::from_spec(g);
            DefId { index: info.index, krate: info.krate } == def_id_of(g)
        }),
        ({
            let info = <DefIdInfo as vstd::std_specs::convert::FromSpec<ItemIdLayout>>::from_spec(i);
            DefId { index: info.index, krate: info.krate } == def_id_of(i)
        }),
        ({
            let info = <DefIdInfo as vstd::std_specs::convert::FromSpec<TyDefIdLayout>>::from_spec(t);
            DefId { index: info.index, krate: info.krate } == def_id_of(t)
        }),
{
}


/// The id conversions move the numbers that make an id into the same fields:
/// a definition's crate and index stay its crate and index, a body's or a
/// binding's owner and local id become the layout's owner and index, and an
/// API item id names the local definition with its index. The local crate
/// is crate number 0, as in rustc.
pub proof fn law_ids_keep_their_fields(d: DefId, b: BodyId, h: HirId, l: ItemIdLayout, bl: BodyIdLayout, vl: VarIdLayout)
    ensures
        LOCAL_CRATE == 0,
        ty_def_id_of(d).krate == d.krate && ty_def_id_of(d).index == d.index,
        generic_id_of(d).krate == d.krate && generic_id_of(d).index == d.index,
        api_body_id_of(b).owner == b.hir_id.owner.local_def_index && api_body_id_of(b).index == b.hir_id.local_id,
        var_id_of(h).owner == h.owner.local_def_index && var_id_of(h).index == h.local_id,
        rustc_item_id_of(l).owner_id.local_def_index == l.index,
        rustc_body_id_of(bl).hir_id.owner.local_def_index == bl.owner && rustc_body_id_of(bl).hir_id.local_id == bl.index,
        hir_id_of(vl).owner.local_def_index == vl.owner && hir_id_of(vl).local_id == vl.index,
{
}


/// Reading an API id back as a definition keeps its crate and index, for
/// every kind of definition id; turning a rustc definition, a local
/// definition or a local item into an API `ItemId` keeps them too (a local
/// one is of the local crate).
pub proof fn law_definition_ids_keep_crate_and_index(
    t: TyDefIdLayout,
    g: GenericIdLayout,
    i: ItemIdLayout,
    d: DefId,
    local: LocalDefId,
    item: HirItemId,
)
    ensures
        def_id_of(t).krate == t.krate && def_id_of(t).index == t.index,
        def_id_of(g).krate == g.krate && def_id_of(g).index == g.index,
        def_id_of(i).krate == i.krate && def_id_of(i).index == i.index,
        <ItemIdLayout as vstd::std_specs::convert::FromSpec<DefId>>::from_spec(d) == (ItemIdLayout {
            krate: d.krate,
            index: d.index,
        }),
        <ItemIdLayout as vstd::std_specs::convert::FromSpec<LocalDefId>>::from_spec(local) == (ItemIdLayout {
            krate: LOCAL_CRATE,
            index: local.local_def_index,
        }),
        <ItemIdLayout as vstd::std_specs::convert::FromSpec<HirItemId>>::from_spec(item) == (ItemIdLayout {
            krate: LOCAL_CRATE,
            index: item.owner_id.local_def_index,
        }),
        <DefIdInfo as vstd::std_specs::convert::FromSpec<TyDefIdLayout>>::from_spec(t) == (DefIdInfo {
            index: t.index,
            krate: t.krate,
        }),
        <DefIdInfo as vstd::std_specs::convert::FromSpec<GenericIdLayout>>::from_spec(g) == (DefIdInfo {
            index: g.index,
            krate: g.krate,
        }),
        <DefIdInfo as vstd::std_specs::convert::FromSpec<ItemIdLayout>>::from_spec(i) == (DefIdInfo {
            index: i.index,
            krate: i.krate,
        }),
{
}

} // verus!
