use marker_driver::ids::{
    to_api_body_id, to_def_id, to_generic_id, to_hir_id, to_item_id, to_rustc_body_id, to_rustc_def_id,
    to_rustc_item_id, to_ty_def_id, to_var_id, BodyId, BodyIdLayout, DefId, DefIdInfo, GenericIdLayout, HirId,
    HirItemId, ItemIdLayout, LocalDefId, ToDefIdInfo, TyDefIdLayout, VarIdLayout, LOCAL_CRATE,
};

#[test]
fn def_ids_round_trip() {
    let d = DefId { krate: 7, index: 42 };
    assert_eq!(to_ty_def_id(d), TyDefIdLayout { krate: 7, index: 42 });
    assert_eq!(to_rustc_def_id(to_ty_def_id(d)), d);
    assert_eq!(to_rustc_def_id(to_generic_id(d)), d);
    assert_eq!(to_rustc_def_id(to_item_id(d)), d);
    assert_eq!(to_def_id(to_generic_id(d)), d);
    assert_eq!(to_def_id(to_item_id(d)), d);
    assert_eq!(to_def_id(to_ty_def_id(d)), d);
}

#[test]
fn crate_and_index_order() {
    assert_eq!(ItemIdLayout { krate: 1, index: 2 }.into_crate_and_index(), (2, 1));
    assert_eq!(GenericIdLayout { krate: 3, index: 4 }.into_crate_and_index(), (4, 3));
    assert_eq!(DefIdInfo::from(TyDefIdLayout { krate: 5, index: 6 }), DefIdInfo { index: 6, krate: 5 });
}

#[test]
fn local_items() {
    let local = LocalDefId { local_def_index: 9 };
    assert_eq!(local.to_def_id(), DefId { krate: LOCAL_CRATE, index: 9 });
    let item = HirItemId { owner_id: local };
    let api = to_item_id(item);
    assert_eq!(api, ItemIdLayout { krate: 0, index: 9 });
    assert_eq!(to_rustc_item_id(api), item);
    assert_eq!(to_item_id(local), api);
}

#[test]
fn bodies_and_variables_round_trip() {
    let hir_id = HirId { owner: LocalDefId { local_def_index: 11 }, local_id: 3 };
    let body = BodyId { hir_id };
    assert_eq!(to_api_body_id(body), BodyIdLayout { owner: 11, index: 3 });
    assert_eq!(to_rustc_body_id(to_api_body_id(body)), body);
    assert_eq!(to_var_id(hir_id), VarIdLayout { owner: 11, index: 3 });
    assert_eq!(to_hir_id(to_var_id(hir_id)), hir_id);
}
