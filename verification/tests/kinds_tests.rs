use marker_driver::kinds::{
    to_float_suffix, to_int_suffix, to_prim_ty_kind, FloatSuffix, FloatTy, IntSuffix, IntTy, LitFloatType, LitIntType,
    NumKind, PrimTyKind, RustcPrimTy, TextKind, UintTy,
};
use marker_driver::ids::{DefId, ItemIdLayout};
use marker_driver::kinds::{
    to_abi, to_bin_op_kind, to_constness, to_mutability, to_safety, to_sem_visibility, to_syncness, to_unary_op_kind, Abi,
    BinaryOpKind, Constness, Mutability, RustcAbi, RustcBinOp, RustcConstness, RustcIsAsync, RustcMutability,
    RustcUnOp, RustcUnsafety, RustcVisibility, Safety, Syncness, UnaryOpKind, VisibilityKind,
};

#[test]
fn operators() {
    assert_eq!(to_bin_op_kind(RustcBinOp::Lt), BinaryOpKind::Lesser);
    assert_eq!(to_bin_op_kind(RustcBinOp::Le), BinaryOpKind::LesserEq);
    assert_eq!(to_bin_op_kind(RustcBinOp::Ne), BinaryOpKind::NotEq);
    assert_eq!(to_bin_op_kind(RustcBinOp::Ge), BinaryOpKind::GreaterEq);
    assert_eq!(to_bin_op_kind(RustcBinOp::Gt), BinaryOpKind::Greater);
    assert_eq!(to_bin_op_kind(RustcBinOp::Shl), BinaryOpKind::Shl);
    assert_eq!(to_unary_op_kind(RustcUnOp::Deref), UnaryOpKind::Deref);
    assert_eq!(to_unary_op_kind(RustcUnOp::Neg), UnaryOpKind::Neg);
}

#[test]
fn qualifiers() {
    assert_eq!(to_mutability(RustcMutability::Not), Mutability::Unmut);
    assert_eq!(to_mutability(RustcMutability::Mut), Mutability::Mut);
    assert_eq!(to_safety(RustcUnsafety::Normal), Safety::Safe);
    assert_eq!(to_safety(RustcUnsafety::Unsafe), Safety::Unsafe);
    assert_eq!(to_constness(RustcConstness::Const), Constness::Const);
    assert_eq!(to_syncness(RustcIsAsync::NotAsync), Syncness::Sync);
    assert_eq!(to_syncness(RustcIsAsync::Async), Syncness::Async);
    assert_eq!(to_abi(RustcAbi::Rust), Abi::Default);
    assert_eq!(to_abi(RustcAbi::C), Abi::C);
    assert_eq!(to_abi(RustcAbi::Other), Abi::Other);
}

#[test]
fn visibilities() {
    let root = DefId { krate: 0, index: 0 };
    let module = DefId { krate: 0, index: 12 };
    assert_eq!(to_sem_visibility(RustcVisibility::Public, true), VisibilityKind::Public);
    assert_eq!(to_sem_visibility(RustcVisibility::Restricted(root), true), VisibilityKind::Crate(ItemIdLayout { krate: 0, index: 0 }));
    assert_eq!(
        to_sem_visibility(RustcVisibility::Restricted(root), false),
        VisibilityKind::DefaultCrate(ItemIdLayout { krate: 0, index: 0 })
    );
    assert_eq!(
        to_sem_visibility(RustcVisibility::Restricted(module), true),
        VisibilityKind::Path(ItemIdLayout { krate: 0, index: 12 })
    );
    assert_eq!(
        to_sem_visibility(RustcVisibility::Restricted(module), false),
        VisibilityKind::Default(ItemIdLayout { krate: 0, index: 12 })
    );
}

#[test]
fn primitive_types() {
    assert_eq!(to_prim_ty_kind(RustcPrimTy::Int(IntTy::I32)), PrimTyKind::Num(NumKind::I32));
    assert_eq!(to_prim_ty_kind(RustcPrimTy::Uint(UintTy::Usize)), PrimTyKind::Num(NumKind::Usize));
    assert_eq!(to_prim_ty_kind(RustcPrimTy::Float(FloatTy::F64)), PrimTyKind::Num(NumKind::F64));
    assert_eq!(to_prim_ty_kind(RustcPrimTy::Str), PrimTyKind::Text(TextKind::Str));
    assert_eq!(to_prim_ty_kind(RustcPrimTy::Char), PrimTyKind::Text(TextKind::Char));
    assert_eq!(to_prim_ty_kind(RustcPrimTy::Bool), PrimTyKind::Bool);
}

#[test]
fn literal_suffixes() {
    assert_eq!(to_int_suffix(LitIntType::Signed(IntTy::I128)), Some(IntSuffix::I128));
    assert_eq!(to_int_suffix(LitIntType::Unsigned(UintTy::U8)), Some(IntSuffix::U8));
    assert_eq!(to_int_suffix(LitIntType::Unsuffixed), None);
    assert_eq!(to_float_suffix(LitFloatType::Suffixed(FloatTy::F32)), Some(FloatSuffix::F32));
    assert_eq!(to_float_suffix(LitFloatType::Unsuffixed), None);
}
