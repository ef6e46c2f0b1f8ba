//! Operators, qualifiers and visibilities as rustc writes them, and as
//! Marker's API reports them.

use vstd::prelude::*;
use crate::ids::{DefId, ItemIdLayout, LOCAL_CRATE};

verus! {

/// rustc's binary operators.
#[derive(Clone, Copy, Debug, PartialEq, Eq, Structural)]
pub enum RustcBinOp {
    Add, Sub, Mul, Div, Rem, And, Or, BitXor, BitAnd, BitOr, Shl, Shr, Eq, Lt, Le, Ne, Ge, Gt,
}

/// The API's binary operators.
#[derive(Clone, Copy, Debug, PartialEq, Eq, Structural)]
pub enum BinaryOpKind {
    Add, Sub, Mul, Div, Rem, And, Or, BitXor, BitAnd, BitOr, Shl, Shr, Eq, Lesser, LesserEq, NotEq,
    GreaterEq, Greater,
}

/// The API operator of a rustc binary operator.
pub open spec fn binary_op_of(op: RustcBinOp) -> BinaryOpKind {
    match op {
        RustcBinOp::Add => BinaryOpKind::Add,
        RustcBinOp::Sub => BinaryOpKind::Sub,
        RustcBinOp::Mul => BinaryOpKind::Mul,
        RustcBinOp::Div => BinaryOpKind::Div,
        RustcBinOp::Rem => BinaryOpKind::Rem,
        RustcBinOp::And => BinaryOpKind::And,
        RustcBinOp::Or => BinaryOpKind::Or,
        RustcBinOp::BitXor => BinaryOpKind::BitXor,
        RustcBinOp::BitAnd => BinaryOpKind::BitAnd,
        RustcBinOp::BitOr => BinaryOpKind::BitOr,
        RustcBinOp::Shl => BinaryOpKind::Shl,
        RustcBinOp::Shr => BinaryOpKind::Shr,
        RustcBinOp::Eq => BinaryOpKind::Eq,
        RustcBinOp::Lt => BinaryOpKind::Lesser,
        RustcBinOp::Le => BinaryOpKind::LesserEq,
        RustcBinOp::Ne => BinaryOpKind::NotEq,
        RustcBinOp::Ge => BinaryOpKind::GreaterEq,
        RustcBinOp::Gt => BinaryOpKind::Greater,
    }
}

/// The API operator of a rustc binary operator.
pub fn to_bin_op_kind(op: RustcBinOp) -> (r: BinaryOpKind)
    ensures
        r == binary_op_of(op),
{
    match op {
        RustcBinOp::Add => BinaryOpKind::Add,
        RustcBinOp::Sub => BinaryOpKind::Sub,
        RustcBinOp::Mul => BinaryOpKind::Mul,
        RustcBinOp::Div => BinaryOpKind::Div,
        RustcBinOp::Rem => BinaryOpKind::Rem,
        RustcBinOp::And => BinaryOpKind::And,
        RustcBinOp::Or => BinaryOpKind::Or,
        RustcBinOp::BitXor => BinaryOpKind::BitXor,
        RustcBinOp::BitAnd => BinaryOpKind::BitAnd,
        RustcBinOp::BitOr => BinaryOpKind::BitOr,
        RustcBinOp::Shl => BinaryOpKind::Shl,
        RustcBinOp::Shr => BinaryOpKind::Shr,
        RustcBinOp::Eq => BinaryOpKind::Eq,
        RustcBinOp::Lt => BinaryOpKind::Lesser,
        RustcBinOp::Le => BinaryOpKind::LesserEq,
        RustcBinOp::Ne => BinaryOpKind::NotEq,
        RustcBinOp::Ge => BinaryOpKind::GreaterEq,
        RustcBinOp::Gt => BinaryOpKind::Greater,
    }
}

/// Every binary operator keeps its identity: distinct rustc operators are
/// reported as distinct API operators, and every API operator is reported.
pub proof fn law_binary_ops_one_to_one(a: RustcBinOp, b: RustcBinOp, k: BinaryOpKind)
    ensures
        binary_op_of(a) == binary_op_of(b) ==> a == b,
        exists|op: RustcBinOp| binary_op_of(op) == k,
{
    let w = match k {
        BinaryOpKind::Add => RustcBinOp::Add,
        BinaryOpKind::Sub => RustcBinOp::Sub,
        BinaryOpKind::Mul => RustcBinOp::Mul,
        BinaryOpKind::Div => RustcBinOp::Div,
        BinaryOpKind::Rem => RustcBinOp::Rem,
        BinaryOpKind::And => RustcBinOp::And,
        BinaryOpKind::Or => RustcBinOp::Or,
        BinaryOpKind::BitXor => RustcBinOp::BitXor,
        BinaryOpKind::BitAnd => RustcBinOp::BitAnd,
        BinaryOpKind::BitOr => RustcBinOp::BitOr,
        BinaryOpKind::Shl => RustcBinOp::Shl,
        BinaryOpKind::Shr => RustcBinOp::Shr,
        BinaryOpKind::Eq => RustcBinOp::Eq,
        BinaryOpKind::Lesser => RustcBinOp::Lt,
        BinaryOpKind::LesserEq => RustcBinOp::Le,
        BinaryOpKind::NotEq => RustcBinOp::Ne,
        BinaryOpKind::GreaterEq => RustcBinOp::Ge,
        BinaryOpKind::Greater => RustcBinOp::Gt,
    };
    assert(binary_op_of(w) == k);
}

/// rustc's unary operators.
#[derive(Clone, Copy, Debug, PartialEq, Eq, Structural)]
pub enum RustcUnOp {
    Deref,
    Not,
    Neg,
}

/// The API's unary operators.
#[derive(Clone, Copy, Debug, PartialEq, Eq, Structural)]
pub enum UnaryOpKind {
    Neg,
    Not,
    Deref,
}

/// The API operator of a rustc unary operator.
pub open spec fn unary_op_of(op: RustcUnOp) -> UnaryOpKind {
    match op {
        RustcUnOp::Neg => UnaryOpKind::Neg,
        RustcUnOp::Not => UnaryOpKind::Not,
        RustcUnOp::Deref => UnaryOpKind::Deref,
    }
}

/// The API operator of a rustc unary operator.
pub fn to_unary_op_kind(op: RustcUnOp) -> (r: UnaryOpKind)
    ensures
        r == unary_op_of(op),
{
    match op {
        RustcUnOp::Neg => UnaryOpKind::Neg,
        RustcUnOp::Not => UnaryOpKind::Not,
        RustcUnOp::Deref => UnaryOpKind::Deref,
    }
}

/// rustc's mutability of places and references.
#[derive(Clone, Copy, Debug, PartialEq, Eq, Structural)]
pub enum RustcMutability {
    Not,
    Mut,
}

/// The API's mutability.
#[derive(Clone, Copy, Debug, PartialEq, Eq, Structural)]
pub enum Mutability {
    Unmut,
    Mut,
}

/// The API mutability of a rustc mutability.
pub open spec fn mutability_of(mutability: RustcMutability) -> Mutability {
    match mutability {
        RustcMutability::Not => Mutability::Unmut,
        RustcMutability::Mut => Mutability::Mut,
    }
}

/// The API mutability of a rustc mutability.
pub fn to_mutability(mutability: RustcMutability) -> (r: Mutability)
    ensures
        r == mutability_of(mutability),
{
    match mutability {
        RustcMutability::Not => Mutability::Unmut,
        RustcMutability::Mut => Mutability::Mut,
    }
}

/// rustc's `Unsafety`.
#[derive(Clone, Copy, Debug, PartialEq, Eq, Structural)]
pub enum RustcUnsafety {
    Normal,
    Unsafe,
}

/// The API's safety.
#[derive(Clone, Copy, Debug, PartialEq, Eq, Structural)]
pub enum Safety {
    Safe,
    Unsafe,
}

/// The API safety of a rustc unsafety.
pub open spec fn safety_of(safety: RustcUnsafety) -> Safety {
    match safety {
        RustcUnsafety::Normal => Safety::Safe,
        RustcUnsafety::Unsafe => Safety::Unsafe,
    }
}

/// The API safety of a rustc unsafety.
pub fn to_safety(safety: RustcUnsafety) -> (r: Safety)
    ensures
        r == safety_of(safety),
{
    match safety {
        RustcUnsafety::Normal => Safety::Safe,
        RustcUnsafety::Unsafe => Safety::Unsafe,
    }
}

/// rustc's constness.
#[derive(Clone, Copy, Debug, PartialEq, Eq, Structural)]
pub enum RustcConstness {
    Const,
    NotConst,
}

/// The API's constness.
#[derive(Clone, Copy, Debug, PartialEq, Eq, Structural)]
pub enum Constness {
    Const,
    NotConst,
}

/// The API constness of a rustc constness.
pub open spec fn constness_of(constness: RustcConstness) -> Constness {
    match constness {
        RustcConstness::Const => Constness::Const,
        RustcConstness::NotConst => Constness::NotConst,
    }
}

/// The API constness of a rustc constness.
pub fn to_constness(constness: RustcConstness) -> (r: Constness)
    ensures
        r == constness_of(constness),
{
    match constness {
        RustcConstness::Const => Constness::Const,
        RustcConstness::NotConst => Constness::NotConst,
    }
}

/// rustc's `IsAsync`.
#[derive(Clone, Copy, Debug, PartialEq, Eq, Structural)]
pub enum RustcIsAsync {
    Async,
    NotAsync,
}

/// The API's syncness.
#[derive(Clone, Copy, Debug, PartialEq, Eq, Structural)]
pub enum Syncness {
    Sync,
    Async,
}

/// The API syncness of a rustc `IsAsync`.
pub open spec fn syncness_of(syncness: RustcIsAsync) -> Syncness {
    match syncness {
        RustcIsAsync::Async => Syncness::Async,
        RustcIsAsync::NotAsync => Syncness::Sync,
    }
}

/// The API syncness of a rustc `IsAsync`.
pub fn to_syncness(syncness: RustcIsAsync) -> (r: Syncness)
    ensures
        r == syncness_of(syncness),
{
    match syncness {
        RustcIsAsync::Async => Syncness::Async,
        RustcIsAsync::NotAsync => Syncness::Sync,
    }
}

/// rustc's ABIs, as far as the API tells them apart.
#[derive(Clone, Copy, Debug, PartialEq, Eq, Structural)]
pub enum RustcAbi {
    Rust,
    /// `extern "C"`, unwinding or not.
    C,
    /// Any other ABI.
    Other,
}

/// The API's ABIs.
#[derive(Clone, Copy, Debug, PartialEq, Eq, Structural)]
pub enum Abi {
    Default,
    C,
    Other,
}

/// The API ABI of a rustc ABI.
pub open spec fn abi_of(abi: RustcAbi) -> Abi {
    match abi {
        RustcAbi::Rust => Abi::Default,
        RustcAbi::C => Abi::C,
        RustcAbi::Other => Abi::Other,
    }
}

/// The API ABI of a rustc ABI.
pub fn to_abi(abi: RustcAbi) -> (r: Abi)
    ensures
        r == abi_of(abi),
{
    match abi {
        RustcAbi::Rust => Abi::Default,
        RustcAbi::C => Abi::C,
        _ => Abi::Other,
    }
}

/// rustc's signed integer types.
#[derive(Clone, Copy, Debug, PartialEq, Eq, Structural)]
pub enum IntTy {
    Isize, I8, I16, I32, I64, I128,
}

/// rustc's unsigned integer types.
#[derive(Clone, Copy, Debug, PartialEq, Eq, Structural)]
pub enum UintTy {
    Usize, U8, U16, U32, U64, U128,
}

/// rustc's floating point types.
#[derive(Clone, Copy, Debug, PartialEq, Eq, Structural)]
pub enum FloatTy {
    F32,
    F64,
}

/// rustc's primitive types.
#[derive(Clone, Copy, Debug, PartialEq, Eq, Structural)]
pub enum RustcPrimTy {
    Int(IntTy),
    Uint(UintTy),
    Float(FloatTy),
    Str,
    Bool,
    Char,
}

/// The API's numeric types.
#[derive(Clone, Copy, Debug, PartialEq, Eq, Structural)]
pub enum NumKind {
    Isize, I8, I16, I32, I64, I128, Usize, U8, U16, U32, U64, U128, F32, F64,
}

/// The API's textual types.
#[derive(Clone, Copy, Debug, PartialEq, Eq, Structural)]
pub enum TextKind {
    Str,
    Char,
}

/// The API's syntactic type of a primitive type.
#[derive(Clone, Copy, Debug, PartialEq, Eq, Structural)]
pub enum PrimTyKind {
    Num(NumKind),
    Text(TextKind),
    Bool,
}

/// The API numeric type of a signed integer type.
pub open spec fn int_num_kind(t: IntTy) -> NumKind {
    match t {
        IntTy::Isize => NumKind::Isize,
        IntTy::I8 => NumKind::I8,
        IntTy::I16 => NumKind::I16,
        IntTy::I32 => NumKind::I32,
        IntTy::I64 => NumKind::I64,
        IntTy::I128 => NumKind::I128,
    }
}

/// The API numeric type of an unsigned integer type.
pub open spec fn uint_num_kind(t: UintTy) -> NumKind {
    match t {
        UintTy::Usize => NumKind::Usize,
        UintTy::U8 => NumKind::U8,
        UintTy::U16 => NumKind::U16,
        UintTy::U32 => NumKind::U32,
        UintTy::U64 => NumKind::U64,
        UintTy::U128 => NumKind::U128,
    }
}

/// The API type of a rustc primitive type.
pub open spec fn prim_ty_kind_of(ty: RustcPrimTy) -> PrimTyKind {
    match ty {
        RustcPrimTy::Int(t) => PrimTyKind::Num(int_num_kind(t)),
        RustcPrimTy::Uint(t) => PrimTyKind::Num(uint_num_kind(t)),
        RustcPrimTy::Float(FloatTy::F32) => PrimTyKind::Num(NumKind::F32),
        RustcPrimTy::Float(FloatTy::F64) => PrimTyKind::Num(NumKind::F64),
        RustcPrimTy::Str => PrimTyKind::Text(TextKind::Str),
        RustcPrimTy::Bool => PrimTyKind::Bool,
        RustcPrimTy::Char => PrimTyKind::Text(TextKind::Char),
    }
}

fn to_int_num_kind(t: IntTy) -> (r: NumKind)
    ensures
        r == int_num_kind(t),
{
    match t {
        IntTy::Isize => NumKind::Isize,
        IntTy::I8 => NumKind::I8,
        IntTy::I16 => NumKind::I16,
        IntTy::I32 => NumKind::I32,
        IntTy::I64 => NumKind::I64,
        IntTy::I128 => NumKind::I128,
    }
}

fn to_uint_num_kind(t: UintTy) -> (r: NumKind)
    ensures
        r == uint_num_kind(t),
{
    match t {
        UintTy::Usize => NumKind::Usize,
        UintTy::U8 => NumKind::U8,
        UintTy::U16 => NumKind::U16,
        UintTy::U32 => NumKind::U32,
        UintTy::U64 => NumKind::U64,
        UintTy::U128 => NumKind::U128,
    }
}

/// The API type of a rustc primitive type.
pub fn to_prim_ty_kind(ty: RustcPrimTy) -> (r: PrimTyKind)
    ensures
        r == prim_ty_kind_of(ty),
{
    match ty {
        RustcPrimTy::Int(t) => PrimTyKind::Num(to_int_num_kind(t)),
        RustcPrimTy::Uint(t) => PrimTyKind::Num(to_uint_num_kind(t)),
        RustcPrimTy::Float(FloatTy::F32) => PrimTyKind::Num(NumKind::F32),
        RustcPrimTy::Float(FloatTy::F64) => PrimTyKind::Num(NumKind::F64),
        RustcPrimTy::Str => PrimTyKind::Text(TextKind::Str),
        RustcPrimTy::Bool => PrimTyKind::Bool,
        RustcPrimTy::Char => PrimTyKind::Text(TextKind::Char),
    }
}

/// Distinct primitive types are reported as distinct API types.
pub proof fn law_prim_tys_one_to_one(a: RustcPrimTy, b: RustcPrimTy)
    ensures
        prim_ty_kind_of(a) == prim_ty_kind_of(b) ==> a == b,
{
}

/// The type written as the suffix of an integer literal.
#[derive(Clone, Copy, Debug, PartialEq, Eq, Structural)]
pub enum LitIntType {
    Signed(IntTy),
    Unsigned(UintTy),
    Unsuffixed,
}

/// The API's integer literal suffixes.
#[derive(Clone, Copy, Debug, PartialEq, Eq, Structural)]
pub enum IntSuffix {
    Isize, I8, I16, I32, I64, I128, Usize, U8, U16, U32, U64, U128,
}

/// The API suffix of an integer literal.
pub open spec fn int_suffix_of(kind: LitIntType) -> Option<IntSuffix> {
    match kind {
        LitIntType::Signed(IntTy::Isize) => Some(IntSuffix::Isize),
        LitIntType::Signed(IntTy::I8) => Some(IntSuffix::I8),
        LitIntType::Signed(IntTy::I16) => Some(IntSuffix::I16),
        LitIntType::Signed(IntTy::I32) => Some(IntSuffix::I32),
        LitIntType::Signed(IntTy::I64) => Some(IntSuffix::I64),
        LitIntType::Signed(IntTy::I128) => Some(IntSuffix::I128),
        LitIntType::Unsigned(UintTy::Usize) => Some(IntSuffix::Usize),
        LitIntType::Unsigned(UintTy::U8) => Some(IntSuffix::U8),
        LitIntType::Unsigned(UintTy::U16) => Some(IntSuffix::U16),
        LitIntType::Unsigned(UintTy::U32) => Some(IntSuffix::U32),
        LitIntType::Unsigned(UintTy::U64) => Some(IntSuffix::U64),
        LitIntType::Unsigned(UintTy::U128) => Some(IntSuffix::U128),
        LitIntType::Unsuffixed => None,
    }
}

/// The API suffix of an integer literal; `None` for an unsuffixed literal.
pub fn to_int_suffix(kind: LitIntType) -> (r: Option<IntSuffix>)
    ensures
        r == int_suffix_of(kind),
{
    match kind {
        LitIntType::Signed(IntTy::Isize) => Some(IntSuffix::Isize),
        LitIntType::Signed(IntTy::I8) => Some(IntSuffix::I8),
        LitIntType::Signed(IntTy::I16) => Some(IntSuffix::I16),
        LitIntType::Signed(IntTy::I32) => Some(IntSuffix::I32),
        LitIntType::Signed(IntTy::I64) => Some(IntSuffix::I64),
        LitIntType::Signed(IntTy::I128) => Some(IntSuffix::I128),
        LitIntType::Unsigned(UintTy::Usize) => Some(IntSuffix::Usize),
        LitIntType::Unsigned(UintTy::U8) => Some(IntSuffix::U8),
        LitIntType::Unsigned(UintTy::U16) => Some(IntSuffix::U16),
        LitIntType::Unsigned(UintTy::U32) => Some(IntSuffix::U32),
        LitIntType::Unsigned(UintTy::U64) => Some(IntSuffix::U64),
        LitIntType::Unsigned(UintTy::U128) => Some(IntSuffix::U128),
        LitIntType::Unsuffixed => None,
    }
}

/// The float type written as the suffix of a float literal.
#[derive(Clone, Copy, Debug, PartialEq, Eq, Structural)]
pub enum LitFloatType {
    Suffixed(FloatTy),
    Unsuffixed,
}

/// The API's float literal suffixes.
#[derive(Clone, Copy, Debug, PartialEq, Eq, Structural)]
pub enum FloatSuffix {
    F32,
    F64,
}

/// The API suffix of a float literal.
pub open spec fn float_suffix_of(kind: LitFloatType) -> Option<FloatSuffix> {
    match kind {
        LitFloatType::Suffixed(FloatTy::F32) => Some(FloatSuffix::F32),
        LitFloatType::Suffixed(FloatTy::F64) => Some(FloatSuffix::F64),
        LitFloatType::Unsuffixed => None,
    }
}

/// The API suffix of a float literal; `None` for an unsuffixed literal.
pub fn to_float_suffix(kind: LitFloatType) -> (r: Option<FloatSuffix>)
    ensures
        r == float_suffix_of(kind),
{
    match kind {
        LitFloatType::Suffixed(FloatTy::F32) => Some(FloatSuffix::F32),
        LitFloatType::Suffixed(FloatTy::F64) => Some(FloatSuffix::F64),
        LitFloatType::Unsuffixed => None,
    }
}

/// rustc's visibility of a definition.
#[derive(Clone, Copy, Debug, PartialEq, Eq, Structural)]
pub enum RustcVisibility {
    Public,
    /// Visible within the module with this `DefId`.
    Restricted(DefId),
}

/// The API's semantic visibility.
#[derive(Clone, Copy, Debug, PartialEq, Eq, Structural)]
pub enum VisibilityKind {
    /// `pub`
    Public,
    /// `pub(crate)`, written out.
    Crate(ItemIdLayout),
    /// Visible in the whole crate without being written (items at the crate root).
    DefaultCrate(ItemIdLayout),
    /// `pub(in path)`, written out.
    Path(ItemIdLayout),
    /// Visible in the enclosing module without being written.
    Default(ItemIdLayout),
}

/// The `DefId` of the crate root of the local crate (`CRATE_DEF_ID`).
pub open spec fn crate_root() -> DefId {
    DefId { krate: LOCAL_CRATE, index: 0 }
}

/// The API item id of a rustc definition.
pub open spec fn item_id_of(d: DefId) -> ItemIdLayout {
    ItemIdLayout { krate: d.krate, index: d.index }
}

/// The API visibility of an item with the rustc visibility `vis`;
/// `has_span` tells whether the visibility is written in the source.
pub open spec fn sem_visibility_of(vis: RustcVisibility, has_span: bool) -> VisibilityKind {
    match vis {
        RustcVisibility::Public => VisibilityKind::Public,
        RustcVisibility::Restricted(id) => if id == crate_root() {
            if has_span { VisibilityKind::Crate(item_id_of(id)) } else { VisibilityKind::DefaultCrate(item_id_of(id)) }
        } else {
            if has_span { VisibilityKind::Path(item_id_of(id)) } else { VisibilityKind::Default(item_id_of(id)) }
        },
    }
}

/// The API visibility of an item with the rustc visibility `vis`;
/// `has_span` tells whether the visibility is written in the source.
pub fn to_sem_visibility(vis: RustcVisibility, has_span: bool) -> (r: VisibilityKind)
    ensures
        r == sem_visibility_of(vis, has_span),
{
    match vis {
        RustcVisibility::Public => VisibilityKind::Public,
        RustcVisibility::Restricted(id) => {
            let item = ItemIdLayout { krate: id.krate, index: id.index };
            if id.krate == LOCAL_CRATE && id.index == 0 {
                if has_span {
                    VisibilityKind::Crate(item)
                } else {
                    VisibilityKind::DefaultCrate(item)
                }
            } else if has_span {
                VisibilityKind::Path(item)
            } else {
                VisibilityKind::Default(item)
            }
        },
    }
}


/// Every rustc binary operator is reported as the API operator that means
/// the same: `+` as `Add`, `<` as `Lesser`, and so on for each of them.
pub proof fn law_binary_ops_keep_their_meaning()
    ensures
        binary_op_of(RustcBinOp::Add) == BinaryOpKind::Add,
        binary_op_of(RustcBinOp::Sub) == BinaryOpKind::Sub,
        binary_op_of(RustcBinOp::Mul) == BinaryOpKind::Mul,
        binary_op_of(RustcBinOp::Div) == BinaryOpKind::Div,
        binary_op_of(RustcBinOp::Rem) == BinaryOpKind::Rem,
        binary_op_of(RustcBinOp::And) == BinaryOpKind::And,
        binary_op_of(RustcBinOp::Or) == BinaryOpKind::Or,
        binary_op_of(RustcBinOp::BitXor) == BinaryOpKind::BitXor,
        binary_op_of(RustcBinOp::BitAnd) == BinaryOpKind::BitAnd,
        binary_op_of(RustcBinOp::BitOr) == BinaryOpKind::BitOr,
        binary_op_of(RustcBinOp::Shl) == BinaryOpKind::Shl,
        binary_op_of(RustcBinOp::Shr) == BinaryOpKind::Shr,
        binary_op_of(RustcBinOp::Eq) == BinaryOpKind::Eq,
        binary_op_of(RustcBinOp::Lt) == BinaryOpKind::Lesser,
        binary_op_of(RustcBinOp::Le) == BinaryOpKind::LesserEq,
        binary_op_of(RustcBinOp::Ne) == BinaryOpKind::NotEq,
        binary_op_of(RustcBinOp::Ge) == BinaryOpKind::GreaterEq,
        binary_op_of(RustcBinOp::Gt) == BinaryOpKind::Greater,
{
}

/// Unary operators and the qualifiers of items keep their meaning: `-` is
/// `Neg`, `mut` is `Mut`, `unsafe` is `Unsafe`, `const` is `Const`, `async`
/// is `Async`, the Rust ABI is the default one and `extern "C"` is `C`.
pub proof fn law_qualifiers_keep_their_meaning()
    ensures
        unary_op_of(RustcUnOp::Neg) == UnaryOpKind::Neg,
        unary_op_of(RustcUnOp::Not) == UnaryOpKind::Not,
        unary_op_of(RustcUnOp::Deref) == UnaryOpKind::Deref,
        mutability_of(RustcMutability::Not) == Mutability::Unmut,
        mutability_of(RustcMutability::Mut) == Mutability::Mut,
        safety_of(RustcUnsafety::Normal) == Safety::Safe,
        safety_of(RustcUnsafety::Unsafe) == Safety::Unsafe,
        constness_of(RustcConstness::Const) == Constness::Const,
        constness_of(RustcConstness::NotConst) == Constness::NotConst,
        syncness_of(RustcIsAsync::Async) == Syncness::Async,
        syncness_of(RustcIsAsync::NotAsync) == Syncness::Sync,
        abi_of(RustcAbi::Rust) == Abi::Default,
        abi_of(RustcAbi::C) == Abi::C,
        abi_of(RustcAbi::Other) == Abi::Other,
{
}

/// Every primitive type is reported as the API type of the same name: `i8`
/// as `I8`, `u128` as `U128`, `f32` as `F32`, `str` and `char` as text,
/// `bool` as `Bool`.
pub proof fn law_prim_tys_keep_their_names()
    ensures
        prim_ty_kind_of(RustcPrimTy::Int(IntTy::Isize)) == PrimTyKind::Num(NumKind::Isize),
        prim_ty_kind_of(RustcPrimTy::Int(IntTy::I8)) == PrimTyKind::Num(NumKind::I8),
        prim_ty_kind_of(RustcPrimTy::Int(IntTy::I16)) == PrimTyKind::Num(NumKind::I16),
        prim_ty_kind_of(RustcPrimTy::Int(IntTy::I32)) == PrimTyKind::Num(NumKind::I32),
        prim_ty_kind_of(RustcPrimTy::Int(IntTy::I64)) == PrimTyKind::Num(NumKind::I64),
        prim_ty_kind_of(RustcPrimTy::Int(IntTy::I128)) == PrimTyKind::Num(NumKind::I128),
        prim_ty_kind_of(RustcPrimTy::Uint(UintTy::Usize)) == PrimTyKind::Num(NumKind::Usize),
        prim_ty_kind_of(RustcPrimTy::Uint(UintTy::U8)) == PrimTyKind::Num(NumKind::U8),
        prim_ty_kind_of(RustcPrimTy::Uint(UintTy::U16)) == PrimTyKind::Num(NumKind::U16),
        prim_ty_kind_of(RustcPrimTy::Uint(UintTy::U32)) == PrimTyKind::Num(NumKind::U32),
        prim_ty_kind_of(RustcPrimTy::Uint(UintTy::U64)) == PrimTyKind::Num(NumKind::U64),
        prim_ty_kind_of(RustcPrimTy::Uint(UintTy::U128)) == PrimTyKind::Num(NumKind::U128),
        prim_ty_kind_of(RustcPrimTy::Float(FloatTy::F32)) == PrimTyKind::Num(NumKind::F32),
        prim_ty_kind_of(RustcPrimTy::Float(FloatTy::F64)) == PrimTyKind::Num(NumKind::F64),
        prim_ty_kind_of(RustcPrimTy::Str) == PrimTyKind::Text(TextKind::Str),
        prim_ty_kind_of(RustcPrimTy::Char) == PrimTyKind::Text(TextKind::Char),
        prim_ty_kind_of(RustcPrimTy::Bool) == PrimTyKind::Bool,
{
}

/// A suffixed literal keeps its suffix: `1i64` has the suffix `I64`, `1u8`
/// the suffix `U8`, `1.0f32` the suffix `F32`; an unsuffixed literal has none.
pub proof fn law_literal_suffixes_keep_their_names()
    ensures
        int_suffix_of(LitIntType::Signed(IntTy::Isize)) == Some(IntSuffix::Isize),
        int_suffix_of(LitIntType::Signed(IntTy::I8)) == Some(IntSuffix::I8),
        int_suffix_of(LitIntType::Signed(IntTy::I16)) == Some(IntSuffix::I16),
        int_suffix_of(LitIntType::Signed(IntTy::I32)) == Some(IntSuffix::I32),
        int_suffix_of(LitIntType::Signed(IntTy::I64)) == Some(IntSuffix::I64),
        int_suffix_of(LitIntType::Signed(IntTy::I128)) == Some(IntSuffix::I128),
        int_suffix_of(LitIntType::Unsigned(UintTy::Usize)) == Some(IntSuffix::Usize),
        int_suffix_of(LitIntType::Unsigned(UintTy::U8)) == Some(IntSuffix::U8),
        int_suffix_of(LitIntType::Unsigned(UintTy::U16)) == Some(IntSuffix::U16),
        int_suffix_of(LitIntType::Unsigned(UintTy::U32)) == Some(IntSuffix::U32),
        int_suffix_of(LitIntType::Unsigned(UintTy::U64)) == Some(IntSuffix::U64),
        int_suffix_of(LitIntType::Unsigned(UintTy::U128)) == Some(IntSuffix::U128),
        int_suffix_of(LitIntType::Unsuffixed) == None::<IntSuffix>,
        float_suffix_of(LitFloatType::Suffixed(FloatTy::F32)) == Some(FloatSuffix::F32),
        float_suffix_of(LitFloatType::Suffixed(FloatTy::F64)) == Some(FloatSuffix::F64),
        float_suffix_of(LitFloatType::Unsuffixed) == None::<FloatSuffix>,
{
}

/// A visibility keeps the module it is restricted to: `pub` is public; a
/// visibility restricted to a module names that module's item (same crate and
/// index), as `pub(crate)` for the crate root and `pub(in path)` elsewhere
/// when written, and as the default visibility when not.
pub proof fn law_visibility_keeps_its_module(d: DefId, has_span: bool)
    ensures
        sem_visibility_of(RustcVisibility::Public, has_span) == VisibilityKind::Public,
        ({
            let item = ItemIdLayout { krate: d.krate, index: d.index };
            let root = d.krate == LOCAL_CRATE && d.index == 0;
            let v = sem_visibility_of(RustcVisibility::Restricted(d), has_span);
            &&& root && has_span ==> v == VisibilityKind::Crate(item)
            &&& root && !has_span ==> v == VisibilityKind::DefaultCrate(item)
            &&& !root && has_span ==> v == VisibilityKind::Path(item)
            &&& !root && !has_span ==> v == VisibilityKind::Default(item)
        }),
{
}

} // verus!
