//! Typed values: a closed tagged union over scalars, vectors, tokens, asset
//! paths and homogeneous arrays. Floating-point payloads are held as their
//! IEEE-754 bit patterns.
use vstd::prelude::*;
use crate::sdf;
use crate::tf;

verus! {

/// A 32-bit float, as its bit pattern.
#[derive(PartialEq, Eq, Structural, Clone, Copy, Debug)]
pub struct Float {
    pub bits: u32,
}

/// A 64-bit float, as its bit pattern.
#[derive(PartialEq, Eq, Structural, Clone, Copy, Debug)]
pub struct Double {
    pub bits: u64,
}

/// A vector of two 32-bit floats, as bit patterns.
#[derive(PartialEq, Eq, Structural, Clone, Copy, Debug)]
pub struct Vec2 {
    pub x: u32,
    pub y: u32,
}

/// A vector of three 32-bit floats, as bit patterns.
#[derive(PartialEq, Eq, Structural, Clone, Copy, Debug)]
pub struct Vec3 {
    pub x: u32,
    pub y: u32,
    pub z: u32,
}

/// A vector of four 32-bit floats, as bit patterns.
#[derive(PartialEq, Eq, Structural, Clone, Copy, Debug)]
pub struct Vec4 {
    pub x: u32,
    pub y: u32,
    pub z: u32,
    pub w: u32,
}

/// An array of 32-bit integers.
pub struct IntArray {
    pub items: Vec<i32>,
}

impl IntArray {
    /// The elements, in order.
    pub fn as_slice(&self) -> (r: &[i32])
        ensures
            r@ == self.items@,
    {
        self.items.as_slice()
    }
}

/// An array of 32-bit floats, as bit patterns.
pub struct FloatArray {
    pub items: Vec<u32>,
}

impl FloatArray {
    /// The elements, in order.
    pub fn as_slice(&self) -> (r: &[u32])
        ensures
            r@ == self.items@,
    {
        self.items.as_slice()
    }
}

/// An array of 64-bit floats, as bit patterns.
pub struct DoubleArray {
    pub items: Vec<u64>,
}

impl DoubleArray {
    /// The elements, in order.
    pub fn as_slice(&self) -> (r: &[u64])
        ensures
            r@ == self.items@,
    {
        self.items.as_slice()
    }
}

/// An array of two-float vectors.
pub struct Vec2Array {
    pub items: Vec<Vec2>,
}

impl Vec2Array {
    /// The elements, in order.
    pub fn as_slice(&self) -> (r: &[Vec2])
        ensures
            r@ == self.items@,
    {
        self.items.as_slice()
    }
}

/// An array of three-float vectors.
pub struct Vec3Array {
    pub items: Vec<Vec3>,
}

impl Vec3Array {
    /// The elements, in order.
    pub fn as_slice(&self) -> (r: &[Vec3])
        ensures
            r@ == self.items@,
    {
        self.items.as_slice()
    }
}

/// An array of four-float vectors.
pub struct Vec4Array {
    pub items: Vec<Vec4>,
}

impl Vec4Array {
    /// The elements, in order.
    pub fn as_slice(&self) -> (r: &[Vec4])
        ensures
            r@ == self.items@,
    {
        self.items.as_slice()
    }
}

/// An array of tokens.
pub struct TokenArray {
    tokens: Vec<tf::Token>,
}

impl View for TokenArray {
    type V = Seq<Seq<char>>;

    closed spec fn view(&self) -> Seq<Seq<char>> {
        self.tokens@.map_values(|t: tf::Token| t@)
    }
}

impl TokenArray {
    /// The array holding the given tokens, in order.
    pub fn from_tokens(tokens: Vec<tf::Token>) -> (r: TokenArray)
        ensures
            r@ == tokens@.map_values(|t: tf::Token| t@),
    {
        TokenArray { tokens }
    }

    /// The number of tokens.
    pub fn len(&self) -> (r: usize)
        ensures
            r == self@.len(),
    {
        self.tokens.len()
    }

    /// The token at `index`, which must be in bounds.
    pub fn at(&self, index: usize) -> (r: &tf::Token)
        requires
            index < self@.len(),
        ensures
            r@ == self@[index as int],
    {
        &self.tokens[index]
    }

    /// A fresh iterator over every index from 0 up to the current length.
    pub fn iter(&self) -> (r: TokenArrayIterator<'_>)
        ensures
            r.wf(),
            r.current() == 0,
            r.end() == self@.len(),
            r.source() == self,
    {
        TokenArrayIterator { vec: self, current: 0, end: self.len() }
    }
}

/// A forward pass over a token array, one index at a time.
pub struct TokenArrayIterator<'a> {
    vec: &'a TokenArray,
    current: usize,
    end: usize,
}

impl<'a> TokenArrayIterator<'a> {
    /// The index the next step yields.
    pub closed spec fn current(&self) -> nat {
        self.current as nat
    }

    /// The length of the array when the pass began.
    pub closed spec fn end(&self) -> nat {
        self.end as nat
    }

    /// The array the pass walks.
    pub closed spec fn source(&self) -> &'a TokenArray {
        self.vec
    }

    /// A pass only walks indices inside its array.
    pub closed spec fn wf(&self) -> bool {
        self.current <= self.end && self.end == self.vec@.len()
    }

    /// The token at the current index, then one step on; nothing once every
    /// index has been yielded.
    pub fn next(&mut self) -> (r: Option<&'a tf::Token>)
        requires
            old(self).wf(),
        ensures
            final(self).wf(),
            final(self).source() == old(self).source(),
            final(self).end() == old(self).end(),
            old(self).current() == old(self).end() ==> r.is_none() && final(self).current()
                == old(self).current(),
            old(self).current() < old(self).end() ==> {
                &&& r matches Some(t) && t@ == old(self).source()@[old(self).current() as int]
                &&& final(self).current() == old(self).current() + 1
            },
    {
        if self.current == self.end {
            None
        } else {
            let cur = self.current;
            self.current = self.current + 1;
            Some(self.vec.at(cur))
        }
    }
}

/// A typed value: empty, or exactly one of the variants.
pub enum Value {
    Empty,
    Bool(bool),
    Int(i32),
    Float(Float),
    Double(Double),
    Vec2(Vec2),
    Vec3(Vec3),
    Vec4(Vec4),
    Token(tf::Token),
    TokenArray(TokenArray),
    IntArray(IntArray),
    FloatArray(FloatArray),
    DoubleArray(DoubleArray),
    Vec2Array(Vec2Array),
    Vec3Array(Vec3Array),
    Vec4Array(Vec4Array),
    AssetPath(sdf::AssetPath),
}

/// Which variant a value holds.
#[derive(PartialEq, Eq, Structural, Clone, Copy, Debug)]
pub enum ValueKind {
    Empty,
    Bool,
    Int,
    Float,
    Double,
    Vec2,
    Vec3,
    Vec4,
    Token,
    TokenArray,
    IntArray,
    FloatArray,
    DoubleArray,
    Vec2Array,
    Vec3Array,
    Vec4Array,
    AssetPath,
}

/// The variant a value holds.
pub open spec fn kind_of(v: Value) -> ValueKind {
    match v {
        Value::Empty => ValueKind::Empty,
        Value::Bool(_) => ValueKind::Bool,
        Value::Int(_) => ValueKind::Int,
        Value::Float(_) => ValueKind::Float,
        Value::Double(_) => ValueKind::Double,
        Value::Vec2(_) => ValueKind::Vec2,
        Value::Vec3(_) => ValueKind::Vec3,
        Value::Vec4(_) => ValueKind::Vec4,
        Value::Token(_) => ValueKind::Token,
        Value::TokenArray(_) => ValueKind::TokenArray,
        Value::IntArray(_) => ValueKind::IntArray,
        Value::FloatArray(_) => ValueKind::FloatArray,
        Value::DoubleArray(_) => ValueKind::DoubleArray,
        Value::Vec2Array(_) => ValueKind::Vec2Array,
        Value::Vec3Array(_) => ValueKind::Vec3Array,
        Value::Vec4Array(_) => ValueKind::Vec4Array,
        Value::AssetPath(_) => ValueKind::AssetPath,
    }
}

impl Value {
    /// A value holding nothing.
    pub fn default() -> (r: Value)
        ensures
            kind_of(r) == ValueKind::Empty,
    {
        Value::Empty
    }

    /// Which variant this value holds.
    pub fn kind(&self) -> (r: ValueKind)
        ensures
            r == kind_of(*self),
    {
        match self {
            Value::Empty => ValueKind::Empty,
            Value::Bool(_) => ValueKind::Bool,
            Value::Int(_) => ValueKind::Int,
            Value::Float(_) => ValueKind::Float,
            Value::Double(_) => ValueKind::Double,
            Value::Vec2(_) => ValueKind::Vec2,
            Value::Vec3(_) => ValueKind::Vec3,
            Value::Vec4(_) => ValueKind::Vec4,
            Value::Token(_) => ValueKind::Token,
            Value::TokenArray(_) => ValueKind::TokenArray,
            Value::IntArray(_) => ValueKind::IntArray,
            Value::FloatArray(_) => ValueKind::FloatArray,
            Value::DoubleArray(_) => ValueKind::DoubleArray,
            Value::Vec2Array(_) => ValueKind::Vec2Array,
            Value::Vec3Array(_) => ValueKind::Vec3Array,
            Value::Vec4Array(_) => ValueKind::Vec4Array,
            Value::AssetPath(_) => ValueKind::AssetPath,
        }
    }

    /// The scalar of type `T` this value holds, if it holds one.
    pub fn get<T: ValueMember>(&self) -> (r: Option<&T>)
        ensures
            r.is_some() == (kind_of(*self) == T::member_kind()),
            r matches Some(m) ==> T::wrap(*m) == *self,
    {
        T::get(self)
    }

    /// The token this value holds, if it holds one.
    pub fn as_token(&self) -> (r: Option<&tf::Token>)
        ensures
            r.is_some() == (kind_of(*self) == ValueKind::Token),
            r matches Some(t) ==> *self == Value::Token(*t),
    {
        match self {
            Value::Token(t) => Some(t),
            _ => None,
        }
    }

    /// The token array this value holds, if it holds one.
    pub fn as_token_array(&self) -> (r: Option<&TokenArray>)
        ensures
            r.is_some() == (kind_of(*self) == ValueKind::TokenArray),
            r matches Some(a) ==> *self == Value::TokenArray(*a),
    {
        match self {
            Value::TokenArray(a) => Some(a),
            _ => None,
        }
    }

    /// The integer array this value holds, if it holds one.
    pub fn as_int_array(&self) -> (r: Option<&IntArray>)
        ensures
            r.is_some() == (kind_of(*self) == ValueKind::IntArray),
            r matches Some(a) ==> *self == Value::IntArray(*a),
    {
        match self {
            Value::IntArray(a) => Some(a),
            _ => None,
        }
    }

    /// The float array this value holds, if it holds one.
    pub fn as_float_array(&self) -> (r: Option<&FloatArray>)
        ensures
            r.is_some() == (kind_of(*self) == ValueKind::FloatArray),
            r matches Some(a) ==> *self == Value::FloatArray(*a),
    {
        match self {
            Value::FloatArray(a) => Some(a),
            _ => None,
        }
    }

    /// The double array this value holds, if it holds one.
    pub fn as_double_array(&self) -> (r: Option<&DoubleArray>)
        ensures
            r.is_some() == (kind_of(*self) == ValueKind::DoubleArray),
            r matches Some(a) ==> *self == Value::DoubleArray(*a),
    {
        match self {
            Value::DoubleArray(a) => Some(a),
            _ => None,
        }
    }

    /// The two-float vector array this value holds, if it holds one.
    pub fn as_vec2_array(&self) -> (r: Option<&Vec2Array>)
        ensures
            r.is_some() == (kind_of(*self) == ValueKind::Vec2Array),
            r matches Some(a) ==> *self == Value::Vec2Array(*a),
    {
        match self {
            Value::Vec2Array(a) => Some(a),
            _ => None,
        }
    }

    /// The three-float vector array this value holds, if it holds one.
    pub fn as_vec3_array(&self) -> (r: Option<&Vec3Array>)
        ensures
            r.is_some() == (kind_of(*self) == ValueKind::Vec3Array),
            r matches Some(a) ==> *self == Value::Vec3Array(*a),
    {
        match self {
            Value::Vec3Array(a) => Some(a),
            _ => None,
        }
    }

    /// The four-float vector array this value holds, if it holds one.
    pub fn as_vec4_array(&self) -> (r: Option<&Vec4Array>)
        ensures
            r.is_some() == (kind_of(*self) == ValueKind::Vec4Array),
            r matches Some(a) ==> *self == Value::Vec4Array(*a),
    {
        match self {
            Value::Vec4Array(a) => Some(a),
            _ => None,
        }
    }

    /// The asset path this value holds, if it holds one.
    pub fn as_asset_path(&self) -> (r: Option<&sdf::AssetPath>)
        ensures
            r.is_some() == (kind_of(*self) == ValueKind::AssetPath),
            r matches Some(a) ==> *self == Value::AssetPath(*a),
    {
        match self {
            Value::AssetPath(a) => Some(a),
            _ => None,
        }
    }
}

/// A scalar type a value can hold: it is stored with `from` and read back
/// with `get`, which fails cleanly on a value of another variant.
pub trait ValueMember: Sized {
    /// The variant that holds this type.
    spec fn member_kind() -> ValueKind;

    /// The value that holds `m`.
    spec fn wrap(m: Self) -> Value;

    /// `wrap` lands in this type's variant and keeps `m` apart from every
    /// other scalar.
    proof fn lemma_wrap(m: Self)
        ensures
            kind_of(Self::wrap(m)) == Self::member_kind(),
            forall|n: Self| #[trigger] Self::wrap(n) == Self::wrap(m) ==> n == m,
    ;

    /// Whether `value` holds this type.
    fn is_holding(value: &Value) -> (r: bool)
        ensures
            r == (kind_of(*value) == Self::member_kind()),
    ;

    /// The scalar `value` holds, if it holds this type.
    fn get(value: &Value) -> (r: Option<&Self>)
        ensures
            r.is_some() == (kind_of(*value) == Self::member_kind()),
            r matches Some(m) ==> Self::wrap(*m) == *value,
    ;

    /// A value holding `member`.
    fn from(member: &Self) -> (r: Value)
        ensures
            r == Self::wrap(*member),
    ;
}

impl ValueMember for i32 {
    open spec fn member_kind() -> ValueKind {
        ValueKind::Int
    }

    open spec fn wrap(m: i32) -> Value {
        Value::Int(m)
    }

    proof fn lemma_wrap(m: i32) {
    }

    fn is_holding(value: &Value) -> (r: bool) {
        matches!(value, Value::Int(_))
    }

    fn get(value: &Value) -> (r: Option<&i32>) {
        match value {
            Value::Int(m) => Some(m),
            _ => None,
        }
    }

    fn from(member: &i32) -> (r: Value) {
        Value::Int(*member)
    }
}

impl ValueMember for bool {
    open spec fn member_kind() -> ValueKind {
        ValueKind::Bool
    }

    open spec fn wrap(m: bool) -> Value {
        Value::Bool(m)
    }

    proof fn lemma_wrap(m: bool) {
    }

    fn is_holding(value: &Value) -> (r: bool) {
        matches!(value, Value::Bool(_))
    }

    fn get(value: &Value) -> (r: Option<&bool>) {
        match value {
            Value::Bool(m) => Some(m),
            _ => None,
        }
    }

    fn from(member: &bool) -> (r: Value) {
        Value::Bool(*member)
    }
}

impl ValueMember for Float {
    open spec fn member_kind() -> ValueKind {
        ValueKind::Float
    }

    open spec fn wrap(m: Float) -> Value {
        Value::Float(m)
    }

    proof fn lemma_wrap(m: Float) {
    }

    fn is_holding(value: &Value) -> (r: bool) {
        matches!(value, Value::Float(_))
    }

    fn get(value: &Value) -> (r: Option<&Float>) {
        match value {
            Value::Float(m) => Some(m),
            _ => None,
        }
    }

    fn from(member: &Float) -> (r: Value) {
        Value::Float(*member)
    }
}

impl ValueMember for Double {
    open spec fn member_kind() -> ValueKind {
        ValueKind::Double
    }

    open spec fn wrap(m: Double) -> Value {
        Value::Double(m)
    }

    proof fn lemma_wrap(m: Double) {
    }

    fn is_holding(value: &Value) -> (r: bool) {
        matches!(value, Value::Double(_))
    }

    fn get(value: &Value) -> (r: Option<&Double>) {
        match value {
            Value::Double(m) => Some(m),
            _ => None,
        }
    }

    fn from(member: &Double) -> (r: Value) {
        Value::Double(*member)
    }
}

impl ValueMember for Vec2 {
    open spec fn member_kind() -> ValueKind {
        ValueKind::Vec2
    }

    open spec fn wrap(m: Vec2) -> Value {
        Value::Vec2(m)
    }

    proof fn lemma_wrap(m: Vec2) {
    }

    fn is_holding(value: &Value) -> (r: bool) {
        matches!(value, Value::Vec2(_))
    }

    fn get(value: &Value) -> (r: Option<&Vec2>) {
        match value {
            Value::Vec2(m) => Some(m),
            _ => None,
        }
    }

    fn from(member: &Vec2) -> (r: Value) {
        Value::Vec2(*member)
    }
}

impl ValueMember for Vec3 {
    open spec fn member_kind() -> ValueKind {
        ValueKind::Vec3
    }

    open spec fn wrap(m: Vec3) -> Value {
        Value::Vec3(m)
    }

    proof fn lemma_wrap(m: Vec3) {
    }

    fn is_holding(value: &Value) -> (r: bool) {
        matches!(value, Value::Vec3(_))
    }

    fn get(value: &Value) -> (r: Option<&Vec3>) {
        match value {
            Value::Vec3(m) => Some(m),
            _ => None,
        }
    }

    fn from(member: &Vec3) -> (r: Value) {
        Value::Vec3(*member)
    }
}

impl ValueMember for Vec4 {
    open spec fn member_kind() -> ValueKind {
        ValueKind::Vec4
    }

    open spec fn wrap(m: Vec4) -> Value {
        Value::Vec4(m)
    }

    proof fn lemma_wrap(m: Vec4) {
    }

    fn is_holding(value: &Value) -> (r: bool) {
        matches!(value, Value::Vec4(_))
    }

    fn get(value: &Value) -> (r: Option<&Vec4>) {
        match value {
            Value::Vec4(m) => Some(m),
            _ => None,
        }
    }

    fn from(member: &Vec4) -> (r: Value) {
        Value::Vec4(*member)
    }
}

/// A value made `from` a scalar of type `T` gives that scalar back through
/// `get::<T>`, and gives nothing through `get::<U>` for a member type `U`
/// held by another variant.
pub proof fn lemma_get_after_from<T: ValueMember, U: ValueMember>(x: T)
    ensures
        kind_of(T::wrap(x)) == T::member_kind(),
        forall|m: T| #[trigger] T::wrap(m) == T::wrap(x) ==> m == x,
        U::member_kind() != T::member_kind() ==> kind_of(T::wrap(x)) != U::member_kind(),
{
    T::lemma_wrap(x);
}

} // verus!
