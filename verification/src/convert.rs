//! Scalar codecs: how application values become host values and back.

use vstd::prelude::*;
use vstd::slice::slice_to_vec;
use vstd::std_specs::convert::TryIntoSpec;
use crate::error::DecodeError;
use crate::type_info::SpinSqliteTypeInfo;
use crate::value::{values_view, HostValue, SpinSqliteValueRef, ValueModel};

verus! {

/// Whether an encoder wrote the null value.
#[derive(Clone, Copy, Debug, PartialEq, Eq, Structural)]
pub enum IsNull {
    Yes,
    No,
}

/// A scalar that has a place in the host's value taxonomy.
pub trait Type {
    /// The descriptor the scalar maps to.
    spec fn type_info_spec() -> SpinSqliteTypeInfo;

    fn type_info() -> (r: SpinSqliteTypeInfo)
        ensures
            r == Self::type_info_spec(),
    ;
}

/// A scalar that can be bound as a query parameter.
pub trait Encode: Type {
    /// The host value that stands for `self`.
    spec fn encoded(&self) -> ValueModel;

    /// The encoded value is of the variant that the scalar's descriptor names.
    proof fn encoded_has_declared_type(&self)
        ensures
            self.encoded().type_info() == Self::type_info_spec(),
    ;

    /// Appends the host value for `self` to `buf` and says whether it is null.
    fn encode_by_ref(&self, buf: &mut Vec<HostValue>) -> (r: IsNull)
        ensures
            values_view(final(buf)@) == values_view(old(buf)@).push(self.encoded()),
            r == IsNull::Yes <==> self.encoded() is Null,
    ;
}

/// A scalar that can be read out of a column.
pub trait Decode: Sized + Type + View {
    /// What reading `value` as this scalar gives.
    spec fn decoded(value: ValueModel) -> Result<Self::V, DecodeError>;

    /// Only a value of the variant that the scalar's descriptor names can be
    /// read; any other is a type mismatch.
    proof fn decoded_checks_type(value: ValueModel)
        ensures
            value.type_info() != Self::type_info_spec() <==> Self::decoded(value) == Err::<
                Self::V,
                DecodeError,
            >(DecodeError::TypeMismatch),
    ;

    fn decode(value: SpinSqliteValueRef<'_>) -> (r: Result<Self, DecodeError>)
        ensures
            match Self::decoded(value@) {
                Ok(v) => r matches Ok(x) && x@ == v,
                Err(e) => r matches Err(x) && x == e,
            },
    ;
}

/// Converts `value`, reporting a conversion that would lose information as a
/// range error.
///
/// Where the conversion is one whose outcome is specified, as it is between
/// the integer types, the result is that outcome; whatever the conversion,
/// a range error is the only error.
pub fn into_or_err<T: TryInto<U>, U>(value: T) -> (r: Result<U, DecodeError>)
    ensures
        T::obeys_try_into_spec() ==> match value.try_into_spec() {
            Ok(v) => r == Ok::<U, DecodeError>(v),
            Err(_) => r == Err::<U, DecodeError>(DecodeError::RangeError),
        },
        r matches Err(e) ==> e == DecodeError::RangeError,
{
    match value.try_into() {
        Ok(v) => Ok(v),
        Err(_) => Err(DecodeError::RangeError),
    }
}

impl<'a> Type for &'a str {
    open spec fn type_info_spec() -> SpinSqliteTypeInfo {
        SpinSqliteTypeInfo::Text
    }

    fn type_info() -> (r: SpinSqliteTypeInfo) {
        SpinSqliteTypeInfo::Text
    }
}

impl<'a> Encode for &'a str {
    open spec fn encoded(&self) -> ValueModel {
        ValueModel::Text(self@)
    }

    proof fn encoded_has_declared_type(&self) {
    }

    fn encode_by_ref(&self, buf: &mut Vec<HostValue>) -> (r: IsNull) {
        buf.push(HostValue::Text((*self).to_owned()));
        assert(values_view(buf@) =~= values_view(old(buf)@).push(self.encoded()));
        IsNull::No
    }
}

impl Type for String {
    open spec fn type_info_spec() -> SpinSqliteTypeInfo {
        SpinSqliteTypeInfo::Text
    }

    fn type_info() -> (r: SpinSqliteTypeInfo) {
        SpinSqliteTypeInfo::Text
    }
}

impl Encode for String {
    open spec fn encoded(&self) -> ValueModel {
        ValueModel::Text(self@)
    }

    proof fn encoded_has_declared_type(&self) {
    }

    fn encode_by_ref(&self, buf: &mut Vec<HostValue>) -> (r: IsNull) {
        buf.push(HostValue::Text(self.clone()));
        assert(values_view(buf@) =~= values_view(old(buf)@).push(self.encoded()));
        IsNull::No
    }
}

impl Decode for String {
    open spec fn decoded(value: ValueModel) -> Result<Seq<char>, DecodeError> {
        match value {
            ValueModel::Text(s) => Ok(s),
            _ => Err(DecodeError::TypeMismatch),
        }
    }

    proof fn decoded_checks_type(value: ValueModel) {
    }

    fn decode(value: SpinSqliteValueRef<'_>) -> (r: Result<Self, DecodeError>) {
        match value.get() {
            HostValue::Text(s) => Ok(s.clone()),
            _ => Err(DecodeError::TypeMismatch),
        }
    }
}

impl Type for u32 {
    open spec fn type_info_spec() -> SpinSqliteTypeInfo {
        SpinSqliteTypeInfo::Int
    }

    fn type_info() -> (r: SpinSqliteTypeInfo) {
        SpinSqliteTypeInfo::Int
    }
}

impl Encode for u32 {
    open spec fn encoded(&self) -> ValueModel {
        ValueModel::Integer(*self as int)
    }

    proof fn encoded_has_declared_type(&self) {
    }

    fn encode_by_ref(&self, buf: &mut Vec<HostValue>) -> (r: IsNull) {
        buf.push(HostValue::Integer(*self as i64));
        assert(values_view(buf@) =~= values_view(old(buf)@).push(self.encoded()));
        IsNull::No
    }
}

impl Decode for u32 {
    open spec fn decoded(value: ValueModel) -> Result<u32, DecodeError> {
        match value {
            ValueModel::Integer(n) => if 0 <= n <= u32::MAX {
                Ok(n as u32)
            } else {
                Err(DecodeError::RangeError)
            },
            _ => Err(DecodeError::TypeMismatch),
        }
    }

    proof fn decoded_checks_type(value: ValueModel) {
    }

    fn decode(value: SpinSqliteValueRef<'_>) -> (r: Result<Self, DecodeError>) {
        match value.get() {
            HostValue::Integer(n) => into_or_err(*n),
            _ => Err(DecodeError::TypeMismatch),
        }
    }
}

impl Type for bool {
    open spec fn type_info_spec() -> SpinSqliteTypeInfo {
        SpinSqliteTypeInfo::Int
    }

    fn type_info() -> (r: SpinSqliteTypeInfo) {
        SpinSqliteTypeInfo::Int
    }
}

impl Encode for bool {
    open spec fn encoded(&self) -> ValueModel {
        ValueModel::Integer(if *self { 1 } else { 0 })
    }

    proof fn encoded_has_declared_type(&self) {
    }

    fn encode_by_ref(&self, buf: &mut Vec<HostValue>) -> (r: IsNull) {
        buf.push(HostValue::Integer(if *self { 1 } else { 0 }));
        assert(values_view(buf@) =~= values_view(old(buf)@).push(self.encoded()));
        IsNull::No
    }
}

impl Decode for bool {
    open spec fn decoded(value: ValueModel) -> Result<bool, DecodeError> {
        match value {
            ValueModel::Integer(n) => if n == 0 {
                Ok(false)
            } else if n == 1 {
                Ok(true)
            } else {
                Err(DecodeError::ValueError)
            },
            _ => Err(DecodeError::TypeMismatch),
        }
    }

    proof fn decoded_checks_type(value: ValueModel) {
    }

    fn decode(value: SpinSqliteValueRef<'_>) -> (r: Result<Self, DecodeError>) {
        match value.get() {
            HostValue::Integer(0) => Ok(false),
            HostValue::Integer(1) => Ok(true),
            HostValue::Integer(_) => Err(DecodeError::ValueError),
            _ => Err(DecodeError::TypeMismatch),
        }
    }
}

/// A real number in the form the host stores it: the bit pattern of an
/// IEEE 754 double.
#[derive(Clone, Copy, Debug, PartialEq, Eq, Structural)]
pub struct RealBits(pub u64);

impl View for RealBits {
    type V = u64;

    open spec fn view(&self) -> u64 {
        self.0
    }
}

impl Type for RealBits {
    open spec fn type_info_spec() -> SpinSqliteTypeInfo {
        SpinSqliteTypeInfo::Real
    }

    fn type_info() -> (r: SpinSqliteTypeInfo) {
        SpinSqliteTypeInfo::Real
    }
}

impl Encode for RealBits {
    open spec fn encoded(&self) -> ValueModel {
        ValueModel::Real(self.0)
    }

    proof fn encoded_has_declared_type(&self) {
    }

    fn encode_by_ref(&self, buf: &mut Vec<HostValue>) -> (r: IsNull) {
        buf.push(HostValue::Real(self.0));
        assert(values_view(buf@) =~= values_view(old(buf)@).push(self.encoded()));
        IsNull::No
    }
}

impl Decode for RealBits {
    open spec fn decoded(value: ValueModel) -> Result<u64, DecodeError> {
        match value {
            ValueModel::Real(bits) => Ok(bits),
            _ => Err(DecodeError::TypeMismatch),
        }
    }

    proof fn decoded_checks_type(value: ValueModel) {
    }

    fn decode(value: SpinSqliteValueRef<'_>) -> (r: Result<Self, DecodeError>) {
        match value.get() {
            HostValue::Real(bits) => Ok(RealBits(*bits)),
            _ => Err(DecodeError::TypeMismatch),
        }
    }
}

impl<'a> Type for &'a [u8] {
    open spec fn type_info_spec() -> SpinSqliteTypeInfo {
        SpinSqliteTypeInfo::Blob
    }

    fn type_info() -> (r: SpinSqliteTypeInfo) {
        SpinSqliteTypeInfo::Blob
    }
}

impl<'a> Encode for &'a [u8] {
    open spec fn encoded(&self) -> ValueModel {
        ValueModel::Blob(self@)
    }

    proof fn encoded_has_declared_type(&self) {
    }

    fn encode_by_ref(&self, buf: &mut Vec<HostValue>) -> (r: IsNull) {
        buf.push(HostValue::Blob(slice_to_vec(*self)));
        assert(values_view(buf@) =~= values_view(old(buf)@).push(self.encoded()));
        IsNull::No
    }
}

impl<'a, const N: usize> Type for &'a [u8; N] {
    open spec fn type_info_spec() -> SpinSqliteTypeInfo {
        SpinSqliteTypeInfo::Blob
    }

    fn type_info() -> (r: SpinSqliteTypeInfo) {
        SpinSqliteTypeInfo::Blob
    }
}

impl<'a, const N: usize> Encode for &'a [u8; N] {
    open spec fn encoded(&self) -> ValueModel {
        ValueModel::Blob(self@)
    }

    proof fn encoded_has_declared_type(&self) {
    }

    fn encode_by_ref(&self, buf: &mut Vec<HostValue>) -> (r: IsNull) {
        buf.push(HostValue::Blob(slice_to_vec(self.as_slice())));
        assert(values_view(buf@) =~= values_view(old(buf)@).push(self.encoded()));
        IsNull::No
    }
}

impl Type for Vec<u8> {
    open spec fn type_info_spec() -> SpinSqliteTypeInfo {
        SpinSqliteTypeInfo::Blob
    }

    fn type_info() -> (r: SpinSqliteTypeInfo) {
        SpinSqliteTypeInfo::Blob
    }
}

impl Decode for Vec<u8> {
    open spec fn decoded(value: ValueModel) -> Result<Seq<u8>, DecodeError> {
        match value {
            ValueModel::Blob(b) => Ok(b),
            _ => Err(DecodeError::TypeMismatch),
        }
    }

    proof fn decoded_checks_type(value: ValueModel) {
    }

    fn decode(value: SpinSqliteValueRef<'_>) -> (r: Result<Self, DecodeError>) {
        match value.get() {
            HostValue::Blob(b) => Ok(b.clone()),
            _ => Err(DecodeError::TypeMismatch),
        }
    }
}

/// A text parameter reads back as an owned string with the same characters.
pub proof fn lemma_text_round_trip(text: &str)
    ensures
        <String as Decode>::decoded(text.encoded()) == Ok::<Seq<char>, DecodeError>(text@),
{
}

/// An owned text parameter reads back as a string with the same characters.
pub proof fn lemma_string_round_trip(text: String)
    ensures
        <String as Decode>::decoded(text.encoded()) == Ok::<Seq<char>, DecodeError>(text@),
{
}

/// Every unsigned 32-bit integer reads back as itself.
pub proof fn lemma_u32_round_trip(n: u32)
    ensures
        <u32 as Decode>::decoded(n.encoded()) == Ok::<u32, DecodeError>(n),
{
}

/// Both booleans read back as themselves.
pub proof fn lemma_bool_round_trip(b: bool)
    ensures
        <bool as Decode>::decoded(b.encoded()) == Ok::<bool, DecodeError>(b),
{
}

/// A real reads back with every bit as it was bound.
pub proof fn lemma_real_round_trip(x: RealBits)
    ensures
        <RealBits as Decode>::decoded(x.encoded()) == Ok::<u64, DecodeError>(x@),
{
}

/// A byte slice reads back as a vector of the same bytes.
pub proof fn lemma_bytes_round_trip(bytes: &[u8])
    ensures
        <Vec<u8> as Decode>::decoded(bytes.encoded()) == Ok::<Seq<u8>, DecodeError>(bytes@),
{
}

/// A byte array reads back as a vector of the same bytes.
pub proof fn lemma_byte_array_round_trip<const N: usize>(bytes: &[u8; N])
    ensures
        <Vec<u8> as Decode>::decoded(bytes.encoded()) == Ok::<Seq<u8>, DecodeError>(bytes@),
{
}

} // verus!
