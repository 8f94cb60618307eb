//! The host's value union and the reference handed to a decoder.

use vstd::prelude::*;
use crate::type_info::SpinSqliteTypeInfo;

verus! {

/// A value as it crosses the host boundary.
///
/// `Real` carries the bit pattern of an IEEE 754 double, so that a value
/// passes through the driver without any rounding.
#[derive(Debug, PartialEq, Eq)]
pub enum HostValue {
    Null,
    Integer(i64),
    Real(u64),
    Text(String),
    Blob(Vec<u8>),
}

/// The mathematical content of a [`HostValue`].
pub enum ValueModel {
    Null,
    Integer(int),
    Real(u64),
    Text(Seq<char>),
    Blob(Seq<u8>),
}

impl View for HostValue {
    type V = ValueModel;

    open spec fn view(&self) -> ValueModel {
        match *self {
            HostValue::Null => ValueModel::Null,
            HostValue::Integer(n) => ValueModel::Integer(n as int),
            HostValue::Real(bits) => ValueModel::Real(bits),
            HostValue::Text(s) => ValueModel::Text(s@),
            HostValue::Blob(b) => ValueModel::Blob(b@),
        }
    }
}

impl ValueModel {
    /// The descriptor that goes with each variant.
    pub open spec fn type_info(self) -> SpinSqliteTypeInfo {
        match self {
            ValueModel::Null => SpinSqliteTypeInfo::Null,
            ValueModel::Integer(_) => SpinSqliteTypeInfo::Int,
            ValueModel::Real(_) => SpinSqliteTypeInfo::Real,
            ValueModel::Text(_) => SpinSqliteTypeInfo::Text,
            ValueModel::Blob(_) => SpinSqliteTypeInfo::Blob,
        }
    }
}

/// The contents of a run of host values.
pub open spec fn values_view(values: Seq<HostValue>) -> Seq<ValueModel> {
    Seq::new(values.len(), |i: int| values[i]@)
}

impl Clone for HostValue {
    /// An independent copy with the same content.
    fn clone(&self) -> (r: HostValue)
        ensures
            r@ == self@,
    {
        match self {
            HostValue::Null => HostValue::Null,
            HostValue::Integer(n) => HostValue::Integer(*n),
            HostValue::Real(bits) => HostValue::Real(*bits),
            HostValue::Text(s) => HostValue::Text(s.clone()),
            HostValue::Blob(b) => HostValue::Blob(b.clone()),
        }
    }
}

/// A single host value on loan from a row while a column is decoded.
#[derive(Debug)]
pub struct SpinSqliteValueRef<'r> {
    inner: &'r HostValue,
}

impl<'r> View for SpinSqliteValueRef<'r> {
    type V = ValueModel;

    closed spec fn view(&self) -> ValueModel {
        self.inner@
    }
}

impl<'r> SpinSqliteValueRef<'r> {
    /// Lends `value` to a decoder.
    pub fn new(value: &'r HostValue) -> (r: Self)
        ensures
            r@ == value@,
    {
        SpinSqliteValueRef { inner: value }
    }

    /// The value behind the reference.
    pub fn get(&self) -> (r: &'r HostValue)
        ensures
            r@ == self@,
    {
        self.inner
    }

    /// The descriptor of the value, by case on its variant: each variant
    /// has its own descriptor and each descriptor its own variant.
    pub fn type_info(&self) -> (r: SpinSqliteTypeInfo)
        ensures
            r == self@.type_info(),
            r == SpinSqliteTypeInfo::Null <==> self@ is Null,
            r == SpinSqliteTypeInfo::Int <==> self@ is Integer,
            r == SpinSqliteTypeInfo::Real <==> self@ is Real,
            r == SpinSqliteTypeInfo::Text <==> self@ is Text,
            r == SpinSqliteTypeInfo::Blob <==> self@ is Blob,
    {
        match self.inner {
            HostValue::Null => SpinSqliteTypeInfo::Null,
            HostValue::Integer(_) => SpinSqliteTypeInfo::Int,
            HostValue::Blob(_) => SpinSqliteTypeInfo::Blob,
            HostValue::Real(_) => SpinSqliteTypeInfo::Real,
            HostValue::Text(_) => SpinSqliteTypeInfo::Text,
        }
    }

    /// True only when the value is `Null`.
    pub fn is_null(&self) -> (r: bool)
        ensures
            r <==> self@ is Null,
    {
        matches!(self.inner, HostValue::Null)
    }

    /// A value of its own with the same content.
    pub fn to_owned(&self) -> (r: SpinSqliteValue)
        ensures
            r@ == self@,
    {
        SpinSqliteValue { inner: self.inner.clone() }
    }
}

/// A single host value that stands on its own.
#[derive(Debug)]
pub struct SpinSqliteValue {
    inner: HostValue,
}

impl View for SpinSqliteValue {
    type V = ValueModel;

    closed spec fn view(&self) -> ValueModel {
        self.inner@
    }
}

impl SpinSqliteValue {
    /// Wraps a host value.
    pub fn new(value: HostValue) -> (r: Self)
        ensures
            r@ == value@,
    {
        SpinSqliteValue { inner: value }
    }

    /// Lends the value to a decoder.
    pub fn as_ref(&self) -> (r: SpinSqliteValueRef<'_>)
        ensures
            r@ == self@,
    {
        SpinSqliteValueRef { inner: &self.inner }
    }

    /// The descriptor of the value, by case on its variant.
    pub fn type_info(&self) -> (r: SpinSqliteTypeInfo)
        ensures
            r == self@.type_info(),
    {
        self.as_ref().type_info()
    }

    /// True only when the value is `Null`.
    pub fn is_null(&self) -> (r: bool)
        ensures
            r <==> self@ is Null,
    {
        self.as_ref().is_null()
    }
}

} // verus!
