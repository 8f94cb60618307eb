//! The buffer of positional query parameters.

use vstd::prelude::*;
use crate::convert::Encode;
use crate::value::{values_view, HostValue, ValueModel};

verus! {

/// The values bound to a statement so far, in the order of its `?`
/// placeholders.  Values are only ever appended.
#[derive(Debug)]
pub struct SpinSqliteArgs {
    inner: Vec<HostValue>,
}

impl View for SpinSqliteArgs {
    type V = Seq<ValueModel>;

    closed spec fn view(&self) -> Seq<ValueModel> {
        values_view(self.inner@)
    }
}

impl Default for SpinSqliteArgs {
    /// The empty buffer.
    fn default() -> (r: Self)
        ensures
            r@ == Seq::<ValueModel>::empty(),
    {
        let r = SpinSqliteArgs { inner: Vec::new() };
        assert(r@ =~= Seq::<ValueModel>::empty());
        r
    }
}

impl SpinSqliteArgs {
    /// A buffer that holds `values` as if they had been bound one by one.
    pub fn from_values(values: Vec<HostValue>) -> (r: Self)
        ensures
            r@ == values_view(values@),
    {
        SpinSqliteArgs { inner: values }
    }

    /// The bound values, as they are handed to the host.
    pub fn as_slice(&self) -> (r: &[HostValue])
        ensures
            values_view(r@) == self@,
    {
        self.inner.as_slice()
    }

    /// Announces that `additional` more values, of so many bytes in all, are
    /// about to be bound.  This is advice only: the bound values stay as
    /// they are.
    pub fn reserve(&mut self, additional: usize, _size: usize)
        ensures
            final(self)@ == old(self)@,
    {
        let _ = self.inner.try_reserve(additional);
    }

    /// Binds one more value: encodes it and appends the result.
    pub fn add<T: Encode>(&mut self, value: T)
        ensures
            final(self)@ == old(self)@.push(value.encoded()),
    {
        let _ = value.encode_by_ref(&mut self.inner);
    }

    /// The buffer itself: it already is what a statement takes.
    pub fn into_arguments(self) -> (r: Self)
        ensures
            r == self,
    {
        self
    }

    /// Gives up the buffer for the bound values.
    pub fn into_values(self) -> (r: Vec<HostValue>)
        ensures
            values_view(r@) == self@,
    {
        self.inner
    }
}

} // verus!
