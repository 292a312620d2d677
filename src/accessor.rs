use vstd::prelude::*;

verus! {

/// Access to the unique field of type `T` that a value holds.
pub trait GetFieldByType<T> {
    /// The value of the field that has type `T`.
    fn get(&self) -> &T;
}

/// Pointer-like wrappers (`Box`, `Rc`, ...) give access to the field of their
/// referent.
impl<T, U> GetFieldByType<T> for U where U: core::ops::Deref, U::Target: GetFieldByType<T> {
    fn get(&self) -> &T {
        core::ops::Deref::deref(self).get()
    }
}

} // verus!
