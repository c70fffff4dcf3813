//! A clone-on-write wrapper over a shared value, much like `Cow`, except that
//! owned values are held in an `Arc` so that clones are cheap. Equality,
//! ordering and hashing are decided on the wrapped value alone, never on the
//! state that holds it, and every ownership transition is verified against
//! its contract.

use vstd::prelude::*;

verus! {

use std::sync::Arc;
use vstd::std_specs::cmp::{PartialEqSpec, PartialOrdSpec};

/// A clone-on-write wrapper over a shared value, much like `Cow`, except that
/// owned values are held in an `Arc` so that clones are cheap.
pub enum CowArc<'a, T: ?Sized + 'static> {
    /// A borrowed value.
    Borrowed(&'a T),
    /// A reference valid for the whole process.
    Static(&'static T),
    /// An owned, atomically reference-counted value.
    Owned(Arc<T>),
}

impl<'a, T: ?Sized + 'static> CowArc<'a, T> {
    /// The wrapped value, regardless of which state holds it.
    pub open spec fn spec_value(&self) -> &T {
        match *self {
            CowArc::Borrowed(v) => v,
            CowArc::Static(v) => v,
            CowArc::Owned(a) => &*a,
        }
    }

    /// A reference to the wrapped value; never allocates.
    pub fn value(&self) -> (r: &T)
        ensures
            r == self.spec_value(),
    {
        match self {
            CowArc::Borrowed(v) => v,
            CowArc::Static(v) => v,
            CowArc::Owned(a) => &**a,
        }
    }
}

impl<T: 'static> CowArc<'static, T> {
    /// Wraps a value in a new shared allocation; the result is `Owned`.
    pub fn new_owned(value: T) -> (r: Self)
        ensures
            r is Owned,
            *r.spec_value() == value,
    {
        CowArc::Owned(Arc::new(value))
    }
}

impl<T: ?Sized + 'static> CowArc<'static, T> {
    /// Wraps an already shared allocation directly as `Owned`, without
    /// allocating again when the argument is already an `Arc`.
    pub fn new_owned_from_arc<V: Into<Arc<T>>>(value: V) -> (r: Self)
        ensures
            r is Owned,
            (r matches CowArc::Owned(a) ==> call_ensures(V::into, (value,), a)),
    {
        CowArc::Owned(value.into())
    }

    /// Reinterprets a wrapper whose lifetime is already permanent: `Borrowed`
    /// and `Static` both become `Static`, while `Owned` is returned unchanged.
    pub fn as_static(self) -> (r: Self)
        ensures
            r !is Borrowed,
            r.spec_value() == self.spec_value(),
            self is Owned <==> r is Owned,
            self is Owned ==> r == self,
            self is Static ==> r == self,
    {
        match self {
            CowArc::Borrowed(value) | CowArc::Static(value) => CowArc::Static(value),
            CowArc::Owned(value) => CowArc::Owned(value),
        }
    }
}

/// Relies on `Arc::clone` (std): the clone points at the same allocation as
/// the source, so the pointed-to values are the same.
#[verifier::external_body]
fn clone_arc<T: ?Sized>(a: &Arc<T>) -> (r: Arc<T>)
    ensures
        r == *a,
{
    Arc::clone(a)
}

impl<'a, T: ?Sized + 'static> Clone for CowArc<'a, T> {
    /// State-preserving shallow duplication: `Borrowed` and `Static` copy the
    /// reference, `Owned` bumps the reference count. Never deep-copies.
    fn clone(&self) -> (r: Self)
        ensures
            r == *self,
    {
        match self {
            CowArc::Borrowed(value) => CowArc::Borrowed(*value),
            CowArc::Static(value) => CowArc::Static(*value),
            CowArc::Owned(value) => CowArc::Owned(clone_arc(value)),
        }
    }
}

/// The capacity of a value to be duplicated from behind a reference into a
/// new, independently owned shared allocation.
pub trait CloneToArc {
    /// What a freshly made owned copy of `self` is promised to satisfy.
    spec fn is_owned_copy(&self, copy: &Self) -> bool;

    /// Duplicates the referenced data into a brand-new shared allocation.
    fn clone_to_arc(&self) -> (r: Arc<Self>)
        ensures
            self.is_owned_copy(&*r),
    ;
}

/// Relies on `Arc::from::<&str>` (std): the new allocation holds a copy of the
/// characters of the argument.
pub assume_specification<'a>[ <Arc<str> as From<&'a str>>::from ](v: &str) -> (r: Arc<str>)
    ensures
        (&*r)@ == v@,
;

impl CloneToArc for str {
    /// An owned copy of a text holds the same characters.
    open spec fn is_owned_copy(&self, copy: &str) -> bool {
        copy@ == self@
    }

    fn clone_to_arc(&self) -> (r: Arc<str>) {
        Arc::from(self)
    }
}

impl<T: Clone> CloneToArc for T {
    /// An owned copy of a sized value is whatever its `Clone` returns.
    open spec fn is_owned_copy(&self, copy: &T) -> bool {
        cloned::<T>(*self, *copy)
    }

    fn clone_to_arc(&self) -> (r: Arc<T>) {
        Arc::new(self.clone())
    }
}

impl<'a, T: CloneToArc + ?Sized + 'static> CowArc<'a, T> {
    /// Converts this into a wrapper that owns its value for the whole process:
    /// `Borrowed` copies the referenced data into a new shared allocation and
    /// becomes `Owned`; `Static` and `Owned` pass through unchanged.
    pub fn into_owned(self) -> (r: CowArc<'static, T>)
        ensures
            r !is Borrowed,
            self matches CowArc::Static(v) ==> r == CowArc::<'static, T>::Static(v),
            self matches CowArc::Owned(a) ==> r == CowArc::<'static, T>::Owned(a),
            self matches CowArc::Borrowed(v) ==> r is Owned && v.is_owned_copy(r.spec_value()),
            self !is Borrowed ==> r.spec_value() == self.spec_value(),
    {
        match self {
            CowArc::Borrowed(value) => CowArc::Owned(value.clone_to_arc()),
            CowArc::Static(value) => CowArc::Static(value),
            CowArc::Owned(value) => CowArc::Owned(value),
        }
    }

    /// Clones `self` and converts the clone to owned form: cheap for `Owned`
    /// (reference-count bump) and `Static` (no work); only `Borrowed` copies.
    pub fn clone_owned(&self) -> (r: CowArc<'static, T>)
        ensures
            r !is Borrowed,
            *self matches CowArc::Static(v) ==> r == CowArc::<'static, T>::Static(v),
            *self matches CowArc::Owned(a) ==> r == CowArc::<'static, T>::Owned(a),
            *self matches CowArc::Borrowed(v) ==> r is Owned && v.is_owned_copy(r.spec_value()),
            *self !is Borrowed ==> r.spec_value() == self.spec_value(),
    {
        self.clone().into_owned()
    }
}

impl<'a, T: PartialEq + ?Sized + 'static> PartialEq for CowArc<'a, T> {
    /// Equality is decided on the dereferenced values alone, never on the
    /// state: a `Borrowed` and an `Owned` wrapper over equal data are equal.
    fn eq(&self, other: &Self) -> (r: bool) {
        self.value().eq(other.value())
    }
}

impl<'a, T: PartialEq + ?Sized + 'static> vstd::std_specs::cmp::PartialEqSpecImpl for CowArc<'a, T> {
    open spec fn obeys_eq_spec() -> bool {
        T::obeys_eq_spec()
    }

    open spec fn eq_spec(&self, other: &Self) -> bool {
        T::eq_spec(self.spec_value(), other.spec_value())
    }
}

impl<'a, T: PartialEq + ?Sized + 'static> Eq for CowArc<'a, T> {

}


impl<'a, T: PartialOrd + ?Sized + 'static> PartialOrd for CowArc<'a, T> {
    /// Ordering follows the natural order of the dereferenced values,
    /// whatever states hold them.
    fn partial_cmp(&self, other: &Self) -> (r: Option<core::cmp::Ordering>) {
        self.value().partial_cmp(other.value())
    }
}

impl<'a, T: PartialOrd + ?Sized + 'static> vstd::std_specs::cmp::PartialOrdSpecImpl for CowArc<'a, T> {
    open spec fn obeys_partial_cmp_spec() -> bool {
        T::obeys_partial_cmp_spec()
    }

    open spec fn partial_cmp_spec(&self, other: &Self) -> Option<core::cmp::Ordering> {
        T::partial_cmp_spec(self.spec_value(), other.spec_value())
    }
}

impl<'a, T: core::hash::Hash + ?Sized + 'static> core::hash::Hash for CowArc<'a, T> {
    /// Relies on `T::hash` (std): hashing is delegated to the dereferenced
    /// value, never the state, so wrappers over equal data hash identically
    /// in any state.
    #[verifier::external_body]
    fn hash<H: core::hash::Hasher>(&self, state: &mut H) {
        self.value().hash(state);
    }
}

impl Default for CowArc<'static, str> {
    /// An empty text in the `Static` state; never allocates.
    fn default() -> (r: Self)
        ensures
            r is Static,
            r.spec_value()@ == Seq::<char>::empty(),
    {
        proof {
            reveal_strlit("");
            assert(""@ =~= Seq::<char>::empty());
        }
        CowArc::Static("")
    }
}

impl<T: ?Sized + 'static> From<&'static T> for CowArc<'static, T> {
    /// A reference known valid for the whole process wraps as `Static`.
    fn from(value: &'static T) -> (r: Self) {
        CowArc::Static(value)
    }
}

impl<T: ?Sized + 'static> vstd::std_specs::convert::FromSpecImpl<&'static T> for CowArc<'static, T> {
    open spec fn obeys_from_spec() -> bool {
        true
    }

    open spec fn from_spec(v: &'static T) -> Self {
        CowArc::Static(v)
    }
}

impl<T: 'static> From<Arc<T>> for CowArc<'static, T> {
    /// An already shared allocation wraps as `Owned`, without allocating.
    fn from(value: Arc<T>) -> (r: Self) {
        CowArc::Owned(value)
    }
}

impl<T: 'static> vstd::std_specs::convert::FromSpecImpl<Arc<T>> for CowArc<'static, T> {
    open spec fn obeys_from_spec() -> bool {
        true
    }

    open spec fn from_spec(v: Arc<T>) -> Self {
        CowArc::Owned(v)
    }
}

/// Relies on `Arc::from::<String>` (std): the string's buffer moves into the
/// shared allocation, which then holds the same characters.
pub assume_specification[ <Arc<str> as From<String>>::from ](v: String) -> (r: Arc<str>)
    ensures
        (&*r)@ == v@,
;

impl CowArc<'static, str> {
    /// Consumes a heap string and transfers its buffer into a shared
    /// allocation; the result is `Owned` and holds the same characters.
    pub fn from_string(value: String) -> (r: Self)
        ensures
            r is Owned,
            r.spec_value()@ == value@,
    {
        CowArc::Owned(Arc::from(value))
    }
}

impl<'a> CowArc<'a, str> {
    /// Wraps the text of a heap string it does not own; the result is
    /// `Borrowed` and reads the same characters.
    pub fn from_string_ref(value: &'a String) -> (r: Self)
        ensures
            r is Borrowed,
            r.spec_value()@ == value@,
    {
        CowArc::Borrowed(value.as_str())
    }
}

impl From<String> for CowArc<'static, str> {
    /// Same conversion as `from_string`, which carries the contract.
    fn from(value: String) -> (r: Self) {
        CowArc::from_string(value)
    }
}

impl vstd::std_specs::convert::FromSpecImpl<String> for CowArc<'static, str> {
    /// A fresh allocation has no spec identity determined by the argument
    /// alone, so this conversion pins no spec-level result; callers that need
    /// the contract use `from_string`.
    open spec fn obeys_from_spec() -> bool {
        false
    }

    open spec fn from_spec(v: String) -> Self {
        arbitrary()
    }
}

impl<'a> From<&'a String> for CowArc<'a, str> {
    /// Same conversion as `from_string_ref`, which carries the contract.
    fn from(value: &'a String) -> (r: Self) {
        CowArc::from_string_ref(value)
    }
}

impl<'a> vstd::std_specs::convert::FromSpecImpl<&'a String> for CowArc<'a, str> {
    /// The borrowed text's spec identity is not determined by the string's
    /// view alone, so this conversion pins no spec-level result; callers that
    /// need the contract use `from_string_ref`.
    open spec fn obeys_from_spec() -> bool {
        false
    }

    open spec fn from_spec(v: &'a String) -> Self {
        arbitrary()
    }
}

/// Cloning then reading yields the same value as reading the original, in
/// every state: a clone is equal to its source, so it wraps the same value.
pub proof fn lemma_clone_reads_same<'a, T: ?Sized + 'static>(a: CowArc<'a, T>, c: CowArc<'a, T>)
    requires
        call_ensures(<CowArc<'a, T> as Clone>::clone, (&a,), c),
    ensures
        c == a,
        c.spec_value() == a.spec_value(),
{
}

/// Equality is decided by the dereferenced values alone, never by the state:
/// wrappers built through any mix of the three states compare exactly as
/// `T`'s own equality compares the values they wrap.
pub proof fn lemma_eq_ignores_state<'a, T: PartialEq + ?Sized + 'static>(
    a: CowArc<'a, T>,
    b: CowArc<'a, T>,
)
    ensures
        a.eq_spec(&b) == T::eq_spec(a.spec_value(), b.spec_value()),
{
}

/// Ordering between wrappers in any mix of states matches the ordering of
/// their dereferenced values exactly.
pub proof fn lemma_order_ignores_state<'a, T: PartialOrd + ?Sized + 'static>(
    a: CowArc<'a, T>,
    b: CowArc<'a, T>,
)
    ensures
        a.partial_cmp_spec(&b) == T::partial_cmp_spec(a.spec_value(), b.spec_value()),
{
}

/// Converting to owned form is idempotent: converting the result once more
/// hands it back unchanged, backed by the same storage.
pub proof fn lemma_into_owned_idempotent<'a, T: CloneToArc + ?Sized + 'static>(
    x: CowArc<'a, T>,
    once: CowArc<'static, T>,
    twice: CowArc<'static, T>,
)
    requires
        call_ensures(CowArc::<'a, T>::into_owned, (x,), once),
        call_ensures(CowArc::<'static, T>::into_owned, (once,), twice),
    ensures
        twice == once,
{
}

} // verus!
