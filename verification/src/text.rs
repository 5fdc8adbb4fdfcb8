//! Text values with two backing forms: a process-lifetime constant, or a
//! string owned by the garbage-collected arena. Every consumer sees only the
//! characters.

use vstd::prelude::*;
use vstd::std_specs::cmp::PartialEqSpec;
use vstd::std_specs::cmp::PartialEqSpecImpl;
use vstd::std_specs::convert::FromSpecImpl;

verus! {

/// `gc_arena::MutationContext`: the handle that the arena gives out for the
/// length of a mutation. It is only passed on.
#[verifier::external_type_specification]
#[verifier::external_body]
pub struct ExMutationContext<'gc, 'context>(gc_arena::MutationContext<'gc, 'context>);

/// A string allocated in the collector's arena.
///
/// Holds a `gc_arena::Gc<'gc, String>`. The pointer is opaque here; what it
/// points to is spoken of through [`gc_text`].
#[verifier::external_body]
pub struct GcString<'gc> {
    cell: gc_arena::Gc<'gc, String>,
}

/// The characters of the string that an arena pointer leads to.
pub uninterp spec fn gc_text(cell: GcString) -> Seq<char>;

impl<'gc> Clone for GcString<'gc> {
    /// Copies the pointer (`Gc` is `Copy`): the copy is the same pointer, to
    /// the same string.
    #[verifier::external_body]
    fn clone(&self) -> (copy: Self)
        ensures
            copy == *self,
    {
        GcString { cell: self.cell }
    }
}

impl<'gc> Copy for GcString<'gc> {

}

/// `gc_arena::Gc::allocate`: moves the string into the arena. The pointer that
/// comes back leads to that string, so its characters are the argument's.
#[verifier::external_body]
fn gc_allocate<'gc>(mc: gc_arena::MutationContext<'gc, '_>, text: String) -> (cell: GcString<'gc>)
    ensures
        gc_text(cell) == text@,
{
    GcString { cell: gc_arena::Gc::allocate(mc, text) }
}

/// `Deref` of `gc_arena::Gc`, then `String::as_str`: borrows the string behind
/// the pointer.
#[verifier::external_body]
fn gc_str<'a, 'gc>(cell: &'a GcString<'gc>) -> (text: &'a str)
    ensures
        text@ == gc_text(*cell),
{
    cell.cell.as_str()
}

/// `==` on `str`: true exactly when both hold the same characters.
#[verifier::external_body]
fn str_eq(a: &str, b: &str) -> (same: bool)
    ensures
        same == (a@ == b@),
{
    a == b
}

/// Where the characters of a text value live.
#[derive(Clone, Copy)]
enum Source<'gc> {
    Owned(GcString<'gc>),
    Static(&'static str),
}

/// A text value. Its view is the sequence of its characters, whichever form
/// backs it.
#[derive(Clone, Copy)]
pub struct Avm1String<'gc> {
    source: Source<'gc>,
}

impl<'gc> View for Avm1String<'gc> {
    type V = Seq<char>;

    closed spec fn view(&self) -> Seq<char> {
        match self.source {
            Source::Owned(cell) => gc_text(cell),
            Source::Static(text) => text@,
        }
    }
}

impl<'gc> Avm1String<'gc> {
    /// True when the value is backed by a process-lifetime constant.
    pub closed spec fn is_static(&self) -> bool {
        self.source is Static
    }

    /// A heap-owned text value holding the characters of `string`.
    pub fn new(gc_context: gc_arena::MutationContext<'gc, '_>, string: String) -> (text: Self)
        ensures
            text@ == string@,
            !text.is_static(),
    {
        Avm1String { source: Source::Owned(gc_allocate(gc_context, string)) }
    }

    /// The characters, borrowed.
    pub fn as_str(&self) -> (text: &str)
        ensures
            text@ == self@,
    {
        match &self.source {
            Source::Owned(cell) => gc_str(cell),
            Source::Static(text) => text,
        }
    }
}

impl<'gc> FromSpecImpl<&'static str> for Avm1String<'gc> {
    open spec fn obeys_from_spec() -> bool {
        true
    }

    closed spec fn from_spec(text: &'static str) -> Self {
        Avm1String { source: Source::Static(text) }
    }
}

impl<'gc> From<&'static str> for Avm1String<'gc> {
    /// A static-form text value: no allocation.
    fn from(text: &'static str) -> (value: Self)
        ensures
            value@ == text@,
            value.is_static(),
    {
        Avm1String { source: Source::Static(text) }
    }
}

impl<'gc> PartialEqSpecImpl for Avm1String<'gc> {
    open spec fn obeys_eq_spec() -> bool {
        true
    }

    open spec fn eq_spec(&self, other: &Avm1String<'gc>) -> bool {
        self@ == other@
    }
}

impl<'gc> PartialEq for Avm1String<'gc> {
    /// Equality of the characters; the backing form of either side plays no
    /// part.
    fn eq(&self, other: &Avm1String<'gc>) -> (same: bool)
    {
        str_eq(self.as_str(), other.as_str())
    }
}

impl<'gc> PartialEqSpecImpl<str> for Avm1String<'gc> {
    open spec fn obeys_eq_spec() -> bool {
        true
    }

    open spec fn eq_spec(&self, other: &str) -> bool {
        self@ == other@
    }
}

impl<'gc> PartialEq<str> for Avm1String<'gc> {
    fn eq(&self, other: &str) -> (same: bool)
    {
        str_eq(self.as_str(), other)
    }
}

impl<'a, 'gc> PartialEqSpecImpl<&'a str> for Avm1String<'gc> {
    open spec fn obeys_eq_spec() -> bool {
        true
    }

    open spec fn eq_spec(&self, other: &&'a str) -> bool {
        self@ == other@
    }
}

impl<'a, 'gc> PartialEq<&'a str> for Avm1String<'gc> {
    fn eq(&self, other: &&'a str) -> (same: bool)
    {
        str_eq(self.as_str(), *other)
    }
}

impl<'a, 'gc> PartialEqSpecImpl<Avm1String<'gc>> for &'a str {
    open spec fn obeys_eq_spec() -> bool {
        true
    }

    open spec fn eq_spec(&self, other: &Avm1String<'gc>) -> bool {
        self@ == other@
    }
}

impl<'a, 'gc> PartialEq<Avm1String<'gc>> for &'a str {
    fn eq(&self, other: &Avm1String<'gc>) -> (same: bool)
    {
        str_eq(*self, other.as_str())
    }
}

impl<'gc> PartialEqSpecImpl<String> for Avm1String<'gc> {
    open spec fn obeys_eq_spec() -> bool {
        true
    }

    open spec fn eq_spec(&self, other: &String) -> bool {
        self@ == other@
    }
}

impl<'gc> PartialEq<String> for Avm1String<'gc> {
    fn eq(&self, other: &String) -> (same: bool)
    {
        str_eq(self.as_str(), other.as_str())
    }
}

impl<'gc> PartialEqSpecImpl<Avm1String<'gc>> for str {
    open spec fn obeys_eq_spec() -> bool {
        true
    }

    open spec fn eq_spec(&self, other: &Avm1String<'gc>) -> bool {
        self@ == other@
    }
}

impl<'gc> PartialEq<Avm1String<'gc>> for str {
    fn eq(&self, other: &Avm1String<'gc>) -> (same: bool)
    {
        str_eq(self, other.as_str())
    }
}

impl<'gc> PartialEqSpecImpl<Avm1String<'gc>> for String {
    open spec fn obeys_eq_spec() -> bool {
        true
    }

    open spec fn eq_spec(&self, other: &Avm1String<'gc>) -> bool {
        self@ == other@
    }
}

impl<'gc> PartialEq<Avm1String<'gc>> for String {
    fn eq(&self, other: &Avm1String<'gc>) -> (same: bool)
    {
        str_eq(self.as_str(), other.as_str())
    }
}

impl<'gc> std::ops::Deref for Avm1String<'gc> {
    type Target = str;

    fn deref(&self) -> (text: &str)
        ensures
            text@ == self@,
    {
        match &self.source {
            Source::Owned(cell) => gc_str(cell),
            Source::Static(text) => text,
        }
    }
}

impl<'gc> AsRef<str> for Avm1String<'gc> {
    fn as_ref(&self) -> (text: &str)
        ensures
            text@ == self@,
    {
        match &self.source {
            Source::Owned(cell) => gc_str(cell),
            Source::Static(text) => text,
        }
    }
}

/// Equality of text does not depend on the backing form: two values with the
/// same characters are equal, a static one and a heap-owned one included, and
/// whichever of the two stands on the left.
pub proof fn text_equality_ignores_form<'gc>(a: Avm1String<'gc>, b: Avm1String<'gc>)
    ensures
        PartialEqSpec::eq_spec(&a, &b) == (a@ == b@),
        PartialEqSpec::eq_spec(&a, &b) == PartialEqSpec::eq_spec(&b, &a),
{
}

} // verus!
