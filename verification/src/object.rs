//! Objects that have an identifier.

use vstd::prelude::*;

verus! {

/// An API object with an identifier. The identifier of the last object of
/// a page is the cursor from which the next page is asked for.
pub trait Object: Sized + View {
    /// The type of the identifier.
    type Id: View<V = Seq<char>>;

    /// The identifier that a record of the given content has.
    spec fn id_of(v: Self::V) -> Seq<char>;

    /// The identifier.
    fn id(&self) -> (r: &Self::Id)
        ensures
            r@ == Self::id_of(self@),
    ;

    /// Gives up the object for its identifier.
    fn into_id(self) -> (r: Self::Id)
        ensures
            r@ == Self::id_of(self@),
    ;

    /// The identifier as the text of a cursor.
    fn cursor(&self) -> (r: &str)
        ensures
            r@ == Self::id_of(self@),
    ;
}

} // verus!
