//! Token unions: the representation of a model's start (BOS) and stop (EOS)
//! tokens, each either a string or a sequence of token ids. They are held as
//! the values the C API reports for them.
use vstd::prelude::*;
use crate::results::copy_ids;
use crate::types::TokenUnionType;

verus! {

/// What a token union is, as plain values: its kind, its string value and
/// its id sequence (each `None` where it has none).
pub type TokenUnionView = (TokenUnionType, Option<Seq<char>>, Option<Seq<i32>>);

/// The view of an optional string.
pub open spec fn opt_chars(s: Option<String>) -> Option<Seq<char>> {
    match s {
        Some(x) => Some(x@),
        None => None,
    }
}

/// The view of an optional id vector.
pub open spec fn opt_ids(v: Option<Vec<i32>>) -> Option<Seq<i32>> {
    match v {
        Some(x) => Some(x@),
        None => None,
    }
}

/// A token union holds a value of its own kind only: a string union has no
/// ids, an id union has no string.
pub open spec fn kind_matches(t: TokenUnionView) -> bool {
    &&& t.0 == TokenUnionType::String ==> t.2 is None
    &&& t.0 == TokenUnionType::Ids ==> t.1 is None
}

/// A single start or stop token.
pub struct TokenUnion {
    union_type: TokenUnionType,
    string: Option<String>,
    ids: Option<Vec<i32>>,
}

impl View for TokenUnion {
    type V = TokenUnionView;

    closed spec fn view(&self) -> TokenUnionView {
        (self.union_type, opt_chars(self.string), opt_ids(self.ids))
    }
}

fn copy_string(s: &Option<String>) -> (r: Option<String>)
    ensures
        opt_chars(r) == opt_chars(*s),
{
    match s {
        Some(x) => Some(x.clone()),
        None => None,
    }
}

fn copy_opt_ids(v: &Option<Vec<i32>>) -> (r: Option<Vec<i32>>)
    ensures
        opt_ids(r) == opt_ids(*v),
{
    match v {
        Some(x) => Some(copy_ids(x.as_slice())),
        None => None,
    }
}

impl TokenUnion {
    #[verifier::type_invariant]
    spec fn well_kinded(self) -> bool {
        &&& self.union_type == TokenUnionType::String ==> self.ids is None
        &&& self.union_type == TokenUnionType::Ids ==> self.string is None
    }

    /// A token union of the given kind, from the string and the ids that the
    /// C API reported for it. Only the value of the union's own kind is kept:
    /// a string union has no ids, an id union has no string.
    pub fn new(union_type: TokenUnionType, string: Option<String>, ids: Option<Vec<i32>>) -> (r: Self)
        ensures
            r@ == (union_type,
                if union_type == TokenUnionType::Ids { None } else { opt_chars(string) },
                if union_type == TokenUnionType::String { None } else { opt_ids(ids) }),
            kind_matches(r@),
    {
        match union_type {
            TokenUnionType::String => TokenUnion { union_type, string, ids: None },
            TokenUnionType::Ids => TokenUnion { union_type, string: None, ids },
        }
    }

    /// Whether this token union holds a string or a sequence of ids.
    pub fn union_type(&self) -> (r: TokenUnionType)
        ensures
            r == self@.0,
    {
        self.union_type
    }

    /// The string value; `None` if this token union holds token ids instead.
    pub fn as_string(&self) -> (r: Option<String>)
        ensures
            opt_chars(r) == self@.1,
            self@.0 == TokenUnionType::Ids ==> r is None,
    {
        proof {
            use_type_invariant(self);
        }
        copy_string(&self.string)
    }

    /// The token ids, as an owned `Vec`; `None` if this token union holds a
    /// string instead.
    pub fn as_ids(&self) -> (r: Option<Vec<i32>>)
        ensures
            opt_ids(r) == self@.2,
            self@.0 == TokenUnionType::String ==> r is None,
    {
        proof {
            use_type_invariant(self);
        }
        copy_opt_ids(&self.ids)
    }

    /// An independent copy of this token union.
    pub fn duplicate(&self) -> (r: Self)
        ensures
            r@ == self@,
            kind_matches(r@),
    {
        proof {
            use_type_invariant(self);
        }
        TokenUnion {
            union_type: self.union_type,
            string: copy_string(&self.string),
            ids: copy_opt_ids(&self.ids),
        }
    }
}

/// The view of an optional token union.
pub open spec fn opt_union(t: Option<TokenUnion>) -> Option<TokenUnionView> {
    match t {
        Some(x) => Some(x@),
        None => None,
    }
}

/// A collection of token unions, such as the configured stop tokens. An
/// entry is `None` where the C API handed back no token union (NULL) for
/// that index.
pub struct TokenUnions {
    unions: Vec<Option<TokenUnion>>,
}

impl View for TokenUnions {
    type V = Seq<Option<TokenUnionView>>;

    closed spec fn view(&self) -> Seq<Option<TokenUnionView>> {
        self.unions@.map_values(|t: Option<TokenUnion>| opt_union(t))
    }
}

impl TokenUnions {
    /// The collection of the given entries, in order.
    pub fn new(unions: Vec<Option<TokenUnion>>) -> (r: Self)
        ensures
            r@ == unions@.map_values(|t: Option<TokenUnion>| opt_union(t)),
    {
        TokenUnions { unions }
    }

    /// How many token unions are in the collection.
    pub fn len(&self) -> (r: usize)
        ensures
            r == self@.len(),
    {
        self.unions.len()
    }

    /// Returns `true` if this collection has no token unions.
    pub fn is_empty(&self) -> (r: bool)
        ensures
            r == (self@.len() == 0),
    {
        self.len() == 0
    }

    /// The token union at `index`, as an owned, independent copy; `None`
    /// when `index` is past the end or the entry is missing.
    pub fn get(&self, index: usize) -> (r: Option<TokenUnion>)
        ensures
            r is Some <==> (index < self@.len() && self@[index as int] is Some),
            r matches Some(t) ==> Some(t@) == self@[index as int] && kind_matches(t@),
    {
        if index < self.unions.len() {
            match &self.unions[index] {
                Some(t) => Some(t.duplicate()),
                None => None,
            }
        } else {
            None
        }
    }
}

} // verus!
