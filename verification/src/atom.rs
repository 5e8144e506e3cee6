//! The keys by which properties of objects are found.

use crate::context::Ctx;
use crate::error::Error;
use crate::native::ATOM_NULL;
use crate::value::{exception_of, get_exception, Thrown};
use vstd::prelude::*;
use vstd::string::*;

verus! {

/// What the engine is asked to intern as a key: a name, given as UTF-8 bytes,
/// or an index.
#[derive(Clone, Debug, PartialEq, Eq)]
pub enum AtomKey {
    Name(Vec<u8>),
    Index(u32),
}

/// The mathematical content of an [`AtomKey`].
pub enum AtomKeyView {
    Name(Seq<u8>),
    Index(u32),
}

impl View for AtomKey {
    type V = AtomKeyView;

    open spec fn view(&self) -> AtomKeyView {
        match *self {
            AtomKey::Name(bytes) => AtomKeyView::Name(bytes@),
            AtomKey::Index(index) => AtomKeyView::Index(index),
        }
    }
}

/// A key interned by the engine, bound to the invocation that obtained it.
#[derive(Clone, Copy, Debug, PartialEq, Eq)]
pub struct Atom<'js> {
    pub ctx: Ctx<'js>,
    pub atom: u32,
}

/// A host identifier that names a property.
pub trait IntoAtom: Sized {
    /// What the engine is asked to intern for the identifier.
    spec fn atom_key_spec(self) -> AtomKeyView;

    /// What the engine is asked to intern for the identifier.
    fn into_atom_key(self) -> (key: AtomKey)
        ensures
            key@ == self.atom_key_spec(),
    ;
}

impl IntoAtom for &str {
    open spec fn atom_key_spec(self) -> AtomKeyView {
        AtomKeyView::Name(vstd::utf8::encode_utf8(self@))
    }

    fn into_atom_key(self) -> (key: AtomKey) {
        AtomKey::Name(self.as_bytes_vec())
    }
}

impl IntoAtom for String {
    open spec fn atom_key_spec(self) -> AtomKeyView {
        AtomKeyView::Name(vstd::utf8::encode_utf8(self@))
    }

    fn into_atom_key(self) -> (key: AtomKey) {
        AtomKey::Name(self.as_str().as_bytes_vec())
    }
}

impl IntoAtom for u32 {
    open spec fn atom_key_spec(self) -> AtomKeyView {
        AtomKeyView::Index(self)
    }

    fn into_atom_key(self) -> (key: AtomKey) {
        AtomKey::Index(self)
    }
}

impl<'js> Atom<'js> {
    /// The key that the engine interned: `raw` is what it returned, the null
    /// atom for a failure, and `pending` what the driver found in the
    /// exception slot after a failure.
    pub fn from_atom_val(ctx: Ctx<'js>, raw: u32, pending: Option<Thrown>) -> (r: Result<
        Atom<'js>,
        Error,
    >)
        ensures
            match r {
                Ok(atom) => raw != ATOM_NULL && atom == (Atom { ctx, atom: raw }),
                Err(e) => raw == ATOM_NULL && e@ == exception_of(ctx, pending),
            },
    {
        if raw == ATOM_NULL {
            Err(get_exception(ctx, pending))
        } else {
            Ok(Atom { ctx, atom: raw })
        }
    }
}

} // verus!
