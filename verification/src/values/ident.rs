//! The names that style sheets give to things.

use vstd::prelude::*;
use vstd::string::StringExecFns;

verus! {

/// A string that names something. Two atoms are equal where their
/// characters are.
#[derive(Debug, PartialEq, Eq, Hash)]
pub struct Atom(String);

impl View for Atom {
    type V = Seq<char>;

    /// The characters of the atom.
    closed spec fn view(&self) -> Seq<char> {
        self.0@
    }
}

impl Clone for Atom {
    fn clone(&self) -> (copy: Atom)
        ensures
            copy@ == self@,
    {
        Atom(self.0.clone())
    }
}

impl Atom {
    /// The atom with the characters of `name`.
    pub fn new(name: &str) -> (atom: Atom)
        ensures
            atom@ == name@,
    {
        Atom(String::from_str(name))
    }

    /// The characters of the atom.
    pub fn as_str(&self) -> (name: &str)
        ensures
            name@ == self@,
    {
        self.0.as_str()
    }

    /// Whether the atom has no characters.
    pub fn is_empty(&self) -> (empty: bool)
        ensures
            empty == (self@.len() == 0),
    {
        self.0.as_str().is_empty()
    }
}

/// An identifier that an author chose, a `<custom-ident>`.
#[derive(Debug, PartialEq, Eq, Hash)]
pub struct CustomIdent(pub Atom);

impl View for CustomIdent {
    type V = Seq<char>;

    open spec fn view(&self) -> Seq<char> {
        self.0@
    }
}

impl Clone for CustomIdent {
    fn clone(&self) -> (copy: CustomIdent)
        ensures
            copy@ == self@,
    {
        CustomIdent(self.0.clone())
    }
}

/// An identifier that starts with two dashes, a `<dashed-ident>`; or the
/// empty identifier, which stands for the lack of one.
#[derive(Debug, PartialEq, Eq, Hash)]
pub struct DashedIdent(pub Atom);

impl View for DashedIdent {
    type V = Seq<char>;

    open spec fn view(&self) -> Seq<char> {
        self.0@
    }
}

impl Clone for DashedIdent {
    fn clone(&self) -> (copy: DashedIdent)
        ensures
            copy@ == self@,
    {
        DashedIdent(self.0.clone())
    }
}

impl DashedIdent {
    /// The empty identifier.
    pub fn empty() -> (ident: DashedIdent)
        ensures
            ident@ == Seq::<char>::empty(),
    {
        proof {
            reveal_strlit("");
        }
        let ident = DashedIdent(Atom::new(""));
        assert(ident@ =~= Seq::<char>::empty());
        ident
    }

    /// Whether this is the empty identifier.
    pub fn is_empty(&self) -> (empty: bool)
        ensures
            empty == (self@.len() == 0),
    {
        self.0.is_empty()
    }
}

/// The name of a set of keyframes. The empty name stands for `none`: no
/// keyframes at all.
#[derive(Debug, PartialEq, Eq, Hash)]
pub struct KeyframesName(Atom);

impl View for KeyframesName {
    type V = Seq<char>;

    closed spec fn view(&self) -> Seq<char> {
        self.0@
    }
}

impl Clone for KeyframesName {
    fn clone(&self) -> (copy: KeyframesName)
        ensures
            copy@ == self@,
    {
        KeyframesName(self.0.clone())
    }
}

impl KeyframesName {
    /// The name with the characters of `value`.
    pub fn from_ident(value: &str) -> (name: KeyframesName)
        ensures
            name@ == value@,
    {
        KeyframesName(Atom::new(value))
    }

    /// The name that stands for `none`.
    pub fn none() -> (name: KeyframesName)
        ensures
            name@ == Seq::<char>::empty(),
    {
        proof {
            reveal_strlit("");
        }
        let name = KeyframesName(Atom::new(""));
        assert(name@ =~= Seq::<char>::empty());
        name
    }

    /// Whether this is the name that stands for `none`.
    pub fn is_none(&self) -> (none: bool)
        ensures
            none == (self@.len() == 0),
    {
        self.0.is_empty()
    }

    /// The name as an atom.
    pub fn as_atom(&self) -> (atom: &Atom)
        ensures
            atom@ == self@,
    {
        &self.0
    }
}

} // verus!
