//! The capability sort `M` of the Mobile Ambients calculus.
//!
//! ```text
//! M ::=              -- Capability
//!    x               -- variable
//!    n               -- name
//!    in M            -- enter
//!    out M           -- exit
//!    open M          -- open
//!    ε               -- empty
//!    M.M′            -- path
//! ```
//!
//! A capability value is a finite tree: every composite shape exclusively
//! owns its inner capability value(s), and leaves carry only plain text.
//! Values are immutable once constructed; there is no mutation API.

use vstd::prelude::*;

verus! {

/// The mathematical model of a capability tree: the same grammar, with
/// identifiers as character sequences. Contracts in this module speak of
/// executable values through this model (the `@` view).
pub enum CapModel {
    /// A placeholder standing for a name, to be substituted.
    Variable(Seq<char>),
    /// A concrete ambient/channel name.
    Name(Seq<char>),
    /// `in M`: enter a sibling ambient named by the inner capability.
    Enter(Box<CapModel>),
    /// `out M`: exit the parent ambient.
    Exit(Box<CapModel>),
    /// `open M`: dissolve a sibling ambient's boundary.
    Open(Box<CapModel>),
    /// `ε`: the identity capability.
    Empty,
    /// `M.M′`: perform the left capability, then the right one.
    Path(Box<CapModel>, Box<CapModel>),
}

/// `Variable` capability for dynamic purposes.
#[derive(Debug, PartialEq, Eq)]
pub struct Variable {
    pub value: String,
}

/// `Name` for an action target or an ambient namespace definition.
#[derive(Debug, PartialEq, Eq)]
pub struct Name {
    pub value: String,
}

/// `In`: enter a sibling named ambient.
#[derive(Debug, PartialEq, Eq)]
pub struct In {
    pub capability: Box<Capability>,
}

/// `Out`: exit a parent named ambient.
#[derive(Debug, PartialEq, Eq)]
pub struct Out {
    pub capability: Box<Capability>,
}

/// `Open`: dissolve a sibling named ambient.
#[derive(Debug, PartialEq, Eq)]
pub struct Open {
    pub capability: Box<Capability>,
}

/// `Path`: composition of two sequential capabilities. The left one is to
/// be done before the right one.
#[derive(Debug, PartialEq, Eq)]
pub struct Path {
    pub capability_l: Box<Capability>,
    pub capability_r: Box<Capability>,
}

/// `Empty` capability, meaning nothing to be done.
#[derive(Debug, PartialEq, Eq)]
pub struct Empty;

/// The closed capability sort: exactly these seven shapes, and no others.
/// A consumer discriminates among them by (exhaustive) structural matching,
/// so adding an eighth shape is a compile-time-visible change everywhere
/// such matching occurs.
#[derive(Debug, PartialEq, Eq)]
pub enum Capability {
    Variable(Variable),
    Name(Name),
    In(In),
    Out(Out),
    Open(Open),
    Path(Path),
    Empty(Empty),
}

/// The model of an executable capability tree: each shape maps to the
/// corresponding model production, identifiers to their character sequences.
pub open spec fn cap_model(c: Capability) -> CapModel
    decreases c,
{
    match c {
        Capability::Variable(v) => CapModel::Variable(v.value@),
        Capability::Name(n) => CapModel::Name(n.value@),
        Capability::In(i) => CapModel::Enter(Box::new(cap_model(*i.capability))),
        Capability::Out(o) => CapModel::Exit(Box::new(cap_model(*o.capability))),
        Capability::Open(o) => CapModel::Open(Box::new(cap_model(*o.capability))),
        Capability::Path(p) => CapModel::Path(
            Box::new(cap_model(*p.capability_l)),
            Box::new(cap_model(*p.capability_r)),
        ),
        Capability::Empty(_) => CapModel::Empty,
    }
}

impl View for Capability {
    type V = CapModel;

    open spec fn view(&self) -> CapModel {
        cap_model(*self)
    }
}

// Factories. Construction is total: it never fails and performs no
// validation beyond type shape (identifiers are unconstrained text).
// Each factory's contract pins the result down completely: the new value
// owns exactly the given payload(s), unchanged.

impl Variable {
    pub fn new(value: String) -> (r: Variable)
        ensures
            r.value == value,
            r@ == CapModel::Variable(value@),
    {
        Variable { value }
    }
}

impl Name {
    pub fn new(value: String) -> (r: Name)
        ensures
            r.value == value,
            r@ == CapModel::Name(value@),
    {
        Name { value }
    }
}

impl In {
    pub fn new(capability: Capability) -> (r: In)
        ensures
            *r.capability == capability,
            r@ == CapModel::Enter(Box::new(capability@)),
    {
        In { capability: Box::new(capability) }
    }
}

impl Out {
    pub fn new(capability: Capability) -> (r: Out)
        ensures
            *r.capability == capability,
            r@ == CapModel::Exit(Box::new(capability@)),
    {
        Out { capability: Box::new(capability) }
    }
}

impl Open {
    pub fn new(capability: Capability) -> (r: Open)
        ensures
            *r.capability == capability,
            r@ == CapModel::Open(Box::new(capability@)),
    {
        Open { capability: Box::new(capability) }
    }
}

impl Path {
    pub fn new(capability_l: Capability, capability_r: Capability) -> (r: Path)
        ensures
            *r.capability_l == capability_l,
            *r.capability_r == capability_r,
            r@ == CapModel::Path(Box::new(capability_l@), Box::new(capability_r@)),
    {
        Path { capability_l: Box::new(capability_l), capability_r: Box::new(capability_r) }
    }
}

impl Empty {
    pub fn new() -> (r: Empty)
        ensures
            r@ == CapModel::Empty,
    {
        Empty
    }
}

impl View for Variable {
    type V = CapModel;

    open spec fn view(&self) -> CapModel {
        CapModel::Variable(self.value@)
    }
}

impl View for Name {
    type V = CapModel;

    open spec fn view(&self) -> CapModel {
        CapModel::Name(self.value@)
    }
}

impl View for In {
    type V = CapModel;

    open spec fn view(&self) -> CapModel {
        CapModel::Enter(Box::new(cap_model(*self.capability)))
    }
}

impl View for Out {
    type V = CapModel;

    open spec fn view(&self) -> CapModel {
        CapModel::Exit(Box::new(cap_model(*self.capability)))
    }
}

impl View for Open {
    type V = CapModel;

    open spec fn view(&self) -> CapModel {
        CapModel::Open(Box::new(cap_model(*self.capability)))
    }
}

impl View for Path {
    type V = CapModel;

    open spec fn view(&self) -> CapModel {
        CapModel::Path(
            Box::new(cap_model(*self.capability_l)),
            Box::new(cap_model(*self.capability_r)),
        )
    }
}

impl View for Empty {
    type V = CapModel;

    open spec fn view(&self) -> CapModel {
        CapModel::Empty
    }
}

/// How many of the seven capability shapes a value matches.
pub open spec fn capability_shape_count(c: Capability) -> int {
    (if c matches Capability::Variable(_) { 1int } else { 0int })
        + (if c matches Capability::Name(_) { 1int } else { 0int })
        + (if c matches Capability::In(_) { 1int } else { 0int })
        + (if c matches Capability::Out(_) { 1int } else { 0int })
        + (if c matches Capability::Open(_) { 1int } else { 0int })
        + (if c matches Capability::Path(_) { 1int } else { 0int })
        + (if c matches Capability::Empty(_) { 1int } else { 0int })
}

/// Exhaustiveness of the capability sort: every capability value matches
/// exactly one of the seven shapes — none matches two, none matches zero.
pub proof fn lemma_capability_exactly_one_shape(c: Capability)
    ensures
        capability_shape_count(c) == 1,
{
}


} // verus!
