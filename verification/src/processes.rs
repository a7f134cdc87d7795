//! The process sort `P` of the Mobile Ambients calculus.
//!
//! ```text
//! P,Q ::=
//!    (νn)P           -- restriction
//!    0               -- inactivity
//!    P|Q             -- composition
//!    !P              -- replication
//!    M[P]            -- ambient
//!    M.P             -- capability action
//!    (x).P           -- input action
//!    <M>             -- async output action
//! ```
//!
//! Several productions embed a capability value; the data flows one way,
//! capabilities into processes, never back. As with capabilities, a process
//! value is a finite, immutable tree whose composite nodes exclusively own
//! their children. `Restriction` and `Input` introduce a binding occurrence
//! of a name/variable scoped to their body; no uniqueness, shadowing or
//! capture-avoidance check is performed — scope resolution is entirely the
//! consumer's responsibility.

use vstd::prelude::*;

use crate::capabilities::CapModel;
use crate::capabilities::Capability;
use crate::capabilities::cap_model;

verus! {

/// The mathematical model of a process tree: the same grammar, with
/// identifiers as character sequences and capabilities as their own model.
pub enum ProcModel {
    /// `(νn)P`: a bound name, scoped to the body.
    Restriction(Seq<char>, Box<ProcModel>),
    /// `0`: the terminated process.
    Inactivity,
    /// `P|Q`: unordered parallel execution of both sides.
    Composition(Box<ProcModel>, Box<ProcModel>),
    /// `!P`: unboundedly many parallel copies of the body.
    Replication(Box<ProcModel>),
    /// `M[P]`: a bounded location named by a capability, containing the body.
    Ambient(CapModel, Box<ProcModel>),
    /// `M.P`: perform the capability, then continue as the body.
    Action(CapModel, Box<ProcModel>),
    /// `(x).P`: receive a message, binding it to the variable in the body.
    Input(Seq<char>, Box<ProcModel>),
    /// `<M>`: asynchronously emit a capability as a message.
    Output(CapModel),
}

/// `Restriction` defines a process with a private name.
#[derive(Debug, PartialEq, Eq)]
pub struct Restriction {
    pub name: String,
    pub process: Box<Process>,
}

/// `Inactivity` defines a process doing nothing.
#[derive(Debug, PartialEq, Eq)]
pub struct Inactivity;

/// `Composition` defines two processes running in parallel.
#[derive(Debug, PartialEq, Eq)]
pub struct Composition {
    pub process_l: Box<Process>,
    pub process_r: Box<Process>,
}

/// `Replication` defines a perpetual process, where `!P` is isomorphic to
/// `P | !P`. That isomorphism is a structural-congruence rule of a consuming
/// interpreter: the tree itself keeps the two sides distinct (see
/// [`lemma_replication_distinct_from_unfolding`]).
#[derive(Debug, PartialEq, Eq)]
pub struct Replication {
    pub process: Box<Process>,
}

/// `Ambient` defines a named bounded space containing a process. The naming
/// position deliberately accepts any capability value, not only a bare name.
#[derive(Debug, PartialEq, Eq)]
pub struct Ambient {
    pub capability: Capability,
    pub process: Box<Process>,
}

/// `Action` attaches a capability to a given process, defining an action to
/// be done before continuing as that process.
#[derive(Debug, PartialEq, Eq)]
pub struct Action {
    pub capability: Capability,
    pub process: Box<Process>,
}

/// `Input` defines the function able to capture a message.
#[derive(Debug, PartialEq, Eq)]
pub struct Input {
    pub variable: String,
    pub process: Box<Process>,
}

/// `Output` defines the message able to be captured by an `Input`; it has
/// no continuation.
#[derive(Debug, PartialEq, Eq)]
pub struct Output {
    pub message: Capability,
}

/// The closed process sort: exactly these eight shapes, and no others. As
/// with [`Capability`], a consumer discriminates among them by exhaustive
/// structural matching.
#[derive(Debug, PartialEq, Eq)]
pub enum Process {
    Restriction(Restriction),
    Inactivity(Inactivity),
    Composition(Composition),
    Replication(Replication),
    Ambient(Ambient),
    Action(Action),
    Input(Input),
    Output(Output),
}

/// The model of an executable process tree: each shape maps to the
/// corresponding model production, embedded capabilities to their model.
pub open spec fn proc_model(p: Process) -> ProcModel
    decreases p,
{
    match p {
        Process::Restriction(r) => ProcModel::Restriction(
            r.name@,
            Box::new(proc_model(*r.process)),
        ),
        Process::Inactivity(_) => ProcModel::Inactivity,
        Process::Composition(c) => ProcModel::Composition(
            Box::new(proc_model(*c.process_l)),
            Box::new(proc_model(*c.process_r)),
        ),
        Process::Replication(r) => ProcModel::Replication(Box::new(proc_model(*r.process))),
        Process::Ambient(a) => ProcModel::Ambient(
            cap_model(a.capability),
            Box::new(proc_model(*a.process)),
        ),
        Process::Action(a) => ProcModel::Action(
            cap_model(a.capability),
            Box::new(proc_model(*a.process)),
        ),
        Process::Input(i) => ProcModel::Input(i.variable@, Box::new(proc_model(*i.process))),
        Process::Output(o) => ProcModel::Output(cap_model(o.message)),
    }
}

impl View for Process {
    type V = ProcModel;

    open spec fn view(&self) -> ProcModel {
        proc_model(*self)
    }
}

// Factories. As with capabilities, construction is total and unvalidated:
// bound names and variables are accepted as opaque text (shadowing an outer
// binding is permitted), and the naming position of an ambient accepts any
// capability. Each factory's contract pins the result down completely.

impl Restriction {
    pub fn new(name: String, process: Process) -> (r: Restriction)
        ensures
            r.name == name,
            *r.process == process,
            r@ == ProcModel::Restriction(name@, Box::new(process@)),
    {
        Restriction { name, process: Box::new(process) }
    }
}

impl Inactivity {
    pub fn new() -> (r: Inactivity)
        ensures
            r@ == ProcModel::Inactivity,
    {
        Inactivity
    }
}

impl Composition {
    pub fn new(process_l: Process, process_r: Process) -> (r: Composition)
        ensures
            *r.process_l == process_l,
            *r.process_r == process_r,
            r@ == ProcModel::Composition(Box::new(process_l@), Box::new(process_r@)),
    {
        Composition { process_l: Box::new(process_l), process_r: Box::new(process_r) }
    }
}

impl Replication {
    pub fn new(process: Process) -> (r: Replication)
        ensures
            *r.process == process,
            r@ == ProcModel::Replication(Box::new(process@)),
    {
        Replication { process: Box::new(process) }
    }
}

impl Ambient {
    pub fn new(capability: Capability, process: Process) -> (r: Ambient)
        ensures
            r.capability == capability,
            *r.process == process,
            r@ == ProcModel::Ambient(capability@, Box::new(process@)),
    {
        Ambient { capability, process: Box::new(process) }
    }
}

impl Action {
    pub fn new(capability: Capability, process: Process) -> (r: Action)
        ensures
            r.capability == capability,
            *r.process == process,
            r@ == ProcModel::Action(capability@, Box::new(process@)),
    {
        Action { capability, process: Box::new(process) }
    }
}

impl Input {
    pub fn new(variable: String, process: Process) -> (r: Input)
        ensures
            r.variable == variable,
            *r.process == process,
            r@ == ProcModel::Input(variable@, Box::new(process@)),
    {
        Input { variable, process: Box::new(process) }
    }
}

impl Output {
    pub fn new(message: Capability) -> (r: Output)
        ensures
            r.message == message,
            r@ == ProcModel::Output(message@),
    {
        Output { message }
    }
}

impl View for Restriction {
    type V = ProcModel;

    open spec fn view(&self) -> ProcModel {
        ProcModel::Restriction(self.name@, Box::new(proc_model(*self.process)))
    }
}

impl View for Inactivity {
    type V = ProcModel;

    open spec fn view(&self) -> ProcModel {
        ProcModel::Inactivity
    }
}

impl View for Composition {
    type V = ProcModel;

    open spec fn view(&self) -> ProcModel {
        ProcModel::Composition(
            Box::new(proc_model(*self.process_l)),
            Box::new(proc_model(*self.process_r)),
        )
    }
}

impl View for Replication {
    type V = ProcModel;

    open spec fn view(&self) -> ProcModel {
        ProcModel::Replication(Box::new(proc_model(*self.process)))
    }
}

impl View for Ambient {
    type V = ProcModel;

    open spec fn view(&self) -> ProcModel {
        ProcModel::Ambient(cap_model(self.capability), Box::new(proc_model(*self.process)))
    }
}

impl View for Action {
    type V = ProcModel;

    open spec fn view(&self) -> ProcModel {
        ProcModel::Action(cap_model(self.capability), Box::new(proc_model(*self.process)))
    }
}

impl View for Input {
    type V = ProcModel;

    open spec fn view(&self) -> ProcModel {
        ProcModel::Input(self.variable@, Box::new(proc_model(*self.process)))
    }
}

impl View for Output {
    type V = ProcModel;

    open spec fn view(&self) -> ProcModel {
        ProcModel::Output(cap_model(self.message))
    }
}

/// How many of the eight process shapes a value matches.
pub open spec fn process_shape_count(p: Process) -> int {
    (if p matches Process::Restriction(_) { 1int } else { 0int })
        + (if p matches Process::Inactivity(_) { 1int } else { 0int })
        + (if p matches Process::Composition(_) { 1int } else { 0int })
        + (if p matches Process::Replication(_) { 1int } else { 0int })
        + (if p matches Process::Ambient(_) { 1int } else { 0int })
        + (if p matches Process::Action(_) { 1int } else { 0int })
        + (if p matches Process::Input(_) { 1int } else { 0int })
        + (if p matches Process::Output(_) { 1int } else { 0int })
}

/// Exhaustiveness of the process sort: every process value matches exactly
/// one of the eight shapes — none matches two, none matches zero.
pub proof fn lemma_process_exactly_one_shape(p: Process)
    ensures
        process_shape_count(p) == 1,
{
}

/// Replication is represented distinctly from its one-step unfolding: for
/// every process `P`, the tree `!P` differs from the tree `P | !P`. The
/// congruence `!P ≡ P | !P` is an equivalence a consuming interpreter may
/// impose; the data model itself never identifies the two.
pub proof fn lemma_replication_distinct_from_unfolding(p: ProcModel)
    ensures
        ProcModel::Replication(Box::new(p)) != ProcModel::Composition(
            Box::new(p),
            Box::new(ProcModel::Replication(Box::new(p))),
        ),
{
}

/// The executable counterpart: a replication node is never the same tree as
/// a composition node, whatever they hold — neither as values nor as models.
pub proof fn lemma_replication_node_not_composition_node(a: Process, b: Process)
    requires
        a matches Process::Replication(_),
        b matches Process::Composition(_),
    ensures
        a != b,
        a@ != b@,
{
}

} // verus!
