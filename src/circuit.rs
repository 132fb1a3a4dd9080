use crate::field::{field_add, field_mul, FieldElement};
use crate::hash::HashParameters;
use vstd::prelude::*;

verus! {

/// A variable of a constraint set: its assigned value, and whether it is
/// disclosed to the verifier (a public input) or kept secret (a witness).
#[derive(Clone, Copy, Debug)]
pub struct Variable {
    pub value: FieldElement,
    pub public: bool,
}

/// One assertion over the variables of a constraint set, by position.
pub enum Constraint {
    /// `v[a] * v[b] == v[c]`.
    Mul(usize, usize, usize),
    /// `v[a] + v[b] == v[c]`.
    Add(usize, usize, usize),
    /// `v[a] == v[b]`.
    Equal(usize, usize),
    /// The Pedersen hash, under `params`, of the bytes held by the variables
    /// at `inputs` is the point `(v[x], v[y])`. The hash itself is the
    /// proving backend's gadget; what is checked here is that the positions
    /// exist and the inputs are bytes.
    Hash { params: HashParameters, inputs: Vec<usize>, x: usize, y: usize },
}

/// The variables and assertions that a relation's synthesis produces.
pub struct ConstraintSet {
    pub variables: Vec<Variable>,
    pub constraints: Vec<Constraint>,
}

/// Why synthesis failed.
#[derive(Clone, Copy, Debug, PartialEq, Eq, Structural)]
pub enum SynthesisError {
    /// A variable or a constant could not be allocated: the values do not
    /// fit the shape the relation needs.
    AllocationError,
    /// The witness and the public input do not satisfy the relation.
    ConstraintViolation,
}

/// Whether one constraint holds of an assignment.
pub open spec fn holds(vars: Seq<Variable>, c: Constraint) -> bool {
    match c {
        Constraint::Mul(a, b, c) => a < vars.len() && b < vars.len() && c < vars.len()
            && vars[c as int].value.val() == field_mul(
            vars[a as int].value.val(),
            vars[b as int].value.val(),
        ),
        Constraint::Add(a, b, c) => a < vars.len() && b < vars.len() && c < vars.len()
            && vars[c as int].value.val() == field_add(
            vars[a as int].value.val(),
            vars[b as int].value.val(),
        ),
        Constraint::Equal(a, b) => a < vars.len() && b < vars.len() && vars[a as int].value.val()
            == vars[b as int].value.val(),
        Constraint::Hash { params, inputs, x, y } => x < vars.len() && y < vars.len() && (forall|
            k: int,
        |
            0 <= k < inputs@.len() ==> inputs@[k] < vars.len() && vars[inputs@[k] as int].value.val()
                < 256),
    }
}

impl ConstraintSet {
    /// Every variable holds a canonical field element.
    pub open spec fn wf(&self) -> bool {
        forall|i: int| 0 <= i < self.variables@.len() ==> #[trigger] self.variables@[i].value.wf()
    }

    /// The assignment satisfies every constraint.
    pub open spec fn is_satisfied(&self) -> bool {
        forall|i: int|
            0 <= i < self.constraints@.len() ==> holds(self.variables@, #[trigger] self.constraints@[i])
    }

    pub fn new() -> (r: ConstraintSet)
        ensures
            r.variables@.len() == 0,
            r.constraints@.len() == 0,
    {
        ConstraintSet { variables: Vec::new(), constraints: Vec::new() }
    }

    /// Adds a variable and returns its position.
    pub fn allocate(&mut self, value: FieldElement, public: bool) -> (r: usize)
        requires
            old(self).variables@.len() < usize::MAX,
        ensures
            r == old(self).variables@.len(),
            final(self).variables@ == old(self).variables@.push(Variable { value, public }),
            final(self).constraints@ == old(self).constraints@,
    {
        let r = self.variables.len();
        self.variables.push(Variable { value, public });
        r
    }

    /// Adds a constraint.
    pub fn enforce(&mut self, c: Constraint)
        ensures
            final(self).variables@ == old(self).variables@,
            final(self).constraints@ == old(self).constraints@.push(c),
    {
        self.constraints.push(c);
    }
}

} // verus!
