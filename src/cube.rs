use crate::circuit::{holds, Constraint, ConstraintSet, SynthesisError, Variable};
use crate::field::{field_add, field_mul, FieldElement};
use vstd::prelude::*;

verus! {

/// The relation `out == x^3 + x` over a secret `x` and a public `out`.
///
/// The relation has no constant term: `x^3 + x + 5 == out` is a different
/// relation and is not what is enforced.
#[derive(Clone, Copy, Debug)]
pub struct CubeDemo {
    pub x: FieldElement,
    pub out: FieldElement,
}

/// `x^3 + x` in the field.
pub open spec fn cube_plus(x: nat) -> nat {
    field_add(field_mul(field_mul(x, x), x), x)
}

/// Whatever assignment satisfies the cube relation's constraints has its
/// public input equal to `x^3 + x` of its first witness: the constraints
/// admit no other assignment.
pub proof fn lemma_cube_constraints_sound(cs: &ConstraintSet)
    requires
        cs.constraints@.len() == 3,
        cs.constraints@[0] == Constraint::Mul(0, 0, 1),
        cs.constraints@[1] == Constraint::Mul(1, 0, 2),
        cs.constraints@[2] == Constraint::Add(2, 0, 3),
        cs.is_satisfied(),
    ensures
        cs.variables@.len() >= 4,
        cs.variables@[3].value.val() == cube_plus(cs.variables@[0].value.val()),
{
    assert(holds(cs.variables@, cs.constraints@[0]));
    assert(holds(cs.variables@, cs.constraints@[1]));
    assert(holds(cs.variables@, cs.constraints@[2]));
}

impl CubeDemo {
    /// Both values are canonical field elements.
    pub open spec fn wf(&self) -> bool {
        self.x.wf() && self.out.wf()
    }

    /// Builds the constraints `x * x == sq`, `sq * x == cube` and
    /// `cube + x == out` over the witnesses `x`, `sq`, `cube` and the public
    /// input `out`. Succeeds exactly when `out` is `x^3 + x`.
    pub fn generate_constraints(self) -> (r: Result<ConstraintSet, SynthesisError>)
        requires
            self.wf(),
        ensures
            self.out.val() != cube_plus(self.x.val()) ==> r == Err::<ConstraintSet, SynthesisError>(
                SynthesisError::ConstraintViolation,
            ),
            self.out.val() == cube_plus(self.x.val()) ==> r is Ok,
            r matches Ok(cs) ==> {
                &&& cs.wf()
                &&& cs.is_satisfied()
                &&& cs.variables@.len() == 4
                &&& cs.variables@[0] == (Variable { value: self.x, public: false })
                &&& cs.variables@[1].value.val() == field_mul(self.x.val(), self.x.val())
                &&& !cs.variables@[1].public
                &&& cs.variables@[2].value.val() == field_mul(
                    field_mul(self.x.val(), self.x.val()),
                    self.x.val(),
                )
                &&& !cs.variables@[2].public
                &&& cs.variables@[3] == (Variable { value: self.out, public: true })
                &&& cs.constraints@.len() == 3
                &&& cs.constraints@[0] == Constraint::Mul(0, 0, 1)
                &&& cs.constraints@[1] == Constraint::Mul(1, 0, 2)
                &&& cs.constraints@[2] == Constraint::Add(2, 0, 3)
            },
    {
        let mut cs = ConstraintSet::new();
        let x = self.x;
        let xw = cs.allocate(x, false);
        let sq = x.mul(&x);
        let sqw = cs.allocate(sq, false);
        cs.enforce(Constraint::Mul(xw, xw, sqw));
        let cube = sq.mul(&x);
        let cubew = cs.allocate(cube, false);
        cs.enforce(Constraint::Mul(sqw, xw, cubew));
        let outw = cs.allocate(self.out, true);
        cs.enforce(Constraint::Add(cubew, xw, outw));
        let sum = cube.add(&x);
        if !sum.equals(&self.out) {
            return Err(SynthesisError::ConstraintViolation);
        }
        proof {
            let vars = cs.variables@;
            assert(holds(vars, cs.constraints@[0]));
            assert(holds(vars, cs.constraints@[1]));
            assert(holds(vars, cs.constraints@[2]));
        }
        Ok(cs)
    }
}

} // verus!
