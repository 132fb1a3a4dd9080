use crate::circuit::{holds, Constraint, ConstraintSet, SynthesisError, Variable};
use crate::field::{to_fq, FieldElement};
use vstd::prelude::*;

verus! {

/// Number of windows of the hash, and so of generator rows in its parameters.
pub const NUM_WINDOWS: usize = 128;

/// Number of bits per window, and so of generator powers per row.
pub const WINDOW_SIZE: usize = 4;

/// Longest preimage the hash takes, in bytes.
pub const MAX_INPUT_BYTES: usize = 64;

/// A point of the Jubjub curve in affine coordinates.
#[derive(Clone, Copy, Debug)]
pub struct Point {
    pub x: FieldElement,
    pub y: FieldElement,
}

impl Point {
    /// The coordinates as residues.
    pub open spec fn view(&self) -> (nat, nat) {
        (self.x.val(), self.y.val())
    }

    /// Both coordinates are canonical.
    pub open spec fn wf(&self) -> bool {
        self.x.wf() && self.y.wf()
    }
}

/// Public parameters of the Pedersen hash: one row of generator powers per
/// window.
pub struct HashParameters {
    pub generators: Vec<Vec<Point>>,
}

impl View for HashParameters {
    type V = Seq<Seq<(nat, nat)>>;

    open spec fn view(&self) -> Self::V {
        self.generators@.map_values(|row: Vec<Point>| row@.map_values(|p: Point| p.view()))
    }
}

impl HashParameters {
    /// One row per window, one power per bit of a window, every coordinate
    /// canonical.
    pub open spec fn wf(&self) -> bool {
        &&& self.generators@.len() == NUM_WINDOWS
        &&& forall|i: int|
            0 <= i < self.generators@.len() ==> (#[trigger] self.generators@[i])@.len()
                == WINDOW_SIZE
        &&& forall|i: int, j: int|
            0 <= i < self.generators@.len() && 0 <= j < self.generators@[i]@.len()
                ==> (#[trigger] self.generators@[i]@[j]).wf()
    }

    /// Checks `wf`.
    pub fn is_well_formed(&self) -> (r: bool)
        ensures
            r == self.wf(),
    {
        if self.generators.len() != NUM_WINDOWS {
            return false;
        }
        let mut i: usize = 0;
        while i < self.generators.len()
            invariant
                0 <= i <= self.generators@.len(),
                forall|a: int| 0 <= a < i ==> (#[trigger] self.generators@[a])@.len() == WINDOW_SIZE,
                forall|a: int, b: int|
                    0 <= a < i && 0 <= b < self.generators@[a]@.len()
                        ==> (#[trigger] self.generators@[a]@[b]).wf(),
            decreases self.generators@.len() - i,
        {
            let row = &self.generators[i];
            if row.len() != WINDOW_SIZE {
                return false;
            }
            let mut j: usize = 0;
            while j < row.len()
                invariant
                    0 <= i < self.generators@.len(),
                    row == self.generators@[i as int],
                    row@.len() == WINDOW_SIZE,
                    forall|a: int| 0 <= a < i ==> (#[trigger] self.generators@[a])@.len() == WINDOW_SIZE,
                    0 <= j <= row@.len(),
                    forall|a: int, b: int|
                        0 <= a < i && 0 <= b < self.generators@[a]@.len()
                            ==> (#[trigger] self.generators@[a]@[b]).wf(),
                    forall|b: int| 0 <= b < j ==> (#[trigger] row@[b]).wf(),
                decreases row@.len() - j,
            {
                if !(row[j].x.is_canonical() && row[j].y.is_canonical()) {
                    return false;
                }
                j = j + 1;
            }
            i = i + 1;
        }
        true
    }
}

/// The relation "`image` is the Pedersen hash of the secret `input` under
/// the fixed `params`".
pub struct HashDemo {
    pub input: Vec<u8>,
    pub params: HashParameters,
    pub image: Point,
}

impl HashDemo {
    /// The parameters and the preimage fit the hash's window layout.
    pub open spec fn fits(&self) -> bool {
        self.params.wf() && self.input@.len() <= MAX_INPUT_BYTES
    }

    /// Builds the constraints of the relation: `image` as two public inputs,
    /// each preimage byte as a witness, the hash of those witnesses under
    /// `params` (held as constants) as two witnesses, and the equality of that
    /// hash with `image`.
    ///
    /// `digest` is the hash of `input` under `params` as the hash primitive
    /// computes it outside the constraint system; the backend's gadget checks
    /// it against the witnessed bytes. Fails with `AllocationError` when the
    /// parameters or the preimage do not fit the window layout, and with
    /// `ConstraintViolation` when the digest is not `image`.
    pub fn generate_constraints(self, digest: Point) -> (r: Result<ConstraintSet, SynthesisError>)
        requires
            self.image.wf(),
            digest.wf(),
        ensures
            !self.fits() ==> r == Err::<ConstraintSet, SynthesisError>(
                SynthesisError::AllocationError,
            ),
            self.fits() && digest.view() != self.image.view() ==> r == Err::<
                ConstraintSet,
                SynthesisError,
            >(SynthesisError::ConstraintViolation),
            self.fits() && digest.view() == self.image.view() ==> r is Ok,
            r matches Ok(cs) ==> {
                let n = self.input@.len() as int;
                &&& cs.wf()
                &&& cs.is_satisfied()
                &&& cs.variables@.len() == n + 4
                &&& cs.variables@[0] == (Variable { value: self.image.x, public: true })
                &&& cs.variables@[1] == (Variable { value: self.image.y, public: true })
                &&& forall|k: int|
                    0 <= k < n ==> (#[trigger] cs.variables@[k + 2]).value.val() == self.input@[k]
                        && !cs.variables@[k + 2].public
                &&& cs.variables@[n + 2] == (Variable { value: digest.x, public: false })
                &&& cs.variables@[n + 3] == (Variable { value: digest.y, public: false })
                &&& cs.constraints@.len() == 3
                &&& cs.constraints@[0] matches Constraint::Hash { params, inputs, x, y }
                    && params@ == self.params@ && inputs@.len() == n && (forall|k: int|
                    0 <= k < n ==> #[trigger] inputs@[k] == k + 2) && x == n + 2 && y == n + 3
                &&& cs.constraints@[1] == Constraint::Equal((n + 2) as usize, 0)
                &&& cs.constraints@[2] == Constraint::Equal((n + 3) as usize, 1)
            },
    {
        if self.input.len() > MAX_INPUT_BYTES || !self.params.is_well_formed() {
            return Err(SynthesisError::AllocationError);
        }
        let mut cs = ConstraintSet::new();
        let ix = cs.allocate(self.image.x, true);
        let iy = cs.allocate(self.image.y, true);
        let n = self.input.len();
        let mut inputs: Vec<usize> = Vec::new();
        let mut k: usize = 0;
        while k < n
            invariant
                n == self.input@.len(),
                n <= MAX_INPUT_BYTES,
                k <= n,
                ix == 0,
                iy == 1,
                cs.constraints@.len() == 0,
                cs.variables@.len() == k + 2,
                cs.wf(),
                cs.variables@[0] == (Variable { value: self.image.x, public: true }),
                cs.variables@[1] == (Variable { value: self.image.y, public: true }),
                forall|j: int|
                    0 <= j < k ==> (#[trigger] cs.variables@[j + 2]).value.val() == self.input@[j]
                        && !cs.variables@[j + 2].public,
                inputs@.len() == k,
                forall|j: int| 0 <= j < k ==> #[trigger] inputs@[j] == j + 2,
            decreases n - k,
        {
            let v = to_fq(self.input[k] as i64);
            let w = cs.allocate(v, false);
            inputs.push(w);
            k = k + 1;
        }
        let hx = cs.allocate(digest.x, false);
        let hy = cs.allocate(digest.y, false);
        let ghost params_view = self.params@;
        cs.enforce(Constraint::Hash { params: self.params, inputs, x: hx, y: hy });
        cs.enforce(Constraint::Equal(hx, ix));
        cs.enforce(Constraint::Equal(hy, iy));
        if !(digest.x.equals(&self.image.x) && digest.y.equals(&self.image.y)) {
            return Err(SynthesisError::ConstraintViolation);
        }
        proof {
            let vars = cs.variables@;
            assert(holds(vars, cs.constraints@[0]));
            assert(holds(vars, cs.constraints@[1]));
            assert(holds(vars, cs.constraints@[2]));
        }
        Ok(cs)
    }
}

} // verus!
