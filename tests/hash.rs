use ark_bls12_381::{Bls12_381, Fr};
use ark_crypto_primitives::crh::pedersen;
use ark_crypto_primitives::crh::pedersen::constraints::{CRHGadget, CRHParametersVar};
use ark_crypto_primitives::crh::{CRHGadget as CRHGadgetTrait, CRH};
use ark_ec::{AffineCurve, ProjectiveCurve};
use ark_ed_on_bls12_381::constraints::EdwardsVar;
use ark_ed_on_bls12_381::{EdwardsAffine, EdwardsProjective};
use ark_ff::{BigInteger256, PrimeField};
use ark_groth16::{create_random_proof, generate_random_parameters, prepare_verifying_key, verify_proof};
use ark_r1cs_std::alloc::AllocVar;
use ark_r1cs_std::bits::boolean::Boolean;
use ark_r1cs_std::bits::uint8::UInt8;
use ark_r1cs_std::eq::EqGadget;
use ark_r1cs_std::fields::fp::FpVar;
use ark_r1cs_std::ToBitsGadget;
use ark_relations::r1cs::{ConstraintSynthesizer, ConstraintSystem, ConstraintSystemRef, SynthesisError};
use ark_serialize::CanonicalSerialize;
use ark_std::rand::{rngs::StdRng, SeedableRng};
use arkworks_native_gadgets::from_field_elements;
use zk_artifacts::circuit::{Constraint, ConstraintSet, SynthesisError as RelationError};
use zk_artifacts::encode::encode_parameters;
use zk_artifacts::field::FieldElement;
use zk_artifacts::hash::{HashDemo, HashParameters, Point};

#[derive(Clone)]
struct Window;

impl pedersen::Window for Window {
    const WINDOW_SIZE: usize = 4;
    const NUM_WINDOWS: usize = 128;
}

type TestCRH = pedersen::CRH<EdwardsProjective, Window>;
type TestCRHGadget = CRHGadget<EdwardsProjective, EdwardsVar, Window>;

fn fr(e: &FieldElement) -> Fr {
    Fr::from_repr(BigInteger256::new(e.limbs)).unwrap()
}

fn element(f: Fr) -> FieldElement {
    FieldElement { limbs: f.into_repr().0 }
}

fn point(p: &EdwardsAffine) -> Point {
    Point { x: element(p.x), y: element(p.y) }
}

fn to_library(params: &pedersen::Parameters<EdwardsProjective>) -> HashParameters {
    HashParameters {
        generators: params
            .generators
            .iter()
            .map(|row| row.iter().map(|g| point(&g.into_affine())).collect())
            .collect(),
    }
}

fn to_ark(params: &HashParameters) -> pedersen::Parameters<EdwardsProjective> {
    pedersen::Parameters {
        generators: params
            .generators
            .iter()
            .map(|row| {
                row.iter().map(|p| EdwardsAffine::new(fr(&p.x), fr(&p.y)).into_projective()).collect()
            })
            .collect(),
    }
}

/// Hands a constraint set built by the library to the arkworks backend,
/// with the Pedersen gadget for the hash constraint.
fn replay(set: &ConstraintSet, cs: ConstraintSystemRef<Fr>) -> Result<(), SynthesisError> {
    let mut vars: Vec<FpVar<Fr>> = Vec::new();
    for v in set.variables.iter() {
        let value = fr(&v.value);
        vars.push(if v.public {
            FpVar::new_input(cs.clone(), || Ok(value))?
        } else {
            FpVar::new_witness(cs.clone(), || Ok(value))?
        });
    }
    for c in set.constraints.iter() {
        match c {
            Constraint::Mul(a, b, out) => {
                (&vars[*a] * &vars[*b]).enforce_equal(&vars[*out])?
            }
            Constraint::Add(a, b, out) => (&vars[*a] + &vars[*b]).enforce_equal(&vars[*out])?,
            Constraint::Equal(a, b) => vars[*a].enforce_equal(&vars[*b])?,
            Constraint::Hash { params, inputs, x, y } => {
                let pv = CRHParametersVar::<EdwardsProjective, EdwardsVar>::new_constant(
                    cs.clone(),
                    &to_ark(params),
                )?;
                let mut bytes = Vec::new();
                for i in inputs.iter() {
                    let byte = set.variables[*i].value.limbs[0] as u8;
                    let b = UInt8::new_witness(cs.clone(), || Ok(byte))?;
                    Boolean::le_bits_to_fp_var(&b.to_bits_le()?)?.enforce_equal(&vars[*i])?;
                    bytes.push(b);
                }
                let out = <TestCRHGadget as CRHGadgetTrait<TestCRH, Fr>>::evaluate(&pv, &bytes)?;
                out.x.enforce_equal(&vars[*x])?;
                out.y.enforce_equal(&vars[*y])?;
            }
        }
    }
    Ok(())
}

fn setup() -> (pedersen::Parameters<EdwardsProjective>, HashParameters) {
    let mut rng = StdRng::seed_from_u64(0u64);
    let parameters = <TestCRH as CRH>::setup(&mut rng).unwrap();
    let lib = to_library(&parameters);
    (parameters, lib)
}

fn digest(params: &pedersen::Parameters<EdwardsProjective>, input: &[u8]) -> Point {
    point(&<TestCRH as CRH>::evaluate(params, input).unwrap())
}

struct HashCircuit {
    input: Vec<u8>,
    params: pedersen::Parameters<EdwardsProjective>,
    image: Point,
}

impl ConstraintSynthesizer<Fr> for HashCircuit {
    fn generate_constraints(self, cs: ConstraintSystemRef<Fr>) -> Result<(), SynthesisError> {
        let d = digest(&self.params, &self.input);
        let relation =
            HashDemo { input: self.input, params: to_library(&self.params), image: self.image };
        let set = relation.generate_constraints(d).map_err(|_| SynthesisError::Unsatisfiable)?;
        replay(&set, cs)
    }
}

#[test]
fn hash_preimage_is_satisfied() {
    let (ark_params, params) = setup();
    let image = digest(&ark_params, &[30]);
    let relation = HashDemo { input: vec![30], params, image };
    let set = relation.generate_constraints(image).unwrap();
    assert_eq!(set.variables.len(), 5);
    assert!(set.variables[0].public && set.variables[1].public);
    assert_eq!(set.variables[2].value.limbs, [30, 0, 0, 0]);
    assert!(!set.variables[2].public);
    assert!(matches!(set.constraints[1], Constraint::Equal(3, 0)));
    assert!(matches!(set.constraints[2], Constraint::Equal(4, 1)));
    let cs = ConstraintSystem::<Fr>::new_ref();
    replay(&set, cs.clone()).unwrap();
    assert!(cs.is_satisfied().unwrap());
}

#[test]
fn hash_other_preimage_is_violation() {
    let (ark_params, params) = setup();
    let image = digest(&ark_params, &[30]);
    let relation = HashDemo { input: vec![31], params, image };
    let r = relation.generate_constraints(digest(&ark_params, &[31]));
    assert!(matches!(r, Err(RelationError::ConstraintViolation)));
}

#[test]
fn hash_layout_mismatch_is_allocation_error() {
    let (ark_params, params) = setup();
    let image = digest(&ark_params, &[30]);
    let relation = HashDemo { input: vec![0u8; 65], params, image };
    assert!(matches!(relation.generate_constraints(image), Err(RelationError::AllocationError)));
    let (_, mut params) = setup();
    params.generators.pop();
    let relation = HashDemo { input: vec![30], params, image };
    assert!(matches!(relation.generate_constraints(image), Err(RelationError::AllocationError)));
    let (_, mut params) = setup();
    params.generators[7].pop();
    assert!(!params.is_well_formed());
    let relation = HashDemo { input: vec![30], params, image };
    assert!(matches!(relation.generate_constraints(image), Err(RelationError::AllocationError)));
    let (_, params) = setup();
    assert!(params.is_well_formed());
}

#[test]
fn hash_test_cube_proof() {
    let mut rng = StdRng::seed_from_u64(0u64);

    let input = vec![30u8];
    let parameters = <TestCRH as CRH>::setup(&mut rng).unwrap();
    let primitive_result = <TestCRH as CRH>::evaluate(&parameters, input.as_slice()).unwrap();
    let image = point(&primitive_result);
    let circuit = HashCircuit { input: input.clone(), params: parameters.clone(), image };

    let statement = vec![primitive_result.x, primitive_result.y];
    let public_input = from_field_elements(&statement).unwrap();
    println!("public_input: {:?}", public_input);

    let param = generate_random_parameters::<Bls12_381, _, _>(circuit, &mut rng).unwrap();
    let mut vkey_vec = Vec::new();
    param.vk.serialize(&mut vkey_vec).unwrap();
    println!("vkey_vec: {:?}", vkey_vec);

    let circuit = HashCircuit { input, params: parameters, image };
    let proof = create_random_proof(circuit, &param, &mut rng).unwrap();
    let mut proof_vec = Vec::new();
    proof.serialize(&mut proof_vec).unwrap();
    println!("proof_vec: {:?}", proof_vec);

    let pvk = prepare_verifying_key(&param.vk);

    let artifacts = encode_parameters(&proof_vec, &vkey_vec, &public_input);
    assert_eq!(artifacts.len(), 3);
    assert_eq!(artifacts[2].content.len(), 2 + 2 * 64);

    let result = verify_proof(&pvk, &proof, &statement).unwrap();
    println!("verify result is {:?}", result);
    assert!(result);
}
