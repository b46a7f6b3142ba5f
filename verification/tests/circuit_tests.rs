use fibo_xor::layout::configure;
use fibo_xor::layout::CsBuilder;
use fibo_xor::layout::FiboConfig;
use fibo_xor::oracle::get_sequence;
use fibo_xor::table::load_xor_table;

use halo2_proofs::circuit::AssignedCell;
use halo2_proofs::circuit::Layouter;
use halo2_proofs::circuit::SimpleFloorPlanner;
use halo2_proofs::circuit::Value;
use halo2_proofs::dev::MockProver;
use halo2_proofs::pasta::group::ff::PrimeField;
use halo2_proofs::pasta::EqAffine;
use halo2_proofs::pasta::Fp;
use halo2_proofs::plonk::keygen_vk;
use halo2_proofs::plonk::Circuit;
use halo2_proofs::plonk::ConstraintSystem;
use halo2_proofs::plonk::Error;
use halo2_proofs::poly::commitment::Params;

type Num = AssignedCell<Fp, Fp>;

fn fp_low_u64(f: &Fp) -> u64 {
    let repr = f.to_repr();
    let mut bytes = [0u8; 8];
    bytes.copy_from_slice(&repr[0..8]);
    u64::from_le_bytes(bytes)
}

fn load_table(cfg: &FiboConfig, layouter: &mut impl Layouter<Fp>) -> Result<(), Error> {
    layouter.assign_table(
        || "xor",
        |mut table| {
            let rows = load_xor_table();
            let mut idx: usize = 0;
            while idx < rows.len() {
                let (l, r, o) = rows[idx];
                table.assign_cell(|| "lhs", cfg.xor_table[0], idx, || {
                    Value::known(Fp::from(l))
                })?;
                table.assign_cell(|| "rhs", cfg.xor_table[1], idx, || {
                    Value::known(Fp::from(r))
                })?;
                table.assign_cell(|| "lhs ^ rhs", cfg.xor_table[2], idx, || {
                    Value::known(Fp::from(o))
                })?;
                idx += 1;
            }
            Ok(())
        },
    )
}

fn load_private(
    cfg: &FiboConfig,
    layouter: &mut impl Layouter<Fp>,
    a: Value<Fp>,
    b: Value<Fp>,
    c: Value<Fp>,
) -> Result<(Num, Num, Num), Error> {
    layouter.assign_region(
        || "private",
        |mut region| {
            let an = region.assign_advice(|| "a", cfg.advice[0].0, 0, || a)?;
            let bn = region.assign_advice(|| "b", cfg.advice[1].0, 0, || b)?;
            let cn = region.assign_advice(|| "c", cfg.advice[2].0, 0, || c)?;
            Ok((an, bn, cn))
        },
    )
}

fn add(
    cfg: &FiboConfig,
    layouter: &mut impl Layouter<Fp>,
    a: &Num,
    b: &Num,
    extra: u64,
) -> Result<Num, Error> {
    layouter.assign_region(
        || "add",
        |mut region| {
            cfg.s_add.enable(&mut region, 0)?;
            a.copy_advice(|| "lhs", &mut region, cfg.advice[0].0, 0)?;
            b.copy_advice(|| "rhs", &mut region, cfg.advice[1].0, 0)?;
            let value = a.value().copied() + b.value().copied() + Value::known(Fp::from(extra));
            region.assign_advice(|| "out", cfg.advice[2].0, 0, || value)
        },
    )
}

fn xor(
    cfg: &FiboConfig,
    layouter: &mut impl Layouter<Fp>,
    a: &Num,
    b: &Num,
) -> Result<Num, Error> {
    layouter.assign_region(
        || "xor",
        |mut region| {
            cfg.s_xor.enable(&mut region, 0)?;
            a.copy_advice(|| "lhs", &mut region, cfg.advice[0].0, 0)?;
            b.copy_advice(|| "rhs", &mut region, cfg.advice[1].0, 0)?;
            let value = a
                .value()
                .zip(b.value())
                .map(|(x, y)| Fp::from(fp_low_u64(x) ^ fp_low_u64(y)));
            region.assign_advice(|| "out", cfg.advice[2].0, 0, || value)
        },
    )
}

struct TestCircuit {
    a: Value<Fp>,
    b: Value<Fp>,
    c: Value<Fp>,
    num: usize,
    tamper: bool,
}

impl Circuit<Fp> for TestCircuit {
    type Config = FiboConfig;
    type FloorPlanner = SimpleFloorPlanner;

    fn without_witnesses(&self) -> Self {
        TestCircuit {
            a: Value::unknown(),
            b: Value::unknown(),
            c: Value::unknown(),
            num: 0,
            tamper: false,
        }
    }

    fn configure(meta: &mut ConstraintSystem<Fp>) -> FiboConfig {
        let taken = std::mem::take(meta);
        let mut builder = CsBuilder(taken);
        let cfg = configure(&mut builder);
        *meta = builder.0;
        cfg
    }

    fn synthesize(
        &self,
        config: FiboConfig,
        mut layouter: impl Layouter<Fp>,
    ) -> Result<(), Error> {
        load_table(&config, &mut layouter.namespace(|| "lookup table"))?;
        let (mut a, mut b, mut c) = load_private(
            &config,
            &mut layouter.namespace(|| "first row"),
            self.a,
            self.b,
            self.c,
        )?;
        let mut i: usize = 3;
        while i < self.num {
            let x = xor(&config, &mut layouter.namespace(|| "xor"), &b, &c)?;
            let extra: u64 = if self.tamper && i == self.num - 1 { 1 } else { 0 };
            let new_c = add(&config, &mut layouter.namespace(|| "add"), &a, &x, extra)?;
            a = b;
            b = c;
            c = new_c;
            i += 1;
        }
        Ok(())
    }
}

fn known_circuit(num: usize, tamper: bool) -> TestCircuit {
    let seq = get_sequence(1, 3, 2, num);
    TestCircuit {
        a: Value::known(Fp::from(seq[0])),
        b: Value::known(Fp::from(seq[1])),
        c: Value::known(Fp::from(seq[2])),
        num,
        tamper,
    }
}

#[test]
fn configure_twice_yields_identical_descriptors() {
    let mut b1 = CsBuilder(ConstraintSystem::<Fp>::default());
    let mut b2 = CsBuilder(ConstraintSystem::<Fp>::default());
    let cfg1 = configure(&mut b1);
    let cfg2 = configure(&mut b2);
    let mut k: usize = 0;
    while k < 3 {
        assert_eq!(cfg1.advice[k].0, cfg2.advice[k].0);
        assert_eq!(cfg1.xor_table[k], cfg2.xor_table[k]);
        k += 1;
    }
    assert_eq!(cfg1.s_add, cfg2.s_add);
    assert_eq!(cfg1.s_xor, cfg2.s_xor);
}

#[test]
fn witness_satisfies_the_real_circuit() {
    let circuit = known_circuit(14, false);
    let prover = MockProver::run(11, &circuit, vec![]).unwrap();
    assert!(prover.verify().is_ok());
}

#[test]
fn tampered_output_fails_verification() {
    let circuit = known_circuit(14, true);
    let prover = MockProver::run(11, &circuit, vec![]).unwrap();
    assert!(prover.verify().is_err());
}

#[test]
fn shape_only_compilation_succeeds() {
    let params: Params<EqAffine> = Params::new(11);
    let circuit = known_circuit(14, false).without_witnesses();
    assert!(keygen_vk(&params, &circuit).is_ok());
}

#[test]
fn out_of_domain_operands_fail_real_verification() {
    let seq = get_sequence(40, 50, 60, 4);
    let circuit = TestCircuit {
        a: Value::known(Fp::from(seq[0])),
        b: Value::known(Fp::from(seq[1])),
        c: Value::known(Fp::from(seq[2])),
        num: 4,
        tamper: false,
    };
    let prover = MockProver::run(11, &circuit, vec![]).unwrap();
    assert!(prover.verify().is_err());
}
