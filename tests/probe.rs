use register_probe::{demo_cases, run_demos, ProbeCase, ProbeError, Register, Source, Width};

#[test]
fn demos_all_match() {
    let seen = run_demos().unwrap();
    assert_eq!(
        seen,
        vec![
            17,
            0xff00_0000_0000_0000,
            0x1234_5678_90ab_cdef,
            0x90ab_cdef,
            0xcdef,
            0xef,
            2,
            3,
            4,
            0xfe00_fe00_fe00_fe00,
        ]
    );
}

#[test]
fn demo_cases_expect_what_they_observe() {
    let cases = demo_cases();
    assert_eq!(cases.len(), 10);
    let mut reg = Register::new(0);
    for case in &cases {
        let observed = case.run(&mut reg);
        assert_eq!(observed, case.expected());
        assert_eq!(case.check(observed), Ok(observed));
    }
}

#[test]
fn new_rejects_values_that_do_not_fit() {
    assert_eq!(ProbeCase::new(Source::Immediate, Width::W8, 0x100, Width::W8), None);
    assert_eq!(ProbeCase::new(Source::Variable, Width::W32, 0x1_0000_0000, Width::W16), None);
}

#[test]
fn new_rejects_reads_wider_than_the_store() {
    assert_eq!(ProbeCase::new(Source::Immediate, Width::W16, 1, Width::W32), None);
    assert_eq!(ProbeCase::new(Source::Immediate, Width::W32, 1, Width::W64), None);
}

#[test]
fn new_accepts_a_valid_probe() {
    let c = ProbeCase::new(Source::Variable, Width::W64, 0x1234_5678_90ab_cdef, Width::W16).unwrap();
    assert_eq!(c.source, Source::Variable);
    assert_eq!(c.store_width, Width::W64);
    assert_eq!(c.value, 0x1234_5678_90ab_cdef);
    assert_eq!(c.read_width, Width::W16);
    assert_eq!(c.expected(), 0xcdef);
    let mut reg = Register::new(0);
    assert_eq!(c.run(&mut reg), 0xcdef);
    assert_eq!(reg.read(Width::W64), 0x1234_5678_90ab_cdef);
}

#[test]
fn check_reports_a_mismatch() {
    let c = ProbeCase::new(Source::Immediate, Width::W32, 17, Width::W32).unwrap();
    assert_eq!(c.check(17), Ok(17));
    assert_eq!(
        c.check(18),
        Err(ProbeError::AssertionMismatch { expected: 17, observed: 18 })
    );
}
