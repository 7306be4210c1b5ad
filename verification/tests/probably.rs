use probably::rewrap;
use probably::Branch;
use probably::Nothing;
use probably::Probably;
use probably::ProcessOutcome;
use probably::Something;

#[test]
fn it_works() {
    let result: i32 = 2 + 2;
    assert_eq!(result, 4);
}

#[test]
fn from_option_works() {
    let some = Some(42u8);
    let sth: Probably<u8> = some.into();
    assert_eq!(sth, Something(42u8));
}

#[test]
fn from_unit_works() {
    let unit = ();
    let sth: Probably<()> = unit.into();
    assert_eq!(sth, Something(()));
}

#[test]
fn from_some_works() {
    let unit = Some(());
    let sth: Probably<()> = unit.into();
    assert_eq!(sth, Something(()));
}

#[test]
fn wrap_then_to_native() {
    let wrapped: Probably<u8> = 9u8.into();
    let native: Option<u8> = wrapped.into();
    assert_eq!(native, Some(9u8));
    let empty: Option<u8> = Nothing::<u8>.into();
    assert_eq!(empty, None);
}

#[test]
fn native_round_trip() {
    let full: Probably<u8> = Something(5u8);
    let native: Option<u8> = full.into();
    let back: Probably<u8> = native.into();
    assert_eq!(back, Something(5u8));

    let empty: Probably<u8> = Nothing;
    let native: Option<u8> = empty.into();
    let back: Probably<u8> = native.into();
    assert_eq!(back, Nothing::<u8>);
}

#[test]
fn flatten_collapses_one_level() {
    let x: Probably<Probably<u32>> = Something(Something(6));
    assert_eq!(Something(6), x.flatten());

    let x: Probably<Probably<u32>> = Something(Nothing);
    assert_eq!(Nothing::<u32>, x.flatten());

    let x: Probably<Probably<u32>> = Nothing;
    assert_eq!(Nothing::<u32>, x.flatten());
}

#[test]
fn flatten_is_not_recursive() {
    let x: Probably<Probably<Probably<u32>>> = Something(Something(Something(6)));
    assert_eq!(Something(Something(6)), x.flatten());
    assert_eq!(Something(6), x.flatten().flatten());
}

#[test]
fn nothing_sorts_first() {
    assert!(Nothing::<u8> < Something(0u8));
    assert!(Nothing::<u8> < Something(255u8));
    assert!(!(Something(0u8) < Nothing::<u8>));
    assert!(Something(1u8) < Something(2u8));
}

#[test]
fn equality_is_an_equivalence() {
    let a: Probably<u8> = Something(7u8);
    let b: Probably<u8> = Something(7u8);
    let c: Probably<u8> = Something(7u8);
    assert!(a == a);
    assert!(a == b && b == a);
    assert!(a == b && b == c && a == c);

    let n: Probably<u8> = Nothing;
    assert!(n == n);
    assert!(n != a && a != n);
    assert!(Something(7u8) != Something(8u8));
}

#[test]
fn report_maps_presence_to_success() {
    assert_eq!(Something(3u8).report(), ProcessOutcome::Success);
    assert_eq!(Nothing::<u8>.report(), ProcessOutcome::Failure);
    assert_eq!(ProcessOutcome::Success.exit_code(), 0u8);
    assert_eq!(ProcessOutcome::Failure.exit_code(), 1u8);
}

#[test]
fn no_arguments_reports_failure() {
    let value = Probably::from_args(Vec::new());
    assert_eq!(format!("{:?}", value), "Nothing");
    assert_eq!(value.report().exit_code(), 1u8);
}

#[test]
fn two_arguments_report_success() {
    let args = vec!["Probably".to_string(), "Nothing".to_string()];
    let value = Probably::from_args(args);
    assert_eq!(format!("{:?}", value), "Something([\"Probably\", \"Nothing\"])");
    assert_eq!(value.report().exit_code(), 0u8);
}

#[test]
fn extraction_short_circuits_on_nothing() {
    let empty: Probably<Vec<String>> = Nothing;
    assert_eq!(rewrap(empty), Nothing::<Vec<String>>);
}

#[test]
fn extraction_continues_on_something() {
    let full: Probably<Vec<String>> = Something(vec!["a".to_string(), "b".to_string()]);
    let out = rewrap(full);
    assert_eq!(out, Something(vec!["a".to_string(), "b".to_string()]));
}

#[test]
fn branch_exposes_the_payload() {
    match Something(5u8).branch() {
        Branch::Continue(v) => assert_eq!(v, 5u8),
        Branch::Break(_) => panic!("a payload was present"),
    }
    match Nothing::<u8>.branch() {
        Branch::Continue(_) => panic!("no payload was present"),
        Branch::Break(residual) => {
            let back: Probably<u8> = Probably::from_residual(residual);
            assert_eq!(back, Nothing::<u8>);
        },
    }
}

#[test]
fn default_is_nothing() {
    let d: Probably<u8> = Default::default();
    assert_eq!(d, Nothing::<u8>);
}

#[test]
fn variant_queries() {
    assert!(Nothing::<u8>.is_nothing());
    assert!(!Nothing::<u8>.is_something());
    assert!(Something(1u8).is_something());
    assert!(!Something(1u8).is_nothing());
}

#[test]
fn from_output_wraps() {
    assert_eq!(Probably::from_output(4u8), Something(4u8));
}
