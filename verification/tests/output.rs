use alabaster::error::PackageError;
use alabaster::output::{needs_listing, plan_preparation, Preparation};

#[test]
fn missing_output_is_created() {
    assert_eq!(plan_preparation("out", false, false, false), Ok(Preparation::Create));
    assert_eq!(plan_preparation("out", false, true, false), Ok(Preparation::Create));
    assert_eq!(plan_preparation("out", false, false, true), Ok(Preparation::Create));
    assert_eq!(plan_preparation("out", false, true, true), Ok(Preparation::Create));
}

#[test]
fn empty_output_is_used_as_it_is() {
    assert_eq!(plan_preparation("out", true, false, false), Ok(Preparation::Reuse));
}

#[test]
fn non_empty_output_is_refused_without_force() {
    assert_eq!(
        plan_preparation("build/out", true, false, true),
        Err(PackageError::OutputNotEmpty { output: "build/out".to_string() })
    );
}

#[test]
fn forced_output_is_recreated_whatever_it_holds() {
    assert_eq!(plan_preparation("out", true, true, true), Ok(Preparation::Recreate));
    assert_eq!(plan_preparation("out", true, true, false), Ok(Preparation::Recreate));
}

#[test]
fn only_an_unforced_existing_output_is_listed() {
    assert!(needs_listing(true, false));
    assert!(!needs_listing(true, true));
    assert!(!needs_listing(false, false));
    assert!(!needs_listing(false, true));
}
