use poclib::double::Double;
use poclib::error::Error;
use poclib::option::OptionType;
use poclib::request::{select, Formula};

fn d(x: f64) -> Double {
    Double::from_bits(x.to_bits())
}

fn reason(r: Result<Formula, Error>) -> String {
    match r {
        Ok(_) => panic!("expected a rejection"),
        Err(e) => e.message(),
    }
}

#[test]
fn call_is_priced_by_the_closed_form() {
    assert_eq!(select(OptionType::Call, d(100.0), d(100.0), d(1.0)), Ok(Formula::Call));
}

#[test]
fn put_is_priced_through_parity() {
    assert_eq!(
        select(OptionType::Put, d(100.0), d(100.0), d(1.0)),
        Ok(Formula::CallThenParity)
    );
}

#[test]
fn rejected_whatever_the_kind() {
    assert_eq!(reason(select(OptionType::Call, d(0.0), d(100.0), d(1.0))), "spot must be positive");
    assert_eq!(reason(select(OptionType::Put, d(0.0), d(100.0), d(1.0))), "spot must be positive");
    assert_eq!(
        reason(select(OptionType::Put, d(100.0), d(0.0), d(1.0))),
        "strike must be positive"
    );
    assert_eq!(
        reason(select(OptionType::Call, d(100.0), d(100.0), d(-0.0001))),
        "time must be non-negative"
    );
}

#[test]
fn expiry_now_is_accepted() {
    assert_eq!(select(OptionType::Call, d(100.0), d(90.0), d(0.0)), Ok(Formula::Call));
    assert_eq!(select(OptionType::Put, d(100.0), d(90.0), d(0.0)), Ok(Formula::CallThenParity));
}

#[test]
fn nan_inputs_are_rejected_whatever_the_kind() {
    assert_eq!(
        reason(select(OptionType::Call, d(f64::NAN), d(100.0), d(1.0))),
        "spot must be positive"
    );
    assert_eq!(
        reason(select(OptionType::Put, d(100.0), d(f64::NAN), d(1.0))),
        "strike must be positive"
    );
    assert_eq!(
        reason(select(OptionType::Put, d(100.0), d(100.0), d(f64::NAN))),
        "time must be non-negative"
    );
}
