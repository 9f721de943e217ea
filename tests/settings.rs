use gfx_core::settings::{
    CustomStrOption, IntOption, SetOptionError, StrListOption, Validate, ValidateError,
};

#[derive(Debug)]
struct NonEmpty;

impl Validate for NonEmpty {
    fn rules(&self) -> &str {
        "must not be empty"
    }

    fn validate(&self, value: &str) -> Result<(), ValidateError> {
        if value.is_empty() {
            Err(ValidateError::new(String::from("empty value")))
        } else {
            Ok(())
        }
    }
}

#[test]
fn custom_str_option_with_validator() {
    let o = CustomStrOption::new(String::from("vulkan"), Some(NonEmpty)).unwrap();
    assert_eq!(o.current_value(), "vulkan");
    assert_eq!(o.rules(), "must not be empty");
    assert!(o.validate("gl").is_ok());
    assert_eq!(o.validate(""), Err(ValidateError::Message(String::from("empty value"))));
    assert!(CustomStrOption::new(String::new(), Some(NonEmpty)).is_err());
}

#[test]
fn custom_str_option_without_validator() {
    let o = CustomStrOption::<NonEmpty>::new(String::new(), None).unwrap();
    assert_eq!(o.rules(), "");
    assert!(o.validate("").is_ok());
    assert_eq!(o.current_value(), "");
}

#[test]
fn str_list_option_bounds() {
    let variants = vec![String::from("low"), String::from("mid"), String::from("high")];
    let o = StrListOption::new(2, variants.clone()).unwrap();
    assert_eq!(o.current_value(), 2);
    assert_eq!(o.variants_len(), 3);
    assert_eq!(o.variant(1), "mid");
    assert_eq!(o.iter().len(), 3);
    assert!(o.validate(0).is_ok());
    assert_eq!(o.validate(3), Err(ValidateError::IndexOutOfRange { value: 3, len: 3 }));
    assert!(matches!(
        StrListOption::new(3, variants),
        Err(ValidateError::IndexOutOfRange { value: 3, len: 3 })
    ));
    assert!(StrListOption::new(0, Vec::new()).is_err());
    assert!(StrListOption::validate_inner(0, &[String::from("a")]).is_ok());
}

#[test]
fn int_option_range() {
    let o = IntOption::new(-5, 10, 10).unwrap();
    assert_eq!(o.current_value(), 10);
    assert_eq!((o.min(), o.max()), (-5, 10));
    assert!(o.validate().is_ok());
    assert_eq!(IntOption::new(0, 10, 11), Err(ValidateError::OutOfRange { min: 0, max: 10, value: 11 }));
    assert_eq!(IntOption::new(0, 10, -1), Err(ValidateError::OutOfRange { min: 0, max: 10, value: -1 }));
    assert_eq!(IntOption::new(3, 2, 2), Err(ValidateError::MinAboveMax { min: 3, max: 2 }));
    assert!(IntOption::new(7, 7, 7).is_ok());
}

#[test]
fn set_option_error_hands_value_back() {
    let e = SetOptionError::new(ValidateError::new(String::from("bad")), 42u32);
    assert_eq!(e.error(), &ValidateError::Message(String::from("bad")));
    assert_eq!(e.take_value(), 42);
}
