use vstd::prelude::*;

verus! {

/// Why a setting value was refused.
#[derive(Debug, Clone, PartialEq, Eq)]
pub enum ValidateError {
    /// Refused by a validator, which said why.
    Message(String),
    /// A list choice beyond the end of the list.
    IndexOutOfRange { value: usize, len: usize },
    /// An integer range whose minimum lies above its maximum.
    MinAboveMax { min: i64, max: i64 },
    /// An integer outside its range.
    OutOfRange { min: i64, max: i64, value: i64 },
}

impl ValidateError {
    pub fn new(msg: String) -> (r: Self)
        ensures
            r == ValidateError::Message(msg),
    {
        ValidateError::Message(msg)
    }
}

/// A value that could not be set, with why; the value is handed back.
pub struct SetOptionError<T> {
    error: ValidateError,
    value: T,
}

impl<T> SetOptionError<T> {
    pub closed spec fn error_view(&self) -> ValidateError {
        self.error
    }

    pub closed spec fn value_view(&self) -> T {
        self.value
    }

    pub fn new(error: ValidateError, value: T) -> (r: Self)
        ensures
            r.error_view() == error,
            r.value_view() == value,
    {
        SetOptionError { error, value }
    }

    pub fn error(&self) -> (r: &ValidateError)
        ensures
            *r == self.error_view(),
    {
        &self.error
    }

    pub fn take_value(self) -> (r: T)
        ensures
            r == self.value_view(),
    {
        self.value
    }
}

/// Rules for a free-text setting, given by whoever declares the setting.
pub trait Validate {
    /// The rules, in words.
    fn rules(&self) -> (r: &str);

    /// Accepts `value`, or says why not.
    fn validate(&self, value: &str) -> (r: Result<(), ValidateError>);
}

/// A free-text setting, with an optional validator.
pub struct CustomStrOption<V> {
    value: String,
    validator: Option<V>,
}

impl<V: Validate> CustomStrOption<V> {
    pub closed spec fn value_view(&self) -> Seq<char> {
        self.value@
    }

    pub closed spec fn validator_view(&self) -> Option<V> {
        self.validator
    }

    /// A setting holding `value`; without a validator it is always accepted,
    /// with one it is refused exactly when the validator refuses it.
    pub fn new(value: String, validator: Option<V>) -> (r: Result<Self, ValidateError>)
        ensures
            validator is None ==> r is Ok,
            r matches Ok(o) ==> o.value_view() == value@ && o.validator_view() == validator,
    {
        match &validator {
            Some(v) => {
                let checked = v.validate(value.as_str());
                match checked {
                    Ok(()) => {},
                    Err(e) => {
                        return Err(e);
                    },
                }
            },
            None => {},
        }
        Ok(CustomStrOption { value, validator })
    }

    /// The validator's rules in words; empty without a validator.
    pub fn rules(&self) -> (r: &str)
        ensures
            self.validator_view() is None ==> r@ == Seq::<char>::empty(),
    {
        match &self.validator {
            None => {
                proof {
                    reveal_strlit("");
                }
                ""
            },
            Some(v) => v.rules(),
        }
    }

    /// Whether `value` could be set.
    pub fn validate(&self, value: &str) -> (r: Result<(), ValidateError>)
        ensures
            self.validator_view() is None ==> r is Ok,
    {
        match &self.validator {
            None => Ok(()),
            Some(v) => v.validate(value),
        }
    }

    pub fn current_value(&self) -> (r: &str)
        ensures
            r@ == self.value_view(),
    {
        self.value.as_str()
    }
}

/// A choice among a list of named variants, held as an index.
pub struct StrListOption {
    value: usize,
    variants: Vec<String>,
}

impl StrListOption {
    pub closed spec fn value_view(&self) -> usize {
        self.value
    }

    pub closed spec fn variants_view(&self) -> Seq<String> {
        self.variants@
    }

    /// The index is valid: it names one of the variants.
    pub open spec fn wf(&self) -> bool {
        self.value_view() < self.variants_view().len()
    }

    /// A choice of `variants[value]`, refused when there is no such variant.
    pub fn new(value: usize, variants: Vec<String>) -> (r: Result<Self, ValidateError>)
        ensures
            r is Ok <==> value < variants@.len(),
            r matches Ok(o) ==> o.value_view() == value && o.variants_view() == variants@ && o.wf(),
            r matches Err(e) ==> e == (ValidateError::IndexOutOfRange {
                value,
                len: variants@.len() as usize,
            }),
    {
        match Self::validate_inner(value, variants.as_slice()) {
            Ok(()) => Ok(StrListOption { value, variants }),
            Err(e) => Err(e),
        }
    }

    pub fn variants_len(&self) -> (r: usize)
        ensures
            r == self.variants_view().len(),
    {
        self.variants.len()
    }

    pub fn current_value(&self) -> (r: usize)
        ensures
            r == self.value_view(),
    {
        self.value
    }

    /// The name of variant `index`.
    pub fn variant(&self, index: usize) -> (r: &String)
        requires
            index < self.variants_view().len(),
        ensures
            *r == self.variants_view()[index as int],
    {
        &self.variants[index]
    }

    /// The names of all variants, in order.
    pub fn iter(&self) -> (r: &[String])
        ensures
            r@ == self.variants_view(),
    {
        self.variants.as_slice()
    }

    /// Whether `value` would name a variant.
    pub fn validate(&self, value: usize) -> (r: Result<(), ValidateError>)
        ensures
            r is Ok <==> value < self.variants_view().len(),
            r matches Err(e) ==> e == (ValidateError::IndexOutOfRange {
                value,
                len: self.variants_view().len() as usize,
            }),
    {
        Self::validate_inner(value, self.variants.as_slice())
    }

    /// Whether `value` names one of `variants`.
    pub fn validate_inner(value: usize, variants: &[String]) -> (r: Result<(), ValidateError>)
        ensures
            r is Ok <==> value < variants@.len(),
            r matches Err(e) ==> e == (ValidateError::IndexOutOfRange {
                value,
                len: variants@.len() as usize,
            }),
    {
        if value >= variants.len() {
            return Err(ValidateError::IndexOutOfRange { value, len: variants.len() });
        }
        Ok(())
    }
}

/// An integer setting within an inclusive range.
#[derive(Debug, Clone, Copy, PartialEq, Eq, Structural)]
pub struct IntOption {
    value: i64,
    min: i64,
    max: i64,
}

/// What the range check of an integer setting answers.
pub open spec fn int_check(min: i64, max: i64, value: i64) -> Result<(), ValidateError> {
    if min > max {
        Err(ValidateError::MinAboveMax { min, max })
    } else if value < min || value > max {
        Err(ValidateError::OutOfRange { min, max, value })
    } else {
        Ok(())
    }
}

impl IntOption {
    pub closed spec fn value_view(&self) -> i64 {
        self.value
    }

    pub closed spec fn min_view(&self) -> i64 {
        self.min
    }

    pub closed spec fn max_view(&self) -> i64 {
        self.max
    }

    /// An integer setting of `value` in `[min, max]`, refused when the range
    /// is empty or does not hold the value.
    pub fn new(min: i64, max: i64, value: i64) -> (r: Result<Self, ValidateError>)
        ensures
            r is Ok <==> int_check(min, max, value) is Ok,
            r matches Err(e) ==> int_check(min, max, value) == Err::<(), ValidateError>(e),
            r matches Ok(o) ==> o.value_view() == value && o.min_view() == min && o.max_view()
                == max,
    {
        match Self::validate_inner(min, max, value) {
            Ok(()) => Ok(IntOption { value, min, max }),
            Err(e) => Err(e),
        }
    }

    fn validate_inner(min: i64, max: i64, value: i64) -> (r: Result<(), ValidateError>)
        ensures
            r == int_check(min, max, value),
    {
        if min > max {
            return Err(ValidateError::MinAboveMax { min, max });
        }
        if value < min || value > max {
            return Err(ValidateError::OutOfRange { min, max, value });
        }
        Ok(())
    }

    /// Checks the setting's value against its range again.
    pub fn validate(&self) -> (r: Result<(), ValidateError>)
        ensures
            r == int_check(self.min_view(), self.max_view(), self.value_view()),
    {
        Self::validate_inner(self.min, self.max, self.value)
    }

    pub fn current_value(&self) -> (r: i64)
        ensures
            r == self.value_view(),
    {
        self.value
    }

    pub fn min(&self) -> (r: i64)
        ensures
            r == self.min_view(),
    {
        self.min
    }

    pub fn max(&self) -> (r: i64)
        ensures
            r == self.max_view(),
    {
        self.max
    }
}

} // verus!
