use canhttp::convert::{
    service_fn, Convert, ConvertError, ConvertRequest, ConvertResponse, CreateResponseFilter,
    Filter, FilterResponse, Service, Then,
};
use std::cell::RefCell;

#[derive(Debug, Clone, PartialEq, Eq)]
enum StageError {
    NotANumber(String),
    TooLarge(u64),
    Odd(u64),
    Transport(String),
}

struct Parse;

impl Convert<String> for Parse {
    type Output = u64;
    type Error = StageError;

    fn try_convert(&mut self, input: String) -> Result<u64, StageError> {
        input.parse::<u64>().map_err(|_| StageError::NotANumber(input))
    }
}

struct Double;

impl Convert<u64> for Double {
    type Output = u64;
    type Error = StageError;

    fn try_convert(&mut self, input: u64) -> Result<u64, StageError> {
        if input > 1_000 {
            Err(StageError::TooLarge(input))
        } else {
            Ok(2 * input)
        }
    }
}

struct Show;

impl Convert<u64> for Show {
    type Output = String;
    type Error = StageError;

    fn try_convert(&mut self, input: u64) -> Result<String, StageError> {
        Ok(format!("<{input}>"))
    }
}

struct EvenOnly {
    request: String,
}

impl Filter<u64> for EvenOnly {
    type Error = StageError;

    fn filter(&mut self, input: u64) -> Result<u64, StageError> {
        if input % 2 == 0 {
            Ok(input)
        } else {
            Err(StageError::Odd(input + self.request.len() as u64))
        }
    }
}

struct CreateEvenOnly;

impl CreateResponseFilter<String, u64> for CreateEvenOnly {
    type Filter = EvenOnly;
    type Error = StageError;

    fn create_filter(&self, request: &String) -> EvenOnly {
        EvenOnly { request: request.clone() }
    }
}

#[test]
fn then_runs_the_second_converter_on_the_output_of_the_first() {
    let mut both = Then::new(Parse, Double);
    assert_eq!(both.try_convert("21".to_string()), Ok(42));
}

#[test]
fn then_stops_at_the_first_failure() {
    let mut both = Then::new(Parse, Double);
    assert_eq!(
        both.try_convert("x".to_string()),
        Err(StageError::NotANumber("x".to_string()))
    );
    assert_eq!(both.try_convert("1001".to_string()), Err(StageError::TooLarge(1001)));
}

#[test]
fn composition_of_converters_is_associative_on_examples() {
    for input in ["0", "21", "1000", "1001", "abc", "", "18446744073709551615"] {
        let mut left = Then::new(Then::new(Parse, Double), Show);
        let mut right = Then::new(Parse, Then::new(Double, Show));
        assert_eq!(left.try_convert(input.to_string()), right.try_convert(input.to_string()));
    }
    let mut left = Then::new(Then::new(Parse, Double), Show);
    assert_eq!(left.try_convert("21".to_string()), Ok("<42>".to_string()));
}

#[test]
fn convert_request_does_not_call_the_service_when_conversion_fails() {
    let calls = RefCell::new(0);
    let inner = service_fn(|request: u64| -> Result<u64, StageError> {
        *calls.borrow_mut() += 1;
        Ok(request + 1)
    });
    let mut service = ConvertRequest::new(inner, Parse);
    assert_eq!(service.call("41".to_string()), Ok(42));
    assert_eq!(*calls.borrow(), 1);
    assert_eq!(
        service.call("forty-one".to_string()),
        Err(StageError::NotANumber("forty-one".to_string()))
    );
    assert_eq!(*calls.borrow(), 1);
}

#[test]
fn convert_response_does_not_convert_when_the_service_fails() {
    let conversions = RefCell::new(0);
    struct Counting<'a>(&'a RefCell<u32>);
    impl Convert<u64> for Counting<'_> {
        type Output = u64;
        type Error = StageError;
        fn try_convert(&mut self, input: u64) -> Result<u64, StageError> {
            *self.0.borrow_mut() += 1;
            Ok(input * 10)
        }
    }
    let inner = service_fn(|request: u64| -> Result<u64, StageError> {
        if request == 0 {
            Err(StageError::Transport("down".to_string()))
        } else {
            Ok(request)
        }
    });
    let mut service = ConvertResponse::new(inner, Counting(&conversions));
    assert_eq!(service.call(4), Ok(40));
    assert_eq!(*conversions.borrow(), 1);
    assert_eq!(service.call(0), Err(StageError::Transport("down".to_string())));
    assert_eq!(*conversions.borrow(), 1);
}

#[test]
fn filter_response_checks_the_response_with_the_filter_made_for_the_request() {
    let inner = service_fn(|request: String| -> Result<u64, StageError> {
        request.parse::<u64>().map_err(|_| StageError::Transport(request))
    });
    let mut service = FilterResponse::new(inner, CreateEvenOnly);
    assert_eq!(service.call("42".to_string()), Ok(42));
    assert_eq!(service.call("43".to_string()), Err(StageError::Odd(45)));
    assert_eq!(
        service.call("no".to_string()),
        Err(StageError::Transport("no".to_string()))
    );
}

#[test]
fn request_layers_compose_on_examples() {
    for input in ["0", "21", "1000", "1001", "abc"] {
        let inner = || {
            service_fn(|request: u64| -> Result<String, StageError> {
                if request == 0 {
                    Err(StageError::Transport("zero".to_string()))
                } else {
                    Ok(format!("[{request}]"))
                }
            })
        };
        let mut nested = ConvertRequest::new(ConvertRequest::new(inner(), Double), Parse);
        let mut combined = ConvertRequest::new(inner(), Then::new(Parse, Double));
        assert_eq!(nested.call(input.to_string()), combined.call(input.to_string()));
    }
}

#[test]
fn response_layers_compose_on_examples() {
    for input in [0_u64, 1, 21, 1_000, 1_001] {
        let inner = || {
            service_fn(|request: u64| -> Result<u64, StageError> {
                if request == 0 {
                    Err(StageError::Transport("zero".to_string()))
                } else {
                    Ok(request)
                }
            })
        };
        let mut nested = ConvertResponse::new(ConvertResponse::new(inner(), Double), Show);
        let mut combined = ConvertResponse::new(inner(), Then::new(Double, Show));
        assert_eq!(nested.call(input), combined.call(input));
    }
}

#[derive(Debug, PartialEq, Eq)]
struct Unified(String);

impl From<StageError> for Unified {
    fn from(error: StageError) -> Self {
        Unified(format!("{error:?}"))
    }
}

#[test]
fn convert_error_converts_only_errors() {
    let mut converter: ConvertError<Parse, Unified> = ConvertError::new(Parse);
    assert_eq!(converter.try_convert("7".to_string()), Ok(7));
    assert_eq!(
        converter.try_convert("seven".to_string()),
        Err(Unified("NotANumber(\"seven\")".to_string()))
    );

    let inner = service_fn(|request: u64| -> Result<u64, StageError> {
        if request == 0 {
            Err(StageError::Transport("zero".to_string()))
        } else {
            Ok(request)
        }
    });
    let mut service: ConvertError<_, Unified> = ConvertError::new(inner);
    assert_eq!(service.call(3), Ok(3));
    assert_eq!(service.call(0), Err(Unified("Transport(\"zero\")".to_string())));

    let make: ConvertError<CreateEvenOnly, Unified> = ConvertError::new(CreateEvenOnly);
    let mut filter = make.create_filter(&"ab".to_string());
    assert_eq!(filter.filter(4), Ok(4));
    assert_eq!(filter.filter(5), Err(Unified("Odd(7)".to_string())));
}
