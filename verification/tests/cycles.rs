use canhttp::client::{
    HttpHeader, HttpMethod, IcHttpRequest, IcHttpRequestWithCycles, TransformContext,
};
use canhttp::cycles::{
    ChargeCaller, ChargeMyself, CyclesAccounting, CyclesAccountingError, CyclesChargingPolicy,
    CyclesCostEstimator, MessageCycles,
};

fn request(url: &str, body: Option<Vec<u8>>, max_response_bytes: Option<u64>) -> IcHttpRequest {
    IcHttpRequest {
        url: url.to_string(),
        max_response_bytes,
        method: HttpMethod::POST,
        headers: vec![HttpHeader {
            name: "Content-Type".to_string(),
            value: "application/json".to_string(),
        }],
        body,
        transform: None,
    }
}

fn empty_request(max_response_bytes: Option<u64>) -> IcHttpRequest {
    IcHttpRequest {
        url: String::new(),
        max_response_bytes,
        method: HttpMethod::GET,
        headers: vec![],
        body: None,
        transform: None,
    }
}

#[test]
fn cost_of_small_request_on_thirteen_nodes() {
    let estimator = CyclesCostEstimator::new(13);
    let request = request("https://example.com", Some(vec![0_u8; 100]), Some(1_000));
    // 19 bytes of URL, 12 + 16 bytes of header, 100 bytes of body.
    let request_bytes = 19 + 12 + 16 + 100;
    let expected = (3_000_000 + 60_000 * 13) * 13 + 400 * 13 * request_bytes + 800 * 13 * 1_000;
    assert_eq!(estimator.cost_of_http_request(&request), expected);
    assert_eq!(expected, 60_304_400);
}

#[test]
fn cost_of_empty_request_is_base_fee_plus_response_fee() {
    let estimator = CyclesCostEstimator::new(13);
    assert_eq!(
        estimator.cost_of_http_request(&empty_request(Some(1_000))),
        49_140_000 + 10_400_000
    );
    assert_eq!(estimator.cost_of_http_request(&empty_request(Some(0))), 49_140_000);
}

#[test]
fn cost_uses_two_megabytes_when_no_response_limit_is_set() {
    let estimator = CyclesCostEstimator::new(34);
    let with_default = estimator.cost_of_http_request(&empty_request(None));
    let with_explicit = estimator.cost_of_http_request(&empty_request(Some(2_000_000)));
    assert_eq!(with_default, with_explicit);
    assert_eq!(with_default, (3_000_000 + 60_000 * 34) * 34 + 800 * 34 * 2_000_000);
    assert_eq!(with_default, 54_571_360_000);
    assert_eq!(CyclesCostEstimator::DEFAULT_MAX_RESPONSE_BYTES, 2_000_000);
}

#[test]
fn cost_counts_url_in_bytes_not_characters() {
    let estimator = CyclesCostEstimator::new(1);
    let mut request = empty_request(Some(0));
    let base = estimator.cost_of_http_request(&request);
    request.url = "é".to_string();
    assert_eq!(estimator.cost_of_http_request(&request), base + 400 * 2);
}

#[test]
fn cost_counts_transform_name_and_context() {
    let estimator = CyclesCostEstimator::new(13);
    let mut request = empty_request(Some(0));
    let base = estimator.cost_of_http_request(&request);
    request.transform = Some(TransformContext {
        canister: vec![1, 2, 3],
        method: "cleanup".to_string(),
        context: vec![0; 5],
    });
    assert_eq!(estimator.cost_of_http_request(&request), base + 400 * 13 * (7 + 5));
}

#[test]
fn cost_counts_every_header() {
    let estimator = CyclesCostEstimator::new(2);
    let mut request = empty_request(Some(0));
    let base = estimator.cost_of_http_request(&request);
    request.headers = vec![
        HttpHeader { name: "a".to_string(), value: "bc".to_string() },
        HttpHeader { name: "def".to_string(), value: "".to_string() },
        HttpHeader { name: "".to_string(), value: "ghij".to_string() },
    ];
    assert_eq!(estimator.cost_of_http_request(&request), base + 400 * 2 * 10);
}

#[test]
fn fees_follow_the_formula() {
    let estimator = CyclesCostEstimator::new(13);
    assert_eq!(estimator.num_nodes_as_u128(), 13);
    assert_eq!(estimator.base_fee(), 49_140_000);
    assert_eq!(estimator.request_fee(0), 0);
    assert_eq!(estimator.request_fee(1), 5_200);
    assert_eq!(estimator.request_fee(1_000), 5_200_000);
    assert_eq!(estimator.response_fee(0), 0);
    assert_eq!(estimator.response_fee(1), 10_400);
    assert_eq!(estimator.response_fee(2_000_000), 20_800_000_000);
}

#[test]
fn fees_on_a_subnet_without_nodes_are_zero() {
    let estimator = CyclesCostEstimator::new(0);
    assert_eq!(estimator.base_fee(), 0);
    assert_eq!(estimator.request_fee(u128::MAX), 0);
    assert_eq!(estimator.response_fee(u128::MAX), 0);
    assert_eq!(estimator.cost_of_http_request(&empty_request(None)), 0);
}

#[test]
fn fees_saturate_instead_of_overflowing() {
    let estimator = CyclesCostEstimator::new(u32::MAX);
    assert_eq!(estimator.request_fee(u128::MAX), u128::MAX);
    assert_eq!(estimator.response_fee(u128::MAX), u128::MAX);
    assert_eq!(estimator.request_fee(u128::MAX / 400), u128::MAX);
    let one_node = CyclesCostEstimator::new(1);
    assert_eq!(one_node.request_fee(u128::MAX / 400), (u128::MAX / 400) * 400);
    assert_eq!(one_node.request_fee(u128::MAX / 400 + 1), u128::MAX);
    assert_eq!(one_node.response_fee(u128::MAX / 800), (u128::MAX / 800) * 800);
    assert_eq!(one_node.response_fee(u128::MAX / 800 + 1), u128::MAX);
}

#[test]
fn cost_for_the_largest_inputs_does_not_overflow() {
    let estimator = CyclesCostEstimator::new(u32::MAX);
    let cost = estimator.cost_of_http_request(&empty_request(Some(u64::MAX)));
    let n = u32::MAX as u128;
    assert_eq!(cost, (3_000_000 + 60_000 * n) * n + 800 * n * (u64::MAX as u128));
    assert!(cost < u128::MAX);
}

#[test]
fn cost_is_monotonic_in_nodes_request_bytes_and_response_bytes() {
    let nodes = [0_u32, 1, 13, 34, 1_000, u32::MAX];
    let bodies = [0_usize, 1, 10, 1_000];
    let limits = [0_u64, 1, 1_000, 2_000_000, u64::MAX];
    let mut previous_by_nodes = 0;
    for n in nodes {
        let estimator = CyclesCostEstimator::new(n);
        let cost = estimator.cost_of_http_request(&request("u", Some(vec![0; 10]), Some(10)));
        assert!(cost >= previous_by_nodes);
        previous_by_nodes = cost;
        let mut previous_by_body = 0;
        for body in bodies {
            let cost = estimator.cost_of_http_request(&request("u", Some(vec![0; body]), Some(10)));
            assert!(cost >= previous_by_body);
            previous_by_body = cost;
        }
        let mut previous_by_limit = 0;
        for limit in limits {
            let cost = estimator.cost_of_http_request(&request("u", None, Some(limit)));
            assert!(cost >= previous_by_limit);
            previous_by_limit = cost;
        }
    }
}

#[test]
fn message_cycles_accept_at_most_what_is_available() {
    let mut cycles = MessageCycles::new(500);
    assert_eq!(cycles.available(), 500);
    assert_eq!(cycles.accept(200), 200);
    assert_eq!(cycles.available(), 300);
    assert_eq!(cycles.accept(1_000), 300);
    assert_eq!(cycles.available(), 0);
    assert_eq!(cycles.accept(1), 0);
}

#[test]
fn charge_myself_charges_nothing() {
    let policy = ChargeMyself::default();
    let mut cycles = MessageCycles::new(700);
    let charged = policy.charge_cycles(&empty_request(None), 1_000_000, &mut cycles);
    assert_eq!(charged, Ok(0));
    assert_eq!(cycles.available(), 700);
}

#[test]
fn charge_caller_fails_without_debit_when_cycles_are_insufficient() {
    let policy = ChargeCaller::new(|_request: &IcHttpRequest, cost: u128| cost);
    let mut cycles = MessageCycles::new(500);
    let charged = policy.charge_cycles(&empty_request(None), 1_000, &mut cycles);
    assert_eq!(
        charged,
        Err(CyclesAccountingError::InsufficientCyclesError { expected: 1_000, received: 500 })
    );
    assert_eq!(cycles.available(), 500);
}

#[test]
fn charge_caller_debits_exactly_the_cost_when_cycles_suffice() {
    let policy = ChargeCaller::new(|_request: &IcHttpRequest, cost: u128| cost);
    let mut cycles = MessageCycles::new(1_000);
    let charged = policy.charge_cycles(&empty_request(None), 1_000, &mut cycles);
    assert_eq!(charged, Ok(1_000));
    assert_eq!(cycles.available(), 0);

    let mut cycles = MessageCycles::new(1_500);
    let charged = policy.charge_cycles(&empty_request(None), 1_000, &mut cycles);
    assert_eq!(charged, Ok(1_000));
    assert_eq!(cycles.available(), 500);
}

#[test]
fn charge_caller_charges_what_its_function_says() {
    let policy = ChargeCaller::new(|request: &IcHttpRequest, cost: u128| {
        cost + request.url.len() as u128
    });
    let mut cycles = MessageCycles::new(2_000);
    let charged = policy.charge_cycles(&request("12345", None, None), 1_000, &mut cycles);
    assert_eq!(charged, Ok(1_005));
    assert_eq!(cycles.available(), 995);
}

#[test]
fn charge_caller_charging_zero_never_fails() {
    let policy = ChargeCaller::new(|_request: &IcHttpRequest, _cost: u128| 0);
    let mut cycles = MessageCycles::new(0);
    assert_eq!(policy.charge_cycles(&empty_request(None), 1_000, &mut cycles), Ok(0));
    assert_eq!(cycles.available(), 0);
}

#[test]
fn charge_caller_works_as_a_charging_policy() {
    fn charge<P: CyclesChargingPolicy>(
        policy: &P,
        cycles: &mut MessageCycles,
    ) -> Result<u128, P::Error> {
        policy.charge_cycles(&empty_request(None), 40, cycles)
    }
    let policy = ChargeCaller::new(|_request: &IcHttpRequest, cost: u128| 2 * cost);
    let mut cycles = MessageCycles::new(100);
    assert_eq!(charge(&policy, &mut cycles), Ok(80));
    assert_eq!(
        charge(&policy, &mut cycles),
        Err(CyclesAccountingError::InsufficientCyclesError { expected: 80, received: 20 })
    );
    assert_eq!(charge(&ChargeMyself {}, &mut cycles), Ok(0));
    assert_eq!(cycles.available(), 20);
}

#[test]
fn accounting_charges_nothing_when_the_canister_pays_itself() {
    let mut accounting = CyclesAccounting::new(13, ChargeMyself::default());
    let request = empty_request(Some(1_000));
    let mut cycles = MessageCycles::new(700);
    let converted = accounting.try_convert(request.clone(), &mut cycles);
    assert_eq!(converted, Ok(IcHttpRequestWithCycles { request, cycles: 0 }));
    assert_eq!(cycles.available(), 700);
}

#[test]
fn accounting_charges_the_caller_the_cost_and_attaches_it() {
    let mut accounting =
        CyclesAccounting::new(13, ChargeCaller::new(|_request: &IcHttpRequest, cost: u128| cost));
    let request = empty_request(Some(1_000));
    let mut cycles = MessageCycles::new(60_000_000);
    let converted = accounting.try_convert(request.clone(), &mut cycles);
    assert_eq!(converted, Ok(IcHttpRequestWithCycles { request, cycles: 59_540_000 }));
    assert_eq!(cycles.available(), 60_000_000 - 59_540_000);
}

#[test]
fn accounting_attaches_what_the_policy_charged() {
    let mut accounting =
        CyclesAccounting::new(13, ChargeCaller::new(|_request: &IcHttpRequest, cost: u128| cost + 1));
    let request = empty_request(Some(1_000));
    let mut cycles = MessageCycles::new(60_000_000);
    let converted = accounting.try_convert(request.clone(), &mut cycles);
    assert_eq!(converted, Ok(IcHttpRequestWithCycles { request, cycles: 59_540_001 }));
    assert_eq!(cycles.available(), 60_000_000 - 59_540_001);
}

#[test]
fn accounting_fails_before_any_outcall_when_the_caller_cannot_pay() {
    let mut accounting =
        CyclesAccounting::new(13, ChargeCaller::new(|_request: &IcHttpRequest, cost: u128| cost));
    let mut cycles = MessageCycles::new(59_539_999);
    let converted = accounting.try_convert(empty_request(Some(1_000)), &mut cycles);
    assert_eq!(
        converted,
        Err(CyclesAccountingError::InsufficientCyclesError {
            expected: 59_540_000,
            received: 59_539_999
        })
    );
    assert_eq!(cycles.available(), 59_539_999);
}
