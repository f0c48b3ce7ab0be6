use one_pass::fund::wire::{classify, Fund, GetFundResponse, Probe, ProbeOutcome, UpstreamReply};

fn probe() -> Probe {
    Probe {
        uid: 600002,
        amount: 250000,
        transaction_id: "corr-1".to_string(),
        request_id: "req-1".to_string(),
    }
}

fn answered(status: u16, code: i32, request_id: &str) -> UpstreamReply {
    UpstreamReply::Answered {
        status,
        body: Some(GetFundResponse {
            code,
            request_id: request_id.to_string(),
            msg: "ok".to_string(),
            data: String::new(),
        }),
    }
}

#[test]
fn code_200_is_a_debit_of_the_amount_asked() {
    assert_eq!(classify(&probe(), &answered(200, 200, "req-1")), ProbeOutcome::Consumed(250000));
}

#[test]
fn code_501_is_insufficient() {
    assert_eq!(classify(&probe(), &answered(200, 501, "req-1")), ProbeOutcome::Insufficient);
}

#[test]
fn code_404_is_not_found() {
    assert_eq!(classify(&probe(), &answered(200, 404, "req-1")), ProbeOutcome::NotFound);
}

#[test]
fn any_other_code_is_business_other() {
    assert_eq!(classify(&probe(), &answered(200, 500, "req-1")), ProbeOutcome::BusinessOther(500));
    assert_eq!(classify(&probe(), &answered(200, 0, "req-1")), ProbeOutcome::BusinessOther(0));
    assert_eq!(classify(&probe(), &answered(200, -1, "req-1")), ProbeOutcome::BusinessOther(-1));
    assert_eq!(classify(&probe(), &answered(200, 504, "req-1")), ProbeOutcome::BusinessOther(504));
}

#[test]
fn status_504_is_a_gateway_timeout_whatever_the_body() {
    assert_eq!(classify(&probe(), &answered(504, 200, "req-1")), ProbeOutcome::GatewayTimeout);
    assert_eq!(
        classify(&probe(), &UpstreamReply::Answered { status: 504, body: None }),
        ProbeOutcome::GatewayTimeout
    );
}

#[test]
fn any_other_status_is_a_transport_error() {
    for status in [0u16, 100, 201, 204, 301, 400, 404, 500, 501, 502, 503, 505] {
        assert_eq!(
            classify(&probe(), &answered(status, 200, "req-1")),
            ProbeOutcome::TransportError
        );
    }
}

#[test]
fn a_failed_request_is_a_transport_error() {
    assert_eq!(classify(&probe(), &UpstreamReply::Failed), ProbeOutcome::TransportError);
}

#[test]
fn an_unparseable_body_is_a_transport_error() {
    assert_eq!(
        classify(&probe(), &UpstreamReply::Answered { status: 200, body: None }),
        ProbeOutcome::TransportError
    );
}

#[test]
fn a_foreign_request_id_is_a_transport_error() {
    assert_eq!(classify(&probe(), &answered(200, 200, "req-2")), ProbeOutcome::TransportError);
    assert_eq!(classify(&probe(), &answered(200, 501, "")), ProbeOutcome::TransportError);
    assert_eq!(classify(&probe(), &answered(200, 404, "corr-1")), ProbeOutcome::TransportError);
    assert_eq!(classify(&probe(), &answered(200, 200, "REQ-1")), ProbeOutcome::TransportError);
}

#[test]
fn funds_compare_by_user_and_amount() {
    let fund = Fund { uid: 600001, amount: 8891 };
    assert_eq!(fund, Fund { uid: 600001, amount: 8891 });
    assert_ne!(fund, Fund { uid: 600001, amount: 8892 });
}
