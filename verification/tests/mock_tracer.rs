use test_optimization::boundary::Call;
use test_optimization::boundary::Plan;
use test_optimization::boundary::Reply;
use test_optimization::mock_tracer::MockSpan;
use test_optimization::mock_tracer::MockTracer;
use test_optimization::text::CText;
use test_optimization::time::topt_UnixTime;
use test_optimization::time::EpochOffset;
use test_optimization::wire::KeyNumberRecord;
use test_optimization::wire::KeyValueRecord;
use test_optimization::wire::MockSpanRecord;

fn wire(s: &str) -> Option<CText> {
    Some(CText::new(s).unwrap())
}

fn pair(key: &str, value: &str) -> KeyValueRecord {
    KeyValueRecord { key: wire(key), value: wire(value) }
}

fn number(key: &str, value: f64) -> KeyNumberRecord {
    KeyNumberRecord { key: wire(key), value_bits: value.to_bits() }
}

fn owned(key: &str, value: &str) -> (String, String) {
    (key.to_string(), value.to_string())
}

#[test]
fn mock_tracer_calls_are_planned() {
    assert_eq!(MockTracer::reset(), Plan::Call(Call::MockTracerReset));
    assert_eq!(MockTracer::get_finished_spans(), Plan::Call(Call::MockTracerGetFinishedSpans));
    assert_eq!(MockTracer::get_open_spans(), Plan::Call(Call::MockTracerGetOpenSpans));
}

#[test]
fn text_tags_are_read_in_order_of_first_occurrence() {
    let array = Some(vec![pair("b", "1"), pair("a", "2"), pair("c", "3")]);
    assert_eq!(
        MockTracer::convert_key_value_array(&array),
        vec![owned("b", "1"), owned("a", "2"), owned("c", "3")]
    );
}

#[test]
fn a_tag_written_twice_holds_the_last_value() {
    let array = Some(vec![pair("k", "first"), pair("other", "x"), pair("k", "last")]);
    assert_eq!(
        MockTracer::convert_key_value_array(&array),
        vec![owned("k", "last"), owned("other", "x")]
    );
}

#[test]
fn null_array_and_null_texts_read_as_empty() {
    assert_eq!(MockTracer::convert_key_value_array(&None), vec![]);
    assert_eq!(MockTracer::convert_key_value_array(&Some(vec![])), vec![]);
    let array = Some(vec![
        KeyValueRecord { key: None, value: wire("v") },
        KeyValueRecord { key: wire("k"), value: None },
    ]);
    assert_eq!(
        MockTracer::convert_key_value_array(&array),
        vec![owned("", "v"), owned("k", "")]
    );
    assert_eq!(MockTracer::convert_key_number_array(&None), vec![]);
}

#[test]
fn number_tags_hold_the_bits_of_their_numbers() {
    let array = Some(vec![number("n", 42.0), number("m", -0.5), number("n", 43.0)]);
    let tags = MockTracer::convert_key_number_array(&array);
    assert_eq!(
        tags,
        vec![("n".to_string(), 43f64.to_bits()), ("m".to_string(), (-0.5f64).to_bits())]
    );
    assert_eq!(f64::from_bits(tags[0].1), 43.0);
}

fn record(span_id: u64, parent: u64, name: &str) -> MockSpanRecord {
    MockSpanRecord {
        span_id,
        trace_id: 900,
        parent_span_id: parent,
        start_time: topt_UnixTime { sec: 100, nsec: 5 },
        finish_time: topt_UnixTime { sec: 101, nsec: 1_500_000_000 },
        operation_name: wire(name),
        string_tags: Some(vec![pair("k", "v"), pair("k", "w")]),
        number_tags: Some(vec![number("n", 1.0)]),
    }
}

fn span(span_id: u64, parent: u64, name: &str) -> MockSpan {
    MockSpan {
        span_id,
        trace_id: 900,
        parent_span_id: parent,
        start_time: EpochOffset { secs: 100, subsec_nanos: 5 },
        finish_time: EpochOffset { secs: 102, subsec_nanos: 500_000_000 },
        operation_name: name.to_string(),
        string_tags: vec![owned("k", "w")],
        number_tags: vec![("n".to_string(), 1f64.to_bits())],
    }
}

#[test]
fn a_span_is_read_field_by_field() {
    assert_eq!(MockTracer::convert_mock_span(&record(7, 3, "test")), Some(span(7, 3, "test")));
}

#[test]
fn a_span_without_name_or_tags_reads_as_empty() {
    let mut wire_span = record(7, 3, "x");
    wire_span.operation_name = None;
    wire_span.string_tags = None;
    wire_span.number_tags = None;
    let mut want = span(7, 3, "");
    want.string_tags = vec![];
    want.number_tags = vec![];
    assert_eq!(MockTracer::convert_mock_span(&wire_span), Some(want));
}

#[test]
fn a_span_whose_time_does_not_fit_is_not_read() {
    let mut wire_span = record(7, 3, "x");
    wire_span.finish_time = topt_UnixTime { sec: u64::MAX, nsec: 1_000_000_000 };
    assert_eq!(MockTracer::convert_mock_span(&wire_span), None);
    let mut wire_span = record(7, 3, "x");
    wire_span.start_time = topt_UnixTime { sec: u64::MAX, nsec: 2_000_000_000 };
    assert_eq!(MockTracer::convert_mock_span(&wire_span), None);
}

#[test]
fn spans_are_read_in_order() {
    let array = Some(vec![record(1, 0, "session"), record(2, 1, "module")]);
    assert_eq!(
        MockTracer::convert_mock_span_array(&array),
        Some(vec![span(1, 0, "session"), span(2, 1, "module")])
    );
    assert_eq!(MockTracer::convert_mock_span_array(&None), Some(vec![]));
    assert_eq!(MockTracer::convert_mock_span_array(&Some(vec![])), Some(vec![]));
}

#[test]
fn one_span_that_cannot_be_read_spoils_the_array() {
    let mut broken = record(2, 1, "module");
    broken.start_time = topt_UnixTime { sec: u64::MAX, nsec: u64::MAX };
    let array = Some(vec![record(1, 0, "session"), broken, record(3, 2, "suite")]);
    assert_eq!(MockTracer::convert_mock_span_array(&array), None);
}

#[test]
fn spans_are_read_from_the_answer() {
    let reply = Reply::MockSpans(Some(vec![record(1, 0, "session")]));
    assert_eq!(MockTracer::spans_from_reply(&reply), Some(vec![span(1, 0, "session")]));
    assert_eq!(MockTracer::spans_from_reply(&Reply::MockSpans(None)), Some(vec![]));
    assert_eq!(MockTracer::spans_from_reply(&Reply::settled(false)), Some(vec![]));
}
