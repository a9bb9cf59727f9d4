//! The mock tracer of the engine: a capture of spans for debugging, read
//! back as values of the client.
//!
//! The mock tracer serves the client's own tests. Its calls address no
//! entity, so they are planned whatever the state of a session; they are
//! meaningful only while the engine is up with its mock tracer.

use crate::boundary::Call;
use crate::boundary::CallView;
use crate::boundary::Plan;
use crate::boundary::PlanView;
use crate::boundary::Reply;
use crate::grouping::fold_last_wins;
use crate::grouping::last_wins;
use crate::grouping::pair_names;
use crate::grouping::pair_values;
use crate::grouping::views;
use crate::text::inbound_text;
use crate::text::text_from_wire;
use crate::time::convert_unix_time;
use crate::time::epoch_offset;
use crate::time::topt_UnixTime;
use crate::time::EpochOffset;
use crate::time::NANOS_PER_SEC;
use crate::wire::KeyNumberRecord;
use crate::wire::KeyValueRecord;
use crate::wire::MockSpanRecord;
use vstd::prelude::*;

verus! {

/// A span captured by the mock tracer. Each tag name occurs once; a number
/// tag holds the bits of the 64-bit floating-point form of its number.
#[derive(Debug, Clone, PartialEq, Eq)]
pub struct MockSpan {
    pub span_id: u64,
    pub trace_id: u64,
    pub parent_span_id: u64,
    pub start_time: EpochOffset,
    pub finish_time: EpochOffset,
    pub operation_name: String,
    pub string_tags: Vec<(String, String)>,
    pub number_tags: Vec<(String, u64)>,
}

/// A [`MockSpan`] with its texts seen as characters.
pub struct MockSpanView {
    pub span_id: u64,
    pub trace_id: u64,
    pub parent_span_id: u64,
    pub start_time: EpochOffset,
    pub finish_time: EpochOffset,
    pub operation_name: Seq<char>,
    pub string_tags: Seq<(Seq<char>, Seq<char>)>,
    pub number_tags: Seq<(Seq<char>, u64)>,
}

impl View for MockSpan {
    type V = MockSpanView;

    open spec fn view(&self) -> MockSpanView {
        MockSpanView {
            span_id: self.span_id,
            trace_id: self.trace_id,
            parent_span_id: self.parent_span_id,
            start_time: self.start_time,
            finish_time: self.finish_time,
            operation_name: self.operation_name@,
            string_tags: views(self.string_tags@),
            number_tags: views(self.number_tags@),
        }
    }
}

/// The text tags that an array of the boundary stands for: each key once,
/// by first occurrence, with the value that was written last. An array
/// with a null pointer stands for no tags, and a null key or value for the
/// empty text.
pub open spec fn string_tags_of(array: Option<Vec<KeyValueRecord>>) -> Seq<(Seq<char>, Seq<char>)> {
    match array {
        None => Seq::empty(),
        Some(pairs) => last_wins(
            pairs@.map_values(|p: KeyValueRecord| inbound_text(p.key)),
            pairs@.map_values(|p: KeyValueRecord| inbound_text(p.value)),
        ),
    }
}

/// The number tags that an array of the boundary stands for: each key once,
/// by first occurrence, with the number that was written last.
pub open spec fn number_tags_of(array: Option<Vec<KeyNumberRecord>>) -> Seq<(Seq<char>, u64)> {
    match array {
        None => Seq::empty(),
        Some(pairs) => last_wins(
            pairs@.map_values(|p: KeyNumberRecord| inbound_text(p.key)),
            pairs@.map_values(|p: KeyNumberRecord| p.value_bits),
        ),
    }
}

/// Whether both times of a record can be held as offsets from the epoch.
pub open spec fn has_times(record: MockSpanRecord) -> bool {
    epoch_offset(record.start_time) is Some && epoch_offset(record.finish_time) is Some
}

/// The span that a record with both times stands for.
pub open spec fn span_of(record: MockSpanRecord) -> MockSpanView {
    MockSpanView {
        span_id: record.span_id,
        trace_id: record.trace_id,
        parent_span_id: record.parent_span_id,
        start_time: epoch_offset(record.start_time)->Some_0,
        finish_time: epoch_offset(record.finish_time)->Some_0,
        operation_name: inbound_text(record.operation_name),
        string_tags: string_tags_of(record.string_tags),
        number_tags: number_tags_of(record.number_tags),
    }
}

/// The spans that an array of the boundary stands for, in its order; none
/// at all where some time in it cannot be held. An array with a null
/// pointer stands for no spans.
pub open spec fn spans_of(array: Option<Vec<MockSpanRecord>>) -> Option<Seq<MockSpanView>> {
    match array {
        None => Some(Seq::empty()),
        Some(records) => if forall|i: int|
            0 <= i < records@.len() ==> has_times(#[trigger] records@[i]) {
            Some(records@.map_values(|r: MockSpanRecord| span_of(r)))
        } else {
            None
        },
    }
}

/// The spans that an answer stands for: those of its array, and no spans
/// for an answer that holds none.
pub open spec fn spans_of_reply(reply: Reply) -> Option<Seq<MockSpanView>> {
    match reply {
        Reply::MockSpans(array) => spans_of(array),
        _ => Some(Seq::empty()),
    }
}

/// What a reading of spans holds, with the spans seen through their views.
pub open spec fn spans_view(spans: Option<Vec<MockSpan>>) -> Option<Seq<MockSpanView>> {
    match spans {
        Some(spans) => Some(views(spans@)),
        None => None,
    }
}

/// The mock tracer of the engine.
#[derive(Debug, Clone, Copy, PartialEq, Eq, Structural)]
pub struct MockTracer;

impl MockTracer {
    /// Plans dropping what the mock tracer has captured.
    pub fn reset() -> (plan: Plan)
        ensures
            plan@ == PlanView::Call(CallView::MockTracerReset),
    {
        Plan::Call(Call::MockTracerReset)
    }

    /// Plans fetching the spans that have finished.
    pub fn get_finished_spans() -> (plan: Plan)
        ensures
            plan@ == PlanView::Call(CallView::MockTracerGetFinishedSpans),
    {
        Plan::Call(Call::MockTracerGetFinishedSpans)
    }

    /// Plans fetching the spans that are still open.
    pub fn get_open_spans() -> (plan: Plan)
        ensures
            plan@ == PlanView::Call(CallView::MockTracerGetOpenSpans),
    {
        Plan::Call(Call::MockTracerGetOpenSpans)
    }

    /// Converts a timestamp of the boundary into an offset from the epoch,
    /// or nothing where the seconds no longer fit.
    pub fn convert_unix_time(ut: &topt_UnixTime) -> (r: Option<EpochOffset>)
        ensures
            r == epoch_offset(*ut),
            r matches Some(d) ==> d.subsec_nanos < NANOS_PER_SEC,
    {
        convert_unix_time(ut)
    }

    /// Reads the text tags of a span.
    pub fn convert_key_value_array(array: &Option<Vec<KeyValueRecord>>) -> (tags: Vec<
        (String, String),
    >)
        ensures
            views(tags@) == string_tags_of(*array),
    {
        match array {
            None => {
                let tags: Vec<(String, String)> = Vec::new();
                assert(views(tags@) =~= Seq::empty());
                tags
            },
            Some(pairs) => {
                let mut read: Vec<(String, String)> = Vec::new();
                let mut i: usize = 0;
                while i < pairs.len()
                    invariant
                        0 <= i <= pairs.len(),
                        read.len() == i,
                        forall|j: int|
                            0 <= j < i ==> (#[trigger] read@[j]).0@ == inbound_text(pairs@[j].key)
                                && read@[j].1@ == inbound_text(pairs@[j].value),
                    decreases pairs.len() - i,
                {
                    read.push((text_from_wire(&pairs[i].key), text_from_wire(&pairs[i].value)));
                    i = i + 1;
                }
                proof {
                    assert(pair_names(read@) =~= pairs@.map_values(
                        |p: KeyValueRecord| inbound_text(p.key),
                    ));
                    assert(pair_values(read@) =~= pairs@.map_values(
                        |p: KeyValueRecord| inbound_text(p.value),
                    ));
                }
                fold_last_wins(&read)
            },
        }
    }

    /// Reads the number tags of a span.
    pub fn convert_key_number_array(array: &Option<Vec<KeyNumberRecord>>) -> (tags: Vec<
        (String, u64),
    >)
        ensures
            views(tags@) == number_tags_of(*array),
    {
        match array {
            None => {
                let tags: Vec<(String, u64)> = Vec::new();
                assert(views(tags@) =~= Seq::empty());
                tags
            },
            Some(pairs) => {
                let mut read: Vec<(String, u64)> = Vec::new();
                let mut i: usize = 0;
                while i < pairs.len()
                    invariant
                        0 <= i <= pairs.len(),
                        read.len() == i,
                        forall|j: int|
                            0 <= j < i ==> (#[trigger] read@[j]).0@ == inbound_text(pairs@[j].key)
                                && read@[j].1 == pairs@[j].value_bits,
                    decreases pairs.len() - i,
                {
                    read.push((text_from_wire(&pairs[i].key), pairs[i].value_bits));
                    i = i + 1;
                }
                proof {
                    assert(pair_names(read@) =~= pairs@.map_values(
                        |p: KeyNumberRecord| inbound_text(p.key),
                    ));
                    assert(pair_values(read@) =~= pairs@.map_values(
                        |p: KeyNumberRecord| p.value_bits,
                    ));
                }
                fold_last_wins(&read)
            },
        }
    }

    /// Reads one span, or nothing where one of its times cannot be held.
    pub fn convert_mock_span(mock: &MockSpanRecord) -> (r: Option<MockSpan>)
        ensures
            r is Some <==> has_times(*mock),
            r matches Some(span) ==> span@ == span_of(*mock),
    {
        let start_time = match convert_unix_time(&mock.start_time) {
            Some(offset) => offset,
            None => {
                return None;
            },
        };
        let finish_time = match convert_unix_time(&mock.finish_time) {
            Some(offset) => offset,
            None => {
                return None;
            },
        };
        Some(
            MockSpan {
                span_id: mock.span_id,
                trace_id: mock.trace_id,
                parent_span_id: mock.parent_span_id,
                start_time,
                finish_time,
                operation_name: text_from_wire(&mock.operation_name),
                string_tags: Self::convert_key_value_array(&mock.string_tags),
                number_tags: Self::convert_key_number_array(&mock.number_tags),
            },
        )
    }

    /// Reads the spans of an array in its order, or nothing where a time in
    /// it cannot be held.
    pub fn convert_mock_span_array(array: &Option<Vec<MockSpanRecord>>) -> (r: Option<
        Vec<MockSpan>,
    >)
        ensures
            spans_view(r) == spans_of(*array),
    {
        let mut spans: Vec<MockSpan> = Vec::new();
        match array {
            None => {
                assert(views(spans@) =~= Seq::empty());
                Some(spans)
            },
            Some(records) => {
                let mut i: usize = 0;
                while i < records.len()
                    invariant
                        0 <= i <= records.len(),
                        *array == Some(*records),
                        spans.len() == i,
                        forall|j: int| 0 <= j < i ==> has_times(#[trigger] records@[j]),
                        forall|j: int| 0 <= j < i ==> (#[trigger] spans@[j])@ == span_of(records@[j]),
                    decreases records.len() - i,
                {
                    match Self::convert_mock_span(&records[i]) {
                        Some(span) => {
                            spans.push(span);
                        },
                        None => {
                            assert(!has_times(records@[i as int]));
                            return None;
                        },
                    }
                    i = i + 1;
                }
                proof {
                    assert(views(spans@) =~= records@.map_values(|r: MockSpanRecord| span_of(r)));
                }
                Some(spans)
            },
        }
    }

    /// Reads the spans from the engine's answer. An answer that holds no
    /// spans reads as no spans.
    pub fn spans_from_reply(reply: &Reply) -> (r: Option<Vec<MockSpan>>)
        ensures
            spans_view(r) == spans_of_reply(*reply),
    {
        match reply {
            Reply::MockSpans(array) => Self::convert_mock_span_array(array),
            _ => {
                let spans: Vec<MockSpan> = Vec::new();
                assert(views(spans@) =~= Seq::empty());
                Some(spans)
            },
        }
    }
}

} // verus!
