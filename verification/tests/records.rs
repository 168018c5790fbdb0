use jaegercat::error::DecodeError;
use jaegercat::field::OptionalList;
use jaegercat::thrift::{Batch, Log, Process, Span, SpanRef, Tag, TagValue, Tags};
use jaegercat::wire::{DataKind, Value};
use thrift_codec::data::{Field, List, Struct};

fn string_tag(key: &str, value: &str) -> Struct {
    Struct::new(vec![Field::new(1, key), Field::new(2, 0i32), Field::new(3, value)])
}

fn long_tag(key: &str, value: i64) -> Struct {
    Struct::new(vec![Field::new(1, key), Field::new(2, 3i32), Field::new(6, value)])
}

fn reference(kind: i32, low: i64, high: i64, span: i64) -> Struct {
    Struct::new(vec![
        Field::new(1, kind),
        Field::new(2, low),
        Field::new(3, high),
        Field::new(4, span),
    ])
}

fn plain_span(low: i64, high: i64, id: i64, parent: i64) -> Vec<Field> {
    vec![
        Field::new(1, low),
        Field::new(2, high),
        Field::new(3, id),
        Field::new(4, parent),
        Field::new(5, "operation"),
        Field::new(7, 1i32),
        Field::new(8, 1_600_000_000_000_000i64),
        Field::new(9, 2_500_000i64),
    ]
}

fn without(fields: Vec<Field>, id: i16) -> Struct {
    Struct::new(fields.into_iter().filter(|f| f.id() != id).collect())
}

fn with(mut fields: Vec<Field>, field: Field) -> Struct {
    fields.retain(|f| f.id() != field.id());
    fields.push(field);
    Struct::new(fields)
}

#[test]
fn tag_of_each_kind_reads_its_own_field() {
    let all_values = |kind: i32| {
        Struct::new(vec![
            Field::new(1, "k"),
            Field::new(2, kind),
            Field::new(3, "s"),
            Field::new(4, 2.5f64),
            Field::new(5, true),
            Field::new(6, 42i64),
            Field::new(7, vec![1u8, 2, 3]),
        ])
    };
    let tag = |kind: i32| Tag::try_from_data(Value::Struct(&all_values(kind)));
    assert_eq!(tag(0), Ok(Tag { key: "k".into(), value: TagValue::String("s".into()) }));
    assert_eq!(tag(1), Ok(Tag { key: "k".into(), value: TagValue::F64(2.5f64.to_bits()) }));
    assert_eq!(tag(2), Ok(Tag { key: "k".into(), value: TagValue::Bool(true) }));
    assert_eq!(tag(3), Ok(Tag { key: "k".into(), value: TagValue::I64(42) }));
    assert_eq!(tag(4), Ok(Tag { key: "k".into(), value: TagValue::Binary(vec![1, 2, 3]) }));
}

#[test]
fn tag_of_unknown_kind_is_refused() {
    for kind in [5, -1, 100, i32::MAX, i32::MIN] {
        let s = Struct::new(vec![Field::new(1, "k"), Field::new(2, kind), Field::new(3, "s")]);
        assert_eq!(
            Tag::try_from_data(Value::Struct(&s)),
            Err(DecodeError::UnknownTagKind { kind })
        );
    }
}

#[test]
fn bool_tag_reads_field_5() {
    let s = Struct::new(vec![Field::new(1, "flag"), Field::new(2, 2i32), Field::new(5, false)]);
    assert_eq!(
        Tag::try_from_data(Value::Struct(&s)),
        Ok(Tag { key: "flag".into(), value: TagValue::Bool(false) })
    );
}

#[test]
fn bool_tag_without_field_5_is_refused() {
    let s = Struct::new(vec![
        Field::new(1, "flag"),
        Field::new(2, 2i32),
        Field::new(3, "true"),
        Field::new(4, 1.0f64),
        Field::new(6, 1i64),
        Field::new(7, vec![1u8]),
    ]);
    assert_eq!(Tag::try_from_data(Value::Struct(&s)), Err(DecodeError::MissingField { id: 5 }));
}

#[test]
fn bool_tag_with_other_type_in_field_5_is_refused() {
    let s = Struct::new(vec![Field::new(1, "flag"), Field::new(2, 2i32), Field::new(5, 1i64)]);
    assert_eq!(
        Tag::try_from_data(Value::Struct(&s)),
        Err(DecodeError::WrongType { id: 5, expected: DataKind::Bool, found: DataKind::I64 })
    );
    let s = Struct::new(vec![Field::new(1, "flag"), Field::new(2, 2i32), Field::new(5, "true")]);
    assert_eq!(
        Tag::try_from_data(Value::Struct(&s)),
        Err(DecodeError::WrongType { id: 5, expected: DataKind::Bool, found: DataKind::Binary })
    );
}

#[test]
fn tag_faults_are_reported_in_order() {
    let s = Struct::new(vec![Field::new(2, 9i32)]);
    assert_eq!(Tag::try_from_data(Value::Struct(&s)), Err(DecodeError::MissingField { id: 1 }));
    let s = Struct::new(vec![Field::new(1, "k")]);
    assert_eq!(Tag::try_from_data(Value::Struct(&s)), Err(DecodeError::MissingField { id: 2 }));
    let s = Struct::new(vec![Field::new(1, "k"), Field::new(2, 0i64)]);
    assert_eq!(
        Tag::try_from_data(Value::Struct(&s)),
        Err(DecodeError::WrongType { id: 2, expected: DataKind::I32, found: DataKind::I64 })
    );
    let s = Struct::new(vec![Field::new(1, vec![0xffu8]), Field::new(2, 0i32)]);
    assert_eq!(Tag::try_from_data(Value::Struct(&s)), Err(DecodeError::InvalidUtf8 { id: 1 }));
    let s = Struct::new(vec![Field::new(1, "k"), Field::new(2, 0i32), Field::new(3, vec![0xffu8])]);
    assert_eq!(Tag::try_from_data(Value::Struct(&s)), Err(DecodeError::InvalidUtf8 { id: 3 }));
}

#[test]
fn tag_from_other_data_than_a_struct_is_refused() {
    assert_eq!(
        Tag::try_from_data(Value::I64(1)),
        Err(DecodeError::NotAStruct { found: DataKind::I64 })
    );
    assert_eq!(
        Tag::try_from_data(Value::Binary(b"k")),
        Err(DecodeError::NotAStruct { found: DataKind::Binary })
    );
}

#[test]
fn tags_with_same_key_last_write_wins() {
    let list = List::from(vec![string_tag("answer", "unknown"), long_tag("answer", 42)]);
    let tags = Tags::try_from_list(OptionalList::present(&list)).unwrap();
    assert_eq!(tags.len(), 1);
    assert_eq!(tags.get("answer"), Some(&TagValue::I64(42)));
    assert_eq!(tags.entries().len(), 1);
    assert_eq!(tags.entries()[0], Tag { key: "answer".into(), value: TagValue::I64(42) });
}

#[test]
fn tags_from_list_come_out_sorted_by_key() {
    let list = List::from(vec![
        long_tag("b", 2),
        long_tag("c", 3),
        long_tag("a", 1),
        long_tag("b", 20),
        long_tag("", 0),
    ]);
    let tags = Tags::try_from_list(OptionalList::present(&list)).unwrap();
    let keys: Vec<&str> = tags.entries().iter().map(|t| t.key.as_str()).collect();
    assert_eq!(keys, vec!["", "a", "b", "c"]);
    assert_eq!(tags.get("b"), Some(&TagValue::I64(20)));
    assert_eq!(tags.len(), 4);
}

#[test]
fn tags_from_absent_or_empty_list_are_empty() {
    let tags = Tags::try_from_list(OptionalList::absent()).unwrap();
    assert!(tags.is_empty());
    let list = List::from(Vec::<Struct>::new());
    assert!(Tags::try_from_list(OptionalList::present(&list)).unwrap().is_empty());
    let list = List::from(Vec::<i64>::new());
    assert!(Tags::try_from_list(OptionalList::present(&list)).unwrap().is_empty());
}

#[test]
fn tags_fail_with_the_first_faulty_tag() {
    let list = List::from(vec![
        long_tag("a", 1),
        Struct::new(vec![Field::new(1, "b"), Field::new(2, 77i32)]),
        Struct::new(vec![Field::new(2, 0i32)]),
    ]);
    assert_eq!(
        Tags::try_from_list(OptionalList::present(&list)),
        Err(DecodeError::UnknownTagKind { kind: 77 })
    );
    let list = List::from(vec![1i64, 2]);
    assert_eq!(
        Tags::try_from_list(OptionalList::present(&list)),
        Err(DecodeError::NotAStruct { found: DataKind::I64 })
    );
}

#[test]
fn span_ref_kinds() {
    let s = reference(0, 256, 0, 17);
    assert_eq!(
        SpanRef::try_from_data(Value::Struct(&s)),
        Ok(SpanRef::ChildOf { trace_id: "0x100".into(), span_id: "0x11".into() })
    );
    let s = reference(1, 1, 2, -1);
    assert_eq!(
        SpanRef::try_from_data(Value::Struct(&s)),
        Ok(SpanRef::FollowsFrom {
            trace_id: "0x20000000000000001".into(),
            span_id: "0xffffffffffffffff".into(),
        })
    );
}

#[test]
fn span_ref_of_unknown_kind_is_refused() {
    for kind in [2, -1, 3, i32::MAX, i32::MIN] {
        let s = reference(kind, 1, 2, 3);
        assert_eq!(
            SpanRef::try_from_data(Value::Struct(&s)),
            Err(DecodeError::UnknownReferenceKind { kind })
        );
        assert_eq!(
            SpanRef::try_from_data(Value::Struct(&s)).unwrap_err().message(),
            "unknown reference kind"
        );
    }
}

#[test]
fn span_ref_kind_is_judged_before_the_ids() {
    let s = Struct::new(vec![Field::new(1, 7i32)]);
    assert_eq!(
        SpanRef::try_from_data(Value::Struct(&s)),
        Err(DecodeError::UnknownReferenceKind { kind: 7 })
    );
    let s = Struct::new(vec![Field::new(1, 7i32), Field::new(2, "low"), Field::new(3, true)]);
    assert_eq!(
        SpanRef::try_from_data(Value::Struct(&s)),
        Err(DecodeError::UnknownReferenceKind { kind: 7 })
    );
}

#[test]
fn span_ref_faults_are_reported_in_order() {
    let s = Struct::new(vec![]);
    assert_eq!(
        SpanRef::try_from_data(Value::Struct(&s)),
        Err(DecodeError::MissingField { id: 1 })
    );
    let s = Struct::new(vec![Field::new(1, 0i32)]);
    assert_eq!(
        SpanRef::try_from_data(Value::Struct(&s)),
        Err(DecodeError::MissingField { id: 3 })
    );
    let s = Struct::new(vec![Field::new(1, 0i32), Field::new(3, 0i64)]);
    assert_eq!(
        SpanRef::try_from_data(Value::Struct(&s)),
        Err(DecodeError::MissingField { id: 2 })
    );
    let s = Struct::new(vec![Field::new(1, 0i32), Field::new(3, 0i64), Field::new(2, 0i64)]);
    assert_eq!(
        SpanRef::try_from_data(Value::Struct(&s)),
        Err(DecodeError::MissingField { id: 4 })
    );
    assert_eq!(
        SpanRef::try_from_data(Value::Bool(true)),
        Err(DecodeError::NotAStruct { found: DataKind::Bool })
    );
}

#[test]
fn span_ref_with_span_id_zero_is_written_out() {
    let s = reference(0, 5, 0, 0);
    assert_eq!(
        SpanRef::try_from_data(Value::Struct(&s)),
        Ok(SpanRef::ChildOf { trace_id: "0x5".into(), span_id: "0x0".into() })
    );
}

#[test]
fn span_refs_keep_wire_order() {
    let list = List::from(vec![reference(1, 3, 0, 3), reference(0, 1, 0, 1), reference(1, 2, 0, 2)]);
    let refs = SpanRef::try_from_list(OptionalList::present(&list)).unwrap();
    assert_eq!(
        refs,
        vec![
            SpanRef::FollowsFrom { trace_id: "0x3".into(), span_id: "0x3".into() },
            SpanRef::ChildOf { trace_id: "0x1".into(), span_id: "0x1".into() },
            SpanRef::FollowsFrom { trace_id: "0x2".into(), span_id: "0x2".into() },
        ]
    );
    assert_eq!(SpanRef::try_from_list(OptionalList::absent()), Ok(vec![]));
}

#[test]
fn span_refs_fail_with_the_first_faulty_reference() {
    let list = List::from(vec![reference(0, 1, 0, 1), reference(9, 1, 0, 1), reference(8, 1, 0, 1)]);
    assert_eq!(
        SpanRef::try_from_list(OptionalList::present(&list)),
        Err(DecodeError::UnknownReferenceKind { kind: 9 })
    );
}

#[test]
fn log_reads_timestamp_and_fields() {
    let s = Struct::new(vec![
        Field::new(1, 1_600_000_000_000_000i64),
        Field::new(2, List::from(vec![string_tag("event", "start"), long_tag("n", 3)])),
    ]);
    let log = Log::try_from_data(Value::Struct(&s)).unwrap();
    assert_eq!(log.timestamp_us, 1_600_000_000_000_000);
    assert_eq!(log.fields.len(), 2);
    assert_eq!(log.fields.get("event"), Some(&TagValue::String("start".into())));
    assert_eq!(log.fields.get("n"), Some(&TagValue::I64(3)));
    assert_eq!(log.datetime(0), Some("2020-09-13 12:26:40".to_string()));
    assert_eq!(log.datetime(3600), Some("2020-09-13 13:26:40".to_string()));
}

#[test]
fn log_without_fields_has_no_tags() {
    let s = Struct::new(vec![Field::new(1, 5i64)]);
    let log = Log::try_from_data(Value::Struct(&s)).unwrap();
    assert_eq!(log.timestamp_us, 5);
    assert!(log.fields.is_empty());
}

#[test]
fn log_faults() {
    let s = Struct::new(vec![Field::new(2, List::from(vec![long_tag("n", 3)]))]);
    assert_eq!(Log::try_from_data(Value::Struct(&s)), Err(DecodeError::MissingField { id: 1 }));
    let s = Struct::new(vec![Field::new(1, 5i64), Field::new(2, 5i64)]);
    assert_eq!(
        Log::try_from_data(Value::Struct(&s)),
        Err(DecodeError::WrongType { id: 2, expected: DataKind::List, found: DataKind::I64 })
    );
    let s = Struct::new(vec![Field::new(1, 5i64), Field::new(2, List::from(vec![true]))]);
    assert_eq!(
        Log::try_from_data(Value::Struct(&s)),
        Err(DecodeError::NotAStruct { found: DataKind::Bool })
    );
    assert_eq!(
        Log::try_from_data(Value::ThriftMap),
        Err(DecodeError::NotAStruct { found: DataKind::ThriftMap })
    );
    let list = List::from(vec![
        Struct::new(vec![Field::new(1, 5i64)]),
        Struct::new(vec![Field::new(1, "five")]),
    ]);
    assert_eq!(
        Log::try_from_list(OptionalList::present(&list)),
        Err(DecodeError::WrongType { id: 1, expected: DataKind::I64, found: DataKind::Binary })
    );
}

#[test]
fn span_with_required_fields_only() {
    let s = Struct::new(plain_span(256, 0, 0, 0));
    let span = Span::try_from_data(Value::Struct(&s)).unwrap();
    assert_eq!(span.trace_id, "0x100");
    assert_eq!(span.span_id, "0x0");
    assert_eq!(span.parent_span_id, "");
    assert_eq!(span.operation_name, "operation");
    assert_eq!(span.references, vec![]);
    assert_eq!(span.flags, 1);
    assert_eq!(span.start_time_us, 1_600_000_000_000_000);
    assert_eq!(span.duration_us, 2_500_000);
    assert!(span.tags.is_empty());
    assert_eq!(span.logs, vec![]);
    assert_eq!(span.start_datetime(0), Some("2020-09-13 12:26:40".to_string()));
}

#[test]
fn span_with_all_fields() {
    let mut fields = plain_span(2, 1, 10, 11);
    fields.push(Field::new(6, List::from(vec![reference(0, 2, 1, 11)])));
    fields.push(Field::new(10, List::from(vec![string_tag("k", "v"), long_tag("k", 1)])));
    fields.push(Field::new(
        11,
        List::from(vec![Struct::new(vec![
            Field::new(1, 7i64),
            Field::new(2, List::from(vec![long_tag("n", 3)])),
        ])]),
    ));
    fields.reverse();
    let span = Span::try_from_data(Value::Struct(&Struct::new(fields))).unwrap();
    assert_eq!(span.trace_id, "0x10000000000000002");
    assert_eq!(span.span_id, "0xa");
    assert_eq!(span.parent_span_id, "0xb");
    assert_eq!(
        span.references,
        vec![SpanRef::ChildOf { trace_id: "0x10000000000000002".into(), span_id: "0xb".into() }]
    );
    assert_eq!(span.tags.len(), 1);
    assert_eq!(span.tags.get("k"), Some(&TagValue::I64(1)));
    assert_eq!(span.logs.len(), 1);
    assert_eq!(span.logs[0].timestamp_us, 7);
    assert_eq!(span.logs[0].fields.get("n"), Some(&TagValue::I64(3)));
}

#[test]
fn span_faults_are_reported_in_order() {
    let all = || {
        let mut fields = plain_span(2, 1, 10, 11);
        fields.push(Field::new(6, List::from(vec![reference(0, 2, 1, 11)])));
        fields.push(Field::new(10, List::from(vec![long_tag("k", 1)])));
        fields.push(Field::new(11, List::from(vec![Struct::new(vec![Field::new(1, 7i64)])])));
        fields
    };
    let span = |s: Struct| Span::try_from_data(Value::Struct(&s)).map(|_| ());
    assert_eq!(span(Struct::new(all())), Ok(()));
    assert_eq!(span(Struct::new(vec![])), Err(DecodeError::MissingField { id: 8 }));
    for id in [8, 9, 2, 1, 3, 4, 5, 7] {
        assert_eq!(span(without(all(), id)), Err(DecodeError::MissingField { id }));
    }
    for id in [6, 10, 11] {
        assert_eq!(span(without(all(), id)), Ok(()));
    }
    let order = [8i16, 9, 2, 1, 3, 4, 5, 6, 7, 10, 11];
    for (i, first) in order.iter().enumerate() {
        for second in &order[i + 1..] {
            let mut fields = all();
            fields.retain(|f| f.id() != *first && f.id() != *second);
            fields.push(Field::new(*first, true));
            fields.push(Field::new(*second, true));
            let expected = match *first {
                7 => DataKind::I32,
                5 => DataKind::Binary,
                6 | 10 | 11 => DataKind::List,
                _ => DataKind::I64,
            };
            assert_eq!(
                span(Struct::new(fields)),
                Err(DecodeError::WrongType { id: *first, expected, found: DataKind::Bool })
            );
        }
    }
    assert_eq!(
        span(with(all(), Field::new(6, List::from(vec![reference(5, 1, 1, 1)])))),
        Err(DecodeError::UnknownReferenceKind { kind: 5 })
    );
    assert_eq!(
        span(with(all(), Field::new(10, List::from(vec![Struct::new(vec![])])))),
        Err(DecodeError::MissingField { id: 1 })
    );
    assert_eq!(
        span(with(all(), Field::new(11, List::from(vec![1i32])))),
        Err(DecodeError::NotAStruct { found: DataKind::I32 })
    );
    assert_eq!(
        Span::try_from_data(Value::List(&List::from(vec![1i32]))).map(|_| ()),
        Err(DecodeError::NotAStruct { found: DataKind::List })
    );
}

#[test]
fn spans_keep_wire_order() {
    let list = List::from(vec![
        Struct::new(plain_span(3, 0, 30, 0)),
        Struct::new(plain_span(1, 0, 10, 0)),
        Struct::new(plain_span(2, 0, 20, 0)),
        Struct::new(plain_span(1, 0, 10, 0)),
    ]);
    let spans = Span::try_from_list(OptionalList::present(&list)).unwrap();
    let ids: Vec<&str> = spans.iter().map(|s| s.span_id.as_str()).collect();
    assert_eq!(ids, vec!["0x1e", "0xa", "0x14", "0xa"]);
    assert_eq!(spans[0], spans[0]);
    assert_eq!(spans[1], spans[3]);
}

#[test]
fn process_reads_name_and_tags() {
    let s = Struct::new(vec![
        Field::new(2, List::from(vec![string_tag("host", "a"), string_tag("ip", "::1")])),
        Field::new(1, "service"),
    ]);
    let process = Process::try_from(&s).unwrap();
    assert_eq!(process.service_name, "service");
    assert_eq!(process.tags.len(), 2);
    assert_eq!(process.tags.get("host"), Some(&TagValue::String("a".into())));
    assert_eq!(process.tags.get("ip"), Some(&TagValue::String("::1".into())));
    assert_eq!(process.tags.get("port"), None);

    let s = Struct::new(vec![Field::new(1, "service")]);
    let process = Process::try_from(&s).unwrap();
    assert!(process.tags.is_empty());
}

#[test]
fn process_faults() {
    let s = Struct::new(vec![Field::new(2, List::from(vec![string_tag("host", "a")]))]);
    assert_eq!(Process::try_from(&s), Err(DecodeError::MissingField { id: 1 }));
    let s = Struct::new(vec![Field::new(1, 5i32)]);
    assert_eq!(
        Process::try_from(&s),
        Err(DecodeError::WrongType { id: 1, expected: DataKind::Binary, found: DataKind::I32 })
    );
    let s = Struct::new(vec![Field::new(1, "service"), Field::new(2, "tags")]);
    assert_eq!(
        Process::try_from(&s),
        Err(DecodeError::WrongType { id: 2, expected: DataKind::List, found: DataKind::Binary })
    );
}

#[test]
fn batch_reads_process_and_spans() {
    let body = Struct::new(vec![Field::new(
        1,
        Struct::new(vec![
            Field::new(1, Struct::new(vec![Field::new(1, "service")])),
            Field::new(
                2,
                List::from(vec![
                    Struct::new(plain_span(1, 0, 10, 0)),
                    Struct::new(plain_span(1, 0, 11, 10)),
                ]),
            ),
        ]),
    )]);
    let batch = Batch::try_from(&body).unwrap();
    assert_eq!(batch.process.service_name, "service");
    assert_eq!(batch.spans.len(), 2);
    assert_eq!(batch.spans[0].span_id, "0xa");
    assert_eq!(batch.spans[0].parent_span_id, "");
    assert_eq!(batch.spans[1].span_id, "0xb");
    assert_eq!(batch.spans[1].parent_span_id, "0xa");
}

#[test]
fn batch_without_spans_is_empty() {
    let body = Struct::new(vec![Field::new(
        1,
        Struct::new(vec![Field::new(1, Struct::new(vec![Field::new(1, "service")]))]),
    )]);
    let batch = Batch::try_from(&body).unwrap();
    assert_eq!(batch.spans, vec![]);
}

#[test]
fn batch_faults_are_reported_in_order() {
    let process = || Struct::new(vec![Field::new(1, "service")]);
    assert_eq!(Batch::try_from(&Struct::new(vec![])), Err(DecodeError::MissingField { id: 1 }));
    let body = Struct::new(vec![Field::new(1, 1i32)]);
    assert_eq!(
        Batch::try_from(&body),
        Err(DecodeError::WrongType { id: 1, expected: DataKind::Struct, found: DataKind::I32 })
    );
    let body = Struct::new(vec![Field::new(
        1,
        Struct::new(vec![Field::new(2, List::from(vec![Struct::new(vec![])]))]),
    )]);
    assert_eq!(Batch::try_from(&body), Err(DecodeError::MissingField { id: 1 }));
    let body = Struct::new(vec![Field::new(
        1,
        Struct::new(vec![
            Field::new(1, Struct::new(vec![])),
            Field::new(2, List::from(vec![1i64])),
        ]),
    )]);
    assert_eq!(Batch::try_from(&body), Err(DecodeError::MissingField { id: 1 }));
    let body = Struct::new(vec![Field::new(
        1,
        Struct::new(vec![Field::new(1, process()), Field::new(2, List::from(vec![1i64]))]),
    )]);
    assert_eq!(Batch::try_from(&body), Err(DecodeError::NotAStruct { found: DataKind::I64 }));
    let body = Struct::new(vec![Field::new(
        1,
        Struct::new(vec![
            Field::new(1, process()),
            Field::new(
                2,
                List::from(vec![
                    Struct::new(plain_span(1, 0, 10, 0)),
                    without(plain_span(1, 0, 10, 0), 5),
                    Struct::new(vec![]),
                ]),
            ),
        ]),
    )]);
    assert_eq!(Batch::try_from(&body), Err(DecodeError::MissingField { id: 5 }));
}
