use probius::decode::{DecodeEventBody, DecodeEvents};
use probius::encoding::ProbiusWriter;
use probius::wire::{EventId, EventKind, EventSeq, SourceId, TraceAggregate};

fn event_id(source: u64, timestamp_nanos: u64, seq_no: u16) -> EventId {
    EventId {
        source: SourceId { source },
        timestamp_nanos,
        seq_no: EventSeq { seq_no },
    }
}

#[test]
fn test_encoding() {
    let headroom = 10;
    let mut writer = ProbiusWriter::new(headroom, 8192);

    assert!(writer.create_source(
        event_id(42, 4200042000, 9),
        &b"foobar".to_vec(),
        Some(SourceId { source: 41 }),
        true,
    ));
    assert!(writer.delete_source(event_id(42, 4200042001, 0)));

    let pages = writer.flush();
    assert_eq!(pages.len(), 1);
    let page = &pages[0];
    assert_eq!(&page[..headroom], &[0u8; 10]);

    let body = &page[headroom..];
    let mut events = DecodeEvents::new(body);

    let first = events.next().unwrap();
    assert_eq!(first.kind, EventKind::CreateSource);
    assert_eq!(first.id, event_id(42, 4200042000, 9));
    match first.body {
        DecodeEventBody::CreateSource(create_source) => {
            assert_eq!(create_source.name().unwrap(), b"foobar".to_vec());
            assert_eq!(create_source.parent().unwrap(), Some(SourceId { source: 41 }));
            assert!(create_source.is_recurring().unwrap());
        }
        _ => panic!("expected a CreateSource body"),
    }

    let second = events.next().unwrap();
    assert_eq!(second.kind, EventKind::DeleteSource);
    assert_eq!(second.id, event_id(42, 4200042001, 0));
    assert!(matches!(second.body, DecodeEventBody::DeleteSource));

    assert!(events.next().is_none());
}

#[test]
fn test_round_trip_event_iteration() {
    // Alternating events across enough volume for several pages: the
    // concatenated page bodies (headroom skipped) iterate back as the
    // identical (kind, id) sequence.
    let headroom = 2;
    let buffer_size = 128;
    let mut writer = ProbiusWriter::new(headroom, buffer_size);

    let mut written: Vec<(EventKind, EventId)> = Vec::new();
    for k in 0..10u64 {
        let id = event_id(k, 1000 + k, k as u16);
        if k % 2 == 0 {
            assert!(writer.create_source(id, &b"s".to_vec(), None, false));
            written.push((EventKind::CreateSource, id));
        } else {
            let aggregate = TraceAggregate {
                start_nanos: k,
                nodes: Vec::new(),
                counters: Vec::new(),
                metrics: Vec::new(),
            };
            assert!(writer.trace_aggregate(id, &aggregate));
            written.push((EventKind::TraceAggregate, id));
        }
    }

    let pages = writer.flush();
    assert!(pages.len() >= 2);
    let mut buf: Vec<u8> = Vec::new();
    for page in &pages {
        buf.extend_from_slice(&page[headroom..]);
    }

    let mut events = DecodeEvents::new(&buf);
    let mut seen: Vec<(EventKind, EventId)> = Vec::new();
    while let Some(ev) = events.next() {
        seen.push((ev.kind, ev.id));
    }
    assert_eq!(seen, written);
}
