//! Behaviour of the host objects a plugin drives: stream, host application,
//! handlers, data exchange, event list and parameter queues.

use vst3_host::constants::{K_IB_SEEK_SET, K_INVALID_ARGUMENT, K_NOTE_ON_EVENT, K_RESULT_OK};
use vst3_host::data_exchange::DataExchangeHandler;
use vst3_host::event_list::EventList;
use vst3_host::events::{EventHeader, MidiEvent, NoteOnEvent, Vst3Event};
use vst3_host::handlers::{ParameterEditEvent, ProgressEvent, ProgressIds};
use vst3_host::host_app::HostApplication;
use vst3_host::param_changes::ParameterChangesImpl;
use vst3_host::param_queue::ParamValueQueueImpl;
use vst3_host::rt_cell::AudioThreadCell;
use vst3_host::{BStream, ParameterChanges, ParameterQueue};

fn bits(v: f64) -> u64 {
    v.to_bits()
}

#[test]
fn test_bstream_new() {
    let stream = BStream::new();
    assert_eq!(stream.data(), Vec::<u8>::new());
}

#[test]
fn test_bstream_from_data() {
    let data = vec![1, 2, 3, 4, 5];
    let stream = BStream::from_data(data.clone());
    assert_eq!(stream.data(), data);
}

#[test]
fn test_host_application_new() {
    let host = HostApplication::new("TestHost");
    let name = host.get_name(true).unwrap();
    let expected: Vec<u16> = "TestHost".encode_utf16().collect();
    assert_eq!(&name[..expected.len()], &expected[..]);
    assert!(name[expected.len()..].iter().all(|&u| u == 0));
}

#[test]
fn test_host_application_long_name_truncates() {
    let long_name = "A".repeat(200);
    let host = HostApplication::new(&long_name);
    let name = host.get_name(true).unwrap();
    assert!(name[..127].iter().all(|&u| u == 'A' as u16));
    assert_eq!(name[127], 0);
}

#[test]
fn set_dirty_reads_any_nonzero_flag_as_dirty() {
    assert_eq!(ParameterEditEvent::set_dirty(1), ParameterEditEvent::SetDirty(true));
    assert_eq!(ParameterEditEvent::set_dirty(3), ParameterEditEvent::SetDirty(true));
    assert_eq!(ParameterEditEvent::set_dirty(0), ParameterEditEvent::SetDirty(false));
}

#[test]
fn progress_start_takes_ids_in_order_and_decodes_description() {
    let mut ids = ProgressIds::new();
    let desc: [u16; 4] = [b'T' as u16, b'e' as u16, b's' as u16, b't' as u16];
    match ids.start(1, Some(&desc)) {
        ProgressEvent::Started {
            id,
            progress_type,
            description,
        } => {
            assert_eq!(id, 1);
            assert_eq!(progress_type, 1);
            assert_eq!(description, "Test");
        }
        _ => panic!("Expected Started event"),
    }
    match ids.start(2, None) {
        ProgressEvent::Started {
            id,
            progress_type,
            description,
        } => {
            assert_eq!(id, 2);
            assert_eq!(progress_type, 2);
            assert_eq!(description, "");
        }
        _ => panic!("Expected Started event"),
    }
}

#[test]
fn test_data_exchange_handler_new() {
    let _handler = DataExchangeHandler::new();
}

#[test]
fn test_data_exchange_open_close_queue() {
    let mut handler = DataExchangeHandler::new();
    let queue_id = handler.open_queue(1024, 4, 100);
    assert_eq!(queue_id, 1);

    let result = handler.close_queue(100);
    assert_eq!(result, K_RESULT_OK);
}

#[test]
fn test_data_exchange_lock_free_block() {
    let mut handler = DataExchangeHandler::new();
    let _queue_id = handler.open_queue(64, 2, 42);

    let (block_id, size) = handler.lock_block(42).unwrap();
    assert_eq!(size, 64);

    {
        let data = handler.locked_block_data(42, block_id).unwrap();
        assert_eq!(data.len(), 64);
        data[0] = 0xAB;
        data[1] = 0xCD;
    }

    let sent = handler.free_block(42, block_id, true).unwrap();
    let data_block = sent.unwrap();
    assert_eq!(data_block.user_context_id, 42);
    assert_eq!(data_block.data[0], 0xAB);
    assert_eq!(data_block.data[1], 0xCD);
}

#[test]
fn test_event_list_new() {
    let list = EventList::new();
    assert!(list.is_empty());
}

#[test]
fn test_event_list_update_from_midi_counts_correctly() {
    let mut list = EventList::new();
    let midi_events = [MidiEvent::note_on(0, 60, 64).with_frame_offset(0)];
    list.update_from_midi(&midi_events);
    assert_eq!(list.len(), 1);
}

#[test]
fn test_event_list_clear_after_update_from_midi() {
    let mut list = EventList::new();
    let midi_events = [
        MidiEvent::note_on(0, 60, 64).with_frame_offset(0),
        MidiEvent::note_off(0, 60, 0).with_frame_offset(10),
    ];
    list.update_from_midi(&midi_events);
    list.clear();
    assert_eq!(list.len(), 0);
}

#[test]
fn test_update_from_midi_counts_correctly() {
    let mut list = EventList::new();
    let midi_events = [MidiEvent::note_on(0, 60, 64).with_frame_offset(0)];
    list.update_from_midi(&midi_events);
    assert_eq!(list.len(), 1);
}

#[test]
fn test_clear_after_update_from_midi() {
    let mut list = EventList::new();
    let midi_events = [
        MidiEvent::note_on(0, 60, 64).with_frame_offset(0),
        MidiEvent::note_off(0, 60, 0).with_frame_offset(10),
    ];
    list.update_from_midi(&midi_events);
    list.clear();
    assert_eq!(list.len(), 0);
}

fn make_note_on() -> NoteOnEvent {
    NoteOnEvent {
        header: EventHeader {
            bus_index: 0,
            sample_offset: 0,
            ppq_position_bits: 0,
            flags: 0,
            event_type: K_NOTE_ON_EVENT,
        },
        channel: 0,
        pitch: 60,
        tuning_bits: 0.0f32.to_bits(),
        velocity_bits: 0.8f32.to_bits(),
        length: 0,
        note_id: -1,
    }
}

#[test]
fn test_get_event_valid() {
    let mut list = EventList::new();
    list.add_event(Vst3Event::NoteOn(make_note_on()));
    let out = list.get_event(0).unwrap();
    match out {
        Vst3Event::NoteOn(e) => {
            assert_eq!(e.header.event_type, K_NOTE_ON_EVENT);
            assert_eq!(e.pitch, 60);
            assert!((f32::from_bits(e.velocity_bits) - 0.8).abs() < 1e-6);
        }
        _ => panic!("Expected a note-on event"),
    }
    assert_eq!(list.get_event(1).unwrap_err(), K_INVALID_ARGUMENT);
    assert_eq!(list.get_event(-1).unwrap_err(), K_INVALID_ARGUMENT);
}

#[test]
fn test_param_value_queue_from_queue() {
    let mut queue = ParameterQueue::new(42);
    queue.add_point(0, bits(0.0));
    queue.add_point(128, bits(0.5));

    let impl_queue = ParamValueQueueImpl::from_queue(&queue);
    assert_eq!(impl_queue.param_id(), 42);
    assert_eq!(impl_queue.len(), 2);
}

#[test]
fn test_param_value_queue_new_empty() {
    let queue = ParamValueQueueImpl::new_empty(1);
    assert_eq!(queue.param_id(), 1);
    assert_eq!(queue.len(), 0);
    assert!(queue.is_empty());
}

#[test]
fn test_param_value_queue_to_queue() {
    let mut queue = ParameterQueue::new(5);
    queue.add_point(0, bits(0.25));
    queue.add_point(64, bits(0.75));

    let impl_queue = ParamValueQueueImpl::from_queue(&queue);
    let round_trip = impl_queue.to_queue();

    assert_eq!(round_trip.param_id, 5);
    assert_eq!(round_trip.points.len(), 2);
}

fn queue_with_points(count: usize) -> ParameterQueue {
    let mut q = ParameterQueue::new(42);
    for i in 0..count {
        q.add_point(i as i32, bits(i as f64 * 0.01));
    }
    q
}

#[test]
fn refill_from_queue_repeatedly_keeps_the_source_points() {
    let mut queue = ParamValueQueueImpl::new_empty(0);
    let source = queue_with_points(8);
    for _ in 0..10_000 {
        queue.refill_from_queue(&source);
    }
    assert_eq!(queue.param_id(), 42);
    assert_eq!(queue.len(), 8);
    assert_eq!(queue.get_point(7).unwrap().sample_offset, 7);
}

#[test]
fn refill_from_queue_after_growing_past_inline_capacity() {
    let mut queue = ParamValueQueueImpl::new_empty(0);
    let big = queue_with_points(32);
    for _ in 0..1_000 {
        queue.refill_from_queue(&big);
    }
    assert_eq!(queue.len(), 32);
    assert_eq!(queue.get_point(31).unwrap().value_bits, bits(31.0 * 0.01));
    queue.refill_from_queue(&queue_with_points(3));
    assert_eq!(queue.len(), 3);
}

#[test]
fn test_parameter_changes_new_empty() {
    let changes = ParameterChangesImpl::new_empty();
    assert_eq!(changes.len(), 0);
    assert!(changes.is_empty());
}

#[test]
fn test_parameter_changes_from_changes() {
    let mut changes = ParameterChanges::new();
    changes.add_change(1, 0, bits(0.5));
    changes.add_change(2, 0, bits(0.75));

    let impl_changes = ParameterChangesImpl::from_changes(&changes);
    assert_eq!(impl_changes.len(), 2);
}

#[test]
fn test_parameter_changes_vtable() {
    let mut impl_changes = ParameterChangesImpl::new_empty();
    assert_eq!(impl_changes.parameter_count(), 0);

    let index = impl_changes.add_parameter_data(42);
    assert_eq!(index, 0);
    assert_eq!(impl_changes.parameter_count(), 1);

    let retrieved = impl_changes.parameter_data(0);
    assert!(retrieved.is_some());
    assert_eq!(retrieved.unwrap().param_id(), 42);
}

#[test]
fn test_bstream_vtable_read_write() {
    let mut stream = BStream::new();
    let data = b"Hello, VST3!";
    let written = stream.write(Some(&data[..]), data.len() as i32);
    assert_eq!(written, Ok(data.len() as i32));

    let new_pos = stream.seek(0, 0);
    assert_eq!(new_pos, Ok(0));

    let read = stream.read(32, true).unwrap();
    assert_eq!(read.len(), data.len());
    assert_eq!(&read[..], &data[..]);

    let pos = stream.tell();
    assert_eq!(pos, data.len() as i64);
}

#[test]
fn test_stream_write_read() {
    let mut stream = BStream::new();
    let data = b"Hello, VST3!";
    let written = stream.write(Some(&data[..]), data.len() as i32);
    assert_eq!(written, Ok(data.len() as i32));

    let new_pos = stream.seek(0, K_IB_SEEK_SET);
    assert_eq!(new_pos, Ok(0));

    let read = stream.read(32, true).unwrap();
    assert_eq!(read.len(), data.len());
    assert_eq!(&read[..data.len()], data);
}

#[test]
fn test_stream_from_data() {
    let data = vec![1, 2, 3, 4, 5];
    let stream = BStream::from_data(data.clone());
    assert_eq!(stream.data(), data);
}

#[test]
fn test_stream_read_negative_num_bytes() {
    let mut stream = BStream::from_data(vec![1, 2, 3]);
    let result = stream.read(-1, true);
    assert!(result.is_err());
    assert_eq!(stream.tell(), 0);
}

#[test]
fn test_stream_read_zero_num_bytes() {
    let mut stream = BStream::from_data(vec![1, 2, 3]);
    let result = stream.read(0, true);
    assert_eq!(result, Ok(Vec::new()));
    assert_eq!(stream.tell(), 0);
}

#[test]
fn test_stream_read_null_buffer() {
    let mut stream = BStream::from_data(vec![1, 2, 3]);
    let result = stream.read(10, false);
    assert!(result.is_err());
    assert_eq!(stream.tell(), 0);
}

#[test]
fn test_stream_write_negative_num_bytes() {
    let mut stream = BStream::new();
    let data = [1u8, 2, 3];
    let result = stream.write(Some(&data[..]), -5);
    assert!(result.is_err());
    assert!(stream.data().is_empty());
}

#[test]
fn test_stream_write_zero_num_bytes() {
    let mut stream = BStream::new();
    let data = [1u8, 2, 3];
    let result = stream.write(Some(&data[..]), 0);
    assert_eq!(result, Ok(0));
    assert!(stream.data().is_empty());
}

#[test]
fn test_stream_write_null_buffer() {
    let mut stream = BStream::new();
    let result = stream.write(None, 10);
    assert!(result.is_err());
    assert!(stream.data().is_empty());
}

#[test]
fn test_stream_read_null_bytes_read_pointer() {
    let mut stream = BStream::from_data(vec![1, 2, 3]);
    let result = stream.read(3, true).unwrap();
    assert_eq!(&result[..3], &[1, 2, 3]);
}

#[test]
fn borrow_mut_from_same_thread() {
    let mut cell = AudioThreadCell::new(42u32);
    *cell.borrow_mut() = 100;
    assert_eq!(*cell.borrow(), 100);
}
