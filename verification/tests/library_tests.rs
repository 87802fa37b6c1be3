//! Concrete checks of the library's laws, formulas, errors and edge cases.

use vst3_host::attributes::{AttrValue, AttributeList};
use vst3_host::bundle::{
    bundle_candidate, bundle_library_components, find_library_path, library_load_error, LibraryLocation, LoadFailure,
    Platform,
};
use vst3_host::constants::{
    K_BAR_POSITION_VALID, K_CYCLE_ACTIVE, K_CYCLE_VALID, K_IB_SEEK_CUR, K_IB_SEEK_END,
    K_INVALID_ARGUMENT, K_NOT_IMPLEMENTED, K_PLAYING, K_PROJECT_TIME_MUSIC_VALID, K_RECORDING,
    K_RESULT_FALSE, K_RESULT_OK, K_SAMPLE_32, K_SAMPLE_64, K_TEMPO_VALID, K_TIME_SIG_VALID,
};
use vst3_host::data_exchange::DataExchangeHandler;
use vst3_host::event_list::EventList;
use vst3_host::events::{
    vst3_event_from_midi, vst3_to_midi_event, vst3_to_note_expression, MidiEvent,
    NoteExpressionType, NoteExpressionValue, Vst3Event, UNIT_LEVEL_F32_BITS,
};
use vst3_host::handlers::{
    delivers_binary, notify_result, resize_request, ParameterEditEvent, ProgressEvent, ProgressIds,
};
use vst3_host::helpers::{c_str_to_string, utf16_to_string};
use vst3_host::host_app::{HostApplication, HostObjectKind};
use vst3_host::info::{
    class_info_from, editor_size_for_rect, factory_info_from, guid_as_tuid, BusInfo, EditorSize,
    PClassInfo, PFactoryInfo, PluginInfo, ViewRect, Vst3ParameterInfo,
};
use vst3_host::param_changes::ParameterChangesImpl;
use vst3_host::parameter_flags;
use vst3_host::processing::{
    block_length, can_process, filled_slots, check_lifecycle_result, empty_process_output,
    input_parameter_changes, pointer_slots, process_output, should_process, stage_input_events,
    AudioConfig,
};
use vst3_host::transport::{ProcessContextFields, TransportState};
use vst3_host::{BStream, LoadStage, ParameterChanges, ParameterQueue, Vst3Error};

fn bits(v: f64) -> u64 {
    v.to_bits()
}

#[test]
fn unit_level_table_matches_f32_division() {
    for k in 0..128u32 {
        assert_eq!(UNIT_LEVEL_F32_BITS[k as usize], (k as f32 / 127.0).to_bits());
        let back = (f32::from_bits(UNIT_LEVEL_F32_BITS[k as usize]) * 127.0).clamp(0.0, 127.0) as u32;
        assert_eq!(back, k);
    }
}

#[test]
fn stream_write_then_read_back_at_offset() {
    let mut stream = BStream::from_data(vec![9, 9, 9, 9, 9, 9]);
    assert_eq!(stream.seek(2, 0), Ok(2));
    assert_eq!(stream.write(Some(&[1, 2, 3][..]), 3), Ok(3));
    assert_eq!(stream.data(), vec![9, 9, 1, 2, 3, 9]);
    assert_eq!(stream.seek(-3, K_IB_SEEK_CUR), Ok(2));
    assert_eq!(stream.read(3, true), Ok(vec![1, 2, 3]));
    assert_eq!(stream.tell(), 5);
}

#[test]
fn stream_write_past_end_extends() {
    let mut stream = BStream::from_data(vec![1, 2]);
    assert_eq!(stream.seek(0, K_IB_SEEK_END), Ok(2));
    assert_eq!(stream.write(Some(&[7, 8][..]), 2), Ok(2));
    assert_eq!(stream.data(), vec![1, 2, 7, 8]);
    assert_eq!(stream.read(4, true), Ok(vec![]));
}

#[test]
fn stream_seek_rejects_bad_mode_and_negative_target() {
    let mut stream = BStream::from_data(vec![1, 2, 3]);
    assert_eq!(stream.seek(1, 7), Err(K_INVALID_ARGUMENT));
    assert_eq!(stream.seek(-1, K_IB_SEEK_CUR), Err(K_INVALID_ARGUMENT));
    assert_eq!(stream.seek(-4, K_IB_SEEK_END), Err(K_INVALID_ARGUMENT));
    assert_eq!(stream.tell(), 0);
    // A negative absolute position is taken as the unsigned offset with the
    // same bits, and reported back as the signed value.
    assert_eq!(stream.seek(-1, 0), Ok(-1));
    assert_eq!(stream.read(1, true), Ok(vec![]));
}

#[test]
fn stream_consecutive_reads_continue() {
    let mut stream = BStream::from_data(vec![1, 2, 3, 4, 5]);
    assert_eq!(stream.read(2, true), Ok(vec![1, 2]));
    assert_eq!(stream.read(2, true), Ok(vec![3, 4]));
    assert_eq!(stream.read(2, true), Ok(vec![5]));
}

#[test]
fn utf16_text_stops_at_nul() {
    let units = [b'H' as u16, b'i' as u16, 0, b'x' as u16];
    assert_eq!(utf16_to_string(&units), "Hi");
    let lone = [0xD800u16];
    assert_eq!(utf16_to_string(&lone), "\u{FFFD}");
    assert_eq!(utf16_to_string(&[]), "");
}

#[test]
fn c_string_stops_at_nul_and_decodes_utf8() {
    let bytes = [0x41i8, 0xC3u8 as i8, 0xA9u8 as i8, 0, 0x42];
    assert_eq!(c_str_to_string(&bytes), "A\u{e9}");
    let invalid = [0xFFu8 as i8];
    assert_eq!(c_str_to_string(&invalid), "\u{FFFD}");
}

#[test]
fn host_name_with_surrogate_pairs_is_truncated_by_units() {
    let name: String = std::iter::repeat('\u{1F600}').take(70).collect();
    let host = HostApplication::new(&name);
    let buf = host.get_name(true).unwrap();
    let expected: Vec<u16> = name.encode_utf16().take(127).collect();
    assert_eq!(&buf[..127], &expected[..]);
    assert_eq!(buf[127], 0);
    assert_eq!(host.get_name(false), Err(K_INVALID_ARGUMENT));
}

#[test]
fn host_creates_only_known_objects() {
    let host = HostApplication::new("H");
    let msg = [1u8; 16];
    let attrs = [2u8; 16];
    let other = [3u8; 16];
    assert_eq!(host.create_instance(Some(msg), Some(msg), true, msg, attrs), Ok(HostObjectKind::Message));
    assert_eq!(
        host.create_instance(Some(attrs), Some(attrs), true, msg, attrs),
        Ok(HostObjectKind::AttributeList)
    );
    assert_eq!(host.create_instance(Some(msg), Some(attrs), true, msg, attrs), Err(K_NOT_IMPLEMENTED));
    assert_eq!(host.create_instance(Some(other), Some(other), true, msg, attrs), Err(K_NOT_IMPLEMENTED));
    assert_eq!(host.create_instance(None, Some(msg), true, msg, attrs), Err(K_INVALID_ARGUMENT));
    assert_eq!(host.create_instance(Some(msg), Some(msg), false, msg, attrs), Err(K_INVALID_ARGUMENT));
    assert_eq!(host.is_plug_interface_supported(Some(msg)), K_RESULT_FALSE);
}

#[test]
fn bundle_layouts_per_platform() {
    let mac = bundle_library_components("Synth", Platform::MacOs).unwrap();
    assert_eq!(mac, vec!["Contents", "MacOS", "Synth"]);
    let linux = bundle_library_components("Synth", Platform::Linux).unwrap();
    assert_eq!(linux, vec!["Contents", "x86_64-linux", "Synth.so"]);
    let win = bundle_library_components("Synth", Platform::Windows).unwrap();
    assert_eq!(win, vec!["Contents", "x86_64-win", "Synth.vst3"]);
    assert!(bundle_library_components("Synth", Platform::Other).is_none());
}

#[test]
fn find_library_path_decisions() {
    let found = find_library_path("/p/Synth.vst3", Some("Synth"), Platform::Linux, true, false);
    match found {
        Ok(LibraryLocation::InBundle(v)) => assert_eq!(v, vec!["Contents", "x86_64-linux", "Synth.so"]),
        _ => panic!("expected the bundled library"),
    }
    let direct = find_library_path("/p/Synth.so", Some("Synth"), Platform::Linux, false, true);
    assert!(matches!(direct, Ok(LibraryLocation::BundleFile)));
    let missing = find_library_path("/p/Synth.vst3", Some("Synth"), Platform::Linux, false, false);
    match missing {
        Err(Vst3Error::LoadFailed { path, stage, reason }) => {
            assert_eq!(path, "/p/Synth.vst3");
            assert_eq!(stage, LoadStage::Opening);
            assert_eq!(reason, "Could not find library in VST3 bundle");
        }
        _ => panic!("expected a load failure"),
    }
    let no_stem = find_library_path("/", None, Platform::MacOs, false, true);
    match no_stem {
        Err(Vst3Error::LoadFailed { reason, .. }) => {
            assert_eq!(reason, "Failed to extract plugin name from bundle path")
        }
        _ => panic!("expected a load failure"),
    }
    let other = find_library_path("/p/x.dylib", None, Platform::Other, false, true);
    assert!(matches!(other, Ok(LibraryLocation::BundleFile)));
}

#[test]
fn plugin_info_builders() {
    let info = PluginInfo::new("id".to_string(), "Name".to_string())
        .vendor("V".to_string())
        .version("1.0".to_string())
        .audio_io(1, 6)
        .midi(true)
        .f64_support(true);
    assert_eq!(info.id, "id");
    assert_eq!(info.name, "Name");
    assert_eq!(info.vendor, "V");
    assert_eq!(info.version, "1.0");
    assert_eq!((info.num_inputs, info.num_outputs), (1, 6));
    assert!(info.has_midi_input && info.supports_f64);
    let plain = PluginInfo::new("a".to_string(), "b".to_string());
    assert_eq!((plain.num_inputs, plain.num_outputs), (2, 2));
    assert!(plain.vendor.is_empty() && !plain.has_midi_input && !plain.supports_f64);
}

#[test]
fn view_rect_sizes() {
    let rect = ViewRect { left: 10, top: 20, right: 410, bottom: 320 };
    assert_eq!(rect.width(), 400);
    assert_eq!(rect.height(), 300);
    assert_eq!(editor_size_for_rect(rect), EditorSize { width: 400, height: 300 });
    let inverted = ViewRect { left: 5, top: 0, right: 4, bottom: 0 };
    assert_eq!(editor_size_for_rect(inverted).width, u32::MAX);
    assert_eq!(resize_request(None), None);
    assert_eq!(resize_request(Some(rect)), Some(EditorSize { width: 400, height: 300 }));
}

#[test]
fn factory_and_class_info_decoding() {
    let mut f = PFactoryInfo::default();
    f.vendor[0] = b'A' as i8;
    f.vendor[1] = b'c' as i8;
    f.url[0] = b'u' as i8;
    let info = factory_info_from(K_RESULT_OK, &f).unwrap();
    assert_eq!(info.vendor, "Ac");
    assert_eq!(info.url, "u");
    assert_eq!(info.email, "");
    assert!(factory_info_from(K_RESULT_FALSE, &f).is_none());

    let mut c = PClassInfo::default();
    c.cid[0] = 0xFF;
    c.cid[1] = 0x7F;
    c.name[0] = b'S' as i8;
    c.category[0] = b'F' as i8;
    let class = class_info_from(K_RESULT_OK, &c).unwrap();
    assert_eq!(class.cid[0], -1);
    assert_eq!(class.cid[1], 127);
    assert_eq!(class.cid_bytes, c.cid);
    assert_eq!(class.name, "S");
    assert_eq!(class.category, "F");
    match class_info_from(K_INVALID_ARGUMENT, &c) {
        Err(Vst3Error::PluginError { stage, code }) => {
            assert_eq!(stage, LoadStage::Factory);
            assert_eq!(code, K_INVALID_ARGUMENT);
        }
        _ => panic!("expected a plugin error"),
    }
    assert_eq!(guid_as_tuid(&[0x80u8; 16]), [-128i8; 16]);
}

#[test]
fn bus_and_parameter_info() {
    let mut bus = BusInfo::default();
    bus.channel_count = 2;
    bus.name[0] = b'M' as u16;
    assert_eq!(bus.channel_count(), 2);
    assert_eq!(bus.name_string(), "M");

    let mut p = Vst3ParameterInfo::default();
    p.flags = parameter_flags::CAN_AUTOMATE | parameter_flags::IS_BYPASS;
    p.title[0] = b'G' as u16;
    p.units[0] = b'd' as u16;
    p.units[1] = b'B' as u16;
    assert!(p.can_automate());
    assert!(p.is_bypass());
    assert!(!p.is_read_only() && !p.is_hidden() && !p.is_wrap());
    assert_eq!(p.title_string(), "G");
    assert_eq!(p.units_string(), "dB");
    assert_eq!(p.short_title_string(), "");
}

#[test]
fn transport_context_flags() {
    let t = TransportState::new()
        .tempo(bits(140.0))
        .playing(true)
        .time_signature(3, 4)
        .position_samples(48000)
        .position_beats(bits(2.5))
        .cycle_active(true)
        .cycle_range(bits(1.0), bits(5.0));
    let ctx = t.to_process_context();
    let always = K_PROJECT_TIME_MUSIC_VALID | K_BAR_POSITION_VALID | K_TEMPO_VALID | K_TIME_SIG_VALID;
    assert_eq!(ctx.state, K_PLAYING | K_CYCLE_ACTIVE | K_CYCLE_VALID | always);
    assert_eq!(f64::from_bits(ctx.tempo_bits), 140.0);
    assert_eq!(ctx.time_sig_numerator, 3);
    assert_eq!(ctx.project_time_samples, 48000);
    assert_eq!(ctx.continuous_time_samples, 48000);
    assert_eq!(f64::from_bits(ctx.project_time_music_bits), 2.5);
    assert_eq!(f64::from_bits(ctx.cycle_end_music_bits), 5.0);

    let stopped = TransportState::default();
    assert_eq!(stopped.to_process_context().state, always);
    assert_eq!(f64::from_bits(stopped.tempo_bits), 120.0);
    assert_eq!(f64::from_bits(stopped.sample_rate_bits), 44100.0);
    assert_eq!(stopped.time_sig_denominator, 4);
    let rec = stopped.recording(true).to_process_context();
    assert_eq!(rec.state & K_RECORDING, K_RECORDING);
    assert_eq!(rec.state & K_PLAYING, 0);
}

#[test]
fn midi_round_trip_through_vst3() {
    let on = MidiEvent::note_on(3, 60, 100).with_frame_offset(17);
    let v = vst3_event_from_midi(&on).unwrap();
    match v {
        Vst3Event::NoteOn(e) => {
            assert_eq!(e.header.sample_offset, 17);
            assert_eq!(e.pitch, 60);
            assert_eq!(e.channel, 3);
            assert_eq!(e.velocity_bits, UNIT_LEVEL_F32_BITS[100]);
        }
        _ => panic!("expected a note-on"),
    }
    assert_eq!(vst3_to_midi_event(&v, 100), Some(on));

    let cc = MidiEvent::control_change(1, 7, 99).with_frame_offset(5);
    let v = vst3_event_from_midi(&cc).unwrap();
    assert!(matches!(v, Vst3Event::Data(_)));
    assert_eq!(vst3_to_midi_event(&v, 0), Some(cc));

    let bytes = cc.to_midi1_bytes().unwrap();
    assert_eq!(bytes, ([0xB1, 7, 99], 3));
    assert_eq!(MidiEvent::from_midi1_bytes(5, &bytes.0[..bytes.1]), Some(cc));
    assert_eq!(MidiEvent::from_midi1_bytes(0, &[0xF8]), None);
    assert_eq!(MidiEvent::from_midi1_bytes(0, &[0x90, 60]), None);
}

#[test]
fn note_expression_round_trip() {
    let v = NoteExpressionValue {
        sample_offset: 12,
        note_id: 7,
        expression_type: NoteExpressionType::Tuning,
        value_bits: bits(0.25),
    };
    let e = v.to_vst3_event();
    assert_eq!(vst3_to_note_expression(&e), Some(v));
    assert_eq!(NoteExpressionType::from_type_id(4), Some(NoteExpressionType::Brightness));
    assert_eq!(NoteExpressionType::from_type_id(5), None);
    assert_eq!(NoteExpressionType::Pan.to_type_id(), 1);
}

#[test]
fn event_list_orders_midi_and_expressions_by_offset() {
    let mut list = EventList::new();
    let midi = [
        MidiEvent::note_on(0, 60, 64).with_frame_offset(30),
        MidiEvent::note_off(0, 60, 0).with_frame_offset(10),
    ];
    let expr = [NoteExpressionValue {
        sample_offset: 10,
        note_id: 1,
        expression_type: NoteExpressionType::Volume,
        value_bits: bits(0.5),
    }];
    list.update_from_midi_and_expression(&midi, &expr);
    assert_eq!(list.len(), 3);
    assert!(matches!(list.event(0), Vst3Event::NoteOff(_)));
    assert!(matches!(list.event(1), Vst3Event::NoteExpression(_)));
    assert!(matches!(list.event(2), Vst3Event::NoteOn(_)));
    assert_eq!(list.event_count(), 3);
    let exprs = list.to_note_expressions();
    assert_eq!(exprs.len(), 1);
    assert_eq!(exprs.get(0), expr[0]);
    let levels = [0u8, 0, 64];
    let out = list.to_midi_events(&levels);
    assert_eq!(out.len(), 2);
    assert_eq!(out.get(0), midi[1]);
    assert_eq!(out.get(1), midi[0]);
}

#[test]
fn parameter_changes_round_trip_through_plugin_objects() {
    let mut changes = ParameterChanges::new();
    changes.add_change(1, 0, bits(0.5));
    changes.add_change(2, 4, bits(0.25));
    changes.add_change(1, 8, bits(0.75));
    assert_eq!(changes.len(), 2);
    let q1 = changes.get_queue(1).unwrap();
    assert_eq!(q1.points.len(), 2);
    assert_eq!(q1.points.get(1).sample_offset, 8);
    assert!(changes.get_queue(3).is_none());

    let imp = ParameterChangesImpl::from_changes(&changes);
    let back = imp.to_changes();
    assert_eq!(back.len(), 2);
    assert_eq!(back.get_queue(1).unwrap().points.len(), 2);
    assert_eq!(back.get_queue(2).unwrap().points.get(0).value_bits, bits(0.25));
}

#[test]
fn parameter_changes_impl_collects_plugin_output() {
    let mut imp = ParameterChangesImpl::new_empty();
    let i = imp.add_parameter_data(9);
    assert_eq!(i, 0);
    let q = imp.parameter_data(0).unwrap();
    assert_eq!(q.add_point(3, bits(1.0)), 0);
    assert_eq!(q.add_point(5, bits(0.0)), 1);
    assert_eq!(q.point_count(), 2);
    assert_eq!(q.get_point(1).unwrap().sample_offset, 5);
    assert_eq!(q.get_point(2).unwrap_err(), K_INVALID_ARGUMENT);
    assert!(imp.parameter_data(1).is_none());
    assert!(imp.parameter_data(-1).is_none());
    let changes = imp.to_changes();
    assert_eq!(changes.get_queue(9).unwrap().points.len(), 2);
    imp.clear_in_place();
    assert!(imp.is_empty());
}

#[test]
fn data_exchange_errors_and_pool_reuse() {
    let mut handler = DataExchangeHandler::new();
    assert_eq!(handler.lock_block(5), Err(K_INVALID_ARGUMENT));
    assert_eq!(handler.open_queue(8, 1, 5), 1);
    assert_eq!(handler.open_queue(8, 1, 6), 2);
    let (b0, _) = handler.lock_block(5).unwrap();
    assert_eq!(b0, 0);
    assert_eq!(handler.lock_block(5), Err(K_INVALID_ARGUMENT));
    assert_eq!(handler.free_block(5, 99, true).unwrap_err(), K_INVALID_ARGUMENT);
    assert_eq!(handler.free_block(5, b0, false).unwrap().is_none(), true);
    assert_eq!(handler.next_block_id(5), Some(1));
    let (b1, _) = handler.lock_block(5).unwrap();
    assert_eq!(b1, 1);
    assert!(handler.locked_block_data(5, 0).is_none());
    assert_eq!(handler.close_queue(5), K_RESULT_OK);
    assert_eq!(handler.next_block_id(5), None);
    assert_eq!(handler.free_block(5, b1, true).unwrap_err(), K_INVALID_ARGUMENT);
}

#[test]
fn progress_ids_count_up_from_one() {
    let mut ids = ProgressIds::new();
    for expected in 1..=3u64 {
        match ids.start(0, None) {
            ProgressEvent::Started { id, description, .. } => {
                assert_eq!(id, expected);
                assert_eq!(description, "");
            }
            _ => panic!("Expected Started event"),
        }
    }
}

#[test]
fn handler_answers() {
    assert_eq!(notify_result(true), K_RESULT_OK);
    assert_eq!(notify_result(false), K_NOT_IMPLEMENTED);
    assert!(delivers_binary(K_RESULT_OK, true, 4));
    assert!(!delivers_binary(K_RESULT_OK, true, 0));
    assert!(!delivers_binary(K_RESULT_OK, false, 4));
    assert!(!delivers_binary(K_RESULT_FALSE, true, 4));
    assert_eq!(
        ParameterEditEvent::request_bus_activation(0, 1, 2, 1),
        ParameterEditEvent::RequestBusActivation { media_type: 0, direction: 1, index: 2, state: true }
    );
}

#[test]
fn audio_config_decisions() {
    let mut cfg = AudioConfig::new(1, 0, bits(48000.0), 256);
    assert_eq!((cfg.input_slots(), cfg.output_slots()), (2, 2));
    let setup = cfg.process_setup();
    assert_eq!(setup.symbolic_sample_size, K_SAMPLE_32);
    assert_eq!(setup.max_samples_per_block, 256);
    assert_eq!(f64::from_bits(setup.sample_rate_bits), 48000.0);

    match cfg.set_use_f64(true, false) {
        Err(Vst3Error::NotSupported(msg)) => {
            assert_eq!(msg, "Plugin does not support 64-bit processing")
        }
        _ => panic!("expected NotSupported"),
    }
    assert!(!cfg.use_f64());
    assert!(cfg.set_use_f64(true, true).is_ok());
    assert_eq!(cfg.process_setup().symbolic_sample_size, K_SAMPLE_64);

    assert!(cfg.sync_input_channels(Some(6)));
    assert_eq!((cfg.num_input_channels(), cfg.input_slots()), (6, 6));
    assert!(!cfg.sync_input_channels(Some(6)));
    assert!(!cfg.sync_output_channels(None));
    assert!(cfg.sync_output_channels(Some(1)));
    assert_eq!((cfg.num_output_channels(), cfg.output_slots()), (1, 2));
    cfg.set_block_size(64);
    cfg.set_sample_rate(bits(96000.0));
    assert_eq!(cfg.block_size(), 64);
    assert_eq!(f64::from_bits(cfg.sample_rate_bits()), 96000.0);
    assert_eq!(pointer_slots(0), 2);
    assert_eq!(pointer_slots(8), 8);
}

#[test]
fn lifecycle_codes_and_processing_gates() {
    assert!(check_lifecycle_result(K_RESULT_OK, LoadStage::Setup).is_ok());
    assert!(check_lifecycle_result(K_RESULT_FALSE, LoadStage::Setup).is_ok());
    match check_lifecycle_result(K_NOT_IMPLEMENTED, LoadStage::Activation) {
        Err(Vst3Error::PluginError { stage, code }) => {
            assert_eq!(stage, LoadStage::Activation);
            assert_eq!(code, K_NOT_IMPLEMENTED);
        }
        _ => panic!("expected a plugin error"),
    }
    assert!(can_process(K_SAMPLE_32, false));
    assert!(!can_process(K_SAMPLE_64, false));
    assert!(can_process(K_SAMPLE_64, true));
    assert!(!should_process(true, 0));
    assert!(should_process(true, 1));
    assert!(!should_process(false, 512));
    assert_eq!(block_length(Some(128), Some(64)), 128);
    assert_eq!(block_length(None, Some(64)), 64);
    assert_eq!(LoadStage::Setup.label(), "processing setup");
}

#[test]
fn process_staging_and_output() {
    let mut events = EventList::new();
    stage_input_events(&mut events, &[MidiEvent::note_on(0, 1, 2)], &[]);
    assert_eq!(events.len(), 1);
    stage_input_events(&mut events, &[], &[]);
    assert!(events.is_empty());

    assert!(input_parameter_changes(None).is_none());
    let mut empty = ParameterChanges::new();
    assert!(input_parameter_changes(Some(&empty)).is_none());
    empty.add_change(4, 0, bits(0.5));
    assert_eq!(input_parameter_changes(Some(&empty)).unwrap().len(), 1);

    let out_events = {
        let mut l = EventList::new();
        l.update_from_midi(&[MidiEvent::note_on(0, 60, 10)]);
        l
    };
    let mut out_changes = ParameterChangesImpl::new_empty();
    let i = out_changes.add_parameter_data(3);
    out_changes.parameter_data(i).unwrap().add_point(0, bits(0.1));
    let ok = process_output(K_RESULT_OK, &out_events, &[10], &out_changes);
    assert_eq!(ok.midi_events.len(), 1);
    assert_eq!(ok.midi_events.get(0), MidiEvent::note_on(0, 60, 10));
    assert_eq!(ok.parameter_changes.len(), 1);
    let failed = process_output(K_RESULT_FALSE, &out_events, &[10], &out_changes);
    assert!(failed.midi_events.is_empty());
    assert!(failed.parameter_changes.is_empty());
    let none = empty_process_output();
    assert!(none.midi_events.is_empty() && none.parameter_changes.len() == 0);
}

#[test]
fn parameter_queue_basics() {
    let mut q = ParameterQueue::new(3);
    assert!(q.is_empty());
    q.add_point(1, bits(0.5));
    assert_eq!(q.len(), 1);
    assert_eq!(q.point(0).value_bits, bits(0.5));
    q.clear();
    assert!(q.is_empty());
}

#[test]
fn library_load_errors_name_the_step() {
    match library_load_error("/x.so", LoadFailure::MissingSymbol, "undefined symbol") {
        Vst3Error::LoadFailed { path, stage, reason } => {
            assert_eq!(path, "/x.so");
            assert_eq!(stage, LoadStage::Factory);
            assert_eq!(reason, "Missing GetPluginFactory symbol: undefined symbol");
        }
        _ => panic!("expected a load failure"),
    }
    match library_load_error("/x.so", LoadFailure::Open, "no such file") {
        Vst3Error::LoadFailed { stage, reason, .. } => {
            assert_eq!(stage, LoadStage::Opening);
            assert_eq!(reason, "no such file");
        }
        _ => panic!("expected a load failure"),
    }
    match library_load_error("/x.so", LoadFailure::NullFactory, "") {
        Vst3Error::LoadFailed { stage, reason, .. } => {
            assert_eq!(stage, LoadStage::Factory);
            assert_eq!(reason, "GetPluginFactory returned null");
        }
        _ => panic!("expected a load failure"),
    }
}

#[test]
fn default_process_context() {
    let ctx = ProcessContextFields::default();
    assert_eq!(ctx.state, 0);
    assert_eq!(f64::from_bits(ctx.sample_rate_bits), 44100.0);
    assert_eq!(f64::from_bits(ctx.tempo_bits), 120.0);
    assert_eq!((ctx.time_sig_numerator, ctx.time_sig_denominator), (4, 4));
}

#[test]
fn short_host_name_reads_back_whole() {
    let host = HostApplication::new("Tütti Host");
    let buf = host.get_name(true).unwrap();
    assert_eq!(utf16_to_string(&buf), "Tütti Host");
}

#[test]
fn midi_messages_round_trip_through_event_list() {
    let midi = [
        MidiEvent::note_on(2, 64, 90).with_frame_offset(0),
        MidiEvent::control_change(2, 1, 33).with_frame_offset(4),
        MidiEvent::poly_pressure(2, 64, 12).with_frame_offset(8),
        MidiEvent::program_change(2, 5).with_frame_offset(9),
        MidiEvent::note_off(2, 64, 0).with_frame_offset(12),
    ];
    let mut list = EventList::new();
    list.update_from_midi(&midi);
    assert_eq!(list.len(), midi.len());
    let levels: Vec<u8> = midi.iter().map(|m| m.data2).collect();
    let back = list.to_midi_events(&levels);
    assert_eq!(back.len(), midi.len());
    for (i, m) in midi.iter().enumerate() {
        assert_eq!(back.get(i), *m);
    }
}

#[test]
fn to_changes_merges_queues_by_id_and_drops_empty_ones() {
    let mut imp = ParameterChangesImpl::new_empty();
    let a = imp.add_parameter_data(1);
    imp.parameter_data(a).unwrap().add_point(0, bits(0.1));
    imp.add_parameter_data(2);
    let b = imp.add_parameter_data(1);
    imp.parameter_data(b).unwrap().add_point(5, bits(0.2));
    imp.parameter_data(b).unwrap().add_point(9, bits(0.3));
    let changes = imp.to_changes();
    assert_eq!(changes.len(), 1);
    let q = changes.get_queue(1).unwrap();
    assert_eq!(q.points.len(), 3);
    assert_eq!(q.points.get(0).sample_offset, 0);
    assert_eq!(q.points.get(1).sample_offset, 5);
    assert_eq!(q.points.get(2).sample_offset, 9);
    assert!(changes.get_queue(2).is_none());
}

#[test]
fn add_change_adds_exactly_one_point() {
    let mut changes = ParameterChanges::new();
    let mut total = 0;
    for (id, off) in [(7u32, 0i32), (8, 1), (7, 2), (9, 3), (8, 4)] {
        changes.add_change(id, off, bits(0.5));
        total += 1;
        let sum: usize = [7u32, 8, 9]
            .iter()
            .filter_map(|p| changes.get_queue(*p))
            .map(|q| q.points.len())
            .sum();
        assert_eq!(sum, total);
        assert_eq!(changes.get_queue(id).unwrap().points.get(changes.get_queue(id).unwrap().points.len() - 1).sample_offset, off);
    }
    assert_eq!(changes.len(), 3);
}

#[test]
fn well_formed_utf16_decodes_exactly() {
    let text = "a\u{1F600}\u{e9}z";
    let mut units: Vec<u16> = text.encode_utf16().collect();
    units.push(0);
    units.push(b'q' as u16);
    assert_eq!(utf16_to_string(&units), text);
}

#[test]
fn bundle_candidate_takes_the_stem_of_the_path() {
    let c = bundle_candidate("/plugins/Synth.vst3", Platform::Linux);
    assert_eq!(c.stem.as_deref(), Some("Synth"));
    assert_eq!(c.components.unwrap(), vec!["Contents", "x86_64-linux", "Synth.so"]);
    let none = bundle_candidate("/", Platform::MacOs);
    assert!(none.stem.is_none() && none.components.is_none());
    let other = bundle_candidate("/p/x.vst3", Platform::Other);
    assert_eq!(other.stem.as_deref(), Some("x"));
    assert!(other.components.is_none());
}

#[test]
fn filled_slots_is_the_smaller_count() {
    assert_eq!(filled_slots(2, 8), 2);
    assert_eq!(filled_slots(8, 2), 2);
    assert_eq!(filled_slots(0, 2), 0);
}

#[test]
fn lossy_decoding_replaces_what_it_cannot_decode() {
    assert_eq!(utf16_to_string(&[0x48, 0x69, 0, 0x41]), "Hi");
    assert_eq!(utf16_to_string(&[0x41, 0x42]), "AB");
    assert_eq!(utf16_to_string(&[0xD800, 0]), "\u{FFFD}");
    assert_eq!(utf16_to_string(&[0xDC00, 0x41, 0xD800]), "\u{FFFD}A\u{FFFD}");
    assert_eq!(c_str_to_string(&[72, 105, 0, 65]), "Hi");
    assert_eq!(c_str_to_string(&[-61, -87, 0]), "\u{e9}");
    assert_eq!(c_str_to_string(&[-1, 0]), "\u{FFFD}");
    assert_eq!(c_str_to_string(&[0x41, -61]), "A\u{FFFD}");
    assert_eq!(c_str_to_string(&[]), "");
}

#[test]
fn gathered_ids_follow_first_queue_with_points() {
    let mut imp = ParameterChangesImpl::new_empty();
    imp.add_parameter_data(5);
    let b = imp.add_parameter_data(9);
    imp.parameter_data(b).unwrap().add_point(0, bits(0.1));
    let c = imp.add_parameter_data(5);
    imp.parameter_data(c).unwrap().add_point(1, bits(0.2));
    let d = imp.add_parameter_data(9);
    imp.parameter_data(d).unwrap().add_point(2, bits(0.3));
    let changes = imp.to_changes();
    let from = ParameterChangesImpl::from_changes(&changes);
    assert_eq!(from.len(), 2);
    let mut from = from;
    assert_eq!(from.parameter_data(0).unwrap().param_id(), 9);
    assert_eq!(from.parameter_data(1).unwrap().param_id(), 5);
    assert_eq!(from.parameter_data(0).unwrap().len(), 2);
}

#[test]
fn bundle_stem_follows_the_last_normal_component() {
    let stem = |p: &str| bundle_candidate(p, Platform::Linux).stem;
    assert_eq!(stem("a/b.c/.").as_deref(), Some("b"));
    assert_eq!(stem("a//b/").as_deref(), Some("b"));
    assert_eq!(stem("/p/.hidden").as_deref(), Some(".hidden"));
    assert_eq!(stem("a..b").as_deref(), Some("a."));
    assert_eq!(stem("..hidden").as_deref(), Some("."));
    assert_eq!(stem("dir/name.tar.gz").as_deref(), Some("name.tar"));
    assert_eq!(stem("x/.."), None);
    assert_eq!(stem("."), None);
    assert_eq!(stem(""), None);
    let c = bundle_candidate("a/b.c/.", Platform::MacOs);
    assert_eq!(c.components.unwrap(), vec!["Contents", "MacOS", "b"]);
}

#[test]
fn attribute_list_reads_back_what_was_set() {
    let mut l = AttributeList::new();
    assert!(l.get(b"rate").is_none());
    l.set(b"rate".to_vec(), AttrValue::Int(44100));
    l.set(b"gain".to_vec(), AttrValue::Float(bits(0.5)));
    l.set(b"name".to_vec(), AttrValue::String(vec![0x48, 0x69]));
    l.set(b"blob".to_vec(), AttrValue::Binary(vec![1, 2, 3]));
    assert_eq!(l.get_int(b"rate"), Some(44100));
    assert_eq!(l.get_float_bits(b"gain"), Some(bits(0.5)));
    assert_eq!(l.get_string(b"name").unwrap(), &vec![0x48u16, 0x69]);
    assert_eq!(l.get_binary(b"blob").unwrap(), &vec![1u8, 2, 3]);
    // A value of another kind is not read as this one.
    assert_eq!(l.get_int(b"gain"), None);
    assert!(l.get_string(b"blob").is_none());
    assert!(l.get_binary(b"missing").is_none());
    // Setting a key again replaces its value and leaves the others.
    l.set(b"rate".to_vec(), AttrValue::Float(bits(48000.0)));
    assert_eq!(l.get_int(b"rate"), None);
    assert_eq!(l.get_float_bits(b"rate"), Some(bits(48000.0)));
    assert_eq!(l.get_float_bits(b"gain"), Some(bits(0.5)));
    assert!(matches!(l.get(b"name"), Some(AttrValue::String(_))));
}
