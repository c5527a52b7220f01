use recorder::engine::{settle, Admission, Engine, Envelope, Settlement, StageError};
use recorder::frame::{CfaDescriptor, Raw};
use recorder::nodes::{
    cfa_pattern, create_node_from_name, frame_file_path, list_available_nodes, BitDepthConverter,
    CinemaDngWriter, DngFile, Node,
};
use recorder::ordering::CommitSequencer;
use recorder::parametrizable::{
    ConfigError, ParameterType, ParameterTypeDescriptor, ParameterValue, Parameters,
    ParametersDescriptor,
};
use recorder::payload::{Interpretation, Payload};

fn raw12(width: u64, height: u64) -> Raw {
    Raw { width, height, bit_depth: 12, cfa: CfaDescriptor::from_first_red(true, true) }
}

fn writer_params(path: &str) -> Parameters {
    let mut p = Parameters::new();
    assert!(p.insert("path".to_string(), ParameterValue::StringParameter(path.to_string())));
    p
}

#[test]
fn commit_rights_follow_sequence_numbers() {
    let mut s = CommitSequencer::new();
    assert!(!s.try_acquire(1));
    assert!(s.try_acquire(0));
    assert!(!s.try_acquire(0));
    assert!(!s.release(1));
    assert!(s.release(0));
    assert!(!s.release(0));
    assert_eq!(s.next_frame(), 1);
    assert!(!s.try_acquire(2));
    assert!(s.try_acquire(1));
    assert!(s.is_held());
    assert!(s.release(1));
    assert!(!s.is_held());
}

#[test]
fn commit_order_under_scrambled_arrival() {
    // frames reach the terminal stage in this order; each retries until granted
    let arrival: Vec<u64> = vec![3, 1, 0, 7, 2, 6, 5, 4, 9, 8];
    let mut s = CommitSequencer::new();
    let mut pending = arrival.clone();
    let mut committed = Vec::new();
    while !pending.is_empty() {
        let mut rest = Vec::new();
        for f in pending {
            if s.try_acquire(f) {
                committed.push(f);
                assert!(s.release(f));
            } else {
                rest.push(f);
            }
        }
        pending = rest;
    }
    assert_eq!(committed, (0..10).collect::<Vec<u64>>());
}

#[test]
fn sequence_numbers_start_at_zero_and_step_by_one() {
    let mut e = Engine::new(1, 4);
    for i in 0..3u64 {
        match e.offer_frame(Payload::empty()) {
            Admission::Accepted(s) => assert_eq!(s, i),
            _ => panic!("frame refused"),
        }
    }
    assert_eq!(e.next_seq(), 3);
}

#[test]
fn backpressure_bounds_queued_frames() {
    let depth = 2;
    let mut e = Engine::new(2, depth);
    let mut accepted = 0;
    for _ in 0..10 {
        if let Admission::Accepted(_) = e.offer_frame(Payload::empty()) {
            accepted += 1;
        }
    }
    assert_eq!(accepted, 2);
    // stage 0 moves one frame on; the blocked last stage never takes
    let env = e.take(0).unwrap();
    assert!(e.forward(0, env).is_ok());
    let env = e.take(0).unwrap();
    assert!(e.forward(0, env).is_ok());
    assert!(matches!(e.offer_frame(Payload::empty()), Admission::Accepted(2)));
    assert!(matches!(e.offer_frame(Payload::empty()), Admission::Accepted(3)));
    assert!(matches!(e.offer_frame(Payload::empty()), Admission::Full(_)));
    let env = e.take(0).unwrap();
    assert!(e.forward(0, env).is_err());
    assert_eq!(e.queued(0), 1);
    assert_eq!(e.queued(1), 2);
    assert!(e.queued(0) + e.queued(1) <= e.stages() * depth);
}

#[test]
fn recoverable_error_becomes_empty_payload() {
    match settle(Err(StageError::Recoverable), 5) {
        Settlement::Forward(Envelope::Frame { seq, payload }) => {
            assert_eq!(seq, 5);
            assert!(payload.is_empty());
        }
        _ => panic!("frame lost"),
    }
    match settle(Err(StageError::Transfer), 6) {
        Settlement::Forward(Envelope::Frame { seq, payload }) => {
            assert_eq!(seq, 6);
            assert!(payload.is_empty());
        }
        _ => panic!("frame lost"),
    }
    assert!(matches!(settle(Err(StageError::WrongFormat), 1), Settlement::Abort(StageError::WrongFormat)));
    assert!(matches!(settle(Ok(None), 1), Settlement::Finish));
    assert!(matches!(settle(Ok(Some(Payload::empty())), 2), Settlement::Forward(Envelope::Frame { seq: 2, .. })));
}

#[test]
fn empty_payload_flows_through_every_stage() {
    let conv = create_node_from_name("BitDepthConverter", &Parameters::new()).unwrap();
    let writer = create_node_from_name("CinemaDngWriter", &writer_params("out")).unwrap();
    let a = conv.process(&Payload::empty(), 4).unwrap();
    let mid = a.output.unwrap();
    assert!(mid.is_empty());
    let b = writer.process(&mid, 4).unwrap();
    assert!(b.write.is_none());
    assert!(b.output.unwrap().is_empty());
}

#[test]
fn error_kinds_are_fatal_or_not() {
    assert!(StageError::WrongFormat.is_fatal());
    assert!(StageError::InsufficientData.is_fatal());
    assert!(StageError::Fatal.is_fatal());
    assert!(!StageError::Transfer.is_fatal());
    assert!(!StageError::Recoverable.is_fatal());
}

#[test]
fn first_failure_is_kept() {
    let mut e = Engine::new(3, 1);
    assert_eq!(e.failure(), None);
    e.record_failure(StageError::Fatal);
    e.record_failure(StageError::WrongFormat);
    assert_eq!(e.failure(), Some(StageError::Fatal));
}

#[test]
fn shutdown_drains_queued_frames_then_stops() {
    let mut e = Engine::new(2, 4);
    for _ in 0..3 {
        assert!(matches!(e.offer_frame(Payload::empty()), Admission::Accepted(_)));
    }
    assert!(e.request_stop());
    assert!(e.is_stopped());
    assert!(matches!(e.offer_frame(Payload::empty()), Admission::Closed(_)));
    let mut seen: Vec<Option<u64>> = Vec::new();
    let mut steps = 0;
    while !e.is_drained() {
        steps += 1;
        assert!(steps < 100);
        for stage in 0..e.stages() {
            if let Some(env) = e.take(stage) {
                if stage == 1 {
                    seen.push(match &env {
                        Envelope::Frame { seq, .. } => Some(*seq),
                        Envelope::Stop => None,
                    });
                }
                assert!(e.forward(stage, env).is_ok());
            }
        }
    }
    assert_eq!(seen, vec![Some(0), Some(1), Some(2), None]);
}

#[test]
fn stop_waits_for_room() {
    let mut e = Engine::new(1, 1);
    assert!(matches!(e.offer_frame(Payload::empty()), Admission::Accepted(0)));
    assert!(!e.request_stop());
    assert!(!e.is_stopped());
    e.take(0).unwrap();
    assert!(e.request_stop());
    assert!(e.request_stop());
}

fn packed_frame(k: u8) -> Vec<u8> {
    // 4x2 pixels of 12 bits: four pixel pairs of three bytes
    let mut v = Vec::new();
    for i in 0..4u8 {
        v.push(k.wrapping_mul(16).wrapping_add(i));
        v.push(0x5A);
        v.push(0xC3);
    }
    v
}

#[test]
fn three_stage_chain_writes_files_in_order() {
    let nodes: Vec<Node> = vec![
        create_node_from_name("BitDepthConverter", &Parameters::new()).unwrap(),
        create_node_from_name("BitDepthConverter", &Parameters::new()).unwrap(),
        create_node_from_name("CinemaDngWriter", &writer_params("take")).unwrap(),
    ];
    let mut e = Engine::new(nodes.len(), 2);
    let mut seq_lock = CommitSequencer::new();
    let mut fed = 0u8;
    let mut written: Vec<DngFile> = Vec::new();
    let mut waiting: Vec<(u64, DngFile)> = Vec::new();
    let mut held_back: Option<Envelope> = None;
    let mut steps = 0;
    while written.len() < 10 {
        steps += 1;
        assert!(steps < 1000);
        if fed < 10 {
            let p = Payload::from_bytes(&packed_frame(fed), Interpretation::Raw(raw12(4, 2))).unwrap();
            if let Admission::Accepted(_) = e.offer_frame(p) {
                fed += 1;
            }
        }
        for stage in (0..nodes.len()).rev() {
            let env = match e.take(stage) {
                Some(env) => env,
                None => continue,
            };
            let (seq, payload) = match env {
                Envelope::Frame { seq, payload } => (seq, payload),
                Envelope::Stop => unreachable!(),
            };
            let out = nodes[stage].process(&payload, seq).unwrap();
            if let Some(file) = out.write {
                waiting.push((seq, file));
            }
            if let Some(next) = out.output {
                let env = Envelope::Frame { seq, payload: next };
                // the middle stage finishes frame 7 before frame 6
                if stage == 1 && seq == 6 && held_back.is_none() {
                    held_back = Some(env);
                    continue;
                }
                let mut env = env;
                while let Err(back) = e.forward(stage, env) {
                    env = back;
                    let tail = nodes.len() - 1;
                    if let Some(Envelope::Frame { seq, payload }) = e.take(tail) {
                        if let Some(file) = nodes[tail].process(&payload, seq).unwrap().write {
                            waiting.push((seq, file));
                        }
                    }
                }
                if stage == 1 && seq == 7 {
                    let mut h = held_back.take().unwrap();
                    while let Err(back) = e.forward(1, h) {
                        h = back;
                        let tail = nodes.len() - 1;
                        if let Some(Envelope::Frame { seq, payload }) = e.take(tail) {
                            if let Some(file) = nodes[tail].process(&payload, seq).unwrap().write {
                                waiting.push((seq, file));
                            }
                        }
                    }
                }
            }
        }
        // the terminal stage commits whatever it holds, in sequence order only
        let mut progress = true;
        while progress {
            progress = false;
            let mut i = 0;
            while i < waiting.len() {
                if seq_lock.try_acquire(waiting[i].0) {
                    let (s, f) = waiting.remove(i);
                    written.push(f);
                    assert!(seq_lock.release(s));
                    progress = true;
                } else {
                    i += 1;
                }
            }
        }
    }
    let names: Vec<String> = written.iter().map(|f| f.path.clone()).collect();
    let expected: Vec<String> = (0..10).map(|i| format!("take/{:06}.dng", i)).collect();
    assert_eq!(names, expected);
    for (k, f) in written.iter().enumerate() {
        assert_eq!(f.width, 4);
        assert_eq!(f.height, 2);
        assert_eq!(f.bit_depth, 8);
        assert_eq!(f.cfa_pattern, (0, 1, 1, 2));
        let base = (k as u8).wrapping_mul(16);
        assert_eq!(f.data, vec![base, 0xAC, base + 1, 0xAC, base + 2, 0xAC, base + 3, 0xAC]);
    }
}

#[test]
fn bit_depth_converter_unpacks_twelve_bits() {
    let c = BitDepthConverter::from_parameters(&Parameters::new()).unwrap();
    let p = Payload::from_bytes(&[0xAB, 0xCD, 0xEF, 0x12, 0x34, 0x56], Interpretation::Raw(raw12(2, 2))).unwrap();
    let out = c.process(&p).unwrap().unwrap();
    let f = out.downcast_raw().unwrap();
    assert_eq!(f.storage, vec![0xAB, 0xDE, 0x12, 0x45]);
    assert_eq!(f.interp.bit_depth, 8);
    assert_eq!(f.interp.width, 2);
}

#[test]
fn bit_depth_converter_errors() {
    let c = BitDepthConverter {};
    let odd = Payload::from_bytes(&[0; 8], Interpretation::Raw(raw12(3, 1))).unwrap();
    assert_eq!(c.process(&odd).err(), Some(StageError::WrongFormat));
    let short = Payload::Frame {
        interp: Interpretation::Raw(raw12(2, 2)),
        storage: recorder::payload::Storage::Cpu(vec![1, 2]),
    };
    assert_eq!(c.process(&short).err(), Some(StageError::InsufficientData));
    let ten = Raw { bit_depth: 10, ..raw12(2, 2) };
    let p10 = Payload::from_bytes(&[0; 5], Interpretation::Raw(ten)).unwrap();
    assert_eq!(c.process(&p10).err(), Some(StageError::WrongFormat));
    let rgb = Payload::from_bytes(&[0; 4], Interpretation::Rgb(recorder::frame::Rgb { width: 2, height: 2 })).unwrap();
    assert_eq!(c.process(&rgb).err(), Some(StageError::WrongFormat));
    let eight = Raw { bit_depth: 8, ..raw12(2, 1) };
    let p8 = Payload::from_bytes(&[7, 9], Interpretation::Raw(eight)).unwrap();
    assert_eq!(c.process(&p8).unwrap().unwrap().downcast_raw().unwrap().storage, vec![7, 9]);
}

#[test]
fn dng_file_names_are_zero_padded() {
    assert_eq!(frame_file_path(&"out".to_string(), 0), "out/000000.dng");
    assert_eq!(frame_file_path(&"out".to_string(), 42), "out/000042.dng");
    assert_eq!(frame_file_path(&"a/b".to_string(), 999999), "a/b/999999.dng");
    assert_eq!(frame_file_path(&"x".to_string(), 1234567), "x/1234567.dng");
    assert_eq!(frame_file_path(&"x".to_string(), u64::MAX), "x/18446744073709551615.dng");
}

#[test]
fn cfa_patterns_for_each_phase() {
    assert_eq!(cfa_pattern(CfaDescriptor::from_first_red(true, true)), (0, 1, 1, 2));
    assert_eq!(cfa_pattern(CfaDescriptor::from_first_red(true, false)), (1, 0, 2, 1));
    assert_eq!(cfa_pattern(CfaDescriptor::from_first_red(false, true)), (1, 2, 0, 1));
    assert_eq!(cfa_pattern(CfaDescriptor::from_first_red(false, false)), (2, 1, 1, 0));
}

#[test]
fn dng_writer_describes_one_file() {
    let w = CinemaDngWriter::from_parameters(&writer_params("d")).unwrap();
    assert_eq!(w.dir_path(), "d");
    let p = Payload::from_bytes(&[1, 2, 3], Interpretation::Raw(raw12(2, 1))).unwrap();
    let f = w.process(&p, 12).unwrap().unwrap();
    assert_eq!(f.path, "d/000012.dng");
    assert_eq!(f.data, vec![1, 2, 3]);
    assert_eq!(f.bit_depth, 12);
    let rgb = Payload::from_bytes(&[0; 4], Interpretation::Rgb(recorder::frame::Rgb { width: 2, height: 2 })).unwrap();
    assert_eq!(w.process(&rgb, 0).err(), Some(StageError::WrongFormat));
    let gpu = Payload::from_gpu(recorder::payload::GpuBuffer { handle: 1, len: 3 }, Interpretation::Raw(raw12(2, 1)));
    assert_eq!(w.process(&gpu, 0).err(), Some(StageError::Transfer));
}

#[test]
fn registry_builds_by_name() {
    let list = list_available_nodes();
    assert_eq!(list.len(), 2);
    assert_eq!(list[0].0, "BitDepthConverter");
    assert_eq!(list[1].0, "CinemaDngWriter");
    assert!(matches!(create_node_from_name("BitDepthConverter", &Parameters::new()), Ok(Node::BitDepthConverter(_))));
    match create_node_from_name("Nope", &Parameters::new()) {
        Err(ConfigError::UnknownNode(n)) => assert_eq!(n, "Nope"),
        _ => panic!("unknown name accepted"),
    }
    match create_node_from_name("CinemaDngWriter", &Parameters::new()) {
        Err(ConfigError::Missing(n)) => assert_eq!(n, "path"),
        _ => panic!("missing path accepted"),
    }
    let mut bad = Parameters::new();
    bad.insert("path".to_string(), ParameterValue::IntRange(3));
    match create_node_from_name("CinemaDngWriter", &bad) {
        Err(ConfigError::TypeMismatch(n)) => assert_eq!(n, "path"),
        _ => panic!("mistyped path accepted"),
    }
}

#[test]
fn schema_validation() {
    let d = ParametersDescriptor::new()
        .with("width", ParameterTypeDescriptor::Mandatory(ParameterType::IntRange { min: 1, max: 8192 }))
        .with("loop", ParameterTypeDescriptor::Optional(ParameterType::BoolParameter, ParameterValue::BoolParameter(false)));
    let mut p = Parameters::new();
    assert!(matches!(d.validate(&p), Err(ConfigError::Missing(ref n)) if n == "width"));
    p.insert("width".to_string(), ParameterValue::IntRange(9000));
    assert!(matches!(d.validate(&p), Err(ConfigError::TypeMismatch(ref n)) if n == "width"));
    let mut q = Parameters::new();
    q.insert("width".to_string(), ParameterValue::IntRange(4096));
    assert!(d.validate(&q).is_ok());
    q.insert("loop".to_string(), ParameterValue::StringParameter("yes".to_string()));
    assert!(matches!(d.validate(&q), Err(ConfigError::TypeMismatch(ref n)) if n == "loop"));
}

#[test]
fn parameter_bag_keeps_first_value() {
    let mut p = Parameters::new();
    assert!(p.insert("a".to_string(), ParameterValue::BoolParameter(true)));
    assert!(!p.insert("a".to_string(), ParameterValue::BoolParameter(false)));
    assert!(matches!(p.get("a"), Some(ParameterValue::BoolParameter(true))));
    assert!(p.get("b").is_none());
}
