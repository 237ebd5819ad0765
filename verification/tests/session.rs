use streamcast::error::ErrorKind;
use streamcast::filter::{plan_filter, FilterGraph, PASSTHROUGH};
use streamcast::params::{SampleFormat, StreamParameters, STEREO};
use streamcast::session::{Action, Outcome, Policy, Session, SessionSetup};
use streamcast::timebase::TimeBase;

fn tb(num: i32, den: i32) -> TimeBase {
    TimeBase::new(num, den).unwrap()
}

fn graph(ready: bool) -> FilterGraph {
    let p = StreamParameters {
        sample_rate: 44100,
        channel_layout: STEREO,
        sample_format: SampleFormat::S16,
        time_base: tb(1, 44100),
    };
    let mut g = FilterGraph::new(plan_filter(PASSTHROUGH, &p, &p, None, 0).unwrap());
    if ready {
        for _ in 0..5 {
            g.completed(true).unwrap();
        }
    }
    g
}

fn session(policy: Policy) -> Session {
    let setup = SessionSetup {
        stream: 1,
        output_stream: 0,
        policy,
        stream_base: tb(1, 1000),
        decoder_base: tb(1, 44100),
        encoder_base: tb(1, 44100),
        output_base: tb(1, 48000),
    };
    Session::new(setup, graph(true)).unwrap()
}

fn packet(stream: usize, pts: i64) -> Outcome {
    Outcome::Unit { stream, pts: Some(pts) }
}

fn unit(pts: i64) -> Outcome {
    Outcome::Unit { stream: 0, pts: Some(pts) }
}

/// Feeds the outcomes in order and returns the step that was due before each
/// of them, and the step that is due in the end.
fn run(s: &mut Session, outcomes: &[Outcome]) -> Vec<Action> {
    let mut actions = Vec::new();
    for o in outcomes.iter() {
        actions.push(s.pending());
        let _ = s.completed(*o);
    }
    actions.push(s.pending());
    actions
}

#[test]
fn there_is_no_session_without_a_ready_graph() {
    let setup = SessionSetup {
        stream: 0,
        output_stream: 0,
        policy: Policy::Lenient,
        stream_base: tb(1, 1000),
        decoder_base: tb(1, 44100),
        encoder_base: tb(1, 44100),
        output_base: tb(1, 44100),
    };
    let e = Session::new(setup, graph(false)).unwrap_err();
    assert_eq!(e.kind, ErrorKind::FilterGraph);
    assert_eq!(e.cause, "the filter graph is not ready");
    let mut failed = graph(false);
    let _ = failed.completed(false);
    assert!(Session::new(setup, failed).is_err());
    let s = Session::new(setup, graph(true)).unwrap();
    assert!(s.graph().is_ready());
    assert_eq!(s.pending(), Action::ReadPacket);
    assert_eq!(s.written(), 0);
    assert_eq!(s.skipped(), 0);
    assert!(!s.is_done());
    assert_eq!(s.failure(), None);
}

#[test]
fn one_packet_goes_through_every_stage() {
    let mut s = session(Policy::Strict);
    let actions = run(
        &mut s,
        &[
            packet(1, 1000),
            unit(44100),
            Outcome::Nothing,
            unit(44100),
            unit(44100),
            Outcome::Nothing,
            Outcome::Nothing,
        ],
    );
    assert_eq!(
        actions,
        vec![
            Action::ReadPacket,
            // 1000 ms are 44100 units of 1/44100 s
            Action::Decode { pts: Some(44100) },
            Action::PushFrame { pts: Some(44100) },
            Action::PullFrame,
            Action::Encode,
            // 44100 units of 1/44100 s are 48000 units of 1/48000 s
            Action::WritePacket { stream: 0, pts: Some(48000) },
            Action::PullFrame,
            Action::ReadPacket,
        ]
    );
    assert_eq!(s.written(), 1);
    assert_eq!(s.skipped(), 0);
}

#[test]
fn packets_of_other_streams_are_passed_over() {
    let mut s = session(Policy::Strict);
    let actions = run(&mut s, &[packet(0, 10), packet(2, 20), packet(1, 30)]);
    assert_eq!(
        actions,
        vec![
            Action::ReadPacket,
            Action::ReadPacket,
            Action::ReadPacket,
            Action::Decode { pts: Some(1323) },
        ]
    );
}

#[test]
fn a_packet_without_timestamp_stays_without() {
    let mut s = session(Policy::Strict);
    let none = Outcome::Unit { stream: 1, pts: None };
    let actions = run(&mut s, &[none, none, Outcome::Nothing, none, none]);
    assert_eq!(
        actions,
        vec![
            Action::ReadPacket,
            Action::Decode { pts: None },
            Action::PushFrame { pts: None },
            Action::PullFrame,
            Action::Encode,
            Action::WritePacket { stream: 0, pts: None },
        ]
    );
}

#[test]
fn a_decoder_that_buffers_gets_the_next_packet() {
    let mut s = session(Policy::Strict);
    let actions = run(&mut s, &[packet(1, 0), Outcome::Nothing, packet(1, 23)]);
    assert_eq!(
        actions,
        vec![
            Action::ReadPacket,
            Action::Decode { pts: Some(0) },
            Action::ReadPacket,
            Action::Decode { pts: Some(1014) },
        ]
    );
}

#[test]
fn the_graph_is_drained_before_the_next_packet_is_read() {
    let mut s = session(Policy::Strict);
    let actions = run(
        &mut s,
        &[
            packet(1, 0),
            unit(0),
            Outcome::Nothing,
            unit(0),
            Outcome::Nothing,
            unit(1024),
            unit(0),
            Outcome::Nothing,
            Outcome::Failed,
        ],
    );
    assert_eq!(
        actions,
        vec![
            Action::ReadPacket,
            Action::Decode { pts: Some(0) },
            Action::PushFrame { pts: Some(0) },
            Action::PullFrame,
            Action::Encode,
            Action::PullFrame,
            Action::Encode,
            Action::WritePacket { stream: 0, pts: Some(0) },
            Action::PullFrame,
            // a pull that fails is a pull that brings nothing
            Action::ReadPacket,
        ]
    );
    assert_eq!(s.written(), 1);
}

#[test]
fn the_flush_sequence_runs_in_order() {
    let mut s = session(Policy::Strict);
    let actions = run(
        &mut s,
        &[
            Outcome::Nothing,
            Outcome::Nothing,
            unit(100),
            unit(441),
            Outcome::Nothing,
            Outcome::Nothing,
            unit(882),
            Outcome::Nothing,
            unit(1323),
            Outcome::Nothing,
            Outcome::Nothing,
            Outcome::Nothing,
        ],
    );
    assert_eq!(
        actions,
        vec![
            Action::ReadPacket,
            Action::FlushFilter,
            Action::PullFrame,
            Action::Encode,
            Action::WritePacket { stream: 0, pts: Some(480) },
            Action::PullFrame,
            Action::FlushEncoder,
            Action::WritePacket { stream: 0, pts: Some(960) },
            Action::FlushEncoder,
            Action::WritePacket { stream: 0, pts: Some(1440) },
            Action::FlushEncoder,
            Action::WriteTrailer,
            Action::Finished,
        ]
    );
    assert!(s.is_done());
    assert_eq!(s.written(), 3);
    assert_eq!(s.failure(), None);
}

#[test]
fn flushing_an_empty_pipeline_writes_only_the_trailer() {
    let mut s = session(Policy::Strict);
    let actions = run(
        &mut s,
        &[Outcome::Nothing, Outcome::Nothing, Outcome::Nothing, Outcome::Nothing, Outcome::Nothing],
    );
    assert_eq!(
        actions,
        vec![
            Action::ReadPacket,
            Action::FlushFilter,
            Action::PullFrame,
            Action::FlushEncoder,
            Action::WriteTrailer,
            Action::Finished,
        ]
    );
    assert_eq!(s.written(), 0);
}

#[test]
fn a_failed_read_ends_the_input() {
    let mut s = session(Policy::Strict);
    assert!(s.completed(Outcome::Failed).is_ok());
    assert_eq!(s.pending(), Action::FlushFilter);
}

#[test]
fn nothing_is_produced_after_the_trailer() {
    let mut s = session(Policy::Lenient);
    run(
        &mut s,
        &[Outcome::Nothing, Outcome::Nothing, Outcome::Nothing, Outcome::Nothing, Outcome::Nothing],
    );
    assert!(s.is_done());
    for o in [Outcome::Nothing, Outcome::Failed, packet(1, 5), unit(7)].iter() {
        assert!(s.completed(*o).is_ok());
        assert_eq!(s.pending(), Action::Finished);
        assert!(s.is_done());
        assert_eq!(s.written(), 0);
        assert_eq!(s.skipped(), 0);
    }
}

#[test]
fn the_strict_policy_ends_the_run_on_a_decoder_failure() {
    let mut s = session(Policy::Strict);
    s.completed(packet(1, 0)).unwrap();
    let e = s.completed(Outcome::Failed).unwrap_err();
    assert_eq!(e.kind, ErrorKind::Decode);
    assert_eq!(e.cause, "decoding a packet failed");
    assert_eq!(e.message(), "decode: decoding a packet failed");
    assert_eq!(s.pending(), Action::Abort(ErrorKind::Decode));
    assert_eq!(s.failure(), Some(ErrorKind::Decode));
    assert_eq!(s.skipped(), 0);
    // the failure is reported once, and the run stays failed
    assert!(s.completed(Outcome::Nothing).is_ok());
    assert!(s.completed(packet(1, 1)).is_ok());
    assert_eq!(s.pending(), Action::Abort(ErrorKind::Decode));
    assert!(!s.is_done());
}

#[test]
fn the_lenient_policy_skips_what_the_decoder_fails_on() {
    let mut s = session(Policy::Lenient);
    let actions = run(&mut s, &[packet(1, 0), Outcome::Failed, packet(1, 23), Outcome::Failed]);
    assert_eq!(
        actions,
        vec![
            Action::ReadPacket,
            Action::Decode { pts: Some(0) },
            Action::ReadPacket,
            Action::Decode { pts: Some(1014) },
            Action::ReadPacket,
        ]
    );
    assert_eq!(s.skipped(), 2);
    assert_eq!(s.written(), 0);
    assert_eq!(s.failure(), None);
}

#[test]
fn the_strict_policy_ends_the_run_on_an_encoder_failure() {
    let mut s = session(Policy::Strict);
    run(&mut s, &[packet(1, 0), unit(0), Outcome::Nothing, unit(0)]);
    assert_eq!(s.pending(), Action::Encode);
    let e = s.completed(Outcome::Failed).unwrap_err();
    assert_eq!(e.kind, ErrorKind::Encode);
    assert_eq!(e.cause, "encoding a frame failed");
    assert_eq!(s.pending(), Action::Abort(ErrorKind::Encode));
}

#[test]
fn the_lenient_policy_skips_what_the_encoder_fails_on() {
    let mut s = session(Policy::Lenient);
    let actions = run(
        &mut s,
        &[packet(1, 0), unit(0), Outcome::Nothing, unit(0), Outcome::Failed, Outcome::Nothing],
    );
    assert_eq!(
        actions,
        vec![
            Action::ReadPacket,
            Action::Decode { pts: Some(0) },
            Action::PushFrame { pts: Some(0) },
            Action::PullFrame,
            Action::Encode,
            Action::PullFrame,
            Action::ReadPacket,
        ]
    );
    assert_eq!(s.skipped(), 1);
}

#[test]
fn a_failing_encoder_flush_is_strict_or_lenient_too() {
    let to_flush = [Outcome::Nothing, Outcome::Nothing, Outcome::Nothing];
    let mut strict = session(Policy::Strict);
    run(&mut strict, &to_flush);
    assert_eq!(strict.pending(), Action::FlushEncoder);
    let e = strict.completed(Outcome::Failed).unwrap_err();
    assert_eq!(e.kind, ErrorKind::Encode);
    assert_eq!(e.cause, "flushing the encoder failed");
    let mut lenient = session(Policy::Lenient);
    run(&mut lenient, &to_flush);
    assert!(lenient.completed(Outcome::Failed).is_ok());
    assert_eq!(lenient.pending(), Action::WriteTrailer);
    assert_eq!(lenient.skipped(), 1);
}

#[test]
fn a_graph_that_takes_no_frame_ends_the_run() {
    let mut s = session(Policy::Lenient);
    run(&mut s, &[packet(1, 0), unit(0)]);
    let e = s.completed(Outcome::Failed).unwrap_err();
    assert_eq!(e.kind, ErrorKind::FilterGraph);
    assert_eq!(e.cause, "the graph took no frame");
    assert_eq!(s.pending(), Action::Abort(ErrorKind::FilterGraph));
}

#[test]
fn a_graph_that_cannot_be_flushed_ends_the_run() {
    let mut s = session(Policy::Lenient);
    run(&mut s, &[Outcome::Nothing]);
    let e = s.completed(Outcome::Failed).unwrap_err();
    assert_eq!(e.kind, ErrorKind::FilterGraph);
    assert_eq!(e.cause, "flushing the graph failed");
}

#[test]
fn a_failed_write_ends_the_run_under_either_policy() {
    for policy in [Policy::Strict, Policy::Lenient].iter() {
        let mut s = session(*policy);
        run(&mut s, &[packet(1, 0), unit(0), Outcome::Nothing, unit(0), unit(0)]);
        assert_eq!(s.pending(), Action::WritePacket { stream: 0, pts: Some(0) });
        let e = s.completed(Outcome::Failed).unwrap_err();
        assert_eq!(e.kind, ErrorKind::Mux);
        assert_eq!(e.cause, "writing a packet failed");
        assert_eq!(s.written(), 0);
        assert_eq!(s.pending(), Action::Abort(ErrorKind::Mux));
    }
}

#[test]
fn a_failed_trailer_ends_the_run_after_the_flush() {
    let mut s = session(Policy::Lenient);
    let actions = run(
        &mut s,
        &[Outcome::Nothing, Outcome::Nothing, Outcome::Nothing, unit(5), Outcome::Nothing, Outcome::Nothing],
    );
    assert_eq!(actions[actions.len() - 1], Action::WriteTrailer);
    assert_eq!(s.written(), 1);
    let e = s.completed(Outcome::Failed).unwrap_err();
    assert_eq!(e.kind, ErrorKind::Mux);
    assert_eq!(e.cause, "writing the trailer failed");
    assert!(!s.is_done());
    assert_eq!(s.written(), 1);
}

#[test]
fn written_timestamps_keep_the_order_of_the_encoder() {
    let mut s = session(Policy::Strict);
    let mut last: Option<i64> = None;
    let mut pts: i64 = -3000;
    s.completed(packet(1, 0)).unwrap();
    s.completed(unit(0)).unwrap();
    s.completed(Outcome::Nothing).unwrap();
    while pts < 3000 {
        s.completed(unit(0)).unwrap();
        assert_eq!(s.pending(), Action::Encode);
        s.completed(unit(pts)).unwrap();
        match s.pending() {
            Action::WritePacket { stream, pts: Some(out) } => {
                assert_eq!(stream, 0);
                if let Some(before) = last {
                    assert!(before <= out);
                }
                last = Some(out);
            }
            other => panic!("expected a packet to write, found {:?}", other),
        }
        s.completed(Outcome::Nothing).unwrap();
        pts += 13;
    }
    assert_eq!(s.written(), 462);
}

#[test]
fn a_timestamp_that_does_not_fit_is_dropped_from_the_packet() {
    let setup = SessionSetup {
        stream: 0,
        output_stream: 3,
        policy: Policy::Strict,
        stream_base: tb(1000, 1),
        decoder_base: tb(1, 1000),
        encoder_base: tb(1, 1),
        output_base: tb(1, 1),
    };
    let mut s = Session::new(setup, graph(true)).unwrap();
    s.completed(packet(0, i64::MAX / 1000)).unwrap();
    assert_eq!(s.pending(), Action::Decode { pts: None });
    s.completed(unit(i64::MAX)).unwrap();
    s.completed(Outcome::Nothing).unwrap();
    s.completed(unit(0)).unwrap();
    s.completed(unit(i64::MAX)).unwrap();
    assert_eq!(s.pending(), Action::WritePacket { stream: 3, pts: Some(i64::MAX) });
}
