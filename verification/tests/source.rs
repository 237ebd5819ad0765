use streamcast::error::ErrorKind;
use streamcast::source::{best_audio_stream, Medium, StreamInfo};

fn stream(index: usize, medium: Medium, bit_rate: usize, channels: u32) -> StreamInfo {
    StreamInfo { index, medium, bit_rate, channels }
}

#[test]
fn a_source_without_streams_has_no_audio() {
    let e = best_audio_stream(&vec![]).unwrap_err();
    assert_eq!(e.kind, ErrorKind::NoAudioStream);
    assert_eq!(e.cause, "the source has no audio stream");
}

#[test]
fn a_video_only_source_has_no_audio_stream() {
    let streams = vec![
        stream(0, Medium::Video, 4_000_000, 0),
        stream(1, Medium::Subtitle, 0, 0),
        stream(2, Medium::Data, 0, 0),
    ];
    let e = best_audio_stream(&streams).unwrap_err();
    assert_eq!(e.kind, ErrorKind::NoAudioStream);
    assert!(e.kind.is_setup());
    assert_eq!(e.message(), "find audio stream: the source has no audio stream");
}

#[test]
fn audio_is_preferred_to_everything_else() {
    let streams = vec![
        stream(0, Medium::Video, 4_000_000, 8),
        stream(1, Medium::Audio, 64_000, 1),
        stream(2, Medium::Unknown, 9_000_000, 9),
    ];
    assert_eq!(best_audio_stream(&streams).unwrap(), 1);
}

#[test]
fn the_highest_bit_rate_wins() {
    let streams = vec![
        stream(0, Medium::Audio, 128_000, 6),
        stream(1, Medium::Audio, 320_000, 2),
        stream(2, Medium::Audio, 192_000, 8),
    ];
    assert_eq!(best_audio_stream(&streams).unwrap(), 1);
}

#[test]
fn equal_bit_rates_are_decided_by_channels() {
    let streams = vec![
        stream(0, Medium::Audio, 128_000, 2),
        stream(1, Medium::Video, 128_000, 9),
        stream(2, Medium::Audio, 128_000, 6),
        stream(3, Medium::Audio, 128_000, 1),
    ];
    assert_eq!(best_audio_stream(&streams).unwrap(), 2);
}

#[test]
fn of_equal_streams_the_first_is_taken() {
    let streams = vec![
        stream(7, Medium::Attachment, 0, 0),
        stream(3, Medium::Audio, 0, 2),
        stream(4, Medium::Audio, 0, 2),
        stream(5, Medium::Audio, 0, 2),
    ];
    let at = best_audio_stream(&streams).unwrap();
    assert_eq!(at, 1);
    assert_eq!(streams[at].index, 3);
}
