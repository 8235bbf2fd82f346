use proc_aud::dsp::graph::Graph;
use proc_aud::dsp::source::{ProceduralAudio, ProceduralAudioDecoder};
use proc_aud::dsp::unit::UnitKind;

fn drain(d: &mut ProceduralAudioDecoder<i32>) -> Vec<i32> {
    let mut out = Vec::new();
    while let Some(s) = d.next_sample() {
        out.push(s);
    }
    out
}

#[test]
fn new_decoder_asks_for_a_block_first() {
    let mut d = ProceduralAudioDecoder::new(44_100, 2, 64, 0i32);
    assert!(d.exhausted());
    assert_eq!(d.next_sample(), None);
    assert_eq!(d.sample_rate(), 44_100);
    assert_eq!(d.channels(), 2);
    assert_eq!(d.frames(), 64);
    assert_eq!(d.current_frame_len(), None);
}

#[test]
fn stereo_block_is_interleaved_frame_by_frame() {
    let mut d = ProceduralAudioDecoder::new(44_100, 2, 4, 0i32);
    d.fill_block(&vec![1, 2, 3, 4], &vec![10, 20, 30, 40]);
    assert!(!d.exhausted());
    assert_eq!(drain(&mut d), vec![1, 10, 2, 20, 3, 30, 4, 40]);
    assert!(d.exhausted());
    assert_eq!(d.next_sample(), None);
}

#[test]
fn mono_block_is_the_first_channel_alone() {
    let mut d = ProceduralAudioDecoder::new(48_000, 1, 3, 0i32);
    // The second channel is not read and may be empty.
    d.fill_block(&vec![7, 8, 9], &vec![]);
    assert_eq!(drain(&mut d), vec![7, 8, 9]);
}

#[test]
fn channels_beyond_the_second_are_silent() {
    let mut d = ProceduralAudioDecoder::new(44_100, 4, 2, -1i32);
    d.fill_block(&vec![1, 2], &vec![10, 20]);
    assert_eq!(drain(&mut d), vec![1, 10, -1, -1, 2, 20, -1, -1]);
    d.fill_block(&vec![3, 4], &vec![30, 40]);
    assert_eq!(drain(&mut d), vec![3, 30, -1, -1, 4, 40, -1, -1]);
}

#[test]
fn next_block_replaces_what_was_pending() {
    let mut d = ProceduralAudioDecoder::new(44_100, 2, 2, 0i32);
    d.fill_block(&vec![1, 2], &vec![3, 4]);
    assert_eq!(d.next_sample(), Some(1));
    assert_eq!(d.next_sample(), Some(3));
    d.fill_block(&vec![5, 6], &vec![7, 8]);
    assert_eq!(drain(&mut d), vec![5, 7, 6, 8]);
}

#[test]
fn stream_goes_on_block_after_block() {
    let mut d = ProceduralAudioDecoder::new(44_100, 2, 64, 0i32);
    let mut served = Vec::new();
    let mut next = 0;
    // Pull 300 samples the way a sink does: refill whenever the decoder runs dry.
    while served.len() < 300 {
        match d.next_sample() {
            Some(s) => served.push(s),
            None => {
                let left: Vec<i32> = (0..64).map(|i| next + i).collect();
                let right: Vec<i32> = left.iter().map(|v| -v).collect();
                next += 64;
                d.fill_block(&left, &right);
            }
        }
    }
    for (k, s) in served.iter().enumerate() {
        let frame = (k / 2) as i32;
        assert_eq!(*s, if k % 2 == 0 { frame } else { -frame });
    }
}

#[test]
fn decoder_without_frames_is_always_exhausted() {
    let mut d = ProceduralAudioDecoder::new(44_100, 2, 0, 0i32);
    d.fill_block(&vec![], &vec![]);
    assert!(d.exhausted());
    assert_eq!(d.next_sample(), None);
}

#[test]
fn sound_hands_each_playback_its_own_graph_and_decoder() {
    let mut g = Graph::new(0, 2);
    let c = g.push(UnitKind::Constant(500_000));
    let s = g.push(UnitKind::Split);
    assert_eq!(g.connect(c, 0, s, 0), Ok(()));
    assert_eq!(g.connect_output(s, 0, 0), Ok(()));
    assert_eq!(g.connect_output(s, 1, 1), Ok(()));
    let sound = ProceduralAudio::new(g, 44_100, 2);
    assert_eq!(sound.sample_rate(), 44_100);
    assert_eq!(sound.channels(), 2);
    assert_eq!(sound.graph().size(), 2);

    let (mut first_graph, mut first) = sound.decoder(64, 0i32);
    let (second_graph, mut second) = sound.decoder(64, 0i32);
    assert_eq!(first_graph.size(), 2);
    assert_eq!(second_graph.kind(0), Some(UnitKind::Constant(500_000)));
    assert_eq!((first.sample_rate(), first.channels(), first.frames()), (44_100, 2, 64));

    // What one playback does leaves the other, and the recipe, alone.
    first_graph.push(UnitKind::Moog);
    first.fill_block(&vec![1; 64], &vec![2; 64]);
    assert_eq!(first.next_sample(), Some(1));
    assert_eq!(second.next_sample(), None);
    assert_eq!(second_graph.size(), 2);
    assert_eq!(sound.graph().size(), 2);
}
