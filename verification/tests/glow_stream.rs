use labcolors_core::glow_stream::{
    BoundarySearchV1, QuantisedCompositeV1, QuantisedStreamErrorV1, QuantisedStreamPlanV1,
    QuantisedStreamV1, MAX_QUANTISED_COMPOSITE_STATES,
};

const ONE_BITS: u64 = 0x3ff0_0000_0000_0000;

fn screen_channel(glow: u8, alpha: f64, bg: u8) -> u8 {
    (f64::from(bg) + alpha * f64::from(glow) * f64::from(u8::MAX - bg) / f64::from(u8::MAX)).round()
        as u8
}

fn search(glow: u8, bg: u8, next_value: u8, lower: u64) -> Option<u64> {
    let mut search = BoundarySearchV1::start(glow, bg, next_value, lower);
    let mut steps = 0;
    while let Some(bits) = search.probe_bits() {
        search = search.advance(screen_channel(glow, f64::from_bits(bits), bg) >= next_value);
        steps += 1;
        assert!(steps < 300, "the search must end");
    }
    search.found()
}

fn boundary(stream: &QuantisedStreamV1, glow: [u8; 3], bg: [u8; 3], c: usize) -> Option<u64> {
    let next_value = stream.boundary_target(c)?;
    search(glow[c], bg[c], next_value, stream.lower_bits())
}

fn quantised_composites(glow: [u8; 3], bg: [u8; 3]) -> Vec<QuantisedCompositeV1> {
    let final_bytes = core::array::from_fn(|c| screen_channel(glow[c], 1.0, bg[c]));
    let mut stream = QuantisedStreamV1::new(bg, final_bytes);
    for c in 0..3 {
        let b = boundary(&stream, glow, bg, c);
        stream.set_boundary(c, b);
    }
    let mut states = Vec::new();
    loop {
        match stream.plan() {
            QuantisedStreamPlanV1::Finished => return states,
            QuantisedStreamPlanV1::Final => states.push(stream.emit_final().unwrap()),
            QuantisedStreamPlanV1::Transition { upper_bits } => {
                let alpha = f64::from_bits(upper_bits);
                let composite = core::array::from_fn(|c| screen_channel(glow[c], alpha, bg[c]));
                let (state, rose) = stream.commit_transition(upper_bits, composite).unwrap();
                for c in 0..3 {
                    if rose[c] {
                        let b = boundary(&stream, glow, bg, c);
                        stream.set_boundary(c, b);
                    }
                }
                states.push(state);
            }
        }
    }
}

#[test]
fn rationally_equal_walls_keep_distinct_binary64_seam_states() {
    let states = quantised_composites([1, 2, 0], [1, 128, 0]);
    let seam_index = states
        .iter()
        .position(|state| state.bytes == [1, 129, 0])
        .expect("reachable binary64 seam state #018100 was lost");
    let seam = states[seam_index];
    assert_eq!(seam.lower_bits, 4_602_696_549_879_841_156);
    assert_eq!(seam.upper_bits, 4_602_696_549_879_841_283);
    assert_eq!(seam.upper_bits - seam.lower_bits, 127);
    assert_eq!(states[seam_index + 1].bytes, [2, 129, 0]);
}

#[test]
fn search_finds_the_first_passing_pattern_of_a_monotone_oracle() {
    for (threshold, seed_glow) in [(1_000_u64, 255_u8), (ONE_BITS, 1), (5, 1), (ONE_BITS / 3, 40)] {
        let mut search = BoundarySearchV1::start(seed_glow, 0, 200, 0);
        while let Some(bits) = search.probe_bits() {
            search = search.advance(bits >= threshold);
        }
        assert_eq!(search.found(), Some(threshold));
    }
}

#[test]
fn stream_of_a_white_background_is_one_closed_state() {
    let states = quantised_composites([255, 10, 0], [255, 255, 255]);
    assert_eq!(states.len(), 1);
    assert_eq!(states[0].bytes, [255, 255, 255]);
    assert_eq!(states[0].lower_bits, 0);
    assert_eq!(states[0].upper_bits, ONE_BITS);
    assert!(states[0].upper_inclusive);
}

#[test]
fn every_stream_raises_bytes_and_stays_within_its_bound() {
    for (glow, bg) in [([255, 255, 255], [0, 0, 0]), ([17, 200, 90], [3, 77, 250])] {
        let states = quantised_composites(glow, bg);
        assert!(states.len() <= usize::from(MAX_QUANTISED_COMPOSITE_STATES));
        for pair in states.windows(2) {
            assert_eq!(pair[0].upper_bits, pair[1].lower_bits);
            let sum = |b: [u8; 3]| b.iter().map(|&x| u32::from(x)).sum::<u32>();
            assert!(sum(pair[1].bytes) > sum(pair[0].bytes));
        }
        let last = states.last().unwrap();
        let expected: [u8; 3] = core::array::from_fn(|c| screen_channel(glow[c], 1.0, bg[c]));
        assert_eq!(last.bytes, expected);
    }
}

#[test]
fn transitions_that_lower_or_stall_a_channel_stop_the_stream() {
    let mut stream = QuantisedStreamV1::new([10, 10, 10], [20, 20, 20]);
    stream.set_boundary(1, Some(7));
    assert_eq!(
        stream.commit_transition(7, [10, 9, 11]),
        Err(QuantisedStreamErrorV1::ChannelDecreased {
            channel: 1,
            from: 10,
            to: 9,
        })
    );
    assert_eq!(
        stream.commit_transition(7, [11, 10, 11]),
        Err(QuantisedStreamErrorV1::ChannelStalled { channel: 1 })
    );
    let (state, rose) = stream.commit_transition(7, [10, 11, 10]).unwrap();
    assert_eq!(state.bytes, [10, 10, 10]);
    assert_eq!((state.lower_bits, state.upper_bits), (0, 7));
    assert_eq!(rose, [false, true, false]);
    assert_eq!(stream.lower_bits(), 7);
}
