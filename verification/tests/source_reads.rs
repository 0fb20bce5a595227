use audio_viz::source::SampleSource;

#[test]
fn samples_arrive_in_order() {
    let mut src = SampleSource::new(vec![5, -3, 7, 9]);
    assert_eq!(src.remaining(), 4);
    assert_eq!(src.next_sample(), 5);
    assert_eq!(src.next_sample(), -3);
    assert_eq!(src.remaining(), 2);
    assert_eq!(src.next_sample(), 7);
    assert_eq!(src.next_sample(), 9);
    assert_eq!(src.remaining(), 0);
}

#[test]
fn interleaved_batch_takes_consecutive_values() {
    let mut samples: Vec<i16> = Vec::new();
    for i in 0i16..200 {
        samples.push(i);
    }
    let mut src = SampleSource::new(samples);
    let batch = src.fill_batch(true);
    assert_eq!(batch.len(), 200);
    assert_eq!(batch[0], 0);
    assert_eq!(batch[1], 1);
    assert_eq!(batch[199], 199);
    assert_eq!(src.remaining(), 0);
}

#[test]
fn single_channel_batch_takes_every_other_value() {
    let mut samples: Vec<i16> = Vec::new();
    for i in 0i16..400 {
        samples.push(i);
    }
    let mut src = SampleSource::new(samples);
    let batch = src.fill_batch(false);
    assert_eq!(batch.len(), 200);
    assert_eq!(batch[0], 0);
    assert_eq!(batch[1], 2);
    assert_eq!(batch[2], 4);
    assert_eq!(batch[199], 398);
    assert_eq!(src.remaining(), 0);
}
