use audio_viz::params::VizParameter;
use audio_viz::source::SampleSource;
use audio_viz::surface::DrawCmd;
use audio_viz::surface::Surface;
use audio_viz::visuals::default_visualizer::DefaultVisualizer;
use audio_viz::visuals::direct_mic_batch_vz::DirectMicBatchVisualizer;
use audio_viz::visuals::direct_mic_visualizer::DirectMicVisualizer;
use audio_viz::visuals::energy_visualizer::EnergyVisualizer;
use audio_viz::visuals::sliding_sound_wave_points_vz::SlidingSoundWavePointsVisualizer;
use audio_viz::visuals::sliding_sound_wave_vz::SlidingSoundWaveVisualizer;

#[test]
fn energy_draws_the_radius_sequence() {
    let mut surface = Surface::new();
    let mut source = SampleSource::new(vec![2560, 10240, -3840]);
    let mut param = VizParameter::new();
    let mut viz = EnergyVisualizer::new();
    viz.draw(&mut surface, &mut source, &mut param);
    viz.draw(&mut surface, &mut source, &mut param);
    viz.draw(&mut surface, &mut source, &mut param);
    let mut radii: Vec<u16> = Vec::new();
    let mut clears: usize = 0;
    for i in 0usize..surface.command_count() {
        match surface.command_at(i) {
            DrawCmd::FillCircle { x, y, radius, .. } => {
                assert_eq!(x, 240);
                assert_eq!(y, 131);
                radii.push(radius);
            }
            DrawCmd::Clear => {
                clears += 1;
            }
            _ => panic!("unexpected command"),
        }
    }
    assert_eq!(radii, vec![10, 40, 15]);
    assert_eq!(viz.last_radius(), 15);
    assert_eq!(clears, 1);
    assert_eq!(surface.command_at(2), DrawCmd::Clear);
}

#[test]
fn default_renders_sixteen_bars_in_bucket_order() {
    let mut surface = Surface::new();
    let mut source = SampleSource::new(Vec::new());
    let mut param = VizParameter::new();
    for i in 0usize..16 {
        param.set_bucket(i, (i as i16) * 100 - 500);
    }
    let mut viz = DefaultVisualizer::new(0xFFFF, 0xFC00);
    viz.draw(&mut surface, &mut source, &mut param);
    assert_eq!(surface.command_count(), 18);
    assert_eq!(surface.command_at(0), DrawCmd::SetBackground { color: 0xFC00 });
    assert_eq!(surface.command_at(1), DrawCmd::Clear);
    for i in 0usize..16 {
        assert_eq!(
            surface.command_at(2 + i),
            DrawCmd::SignedBar {
                value: (i as i16) * 100 - 500,
                x: (i as u16) * 30,
                width: 30,
                baseline: 272,
                color: 0xFFFF,
            },
        );
    }
    for i in 0usize..16 {
        assert_eq!(param.bucket(i), (i as i16) * 100 - 500);
    }
}

#[test]
fn direct_mic_rotates_through_buckets() {
    let mut surface = Surface::new();
    let mut source = SampleSource::new(vec![11, 22, 33]);
    let mut param = VizParameter::new();
    let mut viz = DirectMicVisualizer::new(2);
    viz.draw(&mut surface, &mut source, &mut param);
    assert_eq!(viz.current_pos(), 1);
    assert_eq!(param.bucket(0), 11);
    viz.draw(&mut surface, &mut source, &mut param);
    assert_eq!(viz.current_pos(), 0);
    assert_eq!(param.bucket(1), 22);
    viz.draw(&mut surface, &mut source, &mut param);
    assert_eq!(viz.current_pos(), 1);
    assert_eq!(param.bucket(0), 33);
    assert_eq!(surface.command_count(), 3);
    assert_eq!(
        surface.command_at(0),
        DrawCmd::SignedBar { value: 11, x: 0, width: 30, baseline: 272, color: 0xFFFF },
    );
    assert_eq!(
        surface.command_at(1),
        DrawCmd::SignedBar { value: 22, x: 30, width: 30, baseline: 272, color: 0xFFFF },
    );
}

#[test]
fn batch_of_twenty_bars_wraps_exactly_once() {
    let mut surface = Surface::new();
    let mut viz = DirectMicBatchVisualizer::new(40);
    let samples: Vec<i16> = vec![0; 20];
    viz.draw_batch(&mut surface, &samples);
    let mut clears: usize = 0;
    for i in 0usize..surface.command_count() {
        if surface.command_at(i) == DrawCmd::Clear {
            clears += 1;
        }
    }
    assert_eq!(clears, 1);
    assert_eq!(surface.command_at(10), DrawCmd::Clear);
    assert_eq!(surface.command_count(), 21);
    assert_eq!(viz.current_pos(), 400);
    assert_eq!(viz.bar_width(), 40);
}

#[test]
fn batch_tick_reads_one_channel_of_the_stream() {
    let mut surface = Surface::new();
    let mut source = SampleSource::new(vec![100; 800]);
    let mut param = VizParameter::new();
    let mut viz = DirectMicBatchVisualizer::new(40);
    viz.draw(&mut surface, &mut source, &mut param);
    assert_eq!(source.remaining(), 400);
    let mut clears: usize = 0;
    let mut bars: usize = 0;
    for i in 0usize..surface.command_count() {
        match surface.command_at(i) {
            DrawCmd::Clear => {
                clears += 1;
            }
            DrawCmd::SignedBar { value, color, .. } => {
                assert_eq!(value, 100);
                assert_eq!(color, 0xF800);
                bars += 1;
            }
            _ => panic!("unexpected command"),
        }
    }
    assert_eq!(bars, 200);
    assert_eq!(clears, 19);
    assert_eq!(viz.current_pos(), 400);
}

#[test]
fn sliding_wave_clears_when_the_trace_wraps() {
    let mut surface = Surface::new();
    let mut source = SampleSource::new(vec![7; 12]);
    let mut param = VizParameter::new();
    let mut viz = SlidingSoundWaveVisualizer::new(40);
    for _ in 0usize..10 {
        viz.draw(&mut surface, &mut source, &mut param);
    }
    assert_eq!(viz.current_pos(), 400);
    assert_eq!(surface.command_count(), 10);
    viz.draw(&mut surface, &mut source, &mut param);
    assert_eq!(viz.current_pos(), 40);
    assert_eq!(surface.command_at(10), DrawCmd::Clear);
    assert_eq!(
        surface.command_at(11),
        DrawCmd::SignedBar { value: 7, x: 0, width: 40, baseline: 272, color: 0x07E0 },
    );
}

#[test]
fn sliding_points_persist_across_the_wrap() {
    let mut surface = Surface::new();
    let mut source = SampleSource::new(vec![0; 250]);
    let mut param = VizParameter::new();
    let mut viz = SlidingSoundWavePointsVisualizer::new();
    for _ in 0usize..250 {
        viz.draw(&mut surface, &mut source, &mut param);
    }
    for i in 0usize..surface.command_count() {
        match surface.command_at(i) {
            DrawCmd::FillCircle { y, radius, color, .. } => {
                assert_eq!(y, 136);
                assert_eq!(radius, 1);
                assert_eq!(color, 0xFFFF);
            }
            _ => panic!("unexpected command"),
        }
    }
    assert_eq!(surface.command_count(), 250);
    assert_eq!(viz.current_pos(), 23);
}
