use audio_viz::pipeline::Pipeline;
use audio_viz::source::SampleSource;
use audio_viz::surface::DrawCmd;
use audio_viz::visuals::Visualizer;
use audio_viz::visuals::energy_visualizer::EnergyVisualizer;
use audio_viz::visuals::sliding_sound_wave_vz::SlidingSoundWaveVisualizer;

#[test]
fn init_clears_the_screen_to_black() {
    let source = SampleSource::new(Vec::new());
    let p = Pipeline::new(source, Visualizer::Energy(EnergyVisualizer::new()));
    assert_eq!(p.surface().background_color(), 0);
    assert_eq!(p.surface().command_count(), 2);
    assert_eq!(p.surface().command_at(0), DrawCmd::Clear);
    assert_eq!(p.surface().command_at(1), DrawCmd::SetBackground { color: 0 });
    assert_eq!(p.surface().pixel(240, 131), 0);
    assert_eq!(p.surface().pixel(0, 0), 0);
}

#[test]
fn ticks_drive_the_active_visualizer() {
    let source = SampleSource::new(vec![2560, 5120]);
    let mut p = Pipeline::new(source, Visualizer::Energy(EnergyVisualizer::new()));
    assert_eq!(p.samples_needed(), 1);
    assert_eq!(p.samples_remaining(), 2);
    p.tick();
    assert_eq!(
        p.surface().command_at(2),
        DrawCmd::FillCircle { x: 240, y: 131, radius: 10, color: 0x001F },
    );
    p.tick();
    assert_eq!(p.samples_remaining(), 0);
    assert_eq!(
        p.surface().command_at(3),
        DrawCmd::FillCircle { x: 240, y: 131, radius: 20, color: 0x001F },
    );
    assert_eq!(p.surface().pixel(240, 131), 0x001F);
}

#[test]
fn pipeline_keeps_ticking_while_samples_last() {
    let source = SampleSource::new(vec![1000; 25]);
    let mut p = Pipeline::new(source, Visualizer::SlidingWave(SlidingSoundWaveVisualizer::new(40)));
    let mut ticks: usize = 0;
    while p.samples_remaining() >= p.samples_needed() && p.samples_needed() > 0 {
        p.tick();
        ticks += 1;
    }
    assert_eq!(ticks, 25);
    // 25 bars and the two wraps' clears, after the two init commands
    assert_eq!(p.surface().command_count(), 2 + 25 + 2);
}
