use fm_synth::{
    connections, nodes, readback_buffer, resolve_wave_type, saturate, Connection, FmOsc,
    FmParams, NodeId, Sink, UnknownWaveType, WaveType,
};

fn times(a: f32, b: f32) -> f32 {
    a * b
}

fn greater(a: f32, b: f32) -> bool {
    a > b
}

fn fresh() -> FmOsc<f32> {
    FmOsc::new(440.0, 0.0, 1.0)
}

#[test]
fn names_resolve_to_shapes() {
    assert_eq!(resolve_wave_type("sin"), Ok(WaveType::Sine));
    assert_eq!(resolve_wave_type("tri"), Ok(WaveType::Triangle));
    assert_eq!(resolve_wave_type("sqr"), Ok(WaveType::Square));
    assert_eq!(resolve_wave_type("saw"), Ok(WaveType::Sawtooth));
}

#[test]
fn unknown_names_are_reported() {
    assert_eq!(resolve_wave_type("xyz"), Err(UnknownWaveType));
    assert_eq!(resolve_wave_type(""), Err(UnknownWaveType));
    assert_eq!(resolve_wave_type("cst"), Err(UnknownWaveType));
    assert_eq!(resolve_wave_type("SIN"), Err(UnknownWaveType));
    assert_eq!(resolve_wave_type("sine"), Err(UnknownWaveType));
}

#[test]
fn new_synth_is_silent_sine() {
    let s = fresh();
    assert_eq!(s.wave_type, WaveType::Sine);
    assert_eq!(s.params.fundamental, 440.0);
    assert_eq!(s.params.frequency_ratio, 0.0);
    assert_eq!(s.params.depth_ratio, 0.0);
    assert_eq!(s.output_gain, 0.0);
    assert_eq!(s.master_gain, 0.0);
    assert!(!s.closed);
}

#[test]
fn unknown_wave_type_keeps_previous_shape() {
    let mut s = fresh();
    assert_eq!(s.set_wave_type("sqr"), Ok(WaveType::Square));
    assert_eq!(s.wave_type, WaveType::Square);
    assert_eq!(s.set_wave_type("xyz"), Err(UnknownWaveType));
    assert_eq!(s.wave_type, WaveType::Square);
    assert_eq!(s.set_wave_type("saw"), Ok(WaveType::Sawtooth));
    assert_eq!(s.wave_type, WaveType::Sawtooth);
}

#[test]
fn modulator_follows_current_fundamental() {
    let mut s = fresh();
    let f: f32 = 220.0;
    let dr: f32 = 0.5;
    let fr: f32 = 0.25;
    let t = s.set_primary_frequency(f, times);
    assert_eq!(t.frequency, 0.0);
    assert_eq!(t.depth, 0.0);
    let t = s.set_fm_amount(dr, times);
    assert_eq!(t.depth, dr * f);
    assert_eq!(t.frequency, 0.0);
    let t = s.set_fm_frequency(fr, times);
    assert_eq!(t.frequency, fr * f);
    assert_eq!(t.depth, dr * f);
    assert_eq!(t.frequency, 55.0);
    assert_eq!(t.depth, 110.0);
}

#[test]
fn ratios_set_first_apply_to_later_fundamental() {
    let mut s = fresh();
    s.set_fm_amount(2.0, times);
    s.set_fm_frequency(0.5, times);
    let t = s.set_primary_frequency(100.0, times);
    assert_eq!(t.frequency, 50.0);
    assert_eq!(t.depth, 200.0);
    assert_eq!(s.params.fundamental, 100.0);
}

#[test]
fn ratios_above_one_are_accepted() {
    let mut p = FmParams::new(10.0f32, 0.0, 0.0);
    let t = p.set_frequency_ratio(3.0, times);
    assert_eq!(t.frequency, 30.0);
    let t = p.set_depth_ratio(7.5, times);
    assert_eq!(t.depth, 75.0);
    let t = p.set_fundamental(2.0, times);
    assert_eq!(t.frequency, 6.0);
    assert_eq!(t.depth, 15.0);
    let t = p.targets(times);
    assert_eq!(t.frequency, 6.0);
}

#[test]
fn gains_saturate_to_unit_range() {
    let mut s = fresh();
    assert_eq!(s.set_osc1_gain(1.5, greater), 1.0);
    assert_eq!(s.output_gain, 1.0);
    assert_eq!(s.set_osc1_gain(-0.2, greater), 0.0);
    assert_eq!(s.output_gain, 0.0);
    assert_eq!(s.set_osc1_gain(0.3, greater), 0.3);
    assert_eq!(s.output_gain, 0.3);
    assert_eq!(s.set_ms_gain(2.0, greater), 1.0);
    assert_eq!(s.master_gain, 1.0);
    assert_eq!(s.set_ms_gain(-1.0, greater), 0.0);
    assert_eq!(s.master_gain, 0.0);
    assert_eq!(s.set_ms_gain(1.0, greater), 1.0);
    assert_eq!(s.output_gain, 0.3);
}

#[test]
fn saturate_on_integers() {
    let gt = |a: i32, b: i32| a > b;
    assert_eq!(saturate(15, 0, 10, gt), 10);
    assert_eq!(saturate(-5, 0, 10, gt), 0);
    assert_eq!(saturate(7, 0, 10, gt), 7);
    assert_eq!(saturate(0, 0, 10, gt), 0);
    assert_eq!(saturate(10, 0, 10, gt), 10);
}

#[test]
fn teardown_twice_releases_once() {
    let mut s = fresh();
    assert!(s.teardown());
    assert!(s.closed);
    assert!(!s.teardown());
    assert!(s.closed);
    assert_eq!(s.wave_type, WaveType::Sine);
}

#[test]
fn six_distinct_nodes() {
    let n = nodes();
    assert_eq!(n.len(), 6);
    for i in 0..n.len() {
        for j in 0..n.len() {
            if i != j {
                assert_ne!(n[i], n[j]);
            }
        }
    }
    assert_eq!(n[0], NodeId::Primary);
}

#[test]
fn wiring_matches_graph() {
    let c = connections();
    assert_eq!(c.len(), 6);
    assert_eq!(c[0], Connection { from: NodeId::Primary, to: Sink::Input(NodeId::Output) });
    assert_eq!(c[1], Connection { from: NodeId::Modulator, to: Sink::Input(NodeId::ModulatorDepth) });
    assert_eq!(
        c[2],
        Connection { from: NodeId::ModulatorDepth, to: Sink::FrequencyOf(NodeId::Primary) }
    );
    assert_eq!(c[3], Connection { from: NodeId::Output, to: Sink::Input(NodeId::Master) });
    assert_eq!(c[4], Connection { from: NodeId::Output, to: Sink::Input(NodeId::Analyser) });
    assert_eq!(c[5], Connection { from: NodeId::Master, to: Sink::Destination });
}

#[test]
fn readback_buffer_is_sized_by_bin_count() {
    let b = readback_buffer(1024);
    assert_eq!(b.len(), 1024);
    assert!(b.iter().all(|&x| x == 0));
    assert_eq!(readback_buffer(0).len(), 0);
}
