use audio_engine::EqualizerBands;

#[test]
fn default_bands_are_flat_and_off() {
    let eq = EqualizerBands::default();
    assert!(!eq.is_enabled());
    for freq in [32, 64, 125, 250, 500, 1000, 2000, 4000, 8000, 16000] {
        assert_eq!(eq.band_gain(freq), Some(0));
    }
    assert_eq!(eq.band_gain(999), None);
}

#[test]
fn setting_a_band_stores_its_gain() {
    let mut eq = EqualizerBands::default();
    eq.set_band(1000, 3000);
    assert_eq!(eq.band_gain(1000), Some(3000));
    // Replacing works.
    eq.set_band(1000, -1500);
    assert_eq!(eq.band_gain(1000), Some(-1500));
    // A new frequency is added.
    eq.set_band(15_000, 250);
    assert_eq!(eq.band_gain(15_000), Some(250));
    // Others stay.
    assert_eq!(eq.band_gain(32), Some(0));
}

#[test]
fn preset_fills_slots_in_order() {
    let mut eq = EqualizerBands::default();
    eq.set_preset(&vec![100, 200, 300]);
    assert_eq!(eq.band_gain(32), Some(100));
    assert_eq!(eq.band_gain(64), Some(200));
    assert_eq!(eq.band_gain(125), Some(300));
    assert_eq!(eq.band_gain(250), Some(0));
    // More gains than slots: the extras are ignored.
    let twelve: Vec<i64> = (1..=12).collect();
    eq.set_preset(&twelve);
    assert_eq!(eq.band_gain(16_000), Some(10));
    assert_eq!(eq.band_gain(32), Some(1));
}

#[test]
fn enable_flag_is_stored_but_inert() {
    let mut eq = EqualizerBands::default();
    eq.set_enabled(true);
    assert!(eq.is_enabled());
    eq.set_enabled(false);
    assert!(!eq.is_enabled());
}
