use dotstar_chart::waveform_mode::WaveformMode;
use dotstar_chart::waveform_type::WaveformType;

#[test]
fn shape_codes_round_trip() {
    let shapes = [
        WaveformType::Sine,
        WaveformType::Square,
        WaveformType::Triangle,
        WaveformType::Sawtooth,
        WaveformType::Noise,
        WaveformType::Bounce,
    ];
    for (i, s) in shapes.iter().enumerate() {
        let code = u16::from(*s);
        assert_eq!(code, i as u16);
        assert_eq!(WaveformType::from(code), *s);
    }
}

#[test]
fn unknown_shape_code_is_sine() {
    assert_eq!(WaveformType::from(6u16), WaveformType::Sine);
    assert_eq!(WaveformType::from(u16::MAX), WaveformType::Sine);
}

#[test]
fn default_shape_is_sine() {
    assert_eq!(WaveformType::default(), WaveformType::Sine);
}

#[test]
fn mode_codes_round_trip() {
    assert_eq!(u16::from(WaveformMode::Dynamic), 0);
    assert_eq!(u16::from(WaveformMode::InPlace), 1);
    assert_eq!(WaveformMode::from(0u16), WaveformMode::Dynamic);
    assert_eq!(WaveformMode::from(1u16), WaveformMode::InPlace);
}

#[test]
fn unknown_mode_code_is_dynamic() {
    assert_eq!(WaveformMode::from(2u16), WaveformMode::Dynamic);
    assert_eq!(WaveformMode::from(500u16), WaveformMode::Dynamic);
}

#[test]
fn default_mode_is_dynamic() {
    assert_eq!(WaveformMode::default(), WaveformMode::Dynamic);
}
