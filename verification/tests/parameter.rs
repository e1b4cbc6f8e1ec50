use audio_stream::freeverb::{
    percent_string_converter, receive_message, FreeverbModule, FreeverbParameterId,
    ParameterChange, ToFreeverb,
};
use audio_stream::message::{switch_of, value_of, ToProcessor, ONE, ZERO};
use audio_stream::parameter::{
    BoolStringConverter, DefaultStringConverter, PercentStringConverter, ValueType,
};

#[test]
fn one_and_zero_are_the_bits_of_the_numbers() {
    assert_eq!(ONE, 1.0f32.to_bits());
    assert_eq!(ZERO, 0.0f32.to_bits());
}

#[test]
fn a_switch_is_on_unless_its_value_equals_zero() {
    for value in [0.0f32, -0.0, 1.0, -1.0, 0.5, f32::MIN_POSITIVE, 1e-45, f32::INFINITY, f32::NAN]
    {
        assert_eq!(switch_of(value.to_bits()), value != 0.0);
    }
    for bits in [1u32, 0x7fff_ffff, 0x8000_0001, 0xffff_ffff, 0x8000_0000, 0] {
        assert_eq!(switch_of(bits), f32::from_bits(bits) != 0.0);
    }
}

#[test]
fn the_value_of_a_switch_is_one_or_zero() {
    assert_eq!(f32::from_bits(value_of(true)), 1.0);
    assert_eq!(f32::from_bits(value_of(false)), 0.0);
    assert!(switch_of(value_of(true)));
    assert!(!switch_of(value_of(false)));
}

#[test]
fn a_converter_keeps_its_unit() {
    assert_eq!(DefaultStringConverter::new("Hz".to_string()).unit(), Some("Hz"));
    assert_eq!(DefaultStringConverter::default().unit(), Some(""));
    assert_eq!(DefaultStringConverter::new("dB".to_string()).clone().unit(), Some("dB"));
    assert_eq!(PercentStringConverter::default().unit(), Some("%"));
    assert_eq!(percent_string_converter(), PercentStringConverter {});
    assert_eq!(BoolStringConverter.unit(), None);
}

#[test]
fn a_switch_is_named_on_or_off() {
    let converter = BoolStringConverter::default();
    assert_eq!(converter.to_string(0.0f32.to_bits()), "off");
    assert_eq!(converter.to_string((-0.0f32).to_bits()), "off");
    assert_eq!(converter.to_string(1.0f32.to_bits()), "on");
    assert_eq!(converter.to_string(0.25f32.to_bits()), "on");
    assert_eq!(converter.to_value("off").map(f32::from_bits), Some(0.0));
    assert_eq!(converter.to_value("on").map(f32::from_bits), Some(1.0));
    assert_eq!(converter.to_value("On"), None);
    assert_eq!(converter.to_value(""), None);
    assert_eq!(converter.to_value("offf"), None);
}

#[test]
fn value_types_differ() {
    assert_ne!(ValueType::Float, ValueType::Bool);
}

#[test]
fn the_module_is_called_freeverb() {
    assert_eq!(FreeverbModule::name(), "Freeverb");
    assert_eq!(ToFreeverb::SetScopeEnabled(true), ToFreeverb::SetScopeEnabled(true));
}

#[test]
fn parameters_are_numbered_from_zero() {
    let all = [
        FreeverbParameterId::Dampening,
        FreeverbParameterId::Width,
        FreeverbParameterId::RoomSize,
        FreeverbParameterId::Freeze,
        FreeverbParameterId::Dry,
        FreeverbParameterId::Wet,
        FreeverbParameterId::Scope,
    ];
    for (number, id) in all.iter().enumerate() {
        assert_eq!(id.as_usize(), number);
        assert_eq!(FreeverbParameterId::try_from(number), Ok(*id));
    }
    assert_eq!(FreeverbParameterId::try_from(7), Err(()));
    assert_eq!(FreeverbParameterId::try_from(usize::MAX), Err(()));
}

#[test]
fn a_command_changes_the_parameter_that_it_names() {
    let half = 0.5f32.to_bits();
    assert_eq!(receive_message(ToProcessor::SetParameter(0, half)), ParameterChange::Dampening(half));
    assert_eq!(receive_message(ToProcessor::SetParameter(1, half)), ParameterChange::Width(half));
    assert_eq!(receive_message(ToProcessor::SetParameter(2, half)), ParameterChange::RoomSize(half));
    assert_eq!(receive_message(ToProcessor::SetParameter(3, half)), ParameterChange::Freeze(true));
    assert_eq!(receive_message(ToProcessor::SetParameter(3, ZERO)), ParameterChange::Freeze(false));
    assert_eq!(receive_message(ToProcessor::SetParameter(4, half)), ParameterChange::Dry(half));
    assert_eq!(receive_message(ToProcessor::SetParameter(5, half)), ParameterChange::Wet(half));
    assert_eq!(receive_message(ToProcessor::SetParameter(6, ONE)), ParameterChange::Scope(true));
    assert_eq!(
        receive_message(ToProcessor::SetParameter(6, (-0.0f32).to_bits())),
        ParameterChange::Scope(false)
    );
}

#[test]
fn a_command_for_an_unknown_parameter_is_told_apart() {
    assert_eq!(receive_message(ToProcessor::SetParameter(7, ONE)), ParameterChange::InvalidId(7));
    assert_eq!(
        receive_message(ToProcessor::SetParameter(usize::MAX, ONE)),
        ParameterChange::InvalidId(usize::MAX)
    );
}

#[test]
fn the_begin_and_the_end_of_an_edit_change_nothing() {
    assert_eq!(receive_message(ToProcessor::BeginEdit(0)), ParameterChange::Nothing);
    assert_eq!(receive_message(ToProcessor::EndEdit(99)), ParameterChange::Nothing);
}
