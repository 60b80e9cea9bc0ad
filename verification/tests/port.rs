use rustlink::port::{
    port_settings, BaudRate, CharSize, FlowControl, Parity, PortSettings, StopBits,
    PORT_TIMEOUT_MS,
};

#[test]
fn standard_speed_gives_standard_rate() {
    let settings = port_settings(9600);
    assert_eq!(settings.baud_rate, BaudRate::Baud9600);
    assert_eq!(settings.char_size, CharSize::Bits8);
    assert_eq!(settings.parity, Parity::ParityNone);
    assert_eq!(settings.stop_bits, StopBits::Stop1);
    assert_eq!(settings.flow_control, FlowControl::FlowNone);
}

#[test]
fn every_standard_speed_has_its_rate() {
    let table = [
        (110, BaudRate::Baud110),
        (300, BaudRate::Baud300),
        (600, BaudRate::Baud600),
        (1200, BaudRate::Baud1200),
        (2400, BaudRate::Baud2400),
        (4800, BaudRate::Baud4800),
        (9600, BaudRate::Baud9600),
        (19200, BaudRate::Baud19200),
        (38400, BaudRate::Baud38400),
        (57600, BaudRate::Baud57600),
        (115200, BaudRate::Baud115200),
    ];
    for (speed, rate) in table {
        assert_eq!(port_settings(speed).baud_rate, rate);
        assert_eq!(rate.speed(), speed);
    }
}

#[test]
fn other_speed_is_kept_as_it_is() {
    assert_eq!(port_settings(4_000_000).baud_rate, BaudRate::BaudOther(4_000_000));
    assert_eq!(port_settings(0).baud_rate, BaudRate::BaudOther(0));
    assert_eq!(port_settings(9601).baud_rate, BaudRate::BaudOther(9601));
    assert_eq!(port_settings(usize::MAX).baud_rate, BaudRate::BaudOther(usize::MAX));
    assert_eq!(BaudRate::BaudOther(230_400).speed(), 230_400);
}

#[test]
fn line_discipline_does_not_depend_on_speed() {
    for speed in [0usize, 50, 9600, 57600, 921_600, 12_345_678] {
        let settings = port_settings(speed);
        assert_eq!(
            settings,
            PortSettings {
                baud_rate: settings.baud_rate,
                char_size: CharSize::Bits8,
                parity: Parity::ParityNone,
                stop_bits: StopBits::Stop1,
                flow_control: FlowControl::FlowNone,
            }
        );
        assert_eq!(settings.baud_rate.speed(), speed);
    }
}

#[test]
fn port_timeout_is_one_millisecond() {
    assert_eq!(PORT_TIMEOUT_MS, 1);
}
