use sx126x::sx::err::{PinError, SpiError, SxError};

#[test]
fn bus_and_pin_errors_render() {
    let write: SpiError<u8> = SpiError::Write(5);
    assert_eq!(write.render("5"), "Write(5)");
    let transfer: SpiError<u8> = SpiError::Transfer(6);
    assert_eq!(transfer.render("6"), "Transfer(6)");
    let output: PinError<char, u8> = PinError::Output('o');
    assert_eq!(output.render("'o'"), "Output('o')");
    let input: PinError<char, u8> = PinError::Input(1);
    assert_eq!(input.render("1"), "Input(1)");
}

#[test]
fn driver_errors_render() {
    let spi: SxError<u8, char, char> = SxError::from(SpiError::Write(5));
    assert!(matches!(spi, SxError::Spi(SpiError::Write(5))));
    assert_eq!(spi.render("5"), "Spi(Write(5))");
    let pin: SxError<u8, char, char> = SxError::from(PinError::Input('i'));
    assert!(matches!(pin, SxError::Pin(PinError::Input('i'))));
    assert_eq!(pin.render("'i'"), "Pin(Input('i'))");
    let timeout: SxError<u8, char, char> = SxError::Timeout;
    assert_eq!(timeout.render("?"), "Timeout");
    let small: SxError<u8, char, char> = SxError::BufferTooSmall;
    assert_eq!(small.render("?"), "BufferTooSmall");
}
