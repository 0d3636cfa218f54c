//! The errors a driver call can end in.
use vstd::prelude::*;
use vstd::std_specs::convert::FromSpec;

verus! {

/// A failed access to the SPI bus, with the bus's own error.
pub enum SpiError<TSPIERR> {
    Write(TSPIERR),
    Transfer(TSPIERR),
}

/// A failed access to a pin, with the pin's own error.
pub enum PinError<TOPERR, TIPERR> {
    Output(TOPERR),
    Input(TIPERR),
}

/// The error of a driver call.
pub enum SxError<TSPIERR, TOPERR, TIPERR> {
    Spi(SpiError<TSPIERR>),
    Pin(PinError<TOPERR, TIPERR>),
    Timeout,
    BufferTooSmall,
}

/// The text `name(payload)`.
pub open spec fn tagged(name: Seq<char>, payload: Seq<char>) -> Seq<char> {
    name + "("@ + payload + ")"@
}

fn tag(name: &str, payload: &str) -> (text: String)
    ensures
        text@ == tagged(name@, payload@),
{
    name.to_owned().concat("(").concat(payload).concat(")")
}

impl<TSPIERR> SpiError<TSPIERR> {
    /// The debug text of this error, where the bus's own error reads `payload`.
    pub open spec fn rendered(self, payload: Seq<char>) -> Seq<char> {
        match self {
            SpiError::Write(_) => tagged("Write"@, payload),
            SpiError::Transfer(_) => tagged("Transfer"@, payload),
        }
    }

    /// The debug text of this error, given the debug text of the bus's own error.
    pub fn render(&self, payload: &str) -> (text: String)
        ensures
            text@ == self.rendered(payload@),
    {
        match self {
            SpiError::Write(_) => tag("Write", payload),
            SpiError::Transfer(_) => tag("Transfer", payload),
        }
    }
}

impl<TOPERR, TIPERR> PinError<TOPERR, TIPERR> {
    /// The debug text of this error, where the pin's own error reads `payload`.
    pub open spec fn rendered(self, payload: Seq<char>) -> Seq<char> {
        match self {
            PinError::Output(_) => tagged("Output"@, payload),
            PinError::Input(_) => tagged("Input"@, payload),
        }
    }

    /// The debug text of this error, given the debug text of the pin's own error.
    pub fn render(&self, payload: &str) -> (text: String)
        ensures
            text@ == self.rendered(payload@),
    {
        match self {
            PinError::Output(_) => tag("Output", payload),
            PinError::Input(_) => tag("Input", payload),
        }
    }
}

impl<TSPIERR, TOPERR, TIPERR> SxError<TSPIERR, TOPERR, TIPERR> {
    /// The debug text of this error, where the innermost error, if there is one,
    /// reads `payload`.
    pub open spec fn rendered(self, payload: Seq<char>) -> Seq<char> {
        match self {
            SxError::Spi(err) => tagged("Spi"@, err.rendered(payload)),
            SxError::Pin(err) => tagged("Pin"@, err.rendered(payload)),
            SxError::Timeout => "Timeout"@,
            SxError::BufferTooSmall => "BufferTooSmall"@,
        }
    }

    /// The debug text of this error, given the debug text of the innermost error.
    /// The two errors that hold none have a text of their own.
    pub fn render(&self, payload: &str) -> (text: String)
        ensures
            text@ == self.rendered(payload@),
    {
        match self {
            SxError::Spi(err) => tag("Spi", err.render(payload).as_str()),
            SxError::Pin(err) => tag("Pin", err.render(payload).as_str()),
            SxError::Timeout => "Timeout".to_owned(),
            SxError::BufferTooSmall => "BufferTooSmall".to_owned(),
        }
    }
}

impl<TSPIERR, TOPERR, TIPERR> vstd::std_specs::convert::FromSpecImpl<SpiError<TSPIERR>>
    for SxError<TSPIERR, TOPERR, TIPERR> {
    open spec fn obeys_from_spec() -> bool {
        true
    }

    open spec fn from_spec(spi_err: SpiError<TSPIERR>) -> Self {
        SxError::Spi(spi_err)
    }
}

impl<TSPIERR, TOPERR, TIPERR> From<SpiError<TSPIERR>> for SxError<TSPIERR, TOPERR, TIPERR> {
    fn from(spi_err: SpiError<TSPIERR>) -> (err: Self) {
        SxError::Spi(spi_err)
    }
}

impl<TSPIERR, TOPERR, TIPERR> vstd::std_specs::convert::FromSpecImpl<PinError<TOPERR, TIPERR>>
    for SxError<TSPIERR, TOPERR, TIPERR> {
    open spec fn obeys_from_spec() -> bool {
        true
    }

    open spec fn from_spec(pin_err: PinError<TOPERR, TIPERR>) -> Self {
        SxError::Pin(pin_err)
    }
}

impl<TSPIERR, TOPERR, TIPERR> From<PinError<TOPERR, TIPERR>> for SxError<TSPIERR, TOPERR, TIPERR> {
    fn from(pin_err: PinError<TOPERR, TIPERR>) -> (err: Self) {
        SxError::Pin(pin_err)
    }
}

/// The debug text of an error of the bus or of a pin is its name, and in brackets that of
/// the error it holds.
pub proof fn law_inner_errors_read<TSPIERR, TOPERR, TIPERR>(
    spi_err: TSPIERR,
    out_err: TOPERR,
    in_err: TIPERR,
    payload: Seq<char>,
)
    ensures
        SpiError::<TSPIERR>::Write(spi_err).rendered(payload) == seq!['W', 'r', 'i', 't', 'e', '(']
            + payload + seq![')'],
        SpiError::<TSPIERR>::Transfer(spi_err).rendered(payload)
            == seq!['T', 'r', 'a', 'n', 's', 'f', 'e', 'r', '(']
            + payload + seq![')'],
        PinError::<TOPERR, TIPERR>::Output(out_err).rendered(payload)
            == seq!['O', 'u', 't', 'p', 'u', 't', '(']
            + payload + seq![')'],
        PinError::<TOPERR, TIPERR>::Input(in_err).rendered(payload)
            == seq!['I', 'n', 'p', 'u', 't', '(']
            + payload + seq![')'],
{
    reveal_strlit("(");
    reveal_strlit(")");
    reveal_strlit("Write");
    reveal_strlit("Transfer");
    reveal_strlit("Output");
    reveal_strlit("Input");
    let spi_write = SpiError::<TSPIERR>::Write(spi_err);
    let spi_transfer = SpiError::<TSPIERR>::Transfer(spi_err);
    let pin_output = PinError::<TOPERR, TIPERR>::Output(out_err);
    let pin_input = PinError::<TOPERR, TIPERR>::Input(in_err);
    assert(spi_write.rendered(payload) =~= seq!['W', 'r', 'i', 't', 'e', '('] + payload
        + seq![')']);
    assert(spi_transfer.rendered(payload) =~= seq!['T', 'r', 'a', 'n', 's', 'f', 'e', 'r', '(']
        + payload + seq![')']);
    assert(pin_output.rendered(payload) =~= seq!['O', 'u', 't', 'p', 'u', 't', '('] + payload
        + seq![')']);
    assert(pin_input.rendered(payload) =~= seq!['I', 'n', 'p', 'u', 't', '('] + payload
        + seq![')']);
}

/// The debug text of a call's error is its name, and in brackets that of the error it
/// holds, if it holds one.
pub proof fn law_errors_read<TSPIERR, TOPERR, TIPERR>(
    spi_err: SpiError<TSPIERR>,
    pin_err: PinError<TOPERR, TIPERR>,
    payload: Seq<char>,
)
    ensures
        SxError::<TSPIERR, TOPERR, TIPERR>::Spi(spi_err).rendered(payload)
            == seq!['S', 'p', 'i', '(']
            + spi_err.rendered(payload) + seq![')'],
        SxError::<TSPIERR, TOPERR, TIPERR>::Pin(pin_err).rendered(payload)
            == seq!['P', 'i', 'n', '(']
            + pin_err.rendered(payload) + seq![')'],
        SxError::<TSPIERR, TOPERR, TIPERR>::Timeout.rendered(payload)
            == seq!['T', 'i', 'm', 'e', 'o', 'u', 't'],
        SxError::<TSPIERR, TOPERR, TIPERR>::BufferTooSmall.rendered(payload)
            == seq!['B', 'u', 'f', 'f', 'e', 'r', 'T', 'o', 'o', 'S', 'm', 'a', 'l', 'l'],
{
    reveal_strlit("(");
    reveal_strlit(")");
    reveal_strlit("Spi");
    reveal_strlit("Pin");
    reveal_strlit("Timeout");
    reveal_strlit("BufferTooSmall");
    let spi = SxError::<TSPIERR, TOPERR, TIPERR>::Spi(spi_err);
    let pin = SxError::<TSPIERR, TOPERR, TIPERR>::Pin(pin_err);
    assert(spi.rendered(payload) =~= seq!['S', 'p', 'i', '('] + spi_err.rendered(payload)
        + seq![')']);
    assert(pin.rendered(payload) =~= seq!['P', 'i', 'n', '('] + pin_err.rendered(payload)
        + seq![')']);
}

/// An error of the bus or of a pin becomes the call's error as it is.
pub proof fn law_errors_are_kept<TSPIERR, TOPERR, TIPERR>(
    spi_err: SpiError<TSPIERR>,
    pin_err: PinError<TOPERR, TIPERR>,
)
    ensures
        SxError::<TSPIERR, TOPERR, TIPERR>::from_spec(spi_err) == SxError::<
            TSPIERR,
            TOPERR,
            TIPERR,
        >::Spi(spi_err),
        SxError::<TSPIERR, TOPERR, TIPERR>::from_spec(pin_err) == SxError::<
            TSPIERR,
            TOPERR,
            TIPERR,
        >::Pin(pin_err),
{
}

} // verus!
