//! The bus abstraction: what a transport is, and how each kind of transport
//! frames a command.
//!
//! Transmission itself is carried out by the host; this module states what
//! goes on the wire, step by step.
use vstd::prelude::*;

verus! {

/// Shape of a transport, checked against what a panel supports.
#[derive(Clone, Copy, Debug, PartialEq, Eq, Structural)]
#[non_exhaustive]
pub enum InterfaceKind {
    /// Serial interface with data/command pin.
    Serial4Line,
    /// Parallel interface with 8 data lines.
    Parallel8Bit,
    /// Parallel interface with 16 data lines.
    Parallel16Bit,
}

/// One operation that the host performs on the panel, in order.
#[derive(Clone, Debug, PartialEq, Eq)]
pub enum Action {
    /// Send a command: its opcode and its argument bytes.
    Command { instruction: u8, params: Vec<u8> },
    /// Stream the caller's pixel words through the data path.
    PixelData,
    /// Wait for the given number of microseconds.
    DelayUs(u32),
    /// Drive the reset pin low.
    ResetLow,
    /// Drive the reset pin high.
    ResetHigh,
}

/// What an [Action] stands for.
pub enum ActionView {
    Command(u8, Seq<u8>),
    PixelData,
    DelayUs(u32),
    ResetLow,
    ResetHigh,
}

impl View for Action {
    type V = ActionView;

    open spec fn view(&self) -> ActionView {
        match self {
            Action::Command { instruction, params } => ActionView::Command(*instruction, params@),
            Action::PixelData => ActionView::PixelData,
            Action::DelayUs(us) => ActionView::DelayUs(*us),
            Action::ResetLow => ActionView::ResetLow,
            Action::ResetHigh => ActionView::ResetHigh,
        }
    }
}

/// The meaning of a sequence of actions.
pub open spec fn plan(actions: Seq<Action>) -> Seq<ActionView> {
    actions.map_values(|a: Action| a@)
}

/// The shape of a transport, as a type.
pub trait BusShape {
    /// Kind of interface of this shape, as a spec value.
    spec fn spec_kind() -> InterfaceKind;

    /// Kind of interface of this shape.
    fn kind() -> (r: InterfaceKind)
        ensures
            r == Self::spec_kind(),
    ;
}

/// Serial bus with a data/command line.
pub struct FourWireSerial;

/// Eight parallel data lines.
pub struct EightBit;

/// Sixteen parallel data lines.
pub struct SixteenBit;

impl BusShape for FourWireSerial {
    open spec fn spec_kind() -> InterfaceKind {
        InterfaceKind::Serial4Line
    }

    fn kind() -> (r: InterfaceKind) {
        InterfaceKind::Serial4Line
    }
}

impl BusShape for EightBit {
    open spec fn spec_kind() -> InterfaceKind {
        InterfaceKind::Parallel8Bit
    }

    fn kind() -> (r: InterfaceKind) {
        InterfaceKind::Parallel8Bit
    }
}

impl BusShape for SixteenBit {
    open spec fn spec_kind() -> InterfaceKind {
        InterfaceKind::Parallel16Bit
    }

    fn kind() -> (r: InterfaceKind) {
        InterfaceKind::Parallel16Bit
    }
}

/// A transport that carries commands and pixel words to a panel.
pub trait Interface {
    /// The native word of the transport (u8 for serial, u8 or u16 for parallel).
    type Word: Copy;

    /// The shape of the transport.
    type Shape: BusShape;
}

/// Kind of an interface type, as a spec value.
pub open spec fn kind_of<DI: Interface>() -> InterfaceKind {
    <DI::Shape as BusShape>::spec_kind()
}

/// Kind of an interface type.
pub fn interface_kind<DI: Interface>() -> (r: InterfaceKind)
    ensures
        r == kind_of::<DI>(),
{
    <DI::Shape as BusShape>::kind()
}

/// One step on the wire while a command goes out.
#[derive(Clone, Debug, PartialEq, Eq)]
pub enum BusStep {
    /// Drive the data/command line low (command phase).
    DcLow,
    /// Drive the data/command line high (argument phase).
    DcHigh,
    /// Transmit one byte as one bus word.
    Word(u8),
    /// Transmit a block of bytes in one transfer.
    Block(Vec<u8>),
}

/// What a [BusStep] stands for.
pub enum BusStepView {
    DcLow,
    DcHigh,
    Word(u8),
    Block(Seq<u8>),
}

impl View for BusStep {
    type V = BusStepView;

    open spec fn view(&self) -> BusStepView {
        match self {
            BusStep::DcLow => BusStepView::DcLow,
            BusStep::DcHigh => BusStepView::DcHigh,
            BusStep::Word(b) => BusStepView::Word(*b),
            BusStep::Block(v) => BusStepView::Block(v@),
        }
    }
}

/// The meaning of a sequence of bus steps.
pub open spec fn steps(s: Seq<BusStep>) -> Seq<BusStepView> {
    s.map_values(|b: BusStep| b@)
}

/// How the serial transport frames a command.
pub open spec fn serial_framing(command: u8, args: Seq<u8>) -> Seq<BusStepView> {
    seq![
        BusStepView::DcLow,
        BusStepView::Block(seq![command]),
        BusStepView::DcHigh,
        BusStepView::Block(args),
    ]
}

/// Each byte as one bus word.
pub open spec fn words(args: Seq<u8>) -> Seq<BusStepView> {
    args.map_values(|b: u8| BusStepView::Word(b))
}

/// How the parallel transport frames a command.
pub open spec fn parallel_framing(command: u8, args: Seq<u8>) -> Seq<BusStepView> {
    let head = seq![BusStepView::DcLow, BusStepView::Word(command)];
    if args.len() == 0 {
        head
    } else {
        head + seq![BusStepView::DcHigh] + words(args)
    }
}

/// Copies a byte slice into a vector.
fn copy_bytes(bytes: &[u8]) -> (r: Vec<u8>)
    ensures
        r@ == bytes@,
{
    let mut r: Vec<u8> = Vec::new();
    let mut i: usize = 0;
    while i < bytes.len()
        invariant
            i <= bytes@.len(),
            r@ == bytes@.subrange(0, i as int),
        decreases bytes@.len() - i,
    {
        r.push(bytes[i]);
        i = i + 1;
    }
    assert(r@ =~= bytes@);
    r
}

/// Serial interface error.
#[derive(Clone, Copy, Debug)]
pub enum SpiError<SPI, DC> {
    /// Error of the SPI device.
    Spi(SPI),
    /// Error of the data/command pin.
    Dc(DC),
}

/// Serial interface: an SPI device and a data/command pin.
pub struct SpiInterface<SPI, DC> {
    spi: SPI,
    dc: DC,
}

impl<SPI, DC> SpiInterface<SPI, DC> {
    /// The SPI device held.
    pub closed spec fn spec_spi(&self) -> SPI {
        self.spi
    }

    /// The data/command pin held.
    pub closed spec fn spec_dc(&self) -> DC {
        self.dc
    }

    /// Create new interface.
    pub fn new(spi: SPI, dc: DC) -> (r: Self)
        ensures
            r.spec_spi() == spi,
            r.spec_dc() == dc,
    {
        SpiInterface { spi, dc }
    }

    /// Release the SPI device and the data/command pin.
    pub fn release(self) -> (r: (SPI, DC))
        ensures
            r == (self.spec_spi(), self.spec_dc()),
    {
        (self.spi, self.dc)
    }

    /// Borrows the SPI device and the data/command pin, to transmit through them.
    pub fn parts_mut(&mut self) -> (r: (&mut SPI, &mut DC))
        ensures
            *r.0 == old(self).spec_spi(),
            *r.1 == old(self).spec_dc(),
            final(self).spec_spi() == *final(r.0),
            final(self).spec_dc() == *final(r.1),
    {
        (&mut self.spi, &mut self.dc)
    }

    /// The steps that send a command: the opcode with the line low, the
    /// arguments with the line high.
    pub fn command_steps(command: u8, args: &[u8]) -> (r: Vec<BusStep>)
        ensures
            steps(r@) == serial_framing(command, args@),
    {
        let opcode = vec![command];
        let r = vec![BusStep::DcLow, BusStep::Block(opcode), BusStep::DcHigh, BusStep::Block(copy_bytes(args))];
        assert(opcode@ =~= seq![command]);
        assert(steps(r@) =~= serial_framing(command, args@));
        r
    }
}

impl<SPI, DC> Interface for SpiInterface<SPI, DC> {
    type Word = u8;

    type Shape = FourWireSerial;
}

/// A set of parallel data lines that take one word at a time.
pub trait OutputBus {
    /// The word the lines carry (u8 or u16).
    type Word: Copy;

    /// How many lines there are: [EightBit] or [SixteenBit].
    type Width: BusShape;

    /// Error of the lines.
    type Error;

    /// Puts a word on the lines.
    fn set_value(&mut self, value: Self::Word) -> Result<(), Self::Error>;
}

/// Parallel interface error.
#[derive(Clone, Copy, Debug)]
pub enum ParallelError<BUS, DC, WR> {
    /// Error of the data lines.
    Bus(BUS),
    /// Error of the data/command pin.
    Dc(DC),
    /// Error of the write strobe pin.
    Wr(WR),
}

/// Parallel interface: data lines, a data/command pin and a write strobe pin.
pub struct ParallelInterface<BUS, DC, WR> {
    bus: BUS,
    dc: DC,
    wr: WR,
}

impl<BUS, DC, WR> ParallelInterface<BUS, DC, WR> {
    /// The parts held: data lines, data/command pin, write strobe pin.
    pub closed spec fn spec_parts(&self) -> (BUS, DC, WR) {
        (self.bus, self.dc, self.wr)
    }

    /// Create new interface.
    pub fn new(bus: BUS, dc: DC, wr: WR) -> (r: Self)
        ensures
            r.spec_parts() == (bus, dc, wr),
    {
        ParallelInterface { bus, dc, wr }
    }

    /// Release the data lines and the two pins.
    pub fn release(self) -> (r: (BUS, DC, WR))
        ensures
            r == self.spec_parts(),
    {
        (self.bus, self.dc, self.wr)
    }

    /// Borrows the data lines and the two pins, to transmit through them.
    pub fn parts_mut(&mut self) -> (r: (&mut BUS, &mut DC, &mut WR))
        ensures
            (*r.0, *r.1, *r.2) == old(self).spec_parts(),
            final(self).spec_parts() == (*final(r.0), *final(r.1), *final(r.2)),
    {
        (&mut self.bus, &mut self.dc, &mut self.wr)
    }

    /// The steps that send a command: the opcode as one word with the line
    /// low, then, if there are any, each argument as one word with the line high.
    pub fn command_steps(command: u8, args: &[u8]) -> (r: Vec<BusStep>)
        ensures
            steps(r@) == parallel_framing(command, args@),
    {
        let mut r: Vec<BusStep> = vec![BusStep::DcLow, BusStep::Word(command)];
        assert(steps(r@) =~= seq![BusStepView::DcLow, BusStepView::Word(command)]);
        if args.len() == 0 {
            return r;
        }
        r.push(BusStep::DcHigh);
        let mut i: usize = 0;
        while i < args.len()
            invariant
                i <= args@.len(),
                r@.len() == 3 + i,
                r@[0]@ == BusStepView::DcLow,
                r@[1]@ == BusStepView::Word(command),
                r@[2]@ == BusStepView::DcHigh,
                forall|j: int| 0 <= j < i ==> (#[trigger] r@[3 + j])@ == BusStepView::Word(args@[j]),
            decreases args@.len() - i,
        {
            r.push(BusStep::Word(args[i]));
            i = i + 1;
        }
        assert(steps(r@) =~= parallel_framing(command, args@)) by {
            let expected = parallel_framing(command, args@);
            assert forall|k: int| 0 <= k < r@.len() implies steps(r@)[k] == expected[k] by {
                if k >= 3 {
                    assert(r@[3 + (k - 3)] == r@[k]);
                }
            }
        }
        r
    }
}

impl<BUS: OutputBus, DC, WR> Interface for ParallelInterface<BUS, DC, WR> {
    type Word = BUS::Word;

    type Shape = BUS::Width;
}

} // verus!
