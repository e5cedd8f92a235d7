//! The register catalog: the special function registers with their addresses in
//! internal data, and the eight general-purpose registers of a bank.

use vstd::prelude::*;
use crate::addr::Addr8;

verus! {

/// The special function registers. Each is a cell in the upper half of internal
/// data; `NONE` stands for an address that holds no register.
#[derive(Debug, Clone, Copy, PartialEq, Eq, Structural)]
pub enum SFR {
    /// No register.
    NONE,
    /// Accumulator
    ACC,
    /// ADC0 Configuration
    ADC0CF,
    /// ADC0 Control
    ADC0CN,
    /// ADC0 Greater-Than Compare High
    ADC0GTH,
    /// ADC0 Greater-Than Compare Low
    ADC0GTL,
    /// ADC0 High
    ADC0H,
    /// ADC0 Low
    ADC0L,
    /// ADC0 Less-Than Compare Word High
    ADC0LTH,
    /// ADC0 Less-Than Compare Word Low
    ADC0LTL,
    /// AMUX0 Negative Channel Select
    AMX0N,
    /// AMUX0 Positive Channel Select
    AMX0P,
    /// B Register
    B,
    /// Clock Control
    CKCON,
    /// Clock Multiplier
    CLKMUL,
    /// Clock Select
    CLKSEL,
    /// Comparator0 Control
    CPT0CN,
    /// Comparator0 Mode Selection
    CPT0MD,
    /// Comparator0 MUX Selection
    CPT0MX,
    /// Comparator1 Control
    CPT1CN,
    /// Comparator1 Mode Selection
    CPT1MD,
    /// Comparator1 MUX Selection
    CPT1MX,
    /// Data Pointer High
    DPH,
    /// Data Pointer Low
    DPL,
    /// Extended Interrupt Enable 1
    EIE1,
    /// Extended Interrupt Enable 2
    EIE2,
    /// Extended Interrupt Priority 1
    EIP1,
    /// Extended Interrupt Priority 2
    EIP2,
    /// External Memory Interface Control
    EMI0CN,
    /// External Memory Interface Configuration
    EMI0CF,
    /// External Memory Interface Timing
    EMI0TC,
    /// Flash Lock and Key
    FLKEY,
    /// Flash Scale
    FLSCL,
    /// Interrupt Enable
    IE,
    /// Interrupt Priority
    IP,
    /// INT0/INT1 Configuration
    IT01CF,
    /// Internal Oscillator Calibration
    OSCICL,
    /// Internal Oscillator Control
    OSCICN,
    /// Internal Low-Frequency Oscillator Control
    OSCLCN,
    /// External Oscillator Control
    OSCXCN,
    /// Port 0 Latch
    P0,
    /// Port 0 Input Mode Configuration
    P0MDIN,
    /// Port 0 Output Mode Configuration
    P0MDOUT,
    /// Port 0 Skip
    P0SKIP,
    /// Port 1 Latch
    P1,
    /// Port 1 Input Mode Configuration
    P1MDIN,
    /// Port 1 Output Mode Configuration
    P1MDOUT,
    /// Port 1 Skip
    P1SKIP,
    /// Port 2 Latch
    P2,
    /// Port 2 Input Mode Configuration
    P2MDIN,
    /// Port 2 Output Mode Configuration
    P2MDOUT,
    /// Port 2 Skip
    P2SKIP,
    /// Port 3 Latch
    P3,
    /// Port 3 Input Mode Configuration
    P3MDIN,
    /// Port 3 Output Mode Configuration
    P3MDOUT,
    /// Port 3 Skip
    P3SKIP,
    /// Port 4 Latch
    P4,
    /// Port 4 Input Mode Configuration
    P4MDIN,
    /// Port 4 Output Mode Configuration
    P4MDOUT,
    /// PCA Control
    PCA0CN,
    /// PCA Capture 0 High
    PCA0CPH0,
    /// PCA Capture 1 High
    PCA0CPH1,
    /// PCA Capture 2 High
    PCA0CPH2,
    /// PCA Capture 3 High
    PCA0CPH3,
    /// PCA Capture 4 High
    PCA0CPH4,
    /// PCA Capture 0 Low
    PCA0CPL0,
    /// PCA Capture 1 Low
    PCA0CPL1,
    /// PCA Capture 2 Low
    PCA0CPL2,
    /// PCA Capture 3 Low
    PCA0CPL3,
    /// PCA Capture 4 Low
    PCA0CPL4,
    /// PCA Module 0 Mode Register
    PCA0CPM0,
    /// PCA Module 1 Mode Register
    PCA0CPM1,
    /// PCA Module 2 Mode Register
    PCA0CPM2,
    /// PCA Module 3 Mode Register
    PCA0CPM3,
    /// PCA Module 4 Mode Register
    PCA0CPM4,
    /// PCA Counter High
    PCA0H,
    /// PCA Counter Low
    PCA0L,
    /// PCA Mode
    PCA0MD,
    /// Power Control
    PCON,
    /// Prefetch Engine Control
    PFE0CN,
    /// Program Store R/W Control
    PSCTL,
    /// Program Status Word
    PSW,
    /// Voltage Reference Control
    REF0CN,
    /// Voltage Regulator Control
    REG0CN,
    /// Reset Source Configuration/Status
    RSTSRC,
    /// UART1 Baud Rate Generator Control
    SBCON1,
    /// UART1 Baud Rate Generator High
    SBRLH1,
    /// UART1 Baud Rate Generator Low
    SBRLL1,
    /// UART1 Data Buffer
    SBUF1,
    /// UART1 Control
    SCON1,
    /// UART0 Data Buffer
    SBUF0,
    /// UART0 Control
    SCON0,
    /// SMBus Configuration
    SMB0CF,
    /// SMBus Control
    SMB0CN,
    /// SMBus Data
    SMB0DAT,
    /// UART1 Mode
    SMOD1,
    /// Stack Pointer
    SP,
    /// SPI Configuration
    SPI0CFG,
    /// SPI Clock Rate Control
    SPI0CKR,
    /// SPI Control
    SPI0CN,
    /// SPI Data
    SPI0DAT,
    /// Timer/Counter Control
    TCON,
    /// Timer/Counter 0 High
    TH0,
    /// Timer/Counter 1 High
    TH1,
    /// Timer/Counter 0 Low
    TL0,
    /// Timer/Counter 1 Low
    TL1,
    /// Timer/Counter Mode
    TMOD,
    /// Timer/Counter 2 Control
    TMR2CN,
    /// Timer/Counter 2 High
    TMR2H,
    /// Timer/Counter 2 Low
    TMR2L,
    /// Timer/Counter 2 Reload High
    TMR2RLH,
    /// Timer/Counter 2 Reload Low
    TMR2RLL,
    /// Timer/Counter 3 Control
    TMR3CN,
    /// Timer/Counter 3 High
    TMR3H,
    /// Timer/Counter 3 Low
    TMR3L,
    /// Timer/Counter 3 Reload High
    TMR3RLH,
    /// Timer/Counter 3 Reload Low
    TMR3RLL,
    /// VDD Monitor Control
    VDM0CN,
    /// USB0 Indirect Address Register
    USB0ADR,
    /// USB0 Data Register
    USB0DAT,
    /// USB0 Transceiver Control
    USB0XCN,
    /// Port I/O Crossbar Control 0
    XBR0,
    /// Port I/O Crossbar Control 1
    XBR1,
    /// Port I/O Crossbar Control 2
    XBR2,
}

impl SFR {
    /// The address of the register in internal data.
    pub open spec fn location(self) -> u8 {
        match self {
            SFR::NONE => 0x00,
            SFR::ACC => 0xE0,
            SFR::ADC0CF => 0xBC,
            SFR::ADC0CN => 0xE8,
            SFR::ADC0GTH => 0xC4,
            SFR::ADC0GTL => 0xC3,
            SFR::ADC0H => 0xBE,
            SFR::ADC0L => 0xBD,
            SFR::ADC0LTH => 0xC6,
            SFR::ADC0LTL => 0xC5,
            SFR::AMX0N => 0xBA,
            SFR::AMX0P => 0xBB,
            SFR::B => 0xF0,
            SFR::CKCON => 0x8E,
            SFR::CLKMUL => 0xB9,
            SFR::CLKSEL => 0xA9,
            SFR::CPT0CN => 0x9B,
            SFR::CPT0MD => 0x9D,
            SFR::CPT0MX => 0x9F,
            SFR::CPT1CN => 0x9A,
            SFR::CPT1MD => 0x9C,
            SFR::CPT1MX => 0x9E,
            SFR::DPH => 0x83,
            SFR::DPL => 0x82,
            SFR::EIE1 => 0xE6,
            SFR::EIE2 => 0xE7,
            SFR::EIP1 => 0xF6,
            SFR::EIP2 => 0xF7,
            SFR::EMI0CN => 0xAA,
            SFR::EMI0CF => 0x85,
            SFR::EMI0TC => 0x84,
            SFR::FLKEY => 0xB7,
            SFR::FLSCL => 0xB6,
            SFR::IE => 0xA8,
            SFR::IP => 0xB8,
            SFR::IT01CF => 0xE4,
            SFR::OSCICL => 0xB3,
            SFR::OSCICN => 0xB2,
            SFR::OSCLCN => 0x86,
            SFR::OSCXCN => 0xB1,
            SFR::P0 => 0x80,
            SFR::P0MDIN => 0xF1,
            SFR::P0MDOUT => 0xA4,
            SFR::P0SKIP => 0xD4,
            SFR::P1 => 0x90,
            SFR::P1MDIN => 0xF2,
            SFR::P1MDOUT => 0xA5,
            SFR::P1SKIP => 0xD5,
            SFR::P2 => 0xA0,
            SFR::P2MDIN => 0xF3,
            SFR::P2MDOUT => 0xA6,
            SFR::P2SKIP => 0xD6,
            SFR::P3 => 0xB0,
            SFR::P3MDIN => 0xF4,
            SFR::P3MDOUT => 0xA7,
            SFR::P3SKIP => 0xDF,
            SFR::P4 => 0xC7,
            SFR::P4MDIN => 0xF5,
            SFR::P4MDOUT => 0xAE,
            SFR::PCA0CN => 0xD8,
            SFR::PCA0CPH0 => 0xFC,
            SFR::PCA0CPH1 => 0xEA,
            SFR::PCA0CPH2 => 0xEC,
            SFR::PCA0CPH3 => 0xEE,
            SFR::PCA0CPH4 => 0xFE,
            SFR::PCA0CPL0 => 0xFB,
            SFR::PCA0CPL1 => 0xE9,
            SFR::PCA0CPL2 => 0xEB,
            SFR::PCA0CPL3 => 0xED,
            SFR::PCA0CPL4 => 0xFD,
            SFR::PCA0CPM0 => 0xDA,
            SFR::PCA0CPM1 => 0xDB,
            SFR::PCA0CPM2 => 0xDC,
            SFR::PCA0CPM3 => 0xDD,
            SFR::PCA0CPM4 => 0xDE,
            SFR::PCA0H => 0xFA,
            SFR::PCA0L => 0xF9,
            SFR::PCA0MD => 0xD9,
            SFR::PCON => 0x87,
            SFR::PFE0CN => 0xAF,
            SFR::PSCTL => 0x8F,
            SFR::PSW => 0xD0,
            SFR::REF0CN => 0xD1,
            SFR::REG0CN => 0xC9,
            SFR::RSTSRC => 0xEF,
            SFR::SBCON1 => 0xAC,
            SFR::SBRLH1 => 0xB5,
            SFR::SBRLL1 => 0xB4,
            SFR::SBUF1 => 0xD3,
            SFR::SCON1 => 0xD2,
            SFR::SBUF0 => 0x99,
            SFR::SCON0 => 0x98,
            SFR::SMB0CF => 0xC1,
            SFR::SMB0CN => 0xC0,
            SFR::SMB0DAT => 0xC2,
            SFR::SMOD1 => 0xE5,
            SFR::SP => 0x81,
            SFR::SPI0CFG => 0xA1,
            SFR::SPI0CKR => 0xA2,
            SFR::SPI0CN => 0xF8,
            SFR::SPI0DAT => 0xA3,
            SFR::TCON => 0x88,
            SFR::TH0 => 0x8C,
            SFR::TH1 => 0x8D,
            SFR::TL0 => 0x8A,
            SFR::TL1 => 0x8B,
            SFR::TMOD => 0x89,
            SFR::TMR2CN => 0xC8,
            SFR::TMR2H => 0xCD,
            SFR::TMR2L => 0xCC,
            SFR::TMR2RLH => 0xCB,
            SFR::TMR2RLL => 0xCA,
            SFR::TMR3CN => 0x91,
            SFR::TMR3H => 0x95,
            SFR::TMR3L => 0x94,
            SFR::TMR3RLH => 0x93,
            SFR::TMR3RLL => 0x92,
            SFR::VDM0CN => 0xFF,
            SFR::USB0ADR => 0x96,
            SFR::USB0DAT => 0x97,
            SFR::USB0XCN => 0xD7,
            SFR::XBR0 => 0xE1,
            SFR::XBR1 => 0xE2,
            SFR::XBR2 => 0xE3,
        }
    }

    /// Whether some register other than `NONE` lives at `addr`.
    pub open spec fn is_register(addr: u8) -> bool {
        exists|sfr: SFR| sfr != SFR::NONE && #[trigger] sfr.location() == addr
    }

    /// The register that lives at `addr`, or `NONE` where there is none.
    pub open spec fn at(addr: u8) -> SFR {
        if SFR::is_register(addr) {
            choose|sfr: SFR| sfr != SFR::NONE && #[trigger] sfr.location() == addr
        } else {
            SFR::NONE
        }
    }

    /// The address of the register in internal data.
    pub fn addr(self) -> (r: Addr8)
        ensures
            r@ == self.location(),
    {
        Addr8::new(
            match self {
                SFR::NONE => 0x00,
                SFR::ACC => 0xE0,
                SFR::ADC0CF => 0xBC,
                SFR::ADC0CN => 0xE8,
                SFR::ADC0GTH => 0xC4,
                SFR::ADC0GTL => 0xC3,
                SFR::ADC0H => 0xBE,
                SFR::ADC0L => 0xBD,
                SFR::ADC0LTH => 0xC6,
                SFR::ADC0LTL => 0xC5,
                SFR::AMX0N => 0xBA,
                SFR::AMX0P => 0xBB,
                SFR::B => 0xF0,
                SFR::CKCON => 0x8E,
                SFR::CLKMUL => 0xB9,
                SFR::CLKSEL => 0xA9,
                SFR::CPT0CN => 0x9B,
                SFR::CPT0MD => 0x9D,
                SFR::CPT0MX => 0x9F,
                SFR::CPT1CN => 0x9A,
                SFR::CPT1MD => 0x9C,
                SFR::CPT1MX => 0x9E,
                SFR::DPH => 0x83,
                SFR::DPL => 0x82,
                SFR::EIE1 => 0xE6,
                SFR::EIE2 => 0xE7,
                SFR::EIP1 => 0xF6,
                SFR::EIP2 => 0xF7,
                SFR::EMI0CN => 0xAA,
                SFR::EMI0CF => 0x85,
                SFR::EMI0TC => 0x84,
                SFR::FLKEY => 0xB7,
                SFR::FLSCL => 0xB6,
                SFR::IE => 0xA8,
                SFR::IP => 0xB8,
                SFR::IT01CF => 0xE4,
                SFR::OSCICL => 0xB3,
                SFR::OSCICN => 0xB2,
                SFR::OSCLCN => 0x86,
                SFR::OSCXCN => 0xB1,
                SFR::P0 => 0x80,
                SFR::P0MDIN => 0xF1,
                SFR::P0MDOUT => 0xA4,
                SFR::P0SKIP => 0xD4,
                SFR::P1 => 0x90,
                SFR::P1MDIN => 0xF2,
                SFR::P1MDOUT => 0xA5,
                SFR::P1SKIP => 0xD5,
                SFR::P2 => 0xA0,
                SFR::P2MDIN => 0xF3,
                SFR::P2MDOUT => 0xA6,
                SFR::P2SKIP => 0xD6,
                SFR::P3 => 0xB0,
                SFR::P3MDIN => 0xF4,
                SFR::P3MDOUT => 0xA7,
                SFR::P3SKIP => 0xDF,
                SFR::P4 => 0xC7,
                SFR::P4MDIN => 0xF5,
                SFR::P4MDOUT => 0xAE,
                SFR::PCA0CN => 0xD8,
                SFR::PCA0CPH0 => 0xFC,
                SFR::PCA0CPH1 => 0xEA,
                SFR::PCA0CPH2 => 0xEC,
                SFR::PCA0CPH3 => 0xEE,
                SFR::PCA0CPH4 => 0xFE,
                SFR::PCA0CPL0 => 0xFB,
                SFR::PCA0CPL1 => 0xE9,
                SFR::PCA0CPL2 => 0xEB,
                SFR::PCA0CPL3 => 0xED,
                SFR::PCA0CPL4 => 0xFD,
                SFR::PCA0CPM0 => 0xDA,
                SFR::PCA0CPM1 => 0xDB,
                SFR::PCA0CPM2 => 0xDC,
                SFR::PCA0CPM3 => 0xDD,
                SFR::PCA0CPM4 => 0xDE,
                SFR::PCA0H => 0xFA,
                SFR::PCA0L => 0xF9,
                SFR::PCA0MD => 0xD9,
                SFR::PCON => 0x87,
                SFR::PFE0CN => 0xAF,
                SFR::PSCTL => 0x8F,
                SFR::PSW => 0xD0,
                SFR::REF0CN => 0xD1,
                SFR::REG0CN => 0xC9,
                SFR::RSTSRC => 0xEF,
                SFR::SBCON1 => 0xAC,
                SFR::SBRLH1 => 0xB5,
                SFR::SBRLL1 => 0xB4,
                SFR::SBUF1 => 0xD3,
                SFR::SCON1 => 0xD2,
                SFR::SBUF0 => 0x99,
                SFR::SCON0 => 0x98,
                SFR::SMB0CF => 0xC1,
                SFR::SMB0CN => 0xC0,
                SFR::SMB0DAT => 0xC2,
                SFR::SMOD1 => 0xE5,
                SFR::SP => 0x81,
                SFR::SPI0CFG => 0xA1,
                SFR::SPI0CKR => 0xA2,
                SFR::SPI0CN => 0xF8,
                SFR::SPI0DAT => 0xA3,
                SFR::TCON => 0x88,
                SFR::TH0 => 0x8C,
                SFR::TH1 => 0x8D,
                SFR::TL0 => 0x8A,
                SFR::TL1 => 0x8B,
                SFR::TMOD => 0x89,
                SFR::TMR2CN => 0xC8,
                SFR::TMR2H => 0xCD,
                SFR::TMR2L => 0xCC,
                SFR::TMR2RLH => 0xCB,
                SFR::TMR2RLL => 0xCA,
                SFR::TMR3CN => 0x91,
                SFR::TMR3H => 0x95,
                SFR::TMR3L => 0x94,
                SFR::TMR3RLH => 0x93,
                SFR::TMR3RLL => 0x92,
                SFR::VDM0CN => 0xFF,
                SFR::USB0ADR => 0x96,
                SFR::USB0DAT => 0x97,
                SFR::USB0XCN => 0xD7,
                SFR::XBR0 => 0xE1,
                SFR::XBR1 => 0xE2,
                SFR::XBR2 => 0xE3,
            },
        )
    }

    /// The register that lives at `addr`, or `NONE` where there is none.
    pub fn from_u8(addr: u8) -> (r: SFR)
        ensures
            r == SFR::at(addr),
            SFR::is_register(addr) ==> r != SFR::NONE && r.location() == addr,
            !SFR::is_register(addr) ==> r == SFR::NONE,
    {
        let r = match addr {
            0x80 => SFR::P0,
            0x81 => SFR::SP,
            0x82 => SFR::DPL,
            0x83 => SFR::DPH,
            0x84 => SFR::EMI0TC,
            0x85 => SFR::EMI0CF,
            0x86 => SFR::OSCLCN,
            0x87 => SFR::PCON,
            0x88 => SFR::TCON,
            0x89 => SFR::TMOD,
            0x8A => SFR::TL0,
            0x8B => SFR::TL1,
            0x8C => SFR::TH0,
            0x8D => SFR::TH1,
            0x8E => SFR::CKCON,
            0x8F => SFR::PSCTL,
            0x90 => SFR::P1,
            0x91 => SFR::TMR3CN,
            0x92 => SFR::TMR3RLL,
            0x93 => SFR::TMR3RLH,
            0x94 => SFR::TMR3L,
            0x95 => SFR::TMR3H,
            0x96 => SFR::USB0ADR,
            0x97 => SFR::USB0DAT,
            0x98 => SFR::SCON0,
            0x99 => SFR::SBUF0,
            0x9A => SFR::CPT1CN,
            0x9B => SFR::CPT0CN,
            0x9C => SFR::CPT1MD,
            0x9D => SFR::CPT0MD,
            0x9E => SFR::CPT1MX,
            0x9F => SFR::CPT0MX,
            0xA0 => SFR::P2,
            0xA1 => SFR::SPI0CFG,
            0xA2 => SFR::SPI0CKR,
            0xA3 => SFR::SPI0DAT,
            0xA4 => SFR::P0MDOUT,
            0xA5 => SFR::P1MDOUT,
            0xA6 => SFR::P2MDOUT,
            0xA7 => SFR::P3MDOUT,
            0xA8 => SFR::IE,
            0xA9 => SFR::CLKSEL,
            0xAA => SFR::EMI0CN,
            0xAC => SFR::SBCON1,
            0xAE => SFR::P4MDOUT,
            0xAF => SFR::PFE0CN,
            0xB0 => SFR::P3,
            0xB1 => SFR::OSCXCN,
            0xB2 => SFR::OSCICN,
            0xB3 => SFR::OSCICL,
            0xB4 => SFR::SBRLL1,
            0xB5 => SFR::SBRLH1,
            0xB6 => SFR::FLSCL,
            0xB7 => SFR::FLKEY,
            0xB8 => SFR::IP,
            0xB9 => SFR::CLKMUL,
            0xBA => SFR::AMX0N,
            0xBB => SFR::AMX0P,
            0xBC => SFR::ADC0CF,
            0xBD => SFR::ADC0L,
            0xBE => SFR::ADC0H,
            0xC0 => SFR::SMB0CN,
            0xC1 => SFR::SMB0CF,
            0xC2 => SFR::SMB0DAT,
            0xC3 => SFR::ADC0GTL,
            0xC4 => SFR::ADC0GTH,
            0xC5 => SFR::ADC0LTL,
            0xC6 => SFR::ADC0LTH,
            0xC7 => SFR::P4,
            0xC8 => SFR::TMR2CN,
            0xC9 => SFR::REG0CN,
            0xCA => SFR::TMR2RLL,
            0xCB => SFR::TMR2RLH,
            0xCC => SFR::TMR2L,
            0xCD => SFR::TMR2H,
            0xD0 => SFR::PSW,
            0xD1 => SFR::REF0CN,
            0xD2 => SFR::SCON1,
            0xD3 => SFR::SBUF1,
            0xD4 => SFR::P0SKIP,
            0xD5 => SFR::P1SKIP,
            0xD6 => SFR::P2SKIP,
            0xD7 => SFR::USB0XCN,
            0xD8 => SFR::PCA0CN,
            0xD9 => SFR::PCA0MD,
            0xDA => SFR::PCA0CPM0,
            0xDB => SFR::PCA0CPM1,
            0xDC => SFR::PCA0CPM2,
            0xDD => SFR::PCA0CPM3,
            0xDE => SFR::PCA0CPM4,
            0xDF => SFR::P3SKIP,
            0xE0 => SFR::ACC,
            0xE1 => SFR::XBR0,
            0xE2 => SFR::XBR1,
            0xE3 => SFR::XBR2,
            0xE4 => SFR::IT01CF,
            0xE5 => SFR::SMOD1,
            0xE6 => SFR::EIE1,
            0xE7 => SFR::EIE2,
            0xE8 => SFR::ADC0CN,
            0xE9 => SFR::PCA0CPL1,
            0xEA => SFR::PCA0CPH1,
            0xEB => SFR::PCA0CPL2,
            0xEC => SFR::PCA0CPH2,
            0xED => SFR::PCA0CPL3,
            0xEE => SFR::PCA0CPH3,
            0xEF => SFR::RSTSRC,
            0xF0 => SFR::B,
            0xF1 => SFR::P0MDIN,
            0xF2 => SFR::P1MDIN,
            0xF3 => SFR::P2MDIN,
            0xF4 => SFR::P3MDIN,
            0xF5 => SFR::P4MDIN,
            0xF6 => SFR::EIP1,
            0xF7 => SFR::EIP2,
            0xF8 => SFR::SPI0CN,
            0xF9 => SFR::PCA0L,
            0xFA => SFR::PCA0H,
            0xFB => SFR::PCA0CPL0,
            0xFC => SFR::PCA0CPH0,
            0xFD => SFR::PCA0CPL4,
            0xFE => SFR::PCA0CPH4,
            0xFF => SFR::VDM0CN,
            _ => SFR::NONE,
        };
        assert(r != SFR::NONE ==> r.location() == addr);
        assert(r == SFR::NONE ==> !SFR::is_register(addr));
        proof {
            if r != SFR::NONE {
                lemma_sfr_addresses_differ(SFR::at(addr), r);
            }
        }
        r
    }

    /// The register that lives at `addr`, or `NONE` where there is none.
    pub fn from_addr(addr: Addr8) -> (r: SFR)
        ensures
            r == SFR::at(addr@),
            SFR::is_register(addr@) ==> r != SFR::NONE && r.location() == addr@,
            !SFR::is_register(addr@) ==> r == SFR::NONE,
    {
        SFR::from_u8(addr.as_u8())
    }
}

impl From<u8> for SFR {
    /// The register that lives at `addr`, or `NONE` where there is none.
    fn from(addr: u8) -> (r: SFR) {
        SFR::from_u8(addr)
    }
}

impl vstd::std_specs::convert::FromSpecImpl<u8> for SFR {
    open spec fn obeys_from_spec() -> bool {
        true
    }

    open spec fn from_spec(addr: u8) -> SFR {
        SFR::at(addr)
    }
}

impl From<Addr8> for SFR {
    /// The register that lives at `addr`, or `NONE` where there is none.
    fn from(addr: Addr8) -> (r: SFR) {
        SFR::from_u8(addr.as_u8())
    }
}

impl vstd::std_specs::convert::FromSpecImpl<Addr8> for SFR {
    open spec fn obeys_from_spec() -> bool {
        true
    }

    open spec fn from_spec(addr: Addr8) -> SFR {
        SFR::at(addr@)
    }
}

impl From<SFR> for u8 {
    /// The address of the register in internal data.
    fn from(sfr: SFR) -> (r: u8) {
        sfr.addr().as_u8()
    }
}

impl vstd::std_specs::convert::FromSpecImpl<SFR> for u8 {
    open spec fn obeys_from_spec() -> bool {
        true
    }

    open spec fn from_spec(sfr: SFR) -> u8 {
        sfr.location()
    }
}

/// No two registers share an address.
pub proof fn lemma_sfr_addresses_differ(a: SFR, b: SFR)
    requires
        a.location() == b.location(),
    ensures
        a == b,
{
}

/// The general-purpose registers of the selected bank.
#[derive(Debug, Clone, Copy, PartialEq, Eq, Structural)]
pub enum GPR {
    R0,
    R1,
    R2,
    R3,
    R4,
    R5,
    R6,
    R7,
}

impl GPR {
    /// The number of the register within its bank.
    pub open spec fn index(self) -> u8 {
        match self {
            GPR::R0 => 0,
            GPR::R1 => 1,
            GPR::R2 => 2,
            GPR::R3 => 3,
            GPR::R4 => 4,
            GPR::R5 => 5,
            GPR::R6 => 6,
            GPR::R7 => 7,
        }
    }

    /// The register that the low three bits of `op` select, as the opcodes of
    /// the register instructions encode it.
    pub fn select(op: u8) -> (r: GPR)
        ensures
            r.index() == op % 8,
    {
        match op % 8 {
            0 => GPR::R0,
            1 => GPR::R1,
            2 => GPR::R2,
            3 => GPR::R3,
            4 => GPR::R4,
            5 => GPR::R5,
            6 => GPR::R6,
            _ => GPR::R7,
        }
    }

    /// The address of the register in bank 0.
    pub fn addr(self) -> (r: Addr8)
        ensures
            r@ == self.index(),
    {
        Addr8::new(
            match self {
                GPR::R0 => 0,
                GPR::R1 => 1,
                GPR::R2 => 2,
                GPR::R3 => 3,
                GPR::R4 => 4,
                GPR::R5 => 5,
                GPR::R6 => 6,
                GPR::R7 => 7,
            },
        )
    }
}

} // verus!
