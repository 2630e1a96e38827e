//! Command codes of the SSD1306 and the fixed power-up configuration.
use vstd::prelude::*;

verus! {

/// Named commands of the controller, after section 9 of its datasheet.
#[allow(non_camel_case_types)]
#[derive(Clone, Copy, Debug, PartialEq, Eq, Structural)]
pub enum Commands {
    DISPLAY_ON_RESUME_RAM,
    DISPLAY_ON_IGNORE_RAM,
    DISPLAY_NORMAL,
    DISPLAY_INVERSE,
    DISPLAY_OFF,
    DISPLAY_ON,
    SET_DISPLAY_CLK_FREQ,
    SEG_REMAP_NORMAL,
    SEG_REMAP_REVERSE,
    COMOUT_SCAN_NORMAL,
    COMOUT_SCAN_REVERSE,
    SET_COM_PIN,
    SET_DISPLAY_OFFSET,
    SET_PRECHARGE,
    SET_MULTIPLEX,
    SET_VCOMH_LEVEL,
    SET_MEM_ADDRESS_MODE,
    SET_COLUMN_ADDRESS,
    SET_PAGE_ADDRESS,
    SET_START_LINE,
    DEACTIVATE_SCROLL,
    ACTIVATE_SCROLL,
    SET_CONTRAST_CONTROL_BANK0,
    SET_CHARGE_PUMP,
    ENABLE_CHARGE_PUMP,
    SET_PAGE_START_0,
    SET_PAGE_START_1,
    SET_PAGE_START_2,
    SET_PAGE_START_3,
    SET_PAGE_START_4,
    SET_PAGE_START_5,
    SET_PAGE_START_6,
    SET_PAGE_START_7,
}

impl Commands {
    /// The byte that stands for this command on the bus.
    pub open spec fn spec_code(self) -> u8 {
        match self {
            Commands::DISPLAY_ON_RESUME_RAM => 0xA4,
            Commands::DISPLAY_ON_IGNORE_RAM => 0xA5,
            Commands::DISPLAY_NORMAL => 0xA6,
            Commands::DISPLAY_INVERSE => 0xA7,
            Commands::DISPLAY_OFF => 0xAE,
            Commands::DISPLAY_ON => 0xAF,
            Commands::SET_DISPLAY_CLK_FREQ => 0xD5,
            Commands::SEG_REMAP_NORMAL => 0xA0,
            Commands::SEG_REMAP_REVERSE => 0xA1,
            Commands::COMOUT_SCAN_NORMAL => 0xC0,
            Commands::COMOUT_SCAN_REVERSE => 0xC8,
            Commands::SET_COM_PIN => 0xDA,
            Commands::SET_DISPLAY_OFFSET => 0xD3,
            Commands::SET_PRECHARGE => 0xD9,
            Commands::SET_MULTIPLEX => 0xA8,
            Commands::SET_VCOMH_LEVEL => 0xDB,
            Commands::SET_MEM_ADDRESS_MODE => 0x20,
            Commands::SET_COLUMN_ADDRESS => 0x21,
            Commands::SET_PAGE_ADDRESS => 0x22,
            Commands::SET_START_LINE => 0x40,
            Commands::DEACTIVATE_SCROLL => 0x2E,
            Commands::ACTIVATE_SCROLL => 0x2F,
            Commands::SET_CONTRAST_CONTROL_BANK0 => 0x81,
            Commands::SET_CHARGE_PUMP => 0x8D,
            Commands::ENABLE_CHARGE_PUMP => 0x14,
            Commands::SET_PAGE_START_0 => 0xB0,
            Commands::SET_PAGE_START_1 => 0xB1,
            Commands::SET_PAGE_START_2 => 0xB2,
            Commands::SET_PAGE_START_3 => 0xB3,
            Commands::SET_PAGE_START_4 => 0xB4,
            Commands::SET_PAGE_START_5 => 0xB5,
            Commands::SET_PAGE_START_6 => 0xB6,
            Commands::SET_PAGE_START_7 => 0xB7,
        }
    }

    /// The byte that stands for this command on the bus.
    #[verifier::when_used_as_spec(spec_code)]
    pub fn code(self) -> (byte: u8)
        ensures
            byte == self.spec_code(),
    {
        match self {
            Commands::DISPLAY_ON_RESUME_RAM => 0xA4,
            Commands::DISPLAY_ON_IGNORE_RAM => 0xA5,
            Commands::DISPLAY_NORMAL => 0xA6,
            Commands::DISPLAY_INVERSE => 0xA7,
            Commands::DISPLAY_OFF => 0xAE,
            Commands::DISPLAY_ON => 0xAF,
            Commands::SET_DISPLAY_CLK_FREQ => 0xD5,
            Commands::SEG_REMAP_NORMAL => 0xA0,
            Commands::SEG_REMAP_REVERSE => 0xA1,
            Commands::COMOUT_SCAN_NORMAL => 0xC0,
            Commands::COMOUT_SCAN_REVERSE => 0xC8,
            Commands::SET_COM_PIN => 0xDA,
            Commands::SET_DISPLAY_OFFSET => 0xD3,
            Commands::SET_PRECHARGE => 0xD9,
            Commands::SET_MULTIPLEX => 0xA8,
            Commands::SET_VCOMH_LEVEL => 0xDB,
            Commands::SET_MEM_ADDRESS_MODE => 0x20,
            Commands::SET_COLUMN_ADDRESS => 0x21,
            Commands::SET_PAGE_ADDRESS => 0x22,
            Commands::SET_START_LINE => 0x40,
            Commands::DEACTIVATE_SCROLL => 0x2E,
            Commands::ACTIVATE_SCROLL => 0x2F,
            Commands::SET_CONTRAST_CONTROL_BANK0 => 0x81,
            Commands::SET_CHARGE_PUMP => 0x8D,
            Commands::ENABLE_CHARGE_PUMP => 0x14,
            Commands::SET_PAGE_START_0 => 0xB0,
            Commands::SET_PAGE_START_1 => 0xB1,
            Commands::SET_PAGE_START_2 => 0xB2,
            Commands::SET_PAGE_START_3 => 0xB3,
            Commands::SET_PAGE_START_4 => 0xB4,
            Commands::SET_PAGE_START_5 => 0xB5,
            Commands::SET_PAGE_START_6 => 0xB6,
            Commands::SET_PAGE_START_7 => 0xB7,
        }
    }
}

/// The power-up configuration, byte by byte, in the order in which the
/// controller has to receive it. A command that takes parameters is followed
/// directly by them; the column and the page address range each carry both
/// their first and their last address.
pub open spec fn config_bytes() -> Seq<u8> {
    seq![
        0xAEu8,
        0xD5, 0x80,
        0xA8, 0x3F,
        0xD3, 0x00,
        0x40,
        0x8D, 0x14,
        0x20, 0x00,
        0x21, 0x00, 0x7F,
        0x22, 0x00, 0x07,
        0xA1,
        0xC8,
        0xDA, 0x12,
        0x81, 0x9F,
        0xD9, 0xF1,
        0xDB, 0x20,
        0xA4,
        0xA6,
        0x2E,
        0xAF,
    ]
}

/// Builds the power-up configuration of [`config_bytes`].
pub fn config_sequence() -> (bytes: Vec<u8>)
    ensures
        bytes@ == config_bytes(),
{
    let mut bytes: Vec<u8> = Vec::new();
    bytes.push(Commands::DISPLAY_OFF.code());

    bytes.push(Commands::SET_DISPLAY_CLK_FREQ.code());
    bytes.push(0x80);

    bytes.push(Commands::SET_MULTIPLEX.code());
    bytes.push(0x3F);

    bytes.push(Commands::SET_DISPLAY_OFFSET.code());
    bytes.push(0x00);

    bytes.push(Commands::SET_START_LINE.code());

    bytes.push(Commands::SET_CHARGE_PUMP.code());
    bytes.push(Commands::ENABLE_CHARGE_PUMP.code());

    bytes.push(Commands::SET_MEM_ADDRESS_MODE.code());
    bytes.push(0x00);

    bytes.push(Commands::SET_COLUMN_ADDRESS.code());
    bytes.push(0x00);
    bytes.push(127);

    bytes.push(Commands::SET_PAGE_ADDRESS.code());
    bytes.push(0x00);
    bytes.push(7);

    bytes.push(Commands::SEG_REMAP_REVERSE.code());

    bytes.push(Commands::COMOUT_SCAN_REVERSE.code());

    bytes.push(Commands::SET_COM_PIN.code());
    bytes.push(0x12);

    bytes.push(Commands::SET_CONTRAST_CONTROL_BANK0.code());
    bytes.push(0x9F);

    bytes.push(Commands::SET_PRECHARGE.code());
    bytes.push(0xF1);

    bytes.push(Commands::SET_VCOMH_LEVEL.code());
    bytes.push(0x20);

    bytes.push(Commands::DISPLAY_ON_RESUME_RAM.code());
    bytes.push(Commands::DISPLAY_NORMAL.code());

    bytes.push(Commands::DEACTIVATE_SCROLL.code());

    bytes.push(Commands::DISPLAY_ON.code());
    assert(bytes@ =~= config_bytes());
    bytes
}

} // verus!
