//! The L6360 transceiver: what has to go over its I2C bus to set it up, to
//! configure the output stage of the C/Q line and to set the LED patterns.
//!
//! The functions here compose and check the octets. A driver that owns the
//! bus writes them and reads the answers.

use vstd::prelude::*;

verus! {

/// Lowest and highest bus address that the pins of the chip can select.
pub const ADDRESS_MIN: u8 = 0b0_1100_000;

pub const ADDRESS_MAX: u8 = 0b0_1100_111;

/// Highest address of a register.
pub const REGISTER_ADDRESS_MAX: u8 = 0b1000;

/// Address of the configuration register.
pub const CONFIG_REGISTER_ADDRESS: u8 = 0b0001;

/// Address of the control register 1.
pub const CONTROL_REGISTER_1_ADDRESS: u8 = 0b0010;

/// Position of the output stage configuration in the configuration
/// register.
pub const CQ_OUTPUT_STAGE_SHIFT: u8 = 5;

/// Pull-down on the C/Q line.
#[allow(non_camel_case_types)]
#[derive(Clone, Copy, Debug, PartialEq, Eq, Structural)]
pub enum EN_CGQ_CQ_PullDown {
    OFF,
    ON_IfEnCq0,
}

pub struct ControlRegister1 {
    pub en_cgq_cq_pulldown: EN_CGQ_CQ_PullDown,
}

/// Configuration of the output stage of the C/Q line.
#[derive(Clone, Copy, Debug, PartialEq, Eq, Structural)]
pub enum CqOutputStageConfiguration {
    OFF,
    LowSide,
    HighSide,
    PushPull,
    TriState,
    LowSideON,
    HighSideON,
}

pub struct Config {
    pub control_register_1: ControlRegister1,
}

#[derive(Clone, Copy, Debug, PartialEq, Eq, Structural)]
pub enum Led {
    LED1,
    LED2,
}

#[derive(Debug)]
pub enum Error<I2cError> {
    Invalid7bitAddress,
    InvalidRegisterAddress,
    I2cError(I2cError),
}

impl Default for Config {
    /// The configuration with the pull-down off.
    fn default() -> (config: Self)
        ensures
            config.control_register_1.en_cgq_cq_pulldown == EN_CGQ_CQ_PullDown::OFF,
    {
        Self { control_register_1: ControlRegister1 { en_cgq_cq_pulldown: EN_CGQ_CQ_PullDown::OFF } }
    }
}

impl CqOutputStageConfiguration {
    /// The three-bit number of this configuration in the register.
    pub open spec fn code(self) -> u8 {
        match self {
            CqOutputStageConfiguration::OFF => 0b000,
            CqOutputStageConfiguration::LowSide => 0b001,
            CqOutputStageConfiguration::HighSide => 0b010,
            CqOutputStageConfiguration::PushPull => 0b011,
            CqOutputStageConfiguration::TriState => 0b100,
            CqOutputStageConfiguration::LowSideON => 0b101,
            CqOutputStageConfiguration::HighSideON => 0b110,
        }
    }

    /// The three-bit number of this configuration in the register.
    pub fn bits(self) -> (b: u8)
        ensures
            b == self.code(),
    {
        match self {
            CqOutputStageConfiguration::OFF => 0b000,
            CqOutputStageConfiguration::LowSide => 0b001,
            CqOutputStageConfiguration::HighSide => 0b010,
            CqOutputStageConfiguration::PushPull => 0b011,
            CqOutputStageConfiguration::TriState => 0b100,
            CqOutputStageConfiguration::LowSideON => 0b101,
            CqOutputStageConfiguration::HighSideON => 0b110,
        }
    }

    /// The configuration with the given number. Every number up to 6 has
    /// one; any other comes back as the error.
    pub fn try_from_primitive(number: u8) -> (configuration: Result<Self, u8>)
        ensures
            number <= 6 ==> configuration is Ok && configuration->Ok_0.code() == number,
            number > 6 ==> configuration == Err::<Self, u8>(number),
    {
        match number {
            0b000 => Ok(CqOutputStageConfiguration::OFF),
            0b001 => Ok(CqOutputStageConfiguration::LowSide),
            0b010 => Ok(CqOutputStageConfiguration::HighSide),
            0b011 => Ok(CqOutputStageConfiguration::PushPull),
            0b100 => Ok(CqOutputStageConfiguration::TriState),
            0b101 => Ok(CqOutputStageConfiguration::LowSideON),
            0b110 => Ok(CqOutputStageConfiguration::HighSideON),
            _ => Err(number),
        }
    }

    /// Whether the output stage drives nothing in this configuration, so
    /// that it can be set to another at once.
    pub open spec fn is_passive(self) -> bool {
        self == CqOutputStageConfiguration::OFF || self == CqOutputStageConfiguration::TriState
    }
}

/// Bit `n` of `data`, as 0 or 1.
pub open spec fn bit(data: u8, n: u8) -> u8 {
    (data >> n) & 1
}

/// The three parity bits that go with a data octet: bit 2 over the even
/// bits of the octet, bit 1 over its odd bits, bit 0 over all of them.
pub open spec fn parity(data: u8) -> u8 {
    let even = bit(data, 6) ^ bit(data, 4) ^ bit(data, 2) ^ bit(data, 0);
    let odd = bit(data, 7) ^ bit(data, 5) ^ bit(data, 3) ^ bit(data, 1);
    (even << 2) | (odd << 1) | (even ^ odd)
}

/// The two octets that write `data` to the register at `register_address`:
/// the data, then the parity in the top three bits over the address.
pub open spec fn register_frame(register_address: u8, data: u8) -> Seq<u8> {
    seq![data, (parity(data) << 5) | register_address]
}

/// The data of control register 1 for a configuration.
pub open spec fn control_register_1_data(config: Config) -> u8 {
    if config.control_register_1.en_cgq_cq_pulldown == EN_CGQ_CQ_PullDown::ON_IfEnCq0 {
        0b1010_0001
    } else {
        0b0010_0001
    }
}

/// The first of the two registers that hold the pattern of an LED.
pub open spec fn led_register(led: Led) -> u8 {
    match led {
        Led::LED1 => 0b0100,
        Led::LED2 => 0b0110,
    }
}

/// The values to write to the configuration register, in order, to bring
/// the output stage to `config` when the register reads `current`: an
/// output stage that drives the line is switched off first.
pub open spec fn cq_out_stage_values(current: u8, config: CqOutputStageConfiguration) -> Seq<u8> {
    let stage = current >> CQ_OUTPUT_STAGE_SHIFT;
    let target = config.code() << CQ_OUTPUT_STAGE_SHIFT;
    if stage == CqOutputStageConfiguration::OFF.code() || stage
        == CqOutputStageConfiguration::TriState.code() {
        seq![target]
    } else {
        seq![CqOutputStageConfiguration::OFF.code(), target]
    }
}

/// The transceiver at one bus address, with its configuration.
pub struct L6360 {
    address_7bit: u8,
    config: Config,
}

impl L6360 {
    pub closed spec fn address_7bit(self) -> u8 {
        self.address_7bit
    }

    pub closed spec fn config(self) -> Config {
        self.config
    }

    #[verifier::type_invariant]
    spec fn well_formed(self) -> bool {
        ADDRESS_MIN <= self.address_7bit <= ADDRESS_MAX
    }

    /// The transceiver at `address_7bit`. The address must be one that the
    /// chip can have.
    pub fn new<I2cError>(address_7bit: u8, config: Config) -> (transceiver: Result<
        Self,
        Error<I2cError>,
    >)
        ensures
            ADDRESS_MIN <= address_7bit <= ADDRESS_MAX ==> transceiver is Ok
                && transceiver->Ok_0.address_7bit() == address_7bit && transceiver->Ok_0.config()
                == config,
            !(ADDRESS_MIN <= address_7bit <= ADDRESS_MAX) ==> transceiver is Err
                && transceiver->Err_0 is Invalid7bitAddress,
    {
        if address_7bit < ADDRESS_MIN || address_7bit > ADDRESS_MAX {
            return Err(Error::Invalid7bitAddress);
        }
        Ok(Self { address_7bit, config })
    }

    /// The bus address of the chip, which lies in the range that its pins
    /// can select.
    pub fn address(&self) -> (address: u8)
        ensures
            address == self.address_7bit(),
            ADDRESS_MIN <= address <= ADDRESS_MAX,
    {
        proof {
            use_type_invariant(self);
        }
        self.address_7bit
    }

    /// The octets to write at start-up: control register 1 as configured.
    pub fn init(&self) -> (frame: [u8; 2])
        ensures
            frame@ == register_frame(
                CONTROL_REGISTER_1_ADDRESS,
                control_register_1_data(self.config()),
            ),
    {
        self.init_control_register_1()
    }

    fn init_control_register_1(&self) -> (frame: [u8; 2])
        ensures
            frame@ == register_frame(
                CONTROL_REGISTER_1_ADDRESS,
                control_register_1_data(self.config()),
            ),
    {
        let data: u8 = match self.config.control_register_1.en_cgq_cq_pulldown {
            EN_CGQ_CQ_PullDown::ON_IfEnCq0 => 0b1010_0001,
            EN_CGQ_CQ_PullDown::OFF => 0b0010_0001,
        };
        Self::frame(CONTROL_REGISTER_1_ADDRESS, data)
    }

    /// The octets to write, in order, to bring the output stage of the C/Q
    /// line to `config`, given what the configuration register reads now.
    /// The register must hold the number of a configuration.
    pub fn set_cq_out_stage_configuration(
        &self,
        current_register_value: u8,
        config: CqOutputStageConfiguration,
    ) -> (frames: Vec<[u8; 2]>)
        requires
            current_register_value >> CQ_OUTPUT_STAGE_SHIFT <= 6,
        ensures
            frames@.len() == cq_out_stage_values(current_register_value, config).len(),
            forall|i: int|
                0 <= i < frames@.len() ==> (#[trigger] frames@[i])@ == register_frame(
                    CONFIG_REGISTER_ADDRESS,
                    cq_out_stage_values(current_register_value, config)[i],
                ),
    {
        let mut frames: Vec<[u8; 2]> = Vec::new();
        let stage: u8 = current_register_value >> CQ_OUTPUT_STAGE_SHIFT;
        let current = match CqOutputStageConfiguration::try_from_primitive(stage) {
            Ok(current) => current,
            Err(_) => CqOutputStageConfiguration::OFF,
        };
        match current {
            CqOutputStageConfiguration::OFF | CqOutputStageConfiguration::TriState => (),
            CqOutputStageConfiguration::LowSide
            | CqOutputStageConfiguration::HighSide
            | CqOutputStageConfiguration::PushPull
            | CqOutputStageConfiguration::LowSideON
            | CqOutputStageConfiguration::HighSideON => {
                frames.push(
                    Self::frame(CONFIG_REGISTER_ADDRESS, CqOutputStageConfiguration::OFF.bits()),
                );
            },
        }
        let register_value: u8 = config.bits() << CQ_OUTPUT_STAGE_SHIFT;
        frames.push(Self::frame(CONFIG_REGISTER_ADDRESS, register_value));
        frames
    }

    /// The octets to write to set the blink pattern of `led`: the high
    /// octet of the pattern to the first register of the LED, then the low
    /// octet to the second.
    pub fn set_led_pattern(&self, led: Led, pattern: u16) -> (frames: [[u8; 2]; 2])
        ensures
            frames@[0]@ == register_frame(led_register(led), (pattern >> 8) as u8),
            frames@[1]@ == register_frame((led_register(led) + 1) as u8, (pattern & 0xff) as u8),
    {
        let msb: u8 = (pattern >> 8) as u8;
        let lsb: u8 = (pattern & 0xff) as u8;
        let reg_addr_start: u8 = match led {
            Led::LED1 => 0b0100,
            Led::LED2 => 0b0110,
        };
        [Self::frame(reg_addr_start, msb), Self::frame(reg_addr_start + 1, lsb)]
    }

    /// The octets that write `data` to the register at `register_address`,
    /// if there is such a register.
    pub fn write_register<I2cError>(register_address: u8, data: u8) -> (frame: Result<
        [u8; 2],
        Error<I2cError>,
    >)
        ensures
            register_address <= REGISTER_ADDRESS_MAX ==> frame is Ok && frame->Ok_0@
                == register_frame(register_address, data),
            register_address > REGISTER_ADDRESS_MAX ==> frame is Err
                && frame->Err_0 is InvalidRegisterAddress,
    {
        if register_address > REGISTER_ADDRESS_MAX {
            return Err(Error::InvalidRegisterAddress);
        }
        Ok(Self::frame(register_address, data))
    }

    /// The octet to write before one octet is read from the register at
    /// `register_address`, if there is such a register.
    pub fn read_register_random<I2cError>(register_address: u8) -> (frame: Result<
        [u8; 1],
        Error<I2cError>,
    >)
        ensures
            register_address <= REGISTER_ADDRESS_MAX ==> frame is Ok && frame->Ok_0@
                == seq![register_address],
            register_address > REGISTER_ADDRESS_MAX ==> frame is Err
                && frame->Err_0 is InvalidRegisterAddress,
    {
        if register_address > REGISTER_ADDRESS_MAX {
            return Err(Error::InvalidRegisterAddress);
        }
        Ok([register_address])
    }

    fn frame(register_address: u8, data: u8) -> (frame: [u8; 2])
        requires
            register_address <= REGISTER_ADDRESS_MAX,
        ensures
            frame@ == register_frame(register_address, data),
    {
        let parity: u8 = Self::calculate_parity(data);
        let parity_and_reg_addr: u8 = (parity << 5) | register_address;
        [data, parity_and_reg_addr]
    }

    /// The three parity bits that go with a data octet.
    pub fn calculate_parity(data: u8) -> (p: u8)
        ensures
            p == parity(data),
    {
        let d0: u8 = (data >> 0) & 1;
        let d1: u8 = (data >> 1) & 1;
        let d2: u8 = (data >> 2) & 1;
        let d3: u8 = (data >> 3) & 1;
        let d4: u8 = (data >> 4) & 1;
        let d5: u8 = (data >> 5) & 1;
        let d6: u8 = (data >> 6) & 1;
        let d7: u8 = (data >> 7) & 1;

        let all: u8 = d7 ^ d6 ^ d5 ^ d4 ^ d3 ^ d2 ^ d1 ^ d0;
        let odd: u8 = d7 ^ d5 ^ d3 ^ d1;
        let even: u8 = d6 ^ d4 ^ d2 ^ d0;

        assert(all == even ^ odd) by (bit_vector)
            requires
                all == d7 ^ d6 ^ d5 ^ d4 ^ d3 ^ d2 ^ d1 ^ d0,
                odd == d7 ^ d5 ^ d3 ^ d1,
                even == d6 ^ d4 ^ d2 ^ d0,
        ;
        (even << 2) | (odd << 1) | all
    }
}

/// The parity has three bits. Its lowest bit makes the number of ones in
/// the data octet and that bit even, and its upper bits do the same for the
/// odd and for the even bits of the octet.
pub proof fn lemma_parity_bits(data: u8)
    ensures
        parity(data) < 8,
        bit(parity(data), 2) == bit(data, 6) ^ bit(data, 4) ^ bit(data, 2) ^ bit(data, 0),
        bit(parity(data), 1) == bit(data, 7) ^ bit(data, 5) ^ bit(data, 3) ^ bit(data, 1),
        bit(parity(data), 0) == bit(data, 7) ^ bit(data, 6) ^ bit(data, 5) ^ bit(data, 4) ^ bit(
            data,
            3,
        ) ^ bit(data, 2) ^ bit(data, 1) ^ bit(data, 0),
{
    assert(parity(data) < 8 && bit(parity(data), 2) == bit(data, 6) ^ bit(data, 4) ^ bit(data, 2)
        ^ bit(data, 0) && bit(parity(data), 1) == bit(data, 7) ^ bit(data, 5) ^ bit(data, 3) ^ bit(
        data,
        1,
    ) && bit(parity(data), 0) == bit(data, 7) ^ bit(data, 6) ^ bit(data, 5) ^ bit(data, 4) ^ bit(
        data,
        3,
    ) ^ bit(data, 2) ^ bit(data, 1) ^ bit(data, 0)) by (bit_vector);
}

} // verus!
