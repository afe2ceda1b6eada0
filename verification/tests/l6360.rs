use std::convert::Infallible;

use iol::l6360::{
    Config, ControlRegister1, CqOutputStageConfiguration, EN_CGQ_CQ_PullDown, Error, Led, L6360,
};

fn transceiver(address: u8, config: Config) -> L6360 {
    match L6360::new::<Infallible>(address, config) {
        Ok(transceiver) => transceiver,
        Err(error) => panic!("L6360::new returned err: {:?}, with address: {:?}", error, address),
    }
}

#[test]
fn test_new() {
    for address in 0..=255 {
        let config = Config::default();
        let result = L6360::new::<Infallible>(address, config);
        if address < 0b0_1100_000 || address > 0b0_1100_111 {
            assert!(result.is_err(), "L6360::new returned ok, with address: {:?}", address);
            assert!(matches!(result, Err(Error::Invalid7bitAddress)));
        } else {
            assert!(
                result.is_ok(),
                "L6360::new returned err: {:?}, with address: {:?}",
                result.err().unwrap(),
                address
            );
            assert_eq!(result.ok().unwrap().address(), address);
        }
    }
}

#[test]
fn test_init() {
    let en_cgq_cq_pulldown = &[
        //setting                        //expectation
        (EN_CGQ_CQ_PullDown::OFF, 0b0010_0001u8),
        (EN_CGQ_CQ_PullDown::ON_IfEnCq0, 0b1010_0001u8),
    ];

    for (en_cgq_cq_pulldown, reg_value) in en_cgq_cq_pulldown.iter() {
        let i2c_address = 0b0_1100_111;
        let config =
            Config { control_register_1: ControlRegister1 { en_cgq_cq_pulldown: *en_cgq_cq_pulldown } };

        let l6360 = transceiver(i2c_address, config);
        assert_eq!(l6360.address(), i2c_address);
        let bytes = l6360.init();
        assert_eq!(bytes.len(), 2);
        assert_eq!(bytes[0], *reg_value);
        // We only care for the register address here.
        assert_eq!(bytes[1] & 0b0000_1111, 0b0010);
    }
}

#[test]
fn init_frames_are_exact() {
    let off = transceiver(0b0_1100_000, Config::default());
    assert_eq!(off.init(), [0x21, 0xC2]);
    let on = transceiver(
        0b0_1100_000,
        Config {
            control_register_1: ControlRegister1 {
                en_cgq_cq_pulldown: EN_CGQ_CQ_PullDown::ON_IfEnCq0,
            },
        },
    );
    assert_eq!(on.init(), [0xA1, 0xA2]);
}

#[test]
fn default_config_has_pulldown_off() {
    let config = Config::default();
    assert_eq!(config.control_register_1.en_cgq_cq_pulldown, EN_CGQ_CQ_PullDown::OFF);
}

#[test]
fn test_set_led_pattern() {
    let test_cases: &[(
        // input                          // expect
        u8,
        Led,
        u16,
        u8,
        u8,
        u8,
        u8,
    )] = &[
        // i2c_address,  led,       pattern, write_byte_00, write_byte_10, write_byte_01, write_byte_11
        (0b0_1100_101, Led::LED1, 0x0000, 0x00, 0x04, 0x00, 0x05),
        (0b0_1100_111, Led::LED2, 0x0000, 0x00, 0x06, 0x00, 0x07),
        (0b0_1100_000, Led::LED1, 0x55AA, 0x55, 0x04, 0xAA, 0x05),
        (0b0_1100_001, Led::LED2, 0x1234, 0x12, 0xC6, 0x34, 0x67),
    ];

    let mut test_cnt = 0;
    for (i2c_address, led, pattern, write_byte_00, write_byte_10, write_byte_01, write_byte_11) in
        test_cases
    {
        println!("test_cnt: {:?}", test_cnt);
        test_cnt += 1;

        let l63601 = transceiver(*i2c_address, Config::default());
        assert_eq!(l63601.address(), *i2c_address);
        let frames = l63601.set_led_pattern(*led, *pattern);
        assert_eq!(frames.len(), 2);
        assert_eq!(frames[0].len(), 2);
        assert_eq!(frames[0][0], *write_byte_00);
        assert_eq!(frames[0][1], *write_byte_10);
        assert_eq!(frames[1].len(), 2);
        assert_eq!(frames[1][0], *write_byte_01);
        assert_eq!(frames[1][1], *write_byte_11);
    }
}

#[test]
fn test_calculate_parity() {
    let test_cases: &[(u8, u8)] = &[
        // all on or off
        (0b0000_0000, 0b000),
        (0b1111_1111, 0b000),
        // alternating
        (0b1010_1010, 0b000),
        (0b0101_0101, 0b000),
        // one bit
        (0b0000_0001, 0b101),
        (0b0000_0010, 0b011),
        (0b0000_0100, 0b101),
        (0b0000_1000, 0b011),
        (0b0001_0000, 0b101),
        (0b0010_0000, 0b011),
        (0b0100_0000, 0b101),
        (0b1000_0000, 0b011),
        // random
        (0b1001_0101, 0b110),
        (0b0011_0010, 0b101),
    ];

    println!("|    data    | expected |");
    println!("|:----------:|:--------:|");
    for (data, expected) in test_cases {
        println!("| 0b{:08b} |   0b{:03b}  |", data, expected);
        assert_eq!(L6360::calculate_parity(*data), *expected);
    }
}

#[test]
fn write_register_checks_the_address() {
    for register_address in 0..=255u8 {
        let frame = L6360::write_register::<Infallible>(register_address, 0x34);
        if register_address <= 0b1000 {
            assert_eq!(frame.ok().unwrap(), [0x34, 0x60 | register_address]);
        } else {
            assert!(matches!(frame, Err(Error::InvalidRegisterAddress)));
        }
    }
}

#[test]
fn read_register_random_checks_the_address() {
    for register_address in 0..=255u8 {
        let frame = L6360::read_register_random::<Infallible>(register_address);
        if register_address <= 0b1000 {
            assert_eq!(frame.ok().unwrap(), [register_address]);
        } else {
            assert!(matches!(frame, Err(Error::InvalidRegisterAddress)));
        }
    }
}

#[test]
fn output_stage_numbers() {
    let all = [
        (CqOutputStageConfiguration::OFF, 0b000u8),
        (CqOutputStageConfiguration::LowSide, 0b001),
        (CqOutputStageConfiguration::HighSide, 0b010),
        (CqOutputStageConfiguration::PushPull, 0b011),
        (CqOutputStageConfiguration::TriState, 0b100),
        (CqOutputStageConfiguration::LowSideON, 0b101),
        (CqOutputStageConfiguration::HighSideON, 0b110),
    ];
    for (configuration, number) in all {
        assert_eq!(configuration.bits(), number);
        assert_eq!(CqOutputStageConfiguration::try_from_primitive(number), Ok(configuration));
    }
    for number in 7..=255u8 {
        assert_eq!(CqOutputStageConfiguration::try_from_primitive(number), Err(number));
    }
}

#[test]
fn passive_output_stage_is_set_at_once() {
    let l6360 = transceiver(0b0_1100_000, Config::default());
    // OFF, with other bits of the register set
    let frames = l6360.set_cq_out_stage_configuration(0b000_10101, CqOutputStageConfiguration::PushPull);
    assert_eq!(frames, vec![[0x60, 0xC1]]);
    // TriState
    let frames = l6360.set_cq_out_stage_configuration(0b100_00000, CqOutputStageConfiguration::LowSide);
    assert_eq!(frames, vec![[0x20, 0x61]]);
}

#[test]
fn driving_output_stage_is_switched_off_first() {
    let l6360 = transceiver(0b0_1100_000, Config::default());
    for stage in [0b001u8, 0b010, 0b011, 0b101, 0b110] {
        let frames =
            l6360.set_cq_out_stage_configuration(stage << 5, CqOutputStageConfiguration::PushPull);
        assert_eq!(frames, vec![[0x00, 0x01], [0x60, 0xC1]]);
    }
    let frames = l6360.set_cq_out_stage_configuration(0b011_00000, CqOutputStageConfiguration::OFF);
    assert_eq!(frames, vec![[0x00, 0x01], [0x00, 0x01]]);
    let frames =
        l6360.set_cq_out_stage_configuration(0b110_11111, CqOutputStageConfiguration::HighSideON);
    assert_eq!(frames, vec![[0x00, 0x01], [0xC0, 0xC1]]);
}
