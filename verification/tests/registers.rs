use embedded_hal::spi::{Phase, Polarity, MODE_0};
use nrf24l01::mode::mode;
use nrf24l01::status::{data_received, receive_fifo_empty, transmission_settled};
use nrf24l01::{bit, instruction, memory, MIRF_ADDR_LEN, MIRF_CONFIG};

#[test]
fn transmission_settles_on_sent_or_given_up() {
    assert!(transmission_settled(0x20));
    assert!(transmission_settled(0x10));
    assert!(transmission_settled(0x30));
    assert!(transmission_settled(0xFF));
    assert!(transmission_settled(0x2E));
    assert!(!transmission_settled(0x00));
    assert!(!transmission_settled(0x40));
    assert!(!transmission_settled(0x0E));
    assert!(!transmission_settled(0xCF));
}

#[test]
fn transmission_settles_exactly_where_bit_4_or_5_is_set() {
    for status in 0..=255u8 {
        let expected = (status >> 4) % 2 == 1 || (status >> 5) % 2 == 1;
        assert_eq!(transmission_settled(status), expected);
    }
}

#[test]
fn data_is_received_exactly_where_bit_6_is_set() {
    assert!(data_received(0x40));
    assert!(!data_received(0x3F));
    assert!(!data_received(0x80));
    for status in 0..=255u8 {
        assert_eq!(data_received(status), (status >> 6) % 2 == 1);
    }
}

#[test]
fn the_receive_fifo_is_empty_exactly_where_bit_0_is_set() {
    assert!(receive_fifo_empty(0x01));
    assert!(receive_fifo_empty(0x11));
    assert!(!receive_fifo_empty(0x00));
    assert!(!receive_fifo_empty(0xFE));
    for fifo_status in 0..=255u8 {
        assert_eq!(receive_fifo_empty(fifo_status), fifo_status % 2 == 1);
    }
}

#[test]
fn register_addresses_are_those_of_the_data_sheet() {
    assert_eq!(memory::CONFIG, 0x00);
    assert_eq!(memory::RF_CH, 0x05);
    assert_eq!(memory::STATUS, 0x07);
    assert_eq!(memory::RX_ADDR_P0, 0x0A);
    assert_eq!(memory::RX_ADDR_P1, 0x0B);
    assert_eq!(memory::TX_ADDR, 0x10);
    assert_eq!(memory::RX_PW_P0, 0x11);
    assert_eq!(memory::RX_PW_P1, 0x12);
    assert_eq!(memory::FIFO_STATUS, 0x17);
    assert_eq!(memory::DYN_PD, 0x1C);
    assert_eq!(memory::FEATURE, 0x1D);
}

#[test]
fn instructions_are_those_of_the_data_sheet() {
    assert_eq!(instruction::R_REGISTER, 0x00);
    assert_eq!(instruction::W_REGISTER, 0x20);
    assert_eq!(instruction::REGISTER_MASK, 0x1F);
    assert_eq!(instruction::R_RX_PL_WID, 0x60);
    assert_eq!(instruction::R_RX_PAYLOAD, 0x61);
    assert_eq!(instruction::W_TX_PAYLOAD, 0xA0);
    assert_eq!(instruction::FLUSH_TX, 0xE1);
    assert_eq!(instruction::FLUSH_RX, 0xE2);
}

#[test]
fn bit_positions_are_those_of_the_data_sheet() {
    assert_eq!(bit::EN_CRC, 3);
    assert_eq!(bit::CRCO, 2);
    assert_eq!(bit::PWR_UP, 1);
    assert_eq!(bit::PRIM_RX, 0);
    assert_eq!(bit::RX_DR, 6);
    assert_eq!(bit::TX_DS, 5);
    assert_eq!(bit::MAX_RT, 4);
    assert_eq!(bit::RX_EMPTY, 0);
    assert_eq!(bit::DPL_P0, 0);
    assert_eq!(bit::DPL_P1, 1);
    assert_eq!(bit::EN_DPL, 2);
}

#[test]
fn the_base_configuration_enables_a_one_byte_crc() {
    assert_eq!(MIRF_CONFIG, (1 << bit::EN_CRC) | (0 << bit::CRCO));
    assert_eq!(MIRF_CONFIG, 0x08);
    assert_eq!(MIRF_ADDR_LEN, 5);
}

#[test]
fn the_bus_mode_captures_on_the_first_edge_of_a_clock_that_idles_low() {
    assert!(mode().phase == Phase::CaptureOnFirstTransition);
    assert!(mode().polarity == Polarity::IdleLow);
    assert!(mode() == MODE_0);
}
