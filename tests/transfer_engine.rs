use hs_probe::dma::{arrived_since, Direction, DmaOp, Peripheral, DMA};

#[test]
fn setup_wires_streams_and_is_repeatable() {
    let mut d = DMA::new();
    d.setup();
    let rx = d.spi_rx_config.unwrap();
    assert_eq!((rx.channel, rx.peripheral, rx.direction, rx.circular), (2, Peripheral::Spi5, Direction::PeripheralToMemory, false));
    let tx = d.spi_tx_config.unwrap();
    assert_eq!(tx.direction, Direction::MemoryToPeripheral);
    assert!(rx.byte_transfers && rx.memory_increment && !rx.peripheral_increment && rx.high_priority);
    let u = d.uart_rx_config.unwrap();
    assert_eq!((u.channel, u.peripheral, u.circular), (4, Peripheral::Uart5, true));
    let first = (d.spi_rx_config, d.spi_tx_config, d.uart_rx_config, d.usart_rx_config, d.usart_tx_config);
    d.setup();
    assert_eq!(first, (d.spi_rx_config, d.spi_tx_config, d.uart_rx_config, d.usart_rx_config, d.usart_tx_config));
}

#[test]
fn duplex_transfer_step_by_step() {
    let mut d = DMA::new();
    d.setup();
    let wiring = (d.spi_rx_config, d.spi_tx_config, d.uart_rx_config);
    d.spi5_enable(&[1, 2, 3], vec![0; 3]);
    assert_eq!(
        d.ops,
        vec![
            DmaOp::ClearSpiRxFlags,
            DmaOp::ClearSpiTxFlags,
            DmaOp::SpiRxLength(3),
            DmaOp::SpiTxLength(3),
            DmaOp::EnableSpiRx,
            DmaOp::EnableSpiTx
        ]
    );
    assert!(d.spi5_busy());
    assert_eq!(d.spi5_clock_byte(0xA0), Some(1));
    assert_eq!(d.spi5_clock_byte(0xA1), Some(2));
    assert!(d.spi5_busy());
    assert_eq!(d.spi5_clock_byte(0xA2), Some(3));
    assert!(!d.spi5_busy());
    assert_eq!(d.spi5_disable(), vec![0xA0, 0xA1, 0xA2]);
    assert!(!d.spi_enabled);
    assert_eq!(&d.ops[6..], &[DmaOp::DisableSpiRx, DmaOp::DisableSpiTx]);
    assert_eq!(wiring, (d.spi_rx_config, d.spi_tx_config, d.uart_rx_config));
}

#[test]
fn duplex_transfer_with_unequal_lengths() {
    let mut d = DMA::new();
    d.setup();
    d.spi5_enable(&[7], vec![0; 2]);
    assert_eq!(&d.ops[2..4], &[DmaOp::SpiRxLength(2), DmaOp::SpiTxLength(1)]);
    assert_eq!(d.spi5_clock_byte(0x11), Some(7));
    assert!(d.spi5_busy());
    assert_eq!(d.spi5_clock_byte(0x22), None);
    assert!(!d.spi5_busy());
    assert_eq!(d.spi5_disable(), vec![0x11, 0x22]);
    let mut e = DMA::new();
    e.spi5_enable(&[1, 2, 3], vec![0; 1]);
    assert_eq!(e.spi5_clock_byte(0x33), Some(1));
    assert!(!e.spi5_busy());
    assert_eq!(e.spi_tx_done, 1);
}

#[test]
fn bulk_exchange_returns_exactly_the_clocked_bytes() {
    let device: Vec<u8> = (0..64).map(|i| (i * 7 + 3) as u8).collect();
    let tx: Vec<u8> = (0..64).map(|i| i as u8).collect();
    for n in [0usize, 1, 17, 63, 64] {
        let mut d = DMA::new();
        d.setup();
        let rx = d.spi5_exchange(&tx[..n], &device);
        assert_eq!(rx.len(), n);
        assert_eq!(&rx[..], &device[..n]);
        assert!(!d.spi_enabled);
    }
}

#[test]
fn continuous_receive_counts_down_and_wraps() {
    let mut d = DMA::new();
    d.setup();
    let wiring = d.uart_rx_config;
    d.uart5_start(vec![0; 8]);
    assert_eq!(d.ops, vec![DmaOp::ClearUartFlags, DmaOp::UartLength(8), DmaOp::EnableUart]);
    assert_eq!(d.uart_rx_config, wiring);
    assert!(d.uart_rx_config.unwrap().circular);
    assert_eq!(d.uart5_ndtr(), 8);
    for k in 1..8u8 {
        d.uart5_receive_byte(k);
        assert_eq!(d.uart5_ndtr(), 8 - k as usize);
    }
    d.uart5_receive_byte(8);
    assert_eq!(d.uart5_ndtr(), 8);
    d.uart5_receive_byte(9);
    d.uart5_receive_byte(10);
    assert_eq!(d.uart5_ndtr(), 6);
    let buf = d.uart5_stop();
    assert_eq!(buf, vec![9, 10, 3, 4, 5, 6, 7, 8]);
    assert!(!d.uart_enabled);
    assert_eq!(d.ops.last(), Some(&DmaOp::DisableUart));
    assert_eq!(d.uart_rx_config, wiring);
}

#[test]
fn arrived_count_across_wraparound() {
    assert_eq!(arrived_since(8, 0, 8), 0);
    assert_eq!(arrived_since(8, 0, 5), 3);
    assert_eq!(arrived_since(8, 6, 6), 4);
    assert_eq!(arrived_since(8, 6, 2), 0);
    assert_eq!(arrived_since(8, 7, 8), 1);
    let mut d = DMA::new();
    d.uart5_start(vec![0; 8]);
    for b in 0..6u8 {
        d.uart5_receive_byte(b);
    }
    let cursor = 8 - d.uart5_ndtr();
    for b in 0..5u8 {
        d.uart5_receive_byte(b);
    }
    assert_eq!(arrived_since(8, cursor, d.uart5_ndtr()), 5);
}
