use ssd1306_oled::framebuffer::{
    locate, DisplayBuffer, CELL_OFFSET, DISPLAY_BUFFER_SZ, DISPLAY_RAM_SZ, PAGE_HEIGHT,
    PANEL_HEIGHT, PANEL_WIDTH,
};
use ssd1306_oled::i2c_support::BusRequest;
use ssd1306_oled::ssd1306::{ssd1306, Activity, BusEvent, DriverError, DriverState, OLED_ADDR};

/// A driver that has been brought up on a bus that accepts everything.
fn ready_driver() -> ssd1306 {
    let mut oled = ssd1306::get_struct(OLED_ADDR);
    oled.init().unwrap();
    flush(&mut oled);
    assert_eq!(oled.state(), DriverState::Ready);
    oled
}

/// Reports every outstanding request as delivered and hands them back.
fn flush(oled: &mut ssd1306) -> Vec<BusRequest> {
    let mut seen = Vec::new();
    while let Some(request) = oled.next_request() {
        seen.push(request.clone());
        oled.on_bus_event(BusEvent::Delivered).unwrap();
    }
    seen
}

#[test]
fn layout_constants() {
    assert_eq!(PANEL_WIDTH, 64);
    assert_eq!(PANEL_HEIGHT, 64);
    assert_eq!(PAGE_HEIGHT, 8);
    assert_eq!(CELL_OFFSET, 1);
    assert_eq!(DISPLAY_RAM_SZ, 1024);
    assert_eq!(DISPLAY_BUFFER_SZ, 1025);
    assert_eq!(OLED_ADDR, 0x3C);
}

#[test]
fn locate_maps_pixels_to_cell_and_bit() {
    assert_eq!(locate(0, 0), Some((1, 0x01)));
    assert_eq!(locate(0, 7), Some((1, 0x80)));
    assert_eq!(locate(0, 8), Some((65, 0x01)));
    assert_eq!(locate(5, 19), Some((5 + 2 * 64 + 1, 0x08)));
    assert_eq!(locate(63, 63), Some((63 + 7 * 64 + 1, 0x80)));
    assert_eq!(locate(10, 0), Some((11, 0x01)));
}

#[test]
fn locate_rejects_what_lies_outside_the_panel() {
    assert_eq!(locate(64, 0), None);
    assert_eq!(locate(0, 64), None);
    assert_eq!(locate(-1, 0), None);
    assert_eq!(locate(0, -1), None);
    assert_eq!(locate(i32::MAX, i32::MAX), None);
    assert_eq!(locate(i32::MIN, i32::MIN), None);
    assert_eq!(locate(127, 0), None);
}

#[test]
fn locate_is_one_to_one_on_the_panel() {
    let mut taken = vec![0u8; 1025];
    for y in 0..64 {
        for x in 0..64 {
            let (cell, bit) = locate(x, y).unwrap();
            assert!(cell >= 1 && cell < 1025);
            assert_eq!(bit.count_ones(), 1);
            assert_eq!(taken[cell] & bit, 0);
            taken[cell] |= bit;
        }
    }
}

#[test]
fn buffer_starts_zeroed_with_fixed_length() {
    let buffer = DisplayBuffer::new();
    assert_eq!(buffer.as_bytes().len(), 1025);
    assert_eq!(buffer.cells().len(), 1024);
    assert!(buffer.as_bytes().iter().all(|byte| *byte == 0));
}

#[test]
fn buffer_fill_keeps_the_leading_byte() {
    let mut buffer = DisplayBuffer::new();
    buffer.set_marker(0x40);
    buffer.fill(0xA5);
    assert_eq!(buffer.as_bytes().len(), 1025);
    assert_eq!(buffer.as_bytes()[0], 0x40);
    assert!(buffer.cells().iter().all(|cell| *cell == 0xA5));
    assert_eq!(&buffer.as_bytes()[1..], buffer.cells());
}

#[test]
fn buffer_set_pixel_changes_one_bit_only() {
    let mut buffer = DisplayBuffer::new();
    buffer.fill(0x21);
    let before: Vec<u8> = buffer.as_bytes().to_vec();
    assert!(buffer.set_pixel(9, 12));
    let after = buffer.as_bytes();
    let cell = 9 + 64 + 1;
    for i in 0..1025 {
        if i == cell {
            assert_eq!(after[i], 0x21 | 0x10);
        } else {
            assert_eq!(after[i], before[i]);
        }
    }
    assert_eq!(buffer.pixel(9, 12), Some(true));
    assert_eq!(buffer.pixel(9, 11), Some(false));
    assert_eq!(buffer.pixel(9, 8), Some(true));
    assert_eq!(buffer.pixel(9, 13), Some(true));
    assert_eq!(buffer.pixel(64, 0), None);
}

#[test]
fn buffer_set_pixel_is_monotonic() {
    let mut buffer = DisplayBuffer::new();
    assert!(buffer.set_pixel(2, 2));
    assert!(buffer.set_pixel(2, 2));
    assert!(buffer.set_pixel(2, 5));
    assert_eq!(buffer.as_bytes()[3], 0x24);
    assert_eq!(buffer.pixel(2, 2), Some(true));
    assert_eq!(buffer.pixel(2, 5), Some(true));
}

#[test]
fn buffer_set_pixel_outside_the_panel_changes_nothing() {
    let mut buffer = DisplayBuffer::new();
    buffer.fill(0x0F);
    let before: Vec<u8> = buffer.as_bytes().to_vec();
    assert!(!buffer.set_pixel(64, 0));
    assert!(!buffer.set_pixel(0, 64));
    assert!(!buffer.set_pixel(-1, 5));
    assert!(!buffer.set_pixel(5, -1));
    assert_eq!(buffer.as_bytes(), &before[..]);
}

#[test]
fn every_pixel_of_the_panel_sets_exactly_its_own_bit() {
    for y in 0..64 {
        for x in 0..64 {
            let mut buffer = DisplayBuffer::new();
            assert!(buffer.set_pixel(x, y));
            let index = (x + (y / 8) * 64 + 1) as usize;
            let bytes = buffer.as_bytes();
            for i in 0..1025 {
                if i == index {
                    assert_eq!(bytes[i], 1u8 << (y % 8));
                } else {
                    assert_eq!(bytes[i], 0);
                }
            }
        }
    }
}

#[test]
fn draw_pixel_sets_the_bit_and_queues_the_whole_buffer() {
    let mut oled = ready_driver();
    assert_eq!(oled.draw_pixel(1, 0), Ok(()));
    assert_eq!(oled.activity(), Activity::Transmitting);

    let mut expected = vec![0u8; 1025];
    expected[0] = 0x40;
    expected[2] = 0x01;
    assert_eq!(oled.display_buffer().as_bytes(), &expected[..]);

    let seen = flush(&mut oled);
    assert_eq!(seen, vec![BusRequest::Write { buffer: expected }]);
    assert_eq!(oled.activity(), Activity::Idle);
    assert_eq!(oled.state(), DriverState::Ready);
}

#[test]
fn draw_pixel_never_touches_the_leading_byte() {
    let mut oled = ready_driver();
    for y in 0..64 {
        for x in 0..64 {
            oled.draw_pixel(x, y).unwrap();
            flush(&mut oled);
        }
    }
    let bytes = oled.display_buffer().as_bytes();
    assert_eq!(bytes[0], 0x40);
    assert!(bytes[1..513].iter().all(|cell| *cell == 0xFF));
    assert!(bytes[513..].iter().all(|cell| *cell == 0x00));
}

#[test]
fn draw_pixel_out_of_range_is_a_range_error() {
    let mut oled = ready_driver();
    oled.fill(0x11).unwrap();
    flush(&mut oled);
    let before: Vec<u8> = oled.display_buffer().as_bytes().to_vec();

    assert_eq!(oled.draw_pixel(64, 0), Err(DriverError::Range));
    assert_eq!(oled.draw_pixel(0, 64), Err(DriverError::Range));
    assert_eq!(oled.draw_pixel(64, 64), Err(DriverError::Range));
    assert_eq!(oled.draw_pixel(-1, 0), Err(DriverError::Range));
    assert_eq!(oled.draw_pixel(0, -1), Err(DriverError::Range));
    assert_eq!(oled.draw_pixel(1000, 3), Err(DriverError::Range));

    assert_eq!(oled.display_buffer().as_bytes(), &before[..]);
    assert_eq!(oled.activity(), Activity::Idle);
    assert!(oled.next_request().is_none());
}

#[test]
fn drawing_before_init_is_a_sequence_error() {
    let mut oled = ssd1306::get_struct(OLED_ADDR);
    assert_eq!(oled.fill(0xFF), Err(DriverError::Sequence));
    assert_eq!(oled.draw_pixel(0, 0), Err(DriverError::Sequence));
    assert_eq!(oled.draw_pixel(64, 64), Err(DriverError::Sequence));
    assert_eq!(oled.state(), DriverState::Uninitialized);
    assert!(oled.next_request().is_none());
    assert!(oled.display_buffer().as_bytes().iter().all(|byte| *byte == 0));
}

#[test]
fn drawing_while_requests_are_outstanding_is_a_sequence_error() {
    let mut oled = ssd1306::get_struct(OLED_ADDR);
    oled.init().unwrap();
    assert_eq!(oled.fill(0xFF), Err(DriverError::Sequence));
    assert_eq!(oled.draw_pixel(0, 0), Err(DriverError::Sequence));
    flush(&mut oled);

    oled.fill(0x0F).unwrap();
    assert_eq!(oled.fill(0xF0), Err(DriverError::Sequence));
    assert_eq!(oled.draw_pixel(0, 0), Err(DriverError::Sequence));
    assert_eq!(oled.close(), Err(DriverError::Sequence));
    let seen = flush(&mut oled);
    assert_eq!(seen.len(), 1);
    assert!(oled.display_buffer().cells().iter().all(|cell| *cell == 0x0F));
}

#[test]
fn fill_overwrites_every_cell_and_queues_one_write() {
    let mut oled = ready_driver();
    oled.draw_pixel(7, 7).unwrap();
    flush(&mut oled);

    assert_eq!(oled.fill(0xFF), Ok(()));
    let mut expected = vec![0xFFu8; 1025];
    expected[0] = 0x40;
    assert_eq!(oled.display_buffer().as_bytes(), &expected[..]);
    assert_eq!(flush(&mut oled), vec![BusRequest::Write { buffer: expected }]);
}

#[test]
fn fill_order_leaves_complementary_buffers() {
    let mut first = ready_driver();
    first.fill(0x00).unwrap();
    flush(&mut first);
    first.fill(0xFF).unwrap();
    flush(&mut first);

    let mut second = ready_driver();
    second.fill(0xFF).unwrap();
    flush(&mut second);
    second.fill(0x00).unwrap();
    flush(&mut second);

    let a = first.display_buffer().cells();
    let b = second.display_buffer().cells();
    assert_eq!(a.len(), 1024);
    for i in 0..1024 {
        assert_eq!(a[i], !b[i]);
        assert_eq!(a[i], 0xFF);
    }
}

#[test]
fn fill_repeated_changes_nothing_more() {
    let mut oled = ready_driver();
    oled.fill(0x5A).unwrap();
    flush(&mut oled);
    let once: Vec<u8> = oled.display_buffer().as_bytes().to_vec();
    oled.fill(0x5A).unwrap();
    flush(&mut oled);
    assert_eq!(oled.display_buffer().as_bytes(), &once[..]);
}

#[test]
fn failed_transmission_keeps_the_buffer_as_mutated() {
    let mut oled = ready_driver();
    oled.fill(0xC3).unwrap();
    assert_eq!(oled.on_bus_event(BusEvent::Failed), Err(DriverError::Transport));
    assert_eq!(oled.state(), DriverState::Ready);
    assert_eq!(oled.activity(), Activity::Idle);
    assert!(oled.next_request().is_none());
    assert!(oled.display_buffer().cells().iter().all(|cell| *cell == 0xC3));

    oled.draw_pixel(0, 2).unwrap();
    assert_eq!(oled.on_bus_event(BusEvent::Failed), Err(DriverError::Transport));
    assert_eq!(oled.display_buffer().as_bytes()[1], 0xC3 | 0x04);
}

#[test]
fn scenario_two_pixels_then_clear() {
    let mut oled = ssd1306::get_struct(0x3C);
    assert_eq!(oled.init(), Ok(()));
    flush(&mut oled);
    assert_eq!(oled.state(), DriverState::Ready);

    assert_eq!(oled.draw_pixel(0, 0), Ok(()));
    flush(&mut oled);
    assert_eq!(oled.display_buffer().as_bytes()[1] & 0x01, 0x01);

    assert_eq!(oled.draw_pixel(0, 8), Ok(()));
    flush(&mut oled);
    assert_eq!(oled.display_buffer().as_bytes()[64 + 1] & 0x01, 0x01);
    assert_eq!(oled.display_buffer().as_bytes()[1] & 0x01, 0x01);

    assert_eq!(oled.fill(0x00), Ok(()));
    flush(&mut oled);
    assert_eq!(oled.display_buffer().as_bytes()[1], 0x00);
    assert_eq!(oled.display_buffer().as_bytes()[64 + 1], 0x00);
    assert_eq!(oled.display_buffer().pixel(0, 0), Some(false));
    assert_eq!(oled.display_buffer().pixel(0, 8), Some(false));
}
