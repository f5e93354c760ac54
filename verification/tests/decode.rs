use ws2300::{Data, Device, Memory};

fn decimal(units: i64, digits: u32) -> f64 {
    units as f64 / 10f64.powi(digits as i32)
}

#[test]
fn test_round() {
    assert_eq!(decimal(Device::round(100_00000, 5, 2), 5), 100.00);
    assert_eq!(decimal(Device::round(100_12345, 5, 2), 5), 100.12);
    assert_eq!(decimal(Device::round(-100_12345, 5, 2), 5), -100.12);
    assert_eq!(decimal(Device::round(100_12345, 5, 5), 5), 100.12345);
}

#[test]
fn round_keeps_the_scale() {
    assert_eq!(Device::round(100_00000, 5, 2), 100_00000);
    assert_eq!(Device::round(100_12345, 5, 2), 100_12000);
    assert_eq!(Device::round(-100_12345, 5, 2), -100_12000);
    assert_eq!(Device::round(100_12345, 5, 5), 100_12345);
    assert_eq!(Device::round(100_12345, 5, 9), 100_12345);
    assert_eq!(Device::round(100, 0, 2), 100);
}

#[test]
fn round_takes_half_away_from_zero() {
    assert_eq!(Device::round(4, 1, 0), 0);
    assert_eq!(Device::round(5, 1, 0), 10);
    assert_eq!(Device::round(7, 1, 0), 10);
    assert_eq!(Device::round(-4, 1, 0), 0);
    assert_eq!(Device::round(-5, 1, 0), -10);
    assert_eq!(Device::round(-7, 1, 0), -10);
    assert_eq!(Device::round(125, 2, 1), 130);
    assert_eq!(Device::round(124, 2, 1), 120);
    assert_eq!(Device::round(-125, 2, 1), -130);
    assert_eq!(Device::round(-1725, 2, 1), -1730);
    assert_eq!(Device::round(1995, 2, 1), 2000);
    assert_eq!(Device::round(1995, 2, 0), 2000);
    assert_eq!(Device::round(1949, 2, 0), 1900);
}

#[test]
fn round_at_the_limits() {
    assert_eq!(Device::round(i64::MAX, 3, 5), i64::MAX);
    assert_eq!(Device::round(i64::MIN, 3, 3), i64::MIN);
    assert_eq!(Device::round(5, 30, 0), 0);
    assert_eq!(Device::round(-5, 30, 0), 0);
    assert_eq!(Device::round(i64::MAX, 25, 0), 0);
    assert_eq!(Device::round(i64::MIN, 20, 0), 0);
    assert_eq!(Device::round(4_999_999_999_999_999_999, 19, 0), 0);
    assert_eq!(Device::round(-4_999_999_999_999_999_999, 19, 0), 0);
    assert_eq!(Device::round(i64::MAX - 3, 1, 0), 9_223_372_036_854_775_800);
    assert_eq!(Device::round(i64::MIN + 4, 1, 0), -9_223_372_036_854_775_800);
    assert_eq!(Device::round(i64::MAX, 18, 0), 9_000_000_000_000_000_000);
    assert_eq!(Device::round(i64::MIN, 18, 0), -9_000_000_000_000_000_000);
}

#[test]
fn round_is_idempotent() {
    let values = [0i64, 1, 4, 5, 6, 49, 50, 51, 99, 12345, 10012345, -1, -5, -50, -12345, -10012345];
    for x in values {
        for digits in 0..8u32 {
            for n in 0..8u32 {
                let once = Device::round(x, digits, n);
                assert_eq!(Device::round(once, digits, n), once);
            }
        }
    }
}

#[test]
fn temperature_is_offset_by_thirty_degrees() {
    assert_eq!(Device::temperature(&vec![0x00, 0x00]), -300);
    assert_eq!(Device::temperature(&vec![0x20, 0x51]), 212);
    assert_eq!(Device::temperature(&vec![0x25, 0x51]), 213);
    assert_eq!(Device::temperature(&vec![0x24, 0x51]), 212);
    assert_eq!(Device::temperature(&vec![0x75, 0x12]), -173);
    assert_eq!(Device::temperature(&vec![0x74, 0x12]), -173);
    assert_eq!(Device::temperature(&vec![0x76, 0x12]), -172);
    assert_eq!(Device::temperature(&vec![0x99, 0x99]), 700);
    assert_eq!(Device::temperature(&vec![0x00, 0x30]), 0);
    assert_eq!(Device::temperature(&vec![0x96, 0x29]), 0);
    assert_eq!(Device::temperature(&vec![0xFF, 0xFF]), 1367);
    assert_eq!(Device::temperature(&vec![0x50, 0x23, 0x77]), -65);
}

#[test]
fn the_four_temperatures_decode_alike() {
    let value = vec![0x43, 0x48];
    assert_eq!(Device::temperature(&value), 184);
    assert_eq!(Device::temperature_indoor(&value), 184);
    assert_eq!(Device::temperature_outdoor(&value), 184);
    assert_eq!(Device::dewpoint(&value), 184);
    assert_eq!(Device::wind_chill(&value), 184);
}

#[test]
fn humidity_is_two_decimal_digits() {
    assert_eq!(Device::humidity(&vec![0x45]), 45);
    assert_eq!(Device::humidity(&vec![0x00]), 0);
    assert_eq!(Device::humidity(&vec![0x99]), 99);
    assert_eq!(Device::humidity(&vec![0xFF]), 165);
    assert_eq!(Device::humidity_indoor(&vec![0x38]), 38);
    assert_eq!(Device::humidity_outdoor(&vec![0x71]), 71);
}

#[test]
fn wind_speed_is_a_twelve_bit_number() {
    assert_eq!(Device::wind_speed(&vec![0x2C, 0x01, 0x00]), 300);
    assert_eq!(Device::wind_speed(&vec![0x00, 0x00, 0x00]), 0);
    assert_eq!(Device::wind_speed(&vec![0xFF, 0xFF, 0xFF]), 4095);
    assert_eq!(Device::wind_speed(&vec![0x07, 0xF0, 0x55]), 7);
    assert_eq!(Device::wind_speed(&vec![0x10, 0x32]), 528);
}

#[test]
fn wind_direction_follows_the_compass_rose() {
    assert_eq!(Device::wind_direction(&vec![0x00]), "N");
    assert_eq!(Device::wind_direction(&vec![0x40]), "E");
    assert_eq!(Device::wind_direction(&vec![0xF0]), "NNW");
    let names = [
        "N", "NNE", "NE", "ENE", "E", "ESE", "SE", "SSE", "S", "SSW", "SW", "WSW", "W", "WNW",
        "NW", "NNW",
    ];
    for point in 0..16u8 {
        for low in [0u8, 7, 15] {
            let value = vec![point << 4 | low];
            assert_eq!(Device::wind_direction(&value), names[point as usize]);
            assert_eq!(Device::wind_dir(&value), 225 * point as u32);
        }
    }
}

#[test]
fn wind_bearing_is_in_tenths_of_a_degree() {
    assert_eq!(Device::wind_dir(&vec![0x00]), 0);
    assert_eq!(Device::wind_dir(&vec![0x10]), 225);
    assert_eq!(Device::wind_dir(&vec![0x40]), 900);
    assert_eq!(Device::wind_dir(&vec![0x4F]), 900);
    assert_eq!(Device::wind_dir(&vec![0xF0]), 3375);
    assert_eq!(Device::wind_dir(&vec![0x40]) as f32 / 10.0, 90.0);
}

#[test]
fn rain_spans_three_bytes() {
    assert_eq!(Device::rain(&vec![0x00, 0x00, 0x00]), 0);
    assert_eq!(Device::rain(&vec![0x34, 0x12, 0x01]), 1123);
    assert_eq!(Device::rain(&vec![0x35, 0x12, 0x10]), 10124);
    assert_eq!(Device::rain(&vec![0x05, 0x00, 0x00]), 1);
    assert_eq!(Device::rain(&vec![0x04, 0x00, 0x00]), 0);
    assert_eq!(Device::rain(&vec![0xFF, 0xFF, 0xFF]), 166667);
    assert_eq!(Device::rain_1h(&vec![0x50, 0x02, 0x00]), 25);
    assert_eq!(Device::rain_24h(&vec![0x50, 0x02, 0x00]), 25);
    assert_eq!(Device::rain_total(&vec![0x50, 0x02, 0x00]), 25);
}

#[test]
fn pressure_ignores_the_high_nibble_of_the_third_byte() {
    assert_eq!(Device::pressure(&vec![0x32, 0x01, 0x01]), 10132);
    assert_eq!(Device::pressure(&vec![0x32, 0x01, 0x21]), 10132);
    assert_eq!(Device::pressure(&vec![0x32, 0x01, 0xF1]), 10132);
    assert_eq!(Device::pressure(&vec![0x00, 0x00, 0x00]), 0);
    assert_eq!(Device::pressure(&vec![0x85, 0x99, 0x00]), 9985);
    assert_eq!(Device::pressure(&vec![0xFF, 0xFF, 0x0F]), 166665);
}

#[test]
fn tendency_and_forecast_share_a_byte() {
    assert_eq!(Device::tendency(&vec![0x10]), "Rising");
    assert_eq!(Device::forecast(&vec![0x10]), "Rainy");
    assert_eq!(Device::tendency(&vec![0x21]), "Falling");
    assert_eq!(Device::forecast(&vec![0x21]), "Cloudy");
    assert_eq!(Device::tendency(&vec![0x02]), "Steady");
    assert_eq!(Device::forecast(&vec![0x02]), "Sunny");
    assert_eq!(Device::tendency(&vec![0x0F]), "Steady");
    assert_eq!(Device::forecast(&vec![0xF0]), "Rainy");
}

#[test]
fn the_memory_map_is_the_consoles() {
    let device = Device::new();
    let region = |address: u16, size: usize| Memory { address, size };
    assert_eq!(device.memory.temperature_indoor, region(0x346, 2));
    assert_eq!(device.memory.temperature_outdoor, region(0x373, 2));
    assert_eq!(device.memory.dewpoint, region(0x3CE, 2));
    assert_eq!(device.memory.humidity_indoor, region(0x3FB, 1));
    assert_eq!(device.memory.humidity_outdoor, region(0x419, 1));
    assert_eq!(device.memory.wind_speed, region(0x529, 3));
    assert_eq!(device.memory.wind_dir, region(0x52C, 1));
    assert_eq!(device.memory.wind_chill, region(0x3A0, 2));
    assert_eq!(device.memory.rain_1h, region(0x4B4, 3));
    assert_eq!(device.memory.rain_24h, region(0x497, 3));
    assert_eq!(device.memory.rain_total, region(0x4D2, 3));
    assert_eq!(device.memory.pressure, region(0x5E2, 3));
    assert_eq!(device.memory.tendency, region(0x26B, 1));
}

#[test]
fn the_plan_reads_each_region_once() {
    let device = Device::new();
    let plan = device.plan();
    assert_eq!(plan.len(), 13);
    assert_eq!(plan[0], device.memory.temperature_indoor);
    assert_eq!(plan[5], device.memory.wind_speed);
    assert_eq!(plan[6], device.memory.wind_dir);
    assert_eq!(plan[11], device.memory.pressure);
    assert_eq!(plan[12], device.memory.tendency);
    for (i, region) in plan.iter().enumerate() {
        assert_ne!(region.address, 0x06);
        assert!((1..=3).contains(&region.size));
        assert!(plan[i + 1..].iter().all(|other| other != region));
    }
}

#[test]
fn snapshot_decodes_every_quantity() {
    let device = Device::new();
    let values: Vec<Vec<u8>> = vec![
        vec![0x25, 0x51],
        vec![0x75, 0x12],
        vec![0x00, 0x30],
        vec![0x45],
        vec![0x88],
        vec![0x2C, 0x01, 0x00],
        vec![0x40],
        vec![0x50, 0x23],
        vec![0x50, 0x02, 0x00],
        vec![0x34, 0x12, 0x00],
        vec![0x35, 0x12, 0x10],
        vec![0x32, 0x01, 0x01],
        vec![0x21],
    ];
    let data: Data = device.snapshot(&values);
    assert_eq!(data.temperature_indoor, 213);
    assert_eq!(data.temperature_outdoor, -173);
    assert_eq!(data.dewpoint, 0);
    assert_eq!(data.humidity_indoor, 45);
    assert_eq!(data.humidity_outdoor, 88);
    assert_eq!(data.wind_speed, 300);
    assert_eq!(data.wind_dir, 900);
    assert_eq!(data.wind_direction, "E");
    assert_eq!(data.wind_chill, -65);
    assert_eq!(data.rain_1h, 25);
    assert_eq!(data.rain_24h, 123);
    assert_eq!(data.rain_total, 10124);
    assert_eq!(data.pressure, 10132);
    assert_eq!(data.tendency, "Falling");
    assert_eq!(data.forecast, "Cloudy");
}
