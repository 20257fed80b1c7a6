use si5351::{ClockOutput, Error, OutputDivider, Si5351Device, SpreadCoefficients, PLL};

fn center_spread(xtal: u32, mult: u8, num: u32, denom: u32, amp: f32) -> SpreadCoefficients {
    let ssudp = SpreadCoefficients::calc_ssudp(xtal);
    let ratio = mult as f32 + num as f32 / denom as f32;
    let ssup = 128.0 * ratio * (amp / ((1.0 - amp) * ssudp as f32));
    let ssdn = 128.0 * ratio * (amp / ((1.0 + amp) * ssudp as f32));
    let ssup_p1 = ssup.floor() as u16 & 0x7FF;
    let ssup_p2 = (32767.0f32 * (ssup - ssup_p1 as f32)) as u16;
    let ssdn_p1 = ssdn.floor() as u16 & 0x7FF;
    let ssdn_p2 = (32767.0f32 * (ssdn - ssdn_p1 as f32)) as u16;
    SpreadCoefficients::new(ssudp, ssup_p1, ssup_p2, ssdn_p1, ssdn_p2)
}

#[test]
fn test_frequency_calculations() {
    let mut si = Si5351Device::new(false, 25_000_000);

    let test_freqs = [1_000_000, 12_288_000, 74_250_000];

    let test_spread = 0.015;

    for freq in test_freqs.iter() {
        println!("\n=== Target: {} Hz ===", freq);

        let (ms_divider, r_div) = si
            .find_int_dividers_for_max_pll_freq(900_000_000, *freq)
            .expect("Failed to find dividers");
        let total_div = ms_divider as u32 * r_div.denominator_u8() as u32;
        let denom = 1048575;
        let (mult, num) = si
            .find_pll_coeffs_for_dividers(total_div, denom, *freq)
            .expect("Failed to find PLL coefficients");

        let pll_freq = (si.xtal_freq() as u64 * mult as u64
            + (si.xtal_freq() as u64 * num as u64) / denom as u64) as f64;
        let output_freq = pll_freq / total_div as f64;
        let freq_error = output_freq - *freq as f64;
        let relative_error = 100.0 * freq_error.abs() / *freq as f64;

        let spread_params = center_spread(si.xtal_freq(), mult, num, denom, test_spread);

        let ssudp = spread_params.ssudp();
        let (ssup_p1, ssup_p2, ssup_p3) = spread_params.ssup();
        let (ssdn_p1, ssdn_p2, ssdn_p3) = spread_params.ssdn();

        println!("ms_divider = {}", ms_divider);
        println!("r_div = 1/{}", r_div.denominator_u8());
        println!("total_div = {}", total_div);
        println!("denom = {}", denom);
        println!("mult = {}", mult);
        println!("num = {}", num);
        println!("pll_freq = {}", pll_freq);
        println!("output_freq = {}", output_freq);
        println!("freq_error = {}", freq_error);
        println!("relative_error = {}%", relative_error);
        println!("ssudp = {}", ssudp);
        println!("ssup_p1 = {}", ssup_p1);
        println!("ssup_p2 = {}", ssup_p2);
        println!("ssup_p3 = {}", ssup_p3);
        println!("ssdn_p1 = {}", ssdn_p1);
        println!("ssdn_p2 = {}", ssdn_p2);
        println!("ssdn_p3 = {}", ssdn_p3);

        let plan = si.set_frequency(PLL::A, ClockOutput::Clk0, *freq, Some(spread_params));
        for write in plan.writes.iter() {
            println!("I2c::write(addr=0x{:02X}): {:02X?}", write.address, write.bytes);
        }
        plan.outcome.expect("Failed to set frequency");
    }
}

#[test]
fn dividers_and_multiplier_lie_in_range_for_the_reference_frequencies() {
    let si = Si5351Device::new(false, 25_000_000);
    for freq in [1_000_000u32, 12_288_000, 74_250_000] {
        let (ms_divider, r_div) = si.find_int_dividers_for_max_pll_freq(900_000_000, freq).unwrap();
        let r = r_div.denominator_u8();
        assert!(r.is_power_of_two());
        assert!((1..=128).contains(&r));
        assert!((6..=1800).contains(&ms_divider));
        let total_div = ms_divider as u32 * r as u32;
        let (mult, _num) = si.find_pll_coeffs_for_dividers(total_div, 1_048_575, freq).unwrap();
        assert!((15..=90).contains(&mult));
    }
}

#[test]
fn reconstructed_output_is_within_a_ten_thousandth_of_the_target() {
    let si = Si5351Device::new(false, 25_000_000);
    let xtal = si.xtal_freq() as u64;
    let denom: u32 = 1_048_575;
    for freq in [1_000_000u32, 12_288_000, 74_250_000] {
        let (ms_divider, r_div) = si.find_int_dividers_for_max_pll_freq(900_000_000, freq).unwrap();
        let total_div = ms_divider as u32 * r_div.denominator_u8() as u32;
        let (mult, num) = si.find_pll_coeffs_for_dividers(total_div, denom, freq).unwrap();
        let pll_freq = (xtal * mult as u64 + (xtal * num as u64) / denom as u64) as f64;
        let output_freq = pll_freq / total_div as f64;
        let relative_error = 100.0 * (output_freq - freq as f64).abs() / freq as f64;
        assert!(relative_error < 0.01, "{} Hz is off by {}%", freq, relative_error);
    }
}

#[test]
fn search_results_for_the_reference_frequencies() {
    let si = Si5351Device::new(false, 25_000_000);
    assert_eq!(
        si.find_int_dividers_for_max_pll_freq(900_000_000, 1_000_000),
        Ok((900, OutputDivider::Div1))
    );
    assert_eq!(si.find_pll_coeffs_for_dividers(900, 1_048_575, 1_000_000), Ok((36, 0)));
    assert_eq!(
        si.find_int_dividers_for_max_pll_freq(900_000_000, 12_288_000),
        Ok((72, OutputDivider::Div1))
    );
    assert_eq!(si.find_pll_coeffs_for_dividers(72, 1_048_575, 12_288_000), Ok((35, 408_357)));
    assert_eq!(
        si.find_int_dividers_for_max_pll_freq(900_000_000, 74_250_000),
        Ok((12, OutputDivider::Div1))
    );
    assert_eq!(si.find_pll_coeffs_for_dividers(12, 1_048_575, 74_250_000), Ok((35, 671_088)));
}

#[test]
fn video_clock_takes_the_smallest_output_divider() {
    let xtal: u32 = 25_000_000;
    let target: u32 = 74_250_000;
    let max_pll: u32 = 900_000_000;
    let si = Si5351Device::new(false, xtal);
    let (ms_divider, r_div) = si.find_int_dividers_for_max_pll_freq(max_pll, target).unwrap();

    let total = (max_pll / target) as u16;
    let all = [
        OutputDivider::Div1,
        OutputDivider::Div2,
        OutputDivider::Div4,
        OutputDivider::Div8,
        OutputDivider::Div16,
        OutputDivider::Div32,
        OutputDivider::Div64,
        OutputDivider::Div128,
    ];
    let smallest_valid = all
        .iter()
        .copied()
        .find(|d| (total / (2 * d.denominator_u8() as u16) * 2).max(6) <= 1800)
        .unwrap();
    assert_eq!(r_div, smallest_valid);
    assert_eq!(ms_divider, (total / (2 * r_div.denominator_u8() as u16) * 2).max(6));
    assert!(ms_divider <= 1800);

    let total_div = ms_divider as u32 * r_div.denominator_u8() as u32;
    let (mult, num) = si.find_pll_coeffs_for_dividers(total_div, 1_048_575, target).unwrap();
    let pll_freq = target as u64 * total_div as u64;
    assert_eq!(mult as u64, pll_freq / xtal as u64);
    assert_eq!(num as u64, (pll_freq % xtal as u64) * 1_048_575 / xtal as u64);
    assert!(15 <= mult && mult <= 90);
}

#[test]
fn output_divider_grows_with_the_total_divider() {
    let si = Si5351Device::new(false, 25_000_000);
    assert_eq!(
        si.find_int_dividers_for_max_pll_freq(900_000_000, 100_000),
        Ok((562, OutputDivider::Div16))
    );
    assert_eq!(
        si.find_int_dividers_for_max_pll_freq(900_000_000, 13_733),
        Ok((510, OutputDivider::Div128))
    );
    assert_eq!(si.find_int_dividers_for_max_pll_freq(1799, 1), Ok((1798, OutputDivider::Div1)));
    assert_eq!(si.find_int_dividers_for_max_pll_freq(1800, 1), Ok((900, OutputDivider::Div2)));
    assert_eq!(si.find_int_dividers_for_max_pll_freq(2700, 1), Ok((674, OutputDivider::Div4)));
    assert_eq!(si.find_int_dividers_for_max_pll_freq(65_535, 1), Ok((510, OutputDivider::Div128)));
}

#[test]
fn multisynth_divider_is_even_and_at_least_six() {
    let si = Si5351Device::new(false, 25_000_000);
    assert_eq!(si.find_int_dividers_for_max_pll_freq(900_000_000, 200_000_000), Ok((6, OutputDivider::Div1)));
    assert_eq!(si.find_int_dividers_for_max_pll_freq(0, 5), Ok((6, OutputDivider::Div1)));
    assert_eq!(si.find_int_dividers_for_max_pll_freq(7, 1), Ok((6, OutputDivider::Div1)));
    assert_eq!(si.find_int_dividers_for_max_pll_freq(13, 1), Ok((12, OutputDivider::Div1)));
    assert_eq!(si.find_int_dividers_for_max_pll_freq(899, 1), Ok((898, OutputDivider::Div1)));
}

#[test]
fn total_divider_keeps_its_low_sixteen_bits() {
    let si = Si5351Device::new(false, 25_000_000);
    assert_eq!(si.find_int_dividers_for_max_pll_freq(65_536 + 12, 1), Ok((12, OutputDivider::Div1)));
    assert_eq!(
        si.find_int_dividers_for_max_pll_freq(900_000_000, 1),
        Ok((466, OutputDivider::Div128))
    );
}

#[test]
fn pll_coefficients_reject_a_bad_denominator() {
    let si = Si5351Device::new(false, 25_000_000);
    assert_eq!(si.find_pll_coeffs_for_dividers(12, 0, 74_250_000), Err(Error::InvalidParameter));
    assert_eq!(
        si.find_pll_coeffs_for_dividers(12, 0x10_0000, 74_250_000),
        Err(Error::InvalidParameter)
    );
    assert!(si.find_pll_coeffs_for_dividers(12, 0xF_FFFF, 74_250_000).is_ok());
    assert_eq!(si.find_pll_coeffs_for_dividers(12, 1, 74_250_000), Ok((35, 0)));
}

#[test]
fn pll_coefficients_follow_the_formulas() {
    let si = Si5351Device::new(false, 27_000_000);
    assert_eq!(si.find_pll_coeffs_for_dividers(10, 1000, 80_000_000), Ok((29, 629)));
    assert_eq!(si.find_pll_coeffs_for_dividers(0, 1000, 80_000_000), Ok((0, 0)));
    let slow = Si5351Device::new(false, 1_000_000);
    assert_eq!(slow.find_pll_coeffs_for_dividers(1, 8, 276_500_000), Ok((20, 4)));
    assert_eq!(slow.find_pll_coeffs_for_dividers(4, 8, 4_000_000_000), Ok((128, 0)));
}
