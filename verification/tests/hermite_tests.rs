use quantum_plot::error::PlotError;
use quantum_plot::hermite::{hermite_polynomial, MAX_DEGREE};
use quantum_plot::level::EnergyLevel;
use quantum_plot::oscillator::normalization_divisor;

fn evaluate(coefficients: &[i32], y: i64) -> i64 {
    coefficients.iter().rev().fold(0, |sum, &c| sum * y + c as i64)
}

#[test]
fn table_holds_the_first_eleven_polynomials() {
    let table: [&[i32]; 11] = [
        &[1],
        &[0, 2],
        &[-2, 0, 4],
        &[0, -12, 0, 8],
        &[12, 0, -48, 0, 16],
        &[0, 120, 0, -160, 0, 32],
        &[-120, 0, 720, 0, -480, 0, 64],
        &[0, -1680, 0, 3360, 0, -1344, 0, 128],
        &[1680, 0, -13440, 0, 13440, 0, -3584, 0, 256],
        &[0, 30240, 0, -80640, 0, 48384, 0, -9216, 0, 512],
        &[-30240, 0, 302400, 0, -403200, 0, 161280, 0, -23040, 0, 1024],
    ];
    for (n, row) in table.iter().enumerate() {
        assert_eq!(Ok(row.to_vec()), hermite_polynomial(&EnergyLevel(n as u32)));
    }
}

#[test]
fn degree_beyond_the_table_is_unsupported() {
    assert_eq!(10, MAX_DEGREE);
    assert_eq!(Err(PlotError::UnsupportedDegree), hermite_polynomial(&EnergyLevel(11)));
    assert_eq!(Err(PlotError::UnsupportedDegree), hermite_polynomial(&EnergyLevel(u32::MAX)));
}

#[test]
fn polynomials_obey_the_recurrence_at_whole_arguments() {
    for n in 2..=10u32 {
        let this = hermite_polynomial(&EnergyLevel(n)).unwrap();
        let below = hermite_polynomial(&EnergyLevel(n - 1)).unwrap();
        let two_below = hermite_polynomial(&EnergyLevel(n - 2)).unwrap();
        for y in -6..=6i64 {
            assert_eq!(
                2 * y * evaluate(&below, y) - 2 * (n as i64 - 1) * evaluate(&two_below, y),
                evaluate(&this, y)
            );
        }
    }
}

#[test]
fn second_polynomial_at_three_is_thirty_four() {
    let h2 = hermite_polynomial(&EnergyLevel(2)).unwrap();
    assert_eq!(34, evaluate(&h2, 3));
}

#[test]
fn tenth_polynomial_at_zero_is_minus_30240() {
    let h10 = hermite_polynomial(&EnergyLevel(10)).unwrap();
    assert_eq!(-30240, evaluate(&h10, 0));
}

#[test]
fn normalization_divisor_is_two_to_the_n_times_n_factorial() {
    let expected: [u32; 11] = [
        1, 2, 8, 48, 384, 3840, 46080, 645120, 10321920, 185794560, 3715891200,
    ];
    for (n, &divisor) in expected.iter().enumerate() {
        assert_eq!(Ok(divisor), normalization_divisor(&EnergyLevel(n as u32)));
    }
    assert_eq!(Ok(1024 * 3628800), normalization_divisor(&EnergyLevel(10)));
}

#[test]
fn normalization_of_an_unsupported_level_is_refused() {
    assert_eq!(Err(PlotError::UnsupportedDegree), normalization_divisor(&EnergyLevel(11)));
    assert_eq!(Err(PlotError::UnsupportedDegree), normalization_divisor(&EnergyLevel(u32::MAX)));
}
