use ofws_core::distance::calculate_distance;
use ofws_core::generator1d::Generator1d;
use ofws_core::generator1d::Generator1dData;
use ofws_core::generator2d::assert_eq as assert_round_trip;
use ofws_core::generator2d::Generator2d;
use ofws_core::generator2d::Generator2dData;
use ofws_core::gradient::Gradient;
use ofws_core::noise::Noise;
use ofws_core::noise::NoiseData;
use ofws_core::noise::NoiseError;
use ofws_core::size2d::Size2d;

#[test]
fn input_as_output_truncates_to_byte_range() {
    let generator = Generator1d::InputAsOutput;
    assert_eq!(generator.generate(0), 0);
    assert_eq!(generator.generate(77), 77);
    assert_eq!(generator.generate(255), 255);
    assert_eq!(generator.generate(256), 0);
    assert_eq!(generator.generate(300), 44);
}

#[test]
fn constant_ignores_the_input() {
    let generator = Generator1d::Constant(99);
    for input in 0u32..600 {
        assert_eq!(generator.generate(input), 99);
    }
}

#[test]
fn gradient_ramps_between_the_bounds() {
    let gradient = Gradient::new(100, 200, 10, 10);
    assert_eq!(gradient.generate(0), 100);
    assert_eq!(gradient.generate(10), 100);
    assert_eq!(gradient.generate(15), 150);
    assert_eq!(gradient.generate(20), 200);
    assert_eq!(gradient.generate(500), 200);
}

#[test]
fn gradient_is_monotonic_for_rising_values() {
    let gradient = Gradient::new(20, 220, 5, 50);
    let mut previous = gradient.generate(0);
    for input in 1u32..100 {
        let value = gradient.generate(input);
        assert!(value >= previous);
        previous = value;
    }
}

#[test]
fn falling_gradient_ramps_down() {
    let gradient = Gradient::new(200, 100, 0, 10);
    assert_eq!(gradient.generate(0), 200);
    assert_eq!(gradient.generate(5), 150);
    assert_eq!(gradient.generate(10), 100);
    assert_eq!(gradient.generate(11), 100);
}

#[test]
fn absolute_gradient_is_symmetric_around_the_start() {
    let gradient = Gradient::new(100, 200, 10, 10);
    assert_eq!(gradient.generate_absolute(10), 100);
    assert_eq!(gradient.generate_absolute(5), 150);
    assert_eq!(gradient.generate_absolute(15), 150);
    assert_eq!(gradient.generate_absolute(0), 200);
    assert_eq!(gradient.generate_absolute(20), 200);
    assert_eq!(gradient.generate_absolute(100), 200);
}

#[test]
fn noise_is_deterministic() {
    let data = NoiseData { seed: 300, scale: 5, min_value: 10, max_value: 128 };
    let a = Noise::new(data).unwrap();
    let b = Noise::new(data).unwrap();
    for x in 0u32..200 {
        assert_eq!(a.generate1d(x), b.generate1d(x));
        for y in 0u32..20 {
            assert_eq!(a.generate2d(x, y), b.generate2d(x, y));
        }
    }
}

#[test]
fn noise_stays_in_its_range() {
    let data = NoiseData { seed: 42, scale: 3, min_value: 10, max_value: 20 };
    let noise = Noise::new(data).unwrap();
    for x in 0u32..300 {
        let value1 = noise.generate1d(x);
        assert!((10..=20).contains(&value1));
        let value2 = noise.generate2d(x, x / 2);
        assert!((10..=20).contains(&value2));
    }
}

#[test]
fn noise_with_a_collapsed_range_is_constant() {
    let data = NoiseData { seed: 7, scale: 1, min_value: 5, max_value: 5 };
    let noise = Noise::new(data).unwrap();
    for x in 0u32..100 {
        assert_eq!(noise.generate1d(x), 5);
        assert_eq!(noise.generate2d(x, 99 - x), 5);
    }
}

#[test]
fn noise_rejects_an_inverted_range() {
    let data = NoiseData { seed: 0, scale: 1, min_value: 9, max_value: 8 };
    assert_eq!(Noise::new(data), Err(NoiseError::RangeIsInverted(9, 8)));
}

#[test]
fn noise_rejects_a_zero_scale() {
    let data = NoiseData { seed: 0, scale: 0, min_value: 0, max_value: 255 };
    assert_eq!(Noise::new(data), Err(NoiseError::ScaleIsZero));
}

#[test]
fn apply_to_x_feeds_the_x_coordinate() {
    let generator = Generator2d::new_apply_to_x(Generator1d::InputAsOutput);
    assert_eq!(generator.generate(0, 0), 0);
    assert_eq!(generator.generate(1, 0), 1);
    assert_eq!(generator.generate(2, 0), 2);
    assert_eq!(generator.generate(0, 1), 0);
    assert_eq!(generator.generate(1, 1), 1);
    assert_eq!(generator.generate(2, 1), 2);
    assert_eq!(generator.generate(0, 2), 0);
    assert_eq!(generator.generate(1, 2), 1);
    assert_eq!(generator.generate(2, 2), 2);
}

#[test]
fn apply_to_y_feeds_the_y_coordinate() {
    let generator = Generator2d::new_apply_to_y(Generator1d::InputAsOutput);
    assert_eq!(generator.generate(0, 0), 0);
    assert_eq!(generator.generate(1, 0), 0);
    assert_eq!(generator.generate(2, 0), 0);
    assert_eq!(generator.generate(0, 1), 1);
    assert_eq!(generator.generate(1, 1), 1);
    assert_eq!(generator.generate(2, 1), 1);
    assert_eq!(generator.generate(0, 2), 2);
    assert_eq!(generator.generate(1, 2), 2);
    assert_eq!(generator.generate(2, 2), 2);
}

#[test]
fn apply_to_distance_feeds_the_rounded_distance() {
    let generator = Generator2d::new_apply_to_distance(Generator1d::InputAsOutput, 10, 5);
    assert_eq!(generator.generate(10, 5), 0);
    assert_eq!(generator.generate(10, 0), 5);
    assert_eq!(generator.generate(10, 10), 5);
    assert_eq!(generator.generate(5, 5), 5);
    assert_eq!(generator.generate(15, 5), 5);
    assert_eq!(generator.generate(13, 9), 5);
}

#[test]
fn index_generator_returns_the_linear_index() {
    let generator = Generator2d::new_index(2, 3);
    assert_eq!(generator.generate(0, 0), 0);
    assert_eq!(generator.generate(1, 0), 1);
    assert_eq!(generator.generate(0, 1), 2);
    assert_eq!(generator.generate(1, 1), 3);
    assert_eq!(generator.generate(0, 2), 4);
    assert_eq!(generator.generate(1, 2), 5);
}

#[test]
fn index_generator_clamps_the_coordinates() {
    let generator = Generator2d::new_index(2, 3);
    assert_eq!(generator.generate(9, 9), 5);
}

#[test]
fn generator2d_records_round_trip() {
    let noise_data = NoiseData { seed: 300, scale: 5, min_value: 10, max_value: 128 };
    assert_round_trip(Generator2dData::ApplyToX(Generator1dData::InputAsOutput));
    assert_round_trip(Generator2dData::ApplyToY(Generator1dData::InputAsOutput));
    assert_round_trip(Generator2dData::ApplyToDistance {
        generator: Generator1dData::InputAsOutput,
        center_x: 10,
        center_y: 20,
    });
    assert_round_trip(Generator2dData::IndexGenerator(Size2d::new(3, 5)));
    assert_round_trip(Generator2dData::Noise(noise_data));
}

#[test]
fn generator1d_records_round_trip() {
    let records = vec![
        Generator1dData::InputAsOutput,
        Generator1dData::Constant(42),
        Generator1dData::Gradient(Gradient::new(1, 2, 3, 4)),
        Generator1dData::AbsoluteGradient(Gradient::new(9, 8, 7, 6)),
        Generator1dData::Noise(NoiseData { seed: 1, scale: 2, min_value: 3, max_value: 4 }),
    ];
    for record in records {
        let generator = record.try_convert().unwrap();
        assert_eq!(generator.convert(), record);
    }
}

#[test]
fn generator1d_propagates_an_invalid_noise_record() {
    let record = Generator1dData::Noise(NoiseData { seed: 1, scale: 2, min_value: 5, max_value: 4 });
    assert!(record.try_convert().is_err());
}

#[test]
fn size2d_converts_coordinates_to_indices() {
    let size = Size2d::new(3, 3);
    assert_eq!(size.get_area(), 9);
    assert_eq!(size.to_index_risky(1, 2), 7);
    assert_eq!(size.saturating_to_index(1, 2), 7);
    assert_eq!(size.saturating_to_index(5, 5), 8);
    assert_eq!(size.saturating_to_index(5, 0), 2);
}

#[test]
fn distances_round_to_the_nearest_integer() {
    assert_eq!(calculate_distance(0, 0, 3, 4), 5);
    assert_eq!(calculate_distance(3, 4, 0, 0), 5);
    assert_eq!(calculate_distance(7, 7, 7, 7), 0);
    assert_eq!(calculate_distance(0, 0, 1, 1), 1);
    assert_eq!(calculate_distance(0, 0, 2, 1), 2);
    assert_eq!(calculate_distance(0, 0, 2, 2), 3);
    assert_eq!(calculate_distance(0, 0, u32::MAX, u32::MAX), u32::MAX);
}
