use ofws_core::distortion1d::Distortion1d;
use ofws_core::distortion1d::Distortion1dData;
use ofws_core::generator1d::Generator1d;
use ofws_core::generator1d::Generator1dData;
use ofws_core::generator1d::Generator1dError;
use ofws_core::map2d::AttributeCreationError;
use ofws_core::map2d::Map2d;
use ofws_core::modify::ModifyWithAttribute;
use ofws_core::modify::ModifyWithAttributeData;
use ofws_core::noise::NoiseData;
use ofws_core::noise::NoiseError;
use ofws_core::size2d::Size2d;
use ofws_core::step::get_attribute_id;
use ofws_core::step::GenerationStepError;

fn test_map() -> (Map2d, usize) {
    let size = Size2d::new(3, 3);
    let mut map = Map2d::new(size);
    let values = vec![1, 2, 3, 4, 5, 6, 7, 8, 9];
    let attribute_id = map.create_attribute_from("test", values).unwrap();
    (map, attribute_id)
}

#[test]
fn distort_along_x_replicates_the_left_edge() {
    let (mut map, attribute_id) = test_map();
    let step = Distortion1d::new(attribute_id, Generator1d::InputAsOutput);

    step.distort_along_x(&mut map);

    let attribute = map.get_attribute(attribute_id);
    assert_eq!(attribute.get_all(), &vec![1u8, 2, 3, 4, 4, 5, 7, 7, 7]);
}

#[test]
fn distort_along_y_replicates_the_top_edge() {
    let (mut map, attribute_id) = test_map();
    let step = Distortion1d::new(attribute_id, Generator1d::InputAsOutput);

    step.distort_along_y(&mut map);

    let attribute = map.get_attribute(attribute_id);
    assert_eq!(attribute.get_all(), &vec![1u8, 2, 3, 4, 2, 3, 7, 5, 3]);
}

#[test]
fn distort_along_x_with_a_shift_beyond_the_width_floods_the_row() {
    let size = Size2d::new(2, 2);
    let mut map = Map2d::new(size);
    let attribute_id = map.create_attribute_from("test", vec![1, 2, 3, 4]).unwrap();
    let step = Distortion1d::new(attribute_id, Generator1d::Constant(5));

    step.distort_along_x(&mut map);

    let attribute = map.get_attribute(attribute_id);
    assert_eq!(attribute.get_all(), &vec![1u8, 1, 3, 3]);
}

#[test]
fn distortion_record_round_trips() {
    let data = Distortion1dData::new("test".to_string(), Generator1dData::InputAsOutput);
    let attributes = vec!["test".to_string()];
    let step: Distortion1d = data.clone().try_convert(&attributes).unwrap();
    let result: Distortion1dData = step.convert(&attributes);
    assert_eq!(data, result);
}

#[test]
fn distortion_record_rejects_an_unknown_attribute() {
    let data = Distortion1dData::new("other".to_string(), Generator1dData::InputAsOutput);
    let attributes = vec!["test".to_string()];
    let result = data.try_convert(&attributes);
    assert_eq!(
        result.unwrap_err(),
        GenerationStepError::UnknownAttribute("other".to_string())
    );
}

#[test]
fn distortion_record_rejects_an_invalid_generator() {
    let noise = NoiseData { seed: 0, scale: 1, min_value: 9, max_value: 3 };
    let data = Distortion1dData::new("test".to_string(), Generator1dData::Noise(noise));
    let attributes = vec!["test".to_string()];
    let result = data.try_convert(&attributes);
    assert_eq!(
        result.unwrap_err(),
        GenerationStepError::Generator1d(Generator1dError::Noise(NoiseError::RangeIsInverted(
            9, 3
        )))
    );
}

#[test]
fn modify_blends_the_target_with_the_source() {
    let size = Size2d::new(2, 2);
    let mut map = Map2d::new(size);
    let source_id = map.create_attribute_from("source", vec![0, 10, 20, 255]).unwrap();
    let target_id = map.create_attribute_from("target", vec![10, 20, 30, 40]).unwrap();
    let step = ModifyWithAttribute::new(source_id, target_id, 50, 10);

    step.run(&mut map);

    assert_eq!(map.get_attribute(source_id).get_all(), &vec![0u8, 10, 20, 255]);
    assert_eq!(map.get_attribute(target_id).get_all(), &vec![10u8, 20, 35, 162]);
}

#[test]
fn modify_with_a_negative_percentage_clamps_at_zero() {
    let size = Size2d::new(2, 2);
    let mut map = Map2d::new(size);
    let source_id = map.create_attribute_from("source", vec![0, 10, 20, 255]).unwrap();
    let target_id = map.create_attribute_from("target", vec![10, 20, 30, 40]).unwrap();
    let step = ModifyWithAttribute::new(source_id, target_id, -100, 10);

    step.run(&mut map);

    assert_eq!(map.get_attribute(target_id).get_all(), &vec![10u8, 20, 20, 0]);
}

#[test]
fn modify_record_round_trips() {
    let data = ModifyWithAttributeData::new("source".to_string(), "target".to_string(), -30, 7);
    let attributes = vec!["source".to_string(), "target".to_string()];
    let step: ModifyWithAttribute = data.clone().try_convert(&attributes).unwrap();
    let result: ModifyWithAttributeData = step.convert(&attributes);
    assert_eq!(data, result);
}

#[test]
fn modify_record_rejects_an_unknown_source() {
    let data = ModifyWithAttributeData::new("absent".to_string(), "target".to_string(), 10, 0);
    let attributes = vec!["target".to_string()];
    assert_eq!(
        data.try_convert(&attributes).unwrap_err(),
        GenerationStepError::UnknownAttribute("absent".to_string())
    );
}

#[test]
fn modify_record_rejects_an_unknown_target() {
    let data = ModifyWithAttributeData::new("source".to_string(), "absent".to_string(), 10, 0);
    let attributes = vec!["source".to_string()];
    assert_eq!(
        data.try_convert(&attributes).unwrap_err(),
        GenerationStepError::UnknownAttribute("absent".to_string())
    );
}

#[test]
fn attribute_creation_requires_the_exact_area() {
    let mut map = Map2d::new(Size2d::new(3, 3));
    let result = map.create_attribute_from("test", vec![1, 2, 3]);
    assert_eq!(
        result.unwrap_err(),
        AttributeCreationError::SizeMismatch { actual: 3, expected: 9 }
    );
    assert_eq!(map.get_attribute_count(), 0);
}

#[test]
fn attribute_creation_rejects_a_taken_name() {
    let mut map = Map2d::new(Size2d::new(1, 2));
    let first = map.create_attribute_from("test", vec![1, 2]).unwrap();
    assert_eq!(first, 0);
    let result = map.create_attribute_from("test", vec![3, 4]);
    assert_eq!(result.unwrap_err(), AttributeCreationError::NameExists(0));
    assert_eq!(map.get_attribute_count(), 1);
}

#[test]
fn attribute_ids_are_positions_in_creation_order() {
    let mut map = Map2d::new(Size2d::new(1, 1));
    assert_eq!(map.create_attribute_from("a", vec![1]).unwrap(), 0);
    assert_eq!(map.create_attribute_from("b", vec![2]).unwrap(), 1);
    assert_eq!(map.create_attribute_from("c", vec![3]).unwrap(), 2);
    assert_eq!(map.get_attribute(1).get_name(), "b");
    assert_eq!(map.get_attribute(1).get_all(), &vec![2u8]);
    assert_eq!(map.get_name(), "map");
    assert_eq!(map.get_size(), Size2d::new(1, 1));
}

#[test]
fn attribute_names_resolve_to_their_first_position() {
    let attributes = vec!["height".to_string(), "moisture".to_string()];
    assert_eq!(get_attribute_id(&"height".to_string(), &attributes).unwrap(), 0);
    assert_eq!(get_attribute_id(&"moisture".to_string(), &attributes).unwrap(), 1);
    assert_eq!(
        get_attribute_id(&"absent".to_string(), &attributes).unwrap_err(),
        GenerationStepError::UnknownAttribute("absent".to_string())
    );
}
