use snake_sdk::observation::decode_observation;
use snake_sdk::{get_arena_size, DecodeError, FoodInfo, Observation, ObservationItem, SnakeInfo};

#[test]
fn snake_head_in_ten_by_ten_arena() {
    // Cell (3, 3) of a 10 x 10 arena holds the head of snake 42 of team 7.
    let (width, height) = get_arena_size(10, 10);
    assert!(3 < width && 3 < height);
    let o = decode_observation([2, 7, 42, 55, 0]).unwrap();
    assert_eq!(
        o.item,
        Some(ObservationItem::SnakeHead(SnakeInfo { team_id: 7, snake_id: 42, health: 55 }))
    );
    assert_eq!(o.poison, 0);
}

#[test]
fn empty_cell_keeps_poison() {
    assert_eq!(
        decode_observation([0, 0, 0, 0, 6]),
        Ok(Observation { poison: 6, item: None })
    );
}

#[test]
fn food_takes_its_value_from_first_aux_slot() {
    assert_eq!(
        decode_observation([1, 25, 0, 0, 0]),
        Ok(Observation { poison: 0, item: Some(ObservationItem::Food(FoodInfo { health_value: 25 })) })
    );
}

#[test]
fn snake_body_fields_are_verbatim() {
    assert_eq!(
        decode_observation([3, 1, 2, 100, 9]),
        Ok(Observation {
            poison: 9,
            item: Some(ObservationItem::SnakeBody(SnakeInfo { team_id: 1, snake_id: 2, health: 100 })),
        })
    );
}

#[test]
fn every_known_tag_decodes_its_slots() {
    let aux = [11u32, 22, 33];
    for tag in 0u32..4 {
        let o = decode_observation([tag, aux[0], aux[1], aux[2], 44]).unwrap();
        assert_eq!(o.poison, 44);
        let snake = SnakeInfo { team_id: 11, snake_id: 22, health: 33 };
        let expected = match tag {
            0 => None,
            1 => Some(ObservationItem::Food(FoodInfo { health_value: 11 })),
            2 => Some(ObservationItem::SnakeHead(snake)),
            _ => Some(ObservationItem::SnakeBody(snake)),
        };
        assert_eq!(o.item, expected);
    }
}

#[test]
fn unknown_tag_is_an_error() {
    assert_eq!(decode_observation([4, 7, 42, 55, 0]), Err(DecodeError::UnknownTag(4)));
    assert_eq!(
        decode_observation([u32::MAX, 0, 0, 0, 0]),
        Err(DecodeError::UnknownTag(u32::MAX))
    );
}

#[test]
fn decoded_health_stays_in_bound() {
    let cells = [[2, 1, 1, 0, 0], [3, 1, 1, 100, 0], [2, 2, 5, 57, 3], [1, 80, 0, 0, 0]];
    for cell in cells {
        match decode_observation(cell).unwrap().item {
            Some(ObservationItem::SnakeHead(s)) | Some(ObservationItem::SnakeBody(s)) => {
                assert!(s.health <= 100)
            }
            _ => {}
        }
    }
}
