//! Decoding of a probed arena cell into typed values.
//!
//! The host fills five unsigned slots: the item tag, three auxiliary values
//! whose meaning depends on the tag, and the poison on the cell. Poison is
//! independent of the item and is never folded into the tag. A tag outside
//! the four defined ones is a breach of the host's contract and is reported,
//! never read as some variant.
use vstd::prelude::*;
use crate::raw::{
    OUT_HEALTH, OUT_POISON, OUT_SNAKE_ID, OUT_TEAM_ID, OUT_TYPE, TYPE_EMPTY, TYPE_FOOD,
    TYPE_SNAKE_BODY, TYPE_SNAKE_HEAD,
};
use crate::rules::MAX_HEALTH;

verus! {

/// What occupies a cell, besides poison.
#[derive(Debug, Copy, Clone, PartialEq, Eq, Hash, Structural)]
pub enum ObservationItem {
    Food(FoodInfo),
    SnakeHead(SnakeInfo),
    SnakeBody(SnakeInfo),
}

/// The content of one arena cell at the instant it was probed.
#[derive(Debug, Copy, Clone, PartialEq, Eq, Hash, Structural)]
pub struct Observation {
    /// The amount of damage to a snake's health if the head of a snake
    /// is on top of poison at the end of a tick.
    pub poison: u32,
    /// The item at this location, if any.
    pub item: Option<ObservationItem>,
}

#[derive(Debug, Copy, Clone, PartialEq, Eq, Hash, Structural)]
pub struct FoodInfo {
    /// The amount of health that a snake will gain by eating this food.
    pub health_value: u32,
}

/// The snake that a head or body segment belongs to.
#[derive(Debug, Copy, Clone, PartialEq, Eq, Hash, Structural)]
pub struct SnakeInfo {
    pub team_id: u32,
    pub snake_id: u32,
    pub health: u32,
}

/// Why a probed cell could not be decoded.
#[derive(Debug, Copy, Clone, PartialEq, Eq, Hash, Structural)]
pub enum DecodeError {
    /// The host reported an item tag outside the defined ones.
    UnknownTag(u32),
}

/// Whether a tag is one of the four item tags that the host defines.
pub open spec fn is_known_tag(tag: u32) -> bool {
    tag == TYPE_EMPTY || tag == TYPE_FOOD || tag == TYPE_SNAKE_HEAD || tag == TYPE_SNAKE_BODY
}

/// The snake described by the three auxiliary slots.
pub open spec fn snake_in(out: [u32; 5]) -> SnakeInfo {
    SnakeInfo {
        team_id: out[OUT_TEAM_ID as int],
        snake_id: out[OUT_SNAKE_ID as int],
        health: out[OUT_HEALTH as int],
    }
}

/// The decoding table: the tag picks the variant, the auxiliary slots fill
/// its fields verbatim (food takes its health value from the first one), and
/// the poison slot is read whatever the tag.
pub open spec fn decoded(out: [u32; 5]) -> Result<Observation, DecodeError> {
    let tag = out[OUT_TYPE as int];
    let poison = out[OUT_POISON as int];
    if tag == TYPE_EMPTY {
        Ok(Observation { poison, item: None })
    } else if tag == TYPE_FOOD {
        Ok(
            Observation {
                poison,
                item: Some(ObservationItem::Food(FoodInfo { health_value: out[OUT_TEAM_ID as int] })),
            },
        )
    } else if tag == TYPE_SNAKE_HEAD {
        Ok(Observation { poison, item: Some(ObservationItem::SnakeHead(snake_in(out))) })
    } else if tag == TYPE_SNAKE_BODY {
        Ok(Observation { poison, item: Some(ObservationItem::SnakeBody(snake_in(out))) })
    } else {
        Err(DecodeError::UnknownTag(tag))
    }
}

/// The snake that an observation shows, head or body.
pub open spec fn snake_seen(o: Observation) -> Option<SnakeInfo> {
    match o.item {
        Some(ObservationItem::SnakeHead(s)) => Some(s),
        Some(ObservationItem::SnakeBody(s)) => Some(s),
        _ => None,
    }
}

/// Decodes the five slots that the host wrote for one cell.
pub fn decode_observation(out: [u32; 5]) -> (r: Result<Observation, DecodeError>)
    ensures
        r == decoded(out),
        r is Ok <==> is_known_tag(out[OUT_TYPE as int]),
{
    let poison = out[OUT_POISON];
    let tag = out[OUT_TYPE];
    if tag == TYPE_EMPTY {
        Ok(Observation { poison, item: None })
    } else if tag == TYPE_FOOD {
        Ok(
            Observation {
                poison,
                item: Some(ObservationItem::Food(FoodInfo { health_value: out[OUT_TEAM_ID] })),
            },
        )
    } else if tag == TYPE_SNAKE_HEAD || tag == TYPE_SNAKE_BODY {
        let snake = SnakeInfo {
            team_id: out[OUT_TEAM_ID],
            snake_id: out[OUT_SNAKE_ID],
            health: out[OUT_HEALTH],
        };
        let item = if tag == TYPE_SNAKE_HEAD {
            ObservationItem::SnakeHead(snake)
        } else {
            ObservationItem::SnakeBody(snake)
        };
        Ok(Observation { poison, item: Some(item) })
    } else {
        Err(DecodeError::UnknownTag(tag))
    }
}

/// Decoding is total over the defined tags: each of them gives its own
/// variant, whose fields are the auxiliary slots unchanged, beside the poison
/// slot unchanged.
pub proof fn lemma_decode_known_tags(out: [u32; 5])
    requires
        is_known_tag(out[0]),
    ensures
        decoded(out) is Ok,
        decoded(out)->Ok_0.poison == out[4],
        out[0] == TYPE_EMPTY ==> decoded(out)->Ok_0.item is None,
        out[0] == TYPE_FOOD ==> decoded(out)->Ok_0.item == Some(
            ObservationItem::Food(FoodInfo { health_value: out[1] }),
        ),
        out[0] == TYPE_SNAKE_HEAD ==> decoded(out)->Ok_0.item == Some(
            ObservationItem::SnakeHead(SnakeInfo { team_id: out[1], snake_id: out[2], health: out[3] }),
        ),
        out[0] == TYPE_SNAKE_BODY ==> decoded(out)->Ok_0.item == Some(
            ObservationItem::SnakeBody(SnakeInfo { team_id: out[1], snake_id: out[2], health: out[3] }),
        ),
{
}

/// A tag outside the defined ones never decodes to an observation, empty or
/// otherwise: it is reported with the offending tag.
pub proof fn lemma_decode_unknown_tag(out: [u32; 5])
    requires
        !is_known_tag(out[0]),
    ensures
        decoded(out) == Err::<Observation, DecodeError>(DecodeError::UnknownTag(out[0])),
        !(decoded(out) is Ok),
{
}

/// Every snake health decoded from a run of cells lies in [0, 100], provided
/// the host reported each within the game's bound: decoding passes health on
/// unchanged and never raises it.
pub proof fn lemma_decoded_health_bounded(outs: Seq<[u32; 5]>)
    requires
        forall|i: int| 0 <= i < outs.len() ==> outs[i][OUT_HEALTH as int] <= MAX_HEALTH,
    ensures
        forall|i: int|
            0 <= i < outs.len() && #[trigger] decoded(outs[i]) is Ok && snake_seen(
                decoded(outs[i])->Ok_0,
            ) is Some ==> 0 <= snake_seen(decoded(outs[i])->Ok_0)->Some_0.health <= 100,
{
}

} // verus!
