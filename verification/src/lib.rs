//! A 2D geometry toolkit: points, vectors, sizes, rectangles, circles and
//! colors over exact integer coordinates, with pairwise collision predicates
//! (`is_crossing` and `contains`) for every ordered pair drawn from
//! {point, circle, axis-aligned rectangle}.

mod cast;
mod circle;
mod collision;
mod color;
mod point;
mod rect;
mod scalar;
mod size;
mod vector;

pub use circle::Circle;
pub use circle::circle;
pub use collision::Collision;
pub use collision::circle_circle_contains;
pub use collision::circle_circle_crossing;
pub use collision::circle_point_crossing;
pub use collision::circle_rect_contains;
pub use collision::clamp;
pub use collision::contains;
pub use collision::in_circle;
pub use collision::in_corner_region;
pub use collision::is_crossing;
pub use collision::lemma_boundary_point_on_circle;
pub use collision::lemma_boundary_point_on_rect;
pub use collision::lemma_contains_implies_crossing_circle_circle;
pub use collision::lemma_contains_implies_crossing_circle_point;
pub use collision::lemma_contains_implies_crossing_circle_rect;
pub use collision::lemma_contains_implies_crossing_rect_circle;
pub use collision::lemma_contains_implies_crossing_rect_point;
pub use collision::lemma_contains_implies_crossing_rect_rect;
pub use collision::lemma_crossing_reflexive_circle;
pub use collision::lemma_crossing_reflexive_rect;
pub use collision::lemma_crossing_symmetric_circle_circle;
pub use collision::lemma_crossing_symmetric_circle_point;
pub use collision::lemma_crossing_symmetric_point_rect;
pub use collision::lemma_crossing_symmetric_rect_circle;
pub use collision::lemma_crossing_symmetric_rect_rect;
pub use collision::lemma_rect_circle_crossing_nearest_point;
pub use collision::nearest_sq_dist;
pub use collision::point_rect_crossing;
pub use collision::rect_circle_contains;
pub use collision::rect_circle_crossing;
pub use collision::rect_rect_contains;
pub use collision::rect_rect_crossing;
pub use collision::sq;
pub use color::Rgba;
pub use color::Values;
pub use color::rgba;
pub use point::Point;
pub use point::point;
pub use rect::Rect;
pub use rect::rect;
pub use scalar::div_trunc;
pub use size::Size;
pub use size::size;
pub use vector::Vector;
pub use vector::vector;
