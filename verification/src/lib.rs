//! Verified core of a drawing game in which pictures are approximated by circles.

pub mod chat;
pub mod chat_laws;
pub mod circle_laws;
pub mod circle_shape;
pub mod cleanup;
pub mod drawing;
pub mod events;
pub mod evolution;
pub mod game_laws;
pub mod handlers;
pub mod image_diff;
pub mod lobby;
pub mod pixel_laws;
pub mod random;
pub mod random_shape;
pub mod raster;
pub mod room;
pub mod room_laws;
pub mod shape_laws;
pub mod text;
