pub mod card;
pub mod deck;
pub mod game;
pub mod game_result;
pub mod hand;
pub mod strategy;
pub mod support_functions;
