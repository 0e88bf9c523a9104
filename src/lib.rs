pub mod fraction_num;
pub mod game;
