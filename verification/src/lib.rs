pub mod cells;
pub mod storage;
pub mod grid;
pub mod resolve;
pub mod win;
pub mod engine;
