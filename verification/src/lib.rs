//! Rapid serial visual presentation of text: a tokenizer with sentence
//! segmentation, a timing model, a reading cursor, anchor placement, frame
//! layout and the framing of terminal graphics commands.

pub mod text;
pub mod ovp;
pub mod token;
pub mod tokenizer;
pub mod config;
pub mod timing;
pub mod state;
pub mod renderer;
pub mod cell_renderer;
pub mod viewport;
pub mod canvas;
pub mod spans;
pub mod transmit;
pub mod kitty;
pub mod event;
pub mod command;
pub mod repl;
pub mod simple_repl;
pub mod mode;
pub mod render_state;
pub mod input;
pub mod epub;
pub mod capability;
pub mod app;
pub mod error;
pub mod reader_component;
pub mod session;
pub mod view;
