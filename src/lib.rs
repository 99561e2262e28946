pub mod capture;
pub mod chunkbuffer;
pub mod commands;
pub mod text;
