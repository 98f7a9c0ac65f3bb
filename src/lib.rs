pub mod address;
pub mod corpus;
pub mod render;
pub mod resolve;
pub mod text;
pub mod title;
