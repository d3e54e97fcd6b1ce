pub mod menu;
pub mod otter;
