pub mod abilities;
pub mod class;
pub mod entity;
pub mod entityview;
pub mod race;
pub mod skills;
