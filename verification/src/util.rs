pub mod asset_key_error;
pub mod enum_map;
pub mod text;
