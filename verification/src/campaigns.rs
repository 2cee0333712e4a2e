pub mod campaign;
pub mod campaign_description;
pub mod scene;
