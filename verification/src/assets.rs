pub mod asset;
pub mod asset_manager;
pub mod asset_scan;
pub mod asset_tree;
pub mod campaign_load;
pub mod directory_loader;
pub mod directory_tree;
pub mod directory_walk;
pub mod identifier;
pub mod io_failure;
pub mod load_asset_result;
pub mod manager_load;
pub mod reference_serializable;
