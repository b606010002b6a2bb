pub mod minecraft_assets;
pub mod minecraft_start_parameter;
