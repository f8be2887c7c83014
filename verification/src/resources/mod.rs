pub mod textures;
