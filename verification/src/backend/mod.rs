pub mod architecture;
pub mod associated;
pub mod text_builder;
