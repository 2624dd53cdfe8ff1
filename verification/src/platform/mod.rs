pub mod associated;
