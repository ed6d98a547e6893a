pub mod online_shop;
