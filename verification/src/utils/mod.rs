pub mod stock;
