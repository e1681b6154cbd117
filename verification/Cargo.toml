[package]
name = "lcd_lcm1602_i2c"
version = "0.3.0"
edition = "2021"
publish = false

[dependencies]
embedded-hal = "1.0"
embedded-hal-async = "1.0"
ufmt-write = "0.1"
