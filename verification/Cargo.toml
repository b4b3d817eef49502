[package]
name = "tm1637_gpio_driver"
version = "0.4.0"
edition = "2021"
publish = false

[dependencies]
gpio = "=0.4.1"
gpio-cdev = "=0.6.0"
sysfs_gpio = "=0.6.2"
