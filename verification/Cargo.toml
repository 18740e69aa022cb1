[package]
name = "ts_analyzer"
version = "0.1.0"
edition = "2021"
publish = false

[dependencies]
biome_js_parser = "=0.5.7"
biome_js_syntax = "=0.5.7"
biome_rowan = "=0.5.7"
biome_parser = "=0.5.7"
biome_diagnostics = "=0.5.7"
biome_console = "=0.5.7"
biome_text_edit = "=0.5.7"
biome_text_size = "=0.5.7"
biome_unicode_table = "=0.5.7"
rustc-hash = "=2.1.3"
