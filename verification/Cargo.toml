[package]
name = "jsx_lint"
version = "0.1.0"
edition = "2021"
publish = false

[dependencies]
biome_analyze = "=0.5.7"
biome_console = "=0.5.7"
biome_deserialize = "=0.6.0"
biome_deserialize_macros = "=0.6.0"
biome_diagnostics = "=0.5.7"
biome_js_semantic = "=0.5.7"
biome_js_syntax = "=0.5.7"
biome_parser = "=0.5.7"
biome_rowan = "=0.5.7"
biome_string_case = "=0.5.8"
biome_text_edit = "=0.5.7"
biome_text_size = "=0.5.7"
biome_unicode_table = "=0.5.7"
serde = { version = "1", features = ["derive"] }
