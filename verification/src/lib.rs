//! Verified core of a census output-area atlas: boundary ingestion,
//! ring decomposition, coordinate projection, bounds-checked rasterization
//! planning, population-table aggregation, and dataset file-name parsing.

pub mod area;
pub mod boundary;
pub mod census_file_name_parse;
pub mod coords;
pub mod numparse;
pub mod population_and_density_per_output_area;
pub mod registry;
pub mod render;
pub mod strutil;
