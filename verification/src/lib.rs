pub mod action_csv_row;
pub mod csv_processor;
pub mod detection;
pub mod laws;
pub mod parsing;
pub mod plot_point_processors;
pub mod row_processing;
pub mod scatter_points;
pub mod state_management;
pub mod text;
pub mod util;

pub use csv_processor::process_csv;
