//! Extraction of aviation weather reports from the XML feed of a weather data
//! service: the search for one station's report, the listing of stations, and
//! the reading of the command line.
pub mod events;
pub mod text;
pub mod record;
pub mod scanner;
pub mod laws;
pub mod cli;
