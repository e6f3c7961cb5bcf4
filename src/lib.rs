use vstd::prelude::*;

pub mod csv;
pub mod gc;
pub mod layout;
pub mod naming;
pub mod orchestrator;
pub mod reconcile;
pub mod status;

pub use csv::{
    default_buffer_size_records, CsvEncoder, CsvEncoderConfig, CsvInputFormat, CsvOutputFormat,
    CsvParser, CsvParserConfig,
};
pub use status::{ProgramStatus, SqlCompilerMessage};

verus! {

} // verus!
