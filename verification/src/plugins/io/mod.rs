//! The I/O plugin's configuration and the decisions its reader and writer
//! systems take on each tick. Opening, decoding and saving files happen
//! around these decisions, outside the library.

pub mod config;
pub mod image_reader;
pub mod image_writer;

use vstd::prelude::*;

use crate::engine::pipeline::{Registration, SystemKind};
use crate::engine::schedule::Stage;
use config::ImageFormat;

verus! {

/// Source and destination of the I/O systems, with the index of the next
/// frame to read. Paths are held in their displayed (UTF-8) form.
#[derive(Debug, Clone)]
pub struct IoConfig {
    /// Path of the input image or video.
    pub input_path: String,
    /// Path the output frame is written to.
    pub output_path: String,
    /// Format of the written frame.
    pub format: ImageFormat,
    /// Index of the next frame to read (advanced by the reader).
    pub next_index: u64,
}

impl IoConfig {
    /// The configuration an I/O plugin installs: its paths and format,
    /// reading from frame 0.
    pub fn new(input_path: String, output_path: String, format: ImageFormat) -> (res: IoConfig)
        ensures
            res.input_path == input_path,
            res.output_path == output_path,
            res.format == format,
            res.next_index == 0,
    {
        IoConfig { input_path, output_path, format, next_index: 0 }
    }

}

/// The systems the I/O plugin registers: the reader in the input stage,
/// the writer in the output stage.
pub fn io_registrations() -> (res: Vec<Registration>)
    ensures
        res@ == seq![
            Registration { stage: Stage::Input, system: SystemKind::ImageReader },
            Registration { stage: Stage::Output, system: SystemKind::ImageWriter },
        ],
{
    let mut res: Vec<Registration> = Vec::new();
    res.push(Registration { stage: Stage::Input, system: SystemKind::ImageReader });
    res.push(Registration { stage: Stage::Output, system: SystemKind::ImageWriter });
    proof {
        assert(res@ =~= seq![
            Registration { stage: Stage::Input, system: SystemKind::ImageReader },
            Registration { stage: Stage::Output, system: SystemKind::ImageWriter },
        ]);
    }
    res
}

} // verus!
