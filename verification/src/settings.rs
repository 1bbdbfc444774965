use vstd::prelude::*;
use vstd::string::*;

verus! {

/// Run-wide options, loaded once at startup and read-only for the run's
/// lifetime.
pub struct Settings {
    /// Root directory for all artifacts.
    pub output_folder: String,
    /// Enables the container-conversion step of the pipeline.
    pub convert_to_mp4: bool,
    /// Selects a transcoder remux over a plain rename within the
    /// conversion step.
    pub use_ffmpeg_convert: bool,
    /// Enables the thumbnail-grid step of the pipeline.
    pub generate_contact_sheet: bool,
    /// Poll-loop sleep duration in seconds.
    pub check_interval: u64,
}

impl Settings {
    /// The options written into a freshly created configuration document.
    pub fn initial() -> (r: Settings)
        ensures
            r.output_folder@ =~= Seq::<char>::empty(),
            r.convert_to_mp4,
            r.use_ffmpeg_convert,
            r.generate_contact_sheet,
            r.check_interval == 60,
    {
        Settings {
            output_folder: String::new(),
            convert_to_mp4: true,
            use_ffmpeg_convert: true,
            generate_contact_sheet: true,
            check_interval: 60,
        }
    }

    /// The output folder must be prompted for exactly when the stored value
    /// is empty.
    pub fn needs_output_folder(&self) -> (r: bool)
        ensures
            r == (self.output_folder@.len() == 0),
    {
        self.output_folder.as_str().unicode_len() == 0
    }
}

} // verus!
