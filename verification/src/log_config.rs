use vstd::prelude::*;

verus! {

/// Settings for the application's rotating log: how large the live file may
/// grow, how many archives are kept, the level name and whether lines are
/// echoed to standard output. Reading and writing the file that persists
/// these settings is the caller's business; this type only carries and
/// validates the values.
pub struct LogConfig {
    /// Maximum size of the live log file in bytes; `None` selects the
    /// backend's built-in default.
    pub max_file_size: Option<u128>,
    /// How many rotated archive files are kept.
    pub keep_files: usize,
    /// Log level name, e.g. "Info" or "Debug"; parsed by the logging backend,
    /// so it is not checked here.
    pub level: String,
    /// Whether log lines are echoed to standard output as well.
    pub to_stdout: bool,
}

impl LogConfig {
    /// The rotation parameters are meaningful: at least one archive is kept,
    /// and an explicit size limit is not zero.
    pub open spec fn spec_valid(self) -> bool {
        &&& self.keep_files != 0
        &&& (self.max_file_size matches Some(v) ==> v != 0)
    }

    /// Checks the rotation parameters, reporting the first offence.
    pub fn validate(&self) -> (r: Result<(), String>)
        ensures
            r is Ok <==> self.spec_valid(),
            self.keep_files == 0 ==> (r matches Err(e) && e@ == "keep_files must be >= 1"@),
            self.keep_files != 0 && (self.max_file_size matches Some(v) && v == 0) ==> (r
                matches Err(e) && e@ == "max_file_size must be > 0"@),
    {
        if self.keep_files == 0 {
            return Err("keep_files must be >= 1".to_owned());
        }
        if let Some(v) = self.max_file_size {
            if v == 0 {
                return Err("max_file_size must be > 0".to_owned());
            }
        }
        Ok(())
    }
}

impl Default for LogConfig {
    /// 10 MB files, ten archives, level "Info", echoed to standard output.
    fn default() -> (r: Self)
        ensures
            r.max_file_size == Some(10485760u128),
            r.keep_files == 10,
            r.level@ == "Info"@,
            r.to_stdout == true,
            r.spec_valid(),
    {
        LogConfig {
            max_file_size: Some(10 * 1024 * 1024),
            keep_files: 10,
            level: "Info".to_owned(),
            to_stdout: true,
        }
    }
}

} // verus!
