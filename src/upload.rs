use vstd::prelude::*;

verus! {

/// Firmware files that entering download-agent mode needs.
#[derive(Debug, Clone, PartialEq, Eq)]
pub struct DaArgs {
    /// The download agent to load.
    pub da_file: String,
    /// The preloader to load first, if the device needs one.
    pub preloader_file: Option<String>,
}

/// Arguments of the command that reads a partition back from the device
/// into a file on the host.
#[derive(Debug, Clone, PartialEq, Eq)]
pub struct UploadArgs {
    pub da: DaArgs,
    /// The partition to read.
    pub partition: String,
    /// The destination file.
    pub output_file: String,
}

impl UploadArgs {
    /// The download agent file; this command always has one.
    pub fn da(&self) -> (r: Option<&String>)
        ensures
            r matches Some(f) && *f == self.da.da_file,
    {
        Some(&self.da.da_file)
    }

    /// The preloader file, if one was given.
    pub fn pl(&self) -> (r: Option<&String>)
        ensures
            match self.da.preloader_file {
                None => r is None,
                Some(p) => r matches Some(f) && *f == p,
            },
    {
        match &self.da.preloader_file {
            Some(p) => Some(p),
            None => None,
        }
    }
}

} // verus!
