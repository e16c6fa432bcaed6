//! The operating systems the tool runs on, and what differs between them.

use vstd::prelude::*;

verus! {

/// Operating system, resolved once at startup.
#[derive(Clone, Copy, Debug, PartialEq, Eq, Structural)]
pub enum Platform {
    Windows,
    MacOs,
    Linux,
}

impl Platform {
    /// Whether `c` separates the components of a path.
    pub open spec fn separates(self, c: char) -> bool {
        c == '/' || (self == Platform::Windows && c == '\\')
    }

    /// Name of the command that looks a program up on the search path.
    pub open spec fn lookup_name(self) -> Seq<char> {
        if self == Platform::Windows {
            "where"@
        } else {
            "which"@
        }
    }

    /// File name of the extractor.
    pub open spec fn extractor_name(self) -> Seq<char> {
        if self == Platform::Windows {
            "yt-dlp.exe"@
        } else {
            "yt-dlp"@
        }
    }

    /// Address of the extractor's latest release.
    pub open spec fn extractor_address(self) -> Seq<char> {
        if self == Platform::Windows {
            "https://github.com/yt-dlp/yt-dlp/releases/latest/download/yt-dlp.exe"@
        } else {
            "https://github.com/yt-dlp/yt-dlp/releases/latest/download/yt-dlp"@
        }
    }

    /// Tells whether `c` separates the components of a path.
    pub fn is_separator(&self, c: char) -> (b: bool)
        ensures
            b == self.separates(c),
    {
        c == '/' || (matches!(self, Platform::Windows) && c == '\\')
    }

    /// Returns the command that looks a program up on the search path.
    pub fn lookup_command(&self) -> (name: &'static str)
        ensures
            name@ == self.lookup_name(),
    {
        match self {
            Platform::Windows => "where",
            _ => "which",
        }
    }

    /// Returns the file name under which the extractor is kept.
    pub fn extractor_file_name(&self) -> (name: &'static str)
        ensures
            name@ == self.extractor_name(),
    {
        match self {
            Platform::Windows => "yt-dlp.exe",
            _ => "yt-dlp",
        }
    }

    /// Returns the address from which the extractor is downloaded.
    pub fn extractor_url(&self) -> (url: &'static str)
        ensures
            url@ == self.extractor_address(),
    {
        match self {
            Platform::Windows => "https://github.com/yt-dlp/yt-dlp/releases/latest/download/yt-dlp.exe",
            _ => "https://github.com/yt-dlp/yt-dlp/releases/latest/download/yt-dlp",
        }
    }

    /// Tells whether a downloaded program must be marked executable.
    pub fn marks_executables(&self) -> (b: bool)
        ensures
            b == (*self != Platform::Windows),
    {
        !matches!(self, Platform::Windows)
    }
}

} // verus!
