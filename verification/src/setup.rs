//! Resolution of the two external tools before any download starts.
//!
//! The caller does the outside work: it runs programs, asks the user, and
//! touches the file system and the network. `check_dependencies` decides.
//! It is handed what happened last and answers with what to do next, until
//! it answers `Finish`, `Fail`, `Leave` or `ShowInstructions`. What the user
//! is told of each step is given by `status_lines`, and the text of a
//! failure by `failure_text`.

use crate::platform::Platform;
use crate::text::{decode, trim, trimmed, views};
use vstd::prelude::*;
use vstd::slice::slice_to_vec;
use vstd::string::*;
use vstd::utf8::*;

verus! {

/// Directory that receives the extractor.
pub const APP_DIR: &'static str = "ytpd";

/// Where the two external tools were found.
#[derive(Debug, PartialEq, Eq)]
pub struct SetupConfig {
    /// Path of the extractor.
    pub yt_dlp_path: String,
    /// Path of the encoder, where one was looked for.
    pub ffmpeg_path: Option<String>,
}

/// A package manager that can install the encoder on Linux.
#[derive(Clone, Copy, Debug, PartialEq, Eq, Structural)]
pub enum PackageManager {
    Apt,
    Dnf,
    Pacman,
}

/// A program that the setup runs.
#[derive(Clone, Copy, Debug, PartialEq, Eq, Structural)]
pub enum Command {
    /// Looks the encoder up on the search path; prints its path.
    LocateEncoder,
    /// Asks the encoder for its version.
    VerifyEncoder,
    /// Runs a package manager without arguments, to see whether it is there.
    Probe(PackageManager),
    /// Installs the encoder with a package manager.
    Install(PackageManager),
    /// Installs the encoder with Homebrew.
    BrewInstall,
}

/// Whose installation instructions are shown.
#[derive(Clone, Copy, Debug, PartialEq, Eq, Structural)]
pub enum Guide {
    Windows,
    MacOs,
    Debian,
    Fedora,
    Arch,
    OtherLinux,
}

/// Why the setup failed.
#[derive(Clone, Copy, Debug, PartialEq, Eq, Structural)]
pub enum SetupError {
    /// The encoder is not on the search path.
    EncoderNotFound,
    /// The encoder is there but does not answer a version query.
    EncoderBroken,
    /// The path printed for the encoder is no UTF-8.
    PathNotText,
    /// A program could not be started.
    CommandNotStarted,
    /// The encoder cannot be installed automatically on this platform.
    InstallUnsupported,
    /// None of the known package managers is there.
    NoPackageManager,
    /// The package manager exited with a failure.
    InstallFailed,
    /// Homebrew exited with a failure.
    BrewFailed,
    /// The directory for the extractor could not be created.
    DirectoryNotCreated,
    /// The extractor could not be downloaded or written.
    DownloadFailed,
    /// The extractor could not be marked executable.
    NotMarkedExecutable,
    /// The caller reported something that cannot happen at this point.
    OutOfTurn,
}

/// What happened last, as the caller reports it.
#[derive(Clone, Copy, Debug, PartialEq, Eq, Structural)]
pub enum SetupEvent {
    /// Nothing yet: the setup begins.
    Begin,
    /// The program could not be started.
    NotStarted,
    /// The program ran and exited, well or with a failure.
    Exited(bool),
    /// The user picked the menu entry with this index.
    Chosen(usize),
    /// The extractor is there, or not.
    Found(bool),
    /// The work on the file system or the network is done, well or not.
    Completed(bool),
}

/// What the caller does next.
#[derive(Clone, Copy, Debug, PartialEq, Eq, Structural)]
pub enum SetupAction {
    /// Run the program, then report `NotStarted` or `Exited`, and with it
    /// what the program printed.
    Run(Command),
    /// Offer automatic installation, manual instructions and leaving, in
    /// this order, then report `Chosen`.
    AskInstallChoice,
    /// Offer Ubuntu/Debian, Fedora, Arch Linux and other, in this order, then
    /// report `Chosen`.
    AskDistro,
    /// Show the instructions and end the process with a failure status.
    ShowInstructions(Guide),
    /// End the process with a failure status.
    Leave,
    /// See whether the extractor is at its path, then report `Found`.
    CheckExtractor,
    /// Create the directory for the extractor, then report `Completed`.
    CreateAppDir,
    /// Download the extractor and write it to its path, then report
    /// `Completed`.
    DownloadExtractor,
    /// Mark the extractor executable, then report `Completed`.
    MarkExecutable,
    /// Both tools are there: take the configuration.
    Finish,
    /// Give up.
    Fail(SetupError),
}

/// How far the setup has come.
#[derive(Clone, Copy, Debug, PartialEq, Eq, Structural)]
pub enum Phase {
    Start,
    /// The encoder is being looked up, for the second time if `installed`.
    Locating { installed: bool },
    /// The encoder is being asked for its version.
    Verifying { installed: bool },
    /// The user is choosing what to do about the missing encoder.
    Choosing,
    /// The user is choosing whose instructions to see.
    ChoosingDistro,
    /// A package manager is being probed.
    Probing(PackageManager),
    /// The encoder is being installed.
    Installing,
    /// The extractor is being looked for.
    CheckingExtractor,
    /// The directory for the extractor is being created.
    CreatingDir,
    /// The extractor is being downloaded.
    Downloading,
    /// The extractor is being marked executable.
    Permitting,
    /// Both tools are there.
    Done,
    /// The setup has failed.
    Failed(SetupError),
    /// The process is to end at the user's wish.
    Left,
}

/// The setup of one run: its platform, its phase, and what it has learnt of
/// the encoder.
pub struct Bootstrap {
    platform: Platform,
    phase: Phase,
    located: Vec<u8>,
    encoder: Option<String>,
}

impl Phase {
    /// Whether the setup has ended.
    pub open spec fn is_final(self) -> bool {
        self is Done || self is Failed || self is Left
    }

    /// Whether the encoder was found and answered before this phase.
    pub open spec fn has_encoder(self) -> bool {
        self is CheckingExtractor || self is CreatingDir || self is Downloading
            || self is Permitting || self is Done
    }

    /// An upper bound on the number of steps left.
    pub open spec fn rank(self) -> nat {
        match self {
            Phase::Start => 15,
            Phase::Locating { installed: false } => 14,
            Phase::Verifying { installed: false } => 13,
            Phase::Choosing => 12,
            Phase::ChoosingDistro => 11,
            Phase::Probing(PackageManager::Apt) => 11,
            Phase::Probing(PackageManager::Dnf) => 10,
            Phase::Probing(PackageManager::Pacman) => 9,
            Phase::Installing => 8,
            Phase::Locating { installed: true } => 7,
            Phase::Verifying { installed: true } => 6,
            Phase::CheckingExtractor => 5,
            Phase::CreatingDir => 4,
            Phase::Downloading => 3,
            Phase::Permitting => 2,
            Phase::Done => 0,
            Phase::Failed(_) => 0,
            Phase::Left => 0,
        }
    }
}

/// What follows when the encoder was not found, or did not answer: the user
/// is asked once, and after an installation the setup fails.
pub open spec fn encoder_missing(installed: bool, error: SetupError) -> (Phase, SetupAction) {
    if installed {
        (Phase::Failed(error), SetupAction::Fail(error))
    } else {
        (Phase::Choosing, SetupAction::AskInstallChoice)
    }
}

/// How the automatic installation starts on `platform`.
pub open spec fn start_install(platform: Platform) -> (Phase, SetupAction) {
    match platform {
        Platform::Windows => (
            Phase::Failed(SetupError::InstallUnsupported),
            SetupAction::Fail(SetupError::InstallUnsupported),
        ),
        Platform::MacOs => (Phase::Installing, SetupAction::Run(Command::BrewInstall)),
        Platform::Linux => (
            Phase::Probing(PackageManager::Apt),
            SetupAction::Run(Command::Probe(PackageManager::Apt)),
        ),
    }
}

/// The error of an installer that exited with a failure: Homebrew's on macOS,
/// the package manager's elsewhere.
pub open spec fn install_failure(platform: Platform) -> SetupError {
    if platform == Platform::MacOs {
        SetupError::BrewFailed
    } else {
        SetupError::InstallFailed
    }
}

/// Whose instructions the entry `index` of the distribution menu stands for.
pub open spec fn distro_guide(index: usize) -> Guide {
    if index == 0 {
        Guide::Debian
    } else if index == 1 {
        Guide::Fedora
    } else if index == 2 {
        Guide::Arch
    } else {
        Guide::OtherLinux
    }
}

/// The phase that follows `phase` on `event`, and what the caller does next.
/// `readable` says whether what the lookup of the encoder printed is UTF-8.
pub open spec fn step(platform: Platform, phase: Phase, event: SetupEvent, readable: bool) -> (
    Phase,
    SetupAction,
) {
    let out_of_turn = (Phase::Failed(SetupError::OutOfTurn), SetupAction::Fail(SetupError::OutOfTurn));
    match phase {
        Phase::Start => (Phase::Locating { installed: false }, SetupAction::Run(Command::LocateEncoder)),
        Phase::Locating { installed } => match event {
            SetupEvent::NotStarted => encoder_missing(installed, SetupError::CommandNotStarted),
            SetupEvent::Exited(false) => encoder_missing(installed, SetupError::EncoderNotFound),
            SetupEvent::Exited(true) => (
                Phase::Verifying { installed },
                SetupAction::Run(Command::VerifyEncoder),
            ),
            _ => out_of_turn,
        },
        Phase::Verifying { installed } => match event {
            SetupEvent::NotStarted => encoder_missing(installed, SetupError::CommandNotStarted),
            SetupEvent::Exited(false) => encoder_missing(installed, SetupError::EncoderBroken),
            SetupEvent::Exited(true) => if readable {
                (Phase::CheckingExtractor, SetupAction::CheckExtractor)
            } else {
                encoder_missing(installed, SetupError::PathNotText)
            },
            _ => out_of_turn,
        },
        Phase::Choosing => match event {
            SetupEvent::Chosen(index) => if index == 0 {
                start_install(platform)
            } else if index == 1 {
                match platform {
                    Platform::Windows => (Phase::Left, SetupAction::ShowInstructions(Guide::Windows)),
                    Platform::MacOs => (Phase::Left, SetupAction::ShowInstructions(Guide::MacOs)),
                    Platform::Linux => (Phase::ChoosingDistro, SetupAction::AskDistro),
                }
            } else {
                (Phase::Left, SetupAction::Leave)
            },
            _ => out_of_turn,
        },
        Phase::ChoosingDistro => match event {
            SetupEvent::Chosen(index) => (
                Phase::Left,
                SetupAction::ShowInstructions(distro_guide(index)),
            ),
            _ => out_of_turn,
        },
        Phase::Probing(manager) => match event {
            SetupEvent::Exited(_) => (Phase::Installing, SetupAction::Run(Command::Install(manager))),
            SetupEvent::NotStarted => match manager {
                PackageManager::Apt => (
                    Phase::Probing(PackageManager::Dnf),
                    SetupAction::Run(Command::Probe(PackageManager::Dnf)),
                ),
                PackageManager::Dnf => (
                    Phase::Probing(PackageManager::Pacman),
                    SetupAction::Run(Command::Probe(PackageManager::Pacman)),
                ),
                PackageManager::Pacman => (
                    Phase::Failed(SetupError::NoPackageManager),
                    SetupAction::Fail(SetupError::NoPackageManager),
                ),
            },
            _ => out_of_turn,
        },
        Phase::Installing => match event {
            SetupEvent::NotStarted => (
                Phase::Failed(SetupError::CommandNotStarted),
                SetupAction::Fail(SetupError::CommandNotStarted),
            ),
            SetupEvent::Exited(false) => (
                Phase::Failed(install_failure(platform)),
                SetupAction::Fail(install_failure(platform)),
            ),
            SetupEvent::Exited(true) => (
                Phase::Locating { installed: true },
                SetupAction::Run(Command::LocateEncoder),
            ),
            _ => out_of_turn,
        },
        Phase::CheckingExtractor => match event {
            SetupEvent::Found(true) => (Phase::Done, SetupAction::Finish),
            SetupEvent::Found(false) => (Phase::CreatingDir, SetupAction::CreateAppDir),
            _ => out_of_turn,
        },
        Phase::CreatingDir => match event {
            SetupEvent::Completed(true) => (Phase::Downloading, SetupAction::DownloadExtractor),
            SetupEvent::Completed(false) => (
                Phase::Failed(SetupError::DirectoryNotCreated),
                SetupAction::Fail(SetupError::DirectoryNotCreated),
            ),
            _ => out_of_turn,
        },
        Phase::Downloading => match event {
            SetupEvent::Completed(true) => if platform == Platform::Windows {
                (Phase::Done, SetupAction::Finish)
            } else {
                (Phase::Permitting, SetupAction::MarkExecutable)
            },
            SetupEvent::Completed(false) => (
                Phase::Failed(SetupError::DownloadFailed),
                SetupAction::Fail(SetupError::DownloadFailed),
            ),
            _ => out_of_turn,
        },
        Phase::Permitting => match event {
            SetupEvent::Completed(true) => (Phase::Done, SetupAction::Finish),
            SetupEvent::Completed(false) => (
                Phase::Failed(SetupError::NotMarkedExecutable),
                SetupAction::Fail(SetupError::NotMarkedExecutable),
            ),
            _ => out_of_turn,
        },
        Phase::Done => (Phase::Done, SetupAction::Finish),
        Phase::Failed(error) => (Phase::Failed(error), SetupAction::Fail(error)),
        Phase::Left => (Phase::Left, SetupAction::Leave),
    }
}

/// The program and the arguments of `command`, the program first.
pub open spec fn command_words(platform: Platform, command: Command) -> Seq<Seq<char>> {
    match command {
        Command::LocateEncoder => seq![platform.lookup_name(), "ffmpeg"@],
        Command::VerifyEncoder => seq!["ffmpeg"@, "-version"@],
        Command::Probe(PackageManager::Apt) => seq!["apt"@],
        Command::Probe(PackageManager::Dnf) => seq!["dnf"@],
        Command::Probe(PackageManager::Pacman) => seq!["pacman"@],
        Command::Install(PackageManager::Apt) => seq![
            "sudo"@,
            "apt"@,
            "install"@,
            "-y"@,
            "ffmpeg"@,
        ],
        Command::Install(PackageManager::Dnf) => seq![
            "sudo"@,
            "dnf"@,
            "install"@,
            "-y"@,
            "ffmpeg"@,
        ],
        Command::Install(PackageManager::Pacman) => seq![
            "sudo"@,
            "pacman"@,
            "-S"@,
            "--noconfirm"@,
            "ffmpeg"@,
        ],
        Command::BrewInstall => seq!["brew"@, "install"@, "ffmpeg"@],
    }
}

/// The lines of the installation instructions of `guide`.
pub open spec fn guide_lines(guide: Guide) -> Seq<Seq<char>> {
    match guide {
        Guide::Windows => seq![
            "1. Download FFmpeg from https://ffmpeg.org/download.html"@,
            "2. Extract the archive"@,
            "3. Add FFmpeg bin directory to your PATH environment variable"@,
        ],
        Guide::MacOs => seq![
            "Option 1 - Using Homebrew (recommended):"@,
            "1. Install Homebrew if not installed: /bin/bash -c \"$(curl -fsSL https://raw.githubusercontent.com/Homebrew/install/HEAD/install.sh)\""@,
            "2. Run: brew install ffmpeg"@,
            ""@,
            "Option 2 - Manual download:"@,
            "1. Download from https://ffmpeg.org/download.html"@,
            "2. Extract and add to your PATH"@,
        ],
        Guide::Debian => seq!["Run: sudo apt install ffmpeg"@],
        Guide::Fedora => seq!["Run: sudo dnf install ffmpeg"@],
        Guide::Arch => seq!["Run: sudo pacman -S ffmpeg"@],
        Guide::OtherLinux => seq![
            "Please check your distribution's package manager for FFmpeg installation"@,
        ],
    }
}

/// The path of the extractor: its file name in the directory `APP_DIR`.
pub open spec fn extractor_path_of(platform: Platform) -> Seq<char> {
    APP_DIR@ + (if platform == Platform::Windows {
        seq!['\\']
    } else {
        seq!['/']
    }) + platform.extractor_name()
}

impl Phase {
    /// Whether the encoder is being installed: from the user's choice to the
    /// second answer of the encoder.
    pub open spec fn installs_encoder(self) -> bool {
        self is Choosing || self is Probing || self is Installing || self == (Phase::Locating {
            installed: true,
        }) || self == (Phase::Verifying { installed: true })
    }

    /// Whether the extractor is being installed.
    pub open spec fn installs_extractor(self) -> bool {
        self is CreatingDir || self is Downloading || self is Permitting
    }
}

/// The text of a failure: the system's message `detail` where the error is
/// one that the system reports and a message came with it, the error's own
/// text otherwise.
pub open spec fn failure_text_of(error: SetupError, detail: Seq<char>) -> Seq<char> {
    if error.is_reported_by_system() && detail.len() > 0 {
        detail
    } else {
        error.text()
    }
}

/// The line on what a program's exit with a failure shows.
pub open spec fn probe_status(before: Phase, event: SetupEvent) -> Seq<Seq<char>> {
    if before is Locating && event == SetupEvent::Exited(false) {
        seq!["FFmpeg not found in system."@]
    } else if before is Verifying && event == SetupEvent::Exited(false) {
        seq!["FFmpeg installation appears to be broken."@]
    } else {
        Seq::empty()
    }
}

/// The lines on what the step from `before` to `after` has brought.
pub open spec fn outcome_status(before: Phase, after: Phase, detail: Seq<char>) -> Seq<Seq<char>> {
    if before.is_final() {
        Seq::empty()
    } else {
        match after {
            Phase::Choosing => seq![
                "⨯ FFmpeg not found"@,
                ""@,
                "FFmpeg is required but not found."@,
            ],
            Phase::CheckingExtractor => if before == (Phase::Verifying { installed: true }) {
                seq!["✓ FFmpeg installed successfully"@]
            } else {
                Seq::empty()
            },
            Phase::CreatingDir => seq!["⨯ yt-dlp not found"@],
            Phase::Done => if before.installs_extractor() {
                seq!["✓ yt-dlp installed successfully"@]
            } else {
                Seq::empty()
            },
            Phase::Failed(SetupError::OutOfTurn) => Seq::empty(),
            Phase::Failed(SetupError::InstallUnsupported) => seq![
                "Windows FFmpeg automatic installation not implemented yet."@,
                "Please install FFmpeg manually from https://ffmpeg.org/download.html"@,
                "⨯ Failed to install FFmpeg: "@ + SetupError::InstallUnsupported.text(),
            ],
            Phase::Failed(error) => if before.installs_encoder() {
                seq!["⨯ Failed to install FFmpeg: "@ + failure_text_of(error, detail)]
            } else if before.installs_extractor() {
                seq!["⨯ Failed to install yt-dlp: "@ + failure_text_of(error, detail)]
            } else {
                Seq::empty()
            },
            _ => Seq::empty(),
        }
    }
}

/// The status lines of one step: what the user is told when `event` has led
/// from `before` to `after`. `detail` is the system's message where `event`
/// reports something that the system refused, and empty otherwise.
pub open spec fn status_of(before: Phase, event: SetupEvent, after: Phase, detail: Seq<char>) -> Seq<
    Seq<char>,
> {
    probe_status(before, event) + outcome_status(before, after, detail)
}

/// The label of the spinner that is shown while `command` runs, for the
/// commands that install.
pub open spec fn progress_label_of(command: Command) -> Option<Seq<char>> {
    match command {
        Command::Install(_) => Some("Installing FFmpeg..."@),
        Command::BrewInstall => Some("Installing FFmpeg via Homebrew..."@),
        _ => None,
    }
}

impl SetupError {
    /// Whether the error is one that the system reports, with a message of
    /// its own.
    pub open spec fn is_reported_by_system(self) -> bool {
        self == SetupError::CommandNotStarted || self == SetupError::DirectoryNotCreated || self
            == SetupError::DownloadFailed || self == SetupError::NotMarkedExecutable
    }

    /// The message shown to the user.
    pub open spec fn text(self) -> Seq<char> {
        match self {
            SetupError::EncoderNotFound => "FFmpeg not found"@,
            SetupError::EncoderBroken => "FFmpeg verification failed"@,
            SetupError::PathNotText => "FFmpeg path is not valid UTF-8"@,
            SetupError::CommandNotStarted => "A required program could not be started"@,
            SetupError::InstallUnsupported => "Windows FFmpeg installation not implemented yet"@,
            SetupError::NoPackageManager => "No supported package manager found"@,
            SetupError::InstallFailed => "Failed to install FFmpeg"@,
            SetupError::BrewFailed => "Failed to install FFmpeg via Homebrew"@,
            SetupError::DirectoryNotCreated => "Failed to create the directory for yt-dlp"@,
            SetupError::DownloadFailed => "Failed to download yt-dlp"@,
            SetupError::NotMarkedExecutable => "Failed to mark yt-dlp executable"@,
            SetupError::OutOfTurn => "Setup was driven out of turn"@,
        }
    }

    /// Returns the message shown to the user.
    pub fn message(&self) -> (text: &'static str)
        ensures
            text@ == self.text(),
    {
        match self {
            SetupError::EncoderNotFound => "FFmpeg not found",
            SetupError::EncoderBroken => "FFmpeg verification failed",
            SetupError::PathNotText => "FFmpeg path is not valid UTF-8",
            SetupError::CommandNotStarted => "A required program could not be started",
            SetupError::InstallUnsupported => "Windows FFmpeg installation not implemented yet",
            SetupError::NoPackageManager => "No supported package manager found",
            SetupError::InstallFailed => "Failed to install FFmpeg",
            SetupError::BrewFailed => "Failed to install FFmpeg via Homebrew",
            SetupError::DirectoryNotCreated => "Failed to create the directory for yt-dlp",
            SetupError::DownloadFailed => "Failed to download yt-dlp",
            SetupError::NotMarkedExecutable => "Failed to mark yt-dlp executable",
            SetupError::OutOfTurn => "Setup was driven out of turn",
        }
    }
}

/// Every step brings the setup nearer to its end: a phase that is final
/// stays, and any other phase is followed by one of lower rank. So the setup
/// ends after at most 15 steps, whatever is reported.
pub proof fn lemma_setup_ends(platform: Platform, phase: Phase, event: SetupEvent, readable: bool)
    ensures
        phase.is_final() ==> step(platform, phase, event, readable).0 == phase,
        !phase.is_final() ==> step(platform, phase, event, readable).0.rank() < phase.rank(),
        phase.is_final() <==> phase.rank() == 0,
{
}

/// The setup finishes only from a phase that the encoder's answer to the
/// version query led to, and only once the extractor is known to be there,
/// and it asks for the extractor only after that answer.
pub proof fn lemma_finish_needs_both(
    platform: Platform,
    phase: Phase,
    event: SetupEvent,
    readable: bool,
)
    ensures
        step(platform, phase, event, readable).1 == SetupAction::Finish ==> phase.has_encoder(),
        step(platform, phase, event, readable).0.has_encoder() ==> phase.has_encoder() || (phase
            is Verifying && event == SetupEvent::Exited(true) && readable),
        step(platform, phase, event, readable).0 == Phase::Done && phase != Phase::Done ==> event
            == SetupEvent::Found(true) || event == SetupEvent::Completed(true),
{
}

/// On Windows the automatic installation of the encoder always fails, as
/// not supported.
pub proof fn lemma_windows_install_unsupported(readable: bool)
    ensures
        step(Platform::Windows, Phase::Choosing, SetupEvent::Chosen(0), readable) == (
            Phase::Failed(SetupError::InstallUnsupported),
            SetupAction::Fail(SetupError::InstallUnsupported),
        ),
{
}

/// An installer that exits with a failure ends the setup, with Homebrew's
/// message on macOS and the package manager's elsewhere; after one that
/// exits well the encoder is looked up once more.
pub proof fn lemma_installer_exit(platform: Platform, readable: bool)
    ensures
        step(platform, Phase::Installing, SetupEvent::Exited(false), readable).1
            == SetupAction::Fail(install_failure(platform)),
        install_failure(Platform::MacOs).text() == "Failed to install FFmpeg via Homebrew"@,
        install_failure(Platform::Linux).text() == "Failed to install FFmpeg"@,
        step(platform, Phase::Installing, SetupEvent::Exited(true), readable) == (
            Phase::Locating { installed: true },
            SetupAction::Run(Command::LocateEncoder),
        ),
{
}

impl Bootstrap {
    #[verifier::type_invariant]
    spec fn well_formed(self) -> bool {
        self.phase.has_encoder() ==> self.encoder is Some
    }

    /// The platform that the setup is for.
    pub closed spec fn platform(self) -> Platform {
        self.platform
    }

    /// How far the setup has come.
    pub closed spec fn phase(self) -> Phase {
        self.phase
    }

    /// What the lookup of the encoder printed.
    pub closed spec fn located(self) -> Seq<u8> {
        self.located@
    }

    /// The path of the encoder, once it has answered the version query.
    pub closed spec fn encoder(self) -> Option<Seq<char>> {
        match self.encoder {
            Some(path) => Some(path@),
            None => None,
        }
    }

    /// A setup for `platform` that has not begun.
    pub fn new(platform: Platform) -> (setup: Bootstrap)
        ensures
            setup.platform() == platform,
            setup.phase() == Phase::Start,
            setup.located() == Seq::<u8>::empty(),
            setup.encoder() is None,
    {
        Bootstrap { platform, phase: Phase::Start, located: Vec::new(), encoder: None }
    }

    /// Returns how far the setup has come.
    pub fn current_phase(&self) -> (phase: Phase)
        ensures
            phase == self.phase(),
    {
        self.phase
    }

    /// Returns where the tools are, once the setup is done.
    pub fn config(&self) -> (config: Option<SetupConfig>)
        ensures
            config is Some <==> self.phase() == Phase::Done,
            config matches Some(c) ==> c.yt_dlp_path@ == extractor_path_of(self.platform())
                && c.ffmpeg_path is Some && Some(c.ffmpeg_path.unwrap()@) == self.encoder(),
    {
        proof {
            use_type_invariant(self);
        }
        match self.phase {
            Phase::Done => match &self.encoder {
                Some(path) => Some(
                    SetupConfig {
                        yt_dlp_path: extractor_path(self.platform),
                        ffmpeg_path: Some(path.clone()),
                    },
                ),
                None => None,
            },
            _ => None,
        }
    }
}

/// Computes `step`.
fn next_step(platform: Platform, phase: Phase, event: SetupEvent, readable: bool) -> (next: (
    Phase,
    SetupAction,
))
    ensures
        next == step(platform, phase, event, readable),
{
    let out_of_turn = (Phase::Failed(SetupError::OutOfTurn), SetupAction::Fail(SetupError::OutOfTurn));
    match phase {
        Phase::Start => (Phase::Locating { installed: false }, SetupAction::Run(Command::LocateEncoder)),
        Phase::Locating { installed } => match event {
            SetupEvent::NotStarted => missing(installed, SetupError::CommandNotStarted),
            SetupEvent::Exited(false) => missing(installed, SetupError::EncoderNotFound),
            SetupEvent::Exited(true) => (
                Phase::Verifying { installed },
                SetupAction::Run(Command::VerifyEncoder),
            ),
            _ => out_of_turn,
        },
        Phase::Verifying { installed } => match event {
            SetupEvent::NotStarted => missing(installed, SetupError::CommandNotStarted),
            SetupEvent::Exited(false) => missing(installed, SetupError::EncoderBroken),
            SetupEvent::Exited(true) => if readable {
                (Phase::CheckingExtractor, SetupAction::CheckExtractor)
            } else {
                missing(installed, SetupError::PathNotText)
            },
            _ => out_of_turn,
        },
        Phase::Choosing => match event {
            SetupEvent::Chosen(0) => match platform {
                Platform::Windows => failed(SetupError::InstallUnsupported),
                Platform::MacOs => (Phase::Installing, SetupAction::Run(Command::BrewInstall)),
                Platform::Linux => (
                    Phase::Probing(PackageManager::Apt),
                    SetupAction::Run(Command::Probe(PackageManager::Apt)),
                ),
            },
            SetupEvent::Chosen(1) => match platform {
                Platform::Windows => (Phase::Left, SetupAction::ShowInstructions(Guide::Windows)),
                Platform::MacOs => (Phase::Left, SetupAction::ShowInstructions(Guide::MacOs)),
                Platform::Linux => (Phase::ChoosingDistro, SetupAction::AskDistro),
            },
            SetupEvent::Chosen(_) => (Phase::Left, SetupAction::Leave),
            _ => out_of_turn,
        },
        Phase::ChoosingDistro => match event {
            SetupEvent::Chosen(0) => (Phase::Left, SetupAction::ShowInstructions(Guide::Debian)),
            SetupEvent::Chosen(1) => (Phase::Left, SetupAction::ShowInstructions(Guide::Fedora)),
            SetupEvent::Chosen(2) => (Phase::Left, SetupAction::ShowInstructions(Guide::Arch)),
            SetupEvent::Chosen(_) => (Phase::Left, SetupAction::ShowInstructions(Guide::OtherLinux)),
            _ => out_of_turn,
        },
        Phase::Probing(manager) => match event {
            SetupEvent::Exited(_) => (Phase::Installing, SetupAction::Run(Command::Install(manager))),
            SetupEvent::NotStarted => match manager {
                PackageManager::Apt => (
                    Phase::Probing(PackageManager::Dnf),
                    SetupAction::Run(Command::Probe(PackageManager::Dnf)),
                ),
                PackageManager::Dnf => (
                    Phase::Probing(PackageManager::Pacman),
                    SetupAction::Run(Command::Probe(PackageManager::Pacman)),
                ),
                PackageManager::Pacman => failed(SetupError::NoPackageManager),
            },
            _ => out_of_turn,
        },
        Phase::Installing => match event {
            SetupEvent::NotStarted => failed(SetupError::CommandNotStarted),
            SetupEvent::Exited(false) => match platform {
                Platform::MacOs => failed(SetupError::BrewFailed),
                _ => failed(SetupError::InstallFailed),
            },
            SetupEvent::Exited(true) => (
                Phase::Locating { installed: true },
                SetupAction::Run(Command::LocateEncoder),
            ),
            _ => out_of_turn,
        },
        Phase::CheckingExtractor => match event {
            SetupEvent::Found(true) => (Phase::Done, SetupAction::Finish),
            SetupEvent::Found(false) => (Phase::CreatingDir, SetupAction::CreateAppDir),
            _ => out_of_turn,
        },
        Phase::CreatingDir => match event {
            SetupEvent::Completed(true) => (Phase::Downloading, SetupAction::DownloadExtractor),
            SetupEvent::Completed(false) => failed(SetupError::DirectoryNotCreated),
            _ => out_of_turn,
        },
        Phase::Downloading => match event {
            SetupEvent::Completed(true) => if platform.marks_executables() {
                (Phase::Permitting, SetupAction::MarkExecutable)
            } else {
                (Phase::Done, SetupAction::Finish)
            },
            SetupEvent::Completed(false) => failed(SetupError::DownloadFailed),
            _ => out_of_turn,
        },
        Phase::Permitting => match event {
            SetupEvent::Completed(true) => (Phase::Done, SetupAction::Finish),
            SetupEvent::Completed(false) => failed(SetupError::NotMarkedExecutable),
            _ => out_of_turn,
        },
        Phase::Done => (Phase::Done, SetupAction::Finish),
        Phase::Failed(error) => (Phase::Failed(error), SetupAction::Fail(error)),
        Phase::Left => (Phase::Left, SetupAction::Leave),
    }
}

/// Computes `encoder_missing`.
fn missing(installed: bool, error: SetupError) -> (next: (Phase, SetupAction))
    ensures
        next == encoder_missing(installed, error),
{
    if installed {
        failed(error)
    } else {
        (Phase::Choosing, SetupAction::AskInstallChoice)
    }
}

/// The failure with `error`.
fn failed(error: SetupError) -> (next: (Phase, SetupAction))
    ensures
        next == (Phase::Failed(error), SetupAction::Fail(error)),
{
    (Phase::Failed(error), SetupAction::Fail(error))
}

/// Advances the setup by one step. `event` is what happened last, and
/// `output` is what the program printed where `event` reports a program's
/// exit; the answer is what the caller does next.
///
/// The encoder is looked up and asked for its version. Where that fails,
/// the user chooses between automatic installation, instructions and
/// leaving; after an installation the encoder is looked up and asked once
/// more. Then the extractor is looked for, and downloaded where it is not
/// there.
pub fn check_dependencies(setup: &mut Bootstrap, event: SetupEvent, output: &[u8]) -> (action:
    SetupAction)
    ensures
        (final(setup).phase(), action) == step(
            old(setup).platform(),
            old(setup).phase(),
            event,
            valid_utf8(old(setup).located()),
        ),
        final(setup).platform() == old(setup).platform(),
        final(setup).located() == (if old(setup).phase() is Locating && event == SetupEvent::Exited(
            true,
        ) {
            output@
        } else {
            old(setup).located()
        }),
        final(setup).encoder() == (if final(setup).phase() == Phase::CheckingExtractor {
            Some(trimmed(decode_utf8(old(setup).located())))
        } else {
            old(setup).encoder()
        }),
        action == SetupAction::Finish ==> final(setup).encoder() is Some,
{
    proof {
        use_type_invariant(&*setup);
    }
    let mut taken = Bootstrap::new(setup.platform);
    core::mem::swap(setup, &mut taken);
    let Bootstrap { platform, phase, located, encoder } = taken;
    let found = match phase {
        Phase::Verifying { .. } => match event {
            SetupEvent::Exited(true) => match decode(located.as_slice()) {
                Some(path) => Some(trim(path).to_owned()),
                None => None,
            },
            _ => None,
        },
        _ => None,
    };
    let readable = found.is_some();
    let (next, action) = next_step(platform, phase, event, readable);
    let located = match phase {
        Phase::Locating { .. } => match event {
            SetupEvent::Exited(true) => slice_to_vec(output),
            _ => located,
        },
        _ => located,
    };
    let encoder = match found {
        Some(path) => Some(path),
        None => encoder,
    };
    *setup = Bootstrap { platform, phase: next, located, encoder };
    action
}

/// Builds the text of a failure from the error and the system's message,
/// which is empty where the system gave none.
pub fn failure_text(error: SetupError, detail: &str) -> (text: String)
    ensures
        text@ == failure_text_of(error, detail@),
{
    let reported = match error {
        SetupError::CommandNotStarted => true,
        SetupError::DirectoryNotCreated => true,
        SetupError::DownloadFailed => true,
        SetupError::NotMarkedExecutable => true,
        _ => false,
    };
    if reported && !detail.is_empty() {
        detail.to_owned()
    } else {
        error.message().to_owned()
    }
}

/// Builds the status lines of one step: `before` and `after` are the phases
/// around it, and `detail` is the system's message, empty where there is
/// none.
pub fn status_lines(before: Phase, event: SetupEvent, after: Phase, detail: &str) -> (lines: Vec<
    String,
>)
    ensures
        views(lines@) == status_of(before, event, after, detail@),
{
    let mut lines: Vec<String> = Vec::new();
    match (before, event) {
        (Phase::Locating { .. }, SetupEvent::Exited(false)) => {
            lines.push("FFmpeg not found in system.".to_owned());
        },
        (Phase::Verifying { .. }, SetupEvent::Exited(false)) => {
            lines.push("FFmpeg installation appears to be broken.".to_owned());
        },
        _ => {},
    }
    assert(views(lines@) =~= probe_status(before, event));
    let encoder = match before {
        Phase::Choosing => true,
        Phase::Probing(_) => true,
        Phase::Installing => true,
        Phase::Locating { installed: true } => true,
        Phase::Verifying { installed: true } => true,
        _ => false,
    };
    let extractor = match before {
        Phase::CreatingDir => true,
        Phase::Downloading => true,
        Phase::Permitting => true,
        _ => false,
    };
    let ended = match before {
        Phase::Done => true,
        Phase::Failed(_) => true,
        Phase::Left => true,
        _ => false,
    };
    if !ended {
        match after {
            Phase::Choosing => {
                lines.push("⨯ FFmpeg not found".to_owned());
                lines.push("".to_owned());
                lines.push("FFmpeg is required but not found.".to_owned());
            },
            Phase::CheckingExtractor => {
                match before {
                    Phase::Verifying { installed: true } => {
                        lines.push("✓ FFmpeg installed successfully".to_owned());
                    },
                    _ => {},
                }
            },
            Phase::CreatingDir => {
                lines.push("⨯ yt-dlp not found".to_owned());
            },
            Phase::Done => {
                if extractor {
                    lines.push("✓ yt-dlp installed successfully".to_owned());
                }
            },
            Phase::Failed(SetupError::OutOfTurn) => {},
            Phase::Failed(SetupError::InstallUnsupported) => {
                lines.push("Windows FFmpeg automatic installation not implemented yet.".to_owned());
                lines.push(
                    "Please install FFmpeg manually from https://ffmpeg.org/download.html".to_owned(),
                );
                let mut line = "⨯ Failed to install FFmpeg: ".to_owned();
                line.append(SetupError::InstallUnsupported.message());
                lines.push(line);
            },
            Phase::Failed(error) => {
                if encoder {
                    let mut line = "⨯ Failed to install FFmpeg: ".to_owned();
                    line.append(failure_text(error, detail).as_str());
                    lines.push(line);
                } else if extractor {
                    let mut line = "⨯ Failed to install yt-dlp: ".to_owned();
                    line.append(failure_text(error, detail).as_str());
                    lines.push(line);
                }
            },
            _ => {},
        }
    }
    assert(views(lines@) =~= status_of(before, event, after, detail@));
    lines
}

/// Returns the label of the spinner that is shown while `command` runs, for
/// the commands that install.
pub fn progress_label(command: Command) -> (label: Option<&'static str>)
    ensures
        match label {
            Some(text) => progress_label_of(command) == Some(text@),
            None => progress_label_of(command) is None,
        },
{
    match command {
        Command::Install(_) => Some("Installing FFmpeg..."),
        Command::BrewInstall => Some("Installing FFmpeg via Homebrew..."),
        _ => None,
    }
}

/// Builds the program and the arguments of `command`, the program first.
pub fn command_line(platform: Platform, command: Command) -> (words: Vec<String>)
    ensures
        views(words@) == command_words(platform, command),
{
    let mut words: Vec<String> = Vec::new();
    match command {
        Command::LocateEncoder => {
            words.push(platform.lookup_command().to_owned());
            words.push("ffmpeg".to_owned());
        },
        Command::VerifyEncoder => {
            words.push("ffmpeg".to_owned());
            words.push("-version".to_owned());
        },
        Command::Probe(PackageManager::Apt) => {
            words.push("apt".to_owned());
        },
        Command::Probe(PackageManager::Dnf) => {
            words.push("dnf".to_owned());
        },
        Command::Probe(PackageManager::Pacman) => {
            words.push("pacman".to_owned());
        },
        Command::Install(PackageManager::Apt) => {
            words.push("sudo".to_owned());
            words.push("apt".to_owned());
            words.push("install".to_owned());
            words.push("-y".to_owned());
            words.push("ffmpeg".to_owned());
        },
        Command::Install(PackageManager::Dnf) => {
            words.push("sudo".to_owned());
            words.push("dnf".to_owned());
            words.push("install".to_owned());
            words.push("-y".to_owned());
            words.push("ffmpeg".to_owned());
        },
        Command::Install(PackageManager::Pacman) => {
            words.push("sudo".to_owned());
            words.push("pacman".to_owned());
            words.push("-S".to_owned());
            words.push("--noconfirm".to_owned());
            words.push("ffmpeg".to_owned());
        },
        Command::BrewInstall => {
            words.push("brew".to_owned());
            words.push("install".to_owned());
            words.push("ffmpeg".to_owned());
        },
    }
    assert(views(words@) =~= command_words(platform, command));
    words
}

/// Builds the lines of the installation instructions of `guide`.
pub fn instructions(guide: Guide) -> (lines: Vec<String>)
    ensures
        views(lines@) == guide_lines(guide),
{
    let mut lines: Vec<String> = Vec::new();
    match guide {
        Guide::Windows => {
            lines.push("1. Download FFmpeg from https://ffmpeg.org/download.html".to_owned());
            lines.push("2. Extract the archive".to_owned());
            lines.push("3. Add FFmpeg bin directory to your PATH environment variable".to_owned());
        },
        Guide::MacOs => {
            lines.push("Option 1 - Using Homebrew (recommended):".to_owned());
            lines.push(
                "1. Install Homebrew if not installed: /bin/bash -c \"$(curl -fsSL https://raw.githubusercontent.com/Homebrew/install/HEAD/install.sh)\"".to_owned(),
            );
            lines.push("2. Run: brew install ffmpeg".to_owned());
            lines.push("".to_owned());
            lines.push("Option 2 - Manual download:".to_owned());
            lines.push("1. Download from https://ffmpeg.org/download.html".to_owned());
            lines.push("2. Extract and add to your PATH".to_owned());
        },
        Guide::Debian => {
            lines.push("Run: sudo apt install ffmpeg".to_owned());
        },
        Guide::Fedora => {
            lines.push("Run: sudo dnf install ffmpeg".to_owned());
        },
        Guide::Arch => {
            lines.push("Run: sudo pacman -S ffmpeg".to_owned());
        },
        Guide::OtherLinux => {
            lines.push(
                "Please check your distribution's package manager for FFmpeg installation".to_owned(),
            );
        },
    }
    assert(views(lines@) =~= guide_lines(guide));
    lines
}

/// Builds the path of the extractor on `platform`.
pub fn extractor_path(platform: Platform) -> (path: String)
    ensures
        path@ == extractor_path_of(platform),
{
    proof {
        reveal_strlit("\\");
        reveal_strlit("/");
    }
    let mut path = APP_DIR.to_owned();
    match platform {
        Platform::Windows => {
            path.append("\\");
            assert("\\"@ =~= seq!['\\']);
        },
        _ => {
            path.append("/");
            assert("/"@ =~= seq!['/']);
        },
    }
    path.append(platform.extractor_file_name());
    path
}

} // verus!
