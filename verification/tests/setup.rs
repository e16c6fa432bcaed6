use ytpd::platform::Platform;
use ytpd::setup::{
    check_dependencies, command_line, extractor_path, failure_text, instructions, progress_label,
    status_lines, Bootstrap, Command, Guide, PackageManager, Phase, SetupAction, SetupConfig,
    SetupError, SetupEvent,
};

/// Reports `events` in order, each with what the program printed, and
/// returns the answers.
fn drive(setup: &mut Bootstrap, events: &[(SetupEvent, &[u8])]) -> Vec<SetupAction> {
    events.iter().map(|(event, output)| check_dependencies(setup, *event, output)).collect()
}

#[test]
fn setup_with_both_tools_there() {
    let mut setup = Bootstrap::new(Platform::Linux);
    assert_eq!(setup.current_phase(), Phase::Start);
    assert_eq!(setup.config(), None);
    let actions = drive(
        &mut setup,
        &[
            (SetupEvent::Begin, b""),
            (SetupEvent::Exited(true), b"/usr/bin/ffmpeg\n"),
            (SetupEvent::Exited(true), b"ffmpeg version 6.0\n"),
            (SetupEvent::Found(true), b""),
        ],
    );
    assert_eq!(
        actions,
        vec![
            SetupAction::Run(Command::LocateEncoder),
            SetupAction::Run(Command::VerifyEncoder),
            SetupAction::CheckExtractor,
            SetupAction::Finish,
        ]
    );
    assert_eq!(setup.current_phase(), Phase::Done);
    assert_eq!(
        setup.config(),
        Some(SetupConfig {
            yt_dlp_path: "ytpd/yt-dlp".to_string(),
            ffmpeg_path: Some("/usr/bin/ffmpeg".to_string()),
        })
    );
}

#[test]
fn setup_downloads_a_missing_extractor() {
    let mut setup = Bootstrap::new(Platform::MacOs);
    let actions = drive(
        &mut setup,
        &[
            (SetupEvent::Begin, b""),
            (SetupEvent::Exited(true), b"  /opt/homebrew/bin/ffmpeg  \n"),
            (SetupEvent::Exited(true), b""),
            (SetupEvent::Found(false), b""),
            (SetupEvent::Completed(true), b""),
            (SetupEvent::Completed(true), b""),
            (SetupEvent::Completed(true), b""),
        ],
    );
    assert_eq!(
        actions[3..],
        [
            SetupAction::CreateAppDir,
            SetupAction::DownloadExtractor,
            SetupAction::MarkExecutable,
            SetupAction::Finish,
        ]
    );
    assert_eq!(
        setup.config().unwrap().ffmpeg_path,
        Some("/opt/homebrew/bin/ffmpeg".to_string())
    );
}

#[test]
fn setup_marks_nothing_executable_on_windows() {
    let mut setup = Bootstrap::new(Platform::Windows);
    let actions = drive(
        &mut setup,
        &[
            (SetupEvent::Begin, b""),
            (SetupEvent::Exited(true), b"C:\\ffmpeg\\bin\\ffmpeg.exe\r\n"),
            (SetupEvent::Exited(true), b""),
            (SetupEvent::Found(false), b""),
            (SetupEvent::Completed(true), b""),
            (SetupEvent::Completed(true), b""),
        ],
    );
    assert_eq!(actions[4..], [SetupAction::DownloadExtractor, SetupAction::Finish]);
    assert_eq!(
        setup.config(),
        Some(SetupConfig {
            yt_dlp_path: "ytpd\\yt-dlp.exe".to_string(),
            ffmpeg_path: Some("C:\\ffmpeg\\bin\\ffmpeg.exe".to_string()),
        })
    );
}

#[test]
fn setup_asks_when_the_encoder_is_not_found() {
    for (event, output) in [
        (SetupEvent::Exited(false), &b""[..]),
        (SetupEvent::NotStarted, &b""[..]),
    ] {
        let mut setup = Bootstrap::new(Platform::Linux);
        let actions = drive(&mut setup, &[(SetupEvent::Begin, b""), (event, output)]);
        assert_eq!(actions[1], SetupAction::AskInstallChoice);
        assert_eq!(setup.current_phase(), Phase::Choosing);
    }
}

#[test]
fn setup_asks_when_the_encoder_does_not_answer() {
    for event in [SetupEvent::Exited(false), SetupEvent::NotStarted] {
        let mut setup = Bootstrap::new(Platform::Linux);
        let actions = drive(
            &mut setup,
            &[(SetupEvent::Begin, b""), (SetupEvent::Exited(true), b"/usr/bin/ffmpeg\n"), (event, b"")],
        );
        assert_eq!(actions[2], SetupAction::AskInstallChoice);
    }
}

#[test]
fn setup_asks_when_the_path_is_no_text() {
    let mut setup = Bootstrap::new(Platform::Linux);
    let actions = drive(
        &mut setup,
        &[
            (SetupEvent::Begin, b""),
            (SetupEvent::Exited(true), &[0x2f, 0xff]),
            (SetupEvent::Exited(true), b""),
        ],
    );
    assert_eq!(actions[2], SetupAction::AskInstallChoice);
}

fn missing_encoder(platform: Platform) -> Bootstrap {
    let mut setup = Bootstrap::new(platform);
    drive(&mut setup, &[(SetupEvent::Begin, b""), (SetupEvent::Exited(false), b"")]);
    setup
}

#[test]
fn setup_cannot_install_on_windows() {
    let mut setup = missing_encoder(Platform::Windows);
    assert_eq!(
        check_dependencies(&mut setup, SetupEvent::Chosen(0), b""),
        SetupAction::Fail(SetupError::InstallUnsupported)
    );
    assert_eq!(setup.current_phase(), Phase::Failed(SetupError::InstallUnsupported));
    assert_eq!(setup.config(), None);
    assert_eq!(
        SetupError::InstallUnsupported.message(),
        "Windows FFmpeg installation not implemented yet"
    );
}

#[test]
fn setup_installs_with_homebrew_on_macos() {
    let mut setup = missing_encoder(Platform::MacOs);
    let actions = drive(
        &mut setup,
        &[
            (SetupEvent::Chosen(0), b""),
            (SetupEvent::Exited(true), b""),
            (SetupEvent::Exited(true), b"/opt/homebrew/bin/ffmpeg\n"),
            (SetupEvent::Exited(true), b""),
        ],
    );
    assert_eq!(
        actions,
        vec![
            SetupAction::Run(Command::BrewInstall),
            SetupAction::Run(Command::LocateEncoder),
            SetupAction::Run(Command::VerifyEncoder),
            SetupAction::CheckExtractor,
        ]
    );
}

#[test]
fn setup_takes_the_first_package_manager_on_linux() {
    let mut setup = missing_encoder(Platform::Linux);
    let actions = drive(
        &mut setup,
        &[
            (SetupEvent::Chosen(0), b""),
            (SetupEvent::NotStarted, b""),
            (SetupEvent::Exited(false), b""),
            (SetupEvent::Exited(true), b""),
        ],
    );
    assert_eq!(
        actions,
        vec![
            SetupAction::Run(Command::Probe(PackageManager::Apt)),
            SetupAction::Run(Command::Probe(PackageManager::Dnf)),
            SetupAction::Run(Command::Install(PackageManager::Dnf)),
            SetupAction::Run(Command::LocateEncoder),
        ]
    );
    assert_eq!(setup.current_phase(), Phase::Locating { installed: true });
}

#[test]
fn setup_fails_without_a_package_manager() {
    let mut setup = missing_encoder(Platform::Linux);
    let actions = drive(
        &mut setup,
        &[
            (SetupEvent::Chosen(0), b""),
            (SetupEvent::NotStarted, b""),
            (SetupEvent::NotStarted, b""),
            (SetupEvent::NotStarted, b""),
        ],
    );
    assert_eq!(actions[2], SetupAction::Run(Command::Probe(PackageManager::Pacman)));
    assert_eq!(actions[3], SetupAction::Fail(SetupError::NoPackageManager));
}

#[test]
fn setup_fails_when_the_installer_fails() {
    let mut setup = missing_encoder(Platform::MacOs);
    let actions =
        drive(&mut setup, &[(SetupEvent::Chosen(0), b""), (SetupEvent::Exited(false), b"")]);
    assert_eq!(actions[1], SetupAction::Fail(SetupError::BrewFailed));
    assert_eq!(setup.current_phase(), Phase::Failed(SetupError::BrewFailed));
    assert_eq!(SetupError::BrewFailed.message(), "Failed to install FFmpeg via Homebrew");
    let mut setup = missing_encoder(Platform::Linux);
    let actions = drive(
        &mut setup,
        &[
            (SetupEvent::Chosen(0), b""),
            (SetupEvent::Exited(true), b""),
            (SetupEvent::Exited(false), b""),
        ],
    );
    assert_eq!(actions[2], SetupAction::Fail(SetupError::InstallFailed));
    assert_eq!(SetupError::InstallFailed.message(), "Failed to install FFmpeg");
    let mut setup = missing_encoder(Platform::MacOs);
    let actions = drive(&mut setup, &[(SetupEvent::Chosen(0), b""), (SetupEvent::NotStarted, b"")]);
    assert_eq!(actions[1], SetupAction::Fail(SetupError::CommandNotStarted));
}

#[test]
fn setup_fails_when_the_encoder_is_missing_after_the_installation() {
    let installed = [(SetupEvent::Chosen(0), &b""[..]), (SetupEvent::Exited(true), &b""[..])];
    let mut setup = missing_encoder(Platform::MacOs);
    drive(&mut setup, &installed);
    assert_eq!(
        check_dependencies(&mut setup, SetupEvent::Exited(false), b""),
        SetupAction::Fail(SetupError::EncoderNotFound)
    );
    let mut setup = missing_encoder(Platform::MacOs);
    drive(&mut setup, &installed);
    drive(&mut setup, &[(SetupEvent::Exited(true), b"/usr/local/bin/ffmpeg\n")]);
    assert_eq!(
        check_dependencies(&mut setup, SetupEvent::Exited(false), b""),
        SetupAction::Fail(SetupError::EncoderBroken)
    );
    let mut setup = missing_encoder(Platform::MacOs);
    drive(&mut setup, &installed);
    drive(&mut setup, &[(SetupEvent::Exited(true), &[0xff])]);
    assert_eq!(
        check_dependencies(&mut setup, SetupEvent::Exited(true), b""),
        SetupAction::Fail(SetupError::PathNotText)
    );
}

#[test]
fn setup_shows_instructions_and_leaves() {
    let mut setup = missing_encoder(Platform::Windows);
    assert_eq!(
        check_dependencies(&mut setup, SetupEvent::Chosen(1), b""),
        SetupAction::ShowInstructions(Guide::Windows)
    );
    assert_eq!(setup.current_phase(), Phase::Left);
    let mut setup = missing_encoder(Platform::MacOs);
    assert_eq!(
        check_dependencies(&mut setup, SetupEvent::Chosen(1), b""),
        SetupAction::ShowInstructions(Guide::MacOs)
    );
}

#[test]
fn setup_asks_for_the_distribution_on_linux() {
    for (index, guide) in [
        (0, Guide::Debian),
        (1, Guide::Fedora),
        (2, Guide::Arch),
        (3, Guide::OtherLinux),
    ] {
        let mut setup = missing_encoder(Platform::Linux);
        assert_eq!(
            check_dependencies(&mut setup, SetupEvent::Chosen(1), b""),
            SetupAction::AskDistro
        );
        assert_eq!(
            check_dependencies(&mut setup, SetupEvent::Chosen(index), b""),
            SetupAction::ShowInstructions(guide)
        );
        assert_eq!(setup.current_phase(), Phase::Left);
    }
}

#[test]
fn setup_leaves_at_the_users_wish() {
    let mut setup = missing_encoder(Platform::Linux);
    assert_eq!(check_dependencies(&mut setup, SetupEvent::Chosen(2), b""), SetupAction::Leave);
    assert_eq!(setup.current_phase(), Phase::Left);
    assert_eq!(check_dependencies(&mut setup, SetupEvent::Begin, b""), SetupAction::Leave);
    assert_eq!(setup.config(), None);
}

fn with_encoder(platform: Platform) -> Bootstrap {
    let mut setup = Bootstrap::new(platform);
    drive(
        &mut setup,
        &[
            (SetupEvent::Begin, b""),
            (SetupEvent::Exited(true), b"/usr/bin/ffmpeg\n"),
            (SetupEvent::Exited(true), b""),
        ],
    );
    setup
}

#[test]
fn setup_fails_when_the_extractor_cannot_be_had() {
    let mut setup = with_encoder(Platform::Linux);
    let actions =
        drive(&mut setup, &[(SetupEvent::Found(false), b""), (SetupEvent::Completed(false), b"")]);
    assert_eq!(actions[1], SetupAction::Fail(SetupError::DirectoryNotCreated));

    let mut setup = with_encoder(Platform::Linux);
    let actions = drive(
        &mut setup,
        &[
            (SetupEvent::Found(false), b""),
            (SetupEvent::Completed(true), b""),
            (SetupEvent::Completed(false), b""),
        ],
    );
    assert_eq!(actions[2], SetupAction::Fail(SetupError::DownloadFailed));

    let mut setup = with_encoder(Platform::Linux);
    let actions = drive(
        &mut setup,
        &[
            (SetupEvent::Found(false), b""),
            (SetupEvent::Completed(true), b""),
            (SetupEvent::Completed(true), b""),
            (SetupEvent::Completed(false), b""),
        ],
    );
    assert_eq!(actions[3], SetupAction::Fail(SetupError::NotMarkedExecutable));
    assert_eq!(setup.config(), None);
}

#[test]
fn setup_fails_on_a_report_out_of_turn() {
    let mut setup = with_encoder(Platform::Linux);
    assert_eq!(
        check_dependencies(&mut setup, SetupEvent::Exited(true), b""),
        SetupAction::Fail(SetupError::OutOfTurn)
    );
    assert_eq!(
        check_dependencies(&mut setup, SetupEvent::Found(true), b""),
        SetupAction::Fail(SetupError::OutOfTurn)
    );
}

#[test]
fn setup_ends_whatever_is_reported() {
    let events = [
        SetupEvent::Begin,
        SetupEvent::NotStarted,
        SetupEvent::Exited(true),
        SetupEvent::Exited(false),
        SetupEvent::Chosen(0),
        SetupEvent::Chosen(1),
        SetupEvent::Chosen(2),
        SetupEvent::Found(true),
        SetupEvent::Found(false),
        SetupEvent::Completed(true),
        SetupEvent::Completed(false),
    ];
    for platform in [Platform::Windows, Platform::MacOs, Platform::Linux] {
        for first in 0..events.len() {
            for stride in 1..events.len() {
                let mut setup = Bootstrap::new(platform);
                let mut at = first;
                let mut steps = 0;
                loop {
                    let action = check_dependencies(&mut setup, events[at], b"/usr/bin/ffmpeg\n");
                    steps += 1;
                    at = (at + stride) % events.len();
                    if matches!(
                        action,
                        SetupAction::Finish
                            | SetupAction::Fail(_)
                            | SetupAction::Leave
                            | SetupAction::ShowInstructions(_)
                    ) {
                        break;
                    }
                    assert!(steps < 15);
                }
            }
        }
    }
}

#[test]
fn command_lines() {
    let words = |platform, command| command_line(platform, command);
    assert_eq!(words(Platform::Linux, Command::LocateEncoder), vec!["which", "ffmpeg"]);
    assert_eq!(words(Platform::MacOs, Command::LocateEncoder), vec!["which", "ffmpeg"]);
    assert_eq!(words(Platform::Windows, Command::LocateEncoder), vec!["where", "ffmpeg"]);
    assert_eq!(words(Platform::Linux, Command::VerifyEncoder), vec!["ffmpeg", "-version"]);
    assert_eq!(words(Platform::Linux, Command::Probe(PackageManager::Apt)), vec!["apt"]);
    assert_eq!(words(Platform::Linux, Command::Probe(PackageManager::Dnf)), vec!["dnf"]);
    assert_eq!(words(Platform::Linux, Command::Probe(PackageManager::Pacman)), vec!["pacman"]);
    assert_eq!(
        words(Platform::Linux, Command::Install(PackageManager::Apt)),
        vec!["sudo", "apt", "install", "-y", "ffmpeg"]
    );
    assert_eq!(
        words(Platform::Linux, Command::Install(PackageManager::Dnf)),
        vec!["sudo", "dnf", "install", "-y", "ffmpeg"]
    );
    assert_eq!(
        words(Platform::Linux, Command::Install(PackageManager::Pacman)),
        vec!["sudo", "pacman", "-S", "--noconfirm", "ffmpeg"]
    );
    assert_eq!(words(Platform::MacOs, Command::BrewInstall), vec!["brew", "install", "ffmpeg"]);
}

#[test]
fn instructions_for_each_guide() {
    assert_eq!(
        instructions(Guide::Windows),
        vec![
            "1. Download FFmpeg from https://ffmpeg.org/download.html",
            "2. Extract the archive",
            "3. Add FFmpeg bin directory to your PATH environment variable",
        ]
    );
    assert_eq!(instructions(Guide::MacOs).len(), 7);
    assert_eq!(instructions(Guide::MacOs)[2], "2. Run: brew install ffmpeg");
    assert_eq!(instructions(Guide::Debian), vec!["Run: sudo apt install ffmpeg"]);
    assert_eq!(instructions(Guide::Fedora), vec!["Run: sudo dnf install ffmpeg"]);
    assert_eq!(instructions(Guide::Arch), vec!["Run: sudo pacman -S ffmpeg"]);
    assert_eq!(
        instructions(Guide::OtherLinux),
        vec!["Please check your distribution's package manager for FFmpeg installation"]
    );
}

#[test]
fn extractor_paths() {
    assert_eq!(extractor_path(Platform::Linux), "ytpd/yt-dlp");
    assert_eq!(extractor_path(Platform::MacOs), "ytpd/yt-dlp");
    assert_eq!(extractor_path(Platform::Windows), "ytpd\\yt-dlp.exe");
}

#[test]
fn setup_error_messages() {
    assert_eq!(SetupError::EncoderNotFound.message(), "FFmpeg not found");
    assert_eq!(SetupError::EncoderBroken.message(), "FFmpeg verification failed");
    assert_eq!(SetupError::NoPackageManager.message(), "No supported package manager found");
    assert_eq!(SetupError::InstallFailed.message(), "Failed to install FFmpeg");
    assert_eq!(SetupError::BrewFailed.message(), "Failed to install FFmpeg via Homebrew");
    for error in [
        SetupError::PathNotText,
        SetupError::CommandNotStarted,
        SetupError::DirectoryNotCreated,
        SetupError::DownloadFailed,
        SetupError::NotMarkedExecutable,
        SetupError::OutOfTurn,
    ] {
        assert!(!error.message().is_empty());
    }
}

#[test]
fn failure_text_prefers_the_message_of_the_system() {
    for error in [
        SetupError::CommandNotStarted,
        SetupError::DirectoryNotCreated,
        SetupError::DownloadFailed,
        SetupError::NotMarkedExecutable,
    ] {
        assert_eq!(failure_text(error, "No such file or directory"), "No such file or directory");
        assert_eq!(failure_text(error, ""), error.message());
    }
}

#[test]
fn failure_text_of_the_other_errors_is_their_own() {
    for error in [
        SetupError::EncoderNotFound,
        SetupError::EncoderBroken,
        SetupError::PathNotText,
        SetupError::InstallUnsupported,
        SetupError::NoPackageManager,
        SetupError::InstallFailed,
        SetupError::BrewFailed,
        SetupError::OutOfTurn,
    ] {
        assert_eq!(failure_text(error, "No such file or directory"), error.message());
    }
}

/// Reports `events` in order and returns the status lines of all steps.
fn told(setup: &mut Bootstrap, events: &[(SetupEvent, &[u8], &str)]) -> Vec<String> {
    let mut lines = Vec::new();
    for (event, output, detail) in events {
        let before = setup.current_phase();
        check_dependencies(setup, *event, output);
        lines.extend(status_lines(before, *event, setup.current_phase(), detail));
    }
    lines
}

#[test]
fn status_is_silent_when_both_tools_are_there() {
    let mut setup = Bootstrap::new(Platform::Linux);
    let lines = told(
        &mut setup,
        &[
            (SetupEvent::Begin, b"", ""),
            (SetupEvent::Exited(true), b"/usr/bin/ffmpeg\n", ""),
            (SetupEvent::Exited(true), b"", ""),
            (SetupEvent::Found(true), b"", ""),
        ],
    );
    assert_eq!(lines, Vec::<String>::new());
}

#[test]
fn status_of_an_encoder_that_is_not_found() {
    let mut setup = Bootstrap::new(Platform::Linux);
    let lines =
        told(&mut setup, &[(SetupEvent::Begin, b"", ""), (SetupEvent::Exited(false), b"", "")]);
    assert_eq!(
        lines,
        vec![
            "FFmpeg not found in system.",
            "⨯ FFmpeg not found",
            "",
            "FFmpeg is required but not found.",
        ]
    );
    let mut setup = Bootstrap::new(Platform::Linux);
    let lines = told(
        &mut setup,
        &[(SetupEvent::Begin, b"", ""), (SetupEvent::NotStarted, b"", "No such file or directory")],
    );
    assert_eq!(lines, vec!["⨯ FFmpeg not found", "", "FFmpeg is required but not found."]);
}

#[test]
fn status_of_an_encoder_that_does_not_answer() {
    let mut setup = Bootstrap::new(Platform::MacOs);
    let lines = told(
        &mut setup,
        &[
            (SetupEvent::Begin, b"", ""),
            (SetupEvent::Exited(true), b"/usr/local/bin/ffmpeg\n", ""),
            (SetupEvent::Exited(false), b"", ""),
        ],
    );
    assert_eq!(
        lines,
        vec![
            "FFmpeg installation appears to be broken.",
            "⨯ FFmpeg not found",
            "",
            "FFmpeg is required but not found.",
        ]
    );
}

#[test]
fn status_of_an_installation_that_went_well() {
    let mut setup = missing_encoder(Platform::MacOs);
    let lines = told(
        &mut setup,
        &[
            (SetupEvent::Chosen(0), b"", ""),
            (SetupEvent::Exited(true), b"", ""),
            (SetupEvent::Exited(true), b"/opt/homebrew/bin/ffmpeg\n", ""),
            (SetupEvent::Exited(true), b"", ""),
            (SetupEvent::Found(false), b"", ""),
            (SetupEvent::Completed(true), b"", ""),
            (SetupEvent::Completed(true), b"", ""),
            (SetupEvent::Completed(true), b"", ""),
        ],
    );
    assert_eq!(
        lines,
        vec![
            "✓ FFmpeg installed successfully",
            "⨯ yt-dlp not found",
            "✓ yt-dlp installed successfully",
        ]
    );
}

#[test]
fn status_of_a_failed_installation() {
    let mut setup = missing_encoder(Platform::MacOs);
    let lines =
        told(&mut setup, &[(SetupEvent::Chosen(0), b"", ""), (SetupEvent::Exited(false), b"", "")]);
    assert_eq!(lines, vec!["⨯ Failed to install FFmpeg: Failed to install FFmpeg via Homebrew"]);

    let mut setup = missing_encoder(Platform::MacOs);
    let lines = told(
        &mut setup,
        &[(SetupEvent::Chosen(0), b"", ""), (SetupEvent::NotStarted, b"", "No such file or directory")],
    );
    assert_eq!(lines, vec!["⨯ Failed to install FFmpeg: No such file or directory"]);

    let mut setup = missing_encoder(Platform::Linux);
    let lines = told(
        &mut setup,
        &[
            (SetupEvent::Chosen(0), b"", ""),
            (SetupEvent::NotStarted, b"", "No such file or directory"),
            (SetupEvent::NotStarted, b"", "No such file or directory"),
            (SetupEvent::NotStarted, b"", "No such file or directory"),
        ],
    );
    assert_eq!(lines, vec!["⨯ Failed to install FFmpeg: No supported package manager found"]);

    let mut setup = missing_encoder(Platform::Linux);
    let lines = told(
        &mut setup,
        &[
            (SetupEvent::Chosen(0), b"", ""),
            (SetupEvent::Exited(true), b"", ""),
            (SetupEvent::Exited(true), b"", ""),
            (SetupEvent::Exited(false), b"", ""),
        ],
    );
    assert_eq!(
        lines,
        vec!["FFmpeg not found in system.", "⨯ Failed to install FFmpeg: FFmpeg not found"]
    );
}

#[test]
fn status_of_the_installation_on_windows() {
    let mut setup = missing_encoder(Platform::Windows);
    let lines = told(&mut setup, &[(SetupEvent::Chosen(0), b"", "")]);
    assert_eq!(
        lines,
        vec![
            "Windows FFmpeg automatic installation not implemented yet.",
            "Please install FFmpeg manually from https://ffmpeg.org/download.html",
            "⨯ Failed to install FFmpeg: Windows FFmpeg installation not implemented yet",
        ]
    );
}

#[test]
fn status_of_an_extractor_that_cannot_be_had() {
    let mut setup = with_encoder(Platform::Linux);
    let lines = told(
        &mut setup,
        &[
            (SetupEvent::Found(false), b"", ""),
            (SetupEvent::Completed(true), b"", ""),
            (SetupEvent::Completed(false), b"", "connection refused"),
        ],
    );
    assert_eq!(lines, vec!["⨯ yt-dlp not found", "⨯ Failed to install yt-dlp: connection refused"]);
    assert_eq!(told(&mut setup, &[(SetupEvent::Begin, b"", "")]), Vec::<String>::new());
}

#[test]
fn status_is_silent_when_the_user_leaves() {
    let mut setup = missing_encoder(Platform::Linux);
    assert_eq!(told(&mut setup, &[(SetupEvent::Chosen(2), b"", "")]), Vec::<String>::new());
    let mut setup = missing_encoder(Platform::Linux);
    assert_eq!(
        told(&mut setup, &[(SetupEvent::Chosen(1), b"", ""), (SetupEvent::Chosen(0), b"", "")]),
        Vec::<String>::new()
    );
}

#[test]
fn progress_labels() {
    assert_eq!(progress_label(Command::BrewInstall), Some("Installing FFmpeg via Homebrew..."));
    for manager in [PackageManager::Apt, PackageManager::Dnf, PackageManager::Pacman] {
        assert_eq!(progress_label(Command::Install(manager)), Some("Installing FFmpeg..."));
        assert_eq!(progress_label(Command::Probe(manager)), None);
    }
    assert_eq!(progress_label(Command::LocateEncoder), None);
    assert_eq!(progress_label(Command::VerifyEncoder), None);
}
