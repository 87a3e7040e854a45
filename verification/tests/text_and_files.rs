use lact::confirmation::{confirmation_text, confirm_command, ConfirmCommand, ConfirmationCountdown, CountdownStep, ErrorDialogs};
use lact::error_text::error_text;
use lact::files::{export_file_name, profile_name_from_file_name, trim_end_matches, trim_start_matches, vbios_dump_file_name};
use lact::startup::{check_driver, embedded_info_text, snapshot_saved_text, version_mismatch_message, versions_match, DriverCheck};
use lact::text::parse_u32;

#[test]
fn parse_u32_follows_std() {
    for s in ["", "+", "-", "0", "007", "+42", "-1", "4294967295", "4294967296", "12a", " 1", "99999999999999999999"] {
        assert_eq!(parse_u32(s), s.parse::<u32>().ok(), "input {s:?}");
    }
}

#[test]
fn confirmation_text_counts_down() {
    assert_eq!(confirmation_text(5), "Do you want to keep the new settings? (Reverting in 5 seconds)");
    assert_eq!(confirmation_text(0), "Do you want to keep the new settings? (Reverting in 0 seconds)");
    assert_eq!(
        confirmation_text(18446744073709551615),
        "Do you want to keep the new settings? (Reverting in 18446744073709551615 seconds)"
    );
}

#[test]
fn countdown_expires_after_its_seconds() {
    let mut c = ConfirmationCountdown::new(3);
    assert_eq!(c.tick(), CountdownStep::Update(2));
    assert_eq!(c.tick(), CountdownStep::Update(1));
    assert_eq!(c.tick(), CountdownStep::Expire);

    let mut c = ConfirmationCountdown::new(10);
    assert_eq!(c.tick(), CountdownStep::Update(9));
    c.answer();
    assert_eq!(c.tick(), CountdownStep::Stop);
    assert_eq!(confirm_command(true), ConfirmCommand::Confirm);
    assert_eq!(confirm_command(false), ConfirmCommand::Revert);
}

#[test]
fn at_most_three_error_dialogs() {
    let mut d = ErrorDialogs::new();
    assert!(d.try_open());
    assert!(d.try_open());
    assert!(d.try_open());
    assert!(!d.try_open());
    assert_eq!(d.open, 3);
    d.close();
    assert!(d.try_open());
}

#[test]
fn error_text_trims_every_line() {
    let text = "Error: failed\r\n   caused by:  \n\t  disk full\t\n";
    let expected: Vec<&str> = text.lines().map(str::trim).collect();
    assert_eq!(error_text(text), expected.join("\n"));
    assert_eq!(error_text(text), "Error: failed\ncaused by:\ndisk full");
    assert_eq!(error_text(""), "");
    assert_eq!(error_text("\n\n"), "\n");
    assert_eq!(error_text("a\r"), "a");
}

#[test]
fn profile_file_names_round_trip() {
    assert_eq!(export_file_name(Some("Gaming")), "LACT-profile-Gaming.json");
    assert_eq!(export_file_name(None), "LACT-profile-default.json");
    assert_eq!(profile_name_from_file_name(Some("LACT-profile-Gaming.json")), "Gaming");
    assert_eq!(profile_name_from_file_name(Some("LACT-profile-default.json")), "default");
    assert_eq!(profile_name_from_file_name(None), "Imported profile");
    assert_eq!(profile_name_from_file_name(Some("LACT-profile-LACT-profile-x.json.json")), "x");
    assert_eq!(profile_name_from_file_name(Some("plain")), "plain");
    let name = "Quiet";
    assert_eq!(profile_name_from_file_name(Some(&export_file_name(Some(name)))), name);
}

#[test]
fn trims_match_std() {
    for (s, p) in [("aaab", "a"), ("abab", "ab"), ("", "x"), ("xyxy", "xy"), ("abc", "")] {
        assert_eq!(trim_start_matches(s, p), s.trim_start_matches(p));
        assert_eq!(trim_end_matches(s, p), s.trim_end_matches(p));
    }
}

#[test]
fn vbios_file_name_from_gpu_id() {
    assert_eq!(vbios_dump_file_name(Some("1002:744C-1EAE:7905-0000:03:00.0")), "1002_744C_vbios_dump.rom");
    assert_eq!(vbios_dump_file_name(Some("nodash")), "_vbios_dump.rom");
    assert_eq!(vbios_dump_file_name(None), "_vbios_dump.rom");
    assert_eq!(vbios_dump_file_name(Some("-rest")), "_vbios_dump.rom");
}

#[test]
fn driver_checks() {
    assert_eq!(check_driver("nvidia"), DriverCheck::ManagementLibraryMissing);
    assert_eq!(check_driver("nvidia 550.54.14"), DriverCheck::OldNvidiaDriver(550));
    assert_eq!(check_driver("nvidia 560.35.03"), DriverCheck::Supported);
    assert_eq!(check_driver("nvidia 470"), DriverCheck::OldNvidiaDriver(470));
    assert_eq!(check_driver("nvidia beta"), DriverCheck::Supported);
    assert_eq!(check_driver("amdgpu"), DriverCheck::Supported);
    assert_eq!(check_driver("nvidia-open"), DriverCheck::Supported);
}

#[test]
fn version_checks_and_messages() {
    assert!(versions_match("0.8.0", Some("abc"), "0.8.0", "abc"));
    assert!(!versions_match("0.8.0", None, "0.8.0", "abc"));
    assert!(!versions_match("0.7.0", Some("abc"), "0.8.0", "abc"));
    assert_eq!(
        version_mismatch_message("0.7.0", None, "0.8.0", "abc"),
        "Version mismatch between GUI and daemon (0.8.0-abc vs 0.7.0-)! If you have updated LACT, you need to restart the service with sudo systemctl restart lactd."
    );
    assert_eq!(snapshot_saved_text("/tmp/s.tar.gz"), "Debug snapshot saved at <b>/tmp/s.tar.gz</b>");
    let info = embedded_info_text("socket missing");
    assert!(info.starts_with("Could not connect to daemon, running in embedded mode. \nPlease make sure"));
    assert!(info.contains("\n\nError info: socket missing\n\nTo enable the daemon"));
}

#[test]
fn whitespace_matches_std_for_every_char() {
    for u in 0..=0x10FFFFu32 {
        if let Some(c) = char::from_u32(u) {
            assert_eq!(lact::error_text::is_whitespace(c), c.is_whitespace(), "U+{u:04X}");
        }
    }
}
