use vstd::prelude::*;
use vstd::string::*;

use crate::files::{find_char, first_index};
use crate::lex::{lex_compare, LexOrder};
use crate::text::{has_prefix, matches_at, parse_u32, spec_parse_u32};

verus! {

/// What the driver name of the first GPU tells about NVIDIA support.
#[derive(Debug, Clone, Copy, PartialEq, Eq, Structural)]
pub enum DriverCheck {
    /// Nothing to object to.
    Supported,
    /// The NVIDIA driver is loaded but the daemon could not load its management library.
    ManagementLibraryMissing,
    /// The NVIDIA driver has this major version, older than 560.
    OldNvidiaDriver(u32),
}

/// The oldest NVIDIA driver major version that has every feature.
pub const MIN_NVIDIA_MAJOR_VERSION: u32 = 560;

/// The major version in an NVIDIA driver version string: the number before
/// the first `.`, if it parses.
pub open spec fn spec_major_version(version: Seq<char>) -> Option<u32> {
    spec_parse_u32(version.take(first_index(version, '.', 0)))
}

/// The verdict on a GPU driver named `driver`: plain `nvidia` means the
/// management library is missing; `nvidia <version>` with a major version
/// below 560 is too old.
pub open spec fn spec_check_driver(driver: Seq<char>) -> DriverCheck {
    let prefix = "nvidia "@;
    if driver == "nvidia"@ {
        DriverCheck::ManagementLibraryMissing
    } else if has_prefix(driver, prefix) {
        match spec_major_version(driver.skip(prefix.len() as int)) {
            Some(major) if major < MIN_NVIDIA_MAJOR_VERSION => DriverCheck::OldNvidiaDriver(major),
            _ => DriverCheck::Supported,
        }
    } else {
        DriverCheck::Supported
    }
}

/// Checks the driver of the first GPU before its data is shown.
pub fn check_driver(driver: &str) -> (r: DriverCheck)
    ensures
        r == spec_check_driver(driver@),
{
    if let LexOrder::Equal = lex_compare(driver, "nvidia") {
        return DriverCheck::ManagementLibraryMissing;
    }
    let prefix = "nvidia ";
    proof {
        reveal_strlit("nvidia ");
    }
    assert(driver@.skip(0) =~= driver@);
    if !matches_at(driver, prefix, 0) {
        return DriverCheck::Supported;
    }
    let n = driver.unicode_len();
    let version = driver.substring_char(7, n);
    assert(version@ =~= driver@.skip(7));
    let dot = find_char(version, '.');
    let major_text = version.substring_char(0, dot);
    assert(major_text@ =~= version@.take(dot as int));
    match parse_u32(major_text) {
        Some(major) => {
            if major < MIN_NVIDIA_MAJOR_VERSION {
                DriverCheck::OldNvidiaDriver(major)
            } else {
                DriverCheck::Supported
            }
        },
        None => DriverCheck::Supported,
    }
}

/// Whether the daemon runs the same build as the GUI: same version and a
/// commit that equals the GUI's.
pub open spec fn spec_versions_match(
    daemon_version: Seq<char>,
    daemon_commit: Option<Seq<char>>,
    gui_version: Seq<char>,
    gui_commit: Seq<char>,
) -> bool {
    daemon_version == gui_version && daemon_commit == Some(gui_commit)
}

/// Whether the daemon and the GUI come from the same build.
pub fn versions_match(daemon_version: &str, daemon_commit: Option<&str>, gui_version: &str, gui_commit: &str) -> (r: bool)
    ensures
        r == spec_versions_match(
            daemon_version@,
            match daemon_commit {
                Some(c) => Some(c@),
                None => None,
            },
            gui_version@,
            gui_commit@,
        ),
{
    let same_version = match lex_compare(daemon_version, gui_version) {
        LexOrder::Equal => true,
        _ => false,
    };
    let same_commit = match daemon_commit {
        Some(commit) => match lex_compare(commit, gui_commit) {
            LexOrder::Equal => true,
            _ => false,
        },
        None => false,
    };
    same_version && same_commit
}

/// The message shown when the daemon and the GUI come from different builds.
pub open spec fn spec_version_mismatch_message(
    daemon_version: Seq<char>,
    daemon_commit: Option<Seq<char>>,
    gui_version: Seq<char>,
    gui_commit: Seq<char>,
) -> Seq<char> {
    "Version mismatch between GUI and daemon ("@ + gui_version + "-"@ + gui_commit + " vs "@
        + daemon_version + "-"@ + match daemon_commit {
        Some(c) => c,
        None => Seq::empty(),
    }
        + ")! If you have updated LACT, you need to restart the service with sudo systemctl restart lactd."@
}

/// The message shown when the daemon and the GUI come from different builds.
pub fn version_mismatch_message(
    daemon_version: &str,
    daemon_commit: Option<&str>,
    gui_version: &str,
    gui_commit: &str,
) -> (r: String)
    ensures
        r@ == spec_version_mismatch_message(
            daemon_version@,
            match daemon_commit {
                Some(c) => Some(c@),
                None => None,
            },
            gui_version@,
            gui_commit@,
        ),
{
    let mut out = String::from_str("Version mismatch between GUI and daemon (");
    out.append(gui_version);
    out.append("-");
    out.append(gui_commit);
    out.append(" vs ");
    out.append(daemon_version);
    out.append("-");
    match daemon_commit {
        Some(c) => out.append(c),
        None => {
            out.append("");
            proof {
                reveal_strlit("");
            }
        },
    }
    out.append(
        ")! If you have updated LACT, you need to restart the service with sudo systemctl restart lactd.",
    );
    out
}

/// The driver verdicts: the management library is missing exactly for the
/// bare name `nvidia`; a driver is too old only when it is named
/// `nvidia <version>` and the major version (the number before the first
/// `.`) parses and is below 560, and then the verdict carries that major
/// version; every other driver is supported.
pub proof fn lemma_driver_verdicts(driver: Seq<char>)
    ensures
        spec_check_driver(driver) == DriverCheck::ManagementLibraryMissing <==> driver == "nvidia"@,
        spec_check_driver(driver) matches DriverCheck::OldNvidiaDriver(m) ==> {
            &&& m < 560
            &&& has_prefix(driver, "nvidia "@)
            &&& spec_major_version(driver.skip(7)) == Some(m)
        },
        driver != "nvidia"@ && has_prefix(driver, "nvidia "@) && (spec_major_version(driver.skip(7)) matches Some(
            m,
        ) && m < 560) ==> spec_check_driver(driver) == DriverCheck::OldNvidiaDriver(
            spec_major_version(driver.skip(7)).unwrap(),
        ),
        !has_prefix(driver, "nvidia "@) && driver != "nvidia"@ ==> spec_check_driver(driver)
            == DriverCheck::Supported,
{
    reveal_strlit("nvidia ");
    reveal_strlit("nvidia");
}

} // verus!

verus! {

/// The notice shown when the GUI runs its own embedded daemon.
pub open spec fn spec_embedded_info_text(error: Seq<char>) -> Seq<char> {
    "Could not connect to daemon, running in embedded mode. \nPlease make sure that lactd service is running. \nUsing embedded mode, you will not be able to change any settings. \n\n"@
        + "Error info: "@ + error + "\n\n"@
        + "To enable the daemon, run the following command, then restart LACT:"@
}

/// The notice shown when the GUI could not reach the daemon and runs its
/// own, with the connection error.
pub fn embedded_info_text(error: &str) -> (r: String)
    ensures
        r@ == spec_embedded_info_text(error@),
{
    let mut out = String::from_str(
        "Could not connect to daemon, running in embedded mode. \nPlease make sure that lactd service is running. \nUsing embedded mode, you will not be able to change any settings. \n\n",
    );
    out.append("Error info: ");
    out.append(error);
    out.append("\n\n");
    out.append("To enable the daemon, run the following command, then restart LACT:");
    out
}

/// The notice that a debug snapshot was written to `path`.
pub fn snapshot_saved_text(path: &str) -> (r: String)
    ensures
        r@ == "Debug snapshot saved at <b>"@ + path@ + "</b>"@,
{
    let mut out = String::from_str("Debug snapshot saved at <b>");
    out.append(path);
    out.append("</b>");
    out
}

} // verus!
